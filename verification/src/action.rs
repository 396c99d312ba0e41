//! What a transition asks of the outside services: movements of native value
//! and of accounting shares, each with the authority that signs for it.

use vstd::prelude::*;
use crate::identity::Identity;

verus! {

/// Who authorizes a movement.
#[derive(Clone, Copy, Debug, PartialEq, Eq)]
pub enum Authority {
    /// The signature of a party to the transaction.
    Signer(Identity),
    /// The registry's own capability, derived from its fixed seed.
    Registry { bump: u8 },
    /// The capability of the vault of `owner`, derived from the owner's
    /// identity. No secret is stored for it.
    Vault { owner: Identity, bump: u8 },
}

/// One call to an outside service.
#[derive(Clone, Copy, Debug, PartialEq, Eq)]
pub enum Action {
    /// Move `amount` of native value from the holding account `from` to `to`.
    Transfer { from: Identity, to: Identity, amount: u64 },
    /// Mint `amount` shares of `mint` to the share balance of `to`.
    Mint { mint: Identity, to: Identity, amount: u64, authority: Authority },
    /// Burn `amount` shares of `mint` from the share balance of `from`.
    Burn { mint: Identity, from: Identity, amount: u64, authority: Authority },
    /// Let `delegate` move up to `amount` shares of the balance of `holder`.
    Approve { holder: Identity, delegate: Authority, amount: u64, authority: Authority },
}

/// The seed of the registry's capability: the ASCII bytes of `global_state`.
pub open spec fn registry_seed() -> Seq<u8> {
    seq![103u8, 108u8, 111u8, 98u8, 97u8, 108u8, 95u8, 115u8, 116u8, 97u8, 116u8, 101u8]
}

/// The first seed of a vault's capability: the ASCII bytes of `escrow_vault`.
pub open spec fn vault_seed() -> Seq<u8> {
    seq![101u8, 115u8, 99u8, 114u8, 111u8, 119u8, 95u8, 118u8, 97u8, 117u8, 108u8, 116u8]
}

/// The seeds from which an authority's signing capability is derived. A
/// signer brings a signature and has none.
pub open spec fn seeds_of(authority: Authority) -> Seq<Seq<u8>> {
    match authority {
        Authority::Signer(_) => Seq::<Seq<u8>>::empty(),
        Authority::Registry { bump } => seq![registry_seed(), seq![bump]],
        Authority::Vault { owner, bump } => seq![vault_seed(), owner@, seq![bump]],
    }
}

/// The bytes of an identity as a vector.
pub fn identity_bytes(id: &Identity) -> (bytes: Vec<u8>)
    ensures
        bytes@ == id@,
{
    let mut bytes: Vec<u8> = Vec::new();
    let mut i: usize = 0;
    while i < 32
        invariant
            i <= 32,
            bytes@.len() == i,
            forall|j: int| 0 <= j < i ==> bytes@[j] == id.bytes[j],
        decreases 32 - i,
    {
        bytes.push(id.bytes[i]);
        i += 1;
    }
    proof {
        broadcast use vstd::array::group_array_axioms;
        assert(bytes@ =~= id@);
    }
    bytes
}

impl Authority {
    /// The seeds to sign with, in the order in which the capability is
    /// derived from them.
    pub fn signer_seeds(&self) -> (seeds: Vec<Vec<u8>>)
        ensures
            seeds.deep_view() == seeds_of(*self),
    {
        let mut seeds: Vec<Vec<u8>> = Vec::new();
        match self {
            Authority::Signer(_) => {},
            Authority::Registry { bump } => {
                let seed: Vec<u8> = vec![103u8, 108u8, 111u8, 98u8, 97u8, 108u8, 95u8, 115u8, 116u8, 97u8, 116u8, 101u8];
                let tail: Vec<u8> = vec![*bump];
                assert(seed@ =~= registry_seed());
                assert(tail@ =~= seq![*bump]);
                seeds.push(seed);
                seeds.push(tail);
            },
            Authority::Vault { owner, bump } => {
                let seed: Vec<u8> = vec![101u8, 115u8, 99u8, 114u8, 111u8, 119u8, 95u8, 118u8, 97u8, 117u8, 108u8, 116u8];
                let key: Vec<u8> = identity_bytes(owner);
                let tail: Vec<u8> = vec![*bump];
                assert(seed@ =~= vault_seed());
                assert(tail@ =~= seq![*bump]);
                seeds.push(seed);
                seeds.push(key);
                seeds.push(tail);
            },
        }
        assert(seeds.deep_view() =~~= seeds_of(*self));
        seeds
    }
}

} // verus!
