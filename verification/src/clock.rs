//! The ledger's clock. The time is the ledger's to say: the transitions read
//! it here and take it from no caller.

use vstd::prelude::*;
use anchor_lang::solana_program::clock::Clock;
use anchor_lang::solana_program::program_error::ProgramError;
use anchor_lang::solana_program::sysvar::Sysvar;
use crate::state::ErrorCode;

verus! {

/// `ProgramError` of `solana_program`: the failure that the ledger reports
/// for a reading that it cannot serve. Carried through, never looked into.
#[verifier::external_type_specification]
#[verifier::external_body]
pub struct ExProgramError(anchor_lang::solana_program::program_error::ProgramError);

/// Calls `Clock::get` of `solana_program`, which asks the running ledger for
/// its clock, and picks the clock's `unix_timestamp`. Its body is not
/// verified, and nothing is claimed of the outcome: away from a ledger the
/// reading fails, and on one the time is whatever the ledger has agreed on.
#[verifier::external_body]
fn read_clock() -> (r: Result<i64, ProgramError>) {
    Clock::get().map(|clock| clock.unix_timestamp)
}

/// What a reading of the clock means to the transitions: the time that was
/// read, or `ClockUnavailable` for any failure of the ledger.
pub open spec fn time_of(reading: Result<i64, ProgramError>) -> Result<i64, ErrorCode> {
    match reading {
        Ok(now) => Ok(now),
        Err(_) => Err(ErrorCode::ClockUnavailable),
    }
}

/// Turns a reading of the clock into the time or the library's own failure.
pub fn time_from(reading: Result<i64, ProgramError>) -> (r: Result<i64, ErrorCode>)
    ensures
        r == time_of(reading),
{
    match reading {
        Ok(now) => Ok(now),
        Err(_) => Err(ErrorCode::ClockUnavailable),
    }
}

/// The ledger time, or `ClockUnavailable` where the ledger gives none. What
/// the clock says is the ledger's affair; of the result only this holds
/// whatever it said.
pub fn ledger_time() -> (r: Result<i64, ErrorCode>)
    ensures
        r is Err ==> r == Err::<i64, ErrorCode>(ErrorCode::ClockUnavailable),
{
    time_from(read_clock())
}

} // verus!
