use anchor_lang::prelude::{Clock, ProgramError, Pubkey, SolanaSysvar};
use vstd::prelude::*;

verus! {

/// The address of an account, `solana_program::pubkey::Pubkey`. The launchpad
/// names owners and contributors by it and never looks inside.
#[verifier::external_type_specification]
#[verifier::external_body]
pub struct ExPubkey(Pubkey);

/// The error of the runtime, `solana_program::program_error::ProgramError`.
#[verifier::external_type_specification]
#[verifier::external_body]
pub struct ExProgramError(ProgramError);

/// `Pubkey`'s `==`, which the crate derives over the 32 bytes of the address.
/// Assumed: it answers `true` for two addresses exactly when they are the same
/// address.
pub assume_specification[ <Pubkey as PartialEq>::eq ](a: &Pubkey, b: &Pubkey) -> (same: bool)
    ensures
        same == (*a == *b),
;

/// Reads the clock of the runtime with `Clock::get` and hands out its
/// `unix_timestamp`, in seconds. Nothing is assumed of the reading: the call
/// may fail, and two calls may differ.
#[verifier::external_body]
pub(crate) fn unix_timestamp() -> Result<i64, ProgramError> {
    Clock::get().map(|clock| clock.unix_timestamp)
}

} // verus!
