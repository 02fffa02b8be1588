//! The ways a deal operation can fail.
use vstd::prelude::*;

verus! {

/// Why an operation aborted; an aborted operation changes nothing.
#[derive(Clone, Copy, Debug, PartialEq, Eq, Structural)]
pub enum EscrowError {
    /// The supplied record address is not the one its seeds and derivation tag give.
    AddressMismatch,
    /// The holding is not controlled by the address derived from the record.
    VaultMismatch,
    /// The signer is not the party the operation requires.
    Unauthorized,
    /// The paying account holds less than the amount to move.
    InsufficientFunds,
    /// No record and holding exist for the deal: it was settled or never made.
    RecordNotFound,
    /// A record or a holding already exists where the deal would be created.
    AlreadyExists,
    /// A token account is not the one of the owner and asset the deal requires.
    AccountMismatch,
    /// A deposit or a wanted amount of zero.
    ZeroAmount,
    /// A receiving balance would exceed the largest amount an account can hold.
    Overflow,
}

} // verus!
