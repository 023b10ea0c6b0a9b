//! Why an instruction is turned down.

use vstd::prelude::*;

verus! {

/// The program's own reasons for turning an instruction down.
#[derive(Clone, Copy, Debug, PartialEq, Eq, Structural)]
pub enum ErrorCode {
    /// A contributor asked to withdraw from a record that is already drawn down.
    AlreadyWithdrawn,
    /// The caller of the privileged withdrawal is not the configured authority.
    Unauthorized,
    /// A contributor asked for more than the record still holds for them.
    InsufficientFunds,
    /// The vault holds less than the amount asked for.
    VaultInsufficientFunds,
    /// A property name is longer than the registry takes.
    NameTooLong,
    /// An image address is longer than the registry takes.
    ImageUrlTooLong,
    /// The registry has run out of property identifiers.
    IdOverflow,
}

/// Every reason for turning an instruction down: the program's own, and those of
/// the account checks and of the movement of value that surround it.
#[derive(Clone, Copy, Debug, PartialEq, Eq, Structural)]
pub enum Rejection {
    /// One of the program's own reasons.
    Program(ErrorCode),
    /// An account handed in does not sit at the address derived for it.
    ConstraintSeeds,
    /// The payment record handed in belongs to somebody else.
    ConstraintHasOne,
    /// The paying party holds less than the amount to move.
    InsufficientLamports,
    /// The receiving party's holding cannot take the amount.
    ArithmeticOverflow,
}

/// The result that goes with the first failed check, if any.
pub open spec fn verdict(refusal: Option<Rejection>) -> Result<(), Rejection> {
    match refusal {
        Some(reason) => Err(reason),
        None => Ok(()),
    }
}

impl ErrorCode {
    /// The text shown for this reason.
    pub open spec fn spec_message(self) -> Seq<char> {
        match self {
            ErrorCode::AlreadyWithdrawn => "Payment already withdrawn"@,
            ErrorCode::Unauthorized => "Unauthorized"@,
            ErrorCode::InsufficientFunds => "Insufficient deposit balance"@,
            ErrorCode::VaultInsufficientFunds => "Insufficient funds in the vault"@,
            ErrorCode::NameTooLong => "Property name too long"@,
            ErrorCode::ImageUrlTooLong => "Image URL too long"@,
            ErrorCode::IdOverflow => "Property id overflow"@,
        }
    }

    /// The text shown for this reason.
    pub fn message(&self) -> (text: &'static str)
        ensures
            text@ == self.spec_message(),
    {
        match self {
            ErrorCode::AlreadyWithdrawn => "Payment already withdrawn",
            ErrorCode::Unauthorized => "Unauthorized",
            ErrorCode::InsufficientFunds => "Insufficient deposit balance",
            ErrorCode::VaultInsufficientFunds => "Insufficient funds in the vault",
            ErrorCode::NameTooLong => "Property name too long",
            ErrorCode::ImageUrlTooLong => "Image URL too long",
            ErrorCode::IdOverflow => "Property id overflow",
        }
    }
}

} // verus!
