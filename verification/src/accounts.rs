//! The accounts that an instruction is handed: who signed, and the stored
//! accounts it reads and writes.

use crate::identity::Identity;
use crate::state::{PaymentRecord, Property, PropertyRegistry, PropertyVault};
use vstd::prelude::*;

verus! {

/// A party that signed the instruction, with the value it holds.
#[derive(Clone, Copy, Debug, PartialEq, Eq)]
pub struct Signer {
    pub key: Identity,
    pub lamports: u64,
}

/// A stored account: its address, the value it holds and what it stores.
#[derive(Clone, Copy, Debug, PartialEq, Eq)]
pub struct Account<T> {
    pub key: Identity,
    pub lamports: u64,
    pub data: T,
}

/// An instruction's surroundings: the program it runs under and its accounts.
#[derive(Clone, Copy, Debug, PartialEq, Eq)]
pub struct Context<T> {
    pub program_id: Identity,
    pub accounts: T,
}

/// The accounts of `create_property`.
#[derive(Clone, Debug, PartialEq, Eq)]
pub struct CreateProperty {
    pub creator: Signer,
    pub registry: Account<PropertyRegistry>,
    pub property: Account<Property>,
}

/// The accounts of `fund_property`.
#[derive(Clone, Copy, Debug, PartialEq, Eq)]
pub struct FundProperty {
    pub payer: Signer,
    pub property_vault: Account<PropertyVault>,
    pub payment_record: Account<PaymentRecord>,
}

/// The accounts of `withdraw_my_payment`.
#[derive(Clone, Copy, Debug, PartialEq, Eq)]
pub struct WithdrawMyPayment {
    pub payer: Signer,
    pub payment_record: Account<PaymentRecord>,
    pub property_vault: Account<PropertyVault>,
}

/// The accounts of `withdraw_master`.
#[derive(Clone, Copy, Debug, PartialEq, Eq)]
pub struct WithdrawMaster {
    pub master: Signer,
    pub property_vault: Account<PropertyVault>,
}

} // verus!
