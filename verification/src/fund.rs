//! Funding a property: value moves from a contributor to the property's vault,
//! and the contributor's payment record takes note of it.

use crate::accounts::{Account, Context, FundProperty, Signer};
use crate::address::{
    address_view, find_payment_address, find_vault_address, names_account, payment_address,
    sits_at, vault_address,
};
use crate::error::{verdict, Rejection};
use crate::identity::Identity;
use crate::state::PropertyVault;
use crate::transfer::{transfer, transfer_refusal};
use vstd::prelude::*;

verus! {

/// Why a funding is turned down, if it is: the vault or the record handed in does
/// not sit at the address derived for it, or the value cannot move.
pub open spec fn fund_refusal(
    ctx: Context<FundProperty>,
    vault_at: Option<(Seq<u8>, u8)>,
    record_at: Option<(Seq<u8>, u8)>,
    amount: u64,
) -> Option<Rejection> {
    if !names_account(vault_at, ctx.accounts.property_vault.key) {
        Some(Rejection::ConstraintSeeds)
    } else if !names_account(record_at, ctx.accounts.payment_record.key) {
        Some(Rejection::ConstraintSeeds)
    } else {
        transfer_refusal(ctx.accounts.payer.lamports, ctx.accounts.property_vault.lamports, amount)
    }
}

/// The accounts after a funding that was accepted: the amount has moved from the
/// contributor to the vault, the vault names the property, and the record has
/// taken the deposit.
pub open spec fn funded(ctx: Context<FundProperty>, property_id: u32, amount: u64) -> Context<
    FundProperty,
> {
    let payer = ctx.accounts.payer;
    let vault = ctx.accounts.property_vault;
    let record = ctx.accounts.payment_record;
    Context {
        program_id: ctx.program_id,
        accounts: FundProperty {
            payer: Signer { lamports: (payer.lamports - amount) as u64, ..payer },
            property_vault: Account {
                lamports: (vault.lamports + amount) as u64,
                data: PropertyVault { property_id, ..vault.data },
                ..vault
            },
            payment_record: Account {
                data: record.data.after_deposit(payer.key, property_id, amount),
                ..record
            },
        },
    }
}

/// The accounts after a funding: as `funded` says where it was accepted, as they
/// were where it was turned down.
pub open spec fn after_fund(
    ctx: Context<FundProperty>,
    vault_at: Option<(Seq<u8>, u8)>,
    record_at: Option<(Seq<u8>, u8)>,
    property_id: u32,
    amount: u64,
) -> Context<FundProperty> {
    if fund_refusal(ctx, vault_at, record_at, amount) is None {
        funded(ctx, property_id, amount)
    } else {
        ctx
    }
}

/// Funds a property, given the addresses at which its vault and the
/// contributor's record must sit.
pub fn fund_property_at(
    ctx: &mut Context<FundProperty>,
    vault_at: Option<(Identity, u8)>,
    record_at: Option<(Identity, u8)>,
    property_id: u32,
    amount: u64,
) -> (outcome: Result<(), Rejection>)
    ensures
        outcome == verdict(
            fund_refusal(*old(ctx), address_view(vault_at), address_view(record_at), amount),
        ),
        *final(ctx) == after_fund(
            *old(ctx),
            address_view(vault_at),
            address_view(record_at),
            property_id,
            amount,
        ),
        final(ctx).accounts.payer.lamports + final(ctx).accounts.property_vault.lamports == old(
            ctx,
        ).accounts.payer.lamports + old(ctx).accounts.property_vault.lamports,
        old(ctx).accounts.payment_record.data.wf() ==> final(ctx).accounts.payment_record.data.wf(),
{
    if !sits_at(&vault_at, &ctx.accounts.property_vault.key) {
        return Err(Rejection::ConstraintSeeds);
    }
    if !sits_at(&record_at, &ctx.accounts.payment_record.key) {
        return Err(Rejection::ConstraintSeeds);
    }
    match transfer(
        &mut ctx.accounts.payer.lamports,
        &mut ctx.accounts.property_vault.lamports,
        amount,
    ) {
        Err(reason) => {
            return Err(reason);
        },
        Ok(()) => {},
    }
    ctx.accounts.property_vault.data.property_id = property_id;
    let payer = ctx.accounts.payer.key;
    ctx.accounts.payment_record.data.deposit(payer, property_id, amount);
    Ok(())
}

/// Funds a property: moves `amount` from the contributor to the vault of
/// `property_id` and notes it in the contributor's record, or turns the
/// instruction down and changes nothing.
pub fn fund_property(ctx: &mut Context<FundProperty>, property_id: u32, amount: u64) -> (outcome:
    Result<(), Rejection>)
    ensures
        outcome == verdict(
            fund_refusal(
                *old(ctx),
                vault_address(old(ctx).program_id, property_id),
                payment_address(old(ctx).program_id, property_id, old(ctx).accounts.payer.key),
                amount,
            ),
        ),
        *final(ctx) == after_fund(
            *old(ctx),
            vault_address(old(ctx).program_id, property_id),
            payment_address(old(ctx).program_id, property_id, old(ctx).accounts.payer.key),
            property_id,
            amount,
        ),
        final(ctx).accounts.payer.lamports + final(ctx).accounts.property_vault.lamports == old(
            ctx,
        ).accounts.payer.lamports + old(ctx).accounts.property_vault.lamports,
        old(ctx).accounts.payment_record.data.wf() ==> final(ctx).accounts.payment_record.data.wf(),
{
    let vault_at = find_vault_address(&ctx.program_id, property_id);
    let record_at = find_payment_address(&ctx.program_id, property_id, &ctx.accounts.payer.key);
    fund_property_at(ctx, vault_at, record_at, property_id, amount)
}

} // verus!
