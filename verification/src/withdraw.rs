//! Taking value out of a property's vault: a contributor takes back what their
//! record holds, and the configured authority sweeps the pool.

use crate::accounts::{Account, Context, Signer, WithdrawMaster, WithdrawMyPayment};
use crate::address::{
    address_view, find_payment_address, find_vault_address, names_account, payment_address,
    sits_at, vault_address,
};
use crate::error::{verdict, ErrorCode, Rejection};
use crate::identity::{base58_identity, identity_view, lemma_identity_by_bytes, Identity};
use crate::transfer::transfer;
use vstd::prelude::*;

verus! {

/// The base-58 spelling of the one identity that may sweep a vault.
pub const SQUADS_MULTISIG_PUBKEY: &'static str = "6KrYBHTXzJjn78L4aJGpocQwiJEoV1yqu6HNqgFixEYE";

/// Why a contributor's withdrawal is turned down, if it is. The checks come in
/// this order: the record sits at its derived address, belongs to the
/// contributor and is not drawn down; the vault sits at its derived address; the
/// record holds the amount; the vault holds the amount; the contributor's
/// holding can take it.
pub open spec fn own_withdrawal_refusal(
    ctx: Context<WithdrawMyPayment>,
    record_at: Option<(Seq<u8>, u8)>,
    vault_at: Option<(Seq<u8>, u8)>,
    amount: u64,
) -> Option<Rejection> {
    let payer = ctx.accounts.payer;
    let record = ctx.accounts.payment_record;
    let vault = ctx.accounts.property_vault;
    if !names_account(record_at, record.key) {
        Some(Rejection::ConstraintSeeds)
    } else if record.data.payer != payer.key {
        Some(Rejection::ConstraintHasOne)
    } else if record.data.withdrawn {
        Some(Rejection::Program(ErrorCode::AlreadyWithdrawn))
    } else if !names_account(vault_at, vault.key) {
        Some(Rejection::ConstraintSeeds)
    } else if amount > record.data.amount {
        Some(Rejection::Program(ErrorCode::InsufficientFunds))
    } else if vault.lamports < amount {
        Some(Rejection::Program(ErrorCode::VaultInsufficientFunds))
    } else if payer.lamports + amount > u64::MAX {
        Some(Rejection::ArithmeticOverflow)
    } else {
        None
    }
}

/// The accounts after a contributor's withdrawal that was accepted: the amount
/// has moved from the vault to the contributor, and the record holds that much less.
pub open spec fn withdrawn_own(ctx: Context<WithdrawMyPayment>, amount: u64) -> Context<
    WithdrawMyPayment,
> {
    let payer = ctx.accounts.payer;
    let record = ctx.accounts.payment_record;
    let vault = ctx.accounts.property_vault;
    Context {
        program_id: ctx.program_id,
        accounts: WithdrawMyPayment {
            payer: Signer { lamports: (payer.lamports + amount) as u64, ..payer },
            payment_record: Account { data: record.data.after_withdrawal(amount), ..record },
            property_vault: Account { lamports: (vault.lamports - amount) as u64, ..vault },
        },
    }
}

/// The accounts after a contributor's withdrawal: as `withdrawn_own` says where
/// it was accepted, as they were where it was turned down.
pub open spec fn after_own_withdrawal(
    ctx: Context<WithdrawMyPayment>,
    record_at: Option<(Seq<u8>, u8)>,
    vault_at: Option<(Seq<u8>, u8)>,
    amount: u64,
) -> Context<WithdrawMyPayment> {
    if own_withdrawal_refusal(ctx, record_at, vault_at, amount) is None {
        withdrawn_own(ctx, amount)
    } else {
        ctx
    }
}

/// Why the privileged withdrawal is turned down, if it is. The checks come in
/// this order: the vault sits at its derived address; the caller is the
/// authority; the vault holds the amount; the caller's holding can take it.
pub open spec fn master_withdrawal_refusal(
    ctx: Context<WithdrawMaster>,
    authority: Option<Seq<u8>>,
    vault_at: Option<(Seq<u8>, u8)>,
    amount: u64,
) -> Option<Rejection> {
    let master = ctx.accounts.master;
    let vault = ctx.accounts.property_vault;
    if !names_account(vault_at, vault.key) {
        Some(Rejection::ConstraintSeeds)
    } else if authority != Some(master.key@) {
        Some(Rejection::Program(ErrorCode::Unauthorized))
    } else if vault.lamports < amount {
        Some(Rejection::Program(ErrorCode::VaultInsufficientFunds))
    } else if master.lamports + amount > u64::MAX {
        Some(Rejection::ArithmeticOverflow)
    } else {
        None
    }
}

/// The accounts after a privileged withdrawal that was accepted: the amount has
/// moved from the vault to the caller, and nothing else has changed.
pub open spec fn withdrawn_master(ctx: Context<WithdrawMaster>, amount: u64) -> Context<
    WithdrawMaster,
> {
    let master = ctx.accounts.master;
    let vault = ctx.accounts.property_vault;
    Context {
        program_id: ctx.program_id,
        accounts: WithdrawMaster {
            master: Signer { lamports: (master.lamports + amount) as u64, ..master },
            property_vault: Account { lamports: (vault.lamports - amount) as u64, ..vault },
        },
    }
}

/// The accounts after a privileged withdrawal: as `withdrawn_master` says where
/// it was accepted, as they were where it was turned down.
pub open spec fn after_master_withdrawal(
    ctx: Context<WithdrawMaster>,
    authority: Option<Seq<u8>>,
    vault_at: Option<(Seq<u8>, u8)>,
    amount: u64,
) -> Context<WithdrawMaster> {
    if master_withdrawal_refusal(ctx, authority, vault_at, amount) is None {
        withdrawn_master(ctx, amount)
    } else {
        ctx
    }
}

/// Lets a contributor take `amount` back, given the addresses at which their
/// record and the vault must sit.
pub fn withdraw_my_payment_at(
    ctx: &mut Context<WithdrawMyPayment>,
    record_at: Option<(Identity, u8)>,
    vault_at: Option<(Identity, u8)>,
    amount: u64,
) -> (outcome: Result<(), Rejection>)
    ensures
        outcome == verdict(
            own_withdrawal_refusal(*old(ctx), address_view(record_at), address_view(vault_at), amount),
        ),
        *final(ctx) == after_own_withdrawal(
            *old(ctx),
            address_view(record_at),
            address_view(vault_at),
            amount,
        ),
        final(ctx).accounts.payer.lamports + final(ctx).accounts.property_vault.lamports == old(
            ctx,
        ).accounts.payer.lamports + old(ctx).accounts.property_vault.lamports,
        old(ctx).accounts.payment_record.data.wf() ==> final(ctx).accounts.payment_record.data.wf(),
{
    proof {
        lemma_identity_by_bytes(ctx.accounts.payment_record.data.payer, ctx.accounts.payer.key);
    }
    if !sits_at(&record_at, &ctx.accounts.payment_record.key) {
        return Err(Rejection::ConstraintSeeds);
    }
    if ctx.accounts.payment_record.data.payer != ctx.accounts.payer.key {
        return Err(Rejection::ConstraintHasOne);
    }
    if ctx.accounts.payment_record.data.withdrawn {
        return Err(Rejection::Program(ErrorCode::AlreadyWithdrawn));
    }
    if !sits_at(&vault_at, &ctx.accounts.property_vault.key) {
        return Err(Rejection::ConstraintSeeds);
    }
    if amount > ctx.accounts.payment_record.data.amount {
        return Err(Rejection::Program(ErrorCode::InsufficientFunds));
    }
    if ctx.accounts.property_vault.lamports < amount {
        return Err(Rejection::Program(ErrorCode::VaultInsufficientFunds));
    }
    match transfer(
        &mut ctx.accounts.property_vault.lamports,
        &mut ctx.accounts.payer.lamports,
        amount,
    ) {
        Err(reason) => {
            return Err(reason);
        },
        Ok(()) => {},
    }
    ctx.accounts.payment_record.data.debit(amount);
    Ok(())
}

/// Lets a contributor take `amount` of what their record for `property_id`
/// holds back from the property's vault, or turns the instruction down and
/// changes nothing.
pub fn withdraw_my_payment(ctx: &mut Context<WithdrawMyPayment>, property_id: u32, amount: u64) -> (outcome:
    Result<(), Rejection>)
    ensures
        outcome == verdict(
            own_withdrawal_refusal(
                *old(ctx),
                payment_address(old(ctx).program_id, property_id, old(ctx).accounts.payer.key),
                vault_address(old(ctx).program_id, property_id),
                amount,
            ),
        ),
        *final(ctx) == after_own_withdrawal(
            *old(ctx),
            payment_address(old(ctx).program_id, property_id, old(ctx).accounts.payer.key),
            vault_address(old(ctx).program_id, property_id),
            amount,
        ),
        final(ctx).accounts.payer.lamports + final(ctx).accounts.property_vault.lamports == old(
            ctx,
        ).accounts.payer.lamports + old(ctx).accounts.property_vault.lamports,
        old(ctx).accounts.payment_record.data.wf() ==> final(ctx).accounts.payment_record.data.wf(),
{
    let record_at = find_payment_address(&ctx.program_id, property_id, &ctx.accounts.payer.key);
    let vault_at = find_vault_address(&ctx.program_id, property_id);
    withdraw_my_payment_at(ctx, record_at, vault_at, amount)
}

/// Lets the caller sweep `amount` out of a vault if the caller is `authority`,
/// given the address at which the vault must sit.
pub fn withdraw_master_as(
    ctx: &mut Context<WithdrawMaster>,
    authority: Option<Identity>,
    vault_at: Option<(Identity, u8)>,
    amount: u64,
) -> (outcome: Result<(), Rejection>)
    ensures
        outcome == verdict(
            master_withdrawal_refusal(
                *old(ctx),
                identity_view(authority),
                address_view(vault_at),
                amount,
            ),
        ),
        *final(ctx) == after_master_withdrawal(
            *old(ctx),
            identity_view(authority),
            address_view(vault_at),
            amount,
        ),
        final(ctx).accounts.master.lamports + final(ctx).accounts.property_vault.lamports == old(
            ctx,
        ).accounts.master.lamports + old(ctx).accounts.property_vault.lamports,
{
    if !sits_at(&vault_at, &ctx.accounts.property_vault.key) {
        return Err(Rejection::ConstraintSeeds);
    }
    let authorized = match authority {
        Some(expected) => ctx.accounts.master.key == expected,
        None => false,
    };
    if !authorized {
        return Err(Rejection::Program(ErrorCode::Unauthorized));
    }
    if ctx.accounts.property_vault.lamports < amount {
        return Err(Rejection::Program(ErrorCode::VaultInsufficientFunds));
    }
    transfer(
        &mut ctx.accounts.property_vault.lamports,
        &mut ctx.accounts.master.lamports,
        amount,
    )
}

/// Lets the configured authority sweep `amount` out of the vault of
/// `property_id`, or turns the instruction down and changes nothing. No payment
/// record is read or written.
pub fn withdraw_master(ctx: &mut Context<WithdrawMaster>, property_id: u32, amount: u64) -> (outcome:
    Result<(), Rejection>)
    ensures
        outcome == verdict(
            master_withdrawal_refusal(
                *old(ctx),
                base58_identity(SQUADS_MULTISIG_PUBKEY@),
                vault_address(old(ctx).program_id, property_id),
                amount,
            ),
        ),
        *final(ctx) == after_master_withdrawal(
            *old(ctx),
            base58_identity(SQUADS_MULTISIG_PUBKEY@),
            vault_address(old(ctx).program_id, property_id),
            amount,
        ),
        final(ctx).accounts.master.lamports + final(ctx).accounts.property_vault.lamports == old(
            ctx,
        ).accounts.master.lamports + old(ctx).accounts.property_vault.lamports,
{
    let authority = Identity::parse(SQUADS_MULTISIG_PUBKEY);
    let vault_at = find_vault_address(&ctx.program_id, property_id);
    withdraw_master_as(ctx, authority, vault_at, amount)
}

} // verus!
