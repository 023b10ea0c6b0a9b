//! What holds of the instructions taken together: value is conserved, a vault
//! keeps its property, a record accumulates and starts afresh, and the checks
//! that guard withdrawals bite.

use crate::accounts::{
    Account, Context, FundProperty, Signer, WithdrawMaster, WithdrawMyPayment,
};
use crate::address::{names_account, payment_address, vault_address};
use crate::error::{ErrorCode, Rejection};
use crate::fund::{after_fund, fund_refusal};
use crate::identity::{lemma_identity_by_bytes, Identity};
use crate::state::{saturating_sum, PaymentRecord, PropertyVault};
use crate::withdraw::{
    after_master_withdrawal, after_own_withdrawal, master_withdrawal_refusal,
    own_withdrawal_refusal,
};
use vstd::prelude::*;

verus! {

/// One instruction against a vault, with everything it is handed but the vault.
pub enum Call {
    /// A contributor funds the property.
    Fund {
        program_id: Identity,
        payer: Signer,
        payment_record: Account<PaymentRecord>,
        vault_at: Option<(Seq<u8>, u8)>,
        record_at: Option<(Seq<u8>, u8)>,
        property_id: u32,
        amount: u64,
    },
    /// A contributor takes back from their record.
    WithdrawOwn {
        program_id: Identity,
        payer: Signer,
        payment_record: Account<PaymentRecord>,
        record_at: Option<(Seq<u8>, u8)>,
        vault_at: Option<(Seq<u8>, u8)>,
        amount: u64,
    },
    /// Somebody asks for the privileged withdrawal.
    WithdrawMaster {
        program_id: Identity,
        master: Signer,
        authority: Option<Seq<u8>>,
        vault_at: Option<(Seq<u8>, u8)>,
        amount: u64,
    },
}

/// The vault after one call.
pub open spec fn vault_after(vault: Account<PropertyVault>, call: Call) -> Account<PropertyVault> {
    match call {
        Call::Fund { program_id, payer, payment_record, vault_at, record_at, property_id, amount } => {
            let ctx = Context {
                program_id,
                accounts: FundProperty { payer, property_vault: vault, payment_record },
            };
            after_fund(ctx, vault_at, record_at, property_id, amount).accounts.property_vault
        },
        Call::WithdrawOwn { program_id, payer, payment_record, record_at, vault_at, amount } => {
            let ctx = Context {
                program_id,
                accounts: WithdrawMyPayment { payer, payment_record, property_vault: vault },
            };
            after_own_withdrawal(ctx, record_at, vault_at, amount).accounts.property_vault
        },
        Call::WithdrawMaster { program_id, master, authority, vault_at, amount } => {
            let ctx = Context { program_id, accounts: WithdrawMaster { master, property_vault: vault } };
            after_master_withdrawal(ctx, authority, vault_at, amount).accounts.property_vault
        },
    }
}

/// The holding of the party that made the call, after the call.
pub open spec fn caller_after(vault: Account<PropertyVault>, call: Call) -> Signer {
    match call {
        Call::Fund { program_id, payer, payment_record, vault_at, record_at, property_id, amount } => {
            let ctx = Context {
                program_id,
                accounts: FundProperty { payer, property_vault: vault, payment_record },
            };
            after_fund(ctx, vault_at, record_at, property_id, amount).accounts.payer
        },
        Call::WithdrawOwn { program_id, payer, payment_record, record_at, vault_at, amount } => {
            let ctx = Context {
                program_id,
                accounts: WithdrawMyPayment { payer, payment_record, property_vault: vault },
            };
            after_own_withdrawal(ctx, record_at, vault_at, amount).accounts.payer
        },
        Call::WithdrawMaster { program_id, master, authority, vault_at, amount } => {
            let ctx = Context { program_id, accounts: WithdrawMaster { master, property_vault: vault } };
            after_master_withdrawal(ctx, authority, vault_at, amount).accounts.master
        },
    }
}

/// The holding of the party that makes the call, before the call.
pub open spec fn caller_before(call: Call) -> Signer {
    match call {
        Call::Fund { payer, .. } => payer,
        Call::WithdrawOwn { payer, .. } => payer,
        Call::WithdrawMaster { master, .. } => master,
    }
}

/// The value that a call moves into the vault: the amount of a funding that is
/// accepted, nothing otherwise.
pub open spec fn paid_in(vault: Account<PropertyVault>, call: Call) -> nat {
    match call {
        Call::Fund { program_id, payer, payment_record, vault_at, record_at, property_id, amount } => {
            let ctx = Context {
                program_id,
                accounts: FundProperty { payer, property_vault: vault, payment_record },
            };
            if fund_refusal(ctx, vault_at, record_at, amount) is None {
                amount as nat
            } else {
                0
            }
        },
        _ => 0,
    }
}

/// The value that a call moves out of the vault: the amount of a withdrawal that
/// is accepted, nothing otherwise.
pub open spec fn paid_out(vault: Account<PropertyVault>, call: Call) -> nat {
    match call {
        Call::Fund { .. } => 0,
        Call::WithdrawOwn { program_id, payer, payment_record, record_at, vault_at, amount } => {
            let ctx = Context {
                program_id,
                accounts: WithdrawMyPayment { payer, payment_record, property_vault: vault },
            };
            if own_withdrawal_refusal(ctx, record_at, vault_at, amount) is None {
                amount as nat
            } else {
                0
            }
        },
        Call::WithdrawMaster { program_id, master, authority, vault_at, amount } => {
            let ctx = Context { program_id, accounts: WithdrawMaster { master, property_vault: vault } };
            if master_withdrawal_refusal(ctx, authority, vault_at, amount) is None {
                amount as nat
            } else {
                0
            }
        },
    }
}

/// The vault after a sequence of calls, each made against the vault as the one
/// before left it.
pub open spec fn vault_after_all(vault: Account<PropertyVault>, calls: Seq<Call>) -> Account<
    PropertyVault,
>
    decreases calls.len(),
{
    if calls.len() == 0 {
        vault
    } else {
        vault_after(vault_after_all(vault, calls.drop_last()), calls.last())
    }
}

/// All the value that a sequence of calls moves into the vault.
pub open spec fn total_paid_in(vault: Account<PropertyVault>, calls: Seq<Call>) -> nat
    decreases calls.len(),
{
    if calls.len() == 0 {
        0
    } else {
        total_paid_in(vault, calls.drop_last()) + paid_in(
            vault_after_all(vault, calls.drop_last()),
            calls.last(),
        )
    }
}

/// All the value that a sequence of calls moves out of the vault.
pub open spec fn total_paid_out(vault: Account<PropertyVault>, calls: Seq<Call>) -> nat
    decreases calls.len(),
{
    if calls.len() == 0 {
        0
    } else {
        total_paid_out(vault, calls.drop_last()) + paid_out(
            vault_after_all(vault, calls.drop_last()),
            calls.last(),
        )
    }
}

/// What the callers of a sequence of calls gain between them: for each call,
/// what its caller holds after it less what that caller held before it.
pub open spec fn callers_gain(vault: Account<PropertyVault>, calls: Seq<Call>) -> int
    decreases calls.len(),
{
    if calls.len() == 0 {
        0
    } else {
        callers_gain(vault, calls.drop_last()) + caller_after(
            vault_after_all(vault, calls.drop_last()),
            calls.last(),
        ).lamports - caller_before(calls.last()).lamports
    }
}

/// One call neither makes nor loses value: what enters the vault leaves the
/// caller's holding, what leaves the vault enters it, and nothing else moves.
pub proof fn lemma_call_conserves_value(vault: Account<PropertyVault>, call: Call)
    ensures
        vault_after(vault, call).lamports + paid_out(vault, call) == vault.lamports + paid_in(
            vault,
            call,
        ),
        caller_after(vault, call).lamports + paid_in(vault, call) == caller_before(call).lamports
            + paid_out(vault, call),
        vault_after(vault, call).lamports + caller_after(vault, call).lamports == vault.lamports
            + caller_before(call).lamports,
        vault_after(vault, call).key == vault.key,
{
}

/// Over any sequence of fundings, contributors' withdrawals and privileged
/// withdrawals, what the vault holds in the end, together with all that was
/// paid out of it, is what it held at first together with all that was paid in;
/// and what the callers gained between them is what the vault lost.
pub proof fn lemma_value_conserved(vault: Account<PropertyVault>, calls: Seq<Call>)
    ensures
        vault_after_all(vault, calls).lamports + total_paid_out(vault, calls) == vault.lamports
            + total_paid_in(vault, calls),
        callers_gain(vault, calls) == total_paid_out(vault, calls) - total_paid_in(vault, calls),
        vault_after_all(vault, calls).lamports + callers_gain(vault, calls) == vault.lamports,
        vault_after_all(vault, calls).key == vault.key,
    decreases calls.len(),
{
    if calls.len() > 0 {
        lemma_value_conserved(vault, calls.drop_last());
        lemma_call_conserves_value(vault_after_all(vault, calls.drop_last()), calls.last());
    }
}

/// Fundings that are accepted for one property under one program go to one
/// vault, whoever makes them; and those of one contributor go to one record.
pub proof fn lemma_one_vault_per_property(
    first: Context<FundProperty>,
    second: Context<FundProperty>,
    property_id: u32,
    first_amount: u64,
    second_amount: u64,
)
    requires
        first.program_id == second.program_id,
    ensures
        ({
            let first_accepted = fund_refusal(
                first,
                vault_address(first.program_id, property_id),
                payment_address(first.program_id, property_id, first.accounts.payer.key),
                first_amount,
            ) is None;
            let second_accepted = fund_refusal(
                second,
                vault_address(second.program_id, property_id),
                payment_address(second.program_id, property_id, second.accounts.payer.key),
                second_amount,
            ) is None;
            &&& first_accepted && second_accepted ==> first.accounts.property_vault.key
                == second.accounts.property_vault.key
            &&& first_accepted && second_accepted && first.accounts.payer.key
                == second.accounts.payer.key ==> first.accounts.payment_record.key
                == second.accounts.payment_record.key
        }),
{
    lemma_identity_by_bytes(first.accounts.property_vault.key, second.accounts.property_vault.key);
    lemma_identity_by_bytes(first.accounts.payment_record.key, second.accounts.payment_record.key);
}

/// A vault that has taken a funding for a property names that property, and
/// goes on naming it whatever becomes of a later funding for the same property
/// by anybody.
pub proof fn lemma_vault_keeps_property(
    first: Context<FundProperty>,
    first_vault_at: Option<(Seq<u8>, u8)>,
    first_record_at: Option<(Seq<u8>, u8)>,
    first_amount: u64,
    second: Context<FundProperty>,
    second_vault_at: Option<(Seq<u8>, u8)>,
    second_record_at: Option<(Seq<u8>, u8)>,
    second_amount: u64,
    property_id: u32,
)
    requires
        fund_refusal(first, first_vault_at, first_record_at, first_amount) is None,
        second.accounts.property_vault == after_fund(
            first,
            first_vault_at,
            first_record_at,
            property_id,
            first_amount,
        ).accounts.property_vault,
    ensures
        after_fund(
            first,
            first_vault_at,
            first_record_at,
            property_id,
            first_amount,
        ).accounts.property_vault.data.property_id == property_id,
        after_fund(
            second,
            second_vault_at,
            second_record_at,
            property_id,
            second_amount,
        ).accounts.property_vault.data.property_id == property_id,
{
}

/// A funding leaves the vault's bump alone, and a withdrawal leaves all that the
/// vault stores alone.
pub proof fn lemma_vault_data_kept(
    fund: Context<FundProperty>,
    own: Context<WithdrawMyPayment>,
    master: Context<WithdrawMaster>,
    authority: Option<Seq<u8>>,
    vault_at: Option<(Seq<u8>, u8)>,
    record_at: Option<(Seq<u8>, u8)>,
    property_id: u32,
    amount: u64,
)
    ensures
        after_fund(fund, vault_at, record_at, property_id, amount).accounts.property_vault.data.bump
            == fund.accounts.property_vault.data.bump,
        fund.accounts.property_vault.data.property_id == property_id ==> after_fund(
            fund,
            vault_at,
            record_at,
            property_id,
            amount,
        ).accounts.property_vault.data == fund.accounts.property_vault.data,
        after_own_withdrawal(own, record_at, vault_at, amount).accounts.property_vault.data
            == own.accounts.property_vault.data,
        after_master_withdrawal(master, authority, vault_at, amount).accounts.property_vault.data
            == master.accounts.property_vault.data,
{
}

/// Two deposits into a live record add up: the record holds what it held and
/// both amounts, up to the largest amount.
pub proof fn lemma_deposits_accumulate(
    record: PaymentRecord,
    payer: Identity,
    property_id: u32,
    first: u64,
    second: u64,
)
    requires
        !record.is_pristine(),
        !record.withdrawn,
    ensures
        record.after_deposit(payer, property_id, first).after_deposit(
            payer,
            property_id,
            second,
        ).amount == (if record.amount + first + second > u64::MAX {
            u64::MAX
        } else {
            (record.amount + first + second) as u64
        }),
        !record.after_deposit(payer, property_id, first).after_deposit(
            payer,
            property_id,
            second,
        ).withdrawn,
{
}

/// A deposit that would take a live record past the largest amount leaves it
/// at exactly the largest amount.
pub proof fn lemma_deposit_saturates(
    record: PaymentRecord,
    payer: Identity,
    property_id: u32,
    amount: u64,
)
    requires
        !record.is_pristine(),
        !record.withdrawn,
        record.amount + amount > u64::MAX,
    ensures
        record.after_deposit(payer, property_id, amount).amount == u64::MAX,
{
}

/// A funding that is accepted puts exactly its amount into a pristine or
/// drawn-down record, and adds it to a live one, up to the largest amount.
pub proof fn lemma_funding_credits_record(
    ctx: Context<FundProperty>,
    vault_at: Option<(Seq<u8>, u8)>,
    record_at: Option<(Seq<u8>, u8)>,
    property_id: u32,
    amount: u64,
)
    requires
        fund_refusal(ctx, vault_at, record_at, amount) is None,
    ensures
        ({
            let before = ctx.accounts.payment_record.data;
            let after = after_fund(
                ctx,
                vault_at,
                record_at,
                property_id,
                amount,
            ).accounts.payment_record.data;
            &&& !after.withdrawn
            &&& before.is_pristine() || before.withdrawn ==> after.amount == amount
            &&& !before.is_pristine() && !before.withdrawn ==> after.amount == saturating_sum(
                before.amount,
                amount,
            )
            &&& before.is_pristine() ==> after.payer == ctx.accounts.payer.key
            &&& !before.is_pristine() ==> after.payer == before.payer
            &&& before.is_pristine() || before.withdrawn ==> after.property_id == property_id
            &&& !before.is_pristine() && !before.withdrawn ==> after.property_id
                == before.property_id
        }),
{
}

/// Once a record has an owner, no funding and no withdrawal gives it another;
/// and the property it names changes only where a funding for another property
/// finds it drawn down.
pub proof fn lemma_record_keeps_owner_and_property(
    record: PaymentRecord,
    payer: Identity,
    property_id: u32,
    amount: u64,
)
    requires
        !record.is_pristine(),
    ensures
        record.after_deposit(payer, property_id, amount).payer == record.payer,
        record.after_withdrawal(amount).payer == record.payer,
        record.after_withdrawal(amount).property_id == record.property_id,
        !record.withdrawn || record.property_id == property_id ==> record.after_deposit(
            payer,
            property_id,
            amount,
        ).property_id == record.property_id,
{
}

/// A record is marked as drawn down only while it holds nothing: a funding
/// leaves it live, and a withdrawal marks it exactly when it takes the last of
/// what the record holds.
pub proof fn lemma_record_stays_well_formed(
    fund: Context<FundProperty>,
    own: Context<WithdrawMyPayment>,
    vault_at: Option<(Seq<u8>, u8)>,
    record_at: Option<(Seq<u8>, u8)>,
    property_id: u32,
    amount: u64,
)
    requires
        fund.accounts.payment_record.data.wf(),
        own.accounts.payment_record.data.wf(),
    ensures
        after_fund(fund, vault_at, record_at, property_id, amount).accounts.payment_record.data.wf(),
        after_own_withdrawal(own, record_at, vault_at, amount).accounts.payment_record.data.wf(),
{
}

/// A record that its contributor has emptied starts afresh with the next
/// deposit: it then holds exactly that deposit and is live again.
pub proof fn lemma_fresh_cycle(record: PaymentRecord, payer: Identity, property_id: u32, amount: u64)
    requires
        !record.withdrawn,
    ensures
        record.after_withdrawal(record.amount).withdrawn,
        record.after_withdrawal(record.amount).amount == 0,
        record.after_withdrawal(record.amount).after_deposit(payer, property_id, amount).amount
            == amount,
        !record.after_withdrawal(record.amount).after_deposit(payer, property_id, amount).withdrawn,
        record.after_withdrawal(record.amount).after_deposit(payer, property_id, amount).property_id
            == property_id,
{
}

/// Fund, withdraw all of it, fund again: where each of the three is accepted,
/// the record ends up holding exactly the last amount and is live.
pub proof fn lemma_fund_withdraw_fund(
    ctx: Context<FundProperty>,
    vault_at: Option<(Seq<u8>, u8)>,
    record_at: Option<(Seq<u8>, u8)>,
    property_id: u32,
    first: u64,
    second: u64,
)
    requires
        fund_refusal(ctx, vault_at, record_at, first) is None,
        own_withdrawal_refusal(
            as_withdrawal(after_fund(ctx, vault_at, record_at, property_id, first)),
            record_at,
            vault_at,
            after_fund(ctx, vault_at, record_at, property_id, first).accounts.payment_record.data.amount,
        ) is None,
        fund_refusal(
            as_funding(
                after_own_withdrawal(
                    as_withdrawal(after_fund(ctx, vault_at, record_at, property_id, first)),
                    record_at,
                    vault_at,
                    after_fund(
                        ctx,
                        vault_at,
                        record_at,
                        property_id,
                        first,
                    ).accounts.payment_record.data.amount,
                ),
            ),
            vault_at,
            record_at,
            second,
        ) is None,
    ensures
        ({
            let funded_once = after_fund(ctx, vault_at, record_at, property_id, first);
            let emptied = after_own_withdrawal(
                as_withdrawal(funded_once),
                record_at,
                vault_at,
                funded_once.accounts.payment_record.data.amount,
            );
            let funded_again = after_fund(
                as_funding(emptied),
                vault_at,
                record_at,
                property_id,
                second,
            );
            &&& emptied.accounts.payment_record.data.withdrawn
            &&& emptied.accounts.payment_record.data.amount == 0
            &&& funded_again.accounts.payment_record.data.amount == second
            &&& !funded_again.accounts.payment_record.data.withdrawn
            &&& funded_again.accounts.payment_record.data.property_id == property_id
        }),
{
}

/// The accounts of a funding, handed to a contributor's withdrawal.
pub open spec fn as_withdrawal(ctx: Context<FundProperty>) -> Context<WithdrawMyPayment> {
    Context {
        program_id: ctx.program_id,
        accounts: WithdrawMyPayment {
            payer: ctx.accounts.payer,
            payment_record: ctx.accounts.payment_record,
            property_vault: ctx.accounts.property_vault,
        },
    }
}

/// The accounts of a contributor's withdrawal, handed to a funding.
pub open spec fn as_funding(ctx: Context<WithdrawMyPayment>) -> Context<FundProperty> {
    Context {
        program_id: ctx.program_id,
        accounts: FundProperty {
            payer: ctx.accounts.payer,
            property_vault: ctx.accounts.property_vault,
            payment_record: ctx.accounts.payment_record,
        },
    }
}

/// A contributor who asks for more than their live record holds is turned down
/// for want of funds of their own, and nothing changes.
pub proof fn lemma_over_withdrawal_rejected(
    ctx: Context<WithdrawMyPayment>,
    record_at: Option<(Seq<u8>, u8)>,
    vault_at: Option<(Seq<u8>, u8)>,
    amount: u64,
)
    requires
        names_account(record_at, ctx.accounts.payment_record.key),
        names_account(vault_at, ctx.accounts.property_vault.key),
        ctx.accounts.payment_record.data.payer == ctx.accounts.payer.key,
        !ctx.accounts.payment_record.data.withdrawn,
        amount > ctx.accounts.payment_record.data.amount,
    ensures
        own_withdrawal_refusal(ctx, record_at, vault_at, amount) == Some(
            Rejection::Program(ErrorCode::InsufficientFunds),
        ),
        after_own_withdrawal(ctx, record_at, vault_at, amount) == ctx,
{
}

/// No contributor's withdrawal takes a record below nothing: where it is
/// accepted the record held the amount, and holds exactly that much less after.
pub proof fn lemma_withdrawal_within_record(
    ctx: Context<WithdrawMyPayment>,
    record_at: Option<(Seq<u8>, u8)>,
    vault_at: Option<(Seq<u8>, u8)>,
    amount: u64,
)
    requires
        own_withdrawal_refusal(ctx, record_at, vault_at, amount) is None,
    ensures
        amount <= ctx.accounts.payment_record.data.amount,
        after_own_withdrawal(ctx, record_at, vault_at, amount).accounts.payment_record.data.amount
            + amount == ctx.accounts.payment_record.data.amount,
        after_own_withdrawal(ctx, record_at, vault_at, amount).accounts.payment_record.data.withdrawn
            == (amount == ctx.accounts.payment_record.data.amount),
        after_own_withdrawal(ctx, record_at, vault_at, amount).accounts.payment_record.data.payer
            == ctx.accounts.payment_record.data.payer,
        after_own_withdrawal(
            ctx,
            record_at,
            vault_at,
            amount,
        ).accounts.payment_record.data.property_id == ctx.accounts.payment_record.data.property_id,
{
}

/// Whoever is not the authority is turned down as unauthorized, whatever the
/// vault holds and whatever amount is asked for, and nothing changes.
pub proof fn lemma_only_authority_sweeps(
    ctx: Context<WithdrawMaster>,
    authority: Option<Seq<u8>>,
    vault_at: Option<(Seq<u8>, u8)>,
    amount: u64,
)
    requires
        names_account(vault_at, ctx.accounts.property_vault.key),
        authority != Some(ctx.accounts.master.key@),
    ensures
        master_withdrawal_refusal(ctx, authority, vault_at, amount) == Some(
            Rejection::Program(ErrorCode::Unauthorized),
        ),
        after_master_withdrawal(ctx, authority, vault_at, amount) == ctx,
{
}

/// Once a privileged withdrawal has left the vault with less than a
/// contributor's record holds, that contributor's withdrawal of what the record
/// holds is turned down for want of funds in the vault, though the record is
/// theirs, live and holds the amount.
pub proof fn lemma_sweep_starves_contributor(
    sweep: Context<WithdrawMaster>,
    authority: Option<Seq<u8>>,
    swept: u64,
    ctx: Context<WithdrawMyPayment>,
    record_at: Option<(Seq<u8>, u8)>,
    vault_at: Option<(Seq<u8>, u8)>,
)
    requires
        master_withdrawal_refusal(sweep, authority, vault_at, swept) is None,
        ctx.accounts.property_vault == after_master_withdrawal(
            sweep,
            authority,
            vault_at,
            swept,
        ).accounts.property_vault,
        ctx.accounts.property_vault.lamports < ctx.accounts.payment_record.data.amount,
        names_account(record_at, ctx.accounts.payment_record.key),
        ctx.accounts.payment_record.data.payer == ctx.accounts.payer.key,
        !ctx.accounts.payment_record.data.withdrawn,
    ensures
        ctx.accounts.property_vault.lamports + swept == sweep.accounts.property_vault.lamports,
        own_withdrawal_refusal(ctx, record_at, vault_at, ctx.accounts.payment_record.data.amount)
            == Some(Rejection::Program(ErrorCode::VaultInsufficientFunds)),
        after_own_withdrawal(ctx, record_at, vault_at, ctx.accounts.payment_record.data.amount)
            == ctx,
{
}

} // verus!
