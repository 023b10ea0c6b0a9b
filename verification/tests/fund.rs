use real_estate::accounts::{Account, Context, FundProperty, Signer};
use real_estate::address::{find_payment_address, find_vault_address};
use real_estate::error::Rejection;
use real_estate::fund::{fund_property, fund_property_at};
use real_estate::identity::Identity;
use real_estate::state::{PaymentRecord, PropertyVault};

fn program() -> Identity {
    Identity::parse("3U6NSTN5Pm9VaMeTCdYq9RFUddeStn4zn63uXm33dr4A").unwrap()
}

fn alice() -> Identity {
    Identity::new([0xA1; 32])
}

fn bob() -> Identity {
    Identity::new([0xB2; 32])
}

/// A first contact: the vault and the record sit where they must and store nothing yet.
fn fresh(payer: Identity, holding: u64, property_id: u32) -> Context<FundProperty> {
    let program_id = program();
    Context {
        program_id,
        accounts: FundProperty {
            payer: Signer { key: payer, lamports: holding },
            property_vault: Account {
                key: find_vault_address(&program_id, property_id).unwrap().0,
                lamports: 0,
                data: PropertyVault::default(),
            },
            payment_record: Account {
                key: find_payment_address(&program_id, property_id, &payer).unwrap().0,
                lamports: 0,
                data: PaymentRecord::default(),
            },
        },
    }
}

#[test]
fn first_funding_populates_vault_and_record() {
    let mut ctx = fresh(alice(), 100, 7);
    assert_eq!(fund_property(&mut ctx, 7, 40), Ok(()));
    assert_eq!(ctx.accounts.payer.lamports, 60);
    assert_eq!(ctx.accounts.property_vault.lamports, 40);
    assert_eq!(ctx.accounts.property_vault.data, PropertyVault { property_id: 7, bump: 0 });
    assert_eq!(
        ctx.accounts.payment_record.data,
        PaymentRecord { property_id: 7, payer: alice(), amount: 40, withdrawn: false, bump: 0 }
    );
}

#[test]
fn funding_twice_by_different_contributors_keeps_the_vaults_property() {
    let mut first = fresh(alice(), 100, 7);
    assert_eq!(fund_property(&mut first, 7, 10), Ok(()));
    let after_first = first.accounts.property_vault;
    let mut second = fresh(bob(), 100, 7);
    second.accounts.property_vault = after_first;
    assert_eq!(fund_property(&mut second, 7, 20), Ok(()));
    assert_eq!(after_first.data.property_id, 7);
    assert_eq!(second.accounts.property_vault.data.property_id, 7);
    assert_eq!(second.accounts.property_vault.key, after_first.key);
    assert_eq!(second.accounts.property_vault.lamports, 30);
    assert_eq!(second.accounts.payment_record.data.payer, bob());
    assert_eq!(second.accounts.payment_record.data.amount, 20);
}

#[test]
fn top_up_of_ten_and_fifteen_is_twenty_five() {
    let mut ctx = fresh(alice(), 100, 7);
    assert_eq!(fund_property(&mut ctx, 7, 10), Ok(()));
    assert_eq!(fund_property(&mut ctx, 7, 15), Ok(()));
    assert_eq!(ctx.accounts.payment_record.data.amount, 25);
    assert!(!ctx.accounts.payment_record.data.withdrawn);
    assert_eq!(ctx.accounts.payer.lamports, 75);
    assert_eq!(ctx.accounts.property_vault.lamports, 25);
}

#[test]
fn top_up_past_the_largest_amount_saturates() {
    let mut ctx = fresh(alice(), 100, 7);
    ctx.accounts.payment_record.data =
        PaymentRecord { property_id: 7, payer: alice(), amount: u64::MAX - 5, withdrawn: false, bump: 0 };
    assert_eq!(fund_property(&mut ctx, 7, 6), Ok(()));
    assert_eq!(ctx.accounts.payment_record.data.amount, u64::MAX);
    assert!(!ctx.accounts.payment_record.data.withdrawn);
    assert_eq!(ctx.accounts.payer.lamports, 94);
    assert_eq!(ctx.accounts.property_vault.lamports, 6);
}

#[test]
fn top_up_to_exactly_the_largest_amount() {
    let mut ctx = fresh(alice(), 100, 7);
    ctx.accounts.payment_record.data =
        PaymentRecord { property_id: 7, payer: alice(), amount: u64::MAX - 5, withdrawn: false, bump: 0 };
    assert_eq!(fund_property(&mut ctx, 7, 5), Ok(()));
    assert_eq!(ctx.accounts.payment_record.data.amount, u64::MAX);
}

#[test]
fn funding_a_drawn_down_record_starts_a_fresh_cycle() {
    let mut ctx = fresh(alice(), 100, 7);
    ctx.accounts.payment_record.data =
        PaymentRecord { property_id: 7, payer: alice(), amount: 0, withdrawn: true, bump: 3 };
    assert_eq!(fund_property(&mut ctx, 7, 5), Ok(()));
    assert_eq!(
        ctx.accounts.payment_record.data,
        PaymentRecord { property_id: 7, payer: alice(), amount: 5, withdrawn: false, bump: 3 }
    );
}

#[test]
fn funding_nothing_is_accepted() {
    let mut ctx = fresh(alice(), 0, 7);
    assert_eq!(fund_property(&mut ctx, 7, 0), Ok(()));
    assert_eq!(ctx.accounts.payer.lamports, 0);
    assert_eq!(ctx.accounts.property_vault.lamports, 0);
    assert_eq!(ctx.accounts.property_vault.data.property_id, 7);
    assert_eq!(ctx.accounts.payment_record.data.payer, alice());
    assert_eq!(ctx.accounts.payment_record.data.amount, 0);
    assert!(!ctx.accounts.payment_record.data.withdrawn);
}

#[test]
fn funding_more_than_the_contributor_holds_is_refused() {
    let mut ctx = fresh(alice(), 39, 7);
    let before = ctx;
    assert_eq!(fund_property(&mut ctx, 7, 40), Err(Rejection::InsufficientLamports));
    assert_eq!(ctx, before);
}

#[test]
fn funding_a_vault_that_cannot_take_the_amount_is_refused() {
    let mut ctx = fresh(alice(), 40, 7);
    ctx.accounts.property_vault.lamports = u64::MAX - 39;
    let before = ctx;
    assert_eq!(fund_property(&mut ctx, 7, 40), Err(Rejection::ArithmeticOverflow));
    assert_eq!(ctx, before);
}

#[test]
fn funding_through_another_propertys_vault_is_refused() {
    let mut ctx = fresh(alice(), 100, 7);
    ctx.accounts.property_vault.key = find_vault_address(&program(), 8).unwrap().0;
    let before = ctx;
    assert_eq!(fund_property(&mut ctx, 7, 10), Err(Rejection::ConstraintSeeds));
    assert_eq!(ctx, before);
}

#[test]
fn funding_into_somebody_elses_record_is_refused() {
    let mut ctx = fresh(alice(), 100, 7);
    ctx.accounts.payment_record.key = find_payment_address(&program(), 7, &bob()).unwrap().0;
    let before = ctx;
    assert_eq!(fund_property(&mut ctx, 7, 10), Err(Rejection::ConstraintSeeds));
    assert_eq!(ctx, before);
}

#[test]
fn funding_under_another_program_is_refused() {
    let mut ctx = fresh(alice(), 100, 7);
    ctx.program_id = Identity::new([1u8; 32]);
    let before = ctx;
    assert_eq!(fund_property(&mut ctx, 7, 10), Err(Rejection::ConstraintSeeds));
    assert_eq!(ctx, before);
}

#[test]
fn funding_at_given_addresses() {
    let vault = Identity::new([1u8; 32]);
    let record = Identity::new([2u8; 32]);
    let mut ctx = Context {
        program_id: program(),
        accounts: FundProperty {
            payer: Signer { key: alice(), lamports: 50 },
            property_vault: Account { key: vault, lamports: 1, data: PropertyVault::default() },
            payment_record: Account { key: record, lamports: 2, data: PaymentRecord::default() },
        },
    };
    let before = ctx;
    assert_eq!(
        fund_property_at(&mut ctx, None, Some((record, 255)), 3, 10),
        Err(Rejection::ConstraintSeeds)
    );
    assert_eq!(
        fund_property_at(&mut ctx, Some((vault, 255)), Some((vault, 255)), 3, 10),
        Err(Rejection::ConstraintSeeds)
    );
    assert_eq!(ctx, before);
    assert_eq!(fund_property_at(&mut ctx, Some((vault, 255)), Some((record, 250)), 3, 10), Ok(()));
    assert_eq!(ctx.accounts.payer.lamports, 40);
    assert_eq!(ctx.accounts.property_vault.lamports, 11);
    assert_eq!(ctx.accounts.payment_record.lamports, 2);
    assert_eq!(ctx.accounts.payment_record.data.amount, 10);
    assert_eq!(ctx.accounts.payment_record.data.property_id, 3);
}
