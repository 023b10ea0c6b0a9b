//! Accounting and authorization core of a property escrow: contributors fund
//! per-property vaults, reclaim what they put in, and one configured authority
//! may sweep a vault.

pub mod accounts;
pub mod address;
pub mod error;
pub mod fund;
pub mod guarantees;
pub mod identity;
pub mod registry;
pub mod state;
pub mod transfer;
pub mod withdraw;

pub use accounts::{
    Account, Context, CreateProperty, FundProperty, Signer, WithdrawMaster, WithdrawMyPayment,
};
pub use error::{ErrorCode, Rejection};
pub use fund::{fund_property, fund_property_at};
pub use identity::Identity;
pub use registry::{create_property, create_property_at};
pub use state::{PaymentRecord, Property, PropertyRegistry, PropertyVault};
pub use withdraw::{
    withdraw_master, withdraw_master_as, withdraw_my_payment, withdraw_my_payment_at,
};
