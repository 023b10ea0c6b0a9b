//! What the program stores: the registry's counter, a property's description,
//! a property's vault and a contributor's payment record.

use crate::error::ErrorCode;
use crate::identity::Identity;
use vstd::prelude::*;

verus! {

/// Largest number of bytes a property name may hold.
pub const MAX_PROPERTY_NAME_LEN: usize = 64;

/// Largest number of bytes an image address may hold.
pub const MAX_IMAGE_URL_LEN: usize = 200;

/// The registry: the identifier that the next property will get.
#[derive(Clone, Copy, Debug, PartialEq, Eq, Structural)]
pub struct PropertyRegistry {
    pub next_property_id: u32,
    pub bump: u8,
}

/// What a property's vault stores beside the value it holds.
#[derive(Clone, Copy, Debug, PartialEq, Eq, Structural)]
pub struct PropertyVault {
    pub property_id: u32,
    pub bump: u8,
}

/// What one contributor has put into one property and not yet taken back.
#[derive(Clone, Copy, Debug, PartialEq, Eq)]
pub struct PaymentRecord {
    pub property_id: u32,
    pub payer: Identity,
    pub amount: u64,
    pub withdrawn: bool,
    pub bump: u8,
}

/// A property as the registry describes it.
#[derive(Clone, Debug, PartialEq, Eq)]
pub struct Property {
    pub property_id: u32,
    pub name: String,
    pub image_url: String,
}

/// The sum of two amounts, held at the largest amount where it would pass it.
pub open spec fn saturating_sum(held: u64, added: u64) -> u64 {
    if held + added > u64::MAX {
        u64::MAX
    } else {
        (held + added) as u64
    }
}

impl Default for PropertyRegistry {
    fn default() -> (registry: PropertyRegistry)
        ensures
            registry == (PropertyRegistry { next_property_id: 0, bump: 0 }),
    {
        PropertyRegistry { next_property_id: 0, bump: 0 }
    }
}

impl Default for PropertyVault {
    fn default() -> (vault: PropertyVault)
        ensures
            vault == (PropertyVault { property_id: 0, bump: 0 }),
    {
        PropertyVault { property_id: 0, bump: 0 }
    }
}

impl Default for PaymentRecord {
    /// The record as it stands before anybody has funded it.
    fn default() -> (record: PaymentRecord)
        ensures
            record.is_pristine(),
            record.property_id == 0,
            record.amount == 0,
            !record.withdrawn,
            record.bump == 0,
    {
        PaymentRecord {
            property_id: 0,
            payer: Identity::default(),
            amount: 0,
            withdrawn: false,
            bump: 0,
        }
    }
}

impl PaymentRecord {
    /// Nobody has funded this record yet: it has no owner.
    pub open spec fn is_pristine(self) -> bool {
        self.payer.is_null()
    }

    /// A record that is marked as drawn down holds nothing.
    pub open spec fn wf(self) -> bool {
        self.withdrawn ==> self.amount == 0
    }

    /// The record after its contributor has put `amount` into the property: a
    /// pristine record takes the contributor, the property and the amount; one
    /// that was drawn down starts again from the amount; a live one adds the
    /// amount to what it holds, up to the largest amount. It is live afterwards.
    pub open spec fn after_deposit(self, payer: Identity, property_id: u32, amount: u64) -> PaymentRecord {
        if self.is_pristine() {
            PaymentRecord { property_id, payer, amount, withdrawn: false, bump: self.bump }
        } else if self.withdrawn {
            PaymentRecord { property_id, amount, withdrawn: false, ..self }
        } else {
            PaymentRecord { amount: saturating_sum(self.amount, amount), withdrawn: false, ..self }
        }
    }

    /// The record after its contributor has taken `amount` back: it holds that
    /// much less, and is marked as drawn down once it holds nothing.
    pub open spec fn after_withdrawal(self, amount: u64) -> PaymentRecord
        recommends
            amount <= self.amount,
    {
        PaymentRecord {
            amount: (self.amount - amount) as u64,
            withdrawn: self.withdrawn || self.amount == amount,
            ..self
        }
    }

    /// Records that `payer` has put `amount` into the property.
    pub fn deposit(&mut self, payer: Identity, property_id: u32, amount: u64)
        ensures
            *final(self) == old(self).after_deposit(payer, property_id, amount),
            !final(self).withdrawn,
            final(self).wf(),
            !old(self).is_pristine() ==> final(self).payer == old(self).payer,
    {
        if self.payer.check_null() {
            self.payer = payer;
            self.property_id = property_id;
            self.amount = amount;
        } else if self.withdrawn {
            self.property_id = property_id;
            self.amount = amount;
        } else {
            self.amount = self.amount.saturating_add(amount);
        }
        self.withdrawn = false;
    }

    /// Why the record's contributor cannot take `amount` back, if they cannot:
    /// the record is drawn down, or it holds less.
    pub open spec fn withdrawal_refusal(self, amount: u64) -> Option<ErrorCode> {
        if self.withdrawn {
            Some(ErrorCode::AlreadyWithdrawn)
        } else if amount > self.amount {
            Some(ErrorCode::InsufficientFunds)
        } else {
            None
        }
    }

    /// Takes `amount` off a record that holds it.
    pub(crate) fn debit(&mut self, amount: u64)
        requires
            amount <= old(self).amount,
        ensures
            *final(self) == old(self).after_withdrawal(amount),
            final(self).amount + amount == old(self).amount,
            old(self).wf() ==> final(self).wf(),
    {
        self.amount = self.amount - amount;
        if self.amount == 0 {
            self.withdrawn = true;
        }
    }

    /// Records that the contributor has taken `amount` back, or leaves the
    /// record as it is where it is drawn down or holds less.
    pub fn withdraw(&mut self, amount: u64) -> (outcome: Result<(), ErrorCode>)
        ensures
            outcome == (match old(self).withdrawal_refusal(amount) {
                Some(reason) => Err(reason),
                None => Ok(()),
            }),
            outcome is Ok ==> *final(self) == old(self).after_withdrawal(amount),
            outcome is Err ==> *final(self) == *old(self),
            old(self).wf() ==> final(self).wf(),
    {
        if self.withdrawn {
            return Err(ErrorCode::AlreadyWithdrawn);
        }
        if amount > self.amount {
            return Err(ErrorCode::InsufficientFunds);
        }
        self.debit(amount);
        Ok(())
    }
}

impl Property {
    /// The description of a property.
    pub fn create_property(id: u32, name: String, image_url: String) -> (property: Property)
        ensures
            property.property_id == id,
            property.name == name,
            property.image_url == image_url,
    {
        Property { property_id: id, name, image_url }
    }
}

} // verus!
