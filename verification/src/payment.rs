//! One escrow record and the transitions of its lifecycle.
//!
//! A payment starts `Pending`. Its merchant either accepts it, which locks an
//! exchange rate, or rejects it. The administrator marks an accepted payment
//! as paid. `Rejected` and `Paid` are final.

use vstd::prelude::*;
use crate::error::SettlXError;
use crate::primitives::{blank_digest, Address, Digest, U256};

verus! {

/// Where a payment stands in its lifecycle.
#[derive(Clone, Copy, Debug, PartialEq, Eq, Structural, Hash)]
pub enum Status {
    Pending,
    Accepted,
    Rejected,
    Paid,
}

impl Status {
    /// The number under which a status is reported: 0 for `Pending`,
    /// 1 for `Accepted`, 2 for `Rejected`, 3 for `Paid`.
    pub open spec fn spec_code(self) -> u8 {
        match self {
            Status::Pending => 0,
            Status::Accepted => 1,
            Status::Rejected => 2,
            Status::Paid => 3,
        }
    }

    /// The status that a number stands for, if any.
    pub open spec fn spec_from_code(code: u8) -> Option<Status> {
        if code == 0 {
            Some(Status::Pending)
        } else if code == 1 {
            Some(Status::Accepted)
        } else if code == 2 {
            Some(Status::Rejected)
        } else if code == 3 {
            Some(Status::Paid)
        } else {
            None
        }
    }

    /// Whether a payment may move from `self` to `next` in one transition.
    pub open spec fn may_become(self, next: Status) -> bool {
        ||| self == Status::Pending && next == Status::Accepted
        ||| self == Status::Pending && next == Status::Rejected
        ||| self == Status::Accepted && next == Status::Paid
    }

    /// Whether no transition leaves this status.
    pub open spec fn is_final(self) -> bool {
        self == Status::Rejected || self == Status::Paid
    }

    #[verifier::when_used_as_spec(spec_code)]
    pub fn code(self) -> (c: u8)
        ensures
            c == self.spec_code(),
    {
        match self {
            Status::Pending => 0,
            Status::Accepted => 1,
            Status::Rejected => 2,
            Status::Paid => 3,
        }
    }

    #[verifier::when_used_as_spec(spec_from_code)]
    pub fn from_code(code: u8) -> (s: Option<Status>)
        ensures
            s == Status::spec_from_code(code),
    {
        if code == 0 {
            Some(Status::Pending)
        } else if code == 1 {
            Some(Status::Accepted)
        } else if code == 2 {
            Some(Status::Rejected)
        } else if code == 3 {
            Some(Status::Paid)
        } else {
            None
        }
    }

    /// A status is found again from its number.
    pub proof fn lemma_code_round_trip(s: Status)
        ensures
            Status::spec_from_code(s.spec_code()) == Some(s),
    {
    }
}

/// The mathematical content of a [`Payment`].
pub struct PaymentView {
    pub id: nat,
    pub payer: Address,
    pub merchant: Address,
    pub amount: nat,
    pub timestamp: nat,
    pub rfce: Seq<u8>,
    pub status: Status,
    pub locked_rate: nat,
}

impl PaymentView {
    /// What is read where no payment was ever stored: every field zero.
    pub open spec fn blank() -> PaymentView {
        PaymentView {
            id: 0,
            payer: Address::null(),
            merchant: Address::null(),
            amount: 0,
            timestamp: 0,
            rfce: blank_digest(),
            status: Status::Pending,
            locked_rate: 0,
        }
    }

    /// A payment as it is right after its creation.
    pub open spec fn pending(
        id: nat,
        payer: Address,
        merchant: Address,
        amount: nat,
        timestamp: nat,
        rfce: Seq<u8>,
    ) -> PaymentView {
        PaymentView {
            id,
            payer,
            merchant,
            amount,
            timestamp,
            rfce,
            status: Status::Pending,
            locked_rate: 0,
        }
    }

    /// What holds of every payment that the lifecycle can produce: it has a
    /// merchant and an amount, and its rate is locked exactly from the
    /// moment it was accepted.
    pub open spec fn wf(self) -> bool {
        &&& !self.merchant.is_null()
        &&& self.amount > 0
        &&& self.locked_rate != 0 <==> (self.status == Status::Accepted || self.status
            == Status::Paid)
    }

    /// Whether this payment is `caller`'s to accept or reject: `caller` is
    /// its merchant. A record without a merchant is nobody's.
    pub open spec fn is_for(self, caller: Address) -> bool {
        self.merchant == caller && !self.merchant.is_null()
    }

    /// The merchant accepts at `rate`.
    pub open spec fn accept(self, caller: Address, rate: nat) -> Result<PaymentView, SettlXError> {
        if !self.is_for(caller) {
            Err(SettlXError::NotYourPayment)
        } else if self.status != Status::Pending {
            Err(SettlXError::AlreadyProcessed)
        } else if rate == 0 {
            Err(SettlXError::InvalidRate)
        } else {
            Ok(PaymentView { status: Status::Accepted, locked_rate: rate, ..self })
        }
    }

    /// The merchant rejects.
    pub open spec fn reject(self, caller: Address) -> Result<PaymentView, SettlXError> {
        if !self.is_for(caller) {
            Err(SettlXError::NotYourPayment)
        } else if self.status != Status::Pending {
            Err(SettlXError::AlreadyProcessed)
        } else {
            Ok(PaymentView { status: Status::Rejected, ..self })
        }
    }

    /// The administrator `admin` confirms that the fiat was delivered.
    pub open spec fn mark_paid(self, caller: Address, admin: Address) -> Result<
        PaymentView,
        SettlXError,
    > {
        if caller != admin {
            Err(SettlXError::OnlyAdmin)
        } else if self.status != Status::Accepted {
            Err(SettlXError::MustBeAcceptedFirst)
        } else {
            Ok(PaymentView { status: Status::Paid, ..self })
        }
    }

    /// Whether `next` is `self` with nothing changed but the status and the locked rate.
    pub open spec fn same_terms(self, next: PaymentView) -> bool {
        &&& next.id == self.id
        &&& next.payer == self.payer
        &&& next.merchant == self.merchant
        &&& next.amount == self.amount
        &&& next.timestamp == self.timestamp
        &&& next.rfce == self.rfce
    }
}

/// An escrow record: asset units held for a merchant until the fiat is settled.
#[derive(Clone, Copy, Debug, PartialEq, Eq, Hash)]
pub struct Payment {
    pub id: U256,
    pub payer: Address,
    pub merchant: Address,
    pub amount: U256,
    pub timestamp: U256,
    /// The commitment to the payment's reference; never the plaintext.
    pub rfce: Digest,
    pub status: Status,
    /// Zero until the payment is accepted.
    pub locked_rate: U256,
}

impl View for Payment {
    type V = PaymentView;

    open spec fn view(&self) -> PaymentView {
        PaymentView {
            id: self.id@,
            payer: self.payer,
            merchant: self.merchant,
            amount: self.amount@,
            timestamp: self.timestamp@,
            rfce: self.rfce@,
            status: self.status,
            locked_rate: self.locked_rate@,
        }
    }
}

/// Which failure, if any, keeps a payment of `amount` to `merchant` from being created.
pub open spec fn new_payment_error(merchant: Address, amount: nat) -> Option<SettlXError> {
    if merchant.is_null() {
        Some(SettlXError::InvalidMerchant)
    } else if amount == 0 {
        Some(SettlXError::InvalidAmount)
    } else {
        None
    }
}

/// Checks the terms of a payment before any asset moves.
pub fn check_new_payment(merchant: Address, amount: U256) -> (r: Result<(), SettlXError>)
    ensures
        match r {
            Ok(_) => new_payment_error(merchant, amount@) is None,
            Err(e) => new_payment_error(merchant, amount@) == Some(e),
        },
{
    if merchant.is_zero() {
        Err(SettlXError::InvalidMerchant)
    } else if amount.is_zero() {
        Err(SettlXError::InvalidAmount)
    } else {
        Ok(())
    }
}

impl Payment {
    /// What is read where no payment was ever stored.
    pub fn blank() -> (p: Payment)
        ensures
            p@ == PaymentView::blank(),
    {
        Payment {
            id: U256::zero(),
            payer: Address::zero(),
            merchant: Address::zero(),
            amount: U256::zero(),
            timestamp: U256::zero(),
            rfce: Digest::zero(),
            status: Status::Pending,
            locked_rate: U256::zero(),
        }
    }

    /// A new pending payment with the commitment `rfce` to its reference.
    pub fn pending(
        id: U256,
        payer: Address,
        merchant: Address,
        amount: U256,
        timestamp: U256,
        rfce: Digest,
    ) -> (p: Payment)
        ensures
            p@ == PaymentView::pending(id@, payer, merchant, amount@, timestamp@, rfce@),
    {
        Payment {
            id,
            payer,
            merchant,
            amount,
            timestamp,
            rfce,
            status: Status::Pending,
            locked_rate: U256::zero(),
        }
    }

    /// The merchant accepts the payment and locks `rate`.
    pub fn accept(&self, caller: Address, rate: U256) -> (r: Result<Payment, SettlXError>)
        ensures
            match r {
                Ok(p) => self@.accept(caller, rate@) == Ok::<PaymentView, SettlXError>(p@),
                Err(e) => self@.accept(caller, rate@) == Err::<PaymentView, SettlXError>(e),
            },
    {
        if self.merchant != caller || self.merchant.is_zero() {
            Err(SettlXError::NotYourPayment)
        } else if self.status != Status::Pending {
            Err(SettlXError::AlreadyProcessed)
        } else if rate.is_zero() {
            Err(SettlXError::InvalidRate)
        } else {
            Ok(
                Payment {
                    id: self.id,
                    payer: self.payer,
                    merchant: self.merchant,
                    amount: self.amount,
                    timestamp: self.timestamp,
                    rfce: self.rfce,
                    status: Status::Accepted,
                    locked_rate: rate,
                },
            )
        }
    }

    /// The merchant rejects the payment.
    pub fn reject(&self, caller: Address) -> (r: Result<Payment, SettlXError>)
        ensures
            match r {
                Ok(p) => self@.reject(caller) == Ok::<PaymentView, SettlXError>(p@),
                Err(e) => self@.reject(caller) == Err::<PaymentView, SettlXError>(e),
            },
    {
        if self.merchant != caller || self.merchant.is_zero() {
            Err(SettlXError::NotYourPayment)
        } else if self.status != Status::Pending {
            Err(SettlXError::AlreadyProcessed)
        } else {
            Ok(
                Payment {
                    id: self.id,
                    payer: self.payer,
                    merchant: self.merchant,
                    amount: self.amount,
                    timestamp: self.timestamp,
                    rfce: self.rfce,
                    status: Status::Rejected,
                    locked_rate: self.locked_rate,
                },
            )
        }
    }

    /// The administrator `admin` marks the payment as paid.
    pub fn mark_paid(&self, caller: Address, admin: Address) -> (r: Result<Payment, SettlXError>)
        ensures
            match r {
                Ok(p) => self@.mark_paid(caller, admin) == Ok::<PaymentView, SettlXError>(p@),
                Err(e) => self@.mark_paid(caller, admin) == Err::<PaymentView, SettlXError>(e),
            },
    {
        if caller != admin {
            Err(SettlXError::OnlyAdmin)
        } else if self.status != Status::Accepted {
            Err(SettlXError::MustBeAcceptedFirst)
        } else {
            Ok(
                Payment {
                    id: self.id,
                    payer: self.payer,
                    merchant: self.merchant,
                    amount: self.amount,
                    timestamp: self.timestamp,
                    rfce: self.rfce,
                    status: Status::Paid,
                    locked_rate: self.locked_rate,
                },
            )
        }
    }

    /// The redacted projection of a payment: every field but the locked rate,
    /// the status as its number.
    pub fn summary(&self) -> (s: (U256, Address, Address, U256, U256, Digest, u8))
        ensures
            summary_view(s) == self@.summary(),
    {
        (
            self.id,
            self.payer,
            self.merchant,
            self.amount,
            self.timestamp,
            self.rfce,
            self.status.code(),
        )
    }
}

/// The mathematical content of a redacted projection.
pub struct SummaryView {
    pub id: nat,
    pub payer: Address,
    pub merchant: Address,
    pub amount: nat,
    pub timestamp: nat,
    pub rfce: Seq<u8>,
    pub status: u8,
}

/// What a projection, as the queries return it, holds.
pub open spec fn summary_view(s: (U256, Address, Address, U256, U256, Digest, u8)) -> SummaryView {
    SummaryView {
        id: s.0@,
        payer: s.1,
        merchant: s.2,
        amount: s.3@,
        timestamp: s.4@,
        rfce: s.5@,
        status: s.6,
    }
}

impl PaymentView {
    /// The redacted projection: the locked rate is left out.
    pub open spec fn summary(self) -> SummaryView {
        SummaryView {
            id: self.id,
            payer: self.payer,
            merchant: self.merchant,
            amount: self.amount,
            timestamp: self.timestamp,
            rfce: self.rfce,
            status: self.status.spec_code(),
        }
    }
}

} // verus!
