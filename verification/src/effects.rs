//! What an operation asks of the outside world: a custody movement to carry
//! out, and an audit entry to publish.
//!
//! The ledger moves no asset and publishes nothing itself. An operation that
//! needs a movement names it first; its caller has the custodian carry it
//! out and reports whether that succeeded. A successful operation hands back
//! the audit entry, the one place where its plaintext lives on.

use vstd::prelude::*;
use crate::error::SettlXError;
use crate::primitives::{Address, U256};

verus! {

/// The mathematical content of a [`CustodyCall`].
pub enum CustodyCallView {
    PullInto { source: Address, destination: Address, amount: nat },
    PushFrom { destination: Address, amount: nat },
}

/// A movement of asset units that the custodian is asked to make.
#[derive(Clone, Copy, Debug, PartialEq, Eq, Hash)]
pub enum CustodyCall {
    /// Move `amount` units from `source` into the escrow `destination`.
    PullInto { source: Address, destination: Address, amount: U256 },
    /// Move `amount` units out of escrow to `destination`.
    PushFrom { destination: Address, amount: U256 },
}

impl View for CustodyCall {
    type V = CustodyCallView;

    open spec fn view(&self) -> CustodyCallView {
        match *self {
            CustodyCall::PullInto { source, destination, amount } => CustodyCallView::PullInto {
                source,
                destination,
                amount: amount@,
            },
            CustodyCall::PushFrom { destination, amount } => CustodyCallView::PushFrom {
                destination,
                amount: amount@,
            },
        }
    }
}

/// Turns the custodian's answer into the outcome of the operation that
/// asked: a movement that was not made fails the operation.
pub fn check_custody(custody_ok: bool) -> (r: Result<(), SettlXError>)
    ensures
        match r {
            Ok(_) => custody_ok,
            Err(e) => !custody_ok && e == SettlXError::TransferFailed,
        },
{
    if custody_ok {
        Ok(())
    } else {
        Err(SettlXError::TransferFailed)
    }
}

/// The mathematical content of an [`AuditEntry`].
pub enum AuditEntryView {
    MerchantRegistered {
        merchant: Address,
        bank_name: Seq<char>,
        account_name: Seq<char>,
        account_number: Seq<char>,
    },
    MerchantUpdated {
        merchant: Address,
        bank_name: Seq<char>,
        account_name: Seq<char>,
        account_number: Seq<char>,
    },
    PaymentCreated { id: nat, payer: Address, merchant: Address, amount: nat, rfce: Seq<char> },
    PaymentAccepted { id: nat, locked_rate: nat },
    PaymentRejected { id: nat },
    PaymentMarkedAsPaid { id: nat },
}

/// An entry of the public, append-only audit log.
#[derive(Debug, PartialEq, Eq)]
pub enum AuditEntry {
    /// A merchant registered bank details; the fields are the plaintext.
    MerchantRegistered {
        merchant: Address,
        bank_name: String,
        account_name: String,
        account_number: String,
    },
    /// A merchant replaced bank details; the fields are the plaintext.
    MerchantUpdated {
        merchant: Address,
        bank_name: String,
        account_name: String,
        account_number: String,
    },
    /// A payer put `amount` units in escrow; `rfce` is the plaintext reference.
    PaymentCreated { id: U256, payer: Address, merchant: Address, amount: U256, rfce: String },
    /// The merchant accepted; the locked rate is published here and nowhere else.
    PaymentAccepted { id: U256, locked_rate: U256 },
    /// The merchant rejected and the payer was refunded.
    PaymentRejected { id: U256 },
    /// The administrator confirmed the fiat delivery.
    PaymentMarkedAsPaid { id: U256 },
}

impl View for AuditEntry {
    type V = AuditEntryView;

    open spec fn view(&self) -> AuditEntryView {
        match *self {
            AuditEntry::MerchantRegistered { merchant, bank_name, account_name, account_number } =>
                AuditEntryView::MerchantRegistered {
                    merchant,
                    bank_name: bank_name@,
                    account_name: account_name@,
                    account_number: account_number@,
                },
            AuditEntry::MerchantUpdated { merchant, bank_name, account_name, account_number } =>
                AuditEntryView::MerchantUpdated {
                    merchant,
                    bank_name: bank_name@,
                    account_name: account_name@,
                    account_number: account_number@,
                },
            AuditEntry::PaymentCreated { id, payer, merchant, amount, rfce } =>
                AuditEntryView::PaymentCreated {
                    id: id@,
                    payer,
                    merchant,
                    amount: amount@,
                    rfce: rfce@,
                },
            AuditEntry::PaymentAccepted { id, locked_rate } => AuditEntryView::PaymentAccepted {
                id: id@,
                locked_rate: locked_rate@,
            },
            AuditEntry::PaymentRejected { id } => AuditEntryView::PaymentRejected { id: id@ },
            AuditEntry::PaymentMarkedAsPaid { id } => AuditEntryView::PaymentMarkedAsPaid {
                id: id@,
            },
        }
    }
}

} // verus!
