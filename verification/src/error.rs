//! The failures that an operation can report.

use vstd::prelude::*;

verus! {

/// Why an operation was refused. A refused operation changes nothing.
#[derive(Clone, Copy, Debug, PartialEq, Eq, Structural, Hash)]
pub enum SettlXError {
    /// The custodied asset's identity is null.
    InvalidToken,
    /// The merchant's identity is null.
    InvalidMerchant,
    /// The amount is zero.
    InvalidAmount,
    /// The caller is not the administrator.
    OnlyAdmin,
    /// The caller is not the merchant of the payment.
    NotYourPayment,
    /// The payment is no longer pending.
    AlreadyProcessed,
    /// The exchange rate is zero.
    InvalidRate,
    /// The bank name is empty.
    BankNameRequired,
    /// The account name is empty.
    AccountNameRequired,
    /// The account number is empty.
    AccountNumberRequired,
    /// The payment has not been accepted.
    MustBeAcceptedFirst,
    /// The caller has no registered bank details to update.
    NotRegistered,
    /// The custodian did not move the asset.
    TransferFailed,
}

} // verus!
