//! A merchant's bank details, kept as commitments.
//!
//! The registry never holds a bank name, an account name or an account
//! number: it holds the digest of each. The plaintext is in the audit entry
//! of the registration or of the latest update.

use vstd::prelude::*;
use crate::error::SettlXError;
use crate::primitives::{blank_digest, Digest};

verus! {

/// The mathematical content of a [`MerchantInfo`].
pub struct MerchantInfoView {
    pub bank_name: Seq<u8>,
    pub account_name: Seq<u8>,
    pub account_number: Seq<u8>,
    pub is_registered: bool,
}

impl MerchantInfoView {
    /// What is read for an identity that never registered.
    pub open spec fn blank() -> MerchantInfoView {
        MerchantInfoView {
            bank_name: blank_digest(),
            account_name: blank_digest(),
            account_number: blank_digest(),
            is_registered: false,
        }
    }

    /// The entry of a registered merchant with the three commitments.
    pub open spec fn registered(
        bank_name: Seq<u8>,
        account_name: Seq<u8>,
        account_number: Seq<u8>,
    ) -> MerchantInfoView {
        MerchantInfoView { bank_name, account_name, account_number, is_registered: true }
    }

    /// An entry is either a registered one or the blank one.
    pub open spec fn wf(self) -> bool {
        !self.is_registered ==> self == MerchantInfoView::blank()
    }
}

/// The commitments to a merchant's bank details.
#[derive(Clone, Copy, Debug, PartialEq, Eq, Hash)]
pub struct MerchantInfo {
    pub bank_name: Digest,
    pub account_name: Digest,
    pub account_number: Digest,
    pub is_registered: bool,
}

impl View for MerchantInfo {
    type V = MerchantInfoView;

    open spec fn view(&self) -> MerchantInfoView {
        MerchantInfoView {
            bank_name: self.bank_name@,
            account_name: self.account_name@,
            account_number: self.account_number@,
            is_registered: self.is_registered,
        }
    }
}

impl MerchantInfo {
    /// What is read for an identity that never registered.
    pub fn blank() -> (m: MerchantInfo)
        ensures
            m@ == MerchantInfoView::blank(),
    {
        MerchantInfo {
            bank_name: Digest::zero(),
            account_name: Digest::zero(),
            account_number: Digest::zero(),
            is_registered: false,
        }
    }

    /// The entry of a registered merchant. All three commitments are set together.
    pub fn registered(bank_name: Digest, account_name: Digest, account_number: Digest) -> (m:
        MerchantInfo)
        ensures
            m@ == MerchantInfoView::registered(bank_name@, account_name@, account_number@),
    {
        MerchantInfo { bank_name, account_name, account_number, is_registered: true }
    }

    /// The three commitments, as the queries return them.
    pub fn digests(&self) -> (d: (Digest, Digest, Digest))
        ensures
            d.0@ == self@.bank_name,
            d.1@ == self@.account_name,
            d.2@ == self@.account_number,
    {
        (self.bank_name, self.account_name, self.account_number)
    }
}

/// Which field, if any, is missing from a merchant's bank details. The
/// fields are looked at in the order bank name, account name, account number.
pub open spec fn bank_details_error(
    bank_name: Seq<char>,
    account_name: Seq<char>,
    account_number: Seq<char>,
) -> Option<SettlXError> {
    if bank_name.len() == 0 {
        Some(SettlXError::BankNameRequired)
    } else if account_name.len() == 0 {
        Some(SettlXError::AccountNameRequired)
    } else if account_number.len() == 0 {
        Some(SettlXError::AccountNumberRequired)
    } else {
        None
    }
}

/// Checks that no field of a merchant's bank details is empty.
pub fn check_bank_details(bank_name: &str, account_name: &str, account_number: &str) -> (r: Result<
    (),
    SettlXError,
>)
    ensures
        match r {
            Ok(_) => bank_details_error(bank_name@, account_name@, account_number@) is None,
            Err(e) => bank_details_error(bank_name@, account_name@, account_number@) == Some(e),
        },
{
    if bank_name.is_empty() {
        Err(SettlXError::BankNameRequired)
    } else if account_name.is_empty() {
        Err(SettlXError::AccountNameRequired)
    } else if account_number.is_empty() {
        Err(SettlXError::AccountNumberRequired)
    } else {
        Ok(())
    }
}

/// Which failure, if any, keeps a merchant from updating bank details.
pub open spec fn update_error(
    current: MerchantInfoView,
    bank_name: Seq<char>,
    account_name: Seq<char>,
    account_number: Seq<char>,
) -> Option<SettlXError> {
    if bank_details_error(bank_name, account_name, account_number) is Some {
        bank_details_error(bank_name, account_name, account_number)
    } else if !current.is_registered {
        Some(SettlXError::NotRegistered)
    } else {
        None
    }
}

/// Checks that a merchant with the entry `current` may replace its bank
/// details by the given ones: no field is empty, and it registered before.
pub fn check_update(
    current: &MerchantInfo,
    bank_name: &str,
    account_name: &str,
    account_number: &str,
) -> (r: Result<(), SettlXError>)
    ensures
        match r {
            Ok(_) => update_error(current@, bank_name@, account_name@, account_number@) is None,
            Err(e) => update_error(current@, bank_name@, account_name@, account_number@) == Some(
                e,
            ),
        },
{
    match check_bank_details(bank_name, account_name, account_number) {
        Err(e) => Err(e),
        Ok(_) => if !current.is_registered {
            Err(SettlXError::NotRegistered)
        } else {
            Ok(())
        },
    }
}

} // verus!
