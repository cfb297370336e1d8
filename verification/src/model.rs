//! The ledger as a mathematical state, and its operations as transitions.
//!
//! Every operation either fails and leaves the state as it was, or succeeds
//! and yields the next state. The executable ledger is specified against
//! these transitions.

use vstd::prelude::*;
use crate::digest::commitment;
use crate::effects::CustodyCallView;
use crate::error::SettlXError;
use crate::merchant::{bank_details_error, update_error, MerchantInfoView};
use crate::payment::{new_payment_error, PaymentView};
use crate::primitives::Address;

verus! {

/// The side of a payment on which a party stands.
pub enum Role {
    Merchant,
    Payer,
}

/// The party that stands on the side `role` of `payment`.
pub open spec fn party(payment: PaymentView, role: Role) -> Address {
    match role {
        Role::Merchant => payment.merchant,
        Role::Payer => payment.payer,
    }
}

/// The ids, in creation order, of the payments in which `who` stands on the side `role`.
pub open spec fn ids_of(payments: Seq<PaymentView>, who: Address, role: Role) -> Seq<nat>
    decreases payments.len(),
{
    if payments.len() == 0 {
        Seq::empty()
    } else {
        let earlier = ids_of(payments.drop_last(), who, role);
        if party(payments.last(), role) == who {
            earlier.push(payments.last().id)
        } else {
            earlier
        }
    }
}

/// The whole state of the ledger.
#[verifier::ext_equal]
pub struct LedgerView {
    /// The custodied asset.
    pub stable_token: Address,
    /// The id that the next payment gets.
    pub next_payment_id: nat,
    pub admin: Address,
    /// The payments in creation order: the payment with id `i` stands at index `i - 1`.
    pub payments: Seq<PaymentView>,
    /// For every identity, the ids of the payments made to it.
    pub merchant_payments: Map<Address, Seq<nat>>,
    /// For every identity, its bank details; blank where it never registered.
    pub merchants: Map<Address, MerchantInfoView>,
    /// For every identity, the ids of the payments made by it.
    pub payer_payments: Map<Address, Seq<nat>>,
}

impl LedgerView {
    /// The state right after initialization by `admin` for the asset `stable_token`.
    pub open spec fn fresh(admin: Address, stable_token: Address) -> LedgerView {
        LedgerView {
            stable_token,
            next_payment_id: 1,
            admin,
            payments: Seq::empty(),
            merchant_payments: Map::total(|a: Address| Seq::<nat>::empty()),
            merchants: Map::total(|a: Address| MerchantInfoView::blank()),
            payer_payments: Map::total(|a: Address| Seq::<nat>::empty()),
        }
    }

    /// Whether a payment with this id was created.
    pub open spec fn has_payment(self, id: nat) -> bool {
        1 <= id <= self.payments.len()
    }

    /// The payment with this id; the blank payment where none was created.
    pub open spec fn payment(self, id: nat) -> PaymentView {
        if self.has_payment(id) {
            self.payments[id - 1]
        } else {
            PaymentView::blank()
        }
    }

    /// What holds of every state that the operations can reach.
    pub open spec fn wf(self) -> bool {
        &&& !self.stable_token.is_null()
        &&& self.next_payment_id == self.payments.len() + 1
        &&& forall|i: int|
            0 <= i < self.payments.len() ==> (#[trigger] self.payments[i]).id == i + 1
                && self.payments[i].wf()
        &&& self.merchant_payments.dom().is_full()
        &&& self.merchants.dom().is_full()
        &&& self.payer_payments.dom().is_full()
        &&& forall|a: Address| #[trigger]
            self.merchant_payments[a] == ids_of(self.payments, a, Role::Merchant)
        &&& forall|a: Address| #[trigger]
            self.payer_payments[a] == ids_of(self.payments, a, Role::Payer)
        &&& forall|a: Address| (#[trigger] self.merchants[a]).wf()
    }

    /// The state with `info` as the bank details of `who`.
    pub open spec fn with_merchant(self, who: Address, info: MerchantInfoView) -> LedgerView {
        LedgerView { merchants: self.merchants.insert(who, info), ..self }
    }

    /// The state with `p` as its newest payment, indexed under both parties.
    pub open spec fn with_new_payment(self, p: PaymentView) -> LedgerView {
        LedgerView {
            next_payment_id: self.next_payment_id + 1,
            payments: self.payments.push(p),
            merchant_payments: self.merchant_payments.insert(
                p.merchant,
                self.merchant_payments[p.merchant].push(p.id),
            ),
            payer_payments: self.payer_payments.insert(
                p.payer,
                self.payer_payments[p.payer].push(p.id),
            ),
            ..self
        }
    }

    /// The state with `p` in place of the payment with id `id`.
    pub open spec fn with_payment(self, id: nat, p: PaymentView) -> LedgerView {
        LedgerView { payments: self.payments.update(id - 1, p), ..self }
    }

    /// `caller` registers bank details.
    pub open spec fn register(
        self,
        caller: Address,
        bank_name: Seq<char>,
        account_name: Seq<char>,
        account_number: Seq<char>,
    ) -> Result<LedgerView, SettlXError> {
        match bank_details_error(bank_name, account_name, account_number) {
            Some(e) => Err(e),
            None => Ok(
                self.with_merchant(
                    caller,
                    MerchantInfoView::registered(
                        commitment(bank_name),
                        commitment(account_name),
                        commitment(account_number),
                    ),
                ),
            ),
        }
    }

    /// `caller`, registered before, replaces its bank details.
    pub open spec fn update(
        self,
        caller: Address,
        bank_name: Seq<char>,
        account_name: Seq<char>,
        account_number: Seq<char>,
    ) -> Result<LedgerView, SettlXError> {
        match update_error(self.merchants[caller], bank_name, account_name, account_number) {
            Some(e) => Err(e),
            None => Ok(
                self.with_merchant(
                    caller,
                    MerchantInfoView::registered(
                        commitment(bank_name),
                        commitment(account_name),
                        commitment(account_number),
                    ),
                ),
            ),
        }
    }

    /// The movement that creating a payment needs: `amount` from the payer into `escrow`.
    pub open spec fn custody_for_pay(
        caller: Address,
        escrow: Address,
        merchant: Address,
        amount: nat,
    ) -> Result<CustodyCallView, SettlXError> {
        match new_payment_error(merchant, amount) {
            Some(e) => Err(e),
            None => Ok(CustodyCallView::PullInto { source: caller, destination: escrow, amount }),
        }
    }

    /// `caller` creates a payment whose reference has the commitment `rfce`;
    /// `custody_ok` tells whether the custodian pulled the amount into escrow.
    pub open spec fn pay(
        self,
        caller: Address,
        timestamp: nat,
        merchant: Address,
        amount: nat,
        rfce: Seq<u8>,
        custody_ok: bool,
    ) -> Result<LedgerView, SettlXError> {
        match new_payment_error(merchant, amount) {
            Some(e) => Err(e),
            None => if !custody_ok {
                Err(SettlXError::TransferFailed)
            } else {
                Ok(
                    self.with_new_payment(
                        PaymentView::pending(
                            self.next_payment_id,
                            caller,
                            merchant,
                            amount,
                            timestamp,
                            rfce,
                        ),
                    ),
                )
            },
        }
    }

    /// The payment that `caller` may accept at `rate`, as it is after that.
    /// A payment that was never created reads as blank and is nobody's.
    pub open spec fn accepted(self, caller: Address, id: nat, rate: nat) -> Result<
        PaymentView,
        SettlXError,
    > {
        self.payment(id).accept(caller, rate)
    }

    /// The movement that accepting needs: the amount out of escrow to the administrator.
    pub open spec fn custody_for_accept(self, caller: Address, id: nat, rate: nat) -> Result<
        CustodyCallView,
        SettlXError,
    > {
        match self.accepted(caller, id, rate) {
            Err(e) => Err(e),
            Ok(p) => Ok(CustodyCallView::PushFrom { destination: self.admin, amount: p.amount }),
        }
    }

    /// `caller` accepts the payment `id` at `rate`; `custody_ok` tells whether
    /// the custodian moved the amount to the administrator.
    pub open spec fn accept(self, caller: Address, id: nat, rate: nat, custody_ok: bool) -> Result<
        LedgerView,
        SettlXError,
    > {
        match self.accepted(caller, id, rate) {
            Err(e) => Err(e),
            Ok(p) => if !custody_ok {
                Err(SettlXError::TransferFailed)
            } else {
                Ok(self.with_payment(id, p))
            },
        }
    }

    /// The payment that `caller` may reject, as it is after that.
    pub open spec fn rejected(self, caller: Address, id: nat) -> Result<PaymentView, SettlXError> {
        self.payment(id).reject(caller)
    }

    /// The movement that rejecting needs: the amount out of escrow back to the payer.
    pub open spec fn custody_for_reject(self, caller: Address, id: nat) -> Result<
        CustodyCallView,
        SettlXError,
    > {
        match self.rejected(caller, id) {
            Err(e) => Err(e),
            Ok(p) => Ok(CustodyCallView::PushFrom { destination: p.payer, amount: p.amount }),
        }
    }

    /// `caller` rejects the payment `id`; `custody_ok` tells whether the
    /// custodian refunded the payer.
    pub open spec fn reject(self, caller: Address, id: nat, custody_ok: bool) -> Result<
        LedgerView,
        SettlXError,
    > {
        match self.rejected(caller, id) {
            Err(e) => Err(e),
            Ok(p) => if !custody_ok {
                Err(SettlXError::TransferFailed)
            } else {
                Ok(self.with_payment(id, p))
            },
        }
    }

    /// `caller` marks the payment `id` as paid. No asset moves.
    pub open spec fn mark_paid(self, caller: Address, id: nat) -> Result<LedgerView, SettlXError> {
        match self.payment(id).mark_paid(caller, self.admin) {
            Err(e) => Err(e),
            Ok(p) => Ok(self.with_payment(id, p)),
        }
    }
}

/// A new payment enters the list of a party exactly if the party stands on that side of it.
pub proof fn lemma_ids_of_push(payments: Seq<PaymentView>, p: PaymentView, who: Address, role: Role)
    ensures
        ids_of(payments.push(p), who, role) == if party(p, role) == who {
            ids_of(payments, who, role).push(p.id)
        } else {
            ids_of(payments, who, role)
        },
{
    assert(payments.push(p).drop_last() =~= payments);
}

/// A change of status or rate moves no payment in or out of any list.
pub proof fn lemma_ids_of_update(
    payments: Seq<PaymentView>,
    i: int,
    p: PaymentView,
    who: Address,
    role: Role,
)
    requires
        0 <= i < payments.len(),
        payments[i].same_terms(p),
    ensures
        ids_of(payments.update(i, p), who, role) == ids_of(payments, who, role),
    decreases payments.len(),
{
    let updated = payments.update(i, p);
    if i == payments.len() - 1 {
        assert(updated.drop_last() =~= payments.drop_last());
    } else {
        assert(updated.drop_last() =~= payments.drop_last().update(i, p));
        lemma_ids_of_update(payments.drop_last(), i, p, who, role);
    }
}

impl LedgerView {
    /// The state after initialization is well-formed.
    pub proof fn lemma_fresh_wf(admin: Address, stable_token: Address)
        requires
            !stable_token.is_null(),
        ensures
            LedgerView::fresh(admin, stable_token).wf(),
    {
    }

    /// Storing a well-formed entry keeps the state well-formed.
    pub proof fn lemma_with_merchant_wf(self, who: Address, info: MerchantInfoView)
        requires
            self.wf(),
            info.wf(),
        ensures
            self.with_merchant(who, info).wf(),
    {
        assert(self.with_merchant(who, info).merchants.dom() =~= Set::full());
    }

    /// Appending a well-formed payment with the next id keeps the state well-formed.
    pub proof fn lemma_with_new_payment_wf(self, p: PaymentView)
        requires
            self.wf(),
            p.wf(),
            p.id == self.next_payment_id,
        ensures
            self.with_new_payment(p).wf(),
    {
        let next = self.with_new_payment(p);
        assert(next.merchant_payments.dom() =~= Set::full());
        assert(next.payer_payments.dom() =~= Set::full());
        assert forall|a: Address| #[trigger]
            next.merchant_payments[a] == ids_of(next.payments, a, Role::Merchant) by {
            lemma_ids_of_push(self.payments, p, a, Role::Merchant);
        }
        assert forall|a: Address| #[trigger]
            next.payer_payments[a] == ids_of(next.payments, a, Role::Payer) by {
            lemma_ids_of_push(self.payments, p, a, Role::Payer);
        }
    }

    /// Replacing a payment by one of the same terms keeps the state well-formed.
    pub proof fn lemma_with_payment_wf(self, id: nat, p: PaymentView)
        requires
            self.wf(),
            self.has_payment(id),
            self.payment(id).same_terms(p),
            p.wf(),
        ensures
            self.with_payment(id, p).wf(),
    {
        let next = self.with_payment(id, p);
        assert forall|a: Address| #[trigger]
            next.merchant_payments[a] == ids_of(next.payments, a, Role::Merchant) by {
            lemma_ids_of_update(self.payments, id - 1, p, a, Role::Merchant);
        }
        assert forall|a: Address| #[trigger]
            next.payer_payments[a] == ids_of(next.payments, a, Role::Payer) by {
            lemma_ids_of_update(self.payments, id - 1, p, a, Role::Payer);
        }
    }
}

} // verus!
