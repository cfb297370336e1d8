//! What holds of the ledger over any sequence of operations.
//!
//! The operations are gathered into one type, [`Operation`], so that a
//! history is a sequence of them. A failed operation leaves the state as it
//! was; the laws below are stated of every history.

use vstd::prelude::*;
use crate::digest::commitment;
use crate::error::SettlXError;
use crate::merchant::{bank_details_error, MerchantInfoView};
use crate::model::LedgerView;
use crate::payment::{new_payment_error, PaymentView, Status};
use crate::primitives::Address;

verus! {

/// One call of an operation of the ledger, with its caller and arguments.
pub enum Operation {
    Register {
        caller: Address,
        bank_name: Seq<char>,
        account_name: Seq<char>,
        account_number: Seq<char>,
    },
    Update {
        caller: Address,
        bank_name: Seq<char>,
        account_name: Seq<char>,
        account_number: Seq<char>,
    },
    Pay {
        caller: Address,
        timestamp: nat,
        merchant: Address,
        amount: nat,
        rfce: Seq<u8>,
        custody_ok: bool,
    },
    Accept { caller: Address, id: nat, rate: nat, custody_ok: bool },
    Reject { caller: Address, id: nat, custody_ok: bool },
    MarkPaid { caller: Address, id: nat },
}

impl Status {
    /// Whether a payment in status `self` can be found in status `later`
    /// after any number of transitions.
    pub open spec fn reaches(self, later: Status) -> bool {
        ||| self == later
        ||| self.may_become(later)
        ||| self == Status::Pending && later == Status::Paid
    }
}

impl PaymentView {
    /// Whether `later` can be this payment at a later time: the same terms,
    /// a status that this one reaches, and the same rate once it is locked.
    pub open spec fn continues_as(self, later: PaymentView) -> bool {
        &&& self.same_terms(later)
        &&& self.status.reaches(later.status)
        &&& self.locked_rate != 0 ==> later.locked_rate == self.locked_rate
    }
}

impl LedgerView {
    /// The outcome of one operation.
    pub open spec fn apply(self, op: Operation) -> Result<LedgerView, SettlXError> {
        match op {
            Operation::Register { caller, bank_name, account_name, account_number } =>
                self.register(caller, bank_name, account_name, account_number),
            Operation::Update { caller, bank_name, account_name, account_number } => self.update(
                caller,
                bank_name,
                account_name,
                account_number,
            ),
            Operation::Pay { caller, timestamp, merchant, amount, rfce, custody_ok } => self.pay(
                caller,
                timestamp,
                merchant,
                amount,
                rfce,
                custody_ok,
            ),
            Operation::Accept { caller, id, rate, custody_ok } => self.accept(
                caller,
                id,
                rate,
                custody_ok,
            ),
            Operation::Reject { caller, id, custody_ok } => self.reject(caller, id, custody_ok),
            Operation::MarkPaid { caller, id } => self.mark_paid(caller, id),
        }
    }

    /// The state after one operation: unchanged where the operation fails.
    pub open spec fn step(self, op: Operation) -> LedgerView {
        match self.apply(op) {
            Ok(next) => next,
            Err(_) => self,
        }
    }

    /// The state after a history of operations.
    pub open spec fn run(self, ops: Seq<Operation>) -> LedgerView
        decreases ops.len(),
    {
        if ops.len() == 0 {
            self
        } else {
            self.run(ops.drop_last()).step(ops.last())
        }
    }

    /// Whether `later` can be this ledger at a later time. Nothing is ever
    /// taken back: the administrator and the asset stay, the id counter
    /// does not fall, every payment is still there and continues, every
    /// list has only grown at its end, and who registered stays registered.
    pub open spec fn continues_as(self, later: LedgerView) -> bool {
        &&& later.stable_token == self.stable_token
        &&& later.admin == self.admin
        &&& self.next_payment_id <= later.next_payment_id
        &&& self.payments.len() <= later.payments.len()
        &&& forall|i: int|
            0 <= i < self.payments.len() ==> (#[trigger] self.payments[i]).continues_as(
                later.payments[i],
            )
        &&& forall|a: Address| (#[trigger] self.merchant_payments[a]).is_prefix_of(
            later.merchant_payments[a])
        &&& forall|a: Address| (#[trigger] self.payer_payments[a]).is_prefix_of(
            later.payer_payments[a])
        &&& forall|a: Address| (#[trigger] self.merchants[a]).is_registered
            ==> later.merchants[a].is_registered
    }
}

/// Every operation takes a reachable state to a reachable state.
pub proof fn law_step_keeps_wf(s: LedgerView, op: Operation)
    requires
        s.wf(),
    ensures
        s.step(op).wf(),
{
    match op {
        Operation::Register { caller, bank_name, account_name, account_number } => {
            let info = MerchantInfoView::registered(
                commitment(bank_name),
                commitment(account_name),
                commitment(account_number),
            );
            s.lemma_with_merchant_wf(caller, info);
        },
        Operation::Update { caller, bank_name, account_name, account_number } => {
            let info = MerchantInfoView::registered(
                commitment(bank_name),
                commitment(account_name),
                commitment(account_number),
            );
            s.lemma_with_merchant_wf(caller, info);
        },
        Operation::Pay { caller, timestamp, merchant, amount, rfce, custody_ok } => {
            if s.apply(op) is Ok {
                s.lemma_with_new_payment_wf(
                    PaymentView::pending(
                        s.next_payment_id,
                        caller,
                        merchant,
                        amount,
                        timestamp,
                        rfce,
                    ),
                );
            }
        },
        Operation::Accept { caller, id, rate, custody_ok } => {
            if s.apply(op) is Ok {
                s.lemma_with_payment_wf(id, s.accepted(caller, id, rate)->Ok_0);
            }
        },
        Operation::Reject { caller, id, custody_ok } => {
            if s.apply(op) is Ok {
                s.lemma_with_payment_wf(id, s.rejected(caller, id)->Ok_0);
            }
        },
        Operation::MarkPaid { caller, id } => {
            if s.apply(op) is Ok {
                s.lemma_with_payment_wf(id, s.payment(id).mark_paid(caller, s.admin)->Ok_0);
            }
        },
    }
}

/// Every history takes a reachable state to a reachable state.
pub proof fn law_run_keeps_wf(s: LedgerView, ops: Seq<Operation>)
    requires
        s.wf(),
    ensures
        s.run(ops).wf(),
    decreases ops.len(),
{
    if ops.len() > 0 {
        law_run_keeps_wf(s, ops.drop_last());
        law_step_keeps_wf(s.run(ops.drop_last()), ops.last());
    }
}

/// A state continues as itself, and continuation carries over.
pub proof fn law_continues_is_preorder(s: LedgerView, t: LedgerView, u: LedgerView)
    requires
        s.continues_as(t),
        t.continues_as(u),
    ensures
        s.continues_as(s),
        s.continues_as(u),
{
    assert forall|i: int| 0 <= i < s.payments.len() implies (#[trigger] s.payments[i]).continues_as(
        u.payments[i],
    ) by {
        assert(s.payments[i].continues_as(t.payments[i]));
        assert(t.payments[i].continues_as(u.payments[i]));
    }
    assert forall|a: Address| (#[trigger] s.merchant_payments[a]).is_prefix_of(
        u.merchant_payments[a],
    ) by {
        assert(s.merchant_payments[a].is_prefix_of(t.merchant_payments[a]));
        assert(t.merchant_payments[a].is_prefix_of(u.merchant_payments[a]));
    }
    assert forall|a: Address| (#[trigger] s.payer_payments[a]).is_prefix_of(
        u.payer_payments[a],
    ) by {
        assert(s.payer_payments[a].is_prefix_of(t.payer_payments[a]));
        assert(t.payer_payments[a].is_prefix_of(u.payer_payments[a]));
    }
    assert forall|a: Address| (#[trigger] s.merchants[a]).is_registered implies u.merchants[a]
        .is_registered by {
        assert(t.merchants[a].is_registered);
    }
}

/// No operation takes anything back: the state after it continues the state
/// before it. In particular a status moves only from `Pending` to `Accepted`
/// or `Rejected` and from `Accepted` to `Paid`, a locked rate stays as it
/// is, the lists only grow at their end, and no payment is deleted.
pub proof fn law_step_continues(s: LedgerView, op: Operation)
    requires
        s.wf(),
    ensures
        s.continues_as(s.step(op)),
{
    let t = s.step(op);
    assert forall|i: int| 0 <= i < s.payments.len() implies (#[trigger] s.payments[i]).continues_as(
        t.payments[i],
    ) by {
        assert(s.payments[i].wf());
    }
}

/// No history takes anything back.
pub proof fn law_run_continues(s: LedgerView, ops: Seq<Operation>)
    requires
        s.wf(),
    ensures
        s.continues_as(s.run(ops)),
    decreases ops.len(),
{
    if ops.len() == 0 {
        law_continues_is_preorder(s, s, s);
    } else {
        let before = s.run(ops.drop_last());
        law_run_continues(s, ops.drop_last());
        law_run_keeps_wf(s, ops.drop_last());
        law_step_continues(before, ops.last());
        law_continues_is_preorder(s, before, before.step(ops.last()));
    }
}

/// Whether `op` creates a payment: its terms are valid and the custodian
/// pulled the amount.
pub open spec fn creates_payment(op: Operation) -> bool {
    op matches Operation::Pay { merchant, amount, custody_ok, .. } && new_payment_error(
        merchant,
        amount,
    ) is None && custody_ok
}

/// Whether `op` registers bank details for `who`.
pub open spec fn registers(op: Operation, who: Address) -> bool {
    op matches Operation::Register { caller, bank_name, account_name, account_number }
        && caller == who && bank_details_error(bank_name, account_name, account_number) is None
}

/// After initialization the first id is 1, and whatever happens then, the
/// payments carry the ids 1, 2, 3 and so on in the order of their creation,
/// and the counter is one more than their number.
pub proof fn law_ids_are_sequential(admin: Address, stable_token: Address, ops: Seq<Operation>)
    requires
        !stable_token.is_null(),
    ensures
        LedgerView::fresh(admin, stable_token).next_payment_id == 1,
        ({
            let t = LedgerView::fresh(admin, stable_token).run(ops);
            &&& t.next_payment_id == t.payments.len() + 1
            &&& forall|i: int| 0 <= i < t.payments.len() ==> (#[trigger] t.payments[i]).id == i + 1
        }),
{
    LedgerView::lemma_fresh_wf(admin, stable_token);
    law_run_keeps_wf(LedgerView::fresh(admin, stable_token), ops);
}

/// A payment is created with the id that the counter shows, and the counter moves on by one.
pub proof fn law_pay_takes_next_id(
    s: LedgerView,
    caller: Address,
    timestamp: nat,
    merchant: Address,
    amount: nat,
    rfce: Seq<u8>,
    custody_ok: bool,
)
    requires
        s.wf(),
        s.pay(caller, timestamp, merchant, amount, rfce, custody_ok) is Ok,
    ensures
        ({
            let t = s.pay(caller, timestamp, merchant, amount, rfce, custody_ok)->Ok_0;
            &&& t.payments.len() == s.payments.len() + 1
            &&& t.payments.last().id == s.next_payment_id
            &&& t.next_payment_id == s.next_payment_id + 1
            &&& !s.has_payment(s.next_payment_id)
            &&& t.has_payment(s.next_payment_id)
        }),
{
}

/// Creating N payments right after initialization yields the ids 1 to N in
/// that order, each with the terms it was created with.
pub proof fn law_n_payments_get_ids_1_to_n(
    admin: Address,
    stable_token: Address,
    ops: Seq<Operation>,
)
    requires
        !stable_token.is_null(),
        forall|i: int| 0 <= i < ops.len() ==> creates_payment(#[trigger] ops[i]),
    ensures
        ({
            let t = LedgerView::fresh(admin, stable_token).run(ops);
            &&& t.payments.len() == ops.len()
            &&& t.next_payment_id == ops.len() + 1
            &&& forall|i: int|
                0 <= i < ops.len() ==> (#[trigger] t.payments[i]) == PaymentView::pending(
                    (i + 1) as nat,
                    ops[i]->Pay_caller,
                    ops[i]->Pay_merchant,
                    ops[i]->Pay_amount,
                    ops[i]->Pay_timestamp,
                    ops[i]->Pay_rfce,
                )
        }),
    decreases ops.len(),
{
    let s = LedgerView::fresh(admin, stable_token);
    if ops.len() > 0 {
        let earlier = ops.drop_last();
        law_n_payments_get_ids_1_to_n(admin, stable_token, earlier);
        let before = s.run(earlier);
        let t = s.run(ops);
        assert(creates_payment(ops.last()));
        assert(t == before.step(ops.last()));
        assert forall|i: int| 0 <= i < ops.len() implies (#[trigger] t.payments[i])
            == PaymentView::pending(
            (i + 1) as nat,
            ops[i]->Pay_caller,
            ops[i]->Pay_merchant,
            ops[i]->Pay_amount,
            ops[i]->Pay_timestamp,
            ops[i]->Pay_rfce,
        ) by {
            if i < ops.len() - 1 {
                assert(t.payments[i] == before.payments[i]);
                assert(earlier[i] == ops[i]);
            }
        }
    }
}

/// Right after its creation a payment reads as pending, with the commitment
/// that it was created with and no locked rate.
pub proof fn law_new_payment_is_pending(
    s: LedgerView,
    caller: Address,
    timestamp: nat,
    merchant: Address,
    amount: nat,
    rfce: Seq<u8>,
    custody_ok: bool,
)
    requires
        s.wf(),
        s.pay(caller, timestamp, merchant, amount, rfce, custody_ok) is Ok,
    ensures
        ({
            let t = s.pay(caller, timestamp, merchant, amount, rfce, custody_ok)->Ok_0;
            let p = t.payment(s.next_payment_id);
            &&& p == PaymentView::pending(
                s.next_payment_id,
                caller,
                merchant,
                amount,
                timestamp,
                rfce,
            )
            &&& p.summary().status == Status::Pending.spec_code()
            &&& p.summary().rfce == rfce
            &&& p.locked_rate == 0
        }),
{
}

/// Accepting succeeds exactly on a pending payment, for its merchant, at a
/// rate that is not zero, once the custodian has moved the amount. Any other
/// caller gets `NotYourPayment`, the merchant of a processed payment gets
/// `AlreadyProcessed`, and a failure leaves the whole state unchanged.
pub proof fn law_accept_needs_pending_and_merchant(
    s: LedgerView,
    caller: Address,
    id: nat,
    rate: nat,
    custody_ok: bool,
)
    requires
        s.wf(),
    ensures
        s.accept(caller, id, rate, custody_ok) is Ok <==> s.has_payment(id) && s.payment(
            id,
        ).merchant == caller && s.payment(id).status == Status::Pending && rate != 0 && custody_ok,
        !s.has_payment(id) || s.payment(id).merchant != caller ==> s.accept(
            caller,
            id,
            rate,
            custody_ok,
        ) == Err::<LedgerView, SettlXError>(SettlXError::NotYourPayment),
        s.has_payment(id) && s.payment(id).merchant == caller && s.payment(id).status
            != Status::Pending ==> s.accept(caller, id, rate, custody_ok) == Err::<
            LedgerView,
            SettlXError,
        >(SettlXError::AlreadyProcessed),
        s.accept(caller, id, rate, custody_ok) is Err ==> s.step(
            Operation::Accept { caller, id, rate, custody_ok },
        ) == s,
        s.accept(caller, id, rate, custody_ok) is Ok ==> {
            let p = s.accept(caller, id, rate, custody_ok)->Ok_0.payment(id);
            p.status == Status::Accepted && p.locked_rate == rate
        },
{
}

/// Rejecting succeeds exactly on a pending payment, for its merchant, once
/// the custodian has refunded the payer. Any other caller gets
/// `NotYourPayment`, the merchant of a processed payment gets
/// `AlreadyProcessed`, and a failure leaves the whole state unchanged.
pub proof fn law_reject_needs_pending_and_merchant(
    s: LedgerView,
    caller: Address,
    id: nat,
    custody_ok: bool,
)
    requires
        s.wf(),
    ensures
        s.reject(caller, id, custody_ok) is Ok <==> s.has_payment(id) && s.payment(id).merchant
            == caller && s.payment(id).status == Status::Pending && custody_ok,
        !s.has_payment(id) || s.payment(id).merchant != caller ==> s.reject(caller, id, custody_ok)
            == Err::<LedgerView, SettlXError>(SettlXError::NotYourPayment),
        s.has_payment(id) && s.payment(id).merchant == caller && s.payment(id).status
            != Status::Pending ==> s.reject(caller, id, custody_ok) == Err::<
            LedgerView,
            SettlXError,
        >(SettlXError::AlreadyProcessed),
        s.reject(caller, id, custody_ok) is Err ==> s.step(
            Operation::Reject { caller, id, custody_ok },
        ) == s,
        s.reject(caller, id, custody_ok) is Ok ==> s.reject(caller, id, custody_ok)->Ok_0.payment(
            id,
        ).status == Status::Rejected,
{
}

/// Marking as paid succeeds exactly on an accepted payment, for the
/// administrator. Any other caller gets `OnlyAdmin`, the administrator gets
/// `MustBeAcceptedFirst` in any other status, and a failure leaves the
/// whole state unchanged.
pub proof fn law_mark_paid_needs_accepted_and_admin(s: LedgerView, caller: Address, id: nat)
    ensures
        s.mark_paid(caller, id) is Ok <==> caller == s.admin && s.payment(id).status
            == Status::Accepted,
        caller != s.admin ==> s.mark_paid(caller, id) == Err::<LedgerView, SettlXError>(
            SettlXError::OnlyAdmin,
        ),
        caller == s.admin && s.payment(id).status != Status::Accepted ==> s.mark_paid(caller, id)
            == Err::<LedgerView, SettlXError>(SettlXError::MustBeAcceptedFirst),
        s.mark_paid(caller, id) is Err ==> s.step(Operation::MarkPaid { caller, id }) == s,
        s.wf() && s.mark_paid(caller, id) is Ok ==> s.mark_paid(caller, id)->Ok_0.payment(id).status
            == Status::Paid,
{
}

/// A rate that is zero becomes non-zero by a successful accept of that
/// payment and by nothing else, and then it is the rate of that accept.
pub proof fn law_rate_is_locked_by_accept_alone(s: LedgerView, op: Operation, id: nat)
    requires
        s.wf(),
        s.payment(id).locked_rate == 0,
        s.step(op).payment(id).locked_rate != 0,
    ensures
        s.apply(op) is Ok,
        op matches Operation::Accept { id: accepted, rate, .. } && accepted == id && s.step(
            op,
        ).payment(id).locked_rate == rate,
{
}

/// A pending payment has no locked rate, and a rate, once locked, is the
/// same after every history.
pub proof fn law_locked_rate_is_fixed(s: LedgerView, ops: Seq<Operation>, id: nat)
    requires
        s.wf(),
    ensures
        s.payment(id).status == Status::Pending ==> s.payment(id).locked_rate == 0,
        s.payment(id).locked_rate != 0 ==> s.run(ops).payment(id).locked_rate == s.payment(
            id,
        ).locked_rate,
{
    law_run_continues(s, ops);
    if s.has_payment(id) {
        assert(s.payments[id - 1].continues_as(s.run(ops).payments[id - 1]));
    }
}

/// A payment that was processed stays closed: after any history, accepting
/// and rejecting it fail, for its merchant with `AlreadyProcessed`, and no
/// movement of the asset is asked for.
pub proof fn law_no_second_accept_or_reject(
    s: LedgerView,
    ops: Seq<Operation>,
    id: nat,
    caller: Address,
    rate: nat,
    custody_ok: bool,
)
    requires
        s.wf(),
        s.has_payment(id),
        s.payment(id).status != Status::Pending,
    ensures
        ({
            let t = s.run(ops);
            &&& t.accept(caller, id, rate, custody_ok) is Err
            &&& t.reject(caller, id, custody_ok) is Err
            &&& t.custody_for_accept(caller, id, rate) is Err
            &&& t.custody_for_reject(caller, id) is Err
            &&& t.step(Operation::Accept { caller, id, rate, custody_ok }) == t
            &&& t.step(Operation::Reject { caller, id, custody_ok }) == t
            &&& caller == s.payment(id).merchant ==> {
                &&& t.accept(caller, id, rate, custody_ok) == Err::<LedgerView, SettlXError>(
                    SettlXError::AlreadyProcessed,
                )
                &&& t.reject(caller, id, custody_ok) == Err::<LedgerView, SettlXError>(
                    SettlXError::AlreadyProcessed,
                )
            }
        }),
{
    law_run_continues(s, ops);
    assert(s.payments[id - 1].continues_as(s.run(ops).payments[id - 1]));
}

/// A payment that was rejected or marked as paid stays so: after any
/// history, marking it as paid fails, for the administrator with
/// `MustBeAcceptedFirst`.
pub proof fn law_no_second_mark_paid(s: LedgerView, ops: Seq<Operation>, id: nat, caller: Address)
    requires
        s.wf(),
        s.has_payment(id),
        s.payment(id).status.is_final(),
    ensures
        ({
            let t = s.run(ops);
            &&& t.payment(id).status == s.payment(id).status
            &&& t.mark_paid(caller, id) is Err
            &&& t.step(Operation::MarkPaid { caller, id }) == t
            &&& caller == s.admin ==> t.mark_paid(caller, id) == Err::<LedgerView, SettlXError>(
                SettlXError::MustBeAcceptedFirst,
            )
        }),
{
    law_run_continues(s, ops);
    assert(s.payments[id - 1].continues_as(s.run(ops).payments[id - 1]));
}

/// Who never registered has nothing to update: after a history without a
/// registration by `who`, an update by `who` with valid fields fails with
/// `NotRegistered`.
pub proof fn law_update_needs_registration(
    admin: Address,
    stable_token: Address,
    ops: Seq<Operation>,
    who: Address,
    bank_name: Seq<char>,
    account_name: Seq<char>,
    account_number: Seq<char>,
)
    requires
        forall|i: int| 0 <= i < ops.len() ==> !registers(#[trigger] ops[i], who),
        bank_details_error(bank_name, account_name, account_number) is None,
    ensures
        !LedgerView::fresh(admin, stable_token).run(ops).merchants[who].is_registered,
        LedgerView::fresh(admin, stable_token).run(ops).update(
            who,
            bank_name,
            account_name,
            account_number,
        ) == Err::<LedgerView, SettlXError>(SettlXError::NotRegistered),
    decreases ops.len(),
{
    if ops.len() > 0 {
        law_update_needs_registration(
            admin,
            stable_token,
            ops.drop_last(),
            who,
            bank_name,
            account_name,
            account_number,
        );
        assert(!registers(ops.last(), who));
    }
}

/// After a registration or an update the registry holds, for the caller,
/// the commitments to the plaintext of that call, and never the plaintext.
pub proof fn law_details_are_the_latest(
    s: LedgerView,
    caller: Address,
    bank_name: Seq<char>,
    account_name: Seq<char>,
    account_number: Seq<char>,
)
    ensures
        s.register(caller, bank_name, account_name, account_number) is Ok ==> s.register(
            caller,
            bank_name,
            account_name,
            account_number,
        )->Ok_0.merchants[caller] == MerchantInfoView::registered(
            commitment(bank_name),
            commitment(account_name),
            commitment(account_number),
        ),
        s.update(caller, bank_name, account_name, account_number) is Ok ==> s.update(
            caller,
            bank_name,
            account_name,
            account_number,
        )->Ok_0.merchants[caller] == MerchantInfoView::registered(
            commitment(bank_name),
            commitment(account_name),
            commitment(account_number),
        ),
{
}

/// The bank details of `who` change by a registration or an update of `who` and by nothing else.
pub proof fn law_details_change_by_owner_alone(s: LedgerView, op: Operation, who: Address)
    requires
        s.step(op).merchants[who] != s.merchants[who],
    ensures
        s.apply(op) is Ok,
        (op matches Operation::Register { caller, .. } && caller == who) || (
        op matches Operation::Update { caller, .. } && caller == who),
{
}

/// A failed operation changes nothing, and neither a failed nor a
/// successful one changes the administrator or the custodied asset.
pub proof fn law_failure_changes_nothing(s: LedgerView, op: Operation)
    ensures
        s.apply(op) is Err ==> s.step(op) == s,
        s.step(op).admin == s.admin,
        s.step(op).stable_token == s.stable_token,
{
}

} // verus!
