//! The ledger: payments in escrow, the merchant registry, and the indexes
//! that list a party's payments.
//!
//! One [`SettlX`] value is the whole durable state. It comes into being by
//! [`SettlX::init`] and changes only through the operations below. Each of
//! them takes the identity of its caller, checks everything before it writes
//! anything, and on failure leaves the ledger as it was.
//!
//! The ledger does not move the asset. An operation that needs a movement
//! has a companion `stage_*`, which checks the same conditions and names the
//! movement. The caller has the custodian carry it out and passes the
//! outcome to the operation as `custody_ok`; on `false` the operation fails
//! with [`SettlXError::TransferFailed`] and nothing is written.

use vstd::prelude::*;
use crate::address_map::AddressMap;
use crate::digest::{commit, commitment};
use crate::effects::{check_custody, AuditEntry, AuditEntryView, CustodyCall, CustodyCallView};
use crate::error::SettlXError;
use crate::merchant::{check_bank_details, check_update, MerchantInfo, MerchantInfoView};
use crate::model::LedgerView;
use crate::payment::{check_new_payment, summary_view, Payment, PaymentView};
use crate::primitives::{pow2_128, Address, Digest, U256};

verus! {

/// The numbers that a list of ids stands for.
pub open spec fn numbers(ids: Seq<U256>) -> Seq<nat> {
    ids.map_values(|x: U256| x@)
}

/// An index read at every identity: the empty list where nothing is stored.
pub open spec fn index_view(index: Map<Address, Vec<U256>>) -> Map<Address, Seq<nat>> {
    Map::total(
        |a: Address|
            if index.contains_key(a) {
                numbers(index[a]@)
            } else {
                Seq::empty()
            },
    )
}

/// A registry read at every identity: the blank entry where nothing is stored.
pub open spec fn registry_view(registry: Map<Address, MerchantInfo>) -> Map<
    Address,
    MerchantInfoView,
> {
    Map::total(
        |a: Address|
            if registry.contains_key(a) {
                registry[a]@
            } else {
                MerchantInfoView::blank()
            },
    )
}

/// Checks the identity of the asset that a ledger is to hold in custody.
pub fn check_token(token_address: Address) -> (r: Result<(), SettlXError>)
    ensures
        match r {
            Ok(_) => !token_address.is_null(),
            Err(e) => token_address.is_null() && e == SettlXError::InvalidToken,
        },
{
    if token_address.is_zero() {
        Err(SettlXError::InvalidToken)
    } else {
        Ok(())
    }
}

/// Appends `id` to the list of `who`.
fn append_id(index: &mut AddressMap<Vec<U256>>, who: Address, id: U256)
    ensures
        index_view(final(index)@) == index_view(old(index)@).insert(
            who,
            index_view(old(index)@)[who].push(id@),
        ),
{
    let mut ids = match index.remove(who) {
        Some(ids) => ids,
        None => Vec::new(),
    };
    ids.push(id);
    index.insert(who, ids);
    proof {
        let before = index_view(old(index)@);
        assert(numbers(ids@) =~= before[who].push(id@));
        assert(index_view(index@) =~= before.insert(who, before[who].push(id@)));
    }
}

/// A copy of the list of `who`.
fn ids_in(index: &AddressMap<Vec<U256>>, who: Address) -> (out: Vec<U256>)
    ensures
        numbers(out@) == index_view(index@)[who],
{
    let mut out: Vec<U256> = Vec::new();
    match index.get(who) {
        Some(ids) => {
            let mut i: usize = 0;
            while i < ids.len()
                invariant
                    i <= ids.len(),
                    out@ == ids@.subrange(0, i as int),
                decreases ids.len() - i,
            {
                out.push(ids[i]);
                assert(out@ =~= ids@.subrange(0, i + 1));
                i = i + 1;
            }
            assert(out@ =~= ids@);
        },
        None => {},
    }
    out
}

/// The ledger.
pub struct SettlX {
    stable_token: Address,
    next_payment_id: U256,
    admin: Address,
    payments: Vec<Payment>,
    merchant_payments: AddressMap<Vec<U256>>,
    merchants: AddressMap<MerchantInfo>,
    payer_payments: AddressMap<Vec<U256>>,
}

impl View for SettlX {
    type V = LedgerView;

    closed spec fn view(&self) -> LedgerView {
        LedgerView {
            stable_token: self.stable_token,
            next_payment_id: self.next_payment_id@,
            admin: self.admin,
            payments: self.payments@.map_values(|p: Payment| p@),
            merchant_payments: index_view(self.merchant_payments@),
            merchants: registry_view(self.merchants@),
            payer_payments: index_view(self.payer_payments@),
        }
    }
}

impl SettlX {
    /// Whether the ledger is in a state that the operations can reach.
    pub open spec fn wf(&self) -> bool {
        self@.wf()
    }

    /// Creates the ledger for the asset `token_address`, with `caller` as
    /// its administrator and 1 as the id of the first payment.
    pub fn init(caller: Address, token_address: Address) -> (r: Result<SettlX, SettlXError>)
        ensures
            match r {
                Ok(ledger) => !token_address.is_null() && ledger.wf() && ledger@
                    == LedgerView::fresh(caller, token_address),
                Err(e) => token_address.is_null() && e == SettlXError::InvalidToken,
            },
    {
        match check_token(token_address) {
            Err(e) => Err(e),
            Ok(_) => {
                let ledger = SettlX {
                    stable_token: token_address,
                    next_payment_id: U256::from_u64(1),
                    admin: caller,
                    payments: Vec::new(),
                    merchant_payments: AddressMap::new(),
                    merchants: AddressMap::new(),
                    payer_payments: AddressMap::new(),
                };
                proof {
                    assert(ledger@ =~= LedgerView::fresh(caller, token_address));
                    LedgerView::lemma_fresh_wf(caller, token_address);
                }
                Ok(ledger)
            },
        }
    }

    /// The administrator.
    pub fn admin(&self) -> (a: Address)
        ensures
            a == self@.admin,
    {
        self.admin
    }

    /// The custodied asset.
    pub fn stable_token(&self) -> (a: Address)
        ensures
            a == self@.stable_token,
    {
        self.stable_token
    }

    /// The id that the next payment gets.
    pub fn next_payment_id(&self) -> (id: U256)
        ensures
            id@ == self@.next_payment_id,
    {
        self.next_payment_id
    }

    /// Where the payment with id `payment_id` stands, if it was created.
    fn position(&self, payment_id: U256) -> (r: Option<usize>)
        ensures
            match r {
                Some(i) => self@.has_payment(payment_id@) && i == payment_id@ - 1 && i
                    < self.payments.len(),
                None => !self@.has_payment(payment_id@),
            },
    {
        assert(self@.payments.len() == self.payments.len());
        match payment_id.to_usize() {
            Some(n) => if 1 <= n && n <= self.payments.len() {
                Some(n - 1)
            } else {
                None
            },
            None => None,
        }
    }

    /// Stores `info` as the bank details of `who`.
    fn put_merchant(&mut self, who: Address, info: MerchantInfo)
        requires
            old(self).wf(),
            info@.wf(),
        ensures
            final(self).wf(),
            final(self)@ == old(self)@.with_merchant(who, info@),
    {
        self.merchants.insert(who, info);
        proof {
            assert(registry_view(self.merchants@) =~= registry_view(old(self).merchants@).insert(
                who,
                info@,
            ));
            assert(self@ =~= old(self)@.with_merchant(who, info@));
            old(self)@.lemma_with_merchant_wf(who, info@);
        }
    }

    /// Puts `next` in the place of the payment at index `i`.
    fn put_payment(&mut self, i: usize, next: Payment)
        requires
            old(self).wf(),
            i < old(self).payments.len(),
            old(self).payments[i as int]@.same_terms(next@),
            next@.wf(),
        ensures
            final(self).wf(),
            final(self)@ == old(self)@.with_payment((i + 1) as nat, next@),
    {
        self.payments.set(i, next);
        proof {
            let id = (i + 1) as nat;
            assert(self@.payments =~= old(self)@.payments.update(i as int, next@));
            assert(self@ =~= old(self)@.with_payment(id, next@));
            old(self)@.lemma_with_payment_wf(id, next@);
        }
    }

    /// Registers the bank details of `caller`, or replaces those that it
    /// registered before. Only the commitments to the three fields are
    /// stored; the audit entry carries the plaintext.
    pub fn register_merchant_bank_details(
        &mut self,
        caller: Address,
        bank_name: String,
        account_name: String,
        account_number: String,
    ) -> (r: Result<AuditEntry, SettlXError>)
        requires
            old(self).wf(),
        ensures
            final(self).wf(),
            match r {
                Ok(entry) => {
                    &&& old(self)@.register(caller, bank_name@, account_name@, account_number@)
                        == Ok::<LedgerView, SettlXError>(final(self)@)
                    &&& entry@ == (AuditEntryView::MerchantRegistered {
                        merchant: caller,
                        bank_name: bank_name@,
                        account_name: account_name@,
                        account_number: account_number@,
                    })
                },
                Err(e) => {
                    &&& old(self)@.register(caller, bank_name@, account_name@, account_number@)
                        == Err::<LedgerView, SettlXError>(e)
                    &&& final(self)@ == old(self)@
                },
            },
    {
        match check_bank_details(bank_name.as_str(), account_name.as_str(), account_number.as_str())
        {
            Err(e) => Err(e),
            Ok(_) => {
                let info = MerchantInfo::registered(
                    commit(bank_name.as_str()),
                    commit(account_name.as_str()),
                    commit(account_number.as_str()),
                );
                self.put_merchant(caller, info);
                Ok(
                    AuditEntry::MerchantRegistered {
                        merchant: caller,
                        bank_name,
                        account_name,
                        account_number,
                    },
                )
            },
        }
    }

    /// Replaces the bank details of `caller`, which must have registered
    /// before. All three commitments are overwritten together.
    pub fn update_merchant_bank_details(
        &mut self,
        caller: Address,
        bank_name: String,
        account_name: String,
        account_number: String,
    ) -> (r: Result<AuditEntry, SettlXError>)
        requires
            old(self).wf(),
        ensures
            final(self).wf(),
            match r {
                Ok(entry) => {
                    &&& old(self)@.update(caller, bank_name@, account_name@, account_number@)
                        == Ok::<LedgerView, SettlXError>(final(self)@)
                    &&& entry@ == (AuditEntryView::MerchantUpdated {
                        merchant: caller,
                        bank_name: bank_name@,
                        account_name: account_name@,
                        account_number: account_number@,
                    })
                },
                Err(e) => {
                    &&& old(self)@.update(caller, bank_name@, account_name@, account_number@)
                        == Err::<LedgerView, SettlXError>(e)
                    &&& final(self)@ == old(self)@
                },
            },
    {
        let current = match self.merchants.get(caller) {
            Some(info) => *info,
            None => MerchantInfo::blank(),
        };
        match check_update(
            &current,
            bank_name.as_str(),
            account_name.as_str(),
            account_number.as_str(),
        ) {
            Err(e) => Err(e),
            Ok(_) => {
                let info = MerchantInfo::registered(
                    commit(bank_name.as_str()),
                    commit(account_name.as_str()),
                    commit(account_number.as_str()),
                );
                self.put_merchant(caller, info);
                Ok(
                    AuditEntry::MerchantUpdated {
                        merchant: caller,
                        bank_name,
                        account_name,
                        account_number,
                    },
                )
            },
        }
    }

    /// Names the movement that [`SettlX::pay_merchant`] needs: `amount`
    /// units from `caller` into `escrow`. Fails as `pay_merchant` would.
    pub fn stage_payment(&self, caller: Address, escrow: Address, merchant: Address, amount: U256)
        -> (r: Result<CustodyCall, SettlXError>)
        ensures
            match r {
                Ok(call) => LedgerView::custody_for_pay(caller, escrow, merchant, amount@) == Ok::<
                    CustodyCallView,
                    SettlXError,
                >(call@),
                Err(e) => LedgerView::custody_for_pay(caller, escrow, merchant, amount@) == Err::<
                    CustodyCallView,
                    SettlXError,
                >(e),
            },
    {
        match check_new_payment(merchant, amount) {
            Err(e) => Err(e),
            Ok(_) => Ok(CustodyCall::PullInto { source: caller, destination: escrow, amount }),
        }
    }

    /// Creates a pending payment of `amount` from `caller` to `merchant`,
    /// with `rfce` as the commitment to its reference, and returns its id.
    /// The payment is appended to the lists of both parties and the next id
    /// moves on by one.
    pub fn record_payment(
        &mut self,
        caller: Address,
        timestamp: u64,
        merchant: Address,
        amount: U256,
        rfce: Digest,
        custody_ok: bool,
    ) -> (r: Result<U256, SettlXError>)
        requires
            old(self).wf(),
        ensures
            final(self).wf(),
            match r {
                Ok(id) => {
                    &&& old(self)@.pay(
                        caller,
                        timestamp as nat,
                        merchant,
                        amount@,
                        rfce@,
                        custody_ok,
                    ) == Ok::<LedgerView, SettlXError>(final(self)@)
                    &&& id@ == old(self)@.next_payment_id
                },
                Err(e) => {
                    &&& old(self)@.pay(
                        caller,
                        timestamp as nat,
                        merchant,
                        amount@,
                        rfce@,
                        custody_ok,
                    ) == Err::<LedgerView, SettlXError>(e)
                    &&& final(self)@ == old(self)@
                },
            },
    {
        match check_new_payment(merchant, amount) {
            Err(e) => {
                return Err(e);
            },
            Ok(_) => {},
        }
        match check_custody(custody_ok) {
            Err(e) => {
                return Err(e);
            },
            Ok(_) => {},
        }
        let id = self.next_payment_id;
        let following = match id.checked_add(&U256::from_u64(1)) {
            Some(n) => n,
            None => {
                // The counter is one more than the number of payments, which fits in a `usize`.
                proof {
                    assert(id@ == self@.payments.len() + 1);
                    assert(self@.payments.len() == self.payments.len());
                    assert(pow2_128() * pow2_128() > pow2_128());
                }
                unreached()
            },
        };
        let payment = Payment::pending(
            id,
            caller,
            merchant,
            amount,
            U256::from_u64(timestamp),
            rfce,
        );
        self.payments.push(payment);
        append_id(&mut self.merchant_payments, merchant, id);
        append_id(&mut self.payer_payments, caller, id);
        self.next_payment_id = following;
        proof {
            assert(self@.payments =~= old(self)@.payments.push(payment@));
            assert(self@ =~= old(self)@.with_new_payment(payment@));
            old(self)@.lemma_with_new_payment_wf(payment@);
        }
        Ok(id)
    }

    /// Creates a pending payment of `amount` from `caller` to `merchant`.
    /// Only the commitment to `rfce` is stored; the audit entry carries the
    /// plaintext and the id of the payment.
    pub fn pay_merchant(
        &mut self,
        caller: Address,
        timestamp: u64,
        merchant: Address,
        amount: U256,
        rfce: String,
        custody_ok: bool,
    ) -> (r: Result<AuditEntry, SettlXError>)
        requires
            old(self).wf(),
        ensures
            final(self).wf(),
            match r {
                Ok(entry) => {
                    &&& old(self)@.pay(
                        caller,
                        timestamp as nat,
                        merchant,
                        amount@,
                        commitment(rfce@),
                        custody_ok,
                    ) == Ok::<LedgerView, SettlXError>(final(self)@)
                    &&& entry@ == (AuditEntryView::PaymentCreated {
                        id: old(self)@.next_payment_id,
                        payer: caller,
                        merchant,
                        amount: amount@,
                        rfce: rfce@,
                    })
                },
                Err(e) => {
                    &&& old(self)@.pay(
                        caller,
                        timestamp as nat,
                        merchant,
                        amount@,
                        commitment(rfce@),
                        custody_ok,
                    ) == Err::<LedgerView, SettlXError>(e)
                    &&& final(self)@ == old(self)@
                },
            },
    {
        let digest = commit(rfce.as_str());
        match self.record_payment(caller, timestamp, merchant, amount, digest, custody_ok) {
            Err(e) => Err(e),
            Ok(id) => Ok(AuditEntry::PaymentCreated { id, payer: caller, merchant, amount, rfce }),
        }
    }

    /// The payment `payment_id` as it is once `caller` has accepted it at
    /// `rate`, and where it stands.
    fn accepted(&self, caller: Address, payment_id: U256, rate: U256) -> (r: Result<
        (usize, Payment),
        SettlXError,
    >)
        ensures
            match r {
                Ok((i, p)) => {
                    &&& self@.accepted(caller, payment_id@, rate@) == Ok::<
                        PaymentView,
                        SettlXError,
                    >(p@)
                    &&& i == payment_id@ - 1
                    &&& i < self.payments.len()
                    &&& self.payments[i as int]@ == self@.payment(payment_id@)
                },
                Err(e) => self@.accepted(caller, payment_id@, rate@) == Err::<
                    PaymentView,
                    SettlXError,
                >(e),
            },
    {
        match self.position(payment_id) {
            None => match Payment::blank().accept(caller, rate) {
                Err(e) => Err(e),
                Ok(_) => unreached(),
            },
            Some(i) => match self.payments[i].accept(caller, rate) {
                Err(e) => Err(e),
                Ok(p) => Ok((i, p)),
            },
        }
    }

    /// The payment `payment_id` as it is once `caller` has rejected it, and
    /// where it stands.
    fn rejected(&self, caller: Address, payment_id: U256) -> (r: Result<
        (usize, Payment),
        SettlXError,
    >)
        ensures
            match r {
                Ok((i, p)) => {
                    &&& self@.rejected(caller, payment_id@) == Ok::<PaymentView, SettlXError>(p@)
                    &&& i == payment_id@ - 1
                    &&& i < self.payments.len()
                    &&& self.payments[i as int]@ == self@.payment(payment_id@)
                },
                Err(e) => self@.rejected(caller, payment_id@) == Err::<PaymentView, SettlXError>(
                    e,
                ),
            },
    {
        match self.position(payment_id) {
            None => match Payment::blank().reject(caller) {
                Err(e) => Err(e),
                Ok(_) => unreached(),
            },
            Some(i) => match self.payments[i].reject(caller) {
                Err(e) => Err(e),
                Ok(p) => Ok((i, p)),
            },
        }
    }

    /// Names the movement that [`SettlX::accept_payment_with_rate`] needs:
    /// the amount of the payment out of escrow to the administrator. Fails
    /// as `accept_payment_with_rate` would, and then no asset is to move.
    pub fn stage_accept(&self, caller: Address, payment_id: U256, rate: U256) -> (r: Result<
        CustodyCall,
        SettlXError,
    >)
        ensures
            match r {
                Ok(call) => self@.custody_for_accept(caller, payment_id@, rate@) == Ok::<
                    CustodyCallView,
                    SettlXError,
                >(call@),
                Err(e) => self@.custody_for_accept(caller, payment_id@, rate@) == Err::<
                    CustodyCallView,
                    SettlXError,
                >(e),
            },
    {
        match self.accepted(caller, payment_id, rate) {
            Err(e) => Err(e),
            Ok((_, p)) => Ok(CustodyCall::PushFrom { destination: self.admin, amount: p.amount }),
        }
    }

    /// The merchant `caller` accepts the pending payment `payment_id` and
    /// locks `rate`, which cannot change afterwards.
    pub fn accept_payment_with_rate(
        &mut self,
        caller: Address,
        payment_id: U256,
        rate: U256,
        custody_ok: bool,
    ) -> (r: Result<AuditEntry, SettlXError>)
        requires
            old(self).wf(),
        ensures
            final(self).wf(),
            match r {
                Ok(entry) => {
                    &&& old(self)@.accept(caller, payment_id@, rate@, custody_ok) == Ok::<
                        LedgerView,
                        SettlXError,
                    >(final(self)@)
                    &&& entry@ == (AuditEntryView::PaymentAccepted {
                        id: payment_id@,
                        locked_rate: rate@,
                    })
                },
                Err(e) => {
                    &&& old(self)@.accept(caller, payment_id@, rate@, custody_ok) == Err::<
                        LedgerView,
                        SettlXError,
                    >(e)
                    &&& final(self)@ == old(self)@
                },
            },
    {
        match self.accepted(caller, payment_id, rate) {
            Err(e) => Err(e),
            Ok((i, p)) => {
                match check_custody(custody_ok) {
                    Err(e) => {
                        return Err(e);
                    },
                    Ok(_) => {},
                }
                self.put_payment(i, p);
                Ok(AuditEntry::PaymentAccepted { id: payment_id, locked_rate: rate })
            },
        }
    }

    /// Names the movement that [`SettlX::reject_payment`] needs: the amount
    /// of the payment out of escrow back to its payer. Fails as
    /// `reject_payment` would, and then no asset is to move.
    pub fn stage_reject(&self, caller: Address, payment_id: U256) -> (r: Result<
        CustodyCall,
        SettlXError,
    >)
        ensures
            match r {
                Ok(call) => self@.custody_for_reject(caller, payment_id@) == Ok::<
                    CustodyCallView,
                    SettlXError,
                >(call@),
                Err(e) => self@.custody_for_reject(caller, payment_id@) == Err::<
                    CustodyCallView,
                    SettlXError,
                >(e),
            },
    {
        match self.rejected(caller, payment_id) {
            Err(e) => Err(e),
            Ok((_, p)) => Ok(CustodyCall::PushFrom { destination: p.payer, amount: p.amount }),
        }
    }

    /// The merchant `caller` rejects the pending payment `payment_id`.
    pub fn reject_payment(&mut self, caller: Address, payment_id: U256, custody_ok: bool) -> (r:
        Result<AuditEntry, SettlXError>)
        requires
            old(self).wf(),
        ensures
            final(self).wf(),
            match r {
                Ok(entry) => {
                    &&& old(self)@.reject(caller, payment_id@, custody_ok) == Ok::<
                        LedgerView,
                        SettlXError,
                    >(final(self)@)
                    &&& entry@ == (AuditEntryView::PaymentRejected { id: payment_id@ })
                },
                Err(e) => {
                    &&& old(self)@.reject(caller, payment_id@, custody_ok) == Err::<
                        LedgerView,
                        SettlXError,
                    >(e)
                    &&& final(self)@ == old(self)@
                },
            },
    {
        match self.rejected(caller, payment_id) {
            Err(e) => Err(e),
            Ok((i, p)) => {
                match check_custody(custody_ok) {
                    Err(e) => {
                        return Err(e);
                    },
                    Ok(_) => {},
                }
                self.put_payment(i, p);
                Ok(AuditEntry::PaymentRejected { id: payment_id })
            },
        }
    }

    /// The administrator `caller` confirms that the fiat for the accepted
    /// payment `payment_id` was delivered. No asset moves.
    pub fn mark_as_paid(&mut self, caller: Address, payment_id: U256) -> (r: Result<
        AuditEntry,
        SettlXError,
    >)
        requires
            old(self).wf(),
        ensures
            final(self).wf(),
            match r {
                Ok(entry) => {
                    &&& old(self)@.mark_paid(caller, payment_id@) == Ok::<LedgerView, SettlXError>(
                        final(self)@,
                    )
                    &&& entry@ == (AuditEntryView::PaymentMarkedAsPaid { id: payment_id@ })
                },
                Err(e) => {
                    &&& old(self)@.mark_paid(caller, payment_id@) == Err::<LedgerView, SettlXError>(
                        e,
                    )
                    &&& final(self)@ == old(self)@
                },
            },
    {
        match self.position(payment_id) {
            None => match Payment::blank().mark_paid(caller, self.admin) {
                Err(e) => Err(e),
                Ok(_) => unreached(),
            },
            Some(i) => match self.payments[i].mark_paid(caller, self.admin) {
                Err(e) => Err(e),
                Ok(p) => {
                    self.put_payment(i, p);
                    Ok(AuditEntry::PaymentMarkedAsPaid { id: payment_id })
                },
            },
        }
    }

    /// The ids of the payments made to `merchant`, in creation order.
    pub fn get_merchant_payment_ids(&self, merchant: Address) -> (ids: Vec<U256>)
        ensures
            numbers(ids@) == self@.merchant_payments[merchant],
    {
        ids_in(&self.merchant_payments, merchant)
    }

    /// The ids of the payments made by `payer`, in creation order.
    pub fn get_payer_payment_ids(&self, payer: Address) -> (ids: Vec<U256>)
        ensures
            numbers(ids@) == self@.payer_payments[payer],
    {
        ids_in(&self.payer_payments, payer)
    }

    /// The payment `payment_id` without its locked rate: id, payer,
    /// merchant, amount, timestamp, commitment to the reference, and the
    /// number of the status. Every field is zero where no such payment was
    /// created.
    pub fn get_payment(&self, payment_id: U256) -> (s: (
        U256,
        Address,
        Address,
        U256,
        U256,
        Digest,
        u8,
    ))
        ensures
            summary_view(s) == self@.payment(payment_id@).summary(),
    {
        match self.position(payment_id) {
            Some(i) => self.payments[i].summary(),
            None => Payment::blank().summary(),
        }
    }

    /// The commitments to the bank name, the account name and the account
    /// number of `merchant`; three blank digests where it never registered.
    pub fn get_merchant_bank_details(&self, merchant: Address) -> (d: (Digest, Digest, Digest))
        ensures
            d.0@ == self@.merchants[merchant].bank_name,
            d.1@ == self@.merchants[merchant].account_name,
            d.2@ == self@.merchants[merchant].account_number,
    {
        match self.merchants.get(merchant) {
            Some(info) => info.digests(),
            None => MerchantInfo::blank().digests(),
        }
    }
}

} // verus!
