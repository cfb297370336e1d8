use settlx::digest::commit;
use settlx::effects::{check_custody, AuditEntry, CustodyCall};
use settlx::error::SettlXError;
use settlx::ledger::SettlX;
use settlx::payment::{check_new_payment, Payment, Status};
use settlx::primitives::{Address, Digest, U256};

fn admin() -> Address {
    Address::new(0xA, 0xAD)
}

fn token() -> Address {
    Address::new(0x7, 0x70CE)
}

fn escrow() -> Address {
    Address::new(0xE, 0xE5C)
}

fn payer() -> Address {
    Address::new(1, 0x9A1E6)
}

fn merchant() -> Address {
    Address::new(2, 0x3EAC)
}

fn ledger() -> SettlX {
    SettlX::init(admin(), token()).unwrap()
}

/// 1500 times ten to the power 18.
fn rate_1500() -> U256 {
    U256::from_u128(1_500_000_000_000_000_000_000)
}

fn pay(ledger: &mut SettlX, from: Address, to: Address, amount: u64, rfce: &str) -> U256 {
    match ledger.pay_merchant(from, 1_700_000_000, to, U256::from_u64(amount), rfce.to_string(), true) {
        Ok(AuditEntry::PaymentCreated { id, .. }) => id,
        other => panic!("no payment was created: {:?}", other),
    }
}

#[test]
fn init_rejects_null_token() {
    assert_eq!(SettlX::init(admin(), Address::zero()).err(), Some(SettlXError::InvalidToken));
}

#[test]
fn init_sets_admin_token_and_first_id() {
    let l = ledger();
    assert_eq!(l.admin(), admin());
    assert_eq!(l.stable_token(), token());
    assert_eq!(l.next_payment_id(), U256::from_u64(1));
    assert!(l.get_merchant_payment_ids(merchant()).is_empty());
    assert!(l.get_payer_payment_ids(payer()).is_empty());
}

#[test]
fn full_lifecycle_scenario() {
    let mut l = ledger();
    let amount = U256::from_u64(5_000_000);

    assert_eq!(
        l.stage_payment(payer(), escrow(), merchant(), amount),
        Ok(CustodyCall::PullInto { source: payer(), destination: escrow(), amount })
    );
    let created = l.pay_merchant(payer(), 1_700_000_000, merchant(), amount, "INV-001".to_string(), true);
    assert_eq!(
        created,
        Ok(AuditEntry::PaymentCreated {
            id: U256::from_u64(1),
            payer: payer(),
            merchant: merchant(),
            amount,
            rfce: "INV-001".to_string(),
        })
    );
    let one = U256::from_u64(1);
    assert_eq!(
        l.get_payment(one),
        (one, payer(), merchant(), amount, U256::from_u64(1_700_000_000), commit("INV-001"), 0)
    );

    assert_eq!(
        l.stage_accept(merchant(), one, rate_1500()),
        Ok(CustodyCall::PushFrom { destination: admin(), amount })
    );
    assert_eq!(
        l.accept_payment_with_rate(merchant(), one, rate_1500(), true),
        Ok(AuditEntry::PaymentAccepted { id: one, locked_rate: rate_1500() })
    );
    assert_eq!(l.get_payment(one).6, Status::Accepted.code());

    assert_eq!(l.mark_as_paid(admin(), one), Ok(AuditEntry::PaymentMarkedAsPaid { id: one }));
    assert_eq!(l.get_payment(one).6, Status::Paid.code());
    assert_eq!(l.get_payment(one).6, 3);

    assert_eq!(
        l.accept_payment_with_rate(merchant(), one, rate_1500(), true),
        Err(SettlXError::AlreadyProcessed)
    );
    assert_eq!(l.reject_payment(merchant(), one, true), Err(SettlXError::AlreadyProcessed));
    assert_eq!(l.mark_as_paid(admin(), one), Err(SettlXError::MustBeAcceptedFirst));
    assert_eq!(l.stage_accept(merchant(), one, rate_1500()), Err(SettlXError::AlreadyProcessed));
    assert_eq!(l.stage_reject(merchant(), one), Err(SettlXError::AlreadyProcessed));
    assert_eq!(l.get_payment(one).6, 3);
}

#[test]
fn null_merchant_consumes_no_id() {
    let mut l = ledger();
    let r = l.pay_merchant(
        payer(),
        1_700_000_000,
        Address::zero(),
        U256::from_u64(5_000_000),
        "X".to_string(),
        true,
    );
    assert_eq!(r, Err(SettlXError::InvalidMerchant));
    assert_eq!(l.next_payment_id(), U256::from_u64(1));
    assert!(l.get_payer_payment_ids(payer()).is_empty());
    assert_eq!(l.get_payment(U256::from_u64(1)), Payment::blank().summary());
}

#[test]
fn zero_amount_is_invalid() {
    let mut l = ledger();
    let r = l.pay_merchant(payer(), 5, merchant(), U256::zero(), "X".to_string(), true);
    assert_eq!(r, Err(SettlXError::InvalidAmount));
    assert_eq!(l.stage_payment(payer(), escrow(), merchant(), U256::zero()), Err(SettlXError::InvalidAmount));
    assert_eq!(l.next_payment_id(), U256::from_u64(1));
}

#[test]
fn null_merchant_is_checked_before_zero_amount() {
    assert_eq!(check_new_payment(Address::zero(), U256::zero()), Err(SettlXError::InvalidMerchant));
    assert_eq!(check_new_payment(merchant(), U256::zero()), Err(SettlXError::InvalidAmount));
    assert_eq!(check_new_payment(merchant(), U256::from_u64(1)), Ok(()));
    assert_eq!(check_new_payment(merchant(), U256::new(1, 0)), Ok(()));
}

#[test]
fn failed_pull_creates_nothing() {
    let mut l = ledger();
    let r = l.pay_merchant(payer(), 5, merchant(), U256::from_u64(10), "INV".to_string(), false);
    assert_eq!(r, Err(SettlXError::TransferFailed));
    assert_eq!(l.next_payment_id(), U256::from_u64(1));
    assert!(l.get_merchant_payment_ids(merchant()).is_empty());
    assert!(l.get_payer_payment_ids(payer()).is_empty());
    assert_eq!(l.get_payment(U256::from_u64(1)), Payment::blank().summary());
}

#[test]
fn ids_count_up_from_one() {
    let mut l = ledger();
    for n in 1..=20u64 {
        assert_eq!(l.next_payment_id(), U256::from_u64(n));
        let id = pay(&mut l, payer(), merchant(), 100 + n, "ref");
        assert_eq!(id, U256::from_u64(n));
        assert_eq!(l.get_payment(id).0, id);
        assert_eq!(l.get_payment(id).3, U256::from_u64(100 + n));
    }
    assert_eq!(l.next_payment_id(), U256::from_u64(21));
    let expected: Vec<U256> = (1..=20u64).map(U256::from_u64).collect();
    assert_eq!(l.get_merchant_payment_ids(merchant()), expected);
    assert_eq!(l.get_payer_payment_ids(payer()), expected);
}

#[test]
fn new_payment_is_pending_with_commitment() {
    let mut l = ledger();
    let id = pay(&mut l, payer(), merchant(), 42, "INV-2024-001");
    let p = l.get_payment(id);
    assert_eq!(p.6, 0);
    assert_eq!(p.5, commit("INV-2024-001"));
    assert_eq!(p.5, Digest::new(alloy_primitives::keccak256("INV-2024-001".as_bytes()).0));
    assert_eq!(p.4, U256::from_u64(1_700_000_000));
}

#[test]
fn record_payment_stores_given_commitment() {
    let mut l = ledger();
    let d = Digest::new([7u8; 32]);
    let id = l.record_payment(payer(), 9, merchant(), U256::from_u64(3), d, true).unwrap();
    assert_eq!(id, U256::from_u64(1));
    assert_eq!(
        l.get_payment(id),
        (id, payer(), merchant(), U256::from_u64(3), U256::from_u64(9), d, 0)
    );
    assert_eq!(
        l.record_payment(payer(), 9, merchant(), U256::from_u64(3), d, false),
        Err(SettlXError::TransferFailed)
    );
    assert_eq!(l.next_payment_id(), U256::from_u64(2));
}

#[test]
fn indexes_list_each_party_in_creation_order() {
    let mut l = ledger();
    let other_merchant = Address::new(2, 0x3EAD);
    let other_payer = Address::new(1, 0x9A1E7);
    pay(&mut l, payer(), merchant(), 1, "a");
    pay(&mut l, other_payer, merchant(), 2, "b");
    pay(&mut l, payer(), other_merchant, 3, "c");
    pay(&mut l, other_payer, other_merchant, 4, "d");
    pay(&mut l, payer(), merchant(), 5, "e");
    let ids = |v: &[u64]| v.iter().map(|n| U256::from_u64(*n)).collect::<Vec<U256>>();
    assert_eq!(l.get_merchant_payment_ids(merchant()), ids(&[1, 2, 5]));
    assert_eq!(l.get_merchant_payment_ids(other_merchant), ids(&[3, 4]));
    assert_eq!(l.get_payer_payment_ids(payer()), ids(&[1, 3, 5]));
    assert_eq!(l.get_payer_payment_ids(other_payer), ids(&[2, 4]));
    assert!(l.get_payer_payment_ids(merchant()).is_empty());
}

#[test]
fn identities_that_share_their_low_bits_are_kept_apart() {
    let mut l = ledger();
    let a = Address::new(1, 77);
    let b = Address::new(2, 77);
    pay(&mut l, payer(), a, 1, "a");
    pay(&mut l, payer(), b, 2, "b");
    assert_eq!(l.get_merchant_payment_ids(a), vec![U256::from_u64(1)]);
    assert_eq!(l.get_merchant_payment_ids(b), vec![U256::from_u64(2)]);
    assert!(l.get_merchant_payment_ids(Address::new(3, 77)).is_empty());
}

#[test]
fn accept_by_other_caller_is_refused() {
    let mut l = ledger();
    let id = pay(&mut l, payer(), merchant(), 10, "r");
    assert_eq!(l.accept_payment_with_rate(payer(), id, rate_1500(), true), Err(SettlXError::NotYourPayment));
    assert_eq!(l.accept_payment_with_rate(admin(), id, rate_1500(), true), Err(SettlXError::NotYourPayment));
    assert_eq!(l.stage_accept(payer(), id, rate_1500()), Err(SettlXError::NotYourPayment));
    assert_eq!(l.get_payment(id).6, 0);
}

#[test]
fn accept_with_zero_rate_is_refused() {
    let mut l = ledger();
    let id = pay(&mut l, payer(), merchant(), 10, "r");
    assert_eq!(l.accept_payment_with_rate(merchant(), id, U256::zero(), true), Err(SettlXError::InvalidRate));
    assert_eq!(l.get_payment(id).6, 0);
    assert_eq!(
        l.accept_payment_with_rate(merchant(), id, U256::from_u64(1), true),
        Ok(AuditEntry::PaymentAccepted { id, locked_rate: U256::from_u64(1) })
    );
}

#[test]
fn wrong_caller_is_reported_before_wrong_status_and_rate() {
    let mut l = ledger();
    let id = pay(&mut l, payer(), merchant(), 10, "r");
    l.reject_payment(merchant(), id, true).unwrap();
    assert_eq!(l.accept_payment_with_rate(payer(), id, U256::zero(), true), Err(SettlXError::NotYourPayment));
    assert_eq!(l.accept_payment_with_rate(merchant(), id, U256::zero(), true), Err(SettlXError::AlreadyProcessed));
}

#[test]
fn failed_push_leaves_payment_pending() {
    let mut l = ledger();
    let id = pay(&mut l, payer(), merchant(), 10, "r");
    assert_eq!(l.accept_payment_with_rate(merchant(), id, rate_1500(), false), Err(SettlXError::TransferFailed));
    assert_eq!(l.get_payment(id).6, 0);
    assert_eq!(l.reject_payment(merchant(), id, false), Err(SettlXError::TransferFailed));
    assert_eq!(l.get_payment(id).6, 0);
    assert_eq!(l.reject_payment(merchant(), id, true), Ok(AuditEntry::PaymentRejected { id }));
    assert_eq!(l.get_payment(id).6, 2);
}

#[test]
fn reject_refunds_the_payer() {
    let mut l = ledger();
    let id = pay(&mut l, payer(), merchant(), 77, "r");
    assert_eq!(
        l.stage_reject(merchant(), id),
        Ok(CustodyCall::PushFrom { destination: payer(), amount: U256::from_u64(77) })
    );
    assert_eq!(l.stage_reject(payer(), id), Err(SettlXError::NotYourPayment));
    assert_eq!(l.reject_payment(payer(), id, true), Err(SettlXError::NotYourPayment));
    assert_eq!(l.reject_payment(merchant(), id, true), Ok(AuditEntry::PaymentRejected { id }));
    assert_eq!(l.get_payment(id).6, Status::Rejected.code());
}

#[test]
fn rejected_payment_is_final() {
    let mut l = ledger();
    let id = pay(&mut l, payer(), merchant(), 77, "r");
    l.reject_payment(merchant(), id, true).unwrap();
    assert_eq!(l.reject_payment(merchant(), id, true), Err(SettlXError::AlreadyProcessed));
    assert_eq!(l.accept_payment_with_rate(merchant(), id, rate_1500(), true), Err(SettlXError::AlreadyProcessed));
    assert_eq!(l.mark_as_paid(admin(), id), Err(SettlXError::MustBeAcceptedFirst));
    assert_eq!(l.stage_reject(merchant(), id), Err(SettlXError::AlreadyProcessed));
    assert_eq!(l.get_payment(id).6, 2);
}

#[test]
fn mark_as_paid_is_for_the_admin_only() {
    let mut l = ledger();
    let id = pay(&mut l, payer(), merchant(), 10, "r");
    l.accept_payment_with_rate(merchant(), id, rate_1500(), true).unwrap();
    assert_eq!(l.mark_as_paid(merchant(), id), Err(SettlXError::OnlyAdmin));
    assert_eq!(l.mark_as_paid(payer(), id), Err(SettlXError::OnlyAdmin));
    assert_eq!(l.get_payment(id).6, 1);
    assert_eq!(l.mark_as_paid(admin(), id), Ok(AuditEntry::PaymentMarkedAsPaid { id }));
}

#[test]
fn mark_as_paid_needs_an_accepted_payment() {
    let mut l = ledger();
    let id = pay(&mut l, payer(), merchant(), 10, "r");
    assert_eq!(l.mark_as_paid(admin(), id), Err(SettlXError::MustBeAcceptedFirst));
    assert_eq!(l.mark_as_paid(payer(), id), Err(SettlXError::OnlyAdmin));
    assert_eq!(l.get_payment(id).6, 0);
}

#[test]
fn unknown_id_reads_blank_and_belongs_to_nobody() {
    let mut l = ledger();
    pay(&mut l, payer(), merchant(), 10, "r");
    for id in [U256::zero(), U256::from_u64(2), U256::new(1, 1), U256::new(u128::MAX, u128::MAX)] {
        assert_eq!(
            l.get_payment(id),
            (U256::zero(), Address::zero(), Address::zero(), U256::zero(), U256::zero(), Digest::zero(), 0)
        );
        assert_eq!(l.accept_payment_with_rate(merchant(), id, rate_1500(), true), Err(SettlXError::NotYourPayment));
        assert_eq!(l.accept_payment_with_rate(Address::zero(), id, rate_1500(), true), Err(SettlXError::NotYourPayment));
        assert_eq!(l.reject_payment(Address::zero(), id, true), Err(SettlXError::NotYourPayment));
        assert_eq!(l.stage_accept(merchant(), id, rate_1500()), Err(SettlXError::NotYourPayment));
        assert_eq!(l.stage_reject(merchant(), id), Err(SettlXError::NotYourPayment));
        assert_eq!(l.mark_as_paid(admin(), id), Err(SettlXError::MustBeAcceptedFirst));
        assert_eq!(l.mark_as_paid(merchant(), id), Err(SettlXError::OnlyAdmin));
    }
    assert_eq!(l.next_payment_id(), U256::from_u64(2));
}

#[test]
fn locked_rate_survives_later_operations() {
    let id = U256::from_u64(1);
    let p = Payment::pending(id, payer(), merchant(), U256::from_u64(5), U256::from_u64(9), commit("r"));
    assert_eq!(p.locked_rate, U256::zero());
    assert_eq!(p.status, Status::Pending);
    let accepted = p.accept(merchant(), rate_1500()).unwrap();
    assert_eq!(accepted.locked_rate, rate_1500());
    assert_eq!(accepted.status, Status::Accepted);
    assert_eq!(accepted.accept(merchant(), U256::from_u64(1)), Err(SettlXError::AlreadyProcessed));
    let paid = accepted.mark_paid(admin(), admin()).unwrap();
    assert_eq!(paid.locked_rate, rate_1500());
    assert_eq!(paid.status, Status::Paid);
    assert_eq!(paid.mark_paid(admin(), admin()), Err(SettlXError::MustBeAcceptedFirst));
    let rejected = p.reject(merchant()).unwrap();
    assert_eq!(rejected.locked_rate, U256::zero());
    assert_eq!(rejected.status, Status::Rejected);
    assert_eq!((rejected.id, rejected.payer, rejected.merchant, rejected.amount), (p.id, p.payer, p.merchant, p.amount));
}

#[test]
fn transitions_keep_the_terms_of_a_payment() {
    let mut l = ledger();
    let id = pay(&mut l, payer(), merchant(), 10, "r");
    let before = l.get_payment(id);
    l.accept_payment_with_rate(merchant(), id, rate_1500(), true).unwrap();
    let accepted = l.get_payment(id);
    l.mark_as_paid(admin(), id).unwrap();
    let paid = l.get_payment(id);
    for after in [accepted, paid] {
        assert_eq!(
            (after.0, after.1, after.2, after.3, after.4, after.5),
            (before.0, before.1, before.2, before.3, before.4, before.5)
        );
    }
    assert_eq!((before.6, accepted.6, paid.6), (0, 1, 3));
}

#[test]
fn status_codes() {
    assert_eq!(Status::Pending.code(), 0);
    assert_eq!(Status::Accepted.code(), 1);
    assert_eq!(Status::Rejected.code(), 2);
    assert_eq!(Status::Paid.code(), 3);
    assert_eq!(Status::from_code(0), Some(Status::Pending));
    assert_eq!(Status::from_code(1), Some(Status::Accepted));
    assert_eq!(Status::from_code(2), Some(Status::Rejected));
    assert_eq!(Status::from_code(3), Some(Status::Paid));
    assert_eq!(Status::from_code(4), None);
    assert_eq!(Status::from_code(255), None);
}

#[test]
fn custody_answer_decides_the_outcome() {
    assert_eq!(check_custody(true), Ok(()));
    assert_eq!(check_custody(false), Err(SettlXError::TransferFailed));
}

#[test]
fn validation_is_reported_before_a_failed_movement() {
    let mut l = ledger();
    assert_eq!(
        l.pay_merchant(payer(), 5, Address::zero(), U256::from_u64(10), "r".to_string(), false),
        Err(SettlXError::InvalidMerchant)
    );
    assert_eq!(
        l.pay_merchant(payer(), 5, merchant(), U256::zero(), "r".to_string(), false),
        Err(SettlXError::InvalidAmount)
    );
    let id = pay(&mut l, payer(), merchant(), 10, "r");
    assert_eq!(l.accept_payment_with_rate(payer(), id, rate_1500(), false), Err(SettlXError::NotYourPayment));
    assert_eq!(l.accept_payment_with_rate(merchant(), id, U256::zero(), false), Err(SettlXError::InvalidRate));
    assert_eq!(l.reject_payment(payer(), id, false), Err(SettlXError::NotYourPayment));
    l.accept_payment_with_rate(merchant(), id, rate_1500(), true).unwrap();
    assert_eq!(l.reject_payment(merchant(), id, false), Err(SettlXError::AlreadyProcessed));
}

#[test]
fn a_record_without_merchant_is_nobodys() {
    let blank = Payment::blank();
    assert_eq!(blank.accept(Address::zero(), rate_1500()), Err(SettlXError::NotYourPayment));
    assert_eq!(blank.reject(Address::zero()), Err(SettlXError::NotYourPayment));
    assert_eq!(blank.accept(merchant(), rate_1500()), Err(SettlXError::NotYourPayment));
    assert_eq!(blank.mark_paid(admin(), admin()), Err(SettlXError::MustBeAcceptedFirst));
    assert_eq!(blank.mark_paid(payer(), admin()), Err(SettlXError::OnlyAdmin));
}

#[test]
fn a_long_history_keeps_every_payment_and_every_list() {
    let mut l = ledger();
    let shops = [merchant(), Address::new(2, 0x3EAD), Address::new(5, 0x3EAC)];
    let mut expected: Vec<Vec<U256>> = vec![Vec::new(), Vec::new(), Vec::new()];
    for n in 1..=60u64 {
        let k = (n % 3) as usize;
        let id = pay(&mut l, payer(), shops[k], n, "r");
        expected[k].push(id);
        match n % 4 {
            0 => {
                l.accept_payment_with_rate(shops[k], id, U256::from_u64(n), true).unwrap();
            }
            1 => {
                l.reject_payment(shops[k], id, true).unwrap();
            }
            2 => {
                l.accept_payment_with_rate(shops[k], id, U256::from_u64(n), true).unwrap();
                l.mark_as_paid(admin(), id).unwrap();
            }
            _ => {}
        }
        for (shop, ids) in shops.iter().zip(expected.iter()) {
            assert_eq!(&l.get_merchant_payment_ids(*shop), ids);
        }
    }
    for n in 1..=60u64 {
        let p = l.get_payment(U256::from_u64(n));
        assert_eq!(p.0, U256::from_u64(n));
        assert_eq!(p.2, shops[(n % 3) as usize]);
        assert_eq!(p.3, U256::from_u64(n));
        let status = match n % 4 {
            0 => 1,
            1 => 2,
            2 => 3,
            _ => 0,
        };
        assert_eq!(p.6, status);
    }
    assert_eq!(l.get_payer_payment_ids(payer()).len(), 60);
    assert_eq!(l.next_payment_id(), U256::from_u64(61));
    assert_eq!(l.admin(), admin());
    assert_eq!(l.stable_token(), token());
}
