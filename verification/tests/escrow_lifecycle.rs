//! Lifecycle tests: escrow purchase, shipment, settlement, dispute, and
//! refund, driven through the public entry points and callbacks.

use pipar_factory::factory::PiparContractFactory;
use pipar_factory::types::BuyCallbackResult;
use pipar_factory::types::BuyOutcome;
use pipar_factory::types::CompletePurchaseResult;
use pipar_factory::types::FactoryError;
use pipar_factory::types::MarketplaceData;
use pipar_factory::types::ShipmentOutcome;
use pipar_factory::types::TransactionStatus;
use pipar_factory::ONE_YOCTO;

const DAY_NANOS: u128 = 86_400_000_000_000;

fn terms(affiliate: Option<(&str, u32)>) -> MarketplaceData {
    MarketplaceData {
        price: 900,
        affiliate: affiliate.is_some(),
        affiliate_id: affiliate.map(|(a, _)| a.to_string()),
        affiliate_percentage: affiliate.map(|(_, p)| p),
        token_id: "tok-1".to_string(),
        token_owner: "owner.near".to_string(),
        store_owner: "owner.near".to_string(),
    }
}

/// Runs `buy` and its callback with a confirmed sale, returning the new
/// transaction's identifier.
fn approve_purchase(
    f: &mut PiparContractFactory,
    product: u64,
    store: &str,
    buyer: &str,
    deposit: u128,
    timeout: u128,
    now: u64,
    is_reward: bool,
    affiliate: Option<(&str, u32)>,
) -> u128 {
    let action = f
        .buy(
            product,
            store.to_string(),
            "red".to_string(),
            timeout,
            false,
            is_reward,
            "billing-hash".to_string(),
            "nonce-1".to_string(),
            affiliate.map(|(a, _)| a.to_string()),
            buyer.to_string(),
            deposit,
        )
        .expect("buy should be accepted");
    assert_eq!(action.deposit, ONE_YOCTO);
    let result = f
        .buy_callback(
            action.intent.buyer_account_id,
            action.intent.attached_deposit,
            action.intent.product_id,
            action.intent.store_contract_id,
            action.intent.timeout,
            action.intent.is_discount,
            action.intent.is_reward,
            action.intent.is_keypom,
            action.intent.hashed_billing_address,
            action.intent.nonce,
            now,
            1,
            BuyOutcome::Confirmed(terms(affiliate)),
        )
        .expect("callback with one result slot");
    assert!(matches!(result, BuyCallbackResult::Committed(_)));
    now as u128
}

#[test]
fn buy_creates_approved_entry() {
    let mut f = PiparContractFactory::new();
    let tid = approve_purchase(&mut f, 7, "shop.f.near", "alice.near", 1000, 7, 5_000, false, None);
    assert_eq!(f.transactions.len(), 1);
    let t = &f.transactions[0];
    assert_eq!(t.transaction_id, tid);
    assert_eq!(t.product_id, 7);
    assert_eq!(t.store_contract_id, "shop.f.near");
    assert_eq!(t.buyer_id, "alice.near");
    assert_eq!(t.buyer_value_locked, 1000);
    assert_eq!(t.price, 900);
    assert_eq!(t.token_id, "tok-1");
    assert_eq!(t.timeout, 7);
    assert_eq!(t.status, TransactionStatus::Approved);
    assert_eq!(t.ipfs, "");
    assert_eq!(t.time_created, 5_000);
}

#[test]
fn buy_action_carries_call_and_intent() {
    let mut f = PiparContractFactory::new();
    let action = f
        .buy(
            9,
            "shop.f.near".to_string(),
            "blue".to_string(),
            3,
            true,
            false,
            "bh".to_string(),
            "n2".to_string(),
            Some("aff.near".to_string()),
            "bob.near".to_string(),
            500,
        )
        .unwrap();
    assert_eq!(action.store_contract_id, "shop.f.near");
    assert_eq!(action.args.id, 9);
    assert_eq!(action.args.receiver_id, "bob.near");
    assert_eq!(action.args.attached_deposit, 500);
    assert_eq!(action.args.color, "blue");
    assert_eq!(action.args.affiliate.as_deref(), Some("aff.near"));
    assert_eq!(action.intent.buyer_account_id, "bob.near");
    assert_eq!(action.intent.product_id, 9);
    assert_eq!(action.intent.timeout, 3);
    assert!(action.intent.is_discount);
    assert!(!action.intent.is_keypom);
    assert_eq!(f.transactions.len(), 0);
}

#[test]
fn keypom_buy_marks_delegated_claim() {
    let mut f = PiparContractFactory::new();
    let action = f
        .keypom_buy(
            9,
            "shop.f.near".to_string(),
            "blue".to_string(),
            3,
            false,
            false,
            "bh".to_string(),
            "n2".to_string(),
            None,
            "claim.near".to_string(),
            500,
        )
        .unwrap();
    assert!(action.intent.is_keypom);
    assert_eq!(action.intent.buyer_account_id, "claim.near");
    assert_eq!(action.args.receiver_id, "claim.near");
}

#[test]
fn second_buy_on_open_transaction_is_rejected() {
    let mut f = PiparContractFactory::new();
    approve_purchase(&mut f, 7, "shop.f.near", "alice.near", 1000, 7, 5_000, false, None);
    let again = f.buy(
        7,
        "shop.f.near".to_string(),
        "red".to_string(),
        7,
        false,
        false,
        "bh".to_string(),
        "n3".to_string(),
        None,
        "alice.near".to_string(),
        1000,
    );
    assert_eq!(again.unwrap_err(), FactoryError::DoubleEscrow);
    assert_eq!(f.transactions.len(), 1);
}

#[test]
fn buy_of_other_product_or_buyer_is_accepted() {
    let mut f = PiparContractFactory::new();
    approve_purchase(&mut f, 7, "shop.f.near", "alice.near", 1000, 7, 5_000, false, None);
    // a different product by the same buyer passes
    assert!(f
        .buy(
            8,
            "shop.f.near".to_string(),
            "red".to_string(),
            7,
            false,
            false,
            "bh".to_string(),
            "n4".to_string(),
            None,
            "alice.near".to_string(),
            1000,
        )
        .is_ok());
    // the same product by another buyer passes
    assert!(f
        .buy(
            7,
            "shop.f.near".to_string(),
            "red".to_string(),
            7,
            false,
            false,
            "bh".to_string(),
            "n5".to_string(),
            None,
            "carol.near".to_string(),
            1000,
        )
        .is_ok());
}

#[test]
fn closed_transaction_no_longer_blocks_a_buy() {
    let mut f = PiparContractFactory::new();
    let tid = approve_purchase(&mut f, 7, "shop.f.near", "alice.near", 1000, 7, 5_000, false, None);
    // ship and dispute: the record is closed
    let ship = f
        .mark_shipped(tid, "alice.near".to_string(), "shop.f.near".to_string(), "proof".to_string())
        .unwrap();
    f.mark_shipped_callback(ship.index, ship.ipfs, 1, ShipmentOutcome::Confirmed(true))
        .unwrap();
    f.dispute_purchase(tid, "shop.f.near".to_string(), "alice.near".to_string())
        .unwrap();
    let again = f.buy(
        7,
        "shop.f.near".to_string(),
        "red".to_string(),
        7,
        false,
        false,
        "bh".to_string(),
        "n6".to_string(),
        None,
        "alice.near".to_string(),
        1000,
    );
    assert!(again.is_ok());
}

#[test]
fn buy_callback_failure_refunds_and_writes_nothing() {
    let mut f = PiparContractFactory::new();
    let result = f
        .buy_callback(
            "dave.near".to_string(),
            1000,
            2,
            "shop.f.near".to_string(),
            7,
            false,
            false,
            false,
            "bh".to_string(),
            "n7".to_string(),
            5_000,
            1,
            BuyOutcome::Failed,
        )
        .unwrap();
    match result {
        BuyCallbackResult::Refunded(tr) => {
            assert_eq!(tr.receiver_id, "dave.near");
            assert_eq!(tr.amount, 1000);
        }
        _ => panic!("remote failure must refund the buyer"),
    }
    assert_eq!(f.transactions.len(), 0);
}

#[test]
fn buy_callback_unparseable_response_writes_nothing() {
    let mut f = PiparContractFactory::new();
    let result = f
        .buy_callback(
            "dave.near".to_string(),
            1000,
            2,
            "shop.f.near".to_string(),
            7,
            false,
            false,
            false,
            "bh".to_string(),
            "n8".to_string(),
            5_000,
            1,
            BuyOutcome::Invalid,
        )
        .unwrap();
    assert!(matches!(result, BuyCallbackResult::Rejected));
    assert_eq!(f.transactions.len(), 0);
}

#[test]
fn buy_callback_out_of_schema_percentage_writes_nothing() {
    let mut f = PiparContractFactory::new();
    let result = f
        .buy_callback(
            "dave.near".to_string(),
            1000,
            2,
            "shop.f.near".to_string(),
            7,
            false,
            false,
            false,
            "bh".to_string(),
            "n9".to_string(),
            5_000,
            1,
            BuyOutcome::Confirmed(terms(Some(("aff.near", 150)))),
        )
        .unwrap();
    assert!(matches!(result, BuyCallbackResult::Rejected));
    assert_eq!(f.transactions.len(), 0);
}

#[test]
fn buy_callback_rejects_extra_result_slots() {
    let mut f = PiparContractFactory::new();
    let err = f
        .buy_callback(
            "dave.near".to_string(),
            1000,
            2,
            "shop.f.near".to_string(),
            7,
            false,
            false,
            false,
            "bh".to_string(),
            "n10".to_string(),
            5_000,
            2,
            BuyOutcome::Failed,
        )
        .unwrap_err();
    assert_eq!(err, FactoryError::TooManyResults);
    assert_eq!(f.transactions.len(), 0);
}

#[test]
fn mark_shipped_moves_approved_to_shipped() {
    let mut f = PiparContractFactory::new();
    let tid = approve_purchase(&mut f, 7, "shop.f.near", "alice.near", 1000, 7, 5_000, false, None);
    let action = f
        .mark_shipped(tid, "alice.near".to_string(), "shop.f.near".to_string(), "ipfs://p".to_string())
        .unwrap();
    assert_eq!(action.store_contract_id, "shop.f.near");
    assert_eq!(action.ipfs, "ipfs://p");
    // nothing committed until the ownership check comes back
    assert_eq!(f.transactions[0].status, TransactionStatus::Approved);
    f.mark_shipped_callback(action.index, action.ipfs, 1, ShipmentOutcome::Confirmed(true))
        .unwrap();
    assert_eq!(f.transactions[0].status, TransactionStatus::Shipped);
    assert_eq!(f.transactions[0].ipfs, "ipfs://p");
}

#[test]
fn mark_shipped_requires_approved_status() {
    let mut f = PiparContractFactory::new();
    let tid = approve_purchase(&mut f, 7, "shop.f.near", "alice.near", 1000, 7, 5_000, false, None);
    let ship = f
        .mark_shipped(tid, "alice.near".to_string(), "shop.f.near".to_string(), "p".to_string())
        .unwrap();
    f.mark_shipped_callback(ship.index, ship.ipfs, 1, ShipmentOutcome::Confirmed(true))
        .unwrap();
    // already Shipped: a second attempt finds nothing to ship
    let err = f
        .mark_shipped(tid, "alice.near".to_string(), "shop.f.near".to_string(), "p".to_string())
        .unwrap_err();
    assert_eq!(err, FactoryError::TransactionNotFound);
}

#[test]
fn mark_shipped_callback_failures_commit_nothing() {
    let mut f = PiparContractFactory::new();
    let tid = approve_purchase(&mut f, 7, "shop.f.near", "alice.near", 1000, 7, 5_000, false, None);
    let ship = f
        .mark_shipped(tid, "alice.near".to_string(), "shop.f.near".to_string(), "p".to_string())
        .unwrap();
    let err = f
        .mark_shipped_callback(ship.index, "p".to_string(), 1, ShipmentOutcome::Confirmed(false))
        .unwrap_err();
    assert_eq!(err, FactoryError::ShipmentCheckFailed);
    let err = f
        .mark_shipped_callback(ship.index, "p".to_string(), 1, ShipmentOutcome::Failed)
        .unwrap_err();
    assert_eq!(err, FactoryError::ShipmentCheckFailed);
    let err = f
        .mark_shipped_callback(ship.index, "p".to_string(), 1, ShipmentOutcome::Invalid)
        .unwrap_err();
    assert_eq!(err, FactoryError::ProtocolViolation);
    let err = f
        .mark_shipped_callback(ship.index, "p".to_string(), 3, ShipmentOutcome::Confirmed(true))
        .unwrap_err();
    assert_eq!(err, FactoryError::TooManyResults);
    assert_eq!(f.transactions[0].status, TransactionStatus::Approved);
    assert_eq!(f.transactions[0].ipfs, "");
}

#[test]
fn complete_purchase_requires_shipped_status() {
    let mut f = PiparContractFactory::new();
    let tid = approve_purchase(&mut f, 7, "shop.f.near", "alice.near", 1000, 7, 5_000, false, None);
    // out-of-order: settling an Approved purchase is rejected
    let err = f
        .complete_purchase(tid, "shop.f.near".to_string(), "alice.near".to_string())
        .unwrap_err();
    assert_eq!(err, FactoryError::TransactionNotFound);
    assert_eq!(f.transactions[0].status, TransactionStatus::Approved);
}

#[test]
fn complete_purchase_settles_shipped_purchase() {
    let mut f = PiparContractFactory::new();
    let tid = approve_purchase(&mut f, 7, "shop.f.near", "alice.near", 1000, 7, 5_000, false, None);
    let ship = f
        .mark_shipped(tid, "alice.near".to_string(), "shop.f.near".to_string(), "p".to_string())
        .unwrap();
    f.mark_shipped_callback(ship.index, ship.ipfs, 1, ShipmentOutcome::Confirmed(true))
        .unwrap();
    let action = f
        .complete_purchase(tid, "shop.f.near".to_string(), "alice.near".to_string())
        .unwrap();
    assert!(action.reward.is_none());
    let settled = f.complete_purchase_callback(action.index, true).unwrap();
    match settled {
        CompletePurchaseResult::Settled(p) => {
            assert_eq!(p.seller.receiver_id, "shop.f.near");
            assert_eq!(p.seller.amount, 980);
            assert!(p.affiliate.is_none());
            assert!(p.unlock.is_none());
        }
        _ => panic!("settlement expected"),
    }
    assert_eq!(f.transactions[0].status, TransactionStatus::Delivered);
}

#[test]
fn complete_purchase_with_affiliate_splits_post_fee_share() {
    let mut f = PiparContractFactory::new();
    let tid = approve_purchase(
        &mut f,
        7,
        "shop.f.near",
        "alice.near",
        1000,
        7,
        5_000,
        false,
        Some(("aff.near", 10)),
    );
    let ship = f
        .mark_shipped(tid, "alice.near".to_string(), "shop.f.near".to_string(), "p".to_string())
        .unwrap();
    f.mark_shipped_callback(ship.index, ship.ipfs, 1, ShipmentOutcome::Confirmed(true))
        .unwrap();
    let action = f
        .complete_purchase(tid, "shop.f.near".to_string(), "alice.near".to_string())
        .unwrap();
    let settled = f.complete_purchase_callback(action.index, true).unwrap();
    match settled {
        CompletePurchaseResult::Settled(p) => {
            // 2% fee leaves 980; the affiliate takes 10% of that
            assert_eq!(p.seller.amount, 882);
            let aff = p.affiliate.expect("affiliate transfer expected");
            assert_eq!(aff.receiver_id, "aff.near");
            assert_eq!(aff.amount, 98);
            let unlock = p.unlock.expect("token unlock expected");
            assert_eq!(unlock.store_contract_id, "shop.f.near");
            assert_eq!(unlock.args.token_id, "tok-1");
            assert_eq!(p.seller.amount + aff.amount, 980);
        }
        _ => panic!("settlement expected"),
    }
}

#[test]
fn reward_purchase_requires_reward_grant_call() {
    let mut f = PiparContractFactory::new();
    let tid = approve_purchase(&mut f, 7, "shop.f.near", "alice.near", 1000, 7, 5_000, true, None);
    let ship = f
        .mark_shipped(tid, "alice.near".to_string(), "shop.f.near".to_string(), "p".to_string())
        .unwrap();
    f.mark_shipped_callback(ship.index, ship.ipfs, 1, ShipmentOutcome::Confirmed(true))
        .unwrap();
    let action = f
        .complete_purchase(tid, "shop.f.near".to_string(), "alice.near".to_string())
        .unwrap();
    let reward = action.reward.expect("reward call expected");
    assert_eq!(reward.store_contract_id, "shop.f.near");
    assert_eq!(reward.args.id, 7);
    assert_eq!(reward.args.receiver_id, "alice.near");
    // the reward call failed remotely: nothing changes, the buyer can retry
    let outcome = f.complete_purchase_callback(action.index, false).unwrap();
    assert!(matches!(outcome, CompletePurchaseResult::RemoteFailed));
    assert_eq!(f.transactions[0].status, TransactionStatus::Shipped);
}

#[test]
fn dispute_moves_shipped_to_disputed_and_keeps_funds() {
    let mut f = PiparContractFactory::new();
    let tid = approve_purchase(&mut f, 7, "shop.f.near", "alice.near", 1000, 7, 5_000, false, None);
    // out-of-order: a purchase not yet shipped cannot be disputed
    let err = f
        .dispute_purchase(tid, "shop.f.near".to_string(), "alice.near".to_string())
        .unwrap_err();
    assert_eq!(err, FactoryError::TransactionNotFound);
    let ship = f
        .mark_shipped(tid, "alice.near".to_string(), "shop.f.near".to_string(), "p".to_string())
        .unwrap();
    f.mark_shipped_callback(ship.index, ship.ipfs, 1, ShipmentOutcome::Confirmed(true))
        .unwrap();
    f.dispute_purchase(tid, "shop.f.near".to_string(), "alice.near".to_string())
        .unwrap();
    assert_eq!(f.transactions[0].status, TransactionStatus::Disputed);
    assert_eq!(f.transactions[0].buyer_value_locked, 1000);
}

#[test]
fn escrow_scenario_with_failed_second_purchase() {
    let mut f = PiparContractFactory::new();
    // buyer escrows 1000 units with a 7-day timeout; the store confirms
    let tid = approve_purchase(&mut f, 1, "s.f.near", "alice.near", 1000, 7, 10_000, false, None);
    assert_eq!(f.transactions.len(), 1);
    assert_eq!(f.transactions[0].status, TransactionStatus::Approved);
    assert_eq!(f.transactions[0].buyer_value_locked, 1000);
    // the seller marks shipped after the ownership check passes
    let ship = f
        .mark_shipped(tid, "alice.near".to_string(), "s.f.near".to_string(), "p".to_string())
        .unwrap();
    f.mark_shipped_callback(ship.index, ship.ipfs, 1, ShipmentOutcome::Confirmed(true))
        .unwrap();
    assert_eq!(f.transactions[0].status, TransactionStatus::Shipped);
    // the buyer disputes; funds stay locked
    f.dispute_purchase(tid, "s.f.near".to_string(), "alice.near".to_string())
        .unwrap();
    assert_eq!(f.transactions[0].status, TransactionStatus::Disputed);
    assert_eq!(f.transactions[0].buyer_value_locked, 1000);
    // a second buyer escrows on a different product and the store fails:
    // no entry is created and the deposit comes back intact
    let action = f
        .buy(
            2,
            "s.f.near".to_string(),
            "red".to_string(),
            7,
            false,
            false,
            "bh".to_string(),
            "n11".to_string(),
            None,
            "bob.near".to_string(),
            1000,
        )
        .unwrap();
    let result = f
        .buy_callback(
            action.intent.buyer_account_id,
            action.intent.attached_deposit,
            action.intent.product_id,
            action.intent.store_contract_id,
            action.intent.timeout,
            action.intent.is_discount,
            action.intent.is_reward,
            action.intent.is_keypom,
            action.intent.hashed_billing_address,
            action.intent.nonce,
            11_000,
            1,
            BuyOutcome::Failed,
        )
        .unwrap();
    match result {
        BuyCallbackResult::Refunded(tr) => {
            assert_eq!(tr.receiver_id, "bob.near");
            assert_eq!(tr.amount, 1000);
        }
        _ => panic!("the failed purchase must refund the second buyer"),
    }
    assert_eq!(f.transactions.len(), 1);
}

#[test]
fn refund_scenario_day_eight_succeeds_day_six_fails() {
    let mut f = PiparContractFactory::new();
    let created: u64 = 1_000_000;
    let tid =
        approve_purchase(&mut f, 1, "s.f.near", "alice.near", 1000, 7, created, false, None);
    // before day 7 the refund fails with a time-not-elapsed error
    let day_six = created as u128 + 6 * DAY_NANOS;
    let err = f
        .get_refund(tid, "s.f.near".to_string(), "alice.near".to_string(), day_six as u64)
        .unwrap_err();
    assert_eq!(err, FactoryError::TimeNotElapsed);
    assert_eq!(f.transactions[0].status, TransactionStatus::Approved);
    // at day 8 the whole escrowed amount goes back to the buyer
    let day_eight = created as u128 + 8 * DAY_NANOS;
    let tr = f
        .get_refund(tid, "s.f.near".to_string(), "alice.near".to_string(), day_eight as u64)
        .unwrap();
    assert_eq!(tr.receiver_id, "alice.near");
    assert_eq!(tr.amount, 1000);
    assert_eq!(f.transactions[0].status, TransactionStatus::Canceled);
}

#[test]
fn refund_exactly_at_deadline_succeeds() {
    let mut f = PiparContractFactory::new();
    let created: u64 = 1_000_000;
    let tid =
        approve_purchase(&mut f, 1, "s.f.near", "alice.near", 1000, 7, created, false, None);
    let deadline = created as u128 + 7 * DAY_NANOS;
    let tr = f
        .get_refund(tid, "s.f.near".to_string(), "alice.near".to_string(), deadline as u64)
        .unwrap();
    assert_eq!(tr.amount, 1000);
    assert_eq!(f.transactions[0].status, TransactionStatus::Canceled);
}

#[test]
fn refund_requires_approved_status() {
    let mut f = PiparContractFactory::new();
    let created: u64 = 1_000_000;
    let tid =
        approve_purchase(&mut f, 1, "s.f.near", "alice.near", 1000, 7, created, false, None);
    let ship = f
        .mark_shipped(tid, "alice.near".to_string(), "s.f.near".to_string(), "p".to_string())
        .unwrap();
    f.mark_shipped_callback(ship.index, ship.ipfs, 1, ShipmentOutcome::Confirmed(true))
        .unwrap();
    let late = created as u128 + 30 * DAY_NANOS;
    let err = f
        .get_refund(tid, "s.f.near".to_string(), "alice.near".to_string(), late as u64)
        .unwrap_err();
    assert_eq!(err, FactoryError::TransactionNotFound);
    assert_eq!(f.transactions[0].status, TransactionStatus::Shipped);
}

#[test]
fn canceled_record_cannot_be_refunded_twice() {
    let mut f = PiparContractFactory::new();
    let created: u64 = 1_000_000;
    let tid =
        approve_purchase(&mut f, 1, "s.f.near", "alice.near", 1000, 7, created, false, None);
    let late = created as u128 + 8 * DAY_NANOS;
    f.get_refund(tid, "s.f.near".to_string(), "alice.near".to_string(), late as u64)
        .unwrap();
    let err = f
        .get_refund(tid, "s.f.near".to_string(), "alice.near".to_string(), late as u64)
        .unwrap_err();
    assert_eq!(err, FactoryError::TransactionNotFound);
}

#[test]
fn refund_of_unknown_transaction_is_rejected() {
    let mut f = PiparContractFactory::new();
    let err = f
        .get_refund(42, "s.f.near".to_string(), "alice.near".to_string(), 1)
        .unwrap_err();
    assert_eq!(err, FactoryError::TransactionNotFound);
}
