//! The fee calculator, the transition table and the two registries.

use swiftremit::effects::{Effects, Transfer};
use swiftremit::error::Error;
use swiftremit::fees::{calculate_fee, quote, Quote, MAX_FEE_BPS};
use swiftremit::guard::SettlementGuard;
use swiftremit::registry::Registry;
use swiftremit::types::{Address, AddressKind, Remittance, RemittanceStatus};

const ALL: [RemittanceStatus; 5] = [
    RemittanceStatus::Pending,
    RemittanceStatus::Authorized,
    RemittanceStatus::Settled,
    RemittanceStatus::Finalized,
    RemittanceStatus::Failed,
];

#[test]
fn fee_is_the_floor_of_the_share() {
    assert_eq!(calculate_fee(1000, 250), Ok(25));
    assert_eq!(calculate_fee(10000, 500), Ok(500));
    assert_eq!(calculate_fee(999, 250), Ok(24));
    assert_eq!(calculate_fee(39, 250), Ok(0));
    assert_eq!(calculate_fee(40, 250), Ok(1));
    assert_eq!(calculate_fee(1, 9999), Ok(0));
    assert_eq!(calculate_fee(12345, 1), Ok(1));
    assert_eq!(calculate_fee(123456789, 333), Ok(4111111));
}

#[test]
fn fee_at_the_ends_of_the_rate() {
    assert_eq!(calculate_fee(1000, 0), Ok(0));
    assert_eq!(calculate_fee(1000, MAX_FEE_BPS), Ok(1000));
    assert_eq!(calculate_fee(1, 10000), Ok(1));
}

#[test]
fn fee_of_the_largest_amounts() {
    assert_eq!(calculate_fee(i128::MAX, 10000), Ok(i128::MAX));
    assert_eq!(calculate_fee(i128::MAX, 0), Ok(0));
    assert_eq!(calculate_fee(i128::MAX, 1), Ok(i128::MAX / 10000));
    // 2^127 - 1 = 17014118346046923173168730371588410 * 10000 + 5727
    assert_eq!(
        calculate_fee(i128::MAX, 5000),
        Ok(17014118346046923173168730371588410 * 5000 + 2863)
    );
    assert_eq!(calculate_fee(i128::MAX, 5000), Ok(i128::MAX / 2));
}

#[test]
fn fee_refuses_bad_input() {
    assert_eq!(calculate_fee(0, 250), Err(Error::InvalidAmount));
    assert_eq!(calculate_fee(-1, 250), Err(Error::InvalidAmount));
    assert_eq!(calculate_fee(i128::MIN, 250), Err(Error::InvalidAmount));
    assert_eq!(calculate_fee(1000, 10001), Err(Error::InvalidFeeBps));
    assert_eq!(calculate_fee(1000, u32::MAX), Err(Error::InvalidFeeBps));
    // The amount is looked at first.
    assert_eq!(calculate_fee(0, 10001), Err(Error::InvalidAmount));
}

#[test]
fn quote_splits_the_amount() {
    assert_eq!(quote(1000, 250), Ok(Quote { fee: 25, payout: 975 }));
    assert_eq!(quote(10000, 500), Ok(Quote { fee: 500, payout: 9500 }));
    assert_eq!(quote(1, 250), Ok(Quote { fee: 0, payout: 1 }));
    assert_eq!(quote(1000, 10000), Ok(Quote { fee: 1000, payout: 0 }));
    assert_eq!(quote(0, 250), Err(Error::InvalidAmount));
    assert_eq!(quote(5, 10001), Err(Error::InvalidFeeBps));
}

#[test]
fn quote_parts_always_add_up() {
    let amounts = [1i128, 2, 39, 40, 41, 9999, 10000, 10001, 123456789, i128::MAX - 1, i128::MAX];
    let rates = [0u32, 1, 250, 333, 5000, 9999, 10000];
    for amount in amounts {
        for bps in rates {
            let q = quote(amount, bps).unwrap();
            assert_eq!(q.fee + q.payout, amount);
            assert!(0 <= q.fee && q.fee <= amount);
            assert_eq!(Ok(q.fee), calculate_fee(amount, bps));
        }
    }
}

#[test]
fn table_has_five_moves() {
    let allowed = [
        (RemittanceStatus::Pending, RemittanceStatus::Authorized),
        (RemittanceStatus::Pending, RemittanceStatus::Failed),
        (RemittanceStatus::Authorized, RemittanceStatus::Settled),
        (RemittanceStatus::Authorized, RemittanceStatus::Failed),
        (RemittanceStatus::Settled, RemittanceStatus::Finalized),
    ];
    let mut count = 0;
    for from in ALL {
        for to in ALL {
            let expected = allowed.contains(&(from, to));
            assert_eq!(from.can_transition_to(&to), expected, "{:?} -> {:?}", from, to);
            if expected {
                count += 1;
            }
        }
    }
    assert_eq!(count, 5);
}

#[test]
fn terminal_states_admit_nothing() {
    for to in ALL {
        assert!(!RemittanceStatus::Finalized.can_transition_to(&to));
        assert!(!RemittanceStatus::Failed.can_transition_to(&to));
    }
    assert!(RemittanceStatus::Finalized.is_terminal());
    assert!(RemittanceStatus::Failed.is_terminal());
    assert!(!RemittanceStatus::Pending.is_terminal());
    assert!(!RemittanceStatus::Authorized.is_terminal());
    assert!(!RemittanceStatus::Settled.is_terminal());
}

#[test]
fn no_state_moves_to_itself_or_back() {
    for s in ALL {
        assert!(!s.can_transition_to(&s));
        assert!(!s.can_transition_to(&RemittanceStatus::Pending));
    }
    assert!(!RemittanceStatus::Pending.can_transition_to(&RemittanceStatus::Settled));
    assert!(!RemittanceStatus::Pending.can_transition_to(&RemittanceStatus::Finalized));
    assert!(!RemittanceStatus::Authorized.can_transition_to(&RemittanceStatus::Finalized));
    assert!(!RemittanceStatus::Settled.can_transition_to(&RemittanceStatus::Failed));
}

#[test]
fn addresses_compare_by_kind_and_key() {
    let a = Address::account(1, 2);
    assert_eq!(a, Address { kind: AddressKind::Account, hi: 1, lo: 2 });
    assert_eq!(Address::contract(1, 2), Address { kind: AddressKind::Contract, hi: 1, lo: 2 });
    assert_ne!(a, Address::contract(1, 2));
    assert_ne!(a, Address::account(2, 1));
    assert_ne!(a, Address::account(1, 3));
    assert_eq!(a, Address::account(1, 2));
}

#[test]
fn record_with_status_changes_only_the_status() {
    let r = Remittance {
        id: 7,
        sender: Address::account(0, 1),
        agent: Address::account(0, 2),
        amount: 1000,
        fee: 25,
        status: RemittanceStatus::Pending,
        expiry: Some(99),
    };
    let moved = r.with_status(RemittanceStatus::Authorized);
    assert_eq!(moved, Remittance { status: RemittanceStatus::Authorized, ..r });
    assert_eq!(r.payout(), 975);
    assert_eq!(moved.payout(), 975);
}

#[test]
fn transfer_accessors() {
    let who = Address::account(0, 9);
    let deposit = Transfer::Deposit { from: who, amount: 10 };
    let payout = Transfer::Payout { to: who, amount: 20 };
    let refund = Transfer::Refund { to: who, amount: 30 };
    let withdrawal = Transfer::FeeWithdrawal { to: who, amount: 40 };
    assert_eq!(
        [deposit.amount(), payout.amount(), refund.amount(), withdrawal.amount()],
        [10, 20, 30, 40]
    );
    for t in [deposit, payout, refund, withdrawal] {
        assert_eq!(t.party(), who);
    }
    assert!(deposit.is_inbound());
    assert!(!payout.is_inbound());
    assert!(!refund.is_inbound());
    assert!(!withdrawal.is_inbound());
    assert_eq!(Effects::none(), Effects { transfer: None, event: None });
}

#[test]
fn registry_is_a_set() {
    let a = Address::account(0, 1);
    let b = Address::account(0, 2);
    let c = Address::contract(0, 1);
    let mut r = Registry::new();
    assert_eq!(r.len(), 0);
    assert!(!r.contains(a));

    assert!(r.insert(a));
    assert!(r.insert(b));
    assert!(!r.insert(a));
    assert_eq!(r.len(), 2);
    assert!(r.contains(a) && r.contains(b) && !r.contains(c));
    assert_eq!(r.to_vec(), vec![a, b]);

    assert!(!r.remove(c));
    assert!(r.remove(a));
    assert!(!r.remove(a));
    assert_eq!(r.len(), 1);
    assert!(!r.contains(a) && r.contains(b));
    assert_eq!(r.to_vec(), vec![b]);
}

#[test]
fn registry_from_list_drops_repeats() {
    let a = Address::account(0, 1);
    let b = Address::account(0, 2);
    let r = Registry::from_vec(&vec![a, b, a, a, b]);
    assert_eq!(r.len(), 2);
    assert_eq!(r.to_vec(), vec![a, b]);
    assert_eq!(Registry::from_vec(&Vec::new()).len(), 0);
}

#[test]
fn guard_marks_once_and_for_good() {
    let mut g = SettlementGuard::new();
    assert!(!g.contains(1));
    assert!(g.mark(1));
    assert!(g.mark(3));
    assert!(!g.mark(1));
    assert!(g.contains(1) && g.contains(3) && !g.contains(2));
    assert_eq!(g.to_vec(), vec![1, 3]);

    let h = SettlementGuard::from_vec(&vec![5, 5, 2, 5]);
    assert_eq!(h.to_vec(), vec![5, 2]);
    assert!(h.contains(5) && h.contains(2) && !h.contains(0));
}
