//! The rules of the bridge by themselves.

use fiat_bridge::address::Address;
use fiat_bridge::bridge::FiatBridge;
use fiat_bridge::reference::reference_fits;
use fiat_bridge::types::{
    Abort, Config, Deposited, Error, Event, Failure, Invocation, PaidOut, Receipt, Transfer,
    WithdrawRequest,
};
use soroban_sdk::testutils::EnvTestConfig;
use soroban_sdk::{Bytes, Env};

fn env() -> Env {
    Env::new_with_config(EnvTestConfig { capture_snapshot_at_drop: false })
}

fn address(last: u8) -> Address {
    let mut strkey = [b'A'; 56];
    strkey[0] = b'G';
    strkey[55] = last;
    Address { strkey }
}

fn admin() -> Address {
    address(b'1')
}

fn token() -> Address {
    address(b'2')
}

fn user() -> Address {
    address(b'3')
}

fn at(ledger: u32, signers: &[Address]) -> Invocation {
    Invocation { ledger, signers: signers.to_vec() }
}

fn bridge(limit: i128) -> FiatBridge {
    let mut bridge = FiatBridge::new();
    assert_eq!(bridge.init(&admin(), &token(), limit), Ok(()));
    bridge
}

fn contract<T>(error: Error) -> Result<T, Failure> {
    Err(Failure::Contract(error))
}

fn aborted<T>(abort: Abort) -> Result<T, Failure> {
    Err(Failure::Aborted(abort))
}

#[test]
fn addresses_differ_in_any_character() {
    let base = address(b'1');
    assert!(base == address(b'1'));
    assert!(base.same_as(&address(b'1')));
    for i in 0..56 {
        let mut other = base;
        other.strkey[i] = b'z';
        assert!(base != other);
        assert!(!other.same_as(&base));
    }
}

#[test]
fn an_invocation_knows_its_signers() {
    let invocation = at(7, &[admin(), user()]);
    assert!(invocation.is_signed_by(&admin()));
    assert!(invocation.is_signed_by(&user()));
    assert!(!invocation.is_signed_by(&token()));
    assert!(!at(7, &[]).is_signed_by(&admin()));
}

#[test]
fn references_fit_up_to_the_maximum() {
    let env = env();
    assert!(reference_fits(&Bytes::new(&env)));
    assert!(reference_fits(&Bytes::from_slice(&env, &[7u8; 64])));
    assert!(!reference_fits(&Bytes::from_slice(&env, &[7u8; 65])));
}

#[test]
fn events_have_topics() {
    let to = user();
    assert_eq!(Event::Deposit { from: to, amount: 1 }.topic(), "deposit");
    assert_eq!(
        Event::ReceiptIssued { receipt_id: 0, depositor: to, amount: 1 }.topic(),
        "receipt_issued"
    );
    assert_eq!(Event::Withdraw { to, amount: 1 }.topic(), "withdraw");
}

#[test]
fn a_bridge_that_is_not_set_up_does_nothing() {
    let env = env();
    let mut bridge = FiatBridge::new();
    let everyone = at(1, &[admin(), token(), user()]);
    assert_eq!(
        bridge.deposit(&user(), 1, Bytes::new(&env), &everyone),
        aborted(Abort::NotInitialized)
    );
    assert_eq!(bridge.withdraw(&user(), 1, 10, &everyone), aborted(Abort::NotInitialized));
    assert_eq!(bridge.request_withdrawal(&user(), 1, &everyone), aborted(Abort::NotInitialized));
    assert_eq!(bridge.execute_withdrawal(0, 10, &everyone), aborted(Abort::NotInitialized));
    assert_eq!(bridge.cancel_withdrawal(0, &everyone), aborted(Abort::NotInitialized));
    assert_eq!(bridge.set_limit(1, &everyone), aborted(Abort::NotInitialized));
    assert_eq!(bridge.set_lock_period(1, &everyone), aborted(Abort::NotInitialized));
    assert_eq!(bridge.transfer_admin(&user(), &everyone), aborted(Abort::NotInitialized));
    assert_eq!(bridge.pause(&everyone), aborted(Abort::NotInitialized));
    assert_eq!(bridge.unpause(&everyone), aborted(Abort::NotInitialized));
    assert_eq!(bridge.get_admin(), aborted(Abort::NotInitialized));
    assert_eq!(bridge.get_token(), aborted(Abort::NotInitialized));
    assert_eq!(bridge.get_limit(), aborted(Abort::NotInitialized));
    assert_eq!(bridge, FiatBridge::new());
    assert!(!bridge.is_paused());
    assert_eq!(bridge.get_lock_period(), 0);
    assert_eq!(bridge.get_total_deposited(), 0);
    assert_eq!(bridge.get_receipt_counter(), 0);
    assert_eq!(bridge.get_withdrawal_request(0), None);
}

#[test]
fn setting_up_works_once() {
    let mut b = bridge(500);
    assert_eq!(b.config, Some(Config { admin: admin(), token: token(), limit: 500 }));
    assert_eq!(b.init(&user(), &user(), 1), contract(Error::AlreadyInitialized));
    assert_eq!(b, bridge(500));
}

#[test]
fn a_deposit_comes_with_a_receipt_a_transfer_and_events() {
    let env = env();
    let mut b = bridge(500);
    let reference = Bytes::from_slice(&env, b"order 17");
    let result = b.deposit(&user(), 200, reference.clone(), &at(9, &[user()]));
    assert_eq!(
        result,
        Ok(Deposited {
            receipt_id: 0,
            transfer: Transfer::IntoBridge { from: user(), amount: 200 },
            events: vec![
                Event::Deposit { from: user(), amount: 200 },
                Event::ReceiptIssued { receipt_id: 0, depositor: user(), amount: 200 },
            ],
        })
    );
    assert_eq!(
        b.get_receipt(0),
        Some(&Receipt { id: 0, depositor: user(), amount: 200, ledger: 9, reference })
    );
    assert_eq!(b.get_receipt(1), None);
    assert_eq!(b.get_total_deposited(), 200);
}

#[test]
fn a_deposit_has_to_be_authorized_by_the_depositor() {
    let env = env();
    let mut b = bridge(500);
    let result = b.deposit(&user(), 200, Bytes::new(&env), &at(9, &[admin()]));
    assert_eq!(result, aborted(Abort::Unauthorized));
    assert_eq!(b, bridge(500));
}

#[test]
fn the_limit_itself_can_be_deposited() {
    let env = env();
    let mut b = bridge(500);
    let now = at(9, &[user()]);
    assert_eq!(
        b.deposit(&user(), 501, Bytes::new(&env), &now),
        contract(Error::ExceedsLimit)
    );
    assert!(b.deposit(&user(), 500, Bytes::new(&env), &now).is_ok());
    assert!(b.deposit(&user(), 1, Bytes::new(&env), &now).is_ok());
}

#[test]
fn amounts_have_to_be_positive() {
    let env = env();
    let mut b = bridge(500);
    let now = at(9, &[user(), admin()]);
    for amount in [0, -1, i128::MIN] {
        assert_eq!(
            b.deposit(&user(), amount, Bytes::new(&env), &now),
            contract(Error::ZeroAmount)
        );
        assert_eq!(b.withdraw(&user(), amount, 1_000, &now), contract(Error::ZeroAmount));
        assert_eq!(b.request_withdrawal(&user(), amount, &now), contract(Error::ZeroAmount));
    }
    assert_eq!(b, bridge(500));
}

#[test]
fn the_total_does_not_overflow() {
    let env = env();
    let mut b = bridge(i128::MAX);
    let now = at(9, &[user()]);
    assert!(b.deposit(&user(), i128::MAX, Bytes::new(&env), &now).is_ok());
    assert_eq!(b.deposit(&user(), 1, Bytes::new(&env), &now), aborted(Abort::Overflow));
    assert_eq!(b.get_total_deposited(), i128::MAX);
    assert_eq!(b.get_receipt_counter(), 1);
}

#[test]
fn the_unlock_ledger_does_not_overflow() {
    let mut b = bridge(500);
    assert_eq!(b.set_lock_period(10, &at(1, &[admin()])), Ok(()));
    assert_eq!(
        b.request_withdrawal(&user(), 5, &at(u32::MAX - 9, &[admin()])),
        aborted(Abort::Overflow)
    );
    assert_eq!(b.request_withdrawal(&user(), 5, &at(u32::MAX - 10, &[admin()])), Ok(0));
    assert_eq!(
        b.get_withdrawal_request(0),
        Some(WithdrawRequest { to: user(), amount: 5, unlock_ledger: u32::MAX })
    );
}

#[test]
fn a_withdrawal_is_covered_by_the_balance() {
    let b = bridge(500);
    let now = at(9, &[admin()]);
    assert_eq!(b.withdraw(&user(), 101, 100, &now), contract(Error::InsufficientFunds));
    assert_eq!(
        b.withdraw(&user(), 100, 100, &now),
        Ok(PaidOut {
            transfer: Transfer::OutOfBridge { to: user(), amount: 100 },
            events: vec![Event::Withdraw { to: user(), amount: 100 }],
        })
    );
    assert_eq!(b, bridge(500));
}

#[test]
fn only_the_administrator_administers() {
    let mut b = bridge(500);
    assert_eq!(b.request_withdrawal(&user(), 5, &at(1, &[admin()])), Ok(0));
    let stranger = at(9, &[user(), token()]);
    assert_eq!(b.withdraw(&user(), 1, 10, &stranger), aborted(Abort::Unauthorized));
    assert_eq!(b.request_withdrawal(&user(), 1, &stranger), aborted(Abort::Unauthorized));
    assert_eq!(b.cancel_withdrawal(0, &stranger), aborted(Abort::Unauthorized));
    assert_eq!(b.set_limit(1, &stranger), aborted(Abort::Unauthorized));
    assert_eq!(b.set_lock_period(1, &stranger), aborted(Abort::Unauthorized));
    assert_eq!(b.transfer_admin(&user(), &stranger), aborted(Abort::Unauthorized));
    assert_eq!(b.pause(&stranger), aborted(Abort::Unauthorized));
    assert_eq!(b.unpause(&stranger), aborted(Abort::Unauthorized));
    assert_eq!(b.get_limit(), Ok(500));
    assert_eq!(b.get_admin(), Ok(admin()));
    assert!(!b.is_paused());
    assert!(b.get_withdrawal_request(0).is_some());
}

#[test]
fn the_old_administrator_has_no_say() {
    let mut b = bridge(500);
    assert_eq!(b.transfer_admin(&user(), &at(1, &[admin()])), Ok(()));
    assert_eq!(b.get_admin(), Ok(user()));
    assert_eq!(b.get_token(), Ok(token()));
    assert_eq!(b.get_limit(), Ok(500));
    assert_eq!(b.pause(&at(2, &[admin()])), aborted(Abort::Unauthorized));
    assert_eq!(b.pause(&at(2, &[user()])), Ok(()));
}

#[test]
fn unpausing_undoes_pausing() {
    let mut b = bridge(500);
    let now = at(1, &[admin()]);
    assert_eq!(b.pause(&now), Ok(()));
    assert!(b.is_paused());
    assert_eq!(b.pause(&now), Ok(()));
    assert_eq!(b.unpause(&now), Ok(()));
    assert_eq!(b, bridge(500));
}

#[test]
fn a_paused_bridge_still_serves_requests() {
    let mut b = bridge(500);
    let now = at(1, &[admin()]);
    assert_eq!(b.pause(&now), Ok(()));
    assert_eq!(b.request_withdrawal(&user(), 5, &now), Ok(0));
    assert!(b.execute_withdrawal(0, 5, &at(1, &[])).is_ok());
    assert_eq!(b.withdraw(&user(), 5, 5, &now), contract(Error::ContractPaused));
}

#[test]
fn a_request_is_paid_once() {
    let mut b = bridge(500);
    assert_eq!(b.set_lock_period(3, &at(1, &[admin()])), Ok(()));
    assert_eq!(b.request_withdrawal(&user(), 60, &at(10, &[admin()])), Ok(0));
    assert_eq!(b.execute_withdrawal(0, 60, &at(12, &[])), contract(Error::WithdrawalLocked));
    assert_eq!(b.execute_withdrawal(0, 59, &at(13, &[])), contract(Error::InsufficientFunds));
    assert_eq!(
        b.execute_withdrawal(0, 60, &at(13, &[])),
        Ok(PaidOut {
            transfer: Transfer::OutOfBridge { to: user(), amount: 60 },
            events: vec![Event::Withdraw { to: user(), amount: 60 }],
        })
    );
    assert_eq!(b.execute_withdrawal(0, 60, &at(14, &[])), contract(Error::RequestNotFound));
    assert_eq!(b.cancel_withdrawal(0, &at(14, &[admin()])), contract(Error::RequestNotFound));
    assert_eq!(b.request_withdrawal(&user(), 60, &at(15, &[admin()])), Ok(1));
    assert_eq!(b.get_withdrawal_request(0), None);
    assert_eq!(b.get_withdrawal_request(2), None);
    assert_eq!(b.execute_withdrawal(u64::MAX, 60, &at(14, &[])), contract(Error::RequestNotFound));
}

#[test]
fn cancelling_leaves_the_other_requests() {
    let mut b = bridge(500);
    let now = at(10, &[admin()]);
    assert_eq!(b.request_withdrawal(&user(), 1, &now), Ok(0));
    assert_eq!(b.request_withdrawal(&token(), 2, &now), Ok(1));
    assert_eq!(b.request_withdrawal(&user(), 3, &now), Ok(2));
    assert_eq!(b.cancel_withdrawal(1, &now), Ok(()));
    assert_eq!(b.get_withdrawal_request(0).unwrap().amount, 1);
    assert_eq!(b.get_withdrawal_request(1), None);
    assert_eq!(b.get_withdrawal_request(2).unwrap().amount, 3);
}

#[test]
fn a_new_lock_period_does_not_touch_old_requests() {
    let mut b = bridge(500);
    assert_eq!(b.set_lock_period(100, &at(1, &[admin()])), Ok(()));
    assert_eq!(b.request_withdrawal(&user(), 5, &at(10, &[admin()])), Ok(0));
    assert_eq!(b.set_lock_period(0, &at(11, &[admin()])), Ok(()));
    assert_eq!(b.get_lock_period(), 0);
    assert_eq!(b.execute_withdrawal(0, 5, &at(109, &[])), contract(Error::WithdrawalLocked));
    assert!(b.execute_withdrawal(0, 5, &at(110, &[])).is_ok());
}

#[test]
fn receipts_stay_as_they_were_issued() {
    let env = env();
    let mut b = bridge(500);
    let now = at(9, &[user(), admin()]);
    let reference = Bytes::from_slice(&env, &[1, 2, 3]);
    assert!(b.deposit(&user(), 200, reference.clone(), &now).is_ok());
    assert_eq!(b.set_limit(1, &now), Ok(()));
    assert!(b.deposit(&admin(), 1, Bytes::new(&env), &at(20, &[admin()])).is_ok());
    assert_eq!(b.transfer_admin(&user(), &now), Ok(()));
    assert_eq!(
        b.get_receipt(0),
        Some(&Receipt { id: 0, depositor: user(), amount: 200, ledger: 9, reference })
    );
    assert_eq!(b.get_total_deposited(), 201);
}

#[test]
fn pages_join() {
    let env = env();
    let mut b = bridge(500);
    for k in 0..10i128 {
        let who = if k % 3 == 0 { admin() } else { user() };
        assert!(b.deposit(&who, 1 + k, Bytes::new(&env), &at(9, &[who])).is_ok());
    }
    let ids = |from: u64, limit: u32| -> Vec<u64> {
        b.get_receipts_by_depositor(&user(), from, limit).iter().map(|r| r.id).collect()
    };
    assert_eq!(ids(0, 100), vec![1, 2, 4, 5, 7, 8]);
    assert_eq!(ids(0, 6), vec![1, 2, 4, 5, 7, 8]);
    assert_eq!(ids(0, 4), vec![1, 2, 4, 5]);
    assert_eq!(ids(6, 2), vec![7, 8]);
    assert_eq!(ids(9, 2), Vec::<u64>::new());
    assert_eq!(ids(10, 2), Vec::<u64>::new());
    assert_eq!(ids(u64::MAX, 2), Vec::<u64>::new());
    assert_eq!(ids(0, 0), Vec::<u64>::new());
    assert!(b.get_receipts_by_depositor(&token(), 0, 100).is_empty());
}

#[test]
fn the_books_balance() {
    let env = env();
    let mut b = bridge(500);
    let now = at(9, &[user(), admin()]);
    let mut held: i128 = 40;
    for amount in [100, 200, 50] {
        assert!(b.deposit(&user(), amount, Bytes::new(&env), &now).is_ok());
        held += amount;
    }
    assert!(b.withdraw(&user(), 90, held, &now).is_ok());
    held -= 90;
    assert_eq!(b.request_withdrawal(&user(), 300, &now), Ok(0));
    assert!(b.execute_withdrawal(0, held, &now).is_ok());
    held -= 300;
    assert_eq!(held, 40 + b.get_total_deposited() - 390);
    assert_eq!(held, 0);
    assert_eq!(b.withdraw(&user(), 1, held, &now), contract(Error::InsufficientFunds));
}
