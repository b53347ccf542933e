use haris_ledger::ledger::{
    calculate_fee, calculate_hash, start_payment_system, PaymentError, PaymentSystem,
    TransactionId, TransactionStatus, WalletId, RESERVE_WALLET,
};
use haris_ledger::guard::{AuditEvent, HarisSecurity};
use haris_ledger::tokens::{TokenProtection, TokenTransaction};
use haris_ledger::MIN_TOKENS;
use sha2::Digest;

fn open(ps: &mut PaymentSystem, owner: &str, balance: u32) -> Result<WalletId, PaymentError> {
    ps.create_wallet(owner, balance, format!("ISLAM-{}", owner), format!("PK-{}", owner), 1)
}

fn default_guard() -> HarisSecurity {
    HarisSecurity::new(1)
}

#[test]
fn minimum_floor_scenario() {
    let mut guard = default_guard();
    let mut ps = PaymentSystem::new();
    ps.activate();
    assert_eq!(ps.min_balance(), 100);
    let a = open(&mut ps, "a", 150).unwrap();
    let b = open(&mut ps, "b", 100).unwrap();
    let id = ps.transfer(&mut guard, a, b, 40, 10).unwrap();
    assert_eq!(ps.get_balance(a).unwrap(), 110);
    assert_eq!(ps.get_balance(b).unwrap(), 140);
    assert_eq!(ps.get_transaction(id).unwrap().status, TransactionStatus::Completed);
    assert_eq!(ps.transfer(&mut guard, a, b, 20, 11), Err(PaymentError::MinimumBalanceViolation));
    assert_eq!(ps.get_balance(a).unwrap(), 110);
    assert_eq!(ps.get_balance(b).unwrap(), 140);
    assert_eq!(ps.transaction_count(), 1);
}

#[test]
fn wallet_creation_floor() {
    let mut ps = PaymentSystem::new();
    let before = ps.wallet_count();
    assert_eq!(open(&mut ps, "poor", 50), Err(PaymentError::InsufficientInitialBalance));
    assert_eq!(ps.wallet_count(), before);
    assert_eq!(open(&mut ps, "exact", MIN_TOKENS), Ok(WalletId(1)));
    assert_eq!(ps.wallet_count(), before + 1);
    let w = ps.get_wallet(WalletId(1)).unwrap();
    assert_eq!(w.user_id, "exact");
    assert_eq!(w.address, "ISLAM-exact");
    assert_eq!(w.balance, 100);
    assert_eq!(w.created_at, 1);
}

#[test]
fn transfer_records_one_completed_transaction_in_both_wallets() {
    let mut guard = default_guard();
    let mut ps = PaymentSystem::new();
    let a = open(&mut ps, "a", 500).unwrap();
    let b = open(&mut ps, "b", 200).unwrap();
    let id = ps.transfer(&mut guard, a, b, 250, 77).unwrap();
    assert_eq!(id, TransactionId(1));
    let tx = ps.get_transaction(id).unwrap();
    assert_eq!(tx.from, a);
    assert_eq!(tx.to, b);
    assert_eq!(tx.amount, 250);
    assert_eq!(tx.fee, 3);
    assert_eq!(tx.timestamp, 77);
    assert_eq!(tx.hash, calculate_hash(a, b, 250, 77));
    assert_eq!(tx.hash.len(), 32);
    assert_eq!(ps.get_wallet(a).unwrap().transactions, vec![id]);
    assert_eq!(ps.get_wallet(b).unwrap().transactions, vec![id]);
    assert_eq!(ps.get_balance(a).unwrap() + ps.get_balance(b).unwrap(), 700);
    let id2 = ps.transfer(&mut guard, b, a, 10, 78).unwrap();
    assert_eq!(id2, TransactionId(2));
}

#[test]
fn transfer_errors_leave_ledger_unchanged() {
    let mut guard = default_guard();
    let mut ps = PaymentSystem::new();
    let a = open(&mut ps, "a", 3000).unwrap();
    let b = open(&mut ps, "b", u32::MAX - 10).unwrap();
    let c = open(&mut ps, "c", 400).unwrap();
    let missing = WalletId(99);
    assert_eq!(ps.transfer(&mut guard, a, missing, 1, 1), Err(PaymentError::WalletNotFound));
    assert_eq!(ps.transfer(&mut guard, missing, a, 1, 1), Err(PaymentError::WalletNotFound));
    assert_eq!(ps.transfer(&mut guard, c, a, 401, 1), Err(PaymentError::InsufficientBalance));
    assert_eq!(ps.transfer(&mut guard, c, a, 301, 1), Err(PaymentError::MinimumBalanceViolation));
    assert_eq!(ps.transfer(&mut guard, a, b, 11, 1), Err(PaymentError::InvalidAmount));
    assert_eq!(ps.transfer(&mut guard, a, c, 1001, 1), Err(PaymentError::SecurityViolation));
    guard.token_protection.report_suspicious(c.0);
    assert_eq!(ps.transfer(&mut guard, a, c, 5, 1), Err(PaymentError::SecurityViolation));
    assert_eq!(ps.get_balance(a).unwrap(), 3000);
    assert_eq!(ps.get_balance(b).unwrap(), u32::MAX - 10);
    assert_eq!(ps.get_balance(c).unwrap(), 400);
    assert_eq!(ps.transaction_count(), 0);
    assert!(ps.get_wallet(a).unwrap().transactions.is_empty());
    assert_eq!(ps.get_balance(missing), Err(PaymentError::WalletNotFound));
}

#[test]
fn insufficient_balance_is_checked_before_the_floor() {
    let mut guard = default_guard();
    let mut ps = PaymentSystem::new();
    let a = open(&mut ps, "a", 120).unwrap();
    let b = open(&mut ps, "b", 120).unwrap();
    assert_eq!(ps.transfer(&mut guard, a, b, 121, 1), Err(PaymentError::InsufficientBalance));
    assert_eq!(ps.transfer(&mut guard, a, b, 21, 1), Err(PaymentError::MinimumBalanceViolation));
    assert!(ps.transfer(&mut guard, a, b, 20, 1).is_ok());
    assert_eq!(ps.get_balance(a).unwrap(), 100);
}

#[test]
fn reserve_wallet_is_exempt_from_the_floor() {
    let mut guard = default_guard();
    guard.token_protection = TokenProtection::new();
    let mut ps = PaymentSystem::new();
    let reserve = WalletId(RESERVE_WALLET);
    let a = open(&mut ps, "a", 100).unwrap();
    ps.credit_external(reserve, 50, 3).unwrap();
    let id = ps.transfer(&mut guard, reserve, a, 50, 4).unwrap();
    assert_eq!(ps.get_balance(reserve).unwrap(), 0);
    assert_eq!(ps.get_balance(a).unwrap(), 150);
    assert_eq!(id, TransactionId(2));
}

#[test]
fn self_transfer_keeps_the_balance() {
    let mut guard = default_guard();
    let mut ps = PaymentSystem::new();
    let a = open(&mut ps, "a", 300).unwrap();
    let id = ps.transfer(&mut guard, a, a, 100, 9).unwrap();
    assert_eq!(ps.get_balance(a).unwrap(), 300);
    assert_eq!(ps.get_wallet(a).unwrap().transactions, vec![id, id]);
}

#[test]
fn external_credit_is_recorded_from_the_reserve() {
    let mut ps = PaymentSystem::new();
    let a = open(&mut ps, "a", 100).unwrap();
    let id = ps.credit_external(a, 1000, 42).unwrap();
    assert_eq!(ps.get_balance(a).unwrap(), 1100);
    let tx = ps.get_transaction(id).unwrap();
    assert_eq!(tx.from, WalletId(RESERVE_WALLET));
    assert_eq!(tx.to, a);
    assert_eq!(tx.fee, 0);
    assert_eq!(tx.status, TransactionStatus::Completed);
    assert_eq!(tx.hash, calculate_hash(WalletId(0), a, 1000, 42));
    assert_eq!(ps.credit_external(WalletId(7), 1, 1), Err(PaymentError::WalletNotFound));
    assert_eq!(ps.credit_external(a, u32::MAX, 1), Err(PaymentError::InvalidAmount));
    assert_eq!(ps.get_balance(a).unwrap(), 1100);
    assert_eq!(ps.transaction_count(), 1);
}

#[test]
fn fee_is_one_percent_rounded_up_with_a_minimum_of_one() {
    assert_eq!(calculate_fee(0), 1);
    assert_eq!(calculate_fee(1), 1);
    assert_eq!(calculate_fee(100), 1);
    assert_eq!(calculate_fee(101), 2);
    assert_eq!(calculate_fee(150), 2);
    assert_eq!(calculate_fee(250), 3);
    assert_eq!(calculate_fee(u32::MAX), 42949673);
}

#[test]
fn content_hash_is_sha256_of_the_fields() {
    let h = calculate_hash(WalletId(1), WalletId(2), 3, 4);
    assert_eq!(h.len(), 32);
    let content: Vec<u8> = vec![1, 0, 0, 0, 2, 0, 0, 0, 3, 0, 0, 0, 4, 0, 0, 0, 0, 0, 0, 0];
    assert_ne!(h, content);
    let expected = sha2::Sha256::digest(&content).to_vec();
    assert_eq!(h, expected);
    assert_ne!(h, calculate_hash(WalletId(1), WalletId(2), 3, 5));
}

#[test]
fn service_ledger_starts_with_a_funded_system_wallet() {
    let ps = start_payment_system("ISLAM-sys".to_string(), "PK-sys".to_string(), 5);
    assert_eq!(ps.wallet_count(), 2);
    assert_eq!(ps.get_balance(WalletId(1)).unwrap(), 10000);
    assert_eq!(ps.get_wallet(WalletId(1)).unwrap().user_id, "system");
    assert_eq!(ps.get_balance(WalletId(0)).unwrap(), 0);
}

#[test]
fn block_and_alert_transfer_is_audited() {
    let mut guard = default_guard();
    let mut ps = PaymentSystem::new();
    let a = open(&mut ps, "a", 3000).unwrap();
    let b = open(&mut ps, "b", 500).unwrap();
    guard.token_protection.report_suspicious(b.0);
    let n = guard.audit_log.len();
    assert_eq!(ps.transfer(&mut guard, a, b, 10, 3), Err(PaymentError::SecurityViolation));
    assert_eq!(guard.audit_log.len(), n + 1);
    let pending = TokenTransaction { from: a.0, to: b.0, amount: 10, sender_balance: 3000 };
    assert_eq!(guard.audit_log.get(n), AuditEvent::TransactionRejected(pending));
    assert_eq!(ps.transfer(&mut guard, a, b, 1001, 3), Err(PaymentError::SecurityViolation));
    assert_eq!(ps.transfer(&mut guard, a, WalletId(50), 10, 3), Err(PaymentError::WalletNotFound));
    assert_eq!(guard.audit_log.len(), n + 1);
    assert_eq!(ps.get_balance(a).unwrap(), 3000);
}
