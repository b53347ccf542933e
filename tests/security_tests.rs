use haris_ledger::crypto::{EncryptionAlgorithm, EncryptionEngine, SecurityError};
use haris_ledger::firewall::{Direction, Firewall, FirewallRule, NetworkPacket, Protocol, RuleAction};
use haris_ledger::guard::{
    ActiveDefense, AuditEvent, EncryptionStatus, FirewallStatus, HarisSecurity,
    SecurityReport, ThreatLevel, TokenSecurityStatus,
};
use haris_ledger::tokens::{RuleCondition, TokenAction, TokenProtection, TokenRule, TokenTransaction};

fn packet(source: u32, protocol: Protocol, port: u16, direction: Direction) -> NetworkPacket {
    NetworkPacket { source, destination: 1, protocol, port, direction }
}

fn rule(action: RuleAction, protocol: Protocol, ports: Option<(u16, u16)>) -> FirewallRule {
    FirewallRule {
        name: "custom".to_string(),
        action,
        protocol,
        port_range: ports,
        ip_range: None,
        direction: Direction::Inbound,
    }
}

fn engine_with_key(now: u64, fill: u8) -> EncryptionEngine {
    let mut e = EncryptionEngine::new();
    assert_eq!(e.rotate_with(vec![fill; 32], vec![fill; 4], now), Ok(now));
    e
}

#[test]
fn default_deny_rejects_unmatched_inbound() {
    let hs = HarisSecurity::new(100);
    assert!(!hs.firewall.check_packet(&packet(7, Protocol::UDP, 5000, Direction::Inbound)));
    assert!(!hs.firewall.check_packet(&packet(7, Protocol::TCP, 8080, Direction::Inbound)));
    assert!(!hs.firewall.check_packet(&packet(7, Protocol::TCP, 21, Direction::Inbound)));
    assert!(!hs.firewall.check_packet(&packet(7, Protocol::TCP, 443, Direction::Inbound)));
    assert!(hs.firewall.check_packet(&packet(7, Protocol::UDP, 53, Direction::Outbound)));
    let empty = Firewall::new();
    assert!(!empty.check_packet(&packet(7, Protocol::TCP, 80, Direction::Inbound)));
    assert!(!empty.check_packet(&packet(7, Protocol::UDP, 53, Direction::Outbound)));
}

#[test]
fn privileged_port_rule_comes_before_ssh() {
    let mut fw = Firewall::new();
    fw.activate();
    assert_eq!(fw.rule_count(), 5);
    assert!(fw.is_active());
    assert!(!fw.check_packet(&packet(9, Protocol::TCP, 22, Direction::Inbound)));
    assert!(!fw.check_packet(&packet(9, Protocol::TCP, 80, Direction::Inbound)));
    assert!(fw.check_packet(&packet(9, Protocol::TCP, 1024, Direction::Inbound)) == false);
}

#[test]
fn rule_precedence_first_match_wins() {
    let mut fw = Firewall::new();
    fw.add_rule(rule(RuleAction::Allow, Protocol::TCP, Some((80, 80))));
    fw.add_rule(rule(RuleAction::Block, Protocol::TCP, None));
    assert!(fw.check_packet(&packet(3, Protocol::TCP, 80, Direction::Inbound)));
    assert!(!fw.check_packet(&packet(3, Protocol::TCP, 81, Direction::Inbound)));
    let mut reversed = Firewall::new();
    reversed.add_rule(rule(RuleAction::Block, Protocol::TCP, None));
    reversed.add_rule(rule(RuleAction::Allow, Protocol::TCP, Some((80, 80))));
    assert!(!reversed.check_packet(&packet(3, Protocol::TCP, 80, Direction::Inbound)));
}

#[test]
fn address_range_and_lists() {
    let mut fw = Firewall::new();
    let mut r = rule(RuleAction::Allow, Protocol::Any, None);
    r.ip_range = Some((10, 20));
    fw.add_rule(r);
    assert!(fw.check_packet(&packet(15, Protocol::UDP, 9, Direction::Inbound)));
    assert!(!fw.check_packet(&packet(21, Protocol::UDP, 9, Direction::Inbound)));
    fw.allow_ip(21);
    assert!(fw.check_packet(&packet(21, Protocol::UDP, 9, Direction::Inbound)));
    fw.block_ip(15);
    fw.allow_ip(15);
    assert!(!fw.check_packet(&packet(15, Protocol::UDP, 9, Direction::Inbound)));
}

#[test]
fn intrusion_escalation_is_permanent() {
    let mut hs = HarisSecurity::new(100);
    let attacker = 0x0a00_0001;
    assert!(!hs.monitor_network(&packet(attacker, Protocol::UDP, 5000, Direction::Inbound)));
    assert_eq!(hs.threat_level, ThreatLevel::Critical);
    assert!(hs.has_defense(ActiveDefense::PortHoneypot));
    assert!(hs.has_defense(ActiveDefense::TrafficShaping));
    assert!(hs.has_defense(ActiveDefense::ConnectionLimiting));
    let n = hs.audit_log.len();
    assert_eq!(hs.audit_log.get(n - 1), AuditEvent::IntrusionDetected(packet(attacker, Protocol::UDP, 5000, Direction::Inbound)));
    hs.firewall.allow_ip(attacker);
    hs.firewall.add_rule(rule(RuleAction::Allow, Protocol::Any, None));
    assert!(!hs.monitor_network(&packet(attacker, Protocol::TCP, 443, Direction::Inbound)));
    assert!(!hs.monitor_network(&packet(attacker, Protocol::UDP, 53, Direction::Outbound)));
    assert!(hs.monitor_network(&packet(0x0a00_0002, Protocol::TCP, 443, Direction::Outbound)));
}

#[test]
fn accepted_packet_changes_nothing() {
    let mut hs = HarisSecurity::new(100);
    let defenses = hs.active_defenses.clone();
    let n = hs.audit_log.len();
    assert!(hs.monitor_network(&packet(5, Protocol::TCP, 80, Direction::Outbound)));
    assert_eq!(hs.threat_level, ThreatLevel::Low);
    assert_eq!(hs.active_defenses, defenses);
    assert_eq!(hs.audit_log.len(), n);
}

#[test]
fn detector_flags_backdoor_traffic_and_defenses_are_not_repeated() {
    let mut hs = HarisSecurity::new(100);
    let p = packet(8, Protocol::TCP, 4444, Direction::Outbound);
    assert!(hs.firewall.check_packet(&p));
    assert!(!hs.monitor_network(&p));
    assert_eq!(hs.intrusion_detection.get_alerts().len(), 1);
    assert!(!hs.monitor_network(&packet(9, Protocol::TCP, 31337, Direction::Outbound)));
    let honeypots = hs.active_defenses.iter().filter(|d| **d == ActiveDefense::PortHoneypot).count();
    assert_eq!(honeypots, 1);
    assert_eq!(hs.active_defenses.len(), 5);
    assert!(!hs.firewall.check_packet(&packet(8, Protocol::TCP, 443, Direction::Outbound)));
}

#[test]
fn scan_reports_state_and_recommendations() {
    let mut hs = HarisSecurity::new(100);
    let quiet = hs.scan_system();
    assert_eq!(quiet.threat_level, ThreatLevel::Low);
    assert_eq!(quiet.firewall_status, FirewallStatus::Active);
    assert_eq!(quiet.token_security, TokenSecurityStatus::Secure);
    assert!(quiet.ids_alerts.is_empty());
    hs.monitor_network(&packet(8, Protocol::TCP, 4444, Direction::Outbound));
    let report = hs.scan_system();
    assert_eq!(report.threat_level, ThreatLevel::Critical);
    assert_eq!(report.ids_alerts.len(), 1);
    assert_eq!(report.active_threats.len(), 1);
    assert!(report.recommendations.is_empty());
    let blank = SecurityReport::new();
    assert!(blank.recommendations.is_empty());
    assert_eq!(blank.encryption_status, EncryptionStatus::Strong);
}

#[test]
fn round_trip_and_fresh_nonce() {
    let mut e = engine_with_key(1000, 7);
    let msg = b"transfer 40 INSAN".to_vec();
    let a = e.encrypt(&msg).unwrap();
    let b = e.encrypt(&msg).unwrap();
    assert_eq!(a.key_id, 1000);
    assert_eq!(a.algorithm, EncryptionAlgorithm::Aes256Gcm);
    assert_eq!(a.iv.len(), 12);
    assert_ne!(a.iv, b.iv);
    assert_ne!(a.ciphertext, b.ciphertext);
    assert_eq!(a.ciphertext.len(), msg.len() + 16);
    assert_ne!(&a.ciphertext[..msg.len()], &msg[..]);
    assert_eq!(e.decrypt(&a).unwrap(), msg);
    assert_eq!(e.decrypt(&b).unwrap(), msg);
    let empty = e.encrypt(&[]).unwrap();
    assert_eq!(e.decrypt(&empty).unwrap(), Vec::<u8>::new());
}

#[test]
fn key_retention_after_rotation() {
    let mut e = engine_with_key(1000, 1);
    let old = e.encrypt(b"before").unwrap();
    assert_eq!(e.rotate_with(vec![2; 32], vec![2; 4], 2000), Ok(2000));
    assert_eq!(e.key_count(), 2);
    assert_eq!(e.get_current_key_id(), Some(2000));
    let new = e.encrypt(b"after").unwrap();
    assert_eq!(new.key_id, 2000);
    assert_eq!(e.decrypt(&old).unwrap(), b"before".to_vec());
    assert_eq!(e.decrypt(&new).unwrap(), b"after".to_vec());
}

#[test]
fn key_ids_stay_unique_when_the_clock_does_not_advance() {
    let mut e = engine_with_key(1000, 1);
    assert_eq!(e.rotate_with(vec![2; 32], vec![2; 4], 1000), Ok(1001));
    assert_eq!(e.rotate_with(vec![3; 32], vec![3; 4], 500), Ok(1002));
    let mut full = engine_with_key(u64::MAX, 1);
    assert_eq!(full.rotate_with(vec![2; 32], vec![2; 4], 5), Err(SecurityError::KeyGenerationFailed));
    assert_eq!(full.key_count(), 1);
}

#[test]
fn decryption_errors() {
    let mut e = EncryptionEngine::new();
    assert_eq!(e.encrypt(b"x").unwrap_err(), SecurityError::KeyNotFound);
    e.rotate_with(vec![5; 32], vec![5; 4], 10).unwrap();
    let mut rec = e.encrypt(b"secret").unwrap();
    rec.ciphertext[0] ^= 1;
    assert_eq!(e.decrypt(&rec), Err(SecurityError::DecryptionFailed));
    rec.ciphertext[0] ^= 1;
    rec.key_id = 11;
    assert_eq!(e.decrypt(&rec), Err(SecurityError::KeyNotFound));
    rec.key_id = 10;
    rec.iv.pop();
    assert_eq!(e.decrypt(&rec), Err(SecurityError::DecryptionFailed));
}

#[test]
fn random_keys_from_the_service() {
    let mut hs = HarisSecurity::new(100);
    assert_eq!(hs.encryption_engine.get_current_key_id(), Some(100));
    let rec = hs.encrypt_data(b"wallet key").unwrap();
    assert_eq!(hs.rotate_keys(200), Ok(200));
    assert_eq!(hs.decrypt_data(&rec).unwrap(), b"wallet key".to_vec());
    let n = hs.audit_log.len();
    assert_eq!(hs.audit_log.get(n - 1), AuditEvent::KeyRotated(200));
    let mut e = EncryptionEngine::new();
    assert_eq!(e.initialize(7), Ok(7));
    assert_eq!(e.key_count(), 1);
    assert_eq!(e.rotate(7), Ok(8));
    let a = e.encrypt(b"m").unwrap();
    assert_eq!(e.decrypt(&a).unwrap(), b"m".to_vec());
}

#[test]
fn policy_first_matching_rule_decides() {
    let mut p = TokenProtection::new();
    p.activate();
    assert_eq!(p.rule_count(), 3);
    let tx = |amount: u32, balance: u32| TokenTransaction { from: 1, to: 2, amount, sender_balance: balance };
    assert!(p.validate_transaction(&tx(1000, 5000)));
    assert!(!p.validate_transaction(&tx(1001, 5000)));
    assert_eq!(p.evaluate(&tx(1001, 5000)), Some(TokenAction::RequireApproval));
    assert_eq!(p.evaluate(&tx(5000, 50)), Some(TokenAction::BlockSystem));
    p.report_suspicious(2);
    assert_eq!(p.evaluate(&tx(10, 500)), Some(TokenAction::BlockAndAlert));
    let mut open = TokenProtection::new();
    assert!(open.validate_transaction(&tx(u32::MAX, 0)));
    open.add_rule(TokenRule { name: "large".to_string(), condition: RuleCondition::TransferGreaterThan(10), action: TokenAction::RequireApproval });
    open.add_rule(TokenRule { name: "any".to_string(), condition: RuleCondition::TransferGreaterThan(0), action: TokenAction::BlockSystem });
    assert_eq!(open.evaluate(&tx(50, 0)), Some(TokenAction::RequireApproval));
    assert_eq!(open.evaluate(&tx(5, 0)), Some(TokenAction::BlockSystem));
    assert!(open.validate_transaction(&tx(0, 0)));
}

#[test]
fn block_and_alert_is_audited() {
    let mut hs = HarisSecurity::new(100);
    hs.token_protection.report_suspicious(4);
    let n = hs.audit_log.len();
    let t = TokenTransaction { from: 4, to: 5, amount: 10, sender_balance: 500 };
    assert!(!hs.protect_token_transaction(&t));
    assert_eq!(hs.audit_log.len(), n + 1);
    assert_eq!(hs.audit_log.get(n), AuditEvent::TransactionRejected(t));
    let big = TokenTransaction { from: 6, to: 5, amount: 5000, sender_balance: 9000 };
    assert!(!hs.protect_token_transaction(&big));
    assert_eq!(hs.audit_log.len(), n + 1);
    let ok = TokenTransaction { from: 6, to: 5, amount: 50, sender_balance: 9000 };
    assert!(hs.protect_token_transaction(&ok));
}
