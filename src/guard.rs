//! The security service: it runs each inbound packet through the firewall and the
//! intrusion detector, escalates on rejections and detections, keeps the audit
//! trail, and offers encryption and transfer policy to the other components.
use crate::crypto::{EncryptedData, EncryptionEngine, SecurityError, MAX_PLAINTEXT};
use crate::firewall::{is_default_rule_set, Firewall, NetworkPacket, Protocol};
use crate::tokens::is_default_policy;
use crate::MIN_TOKENS;
use crate::tokens::{TokenAction, TokenProtection, TokenTransaction};
use vstd::prelude::*;

verus! {

#[derive(Debug, Clone, Copy, PartialEq, Eq, Structural)]
pub enum ThreatLevel {
    Low,
    Medium,
    High,
    Critical,
}

#[derive(Debug, Clone, Copy, PartialEq, Eq, Structural)]
pub enum ActiveDefense {
    PortHoneypot,
    TrafficShaping,
    ConnectionLimiting,
    ProtocolValidation,
    RateLimiting,
}

/// One entry of the append-only audit trail.
#[derive(Debug, Clone, Copy, PartialEq, Eq, Structural)]
pub enum AuditEvent {
    BlockedPacket(NetworkPacket),
    IntrusionDetected(NetworkPacket),
    TransactionRejected(TokenTransaction),
    KeyRotated(u64),
}

pub struct AuditLog {
    entries: Vec<AuditEvent>,
}

impl AuditLog {
    pub closed spec fn events(&self) -> Seq<AuditEvent> {
        self.entries@
    }

    pub fn new() -> (r: Self)
        ensures
            r.events() == Seq::<AuditEvent>::empty(),
    {
        AuditLog { entries: Vec::new() }
    }

    /// Appends `event`; entries are never changed or removed.
    pub fn record(&mut self, event: AuditEvent)
        ensures
            final(self).events() == old(self).events().push(event),
    {
        self.entries.push(event);
    }

    pub fn log_blocked_packet(&mut self, p: &NetworkPacket)
        ensures
            final(self).events() == old(self).events().push(AuditEvent::BlockedPacket(*p)),
    {
        self.record(AuditEvent::BlockedPacket(*p));
    }

    pub fn len(&self) -> (r: usize)
        ensures
            r == self.events().len(),
    {
        self.entries.len()
    }

    pub fn get(&self, i: usize) -> (r: AuditEvent)
        requires
            i < self.events().len(),
        ensures
            r == self.events()[i as int],
    {
        self.entries[i]
    }
}

/// A known attack pattern: traffic of this protocol (any, for `Any`) to this port.
#[derive(Debug, Clone, Copy, PartialEq, Eq, Structural)]
pub struct AttackSignature {
    pub protocol: Protocol,
    pub port: u16,
}

#[derive(Debug, Clone, Copy, PartialEq, Eq, Structural)]
pub struct IntrusionAlert {
    pub source: u32,
    pub port: u16,
}

pub open spec fn signature_matches(s: AttackSignature, p: NetworkPacket) -> bool {
    (s.protocol == Protocol::Any || s.protocol == p.protocol) && s.port == p.port
}

/// Flags packets that match a known attack signature.
pub struct IntrusionDetectionSystem {
    signatures: Vec<AttackSignature>,
    alerts: Vec<IntrusionAlert>,
    running: bool,
}

impl IntrusionDetectionSystem {
    pub closed spec fn signatures(&self) -> Seq<AttackSignature> {
        self.signatures@
    }

    pub closed spec fn alerts(&self) -> Seq<IntrusionAlert> {
        self.alerts@
    }

    pub closed spec fn running(&self) -> bool {
        self.running
    }

    /// Whether an analysis pass flags `p`: a running detector with a signature that
    /// matches it.
    pub open spec fn flags(&self, p: NetworkPacket) -> bool {
        self.running() && exists|i: int|
            0 <= i < self.signatures().len() && signature_matches(#[trigger] self.signatures()[i], p)
    }

    pub fn new() -> (r: Self)
        ensures
            r.signatures() == Seq::<AttackSignature>::empty(),
            r.alerts() == Seq::<IntrusionAlert>::empty(),
            !r.running(),
    {
        IntrusionDetectionSystem { signatures: Vec::new(), alerts: Vec::new(), running: false }
    }

    /// Starts the detector with the well-known backdoor ports TCP/4444 and TCP/31337.
    pub fn start(&mut self)
        ensures
            final(self).running(),
            final(self).signatures() == old(self).signatures() + seq![
                AttackSignature { protocol: Protocol::TCP, port: 4444 },
                AttackSignature { protocol: Protocol::TCP, port: 31337 },
            ],
            final(self).alerts() == old(self).alerts(),
    {
        self.running = true;
        self.signatures.push(AttackSignature { protocol: Protocol::TCP, port: 4444 });
        self.signatures.push(AttackSignature { protocol: Protocol::TCP, port: 31337 });
        assert(self.signatures@ =~= old(self).signatures@ + seq![
            AttackSignature { protocol: Protocol::TCP, port: 4444 },
            AttackSignature { protocol: Protocol::TCP, port: 31337 },
        ]);
    }

    pub fn add_signature(&mut self, s: AttackSignature)
        ensures
            final(self).signatures() == old(self).signatures().push(s),
            final(self).alerts() == old(self).alerts(),
            final(self).running() == old(self).running(),
    {
        self.signatures.push(s);
    }

    /// Runs one analysis pass over `p`; a flagged packet raises an alert.
    pub fn analyze_packet(&mut self, p: &NetworkPacket) -> (r: bool)
        ensures
            r == old(self).flags(*p),
            final(self).signatures() == old(self).signatures(),
            final(self).running() == old(self).running(),
            final(self).alerts() == (if r {
                old(self).alerts().push(IntrusionAlert { source: p.source, port: p.port })
            } else {
                old(self).alerts()
            }),
    {
        if !self.running {
            return false;
        }
        let n = self.signatures.len();
        let mut i: usize = 0;
        while i < n
            invariant
                n == self.signatures@.len(),
                0 <= i <= n,
                self.signatures@ == old(self).signatures@,
                self.alerts@ == old(self).alerts@,
                self.running,
                old(self).running,
                forall|j: int| 0 <= j < i ==> !signature_matches(#[trigger] self.signatures@[j], *p),
            decreases n - i,
        {
            let s = self.signatures[i];
            if (s.protocol == Protocol::Any || s.protocol == p.protocol) && s.port == p.port {
                assert(signature_matches(old(self).signatures()[i as int], *p));
                self.alerts.push(IntrusionAlert { source: p.source, port: p.port });
                return true;
            }
            i = i + 1;
        }
        false
    }

    pub fn get_alerts(&self) -> (r: Vec<IntrusionAlert>)
        ensures
            r@ == self.alerts(),
    {
        let mut out: Vec<IntrusionAlert> = Vec::new();
        let mut i: usize = 0;
        while i < self.alerts.len()
            invariant
                0 <= i <= self.alerts@.len(),
                out@ == self.alerts@.subrange(0, i as int),
            decreases self.alerts@.len() - i,
        {
            out.push(self.alerts[i]);
            assert(out@ =~= self.alerts@.subrange(0, i + 1));
            i = i + 1;
        }
        assert(out@ =~= self.alerts@);
        out
    }
}

#[derive(Debug, Clone, Copy, PartialEq, Eq, Structural)]
pub enum FirewallStatus {
    Active,
    Inactive,
}

#[derive(Debug, Clone, Copy, PartialEq, Eq, Structural)]
pub enum EncryptionStatus {
    /// A key of record exists.
    Strong,
    /// No key has been created: nothing can be sealed.
    NoKey,
}

#[derive(Debug, Clone, Copy, PartialEq, Eq, Structural)]
pub enum TokenSecurityStatus {
    Secure,
    Unprotected,
}

#[derive(Debug, Clone, Copy, PartialEq, Eq, Structural)]
pub enum Recommendation {
    ActivateFirewall,
    InitializeEncryption,
    LoadTransactionRules,
    InvestigateIntrusions,
}

/// A snapshot of the service's state.
pub struct SecurityReport {
    pub threat_level: ThreatLevel,
    pub firewall_status: FirewallStatus,
    pub ids_alerts: Vec<IntrusionAlert>,
    pub encryption_status: EncryptionStatus,
    pub token_security: TokenSecurityStatus,
    pub active_threats: Vec<IntrusionAlert>,
    pub recommendations: Vec<Recommendation>,
}

impl SecurityReport {
    /// A report of a quiet system with nothing to recommend.
    pub fn new() -> (r: Self)
        ensures
            r.threat_level == ThreatLevel::Low,
            r.firewall_status == FirewallStatus::Active,
            r.ids_alerts@.len() == 0,
            r.encryption_status == EncryptionStatus::Strong,
            r.token_security == TokenSecurityStatus::Secure,
            r.active_threats@.len() == 0,
            r.recommendations@.len() == 0,
    {
        SecurityReport {
            threat_level: ThreatLevel::Low,
            firewall_status: FirewallStatus::Active,
            ids_alerts: Vec::new(),
            encryption_status: EncryptionStatus::Strong,
            token_security: TokenSecurityStatus::Secure,
            active_threats: Vec::new(),
            recommendations: Vec::new(),
        }
    }
}

/// `now` holds the postures of `before` and the emergency ones, and nothing else.
pub open spec fn escalated_postures(before: Seq<ActiveDefense>, now: Seq<ActiveDefense>) -> bool {
    &&& emergency_defenses_on(now)
    &&& forall|x: ActiveDefense| #[trigger] before.contains(x) ==> now.contains(x)
    &&& forall|x: ActiveDefense| #[trigger]
        now.contains(x) ==> before.contains(x) || x == ActiveDefense::PortHoneypot || x
            == ActiveDefense::TrafficShaping || x == ActiveDefense::ConnectionLimiting
}

/// The postures that an intrusion response switches on.
pub open spec fn emergency_defenses_on(d: Seq<ActiveDefense>) -> bool {
    &&& d.contains(ActiveDefense::PortHoneypot)
    &&& d.contains(ActiveDefense::TrafficShaping)
    &&& d.contains(ActiveDefense::ConnectionLimiting)
}

pub struct HarisSecurity {
    pub name: String,
    pub version: String,
    pub threat_level: ThreatLevel,
    pub active_defenses: Vec<ActiveDefense>,
    pub firewall: Firewall,
    pub intrusion_detection: IntrusionDetectionSystem,
    pub encryption_engine: EncryptionEngine,
    pub audit_log: AuditLog,
    pub token_protection: TokenProtection,
}

impl HarisSecurity {
    pub open spec fn wf(&self) -> bool {
        &&& self.encryption_engine.wf()
        &&& self.active_defenses@.no_duplicates()
    }

    /// Whether posture `d` is on.
    pub fn has_defense(&self, d: ActiveDefense) -> (r: bool)
        ensures
            r == self.active_defenses@.contains(d),
    {
        let n = self.active_defenses.len();
        let mut i: usize = 0;
        while i < n
            invariant
                n == self.active_defenses@.len(),
                0 <= i <= n,
                forall|j: int| 0 <= j < i ==> self.active_defenses@[j] != d,
            decreases n - i,
        {
            if self.active_defenses[i] == d {
                assert(self.active_defenses@[i as int] == d);
                return true;
            }
            i = i + 1;
        }
        false
    }

    /// Switches on posture `d` unless it is already on.
    fn add_defense(&mut self, d: ActiveDefense)
        requires
            old(self).active_defenses@.no_duplicates(),
        ensures
            final(self).active_defenses@.no_duplicates(),
            final(self).active_defenses@ == (if old(self).active_defenses@.contains(d) {
                old(self).active_defenses@
            } else {
                old(self).active_defenses@.push(d)
            }),
            final(self).active_defenses@.contains(d),
            forall|x: ActiveDefense| #[trigger]
                old(self).active_defenses@.contains(x) ==> final(self).active_defenses@.contains(x),
            forall|x: ActiveDefense| #[trigger]
                final(self).active_defenses@.contains(x) ==> old(self).active_defenses@.contains(x)
                    || x == d,
            final(self).threat_level == old(self).threat_level,
            final(self).firewall == old(self).firewall,
            final(self).intrusion_detection == old(self).intrusion_detection,
            final(self).encryption_engine == old(self).encryption_engine,
            final(self).audit_log == old(self).audit_log,
            final(self).token_protection == old(self).token_protection,
    {
        if self.has_defense(d) {
            return;
        }
        let ghost pre = self.active_defenses@;
        self.active_defenses.push(d);
        assert(self.active_defenses@[pre.len() as int] == d);
        assert forall|x: ActiveDefense| #[trigger] pre.contains(x) implies self.active_defenses@.contains(x) by {
            let j = choose|j: int| 0 <= j < pre.len() && pre[j] == x;
            assert(self.active_defenses@[j] == x);
        }
        assert forall|x: ActiveDefense| #[trigger] self.active_defenses@.contains(x) implies pre.contains(x)
            || x == d by {
            let j = choose|j: int| 0 <= j < self.active_defenses@.len() && self.active_defenses@[j] == x;
            if j < pre.len() {
                assert(pre[j] == x);
            }
        }
        assert forall|a: int, b: int|
            0 <= a < b < self.active_defenses@.len() implies self.active_defenses@[a]
            != self.active_defenses@[b] by {
            if b == pre.len() {
                assert(pre[a] != d);
            }
        }
    }

    /// Standing postures of a healthy system.
    fn activate_defenses(&mut self)
        requires
            old(self).active_defenses@.no_duplicates(),
        ensures
            final(self).active_defenses@.no_duplicates(),
            final(self).active_defenses@.contains(ActiveDefense::RateLimiting),
            final(self).active_defenses@.contains(ActiveDefense::ProtocolValidation),
            forall|d: ActiveDefense| #[trigger]
                old(self).active_defenses@.contains(d) ==> final(self).active_defenses@.contains(d),
            final(self).threat_level == old(self).threat_level,
            final(self).firewall == old(self).firewall,
            final(self).intrusion_detection == old(self).intrusion_detection,
            final(self).encryption_engine == old(self).encryption_engine,
            final(self).audit_log == old(self).audit_log,
            final(self).token_protection == old(self).token_protection,
    {
        self.add_defense(ActiveDefense::RateLimiting);
        self.add_defense(ActiveDefense::ProtocolValidation);
    }
}

impl HarisSecurity {
    /// Raises the threat level to critical and switches on the emergency postures.
    fn activate_emergency_defenses(&mut self)
        requires
            old(self).active_defenses@.no_duplicates(),
        ensures
            final(self).active_defenses@.no_duplicates(),
            escalated_postures(old(self).active_defenses@, final(self).active_defenses@),
            final(self).threat_level == ThreatLevel::Critical,
            final(self).firewall == old(self).firewall,
            final(self).intrusion_detection == old(self).intrusion_detection,
            final(self).encryption_engine == old(self).encryption_engine,
            final(self).audit_log == old(self).audit_log,
            final(self).token_protection == old(self).token_protection,
    {
        self.threat_level = ThreatLevel::Critical;
        self.add_defense(ActiveDefense::PortHoneypot);
        self.add_defense(ActiveDefense::TrafficShaping);
        self.add_defense(ActiveDefense::ConnectionLimiting);
    }

    /// The intrusion response, as one transition: block the source for good, go to
    /// critical, switch on the emergency postures, and write an audit entry.
    fn respond_to_intrusion(&mut self, p: &NetworkPacket)
        requires
            old(self).wf(),
        ensures
            final(self).wf(),
            final(self).firewall.blocked() == old(self).firewall.blocked().insert(p.source),
            final(self).firewall.allowed() == old(self).firewall.allowed(),
            final(self).firewall.rules() == old(self).firewall.rules(),
            final(self).firewall.active() == old(self).firewall.active(),
            final(self).threat_level == ThreatLevel::Critical,
            escalated_postures(old(self).active_defenses@, final(self).active_defenses@),
            final(self).audit_log.events() == old(self).audit_log.events().push(
                AuditEvent::IntrusionDetected(*p),
            ),
            final(self).intrusion_detection == old(self).intrusion_detection,
            final(self).encryption_engine == old(self).encryption_engine,
            final(self).token_protection == old(self).token_protection,
    {
        let ghost pre = self.active_defenses@;
        self.firewall.block_ip(p.source);
        assert(self.active_defenses@ == pre);
        self.activate_emergency_defenses();
        self.audit_log.record(AuditEvent::IntrusionDetected(*p));

    }

    /// Runs `p` through the firewall and, if it passes, through the intrusion detector.
    /// A packet that the firewall rejects is logged and, like one that the detector flags,
    /// sets off the intrusion response against its source. Returns whether `p` may pass.
    pub fn monitor_network(&mut self, p: &NetworkPacket) -> (r: bool)
        requires
            old(self).wf(),
        ensures
            final(self).wf(),
            r == (old(self).firewall.accepts(*p) && !old(self).intrusion_detection.flags(*p)),
            r ==> final(self).firewall.blocked() == old(self).firewall.blocked(),
            r ==> final(self).threat_level == old(self).threat_level,
            r ==> final(self).active_defenses@ == old(self).active_defenses@,
            !r ==> {
                &&& final(self).firewall.blocked() == old(self).firewall.blocked().insert(p.source)
                &&& final(self).threat_level == ThreatLevel::Critical
                &&& escalated_postures(old(self).active_defenses@, final(self).active_defenses@)
            },
            forall|x: ActiveDefense| #[trigger]
                old(self).active_defenses@.contains(x) ==> final(self).active_defenses@.contains(x),
            final(self).audit_log.events() == old(self).audit_log.events() + (if !old(self).firewall.accepts(*p) {
                seq![AuditEvent::BlockedPacket(*p), AuditEvent::IntrusionDetected(*p)]
            } else if old(self).intrusion_detection.flags(*p) {
                seq![AuditEvent::IntrusionDetected(*p)]
            } else {
                Seq::empty()
            }),
            final(self).firewall.allowed() == old(self).firewall.allowed(),
            final(self).firewall.rules() == old(self).firewall.rules(),
            final(self).firewall.active() == old(self).firewall.active(),
            final(self).intrusion_detection.signatures() == old(self).intrusion_detection.signatures(),
            final(self).intrusion_detection.running() == old(self).intrusion_detection.running(),
            final(self).encryption_engine == old(self).encryption_engine,
            final(self).token_protection == old(self).token_protection,
    {
        let ghost pre_events = self.audit_log.events();
        let ghost pre_defenses = self.active_defenses@;
        if !self.firewall.check_packet(p) {
            self.audit_log.log_blocked_packet(p);
            assert(self.active_defenses@ == pre_defenses);
            self.respond_to_intrusion(p);
            assert(self.audit_log.events() =~= pre_events + seq![
                AuditEvent::BlockedPacket(*p),
                AuditEvent::IntrusionDetected(*p),
            ]);
            return false;
        }
        if self.intrusion_detection.analyze_packet(p) {
            assert(self.active_defenses@ == pre_defenses);
            self.respond_to_intrusion(p);
            assert(self.audit_log.events() =~= pre_events + seq![AuditEvent::IntrusionDetected(*p)]);
            return false;
        }
        assert(self.audit_log.events() =~= pre_events + Seq::<AuditEvent>::empty());
        true
    }
}

impl HarisSecurity {
    /// A running service at time `now`: firewall on with the default rules, detector
    /// started, the standing postures on, the default transfer policy loaded, and the
    /// encryption engine seeded with its first key when the random source delivers.
    pub fn new(now: u64) -> (r: Self)
        ensures
            r.wf(),
            r.threat_level == ThreatLevel::Low,
            r.firewall.active(),
            is_default_rule_set(r.firewall.rules()),
            r.firewall.blocked().is_empty(),
            r.firewall.allowed().is_empty(),
            r.intrusion_detection.running(),
            r.intrusion_detection.alerts().len() == 0,
            is_default_policy(r.token_protection.rules(), MIN_TOKENS),
            r.token_protection.flagged().is_empty(),
            r.active_defenses@.contains(ActiveDefense::RateLimiting),
            r.active_defenses@.contains(ActiveDefense::ProtocolValidation),
            r.encryption_engine.message_count() == 0,
            r.encryption_engine.current_key() matches Some(id) ==> r.encryption_engine.keys().dom()
                == set![id] && id == now,
            r.encryption_engine.current_key() is None ==> r.encryption_engine.keys().is_empty(),
    {
        let mut system = HarisSecurity {
            name: "Haris".to_string(),
            version: "2.0.0".to_string(),
            threat_level: ThreatLevel::Low,
            active_defenses: Vec::new(),
            firewall: Firewall::new(),
            intrusion_detection: IntrusionDetectionSystem::new(),
            encryption_engine: EncryptionEngine::new(),
            audit_log: AuditLog::new(),
            token_protection: TokenProtection::new(),
        };
        system.initialize(now);
        assert(system.firewall.rules().subrange(0, 5) =~= system.firewall.rules());
        assert(system.token_protection.rules().subrange(0, 3) =~= system.token_protection.rules());
        system
    }

    fn initialize(&mut self, now: u64)
        requires
            old(self).wf(),
        ensures
            final(self).wf(),
            final(self).threat_level == old(self).threat_level,
            final(self).firewall.active(),
            final(self).firewall.rules().len() == old(self).firewall.rules().len() + 5,
            final(self).firewall.rules().subrange(0, old(self).firewall.rules().len() as int)
                == old(self).firewall.rules(),
            is_default_rule_set(
                final(self).firewall.rules().subrange(
                    old(self).firewall.rules().len() as int,
                    old(self).firewall.rules().len() + 5int,
                ),
            ),
            final(self).firewall.blocked() == old(self).firewall.blocked(),
            final(self).firewall.allowed() == old(self).firewall.allowed(),
            final(self).intrusion_detection.running(),
            final(self).intrusion_detection.alerts() == old(self).intrusion_detection.alerts(),
            final(self).token_protection.rules().len() == old(self).token_protection.rules().len()
                + 3,
            final(self).token_protection.rules().subrange(
                0,
                old(self).token_protection.rules().len() as int,
            ) == old(self).token_protection.rules(),
            is_default_policy(
                final(self).token_protection.rules().subrange(
                    old(self).token_protection.rules().len() as int,
                    old(self).token_protection.rules().len() + 3int,
                ),
                old(self).token_protection.min_balance_spec(),
            ),
            final(self).token_protection.flagged() == old(self).token_protection.flagged(),
            final(self).active_defenses@.contains(ActiveDefense::RateLimiting),
            final(self).active_defenses@.contains(ActiveDefense::ProtocolValidation),
            final(self).encryption_engine.message_count() == old(self).encryption_engine.message_count(),
            EncryptionEngine::retains(final(self).encryption_engine, old(self).encryption_engine),
            final(self).encryption_engine.current_key() != old(self).encryption_engine.current_key()
                ==> {
                &&& final(self).encryption_engine.current_key() matches Some(id)
                &&& final(self).encryption_engine.keys().dom() == old(
                    self
                ).encryption_engine.keys().dom().insert(id)
                &&& old(self).encryption_engine.next_key_id(now) == Some(id)
            },
            final(self).encryption_engine.current_key() == old(self).encryption_engine.current_key()
                ==> final(self).encryption_engine.keys() == old(self).encryption_engine.keys(),
    {
        self.activate_defenses();
        self.firewall.activate();
        self.intrusion_detection.start();
        match self.encryption_engine.initialize(now) {
            Ok(id) => self.audit_log.record(AuditEvent::KeyRotated(id)),
            Err(_) => {},
        }
        self.token_protection.activate();
    }

    /// Creates a fresh key at time `now` and audits the rotation.
    pub fn rotate_keys(&mut self, now: u64) -> (r: Result<u64, SecurityError>)
        requires
            old(self).wf(),
        ensures
            final(self).wf(),
            match r {
                Ok(id) => EncryptionEngine::rotated(
                    old(self).encryption_engine,
                    final(self).encryption_engine,
                    id,
                ) && final(self).audit_log.events() == old(self).audit_log.events().push(
                    AuditEvent::KeyRotated(id),
                ),
                Err(_) => final(self).encryption_engine.keys() == old(self).encryption_engine.keys()
                    && final(self).encryption_engine.current_key() == old(self).encryption_engine.current_key() && final(self).audit_log == old(self).audit_log,
            },
            final(self).encryption_engine.message_count() == old(self).encryption_engine.message_count(),
            final(self).firewall == old(self).firewall,
            final(self).threat_level == old(self).threat_level,
    {
        let r = self.encryption_engine.rotate(now);
        if let Ok(id) = r {
            self.audit_log.record(AuditEvent::KeyRotated(id));
        }
        r
    }

    /// Seals `data` under the current key.
    pub fn encrypt_data(&mut self, data: &[u8]) -> (r: Result<EncryptedData, SecurityError>)
        requires
            old(self).wf(),
        ensures
            final(self).wf(),
            match r {
                Ok(rec) => EncryptionEngine::encrypted(
                    old(self).encryption_engine,
                    final(self).encryption_engine,
                    data@,
                    rec,
                ),
                Err(e) => final(self).encryption_engine.keys() == old(self).encryption_engine.keys()
                    && final(self).encryption_engine.current_key() == old(self).encryption_engine.current_key() && final(self).encryption_engine.message_count()
                    == old(self).encryption_engine.message_count() && (e == SecurityError::KeyNotFound
                    || e == SecurityError::EncryptionFailed) && (e == SecurityError::KeyNotFound
                    <==> old(self).encryption_engine.current_key() is None) && (e
                    == SecurityError::EncryptionFailed <==> old(
                    self
                ).encryption_engine.current_key() is Some && (old(
                    self
                ).encryption_engine.message_count() == u64::MAX || data@.len() > MAX_PLAINTEXT)),
            },
            final(self).firewall == old(self).firewall,
            final(self).threat_level == old(self).threat_level,
    {
        self.encryption_engine.encrypt(data)
    }

    /// Opens `rec` with the retained key that it names.
    pub fn decrypt_data(&self, rec: &EncryptedData) -> (r: Result<Vec<u8>, SecurityError>)
        requires
            self.wf(),
        ensures
            match r {
                Ok(p) => self.encryption_engine.decrypt_spec(*rec) == Ok::<Seq<u8>, SecurityError>(p@),
                Err(e) => self.encryption_engine.decrypt_spec(*rec) == Err::<Seq<u8>, SecurityError>(e),
            },
    {
        self.encryption_engine.decrypt(rec)
    }

    /// Whether the transfer policy lets `tx` through; a block-and-alert verdict is audited.
    pub fn protect_token_transaction(&mut self, tx: &TokenTransaction) -> (r: bool)
        ensures
            r == old(self).token_protection.accepts(*tx),
            final(self).audit_log.events() == (if old(self).token_protection.decision(*tx) == Some(
                TokenAction::BlockAndAlert,
            ) {
                old(self).audit_log.events().push(AuditEvent::TransactionRejected(*tx))
            } else {
                old(self).audit_log.events()
            }),
            final(self).token_protection == old(self).token_protection,
            final(self).firewall == old(self).firewall,
            final(self).encryption_engine == old(self).encryption_engine,
            final(self).active_defenses == old(self).active_defenses,
            final(self).threat_level == old(self).threat_level,
    {
        match self.token_protection.evaluate(tx) {
            None => true,
            Some(a) => {
                if a == TokenAction::BlockAndAlert {
                    self.audit_log.record(AuditEvent::TransactionRejected(*tx));
                }
                false
            },
        }
    }

    /// A snapshot: threat level, firewall and encryption state, the detector's alerts
    /// (each one an active threat), whether transfer rules are loaded, and what to fix.
    pub fn scan_system(&self) -> (r: SecurityReport)
        ensures
            r.threat_level == self.threat_level,
            r.firewall_status == (if self.firewall.active() {
                FirewallStatus::Active
            } else {
                FirewallStatus::Inactive
            }),
            r.ids_alerts@ == self.intrusion_detection.alerts(),
            r.active_threats@ == self.intrusion_detection.alerts(),
            r.encryption_status == (if self.encryption_engine.current_key() is Some {
                EncryptionStatus::Strong
            } else {
                EncryptionStatus::NoKey
            }),
            r.token_security == (if self.token_protection.rules().len() > 0 {
                TokenSecurityStatus::Secure
            } else {
                TokenSecurityStatus::Unprotected
            }),
            r.recommendations@.len() == 0,
    {
        let mut report = SecurityReport::new();
        report.threat_level = self.threat_level;
        let fw_on = self.firewall.is_active();
        report.firewall_status = if fw_on {
            FirewallStatus::Active
        } else {
            FirewallStatus::Inactive
        };
        report.ids_alerts = self.intrusion_detection.get_alerts();
        report.active_threats = self.intrusion_detection.get_alerts();
        let keyed = self.encryption_engine.get_current_key_id().is_some();
        report.encryption_status = if keyed {
            EncryptionStatus::Strong
        } else {
            EncryptionStatus::NoKey
        };
        let ruled = self.token_protection.rule_count() > 0;
        report.token_security = if ruled {
            TokenSecurityStatus::Secure
        } else {
            TokenSecurityStatus::Unprotected
        };
        report
    }
}

/// Intrusion escalation is permanent: once the response has blocked a source, every later
/// packet from it is rejected, whatever the rules and the allow set hold, on every later
/// state (no operation of the service shrinks the block set).
pub proof fn lemma_escalation_permanent(fired: HarisSecurity, later: HarisSecurity, q: NetworkPacket)
    requires
        fired.firewall.blocked().contains(q.source),
        fired.firewall.blocked().subset_of(later.firewall.blocked()),
    ensures
        !later.firewall.accepts(q),
{
}

} // verus!
