//! Packet filter: permanent block and allow sets, then an ordered rule list
//! where the first matching rule decides, and rejection when none matches.
use std::collections::BTreeSet;
use vstd::prelude::*;

verus! {

broadcast use vstd::laws_cmp::group_laws_cmp;

/// Transport protocol of a packet or of a rule (`Any` in a rule matches every protocol).
#[derive(Debug, Clone, Copy, PartialEq, Eq, Structural)]
pub enum Protocol {
    Any,
    TCP,
    UDP,
    ICMP,
}

/// Direction of traffic relative to the protected host.
#[derive(Debug, Clone, Copy, PartialEq, Eq, Structural)]
pub enum Direction {
    Inbound,
    Outbound,
}

/// What a filter rule does with the traffic that it matches.
#[derive(Debug, Clone, Copy, PartialEq, Eq, Structural)]
pub enum RuleAction {
    Allow,
    Block,
}

/// How much the filter reports.
#[derive(Debug, Clone, Copy, PartialEq, Eq, Structural)]
pub enum LogLevel {
    Low,
    Medium,
    High,
}

/// An abstract packet as the network collaborator hands it in; addresses are IPv4
/// addresses as 32-bit integers.
#[derive(Debug, Clone, Copy, PartialEq, Eq, Structural)]
pub struct NetworkPacket {
    pub source: u32,
    pub destination: u32,
    pub protocol: Protocol,
    pub port: u16,
    pub direction: Direction,
}

/// One filter rule; a missing range matches every port or source address.
#[derive(Debug, Clone)]
pub struct FirewallRule {
    pub name: String,
    pub action: RuleAction,
    pub protocol: Protocol,
    pub port_range: Option<(u16, u16)>,
    pub ip_range: Option<(u32, u32)>,
    pub direction: Direction,
}

pub open spec fn in_range(r: Option<(u16, u16)>, x: u16) -> bool {
    match r {
        Some((lo, hi)) => lo <= x <= hi,
        None => true,
    }
}

pub open spec fn in_addr_range(r: Option<(u32, u32)>, x: u32) -> bool {
    match r {
        Some((lo, hi)) => lo <= x <= hi,
        None => true,
    }
}

/// Whether `rule` covers packet `p`: same direction, a compatible protocol, and the
/// port and source address inside the rule's ranges.
pub open spec fn rule_matches(rule: FirewallRule, p: NetworkPacket) -> bool {
    &&& rule.direction == p.direction
    &&& (rule.protocol == Protocol::Any || rule.protocol == p.protocol)
    &&& in_range(rule.port_range, p.port)
    &&& in_addr_range(rule.ip_range, p.source)
}

/// The verdict of the rules from index `i` on: the action of the first matching rule,
/// and rejection when none matches.
pub open spec fn verdict_from(rules: Seq<FirewallRule>, p: NetworkPacket, i: int) -> bool
    decreases rules.len() - i,
{
    if i < 0 || i >= rules.len() {
        false
    } else if rule_matches(rules[i], p) {
        rules[i].action == RuleAction::Allow
    } else {
        verdict_from(rules, p, i + 1)
    }
}

impl FirewallRule {
    pub fn matches(&self, p: &NetworkPacket) -> (r: bool)
        ensures
            r == rule_matches(*self, *p),
    {
        if self.direction != p.direction {
            return false;
        }
        if self.protocol != Protocol::Any && self.protocol != p.protocol {
            return false;
        }
        let port_ok = match self.port_range {
            Some((lo, hi)) => lo <= p.port && p.port <= hi,
            None => true,
        };
        let addr_ok = match self.ip_range {
            Some((lo, hi)) => lo <= p.source && p.source <= hi,
            None => true,
        };
        port_ok && addr_ok
    }
}

pub struct Firewall {
    rules: Vec<FirewallRule>,
    blocked_ips: BTreeSet<u32>,
    allowed_ips: BTreeSet<u32>,
    is_active: bool,
    log_level: LogLevel,
}

impl Firewall {
    pub closed spec fn rules(&self) -> Seq<FirewallRule> {
        self.rules@
    }

    pub closed spec fn blocked(&self) -> Set<u32> {
        self.blocked_ips@
    }

    pub closed spec fn allowed(&self) -> Set<u32> {
        self.allowed_ips@
    }

    pub closed spec fn active(&self) -> bool {
        self.is_active
    }

    /// The decision on `p`: the block set first, then the allow set, then the rules.
    pub open spec fn accepts(&self, p: NetworkPacket) -> bool {
        if self.blocked().contains(p.source) {
            false
        } else if self.allowed().contains(p.source) {
            true
        } else {
            verdict_from(self.rules(), p, 0)
        }
    }

    /// An inactive filter with no rules and empty address sets.
    pub fn new() -> (r: Self)
        ensures
            r.rules() == Seq::<FirewallRule>::empty(),
            r.blocked() == Set::<u32>::empty(),
            r.allowed() == Set::<u32>::empty(),
            !r.active(),
    {
        Firewall {
            rules: Vec::new(),
            blocked_ips: BTreeSet::new(),
            allowed_ips: BTreeSet::new(),
            is_active: false,
            log_level: LogLevel::High,
        }
    }

    /// Decides on `p`. A packet that neither set names and no rule matches is rejected.
    pub fn check_packet(&self, p: &NetworkPacket) -> (r: bool)
        ensures
            r == self.accepts(*p),
    {
        if self.blocked_ips.contains(&p.source) {
            return false;
        }
        if self.allowed_ips.contains(&p.source) {
            return true;
        }
        let n = self.rules.len();
        let mut i: usize = 0;
        while i < n
            invariant
                n == self.rules@.len(),
                0 <= i <= n,
                !self.blocked().contains(p.source),
                !self.allowed().contains(p.source),
                verdict_from(self.rules@, *p, 0) == verdict_from(self.rules@, *p, i as int),
            decreases n - i,
        {
            if self.rules[i].matches(p) {
                assert(rule_matches(self.rules@[i as int], *p));
                return self.rules[i].action == RuleAction::Allow;
            }
            i = i + 1;
        }
        false
    }
}


/// Whether `r` has the given action, protocol, port range and direction, for every source.
pub open spec fn has_shape(
    r: FirewallRule,
    action: RuleAction,
    protocol: Protocol,
    ports: Option<(u16, u16)>,
    direction: Direction,
) -> bool {
    &&& r.action == action
    &&& r.protocol == protocol
    &&& r.port_range == ports
    &&& r.ip_range is None
    &&& r.direction == direction
}

/// The default rules in evaluation order: block inbound privileged ports, allow inbound
/// TCP/22, allow inbound TCP/80-443, block all other inbound, allow all outbound.
pub open spec fn is_default_rule_set(s: Seq<FirewallRule>) -> bool {
    &&& s.len() == 5
    &&& has_shape(s[0], RuleAction::Block, Protocol::Any, Some((0u16, 1023u16)), Direction::Inbound)
    &&& has_shape(s[1], RuleAction::Allow, Protocol::TCP, Some((22u16, 22u16)), Direction::Inbound)
    &&& has_shape(s[2], RuleAction::Allow, Protocol::TCP, Some((80u16, 443u16)), Direction::Inbound)
    &&& has_shape(s[3], RuleAction::Block, Protocol::Any, None, Direction::Inbound)
    &&& has_shape(s[4], RuleAction::Allow, Protocol::Any, None, Direction::Outbound)
}

fn rule(
    name: &str,
    action: RuleAction,
    protocol: Protocol,
    port_range: Option<(u16, u16)>,
    direction: Direction,
) -> (r: FirewallRule)
    ensures
        has_shape(r, action, protocol, port_range, direction),
{
    FirewallRule { name: name.to_string(), action, protocol, port_range, ip_range: None, direction }
}

impl Firewall {
    /// Turns the filter on and appends the default rules after any rules already present.
    pub fn activate(&mut self)
        ensures
            final(self).active(),
            final(self).rules().len() == old(self).rules().len() + 5int,
            final(self).rules().subrange(0, old(self).rules().len() as int) == old(self).rules(),
            is_default_rule_set(
                final(self).rules().subrange(
                    old(self).rules().len() as int,
                    old(self).rules().len() + 5int,
                ),
            ),
            final(self).blocked() == old(self).blocked(),
            final(self).allowed() == old(self).allowed(),
    {
        self.is_active = true;
        self.add_default_rules();
    }

    fn add_default_rules(&mut self)
        ensures
            final(self).is_active == old(self).is_active,
            final(self).rules().len() == old(self).rules().len() + 5int,
            final(self).rules().subrange(0, old(self).rules().len() as int) == old(self).rules(),
            is_default_rule_set(
                final(self).rules().subrange(
                    old(self).rules().len() as int,
                    old(self).rules().len() + 5int,
                ),
            ),
            final(self).blocked() == old(self).blocked(),
            final(self).allowed() == old(self).allowed(),
    {
        let ghost n = self.rules@.len();
        self.rules.push(rule("block privileged ports", RuleAction::Block, Protocol::Any, Some((0, 1023)), Direction::Inbound));
        self.rules.push(rule("allow ssh", RuleAction::Allow, Protocol::TCP, Some((22, 22)), Direction::Inbound));
        self.rules.push(rule("allow web", RuleAction::Allow, Protocol::TCP, Some((80, 443)), Direction::Inbound));
        self.rules.push(rule("default inbound policy", RuleAction::Block, Protocol::Any, None, Direction::Inbound));
        self.rules.push(rule("allow outbound", RuleAction::Allow, Protocol::Any, None, Direction::Outbound));
        assert(self.rules@.subrange(0, n as int) =~= old(self).rules@);
        let ghost d = self.rules@.subrange(n as int, n + 5int);
        assert(d[0] == self.rules@[n as int]);
        assert(d[4] == self.rules@[n + 4int]);
    }

    /// Appends `rule` at the end of the evaluation order.
    pub fn add_rule(&mut self, rule: FirewallRule)
        ensures
            final(self).rules() == old(self).rules().push(rule),
            final(self).blocked() == old(self).blocked(),
            final(self).allowed() == old(self).allowed(),
            final(self).active() == old(self).active(),
    {
        self.rules.push(rule);
    }

    /// Adds `ip` to the permanent block set, which every later check consults first.
    pub fn block_ip(&mut self, ip: u32)
        ensures
            final(self).blocked() == old(self).blocked().insert(ip),
            final(self).allowed() == old(self).allowed(),
            final(self).rules() == old(self).rules(),
            final(self).active() == old(self).active(),
    {
        self.blocked_ips.insert(ip);
    }

    /// Adds `ip` to the permanent allow set, consulted after the block set.
    pub fn allow_ip(&mut self, ip: u32)
        ensures
            final(self).allowed() == old(self).allowed().insert(ip),
            final(self).blocked() == old(self).blocked(),
            final(self).rules() == old(self).rules(),
            final(self).active() == old(self).active(),
    {
        self.allowed_ips.insert(ip);
    }

    pub fn is_active(&self) -> (r: bool)
        ensures
            r == self.active(),
    {
        self.is_active
    }

    pub fn rule_count(&self) -> (r: usize)
        ensures
            r == self.rules().len(),
    {
        self.rules.len()
    }
}

proof fn lemma_no_match_from(rules: Seq<FirewallRule>, p: NetworkPacket, i: int)
    requires
        0 <= i,
        forall|j: int| i <= j < rules.len() ==> !rule_matches(#[trigger] rules[j], p),
    ensures
        !verdict_from(rules, p, i),
    decreases rules.len() - i,
{
    if i < rules.len() {
        lemma_no_match_from(rules, p, i + 1);
    }
}

/// Default deny: a packet from a source in neither address set that no rule matches
/// is rejected, whatever the rules hold.
pub proof fn lemma_default_deny(fw: Firewall, p: NetworkPacket)
    requires
        !fw.blocked().contains(p.source),
        !fw.allowed().contains(p.source),
        forall|j: int| 0 <= j < fw.rules().len() ==> !rule_matches(#[trigger] fw.rules()[j], p),
    ensures
        !fw.accepts(p),
{
    lemma_no_match_from(fw.rules(), p, 0);
}

/// Under the default rules alone every inbound packet is rejected unless its source is on
/// the allow list: the privileged-port block comes first and covers the ports that the
/// SSH and web rules name, and the catch-all block covers the rest.
pub proof fn lemma_default_rules_deny_inbound(fw: Firewall, p: NetworkPacket)
    requires
        is_default_rule_set(fw.rules()),
        !fw.allowed().contains(p.source),
        p.direction == Direction::Inbound,
    ensures
        !fw.accepts(p),
{
    let r = fw.rules();
    if !fw.blocked().contains(p.source) {
        if !rule_matches(r[0], p) {
            assert(p.port > 1023);
            assert(!rule_matches(r[1], p));
            assert(!rule_matches(r[2], p));
            assert(rule_matches(r[3], p));
            assert(verdict_from(r, p, 3) == false);
            assert(verdict_from(r, p, 2) == false);
            assert(verdict_from(r, p, 1) == false);
        }
    }
}

/// First match wins: when rule `i` is the first rule to match `p`, its action decides.
pub proof fn lemma_first_match_wins(fw: Firewall, p: NetworkPacket, i: int)
    requires
        !fw.blocked().contains(p.source),
        !fw.allowed().contains(p.source),
        0 <= i < fw.rules().len(),
        rule_matches(fw.rules()[i], p),
        forall|j: int| 0 <= j < i ==> !rule_matches(#[trigger] fw.rules()[j], p),
    ensures
        fw.accepts(p) == (fw.rules()[i].action == RuleAction::Allow),
    decreases i,
{
    lemma_first_match_from(fw.rules(), p, 0, i);
}

proof fn lemma_first_match_from(rules: Seq<FirewallRule>, p: NetworkPacket, k: int, i: int)
    requires
        0 <= k <= i < rules.len(),
        rule_matches(rules[i], p),
        forall|j: int| k <= j < i ==> !rule_matches(#[trigger] rules[j], p),
    ensures
        verdict_from(rules, p, k) == (rules[i].action == RuleAction::Allow),
    decreases i - k,
{
    if k < i {
        lemma_first_match_from(rules, p, k + 1, i);
    }
}

} // verus!
