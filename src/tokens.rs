//! Transaction policy: an ordered list of (condition, action) rules where the first
//! rule whose condition holds decides, and a transfer that no rule matches passes.
use crate::{CONTRACT_ADDRESS, MIN_TOKENS};
use std::collections::BTreeSet;
use vstd::prelude::*;

verus! {

broadcast use vstd::laws_cmp::group_laws_cmp;

/// Transfers above this amount need an approval, which this core never grants.
pub const LARGE_TRANSFER: u32 = 1000;

/// What a matching rule does with a transfer; each one stops it.
#[derive(Debug, Clone, Copy, PartialEq, Eq, Structural)]
pub enum TokenAction {
    /// Reject: the system-wide floor is breached.
    BlockSystem,
    /// Reject until approved; no approval queue exists, so this rejects outright.
    RequireApproval,
    /// Reject and raise an audit alert.
    BlockAndAlert,
}

/// A predicate over a pending transfer.
#[derive(Debug, Clone, Copy, PartialEq, Eq, Structural)]
pub enum RuleCondition {
    /// The sender's balance is below the amount.
    BalanceLessThan(u32),
    /// The transfer moves more than the amount.
    TransferGreaterThan(u32),
    /// Sender or receiver has been reported by the outside detector.
    SuspiciousPattern,
}

#[derive(Debug, Clone)]
pub struct TokenRule {
    pub name: String,
    pub condition: RuleCondition,
    pub action: TokenAction,
}

/// A pending transfer as the policy sees it.
#[derive(Debug, Clone, Copy, PartialEq, Eq, Structural)]
pub struct TokenTransaction {
    pub from: u32,
    pub to: u32,
    pub amount: u32,
    pub sender_balance: u32,
}

/// Whether condition `c` holds of `tx` when `flagged` holds the reported wallets.
pub open spec fn condition_holds(c: RuleCondition, tx: TokenTransaction, flagged: Set<u32>) -> bool {
    match c {
        RuleCondition::BalanceLessThan(n) => tx.sender_balance < n,
        RuleCondition::TransferGreaterThan(n) => tx.amount > n,
        RuleCondition::SuspiciousPattern => flagged.contains(tx.from) || flagged.contains(tx.to),
    }
}

/// The action of the first rule from index `i` on whose condition holds.
pub open spec fn first_action_from(
    rules: Seq<TokenRule>,
    tx: TokenTransaction,
    flagged: Set<u32>,
    i: int,
) -> Option<TokenAction>
    decreases rules.len() - i,
{
    if i < 0 || i >= rules.len() {
        None
    } else if condition_holds(rules[i].condition, tx, flagged) {
        Some(rules[i].action)
    } else {
        first_action_from(rules, tx, flagged, i + 1)
    }
}

/// The default rules in evaluation order, for floor `floor`.
pub open spec fn is_default_policy(s: Seq<TokenRule>, floor: u32) -> bool {
    &&& s.len() == 3
    &&& s[0].condition == RuleCondition::BalanceLessThan(floor)
    &&& s[0].action == TokenAction::BlockSystem
    &&& s[1].condition == RuleCondition::TransferGreaterThan(LARGE_TRANSFER)
    &&& s[1].action == TokenAction::RequireApproval
    &&& s[2].condition == RuleCondition::SuspiciousPattern
    &&& s[2].action == TokenAction::BlockAndAlert
}

pub struct TokenProtection {
    contract_address: String,
    min_balance: u32,
    security_rules: Vec<TokenRule>,
    flagged_wallets: BTreeSet<u32>,
}

impl TokenProtection {
    pub closed spec fn rules(&self) -> Seq<TokenRule> {
        self.security_rules@
    }

    /// Wallets that the outside detector has reported.
    pub closed spec fn flagged(&self) -> Set<u32> {
        self.flagged_wallets@
    }

    pub closed spec fn min_balance_spec(&self) -> u32 {
        self.min_balance
    }

    /// The action of the first rule that matches `tx`, if any.
    pub open spec fn decision(&self, tx: TokenTransaction) -> Option<TokenAction> {
        first_action_from(self.rules(), tx, self.flagged(), 0)
    }

    /// A transfer passes exactly when no rule matches it.
    pub open spec fn accepts(&self, tx: TokenTransaction) -> bool {
        self.decision(tx) is None
    }

    /// A policy with no rules and no reported wallets; its floor is the system minimum.
    pub fn new() -> (r: Self)
        ensures
            r.rules() == Seq::<TokenRule>::empty(),
            r.flagged() == Set::<u32>::empty(),
            r.min_balance_spec() == MIN_TOKENS,
    {
        TokenProtection {
            contract_address: CONTRACT_ADDRESS.to_string(),
            min_balance: MIN_TOKENS,
            security_rules: Vec::new(),
            flagged_wallets: BTreeSet::new(),
        }
    }

    /// Appends the default rules: block senders below the floor, hold transfers above
    /// `LARGE_TRANSFER` for approval, block and alert on reported wallets.
    pub fn activate(&mut self)
        ensures
            final(self).rules().len() == old(self).rules().len() + 3,
            final(self).rules().subrange(0, old(self).rules().len() as int) == old(self).rules(),
            is_default_policy(
                final(self).rules().subrange(
                    old(self).rules().len() as int,
                    old(self).rules().len() + 3int,
                ),
                old(self).min_balance_spec(),
            ),
            final(self).flagged() == old(self).flagged(),
            final(self).min_balance_spec() == old(self).min_balance_spec(),
    {
        self.add_security_rules();
    }

    fn add_security_rules(&mut self)
        ensures
            final(self).rules().len() == old(self).rules().len() + 3,
            final(self).rules().subrange(0, old(self).rules().len() as int) == old(self).rules(),
            is_default_policy(
                final(self).rules().subrange(
                    old(self).rules().len() as int,
                    old(self).rules().len() + 3int,
                ),
                old(self).min_balance_spec(),
            ),
            final(self).flagged() == old(self).flagged(),
            final(self).min_balance_spec() == old(self).min_balance_spec(),
    {
        self.security_rules.push(TokenRule {
            name: "minimum balance".to_string(),
            condition: RuleCondition::BalanceLessThan(self.min_balance),
            action: TokenAction::BlockSystem,
        });
        self.security_rules.push(TokenRule {
            name: "maximum transfer".to_string(),
            condition: RuleCondition::TransferGreaterThan(LARGE_TRANSFER),
            action: TokenAction::RequireApproval,
        });
        self.security_rules.push(TokenRule {
            name: "suspicious activity".to_string(),
            condition: RuleCondition::SuspiciousPattern,
            action: TokenAction::BlockAndAlert,
        });
        let ghost n = old(self).security_rules@.len();
        assert(self.security_rules@.subrange(0, n as int) =~= old(self).security_rules@);
        let ghost d = self.security_rules@.subrange(n as int, n + 3int);
        assert(d[0] == self.security_rules@[n as int]);
        assert(d[2] == self.security_rules@[n + 2int]);
    }

    /// Appends `rule` at the end of the evaluation order.
    pub fn add_rule(&mut self, rule: TokenRule)
        ensures
            final(self).rules() == old(self).rules().push(rule),
            final(self).flagged() == old(self).flagged(),
            final(self).min_balance_spec() == old(self).min_balance_spec(),
    {
        self.security_rules.push(rule);
    }

    pub fn rule_count(&self) -> (r: usize)
        ensures
            r == self.rules().len(),
    {
        self.security_rules.len()
    }

    /// Records that the outside detector reported `wallet`.
    pub fn report_suspicious(&mut self, wallet: u32)
        ensures
            final(self).flagged() == old(self).flagged().insert(wallet),
            final(self).rules() == old(self).rules(),
            final(self).min_balance_spec() == old(self).min_balance_spec(),
    {
        self.flagged_wallets.insert(wallet);
    }

    fn condition_met(&self, c: RuleCondition, tx: &TokenTransaction) -> (r: bool)
        ensures
            r == condition_holds(c, *tx, self.flagged()),
    {
        match c {
            RuleCondition::BalanceLessThan(n) => tx.sender_balance < n,
            RuleCondition::TransferGreaterThan(n) => tx.amount > n,
            RuleCondition::SuspiciousPattern => self.flagged_wallets.contains(&tx.from)
                || self.flagged_wallets.contains(&tx.to),
        }
    }

    /// The action of the first rule that matches `tx`, if any.
    pub fn evaluate(&self, tx: &TokenTransaction) -> (r: Option<TokenAction>)
        ensures
            r == self.decision(*tx),
    {
        let n = self.security_rules.len();
        let mut i: usize = 0;
        while i < n
            invariant
                n == self.security_rules@.len(),
                0 <= i <= n,
                first_action_from(self.rules(), *tx, self.flagged(), 0) == first_action_from(
                    self.rules(),
                    *tx,
                    self.flagged(),
                    i as int,
                ),
            decreases n - i,
        {
            if self.condition_met(self.security_rules[i].condition, tx) {
                return Some(self.security_rules[i].action);
            }
            i = i + 1;
        }
        None
    }

    /// Whether `tx` may proceed: any matching rule rejects it; a transfer that no rule
    /// matches passes.
    pub fn validate_transaction(&self, tx: &TokenTransaction) -> (r: bool)
        ensures
            r == self.accepts(*tx),
    {
        self.evaluate(tx).is_none()
    }
}

} // verus!
