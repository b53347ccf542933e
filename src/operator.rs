//! The service's own operating account. When its balance falls below the minimum the
//! service goes into a locked state that refuses every debit; a top-up that restores
//! the balance clears the lock.
use crate::{CONTRACT_ADDRESS, MIN_TOKENS};
use vstd::prelude::*;

verus! {

/// Balance the operating account starts with.
pub const INITIAL_OPERATING_TOKENS: u32 = 150;

pub struct TokenManager {
    contract_address: String,
    min_tokens: u32,
    current_tokens: u32,
    is_locked: bool,
    last_check: u64,
}

impl TokenManager {
    pub closed spec fn balance(&self) -> u32 {
        self.current_tokens
    }

    pub closed spec fn minimum(&self) -> u32 {
        self.min_tokens
    }

    pub closed spec fn locked(&self) -> bool {
        self.is_locked
    }

    /// An unlocked account holding `INITIAL_OPERATING_TOKENS`, with the system minimum.
    pub fn new() -> (r: Self)
        ensures
            r.balance() == INITIAL_OPERATING_TOKENS,
            r.minimum() == MIN_TOKENS,
            !r.locked(),
    {
        TokenManager {
            contract_address: CONTRACT_ADDRESS.to_string(),
            min_tokens: MIN_TOKENS,
            current_tokens: INITIAL_OPERATING_TOKENS,
            is_locked: false,
            last_check: 0,
        }
    }

    /// Locks the account when its balance is below the minimum and unlocks it otherwise;
    /// returns whether it is usable.
    pub fn check_tokens(&mut self) -> (r: bool)
        ensures
            r == (old(self).balance() >= old(self).minimum()),
            final(self).locked() == !r,
            final(self).balance() == old(self).balance(),
            final(self).minimum() == old(self).minimum(),
    {
        if self.current_tokens < self.min_tokens {
            self.is_locked = true;
            false
        } else {
            self.is_locked = false;
            true
        }
    }

    /// Debits `amount` unless the account is locked or holds less.
    pub fn use_token(&mut self, amount: u32) -> (r: bool)
        ensures
            r == (old(self).balance() >= amount && !old(self).locked()),
            final(self).balance() == (if r {
                old(self).balance() - amount
            } else {
                old(self).balance() as int
            }),
            final(self).locked() == old(self).locked(),
            final(self).minimum() == old(self).minimum(),
    {
        if self.current_tokens >= amount && !self.is_locked {
            self.current_tokens = self.current_tokens - amount;
            true
        } else {
            false
        }
    }

    /// Tops the account up by `amount`, and clears the lock once the balance is back at
    /// the minimum. Refuses, changing nothing, a top-up that would overflow the balance.
    pub fn add_tokens(&mut self, amount: u32) -> (r: bool)
        ensures
            r == (old(self).balance() + amount <= u32::MAX),
            r ==> final(self).balance() == old(self).balance() + amount,
            r ==> final(self).locked() == (old(self).locked() && final(self).balance()
                < old(self).minimum()),
            !r ==> final(self).balance() == old(self).balance() && final(self).locked() == old(
                self
            ).locked(),
            final(self).minimum() == old(self).minimum(),
    {
        if self.current_tokens > u32::MAX - amount {
            return false;
        }
        self.current_tokens = self.current_tokens + amount;
        if self.current_tokens >= self.min_tokens {
            self.is_locked = false;
        }
        true
    }

    pub fn current_tokens(&self) -> (r: u32)
        ensures
            r == self.balance(),
    {
        self.current_tokens
    }

    pub fn is_locked(&self) -> (r: bool)
        ensures
            r == self.locked(),
    {
        self.is_locked
    }
}

/// The start-up gate: refuses to start a locked or underfunded service, and otherwise
/// charges one token for the start. Returns whether the service may start.
pub fn check_token_requirement(tm: &mut TokenManager) -> (r: bool)
    ensures
        r == (old(tm).balance() >= old(tm).minimum()),
        final(tm).locked() == !r,
        final(tm).balance() == (if r && old(tm).balance() >= 1 {
            old(tm).balance() - 1
        } else {
            old(tm).balance() as int
        }),
        final(tm).minimum() == old(tm).minimum(),
{
    if !tm.check_tokens() {
        return false;
    }
    tm.use_token(1);
    true
}

/// The periodic check: true while the account holds the minimum; when it does not, the
/// account is locked and the caller must shut the service down.
pub fn check_token_balance(tm: &mut TokenManager) -> (r: bool)
    ensures
        r == (old(tm).balance() >= old(tm).minimum()),
        final(tm).locked() == !r,
        final(tm).balance() == old(tm).balance(),
        final(tm).minimum() == old(tm).minimum(),
{
    tm.check_tokens()
}

/// What the service loop does on one tick besides its every-tick work.
#[derive(Debug, Clone, Copy, PartialEq, Eq, Structural)]
pub struct TickPlan {
    pub update_security: bool,
    pub update_ai: bool,
    pub health_check: bool,
    pub check_tokens: bool,
}

/// The service loop's schedule: security every 100 ticks, the assistant every 50, a
/// health check every 500, the operating balance every 1000, all on tick 0.
pub fn plan_tick(tick: u64) -> (p: TickPlan)
    ensures
        p.update_security == (tick % 100 == 0),
        p.update_ai == (tick % 50 == 0),
        p.health_check == (tick % 500 == 0),
        p.check_tokens == (tick % 1000 == 0),
{
    TickPlan {
        update_security: tick % 100 == 0,
        update_ai: tick % 50 == 0,
        health_check: tick % 500 == 0,
        check_tokens: tick % 1000 == 0,
    }
}

} // verus!
