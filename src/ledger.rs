//! The wallet ledger: the only component that moves balances. A transfer either
//! moves both balances and appends exactly one completed transaction, or changes
//! nothing and says why.
//!
//! Fee policy: every transfer records a fee of 1% of the amount, rounded up, at
//! least 1 token. The fee is informational: it is not charged, so a transfer moves
//! exactly `amount` from sender to receiver and total balance is conserved.
use crate::codec::{le_bytes, push_le};
use crate::guard::{AuditEvent, HarisSecurity};
use crate::tokens::{TokenAction, TokenProtection, TokenTransaction};
use crate::{MIN_TOKENS, TOKEN_NAME};
use sha2::Digest;
use vstd::prelude::*;

verus! {

/// Id of the reserve wallet, which the floor does not bind.
pub const RESERVE_WALLET: u32 = 0;

#[derive(Debug, Clone, Copy, PartialEq, Eq, Structural)]
pub struct WalletId(pub u32);

#[derive(Debug, Clone, Copy, PartialEq, Eq, Structural)]
pub struct TransactionId(pub u64);

#[derive(Debug, Clone, Copy, PartialEq, Eq, Structural)]
pub enum TransactionStatus {
    Pending,
    Processing,
    Completed,
    Failed,
    Rejected,
}

#[derive(Debug, Clone, Copy, PartialEq, Eq, Structural)]
pub enum SecurityLevel {
    Low,
    Medium,
    High,
    Maximum,
}

#[derive(Debug, Clone, Copy, PartialEq, Eq, Structural)]
pub enum PaymentError {
    WalletNotFound,
    InsufficientInitialBalance,
    InsufficientBalance,
    MinimumBalanceViolation,
    SecurityViolation,
    NetworkError,
    ContractError,
    InvalidAmount,
}

#[derive(Debug)]
pub struct Wallet {
    pub id: WalletId,
    pub user_id: String,
    pub balance: u32,
    pub address: String,
    pub public_key: String,
    pub transactions: Vec<TransactionId>,
    pub created_at: u64,
}

#[derive(Debug)]
pub struct Transaction {
    pub id: TransactionId,
    pub from: WalletId,
    pub to: WalletId,
    pub amount: u32,
    pub fee: u32,
    pub timestamp: u64,
    pub status: TransactionStatus,
    pub hash: Vec<u8>,
}

/// What `Sha256::digest` returns for a byte sequence.
pub uninterp spec fn sha256_of(data: Seq<u8>) -> Seq<u8>;

/// Relies on sha2's `Sha256::digest`: the 32-byte SHA-256 digest of the input.
#[verifier::external_body]
fn sha256(data: &Vec<u8>) -> (r: Vec<u8>)
    ensures
        r@ == sha256_of(data@),
        r@.len() == 32,
{
    sha2::Sha256::digest(data.as_slice()).to_vec()
}

/// The bytes a transaction's content hash covers: sender, receiver, amount and
/// timestamp, each little-endian.
pub open spec fn tx_content(from: u32, to: u32, amount: u32, timestamp: u64) -> Seq<u8> {
    le_bytes(from as nat, 4) + le_bytes(to as nat, 4) + le_bytes(amount as nat, 4) + le_bytes(
        timestamp as nat,
        8,
    )
}

/// The fee recorded for a transfer: 1% of the amount rounded up, at least 1.
pub open spec fn fee_for(amount: u32) -> u32 {
    let c = (amount as int + 99) / 100;
    if c < 1 {
        1
    } else {
        c as u32
    }
}

/// Computes the recorded fee.
pub fn calculate_fee(amount: u32) -> (r: u32)
    ensures
        r == fee_for(amount),
{
    let c: u64 = (amount as u64 + 99) / 100;
    if c < 1 {
        1
    } else {
        c as u32
    }
}

/// Computes the content hash of a transaction.
pub fn calculate_hash(from: WalletId, to: WalletId, amount: u32, timestamp: u64) -> (r: Vec<u8>)
    ensures
        r@ == sha256_of(tx_content(from.0, to.0, amount, timestamp)),
        r@.len() == 32,
{
    let mut content: Vec<u8> = Vec::new();
    push_le(&mut content, from.0 as u64, 4);
    push_le(&mut content, to.0 as u64, 4);
    push_le(&mut content, amount as u64, 4);
    push_le(&mut content, timestamp, 8);
    assert(content@ =~= tx_content(from.0, to.0, amount, timestamp));
    sha256(&content)
}

/// Whether `tx` is the completed record of moving `amount` from `from` to `to` at `now`.
pub open spec fn is_completed_record(
    tx: Transaction,
    id: TransactionId,
    from: WalletId,
    to: WalletId,
    amount: u32,
    fee: u32,
    now: u64,
) -> bool {
    &&& tx.id == id
    &&& tx.from == from
    &&& tx.to == to
    &&& tx.amount == amount
    &&& tx.fee == fee
    &&& tx.timestamp == now
    &&& tx.status == TransactionStatus::Completed
    &&& tx.hash@ == sha256_of(tx_content(from.0, to.0, amount, now))
    &&& tx.hash@.len() == 32
}

/// `a` and `b` are the same wallet, whatever their balances and transaction lists.
pub open spec fn same_identity(a: Wallet, b: Wallet) -> bool {
    &&& a.id == b.id
    &&& a.user_id@ == b.user_id@
    &&& a.address@ == b.address@
    &&& a.public_key@ == b.public_key@
    &&& a.created_at == b.created_at
}

pub open spec fn moved(i: int, from: WalletId, to: WalletId, amount: u32, balance: u32) -> int {
    balance - (if i == from.0 {
        amount as int
    } else {
        0
    }) + (if i == to.0 {
        amount as int
    } else {
        0
    })
}

pub open spec fn noted(i: int, from: WalletId, to: WalletId, id: TransactionId) -> Seq<TransactionId> {
    (if i == from.0 {
        seq![id]
    } else {
        Seq::empty()
    }) + (if i == to.0 {
        seq![id]
    } else {
        Seq::empty()
    })
}

pub struct PaymentSystem {
    token_name: String,
    min_balance: u32,
    user_wallets: Vec<Wallet>,
    transactions: Vec<Transaction>,
    security_level: SecurityLevel,
    is_active: bool,
}

impl PaymentSystem {
    pub closed spec fn wallets(&self) -> Seq<Wallet> {
        self.user_wallets@
    }

    /// The global transaction log, oldest first.
    pub closed spec fn log(&self) -> Seq<Transaction> {
        self.transactions@
    }

    /// The minimum balance that a non-reserve sender keeps after a transfer.
    pub closed spec fn floor(&self) -> u32 {
        self.min_balance
    }

    pub closed spec fn active(&self) -> bool {
        self.is_active
    }

    /// Wallet ids are their positions; transaction ids count from 1 in log order; every
    /// logged transaction is completed.
    pub open spec fn wf(&self) -> bool {
        &&& self.wallets().len() >= 1
        &&& self.wallets().len() <= u32::MAX as int + 1
        &&& forall|i: int| 0 <= i < self.wallets().len() ==> (#[trigger] self.wallets()[i]).id.0 == i
        &&& forall|k: int|
            0 <= k < self.log().len() ==> {
                &&& (#[trigger] self.log()[k]).id.0 == k + 1
                &&& self.log()[k].status == TransactionStatus::Completed
            }
    }

    pub open spec fn has_wallet(&self, w: WalletId) -> bool {
        (w.0 as int) < self.wallets().len()
    }

    pub open spec fn balance_of(&self, w: WalletId) -> u32 {
        self.wallets()[w.0 as int].balance
    }

    /// The id that the next logged transaction gets.
    pub open spec fn next_tx_id(&self) -> TransactionId {
        TransactionId((self.log().len() + 1) as u64)
    }

    /// The transfer as the policy sees it.
    pub open spec fn pending(&self, from: WalletId, to: WalletId, amount: u32) -> TokenTransaction {
        TokenTransaction { from: from.0, to: to.0, amount, sender_balance: self.balance_of(from) }
    }

    /// Whether a transfer passes the ledger's own checks and goes on to the policy.
    pub open spec fn reaches_policy(&self, from: WalletId, to: WalletId, amount: u32) -> bool {
        &&& self.has_wallet(from)
        &&& self.has_wallet(to)
        &&& self.balance_of(from) >= amount
        &&& (from.0 == RESERVE_WALLET || self.balance_of(from) - amount >= self.floor())
        &&& (from == to || self.balance_of(to) + amount <= u32::MAX)
    }

    /// How `transfer` of `amount` from `from` to `to` ends, under `policy`.
    pub open spec fn transfer_outcome(
        &self,
        policy: &TokenProtection,
        from: WalletId,
        to: WalletId,
        amount: u32,
    ) -> Result<TransactionId, PaymentError> {
        if !self.has_wallet(from) || !self.has_wallet(to) {
            Err(PaymentError::WalletNotFound)
        } else if self.balance_of(from) < amount {
            Err(PaymentError::InsufficientBalance)
        } else if from.0 != RESERVE_WALLET && self.balance_of(from) - amount < self.floor() {
            Err(PaymentError::MinimumBalanceViolation)
        } else if from != to && self.balance_of(to) + amount > u32::MAX {
            Err(PaymentError::InvalidAmount)
        } else if !policy.accepts(self.pending(from, to, amount)) {
            Err(PaymentError::SecurityViolation)
        } else {
            Ok(self.next_tx_id())
        }
    }

    /// Nothing in the ledger changed from `pre` to `post`.
    pub open spec fn unchanged(pre: Self, post: Self) -> bool {
        &&& post.wallets() == pre.wallets()
        &&& post.log() == pre.log()
        &&& post.floor() == pre.floor()
        &&& post.active() == pre.active()
    }

    /// `post` is `pre` with `amount` moved from `from` to `to` at `now`, recorded as
    /// transaction `id` in both wallets' lists and at the end of the log.
    pub open spec fn transferred(
        pre: Self,
        post: Self,
        from: WalletId,
        to: WalletId,
        amount: u32,
        fee: u32,
        now: u64,
        id: TransactionId,
    ) -> bool {
        &&& post.floor() == pre.floor()
        &&& post.active() == pre.active()
        &&& post.wallets().len() == pre.wallets().len()
        &&& forall|i: int|
            0 <= i < pre.wallets().len() ==> {
                &&& same_identity(#[trigger] post.wallets()[i], pre.wallets()[i])
                &&& post.wallets()[i].balance == moved(i, from, to, amount, pre.wallets()[i].balance)
                &&& post.wallets()[i].transactions@ == pre.wallets()[i].transactions@ + noted(
                    i,
                    from,
                    to,
                    id,
                )
            }
        &&& post.log().len() == pre.log().len() + 1
        &&& post.log().subrange(0, pre.log().len() as int) == pre.log()
        &&& is_completed_record(post.log().last(), id, from, to, amount, fee, now)
    }
}

impl PaymentSystem {
    /// An inactive ledger with the system minimum as floor, an empty log and one wallet:
    /// the reserve wallet, with id 0 and balance 0.
    pub fn new() -> (r: Self)
        ensures
            r.wf(),
            r.floor() == MIN_TOKENS,
            !r.active(),
            r.log().len() == 0,
            r.wallets().len() == 1,
            r.balance_of(WalletId(RESERVE_WALLET)) == 0,
    {
        let mut user_wallets: Vec<Wallet> = Vec::new();
        user_wallets.push(
            Wallet {
                id: WalletId(RESERVE_WALLET),
                user_id: "reserve".to_string(),
                balance: 0,
                address: String::new(),
                public_key: String::new(),
                transactions: Vec::new(),
                created_at: 0,
            },
        );
        PaymentSystem {
            token_name: TOKEN_NAME.to_string(),
            min_balance: MIN_TOKENS,
            user_wallets,
            transactions: Vec::new(),
            security_level: SecurityLevel::Maximum,
            is_active: false,
        }
    }

    /// Opens the ledger for business at the strictest security level.
    pub fn activate(&mut self)
        requires
            old(self).wf(),
        ensures
            final(self).wf(),
            final(self).active(),
            final(self).wallets() == old(self).wallets(),
            final(self).log() == old(self).log(),
            final(self).floor() == old(self).floor(),
    {
        self.security_level = SecurityLevel::Maximum;
        self.is_active = true;
    }

    fn find_wallet_index(&self, id: WalletId) -> (r: Result<usize, PaymentError>)
        requires
            self.wf(),
        ensures
            match r {
                Ok(i) => self.has_wallet(id) && i == id.0,
                Err(e) => !self.has_wallet(id) && e == PaymentError::WalletNotFound,
            },
    {
        if (id.0 as usize) < self.user_wallets.len() {
            Ok(id.0 as usize)
        } else {
            Err(PaymentError::WalletNotFound)
        }
    }

    /// Opens a wallet for `user_id` holding `initial_balance`, with the given address and
    /// public key, created at `now`. Fails, adding nothing, below the floor.
    pub fn create_wallet(
        &mut self,
        user_id: &str,
        initial_balance: u32,
        address: String,
        public_key: String,
        now: u64,
    ) -> (r: Result<WalletId, PaymentError>)
        requires
            old(self).wf(),
            old(self).wallets().len() <= u32::MAX,
        ensures
            final(self).wf(),
            initial_balance < old(self).floor() ==> r == Err::<WalletId, PaymentError>(
                PaymentError::InsufficientInitialBalance,
            ) && Self::unchanged(*old(self), *final(self)),
            initial_balance >= old(self).floor() ==> {
                let w = final(self).wallets().last();
                &&& r == Ok::<WalletId, PaymentError>(WalletId(old(self).wallets().len() as u32))
                &&& final(self).wallets().len() == old(self).wallets().len() + 1
                &&& final(self).wallets().subrange(0, old(self).wallets().len() as int)
                    == old(self).wallets()
                &&& w.id == WalletId(old(self).wallets().len() as u32)
                &&& forall|i: int|
                    0 <= i < old(self).wallets().len() ==> (#[trigger] old(self).wallets()[i]).id
                        != w.id
                &&& w.user_id@ == user_id@
                &&& w.balance == initial_balance
                &&& w.address@ == address@
                &&& w.public_key@ == public_key@
                &&& w.transactions@.len() == 0
                &&& w.created_at == now
                &&& final(self).log() == old(self).log()
                &&& final(self).floor() == old(self).floor()
                &&& final(self).active() == old(self).active()
            },
    {
        if initial_balance < self.min_balance {
            return Err(PaymentError::InsufficientInitialBalance);
        }
        let id = WalletId(self.user_wallets.len() as u32);
        let wallet = Wallet {
            id,
            user_id: user_id.to_string(),
            balance: initial_balance,
            address,
            public_key,
            transactions: Vec::new(),
            created_at: now,
        };
        let ghost pre = self.user_wallets@;
        self.user_wallets.push(wallet);
        assert(self.user_wallets@.subrange(0, pre.len() as int) =~= pre);
        Ok(id)
    }

    /// The balance of wallet `wallet_id`.
    pub fn get_balance(&self, wallet_id: WalletId) -> (r: Result<u32, PaymentError>)
        requires
            self.wf(),
        ensures
            r == (if self.has_wallet(wallet_id) {
                Ok::<u32, PaymentError>(self.balance_of(wallet_id))
            } else {
                Err::<u32, PaymentError>(PaymentError::WalletNotFound)
            }),
    {
        let i = match self.find_wallet_index(wallet_id) {
            Ok(i) => i,
            Err(e) => return Err(e),
        };
        Ok(self.user_wallets[i].balance)
    }

    /// Moves `amount` from `from` to `to` at time `now`, after the security service's
    /// transfer policy has passed it (a block-and-alert verdict is audited there).
    /// Checks in order: both wallets exist, the sender holds `amount`, a non-reserve sender
    /// keeps the floor, the receiver's balance does not overflow, the policy accepts. On
    /// success both balances move and exactly one completed transaction is logged and noted
    /// in both wallets; on failure nothing changes.
    pub fn transfer(
        &mut self,
        guard: &mut HarisSecurity,
        from: WalletId,
        to: WalletId,
        amount: u32,
        now: u64,
    ) -> (r: Result<TransactionId, PaymentError>)
        requires
            old(self).wf(),
            old(self).log().len() + 1 < u64::MAX,
        ensures
            final(self).wf(),
            r == old(self).transfer_outcome(&old(guard).token_protection, from, to, amount),
            r matches Ok(id) ==> forall|k: int|
                0 <= k < old(self).log().len() ==> (#[trigger] old(self).log()[k]).id.0 < id.0,
            final(guard).audit_log.events() == (if old(self).reaches_policy(from, to, amount)
                && old(guard).token_protection.decision(old(self).pending(from, to, amount))
                == Some(TokenAction::BlockAndAlert) {
                old(guard).audit_log.events().push(
                    AuditEvent::TransactionRejected(old(self).pending(from, to, amount)),
                )
            } else {
                old(guard).audit_log.events()
            }),
            final(guard).token_protection == old(guard).token_protection,
            final(guard).firewall == old(guard).firewall,
            final(guard).encryption_engine == old(guard).encryption_engine,
            final(guard).active_defenses == old(guard).active_defenses,
            final(guard).threat_level == old(guard).threat_level,
            match r {
                Ok(id) => Self::transferred(
                    *old(self),
                    *final(self),
                    from,
                    to,
                    amount,
                    fee_for(amount),
                    now,
                    id,
                ),
                Err(_) => Self::unchanged(*old(self), *final(self)),
            },
    {
        let fi = match self.find_wallet_index(from) {
            Ok(i) => i,
            Err(e) => return Err(e),
        };
        let ti = match self.find_wallet_index(to) {
            Ok(i) => i,
            Err(e) => return Err(e),
        };
        let from_balance = self.user_wallets[fi].balance;
        if from_balance < amount {
            return Err(PaymentError::InsufficientBalance);
        }
        if from.0 != RESERVE_WALLET && from_balance - amount < self.min_balance {
            return Err(PaymentError::MinimumBalanceViolation);
        }
        if fi != ti && self.user_wallets[ti].balance > u32::MAX - amount {
            return Err(PaymentError::InvalidAmount);
        }
        let id = TransactionId(self.transactions.len() as u64 + 1);
        let mut transaction = Transaction {
            id,
            from,
            to,
            amount,
            fee: calculate_fee(amount),
            timestamp: now,
            status: TransactionStatus::Pending,
            hash: Vec::new(),
        };
        let pending = TokenTransaction {
            from: from.0,
            to: to.0,
            amount,
            sender_balance: from_balance,
        };
        if !guard.protect_token_transaction(&pending) {
            return Err(PaymentError::SecurityViolation);
        }
        let ghost pre_wallets = self.user_wallets@;
        let ghost pre_log = self.transactions@;
        self.user_wallets[fi].balance = from_balance - amount;
        let to_balance = self.user_wallets[ti].balance;
        self.user_wallets[ti].balance = to_balance + amount;
        transaction.status = TransactionStatus::Completed;
        transaction.hash = calculate_hash(from, to, amount, now);
        self.user_wallets[fi].transactions.push(id);
        self.user_wallets[ti].transactions.push(id);
        self.transactions.push(transaction);
        assert(self.transactions@.subrange(0, pre_log.len() as int) =~= pre_log);
        assert forall|i: int| 0 <= i < pre_wallets.len() implies {
            &&& same_identity(#[trigger] self.user_wallets@[i], pre_wallets[i])
            &&& self.user_wallets@[i].balance == moved(i, from, to, amount, pre_wallets[i].balance)
            &&& self.user_wallets@[i].transactions@ == pre_wallets[i].transactions@ + noted(
                i,
                from,
                to,
                id,
            )
        } by {
            assert(self.user_wallets@[i].transactions@ =~= pre_wallets[i].transactions@ + noted(
                i,
                from,
                to,
                id,
            ));
        }
        Ok(id)
    }

    /// Credits `amount` bought outside the ledger to wallet `to` at time `now`, recorded as
    /// a completed transaction from the reserve wallet with no fee. No wallet is debited,
    /// so the floor is not consulted. Fails, changing nothing, when `to` does not exist or
    /// its balance would overflow.
    pub fn credit_external(&mut self, to: WalletId, amount: u32, now: u64) -> (r: Result<
        TransactionId,
        PaymentError,
    >)
        requires
            old(self).wf(),
            old(self).log().len() + 1 < u64::MAX,
        ensures
            final(self).wf(),
            !old(self).has_wallet(to) ==> r == Err::<TransactionId, PaymentError>(
                PaymentError::WalletNotFound,
            ),
            old(self).has_wallet(to) && old(self).balance_of(to) + amount > u32::MAX ==> r
                == Err::<TransactionId, PaymentError>(PaymentError::InvalidAmount),
            old(self).has_wallet(to) && old(self).balance_of(to) + amount <= u32::MAX ==> r
                == Ok::<TransactionId, PaymentError>(old(self).next_tx_id()),
            match r {
                Ok(id) => {
                    &&& final(self).floor() == old(self).floor()
                    &&& final(self).active() == old(self).active()
                    &&& final(self).wallets().len() == old(self).wallets().len()
                    &&& forall|i: int|
                        0 <= i < old(self).wallets().len() ==> {
                            &&& same_identity(
                                #[trigger] final(self).wallets()[i],
                                old(self).wallets()[i],
                            )
                            &&& final(self).wallets()[i].balance == old(self).wallets()[i].balance
                                + (if i == to.0 {
                                amount as int
                            } else {
                                0
                            })
                            &&& final(self).wallets()[i].transactions@ == old(self).wallets()[i].transactions@ + (if i == to.0 {
                                seq![id]
                            } else {
                                Seq::empty()
                            })
                        }
                    &&& final(self).log().len() == old(self).log().len() + 1
                    &&& final(self).log().subrange(0, old(self).log().len() as int) == old(self).log()
                    &&& is_completed_record(
                        final(self).log().last(),
                        id,
                        WalletId(RESERVE_WALLET),
                        to,
                        amount,
                        0,
                        now,
                    )
                },
                Err(_) => Self::unchanged(*old(self), *final(self)),
            },
    {
        let ti = match self.find_wallet_index(to) {
            Ok(i) => i,
            Err(e) => return Err(e),
        };
        let to_balance = self.user_wallets[ti].balance;
        if to_balance > u32::MAX - amount {
            return Err(PaymentError::InvalidAmount);
        }
        let id = TransactionId(self.transactions.len() as u64 + 1);
        let ghost pre_wallets = self.user_wallets@;
        let ghost pre_log = self.transactions@;
        self.user_wallets[ti].balance = to_balance + amount;
        self.user_wallets[ti].transactions.push(id);
        let reserve = WalletId(RESERVE_WALLET);
        self.transactions.push(
            Transaction {
                id,
                from: reserve,
                to,
                amount,
                fee: 0,
                timestamp: now,
                status: TransactionStatus::Completed,
                hash: calculate_hash(reserve, to, amount, now),
            },
        );
        assert(self.transactions@.subrange(0, pre_log.len() as int) =~= pre_log);
        assert forall|i: int| 0 <= i < pre_wallets.len() implies {
            &&& same_identity(#[trigger] self.user_wallets@[i], pre_wallets[i])
            &&& self.user_wallets@[i].transactions@ == pre_wallets[i].transactions@ + (if i == to.0 {
                seq![id]
            } else {
                Seq::empty()
            })
        } by {
            if i == ti {
                assert(self.user_wallets@[i].transactions@ =~= pre_wallets[i].transactions@ + seq![id]);
            } else {
                assert(self.user_wallets@[i].transactions@ =~= pre_wallets[i].transactions@ + Seq::<TransactionId>::empty());
            }
        }
        Ok(id)
    }

    /// The logged transaction with id `id`.
    pub fn get_transaction(&self, id: TransactionId) -> (r: Option<&Transaction>)
        requires
            self.wf(),
        ensures
            r is Some <==> 1 <= id.0 <= self.log().len(),
            r matches Some(t) ==> *t == self.log()[id.0 - 1],
    {
        if id.0 >= 1 && id.0 <= self.transactions.len() as u64 {
            Some(&self.transactions[(id.0 - 1) as usize])
        } else {
            None
        }
    }

    /// The wallet with id `id`.
    pub fn get_wallet(&self, id: WalletId) -> (r: Option<&Wallet>)
        requires
            self.wf(),
        ensures
            r is Some <==> self.has_wallet(id),
            r matches Some(w) ==> *w == self.wallets()[id.0 as int],
    {
        if (id.0 as usize) < self.user_wallets.len() {
            Some(&self.user_wallets[id.0 as usize])
        } else {
            None
        }
    }

    pub fn wallet_count(&self) -> (r: usize)
        ensures
            r == self.wallets().len(),
    {
        self.user_wallets.len()
    }

    pub fn transaction_count(&self) -> (r: usize)
        ensures
            r == self.log().len(),
    {
        self.transactions.len()
    }

    pub fn min_balance(&self) -> (r: u32)
        ensures
            r == self.floor(),
    {
        self.min_balance
    }
}

/// Balance the service's own operating wallet opens with.
pub const SYSTEM_WALLET_BALANCE: u32 = 10000;

/// Builds the service ledger: activated, with the service's operating wallet (id 1)
/// opened at `now` with `SYSTEM_WALLET_BALANCE` and the given address and public key.
pub fn start_payment_system(address: String, public_key: String, now: u64) -> (r: PaymentSystem)
    ensures
        r.wf(),
        r.active(),
        r.floor() == MIN_TOKENS,
        r.wallets().len() == 2,
        r.balance_of(WalletId(RESERVE_WALLET)) == 0,
        r.balance_of(WalletId(1)) == SYSTEM_WALLET_BALANCE,
        r.wallets()[1].user_id@ == "system"@,
        r.log().len() == 0,
{
    let mut payment = PaymentSystem::new();
    payment.activate();
    let opened = payment.create_wallet("system", SYSTEM_WALLET_BALANCE, address, public_key, now);
    assert(opened is Ok);
    payment
}

/// The floor holds after every transfer: a non-reserve sender keeps at least the floor.
pub proof fn lemma_floor_kept(
    pre: PaymentSystem,
    post: PaymentSystem,
    policy: TokenProtection,
    from: WalletId,
    to: WalletId,
    amount: u32,
    now: u64,
    id: TransactionId,
)
    requires
        pre.transfer_outcome(&policy, from, to, amount) == Ok::<TransactionId, PaymentError>(id),
        PaymentSystem::transferred(pre, post, from, to, amount, fee_for(amount), now, id),
        from.0 != RESERVE_WALLET,
    ensures
        post.balance_of(from) >= post.floor(),
{
    let i = from.0 as int;
    assert(post.wallets()[i].balance == moved(i, from, to, amount, pre.wallets()[i].balance));
}

/// Atomicity, the failing side: a transfer that the checks refuse leaves every balance
/// and the log as they were, and the successful side logs exactly one completed
/// transaction and moves exactly `amount`.
pub proof fn lemma_transfer_atomic(
    pre: PaymentSystem,
    post: PaymentSystem,
    policy: TokenProtection,
    from: WalletId,
    to: WalletId,
    amount: u32,
    now: u64,
    r: Result<TransactionId, PaymentError>,
)
    requires
        r == pre.transfer_outcome(&policy, from, to, amount),
        match r {
            Ok(id) => PaymentSystem::transferred(pre, post, from, to, amount, fee_for(amount), now, id),
            Err(_) => PaymentSystem::unchanged(pre, post),
        },
    ensures
        r is Err ==> post.wallets() == pre.wallets() && post.log() == pre.log(),
        r matches Ok(id) ==> {
            &&& post.log().len() == pre.log().len() + 1
            &&& post.log().last().status == TransactionStatus::Completed
            &&& post.log().last().id == id
            &&& from != to ==> post.balance_of(from) == pre.balance_of(from) - amount
                && post.balance_of(to) == pre.balance_of(to) + amount
            &&& from == to ==> post.balance_of(from) == pre.balance_of(from)
        },
{
    if r is Ok {
        let (f, t) = (from.0 as int, to.0 as int);
        assert(post.wallets()[f].balance == moved(f, from, to, amount, pre.wallets()[f].balance));
        assert(post.wallets()[t].balance == moved(t, from, to, amount, pre.wallets()[t].balance));
    }
}

} // verus!
