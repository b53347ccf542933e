//! A security-gated token ledger: a packet filter with intrusion response, a
//! key-rotating authenticated-encryption engine, a rule engine for transfers,
//! and the wallet ledger that these guard; besides them, the service's operating
//! account, and the plain bookkeeping of the desktop, browser ad blocking and the
//! assistant's personality profiles.
use vstd::prelude::*;

pub mod adblock;
pub mod codec;
pub mod crypto;
pub mod desktop;
pub mod firewall;
pub mod guard;
pub mod ledger;
pub mod operator;
pub mod persona;
pub mod tokens;

verus! {

/// Smallest balance that a non-reserve wallet may keep after a transfer.
pub const MIN_TOKENS: u32 = 100;

/// Name of the token that balances are counted in.
pub const TOKEN_NAME: &'static str = "INSAN";

/// Address of the token's contract.
pub const CONTRACT_ADDRESS: &'static str = "0xa23D57f128Df2517517CA0c195C5159d81324711";

} // verus!
