//! What the bridge reports of each successful call, and the ledger moves it asks for.

use vstd::prelude::*;
use crate::address::{Address, Hash32};
use crate::registry::TokenConfig;
use crate::u256::U256;

verus! {

/// A movement on a token's fungible ledger, seen from the bridge.
#[derive(Clone, Copy, Debug, PartialEq)]
pub enum LedgerOp {
    /// Pull `amount` of `token` from `owner` into the bridge's custody.
    TransferFrom { token: Address, owner: Address, amount: U256 },
    /// Send `amount` of `token` from the bridge's custody to `recipient`.
    Transfer { token: Address, recipient: Address, amount: U256 },
    /// Create `amount` of `token` for `recipient`.
    Mint { token: Address, recipient: Address, amount: U256 },
    /// Destroy `amount` of `token` held by `owner`.
    Burn { token: Address, owner: Address, amount: U256 },
}

/// Outbound lock of a canonical token; `amount` is net of `fee`.
#[derive(Debug, PartialEq)]
pub struct LockedCanonical {
    pub token: Address,
    pub sender: Address,
    pub recipient: Address,
    pub amount: U256,
    pub fee: U256,
    pub destination_chain: String,
    pub nonce: u64,
}

/// Outbound burn of a wrapped token; `amount` is net of `fee`.
#[derive(Debug, PartialEq)]
pub struct BurnedWrapped {
    pub token: Address,
    pub sender: Address,
    pub recipient: Address,
    pub amount: U256,
    pub fee: U256,
    pub destination_chain: String,
    pub nonce: u64,
}

/// Inbound mint of a wrapped token, settling the remote event `event_id`.
#[derive(Debug, PartialEq)]
pub struct MintedWrapped {
    pub token: Address,
    pub recipient: Address,
    pub amount: U256,
    pub source_chain: String,
    pub event_id: Hash32,
}

/// Inbound unlock of a canonical token, settling the remote event `event_id`.
#[derive(Debug, PartialEq)]
pub struct UnlockedCanonical {
    pub token: Address,
    pub recipient: Address,
    pub amount: U256,
    pub source_chain: String,
    pub event_id: Hash32,
}

/// A token's configuration was replaced.
#[derive(Clone, Copy, Debug, PartialEq)]
pub struct TokenConfigUpdated {
    pub token: Address,
    pub config: TokenConfig,
}

/// The fee rate changed.
#[derive(Clone, Copy, Debug, PartialEq)]
pub struct FeeParamsUpdated {
    pub old_fee_bps: u32,
    pub new_fee_bps: u32,
}

/// The fee receiver changed.
#[derive(Clone, Copy, Debug, PartialEq)]
pub struct FeeReceiverUpdated {
    pub old_receiver: Address,
    pub new_receiver: Address,
}

/// A successful settlement call: the ledger moves to perform, in order, and its event.
#[derive(Debug, PartialEq)]
pub struct Settlement<E> {
    pub ledger: Vec<LedgerOp>,
    pub event: E,
}

} // verus!
