//! The checks shared by the four settlement operations, and the ledger moves each one asks for.
//! They take the state they read as plain values, so a host that keeps that state
//! elsewhere can make the same decisions.

use vstd::prelude::*;
use crate::address::Address;
use crate::error::Error;
use crate::events::LedgerOp;
use crate::registry::{amount_check, validate_amount, TokenConfig};
use crate::u256::U256;

verus! {

/// The token checks: registered, whitelisted, on the expected side, amount within bounds.
pub open spec fn token_check(config: Option<TokenConfig>, canonical: bool, amount: nat) -> Result<(), Error> {
    match config {
        None => Err(Error::TokenNotWhitelisted),
        Some(c) => if !c.is_whitelisted {
            Err(Error::TokenNotWhitelisted)
        } else if c.is_canonical != canonical {
            if canonical {
                Err(Error::TokenNotCanonical)
            } else {
                Err(Error::TokenNotWrapped)
            }
        } else {
            amount_check(c, amount)
        },
    }
}

/// The checks of an outbound call (lock or burn), in order; on success, the fee receiver.
pub open spec fn outbound_check(
    paused: bool,
    config: Option<TokenConfig>,
    canonical: bool,
    amount: nat,
    fee_receiver: Option<Address>,
) -> Result<Address, Error> {
    if paused {
        Err(Error::UnpausedRequired)
    } else {
        match token_check(config, canonical, amount) {
            Err(e) => Err(e),
            Ok(_) => match fee_receiver {
                None => Err(Error::FeeReceiverNotSet),
                Some(a) => Ok(a),
            },
        }
    }
}

/// The checks of an inbound call (mint or unlock), in order.
pub open spec fn inbound_check(
    paused: bool,
    is_relayer: bool,
    already_processed: bool,
    config: Option<TokenConfig>,
    canonical: bool,
    amount: nat,
) -> Result<(), Error> {
    if paused {
        Err(Error::UnpausedRequired)
    } else if !is_relayer {
        Err(Error::MissingRole)
    } else if already_processed {
        Err(Error::EventAlreadyHandled)
    } else {
        token_check(config, canonical, amount)
    }
}

/// Checks a token's configuration for an operation on the `canonical` side.
pub fn check_token(config: Option<TokenConfig>, canonical: bool, amount: &U256) -> (r: Result<(), Error>)
    ensures
        r == token_check(config, canonical, amount.value()),
{
    match config {
        None => Err(Error::TokenNotWhitelisted),
        Some(c) => {
            if !c.is_whitelisted {
                Err(Error::TokenNotWhitelisted)
            } else if c.is_canonical != canonical {
                if canonical {
                    Err(Error::TokenNotCanonical)
                } else {
                    Err(Error::TokenNotWrapped)
                }
            } else {
                validate_amount(&c, amount)
            }
        },
    }
}

/// Checks an outbound call; on success returns the fee receiver.
pub fn check_outbound(
    paused: bool,
    config: Option<TokenConfig>,
    canonical: bool,
    amount: &U256,
    fee_receiver: Option<Address>,
) -> (r: Result<Address, Error>)
    ensures
        r == outbound_check(paused, config, canonical, amount.value(), fee_receiver),
{
    if paused {
        return Err(Error::UnpausedRequired);
    }
    match check_token(config, canonical, amount) {
        Err(e) => Err(e),
        Ok(()) => match fee_receiver {
            None => Err(Error::FeeReceiverNotSet),
            Some(a) => Ok(a),
        },
    }
}

/// Checks an inbound call.
pub fn check_inbound(
    paused: bool,
    is_relayer: bool,
    already_processed: bool,
    config: Option<TokenConfig>,
    canonical: bool,
    amount: &U256,
) -> (r: Result<(), Error>)
    ensures
        r == inbound_check(paused, is_relayer, already_processed, config, canonical, amount.value()),
{
    if paused {
        Err(Error::UnpausedRequired)
    } else if !is_relayer {
        Err(Error::MissingRole)
    } else if already_processed {
        Err(Error::EventAlreadyHandled)
    } else {
        check_token(config, canonical, amount)
    }
}

/// The ledger moves of a lock: the whole amount into custody, then the fee, if any, out to the receiver.
pub open spec fn lock_moves(
    token: Address,
    sender: Address,
    amount: U256,
    fee: U256,
    fee_receiver: Address,
) -> Seq<LedgerOp> {
    let pull = LedgerOp::TransferFrom { token, owner: sender, amount };
    if fee.value() > 0 {
        seq![pull, LedgerOp::Transfer { token, recipient: fee_receiver, amount: fee }]
    } else {
        seq![pull]
    }
}

/// Builds the ledger moves of a lock.
pub fn lock_ledger(
    token: Address,
    sender: Address,
    amount: U256,
    fee: U256,
    fee_receiver: Address,
) -> (r: Vec<LedgerOp>)
    ensures
        r@ == lock_moves(token, sender, amount, fee, fee_receiver),
{
    let mut moves: Vec<LedgerOp> = Vec::new();
    moves.push(LedgerOp::TransferFrom { token, owner: sender, amount });
    if !fee.is_zero() {
        moves.push(LedgerOp::Transfer { token, recipient: fee_receiver, amount: fee });
    }
    assert(moves@ =~= lock_moves(token, sender, amount, fee, fee_receiver));
    moves
}

} // verus!
