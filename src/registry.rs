//! Per-token bridge configuration: whitelist flag, side, and transfer bounds.

use vstd::prelude::*;
use crate::address::Address;
use crate::error::Error;
use crate::u256::U256;

verus! {

/// How one token may cross the bridge.
#[derive(Clone, Copy, Debug, PartialEq, Eq, Structural)]
pub struct TokenConfig {
    pub is_whitelisted: bool,
    /// True where this chain is the token's home; false where it holds a wrapped form.
    pub is_canonical: bool,
    /// Smallest accepted amount; zero means no lower bound.
    pub min_amount: U256,
    /// Largest accepted amount; zero means no upper bound.
    pub max_amount: U256,
}

/// Whether `amount` lies within the bounds of `cfg` (both inclusive, zero meaning unbounded).
pub open spec fn amount_check(cfg: TokenConfig, amount: nat) -> Result<(), Error> {
    if cfg.min_amount.value() > 0 && amount < cfg.min_amount.value() {
        Err(Error::AmountTooSmall)
    } else if cfg.max_amount.value() > 0 && amount > cfg.max_amount.value() {
        Err(Error::AmountTooLarge)
    } else {
        Ok(())
    }
}

/// Checks `amount` against the bounds of `cfg`.
pub fn validate_amount(cfg: &TokenConfig, amount: &U256) -> (r: Result<(), Error>)
    ensures
        r == amount_check(*cfg, amount.value()),
{
    if !cfg.min_amount.is_zero() && amount.lt(&cfg.min_amount) {
        return Err(Error::AmountTooSmall);
    }
    if !cfg.max_amount.is_zero() && cfg.max_amount.lt(amount) {
        return Err(Error::AmountTooLarge);
    }
    Ok(())
}

/// The configuration of every registered token. Entries are overwritten, never removed.
pub struct TokenRegistry {
    entries: Vec<(Address, TokenConfig)>,
    model: Ghost<Map<Address, TokenConfig>>,
}

impl View for TokenRegistry {
    type V = Map<Address, TokenConfig>;

    closed spec fn view(&self) -> Map<Address, TokenConfig> {
        self.model@
    }
}

impl TokenRegistry {
    /// The entries hold one pair per token, and exactly the pairs of the model.
    pub closed spec fn wf(&self) -> bool {
        &&& forall|i: int|
            0 <= i < self.entries@.len() ==> {
                &&& self.model@.contains_key(#[trigger] self.entries@[i].0)
                &&& self.model@[self.entries@[i].0] == self.entries@[i].1
            }
        &&& forall|k: Address| #[trigger]
            self.model@.contains_key(k) ==> exists|i: int|
                0 <= i < self.entries@.len() && #[trigger] self.entries@[i].0 == k
        &&& forall|i: int, j: int|
            0 <= i < j < self.entries@.len() ==> #[trigger] self.entries@[i].0
                != #[trigger] self.entries@[j].0
    }

    /// A registry with no token.
    pub fn new() -> (r: TokenRegistry)
        ensures
            r.wf(),
            r@ == Map::<Address, TokenConfig>::empty(),
    {
        TokenRegistry { entries: Vec::new(), model: Ghost(Map::empty()) }
    }

    /// Where `token` stands among the entries, if it is registered.
    fn position(&self, token: &Address) -> (r: Option<usize>)
        requires
            self.wf(),
        ensures
            r is None <==> !self@.contains_key(*token),
            r matches Some(i) ==> i < self.entries@.len() && self.entries@[i as int].0 == *token,
    {
        let mut i: usize = 0;
        while i < self.entries.len()
            invariant
                self.wf(),
                i <= self.entries@.len(),
                forall|j: int| 0 <= j < i ==> self.entries@[j].0 != *token,
            decreases self.entries@.len() - i,
        {
            if self.entries[i].0 == *token {
                return Some(i);
            }
            i = i + 1;
        }
        None
    }

    /// The configuration of `token`, or `None` where it was never set.
    pub fn get(&self, token: &Address) -> (r: Option<TokenConfig>)
        requires
            self.wf(),
        ensures
            r is None <==> !self@.contains_key(*token),
            r matches Some(c) ==> c == self@[*token],
    {
        match self.position(token) {
            Some(i) => Some(self.entries[i].1),
            None => None,
        }
    }

    /// Sets the configuration of `token`, replacing any earlier one whole.
    pub fn set(&mut self, token: Address, config: TokenConfig)
        requires
            old(self).wf(),
        ensures
            final(self).wf(),
            final(self)@ == old(self)@.insert(token, config),
    {
        let ghost new_model = self.model@.insert(token, config);
        match self.position(&token) {
            Some(i) => {
                self.entries.set(i, (token, config));
                self.model = Ghost(new_model);
                assert forall|k: Address| #[trigger] self.model@.contains_key(k) implies exists|j: int|
                    0 <= j < self.entries@.len() && #[trigger] self.entries@[j].0 == k by {
                    if k != token {
                        let j = choose|j: int| 0 <= j < old(self).entries@.len() && #[trigger] old(self).entries@[j].0 == k;
                        assert(self.entries@[j].0 == k);
                    } else {
                        assert(self.entries@[i as int].0 == k);
                    }
                }
            }
            None => {
                self.entries.push((token, config));
                self.model = Ghost(new_model);
                assert forall|k: Address| #[trigger] self.model@.contains_key(k) implies exists|j: int|
                    0 <= j < self.entries@.len() && #[trigger] self.entries@[j].0 == k by {
                    if k != token {
                        let j = choose|j: int| 0 <= j < old(self).entries@.len() && #[trigger] old(self).entries@[j].0 == k;
                        assert(self.entries@[j].0 == k);
                    } else {
                        assert(self.entries@[old(self).entries@.len() as int].0 == k);
                    }
                }
            }
        }
    }
}

} // verus!
