//! The bridge: one owned state object on which every settlement and admin call runs
//! to completion or leaves no trace.

use vstd::prelude::*;
use crate::address::{Address, Hash32};
use crate::error::Error;
use crate::events::{
    BurnedWrapped, FeeParamsUpdated, FeeReceiverUpdated, LedgerOp, LockedCanonical, MintedWrapped,
    Settlement, TokenConfigUpdated, UnlockedCanonical,
};
use crate::fee::{compute_fee, deduct_fee, fee_of, net_of, MAX_FEE_BPS};
use crate::registry::{TokenConfig, TokenRegistry};
use crate::replay::ReplayGuard;
use crate::roles::{Role, RoleSet};
use crate::u256::U256;
use crate::validation::{
    check_inbound, check_outbound, inbound_check, lock_ledger, lock_moves, outbound_check,
};

verus! {

/// The state of a bridge, as contracts speak of it.
pub struct BridgeModel {
    pub roles: Set<(Role, Address)>,
    pub paused: bool,
    pub tokens: Map<Address, TokenConfig>,
    pub processed: Set<Hash32>,
    pub fee_bps: u32,
    pub fee_receiver: Option<Address>,
    pub nonce: u64,
}

/// The configuration of `token`, if it was ever set.
pub open spec fn config_in(m: BridgeModel, token: Address) -> Option<TokenConfig> {
    if m.tokens.contains_key(token) {
        Some(m.tokens[token])
    } else {
        None
    }
}

/// How an outbound call (a lock where `canonical`, else a burn) on `token` for `amount` ends.
pub open spec fn outbound_outcome(m: BridgeModel, token: Address, canonical: bool, amount: nat) -> Result<Address, Error> {
    outbound_check(m.paused, config_in(m, token), canonical, amount, m.fee_receiver)
}

/// How an inbound call (an unlock where `canonical`, else a mint) by `caller` ends.
pub open spec fn inbound_outcome(
    m: BridgeModel,
    caller: Address,
    token: Address,
    amount: nat,
    event_id: Hash32,
    canonical: bool,
) -> Result<(), Error> {
    inbound_check(
        m.paused,
        m.roles.contains((Role::Relayer, caller)),
        m.processed.contains(event_id),
        config_in(m, token),
        canonical,
        amount,
    )
}

/// A successful outbound call from `m` to `m2` that issued `nonce`: only the counter moved, by one.
pub open spec fn outbound_step(m: BridgeModel, m2: BridgeModel, nonce: u64) -> bool {
    &&& nonce == m.nonce + 1
    &&& m2 == (BridgeModel { nonce, ..m })
}

/// A successful inbound call from `m` to `m2` that settled `event_id`: only that mark was added.
pub open spec fn inbound_step(m: BridgeModel, m2: BridgeModel, event_id: Hash32) -> bool {
    m2 == (BridgeModel { processed: m.processed.insert(event_id), ..m })
}

/// The settlement core of a token bridge.
pub struct BridgeCore {
    roles: RoleSet,
    paused: bool,
    registry: TokenRegistry,
    guard: ReplayGuard,
    fee_bps: u32,
    fee_receiver: Option<Address>,
    nonce: u64,
}

impl View for BridgeCore {
    type V = BridgeModel;

    closed spec fn view(&self) -> BridgeModel {
        BridgeModel {
            roles: self.roles@,
            paused: self.paused,
            tokens: self.registry@,
            processed: self.guard@,
            fee_bps: self.fee_bps,
            fee_receiver: self.fee_receiver,
            nonce: self.nonce,
        }
    }
}

impl BridgeCore {
    /// The registry is well formed and the fee rate is at most 10000 basis points.
    pub closed spec fn wf(&self) -> bool {
        &&& self.registry.wf()
        &&& self.fee_bps <= MAX_FEE_BPS
    }

    /// A new bridge: `admin` holds every capability, no token is registered, no event
    /// is settled, and the nonce counter is zero.
    pub fn init(admin: Address, fee_receiver: Address, fee_bps: u32) -> (r: Result<BridgeCore, Error>)
        ensures
            r is Err <==> fee_bps > MAX_FEE_BPS,
            r matches Err(e) ==> e == Error::FeeTooHigh,
            r matches Ok(b) ==> {
                &&& b.wf()
                &&& b@ == (BridgeModel {
                    roles: set![(Role::Admin, admin), (Role::Relayer, admin), (Role::Pauser, admin)],
                    paused: false,
                    tokens: Map::empty(),
                    processed: Set::empty(),
                    fee_bps,
                    fee_receiver: Some(fee_receiver),
                    nonce: 0,
                })
            },
    {
        if fee_bps > MAX_FEE_BPS {
            return Err(Error::FeeTooHigh);
        }
        let mut roles = RoleSet::new();
        roles.grant(Role::Admin, admin);
        roles.grant(Role::Relayer, admin);
        roles.grant(Role::Pauser, admin);
        let b = BridgeCore {
            roles,
            paused: false,
            registry: TokenRegistry::new(),
            guard: ReplayGuard::new(),
            fee_bps,
            fee_receiver: Some(fee_receiver),
            nonce: 0,
        };
        assert(b@.roles =~= set![(Role::Admin, admin), (Role::Relayer, admin), (Role::Pauser, admin)]);
        Ok(b)
    }

    /// Issues the next outbound nonce: the counter plus one, which becomes the counter.
    fn next_nonce(&mut self) -> (r: u64)
        requires
            old(self).nonce < u64::MAX,
        ensures
            r == old(self).nonce + 1,
            *final(self) == (BridgeCore { nonce: r, ..*old(self) }),
    {
        self.nonce = self.nonce + 1;
        self.nonce
    }

    /// Locks `amount` of the canonical `token` for `recipient` on `destination_chain`.
    /// The caller's whole amount goes into custody, the fee on to the fee receiver, and
    /// the event carries the net amount, the fee and the next nonce.
    pub fn lock_canonical(
        &mut self,
        caller: Address,
        token: Address,
        amount: &U256,
        destination_chain: String,
        recipient: Address,
    ) -> (r: Result<Settlement<LockedCanonical>, Error>)
        requires
            old(self).wf(),
            old(self)@.nonce < u64::MAX,
        ensures
            final(self).wf(),
            r is Ok <==> outbound_outcome(old(self)@, token, true, amount.value()) is Ok,
            r matches Err(e) ==> {
                &&& outbound_outcome(old(self)@, token, true, amount.value()) == Err::<Address, Error>(e)
                &&& final(self)@ == old(self)@
            },
            r matches Ok(s) ==> {
                let m = old(self)@;
                &&& outbound_step(m, final(self)@, s.event.nonce)
                &&& s.event.token == token
                &&& s.event.sender == caller
                &&& s.event.recipient == recipient
                &&& s.event.fee.value() == fee_of(amount.value(), m.fee_bps as nat)
                &&& s.event.amount.value() == net_of(amount.value(), m.fee_bps as nat)
                &&& s.event.destination_chain == destination_chain
                &&& s.ledger@ == lock_moves(token, caller, *amount, s.event.fee, m.fee_receiver->0)
            },
    {
        let config = self.registry.get(&token);
        let fee_receiver = match check_outbound(self.paused, config, true, amount, self.fee_receiver) {
            Err(e) => return Err(e),
            Ok(a) => a,
        };
        let fee = compute_fee(amount, self.fee_bps);
        let net = deduct_fee(amount, &fee);
        let ledger = lock_ledger(token, caller, *amount, fee, fee_receiver);
        let nonce = self.next_nonce();
        Ok(Settlement {
            ledger,
            event: LockedCanonical {
                token,
                sender: caller,
                recipient,
                amount: net,
                fee,
                destination_chain,
                nonce,
            },
        })
    }
    /// Burns `amount` of the wrapped `token` from the caller for `recipient` on
    /// `destination_chain`. The whole amount is burnt; the event carries the net amount,
    /// the fee and the next nonce.
    pub fn burn_wrapped(
        &mut self,
        caller: Address,
        token: Address,
        amount: &U256,
        destination_chain: String,
        recipient: Address,
    ) -> (r: Result<Settlement<BurnedWrapped>, Error>)
        requires
            old(self).wf(),
            old(self)@.nonce < u64::MAX,
        ensures
            final(self).wf(),
            r is Ok <==> outbound_outcome(old(self)@, token, false, amount.value()) is Ok,
            r matches Err(e) ==> {
                &&& outbound_outcome(old(self)@, token, false, amount.value()) == Err::<Address, Error>(e)
                &&& final(self)@ == old(self)@
            },
            r matches Ok(s) ==> {
                let m = old(self)@;
                &&& outbound_step(m, final(self)@, s.event.nonce)
                &&& s.event.token == token
                &&& s.event.sender == caller
                &&& s.event.recipient == recipient
                &&& s.event.fee.value() == fee_of(amount.value(), m.fee_bps as nat)
                &&& s.event.amount.value() == net_of(amount.value(), m.fee_bps as nat)
                &&& s.event.destination_chain == destination_chain
                &&& s.ledger@ == seq![LedgerOp::Burn { token, owner: caller, amount: *amount }]
            },
    {
        let config = self.registry.get(&token);
        match check_outbound(self.paused, config, false, amount, self.fee_receiver) {
            Err(e) => return Err(e),
            Ok(_) => {},
        }
        let fee = compute_fee(amount, self.fee_bps);
        let net = deduct_fee(amount, &fee);
        let mut ledger: Vec<LedgerOp> = Vec::new();
        ledger.push(LedgerOp::Burn { token, owner: caller, amount: *amount });
        let nonce = self.next_nonce();
        assert(ledger@ =~= seq![LedgerOp::Burn { token, owner: caller, amount: *amount }]);
        Ok(Settlement {
            ledger,
            event: BurnedWrapped {
                token,
                sender: caller,
                recipient,
                amount: net,
                fee,
                destination_chain,
                nonce,
            },
        })
    }

    /// Runs the checks of an inbound call and, where they pass, marks `event_id` settled.
    fn admit_inbound(
        &mut self,
        caller: &Address,
        token: &Address,
        amount: &U256,
        event_id: &Hash32,
        canonical: bool,
    ) -> (r: Result<(), Error>)
        requires
            old(self).wf(),
        ensures
            final(self).wf(),
            r == inbound_outcome(old(self)@, *caller, *token, amount.value(), *event_id, canonical),
            r is Err ==> final(self)@ == old(self)@,
            r is Ok ==> inbound_step(old(self)@, final(self)@, *event_id),
    {
        let is_relayer = self.roles.has_role(Role::Relayer, caller);
        let already = self.guard.is_processed(event_id);
        let config = self.registry.get(token);
        match check_inbound(self.paused, is_relayer, already, config, canonical, amount) {
            Err(e) => Err(e),
            Ok(()) => {
                self.guard.mark_processed(*event_id);
                Ok(())
            },
        }
    }

    /// Mints `amount` of the wrapped `token` to `recipient`, settling the remote event
    /// `event_id` from `source_chain`. Relayers only; each event settles once.
    pub fn mint_wrapped(
        &mut self,
        caller: Address,
        token: Address,
        recipient: Address,
        amount: &U256,
        source_chain: String,
        event_id: Hash32,
    ) -> (r: Result<Settlement<MintedWrapped>, Error>)
        requires
            old(self).wf(),
        ensures
            final(self).wf(),
            r is Ok <==> inbound_outcome(old(self)@, caller, token, amount.value(), event_id, false) is Ok,
            r matches Err(e) ==> {
                &&& inbound_outcome(old(self)@, caller, token, amount.value(), event_id, false) == Err::<(), Error>(e)
                &&& final(self)@ == old(self)@
            },
            r matches Ok(s) ==> {
                &&& inbound_step(old(self)@, final(self)@, event_id)
                &&& s.event == (MintedWrapped { token, recipient, amount: *amount, source_chain, event_id })
                &&& s.ledger@ == seq![LedgerOp::Mint { token, recipient, amount: *amount }]
            },
    {
        match self.admit_inbound(&caller, &token, amount, &event_id, false) {
            Err(e) => return Err(e),
            Ok(()) => {},
        }
        let mut ledger: Vec<LedgerOp> = Vec::new();
        ledger.push(LedgerOp::Mint { token, recipient, amount: *amount });
        assert(ledger@ =~= seq![LedgerOp::Mint { token, recipient, amount: *amount }]);
        Ok(Settlement {
            ledger,
            event: MintedWrapped { token, recipient, amount: *amount, source_chain, event_id },
        })
    }

    /// Releases `amount` of the canonical `token` from custody to `recipient`, settling
    /// the remote event `event_id` from `source_chain`. Relayers only; each event settles once.
    pub fn unlock_canonical(
        &mut self,
        caller: Address,
        token: Address,
        recipient: Address,
        amount: &U256,
        source_chain: String,
        event_id: Hash32,
    ) -> (r: Result<Settlement<UnlockedCanonical>, Error>)
        requires
            old(self).wf(),
        ensures
            final(self).wf(),
            r is Ok <==> inbound_outcome(old(self)@, caller, token, amount.value(), event_id, true) is Ok,
            r matches Err(e) ==> {
                &&& inbound_outcome(old(self)@, caller, token, amount.value(), event_id, true) == Err::<(), Error>(e)
                &&& final(self)@ == old(self)@
            },
            r matches Ok(s) ==> {
                &&& inbound_step(old(self)@, final(self)@, event_id)
                &&& s.event == (UnlockedCanonical { token, recipient, amount: *amount, source_chain, event_id })
                &&& s.ledger@ == seq![LedgerOp::Transfer { token, recipient, amount: *amount }]
            },
    {
        match self.admit_inbound(&caller, &token, amount, &event_id, true) {
            Err(e) => return Err(e),
            Ok(()) => {},
        }
        let mut ledger: Vec<LedgerOp> = Vec::new();
        ledger.push(LedgerOp::Transfer { token, recipient, amount: *amount });
        assert(ledger@ =~= seq![LedgerOp::Transfer { token, recipient, amount: *amount }]);
        Ok(Settlement {
            ledger,
            event: UnlockedCanonical { token, recipient, amount: *amount, source_chain, event_id },
        })
    }
    /// Replaces the configuration of `token`. Administrators only.
    pub fn set_token_config(
        &mut self,
        caller: Address,
        token: Address,
        is_whitelisted: bool,
        is_canonical: bool,
        min_amount: U256,
        max_amount: U256,
    ) -> (r: Result<TokenConfigUpdated, Error>)
        requires
            old(self).wf(),
        ensures
            final(self).wf(),
            r is Err <==> !old(self)@.roles.contains((Role::Admin, caller)),
            r matches Err(e) ==> e == Error::MissingRole && final(self)@ == old(self)@,
            r matches Ok(ev) ==> {
                let config = TokenConfig { is_whitelisted, is_canonical, min_amount, max_amount };
                &&& ev == (TokenConfigUpdated { token, config })
                &&& final(self)@ == (BridgeModel { tokens: old(self)@.tokens.insert(token, config), ..old(self)@ })
            },
    {
        match self.roles.check_role(Role::Admin, &caller) {
            Err(e) => return Err(e),
            Ok(()) => {},
        }
        let config = TokenConfig { is_whitelisted, is_canonical, min_amount, max_amount };
        self.registry.set(token, config);
        Ok(TokenConfigUpdated { token, config })
    }

    /// Sets the fee rate. Administrators only; rates above 10000 basis points are refused.
    pub fn set_fee_bps(&mut self, caller: Address, new_fee_bps: u32) -> (r: Result<FeeParamsUpdated, Error>)
        requires
            old(self).wf(),
        ensures
            final(self).wf(),
            r is Ok <==> old(self)@.roles.contains((Role::Admin, caller)) && new_fee_bps <= MAX_FEE_BPS,
            r matches Err(e) ==> {
                &&& e == (if !old(self)@.roles.contains((Role::Admin, caller)) {
                    Error::MissingRole
                } else {
                    Error::FeeTooHigh
                })
                &&& final(self)@ == old(self)@
            },
            r matches Ok(ev) ==> {
                &&& ev == (FeeParamsUpdated { old_fee_bps: old(self)@.fee_bps, new_fee_bps })
                &&& final(self)@ == (BridgeModel { fee_bps: new_fee_bps, ..old(self)@ })
            },
    {
        match self.roles.check_role(Role::Admin, &caller) {
            Err(e) => return Err(e),
            Ok(()) => {},
        }
        if new_fee_bps > MAX_FEE_BPS {
            return Err(Error::FeeTooHigh);
        }
        let old_fee_bps = self.fee_bps;
        self.fee_bps = new_fee_bps;
        Ok(FeeParamsUpdated { old_fee_bps, new_fee_bps })
    }

    /// Replaces the fee receiver. Administrators only; a receiver must already be set.
    pub fn set_fee_receiver(&mut self, caller: Address, new_receiver: Address) -> (r: Result<FeeReceiverUpdated, Error>)
        requires
            old(self).wf(),
        ensures
            final(self).wf(),
            r is Ok <==> old(self)@.roles.contains((Role::Admin, caller)) && old(self)@.fee_receiver is Some,
            r matches Err(e) ==> {
                &&& e == (if !old(self)@.roles.contains((Role::Admin, caller)) {
                    Error::MissingRole
                } else {
                    Error::FeeReceiverNotSet
                })
                &&& final(self)@ == old(self)@
            },
            r matches Ok(ev) ==> {
                &&& ev == (FeeReceiverUpdated { old_receiver: old(self)@.fee_receiver->0, new_receiver })
                &&& final(self)@ == (BridgeModel { fee_receiver: Some(new_receiver), ..old(self)@ })
            },
    {
        match self.roles.check_role(Role::Admin, &caller) {
            Err(e) => return Err(e),
            Ok(()) => {},
        }
        match self.fee_receiver {
            None => Err(Error::FeeReceiverNotSet),
            Some(old_receiver) => {
                self.fee_receiver = Some(new_receiver);
                Ok(FeeReceiverUpdated { old_receiver, new_receiver })
            },
        }
    }

    /// Gives the relayer capability to `relayer`. Administrators only.
    pub fn grant_relayer(&mut self, caller: Address, relayer: Address) -> (r: Result<(), Error>)
        requires
            old(self).wf(),
        ensures
            final(self).wf(),
            r is Err <==> !old(self)@.roles.contains((Role::Admin, caller)),
            r matches Err(e) ==> e == Error::MissingRole && final(self)@ == old(self)@,
            r is Ok ==> final(self)@ == (BridgeModel {
                roles: old(self)@.roles.insert((Role::Relayer, relayer)),
                ..old(self)@
            }),
    {
        match self.roles.check_role(Role::Admin, &caller) {
            Err(e) => return Err(e),
            Ok(()) => {},
        }
        self.roles.grant(Role::Relayer, relayer);
        Ok(())
    }

    /// Takes the relayer capability from `relayer`. Administrators only.
    pub fn revoke_relayer(&mut self, caller: Address, relayer: Address) -> (r: Result<(), Error>)
        requires
            old(self).wf(),
        ensures
            final(self).wf(),
            r is Err <==> !old(self)@.roles.contains((Role::Admin, caller)),
            r matches Err(e) ==> e == Error::MissingRole && final(self)@ == old(self)@,
            r is Ok ==> final(self)@ == (BridgeModel {
                roles: old(self)@.roles.remove((Role::Relayer, relayer)),
                ..old(self)@
            }),
    {
        match self.roles.check_role(Role::Admin, &caller) {
            Err(e) => return Err(e),
            Ok(()) => {},
        }
        self.roles.revoke(Role::Relayer, &relayer);
        Ok(())
    }

    /// Pauses the bridge. Pause operators only; the bridge must be running.
    pub fn pause(&mut self, caller: Address) -> (r: Result<(), Error>)
        requires
            old(self).wf(),
        ensures
            final(self).wf(),
            r is Ok <==> old(self)@.roles.contains((Role::Pauser, caller)) && !old(self)@.paused,
            r matches Err(e) ==> {
                &&& e == (if !old(self)@.roles.contains((Role::Pauser, caller)) {
                    Error::MissingRole
                } else {
                    Error::UnpausedRequired
                })
                &&& final(self)@ == old(self)@
            },
            r is Ok ==> final(self)@ == (BridgeModel { paused: true, ..old(self)@ }),
    {
        match self.roles.check_role(Role::Pauser, &caller) {
            Err(e) => return Err(e),
            Ok(()) => {},
        }
        if self.paused {
            return Err(Error::UnpausedRequired);
        }
        self.paused = true;
        Ok(())
    }

    /// Unpauses the bridge. Pause operators only; the bridge must be paused.
    pub fn unpause(&mut self, caller: Address) -> (r: Result<(), Error>)
        requires
            old(self).wf(),
        ensures
            final(self).wf(),
            r is Ok <==> old(self)@.roles.contains((Role::Pauser, caller)) && old(self)@.paused,
            r matches Err(e) ==> {
                &&& e == (if !old(self)@.roles.contains((Role::Pauser, caller)) {
                    Error::MissingRole
                } else {
                    Error::PausedRequired
                })
                &&& final(self)@ == old(self)@
            },
            r is Ok ==> final(self)@ == (BridgeModel { paused: false, ..old(self)@ }),
    {
        match self.roles.check_role(Role::Pauser, &caller) {
            Err(e) => return Err(e),
            Ok(()) => {},
        }
        if !self.paused {
            return Err(Error::PausedRequired);
        }
        self.paused = false;
        Ok(())
    }
    /// Whether the bridge is paused.
    pub fn is_paused(&self) -> (r: bool)
        ensures
            r == self@.paused,
    {
        self.paused
    }

    /// The fee rate in basis points.
    pub fn fee_bps(&self) -> (r: u32)
        ensures
            r == self@.fee_bps,
    {
        self.fee_bps
    }

    /// The fee receiver, if one is set.
    pub fn fee_receiver(&self) -> (r: Option<Address>)
        ensures
            r == self@.fee_receiver,
    {
        self.fee_receiver
    }

    /// The last nonce issued; zero before the first outbound call.
    pub fn nonce(&self) -> (r: u64)
        ensures
            r == self@.nonce,
    {
        self.nonce
    }

    /// The configuration of `token`, if it was ever set.
    pub fn token_config(&self, token: &Address) -> (r: Option<TokenConfig>)
        requires
            self.wf(),
        ensures
            r == config_in(self@, *token),
    {
        self.registry.get(token)
    }

    /// Whether the remote event `event_id` was settled.
    pub fn is_processed(&self, event_id: &Hash32) -> (r: bool)
        ensures
            r == self@.processed.contains(*event_id),
    {
        self.guard.is_processed(event_id)
    }

    /// Whether `account` holds `role`.
    pub fn has_role(&self, role: Role, account: &Address) -> (r: bool)
        ensures
            r == self@.roles.contains((role, *account)),
    {
        self.roles.has_role(role, account)
    }
}

/// Nonces of successive successful outbound calls go up by exactly one: the first one
/// after state `m0` is `m0.nonce + 1`, the next one that number plus one. A failed
/// outbound call, and every call of any other kind, leaves the counter as it was.
pub proof fn lemma_nonces_consecutive(m0: BridgeModel, m1: BridgeModel, m2: BridgeModel, n1: u64, n2: u64)
    requires
        outbound_step(m0, m1, n1),
        outbound_step(m1, m2, n2),
    ensures
        n1 == m0.nonce + 1,
        n2 == n1 + 1,
        m2.nonce == n2,
{
}

/// Once an inbound settlement of `event_id` has succeeded (from `before` to `after`),
/// every inbound call with the same identifier in any state `later` that still holds
/// the mark fails with `EventAlreadyHandled`, whatever its token, amount or direction,
/// unless the pause or the relayer check stops it first.
pub proof fn lemma_replay_rejected(
    before: BridgeModel,
    after: BridgeModel,
    later: BridgeModel,
    event_id: Hash32,
    caller: Address,
    token: Address,
    amount: nat,
    canonical: bool,
)
    requires
        inbound_step(before, after, event_id),
        after.processed.subset_of(later.processed),
        !later.paused,
        later.roles.contains((Role::Relayer, caller)),
    ensures
        after.processed.contains(event_id),
        inbound_outcome(later, caller, token, amount, event_id, canonical) == Err::<(), Error>(
            Error::EventAlreadyHandled,
        ),
{
    assert(after.processed.contains(event_id));
    assert(later.processed.contains(event_id));
}

/// A token that is not registered, or registered without the whitelist flag, makes every
/// settlement operation fail with `TokenNotWhitelisted`, unless an earlier check (pause,
/// relayer capability, replay guard) stops the call first.
pub proof fn lemma_unlisted_token_rejected(
    m: BridgeModel,
    caller: Address,
    token: Address,
    amount: nat,
    event_id: Hash32,
    canonical: bool,
)
    requires
        !m.tokens.contains_key(token) || !m.tokens[token].is_whitelisted,
        !m.paused,
    ensures
        outbound_outcome(m, token, canonical, amount) == Err::<Address, Error>(Error::TokenNotWhitelisted),
        m.roles.contains((Role::Relayer, caller)) && !m.processed.contains(event_id) ==> inbound_outcome(
            m,
            caller,
            token,
            amount,
            event_id,
            canonical,
        ) == Err::<(), Error>(Error::TokenNotWhitelisted),
{
}

} // verus!
