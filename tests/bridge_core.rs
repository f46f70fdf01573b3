use bridge_core::address::Address;
use bridge_core::bridge::BridgeCore;
use bridge_core::error::Error;
use bridge_core::events::{LedgerOp, LockedCanonical, MintedWrapped};
use bridge_core::u256::U256;
use std::collections::HashMap;

/// The bridge's own address, which holds the tokens in custody.
const BRIDGE: Address = Address::Contract([0xbb; 32]);

fn account(i: u8) -> Address {
    Address::Account([i; 32])
}

fn amount_of(x: &U256) -> u128 {
    let l = x.to_limbs();
    assert_eq!((l[2], l[3]), (0, 0));
    l[0] as u128 | ((l[1] as u128) << 64)
}

/// A fungible token ledger that performs the moves the bridge asks for.
struct Token {
    address: Address,
    balances: HashMap<Address, u128>,
    allowances: HashMap<(Address, Address), u128>,
}

impl Token {
    fn deploy(address: Address, holder: Address, initial_supply: u64) -> Token {
        let mut balances = HashMap::new();
        balances.insert(holder, initial_supply as u128);
        Token { address, balances, allowances: HashMap::new() }
    }

    fn address(&self) -> Address {
        self.address
    }

    fn balance_of(&self, owner: &Address) -> U256 {
        let b = self.balances.get(owner).copied().unwrap_or(0);
        U256::from_limbs([b as u64, (b >> 64) as u64, 0, 0])
    }

    fn approve(&mut self, owner: Address, spender: &Address, amount: &U256) {
        self.allowances.insert((owner, *spender), amount_of(amount));
    }

    fn debit(&mut self, owner: Address, amount: u128) {
        let b = self.balances.entry(owner).or_insert(0);
        assert!(*b >= amount, "insufficient balance");
        *b -= amount;
    }

    fn credit(&mut self, owner: Address, amount: u128) {
        *self.balances.entry(owner).or_insert(0) += amount;
    }

    fn apply(&mut self, ops: &[LedgerOp]) {
        for op in ops {
            match *op {
                LedgerOp::TransferFrom { token, owner, amount } => {
                    assert_eq!(token, self.address);
                    let a = amount_of(&amount);
                    let allowed = self.allowances.entry((owner, BRIDGE)).or_insert(0);
                    assert!(*allowed >= a, "insufficient allowance");
                    *allowed -= a;
                    self.debit(owner, a);
                    self.credit(BRIDGE, a);
                }
                LedgerOp::Transfer { token, recipient, amount } => {
                    assert_eq!(token, self.address);
                    self.debit(BRIDGE, amount_of(&amount));
                    self.credit(recipient, amount_of(&amount));
                }
                LedgerOp::Mint { token, recipient, amount } => {
                    assert_eq!(token, self.address);
                    self.credit(recipient, amount_of(&amount));
                }
                LedgerOp::Burn { token, owner, amount } => {
                    assert_eq!(token, self.address);
                    self.debit(owner, amount_of(&amount));
                }
            }
        }
    }
}

fn deploy_bridge_core(admin: Address, fee_receiver: Address, fee_bps: u32) -> BridgeCore {
    BridgeCore::init(admin, fee_receiver, fee_bps).unwrap()
}

fn whitelist_canonical(bridge: &mut BridgeCore, admin: Address, token_addr: Address, min: u64, max: u64) {
    bridge
        .set_token_config(admin, token_addr, true, true, U256::from(min), U256::from(max))
        .unwrap();
}

fn whitelist_wrapped(bridge: &mut BridgeCore, admin: Address, token_addr: Address, min: u64, max: u64) {
    bridge
        .set_token_config(admin, token_addr, true, false, U256::from(min), U256::from(max))
        .unwrap();
}

#[test]
fn bridge_core_lock_canonical_happy_path() {
    // Accounts: admin, fee_receiver, user, recipient
    let admin = account(0);
    let fee_receiver = account(1);
    let user = account(2);
    let recipient = account(3);

    // Canonical token; initial supply held by `user`.
    let initial_supply = 1_000u64;
    let mut canonical = Token::deploy(Address::Contract([0xc0; 32]), user, initial_supply);

    // 1% fee
    let mut bridge = deploy_bridge_core(admin, fee_receiver, 100);
    whitelist_canonical(&mut bridge, admin, canonical.address(), 1, 1_000_000);

    let amount_to_lock = U256::from(500u64);
    canonical.approve(user, &BRIDGE, &amount_to_lock);

    let dest_chain = "Ethereum".to_string();
    let settlement = bridge
        .lock_canonical(user, canonical.address(), &amount_to_lock, dest_chain.clone(), recipient)
        .unwrap();
    canonical.apply(&settlement.ledger);

    // 1% of 500 = 5
    let expected_fee = U256::from(5u64);
    let expected_net = amount_to_lock.checked_sub(&expected_fee).unwrap();

    let user_balance = canonical.balance_of(&user);
    let bridge_balance = canonical.balance_of(&BRIDGE);
    let fee_receiver_balance = canonical.balance_of(&fee_receiver);

    assert_eq!(
        user_balance,
        U256::from(initial_supply).checked_sub(&amount_to_lock).unwrap(),
        "user balance must decrease by locked amount"
    );
    assert_eq!(bridge_balance, expected_net, "bridge must hold net amount after fee");
    assert_eq!(fee_receiver_balance, expected_fee, "fee_receiver must receive 1% fee");

    let expected_event = LockedCanonical {
        token: canonical.address(),
        sender: user,
        recipient,
        amount: expected_net,
        fee: expected_fee,
        destination_chain: dest_chain,
        // first outbound call
        nonce: 1,
    };
    assert!(settlement.event == expected_event, "LockedCanonical event must be emitted");
}

#[test]
fn bridge_core_lock_canonical_reverts_for_unwhitelisted_token() {
    let admin = account(0);
    let fee_receiver = account(1);
    let user = account(2);

    // Canonical token, never whitelisted.
    let mut canonical = Token::deploy(Address::Contract([0xc0; 32]), user, 1_000);
    let mut bridge = deploy_bridge_core(admin, fee_receiver, 0);

    let amount = U256::from(100u64);
    canonical.approve(user, &BRIDGE, &amount);

    let result = bridge.lock_canonical(user, canonical.address(), &amount, "Ethereum".to_string(), account(3));

    assert!(matches!(result, Err(code) if code == Error::TokenNotWhitelisted));
}

#[test]
fn bridge_core_mint_wrapped_only_relayer_can_call() {
    let admin = account(0);
    let fee_receiver = account(1);
    let user = account(2);
    let non_relayer = account(3);

    let mut bridge = deploy_bridge_core(admin, fee_receiver, 0);

    // "wUSDC", "Wrapped USDC", 6 decimals, no initial supply.
    let mut wrapped = Token::deploy(Address::Contract([0xd0; 32]), admin, 0);
    whitelist_wrapped(&mut bridge, admin, wrapped.address(), 1, 1_000_000);

    let amount = U256::from(200u64);
    let event_id = [7u8; 32];

    // A non-relayer is refused.
    let result = bridge.mint_wrapped(non_relayer, wrapped.address(), user, &amount, "Ethereum".to_string(), event_id);
    assert!(result.is_err(), "mint_wrapped must fail when called by non-relayer");

    // The admin holds the relayer capability from init.
    let settlement = bridge
        .mint_wrapped(admin, wrapped.address(), user, &amount, "Ethereum".to_string(), event_id)
        .unwrap();
    wrapped.apply(&settlement.ledger);

    let user_balance = wrapped.balance_of(&user);
    assert_eq!(user_balance, amount);

    let expected_event = MintedWrapped {
        token: wrapped.address(),
        recipient: user,
        amount,
        source_chain: "Ethereum".to_string(),
        event_id,
    };
    assert!(settlement.event == expected_event, "MintedWrapped event must be emitted by bridge");
}

#[test]
fn bridge_core_mint_wrapped_replay_protection() {
    let admin = account(0);
    let fee_receiver = account(1);
    let user = account(2);

    let mut bridge = deploy_bridge_core(admin, fee_receiver, 0);
    let mut wrapped = Token::deploy(Address::Contract([0xd0; 32]), admin, 0);
    whitelist_wrapped(&mut bridge, admin, wrapped.address(), 1, 1_000_000);

    let amount = U256::from(100u64);
    let event_id = [9u8; 32];

    // First call by the relayer (admin) succeeds.
    let settlement = bridge
        .mint_wrapped(admin, wrapped.address(), user, &amount, "Ethereum".to_string(), event_id)
        .unwrap();
    wrapped.apply(&settlement.ledger);

    // Second call with the same event id is refused.
    let result = bridge.mint_wrapped(admin, wrapped.address(), user, &amount, "Ethereum".to_string(), event_id);

    assert!(matches!(result, Err(code) if code == Error::EventAlreadyHandled));
}

#[test]
fn bridge_core_pause_blocks_bridge_operations() {
    let admin = account(0);
    let fee_receiver = account(1);
    let user = account(2);

    let mut bridge = deploy_bridge_core(admin, fee_receiver, 0);
    let mut canonical = Token::deploy(Address::Contract([0xc0; 32]), user, 1_000);
    whitelist_canonical(&mut bridge, admin, canonical.address(), 1, 1_000_000);

    let amount = U256::from(100u64);
    canonical.approve(user, &BRIDGE, &amount);

    // Pause bridge
    bridge.pause(admin).unwrap();

    let result = bridge.lock_canonical(user, canonical.address(), &amount, "Ethereum".to_string(), account(3));
    assert!(result.is_err(), "lock_canonical must revert when bridge is paused");

    // Unpause and try again
    bridge.unpause(admin).unwrap();

    let result_ok = bridge.lock_canonical(user, canonical.address(), &amount, "Ethereum".to_string(), account(3));
    if let Ok(s) = &result_ok {
        canonical.apply(&s.ledger);
    }
    assert!(result_ok.is_ok(), "lock_canonical should succeed after unpause");
}
