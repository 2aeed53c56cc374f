use anchor_lang::prelude::Pubkey;
use solana_token_extension_wrapper::address::{
    authority_tag_bytes, derive_addresses, descriptor_tag_bytes, derive_authority, derive_descriptor, same_address, Address,
};
use solana_token_extension_wrapper::bridge::{
    initialize, unwrap, wrap, Bridge, ExchangeError, Initialize, SetupError, Unwrap, Wrap,
};
use solana_token_extension_wrapper::ledger::{Ledger, LedgerError, TokenAccount};

const HOLDER: usize = 0;
const OTHER: usize = 1;

fn addr(b: u8) -> Address {
    Address { bytes: [b; 32] }
}

fn program() -> Address {
    addr(7)
}

fn mint() -> Address {
    addr(42)
}

fn original_ledger(holder: u64, other: u64) -> Ledger {
    Ledger {
        accounts: vec![
            TokenAccount { amount: holder, frozen: false },
            TokenAccount { amount: other, frozen: false },
        ],
        supply: holder + other,
    }
}

fn authority() -> Address {
    derive_authority(&mint(), &program()).unwrap().address
}

fn set_up_bridge(holder: u64, other: u64) -> Bridge {
    let mut bridge = Bridge::new(program(), mint(), 6, original_ledger(holder, other));
    let pair = derive_addresses(&mint(), &program()).unwrap();
    let accounts = Initialize {
        wrapped_mint: pair.descriptor.address,
        mint_authority: pair.authority.address,
    };
    assert_eq!(initialize(&mut bridge, &accounts), Ok(()));
    bridge.wrapped.open_account();
    bridge.wrapped.open_account();
    bridge
}

fn wrap_accounts(from: usize, to: usize) -> Wrap {
    Wrap { deposit_from: from, mint_to: to, mint_authority: authority() }
}

fn unwrap_accounts(to: usize, from: usize) -> Unwrap {
    Unwrap { withdraw_to: to, burn_from: from, mint_authority: authority() }
}

fn escrow_balance(bridge: &Bridge) -> u64 {
    match bridge.escrow {
        Some(e) => bridge.original.accounts[e].amount,
        None => 0,
    }
}

fn balances(bridge: &Bridge) -> (Vec<u64>, Vec<u64>, u64, u64) {
    (
        bridge.original.accounts.iter().map(|a| a.amount).collect(),
        bridge.wrapped.accounts.iter().map(|a| a.amount).collect(),
        escrow_balance(bridge),
        bridge.wrapped.supply,
    )
}

#[test]
fn derivation_matches_program_address_search() {
    let program_id = Pubkey::new_from_array(program().bytes);
    let mint_key = Pubkey::new_from_array(mint().bytes);
    let (wrapper, wrapper_bump) =
        Pubkey::find_program_address(&[mint_key.as_ref(), b"te_wrapper"], &program_id);
    let (auth, auth_bump) =
        Pubkey::find_program_address(&[mint_key.as_ref(), b"te_mint_authority"], &program_id);
    let d = derive_descriptor(&mint(), &program()).unwrap();
    let a = derive_authority(&mint(), &program()).unwrap();
    assert_eq!(d.address.bytes, wrapper.to_bytes());
    assert_eq!(d.bump, wrapper_bump);
    assert_eq!(a.address.bytes, auth.to_bytes());
    assert_eq!(a.bump, auth_bump);
    assert_ne!(a.address.bytes, mint().bytes);
}

#[test]
fn derivation_is_deterministic_and_separates_assets() {
    let first = derive_addresses(&mint(), &program()).unwrap();
    let second = derive_addresses(&mint(), &program()).unwrap();
    assert_eq!(first.descriptor.address.bytes, second.descriptor.address.bytes);
    assert_eq!(first.authority.address.bytes, second.authority.address.bytes);
    assert_eq!(first.descriptor.bump, second.descriptor.bump);
    let other = derive_addresses(&addr(43), &program()).unwrap();
    assert_ne!(first.descriptor.address.bytes, other.descriptor.address.bytes);
    assert_ne!(first.authority.address.bytes, other.authority.address.bytes);
    assert_ne!(first.descriptor.address.bytes, first.authority.address.bytes);
}

#[test]
fn same_address_compares_every_byte() {
    let mut b = mint();
    assert!(same_address(&mint(), &b));
    b.bytes[31] = 0;
    assert!(!same_address(&mint(), &b));
}

#[test]
fn setup_records_descriptor() {
    let bridge = set_up_bridge(10, 0);
    let d = bridge.descriptor.unwrap();
    let pair = derive_addresses(&mint(), &program()).unwrap();
    assert_eq!(d.decimals, 6);
    assert_eq!(d.address.bytes, pair.descriptor.address.bytes);
    assert_eq!(d.bump, pair.descriptor.bump);
    assert_eq!(d.mint_authority.bytes, pair.authority.address.bytes);
    assert!(d.confidential_transfer_authority.is_none());
}

#[test]
fn setup_twice_fails_with_already_exists() {
    let mut bridge = set_up_bridge(10, 0);
    let pair = derive_addresses(&mint(), &program()).unwrap();
    let accounts = Initialize {
        wrapped_mint: pair.descriptor.address,
        mint_authority: pair.authority.address,
    };
    assert_eq!(initialize(&mut bridge, &accounts), Err(SetupError::AlreadyExists));
}

#[test]
fn setup_with_wrong_address_fails() {
    let mut bridge = Bridge::new(program(), mint(), 6, original_ledger(10, 0));
    let pair = derive_addresses(&mint(), &program()).unwrap();
    let wrong_mint = Initialize { wrapped_mint: addr(1), mint_authority: pair.authority.address };
    assert_eq!(initialize(&mut bridge, &wrong_mint), Err(SetupError::DerivationMismatch));
    let wrong_auth = Initialize { wrapped_mint: pair.descriptor.address, mint_authority: addr(1) };
    assert_eq!(initialize(&mut bridge, &wrong_auth), Err(SetupError::DerivationMismatch));
    assert!(bridge.descriptor.is_none());
}

#[test]
fn wrap_then_partial_unwrap_scenario() {
    let mut bridge = set_up_bridge(1_000_000, 0);
    assert_eq!(wrap(&mut bridge, &wrap_accounts(HOLDER, HOLDER), 1_000_000), Ok(()));
    assert_eq!(bridge.original.accounts[HOLDER].amount, 0);
    assert_eq!(bridge.wrapped.accounts[HOLDER].amount, 1_000_000);
    assert_eq!(escrow_balance(&bridge), 1_000_000);
    assert_eq!(bridge.wrapped.supply, 1_000_000);
    assert_eq!(unwrap(&mut bridge, &unwrap_accounts(HOLDER, HOLDER), 400_000), Ok(()));
    assert_eq!(bridge.original.accounts[HOLDER].amount, 400_000);
    assert_eq!(bridge.wrapped.accounts[HOLDER].amount, 600_000);
    assert_eq!(escrow_balance(&bridge), 600_000);
    assert_eq!(bridge.wrapped.supply, 600_000);
    assert_eq!(bridge.descriptor.unwrap().decimals, 6);
}

#[test]
fn first_wrap_creates_escrow() {
    let mut bridge = set_up_bridge(50, 0);
    assert!(bridge.escrow.is_none());
    assert_eq!(wrap(&mut bridge, &wrap_accounts(HOLDER, HOLDER), 20), Ok(()));
    assert_eq!(bridge.escrow, Some(2));
    assert_eq!(bridge.original.accounts.len(), 3);
    assert_eq!(wrap(&mut bridge, &wrap_accounts(HOLDER, HOLDER), 5), Ok(()));
    assert_eq!(bridge.escrow, Some(2));
    assert_eq!(bridge.original.accounts.len(), 3);
    assert_eq!(escrow_balance(&bridge), 25);
}

#[test]
fn round_trip_restores_balances() {
    let mut bridge = set_up_bridge(300, 70);
    assert_eq!(wrap(&mut bridge, &wrap_accounts(OTHER, OTHER), 30), Ok(()));
    let before = balances(&bridge);
    assert_eq!(wrap(&mut bridge, &wrap_accounts(HOLDER, HOLDER), 123), Ok(()));
    assert_ne!(balances(&bridge), before);
    assert_eq!(unwrap(&mut bridge, &unwrap_accounts(HOLDER, HOLDER), 123), Ok(()));
    assert_eq!(balances(&bridge), before);
}

#[test]
fn backing_holds_along_a_run() {
    let mut bridge = set_up_bridge(500, 500);
    let steps: Vec<(bool, usize, u64)> = vec![
        (true, HOLDER, 100),
        (true, OTHER, 250),
        (false, HOLDER, 40),
        (false, OTHER, 300),
        (true, HOLDER, 600),
        (false, OTHER, 250),
        (true, OTHER, 1),
    ];
    for (is_wrap, who, amount) in steps {
        let _ = if is_wrap {
            wrap(&mut bridge, &wrap_accounts(who, who), amount)
        } else {
            unwrap(&mut bridge, &unwrap_accounts(who, who), amount)
        };
        assert_eq!(escrow_balance(&bridge), bridge.wrapped.supply);
    }
    assert_eq!(bridge.wrapped.supply, 61);
}

#[test]
fn zero_amounts_are_rejected() {
    let mut bridge = set_up_bridge(10, 0);
    assert_eq!(wrap(&mut bridge, &wrap_accounts(HOLDER, HOLDER), 0), Err(ExchangeError::ZeroAmount));
    assert_eq!(wrap(&mut bridge, &wrap_accounts(HOLDER, HOLDER), 5), Ok(()));
    assert_eq!(
        unwrap(&mut bridge, &unwrap_accounts(HOLDER, HOLDER), 0),
        Err(ExchangeError::ZeroAmount)
    );
}

#[test]
fn unwrap_beyond_wrapped_balance_leaves_escrow() {
    let mut bridge = set_up_bridge(100, 100);
    assert_eq!(wrap(&mut bridge, &wrap_accounts(HOLDER, HOLDER), 10), Ok(()));
    assert_eq!(wrap(&mut bridge, &wrap_accounts(OTHER, OTHER), 50), Ok(()));
    let before = balances(&bridge);
    assert_eq!(
        unwrap(&mut bridge, &unwrap_accounts(HOLDER, HOLDER), 11),
        Err(ExchangeError::Ledger(LedgerError::InsufficientFunds))
    );
    assert_eq!(balances(&bridge), before);
    assert_eq!(escrow_balance(&bridge), 60);
}

#[test]
fn failed_mint_gives_deposit_back() {
    let mut bridge = set_up_bridge(100, 0);
    bridge.wrapped.accounts[HOLDER].frozen = true;
    let before = balances(&bridge);
    assert_eq!(
        wrap(&mut bridge, &wrap_accounts(HOLDER, HOLDER), 40),
        Err(ExchangeError::Ledger(LedgerError::AccountFrozen))
    );
    assert_eq!(balances(&bridge), before);
    assert!(bridge.escrow.is_none());
    assert_eq!(bridge.original.accounts.len(), 2);
}

#[test]
fn failed_burn_takes_release_back() {
    let mut bridge = set_up_bridge(100, 0);
    assert_eq!(wrap(&mut bridge, &wrap_accounts(HOLDER, HOLDER), 40), Ok(()));
    bridge.wrapped.accounts[HOLDER].frozen = true;
    let before = balances(&bridge);
    assert_eq!(
        unwrap(&mut bridge, &unwrap_accounts(HOLDER, HOLDER), 40),
        Err(ExchangeError::Ledger(LedgerError::AccountFrozen))
    );
    assert_eq!(balances(&bridge), before);
}

#[test]
fn wrap_beyond_original_balance_fails() {
    let mut bridge = set_up_bridge(10, 0);
    assert_eq!(
        wrap(&mut bridge, &wrap_accounts(HOLDER, HOLDER), 11),
        Err(ExchangeError::Ledger(LedgerError::InsufficientFunds))
    );
    assert!(bridge.escrow.is_none());
    assert_eq!(bridge.wrapped.supply, 0);
}

#[test]
fn wrap_before_setup_fails() {
    let mut bridge = Bridge::new(program(), mint(), 6, original_ledger(10, 0));
    bridge.wrapped.open_account();
    assert_eq!(wrap(&mut bridge, &wrap_accounts(HOLDER, HOLDER), 5), Err(ExchangeError::NotSetUp));
    assert_eq!(
        unwrap(&mut bridge, &unwrap_accounts(HOLDER, HOLDER), 5),
        Err(ExchangeError::NotSetUp)
    );
}

#[test]
fn forged_authority_is_rejected() {
    let mut bridge = set_up_bridge(10, 0);
    let forged = Wrap { deposit_from: HOLDER, mint_to: HOLDER, mint_authority: addr(9) };
    assert_eq!(wrap(&mut bridge, &forged, 5), Err(ExchangeError::DerivationMismatch));
    let forged = Unwrap { withdraw_to: HOLDER, burn_from: HOLDER, mint_authority: mint() };
    assert_eq!(unwrap(&mut bridge, &forged, 5), Err(ExchangeError::DerivationMismatch));
    assert_eq!(bridge.original.accounts[HOLDER].amount, 10);
}

#[test]
fn escrow_cannot_be_the_holder() {
    let mut bridge = set_up_bridge(10, 0);
    assert_eq!(unwrap(&mut bridge, &unwrap_accounts(HOLDER, HOLDER), 5), Err(ExchangeError::InvalidAccount));
    assert_eq!(wrap(&mut bridge, &wrap_accounts(HOLDER, HOLDER), 5), Ok(()));
    let escrow = bridge.escrow.unwrap();
    assert_eq!(wrap(&mut bridge, &wrap_accounts(escrow, HOLDER), 1), Err(ExchangeError::InvalidAccount));
    assert_eq!(unwrap(&mut bridge, &unwrap_accounts(escrow, HOLDER), 1), Err(ExchangeError::InvalidAccount));
}

#[test]
fn unknown_accounts_are_rejected() {
    let mut bridge = set_up_bridge(10, 0);
    assert_eq!(
        wrap(&mut bridge, &wrap_accounts(5, HOLDER), 1),
        Err(ExchangeError::Ledger(LedgerError::UnknownAccount))
    );
    assert_eq!(
        wrap(&mut bridge, &wrap_accounts(HOLDER, 9), 1),
        Err(ExchangeError::Ledger(LedgerError::UnknownAccount))
    );
    assert_eq!(bridge.original.accounts[HOLDER].amount, 10);
    assert!(bridge.escrow.is_none());
}

#[test]
fn ledger_overflow_is_rejected() {
    let mut ledger = Ledger {
        accounts: vec![
            TokenAccount { amount: u64::MAX, frozen: false },
            TokenAccount { amount: 1, frozen: false },
        ],
        supply: u64::MAX,
    };
    assert_eq!(ledger.transfer(1, 0, 1), Err(LedgerError::Overflow));
    assert_eq!(ledger.mint_to(1, 1), Err(LedgerError::Overflow));
    assert_eq!(ledger.transfer(0, 0, 5), Ok(()));
    assert_eq!(ledger.accounts[0].amount, u64::MAX);
    assert_eq!(ledger.burn(1, 1), Ok(()));
    assert_eq!(ledger.supply, u64::MAX - 1);
    assert_eq!(ledger.burn(1, 1), Err(LedgerError::InsufficientFunds));
}

#[test]
fn frozen_source_blocks_transfer() {
    let mut ledger = original_ledger(10, 10);
    ledger.accounts[0].frozen = true;
    assert_eq!(ledger.transfer(0, 1, 1), Err(LedgerError::AccountFrozen));
    assert_eq!(ledger.transfer(1, 0, 1), Err(LedgerError::AccountFrozen));
    assert_eq!(ledger.transfer(1, 2, 1), Err(LedgerError::UnknownAccount));
    assert_eq!(ledger.open_account(), 2);
    assert_eq!(ledger.transfer(1, 2, 4), Ok(()));
    assert_eq!(ledger.accounts[1].amount, 6);
    assert_eq!(ledger.accounts[2].amount, 4);
}

#[test]
fn namespace_tags_spell_the_seeds() {
    assert_eq!(descriptor_tag_bytes(), b"te_wrapper".to_vec());
    assert_eq!(authority_tag_bytes(), b"te_mint_authority".to_vec());
}

#[test]
fn first_wrap_opens_holder_wrapped_account() {
    let mut bridge = Bridge::new(program(), mint(), 6, original_ledger(100, 50));
    let pair = derive_addresses(&mint(), &program()).unwrap();
    let accounts = Initialize {
        wrapped_mint: pair.descriptor.address,
        mint_authority: pair.authority.address,
    };
    assert_eq!(initialize(&mut bridge, &accounts), Ok(()));
    assert_eq!(bridge.wrapped.accounts.len(), 0);
    assert_eq!(
        wrap(&mut bridge, &wrap_accounts(HOLDER, 1), 10),
        Err(ExchangeError::Ledger(LedgerError::UnknownAccount))
    );
    assert!(bridge.escrow.is_none());
    assert_eq!(bridge.original.accounts.len(), 2);
    assert_eq!(wrap(&mut bridge, &wrap_accounts(HOLDER, 0), 10), Ok(()));
    assert_eq!(bridge.wrapped.accounts.len(), 1);
    assert_eq!(bridge.wrapped.accounts[0].amount, 10);
    assert!(!bridge.wrapped.accounts[0].frozen);
    assert_eq!(escrow_balance(&bridge), 10);
    assert_eq!(wrap(&mut bridge, &wrap_accounts(HOLDER, 0), 7), Ok(()));
    assert_eq!(bridge.wrapped.accounts.len(), 1);
    assert_eq!(bridge.wrapped.accounts[0].amount, 17);
    assert_eq!(wrap(&mut bridge, &wrap_accounts(OTHER, 1), 5), Ok(()));
    assert_eq!(bridge.wrapped.accounts.len(), 2);
    assert_eq!(bridge.wrapped.accounts[1].amount, 5);
    assert_eq!(bridge.wrapped.supply, 22);
    assert_eq!(unwrap(&mut bridge, &unwrap_accounts(OTHER, 1), 5), Ok(()));
    assert_eq!(bridge.original.accounts[OTHER].amount, 50);
}
