use solana_sdk::program_option::COption;
use solana_sdk::program_pack::Pack;
use spl_token_2022::state::{Account, AccountState, Mint};
use token_cli_config::programs::{
    account_mint, associated_token_address, default_program_id, has_associated_token_address,
    mint_decimals,
};
use token_cli_config::pubkey::Pubkey;

fn outside(key: &Pubkey) -> solana_sdk::pubkey::Pubkey {
    solana_sdk::pubkey::Pubkey::from(key.bytes)
}

fn mint_data(decimals: u8, is_initialized: bool) -> Vec<u8> {
    let mint = Mint {
        mint_authority: COption::None,
        supply: 77,
        decimals,
        is_initialized,
        freeze_authority: COption::None,
    };
    let mut data = vec![0u8; Mint::LEN];
    mint.pack_into_slice(&mut data);
    data
}

fn account_data(mint: &Pubkey, state: AccountState) -> Vec<u8> {
    let account = Account {
        mint: outside(mint),
        owner: outside(&Pubkey { bytes: [5; 32] }),
        amount: 3,
        delegate: COption::None,
        state,
        is_native: COption::None,
        delegated_amount: 0,
        close_authority: COption::None,
    };
    let mut data = vec![0u8; Account::LEN];
    account.pack_into_slice(&mut data);
    data
}

#[test]
fn the_default_program_is_the_token_program() {
    assert_eq!(default_program_id().text(), "TokenkegQfeZyiNwAJbNbGKPFXCWuBvf9Ss623VQ5DA");
}

#[test]
fn decimals_are_read_from_a_mint() {
    assert_eq!(mint_decimals(mint_data(9, true)), Some(9));
    assert_eq!(mint_decimals(mint_data(0, true)), Some(0));
    assert_eq!(mint_data(9, true)[44], 9);
}

#[test]
fn what_is_no_mint_has_no_decimals() {
    assert_eq!(mint_decimals(mint_data(9, false)), None);
    assert_eq!(mint_decimals(Vec::new()), None);
    assert_eq!(mint_decimals(vec![0; 81]), None);
    let token = Pubkey { bytes: [7; 32] };
    assert_eq!(mint_decimals(account_data(&token, AccountState::Initialized)), None);
}

fn with_byte(mut data: Vec<u8>, at: usize, byte: u8) -> Vec<u8> {
    data[at] = byte;
    data
}

/// The data, zeros up to the byte that tells the kind of the account, and behind it so many more
/// bytes.
fn extended(mut data: Vec<u8>, account_type: u8, more: usize) -> Vec<u8> {
    data.resize(165, 0);
    data.push(account_type);
    data.resize(166 + more, 7);
    data
}

#[test]
fn a_mint_may_have_extensions_of_a_mint() {
    let mint = || mint_data(9, true);
    assert_eq!(mint_decimals(extended(mint(), 1, 1)), Some(9));
    assert_eq!(mint_decimals(extended(mint(), 1, 200)), Some(9));
    assert_eq!(mint_decimals(extended(mint(), 1, 0)), None);
    assert_eq!(mint_decimals(extended(mint(), 0, 1)), None);
    assert_eq!(mint_decimals(extended(mint(), 2, 1)), None);
    assert_eq!(mint_decimals(extended(mint(), 3, 1)), None);
    assert_eq!(mint_decimals(extended(mint(), 1, 188)), Some(9));
    assert_eq!(mint_decimals(extended(mint(), 1, 189)), None);
    assert_eq!(extended(mint(), 1, 189).len(), 355);
    assert_eq!(mint_decimals(with_byte(extended(mint(), 1, 1), 82, 1)), None);
    assert_eq!(mint_decimals(with_byte(extended(mint(), 1, 1), 164, 1)), None);
    let mut longer = mint();
    longer.push(0);
    assert_eq!(mint_decimals(longer), None);
}

#[test]
fn the_bytes_of_a_mint_decide_whether_it_is_one() {
    let mint = || mint_data(9, true);
    for tag in [0, 46] {
        assert_eq!(mint_decimals(with_byte(mint(), tag, 1)), Some(9));
        assert_eq!(mint_decimals(with_byte(mint(), tag, 2)), None);
        for high in 1..4 {
            assert_eq!(mint_decimals(with_byte(mint(), tag + high, 1)), None);
        }
    }
    assert_eq!(mint_decimals(with_byte(mint(), 45, 2)), None);
    for free in (4..44).chain(50..82) {
        assert_eq!(mint_decimals(with_byte(mint(), free, 255)), Some(9));
    }
    assert_eq!(mint_decimals(with_byte(mint(), 44, 255)), Some(255));
}

#[test]
fn a_token_account_may_have_extensions_of_a_token_account() {
    let token = Pubkey { bytes: [7; 32] };
    let account = || account_data(&token, AccountState::Initialized);
    assert_eq!(account_mint(extended(account(), 2, 1)), Some(token));
    assert_eq!(account_mint(extended(account(), 2, 0)), None);
    assert_eq!(account_mint(extended(account(), 0, 1)), None);
    assert_eq!(account_mint(extended(account(), 1, 1)), None);
    assert_eq!(account_mint(extended(account(), 2, 190)), Some(token));
    assert_eq!(account_mint(extended(account(), 2, 189)), None);
    assert_eq!(mint_decimals(extended(account(), 2, 1)), None);
    assert_eq!(account_mint(extended(mint_data(9, true), 1, 1)), None);
}

#[test]
fn the_bytes_of_a_token_account_decide_whether_it_is_one() {
    let token = Pubkey { bytes: [7; 32] };
    let account = || account_data(&token, AccountState::Initialized);
    for tag in [72, 109, 129] {
        assert_eq!(account_mint(with_byte(account(), tag, 1)), Some(token));
        assert_eq!(account_mint(with_byte(account(), tag, 2)), None);
        for high in 1..4 {
            assert_eq!(account_mint(with_byte(account(), tag + high, 1)), None);
        }
    }
    assert_eq!(account_mint(with_byte(account(), 108, 0)), None);
    assert_eq!(account_mint(with_byte(account(), 108, 2)), Some(token));
    assert_eq!(account_mint(with_byte(account(), 108, 3)), None);
    let free = (32..72).chain(76..108).chain(113..129).chain(133..165);
    for at in free {
        assert_eq!(account_mint(with_byte(account(), at, 255)), Some(token));
    }
    assert_eq!(account_mint(account()[..164].to_vec()), None);
}

#[test]
fn the_mint_is_read_from_a_token_account() {
    let token = Pubkey { bytes: [7; 32] };
    assert_eq!(account_mint(account_data(&token, AccountState::Initialized)), Some(token));
    assert_eq!(account_mint(account_data(&token, AccountState::Frozen)), Some(token));
}

#[test]
fn what_is_no_token_account_has_no_mint() {
    let token = Pubkey { bytes: [7; 32] };
    assert_eq!(account_mint(account_data(&token, AccountState::Uninitialized)), None);
    assert_eq!(account_mint(mint_data(9, true)), None);
    assert_eq!(account_mint(Vec::new()), None);
}

#[test]
fn the_associated_address_is_found_for_wallet_program_and_mint() {
    let wallet = Pubkey { bytes: [1; 32] };
    let mint = Pubkey { bytes: [2; 32] };
    let program = default_program_id();
    assert!(has_associated_token_address(&wallet, &mint, &program));
    let (expected, _) = solana_sdk::pubkey::Pubkey::find_program_address(
        &[&wallet.bytes, &program.bytes, &mint.bytes],
        &Pubkey::parse("ATokenGPvbdGVxr1b2hvZbsiqW5xWH25efTNsLJA8knL")
            .map(|key| outside(&key))
            .unwrap(),
    );
    let address = associated_token_address(&wallet, &mint, &program);
    assert_eq!(address.bytes, expected.to_bytes());
    assert_ne!(associated_token_address(&mint, &wallet, &program), address);
}
