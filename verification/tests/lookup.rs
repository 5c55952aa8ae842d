use solana_sdk::program_option::COption;
use solana_sdk::program_pack::Pack;
use std::sync::Arc;
use token_cli_config::address_lookup::AddressLookup;
use token_cli_config::config::{Config, OutputFormat, RawAccount};
use token_cli_config::error::Error;
use token_cli_config::protocol::{Reply, Request};
use token_cli_config::pubkey::Pubkey;
use token_cli_config::signer::LoadedSigner;

fn key(byte: u8) -> Pubkey {
    Pubkey { bytes: [byte; 32] }
}

fn config(sign_only: bool) -> Config<u64> {
    Config {
        default_signer: Some(LoadedSigner { signer: Arc::new(1), pubkey: key(1) }),
        websocket_url: String::new(),
        output_format: OutputFormat::Display,
        fee_payer: None,
        nonce_account: None,
        nonce_authority: None,
        nonce_blockhash: None,
        sign_only,
        dump_transaction_message: false,
        multisigner_pubkeys: Vec::new(),
        program_id: key(50),
        restrict_to_program_id: false,
    }
}

fn mint_account(owner: Pubkey) -> RawAccount {
    let mint = spl_token_2022::state::Mint {
        mint_authority: COption::None,
        supply: 0,
        decimals: 2,
        is_initialized: true,
        freeze_authority: COption::None,
    };
    let mut data = vec![0u8; 82];
    mint.pack_into_slice(&mut data);
    RawAccount { lamports: 0, data, owner, executable: false, rent_epoch: 0 }
}

fn associated(owner: u8, token: u8, program: u8) -> Pubkey {
    let outside = |byte: u8| solana_sdk::pubkey::Pubkey::from([byte; 32]);
    let address = spl_associated_token_account::get_associated_token_address_with_program_id(
        &outside(owner),
        &outside(token),
        &outside(program),
    );
    Pubkey { bytes: address.to_bytes() }
}

/// Answers the questions of a lookup by the addresses that were given for arguments.
fn finish(
    config: &Config<u64>,
    lookup: AddressLookup,
    given: &[(&str, Result<Option<Pubkey>, String>)],
    asked: &mut Vec<String>,
) -> Option<Result<Pubkey, Error>> {
    let mut lookup = lookup;
    while let Some(request) = lookup.request() {
        let reply = match request {
            Request::PubkeyOf { name } => {
                asked.push(name.clone());
                Reply::Pubkey(
                    given
                        .iter()
                        .find(|one| one.0 == name)
                        .map(|one| one.1.clone())
                        .unwrap_or(Ok(None)),
                )
            }
            Request::FetchAccount { address } => {
                asked.push(format!("account {}", address.bytes[0]));
                Reply::Account(if address == key(8) {
                    Ok(Some(mint_account(key(50))))
                } else if address == key(9) {
                    Ok(Some(mint_account(key(51))))
                } else if address == key(10) {
                    Ok(None)
                } else {
                    Err("no connection".to_string())
                })
            }
            _ => panic!("nothing else is asked"),
        };
        lookup = lookup.advance(config, reply);
    }
    lookup.finish()
}

#[test]
fn a_given_token_account_is_the_one() {
    let config = config(false);
    let mut asked = Vec::new();
    let lookup = config.associated_token_address_or_override("account");
    let found = finish(&config, lookup, &[("account", Ok(Some(key(20))))], &mut asked);
    assert_eq!(found.unwrap().unwrap(), key(20));
    assert_eq!(asked, vec!["token", "account"]);
}

#[test]
fn else_it_is_the_associated_one_of_the_default_signer() {
    let config = config(false);
    let mut asked = Vec::new();
    let lookup = config.associated_token_address_or_override("account");
    let found = finish(&config, lookup, &[("token", Ok(Some(key(8))))], &mut asked);
    assert_eq!(found.unwrap().unwrap(), associated(1, 8, 50));
    assert_eq!(asked, vec!["token", "account", "account 8", "owner"]);
}

#[test]
fn or_of_the_owner_that_was_given() {
    let config = config(false);
    let mut asked = Vec::new();
    let lookup =
        config.associated_token_address_for_token_or_override("account", Some(key(8)));
    assert!(!lookup.needs_override());
    let found = finish(&config, lookup, &[("owner", Ok(Some(key(2))))], &mut asked);
    assert_eq!(found.unwrap().unwrap(), associated(2, 8, 50));
    assert_eq!(asked, vec!["account", "account 8", "owner"]);
}

#[test]
fn signing_only_looks_up_without_accounts() {
    let config = config(true);
    let mut asked = Vec::new();
    let lookup = config.associated_token_address_or_override("account");
    let found = finish(&config, lookup, &[("token", Ok(Some(key(30))))], &mut asked);
    assert_eq!(found.unwrap().unwrap(), associated(1, 30, 50));
    assert_eq!(asked, vec!["token", "account", "owner"]);
}

#[test]
fn what_goes_wrong_ends_the_lookup() {
    let mut config = config(false);
    let mut asked = Vec::new();
    let wrong = |text: &str| Err(text.to_string());

    let lookup = config.associated_token_address_or_override("account");
    let found = finish(&config, lookup, &[("token", wrong("no token"))], &mut asked);
    assert_eq!(found.unwrap().unwrap_err().message(), "no token");

    let lookup = config.associated_token_address_or_override("account");
    let found = finish(&config, lookup, &[("account", wrong("no account"))], &mut asked);
    assert_eq!(found.unwrap().unwrap_err().message(), "no account");

    let lookup = config.associated_token_address_for_token_or_override("account", Some(key(9)));
    let found = finish(&config, lookup, &[], &mut asked);
    assert!(matches!(found.unwrap().unwrap_err(), Error::WrongOwner { .. }));

    let lookup = config.associated_token_address_for_token_or_override("account", Some(key(10)));
    let found = finish(&config, lookup, &[], &mut asked);
    assert!(matches!(found.unwrap().unwrap_err(), Error::AccountNotFound(_)));

    let lookup = config.associated_token_address_for_token_or_override("account", Some(key(11)));
    let found = finish(&config, lookup, &[], &mut asked);
    assert!(matches!(found.unwrap().unwrap_err(), Error::AccountNotFound(_)));

    let lookup = config.associated_token_address_for_token_or_override("account", Some(key(8)));
    let found = finish(&config, lookup, &[("owner", wrong("no owner"))], &mut asked);
    assert_eq!(found.unwrap().unwrap_err().message(), "no owner");

    config.default_signer = None;
    let lookup = config.associated_token_address_for_token_or_override("account", Some(key(8)));
    let found = finish(&config, lookup, &[], &mut asked);
    assert!(matches!(found.unwrap().unwrap_err(), Error::NoDefaultSigner));
}

#[test]
fn without_a_token_an_account_has_to_be_given() {
    let config = config(false);
    let mut asked = Vec::new();
    let lookup = config.associated_token_address_for_token_or_override("account", None);
    assert!(lookup.needs_override());
    let found = finish(&config, lookup, &[("account", Ok(Some(key(20))))], &mut asked);
    assert_eq!(found.unwrap().unwrap(), key(20));
}
