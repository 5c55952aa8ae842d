use solana_sdk::program_option::COption;
use solana_sdk::program_pack::Pack;
use std::sync::Arc;
use token_cli_config::args::ArgMatches;
use token_cli_config::config::{Config, OutputFormat, RawAccount};
use token_cli_config::error::{Error, Failure};
use token_cli_config::pubkey::Pubkey;
use token_cli_config::signer::LoadedSigner;

fn key(byte: u8) -> Pubkey {
    Pubkey { bytes: [byte; 32] }
}

fn signer(id: u64) -> LoadedSigner<u64> {
    LoadedSigner { signer: Arc::new(id), pubkey: key(id as u8) }
}

fn config(sign_only: bool) -> Config<u64> {
    Config {
        default_signer: Some(signer(1)),
        websocket_url: "ws://localhost:8900/".to_string(),
        output_format: OutputFormat::Display,
        fee_payer: Some(signer(2)),
        nonce_account: None,
        nonce_authority: None,
        nonce_blockhash: None,
        sign_only,
        dump_transaction_message: false,
        multisigner_pubkeys: Vec::new(),
        program_id: key(50),
        restrict_to_program_id: false,
    }
}

fn account(owner: Pubkey, data: Vec<u8>) -> RawAccount {
    RawAccount { lamports: 5, data, owner, executable: false, rent_epoch: 6 }
}

fn mint_data(decimals: u8) -> Vec<u8> {
    let mint = spl_token_2022::state::Mint {
        mint_authority: COption::None,
        supply: 0,
        decimals,
        is_initialized: true,
        freeze_authority: COption::None,
    };
    let mut data = vec![0u8; 82];
    mint.pack_into_slice(&mut data);
    data
}

fn account_data(mint: &Pubkey) -> Vec<u8> {
    let account = spl_token_2022::state::Account {
        mint: solana_sdk::pubkey::Pubkey::from(mint.bytes),
        state: spl_token_2022::state::AccountState::Initialized,
        ..spl_token_2022::state::Account::default()
    };
    let mut data = vec![0u8; 165];
    account.pack_into_slice(&mut data);
    data
}

fn text(byte: u8) -> String {
    solana_sdk::pubkey::Pubkey::from([byte; 32]).to_string()
}

#[test]
fn the_default_signer_is_the_configured_one() {
    assert_eq!(*config(false).default_signer().ok().unwrap().signer, 1);
    let mut without = config(false);
    without.default_signer = None;
    let error = without.default_signer().err().unwrap();
    assert!(matches!(error, Error::NoDefaultSigner));
    assert_eq!(
        error.message(),
        "default signer is required, please specify a valid default signer by identifying a \
         valid configuration file using the --config argument, or by creating a valid config \
         at the default location of ~/.config/solana/cli/config.yml using the solana config \
         command"
    );
}

#[test]
fn the_fee_payer_is_the_configured_one() {
    assert_eq!(*config(false).fee_payer().ok().unwrap().signer, 2);
    let mut without = config(false);
    without.fee_payer = None;
    let error = without.fee_payer().err().unwrap();
    assert!(matches!(error, Error::NoFeePayer));
    assert_eq!(
        error.message(),
        "fee payer is required, please specify a valid fee payer using the --fee-payer argument, \
         or by identifying a valid configuration file using the --config argument, or by creating \
         a valid config at the default location of ~/.config/solana/cli/config.yml using the solana \
         config command"
    );
}

#[test]
fn a_given_address_comes_before_that_of_the_default_signer() {
    let mut config = config(false);
    assert_eq!(config.pubkey_or_default(Ok(Some(key(9)))).unwrap(), key(9));
    assert_eq!(config.pubkey_or_default(Ok(None)).unwrap(), key(1));
    let error = config.pubkey_or_default(Err("no wallet".to_string())).unwrap_err();
    assert!(matches!(error, Error::NotLoaded(_)));
    assert_eq!(error.message(), "no wallet");
    config.default_signer = None;
    assert_eq!(config.pubkey_or_default(Ok(Some(key(9)))).unwrap(), key(9));
    assert!(matches!(config.pubkey_or_default(Ok(None)), Err(Error::NoDefaultSigner)));
}

#[test]
fn a_given_signer_comes_before_the_default_signer() {
    let mut config = config(false);
    let matches = ArgMatches::new()
        .with_arg("mint_authority".to_string(), vec!["mint.json".to_string()])
        .with_arg("owner".to_string(), vec!["owner.json".to_string()]);
    let request = config.signer_request(&matches, "mint_authority").unwrap();
    assert_eq!(request.path, "mint.json");
    assert_eq!(request.keypair_name, "mint_authority");
    assert!(!request.allow_null_signer);
    let loaded = config.signer_or_default(&matches, "mint_authority", Some(Ok(signer(7))));
    assert_eq!(*loaded.ok().unwrap().signer, 7);
    let error = config
        .signer_or_default(&matches, "mint_authority", Some(Err("locked".to_string())))
        .err()
        .unwrap();
    assert_eq!(error.message(), "locked");

    config.multisigner_pubkeys = vec![key(3)];
    assert!(config.signer_request(&matches, "mint_authority").unwrap().allow_null_signer);

    assert!(config.signer_request(&matches, "owner").is_none());
    assert_eq!(*config.signer_or_default(&matches, "owner", None).ok().unwrap().signer, 1);
    assert!(config.signer_request(&matches, "freeze_authority").is_none());
    config.default_signer = None;
    let error = config.signer_or_default(&matches, "freeze_authority", None).err().unwrap();
    assert!(matches!(error, Error::NoDefaultSigner));
}

#[test]
fn an_account_must_belong_to_the_program() {
    let config = config(false);
    let found = config.get_account_checked(&key(8), Ok(Some(account(key(50), vec![1, 2])))).unwrap();
    assert_eq!(found.data, vec![1, 2]);
    assert_eq!(found.owner, key(50));
    assert_eq!(found.lamports, 5);
    assert_eq!(found.rent_epoch, 6);
    assert!(!found.executable);

    let error = config
        .get_account_checked(&key(8), Ok(Some(account(key(51), vec![1, 2]))))
        .unwrap_err();
    assert_eq!(
        error.message(),
        format!(
            "Account {} is owned by {}, not configured program id {}",
            text(8),
            text(51),
            text(50)
        )
    );
    let error = config.get_account_checked(&key(8), Ok(None)).unwrap_err();
    assert_eq!(error.message(), format!("Account {} not found", text(8)));
}

#[test]
fn a_mint_must_have_the_expected_decimals() {
    let config = config(false);
    assert!(config.fetches_accounts());
    let mint = config
        .get_mint_info(&key(8), None, Ok(Some(account(key(50), mint_data(6)))))
        .unwrap();
    assert_eq!(mint.address, key(8));
    assert_eq!(mint.program_id, key(50));
    assert_eq!(mint.decimals, 6);
    let mint = config
        .get_mint_info(&key(8), Some(6), Ok(Some(account(key(50), mint_data(6)))))
        .unwrap();
    assert_eq!(mint.decimals, 6);

    let error = config
        .get_mint_info(&key(8), Some(255), Ok(Some(account(key(50), mint_data(10)))))
        .unwrap_err();
    assert_eq!(
        error.message(),
        format!("Mint {} has decimals 10, not configured decimals 255", text(8))
    );
    let error = config
        .get_mint_info(&key(8), None, Ok(Some(account(key(50), vec![0; 82]))))
        .unwrap_err();
    assert_eq!(error.message(), format!("Could not find mint account {}", text(8)));
    let error = config
        .get_mint_info(&key(8), None, Ok(Some(account(key(51), mint_data(6)))))
        .unwrap_err();
    assert!(matches!(error, Error::WrongOwner { .. }));
    let error = config.get_mint_info(&key(8), None, Ok(None)).unwrap_err();
    assert!(matches!(error, Error::AccountNotFound(_)));
}

#[test]
fn an_account_that_could_not_be_fetched_is_not_found() {
    let unreachable = || Err("no connection".to_string());
    let message = format!("Account {} not found", text(8));
    let online = config(false);
    assert_eq!(online.get_account_checked(&key(8), unreachable()).unwrap_err().message(), message);
    assert_eq!(online.get_mint_info(&key(8), None, unreachable()).unwrap_err().message(), message);
    assert_eq!(online.check_account(&key(8), None, unreachable()).unwrap_err().message(), message);
    let offline = config(true);
    assert_eq!(offline.get_mint_info(&key(8), Some(3), unreachable()).unwrap().decimals, 3);
    assert_eq!(offline.check_account(&key(8), Some(key(9)), unreachable()).unwrap(), key(9));
}

#[test]
fn an_authority_comes_with_its_own_address() {
    let config = config(false);
    let matches = ArgMatches::new()
        .with_arg("mint_authority".to_string(), vec!["mint.json".to_string()]);
    let given = config.signer_or_default(&matches, "mint_authority", Some(Ok(signer(7))));
    let given = given.ok().unwrap();
    assert_eq!(given.pubkey, key(*given.signer as u8));
    let default = config.signer_or_default(&matches, "owner", None).ok().unwrap();
    assert_eq!(default.pubkey, key(*default.signer as u8));
}

#[test]
fn signing_only_takes_mints_as_they_are_given() {
    let config = config(true);
    assert!(!config.fetches_accounts());
    let mint = config.get_mint_info(&key(8), Some(4), Ok(None)).unwrap();
    assert_eq!(mint.address, key(8));
    assert_eq!(mint.program_id, key(50));
    assert_eq!(mint.decimals, 4);
    assert_eq!(config.get_mint_info(&key(8), None, Ok(None)).unwrap().decimals, 0);
    assert_eq!(config.check_account(&key(8), Some(key(9)), Ok(None)).unwrap(), key(9));
    assert_eq!(config.check_account(&key(8), None, Ok(None)).unwrap(), Pubkey::zero());
}

#[test]
fn a_token_account_must_have_the_expected_mint() {
    let config = config(false);
    let fetched = || Ok(Some(account(key(50), account_data(&key(9)))));
    assert_eq!(config.check_account(&key(8), None, fetched()).unwrap(), key(9));
    assert_eq!(config.check_account(&key(8), Some(key(9)), fetched()).unwrap(), key(9));
    let error = config.check_account(&key(8), Some(key(10)), fetched()).unwrap_err();
    assert_eq!(
        error.message(),
        format!("Source {} does not contain {} tokens", text(8), text(10))
    );
    let error = config
        .check_account(&key(8), None, Ok(Some(account(key(50), Vec::new()))))
        .unwrap_err();
    assert_eq!(error.message(), format!("Could not find token account {}", text(8)));
    let error = config
        .check_account(&key(8), None, Ok(Some(account(key(52), account_data(&key(9))))))
        .unwrap_err();
    assert!(matches!(error, Error::WrongOwner { .. }));
    let error = config.check_account(&key(8), None, Ok(None)).unwrap_err();
    assert!(matches!(error, Error::AccountNotFound(_)));
}

#[test]
fn messages_write_addresses_alike_for_display_and_debug() {
    let outside = solana_sdk::pubkey::Pubkey::from([8; 32]);
    assert_eq!(format!("{:?}", outside), key(8).text());
    assert_eq!(format!("{}", outside), key(8).text());
}

#[test]
fn the_associated_address_is_that_of_the_owner() {
    let config = config(false);
    let address = config
        .associated_token_address_if_any(&key(8), &key(1), &key(50))
        .unwrap()
        .unwrap();
    let outside = |byte: u8| solana_sdk::pubkey::Pubkey::from([byte; 32]);
    let expected = spl_associated_token_account::get_associated_token_address_with_program_id(
        &outside(1),
        &outside(8),
        &outside(50),
    );
    assert_eq!(address.bytes, expected.to_bytes());
    let same = config
        .associated_token_address_for_token_and_program(&key(8), &key(1), &key(50))
        .unwrap();
    assert_eq!(same, address);
}

#[test]
fn failures_say_what_stood_in_the_way() {
    assert_eq!(
        Failure::ConfigFileNotFound("a.yml".to_string()).message(),
        "error: Could not find config file `a.yml`"
    );
    assert_eq!(Failure::NotLoaded("no wallet".to_string()).message(), "error: no wallet");
    assert_eq!(
        Failure::NoWebsocketUrl("mailto:x".to_string()).message(),
        "error: No websocket url for `mailto:x`"
    );
}
