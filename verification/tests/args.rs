use token_cli_config::args::{
    ArgMatches, BLOCKHASH_ARG, DUMP_TRANSACTION_MESSAGE_ARG, NONCE_ARG, NONCE_AUTHORITY_ARG,
    SIGN_ONLY_ARG,
};
use token_cli_config::pubkey::{Blockhash, Pubkey};

fn texts(values: &[&str]) -> Vec<String> {
    values.iter().map(|value| value.to_string()).collect()
}

#[test]
fn values_are_found_by_the_name_of_their_argument() {
    let matches = ArgMatches::new()
        .with_arg("owner".to_string(), texts(&["a", "b"]))
        .with_arg("verbose".to_string(), texts(&[]));
    assert_eq!(matches.value_of("owner"), Some("a"));
    assert_eq!(matches.values_of("owner"), Some(&texts(&["a", "b"])));
    assert_eq!(matches.value_of("verbose"), None);
    assert_eq!(matches.values_of("verbose"), Some(&texts(&[])));
    assert!(matches.is_present("verbose"));
    assert_eq!(matches.value_of("token"), None);
    assert_eq!(matches.values_of("token"), None);
    assert!(!matches.is_present("token"));
}

#[test]
fn an_argument_given_again_has_its_new_values() {
    let matches = ArgMatches::new()
        .with_arg("owner".to_string(), texts(&["a"]))
        .with_arg("token".to_string(), texts(&["t"]))
        .with_arg("owner".to_string(), texts(&["b"]));
    assert_eq!(matches.value_of("owner"), Some("b"));
    assert_eq!(matches.value_of("token"), Some("t"));
}

#[test]
fn a_subcommand_is_present_under_its_name() {
    let matches = ArgMatches::new().with_subcommand("sign_only".to_string());
    assert!(matches.is_present("sign_only"));
    assert_eq!(matches.value_of("sign_only"), None);
    assert!(!matches.is_present("verbose"));
}

#[test]
fn addresses_and_hashes_are_read_from_values() {
    let key = solana_sdk::pubkey::Pubkey::new_unique();
    let hash = solana_sdk::hash::Hash::new_unique();
    let matches = ArgMatches::new()
        .with_arg("token".to_string(), vec![key.to_string()])
        .with_arg("blockhash".to_string(), vec![hash.to_string()])
        .with_arg("account".to_string(), texts(&["no address"]));
    assert_eq!(matches.pubkey_of("token"), Some(Pubkey { bytes: key.to_bytes() }));
    assert_eq!(matches.blockhash_of("blockhash"), Some(Blockhash { bytes: hash.to_bytes() }));
    assert_eq!(matches.pubkey_of("account"), None);
    assert_eq!(matches.pubkey_of("address"), None);
    assert_eq!(matches.blockhash_of("account"), None);
}

#[test]
fn arguments_are_named_as_the_command_line_tools_name_them() {
    assert_eq!(BLOCKHASH_ARG, solana_clap_utils::offline::BLOCKHASH_ARG.name);
    assert_eq!(SIGN_ONLY_ARG, solana_clap_utils::offline::SIGN_ONLY_ARG.name);
    assert_eq!(
        DUMP_TRANSACTION_MESSAGE_ARG,
        solana_clap_utils::offline::DUMP_TRANSACTION_MESSAGE.name
    );
    assert_eq!(NONCE_ARG, solana_clap_utils::nonce::NONCE_ARG.name);
    assert_eq!(NONCE_AUTHORITY_ARG, solana_clap_utils::nonce::NONCE_AUTHORITY_ARG.name);
}
