use token_cli_config::args::ArgMatches;
use token_cli_config::cli_config::{
    connection, keypair_components, settings_components, CliConfig, ClientKind,
};
use token_cli_config::config::Config;
use token_cli_config::pubkey::Blockhash;
use token_cli_config::urls::{normalize_url, websocket_url};

fn settings(json_rpc_url: &str) -> CliConfig {
    let mut settings = Config::<u64>::default("/home/me/id.json".to_string());
    settings.json_rpc_url = json_rpc_url.to_string();
    settings
}

#[test]
fn monikers_stand_for_the_urls_of_clusters() {
    assert_eq!(normalize_url("m"), "https://api.mainnet-beta.solana.com");
    assert_eq!(normalize_url("mainnet-beta"), "https://api.mainnet-beta.solana.com");
    assert_eq!(normalize_url("t"), "https://api.testnet.solana.com");
    assert_eq!(normalize_url("testnet"), "https://api.testnet.solana.com");
    assert_eq!(normalize_url("d"), "https://api.devnet.solana.com");
    assert_eq!(normalize_url("devnet"), "https://api.devnet.solana.com");
    assert_eq!(normalize_url("l"), "http://localhost:8899");
    assert_eq!(normalize_url("localhost"), "http://localhost:8899");
    assert_eq!(normalize_url("https://node.example"), "https://node.example");
    assert_eq!(normalize_url("M"), "M");
}

#[test]
fn the_websocket_is_at_the_next_port() {
    assert_eq!(websocket_url("http://localhost:8899").unwrap(), "ws://localhost:8900/");
    assert_eq!(websocket_url("https://example.com:1234").unwrap(), "wss://example.com:1235/");
    assert_eq!(websocket_url("http://api.devnet.solana.com").unwrap(), "ws://api.devnet.solana.com/");
    assert_eq!(
        websocket_url("https://api.devnet.solana.com").unwrap(),
        "wss://api.devnet.solana.com/"
    );
    assert_eq!(websocket_url("http://example.com:79/a?b#c").unwrap(), "ws://example.com/a?b#c");
    assert_eq!(websocket_url("https://example.com:442").unwrap(), "wss://example.com/");
    assert_eq!(websocket_url("https://example.com:79").unwrap(), "wss://example.com:80/");
    assert_eq!(websocket_url("ftp://example.com").unwrap(), "ws://example.com/");
    assert_eq!(websocket_url("file://host/x").unwrap(), "ws://host/x");
}

#[test]
fn a_url_that_becomes_longer_is_made_all_the_same() {
    assert_eq!(websocket_url("ws://example.com:9999/a?b#c").unwrap(), "ws://example.com:10000/a?b#c");
    assert_eq!(websocket_url("ws://example.com:9").unwrap(), "ws://example.com:10/");
    assert_eq!(websocket_url("ws://example.com:8").unwrap(), "ws://example.com:9/");
    assert_eq!(websocket_url("wss://example.com:99").unwrap(), "ws://example.com:100/");
    assert_eq!(websocket_url("ftp://example.com:80").unwrap(), "ws://example.com:81/");
}

#[test]
fn a_websocket_address_need_not_read_as_a_url() {
    let name: String =
        (0..1000u32).map(|i| char::from_u32(0x4e00 + 20 * i).unwrap()).collect();
    let made = websocket_url(&format!("https://{}/", name)).unwrap();
    assert!(made.starts_with("wss://xn--"));
    assert!(url::Url::parse(&made).is_err());
    assert_eq!(websocket_url(&made).unwrap(), "");
}

#[test]
fn what_is_no_url_has_the_empty_websocket_address() {
    assert_eq!(websocket_url("garbage").unwrap(), "");
    assert_eq!(websocket_url("").unwrap(), "");
}

#[test]
fn no_websocket_address_is_made_of_other_schemes_and_the_last_port() {
    assert!(websocket_url("mailto:someone").is_none());
    assert!(websocket_url("file:///tmp/x").is_none());
    assert!(websocket_url("gopher://example.com").is_none());
    assert!(websocket_url("http://localhost:65535").is_none());
    assert_eq!(websocket_url("http://localhost:65534").unwrap(), "ws://localhost:65535/");
}

#[test]
fn the_given_url_comes_before_that_of_the_settings() {
    let matches = ArgMatches::new()
        .with_arg("json_rpc_url".to_string(), vec!["l".to_string()]);
    let made = connection(&matches, &settings("d")).unwrap();
    assert_eq!(made.json_rpc_url, "http://localhost:8899");
    assert_eq!(made.websocket_url, "ws://localhost:8900/");
    assert!(matches!(made.client, ClientKind::Rpc));

    let made = connection(&ArgMatches::new(), &settings("d")).unwrap();
    assert_eq!(made.json_rpc_url, "https://api.devnet.solana.com");
    assert_eq!(made.websocket_url, "wss://api.devnet.solana.com/");
}

#[test]
fn a_url_without_a_websocket_makes_no_connection() {
    let refused = connection(&ArgMatches::new(), &settings("mailto:someone"));
    assert_eq!(refused.unwrap_err(), "mailto:someone");
}

#[test]
fn signing_only_is_done_offline_for_the_given_block_hash() {
    let matches = ArgMatches::new().with_arg("sign_only".to_string(), Vec::new());
    let made = connection(&matches, &settings("l")).unwrap();
    match made.client {
        ClientKind::Offline(hash) => assert_eq!(hash, Blockhash::zero()),
        ClientKind::Rpc => panic!("not offline"),
    }
    let hash = solana_sdk::hash::hash(b"block");
    let matches = matches.with_arg("blockhash".to_string(), vec![hash.to_string()]);
    let made = connection(&matches, &settings("l")).unwrap();
    match made.client {
        ClientKind::Offline(given) => assert_eq!(given.bytes, hash.to_bytes()),
        ClientKind::Rpc => panic!("not offline"),
    }
}

#[test]
fn the_default_settings_are_those_of_the_openverse_network() {
    let settings = Config::<u64>::default("/home/me/.config/openos/id.json".to_string());
    assert_eq!(settings.json_rpc_url, "https://api.mainnet.openverse.network");
    assert_eq!(settings.websocket_url, "");
    assert_eq!(settings.keypair_path, "/home/me/.config/openos/id.json");
    assert_eq!(
        settings.address_labels,
        vec![("11111111111111111111111111111111".to_string(), "System Program".to_string())]
    );
    assert_eq!(settings.commitment, "confirmed");
    assert_eq!(settings_components(), vec![".config", "openos", "cli", "config.yml"]);
    assert_eq!(keypair_components(), vec![".config", "openos", "id.json"]);
}
