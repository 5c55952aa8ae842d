use std::sync::Arc;
use token_cli_config::args::ArgMatches;
use token_cli_config::cli_config::{CliConfig, ClientKind};
use token_cli_config::config::{Config, OutputFormat};
use token_cli_config::error::Failure;
use token_cli_config::protocol::{Reply, Request};
use token_cli_config::pubkey::Pubkey;
use token_cli_config::setup::{has_known_format, output_format, signers_of, Session, Setup, SignersOf};
use token_cli_config::signer::LoadedSigner;

fn key(byte: u8) -> Pubkey {
    Pubkey { bytes: [byte; 32] }
}

fn args(given: &[(&str, &[&str])]) -> ArgMatches {
    let mut matches = ArgMatches::new();
    for (name, values) in given {
        let values = values.iter().map(|value| value.to_string()).collect();
        matches = matches.with_arg(name.to_string(), values);
    }
    matches
}

fn settings(json_rpc_url: &str, keypair_path: &str) -> CliConfig {
    CliConfig {
        json_rpc_url: json_rpc_url.to_string(),
        websocket_url: String::new(),
        keypair_path: keypair_path.to_string(),
        address_labels: Vec::new(),
        commitment: "confirmed".to_string(),
    }
}

/// Surroundings for a setup, and the questions that it asked of them. A signer is loaded of any
/// path that is a number; it signs for the address of that byte.
struct World {
    home: bool,
    files: Vec<(&'static str, &'static str, &'static str)>,
    existing: Vec<&'static str>,
    nonce: Result<Option<Pubkey>, String>,
    owner: Option<Pubkey>,
    asked: Vec<String>,
}

impl World {
    fn new() -> World {
        World {
            home: true,
            files: Vec::new(),
            existing: Vec::new(),
            nonce: Ok(None),
            owner: None,
            asked: Vec::new(),
        }
    }

    fn reply(&mut self, request: Request) -> Reply<u64> {
        match request {
            Request::HomeFile { components, required } => {
                self.asked.push(format!("home {} {}", components.join("/"), required));
                if self.home || required {
                    Reply::HomeFile(Some(format!("/home/{}", components.join("/"))))
                } else {
                    Reply::HomeFile(None)
                }
            }
            Request::SettingsFile => {
                self.asked.push("settings file".to_string());
                Reply::SettingsFile(if self.home { Some("kept.yml".to_string()) } else { None })
            }
            Request::LoadSettings { path } => {
                self.asked.push(format!("settings {}", path));
                Reply::Settings(
                    self.files
                        .iter()
                        .find(|file| file.0 == path)
                        .map(|file| settings(file.1, file.2)),
                )
            }
            Request::DefaultSettings => {
                self.asked.push("default settings".to_string());
                Reply::DefaultSettings(settings("d", "99"))
            }
            Request::OpenClients { json_rpc_url, client } => {
                let kind = match client {
                    ClientKind::Offline(hash) => format!("offline {}", hash.bytes[0]),
                    ClientKind::Rpc => "rpc".to_string(),
                };
                self.asked.push(format!("clients {} {}", json_rpc_url, kind));
                Reply::ClientsOpen
            }
            Request::LoadSigner(request) => {
                self.asked.push(format!(
                    "signer {} {} {}",
                    request.path, request.keypair_name, request.allow_null_signer
                ));
                Reply::Signer(match request.path.parse::<u8>() {
                    Ok(byte) => {
                        Ok(LoadedSigner { signer: Arc::new(byte as u64), pubkey: key(byte) })
                    }
                    Err(_) => Err(format!("no signer {}", request.path)),
                })
            }
            Request::FileExists { path } => {
                self.asked.push(format!("exists {}", path));
                Reply::FileExists(self.existing.contains(&path.as_str()))
            }
            Request::PubkeyOf { name } => {
                self.asked.push(format!("pubkey {}", name));
                Reply::Pubkey(self.nonce.clone())
            }
            Request::AccountOwner { address } => {
                self.asked.push(format!("owner {}", address.bytes[0]));
                Reply::AccountOwner(self.owner.ok_or("no connection".to_string()))
            }
            Request::FetchAccount { .. } => panic!("no account is fetched"),
        }
    }

    fn finish(&mut self, setup: Setup<'_, u64>) -> Result<Session<u64>, Failure> {
        let mut setup = setup;
        while let Some(request) = setup.request() {
            let reply = self.reply(request);
            setup = setup.advance(reply);
        }
        setup.finish()
    }

    fn session(&mut self, matches: &ArgMatches) -> Result<Session<u64>, Failure> {
        self.finish(Config::new_with_clients_and_ws_url(
            matches,
            Vec::new(),
            Vec::new(),
            "ws://given/".to_string(),
        ))
    }

    fn all(&mut self, matches: &ArgMatches) -> Result<Session<u64>, Failure> {
        self.finish(Config::new(matches, Vec::new(), Vec::new()))
    }
}

fn id(signer: &Option<LoadedSigner<u64>>) -> Option<u64> {
    signer.as_ref().map(|one| *one.signer)
}

fn failure(result: Result<Session<u64>, Failure>) -> String {
    result.err().unwrap().message()
}

#[test]
fn without_arguments_all_comes_of_the_settings() {
    let mut world = World::new();
    world.files.push(("kept.yml", "l", "7"));
    let session = world.session(&args(&[])).ok().unwrap();
    assert_eq!(
        world.asked,
        vec!["settings file", "settings kept.yml", "signer 7 default false", "pubkey nonce"]
    );
    let config = session.config;
    assert_eq!(id(&config.default_signer), Some(7));
    assert_eq!(id(&config.fee_payer), Some(7));
    assert_eq!(config.websocket_url, "ws://given/");
    assert_eq!(config.output_format, OutputFormat::Display);
    assert_eq!(config.nonce_account, None);
    assert!(config.nonce_authority.is_none());
    assert_eq!(config.nonce_blockhash, None);
    assert!(!config.sign_only);
    assert!(!config.dump_transaction_message);
    assert!(config.multisigner_pubkeys.is_empty());
    assert_eq!(config.program_id.text(), "TokenkegQfeZyiNwAJbNbGKPFXCWuBvf9Ss623VQ5DA");
    assert!(!config.restrict_to_program_id);
    assert!(session.bulk_signers.is_empty());
}

#[test]
fn settings_that_are_not_kept_are_the_default_ones() {
    let mut world = World::new();
    let session = world.session(&args(&[])).ok().unwrap();
    assert_eq!(world.asked[..3], ["settings file", "settings kept.yml", "default settings"]);
    assert_eq!(id(&session.config.default_signer), Some(99));

    let mut world = World::new();
    world.home = false;
    let session = world.session(&args(&[])).ok().unwrap();
    assert_eq!(world.asked[..2], ["settings file", "default settings"]);
    assert_eq!(id(&session.config.default_signer), Some(99));
}

#[test]
fn a_given_settings_file_must_be_there() {
    let mut world = World::new();
    let matches = args(&[("config_file", &["mine.yml"])]);
    assert_eq!(failure(world.session(&matches)), "error: Could not find config file `mine.yml`");
    assert_eq!(world.asked, vec!["settings mine.yml"]);

    let mut world = World::new();
    world.files.push(("mine.yml", "l", "8"));
    let session = world.session(&matches).ok().unwrap();
    assert_eq!(id(&session.config.default_signer), Some(8));
}

#[test]
fn an_owner_that_cannot_be_loaded_leaves_no_default_signer() {
    let mut world = World::new();
    let matches = args(&[("owner", &["nobody"])]);
    let session = world.session(&matches).ok().unwrap();
    assert!(session.config.default_signer.is_none());
    assert!(session.config.fee_payer.is_none());
    assert!(world.asked.contains(&"signer nobody owner false".to_string()));
    assert!(!world.asked.iter().any(|question| question.starts_with("exists")));
}

#[test]
fn a_keypair_file_that_is_there_must_be_loaded() {
    let mut world = World::new();
    world.files.push(("kept.yml", "l", "id.json"));
    let session = world.session(&args(&[])).ok().unwrap();
    assert!(session.config.default_signer.is_none());
    assert!(world.asked.contains(&"exists id.json".to_string()));

    let mut world = World::new();
    world.files.push(("kept.yml", "l", "id.json"));
    world.existing.push("id.json");
    assert_eq!(failure(world.session(&args(&[]))), "error: no signer id.json");
}

#[test]
fn a_given_fee_payer_pays() {
    let mut world = World::new();
    let matches = args(&[("fee_payer", &["12"])]);
    let session = world.session(&matches).ok().unwrap();
    assert_eq!(id(&session.config.fee_payer), Some(12));
    assert_eq!(id(&session.config.default_signer), Some(99));
    assert!(world.asked.contains(&"signer 12 fee_payer false".to_string()));

    let mut world = World::new();
    let matches = args(&[("fee_payer", &["nobody"])]);
    assert_eq!(failure(world.session(&matches)), "error: no signer nobody");
}

#[test]
fn a_nonce_account_has_an_authority() {
    let mut world = World::new();
    world.nonce = Ok(Some(key(30)));
    let session = world.session(&args(&[])).ok().unwrap();
    assert_eq!(session.config.nonce_account, Some(key(30)));
    assert_eq!(id(&session.config.nonce_authority), Some(99));
    assert!(world.asked.contains(&"signer 99 nonce_authority false".to_string()));

    let mut world = World::new();
    world.nonce = Ok(Some(key(30)));
    let matches = args(&[("nonce_authority", &["31"])]);
    let session = world.session(&matches).ok().unwrap();
    assert_eq!(id(&session.config.nonce_authority), Some(31));

    let mut world = World::new();
    let session = world.session(&matches).ok().unwrap();
    assert!(session.config.nonce_authority.is_none());

    let mut world = World::new();
    world.nonce = Ok(Some(key(30)));
    let matches = args(&[("nonce_authority", &["nobody"])]);
    assert_eq!(failure(world.session(&matches)), "error: no signer nobody");

    let mut world = World::new();
    world.nonce = Err("no nonce".to_string());
    assert_eq!(failure(world.session(&args(&[]))), "error: no nonce");
}

#[test]
fn multisig_members_are_sorted_and_allow_null_signers() {
    let mut world = World::new();
    let matches = args(&[("multisig_signer", &["5", "3", "4"])]);
    let setup = Config::new_with_clients_and_ws_url(
        &matches,
        vec![Arc::new(200)],
        vec![key(77)],
        "ws://given/".to_string(),
    );
    let session = world.finish(setup).ok().unwrap();
    assert_eq!(
        world.asked[3..7],
        [
            "signer 5 multisig_signer-1 false",
            "signer 3 multisig_signer-2 false",
            "signer 4 multisig_signer-3 false",
            "signer 99 default true",
        ]
    );
    let bulk: Vec<u64> = session.bulk_signers.iter().map(|one| **one).collect();
    assert_eq!(bulk, vec![200, 3, 4, 5]);
    assert_eq!(session.multisigner_ids, vec![key(77), key(3), key(4), key(5)]);
    assert_eq!(session.config.multisigner_pubkeys, session.multisigner_ids);
}

#[test]
fn the_order_of_multisig_members_does_not_matter() {
    let ids = |given: &[&str]| {
        let session = World::new().session(&args(&[("multisig_signer", given)])).ok().unwrap();
        let keys: Vec<Pubkey> =
            session.bulk_signers.iter().map(|signer| key(**signer as u8)).collect();
        assert_eq!(keys, session.multisigner_ids);
        session.multisigner_ids
    };
    assert_eq!(ids(&["5", "3", "4", "3"]), ids(&["3", "3", "4", "5"]));
    assert_eq!(ids(&["4", "5", "3", "3"]), vec![key(3), key(3), key(4), key(5)]);
}

#[test]
fn signers_are_none_only_where_the_argument_is_absent() {
    let matches = args(&[("empty", &[]), ("members", &["5", "3"])]);
    let loaded = |byte: u8| LoadedSigner { signer: Arc::new(byte as u64), pubkey: key(byte) };
    assert!(matches!(signers_of::<u64>(&matches, "absent", Vec::new()), SignersOf::All(None)));
    match signers_of::<u64>(&matches, "empty", Vec::new()) {
        SignersOf::All(Some(all)) => assert!(all.is_empty()),
        _ => panic!("not given"),
    }
    match signers_of(&matches, "members", vec![loaded(5)]) {
        SignersOf::Next { request, loaded } => {
            assert_eq!(request.path, "3");
            assert_eq!(request.keypair_name, "members-2");
            assert!(!request.allow_null_signer);
            assert_eq!(loaded.len(), 1);
        }
        SignersOf::All(_) => panic!("nothing left"),
    }
    match signers_of(&matches, "members", vec![loaded(5), loaded(3)]) {
        SignersOf::All(Some(all)) => {
            let ids: Vec<u64> = all.iter().map(|one| *one.signer).collect();
            assert_eq!(ids, vec![5, 3]);
        }
        _ => panic!("something left"),
    }
}

#[test]
fn a_multisig_member_must_be_loaded() {
    let mut world = World::new();
    let matches = args(&[("multisig_signer", &["5", "nobody", "4"])]);
    assert_eq!(failure(world.session(&matches)), "error: no signer nobody");
    assert_eq!(world.asked.last().unwrap(), "signer nobody multisig_signer-2 false");
}

#[test]
fn a_given_program_restricts_the_session() {
    let mut world = World::new();
    world.owner = Some(key(60));
    let program = key(61).text();
    let token = key(62).text();
    let matches = args(&[("program_id", &[program.as_str()]), ("token", &[token.as_str()])]);
    let session = world.session(&matches).ok().unwrap();
    assert_eq!(session.config.program_id, key(61));
    assert!(session.config.restrict_to_program_id);
    assert!(!world.asked.iter().any(|question| question.starts_with("owner")));
}

#[test]
fn the_program_follows_the_first_account_that_was_given() {
    let token = key(62).text();
    let account = key(63).text();
    let address = key(64).text();

    let mut world = World::new();
    world.owner = Some(key(60));
    let matches = args(&[
        ("address", &[address.as_str()]),
        ("account", &[account.as_str()]),
        ("token", &[token.as_str()]),
    ]);
    let session = world.session(&matches).ok().unwrap();
    assert_eq!(session.config.program_id, key(60));
    assert!(!session.config.restrict_to_program_id);
    assert_eq!(world.asked.last().unwrap(), "owner 62");

    let mut world = World::new();
    let matches = args(&[("address", &[address.as_str()]), ("account", &[account.as_str()])]);
    let session = world.session(&matches).ok().unwrap();
    assert_eq!(session.config.program_id.text(), "TokenkegQfeZyiNwAJbNbGKPFXCWuBvf9Ss623VQ5DA");
    assert_eq!(world.asked.last().unwrap(), "owner 63");

    let mut world = World::new();
    let matches = args(&[("address", &[address.as_str()]), ("account", &["no address"])]);
    assert!(world.session(&matches).is_ok());
    assert_eq!(world.asked.last().unwrap(), "owner 64");
}

#[test]
fn signing_only_follows_no_account() {
    let token = key(62).text();
    let hash = solana_sdk::hash::hash(b"block");
    let hash_text = hash.to_string();
    let mut world = World::new();
    world.owner = Some(key(60));
    let matches = args(&[
        ("sign_only", &[]),
        ("dump_transaction_message", &[]),
        ("token", &[token.as_str()]),
        ("blockhash", &[hash_text.as_str()]),
    ]);
    let session = world.session(&matches).ok().unwrap();
    assert!(session.config.sign_only);
    assert!(session.config.dump_transaction_message);
    assert_eq!(session.config.nonce_blockhash.unwrap().bytes, hash.to_bytes());
    assert_eq!(session.config.program_id.text(), "TokenkegQfeZyiNwAJbNbGKPFXCWuBvf9Ss623VQ5DA");
    assert!(!world.asked.iter().any(|question| question.starts_with("owner")));
}

#[test]
fn only_the_json_formats_are_known() {
    assert!(has_known_format(&args(&[])));
    assert!(has_known_format(&args(&[("output_format", &[])])));
    assert!(has_known_format(&args(&[("output_format", &["json"])])));
    assert!(has_known_format(&args(&[("output_format", &["json-compact"])])));
    assert!(!has_known_format(&args(&[("output_format", &["JSON"])])));
    assert!(!has_known_format(&args(&[("output_format", &["display"])])));
}

#[test]
fn the_output_is_shown_in_the_given_format() {
    assert_eq!(output_format(&args(&[])), OutputFormat::Display);
    assert_eq!(output_format(&args(&[("verbose", &[])])), OutputFormat::DisplayVerbose);
    assert_eq!(
        output_format(&args(&[("output_format", &["json"]), ("verbose", &[])])),
        OutputFormat::Json
    );
    assert_eq!(
        output_format(&args(&[("output_format", &["json-compact"])])),
        OutputFormat::JsonCompact
    );
    let mut world = World::new();
    let session = world.session(&args(&[("output_format", &["json"])])).ok().unwrap();
    assert_eq!(session.config.output_format, OutputFormat::Json);
}

#[test]
fn the_clients_are_opened_by_the_settings_of_the_user() {
    let mut world = World::new();
    world.files.push(("/home/.config/openos/cli/config.yml", "l", "1"));
    world.files.push(("kept.yml", "d", "7"));
    let session = world.all(&args(&[])).ok().unwrap();
    assert_eq!(
        world.asked,
        vec![
            "home .config/openos/cli/config.yml false",
            "settings /home/.config/openos/cli/config.yml",
            "clients http://localhost:8899 rpc",
            "settings file",
            "settings kept.yml",
            "signer 7 default false",
            "pubkey nonce",
        ]
    );
    assert_eq!(session.config.websocket_url, "ws://localhost:8900/");
    assert_eq!(id(&session.config.default_signer), Some(7));
}

#[test]
fn a_user_without_settings_has_the_default_ones() {
    let mut world = World::new();
    let session = world.all(&args(&[])).ok().unwrap();
    assert_eq!(
        world.asked[..4],
        [
            "home .config/openos/cli/config.yml false",
            "settings /home/.config/openos/cli/config.yml",
            "default settings",
            "clients https://api.devnet.solana.com rpc",
        ]
    );
    assert_eq!(session.config.websocket_url, "wss://api.devnet.solana.com/");
}

#[test]
fn a_user_without_a_place_for_settings_has_those_of_the_network() {
    let mut world = World::new();
    world.home = false;
    let session = world.all(&args(&[])).ok().unwrap();
    assert_eq!(
        world.asked[..3],
        [
            "home .config/openos/cli/config.yml false",
            "home .config/openos/id.json true",
            "clients https://api.mainnet.openverse.network rpc",
        ]
    );
    assert_eq!(session.config.websocket_url, "wss://api.mainnet.openverse.network/");
}

#[test]
fn a_given_settings_file_is_used_for_the_clients_and_the_signers() {
    let mut world = World::new();
    world.files.push(("mine.yml", "t", "8"));
    let hash = solana_sdk::hash::hash(b"block");
    let hash_text = hash.to_string();
    let matches = args(&[
        ("config_file", &["mine.yml"]),
        ("sign_only", &[]),
        ("blockhash", &[hash_text.as_str()]),
    ]);
    let session = world.all(&matches).ok().unwrap();
    assert_eq!(
        world.asked[..4],
        [
            "settings mine.yml".to_string(),
            format!("clients https://api.testnet.solana.com offline {}", hash.to_bytes()[0]),
            "settings mine.yml".to_string(),
            "signer 8 default false".to_string(),
        ]
    );
    assert_eq!(id(&session.config.default_signer), Some(8));

    let mut world = World::new();
    assert_eq!(failure(world.all(&matches)), "error: Could not find config file `mine.yml`");
}

#[test]
fn a_node_without_a_websocket_stands_in_the_way() {
    let mut world = World::new();
    let matches = args(&[("json_rpc_url", &["http://localhost:65535"])]);
    match world.all(&matches) {
        Err(Failure::NoWebsocketUrl(url)) => assert_eq!(url, "http://localhost:65535"),
        _ => panic!("set up without a websocket"),
    }
}
