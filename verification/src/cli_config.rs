//! The settings that a user keeps between sessions.

use crate::args::{texts, ArgMatches, ArgMatchesView, BLOCKHASH_ARG, JSON_RPC_URL_ARG, SIGN_ONLY_ARG};
use crate::config::Config;
use crate::pubkey::{zero_blockhash, zeros_are_zero, Blockhash};
use crate::urls::{
    has_websocket_url, is_websocket_of, normalize_url, normalized_url, websocket_url,
    websocket_url_of,
};
use vstd::prelude::*;

verus! {

/// The settings that a user keeps between sessions.
#[derive(Debug)]
pub struct CliConfig {
    pub json_rpc_url: String,
    pub websocket_url: String,
    pub keypair_path: String,
    /// The labels of addresses, no address with two of them.
    pub address_labels: Vec<(String, String)>,
    pub commitment: String,
}

/// The settings that a user keeps between sessions.
#[verifier::ext_equal]
pub struct CliConfigView {
    pub json_rpc_url: Seq<char>,
    pub websocket_url: Seq<char>,
    pub keypair_path: Seq<char>,
    pub address_labels: Seq<(Seq<char>, Seq<char>)>,
    pub commitment: Seq<char>,
}

impl View for CliConfig {
    type V = CliConfigView;

    open spec fn view(&self) -> CliConfigView {
        CliConfigView {
            json_rpc_url: self.json_rpc_url@,
            websocket_url: self.websocket_url@,
            keypair_path: self.keypair_path@,
            address_labels: self.address_labels@.map_values(
                |label: (String, String)| (label.0@, label.1@),
            ),
            commitment: self.commitment@,
        }
    }
}

impl CliConfigView {
    /// Whether no address has two labels.
    pub open spec fn labels_each_address_once(self) -> bool {
        forall|i: int, j: int|
            0 <= i < j < self.address_labels.len() ==> (#[trigger] self.address_labels[i]).0 != (
            #[trigger] self.address_labels[j]).0
    }
}

/// The settings of a user who keeps none, for the given keypair file.
pub open spec fn default_settings(keypair_path: Seq<char>) -> CliConfigView {
    CliConfigView {
        json_rpc_url: "https://api.mainnet.openverse.network"@,
        websocket_url: ""@,
        keypair_path,
        address_labels: seq![("11111111111111111111111111111111"@, "System Program"@)],
        commitment: "confirmed"@,
    }
}

/// Where below the home directory the settings are kept.
pub open spec fn settings_place() -> Seq<Seq<char>> {
    seq![".config"@, "openos"@, "cli"@, "config.yml"@]
}

/// Where below the home directory the keypair is kept.
pub open spec fn keypair_place() -> Seq<Seq<char>> {
    seq![".config"@, "openos"@, "id.json"@]
}

/// Where below the home directory the settings are kept, directory by directory.
pub fn settings_components() -> (components: Vec<String>)
    ensures
        texts(components@) == settings_place(),
{
    let components = vec![
        ".config".to_owned(),
        "openos".to_owned(),
        "cli".to_owned(),
        "config.yml".to_owned(),
    ];
    assert(texts(components@) =~= settings_place());
    components
}

/// Where below the home directory the keypair is kept, directory by directory.
pub fn keypair_components() -> (components: Vec<String>)
    ensures
        texts(components@) == keypair_place(),
{
    let components = vec![".config".to_owned(), "openos".to_owned(), "id.json".to_owned()];
    assert(texts(components@) =~= keypair_place());
    components
}

impl<S: ?Sized> Config<S> {
    /// The settings of a user who keeps none, for the given keypair file.
    pub fn default(keypair_path: String) -> (settings: CliConfig)
        ensures
            settings@ == default_settings(keypair_path@),
            settings@.labels_each_address_once(),
    {
        let mut address_labels: Vec<(String, String)> = Vec::new();
        address_labels.push(
            ("11111111111111111111111111111111".to_owned(), "System Program".to_owned()),
        );
        let settings = CliConfig {
            json_rpc_url: "https://api.mainnet.openverse.network".to_owned(),
            // An empty address stands for the one made of that of the RPC node.
            websocket_url: "".to_owned(),
            keypair_path,
            address_labels,
            commitment: "confirmed".to_owned(),
        };
        assert(settings@ =~= default_settings(keypair_path@));
        settings
    }
}

/// How the programs are reached: through the RPC node, or, where transactions are only signed, not
/// at all, with the block hash to sign for.
#[derive(Clone, Copy, Debug)]
pub enum ClientKind {
    Offline(Blockhash),
    Rpc,
}

/// Where the RPC node is, where its websocket is, and how the programs are reached.
#[derive(Debug)]
pub struct Connection {
    pub json_rpc_url: String,
    pub websocket_url: String,
    pub client: ClientKind,
}

/// The address of the RPC node: the given one, else that of the settings, monikers resolved.
pub open spec fn rpc_url(args: ArgMatchesView, settings: CliConfigView) -> Seq<char> {
    normalized_url(
        match args.value_of(JSON_RPC_URL_ARG@) {
            Some(url) => url,
            None => settings.json_rpc_url,
        },
    )
}

/// How the programs are reached: offline, for the block hash that was given or else the zero hash,
/// where transactions are only signed.
pub open spec fn client_kind(args: ArgMatchesView) -> ClientKind {
    if args.is_present(SIGN_ONLY_ARG@) {
        ClientKind::Offline(
            match args.blockhash_of(BLOCKHASH_ARG@) {
                Some(hash) => hash,
                None => zero_blockhash(),
            },
        )
    } else {
        ClientKind::Rpc
    }
}

/// Where the RPC node and its websocket are and how the programs are reached, or the address of the
/// RPC node where no websocket address can be made of it.
pub fn connection(matches: &ArgMatches, settings: &CliConfig) -> (result: Result<Connection, String>)
    ensures
        match result {
            Ok(connection) => {
                &&& has_websocket_url(rpc_url(matches@, settings@))
                &&& connection.json_rpc_url@ == rpc_url(matches@, settings@)
                &&& connection.websocket_url@ == websocket_url_of(rpc_url(matches@, settings@))
                &&& is_websocket_of(connection.websocket_url@, connection.json_rpc_url@)
                &&& connection.client == client_kind(matches@)
            },
            Err(url) => {
                &&& !has_websocket_url(rpc_url(matches@, settings@))
                &&& url@ == rpc_url(matches@, settings@)
            },
        },
{
    let json_rpc_url = normalize_url(
        match matches.value_of(JSON_RPC_URL_ARG) {
            Some(url) => url,
            None => settings.json_rpc_url.as_str(),
        },
    );
    let websocket_url = match websocket_url(json_rpc_url.as_str()) {
        Some(url) => url,
        None => return Err(json_rpc_url),
    };
    let client = if matches.is_present(SIGN_ONLY_ARG) {
        ClientKind::Offline(
            match matches.blockhash_of(BLOCKHASH_ARG) {
                Some(hash) => hash,
                None => Blockhash::zero(),
            },
        )
    } else {
        ClientKind::Rpc
    };
    Ok(Connection { json_rpc_url, websocket_url, client })
}

/// The RPC node is at the address that was given, if one was, whatever the settings and the other
/// arguments are, and else at that of the settings. A moniker stands for its URL in either.
pub proof fn given_url_comes_before_the_settings(
    args: ArgMatchesView,
    settings: CliConfigView,
    other: CliConfigView,
)
    ensures
        ({
            let given = args.args.contains_key("json_rpc_url"@) && args.args["json_rpc_url"@].len()
                > 0;
            &&& given ==> rpc_url(args, settings) == normalized_url(args.args["json_rpc_url"@][0])
            &&& given ==> rpc_url(args, settings) == rpc_url(args, other)
            &&& !given ==> rpc_url(args, settings) == normalized_url(settings.json_rpc_url)
        }),
{
}

/// The programs are reached without a connection exactly where transactions are only signed, and
/// then for the block hash that was given, and for that of all zeros where none was.
pub proof fn signing_only_needs_no_connection(args: ArgMatchesView, hash: Blockhash)
    ensures
        client_kind(args) is Offline <==> args.args.contains_key("sign_only"@) || args.subcommand
            == Some("sign_only"@),
        client_kind(args) matches ClientKind::Offline(used) ==> {
            &&& args.blockhash_of("blockhash"@) matches Some(given) ==> used == given
            &&& args.blockhash_of("blockhash"@) is None && (forall|i: int|
                0 <= i < 32 ==> hash.bytes[i] == 0) ==> used == hash
        },
{
    zeros_are_zero(crate::pubkey::zero_pubkey(), hash);
}

/// The settings of a user who keeps none name the network and the given keypair file.
pub proof fn default_settings_name_the_keypair_file(keypair_path: Seq<char>)
    ensures
        default_settings(keypair_path).keypair_path == keypair_path,
        default_settings(keypair_path).json_rpc_url == "https://api.mainnet.openverse.network"@,
        default_settings(keypair_path).websocket_url.len() == 0,
        default_settings(keypair_path).commitment == "confirmed"@,
        default_settings(keypair_path).address_labels == seq![
            ("11111111111111111111111111111111"@, "System Program"@),
        ],
{
    reveal_strlit("");
}

/// Settings are told as they are.
pub proof fn settings_are_told_as_they_are(settings: CliConfig)
    ensures
        settings@.json_rpc_url == settings.json_rpc_url@,
        settings@.websocket_url == settings.websocket_url@,
        settings@.keypair_path == settings.keypair_path@,
        settings@.commitment == settings.commitment@,
        settings@.address_labels.len() == settings.address_labels@.len(),
        forall|i: int|
            0 <= i < settings.address_labels@.len() ==> (#[trigger] settings@.address_labels[i]).0
                == settings.address_labels[i].0@ && settings@.address_labels[i].1
                == settings.address_labels[i].1@,
{
}

} // verus!
