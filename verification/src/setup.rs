//! Setting up a configuration, question by question.
//!
//! A [`Setup`] holds what was decided so far and knows what has to be asked next. The caller asks
//! it and hands the reply back, until there is nothing left to ask.

use crate::args::{
    ArgMatches, ArgMatchesView, ACCOUNT_ARG, ADDRESS_ARG, BLOCKHASH_ARG, CONFIG_FILE_ARG,
    DUMP_TRANSACTION_MESSAGE_ARG, FEE_PAYER_ARG, MULTISIG_SIGNER_ARG, NONCE_ARG,
    NONCE_AUTHORITY_ARG, OUTPUT_FORMAT_ARG, OWNER_ARG, PROGRAM_ID_ARG, SIGN_ONLY_ARG, TOKEN_ARG,
    VERBOSE_ARG,
};
use crate::cli_config::{
    client_kind, connection, default_settings, keypair_components, keypair_place, rpc_url,
    settings_components, settings_place, CliConfig, CliConfigView, ClientKind, Connection,
};
use crate::config::{Config, ConfigView, OutputFormat};
use crate::error::{Failure, FailureView};
use crate::programs::{default_program, default_program_id};
use crate::protocol::{asking, Reply, ReplyView, Request, RequestView};
use crate::pubkey::Pubkey;
use crate::signer::{
    addresses, by_address, signers, sort_by_address, LoadedSigner, SignerRequest, SignerRequestView,
};
use crate::text::{decimal, decimal_text, same_text};
use crate::urls::{has_websocket_url, websocket_url_of};
use std::sync::Arc;
use vstd::prelude::*;

verus! {

/// The text that names a format of the output, where it names one that the arguments allow.
pub open spec fn format_named(text: Seq<char>) -> Option<OutputFormat> {
    if text == "json"@ {
        Some(OutputFormat::Json)
    } else if text == "json-compact"@ {
        Some(OutputFormat::JsonCompact)
    } else {
        None
    }
}

/// Whether the format that was given, if one was, is one of those that there are.
pub open spec fn format_is_known(args: ArgMatchesView) -> bool {
    args.value_of(OUTPUT_FORMAT_ARG@) matches Some(text) ==> format_named(text) is Some
}

/// The format of the output: the given one, else by whether the output is verbose.
pub open spec fn format_of(args: ArgMatchesView) -> OutputFormat {
    match args.value_of(OUTPUT_FORMAT_ARG@) {
        Some(text) => format_named(text)->Some_0,
        None => if args.is_present(VERBOSE_ARG@) {
            OutputFormat::DisplayVerbose
        } else {
            OutputFormat::Display
        },
    }
}

/// Whether the format that was given, if one was, is one of those that there are.
pub fn has_known_format(matches: &ArgMatches) -> (known: bool)
    ensures
        known == format_is_known(matches@),
{
    match matches.value_of(OUTPUT_FORMAT_ARG) {
        Some(text) => same_text(text, "json") || same_text(text, "json-compact"),
        None => true,
    }
}

/// The format of the output.
pub fn output_format(matches: &ArgMatches) -> (format: OutputFormat)
    requires
        format_is_known(matches@),
    ensures
        format == format_of(matches@),
{
    match matches.value_of(OUTPUT_FORMAT_ARG) {
        Some(text) => if same_text(text, "json") {
            OutputFormat::Json
        } else {
            OutputFormat::JsonCompact
        },
        None => if matches.is_present(VERBOSE_ARG) {
            OutputFormat::DisplayVerbose
        } else {
            OutputFormat::Display
        },
    }
}

/// The signer to load for value `i` of an argument, under the name of the argument and the number
/// of the value.
pub open spec fn numbered_signer(name: Seq<char>, values: Seq<Seq<char>>, i: int) -> SignerRequestView {
    SignerRequestView {
        path: values[i],
        keypair_name: name + "-"@ + decimal((i + 1) as nat),
        allow_null_signer: false,
    }
}

/// The signer to load next for the values of an argument, when some were loaded already.
pub open spec fn next_signer(args: ArgMatchesView, name: Seq<char>, loaded: nat) -> Option<
    SignerRequestView,
> {
    match args.values_of(name) {
        Some(values) => if loaded < values.len() {
            Some(numbered_signer(name, values, loaded as int))
        } else {
            None
        },
        None => None,
    }
}

/// All signers for the values of an argument, when these were loaded: none at all where the argument
/// was not given.
pub open spec fn all_signers<S: ?Sized>(
    args: ArgMatchesView,
    name: Seq<char>,
    loaded: Seq<LoadedSigner<S>>,
) -> Option<Seq<LoadedSigner<S>>> {
    if args.values_of(name) is Some {
        Some(loaded)
    } else {
        None
    }
}

/// Where the loading of the signers for the values of an argument stands.
pub enum SignersOf<S: ?Sized> {
    /// This signer is to be loaded next, behind those that were loaded.
    Next { request: SignerRequest, loaded: Vec<LoadedSigner<S>> },
    /// Nothing is left to load: these are the signers, or `None` where the argument was not given.
    All(Option<Vec<LoadedSigner<S>>>),
}

/// Where the loading of the signers for the values of an argument stands when some were loaded
/// already.
pub fn signers_of<S: ?Sized>(matches: &ArgMatches, name: &str, loaded: Vec<LoadedSigner<S>>) -> (step:
    SignersOf<S>)
    ensures
        match step {
            SignersOf::Next { request, loaded: kept } => {
                &&& next_signer(matches@, name@, loaded@.len()) == Some(request@)
                &&& kept@ == loaded@
            },
            SignersOf::All(all) => {
                &&& next_signer(matches@, name@, loaded@.len()) is None
                &&& all_signers(matches@, name@, loaded@) == match all {
                    Some(all) => Some(all@),
                    None => None,
                }
            },
        },
        step is All && step->All_0 is None <==> matches@.values_of(name@) is None,
{
    let request = match matches.values_of(name) {
        Some(values) => if loaded.len() < values.len() {
            SignerRequest {
                path: values[loaded.len()].clone(),
                keypair_name: name.to_owned().concat("-").concat(
                    decimal_text(loaded.len() + 1).as_str(),
                ),
                allow_null_signer: false,
            }
        } else {
            return SignersOf::All(Some(loaded));
        },
        None => return SignersOf::All(None),
    };
    SignersOf::Next { request, loaded }
}

impl<S: ?Sized> Config<S> {
    /// Adds the signers of a multisig account, if such were given, in the order of their addresses to
    /// the signers and their addresses to the addresses that there are, and returns all those
    /// addresses.
    pub fn extract_multisig_signers(
        multisig_signers: Option<Vec<LoadedSigner<S>>>,
        bulk_signers: &mut Vec<Arc<S>>,
        multisigner_ids: &mut Vec<Pubkey>,
    ) -> (multisigner_pubkeys: Vec<Pubkey>)
        ensures
            match multisig_signers {
                Some(members) => {
                    &&& final(bulk_signers)@ == old(bulk_signers)@ + signers(by_address(members@))
                    &&& final(multisigner_ids)@ == old(multisigner_ids)@ + addresses(
                        by_address(members@),
                    )
                },
                None => {
                    &&& final(bulk_signers)@ == old(bulk_signers)@
                    &&& final(multisigner_ids)@ == old(multisigner_ids)@
                },
            },
            multisigner_pubkeys@ == final(multisigner_ids)@,
    {
        match multisig_signers {
            Some(members) => Self::add_signers(&members, bulk_signers, multisigner_ids),
            None => {},
        }
        let mut multisigner_pubkeys: Vec<Pubkey> = Vec::new();
        let mut k: usize = 0;
        while k < multisigner_ids.len()
            invariant
                k <= multisigner_ids.len(),
                multisigner_pubkeys@ == multisigner_ids@.take(k as int),
            decreases multisigner_ids.len() - k,
        {
            multisigner_pubkeys.push(multisigner_ids[k]);
            k = k + 1;
        }
        multisigner_pubkeys
    }

    /// Adds signers, in the order of their addresses, and their addresses.
    fn add_signers(
        members: &Vec<LoadedSigner<S>>,
        bulk_signers: &mut Vec<Arc<S>>,
        multisigner_ids: &mut Vec<Pubkey>,
    )
        ensures
            final(bulk_signers)@ == old(bulk_signers)@ + signers(by_address(members@)),
            final(multisigner_ids)@ == old(multisigner_ids)@ + addresses(by_address(members@)),
    {
        let sorted = sort_by_address(members);
        let ghost bulk_before = bulk_signers@;
        let ghost ids_before = multisigner_ids@;
        let mut i: usize = 0;
        while i < sorted.len()
            invariant
                i <= sorted.len(),
                bulk_signers@ == bulk_before + signers(sorted@.take(i as int)),
                multisigner_ids@ == ids_before + addresses(sorted@.take(i as int)),
            decreases sorted.len() - i,
        {
            assert(sorted@.take(i + 1) == sorted@.take(i as int).push(sorted@[i as int]));
            bulk_signers.push(sorted[i].signer.clone());
            multisigner_ids.push(sorted[i].pubkey);
            i = i + 1;
        }
        assert(sorted@.take(i as int) == sorted@);
    }
}

/// What of a configuration was decided so far.
struct Draft<S: ?Sized> {
    websocket_url: String,
    keypair_path: String,
    multisigner_pubkeys: Vec<Pubkey>,
    default_signer: Option<LoadedSigner<S>>,
    fee_payer: Option<LoadedSigner<S>>,
    nonce_account: Option<Pubkey>,
    nonce_authority: Option<LoadedSigner<S>>,
}

/// What of a configuration was decided so far.
#[verifier::ext_equal]
pub struct DraftView<S: ?Sized> {
    pub websocket_url: Seq<char>,
    pub keypair_path: Seq<char>,
    pub multisigner_pubkeys: Seq<Pubkey>,
    pub default_signer: Option<LoadedSigner<S>>,
    pub fee_payer: Option<LoadedSigner<S>>,
    pub nonce_account: Option<Pubkey>,
    pub nonce_authority: Option<LoadedSigner<S>>,
}

impl<S: ?Sized> View for Draft<S> {
    type V = DraftView<S>;

    closed spec fn view(&self) -> DraftView<S> {
        DraftView {
            websocket_url: self.websocket_url@,
            keypair_path: self.keypair_path@,
            multisigner_pubkeys: self.multisigner_pubkeys@,
            default_signer: self.default_signer,
            fee_payer: self.fee_payer,
            nonce_account: self.nonce_account,
            nonce_authority: self.nonce_authority,
        }
    }
}

/// What is being waited for.
enum Stage<S: ?Sized> {
    FindSettings,
    FindKeypair,
    FindDefaultSettings { websocket_url: String },
    LoadSettings { session: Option<String>, path: String, given: bool },
    DefaultSettings { session: Option<String> },
    OpenClients { connection: Connection },
    LoadMultisig {
        websocket_url: String,
        keypair_path: String,
        loaded: Vec<LoadedSigner<S>>,
        request: SignerRequest,
    },
    LoadDefault { draft: Draft<S> },
    CheckKeypair { draft: Draft<S>, reason: String },
    LoadFeePayer { draft: Draft<S>, path: String },
    FindNonce { draft: Draft<S> },
    LoadNonceAuthority { draft: Draft<S> },
    FindProgram { draft: Draft<S>, address: Pubkey },
    Done { config: Config<S> },
    Failed { failure: Failure },
}

/// What is being waited for. Once the clients are open there is a session, known by the address of
/// its websocket.
pub enum StageView<S: ?Sized> {
    /// Where the user keeps the settings.
    FindSettings,
    /// Where the user keeps the keypair.
    FindKeypair,
    /// Where the command line tools keep the settings.
    FindDefaultSettings { websocket_url: Seq<char> },
    /// The settings in a file, which was given on the command line or not.
    LoadSettings { session: Option<Seq<char>>, path: Seq<char>, given: bool },
    /// The default settings of the command line tools.
    DefaultSettings { session: Option<Seq<char>> },
    /// The clients.
    OpenClients { json_rpc_url: Seq<char>, websocket_url: Seq<char>, client: ClientKind },
    /// The next signer of a multisig account.
    LoadMultisig {
        websocket_url: Seq<char>,
        keypair_path: Seq<char>,
        loaded: Seq<LoadedSigner<S>>,
        request: SignerRequestView,
    },
    /// The default signer.
    LoadDefault { draft: DraftView<S> },
    /// Whether there is the keypair file of which no signer could be loaded.
    CheckKeypair { draft: DraftView<S>, reason: Seq<char> },
    /// The fee payer.
    LoadFeePayer { draft: DraftView<S>, path: Seq<char> },
    /// The nonce account.
    FindNonce { draft: DraftView<S> },
    /// The nonce authority.
    LoadNonceAuthority { draft: DraftView<S> },
    /// The program to which the account of the given address belongs.
    FindProgram { draft: DraftView<S>, address: Pubkey },
    /// Nothing: the configuration is set up.
    Done { config: ConfigView<S> },
    /// Nothing: there is no configuration.
    Failed { failure: FailureView },
}

/// The text, if there is one.
pub open spec fn text_in(text: Option<String>) -> Option<Seq<char>> {
    match text {
        Some(text) => Some(text@),
        None => None,
    }
}

impl<S: ?Sized> View for Stage<S> {
    type V = StageView<S>;

    closed spec fn view(&self) -> StageView<S> {
        match *self {
            Stage::FindSettings => StageView::FindSettings,
            Stage::FindKeypair => StageView::FindKeypair,
            Stage::FindDefaultSettings { websocket_url } => StageView::FindDefaultSettings {
                websocket_url: websocket_url@,
            },
            Stage::LoadSettings { session, path, given } => StageView::LoadSettings {
                session: text_in(session),
                path: path@,
                given,
            },
            Stage::DefaultSettings { session } => StageView::DefaultSettings {
                session: text_in(session),
            },
            Stage::OpenClients { connection } => StageView::OpenClients {
                json_rpc_url: connection.json_rpc_url@,
                websocket_url: connection.websocket_url@,
                client: connection.client,
            },
            Stage::LoadMultisig { websocket_url, keypair_path, loaded, request } =>
                StageView::LoadMultisig {
                websocket_url: websocket_url@,
                keypair_path: keypair_path@,
                loaded: loaded@,
                request: request@,
            },
            Stage::LoadDefault { draft } => StageView::LoadDefault { draft: draft@ },
            Stage::CheckKeypair { draft, reason } => StageView::CheckKeypair {
                draft: draft@,
                reason: reason@,
            },
            Stage::LoadFeePayer { draft, path } => StageView::LoadFeePayer {
                draft: draft@,
                path: path@,
            },
            Stage::FindNonce { draft } => StageView::FindNonce { draft: draft@ },
            Stage::LoadNonceAuthority { draft } => StageView::LoadNonceAuthority { draft: draft@ },
            Stage::FindProgram { draft, address } => StageView::FindProgram {
                draft: draft@,
                address,
            },
            Stage::Done { config } => StageView::Done { config: config@ },
            Stage::Failed { failure } => StageView::Failed { failure: failure@ },
        }
    }
}

/// What a setup stands on: the arguments, the format of the output, and the signers and the
/// addresses of multisig members so far.
struct Basis<'m, S: ?Sized> {
    matches: &'m ArgMatches,
    output_format: OutputFormat,
    bulk_signers: Vec<Arc<S>>,
    multisigner_ids: Vec<Pubkey>,
}

/// What a setup stands on: the arguments, the format of the output, and the signers and the
/// addresses of multisig members so far.
#[verifier::ext_equal]
pub struct BasisView<S: ?Sized> {
    pub args: ArgMatchesView,
    pub output_format: OutputFormat,
    pub bulk_signers: Seq<Arc<S>>,
    pub multisigner_ids: Seq<Pubkey>,
}

impl<'m, S: ?Sized> View for Basis<'m, S> {
    type V = BasisView<S>;

    closed spec fn view(&self) -> BasisView<S> {
        BasisView {
            args: self.matches@,
            output_format: self.output_format,
            bulk_signers: self.bulk_signers@,
            multisigner_ids: self.multisigner_ids@,
        }
    }
}

/// A configuration that is being set up.
pub struct Setup<'m, S: ?Sized> {
    basis: Basis<'m, S>,
    stage: Stage<S>,
}

/// A configuration that is being set up.
#[verifier::ext_equal]
pub struct SetupView<S: ?Sized> {
    pub basis: BasisView<S>,
    pub stage: StageView<S>,
}

impl<'m, S: ?Sized> View for Setup<'m, S> {
    type V = SetupView<S>;

    closed spec fn view(&self) -> SetupView<S> {
        SetupView { basis: self.basis@, stage: self.stage@ }
    }
}

/// The account whose program is to be used where none was given: where transactions are not only
/// signed, the first address given for the token, the account or the address.
pub open spec fn account_to_follow(args: ArgMatchesView) -> Option<Pubkey> {
    if args.is_present(SIGN_ONLY_ARG@) {
        None
    } else if args.pubkey_of(TOKEN_ARG@) is Some {
        args.pubkey_of(TOKEN_ARG@)
    } else if args.pubkey_of(ACCOUNT_ARG@) is Some {
        args.pubkey_of(ACCOUNT_ARG@)
    } else {
        args.pubkey_of(ADDRESS_ARG@)
    }
}

/// The default signer to load: that of the owner, if one was given, else that of the settings.
pub open spec fn default_signer_request(
    args: ArgMatchesView,
    keypair_path: Seq<char>,
    allow_null_signer: bool,
) -> SignerRequestView {
    match args.value_of(OWNER_ARG@) {
        Some(path) => SignerRequestView { path, keypair_name: "owner"@, allow_null_signer },
        None => SignerRequestView {
            path: keypair_path,
            keypair_name: "default"@,
            allow_null_signer,
        },
    }
}

/// The fee payer to load.
pub open spec fn fee_payer_request(path: Seq<char>) -> SignerRequestView {
    SignerRequestView { path, keypair_name: "fee_payer"@, allow_null_signer: false }
}

/// The nonce authority to load: the given one, else that of the settings.
pub open spec fn nonce_authority_request(args: ArgMatchesView, keypair_path: Seq<char>) -> SignerRequestView {
    SignerRequestView {
        path: match args.value_of(NONCE_AUTHORITY_ARG@) {
            Some(path) => path,
            None => keypair_path,
        },
        keypair_name: NONCE_AUTHORITY_ARG@,
        allow_null_signer: false,
    }
}

/// Where a setup goes from what was decided.
impl<S: ?Sized> BasisView<S> {
    pub open spec fn at(self, stage: StageView<S>) -> SetupView<S> {
        SetupView { basis: self, stage }
    }

    /// First the settings: those in the file that was given, else those that the user keeps.
    pub open spec fn begin(self, session: Option<Seq<char>>) -> SetupView<S> {
        match self.args.value_of(CONFIG_FILE_ARG@) {
            Some(path) => self.at(StageView::LoadSettings { session, path, given: true }),
            None => match session {
                None => self.at(StageView::FindSettings),
                Some(websocket_url) => self.at(StageView::FindDefaultSettings { websocket_url }),
            },
        }
    }

    /// With the settings, the clients; once they are open, the signers.
    pub open spec fn with_settings(
        self,
        session: Option<Seq<char>>,
        settings: CliConfigView,
    ) -> SetupView<S> {
        match session {
            None => {
                let json_rpc_url = rpc_url(self.args, settings);
                if has_websocket_url(json_rpc_url) {
                    self.at(
                        StageView::OpenClients {
                            json_rpc_url,
                            websocket_url: websocket_url_of(json_rpc_url),
                            client: client_kind(self.args),
                        },
                    )
                } else {
                    self.at(
                        StageView::Failed { failure: FailureView::NoWebsocketUrl(json_rpc_url) },
                    )
                }
            },
            Some(websocket_url) => self.with_multisig(
                websocket_url,
                settings.keypair_path,
                Seq::empty(),
            ),
        }
    }

    /// With the signers of a multisig account, if such were given.
    pub open spec fn with_members(self, members: Option<Seq<LoadedSigner<S>>>) -> BasisView<S> {
        match members {
            Some(members) => BasisView {
                bulk_signers: self.bulk_signers + signers(by_address(members)),
                multisigner_ids: self.multisigner_ids + addresses(by_address(members)),
                ..self
            },
            None => self,
        }
    }

    /// The signers of a multisig account, one after the other; then the default signer.
    pub open spec fn with_multisig(
        self,
        websocket_url: Seq<char>,
        keypair_path: Seq<char>,
        loaded: Seq<LoadedSigner<S>>,
    ) -> SetupView<S> {
        match next_signer(self.args, MULTISIG_SIGNER_ARG@, loaded.len()) {
            Some(request) => self.at(
                StageView::LoadMultisig { websocket_url, keypair_path, loaded, request },
            ),
            None => {
                let basis = self.with_members(
                    all_signers(self.args, MULTISIG_SIGNER_ARG@, loaded),
                );
                basis.at(
                    StageView::LoadDefault {
                        draft: DraftView {
                            websocket_url,
                            keypair_path,
                            multisigner_pubkeys: basis.multisigner_ids,
                            default_signer: None,
                            fee_payer: None,
                            nonce_account: None,
                            nonce_authority: None,
                        },
                    },
                )
            },
        }
    }

    /// With the default signer, the fee payer, which is the default signer where none was given.
    pub open spec fn with_default_signer(
        self,
        draft: DraftView<S>,
        default_signer: Option<LoadedSigner<S>>,
    ) -> SetupView<S> {
        let draft = DraftView { default_signer, ..draft };
        match self.args.value_of(FEE_PAYER_ARG@) {
            Some(path) => self.at(StageView::LoadFeePayer { draft, path }),
            None => self.with_fee_payer(draft, default_signer),
        }
    }

    /// With the fee payer, the nonce account.
    pub open spec fn with_fee_payer(
        self,
        draft: DraftView<S>,
        fee_payer: Option<LoadedSigner<S>>,
    ) -> SetupView<S> {
        self.at(StageView::FindNonce { draft: DraftView { fee_payer, ..draft } })
    }

    /// With a nonce account, its authority.
    pub open spec fn with_nonce_account(
        self,
        draft: DraftView<S>,
        nonce_account: Option<Pubkey>,
    ) -> SetupView<S> {
        let draft = DraftView { nonce_account, ..draft };
        match nonce_account {
            Some(_) => self.at(StageView::LoadNonceAuthority { draft }),
            None => self.with_nonce_authority(draft, None),
        }
    }

    /// At last the program: the given one, else that of the account to follow, else the token
    /// program.
    pub open spec fn with_nonce_authority(
        self,
        draft: DraftView<S>,
        nonce_authority: Option<LoadedSigner<S>>,
    ) -> SetupView<S> {
        let draft = DraftView { nonce_authority, ..draft };
        match self.args.pubkey_of(PROGRAM_ID_ARG@) {
            Some(program_id) => self.with_program(draft, program_id, true),
            None => match account_to_follow(self.args) {
                Some(address) => self.at(StageView::FindProgram { draft, address }),
                None => self.with_program(draft, default_program(), false),
            },
        }
    }

    /// With the program, all is decided.
    pub open spec fn with_program(
        self,
        draft: DraftView<S>,
        program_id: Pubkey,
        restrict_to_program_id: bool,
    ) -> SetupView<S> {
        self.at(
            StageView::Done {
                config: ConfigView {
                    default_signer: draft.default_signer,
                    websocket_url: draft.websocket_url,
                    output_format: self.output_format,
                    fee_payer: draft.fee_payer,
                    nonce_account: draft.nonce_account,
                    nonce_authority: draft.nonce_authority,
                    nonce_blockhash: self.args.blockhash_of(BLOCKHASH_ARG@),
                    sign_only: self.args.is_present(SIGN_ONLY_ARG@),
                    dump_transaction_message: self.args.is_present(DUMP_TRANSACTION_MESSAGE_ARG@),
                    multisigner_pubkeys: draft.multisigner_pubkeys,
                    program_id,
                    restrict_to_program_id,
                },
            },
        )
    }

    /// Without a signer or an address that is needed there is no configuration.
    pub open spec fn not_loaded(self, reason: Seq<char>) -> SetupView<S> {
        self.at(StageView::Failed { failure: FailureView::NotLoaded(reason) })
    }
}

impl<S: ?Sized> SetupView<S> {
    /// What is to be asked next, if anything is.
    pub open spec fn request(self) -> Option<RequestView> {
        match self.stage {
            StageView::FindSettings => Some(
                RequestView::HomeFile { components: settings_place(), required: false },
            ),
            StageView::FindKeypair => Some(
                RequestView::HomeFile { components: keypair_place(), required: true },
            ),
            StageView::FindDefaultSettings { .. } => Some(RequestView::SettingsFile),
            StageView::LoadSettings { path, .. } => Some(RequestView::LoadSettings { path }),
            StageView::DefaultSettings { .. } => Some(RequestView::DefaultSettings),
            StageView::OpenClients { json_rpc_url, client, .. } => Some(
                RequestView::OpenClients { json_rpc_url, client },
            ),
            StageView::LoadMultisig { request, .. } => Some(RequestView::LoadSigner(request)),
            StageView::LoadDefault { draft } => Some(
                RequestView::LoadSigner(
                    default_signer_request(
                        self.basis.args,
                        draft.keypair_path,
                        draft.multisigner_pubkeys.len() > 0,
                    ),
                ),
            ),
            StageView::CheckKeypair { draft, .. } => Some(
                RequestView::FileExists { path: draft.keypair_path },
            ),
            StageView::LoadFeePayer { path, .. } => Some(
                RequestView::LoadSigner(fee_payer_request(path)),
            ),
            StageView::FindNonce { .. } => Some(RequestView::PubkeyOf { name: NONCE_ARG@ }),
            StageView::LoadNonceAuthority { draft } => Some(
                RequestView::LoadSigner(
                    nonce_authority_request(self.basis.args, draft.keypair_path),
                ),
            ),
            StageView::FindProgram { address, .. } => Some(RequestView::AccountOwner { address }),
            StageView::Done { .. } => None,
            StageView::Failed { .. } => None,
        }
    }

    /// Whether a reply is one to what is to be asked next.
    pub open spec fn takes(self, reply: ReplyView<S>) -> bool {
        match self.request() {
            Some(request) => request.fits(reply),
            None => false,
        }
    }

    /// Where the setup goes with a reply.
    pub open spec fn next(self, reply: ReplyView<S>) -> SetupView<S> {
        let basis = self.basis;
        match (self.stage, reply) {
            (StageView::FindSettings, ReplyView::HomeFile(Some(path))) => basis.at(
                StageView::LoadSettings { session: None, path, given: false },
            ),
            (StageView::FindSettings, ReplyView::HomeFile(None)) => basis.at(
                StageView::FindKeypair,
            ),
            (StageView::FindKeypair, ReplyView::HomeFile(Some(path))) => basis.with_settings(
                None,
                default_settings(path),
            ),
            (
                StageView::FindDefaultSettings { websocket_url },
                ReplyView::SettingsFile(Some(path)),
            ) => basis.at(
                StageView::LoadSettings { session: Some(websocket_url), path, given: false },
            ),
            (
                StageView::FindDefaultSettings { websocket_url },
                ReplyView::SettingsFile(None),
            ) => basis.at(StageView::DefaultSettings { session: Some(websocket_url) }),
            (
                StageView::LoadSettings { session, .. },
                ReplyView::Settings(Some(settings)),
            ) => basis.with_settings(session, settings),
            (
                StageView::LoadSettings { session, path, given },
                ReplyView::Settings(None),
            ) => if given {
                basis.at(StageView::Failed { failure: FailureView::ConfigFileNotFound(path) })
            } else {
                basis.at(StageView::DefaultSettings { session })
            },
            (
                StageView::DefaultSettings { session },
                ReplyView::DefaultSettings(settings),
            ) => basis.with_settings(session, settings),
            (
                StageView::OpenClients { websocket_url, .. },
                ReplyView::ClientsOpen,
            ) => basis.begin(Some(websocket_url)),
            (
                StageView::LoadMultisig { websocket_url, keypair_path, loaded, .. },
                ReplyView::Signer(Ok(signer)),
            ) => basis.with_multisig(websocket_url, keypair_path, loaded.push(signer)),
            (StageView::LoadMultisig { .. }, ReplyView::Signer(Err(reason))) => basis.not_loaded(
                reason,
            ),
            (
                StageView::LoadDefault { draft },
                ReplyView::Signer(Ok(signer)),
            ) => basis.with_default_signer(draft, Some(signer)),
            // An owner that cannot be loaded leaves the session without a default signer.
            (
                StageView::LoadDefault { draft },
                ReplyView::Signer(Err(reason)),
            ) => if basis.args.value_of(OWNER_ARG@) is Some {
                basis.with_default_signer(draft, None)
            } else {
                basis.at(StageView::CheckKeypair { draft, reason })
            },
            // A keypair file that is there and cannot be loaded is in the way; one that is not
            // there leaves the session without a default signer.
            (
                StageView::CheckKeypair { draft, reason },
                ReplyView::FileExists(exists),
            ) => if exists {
                basis.not_loaded(reason)
            } else {
                basis.with_default_signer(draft, None)
            },
            (
                StageView::LoadFeePayer { draft, .. },
                ReplyView::Signer(Ok(signer)),
            ) => basis.with_fee_payer(draft, Some(signer)),
            (StageView::LoadFeePayer { .. }, ReplyView::Signer(Err(reason))) => basis.not_loaded(
                reason,
            ),
            (StageView::FindNonce { draft }, ReplyView::Pubkey(Ok(nonce_account))) =>
                basis.with_nonce_account(draft, nonce_account),
            (StageView::FindNonce { .. }, ReplyView::Pubkey(Err(reason))) => basis.not_loaded(
                reason,
            ),
            (
                StageView::LoadNonceAuthority { draft },
                ReplyView::Signer(Ok(signer)),
            ) => basis.with_nonce_authority(draft, Some(signer)),
            (StageView::LoadNonceAuthority { .. }, ReplyView::Signer(Err(reason))) =>
                basis.not_loaded(reason),
            // An account that cannot be fetched stands for one of the token program.
            (StageView::FindProgram { draft, .. }, ReplyView::AccountOwner(owner)) =>
                basis.with_program(
                draft,
                match owner {
                    Ok(owner) => owner,
                    Err(_) => default_program(),
                },
                false,
            ),
            _ => self,
        }
    }
}

impl<'m, S: ?Sized> Basis<'m, S> {
    fn at(self, stage: Stage<S>) -> (setup: Setup<'m, S>)
        ensures
            setup@ == self@.at(stage@),
    {
        Setup { basis: self, stage }
    }

    fn begin(self, session: Option<String>) -> (setup: Setup<'m, S>)
        ensures
            setup@ == self@.begin(text_in(session)),
    {
        let given = match self.matches.value_of(CONFIG_FILE_ARG) {
            Some(path) => Some(path.to_owned()),
            None => None,
        };
        match given {
            Some(path) => self.at(Stage::LoadSettings { session, path, given: true }),
            None => match session {
                None => self.at(Stage::FindSettings),
                Some(websocket_url) => self.at(Stage::FindDefaultSettings { websocket_url }),
            },
        }
    }

    fn with_settings(self, session: Option<String>, settings: CliConfig) -> (setup: Setup<'m, S>)
        ensures
            setup@ == self@.with_settings(text_in(session), settings@),
    {
        match session {
            None => match connection(self.matches, &settings) {
                Ok(connection) => self.at(Stage::OpenClients { connection }),
                Err(url) => self.at(Stage::Failed { failure: Failure::NoWebsocketUrl(url) }),
            },
            Some(websocket_url) => self.with_multisig(
                websocket_url,
                settings.keypair_path,
                Vec::new(),
            ),
        }
    }

    fn with_multisig(
        self,
        websocket_url: String,
        keypair_path: String,
        loaded: Vec<LoadedSigner<S>>,
    ) -> (setup: Setup<'m, S>)
        ensures
            setup@ == self@.with_multisig(websocket_url@, keypair_path@, loaded@),
    {
        match signers_of(self.matches, MULTISIG_SIGNER_ARG, loaded) {
            SignersOf::Next { request, loaded } => self.at(
                Stage::LoadMultisig { websocket_url, keypair_path, loaded, request },
            ),
            SignersOf::All(members) => {
                let mut bulk_signers = self.bulk_signers;
                let mut multisigner_ids = self.multisigner_ids;
                let multisigner_pubkeys = Config::extract_multisig_signers(
                    members,
                    &mut bulk_signers,
                    &mut multisigner_ids,
                );
                Setup {
                    basis: Basis {
                        matches: self.matches,
                        output_format: self.output_format,
                        bulk_signers,
                        multisigner_ids,
                    },
                    stage: Stage::LoadDefault {
                        draft: Draft {
                            websocket_url,
                            keypair_path,
                            multisigner_pubkeys,
                            default_signer: None,
                            fee_payer: None,
                            nonce_account: None,
                            nonce_authority: None,
                        },
                    },
                }
            },
        }
    }

    fn with_default_signer(self, draft: Draft<S>, default_signer: Option<LoadedSigner<S>>) -> (setup:
        Setup<'m, S>)
        ensures
            setup@ == self@.with_default_signer(draft@, default_signer),
    {
        let given = match self.matches.value_of(FEE_PAYER_ARG) {
            Some(path) => Some(path.to_owned()),
            None => None,
        };
        match given {
            Some(path) => self.at(
                Stage::LoadFeePayer { draft: Draft { default_signer, ..draft }, path },
            ),
            None => {
                let fee_payer = match &default_signer {
                    Some(signer) => Some(signer.share()),
                    None => None,
                };
                self.with_fee_payer(Draft { default_signer, ..draft }, fee_payer)
            },
        }
    }

    fn with_fee_payer(self, draft: Draft<S>, fee_payer: Option<LoadedSigner<S>>) -> (setup: Setup<
        'm,
        S,
    >)
        ensures
            setup@ == self@.with_fee_payer(draft@, fee_payer),
    {
        self.at(Stage::FindNonce { draft: Draft { fee_payer, ..draft } })
    }

    fn with_nonce_account(self, draft: Draft<S>, nonce_account: Option<Pubkey>) -> (setup: Setup<
        'm,
        S,
    >)
        ensures
            setup@ == self@.with_nonce_account(draft@, nonce_account),
    {
        let draft = Draft { nonce_account, ..draft };
        match nonce_account {
            Some(_) => self.at(Stage::LoadNonceAuthority { draft }),
            None => self.with_nonce_authority(draft, None),
        }
    }

    fn with_nonce_authority(self, draft: Draft<S>, nonce_authority: Option<LoadedSigner<S>>) -> (setup:
        Setup<'m, S>)
        ensures
            setup@ == self@.with_nonce_authority(draft@, nonce_authority),
    {
        let draft = Draft { nonce_authority, ..draft };
        match self.matches.pubkey_of(PROGRAM_ID_ARG) {
            Some(program_id) => self.with_program(draft, program_id, true),
            None => match followed_account(self.matches) {
                Some(address) => self.at(Stage::FindProgram { draft, address }),
                None => self.with_program(draft, default_program_id(), false),
            },
        }
    }

    fn with_program(
        self,
        draft: Draft<S>,
        program_id: Pubkey,
        restrict_to_program_id: bool,
    ) -> (setup: Setup<'m, S>)
        ensures
            setup@ == self@.with_program(draft@, program_id, restrict_to_program_id),
    {
        let config = Config {
            default_signer: draft.default_signer,
            websocket_url: draft.websocket_url,
            output_format: self.output_format,
            fee_payer: draft.fee_payer,
            nonce_account: draft.nonce_account,
            nonce_authority: draft.nonce_authority,
            nonce_blockhash: self.matches.blockhash_of(BLOCKHASH_ARG),
            sign_only: self.matches.is_present(SIGN_ONLY_ARG),
            dump_transaction_message: self.matches.is_present(DUMP_TRANSACTION_MESSAGE_ARG),
            multisigner_pubkeys: draft.multisigner_pubkeys,
            program_id,
            restrict_to_program_id,
        };
        self.at(Stage::Done { config })
    }

    fn not_loaded(self, reason: String) -> (setup: Setup<'m, S>)
        ensures
            setup@ == self@.not_loaded(reason@),
    {
        self.at(Stage::Failed { failure: Failure::NotLoaded(reason) })
    }
}

/// The account whose program is to be used where none was given.
fn followed_account(matches: &ArgMatches) -> (address: Option<Pubkey>)
    ensures
        address == account_to_follow(matches@),
{
    if matches.is_present(SIGN_ONLY_ARG) {
        return None;
    }
    let token = matches.pubkey_of(TOKEN_ARG);
    if token.is_some() {
        return token;
    }
    let account = matches.pubkey_of(ACCOUNT_ARG);
    if account.is_some() {
        return account;
    }
    matches.pubkey_of(ADDRESS_ARG)
}

/// A configuration that is set up, with all signers and the addresses of all multisig members.
pub struct Session<S: ?Sized> {
    pub config: Config<S>,
    pub bulk_signers: Vec<Arc<S>>,
    pub multisigner_ids: Vec<Pubkey>,
}

impl<S: ?Sized> Config<S> {
    /// Begins to set up a configuration: first the settings and the clients. The signers and the
    /// addresses of multisig members are added to the given ones.
    pub fn new<'m>(
        matches: &'m ArgMatches,
        bulk_signers: Vec<Arc<S>>,
        multisigner_ids: Vec<Pubkey>,
    ) -> (setup: Setup<'m, S>)
        requires
            format_is_known(matches@),
        ensures
            setup@ == (BasisView {
                args: matches@,
                output_format: format_of(matches@),
                bulk_signers: bulk_signers@,
                multisigner_ids: multisigner_ids@,
            }).begin(None),
    {
        let output_format = output_format(matches);
        Basis { matches, output_format, bulk_signers, multisigner_ids }.begin(None)
    }

    /// Begins to set up a configuration when the clients are open. The signers and the addresses of
    /// multisig members are added to the given ones.
    pub fn new_with_clients_and_ws_url<'m>(
        matches: &'m ArgMatches,
        bulk_signers: Vec<Arc<S>>,
        multisigner_ids: Vec<Pubkey>,
        websocket_url: String,
    ) -> (setup: Setup<'m, S>)
        requires
            format_is_known(matches@),
        ensures
            setup@ == (BasisView {
                args: matches@,
                output_format: format_of(matches@),
                bulk_signers: bulk_signers@,
                multisigner_ids: multisigner_ids@,
            }).begin(Some(websocket_url@)),
    {
        let output_format = output_format(matches);
        Basis { matches, output_format, bulk_signers, multisigner_ids }.begin(Some(websocket_url))
    }
}

impl<'m, S: ?Sized> Setup<'m, S> {
    /// What is to be asked next, or `None` when nothing is left to ask.
    pub fn request(&self) -> (request: Option<Request>)
        ensures
            asking(request) == self@.request(),
    {
        match &self.stage {
            Stage::FindSettings => Some(
                Request::HomeFile { components: settings_components(), required: false },
            ),
            Stage::FindKeypair => Some(
                Request::HomeFile { components: keypair_components(), required: true },
            ),
            Stage::FindDefaultSettings { .. } => Some(Request::SettingsFile),
            Stage::LoadSettings { path, .. } => Some(Request::LoadSettings { path: path.clone() }),
            Stage::DefaultSettings { .. } => Some(Request::DefaultSettings),
            Stage::OpenClients { connection } => Some(
                Request::OpenClients {
                    json_rpc_url: connection.json_rpc_url.clone(),
                    client: connection.client,
                },
            ),
            Stage::LoadMultisig { request, .. } => Some(Request::LoadSigner(request.again())),
            Stage::LoadDefault { draft } => {
                let allow_null_signer = draft.multisigner_pubkeys.len() > 0;
                Some(
                    Request::LoadSigner(
                        match self.basis.matches.value_of(OWNER_ARG) {
                            Some(path) => SignerRequest {
                                path: path.to_owned(),
                                keypair_name: "owner".to_owned(),
                                allow_null_signer,
                            },
                            None => SignerRequest {
                                path: draft.keypair_path.clone(),
                                keypair_name: "default".to_owned(),
                                allow_null_signer,
                            },
                        },
                    ),
                )
            },
            Stage::CheckKeypair { draft, .. } => Some(
                Request::FileExists { path: draft.keypair_path.clone() },
            ),
            Stage::LoadFeePayer { path, .. } => Some(
                Request::LoadSigner(
                    SignerRequest {
                        path: path.clone(),
                        keypair_name: "fee_payer".to_owned(),
                        allow_null_signer: false,
                    },
                ),
            ),
            Stage::FindNonce { .. } => Some(Request::PubkeyOf { name: NONCE_ARG.to_owned() }),
            Stage::LoadNonceAuthority { draft } => Some(
                Request::LoadSigner(
                    SignerRequest {
                        path: match self.basis.matches.value_of(NONCE_AUTHORITY_ARG) {
                            Some(path) => path.to_owned(),
                            None => draft.keypair_path.clone(),
                        },
                        keypair_name: NONCE_AUTHORITY_ARG.to_owned(),
                        allow_null_signer: false,
                    },
                ),
            ),
            Stage::FindProgram { address, .. } => Some(Request::AccountOwner { address: *address }),
            Stage::Done { .. } => None,
            Stage::Failed { .. } => None,
        }
    }

    /// Goes on with the reply to what was to be asked.
    pub fn advance(self, reply: Reply<S>) -> (next: Setup<'m, S>)
        requires
            self@.takes(reply@),
        ensures
            next@ == self@.next(reply@),
    {
        let Setup { basis, stage } = self;
        match (stage, reply) {
            (Stage::FindSettings, Reply::HomeFile(Some(path))) => basis.at(
                Stage::LoadSettings { session: None, path, given: false },
            ),
            (Stage::FindSettings, Reply::HomeFile(None)) => basis.at(Stage::FindKeypair),
            (Stage::FindKeypair, Reply::HomeFile(Some(path))) => basis.with_settings(
                None,
                Config::<S>::default(path),
            ),
            (
                Stage::FindDefaultSettings { websocket_url },
                Reply::SettingsFile(Some(path)),
            ) => basis.at(
                Stage::LoadSettings { session: Some(websocket_url), path, given: false },
            ),
            (Stage::FindDefaultSettings { websocket_url }, Reply::SettingsFile(None)) => basis.at(
                Stage::DefaultSettings { session: Some(websocket_url) },
            ),
            (
                Stage::LoadSettings { session, .. },
                Reply::Settings(Some(settings)),
            ) => basis.with_settings(session, settings),
            (
                Stage::LoadSettings { session, path, given },
                Reply::Settings(None),
            ) => if given {
                basis.at(Stage::Failed { failure: Failure::ConfigFileNotFound(path) })
            } else {
                basis.at(Stage::DefaultSettings { session })
            },
            (
                Stage::DefaultSettings { session },
                Reply::DefaultSettings(settings),
            ) => basis.with_settings(session, settings),
            (Stage::OpenClients { connection }, Reply::ClientsOpen) => basis.begin(
                Some(connection.websocket_url),
            ),
            (
                Stage::LoadMultisig { websocket_url, keypair_path, loaded, .. },
                Reply::Signer(Ok(signer)),
            ) => {
                let mut loaded = loaded;
                loaded.push(signer);
                basis.with_multisig(websocket_url, keypair_path, loaded)
            },
            (Stage::LoadDefault { draft }, Reply::Signer(Ok(signer))) => basis.with_default_signer(
                draft,
                Some(signer),
            ),
            (Stage::LoadDefault { draft }, Reply::Signer(Err(reason))) => {
                if basis.matches.value_of(OWNER_ARG).is_some() {
                    basis.with_default_signer(draft, None)
                } else {
                    basis.at(Stage::CheckKeypair { draft, reason })
                }
            },
            (Stage::CheckKeypair { draft, reason }, Reply::FileExists(exists)) => if exists {
                basis.not_loaded(reason)
            } else {
                basis.with_default_signer(draft, None)
            },
            (Stage::LoadFeePayer { draft, .. }, Reply::Signer(Ok(signer))) => basis.with_fee_payer(
                draft,
                Some(signer),
            ),
            (
                Stage::FindNonce { draft },
                Reply::Pubkey(Ok(nonce_account)),
            ) => basis.with_nonce_account(draft, nonce_account),
            (
                Stage::LoadNonceAuthority { draft },
                Reply::Signer(Ok(signer)),
            ) => basis.with_nonce_authority(draft, Some(signer)),
            (Stage::LoadMultisig { .. }, Reply::Signer(Err(reason))) => basis.not_loaded(reason),
            (Stage::LoadFeePayer { .. }, Reply::Signer(Err(reason))) => basis.not_loaded(reason),
            (Stage::FindNonce { .. }, Reply::Pubkey(Err(reason))) => basis.not_loaded(reason),
            (Stage::LoadNonceAuthority { .. }, Reply::Signer(Err(reason))) => basis.not_loaded(
                reason,
            ),
            (Stage::FindProgram { draft, .. }, Reply::AccountOwner(owner)) => {
                let program_id = match owner {
                    Ok(owner) => owner,
                    Err(_) => default_program_id(),
                };
                basis.with_program(draft, program_id, false)
            },
            (stage, _) => basis.at(stage),
        }
    }

    /// The configuration when nothing is left to ask, or why there is none.
    pub fn finish(self) -> (result: Result<Session<S>, Failure>)
        requires
            self@.request() is None,
        ensures
            match result {
                Ok(session) => {
                    &&& self@.stage == (StageView::Done { config: session.config@ })
                    &&& session.bulk_signers@ == self@.basis.bulk_signers
                    &&& session.multisigner_ids@ == self@.basis.multisigner_ids
                },
                Err(failure) => self@.stage == (StageView::<S>::Failed { failure: failure@ }),
            },
    {
        let Setup { basis, stage } = self;
        match stage {
            Stage::Done { config } => Ok(
                Session {
                    config,
                    bulk_signers: basis.bulk_signers,
                    multisigner_ids: basis.multisigner_ids,
                },
            ),
            Stage::Failed { failure } => Err(failure),
            _ => vstd::pervasive::unreached(),
        }
    }
}

/// A format of the output is known exactly where none or one of the two that have names was given;
/// a given one is used, and without one the output is verbose exactly where that was asked for.
pub proof fn given_format_is_used(args: ArgMatchesView)
    ensures
        ({
            let given = args.args.contains_key("output_format"@)
                && args.args["output_format"@].len() > 0;
            let text = args.args["output_format"@][0];
            &&& format_is_known(args) <==> !given || text == "json"@ || text == "json-compact"@
            &&& given && text == "json"@ ==> format_of(args) is Json
            &&& given && text == "json-compact"@ ==> format_of(args) is JsonCompact
            &&& !given && args.is_present("verbose"@) ==> format_of(args) is DisplayVerbose
            &&& !given && !args.is_present("verbose"@) ==> format_of(args) is Display
        }),
{
    reveal_strlit("json");
    reveal_strlit("json-compact");
    assert("json"@.len() != "json-compact"@.len());
}

/// The signers for an argument are asked for value by value: the next one by the value behind as many
/// as were loaded, under the name of the argument and the number of the value, and never as an
/// address without a key. When as many were loaded as there are values, those are all.
pub proof fn signers_are_asked_for_value_by_value<S: ?Sized>(
    args: ArgMatchesView,
    name: Seq<char>,
    loaded: Seq<LoadedSigner<S>>,
)
    ensures
        args.args.contains_key(name) && loaded.len() < args.args[name].len() ==> next_signer(
            args,
            name,
            loaded.len(),
        ) == Some(
            SignerRequestView {
                path: args.args[name][loaded.len() as int],
                keypair_name: name + "-"@ + decimal(loaded.len() + 1),
                allow_null_signer: false,
            },
        ),
        !args.args.contains_key(name) || loaded.len() >= args.args[name].len() ==> next_signer(
            args,
            name,
            loaded.len(),
        ) is None,
        args.args.contains_key(name) ==> all_signers(args, name, loaded) == Some(loaded),
        !args.args.contains_key(name) ==> all_signers(args, name, loaded) is None,
{
}

/// Without a program and where transactions are not only signed, the account that is followed is the
/// address of the first of the token, the account and the address that holds one, whether or not the
/// others were given; none is followed only where none of the three holds an address, or where
/// transactions are only signed.
pub proof fn first_address_is_followed(args: ArgMatchesView, address: Pubkey)
    ensures
        ({
            let only_signed = args.args.contains_key("sign_only"@) || args.subcommand == Some(
                "sign_only"@,
            );
            let token = args.pubkey_of("token"@);
            let account = args.pubkey_of("account"@);
            let other = args.pubkey_of("address"@);
            &&& only_signed ==> account_to_follow(args) is None
            &&& !only_signed && token == Some(address) ==> account_to_follow(args) == Some(address)
            &&& !only_signed && token is None && account == Some(address) ==> account_to_follow(
                args,
            ) == Some(address)
            &&& !only_signed && token is None && account is None && other == Some(address)
                ==> account_to_follow(args) == Some(address)
            &&& !only_signed && account_to_follow(args) is None ==> token is None && account is None
                && other is None
            &&& token is None && account is None && other is None ==> account_to_follow(
                args,
            ) is None
        }),
{
}

} // verus!
