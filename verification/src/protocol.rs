//! What a session asks of its surroundings, and what they reply.
//!
//! The library decides; files, wallets and the network are the caller's. Each question is a
//! [`Request`], each answer a [`Reply`].

use crate::args::texts;
use crate::cli_config::{CliConfig, CliConfigView, ClientKind};
use crate::config::{fetching, lookup, RawAccount, RawAccountView};
use crate::pubkey::Pubkey;
use crate::signer::{loading, LoadedSigner, SignerRequest, SignerRequestView};
use vstd::prelude::*;

verus! {

/// A question.
#[derive(Debug)]
pub enum Request {
    /// The path of the file at these components below the home directory. Where it is required,
    /// there has to be a home directory.
    HomeFile { components: Vec<String>, required: bool },
    /// The path of the default settings file of the command line tools.
    SettingsFile,
    /// The settings in a file.
    LoadSettings { path: String },
    /// The default settings of the command line tools.
    DefaultSettings,
    /// That the clients be opened.
    OpenClients { json_rpc_url: String, client: ClientKind },
    /// A signer.
    LoadSigner(SignerRequest),
    /// Whether there is a file.
    FileExists { path: String },
    /// The address that was given for an argument.
    PubkeyOf { name: String },
    /// The program to which an account belongs.
    AccountOwner { address: Pubkey },
    /// An account.
    FetchAccount { address: Pubkey },
}

/// A question.
pub enum RequestView {
    HomeFile { components: Seq<Seq<char>>, required: bool },
    SettingsFile,
    LoadSettings { path: Seq<char> },
    DefaultSettings,
    OpenClients { json_rpc_url: Seq<char>, client: ClientKind },
    LoadSigner(SignerRequestView),
    FileExists { path: Seq<char> },
    PubkeyOf { name: Seq<char> },
    AccountOwner { address: Pubkey },
    FetchAccount { address: Pubkey },
}

impl View for Request {
    type V = RequestView;

    open spec fn view(&self) -> RequestView {
        match *self {
            Request::HomeFile { components, required } => RequestView::HomeFile {
                components: texts(components@),
                required,
            },
            Request::SettingsFile => RequestView::SettingsFile,
            Request::LoadSettings { path } => RequestView::LoadSettings { path: path@ },
            Request::DefaultSettings => RequestView::DefaultSettings,
            Request::OpenClients { json_rpc_url, client } => RequestView::OpenClients {
                json_rpc_url: json_rpc_url@,
                client,
            },
            Request::LoadSigner(request) => RequestView::LoadSigner(request@),
            Request::FileExists { path } => RequestView::FileExists { path: path@ },
            Request::PubkeyOf { name } => RequestView::PubkeyOf { name: name@ },
            Request::AccountOwner { address } => RequestView::AccountOwner { address },
            Request::FetchAccount { address } => RequestView::FetchAccount { address },
        }
    }
}

/// The question, if there is one.
pub open spec fn asking(request: Option<Request>) -> Option<RequestView> {
    match request {
        Some(request) => Some(request@),
        None => None,
    }
}

/// An answer.
pub enum Reply<S: ?Sized> {
    /// The path below the home directory, if there is a home directory.
    HomeFile(Option<String>),
    /// The path of the default settings file, if there is a home directory.
    SettingsFile(Option<String>),
    /// The settings, if they could be loaded.
    Settings(Option<CliConfig>),
    /// The default settings.
    DefaultSettings(CliConfig),
    /// The clients are open.
    ClientsOpen,
    /// The signer, or why it could not be loaded.
    Signer(Result<LoadedSigner<S>, String>),
    /// Whether there is the file.
    FileExists(bool),
    /// The address, if the argument was given, or why it could not be read.
    Pubkey(Result<Option<Pubkey>, String>),
    /// The program to which the account belongs, or why the account could not be fetched.
    AccountOwner(Result<Pubkey, String>),
    /// The account, if there is one, or why it could not be fetched.
    Account(Result<Option<RawAccount>, String>),
}

/// An answer.
pub enum ReplyView<S: ?Sized> {
    HomeFile(Option<Seq<char>>),
    SettingsFile(Option<Seq<char>>),
    Settings(Option<CliConfigView>),
    DefaultSettings(CliConfigView),
    ClientsOpen,
    Signer(Result<LoadedSigner<S>, Seq<char>>),
    FileExists(bool),
    Pubkey(Result<Option<Pubkey>, Seq<char>>),
    AccountOwner(Result<Pubkey, Seq<char>>),
    Account(Result<Option<RawAccountView>, Seq<char>>),
}

impl<S: ?Sized> View for Reply<S> {
    type V = ReplyView<S>;

    open spec fn view(&self) -> ReplyView<S> {
        match *self {
            Reply::HomeFile(path) => ReplyView::HomeFile(
                match path {
                    Some(path) => Some(path@),
                    None => None,
                },
            ),
            Reply::SettingsFile(path) => ReplyView::SettingsFile(
                match path {
                    Some(path) => Some(path@),
                    None => None,
                },
            ),
            Reply::Settings(settings) => ReplyView::Settings(
                match settings {
                    Some(settings) => Some(settings@),
                    None => None,
                },
            ),
            Reply::DefaultSettings(settings) => ReplyView::DefaultSettings(settings@),
            Reply::ClientsOpen => ReplyView::ClientsOpen,
            Reply::Signer(loaded) => ReplyView::Signer(loading(loaded)),
            Reply::FileExists(exists) => ReplyView::FileExists(exists),
            Reply::Pubkey(given) => ReplyView::Pubkey(lookup(given)),
            Reply::AccountOwner(owner) => ReplyView::AccountOwner(
                match owner {
                    Ok(owner) => Ok(owner),
                    Err(reason) => Err(reason@),
                },
            ),
            Reply::Account(fetched) => ReplyView::Account(fetching(fetched)),
        }
    }
}

impl RequestView {
    /// Whether a reply is one to this question.
    pub open spec fn fits<S: ?Sized>(self, reply: ReplyView<S>) -> bool {
        match self {
            RequestView::HomeFile { required, .. } => reply matches ReplyView::HomeFile(path) && (
            required ==> path is Some),
            RequestView::SettingsFile => reply is SettingsFile,
            RequestView::LoadSettings { .. } => reply is Settings,
            RequestView::DefaultSettings => reply is DefaultSettings,
            RequestView::OpenClients { .. } => reply is ClientsOpen,
            RequestView::LoadSigner(_) => reply is Signer,
            RequestView::FileExists { .. } => reply is FileExists,
            RequestView::PubkeyOf { .. } => reply is Pubkey,
            RequestView::AccountOwner { .. } => reply is AccountOwner,
            RequestView::FetchAccount { .. } => reply is Account,
        }
    }
}

/// Surroundings: the answer to each question, the same whenever it is asked.
pub struct Surroundings<S: ?Sized> {
    /// The path below the home directory at each list of components, if there is a home directory.
    pub home_file: spec_fn(Seq<Seq<char>>) -> Option<Seq<char>>,
    /// The path of the default settings file.
    pub settings_file: Option<Seq<char>>,
    /// The settings in each file.
    pub settings: spec_fn(Seq<char>) -> Option<CliConfigView>,
    /// The default settings.
    pub default_settings: CliConfigView,
    /// What comes of loading each signer.
    pub signer: spec_fn(SignerRequestView) -> Result<LoadedSigner<S>, Seq<char>>,
    /// Whether there is each file.
    pub file_exists: spec_fn(Seq<char>) -> bool,
    /// What comes of looking up the address that was given for each argument.
    pub pubkey_of: spec_fn(Seq<char>) -> Result<Option<Pubkey>, Seq<char>>,
    /// The program to which the account at each address belongs, by the RPC node.
    pub account_owner: spec_fn(Pubkey) -> Result<Pubkey, Seq<char>>,
    /// The account at each address, by the client of the programs.
    pub account: spec_fn(Pubkey) -> Result<Option<RawAccountView>, Seq<char>>,
}

impl<S: ?Sized> Surroundings<S> {
    /// The answer to a question.
    pub open spec fn reply(self, request: RequestView) -> ReplyView<S> {
        match request {
            RequestView::HomeFile { components, .. } => ReplyView::HomeFile(
                (self.home_file)(components),
            ),
            RequestView::SettingsFile => ReplyView::SettingsFile(self.settings_file),
            RequestView::LoadSettings { path } => ReplyView::Settings((self.settings)(path)),
            RequestView::DefaultSettings => ReplyView::DefaultSettings(self.default_settings),
            RequestView::OpenClients { .. } => ReplyView::ClientsOpen,
            RequestView::LoadSigner(request) => ReplyView::Signer((self.signer)(request)),
            RequestView::FileExists { path } => ReplyView::FileExists((self.file_exists)(path)),
            RequestView::PubkeyOf { name } => ReplyView::Pubkey((self.pubkey_of)(name)),
            RequestView::AccountOwner { address } => ReplyView::AccountOwner(
                (self.account_owner)(address),
            ),
            RequestView::FetchAccount { address } => ReplyView::Account((self.account)(address)),
        }
    }
}

/// Questions are told as they are.
pub proof fn questions_are_told_as_they_are(request: Request)
    ensures
        asking(Some(request)) == Some(request@),
        asking(None) is None,
        request matches Request::HomeFile { components, required } ==> request@ == (
        RequestView::HomeFile { components: texts(components@), required }),
        request is SettingsFile ==> request@ == RequestView::SettingsFile,
        request matches Request::LoadSettings { path } ==> request@ == (RequestView::LoadSettings {
            path: path@,
        }),
        request is DefaultSettings ==> request@ == RequestView::DefaultSettings,
        request matches Request::OpenClients { json_rpc_url, client } ==> request@ == (
        RequestView::OpenClients { json_rpc_url: json_rpc_url@, client }),
        request matches Request::LoadSigner(signer) ==> request@ == RequestView::LoadSigner(
            signer@,
        ),
        request matches Request::FileExists { path } ==> request@ == (RequestView::FileExists {
            path: path@,
        }),
        request matches Request::PubkeyOf { name } ==> request@ == (RequestView::PubkeyOf {
            name: name@,
        }),
        request matches Request::AccountOwner { address } ==> request@ == (
        RequestView::AccountOwner { address }),
        request matches Request::FetchAccount { address } ==> request@ == (
        RequestView::FetchAccount { address }),
{
}

/// Answers are told as they are.
pub proof fn answers_are_told_as_they_are<S: ?Sized>(reply: Reply<S>)
    ensures
        reply matches Reply::HomeFile(Some(path)) ==> reply@ == ReplyView::<S>::HomeFile(
            Some(path@),
        ),
        reply matches Reply::HomeFile(None) ==> reply@ == ReplyView::<S>::HomeFile(None),
        reply matches Reply::SettingsFile(Some(path)) ==> reply@ == ReplyView::<S>::SettingsFile(
            Some(path@),
        ),
        reply matches Reply::SettingsFile(None) ==> reply@ == ReplyView::<S>::SettingsFile(None),
        reply matches Reply::Settings(Some(settings)) ==> reply@ == ReplyView::<S>::Settings(
            Some(settings@),
        ),
        reply matches Reply::Settings(None) ==> reply@ == ReplyView::<S>::Settings(None),
        reply matches Reply::DefaultSettings(settings) ==> reply@ == ReplyView::<
            S,
        >::DefaultSettings(settings@),
        reply is ClientsOpen ==> reply@ == ReplyView::<S>::ClientsOpen,
        reply matches Reply::Signer(Ok(signer)) ==> reply@ == ReplyView::Signer(Ok(signer)),
        reply matches Reply::Signer(Err(reason)) ==> reply@ == ReplyView::<S>::Signer(Err(reason@)),
        reply matches Reply::FileExists(exists) ==> reply@ == ReplyView::<S>::FileExists(exists),
        reply matches Reply::Pubkey(Ok(address)) ==> reply@ == ReplyView::<S>::Pubkey(Ok(address)),
        reply matches Reply::Pubkey(Err(reason)) ==> reply@ == ReplyView::<S>::Pubkey(Err(reason@)),
        reply matches Reply::AccountOwner(Ok(owner)) ==> reply@ == ReplyView::<S>::AccountOwner(
            Ok(owner),
        ),
        reply matches Reply::AccountOwner(Err(reason)) ==> reply@ == ReplyView::<S>::AccountOwner(
            Err(reason@),
        ),
        reply matches Reply::Account(Ok(Some(account))) ==> reply@ == ReplyView::<S>::Account(
            Ok(Some(account@)),
        ),
        reply matches Reply::Account(Ok(None)) ==> reply@ == ReplyView::<S>::Account(Ok(None)),
        reply matches Reply::Account(Err(reason)) ==> reply@ == ReplyView::<S>::Account(
            Err(reason@),
        ),
{
}

} // verus!
