//! What can go wrong, and how it is said.

use crate::pubkey::{text_of_pubkey, Pubkey};
use crate::text::{decimal, decimal_text};
use vstd::prelude::*;

verus! {

/// Why a request on a configuration could not be met.
#[derive(Debug)]
pub enum Error {
    /// No default signer is configured.
    NoDefaultSigner,
    /// No fee payer is configured.
    NoFeePayer,
    /// A signer or an address could not be loaded.
    NotLoaded(String),
    /// There is no such account.
    AccountNotFound(Pubkey),
    /// The account belongs to another program than the configured one.
    WrongOwner { account: Pubkey, owner: Pubkey, program_id: Pubkey },
    /// The account is no mint.
    MintNotFound(Pubkey),
    /// The mint has other decimals than the expected ones.
    WrongDecimals { mint: Pubkey, decimals: u8, expected: u8 },
    /// The account is no token account.
    TokenAccountNotFound(Pubkey),
    /// The token account holds other tokens than the expected ones.
    WrongMint { account: Pubkey, mint: Pubkey },
}

/// Why a request on a configuration could not be met.
pub enum ErrorView {
    NoDefaultSigner,
    NoFeePayer,
    NotLoaded(Seq<char>),
    AccountNotFound(Pubkey),
    WrongOwner { account: Pubkey, owner: Pubkey, program_id: Pubkey },
    MintNotFound(Pubkey),
    WrongDecimals { mint: Pubkey, decimals: u8, expected: u8 },
    TokenAccountNotFound(Pubkey),
    WrongMint { account: Pubkey, mint: Pubkey },
}

impl View for Error {
    type V = ErrorView;

    open spec fn view(&self) -> ErrorView {
        match *self {
            Error::NoDefaultSigner => ErrorView::NoDefaultSigner,
            Error::NoFeePayer => ErrorView::NoFeePayer,
            Error::NotLoaded(reason) => ErrorView::NotLoaded(reason@),
            Error::AccountNotFound(account) => ErrorView::AccountNotFound(account),
            Error::WrongOwner { account, owner, program_id } => ErrorView::WrongOwner {
                account,
                owner,
                program_id,
            },
            Error::MintNotFound(mint) => ErrorView::MintNotFound(mint),
            Error::WrongDecimals { mint, decimals, expected } => ErrorView::WrongDecimals {
                mint,
                decimals,
                expected,
            },
            Error::TokenAccountNotFound(account) => ErrorView::TokenAccountNotFound(account),
            Error::WrongMint { account, mint } => ErrorView::WrongMint { account, mint },
        }
    }
}

impl ErrorView {
    /// How the error is said.
    pub open spec fn message(self) -> Seq<char> {
        match self {
            ErrorView::NoDefaultSigner =>
                "default signer is required, please specify a valid default signer by identifying a valid configuration file using the --config argument, or by creating a valid config at the default location of ~/.config/solana/cli/config.yml using the solana config command"@,
            ErrorView::NoFeePayer =>
                "fee payer is required, please specify a valid fee payer using the --fee-payer argument, or by identifying a valid configuration file using the --config argument, or by creating a valid config at the default location of ~/.config/solana/cli/config.yml using the solana config command"@,
            ErrorView::NotLoaded(reason) => reason,
            ErrorView::AccountNotFound(account) => "Account "@ + text_of_pubkey(account@)
                + " not found"@,
            ErrorView::WrongOwner { account, owner, program_id } => "Account "@ + text_of_pubkey(
                account@,
            ) + " is owned by "@ + text_of_pubkey(owner@) + ", not configured program id "@
                + text_of_pubkey(program_id@),
            ErrorView::MintNotFound(mint) => "Could not find mint account "@ + text_of_pubkey(
                mint@,
            ),
            ErrorView::WrongDecimals { mint, decimals, expected } => "Mint "@ + text_of_pubkey(
                mint@,
            ) + " has decimals "@ + decimal(decimals as nat) + ", not configured decimals "@
                + decimal(expected as nat),
            ErrorView::TokenAccountNotFound(account) => "Could not find token account "@
                + text_of_pubkey(account@),
            ErrorView::WrongMint { account, mint } => "Source "@ + text_of_pubkey(account@)
                + " does not contain "@ + text_of_pubkey(mint@) + " tokens"@,
        }
    }
}

impl Error {
    /// How the error is said.
    pub fn message(&self) -> (text: String)
        ensures
            text@ == self@.message(),
    {
        match self {
            Error::NoDefaultSigner =>
                "default signer is required, please specify a valid default signer by identifying a valid configuration file using the --config argument, or by creating a valid config at the default location of ~/.config/solana/cli/config.yml using the solana config command".to_owned(),
            Error::NoFeePayer =>
                "fee payer is required, please specify a valid fee payer using the --fee-payer argument, or by identifying a valid configuration file using the --config argument, or by creating a valid config at the default location of ~/.config/solana/cli/config.yml using the solana config command".to_owned(),
            Error::NotLoaded(reason) => reason.clone(),
            Error::AccountNotFound(account) => "Account ".to_owned().concat(
                account.text().as_str(),
            ).concat(" not found"),
            Error::WrongOwner { account, owner, program_id } => "Account ".to_owned().concat(
                account.text().as_str(),
            ).concat(" is owned by ").concat(owner.text().as_str()).concat(
                ", not configured program id ",
            ).concat(program_id.text().as_str()),
            Error::MintNotFound(mint) => "Could not find mint account ".to_owned().concat(
                mint.text().as_str(),
            ),
            Error::WrongDecimals { mint, decimals, expected } => "Mint ".to_owned().concat(
                mint.text().as_str(),
            ).concat(" has decimals ").concat(decimal_text(*decimals as usize).as_str()).concat(
                ", not configured decimals ",
            ).concat(decimal_text(*expected as usize).as_str()),
            Error::TokenAccountNotFound(account) => "Could not find token account ".to_owned().concat(
                account.text().as_str(),
            ),
            Error::WrongMint { account, mint } => "Source ".to_owned().concat(
                account.text().as_str(),
            ).concat(" does not contain ").concat(mint.text().as_str()).concat(" tokens"),
        }
    }
}

/// Why a configuration could not be set up.
#[derive(Debug)]
pub enum Failure {
    /// The configuration file that was asked for could not be loaded.
    ConfigFileNotFound(String),
    /// A signer or an address could not be loaded.
    NotLoaded(String),
    /// No websocket address can be made of the address of the RPC node.
    NoWebsocketUrl(String),
}

/// Why a configuration could not be set up.
pub enum FailureView {
    ConfigFileNotFound(Seq<char>),
    NotLoaded(Seq<char>),
    NoWebsocketUrl(Seq<char>),
}

impl View for Failure {
    type V = FailureView;

    open spec fn view(&self) -> FailureView {
        match *self {
            Failure::ConfigFileNotFound(path) => FailureView::ConfigFileNotFound(path@),
            Failure::NotLoaded(reason) => FailureView::NotLoaded(reason@),
            Failure::NoWebsocketUrl(url) => FailureView::NoWebsocketUrl(url@),
        }
    }
}

impl FailureView {
    /// How the failure is said.
    pub open spec fn message(self) -> Seq<char> {
        match self {
            FailureView::ConfigFileNotFound(path) => "error: Could not find config file `"@ + path
                + "`"@,
            FailureView::NotLoaded(reason) => "error: "@ + reason,
            FailureView::NoWebsocketUrl(url) => "error: No websocket url for `"@ + url + "`"@,
        }
    }
}

impl Failure {
    /// How the failure is said.
    pub fn message(&self) -> (text: String)
        ensures
            text@ == self@.message(),
    {
        match self {
            Failure::ConfigFileNotFound(path) => "error: Could not find config file `".to_owned().concat(
                path.as_str(),
            ).concat("`"),
            Failure::NotLoaded(reason) => "error: ".to_owned().concat(reason.as_str()),
            Failure::NoWebsocketUrl(url) => "error: No websocket url for `".to_owned().concat(
                url.as_str(),
            ).concat("`"),
        }
    }
}

/// What an error says: the reason why something could not be loaded, and else the accounts, programs
/// and numbers that it is about.
pub proof fn errors_say_what_they_are_about(
    account: Pubkey,
    other: Pubkey,
    third: Pubkey,
    reason: Seq<char>,
    decimals: u8,
    expected: u8,
)
    ensures
        ErrorView::NotLoaded(reason).message() == reason,
        ErrorView::AccountNotFound(account).message() == "Account "@ + text_of_pubkey(account@)
            + " not found"@,
        (ErrorView::WrongOwner { account, owner: other, program_id: third }).message() == "Account "@
            + text_of_pubkey(account@) + " is owned by "@ + text_of_pubkey(other@)
            + ", not configured program id "@ + text_of_pubkey(third@),
        ErrorView::MintNotFound(account).message() == "Could not find mint account "@
            + text_of_pubkey(account@),
        (ErrorView::WrongDecimals { mint: account, decimals, expected }).message() == "Mint "@
            + text_of_pubkey(account@) + " has decimals "@ + decimal(decimals as nat)
            + ", not configured decimals "@ + decimal(expected as nat),
        ErrorView::TokenAccountNotFound(account).message() == "Could not find token account "@
            + text_of_pubkey(account@),
        (ErrorView::WrongMint { account, mint: other }).message() == "Source "@ + text_of_pubkey(
            account@,
        ) + " does not contain "@ + text_of_pubkey(other@) + " tokens"@,
        FailureView::ConfigFileNotFound(reason).message() == "error: Could not find config file `"@
            + reason + "`"@,
        FailureView::NotLoaded(reason).message() == "error: "@ + reason,
{
}

/// Errors and failures are told as they are.
pub proof fn errors_are_told_as_they_are(error: Error, failure: Failure)
    ensures
        error is NoDefaultSigner ==> error@ == ErrorView::NoDefaultSigner,
        error is NoFeePayer ==> error@ == ErrorView::NoFeePayer,
        error matches Error::NotLoaded(reason) ==> error@ == ErrorView::NotLoaded(reason@),
        error matches Error::AccountNotFound(account) ==> error@ == ErrorView::AccountNotFound(
            account,
        ),
        error matches Error::WrongOwner { account, owner, program_id } ==> error@ == (
        ErrorView::WrongOwner { account, owner, program_id }),
        error matches Error::MintNotFound(mint) ==> error@ == ErrorView::MintNotFound(mint),
        error matches Error::WrongDecimals { mint, decimals, expected } ==> error@ == (
        ErrorView::WrongDecimals { mint, decimals, expected }),
        error matches Error::TokenAccountNotFound(account) ==> error@
            == ErrorView::TokenAccountNotFound(account),
        error matches Error::WrongMint { account, mint } ==> error@ == (ErrorView::WrongMint {
            account,
            mint,
        }),
        failure matches Failure::ConfigFileNotFound(path) ==> failure@
            == FailureView::ConfigFileNotFound(path@),
        failure matches Failure::NotLoaded(reason) ==> failure@ == FailureView::NotLoaded(reason@),
        failure matches Failure::NoWebsocketUrl(url) ==> failure@ == FailureView::NoWebsocketUrl(
            url@,
        ),
{
}

} // verus!
