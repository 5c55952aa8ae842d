//! The configuration of a session, and what can be asked of it.

use crate::args::{ArgMatches, ArgMatchesView, OWNER_ARG};
use crate::error::{Error, ErrorView};
use crate::programs::{
    account_mint, account_mint_in, account_mint_is_in_the_first_bytes, associated_address,
    associated_token_address, has_associated_token_address, holds_account, holds_mint,
    mint_decimals, mint_decimals_in,
};
use crate::pubkey::{zero_pubkey, zeros_are_zero, Blockhash, Pubkey};
use crate::signer::{loading, LoadedSigner, SignerRequest, SignerRequestView};
use crate::text::same_text;
use std::sync::Arc;
use vstd::prelude::*;

verus! {

/// How results are shown.
#[derive(Clone, Copy, Debug, PartialEq, Eq, Structural)]
pub enum OutputFormat {
    Display,
    DisplayVerbose,
    Json,
    JsonCompact,
}

/// An account as the network holds it.
#[derive(Debug)]
pub struct RawAccount {
    pub lamports: u64,
    pub data: Vec<u8>,
    pub owner: Pubkey,
    pub executable: bool,
    pub rent_epoch: u64,
}

/// An account as the network holds it.
pub struct RawAccountView {
    pub lamports: u64,
    pub data: Seq<u8>,
    pub owner: Pubkey,
    pub executable: bool,
    pub rent_epoch: u64,
}

impl View for RawAccount {
    type V = RawAccountView;

    open spec fn view(&self) -> RawAccountView {
        RawAccountView {
            lamports: self.lamports,
            data: self.data@,
            owner: self.owner,
            executable: self.executable,
            rent_epoch: self.rent_epoch,
        }
    }
}

/// What came of fetching an account, the reason by its text.
pub open spec fn fetching(fetched: Result<Option<RawAccount>, String>) -> Result<
    Option<RawAccountView>,
    Seq<char>,
> {
    match fetched {
        Ok(Some(account)) => Ok(Some(account@)),
        Ok(None) => Ok(None),
        Err(reason) => Err(reason@),
    }
}

/// What came of looking up an address, the reason by its text.
pub open spec fn lookup(given: Result<Option<Pubkey>, String>) -> Result<Option<Pubkey>, Seq<char>> {
    match given {
        Ok(address) => Ok(address),
        Err(reason) => Err(reason@),
    }
}

/// A result, the error by what it says.
pub open spec fn outcome<T>(result: Result<T, Error>) -> Result<T, ErrorView> {
    match result {
        Ok(value) => Ok(value),
        Err(error) => Err(error@),
    }
}

/// A mint: its program, its address and its decimals.
#[derive(Clone, Copy, Debug)]
pub struct MintInfo {
    pub program_id: Pubkey,
    pub address: Pubkey,
    pub decimals: u8,
}

/// The configuration of a session.
pub struct Config<S: ?Sized> {
    pub default_signer: Option<LoadedSigner<S>>,
    pub websocket_url: String,
    pub output_format: OutputFormat,
    pub fee_payer: Option<LoadedSigner<S>>,
    pub nonce_account: Option<Pubkey>,
    pub nonce_authority: Option<LoadedSigner<S>>,
    pub nonce_blockhash: Option<Blockhash>,
    pub sign_only: bool,
    pub dump_transaction_message: bool,
    pub multisigner_pubkeys: Vec<Pubkey>,
    pub program_id: Pubkey,
    pub restrict_to_program_id: bool,
}

/// The configuration of a session.
#[verifier::ext_equal]
pub struct ConfigView<S: ?Sized> {
    pub default_signer: Option<LoadedSigner<S>>,
    pub websocket_url: Seq<char>,
    pub output_format: OutputFormat,
    pub fee_payer: Option<LoadedSigner<S>>,
    pub nonce_account: Option<Pubkey>,
    pub nonce_authority: Option<LoadedSigner<S>>,
    pub nonce_blockhash: Option<Blockhash>,
    pub sign_only: bool,
    pub dump_transaction_message: bool,
    pub multisigner_pubkeys: Seq<Pubkey>,
    pub program_id: Pubkey,
    pub restrict_to_program_id: bool,
}

impl<S: ?Sized> View for Config<S> {
    type V = ConfigView<S>;

    open spec fn view(&self) -> ConfigView<S> {
        ConfigView {
            default_signer: self.default_signer,
            websocket_url: self.websocket_url@,
            output_format: self.output_format,
            fee_payer: self.fee_payer,
            nonce_account: self.nonce_account,
            nonce_authority: self.nonce_authority,
            nonce_blockhash: self.nonce_blockhash,
            sign_only: self.sign_only,
            dump_transaction_message: self.dump_transaction_message,
            multisigner_pubkeys: self.multisigner_pubkeys@,
            program_id: self.program_id,
            restrict_to_program_id: self.restrict_to_program_id,
        }
    }
}

impl<S: ?Sized> ConfigView<S> {
    /// The default signer, or that there is none.
    pub open spec fn signer(self) -> Result<LoadedSigner<S>, ErrorView> {
        match self.default_signer {
            Some(signer) => Ok(signer),
            None => Err(ErrorView::NoDefaultSigner),
        }
    }

    /// The address that was given, or else that of the default signer.
    pub open spec fn address_or_default(
        self,
        given: Result<Option<Pubkey>, Seq<char>>,
    ) -> Result<Pubkey, ErrorView> {
        match given {
            Err(reason) => Err(ErrorView::NotLoaded(reason)),
            Ok(Some(address)) => Ok(address),
            Ok(None) => match self.signer() {
                Ok(signer) => Ok(signer.pubkey),
                Err(error) => Err(error),
            },
        }
    }

    /// The signer to load for an authority: the one that was given for it, unless it is the owner.
    /// Where signers of a multisig account were given, an address without a key will do.
    pub open spec fn signer_request(
        self,
        matches: ArgMatchesView,
        authority_name: Seq<char>,
    ) -> Option<SignerRequestView> {
        match matches.value_of(authority_name) {
            Some(path) => if authority_name != OWNER_ARG@ {
                Some(
                    SignerRequestView {
                        path,
                        keypair_name: authority_name,
                        allow_null_signer: self.multisigner_pubkeys.len() > 0,
                    },
                )
            } else {
                None
            },
            None => None,
        }
    }

    /// The signer for an authority: what came of loading it where one is to be loaded, else the
    /// default signer.
    pub open spec fn authority(
        self,
        loaded: Option<Result<LoadedSigner<S>, Seq<char>>>,
    ) -> Result<LoadedSigner<S>, ErrorView> {
        match loaded {
            Some(Ok(signer)) => Ok(signer),
            Some(Err(reason)) => Err(ErrorView::NotLoaded(reason)),
            None => self.signer(),
        }
    }

    /// The account that was fetched for an address, if it belongs to the configured program. One
    /// that could not be fetched is not found.
    pub open spec fn checked_account(
        self,
        account: Pubkey,
        fetched: Result<Option<RawAccountView>, Seq<char>>,
    ) -> Result<RawAccountView, ErrorView> {
        match fetched {
            Ok(Some(raw)) => if raw.owner == self.program_id {
                Ok(raw)
            } else {
                Err(
                    ErrorView::WrongOwner {
                        account,
                        owner: raw.owner,
                        program_id: self.program_id,
                    },
                )
            },
            _ => Err(ErrorView::AccountNotFound(account)),
        }
    }

    /// What is known of a mint: where only signing, what was said of it; else what its account
    /// says, if that agrees with the decimals that were expected.
    pub open spec fn mint_info(
        self,
        mint: Pubkey,
        expected: Option<u8>,
        fetched: Result<Option<RawAccountView>, Seq<char>>,
    ) -> Result<MintInfo, ErrorView> {
        if self.sign_only {
            Ok(
                MintInfo {
                    program_id: self.program_id,
                    address: mint,
                    decimals: match expected {
                        Some(decimals) => decimals,
                        None => 0,
                    },
                },
            )
        } else {
            match self.checked_account(mint, fetched) {
                Err(error) => Err(error),
                Ok(raw) => match mint_decimals_in(raw.data) {
                    None => Err(ErrorView::MintNotFound(mint)),
                    Some(decimals) => if expected is Some && expected != Some(decimals) {
                        Err(
                            ErrorView::WrongDecimals {
                                mint,
                                decimals,
                                expected: expected->Some_0,
                            },
                        )
                    } else {
                        Ok(MintInfo { program_id: raw.owner, address: mint, decimals })
                    },
                },
            }
        }
    }

    /// The mint of a token account: where only signing, the expected one, or the zero address where
    /// none was expected; else that of the account, if it is the expected one.
    pub open spec fn account_mint(
        self,
        token_account: Pubkey,
        expected: Option<Pubkey>,
        fetched: Result<Option<RawAccountView>, Seq<char>>,
    ) -> Result<Pubkey, ErrorView> {
        if self.sign_only {
            Ok(
                match expected {
                    Some(mint) => mint,
                    None => zero_pubkey(),
                },
            )
        } else {
            match self.checked_account(token_account, fetched) {
                Err(error) => Err(error),
                Ok(raw) => match account_mint_in(raw.data) {
                    None => Err(ErrorView::TokenAccountNotFound(token_account)),
                    Some(mint) => if expected is Some && expected != Some(mint) {
                        Err(
                            ErrorView::WrongMint {
                                account: token_account,
                                mint: expected->Some_0,
                            },
                        )
                    } else {
                        Ok(mint)
                    },
                },
            }
        }
    }
}

impl<S: ?Sized> Config<S> {
    /// The default signer, or an error if none is configured.
    pub fn default_signer(&self) -> (result: Result<LoadedSigner<S>, Error>)
        ensures
            outcome(result) == self@.signer(),
    {
        match &self.default_signer {
            Some(signer) => Ok(signer.share()),
            None => Err(Error::NoDefaultSigner),
        }
    }

    /// The fee payer, or an error if none is configured.
    pub fn fee_payer(&self) -> (result: Result<LoadedSigner<S>, Error>)
        ensures
            match self.fee_payer {
                Some(signer) => result == Ok::<_, Error>(signer),
                None => outcome(result) == Err::<LoadedSigner<S>, _>(ErrorView::NoFeePayer),
            },
    {
        match &self.fee_payer {
            Some(signer) => Ok(signer.share()),
            None => Err(Error::NoFeePayer),
        }
    }

    /// The address that was given, or else that of the default signer if there is one.
    pub fn pubkey_or_default(&self, given: Result<Option<Pubkey>, String>) -> (result: Result<
        Pubkey,
        Error,
    >)
        ensures
            outcome(result) == self@.address_or_default(lookup(given)),
    {
        match given {
            Err(reason) => Err(Error::NotLoaded(reason)),
            Ok(Some(address)) => Ok(address),
            Ok(None) => match self.default_signer() {
                Ok(signer) => Ok(signer.pubkey),
                Err(error) => Err(error),
            },
        }
    }

    /// The signer to load for an authority, if one is to be loaded.
    pub fn signer_request(&self, matches: &ArgMatches, authority_name: &str) -> (request: Option<
        SignerRequest,
    >)
        ensures
            match request {
                Some(request) => self@.signer_request(matches@, authority_name@) == Some(request@),
                None => self@.signer_request(matches@, authority_name@) is None,
            },
    {
        if !same_text(authority_name, OWNER_ARG) {
            match matches.value_of(authority_name) {
                Some(path) => {
                    return Some(
                        SignerRequest {
                            path: path.to_owned(),
                            keypair_name: authority_name.to_owned(),
                            // Multisig account addresses have no key of their own.
                            allow_null_signer: self.multisigner_pubkeys.len() > 0,
                        },
                    );
                },
                None => {},
            }
        }
        None
    }

    /// The signer that was given for an authority, or else the default signer: takes what came of
    /// loading the signer that is to be loaded, if there is one.
    pub fn signer_or_default(
        &self,
        matches: &ArgMatches,
        authority_name: &str,
        loaded: Option<Result<LoadedSigner<S>, String>>,
    ) -> (result: Result<LoadedSigner<S>, Error>)
        requires
            loaded is Some == self@.signer_request(matches@, authority_name@) is Some,
        ensures
            outcome(result) == self@.authority(
                match loaded {
                    Some(loaded) => Some(loading(loaded)),
                    None => None,
                },
            ),
    {
        match loaded {
            Some(Ok(signer)) => Ok(signer),
            Some(Err(reason)) => Err(Error::NotLoaded(reason)),
            None => self.default_signer(),
        }
    }

    /// Whether accounts are to be fetched from the network at all.
    pub fn fetches_accounts(&self) -> (fetches: bool)
        ensures
            fetches == !self.sign_only,
    {
        !self.sign_only
    }

    /// The account that was fetched for an address, or an error if there is none, if it could not be
    /// fetched or if it belongs to another program than the configured one.
    pub fn get_account_checked(
        &self,
        account_pubkey: &Pubkey,
        fetched: Result<Option<RawAccount>, String>,
    ) -> (result: Result<RawAccount, Error>)
        ensures
            result matches Ok(account) ==> fetched == Ok::<_, String>(Some(account)) && self@.checked_account(
                *account_pubkey,
                fetching(fetched),
            ) == Ok::<_, ErrorView>(account@),
            result matches Err(error) ==> self@.checked_account(*account_pubkey, fetching(fetched))
                == Err::<RawAccountView, _>(error@),
    {
        match fetched {
            Ok(Some(account)) => if self.program_id == account.owner {
                Ok(account)
            } else {
                Err(
                    Error::WrongOwner {
                        account: *account_pubkey,
                        owner: account.owner,
                        program_id: self.program_id,
                    },
                )
            },
            _ => Err(Error::AccountNotFound(*account_pubkey)),
        }
    }

    /// What is known of a mint. Where accounts are fetched at all, takes what came of fetching
    /// its account.
    pub fn get_mint_info(
        &self,
        mint: &Pubkey,
        expected_decimals: Option<u8>,
        fetched: Result<Option<RawAccount>, String>,
    ) -> (result: Result<MintInfo, Error>)
        ensures
            outcome(result) == self@.mint_info(*mint, expected_decimals, fetching(fetched)),
    {
        if self.sign_only {
            let decimals: u8 = match expected_decimals {
                Some(decimals) => decimals,
                None => 0,
            };
            return Ok(MintInfo { program_id: self.program_id, address: *mint, decimals });
        }
        let account = match self.get_account_checked(mint, fetched) {
            Ok(account) => account,
            Err(error) => return Err(error),
        };
        let program_id = account.owner;
        let decimals: u8 = match mint_decimals(account.data) {
            Some(decimals) => decimals,
            None => return Err(Error::MintNotFound(*mint)),
        };
        match expected_decimals {
            Some(expected) => if expected != decimals {
                return Err(Error::WrongDecimals { mint: *mint, decimals, expected });
            },
            None => {},
        }
        Ok(MintInfo { program_id, address: *mint, decimals })
    }

    /// The mint of a token account, or an error if it is not the expected one. Where accounts are
    /// fetched at all, takes what came of fetching it.
    pub fn check_account(
        &self,
        token_account: &Pubkey,
        mint_address: Option<Pubkey>,
        fetched: Result<Option<RawAccount>, String>,
    ) -> (result: Result<Pubkey, Error>)
        ensures
            outcome(result) == self@.account_mint(*token_account, mint_address, fetching(fetched)),
    {
        if self.sign_only {
            return Ok(
                match mint_address {
                    Some(mint) => mint,
                    None => Pubkey::zero(),
                },
            );
        }
        let account = match self.get_account_checked(token_account, fetched) {
            Ok(account) => account,
            Err(error) => return Err(error),
        };
        let source_mint = match account_mint(account.data) {
            Some(mint) => mint,
            None => return Err(Error::TokenAccountNotFound(*token_account)),
        };
        match mint_address {
            Some(mint) => if source_mint != mint {
                return Err(Error::WrongMint { account: *token_account, mint });
            },
            None => {},
        }
        Ok(source_mint)
    }

    /// The associated token account address of an owner for a token.
    pub fn associated_token_address_for_token_and_program(
        &self,
        token: &Pubkey,
        owner: &Pubkey,
        program_id: &Pubkey,
    ) -> (result: Result<Pubkey, Error>)
        requires
            associated_address(*owner, *token, *program_id) is Some,
        ensures
            result matches Ok(address) && associated_address(*owner, *token, *program_id) == Some(
                address,
            ),
    {
        Ok(associated_token_address(owner, token, program_id))
    }

    /// The associated token account address of an owner for a token, or `None` if there is none.
    pub fn associated_token_address_if_any(
        &self,
        token: &Pubkey,
        owner: &Pubkey,
        program_id: &Pubkey,
    ) -> (result: Option<Result<Pubkey, Error>>)
        ensures
            match associated_address(*owner, *token, *program_id) {
                Some(address) => result == Some(Ok::<_, Error>(address)),
                None => result is None,
            },
    {
        if has_associated_token_address(owner, token, program_id) {
            Some(self.associated_token_address_for_token_and_program(token, owner, program_id))
        } else {
            None
        }
    }
}

/// The mint that is known belongs to the configured program, and is the one that was asked for.
pub proof fn mint_info_is_of_the_configured_program<S: ?Sized>(
    config: ConfigView<S>,
    mint: Pubkey,
    expected: Option<u8>,
    fetched: Result<Option<RawAccountView>, Seq<char>>,
)
    ensures
        config.mint_info(mint, expected, fetched) matches Ok(info) ==> info.program_id
            == config.program_id && info.address == mint,
{
}

/// Where decimals were expected, a mint that is known has them.
pub proof fn mint_info_has_the_expected_decimals<S: ?Sized>(
    config: ConfigView<S>,
    mint: Pubkey,
    expected: u8,
    fetched: Result<Option<RawAccountView>, Seq<char>>,
)
    ensures
        config.mint_info(mint, Some(expected), fetched) matches Ok(info) ==> info.decimals
            == expected,
{
}

/// Where a mint was expected, an account that passes the check is one of that mint.
pub proof fn checked_account_has_the_expected_mint<S: ?Sized>(
    config: ConfigView<S>,
    token_account: Pubkey,
    expected: Pubkey,
    fetched: Result<Option<RawAccountView>, Seq<char>>,
)
    ensures
        config.account_mint(token_account, Some(expected), fetched) matches Ok(mint) ==> mint
            == expected,
{
}

/// Where transactions are only signed, the network is not needed: mints and accounts pass whatever
/// was fetched, and nothing of it shows in the results.
pub proof fn signing_only_needs_no_accounts<S: ?Sized>(
    config: ConfigView<S>,
    address: Pubkey,
    expected_decimals: Option<u8>,
    expected_mint: Option<Pubkey>,
    fetched: Result<Option<RawAccountView>, Seq<char>>,
)
    requires
        config.sign_only,
    ensures
        config.mint_info(address, expected_decimals, fetched) is Ok,
        config.account_mint(address, expected_mint, fetched) is Ok,
        config.mint_info(address, expected_decimals, fetched) == config.mint_info(
            address,
            expected_decimals,
            Ok(None),
        ),
        config.account_mint(address, expected_mint, fetched) == config.account_mint(
            address,
            expected_mint,
            Ok(None),
        ),
{
}

/// Where accounts are fetched, one of another program passes no check.
pub proof fn accounts_of_other_programs_are_refused<S: ?Sized>(
    config: ConfigView<S>,
    address: Pubkey,
    expected_decimals: Option<u8>,
    expected_mint: Option<Pubkey>,
    account: RawAccountView,
)
    requires
        !config.sign_only,
        account.owner != config.program_id,
    ensures
        ({
            let refusal = ErrorView::WrongOwner {
                account: address,
                owner: account.owner,
                program_id: config.program_id,
            };
            &&& config.checked_account(address, Ok(Some(account))) == Err::<RawAccountView, _>(refusal)
            &&& config.mint_info(address, expected_decimals, Ok(Some(account))) == Err::<
                MintInfo,
                _,
            >(refusal)
            &&& config.account_mint(address, expected_mint, Ok(Some(account))) == Err::<
                Pubkey,
                _,
            >(refusal)
        }),
{
}

/// Where accounts are fetched, one that could not be fetched, for whatever reason, is reported like
/// one that is not there.
pub proof fn unfetched_accounts_are_not_found<S: ?Sized>(
    config: ConfigView<S>,
    address: Pubkey,
    expected_decimals: Option<u8>,
    expected_mint: Option<Pubkey>,
    fetched: Result<Option<RawAccountView>, Seq<char>>,
)
    requires
        !config.sign_only,
        fetched is Err || fetched == Ok::<Option<RawAccountView>, Seq<char>>(None),
    ensures
        ({
            let refusal = ErrorView::AccountNotFound(address);
            &&& config.checked_account(address, fetched) == Err::<RawAccountView, _>(refusal)
            &&& config.mint_info(address, expected_decimals, fetched) == Err::<MintInfo, _>(refusal)
            &&& config.account_mint(address, expected_mint, fetched) == Err::<Pubkey, _>(refusal)
        }),
{
}

/// An address that was given is the one that is used, whatever the default signer; without one it is
/// that of the default signer, and an error where there is none.
pub proof fn given_address_comes_before_the_default<S: ?Sized>(
    config: ConfigView<S>,
    address: Pubkey,
)
    ensures
        config.address_or_default(Ok(Some(address))) == Ok::<_, ErrorView>(address),
        match config.default_signer {
            Some(signer) => config.address_or_default(Ok(None)) == Ok::<_, ErrorView>(
                signer.pubkey,
            ),
            None => config.address_or_default(Ok(None)) == Err::<Pubkey, _>(
                ErrorView::NoDefaultSigner,
            ),
        },
{
}

/// The signer that was given for an authority other than the owner is the one that is loaded and
/// used, whatever the default signer. An address without a key will do for it exactly where there
/// are multisig members.
pub proof fn given_signer_comes_before_the_default<S: ?Sized>(
    config: ConfigView<S>,
    matches: ArgMatchesView,
    authority_name: Seq<char>,
    path: Seq<char>,
    signer: LoadedSigner<S>,
)
    requires
        authority_name != OWNER_ARG@,
        matches.value_of(authority_name) == Some(path),
    ensures
        config.signer_request(matches, authority_name) matches Some(request) && request.path == path
            && request.keypair_name == authority_name && request.allow_null_signer == (
        config.multisigner_pubkeys.len() > 0),
        config.authority(Some(Ok(signer))) == Ok::<_, ErrorView>(signer),
{
}

/// Without a signer that was given for an authority it is the default signer that is used.
pub proof fn default_signer_stands_in<S: ?Sized>(
    config: ConfigView<S>,
    matches: ArgMatchesView,
    authority_name: Seq<char>,
)
    requires
        matches.value_of(authority_name) is None,
    ensures
        config.signer_request(matches, authority_name) is None,
        config.authority(None) == config.signer(),
{
}

/// The address that comes with the signer for an authority is that signer's own, where those of the
/// loaded signer and of the default signer are theirs.
pub proof fn authority_comes_with_its_own_address<S: ?Sized>(
    config: ConfigView<S>,
    loaded: Option<Result<LoadedSigner<S>, Seq<char>>>,
    key_of: spec_fn(Arc<S>) -> Pubkey,
)
    requires
        loaded matches Some(Ok(signer)) ==> signer.is_paired(key_of),
        config.default_signer matches Some(signer) ==> signer.is_paired(key_of),
    ensures
        config.authority(loaded) matches Ok(signer) ==> signer.pubkey == key_of(signer.signer),
{
}

/// The owner is always the default signer: no signer is loaded for it.
pub proof fn owner_is_never_loaded<S: ?Sized>(config: ConfigView<S>, matches: ArgMatchesView)
    ensures
        config.signer_request(matches, OWNER_ARG@) is None,
{
}

/// The default signer is the configured one, and there is none where none is configured. What came
/// of loading a signer for an authority, or of looking up an address, is what comes of it, and the
/// reason is passed on where it could not be loaded.
pub proof fn what_is_configured_or_given_is_used<S: ?Sized>(
    config: ConfigView<S>,
    signer: LoadedSigner<S>,
    reason: Seq<char>,
)
    ensures
        config.default_signer == Some(signer) ==> config.signer() == Ok::<_, ErrorView>(signer),
        config.default_signer is None ==> config.signer() == Err::<LoadedSigner<S>, _>(
            ErrorView::NoDefaultSigner,
        ),
        config.default_signer == Some(signer) ==> config.authority(None) == Ok::<_, ErrorView>(
            signer,
        ),
        config.default_signer is None ==> config.authority(None) == Err::<LoadedSigner<S>, _>(
            ErrorView::NoDefaultSigner,
        ),
        config.authority(Some(Ok(signer))) == Ok::<_, ErrorView>(signer),
        config.authority(Some(Err(reason))) == Err::<LoadedSigner<S>, _>(
            ErrorView::NotLoaded(reason),
        ),
        config.address_or_default(Err(reason)) == Err::<Pubkey, _>(ErrorView::NotLoaded(reason)),
{
}

/// The signer that is loaded for an authority is asked for by the first value of the argument of its
/// name and under that name; none is loaded where there is no value, nor for the owner.
pub proof fn authority_is_asked_for_by_its_argument<S: ?Sized>(
    config: ConfigView<S>,
    matches: ArgMatchesView,
    name: Seq<char>,
)
    ensures
        name == "owner"@ ==> config.signer_request(matches, name) is None,
        name != "owner"@ && matches.args.contains_key(name) && matches.args[name].len() > 0
            ==> config.signer_request(matches, name) == Some(
            SignerRequestView {
                path: matches.args[name][0],
                keypair_name: name,
                allow_null_signer: config.multisigner_pubkeys.len() != 0,
            },
        ),
        !matches.args.contains_key(name) || matches.args[name].len() == 0
            ==> config.signer_request(matches, name) is None,
{
}

/// Where accounts are fetched, an account of the configured program passes, and it is handed on as it
/// was fetched.
pub proof fn accounts_of_the_program_pass<S: ?Sized>(
    config: ConfigView<S>,
    address: Pubkey,
    account: RawAccountView,
)
    requires
        account.owner == config.program_id,
    ensures
        config.checked_account(address, Ok(Some(account))) == Ok::<_, ErrorView>(account),
{
}

/// Where accounts are fetched, an account of the configured program whose data hold a mint, with or
/// without extensions, passes as that mint with the decimals in its data, if no decimals or those
/// were expected. Other decimals are told, and what is no mint is none.
pub proof fn mints_of_the_program_pass<S: ?Sized>(
    config: ConfigView<S>,
    mint: Pubkey,
    expected: Option<u8>,
    account: RawAccountView,
)
    requires
        !config.sign_only,
        account.owner == config.program_id,
    ensures
        ({
            let result = config.mint_info(mint, expected, Ok(Some(account)));
            let decimals = account.data[44];
            &&& holds_mint(account.data) && (expected is None || expected == Some(decimals))
                ==> result == Ok::<_, ErrorView>(
                MintInfo { program_id: account.owner, address: mint, decimals },
            )
            &&& holds_mint(account.data) && expected is Some && expected != Some(decimals)
                ==> result == Err::<MintInfo, _>(
                ErrorView::WrongDecimals { mint, decimals, expected: expected->Some_0 },
            )
            &&& !holds_mint(account.data) ==> result == Err::<MintInfo, _>(
                ErrorView::MintNotFound(mint),
            )
        }),
{
}

/// Where accounts are fetched, an account of the configured program whose data hold a token account,
/// with or without extensions, passes with the mint in its first 32 bytes, if no mint or that mint
/// was expected. Another mint is refused, and what is no token account is none.
pub proof fn token_accounts_of_the_program_pass<S: ?Sized>(
    config: ConfigView<S>,
    token_account: Pubkey,
    expected: Option<Pubkey>,
    account: RawAccountView,
    mint: Pubkey,
)
    requires
        !config.sign_only,
        account.owner == config.program_id,
    ensures
        ({
            let result = config.account_mint(token_account, expected, Ok(Some(account)));
            let holds = holds_account(account.data) && account.data.take(32) == mint@;
            &&& holds && (expected is None || expected == Some(mint)) ==> result == Ok::<
                _,
                ErrorView,
            >(mint)
            &&& holds && expected is Some && expected != Some(mint) ==> result == Err::<Pubkey, _>(
                ErrorView::WrongMint { account: token_account, mint: expected->Some_0 },
            )
            &&& !holds_account(account.data) ==> result == Err::<Pubkey, _>(
                ErrorView::TokenAccountNotFound(token_account),
            )
        }),
{
    account_mint_is_in_the_first_bytes(account.data, mint);
}

/// Where transactions are only signed, mints and mints of accounts are what was expected of them, and
/// else zero, under the configured program.
pub proof fn signing_only_believes_what_is_expected<S: ?Sized>(
    config: ConfigView<S>,
    address: Pubkey,
    decimals: u8,
    mint: Pubkey,
    fetched: Result<Option<RawAccountView>, Seq<char>>,
)
    requires
        config.sign_only,
    ensures
        config.mint_info(address, Some(decimals), fetched) == Ok::<_, ErrorView>(
            MintInfo { program_id: config.program_id, address, decimals },
        ),
        config.mint_info(address, None, fetched) == Ok::<_, ErrorView>(
            MintInfo { program_id: config.program_id, address, decimals: 0 },
        ),
        config.account_mint(address, Some(mint), fetched) == Ok::<_, ErrorView>(mint),
        (forall|i: int| 0 <= i < 32 ==> mint.bytes[i] == 0) ==> config.account_mint(
            address,
            None,
            fetched,
        ) == Ok::<_, ErrorView>(mint),
{
    zeros_are_zero(mint, crate::pubkey::zero_blockhash());
}

/// Accounts, what came of fetching them and of looking up addresses, and results are told as they
/// are.
pub proof fn accounts_and_results_are_told_as_they_are<T>(
    account: RawAccount,
    fetched: Result<Option<RawAccount>, String>,
    given: Result<Option<Pubkey>, String>,
    result: Result<T, Error>,
)
    ensures
        account@.lamports == account.lamports,
        account@.data == account.data@,
        account@.owner == account.owner,
        account@.executable == account.executable,
        account@.rent_epoch == account.rent_epoch,
        fetched matches Ok(Some(found)) ==> fetching(fetched) == Ok::<_, Seq<char>>(Some(found@)),
        fetched == Ok::<Option<RawAccount>, String>(None) ==> fetching(fetched) == Ok::<
            Option<RawAccountView>,
            Seq<char>,
        >(None),
        fetched matches Err(reason) ==> fetching(fetched) == Err::<Option<RawAccountView>, _>(
            reason@,
        ),
        given matches Ok(address) ==> lookup(given) == Ok::<_, Seq<char>>(address),
        given matches Err(reason) ==> lookup(given) == Err::<Option<Pubkey>, _>(reason@),
        result matches Ok(value) ==> outcome(result) == Ok::<_, ErrorView>(value),
        result matches Err(error) ==> outcome(result) == Err::<T, _>(error@),
{
}

/// A configuration is told as it is.
pub proof fn configurations_are_told_as_they_are<S: ?Sized>(config: Config<S>)
    ensures
        config@.default_signer == config.default_signer,
        config@.websocket_url == config.websocket_url@,
        config@.output_format == config.output_format,
        config@.fee_payer == config.fee_payer,
        config@.nonce_account == config.nonce_account,
        config@.nonce_authority == config.nonce_authority,
        config@.nonce_blockhash == config.nonce_blockhash,
        config@.sign_only == config.sign_only,
        config@.dump_transaction_message == config.dump_transaction_message,
        config@.multisigner_pubkeys == config.multisigner_pubkeys@,
        config@.program_id == config.program_id,
        config@.restrict_to_program_id == config.restrict_to_program_id,
{
}

} // verus!
