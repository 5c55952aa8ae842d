//! What comes of setting up a configuration, whatever the surroundings reply.

use crate::args::{
    ArgMatchesView, BLOCKHASH_ARG, CONFIG_FILE_ARG, DUMP_TRANSACTION_MESSAGE_ARG, FEE_PAYER_ARG,
    MULTISIG_SIGNER_ARG, NONCE_ARG, OWNER_ARG, PROGRAM_ID_ARG, SIGN_ONLY_ARG,
};
use crate::cli_config::{
    default_settings, keypair_place, rpc_url, settings_place, CliConfigView,
};
use crate::config::ConfigView;
use crate::error::FailureView;
use crate::programs::default_program;
use crate::protocol::{ReplyView, RequestView, Surroundings};
use crate::pubkey::Pubkey;
use crate::setup::{
    account_to_follow, all_signers, default_signer_request, fee_payer_request, next_signer,
    nonce_authority_request, numbered_signer, BasisView, DraftView, SetupView, StageView,
};
use crate::signer::{
    addresses, are_paired, by_address, signers, sorting_keeps_pairs, LoadedSigner,
    SignerRequestView,
};
use crate::text::{decimal, decimal_is_injective};
use crate::urls::{has_websocket_url, websocket_url_of};
use std::sync::Arc;
use vstd::prelude::*;

verus! {

/// A configuration that is set up, with all signers and the addresses of all multisig members.
#[verifier::ext_equal]
pub struct SessionView<S: ?Sized> {
    pub config: ConfigView<S>,
    pub bulk_signers: Seq<Arc<S>>,
    pub multisigner_ids: Seq<Pubkey>,
}

/// The settings in a file that was given.
pub open spec fn given_settings<S: ?Sized>(path: Seq<char>, around: Surroundings<S>) -> Result<
    CliConfigView,
    FailureView,
> {
    match (around.settings)(path) {
        Some(settings) => Ok(settings),
        None => Err(FailureView::ConfigFileNotFound(path)),
    }
}

/// The settings in a file where the user keeps them, else the default settings.
pub open spec fn kept_settings<S: ?Sized>(path: Seq<char>, around: Surroundings<S>) -> CliConfigView {
    match (around.settings)(path) {
        Some(settings) => settings,
        None => around.default_settings,
    }
}

/// The settings by which the clients are opened.
pub open spec fn settings_for_clients<S: ?Sized>(
    args: ArgMatchesView,
    around: Surroundings<S>,
) -> Result<CliConfigView, FailureView> {
    match args.value_of(CONFIG_FILE_ARG@) {
        Some(path) => given_settings(path, around),
        None => match (around.home_file)(settings_place()) {
            Some(path) => Ok(kept_settings(path, around)),
            None => Ok(default_settings((around.home_file)(keypair_place())->Some_0)),
        },
    }
}

/// The settings by which the signers are loaded.
pub open spec fn settings_for_signers<S: ?Sized>(
    args: ArgMatchesView,
    around: Surroundings<S>,
) -> Result<CliConfigView, FailureView> {
    match args.value_of(CONFIG_FILE_ARG@) {
        Some(path) => given_settings(path, around),
        None => Ok(
            match around.settings_file {
                Some(path) => kept_settings(path, around),
                None => around.default_settings,
            },
        ),
    }
}

/// The signers for the values of an argument from value `i` on, or why the first that could not be
/// loaded could not.
pub open spec fn signers_from<S: ?Sized>(
    name: Seq<char>,
    values: Seq<Seq<char>>,
    i: nat,
    around: Surroundings<S>,
) -> Result<Seq<LoadedSigner<S>>, Seq<char>>
    decreases values.len() - i,
{
    if i >= values.len() {
        Ok(Seq::empty())
    } else {
        match (around.signer)(numbered_signer(name, values, i as int)) {
            Err(reason) => Err(reason),
            Ok(signer) => match signers_from(name, values, i + 1, around) {
                Err(reason) => Err(reason),
                Ok(rest) => Ok(seq![signer] + rest),
            },
        }
    }
}

/// The signers for the values of an argument, in the order in which they were given, or none at all
/// where the argument was not given; or why the first that could not be loaded could not.
pub open spec fn loaded_signers<S: ?Sized>(
    args: ArgMatchesView,
    name: Seq<char>,
    around: Surroundings<S>,
) -> Result<Option<Seq<LoadedSigner<S>>>, Seq<char>> {
    match args.values_of(name) {
        Some(values) => match signers_from(name, values, 0, around) {
            Ok(all) => Ok(Some(all)),
            Err(reason) => Err(reason),
        },
        None => Ok(None),
    }
}

/// The default signer, if there is one. That it cannot be loaded is fatal only where no owner was
/// given and the keypair file of the settings is there.
pub open spec fn default_signer_of<S: ?Sized>(
    args: ArgMatchesView,
    keypair_path: Seq<char>,
    allow_null_signer: bool,
    around: Surroundings<S>,
) -> Result<Option<LoadedSigner<S>>, Seq<char>> {
    match (around.signer)(default_signer_request(args, keypair_path, allow_null_signer)) {
        Ok(signer) => Ok(Some(signer)),
        Err(reason) => if args.value_of(OWNER_ARG@) is None && (around.file_exists)(keypair_path) {
            Err(reason)
        } else {
            Ok(None)
        },
    }
}

/// The fee payer: the given one, else the default signer.
pub open spec fn fee_payer_of<S: ?Sized>(
    args: ArgMatchesView,
    default_signer: Option<LoadedSigner<S>>,
    around: Surroundings<S>,
) -> Result<Option<LoadedSigner<S>>, Seq<char>> {
    match args.value_of(FEE_PAYER_ARG@) {
        Some(path) => match (around.signer)(fee_payer_request(path)) {
            Ok(signer) => Ok(Some(signer)),
            Err(reason) => Err(reason),
        },
        None => Ok(default_signer),
    }
}

/// The nonce authority, where there is a nonce account.
pub open spec fn nonce_authority_of<S: ?Sized>(
    args: ArgMatchesView,
    keypair_path: Seq<char>,
    nonce_account: Option<Pubkey>,
    around: Surroundings<S>,
) -> Result<Option<LoadedSigner<S>>, Seq<char>> {
    match nonce_account {
        Some(_) => match (around.signer)(nonce_authority_request(args, keypair_path)) {
            Ok(signer) => Ok(Some(signer)),
            Err(reason) => Err(reason),
        },
        None => Ok(None),
    }
}

/// The program: the given one, else that of the account to follow, else the token program.
pub open spec fn program_of<S: ?Sized>(args: ArgMatchesView, around: Surroundings<S>) -> Pubkey {
    match args.pubkey_of(PROGRAM_ID_ARG@) {
        Some(program_id) => program_id,
        None => match account_to_follow(args) {
            Some(address) => match (around.account_owner)(address) {
                Ok(owner) => owner,
                Err(_) => default_program(),
            },
            None => default_program(),
        },
    }
}

/// The configuration that comes of the settings, the signers and the arguments when the clients are
/// open, or what first stands in the way.
pub open spec fn session_outcome<S: ?Sized>(
    basis: BasisView<S>,
    websocket_url: Seq<char>,
    around: Surroundings<S>,
) -> Result<SessionView<S>, FailureView> {
    match settings_for_signers(basis.args, around) {
        Err(failure) => Err(failure),
        Ok(settings) => match loaded_signers(basis.args, MULTISIG_SIGNER_ARG@, around) {
            Err(reason) => Err(FailureView::NotLoaded(reason)),
            Ok(members) => multisig_outcome(
                basis,
                websocket_url,
                settings.keypair_path,
                members,
                around,
            ),
        },
    }
}

/// The configuration that comes when the signers of a multisig account are loaded, if such were
/// given.
pub open spec fn multisig_outcome<S: ?Sized>(
    basis: BasisView<S>,
    websocket_url: Seq<char>,
    keypair_path: Seq<char>,
    members: Option<Seq<LoadedSigner<S>>>,
    around: Surroundings<S>,
) -> Result<SessionView<S>, FailureView> {
    let multisigner_ids = basis.with_members(members).multisigner_ids;
    let bulk_signers = basis.with_members(members).bulk_signers;
    match default_signer_of(basis.args, keypair_path, multisigner_ids.len() > 0, around) {
        Err(reason) => Err(FailureView::NotLoaded(reason)),
        Ok(default_signer) => match fee_payer_of(basis.args, default_signer, around) {
            Err(reason) => Err(FailureView::NotLoaded(reason)),
            Ok(fee_payer) => match (around.pubkey_of)(NONCE_ARG@) {
                Err(reason) => Err(FailureView::NotLoaded(reason)),
                Ok(nonce_account) => match nonce_authority_of(
                    basis.args,
                    keypair_path,
                    nonce_account,
                    around,
                ) {
                    Err(reason) => Err(FailureView::NotLoaded(reason)),
                    Ok(nonce_authority) => Ok(
                        SessionView {
                            config: ConfigView {
                                default_signer,
                                websocket_url,
                                output_format: basis.output_format,
                                fee_payer,
                                nonce_account,
                                nonce_authority,
                                nonce_blockhash: basis.args.blockhash_of(BLOCKHASH_ARG@),
                                sign_only: basis.args.is_present(SIGN_ONLY_ARG@),
                                dump_transaction_message: basis.args.is_present(
                                    DUMP_TRANSACTION_MESSAGE_ARG@,
                                ),
                                multisigner_pubkeys: multisigner_ids,
                                program_id: program_of(basis.args, around),
                                restrict_to_program_id: basis.args.pubkey_of(
                                    PROGRAM_ID_ARG@,
                                ) is Some,
                            },
                            bulk_signers,
                            multisigner_ids,
                        },
                    ),
                },
            },
        },
    }
}

/// The configuration that comes of all of it, the clients included.
pub open spec fn full_outcome<S: ?Sized>(basis: BasisView<S>, around: Surroundings<S>) -> Result<
    SessionView<S>,
    FailureView,
> {
    match settings_for_clients(basis.args, around) {
        Err(failure) => Err(failure),
        Ok(settings) => {
            let json_rpc_url = rpc_url(basis.args, settings);
            if has_websocket_url(json_rpc_url) {
                session_outcome(basis, websocket_url_of(json_rpc_url), around)
            } else {
                Err(FailureView::NoWebsocketUrl(json_rpc_url))
            }
        },
    }
}

impl<S: ?Sized> SetupView<S> {
    /// How many questions can be left at most.
    pub open spec fn questions_left(self) -> nat {
        let members = match self.basis.args.values_of(MULTISIG_SIGNER_ARG@) {
            Some(values) => values.len(),
            None => 0,
        };
        match self.stage {
            StageView::FindSettings => members + 13,
            StageView::LoadSettings { session: None, .. } => members + 12,
            StageView::FindKeypair => members + 11,
            StageView::DefaultSettings { session: None } => members + 11,
            StageView::OpenClients { .. } => members + 10,
            StageView::FindDefaultSettings { .. } => members + 9,
            StageView::LoadSettings { session: Some(_), .. } => members + 8,
            StageView::DefaultSettings { session: Some(_) } => members + 7,
            StageView::LoadMultisig { loaded, .. } => if loaded.len() < members {
                (members - loaded.len() + 6) as nat
            } else {
                7
            },
            StageView::LoadDefault { .. } => 6,
            StageView::CheckKeypair { .. } => 5,
            StageView::LoadFeePayer { .. } => 4,
            StageView::FindNonce { .. } => 3,
            StageView::LoadNonceAuthority { .. } => 2,
            StageView::FindProgram { .. } => 1,
            StageView::Done { .. } => 0,
            StageView::Failed { .. } => 0,
        }
    }

    /// The setup when every question was answered.
    pub open spec fn answered(self, around: Surroundings<S>) -> SetupView<S>
        decreases self.questions_left(),
    {
        match self.request() {
            Some(request) => if self.takes(around.reply(request)) {
                proof {
                    every_reply_leaves_fewer_questions(self, around.reply(request));
                }
                self.next(around.reply(request)).answered(around)
            } else {
                self
            },
            None => self,
        }
    }

    /// What came of the setup.
    pub open spec fn conclusion(self) -> Option<Result<SessionView<S>, FailureView>> {
        match self.stage {
            StageView::Done { config } => Some(
                Ok(
                    SessionView {
                        config,
                        bulk_signers: self.basis.bulk_signers,
                        multisigner_ids: self.basis.multisigner_ids,
                    },
                ),
            ),
            StageView::Failed { failure } => Some(Err(failure)),
            _ => None,
        }
    }
}

/// Setting up comes to an end: every reply leaves fewer questions, and where none is left there is
/// a conclusion.
pub proof fn every_reply_leaves_fewer_questions<S: ?Sized>(
    setup: SetupView<S>,
    reply: ReplyView<S>,
)
    requires
        setup.takes(reply),
    ensures
        setup.next(reply).questions_left() < setup.questions_left(),
        setup.next(reply).request() is None ==> setup.next(reply).conclusion() is Some,
{
}

proof fn one_question<S: ?Sized>(setup: SetupView<S>, around: Surroundings<S>)
    requires
        setup.request() matches Some(request) && setup.takes(around.reply(request)),
    ensures
        setup.answered(around) == setup.next(around.reply(setup.request()->Some_0)).answered(
            around,
        ),
{
}

/// The configuration that a draft comes to, with the program that is found for it.
spec fn drafted<S: ?Sized>(
    basis: BasisView<S>,
    draft: DraftView<S>,
    around: Surroundings<S>,
) -> SessionView<S> {
    SessionView {
        config: ConfigView {
            default_signer: draft.default_signer,
            websocket_url: draft.websocket_url,
            output_format: basis.output_format,
            fee_payer: draft.fee_payer,
            nonce_account: draft.nonce_account,
            nonce_authority: draft.nonce_authority,
            nonce_blockhash: basis.args.blockhash_of(BLOCKHASH_ARG@),
            sign_only: basis.args.is_present(SIGN_ONLY_ARG@),
            dump_transaction_message: basis.args.is_present(DUMP_TRANSACTION_MESSAGE_ARG@),
            multisigner_pubkeys: draft.multisigner_pubkeys,
            program_id: program_of(basis.args, around),
            restrict_to_program_id: basis.args.pubkey_of(PROGRAM_ID_ARG@) is Some,
        },
        bulk_signers: basis.bulk_signers,
        multisigner_ids: basis.multisigner_ids,
    }
}

proof fn from_nonce_authority<S: ?Sized>(
    basis: BasisView<S>,
    draft: DraftView<S>,
    nonce_authority: Option<LoadedSigner<S>>,
    around: Surroundings<S>,
)
    ensures
        basis.with_nonce_authority(draft, nonce_authority).answered(around).conclusion() == Some(
            Ok::<_, FailureView>(
                drafted(basis, DraftView { nonce_authority, ..draft }, around),
            ),
        ),
{
    reveal_with_fuel(SetupView::answered, 2);
}

/// What comes of a draft when the nonce account is asked for.
spec fn from_nonce_outcome<S: ?Sized>(
    basis: BasisView<S>,
    draft: DraftView<S>,
    around: Surroundings<S>,
) -> Result<SessionView<S>, FailureView> {
    match (around.pubkey_of)(NONCE_ARG@) {
        Err(reason) => Err(FailureView::NotLoaded(reason)),
        Ok(nonce_account) => match nonce_authority_of(
            basis.args,
            draft.keypair_path,
            nonce_account,
            around,
        ) {
            Err(reason) => Err(FailureView::NotLoaded(reason)),
            Ok(nonce_authority) => Ok(
                drafted(basis, DraftView { nonce_account, nonce_authority, ..draft }, around),
            ),
        },
    }
}

proof fn from_nonce<S: ?Sized>(
    basis: BasisView<S>,
    draft: DraftView<S>,
    around: Surroundings<S>,
)
    ensures
        basis.at(StageView::FindNonce { draft }).answered(around).conclusion() == Some(
            from_nonce_outcome(basis, draft, around),
        ),
{
    reveal_with_fuel(SetupView::answered, 3);
    match (around.pubkey_of)(NONCE_ARG@) {
        Ok(nonce_account) => {
            let noted = DraftView { nonce_account, ..draft };
            match nonce_authority_of(basis.args, draft.keypair_path, nonce_account, around) {
                Ok(nonce_authority) => {
                    from_nonce_authority(basis, noted, nonce_authority, around);
                },
                Err(_) => {},
            }
        },
        Err(_) => {},
    }
}

proof fn from_default_signer<S: ?Sized>(
    basis: BasisView<S>,
    draft: DraftView<S>,
    default_signer: Option<LoadedSigner<S>>,
    around: Surroundings<S>,
)
    ensures
        basis.with_default_signer(draft, default_signer).answered(around).conclusion() == Some(
            match fee_payer_of(basis.args, default_signer, around) {
                Err(reason) => Err(FailureView::NotLoaded(reason)),
                Ok(fee_payer) => from_nonce_outcome(
                    basis,
                    DraftView { default_signer, fee_payer, ..draft },
                    around,
                ),
            },
        ),
{
    reveal_with_fuel(SetupView::answered, 2);
    match fee_payer_of(basis.args, default_signer, around) {
        Ok(fee_payer) => {
            from_nonce(basis, DraftView { default_signer, fee_payer, ..draft }, around);
        },
        Err(_) => {},
    }
}

proof fn from_multisig<S: ?Sized>(
    basis: BasisView<S>,
    websocket_url: Seq<char>,
    keypair_path: Seq<char>,
    members: Seq<LoadedSigner<S>>,
    around: Surroundings<S>,
)
    requires
        next_signer(basis.args, MULTISIG_SIGNER_ARG@, members.len()) is None,
    ensures
        basis.with_multisig(websocket_url, keypair_path, members).answered(around).conclusion()
            == Some(
            multisig_outcome(
                basis,
                websocket_url,
                keypair_path,
                all_signers(basis.args, MULTISIG_SIGNER_ARG@, members),
                around,
            ),
        ),
{
    reveal_with_fuel(SetupView::answered, 3);
    let setup = basis.with_multisig(websocket_url, keypair_path, members);
    let draft = setup.stage->LoadDefault_draft;
    match default_signer_of(
        basis.args,
        keypair_path,
        draft.multisigner_pubkeys.len() > 0,
        around,
    ) {
        Ok(default_signer) => {
            from_default_signer(setup.basis, draft, default_signer, around);
        },
        Err(_) => {},
    }
}

proof fn from_members<S: ?Sized>(
    basis: BasisView<S>,
    websocket_url: Seq<char>,
    keypair_path: Seq<char>,
    loaded: Seq<LoadedSigner<S>>,
    values: Seq<Seq<char>>,
    around: Surroundings<S>,
)
    requires
        basis.args.values_of(MULTISIG_SIGNER_ARG@) == Some(values),
    ensures
        basis.with_multisig(websocket_url, keypair_path, loaded).answered(around).conclusion()
            == Some(
            match signers_from(MULTISIG_SIGNER_ARG@, values, loaded.len(), around) {
                Err(reason) => Err(FailureView::NotLoaded(reason)),
                Ok(rest) => multisig_outcome(
                    basis,
                    websocket_url,
                    keypair_path,
                    Some(loaded + rest),
                    around,
                ),
            },
        ),
    decreases values.len() - loaded.len(),
{
    reveal_with_fuel(SetupView::answered, 2);
    if loaded.len() >= values.len() {
        assert(loaded + Seq::<LoadedSigner<S>>::empty() == loaded);
        from_multisig(basis, websocket_url, keypair_path, loaded, around);
    } else {
        match (around.signer)(
            numbered_signer(MULTISIG_SIGNER_ARG@, values, loaded.len() as int),
        ) {
            Ok(signer) => {
                from_members(
                    basis,
                    websocket_url,
                    keypair_path,
                    loaded.push(signer),
                    values,
                    around,
                );
                match signers_from(MULTISIG_SIGNER_ARG@, values, loaded.len() + 1, around) {
                    Ok(rest) => {
                        assert(loaded.push(signer) + rest == loaded + (seq![signer] + rest));
                    },
                    Err(_) => {},
                }
            },
            Err(_) => {},
        }
    }
}

proof fn from_settings<S: ?Sized>(
    basis: BasisView<S>,
    websocket_url: Seq<char>,
    settings: CliConfigView,
    around: Surroundings<S>,
)
    ensures
        basis.with_settings(Some(websocket_url), settings).answered(around).conclusion() == Some(
            match loaded_signers(basis.args, MULTISIG_SIGNER_ARG@, around) {
                Err(reason) => Err(FailureView::NotLoaded(reason)),
                Ok(members) => multisig_outcome(
                    basis,
                    websocket_url,
                    settings.keypair_path,
                    members,
                    around,
                ),
            },
        ),
{
    let none = Seq::<LoadedSigner<S>>::empty();
    match basis.args.values_of(MULTISIG_SIGNER_ARG@) {
        Some(values) => {
            from_members(basis, websocket_url, settings.keypair_path, none, values, around);
            match signers_from(MULTISIG_SIGNER_ARG@, values, 0, around) {
                Ok(members) => {
                    assert(none + members == members);
                },
                Err(_) => {},
            }
        },
        None => {
            from_multisig(basis, websocket_url, settings.keypair_path, none, around);
        },
    }
}

/// With the clients open, setting up asks its questions one after the other and comes to what the
/// arguments, the settings and the signers make: to the configuration, or to what first stood in
/// the way.
pub proof fn session_is_set_up<S: ?Sized>(
    basis: BasisView<S>,
    websocket_url: Seq<char>,
    around: Surroundings<S>,
)
    ensures
        basis.begin(Some(websocket_url)).answered(around).request() is None,
        basis.begin(Some(websocket_url)).answered(around).conclusion() == Some(
            session_outcome(basis, websocket_url, around),
        ),
{
    let begun = basis.begin(Some(websocket_url));
    let session = Some(websocket_url);
    one_question(begun, around);
    match basis.args.value_of(CONFIG_FILE_ARG@) {
        Some(path) => {
            if (around.settings)(path) is Some {
                from_settings(basis, websocket_url, (around.settings)(path)->Some_0, around);
            }
        },
        None => match around.settings_file {
            Some(path) => {
                kept_settings_are_used(basis, session, path, around);
                from_settings(basis, websocket_url, kept_settings(path, around), around);
            },
            None => {
                one_question(basis.at(StageView::DefaultSettings { session }), around);
                from_settings(basis, websocket_url, around.default_settings, around);
            },
        },
    }
}

proof fn kept_settings_are_used<S: ?Sized>(
    basis: BasisView<S>,
    session: Option<Seq<char>>,
    path: Seq<char>,
    around: Surroundings<S>,
)
    ensures
        basis.at(StageView::LoadSettings { session, path, given: false }).answered(around)
            == basis.with_settings(session, kept_settings(path, around)).answered(around),
{
    one_question(basis.at(StageView::LoadSettings { session, path, given: false }), around);
    if (around.settings)(path) is None {
        one_question(basis.at(StageView::DefaultSettings { session }), around);
    }
}

proof fn from_client_settings<S: ?Sized>(
    basis: BasisView<S>,
    settings: CliConfigView,
    around: Surroundings<S>,
)
    ensures
        ({
            let json_rpc_url = rpc_url(basis.args, settings);
            basis.with_settings(None, settings).answered(around).conclusion() == Some(
                if has_websocket_url(json_rpc_url) {
                    session_outcome(basis, websocket_url_of(json_rpc_url), around)
                } else {
                    Err(FailureView::NoWebsocketUrl(json_rpc_url))
                },
            )
        }),
{
    let json_rpc_url = rpc_url(basis.args, settings);
    if has_websocket_url(json_rpc_url) {
        one_question(basis.with_settings(None, settings), around);
        session_is_set_up(basis, websocket_url_of(json_rpc_url), around);
    }
}

/// Setting up all of it comes to what the arguments, the settings and the signers make. Where no
/// settings are given and there is no home directory to keep them, there is no setting up.
pub proof fn all_is_set_up<S: ?Sized>(basis: BasisView<S>, around: Surroundings<S>)
    requires
        basis.args.value_of(CONFIG_FILE_ARG@) is Some || (around.home_file)(settings_place()) is Some
            || (around.home_file)(keypair_place()) is Some,
    ensures
        basis.begin(None).answered(around).request() is None,
        basis.begin(None).answered(around).conclusion() == Some(full_outcome(basis, around)),
{
    one_question(basis.begin(None), around);
    match basis.args.value_of(CONFIG_FILE_ARG@) {
        Some(path) => {
            if (around.settings)(path) is Some {
                from_client_settings(basis, (around.settings)(path)->Some_0, around);
            }
        },
        None => match (around.home_file)(settings_place()) {
            Some(path) => {
                kept_settings_are_used(basis, None, path, around);
                from_client_settings(basis, kept_settings(path, around), around);
            },
            None => {
                one_question(basis.at(StageView::FindKeypair), around);
                from_client_settings(
                    basis,
                    default_settings((around.home_file)(keypair_place())->Some_0),
                    around,
                );
            },
        },
    }
}

/// There is a nonce authority exactly where there is a nonce account.
pub proof fn nonce_account_has_an_authority<S: ?Sized>(
    basis: BasisView<S>,
    websocket_url: Seq<char>,
    around: Surroundings<S>,
)
    ensures
        session_outcome(basis, websocket_url, around) matches Ok(session)
            ==> session.config.nonce_authority is Some == session.config.nonce_account is Some,
{
}

/// Where no fee payer was given, the default signer pays, if there is one.
pub proof fn default_signer_pays<S: ?Sized>(
    basis: BasisView<S>,
    websocket_url: Seq<char>,
    around: Surroundings<S>,
)
    requires
        basis.args.value_of(FEE_PAYER_ARG@) is None,
    ensures
        session_outcome(basis, websocket_url, around) matches Ok(session)
            ==> session.config.fee_payer == session.config.default_signer,
{
}

/// A fee payer that was given pays, or there is no configuration.
pub proof fn given_fee_payer_pays<S: ?Sized>(
    basis: BasisView<S>,
    websocket_url: Seq<char>,
    path: Seq<char>,
    around: Surroundings<S>,
)
    requires
        basis.args.value_of(FEE_PAYER_ARG@) == Some(path),
    ensures
        session_outcome(basis, websocket_url, around) matches Ok(session) ==> (around.signer)(
            fee_payer_request(path),
        ) == Ok::<_, Seq<char>>(session.config.fee_payer->Some_0) && session.config.fee_payer is Some,
{
}

/// A session is restricted to its program exactly where the program was given, and is then one of
/// that program.
pub proof fn given_program_restricts<S: ?Sized>(
    basis: BasisView<S>,
    websocket_url: Seq<char>,
    around: Surroundings<S>,
)
    ensures
        session_outcome(basis, websocket_url, around) matches Ok(session) ==> {
            &&& session.config.restrict_to_program_id == basis.args.pubkey_of(
                PROGRAM_ID_ARG@,
            ) is Some
            &&& session.config.restrict_to_program_id ==> Some(session.config.program_id)
                == basis.args.pubkey_of(PROGRAM_ID_ARG@)
        },
{
}

/// Where transactions are only signed, the program is the given one or the token program, whatever
/// accounts there are.
pub proof fn signing_only_follows_no_account<S: ?Sized>(
    basis: BasisView<S>,
    websocket_url: Seq<char>,
    around: Surroundings<S>,
)
    requires
        basis.args.is_present(SIGN_ONLY_ARG@),
    ensures
        session_outcome(basis, websocket_url, around) matches Ok(session) ==> {
            &&& session.config.sign_only
            &&& session.config.program_id == match basis.args.pubkey_of(PROGRAM_ID_ARG@) {
                Some(program_id) => program_id,
                None => default_program(),
            }
        },
{
}

/// Where transactions are only signed, setting up never asks for an account: if it does not at one
/// step, it does not at the next.
pub proof fn signing_only_asks_for_no_account<S: ?Sized>(
    setup: SetupView<S>,
    reply: ReplyView<S>,
)
    requires
        setup.basis.args.is_present(SIGN_ONLY_ARG@),
        setup.takes(reply),
    ensures
        setup.next(reply).basis.args == setup.basis.args,
        setup.next(reply).request() matches Some(request) ==> !(request is AccountOwner),
{
}

/// An address without a key will do for a signer only where there are multisig members.
pub proof fn null_signers_are_for_multisig_only<S: ?Sized>(
    setup: SetupView<S>,
    reply: ReplyView<S>,
)
    requires
        setup.takes(reply),
    ensures
        setup.next(reply).request() matches Some(RequestView::LoadSigner(request)) ==> (
        request.allow_null_signer ==> setup.next(reply).basis.multisigner_ids.len() > 0),
{
}

/// The signers for an argument are none at all exactly where the argument was not given, and then
/// whatever signers can be loaded; else they are as many as it has values, if all can be loaded.
pub proof fn no_signers_without_the_argument<S: ?Sized>(
    args: ArgMatchesView,
    name: Seq<char>,
    around: Surroundings<S>,
)
    ensures
        loaded_signers(args, name, around) == Ok::<Option<Seq<LoadedSigner<S>>>, Seq<char>>(None)
            <==> args.values_of(name) is None,
        next_signer(args, name, 0) is Some ==> args.values_of(name) is Some,
        loaded_signers(args, name, around) matches Ok(Some(all)) ==> args.values_of(name) matches Some(
            values,
        ) && all.len() == values.len(),
{
    if let Some(values) = args.values_of(name) {
        signers_are_as_many(name, values, 0, around);
    }
}

proof fn signers_are_as_many<S: ?Sized>(
    name: Seq<char>,
    values: Seq<Seq<char>>,
    i: nat,
    around: Surroundings<S>,
)
    ensures
        i <= values.len() ==> (signers_from(name, values, i, around) matches Ok(all) ==> all.len()
            == values.len() - i),
    decreases values.len() - i,
{
    if i < values.len() {
        signers_are_as_many(name, values, i + 1, around);
    }
}

/// Where every signer is loaded with its own address, every address of a session that goes with a
/// signer is that signer's own: those of the default signer, the fee payer and the nonce authority,
/// and those of the multisig members that were added, one for one.
pub proof fn signers_come_with_their_own_addresses<S: ?Sized>(
    basis: BasisView<S>,
    websocket_url: Seq<char>,
    around: Surroundings<S>,
    key_of: spec_fn(Arc<S>) -> Pubkey,
)
    requires
        forall|request: SignerRequestView|
            (#[trigger] (around.signer)(request)) matches Ok(signer) ==> signer.is_paired(key_of),
    ensures
        session_outcome(basis, websocket_url, around) matches Ok(session) ==> {
            &&& session.config.default_signer matches Some(signer) ==> signer.is_paired(key_of)
            &&& session.config.fee_payer matches Some(signer) ==> signer.is_paired(key_of)
            &&& session.config.nonce_authority matches Some(signer) ==> signer.is_paired(key_of)
            &&& session.multisigner_ids.skip(basis.multisigner_ids.len() as int)
                == session.bulk_signers.skip(basis.bulk_signers.len() as int).map_values(key_of)
        },
{
    if let Some(values) = basis.args.values_of(MULTISIG_SIGNER_ARG@) {
        members_are_paired(MULTISIG_SIGNER_ARG@, values, 0, around, key_of);
        if let Ok(members) = signers_from(MULTISIG_SIGNER_ARG@, values, 0, around) {
            sorting_keeps_pairs(members, key_of);
            let sorted = by_address(members);
            assert(addresses(sorted) == signers(sorted).map_values(key_of));
            assert((basis.bulk_signers + signers(sorted)).skip(basis.bulk_signers.len() as int)
                == signers(sorted));
            assert((basis.multisigner_ids + addresses(sorted)).skip(
                basis.multisigner_ids.len() as int,
            ) == addresses(sorted));
        }
    }
}

proof fn members_are_paired<S: ?Sized>(
    name: Seq<char>,
    values: Seq<Seq<char>>,
    i: nat,
    around: Surroundings<S>,
    key_of: spec_fn(Arc<S>) -> Pubkey,
)
    requires
        forall|request: SignerRequestView|
            (#[trigger] (around.signer)(request)) matches Ok(signer) ==> signer.is_paired(key_of),
    ensures
        signers_from(name, values, i, around) matches Ok(all) ==> are_paired(all, key_of),
    decreases values.len() - i,
{
    if i < values.len() {
        members_are_paired(name, values, i + 1, around, key_of);
    }
}

/// The addresses of the multisig members are those that there were, and behind them those of the
/// signers that were given, in their order; the configuration has the same ones. As many signers
/// are added as addresses.
pub proof fn multisig_members_are_added<S: ?Sized>(
    basis: BasisView<S>,
    websocket_url: Seq<char>,
    around: Surroundings<S>,
)
    ensures
        session_outcome(basis, websocket_url, around) matches Ok(session) ==> {
            &&& loaded_signers(basis.args, MULTISIG_SIGNER_ARG@, around) matches Ok(members)
                && match members {
                Some(members) => {
                    &&& session.multisigner_ids == basis.multisigner_ids + addresses(
                        by_address(members),
                    )
                    &&& session.bulk_signers == basis.bulk_signers + signers(by_address(members))
                },
                None => {
                    &&& session.multisigner_ids == basis.multisigner_ids
                    &&& session.bulk_signers == basis.bulk_signers
                },
            }
            &&& session.config.multisigner_pubkeys == session.multisigner_ids
            &&& basis.multisigner_ids.is_prefix_of(session.multisigner_ids)
            &&& basis.bulk_signers.is_prefix_of(session.bulk_signers)
            &&& session.bulk_signers.len() - basis.bulk_signers.len()
                == session.multisigner_ids.len() - basis.multisigner_ids.len()
        },
{
}

/// No two signers of an argument are asked for under one name.
pub proof fn numbered_signers_have_names_of_their_own(
    name: Seq<char>,
    values: Seq<Seq<char>>,
    i: int,
    j: int,
)
    requires
        0 <= i,
        0 <= j,
        numbered_signer(name, values, i).keypair_name == numbered_signer(name, values, j).keypair_name,
    ensures
        i == j,
{
    let prefix = name + "-"@;
    let first = prefix + decimal((i + 1) as nat);
    let second = prefix + decimal((j + 1) as nat);
    assert(first.skip(prefix.len() as int) == decimal((i + 1) as nat));
    assert(second.skip(prefix.len() as int) == decimal((j + 1) as nat));
    decimal_is_injective((i + 1) as nat, (j + 1) as nat);
}

} // verus!
