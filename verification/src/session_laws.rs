//! What a session that is set up has of the arguments, the settings and the signers, when it is owed,
//! and what stands in its way.

use crate::args::ArgMatchesView;
use crate::cli_config::{client_kind, default_settings, rpc_url, CliConfigView, ClientKind};
use crate::error::FailureView;
use crate::programs::default_program;
use crate::protocol::{ReplyView, RequestView, Surroundings};
use crate::pubkey::{zeros_are_zero, Blockhash, Pubkey};
use crate::setup::{
    all_signers, default_signer_request, next_signer, numbered_signer, BasisView, DraftView, SetupView, StageView,
};
use crate::setup_outcome::{
    all_is_set_up, default_signer_of, every_reply_leaves_fewer_questions, fee_payer_of,
    multisig_outcome, nonce_authority_of, session_is_set_up, signers_from, SessionView,
};
use crate::signer::{
    addresses, by_address, signers, sorting_keeps_the_signers, LoadedSigner, SignerRequestView,
};
use crate::text::decimal;
use crate::urls::{has_websocket_url, normalized_url, websocket_url_of};
use vstd::prelude::*;

verus! {

proof fn members_that_load<S: ?Sized>(
    name: Seq<char>,
    values: Seq<Seq<char>>,
    k: nat,
    members: Seq<LoadedSigner<S>>,
    around: Surroundings<S>,
)
    requires
        members.len() == values.len(),
        k <= values.len(),
        forall|i: int|
            0 <= i < values.len() ==> (around.signer)(numbered_signer(name, values, i)) == Ok::<
                _,
                Seq<char>,
            >(#[trigger] members[i]),
    ensures
        signers_from(name, values, k, around) == Ok::<_, Seq<char>>(members.skip(k as int)),
    decreases values.len() - k,
{
    if k < values.len() {
        members_that_load(name, values, k + 1, members, around);
        assert(seq![members[k as int]] + members.skip((k + 1) as int) == members.skip(k as int));
    } else {
        assert(members.skip(k as int) == Seq::<LoadedSigner<S>>::empty());
    }
}

proof fn member_that_does_not_load<S: ?Sized>(
    name: Seq<char>,
    values: Seq<Seq<char>>,
    k: nat,
    first: int,
    reason: Seq<char>,
    around: Surroundings<S>,
)
    requires
        k <= first < values.len(),
        forall|i: int|
            k <= i < first ==> (around.signer)(
                #[trigger] numbered_signer(name, values, i),
            ) is Ok,
        (around.signer)(numbered_signer(name, values, first)) == Err::<LoadedSigner<S>, _>(reason),
    ensures
        signers_from(name, values, k, around) == Err::<Seq<LoadedSigner<S>>, _>(reason),
    decreases first - k,
{
    if k < first {
        assert((around.signer)(numbered_signer(name, values, k as int)) is Ok);
        member_that_does_not_load(name, values, k + 1, first, reason, around);
    }
}

proof fn members_have_loaded<S: ?Sized>(
    name: Seq<char>,
    values: Seq<Seq<char>>,
    k: nat,
    i: int,
    around: Surroundings<S>,
)
    requires
        signers_from(name, values, k, around) is Ok,
        k <= i < values.len(),
    ensures
        signers_from(name, values, k, around)->Ok_0.len() == values.len() - k,
        (around.signer)(numbered_signer(name, values, i)) == Ok::<_, Seq<char>>(
            signers_from(name, values, k, around)->Ok_0[i - k],
        ),
    decreases values.len() - k,
{
    if k < i {
        members_have_loaded(name, values, k + 1, i, around);
    } else if k + 1 < values.len() {
        members_have_loaded(name, values, k + 1, (k + 1) as int, around);
    }
}

/// The members of a session are those that there were and, behind them, those that were given, in
/// the order of their addresses. Each was loaded by its own value and under its own number, and never
/// as an address without a key. Where the argument was not given, there are no others.
pub proof fn members_are_those_that_were_given<S: ?Sized>(
    basis: BasisView<S>,
    websocket_url: Seq<char>,
    around: Surroundings<S>,
    session: SessionView<S>,
    members: Seq<LoadedSigner<S>>,
)
    requires
        basis.begin(Some(websocket_url)).answered(around).conclusion() == Some(
            Ok::<_, FailureView>(session),
        ),
    ensures
        session.config.multisigner_pubkeys == session.multisigner_ids,
        basis.args.values_of("multisig_signer"@) is None ==> session.multisigner_ids
            == basis.multisigner_ids && session.bulk_signers == basis.bulk_signers,
        basis.args.values_of("multisig_signer"@) matches Some(values) ==> {
            &&& session.multisigner_ids.len() == basis.multisigner_ids.len() + values.len()
            &&& session.bulk_signers.len() == basis.bulk_signers.len() + values.len()
            &&& forall|i: int|
                0 <= i < values.len() ==> (around.signer)(
                    SignerRequestView {
                        path: #[trigger] values[i],
                        keypair_name: "multisig_signer"@ + "-"@ + decimal((i + 1) as nat),
                        allow_null_signer: false,
                    },
                ) is Ok
            &&& members.len() == values.len() && (forall|i: int|
                0 <= i < values.len() ==> (around.signer)(
                    SignerRequestView {
                        path: values[i],
                        keypair_name: "multisig_signer"@ + "-"@ + decimal((i + 1) as nat),
                        allow_null_signer: false,
                    },
                ) == Ok::<_, Seq<char>>(#[trigger] members[i])) ==> {
                &&& session.multisigner_ids == basis.multisigner_ids + addresses(
                    by_address(members),
                )
                &&& session.bulk_signers == basis.bulk_signers + signers(by_address(members))
            }
        },
{
    session_is_set_up(basis, websocket_url, around);
    if let Some(values) = basis.args.values_of("multisig_signer"@) {
        let name = "multisig_signer"@;
        let all = signers_from(name, values, 0, around)->Ok_0;
        if values.len() > 0 {
            members_have_loaded(name, values, 0, 0, around);
        }
        assert(all.len() == values.len());
        sorting_keeps_the_signers(all);
        assert forall|i: int| 0 <= i < values.len() implies (around.signer)(
            SignerRequestView {
                path: #[trigger] values[i],
                keypair_name: "multisig_signer"@ + "-"@ + decimal((i + 1) as nat),
                allow_null_signer: false,
            },
        ) is Ok by {
            members_have_loaded(name, values, 0, i, around);
        }
        if members.len() == values.len() && (forall|i: int|
            0 <= i < values.len() ==> (around.signer)(
                SignerRequestView {
                    path: values[i],
                    keypair_name: "multisig_signer"@ + "-"@ + decimal((i + 1) as nat),
                    allow_null_signer: false,
                },
            ) == Ok::<_, Seq<char>>(#[trigger] members[i])) {
            members_that_load(name, values, 0, members, around);
            assert(members.skip(0) == members);
        }
    }
}

/// The default signer of a session is that of the owner, if one was given, and else that of the
/// keypair of the settings: those in the file that was given, else those that are kept, else the
/// default ones. An address without a key will do for either exactly where there are multisig members.
/// There is no default signer exactly where it cannot be loaded, and then an owner was given or there
/// is no keypair file.
pub proof fn default_signer_is_that_of_the_owner_or_the_settings<S: ?Sized>(
    basis: BasisView<S>,
    websocket_url: Seq<char>,
    around: Surroundings<S>,
    session: SessionView<S>,
    settings: CliConfigView,
)
    requires
        basis.begin(Some(websocket_url)).answered(around).conclusion() == Some(
            Ok::<_, FailureView>(session),
        ),
        match basis.args.value_of("config_file"@) {
            Some(path) => (around.settings)(path) == Some(settings),
            None => match around.settings_file {
                Some(path) => match (around.settings)(path) {
                    Some(kept) => settings == kept,
                    None => settings == around.default_settings,
                },
                None => settings == around.default_settings,
            },
        },
    ensures
        basis.args.value_of("owner"@) matches Some(path) ==> match (around.signer)(
            SignerRequestView {
                path,
                keypair_name: "owner"@,
                allow_null_signer: session.multisigner_ids.len() != 0,
            },
        ) {
            Ok(signer) => session.config.default_signer == Some(signer),
            Err(_) => session.config.default_signer is None,
        },
        basis.args.value_of("owner"@) is None ==> match (around.signer)(
            SignerRequestView {
                path: settings.keypair_path,
                keypair_name: "default"@,
                allow_null_signer: session.multisigner_ids.len() != 0,
            },
        ) {
            Ok(signer) => session.config.default_signer == Some(signer),
            Err(_) => session.config.default_signer is None && !(around.file_exists)(
                settings.keypair_path,
            ),
        },
{
    session_is_set_up(basis, websocket_url, around);
}

/// Without a file of settings that was given, no file of settings stands in the way; with one, it has
/// to be there.
pub proof fn given_settings_have_to_be_there<S: ?Sized>(
    basis: BasisView<S>,
    websocket_url: Seq<char>,
    around: Surroundings<S>,
    path: Seq<char>,
)
    requires
        basis.args.value_of("config_file"@) == Some(path),
        (around.settings)(path) is None,
    ensures
        basis.begin(Some(websocket_url)).answered(around).conclusion() == Some(
            Err::<SessionView<S>, _>(FailureView::ConfigFileNotFound(path)),
        ),
        basis.begin(None).answered(around).conclusion() == Some(
            Err::<SessionView<S>, _>(FailureView::ConfigFileNotFound(path)),
        ),
{
    session_is_set_up(basis, websocket_url, around);
    all_is_set_up(basis, around);
}

/// The fee payer of a session is the given one, which was loaded under its own name and not as an
/// address without a key; without one it is the default signer.
pub proof fn fee_payer_is_given_or_the_default_signer<S: ?Sized>(
    basis: BasisView<S>,
    websocket_url: Seq<char>,
    around: Surroundings<S>,
    session: SessionView<S>,
)
    requires
        basis.begin(Some(websocket_url)).answered(around).conclusion() == Some(
            Ok::<_, FailureView>(session),
        ),
    ensures
        basis.args.value_of("fee_payer"@) matches Some(path) ==> session.config.fee_payer is Some
            && (around.signer)(
            SignerRequestView { path, keypair_name: "fee_payer"@, allow_null_signer: false },
        ) == Ok::<_, Seq<char>>(session.config.fee_payer->Some_0),
        basis.args.value_of("fee_payer"@) is None ==> session.config.fee_payer
            == session.config.default_signer,
{
    session_is_set_up(basis, websocket_url, around);
}

/// The nonce account of a session is the given one. With one there is an authority: the given one,
/// and else that of the keypair of the settings. Without one there is none.
pub proof fn nonce_is_given_with_its_authority<S: ?Sized>(
    basis: BasisView<S>,
    websocket_url: Seq<char>,
    around: Surroundings<S>,
    session: SessionView<S>,
    settings: CliConfigView,
)
    requires
        basis.begin(Some(websocket_url)).answered(around).conclusion() == Some(
            Ok::<_, FailureView>(session),
        ),
        match basis.args.value_of("config_file"@) {
            Some(path) => (around.settings)(path) == Some(settings),
            None => match around.settings_file {
                Some(path) => match (around.settings)(path) {
                    Some(kept) => settings == kept,
                    None => settings == around.default_settings,
                },
                None => settings == around.default_settings,
            },
        },
    ensures
        (around.pubkey_of)("nonce"@) == Ok::<_, Seq<char>>(session.config.nonce_account),
        session.config.nonce_account is None ==> session.config.nonce_authority is None,
        session.config.nonce_account is Some ==> session.config.nonce_authority is Some,
        session.config.nonce_account is Some ==> (basis.args.value_of("nonce_authority"@) matches Some(
            path,
        ) ==> (around.signer)(
            SignerRequestView { path, keypair_name: "nonce_authority"@, allow_null_signer: false },
        ) == Ok::<_, Seq<char>>(session.config.nonce_authority->Some_0)),
        session.config.nonce_account is Some && basis.args.value_of("nonce_authority"@) is None
            ==> (around.signer)(
            SignerRequestView {
                path: settings.keypair_path,
                keypair_name: "nonce_authority"@,
                allow_null_signer: false,
            },
        ) == Ok::<_, Seq<char>>(session.config.nonce_authority->Some_0),
{
    session_is_set_up(basis, websocket_url, around);
}

/// The program of a session is the given one, and the session is restricted exactly where one was
/// given. Else, where transactions are not only signed, it is the one to which the account belongs
/// that the first of the token, the account and the address names, as the RPC node tells it. It is
/// the token program where the node tells none, where none of the three holds an address, and where
/// transactions are only signed.
pub proof fn program_is_given_or_that_of_the_first_account<S: ?Sized>(
    basis: BasisView<S>,
    websocket_url: Seq<char>,
    around: Surroundings<S>,
    session: SessionView<S>,
    address: Pubkey,
)
    requires
        basis.begin(Some(websocket_url)).answered(around).conclusion() == Some(
            Ok::<_, FailureView>(session),
        ),
    ensures
        ({
            let given = basis.args.pubkey_of("program_id"@);
            let only_signed = basis.args.is_present("sign_only"@);
            let token = basis.args.pubkey_of("token"@);
            let account = basis.args.pubkey_of("account"@);
            let other = basis.args.pubkey_of("address"@);
            let first = token == Some(address) || (token is None && account == Some(address)) || (
            token is None && account is None && other == Some(address));
            &&& session.config.restrict_to_program_id <==> given is Some
            &&& given is Some ==> given == Some(session.config.program_id)
            &&& given is None && only_signed ==> session.config.program_id == default_program()
            &&& given is None && !only_signed && first ==> match (around.account_owner)(address) {
                Ok(owner) => session.config.program_id == owner,
                Err(_) => session.config.program_id == default_program(),
            }
            &&& given is None && token is None && account is None && other is None
                ==> session.config.program_id == default_program()
        }),
{
    session_is_set_up(basis, websocket_url, around);
}

/// The rest of a session is what was given: the address of the websocket, the format of the output,
/// the block hash, and whether transactions are only signed and their messages shown.
pub proof fn session_has_what_was_given<S: ?Sized>(
    basis: BasisView<S>,
    websocket_url: Seq<char>,
    around: Surroundings<S>,
    session: SessionView<S>,
)
    requires
        basis.begin(Some(websocket_url)).answered(around).conclusion() == Some(
            Ok::<_, FailureView>(session),
        ),
    ensures
        session.config.websocket_url == websocket_url,
        session.config.output_format == basis.output_format,
        session.config.nonce_blockhash == basis.args.blockhash_of("blockhash"@),
        session.config.sign_only == basis.args.is_present("sign_only"@),
        session.config.dump_transaction_message == basis.args.is_present(
            "dump_transaction_message"@,
        ),
{
    session_is_set_up(basis, websocket_url, around);
}

/// A session is owed where nothing stands in its way: the settings are there, every member can be
/// loaded, a default signer that cannot be loaded is that of an owner or of a keypair file that is
/// not there, the fee payer that was given can be loaded, the nonce account can be read, and its
/// authority, where there is one, can be loaded.
pub proof fn session_is_owed<S: ?Sized>(
    basis: BasisView<S>,
    websocket_url: Seq<char>,
    around: Surroundings<S>,
    settings: CliConfigView,
    values: Seq<Seq<char>>,
    members: Seq<LoadedSigner<S>>,
)
    requires
        match basis.args.value_of("config_file"@) {
            Some(path) => (around.settings)(path) == Some(settings),
            None => match around.settings_file {
                Some(path) => match (around.settings)(path) {
                    Some(kept) => settings == kept,
                    None => settings == around.default_settings,
                },
                None => settings == around.default_settings,
            },
        },
        match basis.args.values_of("multisig_signer"@) {
            Some(given) => values == given,
            None => values.len() == 0,
        },
        members.len() == values.len(),
        forall|i: int|
            0 <= i < values.len() ==> (around.signer)(
                SignerRequestView {
                    path: values[i],
                    keypair_name: "multisig_signer"@ + "-"@ + decimal((i + 1) as nat),
                    allow_null_signer: false,
                },
            ) == Ok::<_, Seq<char>>(#[trigger] members[i]),
        basis.args.value_of("owner"@) is Some || !(around.file_exists)(settings.keypair_path)
            || (around.signer)(
            SignerRequestView {
                path: settings.keypair_path,
                keypair_name: "default"@,
                allow_null_signer: basis.multisigner_ids.len() + values.len() != 0,
            },
        ) is Ok,
        basis.args.value_of("fee_payer"@) matches Some(path) ==> (around.signer)(
            SignerRequestView { path, keypair_name: "fee_payer"@, allow_null_signer: false },
        ) is Ok,
        (around.pubkey_of)("nonce"@) is Ok,
        (around.pubkey_of)("nonce"@)->Ok_0 is Some ==> (around.signer)(
            SignerRequestView {
                path: match basis.args.value_of("nonce_authority"@) {
                    Some(path) => path,
                    None => settings.keypair_path,
                },
                keypair_name: "nonce_authority"@,
                allow_null_signer: false,
            },
        ) is Ok,
    ensures
        basis.begin(Some(websocket_url)).answered(around).conclusion() is Some,
        basis.begin(Some(websocket_url)).answered(around).conclusion()->Some_0 is Ok,
{
    session_is_set_up(basis, websocket_url, around);
    if basis.args.values_of("multisig_signer"@) is Some {
        members_that_load("multisig_signer"@, values, 0, members, around);
        assert(members.skip(0) == members);
        sorting_keeps_the_signers(members);
    }
}

/// The first member of a multisig account that cannot be loaded stands in the way, whatever else can
/// be, if the settings are there.
pub proof fn members_have_to_be_loaded<S: ?Sized>(
    basis: BasisView<S>,
    websocket_url: Seq<char>,
    around: Surroundings<S>,
    values: Seq<Seq<char>>,
    first: int,
    reason: Seq<char>,
)
    requires
        basis.args.value_of("config_file"@) matches Some(path) ==> (around.settings)(path) is Some,
        basis.args.values_of("multisig_signer"@) == Some(values),
        0 <= first < values.len(),
        forall|i: int|
            0 <= i < first ==> (around.signer)(
                SignerRequestView {
                    path: #[trigger] values[i],
                    keypair_name: "multisig_signer"@ + "-"@ + decimal((i + 1) as nat),
                    allow_null_signer: false,
                },
            ) is Ok,
        (around.signer)(
            SignerRequestView {
                path: values[first],
                keypair_name: "multisig_signer"@ + "-"@ + decimal((first + 1) as nat),
                allow_null_signer: false,
            },
        ) == Err::<LoadedSigner<S>, _>(reason),
    ensures
        basis.begin(Some(websocket_url)).answered(around).conclusion() == Some(
            Err::<SessionView<S>, _>(FailureView::NotLoaded(reason)),
        ),
{
    session_is_set_up(basis, websocket_url, around);
    let name = "multisig_signer"@;
    assert forall|i: int| 0 <= i < first implies (around.signer)(
        #[trigger] numbered_signer(name, values, i),
    ) is Ok by {
        assert(numbered_signer(name, values, i).path == values[i]);
    }
    member_that_does_not_load(name, values, 0, first, reason, around);
}

/// Behind the members, what stands in the way is in this order: a default signer that cannot be
/// loaded, where no owner was given and the keypair file is there; a given fee payer that cannot be
/// loaded; a nonce account that cannot be read; its authority that cannot be loaded. The reason is
/// told.
pub proof fn first_that_cannot_be_loaded_is_told<S: ?Sized>(
    basis: BasisView<S>,
    websocket_url: Seq<char>,
    around: Surroundings<S>,
    settings: CliConfigView,
    values: Seq<Seq<char>>,
    members: Seq<LoadedSigner<S>>,
    reason: Seq<char>,
)
    requires
        match basis.args.value_of("config_file"@) {
            Some(path) => (around.settings)(path) == Some(settings),
            None => match around.settings_file {
                Some(path) => match (around.settings)(path) {
                    Some(kept) => settings == kept,
                    None => settings == around.default_settings,
                },
                None => settings == around.default_settings,
            },
        },
        match basis.args.values_of("multisig_signer"@) {
            Some(given) => values == given,
            None => values.len() == 0,
        },
        members.len() == values.len(),
        forall|i: int|
            0 <= i < values.len() ==> (around.signer)(
                SignerRequestView {
                    path: values[i],
                    keypair_name: "multisig_signer"@ + "-"@ + decimal((i + 1) as nat),
                    allow_null_signer: false,
                },
            ) == Ok::<_, Seq<char>>(#[trigger] members[i]),
    ensures
        ({
            let end = basis.begin(Some(websocket_url)).answered(around).conclusion();
            let told = Some(Err::<SessionView<S>, _>(FailureView::NotLoaded(reason)));
            let failed = Err::<LoadedSigner<S>, _>(reason);
            let default = (around.signer)(
                SignerRequestView {
                    path: settings.keypair_path,
                    keypair_name: "default"@,
                    allow_null_signer: basis.multisigner_ids.len() + values.len() != 0,
                },
            );
            let in_the_way = basis.args.value_of("owner"@) is None && default is Err && (
            around.file_exists)(settings.keypair_path);
            let payer = (around.signer)(
                SignerRequestView {
                    path: basis.args.value_of("fee_payer"@)->Some_0,
                    keypair_name: "fee_payer"@,
                    allow_null_signer: false,
                },
            );
            let pays = basis.args.value_of("fee_payer"@) is None || payer is Ok;
            let nonce = (around.pubkey_of)("nonce"@);
            let authority = (around.signer)(
                SignerRequestView {
                    path: match basis.args.value_of("nonce_authority"@) {
                        Some(path) => path,
                        None => settings.keypair_path,
                    },
                    keypair_name: "nonce_authority"@,
                    allow_null_signer: false,
                },
            );
            &&& in_the_way && default == failed ==> end == told
            &&& !in_the_way && basis.args.value_of("fee_payer"@) is Some && payer == failed ==> end
                == told
            &&& !in_the_way && pays && nonce == Err::<Option<Pubkey>, _>(reason) ==> end == told
            &&& !in_the_way && pays && nonce is Ok && nonce->Ok_0 is Some && authority == failed
                ==> end == told
        }),
{
    session_is_set_up(basis, websocket_url, around);
    if basis.args.values_of("multisig_signer"@) is Some {
        members_that_load("multisig_signer"@, values, 0, members, around);
        assert(members.skip(0) == members);
        sorting_keeps_the_signers(members);
    }
}

/// Setting up all of it comes to the same as setting up a session with open clients, at the websocket
/// that belongs to the address of the RPC node: the given one, and else that of the settings, which
/// are those in the file that was given, else those that are kept below the home directory, else the
/// default ones of the command line tools; where there is no place to keep them, those of the
/// network. Without a websocket for that address there is none.
pub proof fn all_comes_to_the_session_at_its_websocket<S: ?Sized>(
    basis: BasisView<S>,
    around: Surroundings<S>,
    kept: Seq<char>,
)
    requires
        match basis.args.value_of("config_file"@) {
            Some(path) => (around.settings)(path) is Some && kept == (around.settings)(
                path,
            )->Some_0.json_rpc_url,
            None => match (around.home_file)(seq![".config"@, "openos"@, "cli"@, "config.yml"@]) {
                Some(path) => match (around.settings)(path) {
                    Some(settings) => kept == settings.json_rpc_url,
                    None => kept == around.default_settings.json_rpc_url,
                },
                None => (around.home_file)(seq![".config"@, "openos"@, "id.json"@]) is Some && kept
                    == "https://api.mainnet.openverse.network"@,
            },
        },
    ensures
        ({
            let end = basis.begin(None).answered(around).conclusion();
            let url = normalized_url(
                match basis.args.value_of("json_rpc_url"@) {
                    Some(given) => given,
                    None => kept,
                },
            );
            &&& has_websocket_url(url) ==> end == basis.begin(
                Some(websocket_url_of(url)),
            ).answered(around).conclusion()
            &&& !has_websocket_url(url) ==> end == Some(
                Err::<SessionView<S>, _>(FailureView::NoWebsocketUrl(url)),
            )
        }),
{
    all_is_set_up(basis, around);
    let url = normalized_url(
        match basis.args.value_of("json_rpc_url"@) {
            Some(given) => given,
            None => kept,
        },
    );
    session_is_set_up(basis, websocket_url_of(url), around);
}

/// The clients are opened for the address that was given, and else for that of the settings that came
/// last, monikers resolved; offline exactly where transactions are only signed, and then for the
/// block hash that was given, and for that of all zeros where none was.
pub proof fn clients_are_opened_for_the_given_address<S: ?Sized>(
    setup: SetupView<S>,
    reply: ReplyView<S>,
    json_rpc_url: Seq<char>,
    client: ClientKind,
    zero: Blockhash,
)
    requires
        setup.takes(reply),
        setup.next(reply).request() == Some(RequestView::OpenClients { json_rpc_url, client }),
        forall|i: int| 0 <= i < 32 ==> zero.bytes[i] == 0,
    ensures
        setup.basis.args.value_of("json_rpc_url"@) matches Some(given) ==> json_rpc_url
            == normalized_url(given),
        setup.basis.args.value_of("json_rpc_url"@) is None ==> {
            &&& reply matches ReplyView::Settings(Some(settings)) ==> json_rpc_url
                == normalized_url(settings.json_rpc_url)
            &&& reply matches ReplyView::DefaultSettings(settings) ==> json_rpc_url
                == normalized_url(settings.json_rpc_url)
            &&& reply is HomeFile ==> json_rpc_url == normalized_url(
                "https://api.mainnet.openverse.network"@,
            )
            &&& reply is Settings || reply is DefaultSettings || reply is HomeFile
        },
        client is Offline <==> setup.basis.args.is_present("sign_only"@),
        client matches ClientKind::Offline(hash) ==> hash == match setup.basis.args.blockhash_of(
            "blockhash"@,
        ) {
            Some(given) => given,
            None => zero,
        },
{
    zeros_are_zero(Pubkey { bytes: zero.bytes }, zero);
}

/// The default signer is asked for by the owner that was given, and else by the keypair of the
/// settings, and an address without a key will do for either exactly where there are multisig
/// members. For the fee payer, the nonce authority and the members it never does.
pub proof fn signers_are_asked_for_as_they_were_given<S: ?Sized>(
    setup: SetupView<S>,
    draft: DraftView<S>,
    path: Seq<char>,
)
    ensures
        setup.stage == (StageView::LoadDefault { draft }) ==> setup.request() == Some(
            RequestView::LoadSigner(
                match setup.basis.args.value_of("owner"@) {
                    Some(owner) => SignerRequestView {
                        path: owner,
                        keypair_name: "owner"@,
                        allow_null_signer: draft.multisigner_pubkeys.len() != 0,
                    },
                    None => SignerRequestView {
                        path: draft.keypair_path,
                        keypair_name: "default"@,
                        allow_null_signer: draft.multisigner_pubkeys.len() != 0,
                    },
                },
            ),
        ),
        setup.stage == (StageView::LoadFeePayer { draft, path }) ==> setup.request() == Some(
            RequestView::LoadSigner(
                SignerRequestView { path, keypair_name: "fee_payer"@, allow_null_signer: false },
            ),
        ),
        setup.stage == (StageView::LoadNonceAuthority { draft }) ==> setup.request() == Some(
            RequestView::LoadSigner(
                SignerRequestView {
                    path: match setup.basis.args.value_of("nonce_authority"@) {
                        Some(authority) => authority,
                        None => draft.keypair_path,
                    },
                    keypair_name: "nonce_authority"@,
                    allow_null_signer: false,
                },
            ),
        ),
{
}

/// When the default signer comes to be asked for, the members that are to be had are all of them,
/// those that there were included.
pub proof fn members_are_complete_before_the_default_signer<S: ?Sized>(
    setup: SetupView<S>,
    reply: ReplyView<S>,
    draft: DraftView<S>,
)
    requires
        setup.takes(reply),
        setup.next(reply).stage == (StageView::LoadDefault { draft }),
    ensures
        draft.multisigner_pubkeys == setup.next(reply).basis.multisigner_ids,
        setup.basis.multisigner_ids.len() <= draft.multisigner_pubkeys.len(),
{
}

impl<S: ?Sized> SetupView<S> {
    /// The questions that are asked from here on, one after the other.
    pub open spec fn asked(self, around: Surroundings<S>) -> Seq<RequestView>
        decreases self.questions_left(),
    {
        match self.request() {
            Some(request) => if self.takes(around.reply(request)) {
                proof {
                    every_reply_leaves_fewer_questions(self, around.reply(request));
                }
                seq![request] + self.next(around.reply(request)).asked(around)
            } else {
                seq![request]
            },
            None => Seq::empty(),
        }
    }
}

/// The question for the program of a session: for the account that is followed, if there is one.
spec fn program_questions(args: ArgMatchesView) -> Seq<RequestView> {
    if args.pubkey_of("program_id"@) is Some || args.is_present("sign_only"@) {
        Seq::empty()
    } else {
        match (args.pubkey_of("token"@), args.pubkey_of("account"@), args.pubkey_of("address"@)) {
            (Some(address), _, _) => seq![RequestView::AccountOwner { address }],
            (None, Some(address), _) => seq![RequestView::AccountOwner { address }],
            (None, None, Some(address)) => seq![RequestView::AccountOwner { address }],
            (None, None, None) => Seq::empty(),
        }
    }
}

/// The questions for the nonce account and, with one, for its authority.
spec fn nonce_questions<S: ?Sized>(
    args: ArgMatchesView,
    keypair_path: Seq<char>,
    around: Surroundings<S>,
) -> Seq<RequestView> {
    seq![RequestView::PubkeyOf { name: "nonce"@ }] + if (around.pubkey_of)(
        "nonce"@,
    )->Ok_0 is Some {
        seq![
            RequestView::LoadSigner(
                SignerRequestView {
                    path: match args.value_of("nonce_authority"@) {
                        Some(path) => path,
                        None => keypair_path,
                    },
                    keypair_name: "nonce_authority"@,
                    allow_null_signer: false,
                },
            ),
        ]
    } else {
        Seq::empty()
    }
}

/// The question for a fee payer that was given.
spec fn payer_questions(args: ArgMatchesView) -> Seq<RequestView> {
    match args.value_of("fee_payer"@) {
        Some(path) => seq![
            RequestView::LoadSigner(
                SignerRequestView { path, keypair_name: "fee_payer"@, allow_null_signer: false },
            ),
        ],
        None => Seq::empty(),
    }
}

/// The question for member `i` of those that were given.
spec fn member_question(values: Seq<Seq<char>>, i: int) -> RequestView {
    RequestView::LoadSigner(numbered_signer("multisig_signer"@, values, i))
}

proof fn from_nonce_is_asked<S: ?Sized>(
    basis: BasisView<S>,
    draft: DraftView<S>,
    around: Surroundings<S>,
)
    requires
        (around.pubkey_of)("nonce"@) is Ok,
        nonce_authority_of(
            basis.args,
            draft.keypair_path,
            (around.pubkey_of)("nonce"@)->Ok_0,
            around,
        ) is Ok,
    ensures
        basis.at(StageView::FindNonce { draft }).asked(around) == nonce_questions(
            basis.args,
            draft.keypair_path,
            around,
        ) + program_questions(basis.args),
{
    reveal_with_fuel(SetupView::asked, 4);
}

proof fn from_default_signer_is_asked<S: ?Sized>(
    basis: BasisView<S>,
    draft: DraftView<S>,
    default_signer: Option<LoadedSigner<S>>,
    around: Surroundings<S>,
)
    requires
        fee_payer_of(basis.args, default_signer, around) is Ok,
        (around.pubkey_of)("nonce"@) is Ok,
        nonce_authority_of(
            basis.args,
            draft.keypair_path,
            (around.pubkey_of)("nonce"@)->Ok_0,
            around,
        ) is Ok,
    ensures
        basis.with_default_signer(draft, default_signer).asked(around) == payer_questions(
            basis.args,
        ) + nonce_questions(basis.args, draft.keypair_path, around) + program_questions(basis.args),
{
    reveal_with_fuel(SetupView::asked, 2);
    let fee_payer = fee_payer_of(basis.args, default_signer, around)->Ok_0;
    from_nonce_is_asked(basis, DraftView { default_signer, fee_payer, ..draft }, around);
}

/// The questions behind those for the members.
spec fn questions_behind_members<S: ?Sized>(
    args: ArgMatchesView,
    keypair_path: Seq<char>,
    has_members: bool,
    around: Surroundings<S>,
) -> Seq<RequestView> {
    let request = match args.value_of("owner"@) {
        Some(path) => SignerRequestView {
            path,
            keypair_name: "owner"@,
            allow_null_signer: has_members,
        },
        None => SignerRequestView {
            path: keypair_path,
            keypair_name: "default"@,
            allow_null_signer: has_members,
        },
    };
    seq![RequestView::LoadSigner(request)] + (if args.value_of("owner"@) is None && (around.signer)(
        request,
    ) is Err {
        seq![RequestView::FileExists { path: keypair_path }]
    } else {
        Seq::empty()
    }) + payer_questions(args) + nonce_questions(args, keypair_path, around) + program_questions(
        args,
    )
}

proof fn from_multisig_is_asked<S: ?Sized>(
    basis: BasisView<S>,
    websocket_url: Seq<char>,
    keypair_path: Seq<char>,
    loaded: Seq<LoadedSigner<S>>,
    around: Surroundings<S>,
)
    requires
        next_signer(basis.args, "multisig_signer"@, loaded.len()) is None,
        multisig_outcome(
            basis,
            websocket_url,
            keypair_path,
            all_signers(basis.args, "multisig_signer"@, loaded),
            around,
        ) is Ok,
    ensures
        ({
            let setup = basis.with_multisig(websocket_url, keypair_path, loaded);
            setup.asked(around) == questions_behind_members(
                basis.args,
                keypair_path,
                setup.basis.multisigner_ids.len() != 0,
                around,
            )
        }),
{
    let setup = basis.with_multisig(websocket_url, keypair_path, loaded);
    let args = basis.args;
    let draft = setup.stage->LoadDefault_draft;
    let request = default_signer_request(args, keypair_path, draft.multisigner_pubkeys.len() > 0);
    let default_signer = default_signer_of(
        args,
        keypair_path,
        draft.multisigner_pubkeys.len() > 0,
        around,
    )->Ok_0;
    from_default_signer_is_asked(setup.basis, draft, default_signer, around);
    one_is_asked(setup, around);
    let checked = if args.value_of("owner"@) is None && (around.signer)(request) is Err {
        let reason = (around.signer)(request)->Err_0;
        one_is_asked(setup.basis.at(StageView::CheckKeypair { draft, reason }), around);
        seq![RequestView::FileExists { path: keypair_path }]
    } else {
        Seq::empty()
    };
    joined(
        seq![RequestView::LoadSigner(request)],
        checked,
        payer_questions(args),
        nonce_questions(args, keypair_path, around),
        program_questions(args),
    );
}

proof fn joined(
    a: Seq<RequestView>,
    b: Seq<RequestView>,
    c: Seq<RequestView>,
    d: Seq<RequestView>,
    e: Seq<RequestView>,
)
    ensures
        a + b + c + d + e == a + (b + (c + d + e)),
        b.len() == 0 ==> a + b + c + d + e == a + (c + d + e),
{
    assert(a + b + c + d + e =~= a + (b + (c + d + e)));
    if b.len() == 0 {
        assert(a + b + c + d + e =~= a + (c + d + e));
    }
}

proof fn from_members_is_asked<S: ?Sized>(
    basis: BasisView<S>,
    websocket_url: Seq<char>,
    keypair_path: Seq<char>,
    values: Seq<Seq<char>>,
    members: Seq<LoadedSigner<S>>,
    k: nat,
    around: Surroundings<S>,
)
    requires
        basis.args.values_of("multisig_signer"@) == Some(values),
        members.len() == values.len(),
        k <= values.len(),
        forall|i: int|
            0 <= i < values.len() ==> (around.signer)(
                numbered_signer("multisig_signer"@, values, i),
            ) == Ok::<_, Seq<char>>(#[trigger] members[i]),
        multisig_outcome(basis, websocket_url, keypair_path, Some(members), around) is Ok,
    ensures
        basis.with_multisig(websocket_url, keypair_path, members.take(k as int)).asked(around)
            == Seq::new((values.len() - k) as nat, |i: int| member_question(values, k + i))
            + questions_behind_members(
            basis.args,
            keypair_path,
            basis.multisigner_ids.len() + values.len() != 0,
            around,
        ),
    decreases values.len() - k,
{
    let setup = basis.with_multisig(websocket_url, keypair_path, members.take(k as int));
    let behind = questions_behind_members(
        basis.args,
        keypair_path,
        basis.multisigner_ids.len() + values.len() != 0,
        around,
    );
    let here = Seq::new((values.len() - k) as nat, |i: int| member_question(values, k + i));
    if k == values.len() {
        assert(members.take(k as int) == members);
        sorting_keeps_the_signers(members);
        from_multisig_is_asked(basis, websocket_url, keypair_path, members, around);
        assert(here + behind == behind);
    } else {
        let signer = members[k as int];
        assert(members.take(k as int).push(signer) == members.take((k + 1) as int));
        from_members_is_asked(
            basis,
            websocket_url,
            keypair_path,
            values,
            members,
            k + 1,
            around,
        );
        let rest = Seq::new(
            (values.len() - (k + 1)) as nat,
            |i: int| member_question(values, k + 1 + i),
        );
        assert(here == seq![member_question(values, k as int)] + rest);
        assert(setup.request() == Some(member_question(values, k as int)));
        assert(setup.next(ReplyView::Signer(Ok(signer))) == basis.with_multisig(
            websocket_url,
            keypair_path,
            members.take((k + 1) as int),
        ));
        assert(setup.asked(around) == seq![member_question(values, k as int)] + (rest + behind));
        assert(seq![member_question(values, k as int)] + (rest + behind) == here + behind);
    }
}

/// A session that is set up has asked exactly these questions, in this order: for the settings; for
/// each member by its value, under its number; for the default signer, and where that of the settings
/// cannot be loaded, whether its file is there; for the fee payer that was given; for the nonce
/// account, and with one for its authority; and for the program of the account that is followed, if
/// there is one.
#[verifier::rlimit(40)]
pub proof fn session_asks_what_it_needs<S: ?Sized>(
    basis: BasisView<S>,
    websocket_url: Seq<char>,
    around: Surroundings<S>,
    settings: CliConfigView,
    values: Seq<Seq<char>>,
)
    requires
        basis.begin(Some(websocket_url)).answered(around).conclusion() is Some,
        basis.begin(Some(websocket_url)).answered(around).conclusion()->Some_0 is Ok,
        match basis.args.value_of("config_file"@) {
            Some(path) => (around.settings)(path) == Some(settings),
            None => match around.settings_file {
                Some(path) => match (around.settings)(path) {
                    Some(kept) => settings == kept,
                    None => settings == around.default_settings,
                },
                None => settings == around.default_settings,
            },
        },
        match basis.args.values_of("multisig_signer"@) {
            Some(given) => values == given,
            None => values.len() == 0,
        },
    ensures
        ({
            let args = basis.args;
            let default = match args.value_of("owner"@) {
                Some(path) => SignerRequestView {
                    path,
                    keypair_name: "owner"@,
                    allow_null_signer: basis.multisigner_ids.len() + values.len() != 0,
                },
                None => SignerRequestView {
                    path: settings.keypair_path,
                    keypair_name: "default"@,
                    allow_null_signer: basis.multisigner_ids.len() + values.len() != 0,
                },
            };
            let followed = match (
                args.pubkey_of("token"@),
                args.pubkey_of("account"@),
                args.pubkey_of("address"@),
            ) {
                (Some(address), _, _) => Some(address),
                (None, Some(address), _) => Some(address),
                (None, None, address) => address,
            };
            basis.begin(Some(websocket_url)).asked(around) == (match args.value_of(
                "config_file"@,
            ) {
                Some(path) => seq![RequestView::LoadSettings { path }],
                None => seq![RequestView::SettingsFile] + (match around.settings_file {
                    Some(path) => seq![RequestView::LoadSettings { path }] + (if (around.settings)(
                        path,
                    ) is Some {
                        Seq::empty()
                    } else {
                        seq![RequestView::DefaultSettings]
                    }),
                    None => seq![RequestView::DefaultSettings],
                }),
            }) + (Seq::new(
                values.len(),
                |i: int|
                    RequestView::LoadSigner(
                        SignerRequestView {
                            path: values[i],
                            keypair_name: "multisig_signer"@ + "-"@ + decimal((i + 1) as nat),
                            allow_null_signer: false,
                        },
                    ),
            ) + (seq![RequestView::LoadSigner(default)] + (if args.value_of("owner"@) is None && (
            around.signer)(default) is Err {
                seq![RequestView::FileExists { path: settings.keypair_path }]
            } else {
                Seq::empty()
            }) + (match args.value_of("fee_payer"@) {
                Some(path) => seq![
                    RequestView::LoadSigner(
                        SignerRequestView {
                            path,
                            keypair_name: "fee_payer"@,
                            allow_null_signer: false,
                        },
                    ),
                ],
                None => Seq::empty(),
            }) + (seq![RequestView::PubkeyOf { name: "nonce"@ }] + if (around.pubkey_of)(
                "nonce"@,
            )->Ok_0 is Some {
                seq![
                    RequestView::LoadSigner(
                        SignerRequestView {
                            path: match args.value_of("nonce_authority"@) {
                                Some(path) => path,
                                None => settings.keypair_path,
                            },
                            keypair_name: "nonce_authority"@,
                            allow_null_signer: false,
                        },
                    ),
                ]
            } else {
                Seq::empty()
            }) + (if args.pubkey_of("program_id"@) is Some || args.is_present("sign_only"@)
                || followed is None {
                Seq::empty()
            } else {
                seq![RequestView::AccountOwner { address: followed->Some_0 }]
            })))
        }),
{
    session_is_set_up(basis, websocket_url, around);
    let behind = questions_behind_members(
        basis.args,
        settings.keypair_path,
        basis.multisigner_ids.len() + values.len() != 0,
        around,
    );
    let asked_members = Seq::new(values.len(), |i: int| member_question(values, i));
    let none = Seq::<LoadedSigner<S>>::empty();
    let session = Some(websocket_url);
    let on = basis.with_settings(session, settings);
    assert(on.asked(around) == asked_members + behind) by {
        if basis.args.values_of("multisig_signer"@) is Some {
            let members = signers_from("multisig_signer"@, values, 0, around)->Ok_0;
            if values.len() > 0 {
                members_have_loaded("multisig_signer"@, values, 0, 0, around);
            }
            assert forall|i: int| 0 <= i < values.len() implies (around.signer)(
                numbered_signer("multisig_signer"@, values, i),
            ) == Ok::<_, Seq<char>>(#[trigger] members[i]) by {
                members_have_loaded("multisig_signer"@, values, 0, i, around);
            }
            from_members_is_asked(
                basis,
                websocket_url,
                settings.keypair_path,
                values,
                members,
                0,
                around,
            );
            assert(members.take(0) == none);
            assert(Seq::new((values.len() - 0) as nat, |i: int| member_question(values, 0 + i))
                == asked_members);
        } else {
            from_multisig_is_asked(
                basis,
                websocket_url,
                settings.keypair_path,
                none,
                around,
            );
            assert(asked_members + behind == behind);
        }
    }
    settings_are_asked_for(basis, websocket_url, settings, around);
    assert(asked_members =~= Seq::new(
        values.len(),
        |i: int|
            RequestView::LoadSigner(
                SignerRequestView {
                    path: values[i],
                    keypair_name: "multisig_signer"@ + "-"@ + decimal((i + 1) as nat),
                    allow_null_signer: false,
                },
            ),
    ));
}

#[verifier::rlimit(40)]
proof fn settings_are_asked_for<S: ?Sized>(
    basis: BasisView<S>,
    websocket_url: Seq<char>,
    settings: CliConfigView,
    around: Surroundings<S>,
)
    requires
        match basis.args.value_of("config_file"@) {
            Some(path) => (around.settings)(path) == Some(settings),
            None => match around.settings_file {
                Some(path) => match (around.settings)(path) {
                    Some(kept) => settings == kept,
                    None => settings == around.default_settings,
                },
                None => settings == around.default_settings,
            },
        },
    ensures
        basis.begin(Some(websocket_url)).asked(around) == (match basis.args.value_of(
            "config_file"@,
        ) {
            Some(path) => seq![RequestView::LoadSettings { path }],
            None => seq![RequestView::SettingsFile] + (match around.settings_file {
                Some(path) => seq![RequestView::LoadSettings { path }] + (if (around.settings)(
                    path,
                ) is Some {
                    Seq::empty()
                } else {
                    seq![RequestView::DefaultSettings]
                }),
                None => seq![RequestView::DefaultSettings],
            }),
        }) + basis.with_settings(Some(websocket_url), settings).asked(around),
{
    let session = Some(websocket_url);
    let on = basis.with_settings(session, settings);
    let begun = basis.begin(session);
    one_is_asked(begun, around);
    match basis.args.value_of("config_file"@) {
        Some(path) => {},
        None => match around.settings_file {
            Some(path) => {
                let load = basis.at(StageView::LoadSettings { session, path, given: false });
                one_is_asked(load, around);
                if (around.settings)(path) is None {
                    one_is_asked(basis.at(StageView::DefaultSettings { session }), around);
                }
            },
            None => {
                one_is_asked(basis.at(StageView::DefaultSettings { session }), around);
            },
        },
    }
}

proof fn one_is_asked<S: ?Sized>(setup: SetupView<S>, around: Surroundings<S>)
    requires
        setup.request() matches Some(request) && setup.takes(around.reply(request)),
    ensures
        setup.asked(around) == seq![setup.request()->Some_0] + setup.next(
            around.reply(setup.request()->Some_0),
        ).asked(around),
{
}

/// Setting up all of it first asks for the settings, then that the clients be opened, and then what
/// the session needs. The clients are those of the address that was given, and else of that in the
/// settings.
#[verifier::rlimit(40)]
pub proof fn clients_are_asked_for_before_the_session<S: ?Sized>(
    basis: BasisView<S>,
    around: Surroundings<S>,
    kept: Seq<char>,
    zero: Blockhash,
)
    requires
        match basis.args.value_of("config_file"@) {
            Some(path) => (around.settings)(path) is Some && kept == (around.settings)(
                path,
            )->Some_0.json_rpc_url,
            None => match (around.home_file)(seq![".config"@, "openos"@, "cli"@, "config.yml"@]) {
                Some(path) => match (around.settings)(path) {
                    Some(settings) => kept == settings.json_rpc_url,
                    None => kept == around.default_settings.json_rpc_url,
                },
                None => (around.home_file)(seq![".config"@, "openos"@, "id.json"@]) is Some && kept
                    == "https://api.mainnet.openverse.network"@,
            },
        },
        forall|i: int| 0 <= i < 32 ==> zero.bytes[i] == 0,
    ensures
        ({
            let args = basis.args;
            let url = normalized_url(
                match args.value_of("json_rpc_url"@) {
                    Some(given) => given,
                    None => kept,
                },
            );
            let client = if args.is_present("sign_only"@) {
                ClientKind::Offline(
                    match args.blockhash_of("blockhash"@) {
                        Some(hash) => hash,
                        None => zero,
                    },
                )
            } else {
                ClientKind::Rpc
            };
            let place = seq![".config"@, "openos"@, "cli"@, "config.yml"@];
            let settings_are_asked = match args.value_of("config_file"@) {
                Some(path) => seq![RequestView::LoadSettings { path }],
                None => seq![
                    RequestView::HomeFile { components: place, required: false },
                ] + (match (around.home_file)(place) {
                    Some(path) => seq![RequestView::LoadSettings { path }] + (if (around.settings)(
                        path,
                    ) is Some {
                        Seq::empty()
                    } else {
                        seq![RequestView::DefaultSettings]
                    }),
                    None => seq![
                        RequestView::HomeFile {
                            components: seq![".config"@, "openos"@, "id.json"@],
                            required: true,
                        },
                    ],
                }),
            };
            &&& has_websocket_url(url) ==> basis.begin(None).asked(around) == settings_are_asked + (
            seq![RequestView::OpenClients { json_rpc_url: url, client }] + basis.begin(
                Some(websocket_url_of(url)),
            ).asked(around))
            &&& !has_websocket_url(url) ==> basis.begin(None).asked(around) == settings_are_asked
        }),
{
    zeros_are_zero(Pubkey { bytes: zero.bytes }, zero);
    let settings = match basis.args.value_of("config_file"@) {
        Some(path) => (around.settings)(path)->Some_0,
        None => match (around.home_file)(seq![".config"@, "openos"@, "cli"@, "config.yml"@]) {
            Some(path) => match (around.settings)(path) {
                Some(settings) => settings,
                None => around.default_settings,
            },
            None => default_settings(
                (around.home_file)(seq![".config"@, "openos"@, "id.json"@])->Some_0,
            ),
        },
    };
    client_settings_are_asked_for(basis, settings, around);
    clients_are_asked_for(basis, settings, around);
    let asked_settings = client_settings_questions(basis.args, around);
    assert(asked_settings + Seq::<RequestView>::empty() == asked_settings);
}

/// The questions for the settings by which the clients are opened.
spec fn client_settings_questions<S: ?Sized>(
    args: ArgMatchesView,
    around: Surroundings<S>,
) -> Seq<RequestView> {
    let place = seq![".config"@, "openos"@, "cli"@, "config.yml"@];
    match args.value_of("config_file"@) {
        Some(path) => seq![RequestView::LoadSettings { path }],
        None => seq![RequestView::HomeFile { components: place, required: false }] + (match (
        around.home_file)(place) {
            Some(path) => seq![RequestView::LoadSettings { path }] + (if (around.settings)(
                path,
            ) is Some {
                Seq::empty()
            } else {
                seq![RequestView::DefaultSettings]
            }),
            None => seq![
                RequestView::HomeFile {
                    components: seq![".config"@, "openos"@, "id.json"@],
                    required: true,
                },
            ],
        }),
    }
}

#[verifier::rlimit(40)]
proof fn client_settings_are_asked_for<S: ?Sized>(
    basis: BasisView<S>,
    settings: CliConfigView,
    around: Surroundings<S>,
)
    requires
        match basis.args.value_of("config_file"@) {
            Some(path) => (around.settings)(path) == Some(settings),
            None => match (around.home_file)(seq![".config"@, "openos"@, "cli"@, "config.yml"@]) {
                Some(path) => match (around.settings)(path) {
                    Some(kept) => settings == kept,
                    None => settings == around.default_settings,
                },
                None => (around.home_file)(seq![".config"@, "openos"@, "id.json"@]) is Some
                    && settings == default_settings(
                    (around.home_file)(seq![".config"@, "openos"@, "id.json"@])->Some_0,
                ),
            },
        },
    ensures
        basis.begin(None).asked(around) == client_settings_questions(basis.args, around)
            + basis.with_settings(None, settings).asked(around),
{
    let on = basis.with_settings(None, settings).asked(around);
    let place = seq![".config"@, "openos"@, "cli"@, "config.yml"@];
    one_is_asked(basis.begin(None), around);
    match basis.args.value_of("config_file"@) {
        Some(path) => {},
        None => {
            let home = seq![RequestView::HomeFile { components: place, required: false }];
            match (around.home_file)(place) {
                Some(path) => {
                    let load = seq![RequestView::LoadSettings { path }];
                    one_is_asked(
                        basis.at(StageView::LoadSettings { session: None, path, given: false }),
                        around,
                    );
                    if (around.settings)(path) is Some {
                        assert(home + (load + on) =~= home + (load + Seq::empty()) + on);
                    } else {
                        let default = seq![RequestView::DefaultSettings];
                        one_is_asked(
                            basis.at(StageView::DefaultSettings { session: None }),
                            around,
                        );
                        assert(home + (load + (default + on)) =~= home + (load + default) + on);
                    }
                },
                None => {
                    let keypair = seq![
                        RequestView::HomeFile {
                            components: seq![".config"@, "openos"@, "id.json"@],
                            required: true,
                        },
                    ];
                    one_is_asked(basis.at(StageView::FindKeypair), around);
                    assert(home + (keypair + on) =~= home + keypair + on);
                },
            }
        },
    }
}

proof fn clients_are_asked_for<S: ?Sized>(
    basis: BasisView<S>,
    settings: CliConfigView,
    around: Surroundings<S>,
)
    ensures
        ({
            let url = rpc_url(basis.args, settings);
            basis.with_settings(None, settings).asked(around) == if has_websocket_url(url) {
                seq![
                    RequestView::OpenClients {
                        json_rpc_url: url,
                        client: client_kind(basis.args),
                    },
                ] + basis.begin(Some(websocket_url_of(url))).asked(around)
            } else {
                Seq::empty()
            }
        }),
{
    let on = basis.with_settings(None, settings);
    if has_websocket_url(rpc_url(basis.args, settings)) {
        one_is_asked(on, around);
    }
}

/// What stands in the way ends the setup at once, and nothing more is asked: a file of settings that
/// was given and cannot be loaded, a keypair file that is there and cannot be loaded, and a member, a
/// fee payer or a nonce authority that cannot be loaded or a nonce account that cannot be read. An
/// owner that cannot be loaded does not stand in the way.
pub proof fn failures_end_the_setup_at_once<S: ?Sized>(
    setup: SetupView<S>,
    reply: ReplyView<S>,
    draft: DraftView<S>,
    reason: Seq<char>,
    path: Seq<char>,
)
    requires
        setup.takes(reply),
    ensures
        ({
            let next = setup.next(reply);
            let told = Some(Err::<SessionView<S>, _>(FailureView::NotLoaded(reason)));
            let not_loaded = reply == ReplyView::<S>::Signer(Err(reason));
            &&& (setup.stage is LoadMultisig || setup.stage is LoadFeePayer
                || setup.stage is LoadNonceAuthority) && not_loaded ==> next.conclusion() == told
            &&& setup.stage is FindNonce && reply == ReplyView::<S>::Pubkey(Err(reason))
                ==> next.conclusion() == told
            &&& setup.stage == (StageView::CheckKeypair { draft, reason }) && reply
                == ReplyView::<S>::FileExists(true) ==> next.conclusion() == told
            &&& setup.stage matches StageView::LoadSettings { path: given_path, given, .. } ==> (
            given && given_path == path && reply == ReplyView::<S>::Settings(None)
                ==> next.conclusion() == Some(
                Err::<SessionView<S>, _>(FailureView::ConfigFileNotFound(path)),
            ))
            &&& setup.stage == (StageView::LoadDefault { draft }) && not_loaded
                && setup.basis.args.value_of("owner"@) is Some ==> next.conclusion() is None
            &&& next.conclusion() is Some ==> next.request() is None
        }),
{
}

} // verus!
