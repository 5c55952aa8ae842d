//! Looking up a token account, question by question: the one that was given, or else the associated
//! token account.

use crate::args::{OWNER_ARG, TOKEN_ARG};
use crate::config::{outcome, Config, ConfigView, MintInfo, RawAccountView};
use crate::error::{Error, ErrorView};
use crate::programs::{
    associated_address, associated_address_is_the_one_that_is_found,
    associated_token_program_bytes, holds_mint, program_address,
};
use crate::protocol::{asking, Reply, ReplyView, Request, RequestView, Surroundings};
use crate::pubkey::Pubkey;
use vstd::prelude::*;

verus! {

/// What is being waited for.
enum Stage {
    Token,
    Override { given_token: Option<Pubkey> },
    Mint { token: Pubkey },
    Owner { token: Pubkey, program_id: Pubkey },
    Done { result: Result<Pubkey, Error> },
    NoAddress,
}

/// What is being waited for.
pub enum LookupStageView {
    /// The token.
    Token,
    /// The token account, if one was given.
    Override { given_token: Option<Pubkey> },
    /// The account of the token's mint.
    Mint { token: Pubkey },
    /// The owner of the token account.
    Owner { token: Pubkey, program_id: Pubkey },
    /// Nothing: the lookup has a result.
    Done { result: Result<Pubkey, ErrorView> },
    /// Nothing: the owner has no associated token account for the token.
    NoAddress,
}

impl View for Stage {
    type V = LookupStageView;

    closed spec fn view(&self) -> LookupStageView {
        match *self {
            Stage::Token => LookupStageView::Token,
            Stage::Override { given_token } => LookupStageView::Override { given_token },
            Stage::Mint { token } => LookupStageView::Mint { token },
            Stage::Owner { token, program_id } => LookupStageView::Owner { token, program_id },
            Stage::Done { result } => LookupStageView::Done { result: outcome(result) },
            Stage::NoAddress => LookupStageView::NoAddress,
        }
    }
}

/// A token account that is being looked up.
pub struct AddressLookup {
    override_name: String,
    stage: Stage,
}

/// A token account that is being looked up: the argument by which one can be given, and what is
/// being waited for.
#[verifier::ext_equal]
pub struct AddressLookupView {
    pub override_name: Seq<char>,
    pub stage: LookupStageView,
}

impl View for AddressLookup {
    type V = AddressLookupView;

    closed spec fn view(&self) -> AddressLookupView {
        AddressLookupView { override_name: self.override_name@, stage: self.stage@ }
    }
}

impl AddressLookupView {
    /// What is to be asked next, if anything is.
    pub open spec fn request(self) -> Option<RequestView> {
        match self.stage {
            LookupStageView::Token => Some(RequestView::PubkeyOf { name: TOKEN_ARG@ }),
            LookupStageView::Override { .. } => Some(
                RequestView::PubkeyOf { name: self.override_name },
            ),
            LookupStageView::Mint { token } => Some(RequestView::FetchAccount { address: token }),
            LookupStageView::Owner { .. } => Some(RequestView::PubkeyOf { name: OWNER_ARG@ }),
            LookupStageView::Done { .. } => None,
            LookupStageView::NoAddress => None,
        }
    }

    /// Whether a reply is one to what is to be asked next, and one with which the lookup can go on:
    /// without a token account there has to be a token.
    pub open spec fn takes<S: ?Sized>(self, reply: ReplyView<S>) -> bool {
        &&& self.request() matches Some(request) && request.fits(reply)
        &&& self.stage == (LookupStageView::Override { given_token: None }) ==> reply
            != ReplyView::<S>::Pubkey(Ok(None))
    }

    pub open spec fn at(self, stage: LookupStageView) -> AddressLookupView {
        AddressLookupView { stage, ..self }
    }

    /// Where the lookup goes with what is known of the token's mint.
    pub open spec fn with_mint(
        self,
        token: Pubkey,
        mint: Result<MintInfo, ErrorView>,
    ) -> AddressLookupView {
        match mint {
            Ok(info) => self.at(LookupStageView::Owner { token, program_id: info.program_id }),
            Err(error) => self.at(LookupStageView::Done { result: Err(error) }),
        }
    }

    /// Where the lookup goes with a reply.
    pub open spec fn next<S: ?Sized>(
        self,
        config: ConfigView<S>,
        reply: ReplyView<S>,
    ) -> AddressLookupView {
        match (self.stage, reply) {
            (LookupStageView::Token, ReplyView::Pubkey(Ok(token))) => self.at(
                LookupStageView::Override { given_token: token },
            ),
            (LookupStageView::Token, ReplyView::Pubkey(Err(reason))) => self.at(
                LookupStageView::Done { result: Err(ErrorView::NotLoaded(reason)) },
            ),
            (LookupStageView::Override { .. }, ReplyView::Pubkey(Err(reason))) => self.at(
                LookupStageView::Done { result: Err(ErrorView::NotLoaded(reason)) },
            ),
            (LookupStageView::Override { .. }, ReplyView::Pubkey(Ok(Some(address)))) => self.at(
                LookupStageView::Done { result: Ok(address) },
            ),
            (
                LookupStageView::Override { given_token: Some(token) },
                ReplyView::Pubkey(Ok(None)),
            ) => if config.sign_only {
                self.with_mint(token, config.mint_info(token, None, Ok(None)))
            } else {
                self.at(LookupStageView::Mint { token })
            },
            (LookupStageView::Mint { token }, ReplyView::Account(fetched)) => self.with_mint(
                token,
                config.mint_info(token, None, fetched),
            ),
            (
                LookupStageView::Owner { token, program_id },
                ReplyView::Pubkey(given),
            ) => match config.address_or_default(given) {
                Err(error) => self.at(LookupStageView::Done { result: Err(error) }),
                Ok(owner) => match associated_address(owner, token, program_id) {
                    Some(address) => self.at(LookupStageView::Done { result: Ok(address) }),
                    None => self.at(LookupStageView::NoAddress),
                },
            },
            _ => self,
        }
    }

    /// How many questions can be left at most.
    pub open spec fn questions_left(self) -> nat {
        match self.stage {
            LookupStageView::Token => 4,
            LookupStageView::Override { .. } => 3,
            LookupStageView::Mint { .. } => 2,
            LookupStageView::Owner { .. } => 1,
            LookupStageView::Done { .. } => 0,
            LookupStageView::NoAddress => 0,
        }
    }

    /// The lookup when every question was answered.
    pub open spec fn answered<S: ?Sized>(
        self,
        config: ConfigView<S>,
        around: Surroundings<S>,
    ) -> AddressLookupView
        decreases self.questions_left(),
    {
        match self.request() {
            Some(request) => if self.takes(around.reply(request)) {
                self.next(config, around.reply(request)).answered(config, around)
            } else {
                self
            },
            None => self,
        }
    }
}

impl<S: ?Sized> Config<S> {
    /// Begins to look up the token account that was given by an argument, or else the associated
    /// one for the token that was given.
    pub fn associated_token_address_or_override(&self, override_name: &str) -> (lookup: AddressLookup)
        ensures
            lookup@ == (AddressLookupView {
                override_name: override_name@,
                stage: LookupStageView::Token,
            }),
    {
        AddressLookup { override_name: override_name.to_owned(), stage: Stage::Token }
    }

    /// Begins to look up the token account that was given by an argument, or else the associated
    /// one for a token.
    pub fn associated_token_address_for_token_or_override(
        &self,
        override_name: &str,
        token: Option<Pubkey>,
    ) -> (lookup: AddressLookup)
        ensures
            lookup@ == (AddressLookupView {
                override_name: override_name@,
                stage: LookupStageView::Override { given_token: token },
            }),
    {
        AddressLookup {
            override_name: override_name.to_owned(),
            stage: Stage::Override { given_token: token },
        }
    }
}

impl AddressLookup {
    fn at(self, stage: Stage) -> (lookup: AddressLookup)
        ensures
            lookup@ == self@.at(stage@),
    {
        AddressLookup { override_name: self.override_name, stage }
    }

    fn with_mint(self, token: Pubkey, mint: Result<MintInfo, Error>) -> (lookup: AddressLookup)
        ensures
            lookup@ == self@.with_mint(token, outcome(mint)),
    {
        match mint {
            Ok(info) => self.at(Stage::Owner { token, program_id: info.program_id }),
            Err(error) => self.at(Stage::Done { result: Err(error) }),
        }
    }

    /// What is to be asked next, or `None` when nothing is left to ask.
    pub fn request(&self) -> (request: Option<Request>)
        ensures
            asking(request) == self@.request(),
    {
        match &self.stage {
            Stage::Token => Some(Request::PubkeyOf { name: TOKEN_ARG.to_owned() }),
            Stage::Override { .. } => Some(Request::PubkeyOf { name: self.override_name.clone() }),
            Stage::Mint { token } => Some(Request::FetchAccount { address: *token }),
            Stage::Owner { .. } => Some(Request::PubkeyOf { name: OWNER_ARG.to_owned() }),
            Stage::Done { .. } => None,
            Stage::NoAddress => None,
        }
    }

    /// Whether a token account has to be given, because no token was.
    pub fn needs_override(&self) -> (needs: bool)
        ensures
            needs == (self@.stage == (LookupStageView::Override { given_token: None })),
    {
        match &self.stage {
            Stage::Override { given_token } => given_token.is_none(),
            _ => false,
        }
    }

    /// Goes on with the reply to what was to be asked.
    pub fn advance<S: ?Sized>(self, config: &Config<S>, reply: Reply<S>) -> (next: AddressLookup)
        requires
            self@.takes(reply@),
        ensures
            next@ == self@.next(config@, reply@),
    {
        let AddressLookup { override_name, stage } = self;
        let lookup = AddressLookup { override_name, stage: Stage::NoAddress };
        match (stage, reply) {
            (Stage::Token, Reply::Pubkey(Ok(token))) => lookup.at(
                Stage::Override { given_token: token },
            ),
            (Stage::Token, Reply::Pubkey(Err(reason))) => lookup.at(
                Stage::Done { result: Err(Error::NotLoaded(reason)) },
            ),
            (Stage::Override { .. }, Reply::Pubkey(Err(reason))) => lookup.at(
                Stage::Done { result: Err(Error::NotLoaded(reason)) },
            ),
            (Stage::Override { .. }, Reply::Pubkey(Ok(Some(address)))) => lookup.at(
                Stage::Done { result: Ok(address) },
            ),
            (Stage::Override { given_token: Some(token) }, Reply::Pubkey(Ok(None))) => {
                if config.fetches_accounts() {
                    lookup.at(Stage::Mint { token })
                } else {
                    lookup.with_mint(token, config.get_mint_info(&token, None, Ok(None)))
                }
            },
            (Stage::Mint { token }, Reply::Account(fetched)) => lookup.with_mint(
                token,
                config.get_mint_info(&token, None, fetched),
            ),
            (Stage::Owner { token, program_id }, Reply::Pubkey(given)) => {
                match config.pubkey_or_default(given) {
                    Err(error) => lookup.at(Stage::Done { result: Err(error) }),
                    Ok(owner) => match config.associated_token_address_if_any(
                        &token,
                        &owner,
                        &program_id,
                    ) {
                        Some(result) => lookup.at(Stage::Done { result }),
                        None => lookup.at(Stage::NoAddress),
                    },
                }
            },
            (stage, _) => lookup.at(stage),
        }
    }

    /// The result when nothing is left to ask: the token account or why there is none, or `None`
    /// where the owner has no associated token account for the token.
    pub fn finish(self) -> (result: Option<Result<Pubkey, Error>>)
        requires
            self@.request() is None,
        ensures
            match result {
                Some(result) => self@.stage == (LookupStageView::Done { result: outcome(result) }),
                None => self@.stage == LookupStageView::NoAddress,
            },
    {
        match self.stage {
            Stage::Done { result } => Some(result),
            _ => None,
        }
    }
}

/// The token account: the given one, else the associated one of the owner for the token; or why
/// there is none; or `None` where the owner has no associated token account for the token.
pub open spec fn token_account<S: ?Sized>(
    config: ConfigView<S>,
    override_name: Seq<char>,
    token: Option<Pubkey>,
    around: Surroundings<S>,
) -> Option<Result<Pubkey, ErrorView>> {
    match (around.pubkey_of)(override_name) {
        Err(reason) => Some(Err(ErrorView::NotLoaded(reason))),
        Ok(Some(address)) => Some(Ok(address)),
        Ok(None) => associated_account(config, token->Some_0, around),
    }
}

/// The associated token account of the owner for the token.
pub open spec fn associated_account<S: ?Sized>(
    config: ConfigView<S>,
    token: Pubkey,
    around: Surroundings<S>,
) -> Option<Result<Pubkey, ErrorView>> {
    match config.mint_info(token, None, (around.account)(token)) {
        Err(error) => Some(Err(error)),
        Ok(mint) => match config.address_or_default((around.pubkey_of)(OWNER_ARG@)) {
            Err(error) => Some(Err(error)),
            Ok(owner) => match associated_address(owner, token, mint.program_id) {
                Some(address) => Some(Ok(address)),
                None => None,
            },
        },
    }
}

/// What a lookup that has nothing left to ask comes to.
pub open spec fn looked_up(result: Option<Result<Pubkey, ErrorView>>) -> LookupStageView {
    match result {
        Some(result) => LookupStageView::Done { result },
        None => LookupStageView::NoAddress,
    }
}

/// Looking up a token account for a token comes to the one that was given, else to the associated
/// one. Without a token, one has to be given.
pub proof fn token_account_is_looked_up<S: ?Sized>(
    config: ConfigView<S>,
    override_name: Seq<char>,
    token: Option<Pubkey>,
    around: Surroundings<S>,
)
    requires
        token is Some || (around.pubkey_of)(override_name) != Ok::<Option<Pubkey>, Seq<char>>(None),
    ensures
        (AddressLookupView {
            override_name,
            stage: LookupStageView::Override { given_token: token },
        }).answered(config, around).stage == looked_up(
            token_account(config, override_name, token, around),
        ),
{
    reveal_with_fuel(AddressLookupView::answered, 4);
}

/// Looking up a token account for the token that was given first asks for the token, and then goes
/// on as for that token.
pub proof fn given_token_is_looked_up<S: ?Sized>(
    config: ConfigView<S>,
    override_name: Seq<char>,
    around: Surroundings<S>,
)
    requires
        (around.pubkey_of)(TOKEN_ARG@) == Ok::<Option<Pubkey>, Seq<char>>(None) ==> (
        around.pubkey_of)(override_name) != Ok::<Option<Pubkey>, Seq<char>>(None),
    ensures
        (AddressLookupView { override_name, stage: LookupStageView::Token }).answered(
            config,
            around,
        ).stage == match (around.pubkey_of)(TOKEN_ARG@) {
            Err(reason) => LookupStageView::Done { result: Err(ErrorView::NotLoaded(reason)) },
            Ok(token) => looked_up(token_account(config, override_name, token, around)),
        },
{
    reveal_with_fuel(AddressLookupView::answered, 2);
    match (around.pubkey_of)(TOKEN_ARG@) {
        Ok(token) => {
            token_account_is_looked_up(config, override_name, token, around);
        },
        Err(_) => {},
    }
}

/// Looking up comes to an end: every reply leaves fewer questions.
pub proof fn every_answer_leaves_fewer_questions<S: ?Sized>(
    lookup: AddressLookupView,
    config: ConfigView<S>,
    reply: ReplyView<S>,
)
    requires
        lookup.takes(reply),
    ensures
        lookup.next(config, reply).questions_left() < lookup.questions_left(),
{
}

/// A token account that was given is the one, whatever the token, the accounts and the signers.
pub proof fn given_token_account_comes_first<S: ?Sized>(
    config: ConfigView<S>,
    override_name: Seq<char>,
    token: Option<Pubkey>,
    address: Pubkey,
    around: Surroundings<S>,
)
    requires
        (around.pubkey_of)(override_name) == Ok::<_, Seq<char>>(Some(address)),
    ensures
        token_account(config, override_name, token, around) == Some(Ok::<_, ErrorView>(address)),
{
}

/// The associated token account is that of the given owner, or else of the default signer, for the
/// token and the configured program.
pub proof fn associated_account_is_of_the_configured_program<S: ?Sized>(
    config: ConfigView<S>,
    token: Pubkey,
    around: Surroundings<S>,
)
    ensures
        associated_account(config, token, around) matches Some(Ok(address)) ==> {
            &&& config.address_or_default((around.pubkey_of)(OWNER_ARG@)) matches Ok(owner)
            &&& associated_address(owner, token, config.program_id) == Some(address)
        },
{
}

/// Where transactions are only signed, looking up never asks for an account.
pub proof fn signing_only_looks_up_without_accounts<S: ?Sized>(
    lookup: AddressLookupView,
    config: ConfigView<S>,
    reply: ReplyView<S>,
)
    requires
        config.sign_only,
        lookup.takes(reply),
    ensures
        lookup.next(config, reply).request() matches Some(request) ==> !(request is FetchAccount),
{
}

/// Where no token account is given and the token is a mint of the configured program, or transactions
/// are only signed, an address that is given for the owner is the one whose associated token account
/// is found for the token and the configured program, whatever the default signer is and whether or
/// not there is one. Where none is found there is no token account.
pub proof fn given_owner_needs_no_default_signer<S: ?Sized>(
    config: ConfigView<S>,
    override_name: Seq<char>,
    token: Pubkey,
    account: RawAccountView,
    owner: Pubkey,
    key: Pubkey,
    bump: u8,
    around: Surroundings<S>,
)
    requires
        (around.pubkey_of)(override_name) == Ok::<Option<Pubkey>, Seq<char>>(None),
        config.sign_only || ((around.account)(token) == Ok::<_, Seq<char>>(Some(account))
            && account.owner == config.program_id && holds_mint(account.data)),
        (around.pubkey_of)("owner"@) == Ok::<_, Seq<char>>(Some(owner)),
    ensures
        ({
            let begun = AddressLookupView {
                override_name,
                stage: LookupStageView::Override { given_token: Some(token) },
            };
            let found = program_address(
                seq![owner@, config.program_id@, token@],
                associated_token_program_bytes(),
            );
            &&& found == Some((key@, bump)) ==> begun.answered(config, around).stage == (
            LookupStageView::Done { result: Ok(key) })
            &&& found is None ==> begun.answered(config, around).stage == LookupStageView::NoAddress
        }),
{
    reveal_with_fuel(AddressLookupView::answered, 4);
    associated_address_is_the_one_that_is_found(owner, token, config.program_id, key, bump);
}

/// Where neither a token account nor an owner is given, it is the address of the default signer for
/// which the associated token account is found. Without a default signer it is missed, and an owner
/// that cannot be read is told.
pub proof fn default_signer_owns_the_token_account<S: ?Sized>(
    config: ConfigView<S>,
    override_name: Seq<char>,
    token: Pubkey,
    account: RawAccountView,
    key: Pubkey,
    bump: u8,
    reason: Seq<char>,
    around: Surroundings<S>,
)
    requires
        (around.pubkey_of)(override_name) == Ok::<Option<Pubkey>, Seq<char>>(None),
        config.sign_only || ((around.account)(token) == Ok::<_, Seq<char>>(Some(account))
            && account.owner == config.program_id && holds_mint(account.data)),
    ensures
        ({
            let begun = AddressLookupView {
                override_name,
                stage: LookupStageView::Override { given_token: Some(token) },
            };
            let end = begun.answered(config, around).stage;
            let given = (around.pubkey_of)("owner"@);
            let none = Ok::<Option<Pubkey>, Seq<char>>(None);
            &&& given == none ==> (config.default_signer matches Some(signer) ==> {
                let found = program_address(
                    seq![signer.pubkey@, config.program_id@, token@],
                    associated_token_program_bytes(),
                );
                &&& found == Some((key@, bump)) ==> end == (LookupStageView::Done {
                    result: Ok(key),
                })
                &&& found is None ==> end == LookupStageView::NoAddress
            })
            &&& given == none && config.default_signer is None ==> end == (LookupStageView::Done {
                result: Err(ErrorView::NoDefaultSigner),
            })
            &&& given == Err::<Option<Pubkey>, _>(reason) ==> end == (LookupStageView::Done {
                result: Err(ErrorView::NotLoaded(reason)),
            })
        }),
{
    reveal_with_fuel(AddressLookupView::answered, 4);
    if let Some(signer) = config.default_signer {
        associated_address_is_the_one_that_is_found(
            signer.pubkey,
            token,
            config.program_id,
            key,
            bump,
        );
    }
}

/// Where accounts are fetched and no token account is given, a token that is not found, that belongs
/// to another program or that is no mint ends the lookup, whatever the owner.
pub proof fn token_must_be_a_mint_of_the_program<S: ?Sized>(
    config: ConfigView<S>,
    override_name: Seq<char>,
    token: Pubkey,
    account: RawAccountView,
    around: Surroundings<S>,
)
    requires
        !config.sign_only,
        (around.pubkey_of)(override_name) == Ok::<Option<Pubkey>, Seq<char>>(None),
    ensures
        ({
            let begun = AddressLookupView {
                override_name,
                stage: LookupStageView::Override { given_token: Some(token) },
            };
            let end = begun.answered(config, around).stage;
            let fetched = (around.account)(token);
            let one = Ok::<_, Seq<char>>(Some(account));
            &&& fetched is Err || fetched == Ok::<Option<RawAccountView>, Seq<char>>(None) ==> end
                == (LookupStageView::Done { result: Err(ErrorView::AccountNotFound(token)) })
            &&& fetched == one && account.owner != config.program_id ==> end == (
            LookupStageView::Done {
                result: Err(
                    ErrorView::WrongOwner {
                        account: token,
                        owner: account.owner,
                        program_id: config.program_id,
                    },
                ),
            })
            &&& fetched == one && account.owner == config.program_id && !holds_mint(account.data)
                ==> end == (LookupStageView::Done { result: Err(ErrorView::MintNotFound(token)) })
        }),
{
    reveal_with_fuel(AddressLookupView::answered, 4);
}

/// A token account that is given ends the lookup, with or without a token, and one that cannot be
/// read is told. The token that is given is asked for first: one that cannot be read is told, and
/// else the lookup ends as the one for that token.
pub proof fn given_accounts_end_the_lookup<S: ?Sized>(
    config: ConfigView<S>,
    override_name: Seq<char>,
    token: Option<Pubkey>,
    address: Pubkey,
    reason: Seq<char>,
    around: Surroundings<S>,
)
    ensures
        ({
            let begun = AddressLookupView {
                override_name,
                stage: LookupStageView::Override { given_token: token },
            };
            let given = (around.pubkey_of)(override_name);
            &&& given == Ok::<_, Seq<char>>(Some(address)) ==> begun.answered(config, around).stage
                == (LookupStageView::Done { result: Ok(address) })
            &&& given == Err::<Option<Pubkey>, _>(reason) ==> begun.answered(config, around).stage
                == (LookupStageView::Done { result: Err(ErrorView::NotLoaded(reason)) })
            &&& (AddressLookupView { stage: LookupStageView::Token, ..begun }).answered(
                config,
                around,
            ).stage == match (around.pubkey_of)("token"@) {
                Err(reason) => LookupStageView::Done { result: Err(ErrorView::NotLoaded(reason)) },
                Ok(found) => (AddressLookupView {
                    stage: LookupStageView::Override { given_token: found },
                    ..begun
                }).answered(config, around).stage,
            }
        }),
{
    reveal_with_fuel(AddressLookupView::answered, 3);
}

impl AddressLookupView {
    /// The questions that are asked from here on, one after the other.
    pub open spec fn asked<S: ?Sized>(
        self,
        config: ConfigView<S>,
        around: Surroundings<S>,
    ) -> Seq<RequestView>
        decreases self.questions_left(),
    {
        match self.request() {
            Some(request) => if self.takes(around.reply(request)) {
                seq![request] + self.next(config, around.reply(request)).asked(config, around)
            } else {
                seq![request]
            },
            None => Seq::empty(),
        }
    }
}

/// A lookup asks no more than it needs: for the token account, and only where none is given and it
/// could be read for the account of the token, where accounts are fetched, and then for the owner,
/// where that account is a mint of the configured program. The token that is given is asked for
/// before all of it.
pub proof fn lookup_asks_what_it_needs<S: ?Sized>(
    config: ConfigView<S>,
    override_name: Seq<char>,
    token: Pubkey,
    account: RawAccountView,
    around: Surroundings<S>,
)
    ensures
        ({
            let begun = AddressLookupView {
                override_name,
                stage: LookupStageView::Override { given_token: Some(token) },
            };
            let asked = begun.asked(config, around);
            let first = RequestView::PubkeyOf { name: override_name };
            let fetch = RequestView::FetchAccount { address: token };
            let owner = RequestView::PubkeyOf { name: "owner"@ };
            let given = (around.pubkey_of)(override_name);
            let none = Ok::<Option<Pubkey>, Seq<char>>(None);
            let fetched = (around.account)(token);
            let is_mint = fetched == Ok::<_, Seq<char>>(Some(account)) && account.owner
                == config.program_id && holds_mint(account.data);
            let is_none = fetched is Err || fetched->Ok_0 is None || fetched->Ok_0->Some_0.owner
                != config.program_id || !holds_mint(fetched->Ok_0->Some_0.data);
            &&& given != none ==> asked == seq![first]
            &&& given == none && config.sign_only ==> asked == seq![first, owner]
            &&& given == none && !config.sign_only && is_mint ==> asked == seq![first, fetch, owner]
            &&& given == none && !config.sign_only && is_none ==> asked == seq![first, fetch]
            &&& (around.pubkey_of)("token"@) == Ok::<_, Seq<char>>(Some(token)) ==> (
            AddressLookupView { stage: LookupStageView::Token, ..begun }).asked(config, around)
                == seq![RequestView::PubkeyOf { name: "token"@ }] + asked
            &&& (around.pubkey_of)("token"@) is Err ==> (AddressLookupView {
                stage: LookupStageView::Token,
                ..begun
            }).asked(config, around) == seq![RequestView::PubkeyOf { name: "token"@ }]
        }),
{
    reveal_with_fuel(AddressLookupView::asked, 4);
    let begun = AddressLookupView {
        override_name,
        stage: LookupStageView::Override { given_token: Some(token) },
    };
    let asked = begun.asked(config, around);
    let first = RequestView::PubkeyOf { name: override_name };
    let fetch = RequestView::FetchAccount { address: token };
    let owner = RequestView::PubkeyOf { name: "owner"@ };
    if (around.pubkey_of)(override_name) != Ok::<Option<Pubkey>, Seq<char>>(None) {
        assert(asked =~= seq![first]);
    } else if config.sign_only {
        assert(asked =~= seq![first, owner]);
    } else if config.mint_info(token, None, (around.account)(token)) is Ok {
        assert(asked =~= seq![first, fetch, owner]);
    } else {
        assert(asked =~= seq![first, fetch]);
    }
}

} // verus!
