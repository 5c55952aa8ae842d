//! The arguments that were given on the command line.

use crate::pubkey::{
    blockhash_bytes_of_text, blockhash_in, blockhash_of_own_bytes, pubkey_bytes_of_text, pubkey_in,
    pubkey_of_own_bytes, Blockhash, Pubkey,
};
use vstd::prelude::*;

verus! {

/// The configuration file.
pub const CONFIG_FILE_ARG: &'static str = "config_file";

/// The address of the RPC node, or a moniker of one.
pub const JSON_RPC_URL_ARG: &'static str = "json_rpc_url";

/// Whether transactions are only signed, without a connection.
pub const SIGN_ONLY_ARG: &'static str = "sign_only";

/// The recent block hash that a transaction is to use.
pub const BLOCKHASH_ARG: &'static str = "blockhash";

/// Whether the message of a transaction that is only signed is shown.
pub const DUMP_TRANSACTION_MESSAGE_ARG: &'static str = "dump_transaction_message";

/// The nonce account.
pub const NONCE_ARG: &'static str = "nonce";

/// The authority of the nonce account.
pub const NONCE_AUTHORITY_ARG: &'static str = "nonce_authority";

/// A member of a multisig account that signs.
pub const MULTISIG_SIGNER_ARG: &'static str = "multisig_signer";

/// The owner of the accounts, and the default signer.
pub const OWNER_ARG: &'static str = "owner";

/// Who pays the fees.
pub const FEE_PAYER_ARG: &'static str = "fee_payer";

/// Whether the output is verbose.
pub const VERBOSE_ARG: &'static str = "verbose";

/// The format of the output.
pub const OUTPUT_FORMAT_ARG: &'static str = "output_format";

/// The token program.
pub const PROGRAM_ID_ARG: &'static str = "program_id";

/// The mint of the tokens.
pub const TOKEN_ARG: &'static str = "token";

/// A token account.
pub const ACCOUNT_ARG: &'static str = "account";

/// The address of an account.
pub const ADDRESS_ARG: &'static str = "address";

/// One argument that was given, with its values.
struct MatchedArg {
    name: String,
    values: Vec<String>,
}

/// The arguments that were given, each once and with its values in their order, and the name of
/// the subcommand below, if one was given.
pub struct ArgMatches {
    args: Vec<MatchedArg>,
    subcommand: Option<String>,
}

/// What was given on the command line: for each argument given its values, and the name of the
/// subcommand.
#[verifier::ext_equal]
pub struct ArgMatchesView {
    pub args: Map<Seq<char>, Seq<Seq<char>>>,
    pub subcommand: Option<Seq<char>>,
}

/// The texts that strings hold.
pub open spec fn texts(strings: Seq<String>) -> Seq<Seq<char>> {
    strings.map_values(|s: String| s@)
}

impl ArgMatchesView {
    /// The values of an argument, if it was given.
    pub open spec fn values_of(self, name: Seq<char>) -> Option<Seq<Seq<char>>> {
        if self.args.contains_key(name) {
            Some(self.args[name])
        } else {
            None
        }
    }

    /// The first value of an argument, if it was given one.
    pub open spec fn value_of(self, name: Seq<char>) -> Option<Seq<char>> {
        match self.values_of(name) {
            Some(values) => if values.len() > 0 {
                Some(values[0])
            } else {
                None
            },
            None => None,
        }
    }

    /// Whether an argument, or the subcommand of that name, was given.
    pub open spec fn is_present(self, name: Seq<char>) -> bool {
        self.args.contains_key(name) || self.subcommand == Some(name)
    }

    /// The address that is the first value of an argument, if it was given one that is an address.
    pub open spec fn pubkey_of(self, name: Seq<char>) -> Option<Pubkey> {
        match self.value_of(name) {
            Some(text) => pubkey_in(text),
            None => None,
        }
    }

    /// The block hash that is the first value of an argument, if it was given one that is a hash.
    pub open spec fn blockhash_of(self, name: Seq<char>) -> Option<Blockhash> {
        match self.value_of(name) {
            Some(text) => blockhash_in(text),
            None => None,
        }
    }
}

proof fn same_arguments(a: ArgMatchesView, b: ArgMatchesView)
    requires
        forall|key: Seq<char>| #[trigger] a.values_of(key) == b.values_of(key),
    ensures
        a.args == b.args,
{
    assert forall|key: Seq<char>| a.args.contains_key(key) == b.args.contains_key(key) by {
        assert(a.values_of(key) == b.values_of(key));
    }
    assert forall|key: Seq<char>| a.args.contains_key(key) implies #[trigger] a.args[key]
        == b.args[key] by {
        assert(a.values_of(key) == b.values_of(key));
    }
    assert(a.args =~= b.args);
}

impl View for ArgMatches {
    type V = ArgMatchesView;

    closed spec fn view(&self) -> ArgMatchesView {
        ArgMatchesView {
            args: Map::new(
                |name: Seq<char>| exists|i: int| self.names(i, name),
                |name: Seq<char>| texts(self.args[choose|i: int| self.names(i, name)].values@),
            ),
            subcommand: match self.subcommand {
                Some(name) => Some(name@),
                None => None,
            },
        }
    }
}

impl ArgMatches {
    /// Whether entry `i` is that of the argument `name`.
    spec fn names(&self, i: int, name: Seq<char>) -> bool {
        0 <= i < self.args.len() && self.args[i].name@ == name
    }

    /// No argument has two entries.
    #[verifier::type_invariant]
    spec fn one_entry_each(&self) -> bool {
        forall|i: int, j: int|
            0 <= i < j < self.args.len() ==> (#[trigger] self.args[i]).name@ != (
            #[trigger] self.args[j]).name@
    }

    proof fn entry_is_found(&self, i: int, name: Seq<char>)
        requires
            self.one_entry_each(),
            self.names(i, name),
        ensures
            self@.values_of(name) == Some(texts(self.args[i].values@)),
    {
        assert(forall|j: int| self.names(j, name) ==> j == i);
    }

    /// The place of the entry of an argument.
    fn place_of(&self, name: &str) -> (place: Option<usize>)
        ensures
            match place {
                Some(i) => self.names(i as int, name@) && self@.values_of(name@) == Some(
                    texts(self.args[i as int].values@),
                ),
                None => forall|i: int| !self.names(i, name@),
            },
            place is None ==> self@.values_of(name@) is None,
    {
        proof {
            use_type_invariant(self);
        }
        let wanted = name.to_owned();
        let mut i: usize = 0;
        while i < self.args.len()
            invariant
                i <= self.args.len(),
                wanted@ == name@,
                forall|j: int| 0 <= j < i ==> self.args[j].name@ != name@,
                self.one_entry_each(),
            decreases self.args.len() - i,
        {
            if self.args[i].name == wanted {
                assert(self.names(i as int, name@));
                assert(forall|j: int| self.names(j, name@) ==> j == i);
                return Some(i);
            }
            i = i + 1;
        }
        None
    }

    /// No arguments at all.
    pub fn new() -> (matches: ArgMatches)
        ensures
            matches@ == (ArgMatchesView { args: Map::empty(), subcommand: None }),
    {
        let matches = ArgMatches { args: Vec::new(), subcommand: None };
        assert(matches@.args =~= Map::empty());
        matches
    }

    /// These arguments, and `name` with the given values in place of any that it had.
    pub fn with_arg(self, name: String, values: Vec<String>) -> (matches: ArgMatches)
        ensures
            matches@ == (ArgMatchesView {
                args: self@.args.insert(name@, texts(values@)),
                subcommand: self@.subcommand,
            }),
    {
        let place = self.place_of(name.as_str());
        proof {
            use_type_invariant(&self);
        }
        let ghost before = self;
        let mut args = self.args;
        let subcommand = self.subcommand;
        let ghost added = name@;
        let ghost given = texts(values@);
        assert(place is None ==> forall|i: int|
            0 <= i < before.args.len() ==> (#[trigger] before.args[i]).name@ != added) by {
            if place is None {
                assert forall|i: int| 0 <= i < before.args.len() implies (
                #[trigger] before.args[i]).name@ != added by {
                    assert(!before.names(i, added));
                }
            }
        }
        let ghost at = match place {
            Some(i) => i as int,
            None => args.len() as int,
        };
        match place {
            Some(i) => {
                args.set(i, MatchedArg { name, values });
            },
            None => {
                args.push(MatchedArg { name, values });
            },
        }
        let matches = ArgMatches { args, subcommand };
        proof {
            assert(matches.names(at, added));
            matches.entry_is_found(at, added);
            let expected = ArgMatchesView {
                args: before@.args.insert(added, given),
                subcommand: before@.subcommand,
            };
            assert forall|key: Seq<char>| #[trigger] matches@.values_of(key)
                == expected.values_of(key) by {
                if key == added {
                } else if before@.args.contains_key(key) {
                    let j = choose|j: int| before.names(j, key);
                    assert(matches.names(j, key));
                    before.entry_is_found(j, key);
                    matches.entry_is_found(j, key);
                } else if matches@.args.contains_key(key) {
                    let j = choose|j: int| matches.names(j, key);
                    assert(before.names(j, key));
                }
            }
            same_arguments(matches@, expected);
        }
        matches
    }

    /// These arguments, with the given subcommand.
    pub fn with_subcommand(self, name: String) -> (matches: ArgMatches)
        ensures
            matches@ == (ArgMatchesView { args: self@.args, subcommand: Some(name@) }),
    {
        proof {
            use_type_invariant(&self);
        }
        let ghost before = self;
        let matches = ArgMatches { args: self.args, subcommand: Some(name) };
        proof {
            assert forall|key: Seq<char>| #[trigger] matches@.values_of(key)
                == before@.values_of(key) by {
                if before@.args.contains_key(key) {
                    let j = choose|j: int| before.names(j, key);
                    assert(matches.names(j, key));
                    before.entry_is_found(j, key);
                    matches.entry_is_found(j, key);
                } else if matches@.args.contains_key(key) {
                    let j = choose|j: int| matches.names(j, key);
                    assert(before.names(j, key));
                }
            }
            same_arguments(matches@, before@);
        }
        matches
    }

    /// The values of an argument, if it was given.
    pub fn values_of(&self, name: &str) -> (values: Option<&Vec<String>>)
        ensures
            match values {
                Some(values) => self@.values_of(name@) == Some(texts(values@)),
                None => self@.values_of(name@) is None,
            },
    {
        match self.place_of(name) {
            Some(i) => Some(&self.args[i].values),
            None => None,
        }
    }

    /// The first value of an argument, if it was given one.
    pub fn value_of(&self, name: &str) -> (value: Option<&str>)
        ensures
            match value {
                Some(text) => self@.value_of(name@) == Some(text@),
                None => self@.value_of(name@) is None,
            },
    {
        match self.values_of(name) {
            Some(values) => if values.len() > 0 {
                Some(values[0].as_str())
            } else {
                None
            },
            None => None,
        }
    }

    /// Whether an argument, or the subcommand of that name, was given.
    pub fn is_present(&self, name: &str) -> (present: bool)
        ensures
            present == self@.is_present(name@),
    {
        match &self.subcommand {
            Some(subcommand) => if *subcommand == name.to_owned() {
                return true;
            },
            None => {},
        }
        self.place_of(name).is_some()
    }

    /// The address that is the first value of an argument, if it was given one that is an address.
    pub fn pubkey_of(&self, name: &str) -> (key: Option<Pubkey>)
        ensures
            key == self@.pubkey_of(name@),
    {
        match self.value_of(name) {
            Some(text) => Pubkey::parse(text),
            None => None,
        }
    }

    /// The block hash that is the first value of an argument, if it was given one that is a hash.
    pub fn blockhash_of(&self, name: &str) -> (hash: Option<Blockhash>)
        ensures
            hash == self@.blockhash_of(name@),
    {
        match self.value_of(name) {
            Some(text) => Blockhash::parse(text),
            None => None,
        }
    }
}

/// The values of an argument are those that were given for it, and its value is the first of them.
/// An argument that was not given has neither, and one that was given without values has no value.
pub proof fn value_is_the_first_that_was_given(args: ArgMatchesView, name: Seq<char>)
    ensures
        args.args.contains_key(name) ==> args.values_of(name) == Some(args.args[name]),
        args.args.contains_key(name) && args.args[name].len() > 0 ==> args.value_of(name) == Some(
            args.args[name][0],
        ),
        args.args.contains_key(name) && args.args[name].len() == 0 ==> args.value_of(name) is None,
        !args.args.contains_key(name) ==> args.values_of(name) is None && args.value_of(
            name,
        ) is None,
        args.is_present(name) <==> args.args.contains_key(name) || args.subcommand == Some(name),
{
}

/// What is added for an argument is what is read of it, and nothing else is read otherwise.
pub proof fn what_is_added_is_read(
    args: ArgMatchesView,
    name: Seq<char>,
    values: Seq<Seq<char>>,
    other: Seq<char>,
)
    ensures
        ({
            let added = ArgMatchesView { args: args.args.insert(name, values), ..args };
            &&& added.values_of(name) == Some(values)
            &&& added.is_present(name)
            &&& values.len() > 0 ==> added.value_of(name) == Some(values[0])
            &&& other != name ==> {
                &&& added.values_of(other) == args.values_of(other)
                &&& added.value_of(other) == args.value_of(other)
                &&& added.is_present(other) == args.is_present(other)
                &&& added.pubkey_of(other) == args.pubkey_of(other)
                &&& added.blockhash_of(other) == args.blockhash_of(other)
            }
        }),
{
}

/// An argument holds an address exactly where its value reads as one, and it is the one that is
/// read; and so for a block hash.
pub proof fn argument_holds_what_its_value_reads_as(
    args: ArgMatchesView,
    name: Seq<char>,
    key: Pubkey,
    hash: Blockhash,
)
    ensures
        args.pubkey_of(name) == Some(key) <==> args.value_of(name) is Some && pubkey_bytes_of_text(
            args.value_of(name)->Some_0,
        ) is Some && pubkey_in(args.value_of(name)->Some_0) == Some(key),
        args.value_of(name) matches Some(text) ==> (pubkey_bytes_of_text(text) == Some(key@)
            ==> args.pubkey_of(name) == Some(key)),
        args.value_of(name) matches Some(text) ==> (pubkey_bytes_of_text(text) is None
            ==> args.pubkey_of(name) is None),
        args.value_of(name) matches Some(text) ==> (blockhash_bytes_of_text(text) == Some(hash@)
            ==> args.blockhash_of(name) == Some(hash)),
        args.value_of(name) matches Some(text) ==> (blockhash_bytes_of_text(text) is None
            ==> args.blockhash_of(name) is None),
        args.value_of(name) is None ==> args.pubkey_of(name) is None && args.blockhash_of(
            name,
        ) is None,
{
    pubkey_of_own_bytes(key);
    blockhash_of_own_bytes(hash);
}

/// The texts of strings are theirs, one for one.
pub proof fn texts_are_those_of_the_strings(strings: Seq<String>)
    ensures
        texts(strings).len() == strings.len(),
        forall|i: int| 0 <= i < strings.len() ==> #[trigger] texts(strings)[i] == strings[i]@,
{
}

} // verus!
