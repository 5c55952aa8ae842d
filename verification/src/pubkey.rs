//! Account addresses and block hashes: thirty-two bytes each, written in base 58.

use vstd::prelude::*;

verus! {

/// The address of an account.
#[derive(Clone, Copy, Debug, Eq)]
pub struct Pubkey {
    pub bytes: [u8; 32],
}

/// The hash of a block.
#[derive(Clone, Copy, Debug, Eq)]
pub struct Blockhash {
    pub bytes: [u8; 32],
}

impl View for Pubkey {
    type V = Seq<u8>;

    open spec fn view(&self) -> Seq<u8> {
        self.bytes@
    }
}

impl View for Blockhash {
    type V = Seq<u8>;

    open spec fn view(&self) -> Seq<u8> {
        self.bytes@
    }
}

/// Whether two arrays hold the same bytes.
fn same_bytes(a: &[u8; 32], b: &[u8; 32]) -> (same: bool)
    ensures
        same == (a == b),
{
    let mut i: usize = 0;
    while i < 32
        invariant
            i <= 32,
            forall|j: int| 0 <= j < i ==> a[j] == b[j],
        decreases 32 - i,
    {
        if a[i] != b[i] {
            assert(a@[i as int] != b@[i as int]);
            return false;
        }
        i = i + 1;
    }
    assert(*a =~= *b);
    true
}

impl PartialEq for Pubkey {
    fn eq(&self, other: &Self) -> (same: bool) {
        same_bytes(&self.bytes, &other.bytes)
    }
}

impl vstd::std_specs::cmp::PartialEqSpecImpl for Pubkey {
    open spec fn obeys_eq_spec() -> bool {
        true
    }

    open spec fn eq_spec(&self, other: &Self) -> bool {
        self.bytes == other.bytes
    }
}

impl PartialEq for Blockhash {
    fn eq(&self, other: &Self) -> (same: bool) {
        same_bytes(&self.bytes, &other.bytes)
    }
}

impl vstd::std_specs::cmp::PartialEqSpecImpl for Blockhash {
    open spec fn obeys_eq_spec() -> bool {
        true
    }

    open spec fn eq_spec(&self, other: &Self) -> bool {
        self.bytes == other.bytes
    }
}

/// Addresses of the same bytes are the same address.
pub proof fn pubkey_is_its_bytes(a: Pubkey, b: Pubkey)
    requires
        a@ == b@,
    ensures
        a == b,
{
    assert(a.bytes =~= b.bytes);
}

/// The address of the given bytes.
pub open spec fn pubkey_with_bytes(bytes: Seq<u8>) -> Pubkey {
    choose|key: Pubkey| key@ == bytes
}

/// The block hash of the given bytes.
pub open spec fn blockhash_with_bytes(bytes: Seq<u8>) -> Blockhash {
    choose|hash: Blockhash| hash@ == bytes
}

/// The address whose bytes are all zero.
pub open spec fn zero_pubkey() -> Pubkey {
    pubkey_with_bytes(Seq::new(32, |i: int| 0u8))
}

/// The block hash whose bytes are all zero.
pub open spec fn zero_blockhash() -> Blockhash {
    blockhash_with_bytes(Seq::new(32, |i: int| 0u8))
}

/// An address is the one that has its bytes.
pub proof fn pubkey_of_own_bytes(key: Pubkey)
    ensures
        pubkey_with_bytes(key@) == key,
{
    pubkey_is_its_bytes(pubkey_with_bytes(key@), key);
}

/// A block hash is the one that has its bytes.
pub proof fn blockhash_of_own_bytes(hash: Blockhash)
    ensures
        blockhash_with_bytes(hash@) == hash,
{
    assert(blockhash_with_bytes(hash@).bytes =~= hash.bytes);
}

/// Why a text is no address.
#[verifier::external_type_specification]
#[verifier::external_body]
pub struct ExParsePubkeyError(solana_sdk::pubkey::ParsePubkeyError);

/// Why a text is no block hash.
#[verifier::external_type_specification]
#[verifier::external_body]
pub struct ExParseHashError(solana_sdk::hash::ParseHashError);

/// The bytes of the address that `solana_sdk::pubkey::Pubkey::from_str` reads in a text, or
/// `None` where it reads none.
pub uninterp spec fn pubkey_bytes_of_text(text: Seq<char>) -> Option<Seq<u8>>;

/// The bytes of the hash that `solana_sdk::hash::Hash::from_str` reads in a text, or `None`
/// where it reads none.
pub uninterp spec fn blockhash_bytes_of_text(text: Seq<char>) -> Option<Seq<u8>>;

/// The text that the `Display` of `solana_sdk::pubkey::Pubkey` writes for an address of the
/// given bytes. Its `Debug` writes the same.
pub uninterp spec fn text_of_pubkey(bytes: Seq<u8>) -> Seq<char>;

/// Calls `solana_sdk::pubkey::Pubkey::from_str`, which reads an address in base 58: whether it
/// succeeds, and with which address, depends on the text alone.
#[verifier::external_body]
fn parse_pubkey(text: &str) -> (parsed: Result<Pubkey, solana_sdk::pubkey::ParsePubkeyError>)
    ensures
        match parsed {
            Ok(key) => pubkey_bytes_of_text(text@) == Some(key@),
            Err(_) => pubkey_bytes_of_text(text@) is None,
        },
{
    text.parse::<solana_sdk::pubkey::Pubkey>().map(|key| Pubkey { bytes: key.to_bytes() })
}

/// Calls `solana_sdk::hash::Hash::from_str`, which reads a hash in base 58: whether it succeeds,
/// and with which hash, depends on the text alone.
#[verifier::external_body]
fn parse_blockhash(text: &str) -> (parsed: Result<Blockhash, solana_sdk::hash::ParseHashError>)
    ensures
        match parsed {
            Ok(hash) => blockhash_bytes_of_text(text@) == Some(hash@),
            Err(_) => blockhash_bytes_of_text(text@) is None,
        },
{
    text.parse::<solana_sdk::hash::Hash>().map(|hash| Blockhash { bytes: hash.to_bytes() })
}

/// Calls the `Display` of `solana_sdk::pubkey::Pubkey`, which writes the bytes in base 58.
#[verifier::external_body]
fn format_pubkey(key: &Pubkey) -> (text: String)
    ensures
        text@ == text_of_pubkey(key@),
{
    solana_sdk::pubkey::Pubkey::from(key.bytes).to_string()
}

/// The address that a text holds, if it holds one.
pub open spec fn pubkey_in(text: Seq<char>) -> Option<Pubkey> {
    match pubkey_bytes_of_text(text) {
        Some(bytes) => Some(pubkey_with_bytes(bytes)),
        None => None,
    }
}

/// The block hash that a text holds, if it holds one.
pub open spec fn blockhash_in(text: Seq<char>) -> Option<Blockhash> {
    match blockhash_bytes_of_text(text) {
        Some(bytes) => Some(blockhash_with_bytes(bytes)),
        None => None,
    }
}

/// Whether `a` comes before `b` in the order of addresses: at the first byte in which they
/// differ, that of `a` is smaller.
pub open spec fn comes_before(a: Pubkey, b: Pubkey) -> bool {
    exists|i: int| differs_first_at(a, b, i) && a.bytes[i] < b.bytes[i]
}

/// Whether byte `i` is the first in which `a` and `b` differ.
pub open spec fn differs_first_at(a: Pubkey, b: Pubkey, i: int) -> bool {
    &&& 0 <= i < 32
    &&& a.bytes[i] != b.bytes[i]
    &&& forall|j: int| 0 <= j < i ==> a.bytes[j] == b.bytes[j]
}

impl Pubkey {
    /// The address whose bytes are all zero.
    pub fn zero() -> (key: Pubkey)
        ensures
            key == zero_pubkey(),
            key@ == Seq::new(32, |i: int| 0u8),
    {
        let key = Pubkey { bytes: [0u8; 32] };
        proof {
            assert(key@ =~= Seq::new(32, |i: int| 0u8));
            pubkey_of_own_bytes(key);
        }
        key
    }

    /// The address that the text holds, if it holds one.
    pub fn parse(text: &str) -> (key: Option<Pubkey>)
        ensures
            key == pubkey_in(text@),
            match key {
                Some(key) => pubkey_bytes_of_text(text@) == Some(key@),
                None => pubkey_bytes_of_text(text@) is None,
            },
    {
        match parse_pubkey(text) {
            Ok(key) => {
                proof {
                    pubkey_of_own_bytes(key);
                }
                Some(key)
            },
            Err(_) => None,
        }
    }

    /// The address as text.
    pub fn text(&self) -> (text: String)
        ensures
            text@ == text_of_pubkey(self@),
    {
        format_pubkey(self)
    }

    /// Whether this address comes before the other.
    pub fn precedes(&self, other: &Pubkey) -> (before: bool)
        ensures
            before == comes_before(*self, *other),
    {
        let mut i: usize = 0;
        while i < 32
            invariant
                i <= 32,
                forall|j: int| 0 <= j < i ==> self.bytes[j] == other.bytes[j],
            decreases 32 - i,
        {
            if self.bytes[i] != other.bytes[i] {
                assert(differs_first_at(*self, *other, i as int));
                return self.bytes[i] < other.bytes[i];
            }
            i = i + 1;
        }
        false
    }
}

impl Blockhash {
    /// The block hash that the text holds, if it holds one.
    pub fn parse(text: &str) -> (hash: Option<Blockhash>)
        ensures
            hash == blockhash_in(text@),
            match hash {
                Some(hash) => blockhash_bytes_of_text(text@) == Some(hash@),
                None => blockhash_bytes_of_text(text@) is None,
            },
    {
        match parse_blockhash(text) {
            Ok(hash) => {
                proof {
                    blockhash_of_own_bytes(hash);
                }
                Some(hash)
            },
            Err(_) => None,
        }
    }

    /// The hash whose bytes are all zero.
    pub fn zero() -> (hash: Blockhash)
        ensures
            hash == zero_blockhash(),
            hash@ == Seq::new(32, |i: int| 0u8),
    {
        let hash = Blockhash { bytes: [0u8; 32] };
        proof {
            assert(hash@ =~= Seq::new(32, |i: int| 0u8));
            blockhash_of_own_bytes(hash);
        }
        hash
    }
}

/// No address comes before itself.
pub proof fn order_is_irreflexive(a: Pubkey)
    ensures
        !comes_before(a, a),
{
}

/// Of two different addresses one comes before the other.
pub proof fn order_is_total(a: Pubkey, b: Pubkey)
    ensures
        a == b || comes_before(a, b) || comes_before(b, a),
{
    if !comes_before(a, b) && !comes_before(b, a) {
        agree_everywhere(a, b, 32);
        assert(a.bytes =~= b.bytes);
    }
}

spec fn agree_up_to(a: Pubkey, b: Pubkey, n: nat) -> bool {
    forall|j: int| 0 <= j < n ==> a.bytes[j] == b.bytes[j]
}

proof fn agree_everywhere(a: Pubkey, b: Pubkey, n: nat)
    requires
        n <= 32,
        !comes_before(a, b),
        !comes_before(b, a),
    ensures
        agree_up_to(a, b, n),
    decreases n,
{
    if n > 0 {
        agree_everywhere(a, b, (n - 1) as nat);
        if a.bytes[n - 1] != b.bytes[n - 1] {
            assert(differs_first_at(a, b, n - 1));
            assert(differs_first_at(b, a, n - 1));
        }
    }
}

/// The order of addresses is transitive.
pub proof fn order_is_transitive(a: Pubkey, b: Pubkey, c: Pubkey)
    requires
        comes_before(a, b),
        comes_before(b, c),
    ensures
        comes_before(a, c),
{
    let i = choose|i: int| differs_first_at(a, b, i) && a.bytes[i] < b.bytes[i];
    let j = choose|j: int| differs_first_at(b, c, j) && b.bytes[j] < c.bytes[j];
    let k = if i < j { i } else { j };
    assert(differs_first_at(a, c, k));
}

/// Which of two addresses comes first is decided by the first byte in which they differ: the smaller
/// one comes first, and the other does not.
pub proof fn first_difference_decides(a: Pubkey, b: Pubkey, i: int)
    requires
        0 <= i < 32,
        forall|j: int| 0 <= j < i ==> #[trigger] a.bytes[j] == b.bytes[j],
        a.bytes[i] < b.bytes[i],
    ensures
        comes_before(a, b),
        !comes_before(b, a),
{
    assert(differs_first_at(a, b, i));
    if comes_before(b, a) {
        let k = choose|k: int| differs_first_at(b, a, k) && b.bytes[k] < a.bytes[k];
        assert(k == i);
    }
}

/// The address of all zeros is the one all of whose bytes are zero, and so is the block hash.
pub proof fn zeros_are_zero(key: Pubkey, hash: Blockhash)
    ensures
        (forall|i: int| 0 <= i < 32 ==> key.bytes[i] == 0) ==> key == zero_pubkey(),
        (forall|i: int| 0 <= i < 32 ==> hash.bytes[i] == 0) ==> hash == zero_blockhash(),
{
    if forall|i: int| 0 <= i < 32 ==> key.bytes[i] == 0 {
        assert(key@ =~= Seq::new(32, |i: int| 0u8));
        pubkey_of_own_bytes(key);
    }
    if forall|i: int| 0 <= i < 32 ==> hash.bytes[i] == 0 {
        assert(hash@ =~= Seq::new(32, |i: int| 0u8));
        blockhash_of_own_bytes(hash);
    }
}

} // verus!
