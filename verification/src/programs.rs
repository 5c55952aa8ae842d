//! The token programs: their addresses, the addresses derived for them, and the accounts that
//! they keep.

use crate::pubkey::{pubkey_with_bytes, pubkey_of_own_bytes, Pubkey};
use vstd::prelude::*;

verus! {

/// The bytes of the address of the token program,
/// "TokenkegQfeZyiNwAJbNbGKPFXCWuBvf9Ss623VQ5DA".
pub open spec fn token_program_bytes() -> Seq<u8> {
    seq![
        6, 221, 246, 225, 215, 101, 161, 147, 217, 203, 225, 70, 206, 235, 121, 172,
        28, 180, 133, 237, 95, 91, 55, 145, 58, 140, 245, 133, 126, 255, 0, 169,
    ]
}

/// The bytes of the address of the associated token account program,
/// "ATokenGPvbdGVxr1b2hvZbsiqW5xWH25efTNsLJA8knL".
pub open spec fn associated_token_program_bytes() -> Seq<u8> {
    seq![
        140, 151, 37, 143, 78, 36, 137, 241, 187, 61, 16, 41, 20, 142, 13, 131,
        11, 90, 19, 153, 218, 255, 16, 132, 4, 142, 123, 216, 219, 233, 248, 89,
    ]
}

/// The address, by its bytes, and the bump seed that
/// `solana_sdk::pubkey::Pubkey::try_find_program_address` finds for the given seeds and program,
/// or `None` where it finds none.
pub uninterp spec fn program_address(seeds: Seq<Seq<u8>>, program_id: Seq<u8>) -> Option<
    (Seq<u8>, u8),
>;

/// Whether the four bytes from `i` on tell whether an optional field is there: one or zero, with the
/// least byte first.
pub open spec fn is_option_tag(data: Seq<u8>, i: int) -> bool {
    &&& data[i] == 0 || data[i] == 1
    &&& data[i + 1] == 0
    &&& data[i + 2] == 0
    &&& data[i + 3] == 0
}

/// The number of bytes of a mint.
pub const MINT_LEN: usize = 82;

/// The number of bytes of a token account.
pub const ACCOUNT_LEN: usize = 165;

/// The number of bytes of a multisig account, which no other account has.
pub const MULTISIG_LEN: usize = 355;

/// Whether there are extensions behind the bytes of a mint or a token account: the byte behind those
/// of a token account tells the kind of the account, and more follow.
pub open spec fn has_extensions_of(data: Seq<u8>, account_type: u8) -> bool {
    &&& data.len() > ACCOUNT_LEN + 1
    &&& data[ACCOUNT_LEN as int] == account_type
}

/// Whether data are those of an initialized mint, alone or with extensions. Up to those there are
/// zeros.
pub open spec fn holds_mint(data: Seq<u8>) -> bool {
    &&& data.len() >= MINT_LEN
    &&& data.len() != MULTISIG_LEN
    &&& is_option_tag(data, 0)
    &&& data[45] == 1
    &&& is_option_tag(data, 46)
    &&& data.len() > MINT_LEN ==> {
        &&& has_extensions_of(data, 1)
        &&& forall|i: int| MINT_LEN <= i < ACCOUNT_LEN ==> data[i] == 0
    }
}

/// Whether data are those of an initialized token account, frozen or not, alone or with extensions.
pub open spec fn holds_account(data: Seq<u8>) -> bool {
    &&& data.len() >= ACCOUNT_LEN
    &&& data.len() != MULTISIG_LEN
    &&& is_option_tag(data, 72)
    &&& data[108] == 1 || data[108] == 2
    &&& is_option_tag(data, 109)
    &&& is_option_tag(data, 129)
    &&& data.len() > ACCOUNT_LEN ==> has_extensions_of(data, 2)
}

/// The decimals of the mint that data hold, if they hold one.
pub open spec fn mint_decimals_in(data: Seq<u8>) -> Option<u8> {
    if holds_mint(data) {
        Some(data[44])
    } else {
        None
    }
}

/// The bytes of the address of the mint of the token account that data hold, if they hold one.
pub open spec fn account_mint_bytes_in(data: Seq<u8>) -> Option<Seq<u8>> {
    if holds_account(data) {
        Some(data.take(32))
    } else {
        None
    }
}

/// No data hold both a mint and a token account.
pub proof fn mints_are_no_token_accounts(data: Seq<u8>)
    ensures
        !(holds_mint(data) && holds_account(data)),
{
}

/// Why the data of an account could not be read.
#[verifier::external_type_specification]
#[verifier::external_body]
pub struct ExProgramError(solana_sdk::program_error::ProgramError);

/// Calls `spl_token::id`, which returns the address of the token program.
#[verifier::external_body]
fn spl_token_id() -> (id: Pubkey)
    ensures
        id@ == token_program_bytes(),
{
    Pubkey { bytes: spl_token::id().to_bytes() }
}

/// Calls `spl_associated_token_account::id`, which returns the address of the associated token
/// account program.
#[verifier::external_body]
fn spl_associated_token_account_id() -> (id: Pubkey)
    ensures
        id@ == associated_token_program_bytes(),
{
    Pubkey { bytes: spl_associated_token_account::id().to_bytes() }
}

/// Calls `solana_sdk::pubkey::Pubkey::try_find_program_address` with three addresses as seeds: what
/// it finds depends on the seeds, their order and the program alone.
#[verifier::external_body]
fn try_find_program_address(
    first: &Pubkey,
    second: &Pubkey,
    third: &Pubkey,
    program_id: &Pubkey,
) -> (found: Option<(Pubkey, u8)>)
    ensures
        match found {
            Some((address, bump)) => program_address(seq![first@, second@, third@], program_id@)
                == Some((address@, bump)),
            None => program_address(seq![first@, second@, third@], program_id@) is None,
        },
{
    solana_sdk::pubkey::Pubkey::try_find_program_address(
        &[&first.bytes, &second.bytes, &third.bytes],
        &solana_sdk::pubkey::Pubkey::from(program_id.bytes),
    ).map(|(address, bump)| (Pubkey { bytes: address.to_bytes() }, bump))
}

/// Calls `spl_associated_token_account::get_associated_token_address_with_program_id`. It returns
/// the address that is found for the wallet, the token program and the mint, in this order, as
/// seeds of the associated token account program, and panics where none is found.
#[verifier::external_body]
fn get_associated_token_address_with_program_id(
    wallet: &Pubkey,
    mint: &Pubkey,
    token_program_id: &Pubkey,
) -> (address: Pubkey)
    requires
        program_address(
            seq![wallet@, token_program_id@, mint@],
            associated_token_program_bytes(),
        ) is Some,
    ensures
        Some(address@) == match program_address(
            seq![wallet@, token_program_id@, mint@],
            associated_token_program_bytes(),
        ) {
            Some((found, _)) => Some(found),
            None => None,
        },
{
    let address = spl_associated_token_account::get_associated_token_address_with_program_id(
        &solana_sdk::pubkey::Pubkey::from(wallet.bytes),
        &solana_sdk::pubkey::Pubkey::from(mint.bytes),
        &solana_sdk::pubkey::Pubkey::from(token_program_id.bytes),
    );
    Pubkey { bytes: address.to_bytes() }
}

/// Calls `spl_token_2022::extension::StateWithExtensionsOwned::<spl_token_2022::state::Mint>`'s
/// `unpack`. It succeeds exactly on the data of an initialized mint, alone or with extensions of
/// which it looks at no more than the byte that tells whose they are, and the decimals are byte 44.
#[verifier::external_body]
fn unpack_mint(data: Vec<u8>) -> (decimals: Result<u8, solana_sdk::program_error::ProgramError>)
    ensures
        match decimals {
            Ok(decimals) => mint_decimals_in(data@) == Some(decimals),
            Err(_) => mint_decimals_in(data@) is None,
        },
{
    spl_token_2022::extension::StateWithExtensionsOwned::<spl_token_2022::state::Mint>::unpack(data)
        .map(|state| state.base.decimals)
}

/// Calls `spl_token_2022::extension::StateWithExtensionsOwned::<spl_token_2022::state::Account>`'s
/// `unpack`. It succeeds exactly on the data of an initialized token account, alone or with
/// extensions of which it looks at no more than the byte that tells whose they are, and the mint's
/// address is the first 32 bytes.
#[verifier::external_body]
fn unpack_account(data: Vec<u8>) -> (mint: Result<Pubkey, solana_sdk::program_error::ProgramError>)
    ensures
        match mint {
            Ok(mint) => account_mint_bytes_in(data@) == Some(mint@),
            Err(_) => account_mint_bytes_in(data@) is None,
        },
{
    spl_token_2022::extension::StateWithExtensionsOwned::<spl_token_2022::state::Account>::unpack(
        data,
    ).map(|state| Pubkey { bytes: state.base.mint.to_bytes() })
}

/// The address of the token program.
pub open spec fn default_program() -> Pubkey {
    pubkey_with_bytes(token_program_bytes())
}

/// The address of the mint of the token account that the data of an account hold, if they hold
/// one.
pub open spec fn account_mint_in(data: Seq<u8>) -> Option<Pubkey> {
    match account_mint_bytes_in(data) {
        Some(bytes) => Some(pubkey_with_bytes(bytes)),
        None => None,
    }
}

/// The associated token account address of a wallet for a mint, if there is one.
pub open spec fn associated_address(wallet: Pubkey, mint: Pubkey, token_program: Pubkey) -> Option<
    Pubkey,
> {
    match program_address(
        seq![wallet@, token_program@, mint@],
        associated_token_program_bytes(),
    ) {
        Some((bytes, _)) => Some(pubkey_with_bytes(bytes)),
        None => None,
    }
}

/// The address of the token program.
pub fn default_program_id() -> (id: Pubkey)
    ensures
        id == default_program(),
        id@ == token_program_bytes(),
{
    let id = spl_token_id();
    proof {
        pubkey_of_own_bytes(id);
    }
    id
}

/// Whether a wallet has an associated token account address for a mint.
pub fn has_associated_token_address(
    wallet: &Pubkey,
    mint: &Pubkey,
    token_program_id: &Pubkey,
) -> (has: bool)
    ensures
        has == (associated_address(*wallet, *mint, *token_program_id) is Some),
{
    try_find_program_address(
        wallet,
        token_program_id,
        mint,
        &spl_associated_token_account_id(),
    ).is_some()
}

/// The associated token account address of a wallet for a mint.
pub fn associated_token_address(
    wallet: &Pubkey,
    mint: &Pubkey,
    token_program_id: &Pubkey,
) -> (address: Pubkey)
    requires
        associated_address(*wallet, *mint, *token_program_id) is Some,
    ensures
        Some(address) == associated_address(*wallet, *mint, *token_program_id),
{
    let address = get_associated_token_address_with_program_id(wallet, mint, token_program_id);
    proof {
        pubkey_of_own_bytes(address);
    }
    address
}

/// The decimals of the mint that the data of an account hold, if they hold one.
pub fn mint_decimals(data: Vec<u8>) -> (decimals: Option<u8>)
    ensures
        decimals == mint_decimals_in(data@),
{
    match unpack_mint(data) {
        Ok(decimals) => Some(decimals),
        Err(_) => None,
    }
}

/// The address of the mint of the token account that the data of an account hold, if they hold
/// one.
pub fn account_mint(data: Vec<u8>) -> (mint: Option<Pubkey>)
    ensures
        mint == account_mint_in(data@),
        mint matches Some(mint) ==> data@.take(32) == mint@,
{
    match unpack_account(data) {
        Ok(mint) => {
            proof {
                pubkey_of_own_bytes(mint);
            }
            Some(mint)
        },
        Err(_) => None,
    }
}

/// The token program is the one of the known bytes.
pub proof fn default_program_is_the_token_program(key: Pubkey)
    requires
        key@ == token_program_bytes(),
    ensures
        default_program() == key,
{
    pubkey_of_own_bytes(key);
}

/// A wallet has an associated token account address for a mint exactly where one is found for the
/// wallet, the token program and the mint, in this order, and it is the one that is found.
pub proof fn associated_address_is_the_one_that_is_found(
    wallet: Pubkey,
    mint: Pubkey,
    token_program: Pubkey,
    key: Pubkey,
    bump: u8,
)
    ensures
        ({
            let found = program_address(
                seq![wallet@, token_program@, mint@],
                associated_token_program_bytes(),
            );
            &&& associated_address(wallet, mint, token_program) is None <==> found is None
            &&& found == Some((key@, bump)) ==> associated_address(wallet, mint, token_program)
                == Some(key)
        }),
{
    pubkey_of_own_bytes(key);
}

/// The mint of a token account is known exactly where the data hold one, and is that of the first 32
/// bytes.
pub proof fn account_mint_is_in_the_first_bytes(data: Seq<u8>, mint: Pubkey)
    ensures
        account_mint_in(data) is Some <==> holds_account(data),
        holds_account(data) && data.take(32) == mint@ ==> account_mint_in(data) == Some(mint),
{
    pubkey_of_own_bytes(mint);
}

} // verus!
