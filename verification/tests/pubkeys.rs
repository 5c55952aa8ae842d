use token_cli_config::pubkey::{Blockhash, Pubkey};

fn key(first: u8, last: u8) -> Pubkey {
    let mut bytes = [0u8; 32];
    bytes[0] = first;
    bytes[31] = last;
    Pubkey { bytes }
}

#[test]
fn an_address_is_written_and_read_in_base_58() {
    let zero = Pubkey::zero();
    assert_eq!(zero.text(), "11111111111111111111111111111111");
    assert_eq!(Pubkey::parse("11111111111111111111111111111111"), Some(zero));
    let text = "TokenkegQfeZyiNwAJbNbGKPFXCWuBvf9Ss623VQ5DA";
    let token = Pubkey::parse(text).unwrap();
    assert_eq!(token.bytes[0], 6);
    assert_eq!(token.bytes[31], 169);
    assert_eq!(token.text(), text);
}

#[test]
fn what_is_no_address_is_not_read() {
    assert_eq!(Pubkey::parse(""), None);
    assert_eq!(Pubkey::parse("1111111111111111111111111111111"), None);
    assert_eq!(Pubkey::parse("0OIl"), None);
    assert_eq!(Pubkey::parse("111111111111111111111111111111111111111111111"), None);
}

#[test]
fn a_block_hash_is_read_in_base_58() {
    let hash = solana_sdk::hash::hash(b"block");
    assert_eq!(Blockhash::parse(&hash.to_string()), Some(Blockhash { bytes: hash.to_bytes() }));
    assert_eq!(
        Blockhash::parse("11111111111111111111111111111111"),
        Some(Blockhash::zero())
    );
    assert_eq!(Blockhash::parse("block"), None);
}

#[test]
fn the_first_byte_that_differs_decides_the_order() {
    assert!(key(1, 9).precedes(&key(2, 0)));
    assert!(!key(2, 0).precedes(&key(1, 9)));
    assert!(key(1, 0).precedes(&key(1, 1)));
    assert!(!key(1, 1).precedes(&key(1, 1)));
    assert!(key(127, 0).precedes(&key(128, 0)));
}

#[test]
fn addresses_are_ordered_as_the_sdk_orders_them() {
    let mut keys = Vec::new();
    for i in 0u8..20 {
        keys.push(solana_sdk::hash::hash(&[i]).to_bytes());
    }
    for a in &keys {
        for b in &keys {
            let before = solana_sdk::pubkey::Pubkey::from(*a) < solana_sdk::pubkey::Pubkey::from(*b);
            assert_eq!(Pubkey { bytes: *a }.precedes(&Pubkey { bytes: *b }), before);
            assert_eq!(Pubkey { bytes: *a } == Pubkey { bytes: *b }, a == b);
        }
    }
}
