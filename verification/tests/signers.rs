use std::sync::Arc;
use token_cli_config::args::ArgMatches;
use token_cli_config::config::Config;
use token_cli_config::pubkey::Pubkey;
use token_cli_config::setup::{signers_of, SignersOf};
use token_cli_config::signer::{sort_by_address, LoadedSigner, SignerRequest};

fn signer(id: u64, address: u8) -> LoadedSigner<u64> {
    LoadedSigner { signer: Arc::new(id), pubkey: Pubkey { bytes: [address; 32] } }
}

fn ids(signers: &[LoadedSigner<u64>]) -> Vec<u64> {
    signers.iter().map(|one| *one.signer).collect()
}

#[test]
fn signers_are_sorted_by_address_and_keep_their_order_within_one() {
    let sorted = sort_by_address(&vec![
        signer(1, 7),
        signer(2, 3),
        signer(3, 7),
        signer(4, 1),
        signer(5, 3),
    ]);
    assert_eq!(ids(&sorted), vec![4, 2, 5, 1, 3]);
    assert!(sort_by_address(&Vec::<LoadedSigner<u64>>::new()).is_empty());
}

#[test]
fn multisig_signers_are_added_behind_those_that_there_are() {
    let mut bulk = vec![Arc::new(100u64)];
    let mut members = vec![Pubkey { bytes: [9; 32] }];
    let all = Config::extract_multisig_signers(
        Some(vec![signer(1, 8), signer(2, 4)]),
        &mut bulk,
        &mut members,
    );
    assert_eq!(bulk.iter().map(|one| **one).collect::<Vec<u64>>(), vec![100, 2, 1]);
    assert_eq!(
        members,
        vec![
            Pubkey { bytes: [9; 32] },
            Pubkey { bytes: [4; 32] },
            Pubkey { bytes: [8; 32] },
        ]
    );
    assert_eq!(all, members);
}

#[test]
fn without_multisig_signers_nothing_is_added() {
    let mut bulk: Vec<Arc<u64>> = Vec::new();
    let mut members = vec![Pubkey { bytes: [9; 32] }];
    for none in [None, Some(Vec::new())] {
        let all = Config::extract_multisig_signers(none, &mut bulk, &mut members);
        assert!(bulk.is_empty());
        assert_eq!(members, vec![Pubkey { bytes: [9; 32] }]);
        assert_eq!(all, members);
    }
}

fn next(matches: &ArgMatches, loaded: u64) -> Option<SignerRequest> {
    let loaded = (0..loaded).map(|id| signer(id, 1)).collect();
    match signers_of(matches, "multisig_signer", loaded) {
        SignersOf::Next { request, .. } => Some(request),
        SignersOf::All(_) => None,
    }
}

#[test]
fn signers_of_an_argument_are_numbered_from_one() {
    let values: Vec<String> = (0..11).map(|i| format!("path{}", i)).collect();
    let matches = ArgMatches::new().with_arg("multisig_signer".to_string(), values);
    let first = next(&matches, 0).unwrap();
    assert_eq!(first.path, "path0");
    assert_eq!(first.keypair_name, "multisig_signer-1");
    assert!(!first.allow_null_signer);
    let last = next(&matches, 10).unwrap();
    assert_eq!(last.path, "path10");
    assert_eq!(last.keypair_name, "multisig_signer-11");
    assert!(next(&matches, 11).is_none());
    assert!(next(&ArgMatches::new(), 0).is_none());
}
