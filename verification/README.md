# token_cli_config

The configuration of a token command line session, verified with Verus.

A session is set up from the command line arguments, the settings that the user keeps, the signers
that can be loaded and, where transactions are sent, the accounts on the network. The library
decides all of it and does no input or output of its own: it says what has to be asked next, takes
the reply and goes on, until the configuration is there or something stands in the way. The
configuration then answers what commands ask of it: which signer to use, whether a mint or a token
account is the expected one, which token account belongs to an owner.

## Layout

- `src/args.rs`: the arguments that were given.
- `src/cli_config.rs`: the settings that a user keeps, and the connection that comes of them.
- `src/protocol.rs`: the questions that the library asks and the replies to them.
- `src/setup.rs`: setting up a configuration, question by question.
- `src/setup_outcome.rs`: what comes of it, stated as a whole, and the laws that hold of it.
- `src/config.rs`: the configuration, what can be asked of it, and its laws.
- `src/address_lookup.rs`: looking up a token account, question by question.
- `src/signer.rs`: signers, and the order of those of a multisig account.
- `src/pubkey.rs`, `src/urls.rs`, `src/programs.rs`: addresses and hashes, URLs, and the token
  programs. The calls into other crates stand here.
- `src/error.rs`, `src/text.rs`: errors and how they are said, and decimal numbers.
- `tests/`: tests of all of it on concrete values.
- `app/`: the session with its files, wallets, network clients and process.

## Dependencies

`src/` calls `solana-clap-utils`, `solana-cli-config`, `solana-sdk`, `spl-associated-token-account`,
`spl-token`, `spl-token-2022` and `url`. `clap`, `dirs-next` and `solana-remote-wallet` serve `app/`.
Nothing calls `spl-memo`: its line holds a dependency of `spl-token-2022` to the version that goes
with the same `solana-program` as all the others. `app/` also needs `solana-cli-output`,
`solana-client` and `spl-token-client`.

## What is trusted

Verus believes the contracts of the functions marked `external_body` in `pubkey.rs`, `urls.rs` and
`programs.rs`. Each calls one function of another crate and says above it what is claimed of it.
