# token_metadata

A Verus-verified core for two Solana programs: the Metaplex token-metadata program (NFT
metadata, master and print editions, collections, uses) and the token-fuser program.

Every instruction handler takes plain copies of the accounts it is given and returns either an
error or the list of effects the runtime must carry out (account creations, writes, calls into
the token program or the metadata program, lamport transfers, zeroing). Each handler's result is
proved equal to a specification function that states the instruction's checks and effects.

## Layout

- `src/` — the verified library.
  - `pubkey`, `state`, `error`, `ids`: addresses, records, errors and well-known addresses.
  - `codec`, `decode`, `encode`, `records`: the byte layout of every record, with proofs that a
    written record reads back as itself.
  - `account`, `cpi`: what handlers see of accounts, and the effects they ask for.
  - `checks`, `rules`: the account checks and the rules on data, uses and collections.
  - `metadata_ix`, `create_ix`, `collection_ix`, `use_ix`, `burn_ix`, `edition_ix`: the
    instruction handlers; `instruction`: decoding instruction data and dispatching.
  - `fuser`: the token-fuser program's instructions.
  - `runtime`: what the accounts hold after an instruction's writes, zeroing and lamport
    moves, as a specification and as a verified function that carries them out (the entry
    point in `app/` uses it).
  - `laws`: properties of the rules and record formats that the handlers are built from.
  - `handler_laws`: properties of whole instructions run one after another on the accounts
    the first one leaves (verifying twice, padding twice, signing then removing a signature,
    the one-way flags of an update, verifying then unverifying a sized item, approving then
    revoking a use authority, where a token burned on use also needs what the token program's
    approval and revocation leave in the token account).
  - `outside`: the trusted calls into the standard library, the Solana program library and
    the token program, each with the contract this library relies on.
- `tests/` — tests on concrete accounts.
- `app/` — the on-chain glue: the metadata program's entry point that applies effects, the
  fuser as an Anchor program, and the error type with its messages.
