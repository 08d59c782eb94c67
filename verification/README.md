# penumbra

Verified core of a shielded-ledger client, written in Verus.

- `src/asset.rs`, `src/value.rs`, `src/transaction.rs`: asset identifiers, values and
  transaction fees, with their wire forms and the fee's authorizing hash.
- `src/dex.rs`: liquidity positions, their identifiers and states, with their wire forms.
- `src/block.rs`: the block builder of the commitment tree.
- `src/command.rs`, `src/sync.rs`: which commands need a sync, and the sync's progress.
- `src/hash.rs`, `src/bech32str.rs`: the trusted items: the BLAKE2b, field-reduction and
  Bech32 calls, with the names of their results.
- `src/proto.rs`, `src/bytes.rs`, `src/error.rs`: wire messages, byte encodings, errors.
- `app/`: clap forms of the commands and `anyhow` glue.

Fees and values are plain amounts here: committing to a value and formatting an amount by
its denomination need the group arithmetic and the denomination registry, which this crate
does not hold.
