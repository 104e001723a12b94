# htlc

Hash time-locked contracts behind a taproot output with two leaves. The receiver spends one leaf
with the preimage of the payment hash, the sender the other after a relative timeout. The internal
key is a point that nobody knows the discrete logarithm of.

- `src/` is the library, verified with Verus: the contract and its address (`contract`, `taproot`,
  `address`), the transactions that spend it (`spending`, `transaction`), the witness stack
  (`witness_building`, `witness`), the signed message (`sighash`), and what holds of all of it
  (`laws`, `alike`).
- `app/` offers terms, addresses and spends in the types of the `bitcoin` crate, and prints messages
  and transactions as they are made.
- `tests/` runs the library against the `bitcoin` crate.

Two traits are for users to implement: `HtlcScripts` writes the leaves, `SignatureBuilder` finds the
signature that the covenant in a leaf accepts. The library promises nothing about either; its
contracts say what comes out for every answer.
