# naim

A registry of agent names on Solana, with its rules verified in Verus.

Names are registered, renewed, transferred and released; every fee is paid in
$NAIM and split between the treasury, the stakers and a burn. Stakers share in
the fees and register at a discount. Names are sold on a marketplace, grouped
under categories whose owners earn a royalty, and promoted by burning $NAIM.

- `src/` is the library. An instruction is a function from the accounts it names
  to their new state and a list of actions; its contract says when it is refused,
  with which error, and what it does otherwise. The `law_` functions state what
  holds across instructions.
- `tests/` runs the library on concrete values.
- `app/` is the Anchor program: it reads accounts, asks the library, performs the
  actions and stores the records.

One function is trusted: the call of `solana_sha256_hasher::hash` in
`src/digest.rs`.
