# multidistribute

A verified library for token collections with proportional reward
distributions, written in Verus.

An authority opens a collection of one token, capped at that token's supply,
and registers up to twenty distributions of other tokens to it. Anyone may add
tokens to a distribution. A user commits tokens to the collection (they are
burned or kept in the collection vault), receives as many replacement tokens,
and is paid from every registered distribution `amount * deposited / cap`,
rounded down. The user must give the collection's terms hash.

Each instruction is a function from the accounts it reads, as plain values, to
the token calls to make (in order) and the account states to store, or to the
error it is refused with together with the calls made before the refusing check.

- `src/key.rs` - account addresses
- `src/state.rs` - collection and distribution state, error codes
- `src/accounts.rs` - the accounts of each instruction and their rules
- `src/token.rs` - token calls and program-derived signer seeds
- `src/share.rs` - the share formula and its arithmetic laws
- `src/instructions.rs` - collection and distribution set-up, withdrawal, deposits
- `src/claim.rs` - committing and claiming
- `src/laws.rs` - how a collection may change over instructions, and solvency of distributions
- `app/lib.rs` - the Anchor program that reads accounts, performs the calls and stores the states
