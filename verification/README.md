# Smart wallet

A Solana wallet that a set of owners governs together, with time locks. `src/` is the verified
library: it decides every request. `app/` is the on-chain program around it: it reads accounts and
the clock, hands them to the library as plain values, stores what comes back, and invokes the
instructions that the library asks for.

- `smart_wallet.rs`: the requests.
- `accounts.rs`: the accounts of each request, and the rules on who may make it and when.
- `execution.rs`: the execution of a transaction, step by step.
- `seeds.rs`: the addresses that a wallet signs for.
- `state.rs`, `events.rs`, `error.rs`, `pubkey.rs`: the data.
- `laws/`: what holds of the wallet as a whole.

Two things are taken on trust: that the creation of a program's derived address and the search for one
in `solana_program` depend on the seeds and the program alone, and that an address that is found is the
one that is created with its bump seed.
