# deploy_execution

Turns the executable part of a deploy into what is to be executed: a Wasm module, or a stored
contract with an entry point. A stored contract may be given by its hash, by a named key, or as a
version of a contract package; without a version the newest enabled one is meant. The crate also
holds the fetcher of legacy deploys, which never stores what it has fetched.

- `src/types.rs`, `src/error.rs`: the values and errors.
- `src/package.rs`: what a contract package holds, and which of its versions is current.
- `src/execution_kind.rs`: the resolution of deploy items. `ExecutionKind::new` does all of it;
  `begin` and `finish` are its parts before and after a contract package is read.
- `src/laws.rs`: what holds of the resolution as a whole.
- `src/fetcher.rs`: the fetcher of legacy deploys.
- `src/casper.rs`: the named keys and contract packages of `casper_types`. This module alone is
  trusted and not proved.
- `app/`: reads contract packages from global state and legacy deploys from storage.
