# soroban_contracts

Three Soroban contract templates (token, escrow, multisig) written as
verified Rust with Verus.

- `src/` holds the contracts' logic. Each contract is modelled by its
  storage (`TokenContract`, `EscrowContract`, `MultisigContract`); every call
  returns an `Outcome` that names the authorization the call demands and
  either the refusal or the result, with payments to make as `Transfer`
  values. Contracts are stated over `Map`/`Seq` views of the storage, and the
  `law_*` proof functions state what holds across calls.
- `app/` is the Soroban contract crate: it loads storage into the models,
  demands authorization, makes token transfers, writes storage back and
  publishes events.
- `tests/` runs the contracts' scenarios on the models.

Verify with Verus on `src/lib.rs`.
