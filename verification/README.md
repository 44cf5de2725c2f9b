# apexchainx_calculator

A deterministic SLA calculator for outage repair times, verified with Verus.

Given a severity's configuration (threshold, penalty per minute, reward base)
and a measured repair time, it decides whether the SLA was met, the reward or
penalty owed and a rating. Around that core it keeps the contract's state:
admin and operator roles with two-step hand-over and an irreversible
renounce, a pause switch with its reason, validated per-severity
configuration with a fingerprint, cumulative statistics, and a prunable
history of results.

Layout:

- `src/types.rs` – plain data types (accounts, severities, configs, results).
- `src/calc.rs` – reward and penalty arithmetic, with its monotonicity laws.
- `src/validation.rs` – configuration bounds.
- `src/hash.rs` – the configuration fingerprint (64-bit FNV-1a).
- `src/storage.rs` – the storage model, the ledger view a call sees, and the
  checks that guard every call.
- `src/events.rs` – the events calls publish.
- `src/contract.rs` – the entry points, each with its exact contract.
- `src/laws.rs` – properties relating several calls.
- `app/` – the Soroban contract: loads instance storage into the library's
  `ContractEnv`, runs the verified call, writes the storage back and
  publishes the events.

On the ledger the contract keeps its configuration in a host `Map` and its
history in a host `Vec`. Those collections exist only inside a running
Soroban host (`Env`) and hold `contracttype` values, so the library models
them with plain values instead: a `ConfigTable` with one entry per severity
and a std `Vec` of results. `app/` converts between the two at the storage
edge; it is the only part that uses `soroban-sdk`.
