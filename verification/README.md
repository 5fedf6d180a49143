# hashed_pallets

Verified models of a set of Substrate pallets: the weight functions of the
role-based access control pallet, fund-admin records, fruniques (fractional
NFTs), the proxy project registry, the afloat marketplace entry points and
the fixtures their benchmarks and tests build.

Each pallet is a module under `src/`. The storage of the records, fruniques
and proxy pallets is a struct whose view is a state of maps (`FruniquesState`,
`ProxyState`, ...); each of their public operations states, over that view,
the new state and the error it returns on each input. Work that other
pallets do (uniques, role-based access control) is handed back as the list
of calls made, and the answers to those calls are handed in as arguments:
the first refused call ends the operation with its error, and the state
changes only once every call succeeded.

The afloat module holds only the storage items that a wipe touches
(`AfloatStorage`); its other entry points check origin and rights and hand
back their steps, and `run_steps` states how a call ends from the outcomes
of its steps.

Laws that span several operations are public proof functions, in
`src/fund_admin_records.rs`, `src/fruniques.rs` and `src/proxy_laws.rs`.

SCALE encoding (parity-scale-codec), Blake2 hashing (sp-io) and `Permill`
arithmetic (sp-runtime) are called through the `external_body` wrappers of
`src/codec.rs` and `src/per_things.rs`.
