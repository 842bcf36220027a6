# community

The logic of the community contract, verified with Verus.

- `src/string_map.rs`: maps from text keys, kept as pairs with distinct keys.
- `src/storage.rs`: the contract's key-value store as the logic sees it.
- `src/json.rs`: the JSON encoding and decoding done by `serde_json`.
- `src/registry.rs`: the registry of applications (access control, token,
  voting, community) kept as JSON in the store; lookups, registration and
  removal, with read-back guarantees.
- `src/permissions.rs`: the permissions handed to the access-control
  application when the community is set up.
- `src/calls.rs`: the messages sent to the other applications.
- `src/contract.rs`: the `invoke` entry point as a state machine from phase
  and event to next phase, answers and outside work.
- `src/flat.rs`: a registry written with one store entry per application.
- `app/lib.rs`: the chain entry points, which read the request, load and save
  the store, call other contracts and answer through the chain's contract kit.
