# podcast_dapp

The verified core of a small Internet Computer podcast platform made of three
canisters:

- `src/manager`: the manager canister's registry (podcast canisters per user,
  canisters awaiting an upgrade, payment sub-accounts and their ledger
  account text), and the steps of its multi-call flows (upgrade a podcast
  canister, make one after payment, owner check before stop/start).
- `src/podcast`: the podcast canister's owners and administrator, base
  information, episodes and social links.
- `src/ndp`: the NDP canister's stakes, site registries and set-up record, the minimum stake,
  and the steps of taking NDP tokens from a caller.
- `src/principal.rs`, `src/principal_map.rs`: principals as bytes, and maps
  keyed by principals.

`app/` holds the canister endpoints: state in thread-locals, the calls to the
ledger, the management canister and the token canister, the interface types
with their Candid and serde derives, and the state kept across upgrades.
