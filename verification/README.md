# basset_vault

Verified state handling and loan-rebalancing rules of the Nexus bAsset
farmer and vault contracts, with the querier helpers they share.

- `src/bignum.rs`: 256-bit integers and 18-digit decimals, computed by
  `cosmwasm_bignumber` and specified by their values.
- `src/querier.rs`: raw storage keys of cw20 tokens and Anchor custody,
  the oracle price freshness check, and the query message types.
- `src/farmer/`: the farmer's storage items and its config and rebalance
  queries, including Anchor's maximal borrow factor check.
- `src/vault/`: the vault's storage items.
- `app/`: the chain side: reading and writing items in contract storage,
  querying other contracts, and the serde forms of the types.
