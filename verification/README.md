# nibiru_hack

A constant-product exchange on CosmWasm: a factory that creates one pair
contract per pair of assets, and pair contracts that swap, take deposits and
pay out withdrawals against their reserves.

- `src/` is the verified library (Verus). `token` holds the assets a pair
  trades; `math` the fee, swap and share arithmetic; `pair` the pair
  contract's rules and the transfers it asks for; `factory` the pair
  identifiers, the refusal of an existing pair and the registration of a new
  one; `router` the router's configuration; `laws` properties of the
  arithmetic across operations.
- `app/` holds the contract entry points: storage, balance queries, message
  serialization, and the CW20 token calls, around the library's decisions.
- `tests/` runs the library on the scenarios of the contracts' integration
  tests and on edge cases.
