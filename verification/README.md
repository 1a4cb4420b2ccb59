# sweat_claim

The logic of a NEAR contract that holds tokens for accounts until they claim
them. Unclaimed balances evaporate linearly over a burn period; evaporated
tokens are collected and burnt at the token contract.

- `src/` — the verified library: account records and their evaporation
  (`account_record`, `model`), the persistent account map (`store`), the
  contract state and its operations (`contract`, `record`, `claim`, `burn`,
  `clean`, `migration`), the stored outcomes that tests use for simulated
  outside calls (`test_data`), and properties that span operations (`laws`).
- `app/` — the NEAR contract around it: state layout, access control,
  block time, cross-contract calls and their callbacks, JSON views and logs.
- `tests/` — tests of the library on concrete values.
