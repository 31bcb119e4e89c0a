# learn_protocol

Verified decision logic of a learning platform's three on-chain contracts.

- `src/` (Verus): `badge_nft` (soulbound course badges minted by a registry),
  `stake_vault` (stake-graded reward multipliers, admin-only code upgrades),
  `governance` (one badge-weighted vote per account and proposal; execution
  after the voting period with a strict majority). Each contract has a view of
  its storage, spec transitions over it, exec operations proved to refine them,
  and proof functions stating its laws. `address` and `table` hold identities
  and the identity-keyed table; `access` the once-only admin slot.
- `app/`: the contracts on the Soroban host. They read storage, ledger time and
  authorisation, call the library, and write back and publish what it decided.
- `tests/`: the library's tests.
