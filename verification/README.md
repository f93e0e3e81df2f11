# leaseflow

A lease-management protocol whose decisions are proved correct with Verus.

- `src/` is the verified library. Every operation on a lease is a function from
  plain values (the lease, the caller, the time, what the ledger holds) to a
  result and a new lease, with a contract that states exactly what it returns
  and changes. Its modules:
  - `math`, `proration`, `division`: rent and deposit arithmetic, first-month
    proration over the civil calendar, division safety;
  - `types`, `contract`: the lease model and the contract's operations
    (creation, rent, buyouts, disputes, mutual release, late fees, oracle
    deposit slashing, escrow yield);
  - `escrow`, `solvency`: escrow accounting whose components always sum to
    the escrowed total, which the vault records;
  - `storage`, `monitor`: pruning of finished leases, legal holds, tombstones
    and storage reports;
  - `access_token`, `iot`: lessee access tokens and the devices that check them;
  - `nft`, `router`, `dex`: lessor-rights tokens, rent routing to their holder
    and a market for them.
- `app/` is the Soroban contract around the library: storage, authorization,
  token and NFT transfers, events, and the few figures computed in floating
  point.
- `tests/` runs the library on concrete scenarios and random inputs.
