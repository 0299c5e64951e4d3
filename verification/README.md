# InheritX contracts, verified

Three ledger contracts, written in Verus and proved against their contracts:

- **Inheritance** (`src/inheritance/`): plans that hold tokens for beneficiaries, claims by
  email and claim code, emergency access, triggers, wills and witnesses, messages, disputes,
  notices, and the yield that a plan earns in the lending pool.
- **Lending** (`src/lending/`): asset pools with shares, collateralised loans, late fees,
  liquidation, refinancing, staking rewards, loan insurance, flash loans, and the positions
  of plans that earn yield.
- **Loan tokens** (`src/nft.rs`): one token per loan, locked until it may move.

## How a contract is modelled

A contract is a value. Each of its functions takes the invocation (`host::Env`: the ledger
time, the contract's own address, and who has authorised the call) and, where the contract
depends on another one, what that one answered: whether tokens moved, a balance, a random
salt. Events and calls to other contracts are appended to the lists `events` and `calls`.

Each function of a contract has two spec functions over the view of the contract: one that
gives the first reason why the call is refused, if there is one, and one that gives the
contract after a call that goes through. A call that is refused leaves the contract as it
was, as the ledger rolls a failed invocation back. What would abort an invocation outright
(a paused contract, a missing authorisation, a sum that leaves its type) is a precondition.

Laws that relate several functions are public proof functions named `law_…`; each stands in
the module of the functions it speaks of.

## What is trusted

One function: `sha256` in `src/inheritance/hashing.rs`, which calls the SHA-256 of the
`soroban-sdk` crate. All that is claimed of it is that the digest is a function of the bytes.

## Layout

- `src/host.rs`, `src/access.rs`, `src/math.rs`, `src/table.rs`, `src/list.rs`: addresses and
  invocations, roles and pausing, arithmetic, maps and lists.
- `src/nft.rs`, `src/lending/`, `src/inheritance/`: the contracts.
- `tests/`: scenarios for each contract.
- `app/`: the ledger side: the entry points of the contracts, storage, authorisations,
  tokens, events, and other contracts.
