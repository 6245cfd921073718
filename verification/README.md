# solana_amm

A constant-product automated market maker (x · y = k, 0.3% LP fee) whose pool logic is
verified with Verus.

- `src/` — the verified library:
  - `math.rs`: the stand-alone pool formulas (`calculate_swap_output` with a fee in basis
    points, `calculate_deposit_shares`) and the rounded-down integer square root;
  - `instructions.rs`: what each instruction decides (`initialize_pool`,
    `deposit_liquidity`, `withdraw_liquidity`, `swap`), as plans of token movements or errors.
    Each refuses accounts that are not the pool's, and reports an amount beyond 64 bits or a
    division by zero as an error rather than wrapping or panicking;
  - `accounts.rs`, `state.rs`, `key.rs`: the account data the logic reads, and the vault
    constraints of the instructions;
  - `laws.rs`: the properties that span operations — the product of the reserves never
    shrinks in a swap, deposits and withdrawals round in the pool's favour, a deposit
    withdrawn again never returns more than was put in.
- `app/` — the on-chain program: Anchor account validation, token transfers, minting and
  burning, which carry out the plans that the library computes.
- `tests/` — tests of the library on concrete values.
