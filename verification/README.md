# stepfi

Verified core of the StepFi buy-now-pay-later protocol, written in Verus.

- `src/` is the library. Each module is one contract's state machine:
  `creditline` (loans, repayment waterfall, late fees, defaults),
  `liquidity_pool` (shares, funding caps, interest split, timelocked
  upgrades), `parameters` (multisig governance of protocol parameters),
  `reputation` (scores 0..=100), `vendor_registry` (vendor approval) and
  `vouching` (mentor boosts clamped to a baseline). Entry points take the
  values read from the ledger and from other contracts as arguments and
  return the transfers and calls to carry out; a refused call leaves the
  state untouched.
- `app/` wraps each module as a Soroban contract: authentication, storage,
  cross-contract calls, token transfers and events. Stored state is rebuilt
  through the library's `restore_*` functions, which check each record
  against the module's invariant.
- `tests/` exercises the library directly.
