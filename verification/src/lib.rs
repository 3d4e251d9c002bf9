//! Accounting core of a delegated-staking registry.
//!
//! Members deposit assets, stake them against validator-like entities by
//! buying pool shares at a live exchange rate, and withdraw through a
//! two-phase timelocked workflow. The ledgers enforce that value owed to
//! depositors — including funds placed by a delegating custodian — is never
//! stranded or double-spent, that stake from superseded entity generations
//! is never commingled with fresh stake, and that per-entity stake caps and
//! activation thresholds hold.
//!
//! All I/O (the host ledger, the pool service, the custody relay) stays
//! outside this crate; every function here is a pure transition on plain
//! values and carries a proved contract.

pub mod entity;
pub mod error;
pub mod generation;
pub mod instruction;
pub mod keys;
pub mod member;
pub mod pending_withdrawal;
pub mod pool;
pub mod registrar;
pub mod relay;
pub mod stake;
pub mod withdrawal;
