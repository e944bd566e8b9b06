//! A per-owner custodial vault with deterministically derived sub-accounts.
//!
//! Each owner identity gets two derived locations: a state record (the
//! ledger) and a holding account. Both are reachable by recomputing a
//! hash-based address from a fixed domain tag, the seed material, and a
//! one-byte disambiguator that is searched for once and then cached.
//! The ledger tracks how much value the holding account contains above
//! its mandatory minimum reserve, and deposits and withdrawals keep that
//! tracked amount exactly in step with the balances they move.

pub mod derivation;
pub mod engine;
pub mod errors;
pub mod state;
pub mod vault;
