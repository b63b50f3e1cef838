//! A deterministic state-transition engine for a creator-token bonding-curve
//! exchange. Account records supplied by the host ledger runtime are
//! validated, program-controlled signing authorities are derived, and balance
//! changes are computed according to a cubic-integral pricing curve.

pub mod codec;
pub mod error;
pub mod instruction;
pub mod pricing;
pub mod processor;
pub mod state;
