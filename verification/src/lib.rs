//! An escrow ledger that settles a custodied asset against off-ledger fiat.
//!
//! A payer puts asset units in escrow for a merchant. The merchant accepts,
//! which locks an exchange rate and releases the units to the
//! administrator, or rejects, which refunds the payer. The administrator
//! marks an accepted payment as paid once the fiat was delivered. Merchants
//! publish their bank details as commitments.
//!
//! - [`primitives`]: identities, 256-bit quantities, digests
//! - [`digest`]: commitments to plaintext
//! - [`payment`], [`merchant`]: one record each, and its rules
//! - [`effects`]: custody movements and audit entries
//! - [`model`]: the ledger as a mathematical state with its transitions
//! - [`ledger`]: the executable ledger
//! - [`laws`]: what holds over every history of operations

pub mod address_map;
pub mod digest;
pub mod effects;
pub mod error;
pub mod laws;
pub mod ledger;
pub mod merchant;
pub mod model;
pub mod payment;
pub mod primitives;
