//! A digital-goods marketplace ledger.
//!
//! Sellers publish items with a title, a genre and a price; buyers pay once
//! and receive a recorded, non-duplicable entitlement. Each purchase splits
//! the price into a platform fee, retained by the marketplace, and a seller
//! fee, scheduled as a transfer to the publisher; an overpayment is scheduled
//! as a refund to the buyer, strictly after the seller payout.
//!
//! The marketplace state is an explicit value handed to every operation,
//! together with a call context describing who calls, on whose behalf the
//! marketplace runs, at what time, and with how much attached value. The
//! surrounding runtime supplies the context and executes the scheduled
//! transfers after the call commits.

pub mod errors;
pub mod laws;
pub mod payment;
pub mod store;
pub mod validate;
