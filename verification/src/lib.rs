//! Settlement of a single content purchase: the payer's funds are split among
//! the content creator, the platform, and an optional referrer according to
//! fee rates in basis points, and the settlement is described by an immutable
//! audit record.
//!
//! The library is pure: it validates a request, computes the split, and lays
//! out the ordered transfers and the audit record as plain values. Performing
//! the transfers and emitting the record are left to the hosting runtime.

pub mod constants;
pub mod errors;
pub mod fees;
pub mod settlement;
pub mod types;
