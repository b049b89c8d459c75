//! The error taxonomy of a settlement call. Every failure is terminal for the
//! call: nothing is retried, and a failed call moves no funds.

use vstd::prelude::*;

verus! {

/// Why a settlement call was rejected or aborted.
#[derive(Clone, Copy, Debug, PartialEq, Eq, Structural)]
pub enum ErrorCode {
    /// A fee computation left the 64-bit range.
    Overflow,
    /// The computed shares would exceed the amount being split.
    Underflow,
    /// The ledger reported failure for a transfer.
    TransferFailed,
    /// The payer's token holding account is not owned by the payer.
    InvalidTokenOwner,
    /// The payer's token holding account holds a different asset.
    InvalidTokenMint,
    /// The requested token is not in the configured allowlist.
    UnsupportedSplToken,
    /// A fee rate exceeds its configured maximum.
    FeeBpsExceedsMaximum,
}

} // verus!
