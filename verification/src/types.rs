//! The data a settlement call works on: identities, the request, the computed
//! split, the planned transfers, and the audit record.

use vstd::prelude::*;

verus! {

/// A 32-byte account address, held as four 64-bit words. Identities are
/// opaque to the settlement logic: they are only stored and compared.
#[derive(Clone, Copy, Debug, PartialEq, Eq, Structural)]
pub struct AccountId {
    pub w0: u64,
    pub w1: u64,
    pub w2: u64,
    pub w3: u64,
}

/// The currency a settlement moved, as reported in the audit record.
#[derive(Clone, Copy, Debug, PartialEq, Eq, Structural)]
pub enum CurrencyType {
    SOL,
    SPL,
}

/// Which transfer mechanics a request selects: the native currency, or a
/// fungible token named by its mint.
///
/// For a token, the request also carries the recorded owner and mint of the
/// payer's holding account, so that the settlement can check they match the
/// payer and the requested asset before any funds move.
#[derive(Clone, Copy, Debug, PartialEq, Eq, Structural)]
pub enum AssetSelector {
    Native,
    Token {
        /// The asset (mint) identity; must be in the configured allowlist.
        mint: AccountId,
        /// The asset's native decimal precision, reported in the record.
        decimals: u8,
        /// Recorded owner of the payer's holding account for this asset.
        source_owner: AccountId,
        /// Recorded mint of the payer's holding account for this asset.
        source_mint: AccountId,
    },
}

/// The sequence marker and timestamp under which a settlement is recorded,
/// read from the hosting runtime's clock before the call.
#[derive(Clone, Copy, Debug, PartialEq, Eq, Structural)]
pub struct ClockInfo {
    pub slot: u64,
    pub unix_timestamp: i64,
}

/// One settlement request. Immutable once constructed; consumed by one call.
#[derive(Clone, Debug, PartialEq, Eq)]
pub struct PurchaseRequest {
    pub content_id: String,
    pub purchase_id: String,
    /// The amount to split, in the asset's smallest unit.
    pub amount: u64,
    /// Platform fee rate in basis points.
    pub fee_bps: u16,
    /// Referrer fee rate in basis points; 0 when no referrer takes a share.
    pub referrer_fee_bps: u16,
    pub buyer: AccountId,
    pub creator: AccountId,
    pub platform: AccountId,
    /// The optional referrer. When absent, no referrer share is paid even if
    /// `referrer_fee_bps` is positive.
    pub referrer: Option<AccountId>,
    pub asset: AssetSelector,
}

/// The three shares an accepted amount is split into. For every accepted
/// request the shares sum back to the amount exactly.
#[derive(Clone, Copy, Debug, PartialEq, Eq, Structural)]
pub struct Split {
    pub referrer_amount: u64,
    pub platform_amount: u64,
    pub creator_amount: u64,
}

/// One planned movement of funds between two identities.
#[derive(Clone, Copy, Debug, PartialEq, Eq, Structural)]
pub struct Transfer {
    pub from: AccountId,
    pub to: AccountId,
    pub amount: u64,
}

/// The immutable audit record of one successful settlement: the sole
/// externally observable trace of the call.
#[verifier::ext_equal]
#[derive(Clone, Debug, PartialEq, Eq)]
pub struct PurchaseEvent {
    pub content_id: String,
    pub purchase_id: String,
    pub buyer: AccountId,
    pub creator: AccountId,
    pub platform: AccountId,
    pub referrer: Option<AccountId>,
    /// The token mint; absent for the native currency.
    pub mint: Option<AccountId>,
    pub currency_type: CurrencyType,
    pub decimals: u8,
    pub amount: u64,
    pub creator_amount: u64,
    pub platform_fee: u64,
    pub referrer_fee: u64,
    pub fee_bps: u16,
    /// The referrer rate that was applied: 0 when no referrer was supplied.
    pub referrer_fee_bps: u16,
    pub slot: u64,
    pub timestamp: i64,
}

/// What an accepted settlement asks the runtime to do: the transfers, in the
/// exact order they must be issued, and the record to append afterwards.
#[verifier::ext_equal]
#[derive(Clone, Debug, PartialEq, Eq)]
pub struct SettlementPlan {
    pub transfers: Vec<Transfer>,
    pub event: PurchaseEvent,
}

} // verus!
