use software_tool::errors::ErrorCode;
use software_tool::settlement::{settle, FeeSchedule};
use software_tool::types::{AccountId, AssetSelector, ClockInfo, CurrencyType, PurchaseRequest};

fn id(n: u64) -> AccountId {
    AccountId { w0: n, w1: 0, w2: 0, w3: 0 }
}

fn clock() -> ClockInfo {
    ClockInfo { slot: 42, unix_timestamp: 1_700_000_000 }
}

fn native_request(
    amount: u64,
    fee_bps: u16,
    referrer_fee_bps: u16,
    referrer: Option<AccountId>,
) -> PurchaseRequest {
    PurchaseRequest {
        content_id: String::from("content-1"),
        purchase_id: String::from("purchase-1"),
        amount,
        fee_bps,
        referrer_fee_bps,
        buyer: id(1),
        creator: id(2),
        platform: id(3),
        referrer,
        asset: AssetSelector::Native,
    }
}

fn token_request(amount: u64, fee_bps: u16, mint: AccountId, source_owner: AccountId, source_mint: AccountId) -> PurchaseRequest {
    PurchaseRequest {
        content_id: String::from("content-2"),
        purchase_id: String::from("purchase-2"),
        amount,
        fee_bps,
        referrer_fee_bps: 0,
        buyer: id(1),
        creator: id(2),
        platform: id(3),
        referrer: None,
        asset: AssetSelector::Token { mint, decimals: 6, source_owner, source_mint },
    }
}

fn empty_schedule() -> FeeSchedule {
    FeeSchedule::new(Vec::new())
}

fn usdc_schedule() -> FeeSchedule {
    FeeSchedule::new(vec![id(100), id(101)])
}

#[test]
fn native_settlement_with_referrer() {
    let plan = settle(native_request(1_000_000, 500, 100, Some(id(4))), &empty_schedule(), clock())
        .unwrap();

    assert_eq!(plan.transfers.len(), 3);
    assert_eq!(plan.transfers[0].from, id(1));
    assert_eq!(plan.transfers[0].to, id(4));
    assert_eq!(plan.transfers[0].amount, 10_000);
    assert_eq!(plan.transfers[1].to, id(3));
    assert_eq!(plan.transfers[1].amount, 50_000);
    assert_eq!(plan.transfers[2].to, id(2));
    assert_eq!(plan.transfers[2].amount, 940_000);

    assert_eq!(plan.event.content_id, "content-1");
    assert_eq!(plan.event.purchase_id, "purchase-1");
    assert_eq!(plan.event.buyer, id(1));
    assert_eq!(plan.event.creator, id(2));
    assert_eq!(plan.event.platform, id(3));
    assert_eq!(plan.event.referrer, Some(id(4)));
    assert_eq!(plan.event.mint, None);
    assert_eq!(plan.event.currency_type, CurrencyType::SOL);
    assert_eq!(plan.event.decimals, 9);
    assert_eq!(plan.event.amount, 1_000_000);
    assert_eq!(plan.event.creator_amount, 940_000);
    assert_eq!(plan.event.platform_fee, 50_000);
    assert_eq!(plan.event.referrer_fee, 10_000);
    assert_eq!(plan.event.fee_bps, 500);
    assert_eq!(plan.event.referrer_fee_bps, 100);
    assert_eq!(plan.event.slot, 42);
    assert_eq!(plan.event.timestamp, 1_700_000_000);
}

#[test]
fn no_referrer_identity_means_no_referrer_transfer() {
    // A positive referrer rate without a referrer identity pays no referrer.
    let plan = settle(native_request(1_000_000, 500, 100, None), &empty_schedule(), clock())
        .unwrap();
    assert_eq!(plan.transfers.len(), 2);
    assert!(plan.transfers.iter().all(|t| t.to == id(3) || t.to == id(2)));
    assert_eq!(plan.event.referrer_fee, 0);
    assert_eq!(plan.event.referrer_fee_bps, 0);
    assert_eq!(plan.event.creator_amount, 950_000);
}

#[test]
fn zero_referrer_rate_means_no_referrer_transfer() {
    let plan = settle(native_request(1_000_000, 500, 0, Some(id(4))), &empty_schedule(), clock())
        .unwrap();
    assert_eq!(plan.transfers.len(), 2);
    assert!(plan.transfers.iter().all(|t| t.to == id(3) || t.to == id(2)));
    assert_eq!(plan.event.referrer_fee, 0);
    assert_eq!(plan.event.referrer, Some(id(4)));
}

#[test]
fn referrer_rate_above_maximum_rejected_even_without_referrer() {
    let result = settle(native_request(1_000_000, 500, 501, None), &empty_schedule(), clock());
    assert_eq!(result.unwrap_err(), ErrorCode::FeeBpsExceedsMaximum);
}

#[test]
fn fee_above_maximum_rejected_before_any_transfer() {
    let result = settle(native_request(1_000_000, 3001, 0, None), &empty_schedule(), clock());
    assert_eq!(result.unwrap_err(), ErrorCode::FeeBpsExceedsMaximum);
}

#[test]
fn zero_shares_are_skipped() {
    // Floor division sends the whole tiny amount to the creator: one transfer.
    let plan = settle(native_request(7, 1, 0, None), &empty_schedule(), clock()).unwrap();
    assert_eq!(plan.transfers.len(), 1);
    assert_eq!(plan.transfers[0].to, id(2));
    assert_eq!(plan.transfers[0].amount, 7);
}

#[test]
fn zero_amount_settles_with_no_transfers() {
    let plan = settle(native_request(0, 3000, 500, Some(id(4))), &empty_schedule(), clock())
        .unwrap();
    assert!(plan.transfers.is_empty());
    assert_eq!(plan.event.amount, 0);
    assert_eq!(plan.event.creator_amount, 0);
}

#[test]
fn unsupported_mint_rejected() {
    let req = token_request(1_000_000, 500, id(999), id(1), id(999));
    let result = settle(req, &usdc_schedule(), clock());
    assert_eq!(result.unwrap_err(), ErrorCode::UnsupportedSplToken);
}

#[test]
fn unsupported_mint_rejected_regardless_of_other_parameters() {
    // Even with an out-of-range fee, the allowlist decides first.
    let req = token_request(1_000_000, 3001, id(999), id(7), id(8));
    let result = settle(req, &usdc_schedule(), clock());
    assert_eq!(result.unwrap_err(), ErrorCode::UnsupportedSplToken);
}

#[test]
fn token_source_account_owner_must_match_buyer() {
    let req = token_request(1_000_000, 500, id(100), id(9), id(100));
    let result = settle(req, &usdc_schedule(), clock());
    assert_eq!(result.unwrap_err(), ErrorCode::InvalidTokenOwner);
}

#[test]
fn token_source_account_mint_must_match_asset() {
    let req = token_request(1_000_000, 500, id(100), id(1), id(101));
    let result = settle(req, &usdc_schedule(), clock());
    assert_eq!(result.unwrap_err(), ErrorCode::InvalidTokenMint);
}

#[test]
fn token_settlement_reports_the_asset() {
    let req = token_request(1_000_000, 500, id(100), id(1), id(100));
    let plan = settle(req, &usdc_schedule(), clock()).unwrap();
    assert_eq!(plan.transfers.len(), 2);
    assert_eq!(plan.transfers[0].to, id(3));
    assert_eq!(plan.transfers[0].amount, 50_000);
    assert_eq!(plan.transfers[1].to, id(2));
    assert_eq!(plan.transfers[1].amount, 950_000);
    assert_eq!(plan.event.mint, Some(id(100)));
    assert_eq!(plan.event.currency_type, CurrencyType::SPL);
    assert_eq!(plan.event.decimals, 6);
}

#[test]
fn transfers_conserve_the_amount() {
    let plan = settle(native_request(999_999, 2999, 499, Some(id(4))), &empty_schedule(), clock())
        .unwrap();
    let moved: u64 = plan.transfers.iter().map(|t| t.amount).sum();
    assert_eq!(moved, 999_999);
    assert!(plan.transfers.iter().all(|t| t.from == id(1)));
}
