//! The settlement engine: validate a request, compute the split, and lay out
//! the ordered transfers and the audit record for the runtime to perform.

use vstd::prelude::*;

use crate::constants::{MAX_FEE_BPS, MAX_REFERRER_FEE_BPS, NATIVE_DECIMALS};
use crate::errors::ErrorCode;
use crate::fees::{
    compute_split, fees_within_schedule, lemma_zero_rate_zero_share, split_computable, split_of,
};
use crate::types::{
    AccountId, AssetSelector, ClockInfo, CurrencyType, PurchaseEvent, PurchaseRequest,
    SettlementPlan, Split, Transfer,
};

verus! {

/// Process-wide, read-only configuration: which token mints the settlement
/// accepts. The fee rate bounds live in `constants`; together they form the
/// fee schedule, loaded once at process start and never mutated at call time.
#[derive(Clone, Debug, PartialEq, Eq)]
pub struct FeeSchedule {
    pub allowed_mints: Vec<AccountId>,
}

impl FeeSchedule {
    /// A schedule accepting exactly the given token mints.
    pub fn new(allowed_mints: Vec<AccountId>) -> (r: FeeSchedule)
        ensures
            r.allowed_mints@ == allowed_mints@,
    {
        FeeSchedule { allowed_mints }
    }

    /// Whether a token mint is in the allowlist.
    pub fn is_supported_mint(&self, mint: AccountId) -> (r: bool)
        ensures
            r == self.allowed_mints@.contains(mint),
    {
        let n = self.allowed_mints.len();
        let mut i: usize = 0;
        while i < n
            invariant
                n == self.allowed_mints@.len(),
                0 <= i <= n,
                forall|j: int| 0 <= j < i ==> self.allowed_mints@[j] != mint,
            decreases n - i,
        {
            if self.allowed_mints[i] == mint {
                return true;
            }
            i = i + 1;
        }
        false
    }
}

/// The asset-level validation of a request: `None` when the selected adapter
/// accepts it, otherwise the exact error. The allowlist is consulted first:
/// an unsupported mint is rejected regardless of any other parameter. For a
/// token, the payer's holding account must be owned by the payer and hold the
/// requested asset.
pub open spec fn asset_error(req: PurchaseRequest, schedule: FeeSchedule) -> Option<ErrorCode> {
    match req.asset {
        AssetSelector::Native => None,
        AssetSelector::Token { mint, source_owner, source_mint, .. } => {
            if !schedule.allowed_mints@.contains(mint) {
                Some(ErrorCode::UnsupportedSplToken)
            } else if source_owner != req.buyer {
                Some(ErrorCode::InvalidTokenOwner)
            } else if source_mint != mint {
                Some(ErrorCode::InvalidTokenMint)
            } else {
                None
            }
        },
    }
}

/// The referrer rate that actually applies: the requested rate when a
/// referrer identity was supplied, else zero.
pub open spec fn effective_referrer_bps(req: PurchaseRequest) -> u16 {
    match req.referrer {
        Some(_) => req.referrer_fee_bps,
        None => 0,
    }
}

/// When a request is accepted: the asset passes, both requested rates are
/// within schedule, and the fee products fit in 64 bits.
pub open spec fn settle_accepts(req: PurchaseRequest, schedule: FeeSchedule) -> bool {
    &&& asset_error(req, schedule) is None
    &&& fees_within_schedule(req.fee_bps, req.referrer_fee_bps)
    &&& split_computable(req.amount, req.fee_bps, effective_referrer_bps(req))
}

/// The error a rejected request yields, in validation order: the asset first,
/// then the rate bounds, then overflow.
pub open spec fn settle_error(req: PurchaseRequest, schedule: FeeSchedule) -> ErrorCode {
    match asset_error(req, schedule) {
        Some(e) => e,
        None => if !fees_within_schedule(req.fee_bps, req.referrer_fee_bps) {
            ErrorCode::FeeBpsExceedsMaximum
        } else {
            ErrorCode::Overflow
        },
    }
}

/// The split an accepted request is settled with.
pub open spec fn settled_split(req: PurchaseRequest) -> Split {
    split_of(req.amount, req.fee_bps, effective_referrer_bps(req))
}

/// The transfers an accepted settlement issues, in their fixed order:
/// referrer first, then platform, then creator, each skipped when its share
/// is zero. Skipping has no effect on balances, only on whether a transfer
/// is issued.
pub open spec fn planned_transfers(req: PurchaseRequest, s: Split) -> Seq<Transfer> {
    let referrer_leg = match req.referrer {
        Some(r) => if s.referrer_amount > 0 {
            seq![Transfer { from: req.buyer, to: r, amount: s.referrer_amount }]
        } else {
            Seq::<Transfer>::empty()
        },
        None => Seq::<Transfer>::empty(),
    };
    let platform_leg = if s.platform_amount > 0 {
        seq![Transfer { from: req.buyer, to: req.platform, amount: s.platform_amount }]
    } else {
        Seq::<Transfer>::empty()
    };
    let creator_leg = if s.creator_amount > 0 {
        seq![Transfer { from: req.buyer, to: req.creator, amount: s.creator_amount }]
    } else {
        Seq::<Transfer>::empty()
    };
    referrer_leg + platform_leg + creator_leg
}

/// The audit record an accepted settlement emits.
pub open spec fn settlement_record(req: PurchaseRequest, s: Split, clock: ClockInfo) -> PurchaseEvent {
    PurchaseEvent {
        content_id: req.content_id,
        purchase_id: req.purchase_id,
        buyer: req.buyer,
        creator: req.creator,
        platform: req.platform,
        referrer: req.referrer,
        mint: match req.asset {
            AssetSelector::Native => None,
            AssetSelector::Token { mint, .. } => Some(mint),
        },
        currency_type: match req.asset {
            AssetSelector::Native => CurrencyType::SOL,
            AssetSelector::Token { .. } => CurrencyType::SPL,
        },
        decimals: match req.asset {
            AssetSelector::Native => NATIVE_DECIMALS,
            AssetSelector::Token { decimals, .. } => decimals,
        },
        amount: req.amount,
        creator_amount: s.creator_amount,
        platform_fee: s.platform_amount,
        referrer_fee: s.referrer_amount,
        fee_bps: req.fee_bps,
        referrer_fee_bps: effective_referrer_bps(req),
        slot: clock.slot,
        timestamp: clock.unix_timestamp,
    }
}

/// Settle one purchase request against the schedule, under the given clock
/// context.
///
/// Terminal on first failure: a rejected request yields exactly the error
/// `settle_error` names and asks for nothing — zero transfers. An accepted
/// request yields the plan: the transfers of the computed split in their
/// fixed order, and the audit record. Performing the transfers in that order,
/// aborting on the first ledger failure, and appending the record are all
/// that is left to the runtime.
pub fn settle(req: PurchaseRequest, schedule: &FeeSchedule, clock: ClockInfo) -> (r: Result<
    SettlementPlan,
    ErrorCode,
>)
    ensures
        r is Ok <==> settle_accepts(req, *schedule),
        r matches Ok(plan) ==> ({
            let s = settled_split(req);
            &&& plan.transfers@ == planned_transfers(req, s)
            &&& plan.event == settlement_record(req, s, clock)
            &&& s.referrer_amount + s.platform_amount + s.creator_amount == req.amount
        }),
        r matches Err(e) ==> e == settle_error(req, *schedule),
        (req.asset matches AssetSelector::Token { mint, .. }
            && !schedule.allowed_mints@.contains(mint)) ==> r == Err::<SettlementPlan, ErrorCode>(
            ErrorCode::UnsupportedSplToken,
        ),
{
    // Validate the asset and, for a token, the payer's holding account.
    let (currency_type, decimals, mint_opt) = match req.asset {
        AssetSelector::Native => (CurrencyType::SOL, NATIVE_DECIMALS, None),
        AssetSelector::Token { mint, decimals, source_owner, source_mint } => {
            if !schedule.is_supported_mint(mint) {
                return Err(ErrorCode::UnsupportedSplToken);
            }
            if source_owner != req.buyer {
                return Err(ErrorCode::InvalidTokenOwner);
            }
            if source_mint != mint {
                return Err(ErrorCode::InvalidTokenMint);
            }
            (CurrencyType::SPL, decimals, Some(mint))
        },
    };
    // Validate the requested rates before any arithmetic on the amount.
    if (req.fee_bps as u64) > MAX_FEE_BPS || (req.referrer_fee_bps as u64)
        > MAX_REFERRER_FEE_BPS {
        return Err(ErrorCode::FeeBpsExceedsMaximum);
    }
    // Compute the split with the referrer rate that actually applies.
    let applied_referrer_bps: u16 = match req.referrer {
        Some(_) => req.referrer_fee_bps,
        None => 0,
    };
    let split = match compute_split(req.amount, req.fee_bps, applied_referrer_bps) {
        Ok(s) => s,
        Err(e) => {
            return Err(e);
        },
    };
    // Lay out the transfers in their fixed order, skipping zero shares.
    let mut transfers: Vec<Transfer> = Vec::new();
    match req.referrer {
        Some(referrer_id) => {
            if split.referrer_amount > 0 {
                transfers.push(
                    Transfer { from: req.buyer, to: referrer_id, amount: split.referrer_amount },
                );
            }
        },
        None => {},
    }
    if split.platform_amount > 0 {
        transfers.push(
            Transfer { from: req.buyer, to: req.platform, amount: split.platform_amount },
        );
    }
    if split.creator_amount > 0 {
        transfers.push(Transfer { from: req.buyer, to: req.creator, amount: split.creator_amount });
    }
    proof {
        assert(transfers@ =~= planned_transfers(req, split));
    }
    // Assemble the audit record.
    let event = PurchaseEvent {
        content_id: req.content_id,
        purchase_id: req.purchase_id,
        buyer: req.buyer,
        creator: req.creator,
        platform: req.platform,
        referrer: req.referrer,
        mint: mint_opt,
        currency_type,
        decimals,
        amount: req.amount,
        creator_amount: split.creator_amount,
        platform_fee: split.platform_amount,
        referrer_fee: split.referrer_amount,
        fee_bps: req.fee_bps,
        referrer_fee_bps: applied_referrer_bps,
        slot: clock.slot,
        timestamp: clock.unix_timestamp,
    };
    Ok(SettlementPlan { transfers, event })
}

/// No referrer share without a referrer: when no referrer identity is
/// supplied or the referrer rate is zero, the referrer's share is zero and
/// no transfer to a referrer is planned — every planned transfer pays the
/// platform or the creator.
pub proof fn lemma_no_referrer_no_referrer_leg(req: PurchaseRequest)
    requires
        req.referrer is None || req.referrer_fee_bps == 0,
    ensures
        settled_split(req).referrer_amount == 0,
        ({
            let ts = planned_transfers(req, settled_split(req));
            forall|i: int|
                0 <= i < ts.len() ==> ((#[trigger] ts[i]).to == req.platform || ts[i].to
                    == req.creator)
        }),
{
    lemma_zero_rate_zero_share(req.amount);
}

} // verus!
