//! The paid unlock: the checks before it, the split of the price into the
//! creator's share, the company fee and the burn, and the ledger legs that
//! move the money.

use vstd::prelude::*;
use crate::error::{ApiError, DbFailure};
use crate::text::str_eq;

verus! {

/// Sentinel account that receives the company fee (ids start at 1).
pub const COMPANY_ACCOUNT_ID: i64 = 0;

/// Basis points in a whole.
pub const BPS_DENOMINATOR: i64 = 10000;

/// How an unlock price is divided.
#[derive(Debug, Clone, Copy, PartialEq, Eq)]
pub struct UnlockSplit {
    pub price: i64,
    pub creator_received: i64,
    pub company_fee: i64,
    pub burned: i64,
}

/// Outcome of the unlock transaction.
#[derive(Debug, Clone, Copy, PartialEq, Eq)]
pub struct UnlockOutcome {
    pub already_unlocked: bool,
}

/// What a completed unlock reports.
#[derive(Debug, Clone, Copy, PartialEq, Eq)]
pub struct UnlockSummary {
    pub asset_id: i64,
    pub viewer_id: i64,
    pub price: i64,
    pub creator_received: i64,
    pub company_fee: i64,
    pub burned: i64,
    pub already_unlocked: bool,
}

/// Why the unlock transaction failed.
#[derive(Debug)]
pub enum UnlockError {
    Db(DbFailure),
    InsufficientFunds,
}

/// `bps` basis points of `price`, rounded down.
pub open spec fn bps_share(price: int, bps: int) -> int {
    price * bps / 10000
}

/// The split of `price`: fee and burn by their rates, the creator the rest.
pub open spec fn split_spec(price: i64, fee_bps: u16, burn_bps: u16) -> UnlockSplit {
    let fee = bps_share(price as int, fee_bps as int);
    let burned = bps_share(price as int, burn_bps as int);
    UnlockSplit {
        price,
        creator_received: (price - fee - burned) as i64,
        company_fee: fee as i64,
        burned: burned as i64,
    }
}

/// The split of `price` is computable in `i64`.
pub open spec fn split_fits(price: i64, fee_bps: u16, burn_bps: u16) -> bool {
    &&& price >= 0
    &&& price * fee_bps <= i64::MAX
    &&& price * burn_bps <= i64::MAX
    &&& price - bps_share(price as int, fee_bps as int) - bps_share(price as int, burn_bps as int)
        >= i64::MIN
}

/// Whether the split of `price` is computable in `i64` (the condition
/// `unlock_split` needs), decided exactly.
pub fn split_computable(price: i64, fee_bps: u16, burn_bps: u16) -> (r: bool)
    ensures
        r == split_fits(price, fee_bps, burn_bps),
{
    if price < 0 {
        return false;
    }
    let p = price as i128;
    let f = fee_bps as i128;
    let b = burn_bps as i128;
    assert(0 <= p * f <= 0x7fff_ffff_ffff_ffff * 0xffff) by (nonlinear_arith)
        requires
            0 <= p <= 0x7fff_ffff_ffff_ffff,
            0 <= f <= 0xffff,
    ;
    assert(0 <= p * b <= 0x7fff_ffff_ffff_ffff * 0xffff) by (nonlinear_arith)
        requires
            0 <= p <= 0x7fff_ffff_ffff_ffff,
            0 <= b <= 0xffff,
    ;
    let pf = p * f;
    let pb = p * b;
    if pf > 0x7fff_ffff_ffff_ffffi128 || pb > 0x7fff_ffff_ffff_ffffi128 {
        return false;
    }
    let rest = p - pf / 10000 - pb / 10000;
    rest >= -0x8000_0000_0000_0000i128
}

proof fn lemma_share_bounds(price: int, bps: int)
    requires
        price >= 0,
        bps >= 0,
    ensures
        0 <= bps_share(price, bps) <= price * bps,
{
    assert(0 <= price * bps) by (nonlinear_arith)
        requires
            price >= 0,
            bps >= 0,
    ;
}

/// Split a price into creator share, company fee and burn: the fee and the
/// burn are their basis points of the price rounded down, and the creator
/// gets the remainder so the three add up to the price exactly.
pub fn unlock_split(price: i64, fee_bps: u16, burn_bps: u16) -> (r: UnlockSplit)
    requires
        split_fits(price, fee_bps, burn_bps),
    ensures
        r == split_spec(price, fee_bps, burn_bps),
{
    proof {
        lemma_share_bounds(price as int, fee_bps as int);
        lemma_share_bounds(price as int, burn_bps as int);
    }
    let company_fee = price * (fee_bps as i64) / BPS_DENOMINATOR;
    let burned = price * (burn_bps as i64) / BPS_DENOMINATOR;
    let creator_received = price - company_fee - burned;
    UnlockSplit { price, creator_received, company_fee, burned }
}

/// The split always accounts for the whole price; fee and burn are never
/// negative; and when the two rates together are at most a whole, the
/// creator's share is not negative either.
pub proof fn lemma_split_conserves(price: i64, fee_bps: u16, burn_bps: u16)
    requires
        split_fits(price, fee_bps, burn_bps),
    ensures
        ({
            let s = split_spec(price, fee_bps, burn_bps);
            &&& s.creator_received + s.company_fee + s.burned == price
            &&& s.company_fee >= 0
            &&& s.burned >= 0
            &&& fee_bps + burn_bps <= 10000 ==> s.creator_received >= 0
        }),
{
    let p = price as int;
    let f = fee_bps as int;
    let b = burn_bps as int;
    lemma_share_bounds(p, f);
    lemma_share_bounds(p, b);
    if f + b <= 10000 {
        assert(bps_share(p, f) + bps_share(p, b) <= p) by (nonlinear_arith)
            requires
                p >= 0,
                f >= 0,
                b >= 0,
                f + b <= 10000,
        {
            assert(p * f + p * b <= p * 10000);
            assert((p * f) / 10000 * 10000 <= p * f);
            assert((p * b) / 10000 * 10000 <= p * b);
        }
    }
}

/// The verdict before an unlock: the asset must be ready, priced, and not
/// the viewer's own; then the split of its price.
pub open spec fn unlock_plan_spec(
    status: Seq<char>,
    unlock_price: i64,
    owner_id: i64,
    viewer_id: i64,
    fee_bps: u16,
    burn_bps: u16,
) -> Result<UnlockSplit, ApiError> {
    if status != "ready"@ {
        Err(ApiError::Validation("not_ready"))
    } else if unlock_price <= 0 {
        Err(ApiError::Validation("free_content"))
    } else if viewer_id == owner_id {
        Err(ApiError::Validation("owner_already_entitled"))
    } else {
        Ok(split_spec(unlock_price, fee_bps, burn_bps))
    }
}

/// Decide an unlock request and price it.
pub fn plan_unlock(
    status: &str,
    unlock_price: i64,
    owner_id: i64,
    viewer_id: i64,
    fee_bps: u16,
    burn_bps: u16,
) -> (r: Result<UnlockSplit, ApiError>)
    requires
        unlock_price > 0 ==> split_fits(unlock_price, fee_bps, burn_bps),
    ensures
        r == unlock_plan_spec(status@, unlock_price, owner_id, viewer_id, fee_bps, burn_bps),
{
    if !str_eq(status, "ready") {
        return Err(ApiError::Validation("not_ready"));
    }
    if unlock_price <= 0 {
        return Err(ApiError::Validation("free_content"));
    }
    if viewer_id == owner_id {
        return Err(ApiError::Validation("owner_already_entitled"));
    }
    Ok(unlock_split(unlock_price, fee_bps, burn_bps))
}

/// An unlock is refused exactly when the asset is not ready, is free, or is
/// the viewer's own; otherwise the price is split by the rates as given: the
/// company takes `fee_bps` basis points of the price and `burn_bps` of it is
/// burned (each rounded down), the creator the rest, whichever rate is the
/// larger.
pub proof fn lemma_plan_unlock_prices_by_rates(
    status: Seq<char>,
    price: i64,
    owner_id: i64,
    viewer_id: i64,
    fee_bps: u16,
    burn_bps: u16,
)
    requires
        price > 0 ==> split_fits(price, fee_bps, burn_bps),
    ensures
        unlock_plan_spec(status, price, owner_id, viewer_id, fee_bps, burn_bps) is Ok <==> (status
            == "ready"@ && price > 0 && viewer_id != owner_id),
        unlock_plan_spec(status, price, owner_id, viewer_id, fee_bps, burn_bps) matches Ok(s) ==> {
            &&& s.price == price
            &&& s.company_fee == price * fee_bps / 10000
            &&& s.burned == price * burn_bps / 10000
            &&& s.creator_received == price - price * fee_bps / 10000 - price * burn_bps / 10000
        },
{
    if status == "ready"@ && price > 0 && viewer_id != owner_id {
        lemma_share_bounds(price as int, fee_bps as int);
        lemma_share_bounds(price as int, burn_bps as int);
    }
}

/// One money movement of an unlock after the viewer's debit.
#[derive(Debug, Clone, Copy, PartialEq, Eq)]
pub enum LedgerLeg {
    Credit { account_id: i64, amount: i64 },
    Burn { amount: i64 },
}

/// The legs after the debit: credit the creator and the company, record the
/// burn, each only when positive, in that order.
pub open spec fn legs_spec(creator_id: i64, company_id: i64, s: UnlockSplit) -> Seq<LedgerLeg> {
    (if s.creator_received > 0 {
        seq![LedgerLeg::Credit { account_id: creator_id, amount: s.creator_received }]
    } else {
        Seq::empty()
    }) + (if s.company_fee > 0 {
        seq![LedgerLeg::Credit { account_id: company_id, amount: s.company_fee }]
    } else {
        Seq::empty()
    }) + (if s.burned > 0 {
        seq![LedgerLeg::Burn { amount: s.burned }]
    } else {
        Seq::empty()
    })
}

/// The amount a leg moves.
pub open spec fn leg_amount(l: LedgerLeg) -> int {
    match l {
        LedgerLeg::Credit { amount, .. } => amount as int,
        LedgerLeg::Burn { amount } => amount as int,
    }
}

/// The total the legs move.
pub open spec fn legs_total(legs: Seq<LedgerLeg>) -> int
    decreases legs.len(),
{
    if legs.len() == 0 {
        0
    } else {
        legs_total(legs.drop_last()) + leg_amount(legs.last())
    }
}

/// The ledger legs that follow a successful debit of the full price.
pub fn unlock_legs(creator_id: i64, company_id: i64, split: &UnlockSplit) -> (r: Vec<LedgerLeg>)
    ensures
        r@ == legs_spec(creator_id, company_id, *split),
{
    let mut legs: Vec<LedgerLeg> = Vec::new();
    if split.creator_received > 0 {
        legs.push(LedgerLeg::Credit { account_id: creator_id, amount: split.creator_received });
    }
    if split.company_fee > 0 {
        legs.push(LedgerLeg::Credit { account_id: company_id, amount: split.company_fee });
    }
    if split.burned > 0 {
        legs.push(LedgerLeg::Burn { amount: split.burned });
    }
    assert(legs@ =~= legs_spec(creator_id, company_id, *split));
    legs
}

/// Money is conserved by an unlock: when the rates together are at most a
/// whole, the legs credited and burned after the debit add up to exactly the
/// price that was debited.
pub proof fn lemma_unlock_conserves(
    price: i64,
    fee_bps: u16,
    burn_bps: u16,
    creator_id: i64,
    company_id: i64,
)
    requires
        split_fits(price, fee_bps, burn_bps),
        fee_bps + burn_bps <= 10000,
    ensures
        legs_total(legs_spec(creator_id, company_id, split_spec(price, fee_bps, burn_bps)))
            == price,
{
    lemma_split_conserves(price, fee_bps, burn_bps);
    let s = split_spec(price, fee_bps, burn_bps);
    let a: Seq<LedgerLeg> = if s.creator_received > 0 {
        seq![LedgerLeg::Credit { account_id: creator_id, amount: s.creator_received }]
    } else {
        Seq::empty()
    };
    let b: Seq<LedgerLeg> = if s.company_fee > 0 {
        seq![LedgerLeg::Credit { account_id: company_id, amount: s.company_fee }]
    } else {
        Seq::empty()
    };
    let c: Seq<LedgerLeg> = if s.burned > 0 {
        seq![LedgerLeg::Burn { amount: s.burned }]
    } else {
        Seq::empty()
    };
    lemma_legs_total_append(a, b);
    lemma_legs_total_append(a + b, c);
    reveal_with_fuel(legs_total, 2);
}

proof fn lemma_legs_total_append(x: Seq<LedgerLeg>, y: Seq<LedgerLeg>)
    ensures
        legs_total(x + y) == legs_total(x) + legs_total(y),
    decreases y.len(),
{
    if y.len() == 0 {
        assert(x + y =~= x);
    } else {
        assert((x + y).drop_last() =~= x + y.drop_last());
        lemma_legs_total_append(x, y.drop_last());
    }
}

/// What the unlock transaction does once the entitlement claim has run.
#[derive(Debug, Clone, PartialEq, Eq)]
pub enum UnlockCharge {
    /// The viewer already held the entitlement: answer at once, with no
    /// debit and no legs.
    NoCharge(UnlockOutcome),
    /// Debit `amount` from `viewer_id` (guarded), then run `legs` in order.
    Charge { viewer_id: i64, amount: i64, legs: Vec<LedgerLeg> },
}

/// The debit and the legs of an unlock whose entitlement claim touched
/// `rows_affected` rows: none for a repeat, else the full price and the
/// split's legs.
pub open spec fn unlock_effects(
    rows_affected: u64,
    creator_id: i64,
    company_id: i64,
    split: UnlockSplit,
) -> (int, Seq<LedgerLeg>) {
    if rows_affected == 0 {
        (0, Seq::empty())
    } else {
        (split.price as int, legs_spec(creator_id, company_id, split))
    }
}

/// The debit and the legs a planned charge performs.
pub open spec fn charge_effects(c: UnlockCharge) -> (int, Seq<LedgerLeg>) {
    match c {
        UnlockCharge::NoCharge(_) => (0, Seq::empty()),
        UnlockCharge::Charge { amount, legs, .. } => (amount as int, legs@),
    }
}

/// After claiming the entitlement: a claim that touched no row means the
/// viewer had already unlocked, and nothing is charged; otherwise the viewer
/// is debited the full price and the split's legs follow.
pub fn unlock_charge(
    rows_affected: u64,
    viewer_id: i64,
    creator_id: i64,
    company_id: i64,
    split: &UnlockSplit,
) -> (r: UnlockCharge)
    ensures
        charge_effects(r) == unlock_effects(rows_affected, creator_id, company_id, *split),
        rows_affected == 0 ==> r == UnlockCharge::NoCharge(UnlockOutcome { already_unlocked: true }),
        rows_affected != 0 ==> (r matches UnlockCharge::Charge { viewer_id: v, .. } && v == viewer_id),
{
    if rows_affected == 0 {
        UnlockCharge::NoCharge(UnlockOutcome { already_unlocked: true })
    } else {
        let legs = unlock_legs(creator_id, company_id, split);
        UnlockCharge::Charge { viewer_id, amount: split.price, legs }
    }
}

/// An unlock charges at most once: when the entitlement already existed
/// (the claim touched no row) nothing is debited and nothing moves;
/// otherwise exactly the price is debited, and when the rates together are
/// at most a whole, the legs credit and burn exactly that amount.
pub proof fn lemma_unlock_charges_once(
    rows_affected: u64,
    price: i64,
    fee_bps: u16,
    burn_bps: u16,
    creator_id: i64,
    company_id: i64,
)
    requires
        split_fits(price, fee_bps, burn_bps),
    ensures
        ({
            let (debit, legs) = unlock_effects(
                rows_affected,
                creator_id,
                company_id,
                split_spec(price, fee_bps, burn_bps),
            );
            &&& rows_affected == 0 ==> debit == 0 && legs.len() == 0
            &&& rows_affected != 0 ==> debit == price
            &&& rows_affected != 0 && fee_bps + burn_bps <= 10000 ==> legs_total(legs) == debit
        }),
{
    if rows_affected != 0 && fee_bps + burn_bps <= 10000 {
        lemma_unlock_conserves(price, fee_bps, burn_bps, creator_id, company_id);
    }
}

/// After the guarded debit: a refused debit is insufficient funds.
pub fn debit_verdict(debited: bool) -> (r: Result<(), UnlockError>)
    ensures
        debited ==> r is Ok,
        !debited ==> r matches Err(UnlockError::InsufficientFunds),
{
    if !debited {
        return Err(UnlockError::InsufficientFunds);
    }
    Ok(())
}

/// Insufficient gems is a client problem; a database failure is not.
pub fn map_unlock_error(err: UnlockError) -> (r: ApiError)
    ensures
        match err {
            UnlockError::InsufficientFunds => r == ApiError::Validation("insufficient_gems"),
            UnlockError::Db(e) => r == ApiError::Database(e),
        },
{
    match err {
        UnlockError::InsufficientFunds => ApiError::Validation("insufficient_gems"),
        UnlockError::Db(e) => ApiError::Database(e),
    }
}

/// What an unlock reports back.
pub fn unlock_summary(asset_id: i64, viewer_id: i64, split: UnlockSplit, outcome: UnlockOutcome)
    -> (r: UnlockSummary)
    ensures
        r == (UnlockSummary {
            asset_id,
            viewer_id,
            price: split.price,
            creator_received: split.creator_received,
            company_fee: split.company_fee,
            burned: split.burned,
            already_unlocked: outcome.already_unlocked,
        }),
{
    UnlockSummary {
        asset_id,
        viewer_id,
        price: split.price,
        creator_received: split.creator_received,
        company_fee: split.company_fee,
        burned: split.burned,
        already_unlocked: outcome.already_unlocked,
    }
}

} // verus!
