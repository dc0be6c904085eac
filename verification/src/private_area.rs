//! The private area: the creator-chosen access model, what a valid area
//! configuration is, and the audit record of a provider-side purchase.

use vstd::prelude::*;
use vstd::string::*;
use crate::error::ApiError;
use crate::text::{byte_len, str_eq, trim, trim_spec, utf8_len};

verus! {

/// Longest accepted area description, in bytes.
pub const MAX_DESCRIPTION_LEN: usize = 500;
/// Price ceiling in cents: a sanity bound against typing errors.
pub const MAX_PRICE_CENTS: i64 = 1000000;

/// How a creator's private area is accessed (the creator's choice).
#[derive(Debug, Clone, Copy, PartialEq, Eq, Structural)]
pub enum AccessModel {
    Free,
    OneTime,
    Subscription,
    PerPost,
}

/// The stored name of an access model.
pub open spec fn access_model_name(m: AccessModel) -> Seq<char> {
    match m {
        AccessModel::Free => "free"@,
        AccessModel::OneTime => "one_time"@,
        AccessModel::Subscription => "subscription"@,
        AccessModel::PerPost => "per_post"@,
    }
}

/// The access model a stored name denotes, if any.
pub open spec fn access_model_of(s: Seq<char>) -> Option<AccessModel> {
    if s == "free"@ {
        Some(AccessModel::Free)
    } else if s == "one_time"@ {
        Some(AccessModel::OneTime)
    } else if s == "subscription"@ {
        Some(AccessModel::Subscription)
    } else if s == "per_post"@ {
        Some(AccessModel::PerPost)
    } else {
        None
    }
}

proof fn lemma_access_names_distinct()
    ensures
        "free"@ != "one_time"@,
        "free"@ != "subscription"@,
        "free"@ != "per_post"@,
        "one_time"@ != "subscription"@,
        "one_time"@ != "per_post"@,
        "subscription"@ != "per_post"@,
{
    reveal_strlit("free");
    reveal_strlit("one_time");
    reveal_strlit("subscription");
    reveal_strlit("per_post");
    assert("free"@.len() != "one_time"@.len());
    assert("free"@.len() != "subscription"@.len());
    assert("free"@.len() != "per_post"@.len());
    assert("one_time"@.len() != "subscription"@.len());
    assert("one_time"@[0] != "per_post"@[0]);
    assert("subscription"@.len() != "per_post"@.len());
}

impl AccessModel {
    /// The stored name: `free`, `one_time`, `subscription` or `per_post`.
    pub fn as_str(self) -> (r: &'static str)
        ensures
            r@ == access_model_name(self),
    {
        match self {
            AccessModel::Free => "free",
            AccessModel::OneTime => "one_time",
            AccessModel::Subscription => "subscription",
            AccessModel::PerPost => "per_post",
        }
    }

    /// Parse a stored name; anything else fails closed.
    pub fn parse(s: &str) -> (r: Option<AccessModel>)
        ensures
            r == access_model_of(s@),
    {
        if str_eq(s, "free") {
            Some(AccessModel::Free)
        } else if str_eq(s, "one_time") {
            Some(AccessModel::OneTime)
        } else if str_eq(s, "subscription") {
            Some(AccessModel::Subscription)
        } else if str_eq(s, "per_post") {
            Some(AccessModel::PerPost)
        } else {
            None
        }
    }
}

/// Parsing the name of an access model gives the model back, and only the
/// four names parse.
pub proof fn lemma_access_model_round_trip(m: AccessModel, s: Seq<char>)
    ensures
        access_model_of(access_model_name(m)) == Some(m),
        access_model_of(s) matches Some(n) ==> access_model_name(n) == s,
{
    lemma_access_names_distinct();
}

/// Why a viewer holds access to an area.
#[derive(Debug, Clone, Copy, PartialEq, Eq, Structural)]
pub enum EntitlementSource {
    Purchase,
    Subscription,
    Operator,
}

impl EntitlementSource {
    /// The stored name: `purchase`, `subscription` or `operator`.
    pub fn as_str(self) -> (r: &'static str)
        ensures
            r@ == match self {
                EntitlementSource::Purchase => "purchase"@,
                EntitlementSource::Subscription => "subscription"@,
                EntitlementSource::Operator => "operator"@,
            },
    {
        match self {
            EntitlementSource::Purchase => "purchase",
            EntitlementSource::Subscription => "subscription",
            EntitlementSource::Operator => "operator",
        }
    }
}

/// Request to configure the caller's own private area.
#[derive(Debug, Clone)]
pub struct PrivateAreaConfigRequest {
    pub access_model: String,
    pub price_cents: i64,
    pub description: String,
}

/// A creator's private-area terms: the public offer.
#[derive(Debug, Clone)]
pub struct PrivateAreaView {
    pub creator_id: i64,
    pub access_model: String,
    pub price_cents: i64,
    pub currency: String,
    pub description: String,
}

/// A validated area configuration, ready to store.
#[derive(Debug, Clone, Copy)]
pub struct AreaConfig<'a> {
    pub access_model: AccessModel,
    pub price_cents: i64,
    pub description: &'a str,
}

/// Whether the model prices access to the whole area.
pub open spec fn is_priced_model(m: AccessModel) -> bool {
    m == AccessModel::OneTime || m == AccessModel::Subscription
}

/// The verdict on a configuration request, checked in this order: a known
/// access model; a price neither negative nor above the ceiling; a price on
/// exactly the priced models; a trimmed description of at most 500 bytes.
pub open spec fn config_spec(access_model: Seq<char>, price_cents: i64, description: Seq<char>)
    -> Result<(AccessModel, i64, Seq<char>), ApiError>
{
    match access_model_of(access_model) {
        None => Err(ApiError::Validation("unknown_access_model")),
        Some(m) => if price_cents < 0 {
            Err(ApiError::Validation("negative_price"))
        } else if price_cents > MAX_PRICE_CENTS {
            Err(ApiError::Validation("price_too_high"))
        } else if is_priced_model(m) && price_cents == 0 {
            Err(ApiError::Validation("missing_price"))
        } else if !is_priced_model(m) && price_cents != 0 {
            Err(ApiError::Validation("price_on_unpriced_model"))
        } else if utf8_len(trim_spec(description)) > MAX_DESCRIPTION_LEN {
            Err(ApiError::Validation("description_too_long"))
        } else {
            Ok((m, price_cents, trim_spec(description)))
        },
    }
}

/// An accepted configuration never carries a meaningless price: the price is
/// positive exactly for the priced models, within the ceiling, and the
/// description fits.
pub proof fn lemma_accepted_config_is_an_honest_offer(
    access_model: Seq<char>,
    price_cents: i64,
    description: Seq<char>,
)
    ensures
        config_spec(access_model, price_cents, description) matches Ok((m, p, d)) ==> {
            &&& (is_priced_model(m) <==> p > 0)
            &&& 0 <= p <= MAX_PRICE_CENTS
            &&& p == price_cents
            &&& utf8_len(d) <= MAX_DESCRIPTION_LEN
            &&& access_model_of(access_model) == Some(m)
        },
{
}

/// Validate a configuration request; the database constraints stay the
/// fail-closed backstop, never the primary gate.
pub fn validate_config(req: &PrivateAreaConfigRequest) -> (r: Result<AreaConfig<'_>, ApiError>)
    ensures
        match config_spec(req.access_model@, req.price_cents, req.description@) {
            Ok((m, p, d)) => r matches Ok(c) && c.access_model == m && c.price_cents == p
                && c.description@ == d,
            Err(e) => r matches Err(x) && x == e,
        },
{
    let model = match AccessModel::parse(req.access_model.as_str()) {
        Some(m) => m,
        None => return Err(ApiError::Validation("unknown_access_model")),
    };
    if req.price_cents < 0 {
        return Err(ApiError::Validation("negative_price"));
    }
    if req.price_cents > MAX_PRICE_CENTS {
        return Err(ApiError::Validation("price_too_high"));
    }
    match model {
        AccessModel::OneTime | AccessModel::Subscription => {
            if req.price_cents == 0 {
                return Err(ApiError::Validation("missing_price"));
            }
        },
        AccessModel::Free | AccessModel::PerPost => {
            if req.price_cents != 0 {
                return Err(ApiError::Validation("price_on_unpriced_model"));
            }
        },
    }
    let description = trim(req.description.as_str());
    if byte_len(description) > MAX_DESCRIPTION_LEN {
        return Err(ApiError::Validation("description_too_long"));
    }
    Ok(AreaConfig { access_model: model, price_cents: req.price_cents, description })
}

/// A stored configuration as the offer a buyer sees.
pub fn area_view(
    creator_id: i64,
    access_model: String,
    price_cents: i64,
    currency: String,
    description: String,
) -> (r: PrivateAreaView)
    ensures
        r.creator_id == creator_id,
        r.access_model == access_model,
        r.price_cents == price_cents,
        r.currency == currency,
        r.description == description,
{
    PrivateAreaView { creator_id, access_model, price_cents, currency, description }
}

/// A creator is always entitled to their own area; anyone else needs a live
/// entitlement row (`Some(true)`), which is looked up only when this is not
/// already decided (`None`).
pub fn own_area(viewer_id: i64, creator_id: i64) -> (r: Option<bool>)
    ensures
        viewer_id == creator_id ==> r == Some(true),
        viewer_id != creator_id ==> r is None,
{
    if viewer_id == creator_id {
        Some(true)
    } else {
        None
    }
}

/// A row in the purchases audit mirror (the provider is the source of truth).
#[derive(Debug, Clone, Copy)]
pub struct NewPurchase<'a> {
    pub provider: &'a str,
    /// Provider-side unique reference: replayed webhooks insert nothing twice.
    pub provider_ref: &'a str,
    pub viewer_id: i64,
    pub creator_id: i64,
    pub kind: &'a str,
    pub amount_cents: i64,
    pub currency: &'a str,
    pub fee_cents: i64,
    pub status: &'a str,
}

/// Whether recording a purchase inserted a new row (a replay inserts none,
/// and must not re-trigger side effects).
pub fn purchase_is_new(rows_affected: u64) -> (r: bool)
    ensures
        r == (rows_affected == 1),
{
    rows_affected == 1
}

} // verus!
