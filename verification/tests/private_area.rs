use core_api::error::ApiError;
use core_api::private_area::{
    area_view, own_area, purchase_is_new, validate_config, AccessModel, EntitlementSource,
    PrivateAreaConfigRequest,
};

fn req(model: &str, price: i64, description: &str) -> PrivateAreaConfigRequest {
    PrivateAreaConfigRequest {
        access_model: model.to_string(),
        price_cents: price,
        description: description.to_string(),
    }
}

#[test]
fn access_models_round_trip() {
    for m in [AccessModel::Free, AccessModel::OneTime, AccessModel::Subscription, AccessModel::PerPost] {
        assert_eq!(AccessModel::parse(m.as_str()), Some(m));
    }
    assert_eq!(AccessModel::OneTime.as_str(), "one_time");
    assert_eq!(AccessModel::parse("Free"), None);
    assert_eq!(AccessModel::parse("pay_what_you_want"), None);
    assert_eq!(EntitlementSource::Purchase.as_str(), "purchase");
    assert_eq!(EntitlementSource::Subscription.as_str(), "subscription");
    assert_eq!(EntitlementSource::Operator.as_str(), "operator");
}

#[test]
fn configuration_is_validated_in_order() {
    let e = |r: &PrivateAreaConfigRequest| validate_config(r).err();
    assert_eq!(e(&req("bogus", -5, "")), Some(ApiError::Validation("unknown_access_model")));
    assert_eq!(e(&req("free", -5, "")), Some(ApiError::Validation("negative_price")));
    assert_eq!(e(&req("one_time", 1_000_001, "")), Some(ApiError::Validation("price_too_high")));
    assert_eq!(e(&req("subscription", 0, "")), Some(ApiError::Validation("missing_price")));
    assert_eq!(e(&req("per_post", 100, "")), Some(ApiError::Validation("price_on_unpriced_model")));
    let long = "x".repeat(501);
    assert_eq!(e(&req("free", 0, &long)), Some(ApiError::Validation("description_too_long")));
}

#[test]
fn valid_configuration_keeps_a_trimmed_description() {
    let r = req("one_time", 1_000_000, "  my area  ");
    let c = validate_config(&r).unwrap();
    assert_eq!(c.access_model, AccessModel::OneTime);
    assert_eq!(c.price_cents, 1_000_000);
    assert_eq!(c.description, "my area");
    let padded = format!("  {}  ", "y".repeat(500));
    assert!(validate_config(&req("free", 0, &padded)).is_ok());
}

#[test]
fn area_views_and_entitlement_shortcut() {
    let v = area_view(3, "free".to_string(), 0, "EUR".to_string(), "hi".to_string());
    assert_eq!((v.creator_id, v.access_model.as_str(), v.price_cents), (3, "free", 0));
    assert_eq!((v.currency.as_str(), v.description.as_str()), ("EUR", "hi"));
    assert_eq!(own_area(3, 3), Some(true));
    assert_eq!(own_area(4, 3), None);
    assert!(purchase_is_new(1));
    assert!(!purchase_is_new(0));
}
