use billing::plans::{PlanTier, PriceConfig};
use billing::stripe::{
    checkout_session_request, customer_request, portal_session_request, subscription_request, tier_for_price,
    tier_of_subscription, HttpMethod, Price, SubscriptionApiResp, SubscriptionItem, SubscriptionItems,
};

fn prices(hobby: Option<&str>, pro: Option<&str>) -> PriceConfig {
    PriceConfig { hobby: hobby.map(|s| s.to_string()), pro: pro.map(|s| s.to_string()) }
}

fn pairs(form: &[(String, String)]) -> Vec<(&str, &str)> {
    form.iter().map(|(k, v)| (k.as_str(), v.as_str())).collect()
}

#[test]
fn prices_map_back_to_tiers() {
    let cfg = prices(Some("price_h"), Some("price_p"));
    assert_eq!(tier_for_price("price_p", &cfg), PlanTier::Pro);
    assert_eq!(tier_for_price("price_h", &cfg), PlanTier::Hobby);
    assert_eq!(tier_for_price("price_x", &cfg), PlanTier::Free);
    assert_eq!(tier_for_price("", &prices(None, None)), PlanTier::Free);
}

#[test]
fn pro_wins_when_both_prices_are_equal() {
    let cfg = prices(Some("same"), Some("same"));
    assert_eq!(tier_for_price("same", &cfg), PlanTier::Pro);
}

fn subscription(items: Option<Vec<&str>>) -> SubscriptionApiResp {
    SubscriptionApiResp {
        id: "sub_1".to_string(),
        customer: "cus_1".to_string(),
        status: "active".to_string(),
        current_period_start: Some(1_700_000_000),
        current_period_end: Some(1_702_592_000),
        cancel_at_period_end: false,
        items: items.map(|ids| SubscriptionItems {
            data: ids
                .into_iter()
                .map(|id| SubscriptionItem { price: Price { id: id.to_string() } })
                .collect(),
        }),
    }
}

#[test]
fn subscription_tier_comes_from_first_item() {
    let cfg = prices(Some("price_h"), Some("price_p"));
    assert_eq!(tier_of_subscription(&subscription(Some(vec!["price_h", "price_p"])), &cfg), PlanTier::Hobby);
    assert_eq!(tier_of_subscription(&subscription(Some(vec!["price_p"])), &cfg), PlanTier::Pro);
    assert_eq!(tier_of_subscription(&subscription(Some(vec![])), &cfg), PlanTier::Free);
    assert_eq!(tier_of_subscription(&subscription(None), &cfg), PlanTier::Free);
}

#[test]
fn customer_request_shape() {
    let r = customer_request("user-7", "a@b.c");
    assert_eq!(r.method, HttpMethod::Post);
    assert_eq!(r.url, "https://api.stripe.com/v1/customers");
    assert_eq!(r.idempotency_key.as_deref(), Some("customer:user-7"));
    assert_eq!(pairs(&r.form), vec![("email", "a@b.c"), ("metadata[user_id]", "user-7")]);
}

#[test]
fn checkout_request_shape() {
    let r = checkout_session_request("cus_1", "price_p", "https://ok", "https://no");
    assert_eq!(r.method, HttpMethod::Post);
    assert_eq!(r.url, "https://api.stripe.com/v1/checkout/sessions");
    assert_eq!(r.idempotency_key, None);
    assert_eq!(
        pairs(&r.form),
        vec![
            ("mode", "subscription"),
            ("customer", "cus_1"),
            ("line_items[0][price]", "price_p"),
            ("line_items[0][quantity]", "1"),
            ("success_url", "https://ok"),
            ("cancel_url", "https://no"),
            ("allow_promotion_codes", "true"),
        ]
    );
}

#[test]
fn portal_and_subscription_request_shapes() {
    let r = portal_session_request("cus_1", "https://back");
    assert_eq!(r.method, HttpMethod::Post);
    assert_eq!(r.url, "https://api.stripe.com/v1/billing_portal/sessions");
    assert_eq!(pairs(&r.form), vec![("customer", "cus_1"), ("return_url", "https://back")]);
    let g = subscription_request("sub_9");
    assert_eq!(g.method, HttpMethod::Get);
    assert_eq!(g.url, "https://api.stripe.com/v1/subscriptions/sub_9");
    assert!(g.form.is_empty());
}
