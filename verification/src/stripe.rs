//! Stripe REST shapes: the requests the billing flows send and the replies
//! they read, plus the mapping from a Stripe price back to a plan tier.
//!
//! Requests go to the Stripe API over HTTPS with the secret key as the Basic
//! auth user name and an empty password (Stripe's convention); only the
//! endpoints the flows need are described here.

use vstd::prelude::*;
use crate::plans::{configured_price, PlanTier, PriceConfig};
use crate::text::str_eq;
use vstd::string::StringExecFns;

verus! {

pub const STRIPE_API_BASE: &'static str = "https://api.stripe.com/v1";

/// A Checkout Session as Stripe returns it.
#[derive(Debug, Clone)]
pub struct CheckoutSession {
    pub id: String,
    pub url: Option<String>,
    pub customer: Option<String>,
}

/// A subscription as Stripe returns it (the fields the billing flows read).
#[derive(Debug, Clone)]
pub struct SubscriptionApiResp {
    pub id: String,
    pub customer: String,
    pub status: String,
    pub current_period_start: Option<i64>,
    pub current_period_end: Option<i64>,
    pub cancel_at_period_end: bool,
    pub items: Option<SubscriptionItems>,
}

#[derive(Debug, Clone)]
pub struct SubscriptionItems {
    pub data: Vec<SubscriptionItem>,
}

#[derive(Debug, Clone)]
pub struct SubscriptionItem {
    pub price: Price,
}

#[derive(Debug, Clone)]
pub struct Price {
    pub id: String,
}

/// The tier a Stripe price stands for: Pro when it is the configured Pro
/// price, else Hobby when it is the configured Hobby price, else Free.
pub open spec fn price_tier(price_id: Seq<char>, prices: PriceConfig) -> PlanTier {
    if prices.pro is Some && prices.pro->Some_0@ == price_id {
        PlanTier::Pro
    } else if prices.hobby is Some && prices.hobby->Some_0@ == price_id {
        PlanTier::Hobby
    } else {
        PlanTier::Free
    }
}

/// Given a Stripe price ID, the plan tier it maps to, by the configured
/// Pro and Hobby prices.
pub fn tier_for_price(price_id: &str, prices: &PriceConfig) -> (t: PlanTier)
    ensures
        t == price_tier(price_id@, *prices),
{
    let is_pro = match &prices.pro {
        Some(p) => str_eq(p.as_str(), price_id),
        None => false,
    };
    if is_pro {
        return PlanTier::Pro;
    }
    let is_hobby = match &prices.hobby {
        Some(p) => str_eq(p.as_str(), price_id),
        None => false,
    };
    if is_hobby {
        PlanTier::Hobby
    } else {
        PlanTier::Free
    }
}

/// The price of a subscription's first item, if it has one.
pub open spec fn first_price(sub: SubscriptionApiResp) -> Option<Seq<char>> {
    match sub.items {
        Some(items) => if items.data@.len() > 0 {
            Some(items.data@[0].price.id@)
        } else {
            None
        },
        None => None,
    }
}

/// The tier a subscription grants: that of its first item's price, or Free
/// when it has no item.
pub open spec fn subscription_tier(sub: SubscriptionApiResp, prices: PriceConfig) -> PlanTier {
    match first_price(sub) {
        Some(p) => price_tier(p, prices),
        None => PlanTier::Free,
    }
}

/// The configured price of a self-serve tier maps back to that tier; for
/// Hobby, as long as it is not also the Pro price (Pro is checked first).
pub proof fn lemma_price_maps_back_to_tier(t: PlanTier, prices: PriceConfig, price: Seq<char>)
    requires
        configured_price(t, prices) == Some(price),
        t == PlanTier::Hobby ==> !(prices.pro is Some && prices.pro->Some_0@ == price),
    ensures
        price_tier(price, prices) == t,
{
}

pub fn tier_of_subscription(sub: &SubscriptionApiResp, prices: &PriceConfig) -> (t: PlanTier)
    ensures
        t == subscription_tier(*sub, *prices),
{
    match &sub.items {
        Some(items) => if items.data.len() > 0 {
            tier_for_price(items.data[0].price.id.as_str(), prices)
        } else {
            PlanTier::Free
        },
        None => PlanTier::Free,
    }
}

#[derive(Debug, Clone, Copy, PartialEq, Eq, Structural)]
pub enum HttpMethod {
    Get,
    Post,
}

/// A request to the Stripe API: method, full URL, an optional
/// `Idempotency-Key` header, and form-encoded body fields in order.
#[derive(Debug, Clone)]
pub struct StripeRequest {
    pub method: HttpMethod,
    pub url: String,
    pub idempotency_key: Option<String>,
    pub form: Vec<(String, String)>,
}

pub open spec fn form_view(form: Seq<(String, String)>) -> Seq<(Seq<char>, Seq<char>)> {
    form.map_values(|p: (String, String)| (p.0@, p.1@))
}

pub open spec fn key_view(k: Option<String>) -> Option<Seq<char>> {
    match k {
        Some(s) => Some(s@),
        None => None,
    }
}

fn owned(s: &str) -> (r: String)
    ensures
        r@ == s@,
{
    String::from_str(s)
}

fn joined(a: &str, b: &str) -> (r: String)
    ensures
        r@ == a@ + b@,
{
    let mut r = String::from_str(a);
    r.append(b);
    r
}

fn field(name: &str, value: &str) -> (r: (String, String))
    ensures
        r.0@ == name@,
        r.1@ == value@,
{
    (owned(name), owned(value))
}

/// `r` creates the Stripe Customer of a user, keyed by the user for idempotency.
pub open spec fn is_customer_request(r: StripeRequest, user_id: Seq<char>, email: Seq<char>) -> bool {
    &&& r.method == HttpMethod::Post
    &&& r.url@ == STRIPE_API_BASE@ + "/customers"@
    &&& key_view(r.idempotency_key) == Some("customer:"@ + user_id)
    &&& form_view(r.form@) == seq![("email"@, email), ("metadata[user_id]"@, user_id)]
}

/// `r` creates a Checkout Session of a customer for one seat of a price.
pub open spec fn is_checkout_session_request(
    r: StripeRequest,
    customer_id: Seq<char>,
    price_id: Seq<char>,
    success_url: Seq<char>,
    cancel_url: Seq<char>,
) -> bool {
    &&& r.method == HttpMethod::Post
    &&& r.url@ == STRIPE_API_BASE@ + "/checkout/sessions"@
    &&& r.idempotency_key is None
    &&& form_view(r.form@) == seq![
        ("mode"@, "subscription"@),
        ("customer"@, customer_id),
        ("line_items[0][price]"@, price_id),
        ("line_items[0][quantity]"@, "1"@),
        ("success_url"@, success_url),
        ("cancel_url"@, cancel_url),
        ("allow_promotion_codes"@, "true"@),
    ]
}

/// `r` creates a Billing Portal session of a customer.
pub open spec fn is_portal_session_request(r: StripeRequest, customer_id: Seq<char>, return_url: Seq<char>) -> bool {
    &&& r.method == HttpMethod::Post
    &&& r.url@ == STRIPE_API_BASE@ + "/billing_portal/sessions"@
    &&& r.idempotency_key is None
    &&& form_view(r.form@) == seq![("customer"@, customer_id), ("return_url"@, return_url)]
}

/// Create (or, on retry, fetch again) the Stripe Customer for a user: the
/// user ID serves as the idempotency key, so Stripe returns the same customer.
pub fn customer_request(user_id: &str, email: &str) -> (r: StripeRequest)
    ensures
        is_customer_request(r, user_id@, email@),
{
    let mut form: Vec<(String, String)> = Vec::new();
    form.push(field("email", email));
    form.push(field("metadata[user_id]", user_id));
    assert(form_view(form@) =~= seq![("email"@, email@), ("metadata[user_id]"@, user_id@)]);
    StripeRequest {
        method: HttpMethod::Post,
        url: joined(STRIPE_API_BASE, "/customers"),
        idempotency_key: Some(joined("customer:", user_id)),
        form,
    }
}

/// Create a Checkout Session for a one-seat subscription to a price, with
/// promotion codes allowed.
pub fn checkout_session_request(
    customer_id: &str,
    price_id: &str,
    success_url: &str,
    cancel_url: &str,
) -> (r: StripeRequest)
    ensures
        is_checkout_session_request(r, customer_id@, price_id@, success_url@, cancel_url@),
{
    let mut form: Vec<(String, String)> = Vec::new();
    form.push(field("mode", "subscription"));
    form.push(field("customer", customer_id));
    form.push(field("line_items[0][price]", price_id));
    form.push(field("line_items[0][quantity]", "1"));
    form.push(field("success_url", success_url));
    form.push(field("cancel_url", cancel_url));
    form.push(field("allow_promotion_codes", "true"));
    assert(form_view(form@) =~= seq![
        ("mode"@, "subscription"@),
        ("customer"@, customer_id@),
        ("line_items[0][price]"@, price_id@),
        ("line_items[0][quantity]"@, "1"@),
        ("success_url"@, success_url@),
        ("cancel_url"@, cancel_url@),
        ("allow_promotion_codes"@, "true"@),
    ]);
    StripeRequest {
        method: HttpMethod::Post,
        url: joined(STRIPE_API_BASE, "/checkout/sessions"),
        idempotency_key: None,
        form,
    }
}

/// Create a Billing Portal session, where the user can cancel, change plan
/// or update their card.
pub fn portal_session_request(customer_id: &str, return_url: &str) -> (r: StripeRequest)
    ensures
        is_portal_session_request(r, customer_id@, return_url@),
{
    let mut form: Vec<(String, String)> = Vec::new();
    form.push(field("customer", customer_id));
    form.push(field("return_url", return_url));
    assert(form_view(form@) =~= seq![("customer"@, customer_id@), ("return_url"@, return_url@)]);
    StripeRequest {
        method: HttpMethod::Post,
        url: joined(STRIPE_API_BASE, "/billing_portal/sessions"),
        idempotency_key: None,
        form,
    }
}

/// Fetch a subscription's current state from Stripe (the source of truth).
pub fn subscription_request(subscription_id: &str) -> (r: StripeRequest)
    ensures
        r.method == HttpMethod::Get,
        r.url@ == STRIPE_API_BASE@ + "/subscriptions/"@ + subscription_id@,
        r.idempotency_key is None,
        r.form@.len() == 0,
{
    let mut url = joined(STRIPE_API_BASE, "/subscriptions/");
    url.append(subscription_id);
    StripeRequest { method: HttpMethod::Get, url, idempotency_key: None, form: Vec::new() }
}

} // verus!
