use billing::api::{
    checkout_accepts, portal_accepts, advance_checkout, advance_portal, bad_json_response, begin_checkout, begin_portal, check_webhook, db_err,
    handled_response, subscription_summary, upstream_err, usage_limits, CheckoutReply, CheckoutRequest,
    CheckoutState, CheckoutStep, Counter, PortalReply, PortalState, PortalStep, StoredSubscription, UsageCounts,
};
use billing::plans::{for_tier, PlanTier, PriceConfig};
use billing::stripe::{CheckoutSession, HttpMethod, Price, SubscriptionApiResp, SubscriptionItem, SubscriptionItems};
use billing::webhook::{
    event_accepts, subscription_upsert, advance_event, begin_event, EventData, EventObject, EventOutcome, EventReply, EventState, EventStep,
    SignatureError, StripeEvent,
};

fn prices() -> PriceConfig {
    PriceConfig { hobby: Some("price_h".to_string()), pro: Some("price_p".to_string()) }
}

fn s(v: &str) -> String {
    v.to_string()
}

fn event(kind: &str, obj: EventObject) -> StripeEvent {
    StripeEvent { id: s("evt_1"), event_type: s(kind), data: EventData { object: obj } }
}

fn object(id: Option<&str>, customer: Option<&str>, subscription: Option<&str>, user: Option<&str>) -> EventObject {
    EventObject {
        id: id.map(s),
        customer: customer.map(s),
        subscription: subscription.map(s),
        metadata_user_id: user.map(s),
    }
}

fn stripe_subscription(price: &str) -> SubscriptionApiResp {
    SubscriptionApiResp {
        id: s("sub_1"),
        customer: s("cus_1"),
        status: s("active"),
        current_period_start: Some(100),
        current_period_end: Some(200),
        cancel_at_period_end: true,
        items: Some(SubscriptionItems { data: vec![SubscriptionItem { price: Price { id: s(price) } }] }),
    }
}

#[test]
fn checkout_event_fetches_then_upserts() {
    let e = event("checkout.session.completed", object(None, Some("cus_1"), Some("sub_1"), Some("user-1")));
    let (state, step) = begin_event(&e);
    match &step {
        EventStep::FetchSubscription { subscription_id } => assert_eq!(subscription_id, "sub_1"),
        _ => panic!("expected a fetch"),
    }
    let (state, step) = advance_event(state, EventReply::Subscription(stripe_subscription("price_p")), &prices());
    match &step {
        EventStep::Upsert { row } => {
            assert_eq!(row.user_id, "user-1");
            assert_eq!(row.stripe_customer_id, "cus_1");
            assert_eq!(row.stripe_subscription_id, "sub_1");
            assert_eq!(row.plan_tier, PlanTier::Pro);
            assert_eq!(row.status, "active");
            assert_eq!((row.current_period_start, row.current_period_end), (Some(100), Some(200)));
            assert!(row.cancel_at_period_end);
        },
        _ => panic!("expected an upsert"),
    }
    let (state, step) = advance_event(state, EventReply::Written, &prices());
    assert!(matches!(state, EventState::Finished));
    assert!(matches!(step, EventStep::Done { outcome: EventOutcome::Handled }));
}

#[test]
fn checkout_event_without_ids_fails() {
    for obj in [
        object(None, None, Some("sub_1"), Some("u")),
        object(None, Some("cus_1"), None, Some("u")),
        object(None, Some(""), Some("sub_1"), Some("u")),
    ] {
        let (state, step) = begin_event(&event("checkout.session.completed", obj));
        assert!(matches!(state, EventState::Finished));
        match step {
            EventStep::Fail { message } => assert_eq!(message, "checkout.session.completed missing ids"),
            _ => panic!("expected a failure"),
        }
    }
}

#[test]
fn checkout_event_without_user_upserts_empty_user() {
    let e = event("checkout.session.completed", object(None, Some("cus_1"), Some("sub_1"), None));
    let (state, _) = begin_event(&e);
    let (_, step) = advance_event(state, EventReply::Subscription(stripe_subscription("price_x")), &prices());
    match step {
        EventStep::Upsert { row } => {
            assert_eq!(row.user_id, "");
            assert_eq!(row.plan_tier, PlanTier::Free);
        },
        _ => panic!("expected an upsert"),
    }
}

#[test]
fn subscription_event_maps_customer_to_user() {
    for kind in ["customer.subscription.updated", "customer.subscription.created", "customer.subscription.deleted"] {
        let (state, step) = begin_event(&event(kind, object(Some("sub_1"), None, None, None)));
        assert!(matches!(step, EventStep::FetchSubscription { .. }));
        let (state, step) = advance_event(state, EventReply::Subscription(stripe_subscription("price_h")), &prices());
        match &step {
            EventStep::FindUser { customer_id } => assert_eq!(customer_id, "cus_1"),
            _ => panic!("expected a lookup"),
        }
        let (_, step) = advance_event(state, EventReply::User(Some(s("user-9"))), &prices());
        match step {
            EventStep::Upsert { row } => {
                assert_eq!(row.user_id, "user-9");
                assert_eq!(row.plan_tier, PlanTier::Hobby);
            },
            _ => panic!("expected an upsert"),
        }
    }
}

#[test]
fn subscription_event_without_local_user_writes_nothing() {
    let (state, _) = begin_event(&event("customer.subscription.updated", object(Some("sub_7"), None, None, None)));
    let (state, _) = advance_event(state, EventReply::Subscription(stripe_subscription("price_h")), &prices());
    let (state, step) = advance_event(state, EventReply::User(None), &prices());
    assert!(matches!(state, EventState::Finished));
    match step {
        EventStep::Done { outcome: EventOutcome::Unmapped { subscription_id } } => assert_eq!(subscription_id, "sub_7"),
        _ => panic!("expected an unmapped outcome"),
    }
}

#[test]
fn subscription_event_without_id_fails() {
    let (_, step) = begin_event(&event("customer.subscription.deleted", object(None, Some("cus_1"), None, None)));
    match step {
        EventStep::Fail { message } => assert_eq!(message, "subscription event missing id"),
        _ => panic!("expected a failure"),
    }
}

#[test]
fn failed_payment_marks_customer_past_due() {
    let (state, step) = begin_event(&event("invoice.payment_failed", object(None, Some("cus_3"), None, None)));
    match &step {
        EventStep::MarkPastDue { customer_id } => assert_eq!(customer_id, "cus_3"),
        _ => panic!("expected a past-due update"),
    }
    let (_, step) = advance_event(state, EventReply::Written, &prices());
    assert!(matches!(step, EventStep::Done { outcome: EventOutcome::Handled }));
}

#[test]
fn other_events_are_ignored_and_failures_propagate() {
    let (state, step) = begin_event(&event("charge.succeeded", object(None, None, None, None)));
    assert!(matches!(state, EventState::Finished));
    assert!(matches!(step, EventStep::Done { outcome: EventOutcome::Ignored }));
    let (state, _) = begin_event(&event("customer.subscription.updated", object(Some("sub_1"), None, None, None)));
    let (_, step) = advance_event(state, EventReply::Failed(s("stripe down")), &prices());
    match &step {
        EventStep::Fail { message } => assert_eq!(message, "stripe down"),
        _ => panic!("expected a failure"),
    }
    let r = handled_response(&step);
    assert_eq!((r.status, r.body.as_str()), (500, "stripe down"));
    let ok = handled_response(&EventStep::Done { outcome: EventOutcome::Ignored });
    assert_eq!((ok.status, ok.body.as_str()), (200, "ok"));
}

fn checkout_request(tier: &str) -> CheckoutRequest {
    CheckoutRequest { tier: s(tier), success_url: s("https://ok"), cancel_url: s("https://no") }
}

fn form_value<'a>(form: &'a [(String, String)], key: &str) -> Option<&'a str> {
    form.iter().find(|(k, _)| k == key).map(|(_, v)| v.as_str())
}

#[test]
fn checkout_with_existing_customer() {
    let (state, step) = begin_checkout("user-1", "a@b.c", &checkout_request("pro"), &prices());
    match &step {
        CheckoutStep::LookupCustomer { user_id } => assert_eq!(user_id, "user-1"),
        _ => panic!("expected a lookup"),
    }
    let (state, step) = advance_checkout(state, CheckoutReply::Customer(Some(s("cus_1"))));
    match &step {
        CheckoutStep::CreateSession { request } => {
            assert_eq!(request.url, "https://api.stripe.com/v1/checkout/sessions");
            assert_eq!(form_value(&request.form, "customer"), Some("cus_1"));
            assert_eq!(form_value(&request.form, "line_items[0][price]"), Some("price_p"));
            assert_eq!(form_value(&request.form, "success_url"), Some("https://ok"));
        },
        _ => panic!("expected a session"),
    }
    let session = CheckoutSession { id: s("cs_1"), url: None, customer: Some(s("cus_1")) };
    let (state, step) = advance_checkout(state, CheckoutReply::SessionCreated(session));
    assert!(matches!(state, CheckoutState::Finished));
    match step {
        CheckoutStep::Respond { result: Ok(resp) } => {
            assert_eq!(resp.session_id, "cs_1");
            assert_eq!(resp.url, "");
        },
        _ => panic!("expected a response"),
    }
}

#[test]
fn checkout_creates_and_stores_a_customer_first() {
    let (state, _) = begin_checkout("user-2", "x@y.z", &checkout_request("hobby"), &prices());
    let (state, step) = advance_checkout(state, CheckoutReply::Customer(None));
    match &step {
        CheckoutStep::CreateCustomer { request } => {
            assert_eq!(request.method, HttpMethod::Post);
            assert_eq!(request.idempotency_key.as_deref(), Some("customer:user-2"));
            assert_eq!(form_value(&request.form, "email"), Some("x@y.z"));
        },
        _ => panic!("expected a customer creation"),
    }
    let (state, step) = advance_checkout(state, CheckoutReply::CustomerCreated(s("cus_new")));
    match &step {
        CheckoutStep::StoreCustomer { user_id, customer_id } => {
            assert_eq!(user_id, "user-2");
            assert_eq!(customer_id, "cus_new");
        },
        _ => panic!("expected a store"),
    }
    let (state, step) = advance_checkout(state, CheckoutReply::CustomerStored);
    match &step {
        CheckoutStep::CreateSession { request } => {
            assert_eq!(form_value(&request.form, "customer"), Some("cus_new"));
            assert_eq!(form_value(&request.form, "line_items[0][price]"), Some("price_h"));
        },
        _ => panic!("expected a session"),
    }
    let session = CheckoutSession { id: s("cs_2"), url: Some(s("https://pay")), customer: None };
    let (_, step) = advance_checkout(state, CheckoutReply::SessionCreated(session));
    match step {
        CheckoutStep::Respond { result: Ok(resp) } => assert_eq!(resp.url, "https://pay"),
        _ => panic!("expected a response"),
    }
}

#[test]
fn checkout_refuses_tiers_without_a_price() {
    for tier in ["free", "enterprise", "gold"] {
        let (state, step) = begin_checkout("u", "e", &checkout_request(tier), &prices());
        assert!(matches!(state, CheckoutState::Finished));
        match step {
            CheckoutStep::Respond { result: Err(e) } => {
                assert_eq!(e.status, 502);
                assert_eq!(e.code, "INVALID_TIER");
                assert_eq!(e.message, format!("no Stripe price ID configured for tier '{}'", tier));
            },
            _ => panic!("expected an error"),
        }
    }
    let unconfigured = PriceConfig { hobby: None, pro: None };
    let (_, step) = begin_checkout("u", "e", &checkout_request("pro"), &unconfigured);
    assert!(matches!(step, CheckoutStep::Respond { result: Err(_) }));
}

#[test]
fn checkout_failures_become_errors() {
    let (state, _) = begin_checkout("u", "e", &checkout_request("pro"), &prices());
    let (_, step) = advance_checkout(state, CheckoutReply::DbFailed(s("connection reset")));
    match step {
        CheckoutStep::Respond { result: Err(e) } => {
            assert_eq!((e.status, e.code.as_str(), e.message.as_str()), (500, "DB_ERROR", "connection reset"))
        },
        _ => panic!("expected an error"),
    }
    let (state, _) = begin_checkout("u", "e", &checkout_request("pro"), &prices());
    let (state, _) = advance_checkout(state, CheckoutReply::Customer(None));
    let (_, step) = advance_checkout(state, CheckoutReply::StripeFailed(s("card declined")));
    match step {
        CheckoutStep::Respond { result: Err(e) } => {
            assert_eq!((e.status, e.code.as_str(), e.message.as_str()), (502, "STRIPE_ERROR", "card declined"))
        },
        _ => panic!("expected an error"),
    }
}

#[test]
fn portal_flow() {
    let (state, step) = begin_portal("user-1", "https://back");
    assert!(matches!(step, PortalStep::LookupCustomer { .. }));
    let (state, step) = advance_portal(state, PortalReply::Customer(Some(s("cus_1"))));
    match &step {
        PortalStep::CreatePortal { request } => {
            assert_eq!(request.url, "https://api.stripe.com/v1/billing_portal/sessions");
            assert_eq!(form_value(&request.form, "return_url"), Some("https://back"));
        },
        _ => panic!("expected a portal session"),
    }
    let (state, step) = advance_portal(state, PortalReply::PortalCreated(s("https://portal")));
    assert!(matches!(state, PortalState::Finished));
    match step {
        PortalStep::Respond { result: Ok(url) } => assert_eq!(url, "https://portal"),
        _ => panic!("expected a url"),
    }
}

#[test]
fn portal_without_customer() {
    let (state, _) = begin_portal("user-1", "https://back");
    let (_, step) = advance_portal(state, PortalReply::Customer(None));
    match step {
        PortalStep::Respond { result: Err(e) } => {
            assert_eq!(e.status, 502);
            assert_eq!(e.code, "NO_CUSTOMER");
            assert_eq!(e.message, "no Stripe customer for user");
        },
        _ => panic!("expected an error"),
    }
}

#[test]
fn error_bodies() {
    let e = db_err("boom");
    assert_eq!((e.status, e.code.as_str(), e.message.as_str()), (500, "DB_ERROR", "boom"));
    let e = upstream_err("STRIPE_ERROR", "down");
    assert_eq!((e.status, e.code.as_str(), e.message.as_str()), (502, "STRIPE_ERROR", "down"));
}

#[test]
fn webhook_admission() {
    let body: &[u8] = b"{}";
    let r = check_webhook(body, None, Some("whsec"));
    let f = r.unwrap_err();
    assert_eq!((f.response.status, f.response.body.as_str()), (400, "missing signature"));
    let f = check_webhook(body, Some("t=1,v1=00"), None).unwrap_err();
    assert_eq!((f.response.status, f.response.body.as_str()), (500, "STRIPE_WEBHOOK_SECRET not set"));
    let f = check_webhook(body, Some("v1=00"), Some("whsec")).unwrap_err();
    assert_eq!((f.response.status, f.response.body.as_str()), (401, "bad signature"));
    assert_eq!(f.signature_error, Some(SignatureError::MissingTimestamp));
    let now = chrono::Utc::now().timestamp();
    let key = ring::hmac::Key::new(ring::hmac::HMAC_SHA256, b"whsec");
    let tag = hex::encode(ring::hmac::sign(&key, format!("{}.{{}}", now).as_bytes()).as_ref());
    let header = format!("t={},v1={}", now, tag);
    assert!(check_webhook(body, Some(&header), Some("whsec")).is_ok());
    let bad = bad_json_response("expected value at line 1");
    assert_eq!((bad.status, bad.body.as_str()), (400, "bad JSON: expected value at line 1"));
}

#[test]
fn subscription_and_usage_views() {
    let plan = for_tier(PlanTier::Hobby);
    let none = subscription_summary(&plan, &None);
    assert_eq!(none.tier, "hobby");
    assert_eq!(none.display_name, "Hobby");
    assert_eq!(none.monthly_price_usd, 9);
    assert_eq!(none.status, "active");
    assert!(!none.cancel_at_period_end);
    let row = StoredSubscription { status: s("past_due"), cancel_at_period_end: true };
    let some = subscription_summary(&plan, &Some(row));
    assert_eq!(some.status, "past_due");
    assert!(some.cancel_at_period_end);
    let used = UsageCounts { llm_intents: 3, compiles: 4, deploys: 5, devices_active: 2 };
    let u = usage_limits(&for_tier(PlanTier::Enterprise), &used);
    assert_eq!(u.llm_intents, Counter { used: 3, limit: -1 });
    assert_eq!(u.devices_active, Counter { used: 2, limit: -1 });
    let u = usage_limits(&plan, &used);
    assert_eq!(u.compiles, Counter { used: 4, limit: 2_000 });
    assert_eq!(u.deploys, Counter { used: 5, limit: 500 });
}

#[test]
fn redelivered_checkout_event_builds_the_same_row() {
    let e = event("checkout.session.completed", object(None, Some("cus_1"), Some("sub_1"), Some("user-1")));
    let mut rows = Vec::new();
    for _ in 0..2 {
        let (state, _) = begin_event(&e);
        let (_, step) = advance_event(state, EventReply::Subscription(stripe_subscription("price_h")), &prices());
        match step {
            EventStep::Upsert { row } => rows.push(row),
            _ => panic!("expected an upsert"),
        }
    }
    let key = |r: &billing::webhook::SubscriptionUpsert| {
        (
            r.user_id.clone(),
            r.stripe_customer_id.clone(),
            r.stripe_subscription_id.clone(),
            r.plan_tier,
            r.status.clone(),
            r.current_period_start,
            r.current_period_end,
            r.cancel_at_period_end,
        )
    };
    assert_eq!(key(&rows[0]), key(&rows[1]));
}

#[test]
fn replies_are_checked_against_the_last_step() {
    let (state, _) = begin_event(&event("customer.subscription.updated", object(Some("sub_1"), None, None, None)));
    assert!(event_accepts(&state, &EventReply::Subscription(stripe_subscription("p"))));
    assert!(event_accepts(&state, &EventReply::Failed(s("x"))));
    assert!(!event_accepts(&state, &EventReply::Written));
    assert!(!event_accepts(&state, &EventReply::User(None)));
    assert!(!event_accepts(&EventState::Finished, &EventReply::Written));
    let (state, _) = begin_event(&event("invoice.payment_failed", object(None, Some("c"), None, None)));
    assert!(event_accepts(&state, &EventReply::Written));

    let (flow, _) = begin_checkout("u", "e", &checkout_request("pro"), &prices());
    assert!(checkout_accepts(&flow, &CheckoutReply::Customer(None)));
    assert!(checkout_accepts(&flow, &CheckoutReply::DbFailed(s("x"))));
    assert!(!checkout_accepts(&flow, &CheckoutReply::StripeFailed(s("x"))));
    assert!(!checkout_accepts(&flow, &CheckoutReply::CustomerStored));
    let (flow, _) = advance_checkout(flow, CheckoutReply::Customer(None));
    assert!(checkout_accepts(&flow, &CheckoutReply::CustomerCreated(s("c"))));
    assert!(!checkout_accepts(&flow, &CheckoutReply::DbFailed(s("x"))));
    assert!(!checkout_accepts(&CheckoutState::Finished, &CheckoutReply::CustomerStored));

    let (flow, _) = begin_portal("u", "r");
    assert!(portal_accepts(&flow, &PortalReply::Customer(None)));
    assert!(!portal_accepts(&flow, &PortalReply::PortalCreated(s("x"))));
    let (flow, _) = advance_portal(flow, PortalReply::Customer(Some(s("c"))));
    assert!(portal_accepts(&flow, &PortalReply::StripeFailed(s("x"))));
    assert!(!portal_accepts(&flow, &PortalReply::DbFailed(s("x"))));
    assert!(!portal_accepts(&PortalState::Finished, &PortalReply::DbFailed(s("x"))));
}

#[test]
fn period_bounds_outside_chrono_dates_are_not_stored() {
    let mut sub = stripe_subscription("price_h");
    sub.current_period_start = Some(i64::MAX);
    sub.current_period_end = Some(i64::MIN);
    let row = subscription_upsert("user-1", &sub, &prices());
    assert_eq!((row.current_period_start, row.current_period_end), (None, None));
    sub.current_period_start = Some(0);
    sub.current_period_end = Some(-86_400);
    let row = subscription_upsert("user-1", &sub, &prices());
    assert_eq!((row.current_period_start, row.current_period_end), (Some(0), Some(-86_400)));
    sub.current_period_start = None;
    let row = subscription_upsert("user-1", &sub, &prices());
    assert_eq!(row.current_period_start, None);
    let max = chrono::DateTime::<chrono::Utc>::MAX_UTC.timestamp();
    sub.current_period_start = Some(max);
    sub.current_period_end = Some(max + 1);
    let row = subscription_upsert("user-1", &sub, &prices());
    assert_eq!((row.current_period_start, row.current_period_end), (Some(max), None));
}
