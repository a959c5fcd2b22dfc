//! The decisions behind the billing HTTP endpoints: error bodies, the
//! subscription and usage views, and the checkout, portal and webhook flows
//! as steps between the outside calls that the HTTP layer makes.

use vstd::prelude::*;
use vstd::string::{StringExecFns, StringSliceAdditionalSpecFns};
use crate::plans::{configured_price, tier_name, tier_named, Plan, PlanTier, PriceConfig};
use crate::primitives::HMAC_INPUT_LIMIT;
use crate::stripe::{
    checkout_session_request, customer_request, is_checkout_session_request, is_customer_request,
    is_portal_session_request, portal_session_request, CheckoutSession, StripeRequest,
};
use crate::webhook::{clock_outcome, verify_signature, EventStep, SignatureError};

verus! {

/// An error answer: HTTP status, machine-readable code, human-readable message.
#[derive(Debug, Clone)]
pub struct ApiError {
    pub status: u16,
    pub code: String,
    pub message: String,
}

pub open spec fn is_error(e: ApiError, status: u16, code: Seq<char>, message: Seq<char>) -> bool {
    e.status == status && e.code@ == code && e.message@ == message
}

/// A database failure: 500 with code `DB_ERROR`.
pub fn db_err(message: &str) -> (e: ApiError)
    ensures
        is_error(e, 500, "DB_ERROR"@, message@),
{
    ApiError { status: 500, code: String::from_str("DB_ERROR"), message: String::from_str(message) }
}

/// A failure upstream (Stripe, or missing configuration for it): 502.
pub fn upstream_err(code: &str, message: &str) -> (e: ApiError)
    ensures
        is_error(e, 502, code@, message@),
{
    ApiError { status: 502, code: String::from_str(code), message: String::from_str(message) }
}

/// What the subscriptions table holds for a user, as far as the view needs it.
#[derive(Debug, Clone)]
pub struct StoredSubscription {
    pub status: String,
    pub cancel_at_period_end: bool,
}

/// The current user's subscription state (the period end travels beside it).
#[derive(Debug, Clone)]
pub struct SubscriptionSummary {
    pub tier: String,
    pub display_name: String,
    pub monthly_price_usd: u32,
    pub status: String,
    pub cancel_at_period_end: bool,
}

/// The summary of a user's plan and stored subscription: a user with no
/// stored row is `active` and not cancelling.
pub fn subscription_summary(plan: &Plan, row: &Option<StoredSubscription>) -> (s: SubscriptionSummary)
    ensures
        s.tier@ == tier_name(plan.tier),
        s.display_name@ == plan.display_name@,
        s.monthly_price_usd == plan.monthly_price_usd,
        s.status@ == (match row {
            Some(r) => r.status@,
            None => "active"@,
        }),
        s.cancel_at_period_end == (match row {
            Some(r) => r.cancel_at_period_end,
            None => false,
        }),
{
    let (status, cancel_at_period_end) = match row {
        Some(r) => (r.status.clone(), r.cancel_at_period_end),
        None => (String::from_str("active"), false),
    };
    SubscriptionSummary {
        tier: String::from_str(plan.tier.as_str()),
        display_name: String::from_str(plan.display_name),
        monthly_price_usd: plan.monthly_price_usd,
        status,
        cancel_at_period_end,
    }
}

/// Usage in the current billing period.
#[derive(Debug, Clone, Copy)]
pub struct UsageCounts {
    pub llm_intents: i32,
    pub compiles: i32,
    pub deploys: i32,
    pub devices_active: i32,
}

/// A usage counter beside its limit (-1: unlimited).
#[derive(Debug, Clone, Copy, PartialEq, Eq, Structural)]
pub struct Counter {
    pub used: i32,
    pub limit: i32,
}

#[derive(Debug, Clone, Copy)]
pub struct UsageLimits {
    pub llm_intents: Counter,
    pub compiles: Counter,
    pub deploys: Counter,
    pub devices_active: Counter,
}

/// Each usage counter beside the plan's limit for it.
pub fn usage_limits(plan: &Plan, used: &UsageCounts) -> (u: UsageLimits)
    ensures
        u.llm_intents == (Counter { used: used.llm_intents, limit: plan.llm_intents_per_month }),
        u.compiles == (Counter { used: used.compiles, limit: plan.compiles_per_month }),
        u.deploys == (Counter { used: used.deploys, limit: plan.deploys_per_month }),
        u.devices_active == (Counter { used: used.devices_active, limit: plan.max_devices }),
{
    UsageLimits {
        llm_intents: Counter { used: used.llm_intents, limit: plan.llm_intents_per_month },
        compiles: Counter { used: used.compiles, limit: plan.compiles_per_month },
        deploys: Counter { used: used.deploys, limit: plan.deploys_per_month },
        devices_active: Counter { used: used.devices_active, limit: plan.max_devices },
    }
}


/// A request to start a checkout for a tier.
#[derive(Debug, Clone)]
pub struct CheckoutRequest {
    pub tier: String,
    pub success_url: String,
    pub cancel_url: String,
}

/// The Checkout Session to send the user to.
#[derive(Debug, Clone)]
pub struct CheckoutResponse {
    pub session_id: String,
    pub url: String,
}

/// What a checkout carries once its price is known.
#[derive(Debug, Clone)]
pub struct CheckoutPlan {
    pub user_id: String,
    pub email: String,
    pub price_id: String,
    pub success_url: String,
    pub cancel_url: String,
}

/// `plan` is the checkout of `req` by the user, at the given price.
pub open spec fn is_plan_of(
    plan: CheckoutPlan,
    user_id: Seq<char>,
    email: Seq<char>,
    price_id: Seq<char>,
    req: CheckoutRequest,
) -> bool {
    &&& plan.user_id@ == user_id
    &&& plan.email@ == email
    &&& plan.price_id@ == price_id
    &&& plan.success_url@ == req.success_url@
    &&& plan.cancel_url@ == req.cancel_url@
}

/// A checkout carries the request's own return addresses, the user's
/// identity and the price it was begun with, each in its own place.
pub proof fn lemma_plan_keeps_request(
    plan: CheckoutPlan,
    user_id: Seq<char>,
    email: Seq<char>,
    price_id: Seq<char>,
    req: CheckoutRequest,
)
    requires
        is_plan_of(plan, user_id, email, price_id, req),
    ensures
        plan.user_id@ == user_id,
        plan.email@ == email,
        plan.price_id@ == price_id,
        plan.success_url@ == req.success_url@,
        plan.cancel_url@ == req.cancel_url@,
{
}

/// The Checkout Session a checkout asks for is for that customer and that
/// price, returns to the success URL after payment and to the cancel URL when
/// the user backs out.
pub proof fn lemma_session_request_fields(r: StripeRequest, customer_id: Seq<char>, plan: CheckoutPlan)
    requires
        is_session_for(r, customer_id, plan),
    ensures
        r.method == crate::stripe::HttpMethod::Post,
        crate::stripe::form_view(r.form@).contains(("customer"@, customer_id)),
        crate::stripe::form_view(r.form@).contains(("line_items[0][price]"@, plan.price_id@)),
        crate::stripe::form_view(r.form@).contains(("success_url"@, plan.success_url@)),
        crate::stripe::form_view(r.form@).contains(("cancel_url"@, plan.cancel_url@)),
{
    let f = crate::stripe::form_view(r.form@);
    assert(f[1] == ("customer"@, customer_id));
    assert(f[2] == ("line_items[0][price]"@, plan.price_id@));
    assert(f[4] == ("success_url"@, plan.success_url@));
    assert(f[5] == ("cancel_url"@, plan.cancel_url@));
}

/// `r` asks Stripe for the Checkout Session of `plan` for a customer.
pub open spec fn is_session_for(r: StripeRequest, customer_id: Seq<char>, plan: CheckoutPlan) -> bool {
    is_checkout_session_request(r, customer_id, plan.price_id@, plan.success_url@, plan.cancel_url@)
}

/// Where a checkout stands between outside calls.
pub enum CheckoutState {
    /// The user's Stripe customer is being looked up in the database.
    AwaitCustomer { plan: CheckoutPlan },
    /// A Stripe customer is being created for the user.
    AwaitNewCustomer { plan: CheckoutPlan },
    /// The new customer is being stored for the user.
    AwaitCustomerStored { plan: CheckoutPlan, customer_id: String },
    /// The Checkout Session is being created.
    AwaitSession,
    Finished,
}

/// What the caller is to do next.
pub enum CheckoutStep {
    /// Read the user's stored Stripe customer ID; reply `Customer`.
    LookupCustomer { user_id: String },
    /// Send this request to Stripe; reply `CustomerCreated` with the new ID.
    CreateCustomer { request: StripeRequest },
    /// Store the customer for the user (on the free tier, active, if the user
    /// has no row yet); reply `CustomerStored`.
    StoreCustomer { user_id: String, customer_id: String },
    /// Send this request to Stripe; reply `SessionCreated`.
    CreateSession { request: StripeRequest },
    /// Answer the HTTP request.
    Respond { result: Result<CheckoutResponse, ApiError> },
}

pub enum CheckoutReply {
    Customer(Option<String>),
    CustomerCreated(String),
    CustomerStored,
    SessionCreated(CheckoutSession),
    /// A database call failed with this message.
    DbFailed(String),
    /// A Stripe call failed with this message.
    StripeFailed(String),
}

pub open spec fn checkout_calls_left(state: CheckoutState) -> nat {
    match state {
        CheckoutState::AwaitCustomer { .. } => 4,
        CheckoutState::AwaitNewCustomer { .. } => 3,
        CheckoutState::AwaitCustomerStored { .. } => 2,
        CheckoutState::AwaitSession => 1,
        CheckoutState::Finished => 0,
    }
}

pub open spec fn checkout_expects(state: CheckoutState, reply: CheckoutReply) -> bool {
    match state {
        CheckoutState::AwaitCustomer { .. } => reply is Customer || reply is DbFailed,
        CheckoutState::AwaitNewCustomer { .. } => reply is CustomerCreated || reply is StripeFailed,
        CheckoutState::AwaitCustomerStored { .. } => reply is CustomerStored || reply is DbFailed,
        CheckoutState::AwaitSession => reply is SessionCreated || reply is StripeFailed,
        CheckoutState::Finished => false,
    }
}

/// A step answers the HTTP request exactly when the state is `Finished`.
pub open spec fn checkout_step_fits(state: CheckoutState, step: CheckoutStep) -> bool {
    (state is Finished) == (step is Respond)
}

/// Whether `reply` answers the step that led to `state`, so that
/// `advance_checkout` may be called with them.
pub fn checkout_accepts(state: &CheckoutState, reply: &CheckoutReply) -> (b: bool)
    ensures
        b == checkout_expects(*state, *reply),
{
    match state {
        CheckoutState::AwaitCustomer { .. } => match reply {
            CheckoutReply::Customer(_) | CheckoutReply::DbFailed(_) => true,
            _ => false,
        },
        CheckoutState::AwaitNewCustomer { .. } => match reply {
            CheckoutReply::CustomerCreated(_) | CheckoutReply::StripeFailed(_) => true,
            _ => false,
        },
        CheckoutState::AwaitCustomerStored { .. } => match reply {
            CheckoutReply::CustomerStored | CheckoutReply::DbFailed(_) => true,
            _ => false,
        },
        CheckoutState::AwaitSession => match reply {
            CheckoutReply::SessionCreated(_) | CheckoutReply::StripeFailed(_) => true,
            _ => false,
        },
        CheckoutState::Finished => false,
    }
}

fn checkout_failure(e: ApiError) -> (r: (CheckoutState, CheckoutStep))
    ensures
        r.0 is Finished,
        r.1 == (CheckoutStep::Respond { result: Err(e) }),
{
    (CheckoutState::Finished, CheckoutStep::Respond { result: Err(e) })
}

/// The first step of a checkout by a user: the requested tier must have a
/// configured Stripe price.
pub fn begin_checkout(user_id: &str, email: &str, req: &CheckoutRequest, prices: &PriceConfig) -> (r: (
    CheckoutState,
    CheckoutStep,
))
    ensures
        checkout_step_fits(r.0, r.1),
        match configured_price(tier_named(req.tier@), *prices) {
            None => r.1 matches CheckoutStep::Respond { result: Err(e) } && is_error(
                e,
                502,
                "INVALID_TIER"@,
                "no Stripe price ID configured for tier '"@ + req.tier@ + "'"@,
            ),
            Some(price) => {
                &&& r.0 matches CheckoutState::AwaitCustomer { plan } && is_plan_of(
                    plan,
                    user_id@,
                    email@,
                    price,
                    *req,
                ) && plan.user_id@ == user_id@ && plan.email@ == email@ && plan.price_id@ == price
                    && plan.success_url@ == req.success_url@ && plan.cancel_url@ == req.cancel_url@
                &&& r.1 matches CheckoutStep::LookupCustomer { user_id: u } && u@ == user_id@
            },
        },
{
    let tier = PlanTier::from_str(req.tier.as_str());
    match tier.stripe_price_id(prices) {
        None => {
            let mut message = String::from_str("no Stripe price ID configured for tier '");
            message.append(req.tier.as_str());
            message.append("'");
            checkout_failure(upstream_err("INVALID_TIER", message.as_str()))
        },
        Some(price_id) => {
            let plan = CheckoutPlan {
                user_id: String::from_str(user_id),
                email: String::from_str(email),
                price_id,
                success_url: req.success_url.clone(),
                cancel_url: req.cancel_url.clone(),
            };
            (
                CheckoutState::AwaitCustomer { plan },
                CheckoutStep::LookupCustomer { user_id: String::from_str(user_id) },
            )
        },
    }
}

fn session_step(customer_id: &str, plan: &CheckoutPlan) -> (r: (CheckoutState, CheckoutStep))
    ensures
        r.0 is AwaitSession,
        r.1 matches CheckoutStep::CreateSession { request } && is_session_for(request, customer_id@, *plan),
{
    let request = checkout_session_request(
        customer_id,
        plan.price_id.as_str(),
        plan.success_url.as_str(),
        plan.cancel_url.as_str(),
    );
    (CheckoutState::AwaitSession, CheckoutStep::CreateSession { request })
}

/// The next step of a checkout, given the reply to the last one.
pub fn advance_checkout(state: CheckoutState, reply: CheckoutReply) -> (r: (CheckoutState, CheckoutStep))
    requires
        checkout_expects(state, reply),
    ensures
        checkout_step_fits(r.0, r.1),
        checkout_calls_left(r.0) < checkout_calls_left(state),
        reply matches CheckoutReply::DbFailed(m) ==> (r.1 matches CheckoutStep::Respond {
            result: Err(e),
        } && is_error(e, 500, "DB_ERROR"@, m@)),
        reply matches CheckoutReply::StripeFailed(m) ==> (r.1 matches CheckoutStep::Respond {
            result: Err(e),
        } && is_error(e, 502, "STRIPE_ERROR"@, m@)),
        match (state, reply) {
            (CheckoutState::AwaitCustomer { plan }, CheckoutReply::Customer(Some(customer_id))) => {
                &&& r.0 is AwaitSession
                &&& r.1 matches CheckoutStep::CreateSession { request } && is_session_for(
                    request,
                    customer_id@,
                    plan,
                )
            },
            (CheckoutState::AwaitCustomer { plan }, CheckoutReply::Customer(None)) => {
                &&& r.0 matches CheckoutState::AwaitNewCustomer { plan: p } && p == plan
                &&& r.1 matches CheckoutStep::CreateCustomer { request } && is_customer_request(
                    request,
                    plan.user_id@,
                    plan.email@,
                )
            },
            (CheckoutState::AwaitNewCustomer { plan }, CheckoutReply::CustomerCreated(customer_id)) => {
                &&& r.0 matches CheckoutState::AwaitCustomerStored { plan: p, customer_id: c } && p
                    == plan && c == customer_id
                &&& r.1 matches CheckoutStep::StoreCustomer { user_id: u, customer_id: c } && u@
                    == plan.user_id@ && c@ == customer_id@
            },
            (
                CheckoutState::AwaitCustomerStored { plan, customer_id },
                CheckoutReply::CustomerStored,
            ) => {
                &&& r.0 is AwaitSession
                &&& r.1 matches CheckoutStep::CreateSession { request } && is_session_for(
                    request,
                    customer_id@,
                    plan,
                )
            },
            (CheckoutState::AwaitSession, CheckoutReply::SessionCreated(session)) => {
                r.1 matches CheckoutStep::Respond { result: Ok(resp) } && resp.session_id@
                    == session.id@ && resp.url@ == (match session.url {
                    Some(u) => u@,
                    None => Seq::<char>::empty(),
                })
            },
            _ => true,
        },
{
    match reply {
        CheckoutReply::DbFailed(m) => checkout_failure(db_err(m.as_str())),
        CheckoutReply::StripeFailed(m) => checkout_failure(upstream_err("STRIPE_ERROR", m.as_str())),
        CheckoutReply::Customer(found) => match state {
            CheckoutState::AwaitCustomer { plan } => match found {
                Some(customer_id) => session_step(customer_id.as_str(), &plan),
                None => {
                    let request = customer_request(plan.user_id.as_str(), plan.email.as_str());
                    (CheckoutState::AwaitNewCustomer { plan }, CheckoutStep::CreateCustomer { request })
                },
            },
            _ => {
                proof {
                    assert(false);
                }
                (CheckoutState::Finished, CheckoutStep::Respond { result: Err(db_err("")) })
            },
        },
        CheckoutReply::CustomerCreated(customer_id) => match state {
            CheckoutState::AwaitNewCustomer { plan } => {
                let user_id = plan.user_id.clone();
                let stored = customer_id.clone();
                (
                    CheckoutState::AwaitCustomerStored { plan, customer_id },
                    CheckoutStep::StoreCustomer { user_id, customer_id: stored },
                )
            },
            _ => {
                proof {
                    assert(false);
                }
                (CheckoutState::Finished, CheckoutStep::Respond { result: Err(db_err("")) })
            },
        },
        CheckoutReply::CustomerStored => match state {
            CheckoutState::AwaitCustomerStored { plan, customer_id } => session_step(
                customer_id.as_str(),
                &plan,
            ),
            _ => {
                proof {
                    assert(false);
                }
                (CheckoutState::Finished, CheckoutStep::Respond { result: Err(db_err("")) })
            },
        },
        CheckoutReply::SessionCreated(session) => {
            let url = match session.url {
                Some(u) => u,
                None => String::new(),
            };
            (
                CheckoutState::Finished,
                CheckoutStep::Respond { result: Ok(CheckoutResponse { session_id: session.id, url }) },
            )
        },
    }
}

/// Where a billing-portal request stands between outside calls.
pub enum PortalState {
    /// The user's Stripe customer is being looked up in the database.
    AwaitCustomer { return_url: String },
    /// The portal session is being created.
    AwaitPortal,
    Finished,
}

pub enum PortalStep {
    /// Read the user's stored Stripe customer ID; reply `Customer`.
    LookupCustomer { user_id: String },
    /// Send this request to Stripe; reply `PortalCreated` with the session URL.
    CreatePortal { request: StripeRequest },
    /// Answer the HTTP request with the portal URL or an error.
    Respond { result: Result<String, ApiError> },
}

pub enum PortalReply {
    Customer(Option<String>),
    PortalCreated(String),
    DbFailed(String),
    StripeFailed(String),
}

pub open spec fn portal_expects(state: PortalState, reply: PortalReply) -> bool {
    match state {
        PortalState::AwaitCustomer { .. } => reply is Customer || reply is DbFailed,
        PortalState::AwaitPortal => reply is PortalCreated || reply is StripeFailed,
        PortalState::Finished => false,
    }
}

pub open spec fn portal_step_fits(state: PortalState, step: PortalStep) -> bool {
    (state is Finished) == (step is Respond)
}

/// Whether `reply` answers the step that led to `state`, so that
/// `advance_portal` may be called with them.
pub fn portal_accepts(state: &PortalState, reply: &PortalReply) -> (b: bool)
    ensures
        b == portal_expects(*state, *reply),
{
    match state {
        PortalState::AwaitCustomer { .. } => match reply {
            PortalReply::Customer(_) | PortalReply::DbFailed(_) => true,
            _ => false,
        },
        PortalState::AwaitPortal => match reply {
            PortalReply::PortalCreated(_) | PortalReply::StripeFailed(_) => true,
            _ => false,
        },
        PortalState::Finished => false,
    }
}

/// The first step of opening the billing portal for a user.
pub fn begin_portal(user_id: &str, return_url: &str) -> (r: (PortalState, PortalStep))
    ensures
        r.0 matches PortalState::AwaitCustomer { return_url: u } && u@ == return_url@,
        r.1 matches PortalStep::LookupCustomer { user_id: u } && u@ == user_id@,
{
    (
        PortalState::AwaitCustomer { return_url: String::from_str(return_url) },
        PortalStep::LookupCustomer { user_id: String::from_str(user_id) },
    )
}

/// The next step of opening the billing portal, given the reply to the last one.
pub fn advance_portal(state: PortalState, reply: PortalReply) -> (r: (PortalState, PortalStep))
    requires
        portal_expects(state, reply),
    ensures
        portal_step_fits(r.0, r.1),
        match (state, reply) {
            (PortalState::AwaitCustomer { return_url }, PortalReply::Customer(Some(customer_id))) => {
                &&& r.0 is AwaitPortal
                &&& r.1 matches PortalStep::CreatePortal { request } && is_portal_session_request(
                    request,
                    customer_id@,
                    return_url@,
                )
            },
            (PortalState::AwaitCustomer { .. }, PortalReply::Customer(None)) => {
                r.1 matches PortalStep::Respond { result: Err(e) } && is_error(
                    e,
                    502,
                    "NO_CUSTOMER"@,
                    "no Stripe customer for user"@,
                )
            },
            (_, PortalReply::DbFailed(m)) => {
                r.1 matches PortalStep::Respond { result: Err(e) } && is_error(e, 500, "DB_ERROR"@, m@)
            },
            (_, PortalReply::PortalCreated(url)) => {
                r.1 matches PortalStep::Respond { result: Ok(u) } && u@ == url@
            },
            (_, PortalReply::StripeFailed(m)) => {
                r.1 matches PortalStep::Respond { result: Err(e) } && is_error(
                    e,
                    502,
                    "STRIPE_ERROR"@,
                    m@,
                )
            },
            _ => true,
        },
{
    match reply {
        PortalReply::Customer(found) => match state {
            PortalState::AwaitCustomer { return_url } => match found {
                Some(customer_id) => {
                    let request = portal_session_request(customer_id.as_str(), return_url.as_str());
                    (PortalState::AwaitPortal, PortalStep::CreatePortal { request })
                },
                None => (
                    PortalState::Finished,
                    PortalStep::Respond {
                        result: Err(upstream_err("NO_CUSTOMER", "no Stripe customer for user")),
                    },
                ),
            },
            _ => {
                proof {
                    assert(false);
                }
                (PortalState::Finished, PortalStep::Respond { result: Err(db_err("")) })
            },
        },
        PortalReply::PortalCreated(url) => (PortalState::Finished, PortalStep::Respond { result: Ok(url) }),
        PortalReply::DbFailed(m) => (
            PortalState::Finished,
            PortalStep::Respond { result: Err(db_err(m.as_str())) },
        ),
        PortalReply::StripeFailed(m) => (
            PortalState::Finished,
            PortalStep::Respond { result: Err(upstream_err("STRIPE_ERROR", m.as_str())) },
        ),
    }
}

/// A plain-text answer to Stripe's webhook call.
#[derive(Debug, Clone)]
pub struct WebhookResponse {
    pub status: u16,
    pub body: String,
}

pub open spec fn is_response(r: WebhookResponse, status: u16, body: Seq<char>) -> bool {
    r.status == status && r.body@ == body
}

/// A webhook call turned away before its event is read.
#[derive(Debug, Clone)]
pub struct WebhookRefusal {
    pub response: WebhookResponse,
    /// Why the signature was refused, where it was.
    pub signature_error: Option<SignatureError>,
}

fn refusal(status: u16, body: &str, signature_error: Option<SignatureError>) -> (r: WebhookRefusal)
    ensures
        is_response(r.response, status, body@),
        r.signature_error == signature_error,
{
    WebhookRefusal { response: WebhookResponse { status, body: String::from_str(body) }, signature_error }
}

/// Admission of a call to the webhook route, which carries no user credentials: the
/// `Stripe-Signature` header must be present (else 400), the webhook secret
/// configured (else 500), and the signature valid (else 401, which is also
/// the answer when the system clock reads before the Unix epoch).
pub fn check_webhook(raw_body: &[u8], signature: Option<&str>, secret: Option<&str>) -> (r: Result<
    (),
    WebhookRefusal,
>)
    requires
        raw_body@.len() + 21 <= HMAC_INPUT_LIMIT,
        secret matches Some(s) ==> s.spec_bytes().len() <= HMAC_INPUT_LIMIT,
    ensures
        match (signature, secret) {
            (None, _) => r matches Err(f) && is_response(f.response, 400, "missing signature"@)
                && f.signature_error is None,
            (Some(_), None) => r matches Err(f) && is_response(
                f.response,
                500,
                "STRIPE_WEBHOOK_SECRET not set"@,
            ) && f.signature_error is None,
            (Some(header), Some(key)) => exists|clock: Option<i64>|
                match #[trigger] clock_outcome(raw_body@, header.spec_bytes(), key.spec_bytes(), clock) {
                    Ok(()) => r is Ok,
                    Err(e) => r matches Err(f) && is_response(f.response, 401, "bad signature"@)
                        && f.signature_error == Some(e),
                },
        },
{
    let header = match signature {
        Some(h) => h,
        None => {
            return Err(refusal(400, "missing signature", None));
        },
    };
    let key = match secret {
        Some(k) => k,
        None => {
            return Err(refusal(500, "STRIPE_WEBHOOK_SECRET not set", None));
        },
    };
    match verify_signature(raw_body, header, key) {
        Ok(()) => Ok(()),
        Err(e) => Err(refusal(401, "bad signature", Some(e))),
    }
}

/// The answer when the webhook body is not a Stripe event: 400.
pub fn bad_json_response(parse_error: &str) -> (r: WebhookResponse)
    ensures
        is_response(r, 400, "bad JSON: "@ + parse_error@),
{
    let mut body = String::from_str("bad JSON: ");
    body.append(parse_error);
    WebhookResponse { status: 400, body }
}

/// The answer once the event's handling has ended: 200 when it succeeded,
/// 500 with the failure's message (so that Stripe retries) when it failed.
pub fn handled_response(last: &EventStep) -> (r: WebhookResponse)
    requires
        last is Done || last is Fail,
    ensures
        last is Done ==> is_response(r, 200, "ok"@),
        last matches EventStep::Fail { message } ==> is_response(r, 500, message@),
{
    match last {
        EventStep::Fail { message } => WebhookResponse { status: 500, body: message.clone() },
        _ => WebhookResponse { status: 200, body: String::from_str("ok") },
    }
}

} // verus!
