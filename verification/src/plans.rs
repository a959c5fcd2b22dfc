//! Plan definitions: the single source of truth for quotas and pricing.
//!
//! Stripe price IDs come from the deployment's configuration (see
//! [`PriceConfig`]) so the same build works across environments. A missing
//! price ID is fine until a checkout for that tier is requested.

use vstd::prelude::*;
use crate::text::{decimal_chars, digit_char, str_eq};

verus! {

/// The subscription tiers on offer.
#[derive(Debug, Clone, Copy, PartialEq, Eq, Structural)]
pub enum PlanTier {
    Free,
    Hobby,
    Pro,
    Enterprise,
}

/// The lowercase name under which a tier is stored and sent.
pub open spec fn tier_name(tier: PlanTier) -> Seq<char> {
    match tier {
        PlanTier::Free => "free"@,
        PlanTier::Hobby => "hobby"@,
        PlanTier::Pro => "pro"@,
        PlanTier::Enterprise => "enterprise"@,
    }
}

/// The tier a stored name denotes; anything unrecognised is the free tier.
pub open spec fn tier_named(s: Seq<char>) -> PlanTier {
    if s == "hobby"@ {
        PlanTier::Hobby
    } else if s == "pro"@ {
        PlanTier::Pro
    } else if s == "enterprise"@ {
        PlanTier::Enterprise
    } else {
        PlanTier::Free
    }
}

/// The Stripe price IDs configured for the self-serve tiers
/// (`STRIPE_PRICE_HOBBY` and `STRIPE_PRICE_PRO` in the environment).
#[derive(Debug, Clone)]
pub struct PriceConfig {
    pub hobby: Option<String>,
    pub pro: Option<String>,
}

/// The configured Stripe price of a tier: none for Free (no Stripe plan) and
/// none for Enterprise (sales-led).
pub open spec fn configured_price(tier: PlanTier, prices: PriceConfig) -> Option<Seq<char>> {
    match tier {
        PlanTier::Hobby => match prices.hobby {
            Some(p) => Some(p@),
            None => None,
        },
        PlanTier::Pro => match prices.pro {
            Some(p) => Some(p@),
            None => None,
        },
        _ => None,
    }
}

impl PlanTier {
    pub fn as_str(&self) -> (s: &'static str)
        ensures
            s@ == tier_name(*self),
    {
        match self {
            PlanTier::Free => "free",
            PlanTier::Hobby => "hobby",
            PlanTier::Pro => "pro",
            PlanTier::Enterprise => "enterprise",
        }
    }

    pub fn from_str(s: &str) -> (t: Self)
        ensures
            t == tier_named(s@),
    {
        if str_eq(s, "hobby") {
            PlanTier::Hobby
        } else if str_eq(s, "pro") {
            PlanTier::Pro
        } else if str_eq(s, "enterprise") {
            PlanTier::Enterprise
        } else {
            PlanTier::Free
        }
    }

    /// Stripe price ID for this tier, from the configured prices.
    /// `None` for Free (no Stripe plan) and Enterprise (sales-led).
    pub fn stripe_price_id(&self, prices: &PriceConfig) -> (r: Option<String>)
        ensures
            match r {
                Some(p) => configured_price(*self, *prices) == Some(p@),
                None => configured_price(*self, *prices) is None,
            },
    {
        let configured = match self {
            PlanTier::Hobby => &prices.hobby,
            PlanTier::Pro => &prices.pro,
            _ => {
                return None;
            },
        };
        match configured {
            Some(p) => Some(p.clone()),
            None => None,
        }
    }
}

/// A plan as shown in the catalog. A limit of -1 means unlimited.
#[derive(Debug, Clone, Copy)]
pub struct Plan {
    pub tier: PlanTier,
    pub display_name: &'static str,
    pub monthly_price_usd: u32,
    pub llm_intents_per_month: i32,
    pub compiles_per_month: i32,
    pub deploys_per_month: i32,
    pub max_devices: i32,
    pub support: &'static str,
    pub features: &'static [&'static str],
}

/// The limit that stands for "unlimited".
pub const UNLIMITED: i32 = -1;

pub open spec fn plan_display_name(t: PlanTier) -> Seq<char> {
    match t {
        PlanTier::Free => "Free"@,
        PlanTier::Hobby => "Hobby"@,
        PlanTier::Pro => "Pro"@,
        PlanTier::Enterprise => "Enterprise"@,
    }
}

/// Monthly price in USD; Enterprise is custom-priced and lists 0.
pub open spec fn plan_price(t: PlanTier) -> u32 {
    match t {
        PlanTier::Free => 0,
        PlanTier::Hobby => 9,
        PlanTier::Pro => 29,
        PlanTier::Enterprise => 0,
    }
}

pub open spec fn plan_llm_intents(t: PlanTier) -> int {
    match t {
        PlanTier::Free => 20,
        PlanTier::Hobby => 500,
        PlanTier::Pro => 10_000,
        PlanTier::Enterprise => -1,
    }
}

pub open spec fn plan_compiles(t: PlanTier) -> int {
    match t {
        PlanTier::Free => 50,
        PlanTier::Hobby => 2_000,
        PlanTier::Pro => 50_000,
        PlanTier::Enterprise => -1,
    }
}

pub open spec fn plan_deploys(t: PlanTier) -> int {
    match t {
        PlanTier::Free => 10,
        PlanTier::Hobby => 500,
        PlanTier::Pro => 10_000,
        PlanTier::Enterprise => -1,
    }
}

pub open spec fn plan_max_devices(t: PlanTier) -> int {
    match t {
        PlanTier::Free => 1,
        PlanTier::Hobby => 5,
        PlanTier::Pro => 50,
        PlanTier::Enterprise => -1,
    }
}

pub open spec fn plan_support(t: PlanTier) -> Seq<char> {
    match t {
        PlanTier::Free => "Community"@,
        PlanTier::Hobby => "Email"@,
        PlanTier::Pro => "Priority email + Slack"@,
        PlanTier::Enterprise => "Dedicated CSM + SLA"@,
    }
}

pub open spec fn plan_features(t: PlanTier) -> Seq<Seq<char>> {
    match t {
        PlanTier::Free => seq![
            "Web playground"@,
            "1 device"@,
            "All 59 drivers"@,
            "Bytecode compilation"@,
        ],
        PlanTier::Hobby => seq![
            "5 devices"@,
            "Everything in Free"@,
            "Email support"@,
            "Project templates"@,
            "ROS 2 node graph generator"@,
        ],
        PlanTier::Pro => seq![
            "50 devices"@,
            "Everything in Hobby"@,
            "Priority support"@,
            "Fleet coordination"@,
            "OTA updates"@,
            "Mobile app sync"@,
        ],
        PlanTier::Enterprise => seq![
            "Unlimited devices"@,
            "Everything in Pro"@,
            "99.9% SLA"@,
            "On-prem deployment option"@,
            "Custom driver development"@,
            "24×7 phone support"@,
        ],
    }
}

/// `p` is the catalog's plan for tier `t`, field by field.
pub open spec fn is_plan_for(p: Plan, t: PlanTier) -> bool {
    &&& p.tier == t
    &&& p.display_name@ == plan_display_name(t)
    &&& p.monthly_price_usd == plan_price(t)
    &&& p.llm_intents_per_month == plan_llm_intents(t)
    &&& p.compiles_per_month == plan_compiles(t)
    &&& p.deploys_per_month == plan_deploys(t)
    &&& p.max_devices == plan_max_devices(t)
    &&& p.support@ == plan_support(t)
    &&& p.features@.map_values(|f: &str| f@) == plan_features(t)
}

/// The tiers of the catalog, in the order in which it lists them.
pub open spec fn catalog_tiers() -> Seq<PlanTier> {
    seq![PlanTier::Free, PlanTier::Hobby, PlanTier::Pro, PlanTier::Enterprise]
}

/// Canonical plan catalog: one plan per tier, Free, Hobby, Pro, Enterprise.
pub fn catalog() -> (plans: Vec<Plan>)
    ensures
        plans@.len() == catalog_tiers().len(),
        forall|i: int| 0 <= i < plans@.len() ==> is_plan_for(#[trigger] plans@[i], catalog_tiers()[i]),
{
    let free = Plan {
        tier: PlanTier::Free,
        display_name: "Free",
        monthly_price_usd: 0,
        llm_intents_per_month: 20,
        compiles_per_month: 50,
        deploys_per_month: 10,
        max_devices: 1,
        support: "Community",
        features: &["Web playground", "1 device", "All 59 drivers", "Bytecode compilation"],
    };
    let hobby = Plan {
        tier: PlanTier::Hobby,
        display_name: "Hobby",
        monthly_price_usd: 9,
        llm_intents_per_month: 500,
        compiles_per_month: 2_000,
        deploys_per_month: 500,
        max_devices: 5,
        support: "Email",
        features: &[
            "5 devices",
            "Everything in Free",
            "Email support",
            "Project templates",
            "ROS 2 node graph generator",
        ],
    };
    let pro = Plan {
        tier: PlanTier::Pro,
        display_name: "Pro",
        monthly_price_usd: 29,
        llm_intents_per_month: 10_000,
        compiles_per_month: 50_000,
        deploys_per_month: 10_000,
        max_devices: 50,
        support: "Priority email + Slack",
        features: &[
            "50 devices",
            "Everything in Hobby",
            "Priority support",
            "Fleet coordination",
            "OTA updates",
            "Mobile app sync",
        ],
    };
    let enterprise = Plan {
        tier: PlanTier::Enterprise,
        display_name: "Enterprise",
        monthly_price_usd: 0,  // custom pricing
        llm_intents_per_month: UNLIMITED,
        compiles_per_month: UNLIMITED,
        deploys_per_month: UNLIMITED,
        max_devices: UNLIMITED,
        support: "Dedicated CSM + SLA",
        features: &[
            "Unlimited devices",
            "Everything in Pro",
            "99.9% SLA",
            "On-prem deployment option",
            "Custom driver development",
            "24×7 phone support",
        ],
    };
    assert(free.features@.map_values(|f: &str| f@) == plan_features(PlanTier::Free));
    assert(hobby.features@.map_values(|f: &str| f@) == plan_features(PlanTier::Hobby));
    assert(pro.features@.map_values(|f: &str| f@) == plan_features(PlanTier::Pro));
    assert(enterprise.features@.map_values(|f: &str| f@) == plan_features(PlanTier::Enterprise));
    let mut plans: Vec<Plan> = Vec::new();
    plans.push(free);
    plans.push(hobby);
    plans.push(pro);
    plans.push(enterprise);
    plans
}

/// The catalog's plan for a tier.
pub fn for_tier(tier: PlanTier) -> (plan: Plan)
    ensures
        is_plan_for(plan, tier),
{
    let plans = catalog();
    let mut i: usize = 0;
    while i < plans.len()
        invariant
            i <= plans@.len(),
            plans@.len() == catalog_tiers().len(),
            forall|j: int| 0 <= j < plans@.len() ==> is_plan_for(#[trigger] plans@[j], catalog_tiers()[j]),
            forall|j: int| 0 <= j < i ==> catalog_tiers()[j] != tier,
        decreases plans@.len() - i,
    {
        if plans[i].tier == tier {
            return plans[i];
        }
        i = i + 1;
    }
    // every tier is listed, so the search above always returns
    assert(catalog_tiers()[0] != tier && catalog_tiers()[1] != tier);
    assert(catalog_tiers()[2] != tier && catalog_tiers()[3] != tier);
    proof {
        assert(false) by {
            match tier {
                PlanTier::Free => {},
                PlanTier::Hobby => {},
                PlanTier::Pro => {},
                PlanTier::Enterprise => {},
            }
        }
    }
    plans[0]
}

/// Reading back the name a tier is stored under gives the same tier.
pub proof fn lemma_tier_name_roundtrip(t: PlanTier)
    ensures
        tier_named(tier_name(t)) == t,
{
    reveal_strlit("free");
    reveal_strlit("hobby");
    reveal_strlit("pro");
    reveal_strlit("enterprise");
    // the four names differ in length
    assert("free"@.len() == 4 && "hobby"@.len() == 5 && "pro"@.len() == 3 && "enterprise"@.len() == 10);
}

/// Only the self-serve tiers, Hobby and Pro, can have a Stripe price.
pub proof fn lemma_unpriced_tiers(prices: PriceConfig)
    ensures
        configured_price(PlanTier::Free, prices) is None,
        configured_price(PlanTier::Enterprise, prices) is None,
{
}

/// Order of the tiers by what they offer.
pub open spec fn tier_rank(t: PlanTier) -> int {
    match t {
        PlanTier::Free => 0,
        PlanTier::Hobby => 1,
        PlanTier::Pro => 2,
        PlanTier::Enterprise => 3,
    }
}

/// A limit `a` is no more generous than `b` (-1 being unlimited).
pub open spec fn limit_le(a: int, b: int) -> bool {
    b == -1 || (a != -1 && a <= b)
}

/// A higher tier never offers a lower limit, and Enterprise is unlimited.
pub proof fn lemma_limits_grow_with_tier(a: PlanTier, b: PlanTier)
    requires
        tier_rank(a) <= tier_rank(b),
    ensures
        limit_le(plan_llm_intents(a), plan_llm_intents(b)),
        limit_le(plan_compiles(a), plan_compiles(b)),
        limit_le(plan_deploys(a), plan_deploys(b)),
        limit_le(plan_max_devices(a), plan_max_devices(b)),
        plan_llm_intents(PlanTier::Enterprise) == -1,
        plan_compiles(PlanTier::Enterprise) == -1,
        plan_deploys(PlanTier::Enterprise) == -1,
        plan_max_devices(PlanTier::Enterprise) == -1,
{
}

/// The catalog lists every tier exactly once.
pub proof fn lemma_catalog_lists_each_tier_once(t: PlanTier)
    ensures
        exists|i: int| 0 <= i < catalog_tiers().len() && #[trigger] catalog_tiers()[i] == t,
        forall|i: int, j: int|
            0 <= i < catalog_tiers().len() && 0 <= j < catalog_tiers().len() && #[trigger] catalog_tiers()[i]
                == #[trigger] catalog_tiers()[j] ==> i == j,
{
    match t {
        PlanTier::Free => assert(catalog_tiers()[0] == t),
        PlanTier::Hobby => assert(catalog_tiers()[1] == t),
        PlanTier::Pro => assert(catalog_tiers()[2] == t),
        PlanTier::Enterprise => assert(catalog_tiers()[3] == t),
    }
}

/// How a plan words its device allowance among its features.
pub open spec fn device_feature(max_devices: int) -> Seq<char> {
    if max_devices == -1 {
        "Unlimited devices"@
    } else if max_devices == 1 {
        "1 device"@
    } else {
        decimal_chars(max_devices as nat) + " devices"@
    }
}

/// The tier whose features a tier includes in full.
pub open spec fn tier_below(t: PlanTier) -> Option<PlanTier> {
    match t {
        PlanTier::Free => None,
        PlanTier::Hobby => Some(PlanTier::Free),
        PlanTier::Pro => Some(PlanTier::Hobby),
        PlanTier::Enterprise => Some(PlanTier::Pro),
    }
}

/// The features of every catalog plan agree with its limits and its place:
/// they name its device allowance (as its `max_devices` says), and every tier
/// above Free offers "Everything in" the tier below it.
pub proof fn lemma_features_match_limits(p: Plan, t: PlanTier)
    requires
        is_plan_for(p, t),
    ensures
        p.features@.map_values(|f: &str| f@).contains(device_feature(p.max_devices as int)),
        tier_below(t) matches Some(b) ==> p.features@.map_values(|f: &str| f@).contains(
            "Everything in "@ + plan_display_name(b),
        ),
{
    let f = p.features@.map_values(|f: &str| f@);
    reveal_strlit("Unlimited devices");
    reveal_strlit("1 device");
    reveal_strlit("5 devices");
    reveal_strlit("50 devices");
    reveal_strlit(" devices");
    reveal_strlit("Everything in ");
    reveal_strlit("Everything in Free");
    reveal_strlit("Everything in Hobby");
    reveal_strlit("Everything in Pro");
    reveal_strlit("Free");
    reveal_strlit("Hobby");
    reveal_strlit("Pro");
    assert(decimal_chars(5) == seq![digit_char(5)]);
    assert(decimal_chars(50) == decimal_chars(5).push(digit_char(0)));
    match t {
        PlanTier::Free => {
            assert(f[1] == device_feature(1));
        },
        PlanTier::Hobby => {
            assert(device_feature(5) =~= "5 devices"@);
            assert(f[0] == device_feature(5));
            assert("Everything in "@ + plan_display_name(PlanTier::Free) =~= "Everything in Free"@);
            assert(f[1] == "Everything in "@ + plan_display_name(PlanTier::Free));
        },
        PlanTier::Pro => {
            assert(device_feature(50) =~= "50 devices"@);
            assert(f[0] == device_feature(50));
            assert("Everything in "@ + plan_display_name(PlanTier::Hobby) =~= "Everything in Hobby"@);
            assert(f[1] == "Everything in "@ + plan_display_name(PlanTier::Hobby));
        },
        PlanTier::Enterprise => {
            assert(f[0] == device_feature(-1));
            assert("Everything in "@ + plan_display_name(PlanTier::Pro) =~= "Everything in Pro"@);
            assert(f[1] == "Everything in "@ + plan_display_name(PlanTier::Pro));
        },
    }
}

/// No two tiers list the same features.
pub proof fn lemma_features_differ(a: PlanTier, b: PlanTier)
    requires
        a != b,
    ensures
        plan_features(a) != plan_features(b),
{
    reveal_strlit("50 devices");
    reveal_strlit("Unlimited devices");
    if plan_features(a) == plan_features(b) {
        // Free, Hobby and Pro list 4, 5 and 6 features; Pro and Enterprise
        // differ in their first
        assert(plan_features(a).len() == plan_features(b).len());
        if (a == PlanTier::Pro && b == PlanTier::Enterprise) || (a == PlanTier::Enterprise && b
            == PlanTier::Pro) {
            assert(plan_features(a)[0].len() != plan_features(b)[0].len());
        }
    }
}

} // verus!
