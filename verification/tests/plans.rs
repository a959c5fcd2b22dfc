use billing::plans::{catalog, for_tier, Plan, PlanTier, PriceConfig, UNLIMITED};

fn prices(hobby: Option<&str>, pro: Option<&str>) -> PriceConfig {
    PriceConfig { hobby: hobby.map(|s| s.to_string()), pro: pro.map(|s| s.to_string()) }
}

#[test]
fn tier_names_round_trip() {
    for t in [PlanTier::Free, PlanTier::Hobby, PlanTier::Pro, PlanTier::Enterprise] {
        assert_eq!(PlanTier::from_str(t.as_str()), t);
    }
    assert_eq!(PlanTier::Free.as_str(), "free");
    assert_eq!(PlanTier::Hobby.as_str(), "hobby");
    assert_eq!(PlanTier::Pro.as_str(), "pro");
    assert_eq!(PlanTier::Enterprise.as_str(), "enterprise");
}

#[test]
fn unknown_tier_names_are_free() {
    assert_eq!(PlanTier::from_str(""), PlanTier::Free);
    assert_eq!(PlanTier::from_str("Pro"), PlanTier::Free);
    assert_eq!(PlanTier::from_str("pro "), PlanTier::Free);
    assert_eq!(PlanTier::from_str("premium"), PlanTier::Free);
}

#[test]
fn catalog_lists_the_four_tiers_in_order() {
    let plans = catalog();
    let tiers: Vec<PlanTier> = plans.iter().map(|p| p.tier).collect();
    assert_eq!(tiers, vec![PlanTier::Free, PlanTier::Hobby, PlanTier::Pro, PlanTier::Enterprise]);
}

fn limits(p: &Plan) -> (u32, i32, i32, i32, i32) {
    (p.monthly_price_usd, p.llm_intents_per_month, p.compiles_per_month, p.deploys_per_month, p.max_devices)
}

#[test]
fn catalog_quotas_and_prices() {
    let plans = catalog();
    assert_eq!(limits(&plans[0]), (0, 20, 50, 10, 1));
    assert_eq!(limits(&plans[1]), (9, 500, 2_000, 500, 5));
    assert_eq!(limits(&plans[2]), (29, 10_000, 50_000, 10_000, 50));
    assert_eq!(limits(&plans[3]), (0, UNLIMITED, UNLIMITED, UNLIMITED, UNLIMITED));
    assert_eq!(plans[3].support, "Dedicated CSM + SLA");
    assert_eq!(plans[0].features, &["Web playground", "1 device", "All 59 drivers", "Bytecode compilation"]);
    assert_eq!(plans[3].features.last(), Some(&"24×7 phone support"));
}

#[test]
fn for_tier_finds_each_catalog_entry() {
    for p in catalog() {
        let q = for_tier(p.tier);
        assert_eq!(q.tier, p.tier);
        assert_eq!(q.display_name, p.display_name);
        assert_eq!(limits(&q), limits(&p));
    }
    assert_eq!(for_tier(PlanTier::Pro).display_name, "Pro");
    assert_eq!(for_tier(PlanTier::Hobby).support, "Email");
}

#[test]
fn higher_tiers_never_offer_lower_limits() {
    let plans = catalog();
    for w in plans[..3].windows(2) {
        assert!(w[0].llm_intents_per_month <= w[1].llm_intents_per_month);
        assert!(w[0].compiles_per_month <= w[1].compiles_per_month);
        assert!(w[0].deploys_per_month <= w[1].deploys_per_month);
        assert!(w[0].max_devices <= w[1].max_devices);
    }
}

#[test]
fn only_self_serve_tiers_have_prices() {
    let cfg = prices(Some("price_h"), Some("price_p"));
    assert_eq!(PlanTier::Hobby.stripe_price_id(&cfg), Some("price_h".to_string()));
    assert_eq!(PlanTier::Pro.stripe_price_id(&cfg), Some("price_p".to_string()));
    assert_eq!(PlanTier::Free.stripe_price_id(&cfg), None);
    assert_eq!(PlanTier::Enterprise.stripe_price_id(&cfg), None);
    let none = prices(None, None);
    assert_eq!(PlanTier::Hobby.stripe_price_id(&none), None);
    assert_eq!(PlanTier::Pro.stripe_price_id(&none), None);
}
