use bugwatch_core::billing::{get_credit_package, PriceError, StripePriceIds};
use bugwatch_core::config::Config;
use bugwatch_core::tiers::{
    calculate_price, can_access_feature, get_min_seats, get_price_per_seat, get_tier_limits, tier_from_lowercase,
    tier_includes, Tier, TierGuard,
};

#[test]
fn tiers_test_tier_from_str() {
    assert_eq!(Tier::from_str("free"), Tier::Free);
    assert_eq!(Tier::from_str("Free"), Tier::Free);
    assert_eq!(Tier::from_str("PRO"), Tier::Pro);
    assert_eq!(Tier::from_str("team"), Tier::Team);
    assert_eq!(Tier::from_str("enterprise"), Tier::Enterprise);
    assert_eq!(Tier::from_str("unknown"), Tier::Free);
}

#[test]
fn test_tier_includes() {
    assert!(tier_includes("pro", "free"));
    assert!(tier_includes("team", "pro"));
    assert!(tier_includes("enterprise", "team"));
    assert!(!tier_includes("free", "pro"));
    assert!(!tier_includes("pro", "team"));
}

#[test]
fn test_feature_access() {
    assert!(!can_access_feature("free", "webhooks"));
    assert!(can_access_feature("pro", "webhooks"));
    assert!(can_access_feature("pro", "pagerduty"));
    assert!(!can_access_feature("pro", "session_replay"));
    assert!(can_access_feature("team", "session_replay"));
    assert!(can_access_feature("enterprise", "sso"));
}

#[test]
fn test_pricing() {
    assert_eq!(calculate_price(Tier::Free, 1, false), 0);
    assert_eq!(calculate_price(Tier::Pro, 5, false), 6000);
    assert_eq!(calculate_price(Tier::Pro, 5, true), 50400);
    assert_eq!(calculate_price(Tier::Team, 10, false), 25000);
    assert_eq!(calculate_price(Tier::Pro, 1, false), 2400);
}

#[test]
fn test_tier_limits() {
    let free = get_tier_limits(Tier::Free);
    assert_eq!(free.project_limit, Some(1));
    assert_eq!(free.email_cooldown_minutes, 60);
    assert_eq!(free.max_seats, Some(1));

    let pro = get_tier_limits(Tier::Pro);
    assert_eq!(pro.project_limit, None);
    assert_eq!(pro.email_cooldown_minutes, 15);

    let team = get_tier_limits(Tier::Team);
    assert_eq!(team.email_cooldown_minutes, 5);

    let enterprise = get_tier_limits(Tier::Enterprise);
    assert_eq!(enterprise.email_cooldown_minutes, 0);
}

#[test]
fn tier_names_and_levels() {
    assert_eq!(Tier::Enterprise.as_str(), "enterprise");
    assert_eq!(Tier::Free.as_str(), "free");
    assert_eq!(Tier::Team.level(), 2);
    assert_eq!(tier_from_lowercase("team"), Tier::Team);
    // only exact lowercase names are known before lowercasing
    assert_eq!(tier_from_lowercase("Team"), Tier::Free);
    assert_eq!(Tier::from_str("ENTERPRISE"), Tier::Enterprise);
}

#[test]
fn unknown_feature_is_never_granted() {
    assert!(!can_access_feature("enterprise", "teleportation"));
    assert!(can_access_feature("Team", "github_issues"));
    assert!(!can_access_feature("team", "audit_logs"));
}

#[test]
fn seat_prices_and_minimums() {
    assert_eq!(get_price_per_seat(Tier::Team), 2500);
    assert_eq!(get_min_seats(Tier::Team), 5);
    assert_eq!(calculate_price(Tier::Team, 1, false), 12500);
    assert_eq!(calculate_price(Tier::Team, 1, true), 105000);
    assert_eq!(calculate_price(Tier::Enterprise, 50, true), 0);
    assert_eq!(calculate_price(Tier::Pro, 3, true), 30240);
}

#[test]
fn tier_guard_checks() {
    let g = TierGuard { tier: "Pro".to_string(), organization_id: "org".to_string() };
    assert!(g.has_tier("free"));
    assert!(g.has_tier("pro"));
    assert!(!g.has_tier("team"));
    assert!(g.has_feature("webhooks"));
    assert!(!g.has_feature("jira"));
    assert_eq!(g.tier_enum(), Tier::Pro);
}

#[test]
fn enterprise_limits_are_unlimited() {
    let e = get_tier_limits(Tier::Enterprise);
    assert_eq!(e.retention_days, -1);
    assert_eq!(e.rate_limit_per_minute, 3000);
    assert!(e.features.custom_domain);
    let f = get_tier_limits(Tier::Free);
    assert!(!f.features.webhooks);
    assert_eq!(f.rate_limit_per_minute, 5);
    assert_eq!(Tier::Pro.rate_limit(), get_tier_limits(Tier::Pro).rate_limit_per_minute);
}

#[test]
fn credit_packages() {
    let p = get_credit_package(25).unwrap();
    assert_eq!(p.price_cents, 3500);
    assert_eq!(p.name, "25 Credits");
    assert!(get_credit_package(30).is_none());
}

fn price_ids() -> StripePriceIds {
    StripePriceIds {
        pro_monthly: Some("price_pm".to_string()),
        pro_annual: Some("price_pa".to_string()),
        team_monthly: Some("price_tm".to_string()),
        team_annual: None,
    }
}

#[test]
fn plan_prices() {
    let ids = price_ids();
    assert_eq!(ids.get_price_id("PRO", true), Ok("price_pa".to_string()));
    assert_eq!(ids.get_price_id("team", false), Ok("price_tm".to_string()));
    assert_eq!(ids.get_price_id("team", true), Err(PriceError::NotConfigured));
    assert_eq!(ids.get_price_id("free", false), Err(PriceError::InvalidTier));
    assert_eq!(ids.get_tier_from_price_id("price_tm"), Some("team".to_string()));
    assert_eq!(ids.get_tier_from_price_id("price_pa"), Some("pro".to_string()));
    assert_eq!(ids.get_tier_from_price_id("other"), None);
}

#[test]
fn config_flags() {
    let c = Config {
        server_addr: "0.0.0.0:3000".to_string(),
        database_url: "postgres://db".to_string(),
        jwt_secret: "SECRET-REDACTED".to_string(),
        jwt_access_expiration: 900,
        jwt_refresh_expiration: 604800,
        environment: "production".to_string(),
        anthropic_api_key: None,
        ai_fix_credit_cost: 1,
        app_url: "https://app.example.com".to_string(),
        stripe_secret_key: None,
        stripe_webhook_secret: None,
        stripe_price_id_pro_monthly: None,
        stripe_price_id_pro_annual: None,
        stripe_price_id_team_monthly: None,
        stripe_price_id_team_annual: None,
        bugwatch_api_key: None,
        bugwatch_endpoint: None,
        bugwatch_enabled: true,
    };
    assert!(c.is_production());
    assert!(!c.is_stripe_configured());
    assert!(!c.is_bugwatch_enabled());
}
