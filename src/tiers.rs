//! Subscription tiers: their order, numeric limits, features and prices.
use vstd::prelude::*;
use crate::text::{lower_of, lowercase, str_eq};

verus! {

/// A subscription tier, from the least to the most capable.
#[derive(Debug, Clone, Copy, PartialEq, Eq, Structural)]
pub enum Tier {
    Free,
    Pro,
    Team,
    Enterprise,
}

/// The tier that a lowercase tier name stands for; an unknown name is the lowest tier.
pub open spec fn tier_named(name: Seq<char>) -> Tier {
    if name == "pro"@ {
        Tier::Pro
    } else if name == "team"@ {
        Tier::Team
    } else if name == "enterprise"@ {
        Tier::Enterprise
    } else {
        Tier::Free
    }
}

/// The stored name of a tier.
pub open spec fn tier_name(t: Tier) -> Seq<char> {
    match t {
        Tier::Free => "free"@,
        Tier::Pro => "pro"@,
        Tier::Team => "team"@,
        Tier::Enterprise => "enterprise"@,
    }
}

/// The place of a tier in the order of capability.
pub open spec fn tier_level(t: Tier) -> u8 {
    match t {
        Tier::Free => 0,
        Tier::Pro => 1,
        Tier::Team => 2,
        Tier::Enterprise => 3,
    }
}

/// The tier of a tier name, read without regard to case.
pub open spec fn tier_of_text(s: Seq<char>) -> Tier {
    tier_named(lower_of(s))
}

/// The tier that an already lowercased name stands for.
pub fn tier_from_lowercase(name: &str) -> (r: Tier)
    ensures
        r == tier_named(name@),
{
    if str_eq(name, "pro") {
        Tier::Pro
    } else if str_eq(name, "team") {
        Tier::Team
    } else if str_eq(name, "enterprise") {
        Tier::Enterprise
    } else {
        Tier::Free
    }
}

impl Tier {
    /// Reads a tier name without regard to case; unknown names give the lowest tier.
    pub fn from_str(s: &str) -> (r: Tier)
        ensures
            r == tier_of_text(s@),
    {
        let lower = lowercase(s);
        tier_from_lowercase(lower.as_str())
    }

    pub fn as_str(&self) -> (r: &'static str)
        ensures
            r@ == tier_name(*self),
    {
        match self {
            Tier::Free => "free",
            Tier::Pro => "pro",
            Tier::Team => "team",
            Tier::Enterprise => "enterprise",
        }
    }

    /// Events per minute that the tier may ingest, from the tier's limits.
    pub fn rate_limit(&self) -> (r: u32)
        ensures
            r == limits_of(*self).rate_limit_per_minute,
    {
        get_tier_limits(*self).rate_limit_per_minute
    }

    /// The tier's level in the order of capability.
    pub fn level(&self) -> (r: u8)
        ensures
            r == tier_level(*self),
    {
        match self {
            Tier::Free => 0,
            Tier::Pro => 1,
            Tier::Team => 2,
            Tier::Enterprise => 3,
        }
    }
}

/// A more capable tier ingests more and waits no longer between alert emails.
pub proof fn lemma_limits_follow_level(a: Tier, b: Tier)
    requires
        tier_level(a) <= tier_level(b),
    ensures
        limits_of(a).rate_limit_per_minute <= limits_of(b).rate_limit_per_minute,
        limits_of(a).email_cooldown_minutes >= limits_of(b).email_cooldown_minutes,
{
}

/// Features that a tier may unlock.
#[derive(Debug, Clone, Copy, PartialEq, Eq, Structural)]
pub struct TierFeatures {
    pub webhooks: bool,
    pub pagerduty: bool,
    pub opsgenie: bool,
    pub session_replay: bool,
    pub performance_monitoring: bool,
    pub jira: bool,
    pub linear: bool,
    pub github_issues: bool,
    pub sso: bool,
    pub audit_logs: bool,
    pub custom_domain: bool,
}

/// Numeric limits of a tier; `None` and `-1` stand for no limit.
#[derive(Debug, Clone, Copy, PartialEq, Eq, Structural)]
pub struct TierLimits {
    pub tier: Tier,
    pub retention_days: i32,
    pub project_limit: Option<i32>,
    pub monitors_per_seat: i32,
    pub ai_fixes_per_seat: i32,
    pub session_replays_per_seat: i32,
    pub rate_limit_per_minute: u32,
    pub max_seats: Option<i32>,
    /// Minutes between two alert emails for one issue; zero sends every time.
    pub email_cooldown_minutes: i32,
    pub features: TierFeatures,
}

/// The features of a tier: each tier has those of the tiers below it.
pub open spec fn features_of(t: Tier) -> TierFeatures {
    let l = tier_level(t);
    TierFeatures {
        webhooks: l >= 1,
        pagerduty: l >= 1,
        opsgenie: l >= 2,
        session_replay: l >= 2,
        performance_monitoring: l >= 2,
        jira: l >= 2,
        linear: l >= 2,
        github_issues: l >= 2,
        sso: l >= 3,
        audit_logs: l >= 3,
        custom_domain: l >= 3,
    }
}

/// The limits table of the tiers.
pub open spec fn limits_of(t: Tier) -> TierLimits {
    match t {
        Tier::Free => TierLimits {
            tier: t,
            retention_days: 7,
            project_limit: Some(1),
            monitors_per_seat: 3,
            ai_fixes_per_seat: 0,
            session_replays_per_seat: 0,
            rate_limit_per_minute: 5,
            max_seats: Some(1),
            email_cooldown_minutes: 60,
            features: features_of(t),
        },
        Tier::Pro => TierLimits {
            tier: t,
            retention_days: 90,
            project_limit: None,
            monitors_per_seat: 10,
            ai_fixes_per_seat: 5,
            session_replays_per_seat: 0,
            rate_limit_per_minute: 60,
            max_seats: None,
            email_cooldown_minutes: 15,
            features: features_of(t),
        },
        Tier::Team => TierLimits {
            tier: t,
            retention_days: 365,
            project_limit: None,
            monitors_per_seat: 20,
            ai_fixes_per_seat: 15,
            session_replays_per_seat: 100,
            rate_limit_per_minute: 300,
            max_seats: None,
            email_cooldown_minutes: 5,
            features: features_of(t),
        },
        Tier::Enterprise => TierLimits {
            tier: t,
            retention_days: -1i32,
            project_limit: None,
            monitors_per_seat: -1i32,
            ai_fixes_per_seat: -1i32,
            session_replays_per_seat: -1i32,
            rate_limit_per_minute: 3000,
            max_seats: None,
            email_cooldown_minutes: 0,
            features: features_of(t),
        },
    }
}

fn features_for(tier: Tier) -> (r: TierFeatures)
    ensures
        r == features_of(tier),
{
    let l = tier.level();
    TierFeatures {
        webhooks: l >= 1,
        pagerduty: l >= 1,
        opsgenie: l >= 2,
        session_replay: l >= 2,
        performance_monitoring: l >= 2,
        jira: l >= 2,
        linear: l >= 2,
        github_issues: l >= 2,
        sso: l >= 3,
        audit_logs: l >= 3,
        custom_domain: l >= 3,
    }
}

/// The limits of a tier.
pub fn get_tier_limits(tier: Tier) -> (r: TierLimits)
    ensures
        r == limits_of(tier),
{
    let features = features_for(tier);
    match tier {
        Tier::Free => TierLimits {
            tier,
            retention_days: 7,
            project_limit: Some(1),
            monitors_per_seat: 3,
            ai_fixes_per_seat: 0,
            session_replays_per_seat: 0,
            rate_limit_per_minute: 5,
            max_seats: Some(1),
            email_cooldown_minutes: 60,
            features,
        },
        Tier::Pro => TierLimits {
            tier,
            retention_days: 90,
            project_limit: None,
            monitors_per_seat: 10,
            ai_fixes_per_seat: 5,
            session_replays_per_seat: 0,
            rate_limit_per_minute: 60,
            max_seats: None,
            email_cooldown_minutes: 15,
            features,
        },
        Tier::Team => TierLimits {
            tier,
            retention_days: 365,
            project_limit: None,
            monitors_per_seat: 20,
            ai_fixes_per_seat: 15,
            session_replays_per_seat: 100,
            rate_limit_per_minute: 300,
            max_seats: None,
            email_cooldown_minutes: 5,
            features,
        },
        Tier::Enterprise => TierLimits {
            tier,
            retention_days: -1,
            project_limit: None,
            monitors_per_seat: -1,
            ai_fixes_per_seat: -1,
            session_replays_per_seat: -1,
            rate_limit_per_minute: 3000,
            max_seats: None,
            email_cooldown_minutes: 0,
            features,
        },
    }
}

/// Whether a feature set holds the feature of that name; unknown names are never held.
pub open spec fn feature_flag(f: TierFeatures, name: Seq<char>) -> bool {
    if name == "webhooks"@ {
        f.webhooks
    } else if name == "pagerduty"@ {
        f.pagerduty
    } else if name == "opsgenie"@ {
        f.opsgenie
    } else if name == "session_replay"@ {
        f.session_replay
    } else if name == "performance_monitoring"@ {
        f.performance_monitoring
    } else if name == "jira"@ {
        f.jira
    } else if name == "linear"@ {
        f.linear
    } else if name == "github_issues"@ {
        f.github_issues
    } else if name == "sso"@ {
        f.sso
    } else if name == "audit_logs"@ {
        f.audit_logs
    } else if name == "custom_domain"@ {
        f.custom_domain
    } else {
        false
    }
}

/// Whether the features hold the named feature.
pub fn has_named_feature(f: &TierFeatures, name: &str) -> (r: bool)
    ensures
        r == feature_flag(*f, name@),
{
    if str_eq(name, "webhooks") {
        f.webhooks
    } else if str_eq(name, "pagerduty") {
        f.pagerduty
    } else if str_eq(name, "opsgenie") {
        f.opsgenie
    } else if str_eq(name, "session_replay") {
        f.session_replay
    } else if str_eq(name, "performance_monitoring") {
        f.performance_monitoring
    } else if str_eq(name, "jira") {
        f.jira
    } else if str_eq(name, "linear") {
        f.linear
    } else if str_eq(name, "github_issues") {
        f.github_issues
    } else if str_eq(name, "sso") {
        f.sso
    } else if str_eq(name, "audit_logs") {
        f.audit_logs
    } else if str_eq(name, "custom_domain") {
        f.custom_domain
    } else {
        false
    }
}

/// Whether the tier of that name (any case) has the named feature.
pub fn can_access_feature(tier: &str, feature: &str) -> (r: bool)
    ensures
        r == feature_flag(features_of(tier_of_text(tier@)), feature@),
{
    let t = Tier::from_str(tier);
    let limits = get_tier_limits(t);
    has_named_feature(&limits.features, feature)
}

/// Whether tier `a` is at least as capable as tier `b` (names read without regard to case).
pub fn tier_includes(tier_a: &str, tier_b: &str) -> (r: bool)
    ensures
        r == (tier_level(tier_of_text(tier_a@)) >= tier_level(tier_of_text(tier_b@))),
{
    let a = Tier::from_str(tier_a);
    let b = Tier::from_str(tier_b);
    a.level() >= b.level()
}

pub open spec fn price_per_seat(t: Tier) -> i32 {
    match t {
        Tier::Free => 0,
        Tier::Pro => 1200,
        Tier::Team => 2500,
        Tier::Enterprise => 0,
    }
}

pub open spec fn min_seats(t: Tier) -> i32 {
    match t {
        Tier::Free => 1,
        Tier::Pro => 2,
        Tier::Team => 5,
        Tier::Enterprise => 1,
    }
}

/// Monthly price per seat, in cents.
pub fn get_price_per_seat(tier: Tier) -> (r: i32)
    ensures
        r == price_per_seat(tier),
{
    match tier {
        Tier::Free => 0,
        Tier::Pro => 1200,
        Tier::Team => 2500,
        Tier::Enterprise => 0,
    }
}

/// The fewest seats a subscription of the tier is billed for.
pub fn get_min_seats(tier: Tier) -> (r: i32)
    ensures
        r == min_seats(tier),
{
    match tier {
        Tier::Free => 1,
        Tier::Pro => 2,
        Tier::Team => 5,
        Tier::Enterprise => 1,
    }
}

/// The monthly total in cents: the per-seat price times the seats, at least the tier's minimum.
pub open spec fn monthly_total(t: Tier, seats: i32) -> int {
    let eff: int = if seats >= min_seats(t) { seats as int } else { min_seats(t) as int };
    price_per_seat(t) * eff
}

/// The price in cents: monthly, or twelve months at a 30% discount, rounded down.
pub open spec fn price_of(t: Tier, seats: i32, annual: bool) -> int {
    if annual {
        monthly_total(t, seats) * 12 * 7 / 10
    } else {
        monthly_total(t, seats)
    }
}

/// Total price of a subscription, in cents.
pub fn calculate_price(tier: Tier, seats: i32, annual: bool) -> (r: i32)
    requires
        monthly_total(tier, seats) * 12 <= i32::MAX,
    ensures
        r == price_of(tier, seats, annual),
{
    let price = get_price_per_seat(tier);
    let min = get_min_seats(tier);
    let effective: i32 = if seats >= min { seats } else { min };
    proof {
        assert(0 <= price as int * effective as int <= i32::MAX) by (nonlinear_arith)
            requires
                0 <= price,
                1 <= effective,
                price as int * effective as int * 12 <= i32::MAX;
    }
    let monthly = price * effective;
    if annual {
        let yearly = monthly * 12;
        yearly / 10 * 7 + yearly % 10 * 7 / 10
    } else {
        monthly
    }
}

/// A user's place in the tier order, for checks in request handlers.
pub struct TierGuard {
    pub tier: String,
    pub organization_id: String,
}

impl TierGuard {
    /// Whether the guard's tier is at least the required one.
    pub fn has_tier(&self, required: &str) -> (r: bool)
        ensures
            r == (tier_level(tier_of_text(self.tier@)) >= tier_level(tier_of_text(required@))),
    {
        tier_includes(self.tier.as_str(), required)
    }

    /// Whether the guard's tier has the named feature.
    pub fn has_feature(&self, feature: &str) -> (r: bool)
        ensures
            r == feature_flag(features_of(tier_of_text(self.tier@)), feature@),
    {
        can_access_feature(self.tier.as_str(), feature)
    }

    pub fn tier_enum(&self) -> (r: Tier)
        ensures
            r == tier_of_text(self.tier@),
    {
        Tier::from_str(self.tier.as_str())
    }
}

} // verus!
