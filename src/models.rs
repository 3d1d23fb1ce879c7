//! Stored records: monitors, alert rules, channels, alert logs, comments, organizations.
use vstd::prelude::*;

verus! {

pub struct Monitor {
    pub id: String,
    pub project_id: String,
    pub name: String,
    pub url: String,
    pub method: String,
    pub interval_seconds: i32,
    pub timeout_ms: i32,
    pub expected_status: Option<i32>,
    pub headers: String,
    pub body: Option<String>,
    pub is_active: bool,
    pub created_at: String,
    pub last_checked_at: Option<String>,
    pub current_status: String,
}

pub struct MonitorCheck {
    pub id: String,
    pub monitor_id: String,
    pub status: String,
    pub response_time_ms: Option<i32>,
    pub status_code: Option<i32>,
    pub error_message: Option<String>,
    pub checked_at: String,
}

pub struct MonitorIncident {
    pub id: String,
    pub monitor_id: String,
    pub started_at: String,
    pub resolved_at: Option<String>,
    pub cause: Option<String>,
    pub created_at: String,
}

pub struct AlertRule {
    pub id: String,
    pub project_id: String,
    pub name: String,
    pub condition: String,
    pub actions: String,
    pub is_active: bool,
    pub created_at: String,
}

pub struct NotificationChannel {
    pub id: String,
    pub project_id: String,
    pub name: String,
    pub channel_type: String,
    pub config: String,
    pub is_active: bool,
    pub created_at: String,
}

pub struct AlertLog {
    pub id: String,
    pub alert_rule_id: String,
    pub channel_id: Option<String>,
    pub trigger_type: String,
    pub trigger_id: Option<String>,
    pub status: String,
    pub message: String,
    pub error_message: Option<String>,
    pub created_at: String,
    pub sent_at: Option<String>,
}

pub struct IssueComment {
    pub id: String,
    pub issue_id: String,
    pub user_id: String,
    pub content: String,
    pub created_at: String,
    pub updated_at: String,
}

pub struct Organization {
    pub id: String,
    pub name: String,
    pub slug: String,
    pub owner_id: String,
    pub tier: String,
    pub stripe_customer_id: Option<String>,
    pub stripe_subscription_id: Option<String>,
    pub subscription_status: String,
    pub seats: i32,
    pub billing_interval: Option<String>,
    pub current_period_start: Option<String>,
    pub current_period_end: Option<String>,
    pub cancel_at_period_end: bool,
    pub created_at: String,
    pub updated_at: String,
    pub payment_failed_at: Option<String>,
    pub grace_period_ends: Option<String>,
    pub tax_id: Option<String>,
    pub tax_exempt: Option<bool>,
    pub billing_country: Option<String>,
    pub billing_address: Option<String>,
}

pub struct OrganizationMember {
    pub id: String,
    pub organization_id: String,
    pub user_id: String,
    pub role: String,
    pub created_at: String,
}

pub struct UsageRecord {
    pub id: String,
    pub organization_id: String,
    pub metric: String,
    pub count: i32,
    pub period_start: String,
    pub period_end: String,
    pub created_at: String,
}

pub struct BillingEvent {
    pub id: String,
    pub organization_id: String,
    pub event_type: String,
    pub stripe_event_id: Option<String>,
    pub amount_cents: Option<i32>,
    pub currency: Option<String>,
    pub metadata: Option<String>,
    pub created_at: String,
}

pub struct CreditPurchase {
    pub id: String,
    pub user_id: String,
    pub credits: i32,
    pub amount_cents: i32,
    pub stripe_payment_intent_id: Option<String>,
    pub status: String,
    pub created_at: String,
}

pub struct SearchFilters {
    pub status: Option<Vec<String>>,
    pub level: Option<Vec<String>>,
    pub count_gt: Option<i64>,
    pub count_lt: Option<i64>,
    pub count_gte: Option<i64>,
    pub count_lte: Option<i64>,
    pub users_gt: Option<i64>,
    pub users_lt: Option<i64>,
    pub first_seen_after: Option<String>,
    pub first_seen_before: Option<String>,
    pub last_seen_after: Option<String>,
    pub last_seen_before: Option<String>,
    pub text: Option<String>,
}

pub struct Facets {
    pub level: std::collections::HashMap<String, u32>,
    pub status: std::collections::HashMap<String, u32>,
}

} // verus!
