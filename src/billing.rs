//! Billing records: plans, invoices, payment methods, credits and usage.
use vstd::prelude::*;
use crate::models::{Organization, OrganizationMember, UsageRecord};
use crate::text::str_eq;
use crate::text::{lower_of, lowercase};

verus! {

pub struct OrganizationResponse {
    pub organization: Organization,
    pub members_count: i32,
    pub is_owner: bool,
}

pub struct SubscriptionResponse {
    pub tier: String,
    pub seats: i32,
    pub subscription_status: String,
    pub billing_interval: Option<String>,
    pub current_period_start: Option<String>,
    pub current_period_end: Option<String>,
    pub cancel_at_period_end: bool,
    pub has_stripe: bool,
}

pub struct CheckoutResponse {
    pub checkout_url: String,
}

pub struct PortalResponse {
    pub portal_url: String,
}

pub struct CreditsResponse {
    pub credits: i32,
}

pub struct CreditPurchaseResponse {
    pub checkout_url: String,
}

pub struct UsageResponse {
    pub usage: Vec<UsageRecord>,
    pub period_start: String,
    pub period_end: String,
}

pub struct MemberResponse {
    pub member: OrganizationMember,
    pub user_email: String,
    pub user_name: Option<String>,
}

pub struct CreateOrganizationRequest {
    pub name: String,
}

pub struct UpdateOrganizationRequest {
    pub name: String,
}

pub struct InviteMemberRequest {
    pub email: String,
    pub role: Option<String>,
}

pub struct UpdateMemberRoleRequest {
    pub role: String,
}

pub struct CreateCheckoutRequest {
    pub tier: String,
    pub seats: Option<i32>,
    pub annual: Option<bool>,
    pub success_url: String,
    pub cancel_url: String,
}

pub struct CreatePortalRequest {
    pub return_url: String,
}

pub struct CancelSubscriptionRequest {
    pub immediately: Option<bool>,
}

pub struct PurchaseCreditsRequest {
    pub credits: i32,
}

pub struct ChangePlanRequest {
    pub tier: String,
    pub seats: Option<i32>,
    pub annual: Option<bool>,
}

pub struct ChangePlanResponse {
    pub success: bool,
    pub tier: String,
    pub seats: i32,
    pub message: String,
}

pub struct ProrationPreviewResponse {
    pub current_amount_cents: i64,
    pub new_amount_cents: i64,
    pub proration_amount_cents: i64,
    pub immediate_charge: bool,
}

pub struct UpdateSeatsRequest {
    pub seats: i32,
}

pub struct InvoicesResponse {
    pub invoices: Vec<InvoiceSummary>,
}

pub struct PaymentMethodsResponse {
    pub payment_methods: Vec<PaymentMethodSummary>,
    pub default_payment_method: Option<String>,
}

pub struct SetupIntentResponse {
    pub client_secret: String,
}

pub struct SetDefaultPaymentMethodRequest {
    pub payment_method_id: String,
}

pub struct ValidateCouponRequest {
    pub code: String,
}

pub struct TaxIdsResponse {
    pub tax_ids: Vec<TaxIdInfo>,
}

pub struct AddTaxIdRequest {
    pub type_: String,
    pub value: String,
}

pub struct BillingDashboardResponse {
    pub current_tier: String,
    pub monthly_cost_cents: i64,
    pub seats_used: i32,
    pub seats_total: i32,
    pub billing_period_start: Option<String>,
    pub billing_period_end: Option<String>,
    pub is_past_due: bool,
    pub cancel_at_period_end: bool,
}

pub struct UsageHistoryResponse {
    pub history: Vec<UsageRecord>,
}

pub struct StripePriceIds {
    pub pro_monthly: Option<String>,
    pub pro_annual: Option<String>,
    pub team_monthly: Option<String>,
    pub team_annual: Option<String>,
}

pub struct CreditPackage {
    pub credits: i32,
    pub price_cents: i32,
    pub name: &'static str,
}

pub struct ProrationPreview {
    pub current_amount_cents: i64,
    pub new_amount_cents: i64,
    pub proration_amount_cents: i64,
    pub immediate_charge: bool,
}

pub struct InvoiceSummary {
    pub id: String,
    pub number: Option<String>,
    pub status: Option<String>,
    pub amount_due: Option<i64>,
    pub amount_paid: Option<i64>,
    pub currency: Option<String>,
    pub created: Option<String>,
    pub period_start: Option<String>,
    pub period_end: Option<String>,
    pub invoice_pdf: Option<String>,
    pub hosted_invoice_url: Option<String>,
}

pub struct InvoiceDetail {
    pub id: String,
    pub number: Option<String>,
    pub status: Option<String>,
    pub amount_due: Option<i64>,
    pub amount_paid: Option<i64>,
    pub amount_remaining: Option<i64>,
    pub currency: Option<String>,
    pub created: Option<String>,
    pub due_date: Option<String>,
    pub period_start: Option<String>,
    pub period_end: Option<String>,
    pub invoice_pdf: Option<String>,
    pub hosted_invoice_url: Option<String>,
    pub line_items: Vec<InvoiceLineItem>,
    pub subtotal: Option<i64>,
    pub tax: Option<i64>,
    pub total: Option<i64>,
}

pub struct InvoiceLineItem {
    pub description: Option<String>,
    pub amount: i64,
    pub quantity: Option<u64>,
    pub period_start: Option<String>,
    pub period_end: Option<String>,
}

pub struct PaymentMethodSummary {
    pub id: String,
    pub type_: String,
    pub card: Option<CardInfo>,
    pub created: Option<String>,
}

pub struct CardInfo {
    pub brand: String,
    pub last4: String,
    pub exp_month: u32,
    pub exp_year: u32,
}

pub struct TaxIdInfo {
    pub id: String,
    pub type_: String,
    pub value: String,
    pub verification_status: Option<String>,
    pub country: Option<String>,
}

/// The price in cents and the name of the credit package of that many credits, if one is sold.
pub open spec fn credit_offer(credits: i32) -> Option<(i32, Seq<char>)> {
    if credits == 10 {
        Some((1500, "10 Credits"@))
    } else if credits == 25 {
        Some((3500, "25 Credits"@))
    } else if credits == 50 {
        Some((6500, "50 Credits"@))
    } else if credits == 100 {
        Some((12000, "100 Credits"@))
    } else {
        None
    }
}

/// The credit package of that many credits.
pub fn get_credit_package(credits: i32) -> (r: Option<CreditPackage>)
    ensures
        match r {
            Some(p) => credit_offer(credits) == Some((p.price_cents, p.name@)) && p.credits == credits,
            None => credit_offer(credits) is None,
        },
{
    if credits == 10 {
        Some(CreditPackage { credits: 10, price_cents: 1500, name: "10 Credits" })
    } else if credits == 25 {
        Some(CreditPackage { credits: 25, price_cents: 3500, name: "25 Credits" })
    } else if credits == 50 {
        Some(CreditPackage { credits: 50, price_cents: 6500, name: "50 Credits" })
    } else if credits == 100 {
        Some(CreditPackage { credits: 100, price_cents: 12000, name: "100 Credits" })
    } else {
        None
    }
}

pub open spec fn opt_text(o: Option<String>) -> Option<Seq<char>> {
    match o {
        Some(s) => Some(s@),
        None => None,
    }
}

/// The configured price of a plan, by lowercase tier name and billing interval: `Err(true)`
/// for a tier that has no subscription, `Err(false)` for a price that is not configured.
pub open spec fn price_for(ids: StripePriceIds, tier: Seq<char>, annual: bool) -> Result<Seq<char>, bool> {
    let configured = if tier == "pro"@ {
        if annual { opt_text(ids.pro_annual) } else { opt_text(ids.pro_monthly) }
    } else if tier == "team"@ {
        if annual { opt_text(ids.team_annual) } else { opt_text(ids.team_monthly) }
    } else {
        None
    };
    if tier != "pro"@ && tier != "team"@ {
        Err(true)
    } else {
        match configured {
            Some(p) => Ok(p),
            None => Err(false),
        }
    }
}

/// Why no price could be picked.
#[derive(Debug, Clone, Copy, PartialEq, Eq, Structural)]
pub enum PriceError {
    /// The tier has no paid subscription.
    InvalidTier,
    /// The price of that tier and interval is not configured.
    NotConfigured,
}

fn pick(o: &Option<String>) -> (r: Result<String, PriceError>)
    ensures
        match r {
            Ok(p) => opt_text(*o) == Some(p@),
            Err(e) => opt_text(*o) is None && e == PriceError::NotConfigured,
        },
{
    match o {
        Some(p) => Ok(p.clone()),
        None => Err(PriceError::NotConfigured),
    }
}

fn equals_opt(o: &Option<String>, s: &str) -> (r: bool)
    ensures
        r == (opt_text(*o) == Some(s@)),
{
    match o {
        Some(p) => str_eq(p.as_str(), s),
        None => false,
    }
}

impl StripePriceIds {
    /// The price of a plan; the tier name is read without regard to case.
    pub fn get_price_id(&self, tier: &str, annual: bool) -> (r: Result<String, PriceError>)
        ensures
            match price_for(*self, lower_of(tier@), annual) {
                Ok(p) => r matches Ok(q) && q@ == p,
                Err(true) => r == Err::<String, PriceError>(PriceError::InvalidTier),
                Err(false) => r == Err::<String, PriceError>(PriceError::NotConfigured),
            },
    {
        let t = lowercase(tier);
        if str_eq(t.as_str(), "pro") {
            if annual { pick(&self.pro_annual) } else { pick(&self.pro_monthly) }
        } else if str_eq(t.as_str(), "team") {
            if annual { pick(&self.team_annual) } else { pick(&self.team_monthly) }
        } else {
            Err(PriceError::InvalidTier)
        }
    }

    /// The tier that a configured price belongs to.
    pub fn get_tier_from_price_id(&self, price_id: &str) -> (r: Option<String>)
        ensures
            match r {
                Some(t) => {
                    ||| t@ == "pro"@ && (opt_text(self.pro_monthly) == Some(price_id@) || opt_text(self.pro_annual)
                        == Some(price_id@))
                    ||| t@ == "team"@ && !(opt_text(self.pro_monthly) == Some(price_id@) || opt_text(
                        self.pro_annual,
                    ) == Some(price_id@)) && (opt_text(self.team_monthly) == Some(price_id@) || opt_text(
                        self.team_annual,
                    ) == Some(price_id@))
                },
                None => !(opt_text(self.pro_monthly) == Some(price_id@) || opt_text(self.pro_annual) == Some(
                    price_id@,
                ) || opt_text(self.team_monthly) == Some(price_id@) || opt_text(self.team_annual) == Some(
                    price_id@,
                )),
            },
    {
        if equals_opt(&self.pro_monthly, price_id) || equals_opt(&self.pro_annual, price_id) {
            Some("pro".to_string())
        } else if equals_opt(&self.team_monthly, price_id) || equals_opt(&self.team_annual, price_id) {
            Some("team".to_string())
        } else {
            None
        }
    }
}

} // verus!
