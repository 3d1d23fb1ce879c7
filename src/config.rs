//! Server settings, read from the environment by the program that runs the server.
use vstd::prelude::*;
use crate::text::str_eq;

verus! {

pub struct Config {
    pub server_addr: String,
    pub database_url: String,
    pub jwt_secret: String,
    pub jwt_access_expiration: i64,
    pub jwt_refresh_expiration: i64,
    pub environment: String,
    pub anthropic_api_key: Option<String>,
    pub ai_fix_credit_cost: i32,
    /// The address of the web front end, used in links of alerts.
    pub app_url: String,
    pub stripe_secret_key: Option<String>,
    pub stripe_webhook_secret: Option<String>,
    pub stripe_price_id_pro_monthly: Option<String>,
    pub stripe_price_id_pro_annual: Option<String>,
    pub stripe_price_id_team_monthly: Option<String>,
    pub stripe_price_id_team_annual: Option<String>,
    pub bugwatch_api_key: Option<String>,
    pub bugwatch_endpoint: Option<String>,
    pub bugwatch_enabled: bool,
}

impl Config {
    /// Whether a payment-provider key is set.
    pub fn is_stripe_configured(&self) -> (r: bool)
        ensures
            r == self.stripe_secret_key is Some,
    {
        self.stripe_secret_key.is_some()
    }

    /// Whether the environment is named `production`.
    pub fn is_production(&self) -> (r: bool)
        ensures
            r == (self.environment@ == "production"@),
    {
        str_eq(self.environment.as_str(), "production")
    }

    /// Whether the server reports its own errors: switched on, with a key.
    pub fn is_bugwatch_enabled(&self) -> (r: bool)
        ensures
            r == (self.bugwatch_enabled && self.bugwatch_api_key is Some),
    {
        self.bugwatch_enabled && self.bugwatch_api_key.is_some()
    }
}

} // verus!
