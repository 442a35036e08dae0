//! Settings of the accounts service.

use vstd::prelude::*;
use crate::text::str_equals;

verus! {

/// Settings of the accounts service. The tax-free interest limit, a
/// floating-point setting, is kept by the program that reads the settings.
#[derive(Debug, Clone)]
pub struct Config {
    pub database_url: String,
    pub redis_url: String,
    pub jwt_secret: String,
    pub jwt_expiry_hours: i64,
    pub refresh_token_expiry_days: i64,
    pub app_env: String,
    pub app_port: u16,
    pub app_host: String,
    pub payment_provider: String,
    pub ukheshe_base_url: String,
    pub ukheshe_client_id: String,
    pub ukheshe_client_secret: String,
    pub ukheshe_webhook_secret: String,
    pub internal_payments_enabled: bool,
    pub kyc_provider_url: String,
    pub kyc_api_key: String,
    pub sim_swap_api_url: String,
    pub sim_swap_api_key: String,
    pub fcm_server_key: String,
    pub sendgrid_api_key: String,
    pub whatsapp_api_url: String,
    pub whatsapp_token: String,
}

impl Config {
    pub fn is_production(&self) -> (r: bool)
        ensures
            r == (self.app_env@ == "production"@),
    {
        str_equals(self.app_env.as_str(), "production")
    }
}

} // verus!
