//! Payment providers: the requests they take, what they answer, and which one is
//! active. Ukheshe serves until the FSP licence is in place; then the internal
//! rails take over, once they are switched on.

use vstd::prelude::*;
use crate::decimal::Decimal;
use crate::service_config::Config;
use crate::text::{concat2, str_equals, string_of};

verus! {

/// A deposit into a user's wallet.
#[derive(Debug, Clone)]
pub struct DepositRequest {
    pub user_id: u128,
    pub amount: Decimal,
    pub reference: String,
    pub phone: String,
}

/// A withdrawal from a user's wallet to a bank account.
#[derive(Debug, Clone)]
pub struct WithdrawRequest {
    pub user_id: u128,
    pub amount: Decimal,
    pub reference: String,
    pub bank_account_id: u128,
}

/// A transfer between two wallets.
#[derive(Debug, Clone)]
pub struct TransferRequest {
    pub from_user_id: u128,
    pub to_user_id: u128,
    pub amount: Decimal,
    pub reference: String,
    pub description: Option<String>,
}

/// Where a transaction stands.
#[derive(Debug, Clone, Copy, PartialEq, Eq, Structural)]
pub enum TransactionStatus {
    Pending,
    Completed,
    Failed,
    Reversed,
}

/// A provider's answer to a payment request.
#[derive(Debug, Clone)]
pub struct PaymentResponse {
    pub provider_ref: String,
    pub status: TransactionStatus,
    pub message: Option<String>,
}

/// The internal payment rails.
#[derive(Debug)]
pub struct InternalProvider {}

pub open spec fn internal_disabled_message() -> Seq<char> {
    "Internal payments not enabled. Set INTERNAL_PAYMENTS_ENABLED=true and ensure FSP license is active."@
}

impl InternalProvider {
    /// The internal rails, which exist only once they are enabled.
    pub fn new(config: &Config) -> (r: Result<InternalProvider, String>)
        ensures
            config.internal_payments_enabled <==> r is Ok,
            r matches Err(m) ==> m@ == internal_disabled_message(),
    {
        if !config.internal_payments_enabled {
            return Err(
                string_of(
                    "Internal payments not enabled. Set INTERNAL_PAYMENTS_ENABLED=true and ensure FSP license is active.",
                ),
            );
        }
        Ok(InternalProvider {  })
    }

    pub fn name(&self) -> (r: &'static str)
        ensures
            r@ == "internal"@,
    {
        "internal"
    }
}

/// The Ukheshe provider, with its credentials.
#[derive(Debug, Clone)]
pub struct UkhesheProvider {
    pub base_url: String,
    pub client_id: String,
    pub client_secret: String,
    pub webhook_secret: String,
}

impl UkhesheProvider {
    /// The Ukheshe provider, configured from the settings.
    pub fn new(config: &Config) -> (r: UkhesheProvider)
        ensures
            r.base_url@ == config.ukheshe_base_url@,
            r.client_id@ == config.ukheshe_client_id@,
            r.client_secret@ == config.ukheshe_client_secret@,
            r.webhook_secret@ == config.ukheshe_webhook_secret@,
    {
        UkhesheProvider {
            base_url: config.ukheshe_base_url.clone(),
            client_id: config.ukheshe_client_id.clone(),
            client_secret: config.ukheshe_client_secret.clone(),
            webhook_secret: config.ukheshe_webhook_secret.clone(),
        }
    }

    pub fn name(&self) -> (r: &'static str)
        ensures
            r@ == "ukheshe"@,
    {
        "ukheshe"
    }
}

/// The active provider.
#[derive(Debug)]
pub enum Provider {
    Ukheshe(UkhesheProvider),
    Internal(InternalProvider),
}

/// Builds the provider the settings name: `ukheshe`, or `internal` when it is
/// enabled. Any other name is refused.
pub fn build_provider(config: &Config) -> (r: Result<Provider, String>)
    ensures
        config.payment_provider@ == "ukheshe"@ ==> r matches Ok(Provider::Ukheshe(_)),
        config.payment_provider@ == "internal"@ ==> (config.internal_payments_enabled ==> r matches Ok(
            Provider::Internal(_),
        )) && (!config.internal_payments_enabled ==> (r matches Err(m) && m@
            == internal_disabled_message())),
        config.payment_provider@ != "ukheshe"@ && config.payment_provider@ != "internal"@ ==> (r matches Err(
            m,
        ) && m@ == "Unknown payment provider: "@ + config.payment_provider@),
{
    proof {
        reveal_strlit("ukheshe");
        reveal_strlit("internal");
        assert("internal"@[0] != "ukheshe"@[0]);
        assert("internal"@ != "ukheshe"@);
    }
    if str_equals(config.payment_provider.as_str(), "ukheshe") {
        Ok(Provider::Ukheshe(UkhesheProvider::new(config)))
    } else if str_equals(config.payment_provider.as_str(), "internal") {
        match InternalProvider::new(config) {
            Ok(p) => Ok(Provider::Internal(p)),
            Err(e) => Err(e),
        }
    } else {
        Err(concat2("Unknown payment provider: ", config.payment_provider.as_str()))
    }
}

impl Provider {
    /// The provider's name, for logs.
    pub fn name(&self) -> (r: &'static str)
        ensures
            self is Ukheshe ==> r@ == "ukheshe"@,
            self is Internal ==> r@ == "internal"@,
    {
        match self {
            Provider::Ukheshe(p) => p.name(),
            Provider::Internal(p) => p.name(),
        }
    }
}

} // verus!
