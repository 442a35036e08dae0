//! The yield protocol (Aave v3 on Polygon): USDC deposited into the pool earns
//! interest. The on-chain calls are not integrated yet; the client answers with
//! the positions the integration is expected to give.

use vstd::prelude::*;
use crate::config::Config;
use crate::decimal::{self, Decimal};

verus! {

#[derive(Debug, Clone, Copy)]
pub struct AavePosition {
    /// USDC deposited.
    pub principal_usdc: Decimal,
    /// Current aUSDC balance (principal and accrued yield).
    pub current_value_usdc: Decimal,
    /// Current APY from the data provider.
    pub current_apy: Decimal,
    /// Total yield earned since deposit.
    pub yield_earned_usdc: Decimal,
}

/// The typical USDC supply APY the client reports: 4.5%.
pub open spec fn typical_apy() -> (int, nat) {
    (45int, 3nat)
}

impl AavePosition {
    /// Current value minus principal.
    pub fn yield_earned(&self) -> (r: Decimal)
        requires
            decimal::decimal_sub(self.current_value_usdc@, self.principal_usdc@) is Some,
        ensures
            decimal::decimal_sub(self.current_value_usdc@, self.principal_usdc@) == Some(r@),
            decimal::difference_fits(self.current_value_usdc@, self.principal_usdc@) ==> decimal::units(r@)
                == decimal::units(self.current_value_usdc@) - decimal::units(self.principal_usdc@),
    {
        self.current_value_usdc.sub(&self.principal_usdc)
    }

    /// `yield_earned`, or `None` where the difference overflows.
    pub fn checked_yield_earned(&self) -> (r: Option<Decimal>)
        ensures
            decimal::opt_view(r) == decimal::decimal_sub(self.current_value_usdc@, self.principal_usdc@),
    {
        match self.current_value_usdc.checked_sub(&self.principal_usdc) {
            Some(_) => Some(self.yield_earned()),
            None => None,
        }
    }
}

pub struct AaveClient {
    config: Config,
}

impl AaveClient {
    pub fn new(config: Config) -> (r: AaveClient)
        ensures
            r.config() == config,
    {
        AaveClient { config }
    }

    pub closed spec fn config(&self) -> Config {
        self.config
    }

    /// Deposits USDC into the pool; the position right after: all principal, no
    /// yield yet, at the typical APY.
    pub fn deposit(&self, usdc_amount: Decimal) -> (r: AavePosition)
        ensures
            r.principal_usdc@ == usdc_amount@,
            r.current_value_usdc@ == usdc_amount@,
            r.current_apy@ == typical_apy(),
            r.yield_earned_usdc@ == (0int, 0nat),
    {
        AavePosition {
            principal_usdc: usdc_amount,
            current_value_usdc: usdc_amount,
            current_apy: Decimal::new(45, 3),
            yield_earned_usdc: Decimal::zero(),
        }
    }

    /// Withdraws USDC from the pool; the amount withdrawn.
    pub fn withdraw(&self, usdc_amount: Decimal) -> (r: Decimal)
        ensures
            r@ == usdc_amount@,
    {
        usdc_amount
    }

    /// The position of a wallet (empty until the data provider is integrated).
    pub fn get_position(&self, wallet: &str) -> (r: AavePosition)
        ensures
            r.principal_usdc@ == (0int, 0nat),
            r.current_value_usdc@ == (0int, 0nat),
            r.current_apy@ == typical_apy(),
            r.yield_earned_usdc@ == (0int, 0nat),
    {
        AavePosition {
            principal_usdc: Decimal::zero(),
            current_value_usdc: Decimal::zero(),
            current_apy: Decimal::new(45, 3),
            yield_earned_usdc: Decimal::zero(),
        }
    }

    /// The current USDC supply APY.
    pub fn get_current_apy(&self) -> (r: Decimal)
        ensures
            r@ == typical_apy(),
    {
        Decimal::new(45, 3)
    }

    /// Whether the current APY meets the configured minimum (a percentage).
    pub fn meets_minimum_yield(&self) -> (r: bool)
        ensures
            decimal::decimal_div(self.config().minimum_yield_apy_pct@, (100int, 0nat)) is Some,
            r == (decimal::units(
                decimal::decimal_div(self.config().minimum_yield_apy_pct@, (100int, 0nat))->0,
            ) <= decimal::units(typical_apy())),
    {
        let apy = self.get_current_apy();
        let hundred = Decimal::new(100, 0);
        proof {
            decimal::lemma_pow10_positive(28);
            assert(decimal::units(hundred@) == 100 * decimal::pow10(28));
        }
        let minimum = self.config.minimum_yield_apy_pct.div(&hundred);
        minimum.le(&apy)
    }
}

} // verus!
