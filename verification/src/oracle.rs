//! Prediction-market records read by the Polymarket oracle.

use vstd::prelude::*;

verus! {

/// A prediction market, as far as the oracle reads it.
pub struct Market {
    /// Prices of the market's outcomes, as decimal text; the first is the "yes" outcome.
    pub outcome_prices: Option<Vec<String>>,
}

impl Market {
    /// The price text of the market's "yes" outcome, when it lists any outcome.
    pub fn yes_price(&self) -> (price: Option<&String>)
        ensures
            match self.outcome_prices {
                Some(prices) => if prices@.len() > 0 {
                    price == Some(&prices@[0])
                } else {
                    price is None
                },
                None => price is None,
            },
    {
        match &self.outcome_prices {
            Some(prices) => {
                if prices.len() > 0 {
                    Some(&prices[0])
                } else {
                    None
                }
            },
            None => None,
        }
    }
}

} // verus!
