//! The normalised result of a resolution.
use vstd::prelude::*;

verus! {

/// Prices in thousandths of the currency unit (`1799` is 1.799); `0` marks a
/// price that is unavailable.
#[derive(Clone, Copy, Debug, PartialEq, Eq, Structural)]
pub struct FuelPrices {
    pub e5: u64,
    pub e10: u64,
    pub diesel: u64,
}

/// A price as the display reads it: a value, or the placeholder.
#[derive(Clone, Copy, Debug, PartialEq, Eq, Structural)]
pub enum Price {
    Unavailable,
    Available(u64),
}

/// What a price field means: any positive value is a price.
pub open spec fn price_spec(milli: u64) -> Price {
    if milli > 0 {
        Price::Available(milli)
    } else {
        Price::Unavailable
    }
}

/// Classifies a price field as available or not.
pub fn classify(milli: u64) -> (r: Price)
    ensures
        r == price_spec(milli),
{
    if milli > 0 {
        Price::Available(milli)
    } else {
        Price::Unavailable
    }
}

/// The quote that one resolution produces: always present, with missing
/// prices as the `0` sentinel.
#[derive(Debug)]
pub struct PriceQuote {
    pub station_label: String,
    pub prices: FuelPrices,
    pub freshness_label: String,
}

pub struct QuoteView {
    pub station_label: Seq<char>,
    pub prices: FuelPrices,
    pub freshness_label: Seq<char>,
}

impl View for PriceQuote {
    type V = QuoteView;

    open spec fn view(&self) -> QuoteView {
        QuoteView {
            station_label: self.station_label@,
            prices: self.prices,
            freshness_label: self.freshness_label@,
        }
    }
}

impl PartialEq for PriceQuote {
    fn eq(&self, o: &PriceQuote) -> (r: bool) {
        self.station_label == o.station_label && self.prices == o.prices && self.freshness_label
            == o.freshness_label
    }
}

impl vstd::std_specs::cmp::PartialEqSpecImpl for PriceQuote {
    open spec fn obeys_eq_spec() -> bool {
        true
    }

    open spec fn eq_spec(&self, o: &PriceQuote) -> bool {
        self@ == o@
    }
}

impl PriceQuote {
    /// The E5 price, classified.
    pub fn e5(&self) -> (r: Price)
        ensures
            r == price_spec(self.prices.e5),
    {
        classify(self.prices.e5)
    }

    /// The E10 price, classified.
    pub fn e10(&self) -> (r: Price)
        ensures
            r == price_spec(self.prices.e10),
    {
        classify(self.prices.e10)
    }

    /// The diesel price, classified.
    pub fn diesel(&self) -> (r: Price)
        ensures
            r == price_spec(self.prices.diesel),
    {
        classify(self.prices.diesel)
    }
}

} // verus!
