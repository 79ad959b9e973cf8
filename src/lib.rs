//! Resolution of current fuel prices from upstream price sources.
//!
//! The library decides which upstream requests to make, in a configurable
//! order of sources, and turns the replies it is handed into one normalised
//! [`quote::PriceQuote`]. Resolution never fails: a source that is not
//! configured, unreachable, rejected or malformed is passed over, and when no
//! source gives a quote a zero-filled placeholder is returned.
pub mod config;
pub mod decimal;
pub mod json;
pub mod laws;
pub mod quote;
pub mod resolver;
pub mod sources;
pub mod text;
pub mod upstream;
