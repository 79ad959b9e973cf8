//! What a resolution is configured with.
use vstd::prelude::*;
use vstd::string::*;

verus! {

/// Base address of the metered price provider.
pub const PROVIDER_BASE: &'static str = "https://creativecommons.tankerkoenig.de/json";

/// Label used where no station name is known.
pub const GENERIC_LABEL: &'static str = "Meine Tankstelle";

/// A point and radius for a search of nearby stations, as decimal texts.
#[derive(Debug)]
pub struct SearchPoint {
    pub latitude: String,
    pub longitude: String,
    pub radius_km: String,
}

/// An upstream price source.
#[derive(Clone, Copy, Debug, PartialEq, Eq, Structural)]
pub enum Source {
    /// Name and prices of one station, by its id (needs the API key).
    ById,
    /// The stations around a point (needs the API key).
    Search,
    /// A nationwide average (needs no credential).
    Average,
}

/// The options of a resolution. An option that is `None` or empty is not
/// given.
#[derive(Debug)]
pub struct Config {
    /// Address of the metered provider, without a trailing slash.
    pub base_url: String,
    pub api_key: Option<String>,
    pub station_id: Option<String>,
    pub search_point: Option<SearchPoint>,
    /// Picks one station of a search: the first whose name or brand holds
    /// it, ignoring case. Without it the first (nearest) station is taken.
    pub station_name_filter: Option<String>,
    /// Address of the nationwide-average endpoint.
    pub average_url: Option<String>,
    /// Station label of a quote that names no station.
    pub label: String,
    /// The sources, in the order in which they are tried.
    pub order: Vec<Source>,
}

/// An optional text that counts as given: present and not empty.
pub open spec fn given(o: Option<String>) -> Option<Seq<char>> {
    match o {
        Some(s) => if s@.len() > 0 {
            Some(s@)
        } else {
            None
        },
        None => None,
    }
}

/// The text of an option, where it is given.
pub fn given_text(o: &Option<String>) -> (r: Option<&String>)
    ensures
        r is Some <==> given(*o) is Some,
        r is Some ==> given(*o) == Some(r->0@),
{
    match o {
        Some(s) => if s.as_str().unicode_len() > 0 {
            Some(s)
        } else {
            None
        },
        None => None,
    }
}

/// The order in which sources are tried by default: the configured
/// station, then a search, then the nationwide average.
pub open spec fn default_order() -> Seq<Source> {
    seq![Source::ById, Source::Search, Source::Average]
}

impl Config {
    /// The provider's address, the generic label and the default order,
    /// with no option given.
    pub fn new() -> (r: Config)
        ensures
            r.base_url@ == PROVIDER_BASE@,
            r.label@ == GENERIC_LABEL@,
            r.order@ == default_order(),
            r.api_key is None,
            r.station_id is None,
            r.search_point is None,
            r.station_name_filter is None,
            r.average_url is None,
    {
        let order = vec![Source::ById, Source::Search, Source::Average];
        assert(order@ =~= default_order());
        Config {
            base_url: String::from_str(PROVIDER_BASE),
            api_key: None,
            station_id: None,
            search_point: None,
            station_name_filter: None,
            average_url: None,
            label: String::from_str(GENERIC_LABEL),
            order,
        }
    }

    /// Whether the options that a source needs are given.
    pub open spec fn serves(&self, s: Source) -> bool {
        match s {
            Source::ById => given(self.api_key) is Some && given(self.station_id) is Some,
            Source::Search => given(self.api_key) is Some && self.search_point is Some,
            Source::Average => given(self.average_url) is Some,
        }
    }

    /// Whether the options that a source needs are given.
    pub fn serves_source(&self, s: Source) -> (r: bool)
        ensures
            r == self.serves(s),
    {
        match s {
            Source::ById => given_text(&self.api_key).is_some() && given_text(
                &self.station_id,
            ).is_some(),
            Source::Search => given_text(&self.api_key).is_some() && self.search_point.is_some(),
            Source::Average => given_text(&self.average_url).is_some(),
        }
    }
}

} // verus!
