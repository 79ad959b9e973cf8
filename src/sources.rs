//! What each upstream source contributes: a quote, or nothing.
//!
//! Each source reads the replies of its own endpoints only. A reply that is
//! missing, failed or of the wrong shape gives no quote; within a reply of
//! the right shape, each price that is missing, of the wrong type for that
//! shape (station records hold numbers, the average reply strings) or no
//! decimal is the `0` sentinel and leaves the others alone.
use vstd::prelude::*;
use vstd::string::*;
use crate::config::{given, given_text, Config};
use crate::json::{
    get_member,
    get_number_price,
    get_text,
    get_text_price,
    member,
    number_price,
    text_member,
    text_price,
    Json,
};
use crate::quote::{FuelPrices, PriceQuote, QuoteView};
use crate::text::{matches_station, station_matches};
use crate::upstream::{body_of, Reply};

verus! {

/// Freshness of a quote from the by-id source.
pub const LIVE_BY_ID: &'static str = "Live (Tankerkönig)";

/// Freshness of a quote from a station search.
pub const LIVE: &'static str = "Live";

/// Freshness of the placeholder quote.
pub const NO_DATA: &'static str = "–";

/// The quotes of an optional quote.
pub open spec fn quote_view(q: Option<PriceQuote>) -> Option<QuoteView> {
    match q {
        Some(q) => Some(q@),
        None => None,
    }
}

/// A station's display name from its brand and name: both, joined by a
/// blank, or the one that is not empty.
pub open spec fn join_label(brand: Seq<char>, name: Seq<char>) -> Seq<char> {
    if brand.len() == 0 {
        name
    } else if name.len() == 0 {
        brand
    } else {
        brand + " "@ + name
    }
}

/// The member `key` of `j` where it is a string, else the empty text.
pub open spec fn text_or_empty(j: Json, key: Seq<char>) -> Seq<char> {
    match text_member(j, key) {
        Some(t) => t,
        None => Seq::empty(),
    }
}

/// The label of a station record: its brand and name, or the configured
/// label where it has neither.
pub open spec fn record_label(c: Config, station: Json) -> Seq<char> {
    let l = join_label(text_or_empty(station, "brand"@), text_or_empty(station, "name"@));
    if l.len() == 0 {
        c.label@
    } else {
        l
    }
}

/// The prices of a station record, held as JSON numbers.
pub open spec fn record_prices(j: Json) -> FuelPrices {
    FuelPrices {
        e5: number_price(j, "e5"@),
        e10: number_price(j, "e10"@),
        diesel: number_price(j, "diesel"@),
    }
}

/// The prices of a nationwide-average reply, held as strings, with E5
/// under `super`.
pub open spec fn average_prices(j: Json) -> FuelPrices {
    FuelPrices {
        e5: text_price(j, "super"@),
        e10: text_price(j, "e10"@),
        diesel: text_price(j, "diesel"@),
    }
}

/// A document whose `ok` flag is `true`.
pub open spec fn accepted(j: Json) -> bool {
    member(j, "ok"@) == Some(Json::Bool(true))
}

/// The label of a by-id quote: that of the station record in the detail
/// reply, else the configured label.
pub open spec fn detail_label(c: Config, detail: Reply) -> Seq<char> {
    match body_of(detail) {
        Some(d) => match member(d, "station"@) {
            Some(st) => record_label(c, st),
            None => c.label@,
        },
        None => c.label@,
    }
}

/// The by-id quote for station `id`: the prices reply must be accepted and
/// hold an object under `prices.<id>`.
pub open spec fn by_id_spec(c: Config, id: Seq<char>, detail: Reply, prices: Reply) -> Option<
    QuoteView,
> {
    match body_of(prices) {
        Some(p) => if accepted(p) {
            match member(p, "prices"@) {
                Some(table) => match member(table, id) {
                    Some(entry) => if entry is Object {
                        Some(
                            QuoteView {
                                station_label: detail_label(c, detail),
                                prices: record_prices(entry),
                                freshness_label: LIVE_BY_ID@,
                            },
                        )
                    } else {
                        None
                    },
                    None => None,
                },
                None => None,
            }
        } else {
            None
        },
        None => None,
    }
}

/// Whether a search picks a station: any station without a filter, else
/// one whose name or brand holds the filter, ignoring case.
pub open spec fn picks(filter: Option<Seq<char>>, station: Json) -> bool {
    match filter {
        Some(f) => station_matches(f, text_or_empty(station, "name"@), text_or_empty(station, "brand"@)),
        None => true,
    }
}

/// The first station at index `i` or later that a search picks.
pub open spec fn picked_from(filter: Option<Seq<char>>, stations: Seq<Json>, i: int) -> Option<int>
    decreases stations.len() - i,
{
    if i < 0 || i >= stations.len() {
        None
    } else if picks(filter, stations[i]) {
        Some(i)
    } else {
        picked_from(filter, stations, i + 1)
    }
}

/// A search picks the first station, from index `k` on, whose name or brand
/// holds the filter ignoring case (any station without a filter), wherever
/// it stands in the list; where none does, it picks none.
pub proof fn law_first_picked_station(filter: Option<Seq<char>>, stations: Seq<Json>, k: int)
    requires
        0 <= k <= stations.len(),
    ensures
        match picked_from(filter, stations, k) {
            Some(i) => {
                &&& k <= i < stations.len()
                &&& picks(filter, stations[i])
                &&& forall|j: int| k <= j < i ==> !picks(filter, #[trigger] stations[j])
            },
            None => forall|j: int| k <= j < stations.len() ==> !picks(filter, #[trigger] stations[j]),
        },
    decreases stations.len() - k,
{
    if k < stations.len() && !picks(filter, stations[k]) {
        law_first_picked_station(filter, stations, k + 1);
    }
}

/// The quote of a search reply: it must be accepted and list stations, of
/// which one must be picked; the first that is gives the quote.
pub open spec fn search_spec(c: Config, list: Reply) -> Option<QuoteView> {
    match body_of(list) {
        Some(b) => if accepted(b) {
            match member(b, "stations"@) {
                Some(Json::Array(stations)) => match picked_from(
                    given(c.station_name_filter),
                    stations@,
                    0,
                ) {
                    Some(i) => Some(
                        QuoteView {
                            station_label: record_label(c, stations@[i]),
                            prices: record_prices(stations@[i]),
                            freshness_label: LIVE@,
                        },
                    ),
                    None => None,
                },
                _ => None,
            }
        } else {
            None
        },
        None => None,
    }
}

/// The quote of a nationwide-average reply: it must report its date as a
/// string, which becomes the freshness label; E5 is read from `super`.
pub open spec fn average_spec(c: Config, avg: Reply) -> Option<QuoteView> {
    match body_of(avg) {
        Some(b) => match text_member(b, "date"@) {
            Some(d) => Some(
                QuoteView { station_label: c.label@, prices: average_prices(b), freshness_label: d },
            ),
            None => None,
        },
        None => None,
    }
}

/// The quote returned when no source gives one.
pub open spec fn placeholder_spec(c: Config) -> QuoteView {
    QuoteView {
        station_label: c.label@,
        prices: FuelPrices { e5: 0, e10: 0, diesel: 0 },
        freshness_label: NO_DATA@,
    }
}

fn text_or_empty_of(j: &Json, key: &str) -> (r: String)
    ensures
        r@ == text_or_empty(*j, key@),
{
    match get_text(j, key) {
        Some(t) => t.clone(),
        None => String::new(),
    }
}

/// Joins a brand and a name into a display name.
pub fn label_with_brand(brand: &str, name: &str) -> (r: String)
    ensures
        r@ == join_label(brand@, name@),
{
    if brand.unicode_len() == 0 {
        String::from_str(name)
    } else if name.unicode_len() == 0 {
        String::from_str(brand)
    } else {
        let mut s = String::from_str(brand);
        s.append(" ");
        s.append(name);
        s
    }
}

fn record_label_of(c: &Config, station: &Json) -> (r: String)
    ensures
        r@ == record_label(*c, *station),
{
    let b = text_or_empty_of(station, "brand");
    let n = text_or_empty_of(station, "name");
    let l = label_with_brand(b.as_str(), n.as_str());
    if l.as_str().unicode_len() == 0 {
        c.label.clone()
    } else {
        l
    }
}

fn record_prices_of(j: &Json) -> (r: FuelPrices)
    ensures
        r == record_prices(*j),
{
    FuelPrices {
        e5: get_number_price(j, "e5"),
        e10: get_number_price(j, "e10"),
        diesel: get_number_price(j, "diesel"),
    }
}

fn average_prices_of(j: &Json) -> (r: FuelPrices)
    ensures
        r == average_prices(*j),
{
    FuelPrices {
        e5: get_text_price(j, "super"),
        e10: get_text_price(j, "e10"),
        diesel: get_text_price(j, "diesel"),
    }
}

fn is_accepted(j: &Json) -> (r: bool)
    ensures
        r == accepted(*j),
{
    match get_member(j, "ok") {
        Some(Json::Bool(b)) => *b,
        _ => false,
    }
}

fn detail_label_of(c: &Config, detail: &Reply) -> (r: String)
    ensures
        r@ == detail_label(*c, *detail),
{
    if let Reply::Body(d) = detail {
        if let Some(st) = get_member(d, "station") {
            return record_label_of(c, st);
        }
    }
    c.label.clone()
}

/// The by-id quote for station `id`, from its detail and prices replies.
pub fn by_id_quote(c: &Config, id: &str, detail: &Reply, prices: &Reply) -> (r: Option<PriceQuote>)
    ensures
        quote_view(r) == by_id_spec(*c, id@, *detail, *prices),
{
    let p = match prices {
        Reply::Body(p) => p,
        _ => return None,
    };
    if !is_accepted(p) {
        return None;
    }
    let table = match get_member(p, "prices") {
        Some(t) => t,
        None => return None,
    };
    let entry = match get_member(table, id) {
        Some(e) => e,
        None => return None,
    };
    if !matches!(entry, Json::Object(_)) {
        return None;
    }
    Some(
        PriceQuote {
            station_label: detail_label_of(c, detail),
            prices: record_prices_of(entry),
            freshness_label: String::from_str(LIVE_BY_ID),
        },
    )
}

/// The index of the first station that a search picks (see [`picks`]).
pub fn pick_station(filter: Option<&String>, stations: &Vec<Json>) -> (r: Option<usize>)
    ensures
        match r {
            Some(i) => picked_from(
                match filter {
                    Some(f) => Some(f@),
                    None => None,
                },
                stations@,
                0,
            ) == Some(i as int),
            None => picked_from(
                match filter {
                    Some(f) => Some(f@),
                    None => None,
                },
                stations@,
                0,
            ) is None,
        },
{
    let ghost fv = match filter {
        Some(f) => Some(f@),
        None => None,
    };
    let mut i: usize = 0;
    while i < stations.len()
        invariant
            i <= stations@.len(),
            fv == (match filter {
                Some(f) => Some(f@),
                None => None,
            }),
            picked_from(fv, stations@, i as int) == picked_from(fv, stations@, 0),
        decreases stations@.len() - i,
    {
        let st = &stations[i];
        let hit = match filter {
            Some(f) => {
                let n = text_or_empty_of(st, "name");
                let b = text_or_empty_of(st, "brand");
                matches_station(f.as_str(), n.as_str(), b.as_str())
            },
            None => true,
        };
        if hit {
            assert(picked_from(fv, stations@, i as int) == Some(i as int));
            return Some(i);
        }
        i = i + 1;
    }
    None
}

/// The quote of a station search reply.
pub fn search_quote(c: &Config, list: &Reply) -> (r: Option<PriceQuote>)
    ensures
        quote_view(r) == search_spec(*c, *list),
{
    let b = match list {
        Reply::Body(b) => b,
        _ => return None,
    };
    if !is_accepted(b) {
        return None;
    }
    let stations = match get_member(b, "stations") {
        Some(Json::Array(s)) => s,
        _ => return None,
    };
    let i = match pick_station(given_text(&c.station_name_filter), stations) {
        Some(i) => i,
        None => return None,
    };
    proof {
        law_first_picked_station(given(c.station_name_filter), stations@, 0);
    }
    let st = &stations[i];
    Some(
        PriceQuote {
            station_label: record_label_of(c, st),
            prices: record_prices_of(st),
            freshness_label: String::from_str(LIVE),
        },
    )
}

/// The quote of a nationwide-average reply.
pub fn average_quote(c: &Config, avg: &Reply) -> (r: Option<PriceQuote>)
    ensures
        quote_view(r) == average_spec(*c, *avg),
{
    let b = match avg {
        Reply::Body(b) => b,
        _ => return None,
    };
    match get_text(b, "date") {
        Some(d) => Some(
            PriceQuote {
                station_label: c.label.clone(),
                prices: average_prices_of(b),
                freshness_label: d.clone(),
            },
        ),
        None => None,
    }
}

/// The zero-filled quote returned when no source gives one.
pub fn placeholder(c: &Config) -> (r: PriceQuote)
    ensures
        r@ == placeholder_spec(*c),
{
    PriceQuote {
        station_label: c.label.clone(),
        prices: FuelPrices { e5: 0, e10: 0, diesel: 0 },
        freshness_label: String::from_str(NO_DATA),
    }
}

} // verus!
