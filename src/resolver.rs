//! The resolution: which upstream request comes next, and the quote that
//! the replies give.
//!
//! A resolution runs as a loop outside the library: it asks
//! [`next_request`] for an endpoint, makes the request at [`request_url`],
//! records the reply in its [`Upstream`], and asks again; when no request is
//! left, [`resolve`] gives the quote. The sources are tried in the configured
//! order, and the first that gives a quote wins.
use vstd::prelude::*;
use vstd::string::*;
use crate::config::{given, given_text, Config, Source};
use crate::quote::{PriceQuote, QuoteView};
use crate::sources::{
    average_quote,
    average_spec,
    by_id_quote,
    by_id_spec,
    placeholder,
    placeholder_spec,
    quote_view,
    search_quote,
    search_spec,
};
use crate::upstream::{Endpoint, Reply, Upstream};

verus! {

/// The quote of one source, where it is served and gives one.
pub open spec fn attempt(c: Config, u: Upstream, s: Source) -> Option<QuoteView> {
    if !c.serves(s) {
        None
    } else {
        match s {
            Source::ById => by_id_spec(c, given(c.station_id)->0, u.detail, u.prices),
            Source::Search => search_spec(c, u.search),
            Source::Average => average_spec(c, u.average),
        }
    }
}

/// The quote of the first source from position `i` of the order on that
/// gives one, else the placeholder.
pub open spec fn resolved_from(c: Config, u: Upstream, i: int) -> QuoteView
    decreases c.order@.len() - i,
{
    if i < 0 || i >= c.order@.len() {
        placeholder_spec(c)
    } else {
        match attempt(c, u, c.order@[i]) {
            Some(q) => q,
            None => resolved_from(c, u, i + 1),
        }
    }
}

/// The quote that a configuration and the replies give.
pub open spec fn resolved(c: Config, u: Upstream) -> QuoteView {
    resolved_from(c, u, 0)
}

/// The first endpoint of a source that has not been asked yet.
pub open spec fn wanted(u: Upstream, s: Source) -> Option<Endpoint> {
    match s {
        Source::ById => if u.detail is Pending {
            Some(Endpoint::Detail)
        } else if u.prices is Pending {
            Some(Endpoint::Prices)
        } else {
            None
        },
        Source::Search => if u.search is Pending {
            Some(Endpoint::Search)
        } else {
            None
        },
        Source::Average => if u.average is Pending {
            Some(Endpoint::Average)
        } else {
            None
        },
    }
}

/// The next request from position `i` of the order on: the first
/// unasked endpoint of the first served source that does not yet give a
/// quote; none once a source gives one or no source is left.
pub open spec fn request_from(c: Config, u: Upstream, i: int) -> Option<Endpoint>
    decreases c.order@.len() - i,
{
    if i < 0 || i >= c.order@.len() {
        None
    } else {
        let s = c.order@[i];
        if !c.serves(s) {
            request_from(c, u, i + 1)
        } else if wanted(u, s) is Some {
            wanted(u, s)
        } else if attempt(c, u, s) is Some {
            None
        } else {
            request_from(c, u, i + 1)
        }
    }
}

/// The source that an endpoint belongs to.
pub open spec fn source_of(e: Endpoint) -> Source {
    match e {
        Endpoint::Detail => Source::ById,
        Endpoint::Prices => Source::ById,
        Endpoint::Search => Source::Search,
        Endpoint::Average => Source::Average,
    }
}

/// The address of an endpoint, where its source is served.
pub open spec fn url_spec(c: Config, e: Endpoint) -> Option<Seq<char>> {
    if !c.serves(source_of(e)) {
        None
    } else {
        let key = given(c.api_key)->0;
        let id = given(c.station_id)->0;
        match e {
            Endpoint::Detail => Some(c.base_url@ + "/detail.php?id="@ + id + "&apikey="@ + key),
            Endpoint::Prices => Some(c.base_url@ + "/prices.php?ids="@ + id + "&apikey="@ + key),
            Endpoint::Search => {
                let p = c.search_point->0;
                Some(
                    c.base_url@ + "/list.php?lat="@ + p.latitude@ + "&lng="@ + p.longitude@
                        + "&rad="@ + p.radius_km@ + "&sort=dist&type=all"@ + "&apikey="@ + key,
                )
            },
            Endpoint::Average => Some(given(c.average_url)->0),
        }
    }
}

/// The quote of one source, where it is served and gives one.
pub fn attempt_source(c: &Config, u: &Upstream, s: Source) -> (r: Option<PriceQuote>)
    ensures
        quote_view(r) == attempt(*c, *u, s),
{
    if !c.serves_source(s) {
        return None;
    }
    match s {
        Source::ById => {
            let id = given_text(&c.station_id).unwrap();
            by_id_quote(c, id.as_str(), &u.detail, &u.prices)
        },
        Source::Search => search_quote(c, &u.search),
        Source::Average => average_quote(c, &u.average),
    }
}

/// The quote that the replies give: that of the first source in the
/// configured order that gives one, else the placeholder. Never fails.
pub fn resolve(c: &Config, u: &Upstream) -> (r: PriceQuote)
    ensures
        r@ == resolved(*c, *u),
{
    let mut i: usize = 0;
    while i < c.order.len()
        invariant
            i <= c.order@.len(),
            resolved_from(*c, *u, i as int) == resolved(*c, *u),
        decreases c.order@.len() - i,
    {
        if let Some(q) = attempt_source(c, u, c.order[i]) {
            return q;
        }
        i = i + 1;
    }
    placeholder(c)
}

fn wanted_endpoint(u: &Upstream, s: Source) -> (r: Option<Endpoint>)
    ensures
        r == wanted(*u, s),
{
    match s {
        Source::ById => if matches!(u.detail, Reply::Pending) {
            Some(Endpoint::Detail)
        } else if matches!(u.prices, Reply::Pending) {
            Some(Endpoint::Prices)
        } else {
            None
        },
        Source::Search => if matches!(u.search, Reply::Pending) {
            Some(Endpoint::Search)
        } else {
            None
        },
        Source::Average => if matches!(u.average, Reply::Pending) {
            Some(Endpoint::Average)
        } else {
            None
        },
    }
}

/// The request to make next, or none when the quote is settled. A request
/// is always one not made yet, of a served source.
pub fn next_request(c: &Config, u: &Upstream) -> (r: Option<Endpoint>)
    ensures
        r == request_from(*c, *u, 0),
        r is Some ==> u.reply(r->0) is Pending && c.serves(source_of(r->0)),
{
    proof {
        lemma_request_is_pending(*c, *u, 0);
    }
    let mut i: usize = 0;
    while i < c.order.len()
        invariant
            i <= c.order@.len(),
            request_from(*c, *u, i as int) == request_from(*c, *u, 0),
        decreases c.order@.len() - i,
    {
        let s = c.order[i];
        if c.serves_source(s) {
            let w = wanted_endpoint(u, s);
            if w.is_some() {
                return w;
            }
            if attempt_source(c, u, s).is_some() {
                return None;
            }
        }
        i = i + 1;
    }
    None
}

proof fn lemma_request_is_pending(c: Config, u: Upstream, i: int)
    ensures
        request_from(c, u, i) is Some ==> u.reply(request_from(c, u, i)->0) is Pending && c.serves(
            source_of(request_from(c, u, i)->0),
        ),
    decreases c.order@.len() - i,
{
    if 0 <= i < c.order@.len() {
        lemma_request_is_pending(c, u, i + 1);
    }
}

/// The address to request for an endpoint, where its source is served.
pub fn request_url(c: &Config, e: Endpoint) -> (r: Option<String>)
    ensures
        match r {
            Some(s) => url_spec(*c, e) == Some(s@),
            None => url_spec(*c, e) is None,
        },
{
    if !c.serves_source(source_of_endpoint(e)) {
        return None;
    }
    match e {
        Endpoint::Average => {
            let a = given_text(&c.average_url).unwrap();
            Some(String::from_str(a.as_str()))
        },
        _ => {
            let key = given_text(&c.api_key).unwrap();
            let mut s = c.base_url.clone();
            match e {
                Endpoint::Detail => {
                    s.append("/detail.php?id=");
                    s.append(given_text(&c.station_id).unwrap().as_str());
                },
                Endpoint::Prices => {
                    s.append("/prices.php?ids=");
                    s.append(given_text(&c.station_id).unwrap().as_str());
                },
                _ => {
                    let p = c.search_point.as_ref().unwrap();
                    s.append("/list.php?lat=");
                    s.append(p.latitude.as_str());
                    s.append("&lng=");
                    s.append(p.longitude.as_str());
                    s.append("&rad=");
                    s.append(p.radius_km.as_str());
                    s.append("&sort=dist&type=all");
                },
            }
            s.append("&apikey=");
            s.append(key.as_str());
            Some(s)
        },
    }
}

/// The source that an endpoint belongs to.
pub fn source_of_endpoint(e: Endpoint) -> (r: Source)
    ensures
        r == source_of(e),
{
    match e {
        Endpoint::Detail => Source::ById,
        Endpoint::Prices => Source::ById,
        Endpoint::Search => Source::Search,
        Endpoint::Average => Source::Average,
    }
}

} // verus!
