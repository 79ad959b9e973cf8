//! What holds of every resolution.
use vstd::prelude::*;
use crate::config::{default_order, Config, Source};
use crate::json::{member, Json};
use crate::quote::{FuelPrices, QuoteView};
use crate::resolver::{attempt, request_from, resolved, resolved_from, wanted};
use crate::sources::{average_spec, placeholder_spec};
use crate::upstream::{body_of, Endpoint, Reply, Upstream};

verus! {

/// A reply from which no source can read anything: not made, failed, or a
/// document that is not an object.
pub open spec fn unusable(r: Reply) -> bool {
    match body_of(r) {
        Some(j) => !(j is Object),
        None => true,
    }
}

proof fn lemma_same_attempts(c: Config, u1: Upstream, u2: Upstream, i: int)
    requires
        forall|s: Source| attempt(c, u1, s) == attempt(c, u2, s),
    ensures
        resolved_from(c, u1, i) == resolved_from(c, u2, i),
    decreases c.order@.len() - i,
{
    if 0 <= i < c.order@.len() {
        assert(attempt(c, u1, c.order@[i]) == attempt(c, u2, c.order@[i]));
        lemma_same_attempts(c, u1, u2, i + 1);
    }
}

proof fn lemma_no_attempt_succeeds(c: Config, u: Upstream, i: int)
    requires
        forall|s: Source| attempt(c, u, s) is None,
    ensures
        resolved_from(c, u, i) == placeholder_spec(c),
    decreases c.order@.len() - i,
{
    if 0 <= i < c.order@.len() {
        assert(attempt(c, u, c.order@[i]) is None);
        lemma_no_attempt_succeeds(c, u, i + 1);
    }
}

/// Where no reply can be read (none made, all failed, or none an object),
/// resolution still gives a quote: the placeholder, with every price the
/// `0` sentinel.
pub proof fn law_unusable_replies_give_placeholder(c: Config, u: Upstream)
    requires
        forall|e: Endpoint| unusable(#[trigger] u.reply(e)),
    ensures
        resolved(c, u) == placeholder_spec(c),
        resolved(c, u).prices == (FuelPrices { e5: 0, e10: 0, diesel: 0 }),
{
    assert(unusable(u.reply(Endpoint::Prices)));
    assert(unusable(u.reply(Endpoint::Search)));
    assert(unusable(u.reply(Endpoint::Average)));
    assert forall|s: Source| attempt(c, u, s) is None by {
        match body_of(u.prices) {
            Some(j) => assert(member(j, "ok"@) is None),
            None => {},
        }
        match body_of(u.search) {
            Some(j) => assert(member(j, "ok"@) is None),
            None => {},
        }
        match body_of(u.average) {
            Some(j) => assert(member(j, "date"@) is None),
            None => {},
        }
    }
    lemma_no_attempt_succeeds(c, u, 0);
}

/// A search reply that lists no station gives no quote: resolution goes on
/// as if the search had failed, to the next source or to the placeholder.
pub proof fn law_empty_station_list_falls_through(
    c: Config,
    u: Upstream,
    failed: Upstream,
    list: Json,
    stations: Vec<Json>,
)
    requires
        u.search == Reply::Body(list),
        member(list, "stations"@) == Some(Json::Array(stations)),
        stations@.len() == 0,
        failed.search is Failed,
        failed.detail == u.detail,
        failed.prices == u.prices,
        failed.average == u.average,
    ensures
        resolved(c, u) == resolved(c, failed),
{
    assert forall|s: Source| attempt(c, u, s) == attempt(c, failed, s) by {}
    lemma_same_attempts(c, u, failed, 0);
}

/// In the default order, where the configured station gives no quote and
/// the search reply lists no station, resolution reaches the nationwide
/// average: its quote, or the placeholder where it gives none.
pub proof fn law_empty_station_list_reaches_average(
    c: Config,
    u: Upstream,
    list: Json,
    stations: Vec<Json>,
)
    requires
        c.order@ == default_order(),
        attempt(c, u, Source::ById) is None,
        u.search == Reply::Body(list),
        member(list, "stations"@) == Some(Json::Array(stations)),
        stations@.len() == 0,
    ensures
        resolved(c, u) == (match attempt(c, u, Source::Average) {
            Some(q) => q,
            None => placeholder_spec(c),
        }),
        c.serves(Source::Average) ==> attempt(c, u, Source::Average) == average_spec(c, u.average),
{
    assert(attempt(c, u, Source::Search) is None);
    assert(c.order@[0] == Source::ById);
    assert(c.order@[1] == Source::Search);
    assert(c.order@[2] == Source::Average);
    assert(resolved_from(c, u, 3) == placeholder_spec(c));
    assert(resolved_from(c, u, 1) == resolved_from(c, u, 2));
}

/// Resolution holds no hidden state: the same configuration and the same
/// replies give the same quote, however often it is resolved.
pub proof fn law_resolution_is_deterministic(c: Config, u1: Upstream, u2: Upstream)
    requires
        forall|e: Endpoint| #[trigger] u1.reply(e) == u2.reply(e),
    ensures
        resolved(c, u1) == resolved(c, u2),
{
    assert(u1.reply(Endpoint::Detail) == u2.reply(Endpoint::Detail));
    assert(u1.reply(Endpoint::Prices) == u2.reply(Endpoint::Prices));
    assert(u1.reply(Endpoint::Search) == u2.reply(Endpoint::Search));
    assert(u1.reply(Endpoint::Average) == u2.reply(Endpoint::Average));
    assert(u1 == u2);
}

proof fn lemma_settled_from(c: Config, u: Upstream, later: Upstream, i: int)
    requires
        request_from(c, u, i) is None,
        forall|e: Endpoint| !(u.reply(e) is Pending) ==> #[trigger] later.reply(e) == u.reply(e),
    ensures
        resolved_from(c, later, i) == resolved_from(c, u, i),
    decreases c.order@.len() - i,
{
    if 0 <= i < c.order@.len() {
        let s = c.order@[i];
        if c.serves(s) {
            assert(wanted(u, s) is None);
            assert(later.reply(Endpoint::Detail) == u.reply(Endpoint::Detail) || u.detail is Pending);
            assert(later.reply(Endpoint::Prices) == u.reply(Endpoint::Prices) || u.prices is Pending);
            assert(later.reply(Endpoint::Search) == u.reply(Endpoint::Search) || u.search is Pending);
            assert(later.reply(Endpoint::Average) == u.reply(Endpoint::Average)
                || u.average is Pending);
            assert(attempt(c, later, s) == attempt(c, u, s));
        }
        if attempt(c, u, s) is None {
            lemma_settled_from(c, u, later, i + 1);
        }
    }
}

/// Once no request is left, the quote is settled: replies to the requests
/// that were never made could not change it.
pub proof fn law_settled_quote_ignores_unasked(c: Config, u: Upstream, later: Upstream)
    requires
        request_from(c, u, 0) is None,
        forall|e: Endpoint| !(u.reply(e) is Pending) ==> #[trigger] later.reply(e) == u.reply(e),
    ensures
        resolved(c, later) == resolved(c, u),
{
    lemma_settled_from(c, u, later, 0);
}

} // verus!
