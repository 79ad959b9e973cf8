//! The upstream requests and what came back from them.
use vstd::prelude::*;
use crate::json::Json;

verus! {

/// An upstream request.
#[derive(Clone, Copy, Debug, PartialEq, Eq, Structural)]
pub enum Endpoint {
    /// Name and brand of the configured station.
    Detail,
    /// Prices of the configured station.
    Prices,
    /// The stations around the configured point.
    Search,
    /// The nationwide average.
    Average,
}

/// The state of one upstream request.
#[derive(Debug)]
pub enum Reply {
    /// Not made yet.
    Pending,
    /// Unreachable, timed out, rejected by its status, or not JSON.
    Failed,
    /// A JSON document came back.
    Body(Json),
}

/// The replies of one resolution, one per endpoint.
#[derive(Debug)]
pub struct Upstream {
    pub detail: Reply,
    pub prices: Reply,
    pub search: Reply,
    pub average: Reply,
}

/// The document of a reply, where one came back.
pub open spec fn body_of(r: Reply) -> Option<Json> {
    match r {
        Reply::Body(j) => Some(j),
        _ => None,
    }
}

impl Upstream {
    /// Nothing asked yet.
    pub fn pending() -> (r: Upstream)
        ensures
            r.detail is Pending,
            r.prices is Pending,
            r.search is Pending,
            r.average is Pending,
    {
        Upstream {
            detail: Reply::Pending,
            prices: Reply::Pending,
            search: Reply::Pending,
            average: Reply::Pending,
        }
    }

    pub open spec fn reply(&self, e: Endpoint) -> Reply {
        match e {
            Endpoint::Detail => self.detail,
            Endpoint::Prices => self.prices,
            Endpoint::Search => self.search,
            Endpoint::Average => self.average,
        }
    }

    /// Records the reply of an endpoint.
    pub fn record(&mut self, e: Endpoint, r: Reply)
        ensures
            final(self).reply(e) == r,
            forall|o: Endpoint| o != e ==> final(self).reply(o) == old(self).reply(o),
    {
        match e {
            Endpoint::Detail => self.detail = r,
            Endpoint::Prices => self.prices = r,
            Endpoint::Search => self.search = r,
            Endpoint::Average => self.average = r,
        }
    }
}

} // verus!
