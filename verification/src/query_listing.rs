//! The descriptor for a listing request: the target path, the extra query
//! parameters, the pagination cursor, and the page size and count.  Built
//! once through the constructor and the chained field overrides, then
//! consumed read-only by the pagination engine.

use vstd::prelude::*;

verus! {

/// Builder struct for constructing requests to a listing endpoint.
#[derive(Clone, Copy, Debug)]
pub struct QueryListingRequest<'a> {
    /// The relative URL path
    pub path: &'a str,
    /// The optional URL query parameters to supply
    pub params: &'a [(&'a str, &'a str)],
    /// The optional fullname to start at
    pub after: Option<&'a str>,
    /// The number received so far
    pub count: u64,
    /// The number of items to get per request
    pub limit: u64,
    /// The number of requests to make
    pub requests: u64,
    /// Whether to show all items (true) or follow hidden items settings (false)
    pub show_all: bool,
}

impl<'a> QueryListingRequest<'a> {
    /// Construct a new builder.
    pub fn new(path: &'a str, limit: u64, requests: u64) -> (r: Self)
        ensures
            r.path == path,
            r.params@.len() == 0,
            r.after is None,
            r.count == 0,
            r.limit == limit,
            r.requests == requests,
            r.show_all == true,
    {
        QueryListingRequest {
            path,
            params: &[],
            after: None,
            count: 0,
            limit,
            requests,
            show_all: true,
        }
    }

    /// Override the `path` field.
    pub fn path(self, path: &'a str) -> (r: Self)
        ensures
            r == (QueryListingRequest { path, ..self }),
    {
        QueryListingRequest { path, ..self }
    }

    /// Override the `params` field.
    pub fn params(self, params: &'a [(&'a str, &'a str)]) -> (r: Self)
        ensures
            r == (QueryListingRequest { params, ..self }),
    {
        QueryListingRequest { params, ..self }
    }

    /// Override the `after` field.
    pub fn after(self, after: Option<&'a str>) -> (r: Self)
        ensures
            r == (QueryListingRequest { after, ..self }),
    {
        QueryListingRequest { after, ..self }
    }

    /// Override the `count` field.
    pub fn count(self, count: u64) -> (r: Self)
        ensures
            r == (QueryListingRequest { count, ..self }),
    {
        QueryListingRequest { count, ..self }
    }

    /// Override the `limit` field.
    pub fn limit(self, limit: u64) -> (r: Self)
        ensures
            r == (QueryListingRequest { limit, ..self }),
    {
        QueryListingRequest { limit, ..self }
    }

    /// Override the `requests` field.
    pub fn requests(self, requests: u64) -> (r: Self)
        ensures
            r == (QueryListingRequest { requests, ..self }),
    {
        QueryListingRequest { requests, ..self }
    }

    /// Override the `show_all` field.
    pub fn show_all(self, show_all: bool) -> (r: Self)
        ensures
            r == (QueryListingRequest { show_all, ..self }),
    {
        QueryListingRequest { show_all, ..self }
    }
}

} // verus!
