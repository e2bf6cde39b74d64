//! Struct-based access to various subreddit APIs: searching for subreddits
//! by name, picking an exact match, and fetching the top posts through the
//! pagination engine.

use vstd::prelude::*;
use vstd::string::StringExecFns;

use crate::errors::ApiError;
use crate::ext::json_doc_ok;
use crate::ext::json_from_str;
use crate::ext::names_of;
use crate::ext::read_names;
use crate::ext::strings_view;
use crate::listing::applied;
use crate::listing::is_error_status;
use crate::listing::run_ok;
use crate::listing::lemma_children_budget;
use crate::listing::lemma_listing_run;
use crate::listing::ListingFetch;
use crate::listing::ListingPage;
use crate::query_listing::QueryListingRequest;
use crate::strutil::spec_dec;
use crate::strutil::u64_to_dec;
use crate::Api;

verus! {

/// Maps to a single subreddit.
#[derive(Debug)]
pub struct Subreddit {
    /// Name of the subreddit.
    pub name: String,
}

/// The diagnostic for a search response without a `names` array.
pub open spec fn no_names_msg() -> Seq<char> {
    "Search response has no 'names' array"@
}

/// A fetched item list truncated to the requested count: unchanged when it
/// holds no more than `count` items, its first `count` items otherwise.
pub open spec fn spec_taken(items: Seq<serde_json::Value>, count: int) -> Seq<serde_json::Value> {
    if count >= items.len() {
        items
    } else {
        items.take(count)
    }
}

impl Subreddit {
    /// Starts the top-posts fetch for this subreddit: a request for `count`
    /// items is split into pages of 100 when `count` exceeds 100 (keeping
    /// the integer quotient `count / 100` as the page count, so a count
    /// that is no multiple of 100 under-fetches), and is one page of
    /// exactly `count` items otherwise.
    pub fn get_top_plan(&self, api: &Api, count: u64) -> (r: Result<ListingFetch, ApiError>)
        ensures
            r is Ok <==> api.can_reformat("r/"@ + self.name@ + "/top"@),
            r is Ok ==> {
                let f = r->Ok_0;
                &&& f.url@ == api.spec_reformatted("r/"@ + self.name@ + "/top"@)
                &&& crate::pairs_view(f.headers@) == api.spec_headers()
                &&& f.params@.len() == 0
                &&& f.limit == (if count > 100 {
                    100u64
                } else {
                    count
                })
                &&& f.remaining == (if count > 100 {
                    count / 100
                } else {
                    1u64
                })
                &&& f.count == 0
                &&& f.after@.len() == 0
                &&& f.show_all == true
                &&& f.items@.len() == 0
            },
            r is Err ==> r->Err_0.source@ == Seq::<char>::empty(),
    {
        let mp: u64;
        let times: u64;
        if count > 100 {
            mp = 100;
            times = count / 100;
        } else {
            mp = count;
            times = 1;
        }
        let mut path = "r/".to_owned();
        path.append(self.name.as_str());
        path.append("/top");
        let ql = QueryListingRequest::new(path.as_str(), mp, times);
        let r = api.start_listing(&ql);
        proof {
            if r is Ok {
                assert(crate::pairs_view(r->Ok_0.params@).len() == r->Ok_0.params@.len());
            }
        }
        r
    }

    /// Truncates a fetched item list to the requested count.
    pub fn take_items(items: Vec<serde_json::Value>, count: u64) -> (r: Vec<serde_json::Value>)
        ensures
            r@ == spec_taken(items@, count as int),
    {
        let mut items = items;
        if count < items.len() as u64 {
            items.truncate(count as usize);
        }
        items
    }

    /// Turns a decoded name list into one subreddit handle per name, in
    /// the same order.
    pub fn from_names(names: Vec<String>) -> (r: Vec<Subreddit>)
        ensures
            r@.len() == names@.len(),
            forall|i: int| 0 <= i < names@.len() ==> (#[trigger] r@[i]).name == names@[i],
    {
        let mut r: Vec<Subreddit> = Vec::new();
        let mut i: usize = 0;
        while i < names.len()
            invariant
                i <= names@.len(),
                r@.len() == i,
                forall|j: int| 0 <= j < i ==> (#[trigger] r@[j]).name == names@[j],
            decreases names@.len() - i,
        {
            r.push(Subreddit { name: names[i].clone() });
            i = i + 1;
        }
        r
    }

    /// Decodes the search endpoint's body: exactly when the body carries a
    /// `names` array, its strings, in order, skipping any non-string
    /// entries.
    pub fn parse_names(body: &str) -> (r: Result<Vec<String>, ApiError>)
        ensures
            r is Ok <==> names_of(body@) is Some,
            r is Ok ==> strings_view(r->Ok_0@) == names_of(body@)->Some_0,
            !json_doc_ok(body@) ==> r is Err && r->Err_0.source@ == "serde_json::error::Error"@,
            json_doc_ok(body@) && names_of(body@) is None ==> r is Err && r->Err_0.source@
                == Seq::<char>::empty() && r->Err_0.message@ == no_names_msg(),
            r is Err ==> r->Err_0.source@ == "serde_json::error::Error"@ || (r->Err_0.source@
                == Seq::<char>::empty() && r->Err_0.message@ == no_names_msg()),
    {
        match read_names(body) {
            Some(ns) => Ok(ns),
            None => {
                match json_from_str(body) {
                    Err(e) => Err(ApiError::from(e)),
                    Ok(_) => Err(
                        ApiError::application("Search response has no 'names' array".to_owned()),
                    ),
                }
            },
        }
    }

    /// Handles the search endpoint's response: a client- or server-error
    /// status aborts with an application error naming the numeric code;
    /// otherwise the body's name list becomes one subreddit handle per
    /// name, in the body's order.
    pub fn search_response(status: u16, body: &str) -> (r: Result<Vec<Subreddit>, ApiError>)
        ensures
            is_error_status(status) ==> r is Err && r->Err_0.source@ == Seq::<char>::empty()
                && r->Err_0.message@ == "Server error, code "@ + spec_dec(status as int),
            !is_error_status(status) ==> (r is Ok <==> names_of(body@) is Some),
            r is Ok ==> r->Ok_0@.len() == names_of(body@)->Some_0.len() && forall|i: int|
                0 <= i < r->Ok_0@.len() ==> (#[trigger] r->Ok_0@[i]).name@ == names_of(
                    body@,
                )->Some_0[i],
            r is Err && !is_error_status(status) ==> r->Err_0.source@
                == "serde_json::error::Error"@ || (r->Err_0.source@ == Seq::<char>::empty()
                && r->Err_0.message@ == no_names_msg()),
    {
        if 400 <= status && status < 600 {
            let mut msg = "Server error, code ".to_owned();
            let code = u64_to_dec(status as u64);
            msg.append(code.as_str());
            return Err(ApiError::application(msg));
        }
        let names = match Self::parse_names(body) {
            Ok(ns) => ns,
            Err(e) => {
                return Err(e);
            },
        };
        let ghost names0 = names@;
        let subs = Self::from_names(names);
        proof {
            assert(forall|i: int|
                0 <= i < names0.len() ==> (#[trigger] strings_view(names0)[i]) == names0[i]@);
        }
        Ok(subs)
    }

    /// Picks the first entry whose name equals the query exactly, or
    /// reports a not-found application error when no entry's name does,
    /// however many inexact matches there are.
    pub fn find_exact(matching: &Vec<Subreddit>, name: &str) -> (r: Result<Subreddit, ApiError>)
        ensures
            r is Ok <==> exists|i: int|
                0 <= i < matching@.len() && (#[trigger] matching@[i]).name@ == name@,
            r is Ok ==> exists|i: int|
                {
                    &&& 0 <= i < matching@.len()
                    &&& (#[trigger] matching@[i]).name@ == name@
                    &&& r->Ok_0 == matching@[i]
                    &&& forall|j: int| 0 <= j < i ==> (#[trigger] matching@[j]).name@ != name@
                },
            r is Err ==> r->Err_0.source@ == Seq::<char>::empty() && r->Err_0.message@
                == "Subreddit not found"@,
    {
        let wanted = name.to_owned();
        let mut i: usize = 0;
        while i < matching.len()
            invariant
                i <= matching@.len(),
                wanted@ == name@,
                forall|j: int| 0 <= j < i ==> (#[trigger] matching@[j]).name@ != name@,
            decreases matching@.len() - i,
        {
            if matching[i].name == wanted {
                return Ok(Subreddit { name: matching[i].name.clone() });
            }
            i = i + 1;
        }
        Err(ApiError::application("Subreddit not found".to_owned()))
    }
}

/// For a requested count of at most 100, the top-posts fetch owes exactly
/// one page request of exactly `count` items, and when that page carries
/// at least `count` items the truncated result holds exactly `count`.
pub proof fn lemma_top_small_fetch(
    pre: ListingFetch,
    page: ListingPage,
    post: ListingFetch,
    count: u64,
)
    requires
        count <= 100,
        pre.limit == count,
        pre.remaining == 1,
        pre.items@.len() == 0,
        applied(pre, page, post),
        page.children@.len() >= count,
    ensures
        post.remaining == 0,
        spec_taken(post.items@, count as int).len() == count,
{
    assert(post.items@ =~= page.children@);
}

/// For a requested count above 100, the fetch owes `count / 100` pages of
/// 100 items each; when the server honours the page size, a completed run
/// yields at most `100 * (count / 100)` items, so truncation to `count`
/// cannot return more than that even though `count` was requested.
pub proof fn lemma_top_large_fetch(
    pre: ListingFetch,
    pages: Seq<ListingPage>,
    post: ListingFetch,
    count: u64,
)
    requires
        count > 100,
        pre.limit == 100,
        pre.remaining == count / 100,
        pre.items@.len() == 0,
        run_ok(pre, pages, post),
        post.remaining == 0,
        forall|i: int| 0 <= i < pages.len() ==> (#[trigger] pages[i].children@.len()) <= 100,
    ensures
        pages.len() == count / 100,
        post.items@.len() <= 100 * (count as int / 100),
        spec_taken(post.items@, count as int).len() <= 100 * (count as int / 100),
{
    lemma_listing_run(pre, pages, post);
    lemma_children_budget(pages, 100);
}

} // verus!
