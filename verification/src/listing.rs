//! The cursor-pagination engine.  A `ListingFetch` holds the fixed parts of
//! a paginated GET request together with the loop state: the cursor, the
//! running item counter, the number of page requests still owed, and the
//! items accumulated so far.  The embedding program sends each prepared
//! page request and feeds the response back through `on_response`.

use vstd::prelude::*;
use vstd::string::StringExecFns;

use crate::errors::ApiError;
use crate::ext::json_doc_ok;
use crate::ext::json_from_str;
use crate::ext::listing_after_of;
use crate::ext::listing_children_count_of;
use crate::ext::read_listing_after;
use crate::ext::read_listing_children;
use crate::pairs_view;
use crate::strutil::spec_dec;
use crate::strutil::u64_to_dec;

verus! {

/// One decoded page of a listing response: the forward cursor it carried
/// under `data.after` and the items under `data.children`.
pub struct ListingPage {
    /// The next-page cursor
    pub after: String,
    /// The page's items, as opaque JSON values
    pub children: Vec<serde_json::Value>,
}

/// The state of one paginated fetch.  All page requests use method GET
/// against `url` with `headers`; the per-page query parameters are derived
/// from the remaining fields by `page_params`.
pub struct ListingFetch {
    /// The absolute request URL
    pub url: String,
    /// The request headers, as name and value pairs
    pub headers: Vec<(String, String)>,
    /// The descriptor's extra query parameters
    pub params: Vec<(String, String)>,
    /// The page size requested from the server
    pub limit: u64,
    /// Whether to request that hidden items be shown
    pub show_all: bool,
    /// The pagination cursor; empty when absent
    pub after: String,
    /// The running item counter
    pub count: u64,
    /// The number of page requests still to be made
    pub remaining: u64,
    /// The items accumulated so far, in response order
    pub items: Vec<serde_json::Value>,
}

/// How applying one decoded page changes the fetch state: the cursor is
/// replaced by the page's, the page's items are appended in order, the
/// counter grows by one per item, one owed request is consumed, and the
/// fixed request parts stay untouched.
pub open spec fn applied(pre: ListingFetch, page: ListingPage, post: ListingFetch) -> bool {
    &&& post.after@ == page.after@
    &&& post.items@ == pre.items@ + page.children@
    &&& post.count == pre.count + page.children@.len()
    &&& post.remaining == pre.remaining - 1
    &&& post.url == pre.url
    &&& post.headers == pre.headers
    &&& post.params == pre.params
    &&& post.limit == pre.limit
    &&& post.show_all == pre.show_all
}

/// The query parameters of the next page request: the extra parameters
/// when any were given, then `limit`, then `after` unless the cursor is
/// empty, then `count` unless the counter is zero, then `show=all` when
/// requested.
pub open spec fn spec_page_params(f: ListingFetch) -> Seq<(Seq<char>, Seq<char>)> {
    (if f.params@.len() > 0 {
        pairs_view(f.params@)
    } else {
        Seq::<(Seq<char>, Seq<char>)>::empty()
    }) + seq![("limit"@, spec_dec(f.limit as int))] + (if f.after@.len() > 0 {
        seq![("after"@, f.after@)]
    } else {
        Seq::<(Seq<char>, Seq<char>)>::empty()
    }) + (if f.count > 0 {
        seq![("count"@, spec_dec(f.count as int))]
    } else {
        Seq::<(Seq<char>, Seq<char>)>::empty()
    }) + (if f.show_all {
        seq![("show"@, "all"@)]
    } else {
        Seq::<(Seq<char>, Seq<char>)>::empty()
    })
}

/// The status codes that abort a listing fetch: client and server errors.
pub open spec fn is_error_status(status: u16) -> bool {
    400 <= status < 600
}

/// The diagnostic for a page response whose `data.after` member is no
/// string.
pub open spec fn no_after_msg() -> Seq<char> {
    "Listing response has no 'data.after' string"@
}

/// The diagnostic for a page response whose `data.children` member is no
/// array.
pub open spec fn no_children_msg() -> Seq<char> {
    "Listing response has no 'data.children' array"@
}

/// The diagnostic for an item counter that cannot grow any further.
pub open spec fn count_overflow_msg() -> Seq<char> {
    "Listing item counter overflowed"@
}

/// Decodes one page body: the cursor from `data.after` and the items from
/// `data.children`.  Decoding succeeds exactly when the body carries a
/// string cursor and an item array, and then yields exactly that cursor
/// and exactly as many items as the body carries; a body that is no JSON
/// document is a decode error, one without the two expected members an
/// application error.
pub fn parse_listing_page(body: &str) -> (r: Result<ListingPage, ApiError>)
    ensures
        r is Ok <==> listing_after_of(body@) is Some && listing_children_count_of(body@) is Some,
        r is Ok ==> r->Ok_0.after@ == listing_after_of(body@)->Some_0
            && r->Ok_0.children@.len() == listing_children_count_of(body@)->Some_0,
        !json_doc_ok(body@) ==> r is Err && r->Err_0.source@ == "serde_json::error::Error"@,
        json_doc_ok(body@) && listing_after_of(body@) is None ==> r is Err && r->Err_0.source@
            == Seq::<char>::empty() && r->Err_0.message@ == no_after_msg(),
        listing_after_of(body@) is Some && listing_children_count_of(body@) is None ==> r is Err
            && r->Err_0.source@ == Seq::<char>::empty() && r->Err_0.message@ == no_children_msg(),
        r is Err ==> r->Err_0.source@ == "serde_json::error::Error"@ || (r->Err_0.source@
            == Seq::<char>::empty() && (r->Err_0.message@ == no_after_msg() || r->Err_0.message@
            == no_children_msg())),
{
    let after = match read_listing_after(body) {
        Some(a) => a,
        None => {
            return match json_from_str(body) {
                Err(e) => Err(ApiError::from(e)),
                Ok(_) => Err(
                    ApiError::application(
                        "Listing response has no 'data.after' string".to_owned(),
                    ),
                ),
            };
        },
    };
    let children = match read_listing_children(body) {
        Some(c) => c,
        None => {
            return Err(
                ApiError::application("Listing response has no 'data.children' array".to_owned()),
            );
        },
    };
    Ok(ListingPage { after, children })
}

impl ListingFetch {
    /// Whether all owed page requests have been answered.
    pub fn done(&self) -> (b: bool)
        ensures
            b == (self.remaining == 0),
    {
        self.remaining == 0
    }

    /// Builds the query parameters for the next page request.
    pub fn page_params(&self) -> (r: Vec<(String, String)>)
        ensures
            pairs_view(r@) == spec_page_params(*self),
    {
        let mut r: Vec<(String, String)> = Vec::new();
        if self.params.len() > 0 {
            let mut i: usize = 0;
            while i < self.params.len()
                invariant
                    i <= self.params@.len(),
                    r@.len() == i,
                    forall|j: int| 0 <= j < i ==> #[trigger] r@[j] == self.params@[j],
                decreases self.params@.len() - i,
            {
                let p = &self.params[i];
                r.push((p.0.clone(), p.1.clone()));
                i = i + 1;
            }
            proof {
                assert(r@ =~= self.params@);
            }
        }
        r.push(("limit".to_owned(), u64_to_dec(self.limit)));
        if self.after.as_str().unicode_len() > 0 {
            r.push(("after".to_owned(), self.after.clone()));
        }
        if self.count > 0 {
            r.push(("count".to_owned(), u64_to_dec(self.count)));
        }
        if self.show_all {
            r.push(("show".to_owned(), "all".to_owned()));
        }
        proof {
            assert(pairs_view(r@) =~= spec_page_params(*self));
        }
        r
    }

    /// Folds one decoded page into the fetch state.
    pub fn apply_page(&mut self, page: ListingPage)
        requires
            old(self).remaining > 0,
            old(self).count + page.children@.len() <= u64::MAX,
        ensures
            applied(*old(self), page, *final(self)),
    {
        let ListingPage { after, mut children } = page;
        let n = children.len();
        self.after = after;
        self.items.append(&mut children);
        self.count = self.count + n as u64;
        self.remaining = self.remaining - 1;
    }

    /// Handles one page response.  A client- or server-error status aborts
    /// the fetch with an application error naming the numeric code and
    /// leaves the state untouched, so no items of that page are kept; an
    /// undecodable body does likewise with the decode diagnostics of
    /// `parse_listing_page`.  On any other status the page the body
    /// carries is folded in: the body's cursor replaces the cursor, and
    /// exactly as many items as the body carries are appended.
    pub fn on_response(&mut self, status: u16, body: &str) -> (r: Result<(), ApiError>)
        requires
            old(self).remaining > 0,
        ensures
            r is Err ==> *final(self) == *old(self),
            is_error_status(status) ==> r is Err && r->Err_0.source@ == Seq::<char>::empty()
                && r->Err_0.message@ == "Server error, code "@ + spec_dec(status as int),
            !is_error_status(status) ==> (r is Ok <==> listing_after_of(body@) is Some
                && listing_children_count_of(body@) is Some && old(self).count
                + listing_children_count_of(body@)->Some_0 <= u64::MAX),
            r is Ok ==> exists|page: ListingPage| applied(*old(self), page, *final(self)),
            r is Ok ==> final(self).after@ == listing_after_of(body@)->Some_0,
            r is Ok ==> final(self).count == old(self).count + listing_children_count_of(
                body@,
            )->Some_0,
            r is Ok ==> final(self).items@.len() == old(self).items@.len()
                + listing_children_count_of(body@)->Some_0,
            !is_error_status(status) && !json_doc_ok(body@) ==> r is Err && r->Err_0.source@
                == "serde_json::error::Error"@,
            !is_error_status(status) && json_doc_ok(body@) && listing_after_of(body@) is None
                ==> r is Err && r->Err_0.source@ == Seq::<char>::empty() && r->Err_0.message@
                == no_after_msg(),
            !is_error_status(status) && listing_after_of(body@) is Some
                && listing_children_count_of(body@) is None ==> r is Err && r->Err_0.source@
                == Seq::<char>::empty() && r->Err_0.message@ == no_children_msg(),
            !is_error_status(status) && listing_after_of(body@) is Some
                && listing_children_count_of(body@) is Some && old(self).count
                + listing_children_count_of(body@)->Some_0 > u64::MAX ==> r is Err
                && r->Err_0.source@ == Seq::<char>::empty() && r->Err_0.message@
                == count_overflow_msg(),
    {
        if 400 <= status && status < 600 {
            let mut msg = "Server error, code ".to_owned();
            let code = u64_to_dec(status as u64);
            msg.append(code.as_str());
            return Err(ApiError::application(msg));
        }
        let page = match parse_listing_page(body) {
            Ok(p) => p,
            Err(e) => {
                return Err(e);
            },
        };
        if self.count > u64::MAX - page.children.len() as u64 {
            return Err(ApiError::application("Listing item counter overflowed".to_owned()));
        }
        let ghost pre = *self;
        let ghost gpage = page;
        self.apply_page(page);
        proof {
            assert(applied(pre, gpage, *self));
        }
        Ok(())
    }

    /// Hands the accumulated items out, consuming the fetch state.
    pub fn into_items(self) -> (r: Vec<serde_json::Value>)
        ensures
            r == self.items,
    {
        self.items
    }
}

/// The items of a sequence of pages, concatenated in page order.
pub open spec fn concat_children(pages: Seq<ListingPage>) -> Seq<serde_json::Value>
    decreases pages.len(),
{
    if pages.len() == 0 {
        Seq::<serde_json::Value>::empty()
    } else {
        pages[0].children@ + concat_children(pages.skip(1))
    }
}

/// The fetch states reachable by folding in the given pages one by one.
pub open spec fn run_ok(pre: ListingFetch, pages: Seq<ListingPage>, post: ListingFetch) -> bool
    decreases pages.len(),
{
    if pages.len() == 0 {
        post == pre
    } else {
        exists|mid: ListingFetch| applied(pre, pages[0], mid) && run_ok(mid, pages.skip(1), post)
    }
}

/// A whole run of the engine consumes exactly one owed request per page,
/// keeps the fixed request parts, accumulates exactly the pages' items in
/// order, and leaves the cursor of the last page; each page's request
/// therefore follows the cursor of the response before it.
pub proof fn lemma_listing_run(pre: ListingFetch, pages: Seq<ListingPage>, post: ListingFetch)
    requires
        run_ok(pre, pages, post),
    ensures
        post.remaining == pre.remaining - pages.len(),
        post.items@ == pre.items@ + concat_children(pages),
        post.count == pre.count + concat_children(pages).len(),
        post.url == pre.url,
        post.headers == pre.headers,
        post.params == pre.params,
        post.limit == pre.limit,
        post.show_all == pre.show_all,
        pages.len() > 0 ==> post.after@ == pages.last().after@,
        pages.len() == 0 ==> post == pre,
    decreases pages.len(),
{
    if pages.len() == 0 {
        assert(pre.items@ + concat_children(pages) =~= pre.items@);
    } else {
        let mid = choose|mid: ListingFetch|
            applied(pre, pages[0], mid) && run_ok(mid, pages.skip(1), post);
        lemma_listing_run(mid, pages.skip(1), post);
        assert(pre.items@ + (pages[0].children@ + concat_children(pages.skip(1)))
            =~= (pre.items@ + pages[0].children@) + concat_children(pages.skip(1)));
        if pages.len() > 1 {
            assert(pages.skip(1).last() == pages.last());
        }
    }
}

/// The `after` query parameter of the next page request is exactly the
/// cursor of the response just applied: present with that value when the
/// cursor is nonempty, absent when it is empty, as long as the
/// descriptor's own extra parameters do not use the key themselves.  The
/// first request of a fetch behaves the same way with respect to the
/// descriptor's initial cursor, which seeds the `after` field.
pub proof fn lemma_cursor_threading(pre: ListingFetch, page: ListingPage, post: ListingFetch)
    requires
        applied(pre, page, post),
        forall|j: int| 0 <= j < pre.params@.len() ==> (#[trigger] pre.params@[j].0)@ != "after"@,
    ensures
        page.after@.len() > 0 ==> spec_page_params(post).contains(("after"@, page.after@)),
        page.after@.len() == 0 ==> forall|j: int|
            0 <= j < spec_page_params(post).len() ==> (#[trigger] spec_page_params(post)[j]).0
                != "after"@,
{
    let p = spec_page_params(post);
    let ext_len: int = if post.params@.len() > 0 {
        post.params@.len() as int
    } else {
        0
    };
    assert("limit"@ != "after"@) by {
        reveal_strlit("limit");
        reveal_strlit("after");
        if "limit"@ == "after"@ {
            assert("limit"@[0] == "after"@[0]);
        }
    }
    assert("count"@ != "after"@) by {
        reveal_strlit("count");
        reveal_strlit("after");
        if "count"@ == "after"@ {
            assert("count"@[0] == "after"@[0]);
        }
    }
    assert("show"@ != "after"@) by {
        reveal_strlit("show");
        reveal_strlit("after");
        if "show"@ == "after"@ {
            assert("show"@.len() == "after"@.len());
        }
    }
    if page.after@.len() > 0 {
        assert(p[ext_len + 1] == ("after"@, post.after@));
        assert(p.contains(("after"@, page.after@)));
    } else {
        assert forall|j: int| 0 <= j < p.len() implies (#[trigger] p[j]).0 != "after"@ by {
            if j < ext_len {
                assert(p[j] == pairs_view(post.params@)[j]);
                assert(p[j].0 == post.params@[j].0@);
            }
        }
    }
}

/// When every page holds at most `bound` items, a sequence of pages holds
/// at most `bound` times the number of pages.
pub proof fn lemma_children_budget(pages: Seq<ListingPage>, bound: int)
    requires
        bound >= 0,
        forall|i: int| 0 <= i < pages.len() ==> (#[trigger] pages[i].children@.len()) <= bound,
    ensures
        concat_children(pages).len() <= bound * pages.len(),
    decreases pages.len(),
{
    if pages.len() == 0 {
    } else {
        assert(forall|i: int|
            0 <= i < pages.skip(1).len() ==> (#[trigger] pages.skip(1)[i].children@.len())
                <= bound) by {
            assert(forall|i: int|
                0 <= i < pages.skip(1).len() ==> pages.skip(1)[i] == pages[i + 1]);
        }
        lemma_children_budget(pages.skip(1), bound);
        assert(bound + bound * (pages.len() - 1) == bound * pages.len()) by (nonlinear_arith);
    }
}

} // verus!
