//! `bird bookmarks`: page size, the query of each page, and when paging
//! stops under `--limit`.

use vstd::prelude::*;
use crate::cli::dispatch::{ListFlags, spec_clamp_limit, clamp_limit};
use crate::fields::tweet_param_views;
use crate::db::{parse_url, parsed_url};
use crate::raw::{append_query, url_appended};
use crate::db::store::BookmarkRow;
use crate::output::{json_quote, json_string, lines_of, lines_spec};
use crate::text::{debug_str, decimal, decimal_spec, owned, push_all, push_str, str_debug};

verus! {

/// Options of one bookmarks run.
#[derive(Clone, Debug)]
pub struct BookmarkOpts {
    pub pretty: bool,
    /// Maximum number of bookmarks to emit (also bounds the page size).
    pub limit: u32,
    /// Pagination cursor to start from.
    pub cursor: Option<String>,
}

/// The options from the list flags: the limit clamped to 1000 (100 when
/// absent or zero), the cursor as given.
pub fn bookmark_opts(pretty: bool, flags: &ListFlags) -> (r: BookmarkOpts)
    ensures
        r.pretty == pretty,
        r.limit == spec_clamp_limit(flags.limit, 100, 1000).0,
        r.cursor == flags.cursor,
{
    let (limit, _) = clamp_limit(flags.limit, 100, 1000);
    BookmarkOpts { pretty, limit, cursor: flags.cursor.clone() }
}

/// Results per page: the limit clamped to the API's 1..=100.
pub fn page_size(limit: u32) -> (r: u32)
    ensures
        r == (if limit < 1 {
            1
        } else if limit > 100 {
            100
        } else {
            limit
        }),
{
    if limit < 1 {
        1
    } else if limit > 100 {
        100
    } else {
        limit
    }
}

/// How many of a page's `n` items are emitted, given the cap (0 = no cap)
/// and how many were emitted before.
pub open spec fn spec_emit_count(limit_cap: int, emitted: int, n: int) -> int {
    if limit_cap == 0 {
        n
    } else if emitted >= limit_cap {
        0
    } else if n < limit_cap - emitted {
        n
    } else {
        limit_cap - emitted
    }
}

/// How many of a page's items are emitted.
pub fn emit_count(limit_cap: usize, emitted: usize, n: usize) -> (r: usize)
    ensures
        r == spec_emit_count(limit_cap as int, emitted as int, n as int),
{
    if limit_cap == 0 {
        n
    } else if emitted >= limit_cap {
        0
    } else if n < limit_cap - emitted {
        n
    } else {
        limit_cap - emitted
    }
}

/// The number of items emitted after pages of the given sizes.
pub open spec fn emitted_after(limit_cap: int, pages: Seq<int>) -> int
    decreases pages.len(),
{
    if pages.len() == 0 {
        0
    } else {
        let before = emitted_after(limit_cap, pages.drop_last());
        before + spec_emit_count(limit_cap, before, pages.last())
    }
}

/// `--limit` bounds the response, not just the page size: whatever the
/// sizes of the pages, no more than the limit is emitted, and without a
/// limit every item is.
pub proof fn law_limit_bounds_emitted(limit_cap: int, pages: Seq<int>)
    requires
        limit_cap >= 0,
        forall|i: int| 0 <= i < pages.len() ==> #[trigger] pages[i] >= 0,
    ensures
        0 <= emitted_after(limit_cap, pages),
        limit_cap > 0 ==> emitted_after(limit_cap, pages) <= limit_cap,
        limit_cap == 0 ==> emitted_after(limit_cap, pages) == pages.fold_left(
            0,
            |acc: int, n: int| acc + n,
        ),
    decreases pages.len(),
{
    if pages.len() > 0 {
        let p = pages.drop_last();
        assert forall|i: int| 0 <= i < p.len() implies #[trigger] p[i] >= 0 by {
            assert(p[i] == pages[i]);
        }
        law_limit_bounds_emitted(limit_cap, p);
        assert(pages.last() == pages[pages.len() - 1]);
    }
}

/// Under a cap with room left, a page emits as many of its items as fit:
/// the smaller of the page's size and the room left, so a page that fits
/// is emitted whole.
pub proof fn law_page_emits_what_fits(limit_cap: int, emitted: int, n: int)
    requires
        0 <= emitted < limit_cap,
        n >= 0,
    ensures
        spec_emit_count(limit_cap, emitted, n) <= n,
        spec_emit_count(limit_cap, emitted, n) <= limit_cap - emitted,
        spec_emit_count(limit_cap, emitted, n) == n || spec_emit_count(limit_cap, emitted, n)
            == limit_cap - emitted,
        n <= limit_cap - emitted ==> spec_emit_count(limit_cap, emitted, n) == n,
{
}

/// The total of the page sizes.
pub open spec fn page_total(pages: Seq<int>) -> int {
    pages.fold_left(0, |acc: int, n: int| acc + n)
}

/// Under a cap, exactly the smaller of the cap and the number of items
/// fetched is emitted: nothing within the limit is dropped, nothing past it
/// is shown.
pub proof fn law_capped_emission_is_min(limit_cap: int, pages: Seq<int>)
    requires
        limit_cap > 0,
        forall|i: int| 0 <= i < pages.len() ==> #[trigger] pages[i] >= 0,
    ensures
        emitted_after(limit_cap, pages) == (if page_total(pages) < limit_cap {
            page_total(pages)
        } else {
            limit_cap
        }),
    decreases pages.len(),
{
    if pages.len() > 0 {
        let p = pages.drop_last();
        assert forall|i: int| 0 <= i < p.len() implies #[trigger] p[i] >= 0 by {
            assert(p[i] == pages[i]);
        }
        law_capped_emission_is_min(limit_cap, p);
        assert(pages.last() == pages[pages.len() - 1]);
        assert(page_total(pages) == page_total(p) + pages.last());
    }
}

/// What happens after a page.
#[derive(Clone, Debug)]
pub enum PageNext {
    /// Fetch the next page with this token.
    Continue(String),
    /// Stop; when the cap was reached, the cursor to resume from.
    Stop { next_cursor: Option<String> },
}

/// After a page: the cap reached stops with the page's next token as the
/// resume cursor; no next token stops; otherwise paging continues.
pub fn after_page(limit_cap: usize, emitted: usize, next_token: Option<String>) -> (r: PageNext)
    ensures
        limit_cap > 0 && emitted >= limit_cap ==> (r matches PageNext::Stop { next_cursor } && next_cursor == next_token),
        !(limit_cap > 0 && emitted >= limit_cap) ==> match next_token {
            Some(t) => r matches PageNext::Continue(c) && c == t,
            None => r matches PageNext::Stop { next_cursor } && next_cursor is None,
        },
{
    if limit_cap > 0 && emitted >= limit_cap {
        return PageNext::Stop { next_cursor: next_token };
    }
    match next_token {
        Some(t) => PageNext::Continue(t),
        None => PageNext::Stop { next_cursor: None },
    }
}

/// The query pairs of one page request: the page size, the tweet field
/// sets, then the pagination token when there is one.
pub fn page_query(max_results: u32, token: Option<&str>) -> (r: Vec<(String, String)>)
    ensures
        r@.map_values(|p: (String, String)| (p.0@, p.1@)) == seq![
            ("max_results"@, decimal_spec(max_results as nat)),
        ] + tweet_param_views() + match token {
            Some(t) => seq![("pagination_token"@, t@)],
            None => Seq::empty(),
        },
{
    let mut q: Vec<(String, String)> = Vec::new();
    q.push((owned("max_results"), decimal(max_results as u64)));
    let fields = crate::fields::tweet_query_params();
    let ghost head = seq![("max_results"@, decimal_spec(max_results as nat))];
    let ghost fv = tweet_param_views();
    let mut k: usize = 0;
    while k < fields.len()
        invariant
            k <= fields@.len(),
            fields@.map_values(|p: (&'static str, &'static str)| (p.0@, p.1@)) == fv,
            q@.map_values(|p: (String, String)| (p.0@, p.1@)) == head + fv.take(k as int),
        decreases fields@.len() - k,
    {
        let (a, b) = fields[k];
        assert((a@, b@) == fv[k as int]);
        let ghost before = q@;
        q.push((owned(a), owned(b)));
        k = k + 1;
        assert(q@.map_values(|p: (String, String)| (p.0@, p.1@)) =~= head + fv.take(k as int)) by {
            assert(q@.map_values(|p: (String, String)| (p.0@, p.1@)) =~= before.map_values(
                |p: (String, String)| (p.0@, p.1@),
            ).push((a@, b@)));
            assert(fv.take(k as int) =~= fv.take((k - 1) as int).push(fv[k - 1]));
        }
    }
    assert(fv.take(fields@.len() as int) =~= fv);
    let ghost mid = q@;
    if let Some(t) = token {
        q.push((owned("pagination_token"), owned(t)));
        assert(q@.map_values(|p: (String, String)| (p.0@, p.1@)) =~= mid.map_values(
            |p: (String, String)| (p.0@, p.1@),
        ).push(("pagination_token"@, t@)));
    }
    assert(q@.map_values(|p: (String, String)| (p.0@, p.1@)) =~= seq![
        ("max_results"@, decimal_spec(max_results as nat)),
    ] + tweet_param_views() + match token {
        Some(t) => seq![("pagination_token"@, t@)],
        None => Seq::empty(),
    });
    q
}

/// The bookmarks endpoint of a user.
pub open spec fn spec_bookmarks_base(user_id: Seq<char>) -> Seq<char> {
    "https://api.x.com/2/users/"@ + user_id + "/bookmarks"@
}

/// The query pairs of one page request (see [`page_query`]).
pub open spec fn spec_page_pairs(max_results: u32, token: Option<Seq<char>>) -> Seq<
    (Seq<char>, Seq<char>),
> {
    seq![("max_results"@, decimal_spec(max_results as nat))] + tweet_param_views() + match token {
        Some(t) => seq![("pagination_token"@, t)],
        None => Seq::empty(),
    }
}

fn bookmarks_base(user_id: &str) -> (r: String)
    ensures
        r@ == spec_bookmarks_base(user_id@),
{
    let mut r = owned("https://api.x.com/2/users/");
    push_str(&mut r, user_id);
    push_str(&mut r, "/bookmarks");
    r
}

/// The URL of one bookmarks page: the user's bookmarks endpoint with the
/// page query appended by the URL library.
pub fn bookmarks_page_url(user_id: &str, max_results: u32, token: Option<&str>) -> (r: String)
    requires
        parsed_url(spec_bookmarks_base(user_id@)) is Some,
    ensures
        r@ == url_appended(
            spec_bookmarks_base(user_id@),
            spec_page_pairs(
                max_results,
                match token {
                    Some(t) => Some(t@),
                    None => None,
                },
            ),
        ),
{
    let base = bookmarks_base(user_id);
    let q = page_query(max_results, token);
    append_query(base.as_str(), &q)
}

/// [`bookmarks_page_url`] for a user id that may not form a valid URL:
/// `None` when it does not.
pub fn try_bookmarks_page_url(user_id: &str, max_results: u32, token: Option<&str>) -> (r: Option<
    String,
>)
    ensures
        parsed_url(spec_bookmarks_base(user_id@)) is None ==> r is None,
        parsed_url(spec_bookmarks_base(user_id@)) is Some ==> (r matches Some(u) && u@
            == url_appended(
            spec_bookmarks_base(user_id@),
            spec_page_pairs(
                max_results,
                match token {
                    Some(t) => Some(t@),
                    None => None,
                },
            ),
        )),
{
    let base = bookmarks_base(user_id);
    match parse_url(base.as_str()) {
        None => None,
        Some(_) => Some(bookmarks_page_url(user_id, max_results, token)),
    }
}

// ----- the output stream -----

/// The opening of the bookmarks document.
pub open spec fn spec_stream_open(pretty: bool) -> Seq<char> {
    if pretty {
        "{\n  \"data\": [\n"@
    } else {
        "{\"data\":["@
    }
}

/// Opens the bookmarks document.
pub fn stream_open(pretty: bool) -> (r: &'static str)
    ensures
        r@ == spec_stream_open(pretty),
{
    if pretty {
        "{\n  \"data\": [\n"
    } else {
        "{\"data\":["
    }
}

/// Each line of `text` indented by four spaces and ended by a newline.
pub open spec fn indent_lines(ls: Seq<Seq<char>>) -> Seq<char>
    decreases ls.len(),
{
    if ls.len() == 0 {
        Seq::empty()
    } else {
        indent_lines(ls.drop_last()) + "    "@ + ls.last() + "\n"@
    }
}

/// One item of the document: a separator unless it is the first, then the
/// item's JSON (`item_json` is its compact form, or its pretty form when
/// `pretty`, whose lines are indented).
pub open spec fn spec_stream_item(first: bool, pretty: bool, item_json: Seq<char>) -> Seq<char> {
    let sep = if first {
        Seq::empty()
    } else if pretty {
        ",\n"@
    } else {
        ","@
    };
    sep + if pretty {
        indent_lines(lines_spec(item_json))
    } else {
        item_json
    }
}

/// Renders one item of the document.
pub fn stream_item(first: bool, pretty: bool, item_json: &str) -> (r: String)
    ensures
        r@ == spec_stream_item(first, pretty, item_json@),
{
    let mut r = String::new();
    if !first {
        if pretty {
            push_str(&mut r, ",\n");
        } else {
            push_str(&mut r, ",");
        }
    }
    let ghost sep = r@;
    if pretty {
        let ls = lines_of(item_json);
        let ghost lv = ls@.map_values(|v: Vec<char>| v@);
        let mut i: usize = 0;
        while i < ls.len()
            invariant
                i <= ls@.len(),
                lv == ls@.map_values(|v: Vec<char>| v@),
                r@ == sep + indent_lines(lv.take(i as int)),
            decreases ls@.len() - i,
        {
            push_str(&mut r, "    ");
            push_all(&mut r, ls[i].as_slice());
            push_str(&mut r, "\n");
            i = i + 1;
            assert(lv.take(i as int).drop_last() =~= lv.take((i - 1) as int));
            assert(lv.take(i as int).last() == ls@[i - 1]@);
            assert(r@ =~= sep + indent_lines(lv.take(i as int)));
        }
        assert(lv.take(ls@.len() as int) =~= lv);
    } else {
        push_str(&mut r, item_json);
    }
    r
}

/// The closing of the document, with the cursor to resume from when the
/// limit stopped paging.
pub open spec fn spec_stream_close(pretty: bool, next_cursor: Option<Seq<char>>) -> Seq<char> {
    match next_cursor {
        Some(tok) => if pretty {
            "\n  ],\n"@ + "  \"meta\": { \"next_cursor\": "@ + str_debug(tok) + " }\n"@ + "}\n"@
        } else {
            "],\"meta\":{\"next_cursor\":"@ + json_string(tok) + "}}\n"@
        },
        None => if pretty {
            "\n  ]\n}\n"@
        } else {
            "]}\n"@
        },
    }
}

/// Closes the document.
pub fn stream_close(pretty: bool, next_cursor: Option<&str>) -> (r: String)
    ensures
        r@ == spec_stream_close(
            pretty,
            match next_cursor {
                Some(t) => Some(t@),
                None => None,
            },
        ),
{
    match next_cursor {
        Some(tok) => {
            if pretty {
                let mut r = owned("\n  ],\n");
                push_str(&mut r, "  \"meta\": { \"next_cursor\": ");
                let d = debug_str(tok);
                push_str(&mut r, d.as_str());
                push_str(&mut r, " }\n");
                push_str(&mut r, "}\n");
                r
            } else {
                let mut r = owned("],\"meta\":{\"next_cursor\":");
                let q = json_quote(tok);
                push_str(&mut r, q.as_str());
                push_str(&mut r, "}}\n");
                r
            }
        },
        None => {
            if pretty {
                owned("\n  ]\n}\n")
            } else {
                owned("]}\n")
            }
        },
    }
}

/// The tweet ids of a page's items that carry one, in order.
pub open spec fn present_ids(ids: Seq<Option<String>>) -> Seq<Option<String>> {
    ids.filter(|o: Option<String>| o is Some)
}

/// The stored bookmark relationships of a page: one row per item that
/// carries an id, in order, positions counting up from `start`.
pub fn bookmark_rows(username: &str, ids: &Vec<Option<String>>, start: i64, now: i64) -> (r: Vec<
    BookmarkRow,
>)
    requires
        start >= 0,
        start + ids@.len() <= i64::MAX,
    ensures
        r@.len() == present_ids(ids@).len(),
        forall|j: int|
            0 <= j < r@.len() ==> {
                &&& (#[trigger] r@[j]).username@ == username@
                &&& r@[j].tweet_id@ == present_ids(ids@)[j]->0@
                &&& r@[j].position == start + j
                &&& r@[j].refreshed_at == now
            },
{
    let ghost pred = |o: Option<String>| o is Some;
    let mut rows: Vec<BookmarkRow> = Vec::new();
    let mut i: usize = 0;
    let mut pos: i64 = start;
    proof { reveal(Seq::filter); }
    while i < ids.len()
        invariant
            i <= ids@.len(),
            start >= 0,
            start + ids@.len() <= i64::MAX,
            pred == (|o: Option<String>| o is Some),
            rows@.len() == ids@.take(i as int).filter(pred).len(),
            rows@.len() <= i,
            pos == start + rows@.len(),
            forall|j: int|
                0 <= j < rows@.len() ==> {
                    &&& (#[trigger] rows@[j]).username@ == username@
                    &&& rows@[j].tweet_id@ == ids@.take(i as int).filter(pred)[j]->0@
                    &&& rows@[j].position == start + j
                    &&& rows@[j].refreshed_at == now
                },
        decreases ids@.len() - i,
    {
        let ghost before = rows@;
        let ghost prev = ids@.take(i as int).filter(pred);
        match &ids[i] {
            Some(id) => {
                rows.push(
                    BookmarkRow {
                        username: owned(username),
                        tweet_id: owned(id.as_str()),
                        position: pos,
                        refreshed_at: now,
                    },
                );
                pos = pos + 1;
            },
            None => {},
        }
        i = i + 1;
        proof {
            reveal(Seq::filter);
            let t = ids@.take(i as int);
            assert(t.drop_last() =~= ids@.take((i - 1) as int));
            assert(t.last() == ids@[i - 1]);
            if ids@[i - 1] is Some {
                assert(t.filter(pred) == prev.push(ids@[i - 1]));
                assert forall|j: int| 0 <= j < rows@.len() implies {
                    &&& (#[trigger] rows@[j]).username@ == username@
                    &&& rows@[j].tweet_id@ == t.filter(pred)[j]->0@
                    &&& rows@[j].position == start + j
                    &&& rows@[j].refreshed_at == now
                } by {
                    if j < before.len() {
                        assert(rows@[j] == before[j]);
                    }
                }
            } else {
                assert(t.filter(pred) == prev);
            }
        }
    }
    assert(ids@.take(ids@.len() as int) =~= ids@);
    rows
}

} // verus!
