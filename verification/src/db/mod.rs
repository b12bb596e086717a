//! Entity store logic: URL classification, cache keys, freshness and the
//! read-path routing decisions, stated over plain values.


use vstd::prelude::*;
use crate::text::{
    chars_eq, chars_of, join_chars, join_spec, owned, slice_vec, split_char, split_spec,
    string_of,
};

pub mod client;
pub mod entity;
pub mod get;
pub mod store;
pub mod usage;

verus! {

/// The parts of a parsed URL that the store logic reads.
#[derive(Clone, Debug)]
pub struct UrlParts {
    pub scheme: String,
    pub host: Option<String>,
    pub path: String,
    /// The decoded query pairs, in order.
    pub query_pairs: Vec<(String, String)>,
}

/// The parts of a URL as plain values: scheme, host, path and decoded query
/// pairs.
pub type UrlView = (Seq<char>, Option<Seq<char>>, Seq<char>, Seq<(Seq<char>, Seq<char>)>);

/// What `url::Url::parse` gives for a string: `None` when it does not parse,
/// else the scheme, host, path and decoded query pairs.
pub uninterp spec fn parsed_url(s: Seq<char>) -> Option<UrlView>;

impl UrlParts {
    pub open spec fn view_parts(self) -> UrlView {
        (
            self.scheme@,
            match self.host {
                Some(h) => Some(h@),
                None => None,
            },
            self.path@,
            self.query_pairs@.map_values(|p: (String, String)| (p.0@, p.1@)),
        )
    }
}

/// Parses a URL with `url::Url::parse` and reads its scheme, host, path and
/// decoded query pairs. The result is named by [`parsed_url`]: the parser is
/// a function of the string alone, and nothing more of it is claimed here.
#[verifier::external_body]
pub(crate) fn parse_url(s: &str) -> (r: Option<UrlParts>)
    ensures
        match r {
            Some(p) => parsed_url(s@) == Some(p.view_parts()),
            None => parsed_url(s@) is None,
        },
{
    let u = url::Url::parse(s).ok()?;
    Some(UrlParts {
        scheme: u.scheme().to_string(),
        host: u.host_str().map(|h| h.to_string()),
        path: u.path().to_string(),
        query_pairs: u.query_pairs().map(|(k, v)| (k.into_owned(), v.into_owned())).collect(),
    })
}

/// The path of `url`, or `url` itself when it does not parse.
pub open spec fn path_or_self(url: Seq<char>) -> Seq<char> {
    match parsed_url(url) {
        Some(p) => p.2,
        None => url,
    }
}

/// Path segments that are kept as they are.
pub open spec fn known_literals() -> Seq<Seq<char>> {
    seq![
        "2"@, "tweets"@, "users"@, "search"@, "recent"@, "bookmarks"@, "me"@, "by"@,
        "username"@, "usage"@, "oauth2"@, "token"@, "compliance"@, "lists"@, "spaces"@,
        "dm_conversations"@,
    ]
}

pub open spec fn is_known_literal(seg: Seq<char>) -> bool {
    known_literals().contains(seg)
}

/// Every character is an ASCII digit.
pub open spec fn all_digits(s: Seq<char>) -> bool {
    forall|i: int| 0 <= i < s.len() ==> '0' <= #[trigger] s[i] <= '9'
}

/// The replacement of one non-empty segment, given the two non-empty
/// segments before it.
pub open spec fn normalize_segment(
    seg: Seq<char>,
    pp: Option<Seq<char>>,
    p: Option<Seq<char>>,
) -> Seq<char> {
    if pp == Some("by"@) && p == Some("username"@) {
        ":username"@
    } else if is_known_literal(seg) {
        seg
    } else if seg.len() >= 2 && all_digits(seg) {
        ":id"@
    } else {
        seg
    }
}

/// Segments from `i` on, normalized; `pp`, `p` are the last two non-empty
/// segments before `i`. Empty segments are kept and do not move the window.
pub open spec fn normalize_from(
    segs: Seq<Seq<char>>,
    i: int,
    pp: Option<Seq<char>>,
    p: Option<Seq<char>>,
) -> Seq<Seq<char>>
    decreases segs.len() - i,
{
    if i < 0 || i >= segs.len() {
        Seq::empty()
    } else if segs[i].len() == 0 {
        seq![segs[i]] + normalize_from(segs, i + 1, pp, p)
    } else {
        seq![normalize_segment(segs[i], pp, p)] + normalize_from(segs, i + 1, p, Some(segs[i]))
    }
}

/// The endpoint pattern of a URL: its path (or the string itself when it
/// does not parse) with numeric ids of two or more digits replaced by `:id`
/// and the segment after `/by/username/` by `:username`; known literal
/// segments are kept.
pub open spec fn spec_normalize_endpoint(url: Seq<char>) -> Seq<char> {
    join_spec(normalize_from(split_spec(path_or_self(url), '/'), 0, None, None), "/"@)
}

fn known_literal_list() -> (r: Vec<Vec<char>>)
    ensures
        r@.map_values(|v: Vec<char>| v@) == known_literals(),
{
    let mut r: Vec<Vec<char>> = Vec::new();
    r.push(chars_of("2"));
    r.push(chars_of("tweets"));
    r.push(chars_of("users"));
    r.push(chars_of("search"));
    r.push(chars_of("recent"));
    r.push(chars_of("bookmarks"));
    r.push(chars_of("me"));
    r.push(chars_of("by"));
    r.push(chars_of("username"));
    r.push(chars_of("usage"));
    r.push(chars_of("oauth2"));
    r.push(chars_of("token"));
    r.push(chars_of("compliance"));
    r.push(chars_of("lists"));
    r.push(chars_of("spaces"));
    r.push(chars_of("dm_conversations"));
    assert(r@.map_values(|v: Vec<char>| v@) =~= known_literals());
    r
}

fn is_known_literal_exec(lits: &Vec<Vec<char>>, seg: &[char]) -> (r: bool)
    requires
        lits@.map_values(|v: Vec<char>| v@) == known_literals(),
    ensures
        r == is_known_literal(seg@),
{
    let ghost kl = known_literals();
    let mut i: usize = 0;
    while i < lits.len()
        invariant
            i <= lits@.len(),
            lits@.map_values(|v: Vec<char>| v@) == kl,
            kl == known_literals(),
            forall|j: int| 0 <= j < i ==> kl[j] != seg@,
        decreases lits@.len() - i,
    {
        assert(lits@[i as int]@ == kl[i as int]);
        if chars_eq(lits[i].as_slice(), seg) {
            assert(kl[i as int] == seg@);
            return true;
        }
        i = i + 1;
    }
    assert(!kl.contains(seg@)) by {
        if kl.contains(seg@) {
            let j = choose|j: int| 0 <= j < kl.len() && kl[j] == seg@;
            assert(kl[j] != seg@);
        }
    }
    false
}

/// Every character of `s` is an ASCII digit.
pub fn all_ascii_digits(s: &[char]) -> (r: bool)
    ensures
        r == all_digits(s@),
{
    let mut i: usize = 0;
    while i < s.len()
        invariant
            i <= s@.len(),
            forall|j: int| 0 <= j < i ==> '0' <= #[trigger] s@[j] <= '9',
        decreases s@.len() - i,
    {
        if !('0' <= s[i] && s[i] <= '9') {
            assert(!('0' <= s@[i as int] <= '9'));
            return false;
        }
        i = i + 1;
    }
    true
}

fn opt_eq_lit(o: &Option<Vec<char>>, lit: &str) -> (r: bool)
    ensures
        r == (match o {
            Some(v) => Some(v@),
            None => None::<Seq<char>>,
        } == Some(lit@)),
{
    match o {
        Some(v) => {
            let l = chars_of(lit);
            chars_eq(v.as_slice(), l.as_slice())
        },
        None => false,
    }
}

pub open spec fn opt_view(o: Option<Vec<char>>) -> Option<Seq<char>> {
    match o {
        Some(v) => Some(v@),
        None => None,
    }
}

/// Normalizes a URL to an endpoint pattern for usage grouping.
pub fn normalize_endpoint(url: &str) -> (r: String)
    ensures
        r@ == spec_normalize_endpoint(url@),
{
    let path = match parse_url(url) {
        Some(p) => p.path,
        None => owned(url),
    };
    let pc = chars_of(path.as_str());
    let segs = split_char(pc.as_slice(), '/');
    let ghost sv = split_spec(path@, '/');
    let lits = known_literal_list();
    let mut out: Vec<Vec<char>> = Vec::new();
    let mut pp: Option<Vec<char>> = None;
    let mut p: Option<Vec<char>> = None;
    let mut i: usize = 0;
    while i < segs.len()
        invariant
            i <= segs@.len(),
            segs@.len() == sv.len(),
            forall|j: int| 0 <= j < segs@.len() ==> #[trigger] segs@[j]@ == sv[j],
            lits@.map_values(|v: Vec<char>| v@) == known_literals(),
            out@.map_values(|v: Vec<char>| v@) + normalize_from(sv, i as int, opt_view(pp), opt_view(p))
                == normalize_from(sv, 0, None, None),
        decreases segs@.len() - i,
    {
        let seg = &segs[i];
        let ghost before = out@.map_values(|v: Vec<char>| v@);
        let ghost rest = normalize_from(sv, i as int, opt_view(pp), opt_view(p));
        if seg.len() == 0 {
            out.push(Vec::new());
            proof {
                assert(sv[i as int] =~= Seq::<char>::empty());
                assert(rest == seq![sv[i as int]] + normalize_from(sv, i + 1, opt_view(pp), opt_view(p)));
                assert(out@.map_values(|v: Vec<char>| v@) =~= before.push(sv[i as int]));
                assert(before.push(sv[i as int]) + normalize_from(sv, i + 1, opt_view(pp), opt_view(p))
                    =~= before + rest);
            }
        } else {
            let ghost old_pp = opt_view(pp);
            let ghost old_p = opt_view(p);
            let n: Vec<char> = if opt_eq_lit(&pp, "by") && opt_eq_lit(&p, "username") {
                chars_of(":username")
            } else if is_known_literal_exec(&lits, seg.as_slice()) {
                slice_vec(seg.as_slice(), 0, seg.len())
            } else if seg.len() >= 2 && all_ascii_digits(seg.as_slice()) {
                chars_of(":id")
            } else {
                slice_vec(seg.as_slice(), 0, seg.len())
            };
            assert(seg@.subrange(0, seg@.len() as int) =~= seg@);
            assert(n@ == normalize_segment(sv[i as int], old_pp, old_p));
            out.push(n);
            pp = p;
            p = Some(slice_vec(seg.as_slice(), 0, seg.len()));
            proof {
                assert(opt_view(pp) == old_p);
                assert(opt_view(p) == Some(sv[i as int]));
                assert(rest == seq![normalize_segment(sv[i as int], old_pp, old_p)]
                    + normalize_from(sv, i + 1, old_p, Some(sv[i as int])));
                assert(out@.map_values(|v: Vec<char>| v@) =~= before.push(
                    normalize_segment(sv[i as int], old_pp, old_p),
                ));
                assert(out@.map_values(|v: Vec<char>| v@) + normalize_from(
                    sv,
                    i + 1,
                    opt_view(pp),
                    opt_view(p),
                ) =~= before + rest);
            }
        }
        i = i + 1;
    }
    assert(normalize_from(sv, i as int, opt_view(pp), opt_view(p)) =~= Seq::empty());
    assert(out@.map_values(|v: Vec<char>| v@) =~= normalize_from(sv, 0, None, None));
    let slash: [char; 1] = ['/'];
    assert(slash@ =~= "/"@) by {
        reveal_strlit("/");
    }
    let joined = join_chars(&out, slash.as_slice());
    string_of(joined.as_slice())
}

} // verus!
