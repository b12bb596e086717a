//! `bird raw`: the request URL built from a resolved path and `key=value`
//! query arguments, and the message of a failed request.

use vstd::prelude::*;
use crate::db::{parse_url, parsed_url};
use crate::db::get::pair_views;
use crate::output::{sanitize_for_stderr, sanitize_spec};
use crate::cli::dispatch::{param_pairs, query_pairs_from_args, ParamMap};
use crate::text::{
    chars_of, decimal, decimal_spec, first_index, lemma_first_index, lemma_first_index_unique, owned,
    push_all, push_char, push_str, string_of,
};

verus! {

/// What the URL library gives for `url` parsed and serialized back.
pub uninterp spec fn url_serialized(url: Seq<char>) -> Seq<char>;

/// What the URL library gives for `url` with `pairs` appended to its query
/// (form-encoded, in order).
pub uninterp spec fn url_appended(url: Seq<char>, pairs: Seq<(Seq<char>, Seq<char>)>) -> Seq<char>;

/// The text of the URL library's parse error for `url`.
pub uninterp spec fn url_error_text(url: Seq<char>) -> Seq<char>;

/// `url::Url::parse(url)` (which must succeed) rendered with `to_string`.
#[verifier::external_body]
fn serialize_url(url: &str) -> (r: String)
    requires
        parsed_url(url@) is Some,
    ensures
        r@ == url_serialized(url@),
{
    url::Url::parse(url).expect("parsed before").to_string()
}

/// `url::Url::parse(url)` (which must succeed), then `pairs` appended with
/// `query_pairs_mut().extend_pairs(..)`, rendered with `to_string`.
#[verifier::external_body]
pub(crate) fn append_query(url: &str, pairs: &Vec<(String, String)>) -> (r: String)
    requires
        parsed_url(url@) is Some,
    ensures
        r@ == url_appended(url@, pair_views(pairs@)),
{
    let mut u = url::Url::parse(url).expect("parsed before");
    u.query_pairs_mut().extend_pairs(pairs.iter().map(|(k, v)| (k.as_str(), v.as_str())));
    u.to_string()
}

/// The `Display` text of `url::Url::parse(url)`'s error (the parse must fail).
#[verifier::external_body]
fn parse_error_text(url: &str) -> (r: String)
    requires
        parsed_url(url@) is None,
    ensures
        r@ == url_error_text(url@),
{
    match url::Url::parse(url) {
        Err(e) => e.to_string(),
        Ok(_) => String::new(),
    }
}

/// The absolute URL of an API path.
pub open spec fn api_url(path: Seq<char>) -> Seq<char> {
    "https://api.x.com"@ + path
}

/// The request URL of an API path: the path under the API host, parsed and
/// serialized back, with the query arguments' `KEY=VALUE` pairs appended
/// when there are any.
pub open spec fn request_url_spec(path: Seq<char>, query: Seq<Seq<char>>) -> Seq<char> {
    if param_pairs(query).len() == 0 {
        url_serialized(api_url(path))
    } else {
        url_appended(api_url(path), param_pairs(query))
    }
}

/// The request URL: the path under the API host, with the query pairs
/// appended when there are any; the parse error's text when the URL does
/// not parse.
pub fn raw_url(path: &str, query: &[String]) -> (r: Result<String, String>)
    ensures
        match parsed_url(api_url(path@)) {
            None => r matches Err(e) && e@ == url_error_text(api_url(path@)),
            Some(_) => r matches Ok(u) && u@ == request_url_spec(
                path@,
                query@.map_values(|s: String| s@),
            ),
        },
{
    let mut url = owned("https://api.x.com");
    push_str(&mut url, path);
    match parse_url(url.as_str()) {
        None => Err(parse_error_text(url.as_str())),
        Some(_) => {
            let pairs = query_pairs_from_args(query);
            if pairs.len() == 0 {
                Ok(serialize_url(url.as_str()))
            } else {
                Ok(append_query(url.as_str(), &pairs))
            }
        },
    }
}

/// The message of a failed raw request: method, status, and the start of
/// the body made safe for a terminal.
pub fn raw_failure_message(method: &str, status: u16, body: &str) -> (r: String)
    ensures
        r@ == method@ + " "@ + decimal_spec(status as nat) + ": "@ + sanitize_spec(body@, 200),
{
    let mut r = owned(method);
    push_str(&mut r, " ");
    let d = decimal(status as u64);
    push_str(&mut r, d.as_str());
    push_str(&mut r, ": ");
    let b = sanitize_for_stderr(body, 200);
    push_str(&mut r, b.as_str());
    r
}

/// `o` before a resolved path; an error stays as it is.
pub open spec fn prepend(o: Seq<char>, r: Result<Seq<char>, Seq<char>>) -> Result<Seq<char>, Seq<char>> {
    match r {
        Ok(s) => Ok(o + s),
        Err(e) => Err(e),
    }
}

/// The path with each `{name}` replaced by the value of the parameter
/// `name`, read from the left: a `{` with a later `}` opens a placeholder,
/// and a placeholder without a parameter is an error naming it; every other
/// character is kept.
pub open spec fn resolve_path_spec(p: Seq<char>, params: Map<Seq<char>, Seq<char>>) -> Result<
    Seq<char>,
    Seq<char>,
>
    decreases p.len(),
{
    if p.len() == 0 {
        Ok(Seq::empty())
    } else if p[0] == '{' && first_index(p.drop_first(), '}') < p.len() - 1 {
        let j = first_index(p.drop_first(), '}');
        let name = p.drop_first().take(j);
        if params.dom().contains(name) {
            proof {
                lemma_first_index(p.drop_first(), '}');
            }
            prepend(params[name], resolve_path_spec(p.skip(j + 2), params))
        } else {
            Err("missing path parameter: "@ + name)
        }
    } else {
        prepend(seq![p[0]], resolve_path_spec(p.drop_first(), params))
    }
}

/// Fills the path's `{name}` placeholders from the parameters.
pub fn resolve_path(path: &str, params: &ParamMap) -> (r: Result<String, String>)
    ensures
        match resolve_path_spec(path@, params@) {
            Ok(s) => r matches Ok(x) && x@ == s,
            Err(e) => r matches Err(x) && x@ == e,
        },
{
    let cs = chars_of(path);
    let n = cs.len();
    let mut out = String::new();
    let mut i: usize = 0;
    assert(cs@.skip(0) =~= cs@);
    while i < n
        invariant
            n == cs@.len(),
            cs@ == path@,
            i <= n,
            resolve_path_spec(path@, params@) == prepend(
                out@,
                resolve_path_spec(cs@.skip(i as int), params@),
            ),
        decreases n - i,
    {
        let ghost rest = cs@.skip(i as int);
        assert(rest[0] == cs@[i as int]);
        let mut close: usize = n;
        if cs[i] == '{' {
            let mut k: usize = i + 1;
            while k < n && cs[k] != '}'
                invariant
                    i < k <= n,
                    n == cs@.len(),
                    cs@[i as int] == '{',
                    forall|t: int| i + 1 <= t < k ==> cs@[t] != '}',
                decreases n - k,
            {
                k = k + 1;
            }
            proof {
                let d = rest.drop_first();
                assert(d.len() == n - i - 1);
                assert forall|t: int| 0 <= t < k - i - 1 implies d[t] != '}' by {
                    assert(d[t] == cs@[i + 1 + t]);
                }
                if k < n {
                    assert(d[k - i - 1] == cs@[k as int]);
                }
                lemma_first_index_unique(d, '}', (k - i - 1) as int);
            }
            close = k;
        }
        if cs[i] == '{' && close < n {
            let mut name = String::new();
            let mut t: usize = i + 1;
            while t < close
                invariant
                    i + 1 <= t <= close,
                    close < n,
                    n == cs@.len(),
                    name@ == cs@.subrange(i + 1, t as int),
                decreases close - t,
            {
                push_char(&mut name, cs[t]);
                t = t + 1;
                assert(name@ =~= cs@.subrange(i + 1, t as int));
            }
            proof {
                assert(name@ =~= rest.drop_first().take((close - i - 1) as int));
                assert(rest.skip((close - i - 1) + 2) =~= cs@.skip(close + 1));
            }
            match params.get(name.as_str()) {
                Some(v) => {
                    let ghost before = out@;
                    push_str(&mut out, v.as_str());
                    proof {
                        let x = resolve_path_spec(cs@.skip(close + 1), params@);
                        assert(resolve_path_spec(rest, params@) == prepend(v@, x));
                        match x {
                            Ok(t) => assert(before + (v@ + t) =~= out@ + t),
                            Err(_) => {},
                        }
                    }
                    i = close + 1;
                },
                None => {
                    let mut e = owned("missing path parameter: ");
                    push_str(&mut e, name.as_str());
                    return Err(e);
                },
            }
        } else {
            let ghost before = out@;
            push_char(&mut out, cs[i]);
            proof {
                assert(rest.drop_first() =~= cs@.skip(i + 1));
                let x = resolve_path_spec(rest.drop_first(), params@);
                assert(resolve_path_spec(rest, params@) == prepend(seq![cs@[i as int]], x));
                match x {
                    Ok(t) => assert(before + (seq![cs@[i as int]] + t) =~= out@ + t),
                    Err(_) => {},
                }
            }
            i = i + 1;
        }
    }
    assert(cs@.skip(n as int) =~= Seq::<char>::empty());
    assert(out@ + Seq::<char>::empty() =~= out@);
    Ok(out)
}

} // verus!
