//! Entity classification of endpoints and the content-addressed key of the
//! raw-response cache.

use vstd::prelude::*;
use crate::db::{parse_url, parsed_url};
use crate::text::{
    chars_eq, chars_lt, chars_of, contains_seq, is_prefix, join_chars, join_spec, owned, push_all, push_char,
    push_str, seq_lt, slice_vec, split_char, split_spec, str_contains, str_starts_with, string_of,
};

verus! {

/// Which entity an endpoint returns.
#[derive(Clone, Copy, Debug, PartialEq, Eq, Structural)]
pub enum EntityType {
    Tweet,
    User,
}

/// Entity classification of a URL path: bookmarks and tweet endpoints
/// (except search counts) return tweets; other user endpoints return users;
/// the rest (usage, auth, counts) are not entity endpoints.
pub open spec fn spec_entity_type(p: Seq<char>) -> Option<EntityType> {
    if (is_prefix("/2/users/"@, p) && contains_seq(p, "/bookmarks"@)) || (is_prefix("/2/tweets"@, p)
        && !is_prefix("/2/tweets/search/counts"@, p)) {
        Some(EntityType::Tweet)
    } else if is_prefix("/2/users"@, p) && !is_prefix("/2/usage"@, p) {
        Some(EntityType::User)
    } else {
        None
    }
}

/// Classifies a URL path as an entity endpoint.
pub fn is_entity_endpoint(path: &str) -> (r: Option<EntityType>)
    ensures
        r == spec_entity_type(path@),
{
    if (str_starts_with(path, "/2/users/") && str_contains(path, "/bookmarks")) || (
    str_starts_with(path, "/2/tweets") && !str_starts_with(path, "/2/tweets/search/counts")) {
        Some(EntityType::Tweet)
    } else if str_starts_with(path, "/2/users") && !str_starts_with(path, "/2/usage") {
        Some(EntityType::User)
    } else {
        None
    }
}

// ----- hex -----

/// The lowercase hexadecimal digits.
pub open spec fn hex_digits() -> Seq<char> {
    seq!['0', '1', '2', '3', '4', '5', '6', '7', '8', '9', 'a', 'b', 'c', 'd', 'e', 'f']
}

/// Lowercase hexadecimal of a byte string, two digits per byte, high first.
pub open spec fn hex_spec(b: Seq<u8>) -> Seq<char>
    decreases b.len(),
{
    if b.len() == 0 {
        Seq::empty()
    } else {
        hex_spec(b.drop_last()) + seq![
            hex_digits()[(b.last() / 16) as int],
            hex_digits()[(b.last() % 16) as int],
        ]
    }
}

/// The value of a lowercase hexadecimal digit.
pub open spec fn hex_value(c: char) -> int {
    if '0' <= c <= '9' {
        c as int - '0' as int
    } else {
        c as int - 'a' as int + 10
    }
}

/// Each digit decodes to its position.
proof fn lemma_hex_digit(j: int)
    requires
        0 <= j < 16,
    ensures
        hex_value(hex_digits()[j]) == j,
        hex_digits().contains(hex_digits()[j]),
{
    if j == 0 {
        assert(hex_digits()[0] == '0');
    } else if j == 1 {
        assert(hex_digits()[1] == '1');
    } else if j == 2 {
        assert(hex_digits()[2] == '2');
    } else if j == 3 {
        assert(hex_digits()[3] == '3');
    } else if j == 4 {
        assert(hex_digits()[4] == '4');
    } else if j == 5 {
        assert(hex_digits()[5] == '5');
    } else if j == 6 {
        assert(hex_digits()[6] == '6');
    } else if j == 7 {
        assert(hex_digits()[7] == '7');
    } else if j == 8 {
        assert(hex_digits()[8] == '8');
    } else if j == 9 {
        assert(hex_digits()[9] == '9');
    } else if j == 10 {
        assert(hex_digits()[10] == 'a');
    } else if j == 11 {
        assert(hex_digits()[11] == 'b');
    } else if j == 12 {
        assert(hex_digits()[12] == 'c');
    } else if j == 13 {
        assert(hex_digits()[13] == 'd');
    } else if j == 14 {
        assert(hex_digits()[14] == 'e');
    } else if j == 15 {
        assert(hex_digits()[15] == 'f');
    }
}

/// Hex decoding inverts [`encode`]: the text has two digits per byte, each
/// a lowercase hexadecimal digit, and the digits at `2i` and `2i + 1` are
/// the high and low halves of byte `i`.
pub proof fn law_hex_decodes_to_the_bytes(b: Seq<u8>)
    ensures
        hex_spec(b).len() == 2 * b.len(),
        forall|k: int| 0 <= k < hex_spec(b).len() ==> hex_digits().contains(#[trigger] hex_spec(b)[k]),
        forall|i: int|
            0 <= i < b.len() ==> hex_value(#[trigger] hex_spec(b)[2 * i]) * 16 + hex_value(
                hex_spec(b)[2 * i + 1],
            ) == b[i] as int,
    decreases b.len(),
{
    if b.len() > 0 {
        let p = b.drop_last();
        law_hex_decodes_to_the_bytes(p);
        let h = hex_spec(b);
        let n = p.len() as int;
        let hi = (b.last() / 16) as int;
        let lo = (b.last() % 16) as int;
        lemma_hex_digit(hi);
        lemma_hex_digit(lo);
        assert(h[2 * n] == hex_digits()[hi]);
        assert(h[2 * n + 1] == hex_digits()[lo]);
        assert forall|k: int| 0 <= k < h.len() implies hex_digits().contains(#[trigger] h[k]) by {
            if k < 2 * n {
                assert(h[k] == hex_spec(p)[k]);
            }
        }
        assert forall|i: int| 0 <= i < b.len() implies hex_value(#[trigger] h[2 * i]) * 16
            + hex_value(h[2 * i + 1]) == b[i] as int by {
            if i < n {
                assert(h[2 * i] == hex_spec(p)[2 * i]);
                assert(h[2 * i + 1] == hex_spec(p)[2 * i + 1]);
                assert(b[i] == p[i]);
            }
        }
    }
}

/// Distinct byte strings encode to distinct hex text.
pub proof fn law_hex_is_injective(a: Seq<u8>, b: Seq<u8>)
    requires
        hex_spec(a) == hex_spec(b),
    ensures
        a == b,
{
    law_hex_decodes_to_the_bytes(a);
    law_hex_decodes_to_the_bytes(b);
    assert forall|i: int| 0 <= i < a.len() implies a[i] == b[i] by {
        assert(hex_value(hex_spec(a)[2 * i]) * 16 + hex_value(hex_spec(a)[2 * i + 1]) == a[i] as int);
        assert(hex_value(hex_spec(b)[2 * i]) * 16 + hex_value(hex_spec(b)[2 * i + 1]) == b[i] as int);
    }
    assert(a =~= b);
}

/// Lowercase hexadecimal encoding of `bytes`.
pub fn encode(bytes: &[u8]) -> (r: String)
    ensures
        r@ == hex_spec(bytes@),
{
    let table: [char; 16] = ['0', '1', '2', '3', '4', '5', '6', '7', '8', '9', 'a', 'b', 'c', 'd', 'e', 'f'];
    assert(table@ =~= hex_digits());
    let mut s = String::new();
    let mut i: usize = 0;
    while i < bytes.len()
        invariant
            i <= bytes@.len(),
            table@ == hex_digits(),
            s@ == hex_spec(bytes@.take(i as int)),
        decreases bytes@.len() - i,
    {
        let b = bytes[i];
        let hi = b >> 4;
        let lo = b & 0x0f;
        assert(b >> 4u8 == b / 16 && b & 0x0fu8 == b % 16) by (bit_vector);
        push_char(&mut s, table[hi as usize]);
        push_char(&mut s, table[lo as usize]);
        i = i + 1;
        proof {
            let t = bytes@.take(i as int);
            assert(t.drop_last() =~= bytes@.take((i - 1) as int));
            assert(t.last() == b);
        }
    }
    assert(bytes@.take(bytes@.len() as int) =~= bytes@);
    s
}

// ----- sha-256 -----

/// The SHA-256 digest of a byte string.
pub uninterp spec fn sha256_of(b: Seq<u8>) -> Seq<u8>;

/// `sha2::Sha256::digest`: the 32-byte SHA-256 digest of `b`.
#[verifier::external_body]
pub(crate) fn sha256(b: &[u8]) -> (r: Vec<u8>)
    ensures
        r@ == sha256_of(b@),
        r@.len() == 32,
{
    <sha2::Sha256 as sha2::Digest>::digest(b).to_vec()
}

// ----- stable sorting -----

/// Inserts `x` after the last element whose key is not greater than its key.
pub open spec fn insert_by_key<V>(s: Seq<(Seq<char>, V)>, x: (Seq<char>, V)) -> Seq<(Seq<char>, V)>
    decreases s.len(),
{
    if s.len() == 0 {
        seq![x]
    } else if seq_lt(x.0, s.last().0) {
        insert_by_key(s.drop_last(), x).push(s.last())
    } else {
        s.push(x)
    }
}

/// Stable sort by key: the unique key-ordered permutation that keeps equal
/// keys in their original order.
pub open spec fn sort_by_key<V>(s: Seq<(Seq<char>, V)>) -> Seq<(Seq<char>, V)>
    decreases s.len(),
{
    if s.len() == 0 {
        Seq::empty()
    } else {
        insert_by_key(sort_by_key(s.drop_last()), s.last())
    }
}

/// Inserting at the position found by scanning back from the end.
proof fn lemma_insert_at<V>(s: Seq<(Seq<char>, V)>, x: (Seq<char>, V), j: int)
    requires
        0 <= j <= s.len(),
        forall|k: int| j <= k < s.len() ==> seq_lt(x.0, #[trigger] s[k].0),
        j > 0 ==> !seq_lt(x.0, s[j - 1].0),
    ensures
        insert_by_key(s, x) == s.take(j).push(x) + s.skip(j),
    decreases s.len(),
{
    if s.len() == 0 {
        assert(s.take(j).push(x) + s.skip(j) =~= seq![x]);
    } else if j == s.len() {
        assert(s.take(j) =~= s);
        assert(s.take(j).push(x) + s.skip(j) =~= s.push(x));
    } else {
        assert(seq_lt(x.0, s[s.len() - 1].0));
        lemma_insert_at(s.drop_last(), x, j);
        assert(s.drop_last().take(j).push(x) + s.drop_last().skip(j) + seq![s.last()]
            =~= s.take(j).push(x) + s.skip(j));
    }
}

/// Sorts pairs by key, stably.
pub fn sort_pairs_by_key(v: Vec<(Vec<char>, Vec<char>)>) -> (r: Vec<(Vec<char>, Vec<char>)>)
    ensures
        r@.map_values(|p: (Vec<char>, Vec<char>)| (p.0@, p.1@)) == sort_by_key(
            v@.map_values(|p: (Vec<char>, Vec<char>)| (p.0@, p.1@)),
        ),
{
    let ghost vv = v@.map_values(|p: (Vec<char>, Vec<char>)| (p.0@, p.1@));
    let mut r: Vec<(Vec<char>, Vec<char>)> = Vec::new();
    let mut i: usize = 0;
    let mut v = v;
    let n = v.len();
    let mut rest: Vec<(Vec<char>, Vec<char>)> = Vec::new();
    // Consume from the front: reverse into `rest` so that pop yields the
    // elements in order.
    while v.len() > 0
        invariant
            v@.len() + rest@.len() == n,
            vv.len() == n,
            forall|k: int| 0 <= k < v@.len() ==> (#[trigger] v@[k].0@, v@[k].1@) == vv[k],
            forall|k: int|
                0 <= k < rest@.len() ==> (#[trigger] rest@[k].0@, rest@[k].1@) == vv[n - 1 - k],
        decreases v@.len(),
    {
        let x = v.pop().unwrap();
        rest.push(x);
    }
    while i < n
        invariant
            i <= n,
            rest@.len() + i == n,
            vv.len() == n,
            forall|k: int|
                0 <= k < rest@.len() ==> (#[trigger] rest@[k].0@, rest@[k].1@) == vv[n - 1 - k],
            r@.map_values(|p: (Vec<char>, Vec<char>)| (p.0@, p.1@)) == sort_by_key(
                vv.take(i as int),
            ),
        decreases n - i,
    {
        let x = rest.pop().unwrap();
        assert((x.0@, x.1@) == vv[i as int]);
        let ghost rv = r@.map_values(|p: (Vec<char>, Vec<char>)| (p.0@, p.1@));
        let mut j: usize = r.len();
        while j > 0 && chars_lt(x.0.as_slice(), r[j - 1].0.as_slice())
            invariant
                j <= r@.len(),
                rv == r@.map_values(|p: (Vec<char>, Vec<char>)| (p.0@, p.1@)),
                forall|k: int| j <= k < rv.len() ==> seq_lt(x.0@, #[trigger] rv[k].0),
            decreases j,
        {
            assert(rv[j - 1] == (r@[j - 1].0@, r@[j - 1].1@));
            j = j - 1;
        }
        proof {
            if j > 0 {
                assert(rv[j - 1] == (r@[j - 1].0@, r@[j - 1].1@));
            }
            lemma_insert_at(rv, (x.0@, x.1@), j as int);
        }
        r.insert(j, x);
        i = i + 1;
        proof {
            let t = vv.take(i as int);
            assert(t.drop_last() =~= vv.take((i - 1) as int));
            assert(t.last() == vv[i - 1]);
            assert(r@.map_values(|p: (Vec<char>, Vec<char>)| (p.0@, p.1@)) =~= rv.take(j as int).push(
                vv[i - 1],
            ) + rv.skip(j as int));
        }
    }
    assert(vv.take(n as int) =~= vv);
    r
}


/// Strings in lexicographic order (a stable sort, as `sort` on `&str` is).
pub open spec fn sort_strs(s: Seq<Seq<char>>) -> Seq<Seq<char>> {
    sort_by_key(s.map_values(|x: Seq<char>| (x, Seq::<char>::empty()))).map_values(
        |p: (Seq<char>, Seq<char>)| p.0,
    )
}

/// Sorts strings lexicographically.
pub fn sort_strings(v: Vec<Vec<char>>) -> (r: Vec<Vec<char>>)
    ensures
        r@.map_values(|x: Vec<char>| x@) == sort_strs(v@.map_values(|x: Vec<char>| x@)),
{
    let ghost vv = v@.map_values(|x: Vec<char>| x@);
    let mut pairs: Vec<(Vec<char>, Vec<char>)> = Vec::new();
    let mut i: usize = 0;
    while i < v.len()
        invariant
            i <= v@.len(),
            vv == v@.map_values(|x: Vec<char>| x@),
            pairs@.map_values(|p: (Vec<char>, Vec<char>)| (p.0@, p.1@)) == vv.take(i as int).map_values(
                |x: Seq<char>| (x, Seq::<char>::empty()),
            ),
        decreases v@.len() - i,
    {
        let k = slice_vec(v[i].as_slice(), 0, v[i].len());
        assert(v@[i as int]@.subrange(0, v@[i as int]@.len() as int) =~= v@[i as int]@);
        let ghost before = pairs@;
        assert(before.map_values(|p: (Vec<char>, Vec<char>)| (p.0@, p.1@)).len() == i);
        assert(before.len() == i);
        let e: Vec<char> = Vec::new();
        assert(e@ =~= Seq::<char>::empty());
        pairs.push((k, e));
        assert(pairs@ == before.push((k, e)));
        i = i + 1;
        proof {
            let lhs = pairs@.map_values(|p: (Vec<char>, Vec<char>)| (p.0@, p.1@));
            let rhs = vv.take(i as int).map_values(|x: Seq<char>| (x, Seq::<char>::empty()));
            assert(vv.take(i as int) =~= vv.take((i - 1) as int).push(vv[i - 1]));
            assert(lhs.len() == rhs.len());
            assert forall|t: int| 0 <= t < lhs.len() implies lhs[t] == rhs[t] by {
                if t < i - 1 {
                    assert(lhs[t] == before.map_values(|p: (Vec<char>, Vec<char>)| (p.0@, p.1@))[t]);
                }
            }
            assert(lhs =~= rhs);
        }
    }
    assert(vv.take(v@.len() as int) =~= vv);
    let sorted = sort_pairs_by_key(pairs);
    let ghost sv = sorted@.map_values(|p: (Vec<char>, Vec<char>)| (p.0@, p.1@));
    let mut out: Vec<Vec<char>> = Vec::new();
    let mut sorted = sorted;
    let m = sorted.len();
    let mut rev: Vec<Vec<char>> = Vec::new();
    while sorted.len() > 0
        invariant
            sorted@.len() + rev@.len() == m,
            sv.len() == m,
            forall|k: int| 0 <= k < sorted@.len() ==> (#[trigger] sorted@[k].0@, sorted@[k].1@) == sv[k],
            forall|k: int| 0 <= k < rev@.len() ==> #[trigger] rev@[k]@ == sv[m - 1 - k].0,
        decreases sorted@.len(),
    {
        let (k, _) = sorted.pop().unwrap();
        rev.push(k);
    }
    let mut j: usize = 0;
    while j < m
        invariant
            j <= m,
            rev@.len() + j == m,
            sv.len() == m,
            forall|k: int| 0 <= k < rev@.len() ==> #[trigger] rev@[k]@ == sv[m - 1 - k].0,
            out@.map_values(|x: Vec<char>| x@) == sv.take(j as int).map_values(
                |p: (Seq<char>, Seq<char>)| p.0,
            ),
        decreases m - j,
    {
        let ghost before = out@;
        assert(before.map_values(|x: Vec<char>| x@).len() == j);
        assert(before.len() == j);
        let k = rev.pop().unwrap();
        assert(k@ == sv[j as int].0);
        out.push(k);
        j = j + 1;
        proof {
            let lhs = out@.map_values(|x: Vec<char>| x@);
            let rhs = sv.take(j as int).map_values(|p: (Seq<char>, Seq<char>)| p.0);
            assert(lhs.len() == rhs.len());
            assert forall|t: int| 0 <= t < lhs.len() implies lhs[t] == rhs[t] by {
                if t < j - 1 {
                    assert(lhs[t] == before.map_values(|x: Vec<char>| x@)[t]);
                }
            }
            assert(lhs =~= rhs);
        }
    }
    assert(sv.take(m as int) =~= sv);
    out
}

// ----- URL normalization -----

/// Value of a query pair after normalization: the comma-separated lists of
/// `ids` and `usernames` are sorted; other values are kept.
pub open spec fn norm_value(k: Seq<char>, v: Seq<char>) -> Seq<char> {
    if k == "ids"@ || k == "usernames"@ {
        join_spec(sort_strs(split_spec(v, ',')), ","@)
    } else {
        v
    }
}

/// `k=v` pairs joined with `&`, unencoded.
pub open spec fn query_string(ps: Seq<(Seq<char>, Seq<char>)>) -> Seq<char> {
    join_spec(ps.map_values(|p: (Seq<char>, Seq<char>)| p.0 + "="@ + p.1), "&"@)
}

/// The normalized form of a URL: scheme, host and path, then the query
/// pairs (decoded, id lists sorted) sorted by key; a string that does not
/// parse is kept as is.
pub open spec fn spec_normalize_url(url: Seq<char>) -> Seq<char> {
    match parsed_url(url) {
        None => url,
        Some(u) => {
            let ps = sort_by_key(u.3.map_values(|p: (Seq<char>, Seq<char>)| (p.0, norm_value(p.0, p.1))));
            let base = u.0 + "://"@ + (match u.1 {
                Some(h) => h,
                None => Seq::<char>::empty(),
            }) + u.2;
            if ps.len() == 0 {
                base
            } else {
                base + "?"@ + query_string(ps)
            }
        },
    }
}

fn norm_value_exec(k: &[char], v: &[char]) -> (r: Vec<char>)
    ensures
        r@ == norm_value(k@, v@),
{
    let ids = chars_of("ids");
    let usernames = chars_of("usernames");
    if chars_eq(k, ids.as_slice()) || chars_eq(k, usernames.as_slice()) {
        let parts = split_char(v, ',');
        assert(parts@.map_values(|x: Vec<char>| x@) =~= split_spec(v@, ','));
        let sorted = sort_strings(parts);
        let comma: [char; 1] = [','];
        assert(comma@ =~= ","@) by {
            reveal_strlit(",");
        }
        join_chars(&sorted, comma.as_slice())
    } else {
        slice_vec(v, 0, v.len())
    }
}

/// `a`, then `mid`, then `b`.
fn join_with(a: &[char], mid: char, b: &[char]) -> (r: Vec<char>)
    ensures
        r@ == a@ + seq![mid] + b@,
{
    let mut r = slice_vec(a, 0, a.len());
    assert(a@.subrange(0, a@.len() as int) =~= a@);
    r.push(mid);
    let ghost head = r@;
    let mut k: usize = 0;
    while k < b.len()
        invariant
            k <= b@.len(),
            r@ == head + b@.take(k as int),
        decreases b@.len() - k,
    {
        r.push(b[k]);
        k = k + 1;
        assert(r@ =~= head + b@.take(k as int));
    }
    assert(b@.take(b@.len() as int) =~= b@);
    r
}

fn build_query(ps: &Vec<(Vec<char>, Vec<char>)>) -> (r: Vec<char>)
    ensures
        r@ == query_string(ps@.map_values(|p: (Vec<char>, Vec<char>)| (p.0@, p.1@))),
{
    let ghost pv = ps@.map_values(|p: (Vec<char>, Vec<char>)| (p.0@, p.1@));
    let mut items: Vec<Vec<char>> = Vec::new();
    let mut i: usize = 0;
    while i < ps.len()
        invariant
            i <= ps@.len(),
            pv == ps@.map_values(|p: (Vec<char>, Vec<char>)| (p.0@, p.1@)),
            items@.len() == i,
            forall|t: int| 0 <= t < i ==> #[trigger] items@[t]@ == pv[t].0 + "="@ + pv[t].1,
        decreases ps@.len() - i,
    {
        let item = join_with(ps[i].0.as_slice(), '=', ps[i].1.as_slice());
        proof {
            reveal_strlit("=");
            assert(item@ == pv[i as int].0 + "="@ + pv[i as int].1);
        }
        items.push(item);
        i = i + 1;
    }
    let amp: [char; 1] = ['&'];
    assert(amp@ =~= "&"@) by {
        reveal_strlit("&");
    }
    assert(items@.map_values(|x: Vec<char>| x@) =~= pv.map_values(
        |p: (Seq<char>, Seq<char>)| p.0 + "="@ + p.1,
    ));
    join_chars(&items, amp.as_slice())
}

/// Normalizes a URL: query parameters sorted by key and known id lists
/// sorted, so that equivalent requests share one cache key.
pub fn normalize_url(url: &str) -> (r: String)
    ensures
        r@ == spec_normalize_url(url@),
{
    match parse_url(url) {
        None => owned(url),
        Some(u) => {
            let ghost qv = u.query_pairs@.map_values(|p: (String, String)| (p.0@, p.1@));
            let ghost target = qv.map_values(|p: (Seq<char>, Seq<char>)| (p.0, norm_value(p.0, p.1)));
            let mut pairs: Vec<(Vec<char>, Vec<char>)> = Vec::new();
            let mut i: usize = 0;
            while i < u.query_pairs.len()
                invariant
                    i <= u.query_pairs@.len(),
                    qv == u.query_pairs@.map_values(|p: (String, String)| (p.0@, p.1@)),
                    target == qv.map_values(|p: (Seq<char>, Seq<char>)| (p.0, norm_value(p.0, p.1))),
                    pairs@.len() == i,
                    forall|t: int|
                        0 <= t < i ==> (#[trigger] pairs@[t].0@, pairs@[t].1@) == target[t],
                decreases u.query_pairs@.len() - i,
            {
                let k = chars_of(u.query_pairs[i].0.as_str());
                let v = chars_of(u.query_pairs[i].1.as_str());
                let nv = norm_value_exec(k.as_slice(), v.as_slice());
                assert((k@, nv@) == target[i as int]);
                pairs.push((k, nv));
                i = i + 1;
            }
            assert(pairs@.map_values(|p: (Vec<char>, Vec<char>)| (p.0@, p.1@)) =~= target);
            let sorted = sort_pairs_by_key(pairs);
            let mut s = owned(u.scheme.as_str());
            push_str(&mut s, "://");
            match &u.host {
                Some(h) => push_str(&mut s, h.as_str()),
                None => {},
            }
            push_str(&mut s, u.path.as_str());
            proof { reveal_strlit(""); }
            if sorted.len() == 0 {
                return s;
            }
            push_str(&mut s, "?");
            let q = build_query(&sorted);
            push_all(&mut s, q.as_slice());
            s
        },
    }
}

/// The raw-response cache key: hex SHA-256 of the method, a NUL, and the
/// normalized URL (independent of the auth scheme).
pub open spec fn spec_raw_cache_key(method: Seq<char>, url: Seq<char>) -> Seq<char> {
    hex_spec(sha256_of(vstd::utf8::encode_utf8(method + seq!['\0'] + spec_normalize_url(url))))
}

/// Computes the raw-response cache key.
pub fn compute_raw_cache_key(method: &str, url: &str) -> (r: String)
    ensures
        r@ == spec_raw_cache_key(method@, url@),
{
    let mut input = owned(method);
    push_char(&mut input, '\0');
    let n = normalize_url(url);
    push_str(&mut input, n.as_str());
    let bytes = input.as_str().as_bytes();
    assert(bytes@ == vstd::utf8::encode_utf8(input@));
    assert(input@ == method@ + seq!['\0'] + spec_normalize_url(url@));
    let digest = sha256(bytes);
    encode(digest.as_slice())
}

// ----- order facts -----

/// `a` is not above `b` in lexicographic order.
pub open spec fn str_le(a: Seq<char>, b: Seq<char>) -> bool {
    !seq_lt(b, a)
}

/// The keys of key/value pairs.
pub open spec fn keys_of<V>(s: Seq<(Seq<char>, V)>) -> Seq<Seq<char>> {
    s.map_values(|p: (Seq<char>, V)| p.0)
}

/// Insertion of a string after the last element not above it.
pub open spec fn insert_str(s: Seq<Seq<char>>, x: Seq<char>) -> Seq<Seq<char>>
    decreases s.len(),
{
    if s.len() == 0 {
        seq![x]
    } else if seq_lt(x, s.last()) {
        insert_str(s.drop_last(), x).push(s.last())
    } else {
        s.push(x)
    }
}

/// Insertion sort of strings.
pub open spec fn sort_str_seq(s: Seq<Seq<char>>) -> Seq<Seq<char>>
    decreases s.len(),
{
    if s.len() == 0 {
        Seq::empty()
    } else {
        insert_str(sort_str_seq(s.drop_last()), s.last())
    }
}

proof fn lemma_keys_insert<V>(s: Seq<(Seq<char>, V)>, x: (Seq<char>, V))
    ensures
        keys_of(insert_by_key(s, x)) == insert_str(keys_of(s), x.0),
    decreases s.len(),
{
    if s.len() == 0 {
        assert(keys_of(insert_by_key(s, x)) =~= seq![x.0]);
    } else {
        assert(keys_of(s).last() == s.last().0);
        assert(keys_of(s).drop_last() =~= keys_of(s.drop_last()));
        if seq_lt(x.0, s.last().0) {
            lemma_keys_insert(s.drop_last(), x);
            assert(keys_of(insert_by_key(s.drop_last(), x).push(s.last())) =~= keys_of(
                insert_by_key(s.drop_last(), x),
            ).push(s.last().0));
        } else {
            assert(keys_of(s.push(x)) =~= keys_of(s).push(x.0));
        }
    }
}

proof fn lemma_keys_sort<V>(s: Seq<(Seq<char>, V)>)
    ensures
        keys_of(sort_by_key(s)) == sort_str_seq(keys_of(s)),
    decreases s.len(),
{
    if s.len() == 0 {
        assert(keys_of(sort_by_key(s)) =~= Seq::<Seq<char>>::empty());
    } else {
        lemma_keys_sort(s.drop_last());
        lemma_keys_insert(sort_by_key(s.drop_last()), s.last());
        assert(keys_of(s).drop_last() =~= keys_of(s.drop_last()));
        assert(keys_of(s).last() == s.last().0);
    }
}

/// `str_le` is a total order.
pub proof fn lemma_str_le_total_ordering()
    ensures
        vstd::relations::total_ordering(|a: Seq<char>, b: Seq<char>| str_le(a, b)),
{
    let leq = |a: Seq<char>, b: Seq<char>| str_le(a, b);
    assert forall|x: Seq<char>| #[trigger] leq(x, x) by {
        crate::text::lemma_seq_lt_irreflexive(x);
    }
    assert forall|x: Seq<char>, y: Seq<char>| #[trigger] leq(x, y) && #[trigger] leq(y, x) implies x == y by {
        if x != y {
            crate::text::lemma_seq_lt_total(x, y);
        }
    }
    assert forall|x: Seq<char>, y: Seq<char>, z: Seq<char>| #[trigger] leq(x, y) && #[trigger] leq(y, z) implies leq(x, z) by {
        if seq_lt(z, x) {
            if x == y {
            } else {
                crate::text::lemma_seq_lt_total(x, y);
                if y == z {
                } else {
                    crate::text::lemma_seq_lt_total(y, z);
                    crate::text::lemma_seq_lt_transitive(z, x, y);
                }
            }
        }
    }
    assert forall|x: Seq<char>, y: Seq<char>| #[trigger] leq(x, y) || #[trigger] leq(y, x) by {
        if seq_lt(y, x) && seq_lt(x, y) {
            crate::text::lemma_seq_lt_transitive(x, y, x);
            crate::text::lemma_seq_lt_irreflexive(x);
        }
    }
}

proof fn lemma_insert_str_sorted(s: Seq<Seq<char>>, x: Seq<char>)
    requires
        vstd::relations::sorted_by(s, |a: Seq<char>, b: Seq<char>| str_le(a, b)),
    ensures
        vstd::relations::sorted_by(insert_str(s, x), |a: Seq<char>, b: Seq<char>| str_le(a, b)),
        insert_str(s, x).to_multiset() == s.to_multiset().insert(x),
    decreases s.len(),
{
    broadcast use vstd::seq_lib::group_to_multiset_ensures;
    broadcast use vstd::multiset::group_multiset_axioms;
    let leq = |a: Seq<char>, b: Seq<char>| str_le(a, b);
    lemma_str_le_total_ordering();
    if s.len() == 0 {
        assert(insert_str(s, x) == seq![x]);
        assert(seq![x] =~= Seq::<Seq<char>>::empty().push(x));
    } else if seq_lt(x, s.last()) {
        let d = s.drop_last();
        assert(vstd::relations::sorted_by(d, leq)) by {
            assert forall|i: int, j: int| 0 <= i < j < d.len() implies #[trigger] leq(d[i], d[j]) by {
                assert(leq(s[i], s[j]));
            }
        }
        lemma_insert_str_sorted(d, x);
        let r1 = insert_str(d, x);
        let r = r1.push(s.last());
        assert forall|k: int| 0 <= k < r1.len() implies #[trigger] leq(r1[k], s.last()) by {
            assert(r1.to_multiset().count(r1[k]) > 0);
            if r1[k] == x {
                if seq_lt(s.last(), x) {
                    crate::text::lemma_seq_lt_transitive(x, s.last(), x);
                    crate::text::lemma_seq_lt_irreflexive(x);
                }
            } else {
                assert(d.to_multiset().count(r1[k]) > 0);
                assert(d.contains(r1[k]));
                let j = choose|j: int| 0 <= j < d.len() && d[j] == r1[k];
                assert(leq(s[j], s[s.len() - 1]));
            }
        }
        assert forall|i: int, j: int| 0 <= i < j < r.len() implies #[trigger] leq(r[i], r[j]) by {
            if j < r1.len() {
                assert(leq(r1[i], r1[j]));
            } else {
                assert(leq(r1[i], s.last()));
            }
        }
        assert(d.push(s.last()) =~= s);
    } else {
        let r = s.push(x);
        assert forall|i: int, j: int| 0 <= i < j < r.len() implies #[trigger] leq(r[i], r[j]) by {
            if j < s.len() {
                assert(leq(s[i], s[j]));
            } else {
                let l = s.last();
                if i < s.len() - 1 {
                    assert(leq(s[i], s[s.len() - 1]));
                }
                if seq_lt(x, s[i]) {
                    if s[i] != l {
                        crate::text::lemma_seq_lt_total(s[i], l);
                        if seq_lt(s[i], l) {
                            crate::text::lemma_seq_lt_transitive(x, s[i], l);
                        }
                    }
                }
            }
        }
    }
}

proof fn lemma_sort_str_sorted(s: Seq<Seq<char>>)
    ensures
        vstd::relations::sorted_by(sort_str_seq(s), |a: Seq<char>, b: Seq<char>| str_le(a, b)),
        sort_str_seq(s).to_multiset() == s.to_multiset(),
    decreases s.len(),
{
    broadcast use vstd::seq_lib::group_to_multiset_ensures;
    if s.len() > 0 {
        lemma_sort_str_sorted(s.drop_last());
        lemma_insert_str_sorted(sort_str_seq(s.drop_last()), s.last());
        assert(s.drop_last().push(s.last()) =~= s);
    }
}

/// Sorting strings gives the same list for any two arrangements of the same
/// strings.
pub proof fn lemma_sort_strs_permutation_invariant(a: Seq<Seq<char>>, b: Seq<Seq<char>>)
    requires
        a.to_multiset() == b.to_multiset(),
    ensures
        sort_strs(a) == sort_strs(b),
{
    let pa = a.map_values(|x: Seq<char>| (x, Seq::<char>::empty()));
    let pb = b.map_values(|x: Seq<char>| (x, Seq::<char>::empty()));
    lemma_keys_sort(pa);
    lemma_keys_sort(pb);
    assert(keys_of(pa) =~= a);
    assert(keys_of(pb) =~= b);
    assert(sort_strs(a) =~= keys_of(sort_by_key(pa)));
    assert(sort_strs(b) =~= keys_of(sort_by_key(pb)));
    lemma_sort_str_sorted(a);
    lemma_sort_str_sorted(b);
    lemma_str_le_total_ordering();
    vstd::seq_lib::lemma_sorted_unique(
        sort_str_seq(a),
        sort_str_seq(b),
        |x: Seq<char>, y: Seq<char>| str_le(x, y),
    );
}

/// Query pairs that agree except that each `ids`/`usernames` list may hold
/// its ids in another order.
pub open spec fn same_up_to_id_order(a: Seq<(Seq<char>, Seq<char>)>, b: Seq<(Seq<char>, Seq<char>)>) -> bool {
    &&& a.len() == b.len()
    &&& forall|i: int|
        0 <= i < a.len() ==> (#[trigger] a[i]).0 == b[i].0 && if a[i].0 == "ids"@ || a[i].0
            == "usernames"@ {
            split_spec(a[i].1, ',').to_multiset() == split_spec(b[i].1, ',').to_multiset()
        } else {
            a[i].1 == b[i].1
        }
}

/// The order of the ids in an `ids` or `usernames` list does not change the
/// normalized URL, so it does not change the raw-response cache key.
pub proof fn law_cache_key_ignores_id_order(method: Seq<char>, u1: Seq<char>, u2: Seq<char>)
    requires
        parsed_url(u1) is Some,
        parsed_url(u2) is Some,
        parsed_url(u1).unwrap().0 == parsed_url(u2).unwrap().0,
        parsed_url(u1).unwrap().1 == parsed_url(u2).unwrap().1,
        parsed_url(u1).unwrap().2 == parsed_url(u2).unwrap().2,
        same_up_to_id_order(parsed_url(u1).unwrap().3, parsed_url(u2).unwrap().3),
    ensures
        spec_normalize_url(u1) == spec_normalize_url(u2),
        spec_raw_cache_key(method, u1) == spec_raw_cache_key(method, u2),
{
    let a = parsed_url(u1).unwrap().3;
    let b = parsed_url(u2).unwrap().3;
    let ma = a.map_values(|p: (Seq<char>, Seq<char>)| (p.0, norm_value(p.0, p.1)));
    let mb = b.map_values(|p: (Seq<char>, Seq<char>)| (p.0, norm_value(p.0, p.1)));
    assert forall|i: int| 0 <= i < ma.len() implies ma[i] == mb[i] by {
        assert(a[i].0 == b[i].0);
        if a[i].0 == "ids"@ || a[i].0 == "usernames"@ {
            lemma_sort_strs_permutation_invariant(split_spec(a[i].1, ','), split_spec(b[i].1, ','));
        }
    }
    assert(ma =~= mb);
}

/// Sorting query pairs by key orders the keys and loses or adds none.
pub proof fn law_sorted_pairs_are_ordered_and_complete(pairs: Seq<(Seq<char>, Seq<char>)>)
    ensures
        vstd::relations::sorted_by(
            keys_of(sort_by_key(pairs)),
            |a: Seq<char>, b: Seq<char>| str_le(a, b),
        ),
        keys_of(sort_by_key(pairs)).to_multiset() == keys_of(pairs).to_multiset(),
{
    lemma_keys_sort(pairs);
    lemma_sort_str_sorted(keys_of(pairs));
}

} // verus!
