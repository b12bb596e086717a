//! Value parsers for individual command-line arguments.

use vstd::prelude::*;
use crate::text::{
    chars_of, debug_str, first_index, lemma_first_index, lemma_first_index_unique,
    lemma_trim_of_trimmed, lemma_trim_space_then_trimmed, lemma_trim_trimmed, push_all, push_str,
    split_once, split_once_spec, str_debug, string_of, trim, trim_spec,
};

verus! {

/// Result of validating a `-H/--header` value: `Name: Value` with both
/// parts trimmed, split at the first colon; an error when there is no colon
/// or the trimmed name is empty.
pub open spec fn spec_parse_header(s: Seq<char>) -> Result<Seq<char>, Seq<char>> {
    match split_once_spec(s, ':') {
        None => Err("header must be in 'Name: Value' form, got: "@ + str_debug(s)),
        Some((name, value)) => if trim_spec(name).len() == 0 {
            Err("header name must not be empty (got: "@ + str_debug(s) + ")"@)
        } else {
            Ok(trim_spec(name) + ": "@ + trim_spec(value))
        },
    }
}

/// Validates a `-H/--header` value and normalizes it to `"Name: Value"`.
pub fn parse_header_kv(s: &str) -> (r: Result<String, String>)
    ensures
        match spec_parse_header(s@) {
            Ok(h) => r matches Ok(x) && x@ == h,
            Err(m) => r matches Err(e) && e@ == m,
        },
{
    let cs = chars_of(s);
    match split_once(cs.as_slice(), ':') {
        None => {
            let mut msg = string_of(chars_of("header must be in 'Name: Value' form, got: ").as_slice());
            let d = debug_str(s);
            push_str(&mut msg, d.as_str());
            Err(msg)
        },
        Some((name, value)) => {
            let name = trim(name.as_slice());
            let value = trim(value.as_slice());
            if name.len() == 0 {
                let mut msg = string_of(chars_of("header name must not be empty (got: ").as_slice());
                let d = debug_str(s);
                push_str(&mut msg, d.as_str());
                push_str(&mut msg, ")");
                return Err(msg);
            }
            let mut out = string_of(name.as_slice());
            push_str(&mut out, ": ");
            push_all(&mut out, value.as_slice());
            Ok(out)
        },
    }
}

/// Normalizing a header is idempotent: a normalized `Name: Value` header
/// normalizes to itself.
pub proof fn law_header_normalization_is_idempotent(s: Seq<char>)
    requires
        spec_parse_header(s) is Ok,
    ensures
        spec_parse_header(spec_parse_header(s)->Ok_0) == spec_parse_header(s),
{
    lemma_first_index(s, ':');
    let i = first_index(s, ':');
    let name = s.take(i);
    let value = s.skip(i + 1);
    let n = trim_spec(name);
    let v = trim_spec(value);
    lemma_trim_trimmed(name);
    lemma_trim_trimmed(value);
    let r = n + ": "@ + v;
    assert(spec_parse_header(s) == Ok::<Seq<char>, Seq<char>>(r));
    reveal_strlit(": ");
    assert forall|j: int| 0 <= j < n.len() implies r[j] != ':' by {
        assert(r[j] == n[j]);
        if n[j] == ':' {
            assert(n.contains(':'));
            assert(name.contains(':'));
            let k = choose|k: int| 0 <= k < name.len() && name[k] == ':';
            assert(name[k] == s[k]);
            assert(false);
        }
    }
    assert(r[n.len() as int] == ':');
    lemma_first_index_unique(r, ':', n.len() as int);
    assert(r.take(n.len() as int) =~= n);
    assert(r.skip(n.len() + 1int) =~= seq![' '] + v);
    lemma_trim_of_trimmed(n);
    lemma_trim_space_then_trimmed(v);
}

} // verus!
