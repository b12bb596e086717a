//! Scanning of raw arguments for the output format, before the full parse.
//!
//! The format decides how a parse failure itself is reported, so it is read
//! from the arguments alone, then from the `BIRD_OUTPUT` value, then from
//! whether stderr is a terminal.

use vstd::prelude::*;
use crate::output::OutputFormat;
use crate::text::{chars_of, chars_eq, is_prefix, slice_vec, starts_with};

verus! {

/// The format named by an `--output` value, if it names one.
pub open spec fn spec_output_value(v: Seq<char>) -> Option<OutputFormat> {
    if v == "json"@ {
        Some(OutputFormat::Json)
    } else if v == "jsonl"@ {
        Some(OutputFormat::Jsonl)
    } else if v == "ndjson"@ {
        Some(OutputFormat::Ndjson)
    } else if v == "text"@ {
        Some(OutputFormat::Text)
    } else {
        None
    }
}

/// The explicit output flag found by scanning `argv` from position `i`:
/// the first argument that is `--json`, `--jsonl`, `-o`/`--output` followed
/// by a known value, or `--output=`/`-o=` with a known value.
pub open spec fn spec_explicit_from(argv: Seq<Seq<char>>, i: int) -> Option<OutputFormat>
    decreases argv.len() - i,
{
    if i < 0 || i >= argv.len() {
        None
    } else {
        let a = argv[i];
        if a == "--json"@ {
            Some(OutputFormat::Json)
        } else if a == "--jsonl"@ {
            Some(OutputFormat::Jsonl)
        } else if (a == "-o"@ || a == "--output"@) && i + 1 < argv.len() && spec_output_value(
            argv[i + 1],
        ) is Some {
            spec_output_value(argv[i + 1])
        } else if is_prefix("--output="@, a) && spec_output_value(a.skip(9)) is Some {
            spec_output_value(a.skip(9))
        } else if is_prefix("-o="@, a) && spec_output_value(a.skip(3)) is Some {
            spec_output_value(a.skip(3))
        } else {
            spec_explicit_from(argv, i + 1)
        }
    }
}

/// The views of a list of strings.
pub open spec fn views(v: Seq<String>) -> Seq<Seq<char>> {
    v.map_values(|s: String| s@)
}

/// The format named by `cs`, if any.
fn output_value_chars(cs: &[char]) -> (r: Option<OutputFormat>)
    ensures
        r == spec_output_value(cs@),
{
    let json = chars_of("json");
    let jsonl = chars_of("jsonl");
    let ndjson = chars_of("ndjson");
    let text = chars_of("text");
    if chars_eq(cs, json.as_slice()) {
        Some(OutputFormat::Json)
    } else if chars_eq(cs, jsonl.as_slice()) {
        Some(OutputFormat::Jsonl)
    } else if chars_eq(cs, ndjson.as_slice()) {
        Some(OutputFormat::Ndjson)
    } else if chars_eq(cs, text.as_slice()) {
        Some(OutputFormat::Text)
    } else {
        None
    }
}

/// Parses an `--output` value: `json`, `jsonl`, `ndjson` or `text`.
pub fn parse_output_value(v: &str) -> (r: Option<OutputFormat>)
    ensures
        r == spec_output_value(v@),
{
    let cs = chars_of(v);
    output_value_chars(cs.as_slice())
}

/// Looks for an explicit output flag (`--output json`, `--output=json`,
/// `-o json`, `-o=json`, `--json`, `--jsonl`); `None` when there is none.
pub fn explicit_output_from_argv(argv: &[String]) -> (r: Option<OutputFormat>)
    ensures
        r == spec_explicit_from(views(argv@), 0),
{
    let ghost av = views(argv@);
    let json_flag = chars_of("--json");
    let jsonl_flag = chars_of("--jsonl");
    let o_flag = chars_of("-o");
    let output_flag = chars_of("--output");
    let output_eq = chars_of("--output=");
    let o_eq = chars_of("-o=");
    proof {
        reveal_strlit("--output=");
        reveal_strlit("-o=");
    }
    let mut i: usize = 0;
    while i < argv.len()
        invariant
            i <= argv@.len(),
            av == views(argv@),
            json_flag@ == "--json"@,
            jsonl_flag@ == "--jsonl"@,
            o_flag@ == "-o"@,
            output_flag@ == "--output"@,
            output_eq@ == "--output="@,
            o_eq@ == "-o="@,
            output_eq@.len() == 9,
            o_eq@.len() == 3,
            spec_explicit_from(av, 0) == spec_explicit_from(av, i as int),
        decreases argv@.len() - i,
    {
        let a = chars_of(argv[i].as_str());
        assert(a@ == av[i as int]);
        if chars_eq(a.as_slice(), json_flag.as_slice()) {
            return Some(OutputFormat::Json);
        }
        if chars_eq(a.as_slice(), jsonl_flag.as_slice()) {
            return Some(OutputFormat::Jsonl);
        }
        if (chars_eq(a.as_slice(), o_flag.as_slice()) || chars_eq(
            a.as_slice(),
            output_flag.as_slice(),
        )) && i + 1 < argv.len() {
            let v = chars_of(argv[i + 1].as_str());
            assert(v@ == av[i + 1]);
            let f = output_value_chars(v.as_slice());
            if f.is_some() {
                return f;
            }
        }
        if starts_with(a.as_slice(), output_eq.as_slice()) {
            let rest = slice_vec(a.as_slice(), 9, a.len());
            assert(rest@ == a@.skip(9));
            let f = output_value_chars(rest.as_slice());
            if f.is_some() {
                return f;
            }
        }
        if starts_with(a.as_slice(), o_eq.as_slice()) {
            let rest = slice_vec(a.as_slice(), 3, a.len());
            assert(rest@ == a@.skip(3));
            let f = output_value_chars(rest.as_slice());
            if f.is_some() {
                return f;
            }
        }
        i = i + 1;
    }
    None
}

/// The format used to report a parse failure: an explicit flag, else the
/// `BIRD_OUTPUT` value when it names a format, else text on a terminal and
/// JSON otherwise.
pub fn output_from_argv(argv: &[String], env_output: Option<&str>, stderr_is_tty: bool) -> (r:
    OutputFormat)
    ensures
        spec_explicit_from(views(argv@), 0) is Some ==> r == spec_explicit_from(
            views(argv@),
            0,
        )->0,
        spec_explicit_from(views(argv@), 0) is None ==> match env_output {
            Some(e) if spec_output_value(e@) is Some => r == spec_output_value(e@)->0,
            _ => r == (if stderr_is_tty {
                OutputFormat::Text
            } else {
                OutputFormat::Json
            }),
        },
{
    if let Some(f) = explicit_output_from_argv(argv) {
        return f;
    }
    if let Some(e) = env_output {
        if let Some(f) = parse_output_value(e) {
            return f;
        }
    }
    if stderr_is_tty {
        OutputFormat::Text
    } else {
        OutputFormat::Json
    }
}

} // verus!
