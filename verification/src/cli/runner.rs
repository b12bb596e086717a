//! The runner's decisions around a parsed command line: the output
//! configuration, store options, the transport gate, and the curated
//! examples listing.

use vstd::prelude::*;
use crate::cli::Command;
use crate::cli::dispatch::spec_needs_xurl;
use crate::db::client::CacheOpts;
use crate::output::{
    json_quote, json_string, lines_of, lines_spec, spec_success_envelope, success_envelope_string,
    OutputConfig, OutputFormat,
};
use crate::text::{decimal, decimal_spec, join_spec, trim_str, trim_spec};
use crate::text::{
    chars_eq, chars_of, is_prefix, owned, push_all, push_str, slice_vec, split_once,
    split_once_spec, starts_with, string_of, trim_end, trim_end_spec, trim_start, trim_start_spec,
};

verus! {

/// The output configuration: the format asked for by flags, else text on a
/// terminal and JSON otherwise.
pub fn resolve_output_config(
    requested: Option<OutputFormat>,
    stderr_is_tty: bool,
    use_color: bool,
    quiet: bool,
    raw: bool,
) -> (r: OutputConfig)
    ensures
        r.format == match requested {
            Some(f) => f,
            None => if stderr_is_tty {
                OutputFormat::Text
            } else {
                OutputFormat::Json
            },
        },
        r.use_color == use_color,
        r.quiet == quiet,
        r.raw == raw,
{
    let format = match requested {
        Some(f) => f,
        None => if stderr_is_tty {
            OutputFormat::Text
        } else {
            OutputFormat::Json
        },
    };
    OutputConfig { format, use_color, quiet, raw }
}

/// The configuration used before the command line parsed (for the examples
/// listing and parse failures): color only when automatic color is on and
/// the format is text.
pub fn early_output_config(format: OutputFormat, auto_color: bool) -> (r: OutputConfig)
    ensures
        r.format == format,
        r.use_color == (auto_color && format is Text),
        !r.quiet,
        !r.raw,
{
    OutputConfig { format, use_color: auto_color && !format.is_json(), quiet: false, raw: false }
}

/// Help and version text is wrapped in a success envelope only when JSON
/// output was asked for explicitly.
pub fn wrap_help_in_envelope(explicit: Option<OutputFormat>) -> (r: bool)
    ensures
        r == (explicit matches Some(f) && !(f is Text)),
{
    match explicit {
        Some(f) => f.is_json(),
        None => false,
    }
}

/// The `--examples` flag is among the arguments.
pub fn has_examples_flag(argv: &[String]) -> (r: bool)
    ensures
        r == argv@.map_values(|s: String| s@).contains("--examples"@),
{
    let ghost av = argv@.map_values(|s: String| s@);
    let flag = chars_of("--examples");
    let mut i: usize = 0;
    while i < argv.len()
        invariant
            i <= argv@.len(),
            av == argv@.map_values(|s: String| s@),
            flag@ == "--examples"@,
            forall|j: int| 0 <= j < i ==> av[j] != "--examples"@,
        decreases argv@.len() - i,
    {
        let a = chars_of(argv[i].as_str());
        if chars_eq(a.as_slice(), flag.as_slice()) {
            assert(av[i as int] == "--examples"@);
            return true;
        }
        i = i + 1;
    }
    false
}

/// Store options from the flags: `--no-cache` or a disabled store turn the
/// store off.
pub fn cache_opts_from_flags(no_cache: bool, cache_enabled: bool, refresh: bool, cache_only: bool) -> (r:
    CacheOpts)
    ensures
        r.no_store == (no_cache || !cache_enabled),
        r.refresh == refresh,
        r.cache_only == cache_only,
{
    CacheOpts { no_store: no_cache || !cache_enabled, refresh, cache_only }
}

/// The transport must be resolved before dispatch: the command will spawn
/// it and `--cache-only` is not set.
pub fn xurl_gate_applies(cmd: &Command, stdin_is_tty: bool, no_interactive: bool, cache_only: bool) -> (r:
    bool)
    ensures
        r == (spec_needs_xurl(*cmd, stdin_is_tty, no_interactive) && !cache_only),
{
    crate::cli::dispatch::command_needs_xurl(cmd, stdin_is_tty, no_interactive) && !cache_only
}

/// The confirmation target shown when removing a watched user.
pub fn watchlist_remove_target(username: &str) -> (r: String)
    ensures
        r@ == "watchlist:@"@ + username@,
{
    let mut r = owned("watchlist:@");
    push_str(&mut r, username);
    r
}

/// The example command of one line of the examples text, if the line is
/// one: a line whose text (after leading whitespace) starts with `bird `,
/// without any `#` comment and trailing whitespace.
pub open spec fn example_of_line(line: Seq<char>) -> Option<Seq<char>> {
    let t = trim_start_spec(line);
    if is_prefix("bird "@, t) {
        let rest = t.skip(5);
        let before = match split_once_spec(rest, '#') {
            Some((a, _)) => a,
            None => rest,
        };
        Some("bird "@ + trim_end_spec(before))
    } else {
        None
    }
}

/// The example commands of the lines, in order.
pub open spec fn examples_of_lines(ls: Seq<Seq<char>>) -> Seq<Seq<char>>
    decreases ls.len(),
{
    if ls.len() == 0 {
        Seq::empty()
    } else {
        let prev = examples_of_lines(ls.drop_last());
        match example_of_line(ls.last()) {
            Some(c) => prev.push(c),
            None => prev,
        }
    }
}

fn example_of_line_exec(line: &[char]) -> (r: Option<String>)
    ensures
        match example_of_line(line@) {
            Some(c) => r matches Some(s) && s@ == c,
            None => r is None,
        },
{
    let t = trim_start(line);
    let prefix = chars_of("bird ");
    proof { reveal_strlit("bird "); }
    if !starts_with(t.as_slice(), prefix.as_slice()) {
        return None;
    }
    let rest = slice_vec(t.as_slice(), 5, t.len());
    assert(rest@ =~= t@.skip(5));
    let before = match split_once(rest.as_slice(), '#') {
        Some((a, _)) => a,
        None => rest,
    };
    let cmd = trim_end(before.as_slice());
    let mut out = owned("bird ");
    push_all(&mut out, cmd.as_slice());
    Some(out)
}

/// The example commands listed in the examples text, each as `bird <cmd>`.
pub fn example_commands(text: &str) -> (r: Vec<String>)
    ensures
        r@.map_values(|s: String| s@) == examples_of_lines(lines_spec(text@)),
{
    let ls = lines_of(text);
    let ghost lv = lines_spec(text@);
    let mut out: Vec<String> = Vec::new();
    let mut i: usize = 0;
    while i < ls.len()
        invariant
            i <= ls@.len(),
            ls@.map_values(|v: Vec<char>| v@) == lv,
            out@.map_values(|s: String| s@) == examples_of_lines(lv.take(i as int)),
        decreases ls@.len() - i,
    {
        let ghost before = out@;
        assert(ls@[i as int]@ == lv[i as int]);
        match example_of_line_exec(ls[i].as_slice()) {
            Some(c) => {
                out.push(c);
                assert(out@.map_values(|s: String| s@) =~= before.map_values(|s: String| s@).push(
                    example_of_line(lv[i as int])->0,
                ));
            },
            None => {},
        }
        i = i + 1;
        proof {
            assert(lv.take(i as int).drop_last() =~= lv.take((i - 1) as int));
        }
    }
    assert(lv.take(ls@.len() as int) =~= lv);
    out
}

/// A JSON array of strings: each quoted, separated by commas.
pub open spec fn json_string_array(items: Seq<Seq<char>>) -> Seq<char> {
    "["@ + join_spec(items.map_values(|x: Seq<char>| json_string(x)), ","@) + "]"@
}

fn json_array_of(items: &Vec<String>) -> (r: String)
    ensures
        r@ == json_string_array(items@.map_values(|s: String| s@)),
{
    let ghost iv = items@.map_values(|s: String| s@);
    let ghost qv = iv.map_values(|x: Seq<char>| json_string(x));
    let mut r = owned("[");
    let ghost head = r@;
    let mut i: usize = 0;
    while i < items.len()
        invariant
            i <= items@.len(),
            iv == items@.map_values(|s: String| s@),
            qv == iv.map_values(|x: Seq<char>| json_string(x)),
            r@ == head + join_spec(qv.take(i as int), ","@),
        decreases items@.len() - i,
    {
        if i > 0 {
            push_str(&mut r, ",");
        }
        let q = json_quote(items[i].as_str());
        push_str(&mut r, q.as_str());
        i = i + 1;
        proof {
            let t = qv.take(i as int);
            assert(t.drop_last() =~= qv.take((i - 1) as int));
            assert(t.last() == q@);
            if i == 1 {
                assert(join_spec(t, ","@) == t[0]);
                assert(r@ =~= head + q@);
            } else {
                assert(r@ =~= head + (join_spec(qv.take((i - 1) as int), ","@) + ","@ + q@));
            }
        }
    }
    assert(qv.take(items@.len() as int) =~= qv);
    push_str(&mut r, "]");
    r
}

/// The `--examples` envelope in JSON mode: the example commands as data,
/// their count as meta.
pub open spec fn spec_examples_envelope(text: Seq<char>) -> Seq<char> {
    let cmds = examples_of_lines(lines_spec(text));
    spec_success_envelope(
        json_string_array(cmds),
        "{\"count\":"@ + decimal_spec(cmds.len()) + "}"@,
    )
}

/// Renders the `--examples` envelope.
pub fn examples_envelope(text: &str) -> (r: String)
    ensures
        r@ == spec_examples_envelope(text@),
{
    let cmds = example_commands(text);
    let data = json_array_of(&cmds);
    let mut meta = owned("{\"count\":");
    let n = decimal(cmds.len() as u64);
    push_str(&mut meta, n.as_str());
    push_str(&mut meta, "}");
    success_envelope_string(data.as_str(), meta.as_str())
}

/// The envelope around help or version text when JSON was asked for: the
/// trimmed text under `help` (or `version`), with the text format as meta.
pub open spec fn spec_help_envelope(is_version: bool, rendered: Seq<char>) -> Seq<char> {
    spec_success_envelope(
        "{\""@ + (if is_version {
            "version"@
        } else {
            "help"@
        }) + "\":"@ + json_string(trim_spec(rendered)) + "}"@,
        "{\"format\":\"text\"}"@,
    )
}

/// Renders the help or version envelope.
pub fn help_envelope(is_version: bool, rendered: &str) -> (r: String)
    ensures
        r@ == spec_help_envelope(is_version, rendered@),
{
    let t = trim_str(rendered);
    let ts = crate::text::string_of(t.as_slice());
    let mut data = owned("{\"");
    if is_version {
        push_str(&mut data, "version");
    } else {
        push_str(&mut data, "help");
    }
    push_str(&mut data, "\":");
    let q = json_quote(ts.as_str());
    push_str(&mut data, q.as_str());
    push_str(&mut data, "}");
    success_envelope_string(data.as_str(), "{\"format\":\"text\"}")
}

} // verus!
