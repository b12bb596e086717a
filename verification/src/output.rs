//! Terminal output: color mode, output format, error envelopes, and styled helpers.

use vstd::prelude::*;
use crate::error::{BirdError, spec_error_id, spec_kind, spec_message, spec_exit_code};
use crate::text::{
    push_char, chars_of, push_str, string_of, owned, concat2, split_spec,
    lemma_split_nonempty, split_char, join_spec, join_chars, decimal_spec, decimal, str_eq,
};
use owo_colors::OwoColorize;

verus! {

/// Output format for machine/human consumption.
#[derive(Clone, Copy, Debug, PartialEq, Eq, Structural)]
pub enum OutputFormat {
    /// Default: colored, human-readable.
    Text,
    /// Machine-readable JSON envelope, no color.
    Json,
    /// Streaming line-delimited JSON (one object per line; no wrapper).
    Jsonl,
    /// Newline-delimited JSON, accepted as an alias for jsonl.
    Ndjson,
}

impl OutputFormat {
    /// True when this format produces machine-readable JSON (json or jsonl/ndjson).
    pub fn is_json(self) -> (r: bool)
        ensures
            r == !(self is Text),
    {
        match self {
            OutputFormat::Json | OutputFormat::Jsonl | OutputFormat::Ndjson => true,
            OutputFormat::Text => false,
        }
    }
}

/// Color mode: when ANSI colors should be emitted.
#[derive(Clone, Copy, Debug, PartialEq, Eq, Structural)]
pub enum ColorMode {
    /// Auto-detect: color when stderr is a TTY and `NO_COLOR` is unset.
    Auto,
    /// Always emit colors.
    Always,
    /// Never emit colors.
    Never,
}

/// Output configuration threaded through command handlers.
#[derive(Clone, Copy, Debug)]
pub struct OutputConfig {
    pub format: OutputFormat,
    pub use_color: bool,
    pub quiet: bool,
    /// Strip prose decoration in text mode (pipe-safe). Ignored in JSON modes.
    pub raw: bool,
}

/// Bytes of `line` followed by a newline.
pub open spec fn line_bytes(line: Seq<char>) -> Seq<u8> {
    vstd::utf8::encode_utf8(line) + seq![10u8]
}

/// Appends `msg` and a newline to `out`, as UTF-8.
pub fn write_line(out: &mut Vec<u8>, msg: &str)
    ensures
        final(out)@ == old(out)@ + line_bytes(msg@),
{
    let b = msg.as_bytes();
    let mut i: usize = 0;
    while i < b.len()
        invariant
            i <= b@.len(),
            b@ == vstd::utf8::encode_utf8(msg@),
            out@ == old(out)@ + b@.take(i as int),
        decreases b@.len() - i,
    {
        out.push(b[i]);
        i = i + 1;
        assert(b@.take(i as int) == b@.take((i - 1) as int).push(b@[i - 1]));
    }
    assert(b@.take(b@.len() as int) == b@);
    out.push(10u8);
}

impl OutputConfig {
    /// Whether diagnostics should be suppressed (quiet mode or JSON output).
    pub fn suppress_diag(&self) -> (r: bool)
        ensures
            r == (self.quiet || !(self.format is Text)),
    {
        self.quiet || self.format.is_json()
    }

    /// Whether `--raw` (pipe-safe text) was requested. Honored only in text mode.
    pub fn is_raw_text(&self) -> (r: bool)
        ensures
            r == (self.raw && self.format is Text),
    {
        self.raw && self.format == OutputFormat::Text
    }

    /// Write a plain text line to `out`.
    pub fn print_message(&self, out: &mut Vec<u8>, msg: &str) -> (r: Result<(), String>)
        ensures
            r is Ok,
            final(out)@ == old(out)@ + line_bytes(msg@),
    {
        write_line(out, msg);
        Ok(())
    }

    /// Write a diagnostic line to `stderr`, honoring the quiet gate: nothing is
    /// written when diagnostics are suppressed.
    pub fn print_diag(&self, stderr: &mut Vec<u8>, msg: &str) -> (r: Result<(), String>)
        ensures
            r is Ok,
            (self.quiet || !(self.format is Text)) ==> final(stderr)@ == old(stderr)@,
            !(self.quiet || !(self.format is Text)) ==> final(stderr)@ == old(stderr)@
                + line_bytes(msg@),
    {
        if self.suppress_diag() {
            return Ok(());
        }
        write_line(stderr, msg);
        Ok(())
    }

    /// The line that reports `err` in the active format: the JSON envelope in
    /// JSON modes, a prefixed human line in text mode.
    pub fn error_line(&self, err: &BirdError) -> (r: String)
        ensures
            r@ == spec_error_line(*self, *err),
    {
        if self.format.is_json() {
            error_envelope(err)
        } else {
            let prefix = error_prefix(err);
            let mut line = error(prefix.as_str(), self.use_color);
            push_str(&mut line, err.message());
            line
        }
    }

    /// Write `err` to `stderr` in the encoding selected by the format.
    pub fn print_error(&self, stderr: &mut Vec<u8>, err: &BirdError) -> (r: Result<(), String>)
        ensures
            r is Ok,
            final(stderr)@ == old(stderr)@ + line_bytes(spec_error_line(*self, *err)),
    {
        let line = self.error_line(err);
        write_line(stderr, line.as_str());
        Ok(())
    }
}

/// Prefix of the text-mode error line.
pub open spec fn spec_error_prefix(e: BirdError) -> Seq<char> {
    match e {
        BirdError::Usage { .. } => "usage error: "@,
        BirdError::Auth { .. } => "auth failed: "@,
        BirdError::Config { .. } => "config failed: "@,
        BirdError::General { command, .. } => match command {
            Some(name) => name@ + " failed: "@,
            None => "error: "@,
        },
    }
}

/// Text-mode prefix for an error.
pub fn error_prefix(err: &BirdError) -> (r: String)
    ensures
        r@ == spec_error_prefix(*err),
{
    match err {
        BirdError::Usage { .. } => owned("usage error: "),
        BirdError::Auth { .. } => owned("auth failed: "),
        BirdError::Config { .. } => owned("config failed: "),
        BirdError::General { command: Some(name), .. } => concat2(name, " failed: "),
        BirdError::General { command: None, .. } => owned("error: "),
    }
}

/// JSON rendering of one character inside a string literal.
pub open spec fn json_escape_char(c: char) -> Seq<char> {
    if c == '"' {
        seq!['\\', '"']
    } else if c == '\\' {
        seq!['\\', '\\']
    } else if c == '\u{8}' {
        seq!['\\', 'b']
    } else if c == '\u{c}' {
        seq!['\\', 'f']
    } else if c == '\n' {
        seq!['\\', 'n']
    } else if c == '\r' {
        seq!['\\', 'r']
    } else if c == '\t' {
        seq!['\\', 't']
    } else if (c as u32) < 0x20 {
        seq!['\\', 'u', '0', '0', hex_digit((c as u32 / 16) as nat), hex_digit((c as u32 % 16) as nat)]
    } else {
        seq![c]
    }
}

/// Lowercase hexadecimal digit for `d < 16`.
pub open spec fn hex_digit(d: nat) -> char {
    if d < 10 {
        ((d + 48) as u8) as char
    } else {
        ((d + 87) as u8) as char
    }
}

/// JSON escaping of a character sequence (without the surrounding quotes).
pub open spec fn json_escape(s: Seq<char>) -> Seq<char>
    decreases s.len(),
{
    if s.len() == 0 {
        Seq::empty()
    } else {
        json_escape(s.drop_last()) + json_escape_char(s.last())
    }
}

/// A JSON string literal holding `s`.
pub open spec fn json_string(s: Seq<char>) -> Seq<char> {
    seq!['"'] + json_escape(s) + seq!['"']
}

/// Renders `s` as a JSON string literal (`serde_json::to_string` on a string):
/// quotes and backslashes are backslash-escaped, the control characters
/// below U+0020 use the short escapes `\b \t \n \f \r` or `\u00xx`, and
/// every other character is copied.
#[verifier::external_body]
pub fn json_quote(s: &str) -> (r: String)
    ensures
        r@ == json_string(s@),
{
    match serde_json::to_string(s) {
        Ok(v) => v,
        Err(_) => String::new(),
    }
}

/// Characters of general category Cc (`char::is_control`).
pub open spec fn is_control(c: char) -> bool {
    (c as u32) <= 0x1f || (0x7f <= (c as u32) && (c as u32) <= 0x9f)
}

/// `s` with at most `max` characters kept and every control character replaced by `?`.
pub open spec fn sanitize_spec(s: Seq<char>, max: nat) -> Seq<char> {
    let t = if s.len() <= max { s } else { s.take(max as int) };
    t.map_values(|c: char| if is_control(c) { '?' } else { c })
}

/// Sanitize untrusted text for stderr display: replace control chars with `?`, truncate.
/// Prevents terminal escape injection from API response bodies.
pub fn sanitize_for_stderr(s: &str, max_chars: usize) -> (r: String)
    ensures
        r@ == sanitize_spec(s@, max_chars as nat),
{
    let cs = chars_of(s);
    let n = if cs.len() <= max_chars { cs.len() } else { max_chars };
    let ghost t = if s@.len() <= max_chars { s@ } else { s@.take(max_chars as int) };
    let mut r = String::new();
    let mut i: usize = 0;
    while i < n
        invariant
            cs@ == s@,
            n == t.len(),
            n <= cs@.len(),
            t == s@.take(n as int),
            i <= n,
            r@ == t.take(i as int).map_values(|c: char| if is_control(c) { '?' } else { c }),
        decreases n - i,
    {
        let c = cs[i];
        let u = c as u32;
        let d = if u <= 0x1f || (0x7f <= u && u <= 0x9f) { '?' } else { c };
        push_char(&mut r, d);
        i = i + 1;
        assert(t.take(i as int).map_values(|c: char| if is_control(c) { '?' } else { c })
            =~= t.take((i - 1) as int).map_values(|c: char| if is_control(c) { '?' } else { c }).push(d));
    }
    assert(t.take(n as int) == t);
    r
}

/// The JSON error envelope, keys in ascending order (the order the JSON
/// serializer emits for an object map): optional `command`, `error`,
/// `exit_code`, `kind`, `message` (sanitized, at most 1000 characters),
/// optional `status`: the four envelope keys and the two optional extras.
pub open spec fn spec_error_envelope(e: BirdError) -> Seq<char> {
    let cmd = match e {
        BirdError::General { command: Some(name), .. } => "\"command\":"@ + json_string(name@)
            + ","@,
        _ => Seq::empty(),
    };
    let st = match e {
        BirdError::General { status: Some(s), .. } => ",\"status\":"@ + decimal_spec(s as nat),
        _ => Seq::empty(),
    };
    "{"@ + cmd + "\"error\":"@ + json_string(spec_error_id(e)) + ",\"exit_code\":"@
        + decimal_spec(spec_exit_code(e) as nat) + ",\"kind\":"@ + json_string(spec_kind(e))
        + ",\"message\":"@ + json_string(sanitize_spec(spec_message(e), 1000)) + st + "}"@
}

/// The line `print_error` writes for `e`.
pub open spec fn spec_error_line(cfg: OutputConfig, e: BirdError) -> Seq<char> {
    if !(cfg.format is Text) {
        spec_error_envelope(e)
    } else {
        spec_style(cfg.use_color, "\u{1b}[31m"@, spec_error_prefix(e), "\u{1b}[39m"@)
            + spec_message(e)
    }
}

/// Builds the JSON error envelope for `err`.
pub fn error_envelope(err: &BirdError) -> (r: String)
    ensures
        r@ == spec_error_envelope(*err),
{
    let mut s = owned("{");
    match err {
        BirdError::General { command: Some(name), .. } => {
            push_str(&mut s, "\"command\":");
            let q = json_quote(name);
            push_str(&mut s, q.as_str());
            push_str(&mut s, ",");
        },
        _ => {},
    }
    push_str(&mut s, "\"error\":");
    let q = json_quote(err.error_id());
    push_str(&mut s, q.as_str());
    push_str(&mut s, ",\"exit_code\":");
    let d = decimal(err.exit_code() as u64);
    push_str(&mut s, d.as_str());
    push_str(&mut s, ",\"kind\":");
    let q = json_quote(err.kind());
    push_str(&mut s, q.as_str());
    push_str(&mut s, ",\"message\":");
    let m = sanitize_for_stderr(err.message(), 1000);
    let q = json_quote(m.as_str());
    push_str(&mut s, q.as_str());
    match err {
        BirdError::General { status: Some(st), .. } => {
            push_str(&mut s, ",\"status\":");
            let d = decimal(*st as u64);
            push_str(&mut s, d.as_str());
        },
        _ => {},
    }
    push_str(&mut s, "}");
    proof {
        reveal_strlit("{");
        reveal_strlit("}");
        reveal_strlit(",");
    }
    s
}

/// Automatic color: stderr is a terminal, `NO_COLOR` is unset, and `TERM`
/// is not `dumb` (`term` is `TERM`'s value when it is set and valid text).
pub open spec fn spec_use_color_auto(stderr_tty: bool, no_color_set: bool, term: Option<Seq<char>>) -> bool {
    stderr_tty && !no_color_set && !(term matches Some(t) && t == "dumb"@)
}

/// The automatic color decision from the terminal and environment facts.
pub fn use_color_auto(stderr_tty: bool, no_color_set: bool, term: Option<&str>) -> (r: bool)
    ensures
        r == spec_use_color_auto(
            stderr_tty,
            no_color_set,
            match term {
                Some(t) => Some(t@),
                None => None,
            },
        ),
{
    let dumb = match term {
        Some(t) => str_eq(t, "dumb"),
        None => false,
    };
    stderr_tty && !no_color_set && !dumb
}

/// Resolve effective color usage for a given mode; `auto_color` is the
/// terminal/environment decision used for `Auto`.
pub fn resolve_color(mode: ColorMode, auto_color: bool) -> (r: bool)
    ensures
        r == match mode {
            ColorMode::Always => true,
            ColorMode::Never => false,
            ColorMode::Auto => auto_color,
        },
{
    match mode {
        ColorMode::Always => true,
        ColorMode::Never => false,
        ColorMode::Auto => auto_color,
    }
}

/// The success envelope `{"data":..,"meta":..}` around already serialized
/// JSON values (keys in sorted order, as a JSON map serializes them).
pub open spec fn spec_success_envelope(data_json: Seq<char>, meta_json: Seq<char>) -> Seq<char> {
    "{\"data\":"@ + data_json + ",\"meta\":"@ + meta_json + "}"@
}

/// Frames serialized `data` and `meta` as a success envelope.
pub fn success_envelope_string(data_json: &str, meta_json: &str) -> (r: String)
    ensures
        r@ == spec_success_envelope(data_json@, meta_json@),
{
    let mut r = owned("{\"data\":");
    push_str(&mut r, data_json);
    push_str(&mut r, ",\"meta\":");
    push_str(&mut r, meta_json);
    push_str(&mut r, "}");
    r
}

/// `s` wrapped in `open`/`close` escape sequences when `use_color`, unchanged otherwise.
pub open spec fn spec_style(use_color: bool, open: Seq<char>, s: Seq<char>, close: Seq<char>) -> Seq<char> {
    if use_color {
        open + s + close
    } else {
        s
    }
}

/// `s.bold().white()` rendered: white foreground around bold.
#[verifier::external_body]
fn paint_bold_white(s: &str) -> (r: String)
    ensures
        r@ == "\u{1b}[37m\u{1b}[1m"@ + s@ + "\u{1b}[0m\u{1b}[39m"@,
{
    s.bold().white().to_string()
}

/// `s.bold().cyan()` rendered: cyan foreground around bold.
#[verifier::external_body]
fn paint_bold_cyan(s: &str) -> (r: String)
    ensures
        r@ == "\u{1b}[36m\u{1b}[1m"@ + s@ + "\u{1b}[0m\u{1b}[39m"@,
{
    s.bold().cyan().to_string()
}

/// `s.bright_black()` rendered.
#[verifier::external_body]
fn paint_bright_black(s: &str) -> (r: String)
    ensures
        r@ == "\u{1b}[90m"@ + s@ + "\u{1b}[39m"@,
{
    s.bright_black().to_string()
}

/// `s.red()` rendered.
#[verifier::external_body]
fn paint_red(s: &str) -> (r: String)
    ensures
        r@ == "\u{1b}[31m"@ + s@ + "\u{1b}[39m"@,
{
    s.red().to_string()
}

/// `s.green()` rendered.
#[verifier::external_body]
fn paint_green(s: &str) -> (r: String)
    ensures
        r@ == "\u{1b}[32m"@ + s@ + "\u{1b}[39m"@,
{
    s.green().to_string()
}

/// `section` as text.
pub open spec fn spec_section(use_color: bool, s: Seq<char>) -> Seq<char> {
    spec_style(use_color, "\u{1b}[37m\u{1b}[1m"@, s, "\u{1b}[0m\u{1b}[39m"@)
}

/// `command` as text.
pub open spec fn spec_command(use_color: bool, s: Seq<char>) -> Seq<char> {
    spec_style(use_color, "\u{1b}[36m\u{1b}[1m"@, s, "\u{1b}[0m\u{1b}[39m"@)
}

/// `muted` as text.
pub open spec fn spec_muted(use_color: bool, s: Seq<char>) -> Seq<char> {
    spec_style(use_color, "\u{1b}[90m"@, s, "\u{1b}[39m"@)
}

/// `error` as text.
pub open spec fn spec_error_style(use_color: bool, s: Seq<char>) -> Seq<char> {
    spec_style(use_color, "\u{1b}[31m"@, s, "\u{1b}[39m"@)
}

/// `success` as text.
pub open spec fn spec_success(use_color: bool, s: Seq<char>) -> Seq<char> {
    spec_style(use_color, "\u{1b}[32m"@, s, "\u{1b}[39m"@)
}

/// Section header (bold white). When `use_color` is false, returns `s` unchanged.
pub fn section(s: &str, use_color: bool) -> (r: String)
    ensures
        r@ == spec_section(use_color, s@),
{
    if use_color {
        paint_bold_white(s)
    } else {
        owned(s)
    }
}

/// Command name (bold cyan).
pub fn command(s: &str, use_color: bool) -> (r: String)
    ensures
        r@ == spec_command(use_color, s@),
{
    if use_color {
        paint_bold_cyan(s)
    } else {
        owned(s)
    }
}

/// Muted/secondary text (bright black).
pub fn muted(s: &str, use_color: bool) -> (r: String)
    ensures
        r@ == spec_muted(use_color, s@),
{
    if use_color {
        paint_bright_black(s)
    } else {
        owned(s)
    }
}

/// Error prefix (red).
pub fn error(s: &str, use_color: bool) -> (r: String)
    ensures
        r@ == spec_error_style(use_color, s@),
{
    if use_color {
        paint_red(s)
    } else {
        owned(s)
    }
}

/// Success (green).
pub fn success(s: &str, use_color: bool) -> (r: String)
    ensures
        r@ == spec_success(use_color, s@),
{
    if use_color {
        paint_green(s)
    } else {
        owned(s)
    }
}

/// `line` without one trailing carriage return.
pub open spec fn strip_cr(line: Seq<char>) -> Seq<char> {
    if line.len() > 0 && line.last() == '\r' {
        line.drop_last()
    } else {
        line
    }
}

/// Piece `j` of the newline split as a line: a piece that a newline
/// follows loses one trailing `\r` (a `\r\n` ending); the last piece,
/// which no newline follows, keeps a bare `\r`.
pub open spec fn line_at(parts: Seq<Seq<char>>, j: int) -> Seq<char> {
    if j < parts.len() - 1 {
        strip_cr(parts[j])
    } else {
        parts[j]
    }
}

/// The lines of `s` as `str::lines` gives them: the pieces between
/// newlines, a `\r` dropped only where it stands before a newline, and no
/// final empty piece after a trailing newline.
pub open spec fn lines_spec(s: Seq<char>) -> Seq<Seq<char>> {
    let parts = split_spec(s, '\n');
    let n = if parts.last().len() == 0 { parts.len() - 1 } else { parts.len() as int };
    Seq::new(n as nat, |j: int| line_at(parts, j))
}

/// The lines that hold no escape character, in order.
pub open spec fn clean_lines(ls: Seq<Seq<char>>) -> Seq<Seq<char>>
    decreases ls.len(),
{
    if ls.len() == 0 {
        Seq::empty()
    } else {
        let prev = clean_lines(ls.drop_last());
        if ls.last().contains('\u{1b}') {
            prev
        } else {
            prev.push(ls.last())
        }
    }
}

/// Result of `strip_ansi_lines`.
pub open spec fn strip_ansi_spec(s: Seq<char>) -> Seq<char> {
    if !s.contains('\u{1b}') {
        s
    } else {
        join_spec(clean_lines(lines_spec(s)), seq!['\n'])
    }
}

fn has_esc(cs: &[char]) -> (r: bool)
    ensures
        r == cs@.contains('\u{1b}'),
{
    let mut i: usize = 0;
    while i < cs.len()
        invariant
            i <= cs@.len(),
            forall|j: int| 0 <= j < i ==> cs@[j] != '\u{1b}',
        decreases cs@.len() - i,
    {
        if cs[i] == '\u{1b}' {
            return true;
        }
        i = i + 1;
    }
    false
}

/// Strip lines containing ANSI escape sequences. Unchanged when no escape is present.
pub fn strip_ansi_lines(s: &str) -> (r: String)
    ensures
        r@ == strip_ansi_spec(s@),
{
    let cs = chars_of(s);
    if !has_esc(cs.as_slice()) {
        return owned(s);
    }
    let parts = split_char(cs.as_slice(), '\n');
    proof { lemma_split_nonempty(s@, '\n'); }
    let ghost sp = split_spec(s@, '\n');
    let ghost kept = if sp.last().len() == 0 { sp.drop_last() } else { sp };
    let n = if parts[parts.len() - 1].len() == 0 { parts.len() - 1 } else { parts.len() };
    assert(n == kept.len());
    let mut kept_lines: Vec<Vec<char>> = Vec::new();
    let mut i: usize = 0;
    while i < n
        invariant
            parts@.len() == sp.len(),
            forall|j: int| 0 <= j < parts@.len() ==> #[trigger] parts@[j]@ == sp[j],
            n == kept.len(),
            n <= parts@.len(),
            forall|j: int| 0 <= j < kept.len() ==> #[trigger] kept[j] == sp[j],
            i <= n,
            lines_spec(s@).len() == n,
            sp == split_spec(s@, '\n'),
            kept_lines@.len() == clean_lines(lines_spec(s@).take(i as int)).len(),
            forall|j: int|
                0 <= j < kept_lines@.len() ==> #[trigger] kept_lines@[j]@ == clean_lines(
                    lines_spec(s@).take(i as int),
                )[j],
        decreases n - i,
    {
        let p = &parts[i];
        let mut line: Vec<char> = Vec::new();
        let m = if i + 1 < parts.len() && p.len() > 0 && p[p.len() - 1] == '\r' {
            p.len() - 1
        } else {
            p.len()
        };
        let mut k: usize = 0;
        while k < m
            invariant
                m <= p@.len(),
                k <= m,
                line@ == p@.take(k as int),
            decreases m - k,
        {
            line.push(p[k]);
            k = k + 1;
            assert(p@.take(k as int) == p@.take((k - 1) as int).push(p@[k - 1]));
        }
        assert(line@ == line_at(sp, i as int)) by {
            if i + 1 < sp.len() && p@.len() > 0 && p@.last() == '\r' {
                assert(p@.take(m as int) == p@.drop_last());
            } else {
                assert(p@.take(m as int) == p@);
            }
        }
        let ghost prev = kept_lines@;
        let ghost lv = line@;
        let esc = has_esc(line.as_slice());
        if !esc {
            kept_lines.push(line);
        }
        i = i + 1;
        proof {
            let ms = lines_spec(s@).take(i as int);
            let ms0 = lines_spec(s@).take((i - 1) as int);
            assert(ms.drop_last() =~= ms0);
            assert(ms.last() == lines_spec(s@)[i - 1]);
            assert(lines_spec(s@)[i - 1] == line_at(split_spec(s@, '\n'), i - 1));
            assert(ms.last() == lv);
            assert(ms.len() > 0);
            assert(clean_lines(ms) == (if lv.contains('\u{1b}') {
                clean_lines(ms0)
            } else {
                clean_lines(ms0).push(lv)
            }));
        }
    }
    let nl: [char; 1] = ['\n'];
    let joined = join_chars(&kept_lines, nl.as_slice());
    proof {
        assert(nl@ =~= seq!['\n']);
        assert(lines_spec(s@).take(n as int) =~= lines_spec(s@));
        let cl = clean_lines(lines_spec(s@));
        assert(kept_lines@.map_values(|p: Vec<char>| p@) =~= cl);
        assert(joined@ == join_spec(cl, seq!['\n']));
    }
    string_of(joined.as_slice())
}

/// The lines of `s` as `str::lines` gives them (see [`lines_spec`]).
pub fn lines_of(s: &str) -> (r: Vec<Vec<char>>)
    ensures
        r@.map_values(|v: Vec<char>| v@) == lines_spec(s@),
{
    let cs = chars_of(s);
    let parts = split_char(cs.as_slice(), '\n');
    proof { lemma_split_nonempty(s@, '\n'); }
    let ghost sp = split_spec(s@, '\n');
    let ghost kept = if sp.last().len() == 0 { sp.drop_last() } else { sp };
    let n = if parts[parts.len() - 1].len() == 0 { parts.len() - 1 } else { parts.len() };
    assert(n == kept.len());
    let mut out: Vec<Vec<char>> = Vec::new();
    let mut i: usize = 0;
    while i < n
        invariant
            parts@.len() == sp.len(),
            forall|j: int| 0 <= j < parts@.len() ==> #[trigger] parts@[j]@ == sp[j],
            n == kept.len(),
            n <= parts@.len(),
            forall|j: int| 0 <= j < kept.len() ==> #[trigger] kept[j] == sp[j],
            i <= n,
            out@.len() == i,
            forall|j: int| 0 <= j < i ==> #[trigger] out@[j]@ == line_at(sp, j),
        decreases n - i,
    {
        let p = &parts[i];
        let m = if i + 1 < parts.len() && p.len() > 0 && p[p.len() - 1] == '\r' {
            p.len() - 1
        } else {
            p.len()
        };
        let line = crate::text::slice_vec(p.as_slice(), 0, m);
        assert(line@ == line_at(sp, i as int)) by {
            if i + 1 < sp.len() && p@.len() > 0 && p@.last() == '\r' {
                assert(p@.subrange(0, m as int) =~= p@.drop_last());
            } else {
                assert(p@.subrange(0, m as int) =~= p@);
            }
        }
        out.push(line);
        i = i + 1;
    }
    assert(out@.map_values(|v: Vec<char>| v@) =~= lines_spec(s@));
    out
}

/// Emoji for "available" when `use_emoji`; otherwise empty string.
pub fn emoji_available(use_emoji: bool) -> (r: &'static str)
    ensures
        use_emoji ==> r@ == "\u{2705} "@,
        !use_emoji ==> r@.len() == 0,
{
    proof { reveal_strlit(""); }
    if use_emoji {
        "\u{2705} "
    } else {
        ""
    }
}

/// Emoji for "unavailable" when `use_emoji`; otherwise empty string.
pub fn emoji_unavailable(use_emoji: bool) -> (r: &'static str)
    ensures
        use_emoji ==> r@ == "\u{274c} "@,
        !use_emoji ==> r@.len() == 0,
{
    proof { reveal_strlit(""); }
    if use_emoji {
        "\u{274c} "
    } else {
        ""
    }
}

/// Sanitized text is safe to show on a terminal: no control character
/// survives and at most `max` characters remain.
pub proof fn law_sanitized_text_is_terminal_safe(s: Seq<char>, max: nat)
    ensures
        sanitize_spec(s, max).len() <= max,
        sanitize_spec(s, max).len() <= s.len(),
        forall|i: int| 0 <= i < sanitize_spec(s, max).len() ==> !is_control(#[trigger] sanitize_spec(s, max)[i]),
{
}

} // verus!
