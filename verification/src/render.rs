//! Rendering of a buffered HTTP response for a terminal.
//!
//! With header echoing on, the output opens with a status line and one line
//! per header in received order, then a blank separator line. The body is
//! emitted only when it is valid, nonempty UTF-8 text; when some header named
//! `content-type` (case-insensitively) has the exact value
//! `application/json`, the body is pretty-printed as JSON, falling back to
//! the raw text when it is not valid JSON. Color only adds terminal escape
//! decoration around the status text and header names; it never alters the
//! text itself.

use vstd::prelude::*;
use vstd::string::*;
use vstd::utf8::{decode_utf8, valid_utf8};

use colored_json::ToColoredJson;

use crate::headers::headers_view;

verus! {

/// Whether terminal escape decoration is emitted: `Auto` decides by whether
/// standard output is a terminal.
#[derive(Clone, Copy, Debug, PartialEq, Eq, Structural)]
pub enum ColorMode {
    Auto,
    On,
    Off,
}

/// How one invocation displays the response.
#[derive(Clone, Copy, Debug, PartialEq, Eq, Structural)]
pub struct DisplayOptions {
    /// Echo the status line and the response headers before the body.
    pub include_headers: bool,
    /// Whether escape decoration is emitted.
    pub colors: ColorMode,
}

/// An HTTP response buffered whole into memory before rendering.
pub struct BufferedResponse {
    /// The numeric status code.
    pub status_code: u16,
    /// The reason phrase shown beside the code, such as `OK`.
    pub reason: String,
    /// The response headers in received order, names stored lowercased as
    /// the transport hands them over, duplicates allowed.
    pub headers: Vec<(String, String)>,
    /// The whole response body.
    pub body: Vec<u8>,
}

/// The mathematical shape of a [`BufferedResponse`].
pub struct ResponseView {
    pub status_code: u16,
    pub reason: Seq<char>,
    pub headers: Seq<(Seq<char>, Seq<char>)>,
    pub body: Seq<u8>,
}

impl View for BufferedResponse {
    type V = ResponseView;

    open spec fn view(&self) -> ResponseView {
        ResponseView {
            status_code: self.status_code,
            reason: self.reason@,
            headers: headers_view(self.headers@),
            body: self.body@,
        }
    }
}

/// A character with an ASCII upper-case letter mapped to its lower-case form.
pub open spec fn lower_char(c: char) -> char {
    match c {
        'A' => 'a',
        'B' => 'b',
        'C' => 'c',
        'D' => 'd',
        'E' => 'e',
        'F' => 'f',
        'G' => 'g',
        'H' => 'h',
        'I' => 'i',
        'J' => 'j',
        'K' => 'k',
        'L' => 'l',
        'M' => 'm',
        'N' => 'n',
        'O' => 'o',
        'P' => 'p',
        'Q' => 'q',
        'R' => 'r',
        'S' => 's',
        'T' => 't',
        'U' => 'u',
        'V' => 'v',
        'W' => 'w',
        'X' => 'x',
        'Y' => 'y',
        'Z' => 'z',
        _ => c,
    }
}

fn lower_char_exec(c: char) -> (r: char)
    ensures
        r == lower_char(c),
{
    match c {
        'A' => 'a',
        'B' => 'b',
        'C' => 'c',
        'D' => 'd',
        'E' => 'e',
        'F' => 'f',
        'G' => 'g',
        'H' => 'h',
        'I' => 'i',
        'J' => 'j',
        'K' => 'k',
        'L' => 'l',
        'M' => 'm',
        'N' => 'n',
        'O' => 'o',
        'P' => 'p',
        'Q' => 'q',
        'R' => 'r',
        'S' => 's',
        'T' => 't',
        'U' => 'u',
        'V' => 'v',
        'W' => 'w',
        'X' => 'x',
        'Y' => 'y',
        'Z' => 'z',
        _ => c,
    }
}

/// A string with each ASCII upper-case letter lowered.
pub open spec fn lower_seq(s: Seq<char>) -> Seq<char> {
    s.map_values(|c: char| lower_char(c))
}

/// Relies on String::push: appends the character to the end of the string.
#[verifier::external_body]
fn push_char(s: &mut String, c: char)
    ensures
        final(s)@ == old(s)@.push(c),
{
    s.push(c);
}

/// ASCII-lowercases a string.
fn lower_string(s: &str) -> (r: String)
    ensures
        r@ == lower_seq(s@),
{
    let n = s.unicode_len();
    let mut out = String::new();
    let mut i: usize = 0;
    proof {
        assert(out@ =~= lower_seq(s@.take(0)));
    }
    while i < n
        invariant
            0 <= i <= n,
            n == s@.len(),
            out@ == lower_seq(s@.take(i as int)),
        decreases n - i,
    {
        let c = lower_char_exec(s.get_char(i));
        push_char(&mut out, c);
        proof {
            assert(out@ =~= lower_seq(s@.take(i + 1)));
        }
        i = i + 1;
    }
    proof {
        assert(s@.take(n as int) =~= s@);
    }
    out
}

/// Whether some response header named `content-type` (compared without
/// regard to ASCII case) has the exact value `application/json`.
pub open spec fn is_json_content_type(headers: Seq<(Seq<char>, Seq<char>)>) -> bool {
    exists|i: int|
        0 <= i < headers.len() && lower_seq(headers[i].0) == "content-type"@ && headers[i].1
            == "application/json"@
}

fn has_json_content_type(headers: &Vec<(String, String)>) -> (r: bool)
    ensures
        r == is_json_content_type(headers_view(headers@)),
{
    let ct: String = "content-type".to_owned();
    let js: String = "application/json".to_owned();
    let ghost hv = headers_view(headers@);
    let mut k: usize = 0;
    while k < headers.len()
        invariant
            0 <= k <= headers@.len(),
            hv == headers_view(headers@),
            hv.len() == headers@.len(),
            ct@ == "content-type"@,
            js@ == "application/json"@,
            forall|j: int|
                0 <= j < k ==> !(lower_seq(hv[j].0) == "content-type"@ && hv[j].1
                    == "application/json"@),
        decreases headers@.len() - k,
    {
        let name = lower_string(headers[k].0.as_str());
        if name.eq(&ct) && headers[k].1.eq(&js) {
            proof {
                assert(hv[k as int] == (headers@[k as int].0@, headers@[k as int].1@));
                assert(0 <= k < hv.len() && lower_seq(hv[k as int].0) == "content-type"@
                    && hv[k as int].1 == "application/json"@);
            }
            return true;
        }
        k = k + 1;
    }
    false
}

/// The decimal digit character for a value below ten.
pub open spec fn digit_char(d: nat) -> char {
    if d == 0 {
        '0'
    } else if d == 1 {
        '1'
    } else if d == 2 {
        '2'
    } else if d == 3 {
        '3'
    } else if d == 4 {
        '4'
    } else if d == 5 {
        '5'
    } else if d == 6 {
        '6'
    } else if d == 7 {
        '7'
    } else if d == 8 {
        '8'
    } else {
        '9'
    }
}

/// The decimal digits of a number, most significant first, no leading zeros
/// (a single `0` for zero itself).
pub open spec fn dec_digits(n: nat) -> Seq<char>
    decreases n,
{
    if n < 10 {
        seq![digit_char(n)]
    } else {
        dec_digits(n / 10).push(digit_char(n % 10))
    }
}

/// Appends the decimal rendering of a number to a string.
fn push_decimal(out: &mut String, n: u16)
    ensures
        final(out)@ == old(out)@ + dec_digits(n as nat),
    decreases n,
{
    if n >= 10 {
        push_decimal(out, n / 10);
    }
    let d = n % 10;
    let c = if d == 0 {
        '0'
    } else if d == 1 {
        '1'
    } else if d == 2 {
        '2'
    } else if d == 3 {
        '3'
    } else if d == 4 {
        '4'
    } else if d == 5 {
        '5'
    } else if d == 6 {
        '6'
    } else if d == 7 {
        '7'
    } else if d == 8 {
        '8'
    } else {
        '9'
    };
    push_char(out, c);
    proof {
        assert(final(out)@ =~= old(out)@ + dec_digits(n as nat));
    }
}

/// Text wrapped in the terminal's bold escape decoration when color is on.
pub open spec fn bold(s: Seq<char>, color: bool) -> Seq<char> {
    if color {
        "\u{1b}[1m"@ + s + "\u{1b}[0m"@
    } else {
        s
    }
}

/// Text wrapped in the terminal's dimmed escape decoration when color is on.
pub open spec fn dimmed(s: Seq<char>, color: bool) -> Seq<char> {
    if color {
        "\u{1b}[2m"@ + s + "\u{1b}[0m"@
    } else {
        s
    }
}

/// The status text beside the protocol tag: the code, a space, the reason.
pub open spec fn status_text(r: ResponseView) -> Seq<char> {
    dec_digits(r.status_code as nat) + " "@ + r.reason
}

/// The echoed status line, emphasized when color is on.
pub open spec fn status_line(r: ResponseView, color: bool) -> Seq<char> {
    "HTTP/2 "@ + bold(status_text(r), color) + "\n"@
}

/// One echoed header line: the name (dimmed when color is on), a colon and a
/// space, then the value.
pub open spec fn header_line(h: (Seq<char>, Seq<char>), color: bool) -> Seq<char> {
    dimmed(h.0, color) + ": "@ + h.1 + "\n"@
}

/// The echoed header lines in received order.
pub open spec fn header_lines(headers: Seq<(Seq<char>, Seq<char>)>, color: bool) -> Seq<char>
    decreases headers.len(),
{
    if headers.len() == 0 {
        Seq::empty()
    } else {
        header_lines(headers.drop_last(), color) + header_line(headers.last(), color)
    }
}

/// The whole echoed block: status line, header lines, one blank separator.
pub open spec fn header_block(r: ResponseView, color: bool) -> Seq<char> {
    status_line(r, color) + header_lines(r.headers, color) + "\n"@
}

/// What formatting a body as JSON returns: the pretty-printed (and, when
/// color is on, escape-decorated) form, or nothing when the body is not
/// valid JSON. The result depends on the text and the color switch alone.
pub uninterp spec fn json_formatted(s: Seq<char>, color: bool) -> Option<Seq<char>>;

/// Relies on colored_json::ToColoredJson::to_colored_json: parses the text
/// as JSON and pretty-prints it, with escape decoration exactly when the
/// mode is on; it fails exactly when the text is not valid JSON, and the
/// outcome depends on the text and the mode alone.
#[verifier::external_body]
fn colorize_json(body: &str, color: bool) -> (r: Option<String>)
    ensures
        r is Some <==> json_formatted(body@, color) is Some,
        r matches Some(t) ==> Some(t@) == json_formatted(body@, color),
{
    let mode = if color {
        colored_json::ColorMode::On
    } else {
        colored_json::ColorMode::Off
    };
    body.to_colored_json(mode).ok()
}

/// Relies on String::from_utf8: succeeds exactly on valid UTF-8 input and
/// returns the text those bytes encode.
#[verifier::external_body]
fn bytes_to_text(b: &Vec<u8>) -> (r: Option<String>)
    ensures
        r is Some <==> valid_utf8(b@),
        r matches Some(t) ==> t@ == decode_utf8(b@),
{
    String::from_utf8(b.clone()).ok()
}

/// Relies on colored_json::ColorMode::use_color: resolves the automatic
/// color mode by whether standard output is a terminal.
#[verifier::external_body]
fn color_auto() -> bool {
    colored_json::ColorMode::Auto(colored_json::Output::StdOut).use_color()
}

/// The body segment of the rendered output: nothing when the body is not
/// valid UTF-8 text or is empty; the JSON-formatted text when a JSON
/// content type is declared and the body parses as JSON; the raw text
/// otherwise, unmodified.
pub open spec fn body_block(r: ResponseView, color: bool) -> Seq<char> {
    if !valid_utf8(r.body) {
        Seq::empty()
    } else {
        let t = decode_utf8(r.body);
        if t.len() == 0 {
            Seq::empty()
        } else if is_json_content_type(r.headers) {
            match json_formatted(t, color) {
                Some(fm) => fm,
                None => t,
            }
        } else {
            t
        }
    }
}

/// The whole rendered output: the echoed block when header echoing is on,
/// then the body segment. No trailing newline is added here; the caller
/// terminates the output with exactly one.
pub open spec fn render_spec(r: ResponseView, include_headers: bool, color: bool) -> Seq<char> {
    (if include_headers {
        header_block(r, color)
    } else {
        Seq::empty()
    }) + body_block(r, color)
}

/// Renders a buffered response with the color decision already resolved.
pub fn render_with(resp: &BufferedResponse, include_headers: bool, color: bool) -> (out: String)
    ensures
        out@ == render_spec(resp@, include_headers, color),
{
    let mut out = String::new();
    if include_headers {
        out.append("HTTP/2 ");
        if color {
            out.append("\u{1b}[1m");
        }
        push_decimal(&mut out, resp.status_code);
        out.append(" ");
        out.append(resp.reason.as_str());
        if color {
            out.append("\u{1b}[0m");
        }
        out.append("\n");
        proof {
            assert(out@ =~= status_line(resp@, color));
        }
        let ghost sl = status_line(resp@, color);
        let ghost hv = headers_view(resp.headers@);
        let mut k: usize = 0;
        while k < resp.headers.len()
            invariant
                0 <= k <= resp.headers@.len(),
                hv == headers_view(resp.headers@),
                hv.len() == resp.headers@.len(),
                sl == status_line(resp@, color),
                out@ == sl + header_lines(hv.take(k as int), color),
            decreases resp.headers@.len() - k,
        {
            let ghost before = out@;
            if color {
                out.append("\u{1b}[2m");
            }
            out.append(resp.headers[k].0.as_str());
            if color {
                out.append("\u{1b}[0m");
            }
            out.append(": ");
            out.append(resp.headers[k].1.as_str());
            out.append("\n");
            proof {
                assert(out@ =~= before + header_line(hv[k as int], color));
                assert(hv.take(k + 1).drop_last() =~= hv.take(k as int));
                assert(hv.take(k + 1).last() == hv[k as int]);
                assert(out@ =~= sl + header_lines(hv.take(k + 1), color));
            }
            k = k + 1;
        }
        out.append("\n");
        proof {
            assert(hv.take(resp.headers@.len() as int) =~= hv);
            assert(out@ =~= header_block(resp@, color));
        }
    }
    let ghost head = out@;
    match bytes_to_text(&resp.body) {
        None => {},
        Some(t) => {
            if !t.as_str().is_empty() {
                if has_json_content_type(&resp.headers) {
                    match colorize_json(t.as_str(), color) {
                        Some(fm) => out.append(fm.as_str()),
                        None => out.append(t.as_str()),
                    }
                } else {
                    out.append(t.as_str());
                }
            }
        },
    }
    proof {
        assert(out@ =~= head + body_block(resp@, color));
        assert(out@ =~= render_spec(resp@, include_headers, color));
    }
    out
}

/// Renders a buffered response for the terminal. With the automatic color
/// mode the escape decoration depends on where standard output goes, so the
/// output is one of the two resolved renderings.
pub fn render(resp: &BufferedResponse, options: DisplayOptions) -> (out: String)
    ensures
        options.colors is On ==> out@ == render_spec(resp@, options.include_headers, true),
        options.colors is Off ==> out@ == render_spec(resp@, options.include_headers, false),
        out@ == render_spec(resp@, options.include_headers, true) || out@ == render_spec(
            resp@,
            options.include_headers,
            false,
        ),
{
    let color = match options.colors {
        ColorMode::On => true,
        ColorMode::Off => false,
        ColorMode::Auto => color_auto(),
    };
    render_with(resp, options.include_headers, color)
}

/// Law: with header echoing off, the rendered output is exactly the body
/// segment: no status line and no header line is emitted.
pub proof fn lemma_no_header_echo(r: ResponseView, color: bool)
    ensures
        render_spec(r, false, color) == body_block(r, color),
{
    assert(render_spec(r, false, color) =~= body_block(r, color));
}

/// Law: when the response declares a JSON content type but the body text is
/// not valid JSON, the body segment is the raw body text, unmodified.
pub proof fn lemma_invalid_json_falls_back(r: ResponseView, color: bool)
    ensures
        valid_utf8(r.body) && decode_utf8(r.body).len() > 0 && is_json_content_type(r.headers)
            && json_formatted(decode_utf8(r.body), color) is None ==> body_block(r, color)
            == decode_utf8(r.body),
{
}

impl BufferedResponse {
    /// A response with the given status and no headers and an empty body.
    pub fn new(status_code: u16, reason: String) -> (r: BufferedResponse)
        ensures
            r@.status_code == status_code,
            r@.reason == reason@,
            r@.headers == Seq::<(Seq<char>, Seq<char>)>::empty(),
            r@.body == Seq::<u8>::empty(),
    {
        let r = BufferedResponse { status_code, reason, headers: Vec::new(), body: Vec::new() };
        proof {
            assert(r@.headers =~= Seq::<(Seq<char>, Seq<char>)>::empty());
        }
        r
    }

    /// Appends a received header, storing the name ASCII-lowercased as the
    /// transport's header table does.
    pub fn add_header(&mut self, name: &str, value: String)
        ensures
            final(self)@.headers == old(self)@.headers.push((lower_seq(name@), value@)),
            final(self)@.status_code == old(self)@.status_code,
            final(self)@.reason == old(self)@.reason,
            final(self)@.body == old(self)@.body,
    {
        let lowered = lower_string(name);
        self.headers.push((lowered, value));
        proof {
            assert(final(self)@.headers =~= old(self)@.headers.push((lower_seq(name@), value@)));
        }
    }

    /// Replaces the body with the given bytes.
    pub fn set_body(&mut self, body: Vec<u8>)
        ensures
            final(self)@.body == body@,
            final(self)@.status_code == old(self)@.status_code,
            final(self)@.reason == old(self)@.reason,
            final(self)@.headers == old(self)@.headers,
    {
        self.body = body;
    }
}

} // verus!
