//! Tool results and the PowerShell scripts the desktop tools run.
//!
//! Running a script is the caller's business; this module builds the exact
//! script text for each tool and interprets what the script printed.
use vstd::prelude::*;

use crate::text::{
    cat, cat3, cat5, chars_of, decimal, decimal_string, escape_quotes, expand, lemma_expand_take, owned,
    quote_escaped, str_eq,
    string_of, trim, trimmed,
};

verus! {

// ── Tool result ────────────────────────────────────────────────────────────

/// What a tool reports back to the agent.
#[derive(Debug, Clone)]
pub struct ToolResult {
    pub success: bool,
    pub result: String,
    pub is_image: Option<bool>,
    /// Base64 PNG when `is_image` is `Some(true)`.
    pub image: Option<String>,
    /// The text came from outside (a web page) and must be read as data,
    /// not as instructions.
    pub untrusted: bool,
}

/// The mathematical value of a [`ToolResult`].
pub struct ToolResultView {
    pub success: bool,
    pub result: Seq<char>,
    pub is_image: Option<bool>,
    pub image: Option<Seq<char>>,
    pub untrusted: bool,
}

impl View for ToolResult {
    type V = ToolResultView;

    open spec fn view(&self) -> ToolResultView {
        ToolResultView {
            success: self.success,
            result: self.result@,
            is_image: self.is_image,
            image: self.image.deep_view(),
            untrusted: self.untrusted,
        }
    }
}

/// A successful text result.
pub open spec fn ok_view(text: Seq<char>) -> ToolResultView {
    ToolResultView { success: true, result: text, is_image: None, image: None, untrusted: false }
}

/// A failed text result.
pub open spec fn err_view(text: Seq<char>) -> ToolResultView {
    ToolResultView { success: false, result: text, is_image: None, image: None, untrusted: false }
}

impl ToolResult {
    /// A successful result carrying `result`.
    pub fn ok(result: String) -> (r: Self)
        ensures
            r@ == ok_view(result@),
    {
        ToolResult { success: true, result, is_image: None, image: None, untrusted: false }
    }

    /// A failed result carrying `result`.
    pub fn err(result: String) -> (r: Self)
        ensures
            r@ == err_view(result@),
    {
        ToolResult { success: false, result, is_image: None, image: None, untrusted: false }
    }

    /// A successful image result with an empty text and the base64 PNG `b64`.
    pub fn image(b64: String) -> (r: Self)
        ensures
            r@ == (ToolResultView {
                success: true,
                result: Seq::empty(),
                is_image: Some(true),
                image: Some(b64@),
                untrusted: false,
            }),
    {
        ToolResult {
            success: true,
            result: String::new(),
            is_image: Some(true),
            image: Some(b64),
            untrusted: false,
        }
    }

    /// A successful result carrying text from outside (a web page), marked
    /// untrusted.
    pub fn untrusted(result: String) -> (r: Self)
        ensures
            r@ == (ToolResultView { untrusted: true, ..ok_view(result@) }),
    {
        ToolResult { success: true, result, is_image: None, image: None, untrusted: true }
    }
}

// ── Running PowerShell: encoding and outcome ───────────────────────────────

/// Text reported for a command that printed nothing.
pub const DONE: &'static str = "Done.";

/// How the output of a finished PowerShell process is reported: its trimmed
/// standard error as a failure when that is non-empty and the exit code is
/// not 0, else its trimmed standard output (or `Done.` when that is empty).
pub open spec fn outcome_view(stdout: Seq<char>, stderr: Seq<char>, exit_ok: bool) -> ToolResultView {
    if trimmed(stderr).len() > 0 && !exit_ok {
        err_view(trimmed(stderr))
    } else if trimmed(stdout).len() == 0 {
        ok_view(DONE@)
    } else {
        ok_view(trimmed(stdout))
    }
}

/// Interprets the output of a finished PowerShell process; `exit_ok` is
/// whether its exit code was 0.
pub fn command_outcome(stdout: &str, stderr: &str, exit_ok: bool) -> (r: ToolResult)
    ensures
        r@ == outcome_view(stdout@, stderr@, exit_ok),
{
    let out = trim(stdout);
    let err = trim(stderr);
    if err.as_str().unicode_len() > 0 && !exit_ok {
        ToolResult::err(err)
    } else if out.as_str().unicode_len() == 0 {
        ToolResult::ok(owned(DONE))
    } else {
        ToolResult::ok(out)
    }
}

/// The UTF-16 code units of one character.
pub open spec fn utf16_units(c: char) -> Seq<u16> {
    let v = c as u32 as int;
    if v < 0x10000 {
        seq![v as u16]
    } else {
        let w = v - 0x10000;
        seq![(0xD800 + w / 0x400) as u16, (0xDC00 + w % 0x400) as u16]
    }
}

/// The little-endian bytes of one UTF-16 code unit.
pub open spec fn le_bytes(u: u16) -> Seq<u8> {
    seq![(u % 256) as u8, (u / 256) as u8]
}

/// The UTF-16LE bytes of one character.
pub open spec fn utf16le_piece(c: char) -> Seq<u8> {
    let units = utf16_units(c);
    if units.len() == 1 {
        le_bytes(units[0])
    } else {
        le_bytes(units[0]) + le_bytes(units[1])
    }
}

/// The UTF-16LE encoding of a text.
pub open spec fn utf16le(s: Seq<char>) -> Seq<u8> {
    expand(s, |c: char| utf16le_piece(c))
}

/// The UTF-16LE encoding of `s`.
pub fn utf16le_bytes(s: &str) -> (r: Vec<u8>)
    ensures
        r@ == utf16le(s@),
{
    let cs = chars_of(s);
    let mut out: Vec<u8> = Vec::new();
    let mut i: usize = 0;
    while i < cs.len()
        invariant
            i <= cs@.len(),
            cs@ == s@,
            out@ == utf16le(cs@.take(i as int)),
        decreases cs@.len() - i,
    {
        let c = cs[i];
        proof {
            lemma_expand_take(cs@, i as int, |c: char| utf16le_piece(c));
        }
        let v = c as u32;
        if v < 0x10000 {
            let u = v as u16;
            out.push((u % 256) as u8);
            out.push((u / 256) as u8);
        } else {
            let w = v - 0x10000;
            let hi = (0xD800 + w / 0x400) as u16;
            let lo = (0xDC00 + w % 0x400) as u16;
            out.push((hi % 256) as u8);
            out.push((hi / 256) as u8);
            out.push((lo % 256) as u8);
            out.push((lo / 256) as u8);
        }
        assert(out@ =~= utf16le(cs@.take(i as int)) + utf16le_piece(c));
        i = i + 1;
    }
    assert(cs@.take(cs@.len() as int) =~= cs@);
    out
}

/// The character of a six-bit value in the standard base64 alphabet
/// (`A`–`Z`, `a`–`z`, `0`–`9`, `+`, `/`).
pub open spec fn b64_digit(v: int) -> char {
    if v < 26 {
        (65 + v) as char
    } else if v < 52 {
        (97 + v - 26) as char
    } else if v < 62 {
        (48 + v - 52) as char
    } else if v == 62 {
        '+'
    } else {
        '/'
    }
}

/// Standard base64 with padding (RFC 4648): every three bytes become four
/// characters of six bits each; one or two final bytes are padded with `=`.
pub open spec fn base64_of(b: Seq<u8>) -> Seq<char>
    decreases b.len(),
{
    if b.len() == 0 {
        Seq::empty()
    } else if b.len() == 1 {
        seq![b64_digit(b[0] as int / 4), b64_digit((b[0] as int % 4) * 16), '=', '=']
    } else if b.len() == 2 {
        seq![
            b64_digit(b[0] as int / 4),
            b64_digit((b[0] as int % 4) * 16 + b[1] as int / 16),
            b64_digit((b[1] as int % 16) * 4),
            '=',
        ]
    } else {
        seq![
            b64_digit(b[0] as int / 4),
            b64_digit((b[0] as int % 4) * 16 + b[1] as int / 16),
            b64_digit((b[1] as int % 16) * 4 + b[2] as int / 64),
            b64_digit(b[2] as int % 64),
        ] + base64_of(b.skip(3))
    }
}

/// Calls `base64::Engine::encode` on the standard engine, which encodes
/// with the RFC 4648 alphabet and pads with `=`.
#[verifier::external_body]
fn base64_encode(bytes: &[u8]) -> (r: String)
    ensures
        r@ == base64_of(bytes@),
{
    base64::Engine::encode(&base64::engine::general_purpose::STANDARD, bytes)
}

/// The argument of `powershell -EncodedCommand` for a script: the base64 of
/// its UTF-16LE bytes.
pub fn encode_command(command: &str) -> (r: String)
    ensures
        r@ == base64_of(utf16le(command@)),
{
    let bytes = utf16le_bytes(command);
    base64_encode(bytes.as_slice())
}

// ── Decoding the encoded command ───────────────────────────────────────────

/// The six-bit value of a base64 digit (inverse of [`b64_digit`]).
pub open spec fn b64_value(c: char) -> int {
    let x = c as u32 as int;
    if 65 <= x <= 90 {
        x - 65
    } else if 97 <= x <= 122 {
        x - 97 + 26
    } else if 48 <= x <= 57 {
        x - 48 + 52
    } else if c == '+' {
        62
    } else {
        63
    }
}

/// Standard base64 decoding: each group of four characters gives three
/// bytes, or fewer where the group ends in `=` padding.
pub open spec fn base64_decode(e: Seq<char>) -> Seq<u8>
    decreases e.len(),
{
    if e.len() < 4 {
        Seq::empty()
    } else {
        let a = b64_value(e[0]);
        let b = b64_value(e[1]);
        let c = b64_value(e[2]);
        let d = b64_value(e[3]);
        let x0 = (a * 4 + b / 16) as u8;
        let x1 = ((b % 16) * 16 + c / 4) as u8;
        if e[2] == '=' {
            seq![x0]
        } else if e[3] == '=' {
            seq![x0, x1]
        } else {
            seq![x0, x1, ((c % 4) * 64 + d) as u8] + base64_decode(e.skip(4))
        }
    }
}

/// UTF-16LE decoding, read from the end: a final low surrogate joins the
/// unit before it into one character.
pub open spec fn utf16le_decode(b: Seq<u8>) -> Seq<char>
    decreases b.len(),
{
    if b.len() < 2 {
        Seq::empty()
    } else {
        let n = b.len() as int;
        let u = b[n - 2] as int + 256 * (b[n - 1] as int);
        if 0xDC00 <= u < 0xE000 && n >= 4 {
            let h = b[n - 4] as int + 256 * (b[n - 3] as int);
            utf16le_decode(b.take(n - 4)).push(
                ((0x10000 + (h - 0xD800) * 0x400 + (u - 0xDC00)) as u32) as char,
            )
        } else {
            utf16le_decode(b.take(n - 2)).push((u as u32) as char)
        }
    }
}

/// What PowerShell recovers from an `-EncodedCommand` argument.
pub open spec fn decoded_command(e: Seq<char>) -> Seq<char> {
    utf16le_decode(base64_decode(e))
}

proof fn lemma_b64_digit_value(v: int)
    requires
        0 <= v < 64,
    ensures
        b64_value(b64_digit(v)) == v,
        b64_digit(v) != '=',
{
    if v < 26 {
        assert(((65 + v) as char) as u32 as int == 65 + v);
    } else if v < 52 {
        assert(((97 + v - 26) as char) as u32 as int == 97 + v - 26);
    } else if v < 62 {
        assert(((48 + v - 52) as char) as u32 as int == 48 + v - 52);
    }
}

proof fn lemma_base64_round_trip(b: Seq<u8>)
    ensures
        base64_decode(base64_of(b)) == b,
    decreases b.len(),
{
    let e = base64_of(b);
    if b.len() == 0 {
    } else if b.len() == 1 {
        let b0 = b[0] as int;
        lemma_b64_digit_value(b0 / 4);
        lemma_b64_digit_value((b0 % 4) * 16);
        assert(e[2] == '=');
        assert(base64_decode(e) =~= b);
    } else if b.len() == 2 {
        let b0 = b[0] as int;
        let b1 = b[1] as int;
        lemma_b64_digit_value(b0 / 4);
        lemma_b64_digit_value((b0 % 4) * 16 + b1 / 16);
        lemma_b64_digit_value((b1 % 16) * 4);
        assert(base64_decode(e) =~= b);
    } else {
        let b0 = b[0] as int;
        let b1 = b[1] as int;
        let b2 = b[2] as int;
        lemma_b64_digit_value(b0 / 4);
        lemma_b64_digit_value((b0 % 4) * 16 + b1 / 16);
        lemma_b64_digit_value((b1 % 16) * 4 + b2 / 64);
        lemma_b64_digit_value(b2 % 64);
        lemma_base64_round_trip(b.skip(3));
        assert(e.skip(4) =~= base64_of(b.skip(3)));
        assert(base64_decode(e) =~= b);
    }
}

proof fn lemma_utf16le_round_trip(s: Seq<char>)
    ensures
        utf16le_decode(utf16le(s)) == s,
    decreases s.len(),
{
    if s.len() > 0 {
        let p = s.drop_last();
        let c = s.last();
        lemma_utf16le_round_trip(p);
        let bp = utf16le(p);
        let piece = utf16le_piece(c);
        let b = bp + piece;
        assert(utf16le(s) == b);
        let v = c as u32 as int;
        let n = b.len() as int;
        vstd::utf8::char_is_scalar(c);
        vstd::utf8::char_u32_cast(c, c as u32);
        if v < 0x10000 {
            assert(b.take(n - 2) =~= bp);
            assert(((v as u32) as char) == c);
        } else {
            let w = v - 0x10000;
            assert(b.take(n - 4) =~= bp);
            assert(0x10000 + (w / 0x400) * 0x400 + w % 0x400 == v);
            assert((((0x10000 + (w / 0x400) * 0x400 + w % 0x400) as u32) as char) == c);
        }
        assert(p.push(c) =~= s);
    }
}

/// Law: decoding the argument given to `-EncodedCommand` (base64, then
/// UTF-16LE) gives back the command exactly.
pub proof fn law_encoded_command_round_trip(command: Seq<char>)
    ensures
        decoded_command(base64_of(utf16le(command))) == command,
{
    lemma_base64_round_trip(utf16le(command));
    lemma_utf16le_round_trip(command);
}

// ── type_text ──────────────────────────────────────────────────────────────

/// Whether `SendKeys` treats a character specially.
pub open spec fn sendkeys_special(c: char) -> bool {
    c == '+' || c == '^' || c == '%' || c == '~' || c == '(' || c == ')' || c == '{' || c == '}'
        || c == '[' || c == ']'
}

/// How one character is written for `SendKeys`: special characters are
/// braced, newline and tab become `{ENTER}` and `{TAB}`.
pub open spec fn sendkeys_piece(c: char) -> Seq<char> {
    if sendkeys_special(c) {
        seq!['{', c, '}']
    } else if c == '\n' {
        seq!['{', 'E', 'N', 'T', 'E', 'R', '}']
    } else if c == '\t' {
        seq!['{', 'T', 'A', 'B', '}']
    } else {
        seq![c]
    }
}

/// A text escaped for `SendKeys`.
pub open spec fn sendkeys_escaped(s: Seq<char>) -> Seq<char> {
    expand(s, |c: char| sendkeys_piece(c))
}

fn sendkeys_escape(s: &str) -> (r: String)
    ensures
        r@ == sendkeys_escaped(s@),
{
    let cs = chars_of(s);
    let mut out: Vec<char> = Vec::new();
    let mut i: usize = 0;
    while i < cs.len()
        invariant
            i <= cs@.len(),
            cs@ == s@,
            out@ == sendkeys_escaped(cs@.take(i as int)),
        decreases cs@.len() - i,
    {
        let c = cs[i];
        proof {
            lemma_expand_take(cs@, i as int, |c: char| sendkeys_piece(c));
        }
        if c == '+' || c == '^' || c == '%' || c == '~' || c == '(' || c == ')' || c == '{' || c
            == '}' || c == '[' || c == ']' {
            out.push('{');
            out.push(c);
            out.push('}');
        } else if c == '\n' {
            out.push('{');
            out.push('E');
            out.push('N');
            out.push('T');
            out.push('E');
            out.push('R');
            out.push('}');
        } else if c == '\t' {
            out.push('{');
            out.push('T');
            out.push('A');
            out.push('B');
            out.push('}');
        } else {
            out.push(c);
        }
        assert(out@ =~= sendkeys_escaped(cs@.take(i as int)) + sendkeys_piece(c));
        i = i + 1;
    }
    assert(cs@.take(cs@.len() as int) =~= cs@);
    string_of(out.as_slice())
}

/// Opening of the typing script.
pub const TYPE_HEAD: &'static str = "Add-Type -AssemblyName System.Windows.Forms; Start-Sleep -Milliseconds 600; [System.Windows.Forms.SendKeys]::SendWait('";

/// Closing of the typing script.
pub const TYPE_TAIL: &'static str = "')";

/// The script that types `text` at the cursor: quotes doubled, then
/// `SendKeys` specials escaped, inside a `SendWait('…')` call.
pub open spec fn type_text_script(text: Seq<char>) -> Seq<char> {
    TYPE_HEAD@ + sendkeys_escaped(quote_escaped(text)) + TYPE_TAIL@
}

/// The PowerShell script that types `text` at the current cursor position.
pub fn type_text(text: &str) -> (r: String)
    ensures
        r@ == type_text_script(text@),
{
    let safe = escape_quotes(text);
    let escaped = sendkeys_escape(safe.as_str());
    cat3(TYPE_HEAD, escaped.as_str(), TYPE_TAIL)
}

// ── list_windows / focus_window / close_app ────────────────────────────────

/// The script that lists the windows that have a title.
pub const LIST_WINDOWS: &'static str = "Get-Process | Where-Object {$_.MainWindowTitle -ne ''} | Select-Object ProcessName, MainWindowTitle, Id | Format-Table -AutoSize | Out-String -Width 300";

/// The PowerShell script that lists all open windows.
pub fn list_windows() -> (r: String)
    ensures
        r@ == LIST_WINDOWS@,
{
    owned(LIST_WINDOWS)
}

/// Focus script, up to the first copy of the title.
pub const FOCUS_HEAD: &'static str = r#"
Add-Type @"
  using System;
  using System.Runtime.InteropServices;
  public class WinAPI {
    [DllImport("user32.dll")] public static extern bool SetForegroundWindow(IntPtr hWnd);
    [DllImport("user32.dll")] public static extern bool ShowWindow(IntPtr hWnd, int nCmdShow);
  }
"@
$proc = Get-Process | Where-Object { $_.MainWindowTitle -like '*"#;

/// Focus script, between the two copies of the title.
pub const FOCUS_MID: &'static str = r#"*' } | Select-Object -First 1
if ($proc) {
  [WinAPI]::ShowWindow($proc.MainWindowHandle, 9)
  [WinAPI]::SetForegroundWindow($proc.MainWindowHandle)
  "Focused: " + $proc.MainWindowTitle
} else {
  "No window found matching '"#;

/// Focus script, after the second copy of the title.
pub const FOCUS_TAIL: &'static str = r#"'"
}"#;

/// The script that brings the first window whose title contains `title` to
/// the foreground (the title quote-escaped in both places it appears).
pub open spec fn focus_window_script(title: Seq<char>) -> Seq<char> {
    FOCUS_HEAD@ + quote_escaped(title) + FOCUS_MID@ + quote_escaped(title) + FOCUS_TAIL@
}

/// The PowerShell script that brings a window to the foreground by partial title.
pub fn focus_window(title: &str) -> (r: String)
    ensures
        r@ == focus_window_script(title@),
{
    let safe = escape_quotes(title);
    cat5(FOCUS_HEAD, safe.as_str(), FOCUS_MID, safe.as_str(), FOCUS_TAIL)
}

/// Close script, before the process name.
pub const CLOSE_HEAD: &'static str = "Get-Process -Name '*";

/// Close script, after the process name.
pub const CLOSE_TAIL: &'static str = "*' -ErrorAction SilentlyContinue | Stop-Process -Force -PassThru | Select-Object ProcessName";

/// The script that force-stops every process whose name contains `name`.
pub open spec fn close_app_script(name: Seq<char>) -> Seq<char> {
    CLOSE_HEAD@ + quote_escaped(name) + CLOSE_TAIL@
}

/// The PowerShell script that closes a running app by process name.
pub fn close_app(name: &str) -> (r: String)
    ensures
        r@ == close_app_script(name@),
{
    let safe = escape_quotes(name);
    cat3(CLOSE_HEAD, safe.as_str(), CLOSE_TAIL)
}

/// Start of the message for a close that stopped nothing.
pub const NO_PROCESS: &'static str = "No process found matching '";

/// What `close_app` reports: a successful run that printed only whitespace
/// means no process matched; anything else is passed through.
pub open spec fn close_outcome_view(name: Seq<char>, ran: ToolResultView) -> ToolResultView {
    if ran.success && trimmed(ran.result).len() == 0 {
        ok_view(NO_PROCESS@ + name + seq!['\''])
    } else {
        ran
    }
}

/// Interprets the result of running the close script for `name`.
pub fn close_app_outcome(name: &str, ran: ToolResult) -> (r: ToolResult)
    ensures
        r@ == close_outcome_view(name@, ran@),
{
    proof {
        reveal_strlit("'");
        assert("'"@ =~= seq!['\'']);
    }
    if ran.success && trim(ran.result.as_str()).as_str().unicode_len() == 0 {
        ToolResult::ok(cat3(NO_PROCESS, name, "'"))
    } else {
        ran
    }
}

// ── search_files ───────────────────────────────────────────────────────────

/// Search script, before the directory.
pub const SEARCH_HEAD: &'static str = "Get-ChildItem -Path '";

/// Search script, between the directory and the query.
pub const SEARCH_MID: &'static str = "' -Recurse -Filter '*";

/// Search script, after the query.
pub const SEARCH_TAIL: &'static str = "*' -ErrorAction SilentlyContinue -Depth 4 | Select-Object -First 15 FullName, Length, LastWriteTime | Format-Table -AutoSize | Out-String -Width 300";

/// The script that searches `dir` (four levels deep) for names containing
/// `query` and lists the first fifteen.
pub open spec fn search_files_script(query: Seq<char>, dir: Seq<char>) -> Seq<char> {
    SEARCH_HEAD@ + quote_escaped(dir) + SEARCH_MID@ + quote_escaped(query) + SEARCH_TAIL@
}

/// The directory searched: the one given, else the user's profile directory `home`.
pub open spec fn search_dir(directory: Option<Seq<char>>, home: Seq<char>) -> Seq<char> {
    match directory {
        Some(d) => d,
        None => home,
    }
}

/// The PowerShell script that searches for files by name; `home` is the
/// directory searched when none is given.
pub fn search_files(query: &str, directory: Option<&str>, home: &str) -> (r: String)
    ensures
        r@ == search_files_script(
            query@,
            search_dir(
                match directory {
                    Some(d) => Some(d@),
                    None => None,
                },
                home@,
            ),
        ),
{
    let dir = match directory {
        Some(d) => d,
        None => home,
    };
    let safe_dir = escape_quotes(dir);
    let safe_query = escape_quotes(query);
    cat5(SEARCH_HEAD, safe_dir.as_str(), SEARCH_MID, safe_query.as_str(), SEARCH_TAIL)
}

/// Start of the message for a search that found nothing.
pub const NO_FILES: &'static str = "No files found matching '";

/// What `search_files` reports: a successful run that printed only
/// whitespace becomes a "no files found" message.
pub open spec fn search_outcome_view(query: Seq<char>, ran: ToolResultView) -> ToolResultView {
    if ran.success && trimmed(ran.result).len() == 0 {
        ToolResultView { result: NO_FILES@ + query + seq!['\''], ..ran }
    } else {
        ran
    }
}

/// Interprets the result of running the search script for `query`.
pub fn search_files_outcome(query: &str, ran: ToolResult) -> (r: ToolResult)
    ensures
        r@ == search_outcome_view(query@, ran@),
{
    proof {
        reveal_strlit("'");
        assert("'"@ =~= seq!['\'']);
    }
    let mut ran = ran;
    if ran.success && trim(ran.result.as_str()).as_str().unicode_len() == 0 {
        ran.result = cat3(NO_FILES, query, "'");
    }
    ran
}

// ── open_app ───────────────────────────────────────────────────────────────

/// `s` ends with `p`.
pub open spec fn has_suffix(s: Seq<char>, p: Seq<char>) -> bool {
    p.len() <= s.len() && crate::text::occurs_at(s, p, s.len() - p.len())
}

fn ends_with(s: &str, p: &str) -> (r: bool)
    ensures
        r == has_suffix(s@, p@),
{
    let a = chars_of(s);
    let b = chars_of(p);
    if b.len() > a.len() {
        return false;
    }
    crate::text::matches_at(a.as_slice(), b.as_slice(), a.len() - b.len())
}

/// How an application is started.
pub enum Launch {
    /// Start the executable at `path` with `args`.
    Spawn { path: String, args: Vec<String> },
    /// Start the first of these Chrome locations that exists (the second
    /// when none does).
    Chrome { candidates: Vec<String> },
    /// Run this PowerShell script.
    Script(String),
}

/// The mathematical value of a [`Launch`].
pub enum LaunchView {
    Spawn { path: Seq<char>, args: Seq<Seq<char>> },
    Chrome { candidates: Seq<Seq<char>> },
    Script(Seq<char>),
}

impl View for Launch {
    type V = LaunchView;

    open spec fn view(&self) -> LaunchView {
        match self {
            Launch::Spawn { path, args } => LaunchView::Spawn { path: path@, args: args.deep_view() },
            Launch::Chrome { candidates } => LaunchView::Chrome { candidates: candidates.deep_view() },
            Launch::Script(s) => LaunchView::Script(s@),
        }
    }
}

pub const START_HEAD: &'static str = "Start-Process '";

/// The script that starts a program or document through the shell.
pub open spec fn start_process_script(target: Seq<char>) -> Seq<char> {
    START_HEAD@ + quote_escaped(target) + seq!['\'']
}

/// The PowerShell script that starts `target` through the shell.
pub fn start_process(target: &str) -> (r: String)
    ensures
        r@ == start_process_script(target@),
{
    proof {
        reveal_strlit("'");
        assert("'"@ =~= seq!['\'']);
    }
    let safe = escape_quotes(target);
    cat3(START_HEAD, safe.as_str(), "'")
}

/// Starting `path` with no arguments.
pub open spec fn spawn_view(path: Seq<char>) -> LaunchView {
    LaunchView::Spawn { path, args: Seq::empty() }
}

/// How `open_app` starts an application, given the `APPDATA` and
/// `LOCALAPPDATA` directories: known names (case-insensitive) map to their
/// executables; a path or an `.exe` name is started directly; anything
/// else goes to `Start-Process`.
pub open spec fn launch_plan(name: Seq<char>, appdata: Seq<char>, localapp: Seq<char>) -> LaunchView {
    let l = crate::text::lowercase(name);
    if l == "chrome"@ || l == "google chrome"@ {
        LaunchView::Chrome {
            candidates: seq![
                localapp + r"\Google\Chrome\Application\chrome.exe"@,
                r"C:\Program Files\Google\Chrome\Application\chrome.exe"@,
                r"C:\Program Files (x86)\Google\Chrome\Application\chrome.exe"@,
            ],
        }
    } else if l == "firefox"@ {
        spawn_view(r"C:\Program Files\Mozilla Firefox\firefox.exe"@)
    } else if l == "notepad"@ {
        spawn_view("notepad.exe"@)
    } else if l == "calculator"@ || l == "calc"@ {
        spawn_view("calc.exe"@)
    } else if l == "explorer"@ || l == "file explorer"@ {
        spawn_view("explorer.exe"@)
    } else if l == "cmd"@ {
        spawn_view("cmd.exe"@)
    } else if l == "powershell"@ {
        spawn_view("powershell.exe"@)
    } else if l == "spotify"@ {
        spawn_view(appdata + r"\Spotify\Spotify.exe"@)
    } else if l == "discord"@ {
        LaunchView::Spawn {
            path: localapp + r"\Discord\Update.exe"@,
            args: seq!["--processStart"@, "Discord.exe"@],
        }
    } else if l == "vscode"@ || l == "vs code"@ || l == "code"@ {
        spawn_view(localapp + r"\Programs\Microsoft VS Code\Code.exe"@)
    } else if l == "slack"@ {
        spawn_view(localapp + r"\slack\slack.exe"@)
    } else if l == "teams"@ {
        spawn_view(localapp + r"\Microsoft\Teams\current\Teams.exe"@)
    } else if name.contains('\\') || name.contains('/') || has_suffix(name, ".exe"@) {
        spawn_view(name)
    } else {
        LaunchView::Script(start_process_script(name))
    }
}

/// Law: a known application launches its own executable, whatever the
/// case of its name. The Windows tools named after their executable
/// (`notepad`, `calc`, `cmd`, `powershell`, `explorer`) start that name
/// followed by `.exe`; `calculator` and `file explorer` start the same
/// program as `calc` and `explorer`; Chrome is looked for under its own
/// folders; and the other known apps start their executable in their
/// install folder.
pub proof fn law_known_apps_launch_their_own_executable(name: Seq<char>, appdata: Seq<char>, localapp: Seq<char>)
    ensures
        ({
            let l = crate::text::lowercase(name);
            &&& (l == "notepad"@ || l == "calc"@ || l == "cmd"@ || l == "powershell"@ || l == "explorer"@)
                ==> launch_plan(name, appdata, localapp) == spawn_view(l + ".exe"@)
            &&& l == "calculator"@ ==> launch_plan(name, appdata, localapp) == spawn_view("calc"@ + ".exe"@)
            &&& l == "file explorer"@ ==> launch_plan(name, appdata, localapp) == spawn_view("explorer"@ + ".exe"@)
            &&& (l == "chrome"@ || l == "google chrome"@) ==> launch_plan(name, appdata, localapp) == (LaunchView::Chrome {
                candidates: seq![
                    localapp + r"\Google\Chrome\Application\chrome.exe"@,
                    r"C:\Program Files\Google\Chrome\Application\chrome.exe"@,
                    r"C:\Program Files (x86)\Google\Chrome\Application\chrome.exe"@,
                ],
            })
            &&& l == "firefox"@ ==> launch_plan(name, appdata, localapp) == spawn_view(
                r"C:\Program Files\Mozilla Firefox\firefox.exe"@,
            )
            &&& l == "spotify"@ ==> launch_plan(name, appdata, localapp) == spawn_view(appdata + r"\Spotify\Spotify.exe"@)
            &&& l == "discord"@ ==> launch_plan(name, appdata, localapp) == (LaunchView::Spawn {
                path: localapp + r"\Discord\Update.exe"@,
                args: seq!["--processStart"@, "Discord.exe"@],
            })
            &&& (l == "vscode"@ || l == "vs code"@ || l == "code"@) ==> launch_plan(name, appdata, localapp) == spawn_view(
                localapp + r"\Programs\Microsoft VS Code\Code.exe"@,
            )
            &&& l == "slack"@ ==> launch_plan(name, appdata, localapp) == spawn_view(localapp + r"\slack\slack.exe"@)
            &&& l == "teams"@ ==> launch_plan(name, appdata, localapp) == spawn_view(
                localapp + r"\Microsoft\Teams\current\Teams.exe"@,
            )
        }),
{
    reveal_strlit("chrome");
    reveal_strlit("google chrome");
    reveal_strlit("firefox");
    reveal_strlit("notepad");
    reveal_strlit("calculator");
    reveal_strlit("calc");
    reveal_strlit("explorer");
    reveal_strlit("file explorer");
    reveal_strlit("cmd");
    reveal_strlit("powershell");
    reveal_strlit("spotify");
    reveal_strlit("discord");
    reveal_strlit("vscode");
    reveal_strlit("vs code");
    reveal_strlit("code");
    reveal_strlit("slack");
    reveal_strlit("teams");
    reveal_strlit(".exe");
    reveal_strlit("notepad.exe");
    reveal_strlit("calc.exe");
    reveal_strlit("cmd.exe");
    reveal_strlit("powershell.exe");
    reveal_strlit("explorer.exe");
    assert("google chrome"@ != "chrome"@) by { assert("google chrome"@.len() != "chrome"@.len()); }
    assert("firefox"@ != "chrome"@) by { assert("firefox"@.len() != "chrome"@.len()); }
    assert("firefox"@ != "google chrome"@) by { assert("firefox"@.len() != "google chrome"@.len()); }
    assert("notepad"@ != "chrome"@) by { assert("notepad"@.len() != "chrome"@.len()); }
    assert("notepad"@ != "google chrome"@) by { assert("notepad"@.len() != "google chrome"@.len()); }
    assert("notepad"@ != "firefox"@) by { assert("notepad"@[0] != "firefox"@[0]); }
    assert("calculator"@ != "chrome"@) by { assert("calculator"@.len() != "chrome"@.len()); }
    assert("calculator"@ != "google chrome"@) by { assert("calculator"@.len() != "google chrome"@.len()); }
    assert("calculator"@ != "firefox"@) by { assert("calculator"@.len() != "firefox"@.len()); }
    assert("calculator"@ != "notepad"@) by { assert("calculator"@.len() != "notepad"@.len()); }
    assert("calc"@ != "chrome"@) by { assert("calc"@.len() != "chrome"@.len()); }
    assert("calc"@ != "google chrome"@) by { assert("calc"@.len() != "google chrome"@.len()); }
    assert("calc"@ != "firefox"@) by { assert("calc"@.len() != "firefox"@.len()); }
    assert("calc"@ != "notepad"@) by { assert("calc"@.len() != "notepad"@.len()); }
    assert("calc"@ != "calculator"@) by { assert("calc"@.len() != "calculator"@.len()); }
    assert("explorer"@ != "chrome"@) by { assert("explorer"@.len() != "chrome"@.len()); }
    assert("explorer"@ != "google chrome"@) by { assert("explorer"@.len() != "google chrome"@.len()); }
    assert("explorer"@ != "firefox"@) by { assert("explorer"@.len() != "firefox"@.len()); }
    assert("explorer"@ != "notepad"@) by { assert("explorer"@.len() != "notepad"@.len()); }
    assert("explorer"@ != "calculator"@) by { assert("explorer"@.len() != "calculator"@.len()); }
    assert("explorer"@ != "calc"@) by { assert("explorer"@.len() != "calc"@.len()); }
    assert("file explorer"@ != "chrome"@) by { assert("file explorer"@.len() != "chrome"@.len()); }
    assert("file explorer"@ != "google chrome"@) by { assert("file explorer"@[0] != "google chrome"@[0]); }
    assert("file explorer"@ != "firefox"@) by { assert("file explorer"@.len() != "firefox"@.len()); }
    assert("file explorer"@ != "notepad"@) by { assert("file explorer"@.len() != "notepad"@.len()); }
    assert("file explorer"@ != "calculator"@) by { assert("file explorer"@.len() != "calculator"@.len()); }
    assert("file explorer"@ != "calc"@) by { assert("file explorer"@.len() != "calc"@.len()); }
    assert("file explorer"@ != "explorer"@) by { assert("file explorer"@.len() != "explorer"@.len()); }
    assert("cmd"@ != "chrome"@) by { assert("cmd"@.len() != "chrome"@.len()); }
    assert("cmd"@ != "google chrome"@) by { assert("cmd"@.len() != "google chrome"@.len()); }
    assert("cmd"@ != "firefox"@) by { assert("cmd"@.len() != "firefox"@.len()); }
    assert("cmd"@ != "notepad"@) by { assert("cmd"@.len() != "notepad"@.len()); }
    assert("cmd"@ != "calculator"@) by { assert("cmd"@.len() != "calculator"@.len()); }
    assert("cmd"@ != "calc"@) by { assert("cmd"@.len() != "calc"@.len()); }
    assert("cmd"@ != "explorer"@) by { assert("cmd"@.len() != "explorer"@.len()); }
    assert("cmd"@ != "file explorer"@) by { assert("cmd"@.len() != "file explorer"@.len()); }
    assert("powershell"@ != "chrome"@) by { assert("powershell"@.len() != "chrome"@.len()); }
    assert("powershell"@ != "google chrome"@) by { assert("powershell"@.len() != "google chrome"@.len()); }
    assert("powershell"@ != "firefox"@) by { assert("powershell"@.len() != "firefox"@.len()); }
    assert("powershell"@ != "notepad"@) by { assert("powershell"@.len() != "notepad"@.len()); }
    assert("powershell"@ != "calculator"@) by { assert("powershell"@[0] != "calculator"@[0]); }
    assert("powershell"@ != "calc"@) by { assert("powershell"@.len() != "calc"@.len()); }
    assert("powershell"@ != "explorer"@) by { assert("powershell"@.len() != "explorer"@.len()); }
    assert("powershell"@ != "file explorer"@) by { assert("powershell"@.len() != "file explorer"@.len()); }
    assert("powershell"@ != "cmd"@) by { assert("powershell"@.len() != "cmd"@.len()); }
    assert("spotify"@ != "chrome"@) by { assert("spotify"@.len() != "chrome"@.len()); }
    assert("spotify"@ != "google chrome"@) by { assert("spotify"@.len() != "google chrome"@.len()); }
    assert("spotify"@ != "firefox"@) by { assert("spotify"@[0] != "firefox"@[0]); }
    assert("spotify"@ != "notepad"@) by { assert("spotify"@[0] != "notepad"@[0]); }
    assert("spotify"@ != "calculator"@) by { assert("spotify"@.len() != "calculator"@.len()); }
    assert("spotify"@ != "calc"@) by { assert("spotify"@.len() != "calc"@.len()); }
    assert("spotify"@ != "explorer"@) by { assert("spotify"@.len() != "explorer"@.len()); }
    assert("spotify"@ != "file explorer"@) by { assert("spotify"@.len() != "file explorer"@.len()); }
    assert("spotify"@ != "cmd"@) by { assert("spotify"@.len() != "cmd"@.len()); }
    assert("spotify"@ != "powershell"@) by { assert("spotify"@.len() != "powershell"@.len()); }
    assert("discord"@ != "chrome"@) by { assert("discord"@.len() != "chrome"@.len()); }
    assert("discord"@ != "google chrome"@) by { assert("discord"@.len() != "google chrome"@.len()); }
    assert("discord"@ != "firefox"@) by { assert("discord"@[0] != "firefox"@[0]); }
    assert("discord"@ != "notepad"@) by { assert("discord"@[0] != "notepad"@[0]); }
    assert("discord"@ != "calculator"@) by { assert("discord"@.len() != "calculator"@.len()); }
    assert("discord"@ != "calc"@) by { assert("discord"@.len() != "calc"@.len()); }
    assert("discord"@ != "explorer"@) by { assert("discord"@.len() != "explorer"@.len()); }
    assert("discord"@ != "file explorer"@) by { assert("discord"@.len() != "file explorer"@.len()); }
    assert("discord"@ != "cmd"@) by { assert("discord"@.len() != "cmd"@.len()); }
    assert("discord"@ != "powershell"@) by { assert("discord"@.len() != "powershell"@.len()); }
    assert("discord"@ != "spotify"@) by { assert("discord"@[0] != "spotify"@[0]); }
    assert("vscode"@ != "chrome"@) by { assert("vscode"@[0] != "chrome"@[0]); }
    assert("vscode"@ != "google chrome"@) by { assert("vscode"@.len() != "google chrome"@.len()); }
    assert("vscode"@ != "firefox"@) by { assert("vscode"@.len() != "firefox"@.len()); }
    assert("vscode"@ != "notepad"@) by { assert("vscode"@.len() != "notepad"@.len()); }
    assert("vscode"@ != "calculator"@) by { assert("vscode"@.len() != "calculator"@.len()); }
    assert("vscode"@ != "calc"@) by { assert("vscode"@.len() != "calc"@.len()); }
    assert("vscode"@ != "explorer"@) by { assert("vscode"@.len() != "explorer"@.len()); }
    assert("vscode"@ != "file explorer"@) by { assert("vscode"@.len() != "file explorer"@.len()); }
    assert("vscode"@ != "cmd"@) by { assert("vscode"@.len() != "cmd"@.len()); }
    assert("vscode"@ != "powershell"@) by { assert("vscode"@.len() != "powershell"@.len()); }
    assert("vscode"@ != "spotify"@) by { assert("vscode"@.len() != "spotify"@.len()); }
    assert("vscode"@ != "discord"@) by { assert("vscode"@.len() != "discord"@.len()); }
    assert("vs code"@ != "chrome"@) by { assert("vs code"@.len() != "chrome"@.len()); }
    assert("vs code"@ != "google chrome"@) by { assert("vs code"@.len() != "google chrome"@.len()); }
    assert("vs code"@ != "firefox"@) by { assert("vs code"@[0] != "firefox"@[0]); }
    assert("vs code"@ != "notepad"@) by { assert("vs code"@[0] != "notepad"@[0]); }
    assert("vs code"@ != "calculator"@) by { assert("vs code"@.len() != "calculator"@.len()); }
    assert("vs code"@ != "calc"@) by { assert("vs code"@.len() != "calc"@.len()); }
    assert("vs code"@ != "explorer"@) by { assert("vs code"@.len() != "explorer"@.len()); }
    assert("vs code"@ != "file explorer"@) by { assert("vs code"@.len() != "file explorer"@.len()); }
    assert("vs code"@ != "cmd"@) by { assert("vs code"@.len() != "cmd"@.len()); }
    assert("vs code"@ != "powershell"@) by { assert("vs code"@.len() != "powershell"@.len()); }
    assert("vs code"@ != "spotify"@) by { assert("vs code"@[0] != "spotify"@[0]); }
    assert("vs code"@ != "discord"@) by { assert("vs code"@[0] != "discord"@[0]); }
    assert("vs code"@ != "vscode"@) by { assert("vs code"@.len() != "vscode"@.len()); }
    assert("code"@ != "chrome"@) by { assert("code"@.len() != "chrome"@.len()); }
    assert("code"@ != "google chrome"@) by { assert("code"@.len() != "google chrome"@.len()); }
    assert("code"@ != "firefox"@) by { assert("code"@.len() != "firefox"@.len()); }
    assert("code"@ != "notepad"@) by { assert("code"@.len() != "notepad"@.len()); }
    assert("code"@ != "calculator"@) by { assert("code"@.len() != "calculator"@.len()); }
    assert("code"@ != "calc"@) by { assert("code"@[1] != "calc"@[1]); }
    assert("code"@ != "explorer"@) by { assert("code"@.len() != "explorer"@.len()); }
    assert("code"@ != "file explorer"@) by { assert("code"@.len() != "file explorer"@.len()); }
    assert("code"@ != "cmd"@) by { assert("code"@.len() != "cmd"@.len()); }
    assert("code"@ != "powershell"@) by { assert("code"@.len() != "powershell"@.len()); }
    assert("code"@ != "spotify"@) by { assert("code"@.len() != "spotify"@.len()); }
    assert("code"@ != "discord"@) by { assert("code"@.len() != "discord"@.len()); }
    assert("code"@ != "vscode"@) by { assert("code"@.len() != "vscode"@.len()); }
    assert("code"@ != "vs code"@) by { assert("code"@.len() != "vs code"@.len()); }
    assert("slack"@ != "chrome"@) by { assert("slack"@.len() != "chrome"@.len()); }
    assert("slack"@ != "google chrome"@) by { assert("slack"@.len() != "google chrome"@.len()); }
    assert("slack"@ != "firefox"@) by { assert("slack"@.len() != "firefox"@.len()); }
    assert("slack"@ != "notepad"@) by { assert("slack"@.len() != "notepad"@.len()); }
    assert("slack"@ != "calculator"@) by { assert("slack"@.len() != "calculator"@.len()); }
    assert("slack"@ != "calc"@) by { assert("slack"@.len() != "calc"@.len()); }
    assert("slack"@ != "explorer"@) by { assert("slack"@.len() != "explorer"@.len()); }
    assert("slack"@ != "file explorer"@) by { assert("slack"@.len() != "file explorer"@.len()); }
    assert("slack"@ != "cmd"@) by { assert("slack"@.len() != "cmd"@.len()); }
    assert("slack"@ != "powershell"@) by { assert("slack"@.len() != "powershell"@.len()); }
    assert("slack"@ != "spotify"@) by { assert("slack"@.len() != "spotify"@.len()); }
    assert("slack"@ != "discord"@) by { assert("slack"@.len() != "discord"@.len()); }
    assert("slack"@ != "vscode"@) by { assert("slack"@.len() != "vscode"@.len()); }
    assert("slack"@ != "vs code"@) by { assert("slack"@.len() != "vs code"@.len()); }
    assert("slack"@ != "code"@) by { assert("slack"@.len() != "code"@.len()); }
    assert("teams"@ != "chrome"@) by { assert("teams"@.len() != "chrome"@.len()); }
    assert("teams"@ != "google chrome"@) by { assert("teams"@.len() != "google chrome"@.len()); }
    assert("teams"@ != "firefox"@) by { assert("teams"@.len() != "firefox"@.len()); }
    assert("teams"@ != "notepad"@) by { assert("teams"@.len() != "notepad"@.len()); }
    assert("teams"@ != "calculator"@) by { assert("teams"@.len() != "calculator"@.len()); }
    assert("teams"@ != "calc"@) by { assert("teams"@.len() != "calc"@.len()); }
    assert("teams"@ != "explorer"@) by { assert("teams"@.len() != "explorer"@.len()); }
    assert("teams"@ != "file explorer"@) by { assert("teams"@.len() != "file explorer"@.len()); }
    assert("teams"@ != "cmd"@) by { assert("teams"@.len() != "cmd"@.len()); }
    assert("teams"@ != "powershell"@) by { assert("teams"@.len() != "powershell"@.len()); }
    assert("teams"@ != "spotify"@) by { assert("teams"@.len() != "spotify"@.len()); }
    assert("teams"@ != "discord"@) by { assert("teams"@.len() != "discord"@.len()); }
    assert("teams"@ != "vscode"@) by { assert("teams"@.len() != "vscode"@.len()); }
    assert("teams"@ != "vs code"@) by { assert("teams"@.len() != "vs code"@.len()); }
    assert("teams"@ != "code"@) by { assert("teams"@.len() != "code"@.len()); }
    assert("teams"@ != "slack"@) by { assert("teams"@[0] != "slack"@[0]); }
    assert("notepad"@ + ".exe"@ =~= "notepad.exe"@);
    assert("calc"@ + ".exe"@ =~= "calc.exe"@);
    assert("cmd"@ + ".exe"@ =~= "cmd.exe"@);
    assert("powershell"@ + ".exe"@ =~= "powershell.exe"@);
    assert("explorer"@ + ".exe"@ =~= "explorer.exe"@);
}

fn spawn(path: String) -> (r: Launch)
    ensures
        r@ == spawn_view(path@),
{
    let args: Vec<String> = Vec::new();
    assert(args.deep_view() =~= Seq::<Seq<char>>::empty());
    Launch::Spawn { path, args }
}

/// Decides how to start an application by name.
pub fn open_app(app_name: &str, appdata: &str, localapp: &str) -> (r: Launch)
    ensures
        r@ == launch_plan(app_name@, appdata@, localapp@),
{
    let lower = crate::text::to_lowercase(app_name);
    let l = lower.as_str();
    if str_eq(l, "chrome") || str_eq(l, "google chrome") {
        let mut c: Vec<String> = Vec::new();
        c.push(cat(localapp, r"\Google\Chrome\Application\chrome.exe"));
        c.push(owned(r"C:\Program Files\Google\Chrome\Application\chrome.exe"));
        c.push(owned(r"C:\Program Files (x86)\Google\Chrome\Application\chrome.exe"));
        assert(c.deep_view() =~= seq![
            localapp@ + r"\Google\Chrome\Application\chrome.exe"@,
            r"C:\Program Files\Google\Chrome\Application\chrome.exe"@,
            r"C:\Program Files (x86)\Google\Chrome\Application\chrome.exe"@,
        ]);
        Launch::Chrome { candidates: c }
    } else if str_eq(l, "firefox") {
        spawn(owned(r"C:\Program Files\Mozilla Firefox\firefox.exe"))
    } else if str_eq(l, "notepad") {
        spawn(owned("notepad.exe"))
    } else if str_eq(l, "calculator") || str_eq(l, "calc") {
        spawn(owned("calc.exe"))
    } else if str_eq(l, "explorer") || str_eq(l, "file explorer") {
        spawn(owned("explorer.exe"))
    } else if str_eq(l, "cmd") {
        spawn(owned("cmd.exe"))
    } else if str_eq(l, "powershell") {
        spawn(owned("powershell.exe"))
    } else if str_eq(l, "spotify") {
        spawn(cat(appdata, r"\Spotify\Spotify.exe"))
    } else if str_eq(l, "discord") {
        let mut args: Vec<String> = Vec::new();
        args.push(owned("--processStart"));
        args.push(owned("Discord.exe"));
        assert(args.deep_view() =~= seq!["--processStart"@, "Discord.exe"@]);
        Launch::Spawn { path: cat(localapp, r"\Discord\Update.exe"), args }
    } else if str_eq(l, "vscode") || str_eq(l, "vs code") || str_eq(l, "code") {
        spawn(cat(localapp, r"\Programs\Microsoft VS Code\Code.exe"))
    } else if str_eq(l, "slack") {
        spawn(cat(localapp, r"\slack\slack.exe"))
    } else if str_eq(l, "teams") {
        spawn(cat(localapp, r"\Microsoft\Teams\current\Teams.exe"))
    } else {
        let cs = chars_of(app_name);
        if crate::text::has_char_exec(cs.as_slice(), '\\') || crate::text::has_char_exec(
            cs.as_slice(),
            '/',
        ) || ends_with(app_name, ".exe") {
            spawn(owned(app_name))
        } else {
            Launch::Script(start_process(app_name))
        }
    }
}

/// Which Chrome location to start, given whether each exists: the first
/// that exists, else the second.
pub fn pick_chrome(exists: &Vec<bool>) -> (r: usize)
    requires
        exists@.len() == 3,
    ensures
        r < 3,
        match crate::guard::first_hit(exists@) {
            Some(i) => r as int == i,
            None => r == 1,
        },
{
    let mut i: usize = 0;
    while i < 3
        invariant
            i <= 3,
            exists@.len() == 3,
            crate::guard::first_hit(exists@) == crate::guard::first_hit_from(exists@, i as int),
        decreases 3 - i,
    {
        if exists[i] {
            return i;
        }
        i = i + 1;
    }
    1
}

/// The last `\`-separated segment of a path (the whole path when it has no `\`).
pub open spec fn last_segment(path: Seq<char>) -> Seq<char> {
    crate::lines::split_on(path, '\\').last()
}

/// The last `\`-separated segment of a path.
pub fn last_segment_of(path: &str) -> (r: String)
    ensures
        r@ == last_segment(path@),
{
    let cs = chars_of(path);
    let parts = crate::lines::split_char(cs.as_slice(), '\\');
    proof {
        crate::lines::lemma_split_on_len(path@, '\\');
    }
    let last = &parts[parts.len() - 1];
    assert(last@ == parts@.map_values(|v: Vec<char>| v@)[parts@.len() - 1]);
    string_of(last.as_slice())
}

/// The report after starting `path`.
pub fn opened_message(path: &str) -> (r: ToolResult)
    ensures
        r@ == ok_view("Opened "@ + last_segment(path@)),
{
    ToolResult::ok(cat("Opened ", last_segment_of(path).as_str()))
}

// ── Notifications, timers and screenshots ──────────────────────────────────

/// The report after a notification was shown.
pub fn notification_shown(title: &str) -> (r: ToolResult)
    ensures
        r@ == ok_view("Notification shown: \""@ + title@ + "\""@),
{
    ToolResult::ok(cat3("Notification shown: \"", title, "\""))
}

/// The report when a notification could not be shown.
pub fn notification_failed(reason: &str) -> (r: ToolResult)
    ensures
        r@ == err_view("Notification failed: "@ + reason@),
{
    ToolResult::err(cat("Notification failed: ", reason))
}

/// The title of the notification a finished timer shows.
pub const TIMER_TITLE: &'static str = "â\u{8f}± Timer Complete!";
/// The refusal of a timer without a positive duration.
pub const NO_DURATION: &'static str = "Timer duration must be > 0.";
/// The dash in timer texts.
pub const TIMER_DASH: &'static str = " â€” ";

/// The unit a timer's duration was given in.
#[derive(Clone, Copy, Debug, PartialEq, Eq, Structural)]
pub enum TimerUnit {
    Second,
    Minute,
}

/// A timer's duration as shown: the whole count and the unit.
pub open spec fn timer_display(count: nat, unit: TimerUnit) -> Seq<char> {
    decimal(count) + match unit {
        TimerUnit::Second => " second"@,
        TimerUnit::Minute => " minute"@,
    }
}

/// Words a timer's duration.
pub fn timer_display_text(count: u64, unit: TimerUnit) -> (r: String)
    ensures
        r@ == timer_display(count as nat, unit),
{
    let n = decimal_string(count);
    match unit {
        TimerUnit::Second => cat(n.as_str(), " second"),
        TimerUnit::Minute => cat(n.as_str(), " minute"),
    }
}

/// The report after a timer was set.
pub fn timer_set_message(label: &str, display: &str) -> (r: ToolResult)
    ensures
        r@ == ok_view(
            "Timer set: \""@ + label@ + "\""@ + TIMER_DASH@ + display@
                + "(s). You'll get a notification when it's done."@,
        ),
{
    let mut r = cat3("Timer set: \"", label, "\"");
    r.append(TIMER_DASH);
    r.append(display);
    r.append("(s). You'll get a notification when it's done.");
    ToolResult::ok(r)
}

/// The text of the notification a finished timer shows.
pub fn timer_done_body(label: &str, display: &str) -> (r: String)
    ensures
        r@ == label@ + TIMER_DASH@ + display@ + "(s) timer done!"@,
{
    let mut r = cat3(label, TIMER_DASH, display);
    r.append("(s) timer done!");
    r
}

/// The result of a screenshot: the PNG bytes of the first screen, in
/// standard base64.
pub fn screenshot_result(png: &[u8]) -> (r: ToolResult)
    ensures
        r@ == (ToolResultView {
            success: true,
            result: Seq::empty(),
            is_image: Some(true),
            image: Some(base64_of(png@)),
            untrusted: false,
        }),
{
    ToolResult::image(base64_encode(png))
}

// ── Reports of the other tools ─────────────────────────────────────────────

/// The report after opening a URL in the default browser.
pub fn website_opened(url: &str) -> (r: ToolResult)
    ensures
        r@ == ok_view("Opened "@ + url@),
{
    ToolResult::ok(cat("Opened ", url))
}

/// The report when a URL could not be opened.
pub fn website_failed(url: &str, reason: &str) -> (r: ToolResult)
    ensures
        r@ == err_view("Failed to open "@ + url@ + ": "@ + reason@),
{
    ToolResult::err(cat3(cat("Failed to open ", url).as_str(), ": ", reason))
}

/// The report when PowerShell could not be started or waited for.
pub fn powershell_failed(reason: &str) -> (r: ToolResult)
    ensures
        r@ == err_view("PowerShell failed: "@ + reason@),
{
    ToolResult::err(cat("PowerShell failed: ", reason))
}

/// The report of a command stopped because the user aborted the agent.
pub const ABORTED: &'static str = "Command aborted by user.";
/// The report when the keyboard cannot be driven.
pub const NO_KEYBOARD: &'static str = "Failed to initialize keyboard control.";
/// The report when the mouse cannot be driven.
pub const NO_MOUSE: &'static str = "Failed to initialize mouse control.";
/// The report when there is no screen to capture.
pub const NO_SCREENS: &'static str = "No screens found.";

/// A whole number written in decimal, with a minus sign when negative.
pub open spec fn signed_decimal(x: int) -> Seq<char> {
    if x < 0 {
        "-"@ + decimal((-x) as nat)
    } else {
        decimal(x as nat)
    }
}

/// Writes a whole number in decimal.
pub fn signed_decimal_string(x: i32) -> (r: String)
    ensures
        r@ == signed_decimal(x as int),
{
    if x < 0 {
        let m: i64 = -(x as i64);
        cat("-", decimal_string(m as u64).as_str())
    } else {
        decimal_string(x as u64)
    }
}

/// The report after a click at screen position (`x`, `y`).
pub fn clicked_message(x: i32, y: i32) -> (r: ToolResult)
    ensures
        r@ == ok_view("Clicked at ("@ + signed_decimal(x as int) + ", "@ + signed_decimal(y as int) + ")"@),
{
    let mut r = cat3("Clicked at (", signed_decimal_string(x).as_str(), ", ");
    r.append(signed_decimal_string(y).as_str());
    r.append(")");
    ToolResult::ok(r)
}

/// A failure report made of a fixed prefix and the reason the system gave
/// (`Capture failed: `, `Screenshot error: `, `Failed to write file: `,
/// `Failed to open Notepad: `).
pub fn failure(prefix: &str, reason: &str) -> (r: ToolResult)
    ensures
        r@ == err_view(prefix@ + reason@),
{
    ToolResult::err(cat(prefix, reason))
}

// ── write_to_notepad / write_to_app ────────────────────────────────────────

/// Characters not allowed in a Windows file name.
pub open spec fn bad_file_char(c: char) -> bool {
    c == '<' || c == '>' || c == ':' || c == '"' || c == '/' || c == '\\' || c == '|' || c == '?'
        || c == '*'
}

/// A character as it appears in a note's file name.
pub open spec fn file_name_piece(c: char) -> Seq<char> {
    if bad_file_char(c) {
        seq!['_']
    } else {
        seq![c]
    }
}

/// The base name of a note file: the given name (or `niro_note`) with
/// forbidden characters replaced by `_`.
pub open spec fn note_name(filename: Option<Seq<char>>) -> Seq<char> {
    expand(
        match filename {
            Some(f) => f,
            None => "niro_note"@,
        },
        |c: char| file_name_piece(c),
    )
}

/// The base name of a note file.
pub fn note_file_name(filename: Option<&str>) -> (r: String)
    ensures
        r@ == note_name(
            match filename {
                Some(f) => Some(f@),
                None => None,
            },
        ),
{
    let src = match filename {
        Some(f) => f,
        None => "niro_note",
    };
    let cs = chars_of(src);
    let mut out: Vec<char> = Vec::new();
    let mut i: usize = 0;
    while i < cs.len()
        invariant
            i <= cs@.len(),
            cs@ == src@,
            out@ == expand(cs@.take(i as int), |c: char| file_name_piece(c)),
        decreases cs@.len() - i,
    {
        let c = cs[i];
        proof {
            lemma_expand_take(cs@, i as int, |c: char| file_name_piece(c));
        }
        if c == '<' || c == '>' || c == ':' || c == '"' || c == '/' || c == '\\' || c == '|' || c
            == '?' || c == '*' {
            out.push('_');
        } else {
            out.push(c);
        }
        assert(out@ =~= expand(cs@.take(i as int), |c: char| file_name_piece(c)) + file_name_piece(c));
        i = i + 1;
    }
    assert(cs@.take(cs@.len() as int) =~= cs@);
    string_of(out.as_slice())
}

/// The report after opening Notepad on a note.
pub fn notepad_opened_message(name: &str) -> (r: ToolResult)
    ensures
        r@ == ok_view("Opened Notepad with your content ("@ + name@ + ".txt)"@),
{
    ToolResult::ok(cat3("Opened Notepad with your content (", name, ".txt)"))
}

/// How long `write_to_app` waits between focusing and typing: 800 ms when
/// no delay is given, else the delay capped at 2000 ms.
pub fn write_delay_ms(delay_ms: u64) -> (r: u64)
    ensures
        r == (if delay_ms == 0 {
            800
        } else if delay_ms < 2000 {
            delay_ms
        } else {
            2000
        }),
{
    if delay_ms == 0 {
        800
    } else if delay_ms < 2000 {
        delay_ms
    } else {
        2000
    }
}

// ── press_key ──────────────────────────────────────────────────────────────

/// A key the keyboard tool can press.
#[derive(Clone, Copy, Debug)]
pub enum Key {
    Return,
    Escape,
    Tab,
    Space,
    Backspace,
    Delete,
    Up,
    Down,
    Left,
    Right,
    F1,
    F2,
    F3,
    F4,
    F5,
    Char(char),
    Control,
    Alt,
    Shift,
    Meta,
}

/// The key a (lowercased, trimmed) name denotes: named keys, or a single
/// one-byte character.
pub open spec fn key_named(k: Seq<char>) -> Option<Key> {
    if k == "enter"@ || k == "return"@ {
        Some(Key::Return)
    } else if k == "escape"@ || k == "esc"@ {
        Some(Key::Escape)
    } else if k == "tab"@ {
        Some(Key::Tab)
    } else if k == "space"@ {
        Some(Key::Space)
    } else if k == "backspace"@ {
        Some(Key::Backspace)
    } else if k == "delete"@ || k == "del"@ {
        Some(Key::Delete)
    } else if k == "up"@ {
        Some(Key::Up)
    } else if k == "down"@ {
        Some(Key::Down)
    } else if k == "left"@ {
        Some(Key::Left)
    } else if k == "right"@ {
        Some(Key::Right)
    } else if k == "f1"@ {
        Some(Key::F1)
    } else if k == "f2"@ {
        Some(Key::F2)
    } else if k == "f3"@ {
        Some(Key::F3)
    } else if k == "f4"@ {
        Some(Key::F4)
    } else if k == "f5"@ {
        Some(Key::F5)
    } else if k.len() == 1 && (k[0] as u32) < 128 {
        Some(Key::Char(k[0]))
    } else {
        None
    }
}

/// The modifier a (lowercased, trimmed) name denotes.
pub open spec fn modifier_named(k: Seq<char>) -> Option<Key> {
    if k == "ctrl"@ || k == "control"@ {
        Some(Key::Control)
    } else if k == "alt"@ {
        Some(Key::Alt)
    } else if k == "shift"@ {
        Some(Key::Shift)
    } else if k == "win"@ || k == "super"@ {
        Some(Key::Meta)
    } else {
        None
    }
}

fn key_exec(k: &str) -> (r: Option<Key>)
    ensures
        r == key_named(k@),
{
    if str_eq(k, "enter") || str_eq(k, "return") {
        Some(Key::Return)
    } else if str_eq(k, "escape") || str_eq(k, "esc") {
        Some(Key::Escape)
    } else if str_eq(k, "tab") {
        Some(Key::Tab)
    } else if str_eq(k, "space") {
        Some(Key::Space)
    } else if str_eq(k, "backspace") {
        Some(Key::Backspace)
    } else if str_eq(k, "delete") || str_eq(k, "del") {
        Some(Key::Delete)
    } else if str_eq(k, "up") {
        Some(Key::Up)
    } else if str_eq(k, "down") {
        Some(Key::Down)
    } else if str_eq(k, "left") {
        Some(Key::Left)
    } else if str_eq(k, "right") {
        Some(Key::Right)
    } else if str_eq(k, "f1") {
        Some(Key::F1)
    } else if str_eq(k, "f2") {
        Some(Key::F2)
    } else if str_eq(k, "f3") {
        Some(Key::F3)
    } else if str_eq(k, "f4") {
        Some(Key::F4)
    } else if str_eq(k, "f5") {
        Some(Key::F5)
    } else {
        let cs = chars_of(k);
        if cs.len() == 1 && (cs[0] as u32) < 128 {
            Some(Key::Char(cs[0]))
        } else {
            None
        }
    }
}

fn modifier_exec(k: &str) -> (r: Option<Key>)
    ensures
        r == modifier_named(k@),
{
    if str_eq(k, "ctrl") || str_eq(k, "control") {
        Some(Key::Control)
    } else if str_eq(k, "alt") {
        Some(Key::Alt)
    } else if str_eq(k, "shift") {
        Some(Key::Shift)
    } else if str_eq(k, "win") || str_eq(k, "super") {
        Some(Key::Meta)
    } else {
        None
    }
}

/// What to press for a key description.
pub enum KeyPress {
    /// Click one key.
    Single(Key),
    /// Hold the modifiers, click the key, release the modifiers in reverse.
    Combo { modifiers: Vec<Key>, key: Key },
    /// The description names no key.
    Unknown,
}

/// The mathematical value of a [`KeyPress`].
pub enum KeyPressView {
    Single(Key),
    Combo { modifiers: Seq<Key>, key: Key },
    Unknown,
}

impl View for KeyPress {
    type V = KeyPressView;

    open spec fn view(&self) -> KeyPressView {
        match self {
            KeyPress::Single(k) => KeyPressView::Single(*k),
            KeyPress::Combo { modifiers, key } => KeyPressView::Combo {
                modifiers: modifiers@,
                key: *key,
            },
            KeyPress::Unknown => KeyPressView::Unknown,
        }
    }
}

/// The parts of a key description: lowercased, split at `+`, each trimmed.
pub open spec fn key_parts(key: Seq<char>) -> Seq<Seq<char>> {
    crate::lines::split_on(crate::text::lowercase(key), '+').map_values(|p: Seq<char>| trimmed(p))
}

/// The modifiers among the first `n` parts, in order (unknown names skipped).
pub open spec fn modifiers_of(parts: Seq<Seq<char>>, n: int) -> Seq<Key>
    decreases n,
{
    if n <= 0 {
        Seq::empty()
    } else {
        match modifier_named(parts[n - 1]) {
            Some(m) => modifiers_of(parts, n - 1).push(m),
            None => modifiers_of(parts, n - 1),
        }
    }
}

/// What to press for a key description such as `enter` or `ctrl+shift+t`.
pub open spec fn key_press(key: Seq<char>) -> KeyPressView {
    let parts = key_parts(key);
    if parts.len() == 1 {
        match key_named(parts[0]) {
            Some(k) => KeyPressView::Single(k),
            None => KeyPressView::Unknown,
        }
    } else {
        match key_named(parts.last()) {
            Some(k) => KeyPressView::Combo { modifiers: modifiers_of(parts, parts.len() - 1), key: k },
            None => KeyPressView::Unknown,
        }
    }
}

/// The usual name of a key: the one a user writes for it.
pub open spec fn key_label(k: Key) -> Seq<char> {
    match k {
        Key::Return => "enter"@,
        Key::Escape => "escape"@,
        Key::Tab => "tab"@,
        Key::Space => "space"@,
        Key::Backspace => "backspace"@,
        Key::Delete => "delete"@,
        Key::Up => "up"@,
        Key::Down => "down"@,
        Key::Left => "left"@,
        Key::Right => "right"@,
        Key::F1 => "f1"@,
        Key::F2 => "f2"@,
        Key::F3 => "f3"@,
        Key::F4 => "f4"@,
        Key::F5 => "f5"@,
        Key::Control => "ctrl"@,
        Key::Alt => "alt"@,
        Key::Shift => "shift"@,
        Key::Meta => "win"@,
        Key::Char(c) => seq![c],
    }
}

/// Whether `k` is a modifier key.
pub open spec fn is_modifier(k: Key) -> bool {
    k is Control || k is Alt || k is Shift || k is Meta
}

/// Law: a key's usual name reads back as that key (modifiers as modifiers,
/// any one-byte character as itself), so a description naming one key
/// presses exactly that key; and the only other names that read as a key
/// are its listed synonyms (`return`, `esc`, `del`; `control`, `super`).
pub proof fn law_key_names_denote_their_keys(k: Key, name: Seq<char>)
    ensures
        !is_modifier(k) && (k matches Key::Char(c) ==> (c as u32) < 128) ==> key_named(key_label(k)) == Some(k),
        is_modifier(k) ==> modifier_named(key_label(k)) == Some(k),
        key_named(name) == Some(k) && !(k is Char) ==> name == key_label(k) || (name == "return"@
            && k is Return) || (name == "esc"@ && k is Escape) || (name == "del"@ && k is Delete),
        modifier_named(name) == Some(k) ==> name == key_label(k) || (name == "control"@ && k is Control)
            || (name == "super"@ && k is Meta),
        key_named(name) == Some(k) && k is Char ==> name == key_label(k),
        !is_modifier(k) && (k matches Key::Char(c) ==> (c as u32) < 128) && key_parts(name) == seq![key_label(k)]
            ==> key_press(name) == KeyPressView::Single(k),
{
    reveal_strlit("enter");
    reveal_strlit("escape");
    reveal_strlit("tab");
    reveal_strlit("space");
    reveal_strlit("backspace");
    reveal_strlit("delete");
    reveal_strlit("up");
    reveal_strlit("down");
    reveal_strlit("left");
    reveal_strlit("right");
    reveal_strlit("f1");
    reveal_strlit("f2");
    reveal_strlit("f3");
    reveal_strlit("f4");
    reveal_strlit("f5");
    reveal_strlit("ctrl");
    reveal_strlit("alt");
    reveal_strlit("shift");
    reveal_strlit("win");
    reveal_strlit("return");
    reveal_strlit("esc");
    reveal_strlit("del");
    reveal_strlit("control");
    reveal_strlit("super");
    assert("escape"@ != "enter"@) by { assert("escape"@.len() != "enter"@.len()); }
    assert("tab"@ != "enter"@) by { assert("tab"@.len() != "enter"@.len()); }
    assert("tab"@ != "escape"@) by { assert("tab"@.len() != "escape"@.len()); }
    assert("space"@ != "enter"@) by { assert("space"@[0] != "enter"@[0]); }
    assert("space"@ != "escape"@) by { assert("space"@.len() != "escape"@.len()); }
    assert("space"@ != "tab"@) by { assert("space"@.len() != "tab"@.len()); }
    assert("backspace"@ != "enter"@) by { assert("backspace"@.len() != "enter"@.len()); }
    assert("backspace"@ != "escape"@) by { assert("backspace"@.len() != "escape"@.len()); }
    assert("backspace"@ != "tab"@) by { assert("backspace"@.len() != "tab"@.len()); }
    assert("backspace"@ != "space"@) by { assert("backspace"@.len() != "space"@.len()); }
    assert("delete"@ != "enter"@) by { assert("delete"@.len() != "enter"@.len()); }
    assert("delete"@ != "escape"@) by { assert("delete"@[0] != "escape"@[0]); }
    assert("delete"@ != "tab"@) by { assert("delete"@.len() != "tab"@.len()); }
    assert("delete"@ != "space"@) by { assert("delete"@.len() != "space"@.len()); }
    assert("delete"@ != "backspace"@) by { assert("delete"@.len() != "backspace"@.len()); }
    assert("up"@ != "enter"@) by { assert("up"@.len() != "enter"@.len()); }
    assert("up"@ != "escape"@) by { assert("up"@.len() != "escape"@.len()); }
    assert("up"@ != "tab"@) by { assert("up"@.len() != "tab"@.len()); }
    assert("up"@ != "space"@) by { assert("up"@.len() != "space"@.len()); }
    assert("up"@ != "backspace"@) by { assert("up"@.len() != "backspace"@.len()); }
    assert("up"@ != "delete"@) by { assert("up"@.len() != "delete"@.len()); }
    assert("down"@ != "enter"@) by { assert("down"@.len() != "enter"@.len()); }
    assert("down"@ != "escape"@) by { assert("down"@.len() != "escape"@.len()); }
    assert("down"@ != "tab"@) by { assert("down"@.len() != "tab"@.len()); }
    assert("down"@ != "space"@) by { assert("down"@.len() != "space"@.len()); }
    assert("down"@ != "backspace"@) by { assert("down"@.len() != "backspace"@.len()); }
    assert("down"@ != "delete"@) by { assert("down"@.len() != "delete"@.len()); }
    assert("down"@ != "up"@) by { assert("down"@.len() != "up"@.len()); }
    assert("left"@ != "enter"@) by { assert("left"@.len() != "enter"@.len()); }
    assert("left"@ != "escape"@) by { assert("left"@.len() != "escape"@.len()); }
    assert("left"@ != "tab"@) by { assert("left"@.len() != "tab"@.len()); }
    assert("left"@ != "space"@) by { assert("left"@.len() != "space"@.len()); }
    assert("left"@ != "backspace"@) by { assert("left"@.len() != "backspace"@.len()); }
    assert("left"@ != "delete"@) by { assert("left"@.len() != "delete"@.len()); }
    assert("left"@ != "up"@) by { assert("left"@.len() != "up"@.len()); }
    assert("left"@ != "down"@) by { assert("left"@[0] != "down"@[0]); }
    assert("right"@ != "enter"@) by { assert("right"@[0] != "enter"@[0]); }
    assert("right"@ != "escape"@) by { assert("right"@.len() != "escape"@.len()); }
    assert("right"@ != "tab"@) by { assert("right"@.len() != "tab"@.len()); }
    assert("right"@ != "space"@) by { assert("right"@[0] != "space"@[0]); }
    assert("right"@ != "backspace"@) by { assert("right"@.len() != "backspace"@.len()); }
    assert("right"@ != "delete"@) by { assert("right"@.len() != "delete"@.len()); }
    assert("right"@ != "up"@) by { assert("right"@.len() != "up"@.len()); }
    assert("right"@ != "down"@) by { assert("right"@.len() != "down"@.len()); }
    assert("right"@ != "left"@) by { assert("right"@.len() != "left"@.len()); }
    assert("f1"@ != "enter"@) by { assert("f1"@.len() != "enter"@.len()); }
    assert("f1"@ != "escape"@) by { assert("f1"@.len() != "escape"@.len()); }
    assert("f1"@ != "tab"@) by { assert("f1"@.len() != "tab"@.len()); }
    assert("f1"@ != "space"@) by { assert("f1"@.len() != "space"@.len()); }
    assert("f1"@ != "backspace"@) by { assert("f1"@.len() != "backspace"@.len()); }
    assert("f1"@ != "delete"@) by { assert("f1"@.len() != "delete"@.len()); }
    assert("f1"@ != "up"@) by { assert("f1"@[0] != "up"@[0]); }
    assert("f1"@ != "down"@) by { assert("f1"@.len() != "down"@.len()); }
    assert("f1"@ != "left"@) by { assert("f1"@.len() != "left"@.len()); }
    assert("f1"@ != "right"@) by { assert("f1"@.len() != "right"@.len()); }
    assert("f2"@ != "enter"@) by { assert("f2"@.len() != "enter"@.len()); }
    assert("f2"@ != "escape"@) by { assert("f2"@.len() != "escape"@.len()); }
    assert("f2"@ != "tab"@) by { assert("f2"@.len() != "tab"@.len()); }
    assert("f2"@ != "space"@) by { assert("f2"@.len() != "space"@.len()); }
    assert("f2"@ != "backspace"@) by { assert("f2"@.len() != "backspace"@.len()); }
    assert("f2"@ != "delete"@) by { assert("f2"@.len() != "delete"@.len()); }
    assert("f2"@ != "up"@) by { assert("f2"@[0] != "up"@[0]); }
    assert("f2"@ != "down"@) by { assert("f2"@.len() != "down"@.len()); }
    assert("f2"@ != "left"@) by { assert("f2"@.len() != "left"@.len()); }
    assert("f2"@ != "right"@) by { assert("f2"@.len() != "right"@.len()); }
    assert("f2"@ != "f1"@) by { assert("f2"@[1] != "f1"@[1]); }
    assert("f3"@ != "enter"@) by { assert("f3"@.len() != "enter"@.len()); }
    assert("f3"@ != "escape"@) by { assert("f3"@.len() != "escape"@.len()); }
    assert("f3"@ != "tab"@) by { assert("f3"@.len() != "tab"@.len()); }
    assert("f3"@ != "space"@) by { assert("f3"@.len() != "space"@.len()); }
    assert("f3"@ != "backspace"@) by { assert("f3"@.len() != "backspace"@.len()); }
    assert("f3"@ != "delete"@) by { assert("f3"@.len() != "delete"@.len()); }
    assert("f3"@ != "up"@) by { assert("f3"@[0] != "up"@[0]); }
    assert("f3"@ != "down"@) by { assert("f3"@.len() != "down"@.len()); }
    assert("f3"@ != "left"@) by { assert("f3"@.len() != "left"@.len()); }
    assert("f3"@ != "right"@) by { assert("f3"@.len() != "right"@.len()); }
    assert("f3"@ != "f1"@) by { assert("f3"@[1] != "f1"@[1]); }
    assert("f3"@ != "f2"@) by { assert("f3"@[1] != "f2"@[1]); }
    assert("f4"@ != "enter"@) by { assert("f4"@.len() != "enter"@.len()); }
    assert("f4"@ != "escape"@) by { assert("f4"@.len() != "escape"@.len()); }
    assert("f4"@ != "tab"@) by { assert("f4"@.len() != "tab"@.len()); }
    assert("f4"@ != "space"@) by { assert("f4"@.len() != "space"@.len()); }
    assert("f4"@ != "backspace"@) by { assert("f4"@.len() != "backspace"@.len()); }
    assert("f4"@ != "delete"@) by { assert("f4"@.len() != "delete"@.len()); }
    assert("f4"@ != "up"@) by { assert("f4"@[0] != "up"@[0]); }
    assert("f4"@ != "down"@) by { assert("f4"@.len() != "down"@.len()); }
    assert("f4"@ != "left"@) by { assert("f4"@.len() != "left"@.len()); }
    assert("f4"@ != "right"@) by { assert("f4"@.len() != "right"@.len()); }
    assert("f4"@ != "f1"@) by { assert("f4"@[1] != "f1"@[1]); }
    assert("f4"@ != "f2"@) by { assert("f4"@[1] != "f2"@[1]); }
    assert("f4"@ != "f3"@) by { assert("f4"@[1] != "f3"@[1]); }
    assert("f5"@ != "enter"@) by { assert("f5"@.len() != "enter"@.len()); }
    assert("f5"@ != "escape"@) by { assert("f5"@.len() != "escape"@.len()); }
    assert("f5"@ != "tab"@) by { assert("f5"@.len() != "tab"@.len()); }
    assert("f5"@ != "space"@) by { assert("f5"@.len() != "space"@.len()); }
    assert("f5"@ != "backspace"@) by { assert("f5"@.len() != "backspace"@.len()); }
    assert("f5"@ != "delete"@) by { assert("f5"@.len() != "delete"@.len()); }
    assert("f5"@ != "up"@) by { assert("f5"@[0] != "up"@[0]); }
    assert("f5"@ != "down"@) by { assert("f5"@.len() != "down"@.len()); }
    assert("f5"@ != "left"@) by { assert("f5"@.len() != "left"@.len()); }
    assert("f5"@ != "right"@) by { assert("f5"@.len() != "right"@.len()); }
    assert("f5"@ != "f1"@) by { assert("f5"@[1] != "f1"@[1]); }
    assert("f5"@ != "f2"@) by { assert("f5"@[1] != "f2"@[1]); }
    assert("f5"@ != "f3"@) by { assert("f5"@[1] != "f3"@[1]); }
    assert("f5"@ != "f4"@) by { assert("f5"@[1] != "f4"@[1]); }
    assert("ctrl"@ != "enter"@) by { assert("ctrl"@.len() != "enter"@.len()); }
    assert("ctrl"@ != "escape"@) by { assert("ctrl"@.len() != "escape"@.len()); }
    assert("ctrl"@ != "tab"@) by { assert("ctrl"@.len() != "tab"@.len()); }
    assert("ctrl"@ != "space"@) by { assert("ctrl"@.len() != "space"@.len()); }
    assert("ctrl"@ != "backspace"@) by { assert("ctrl"@.len() != "backspace"@.len()); }
    assert("ctrl"@ != "delete"@) by { assert("ctrl"@.len() != "delete"@.len()); }
    assert("ctrl"@ != "up"@) by { assert("ctrl"@.len() != "up"@.len()); }
    assert("ctrl"@ != "down"@) by { assert("ctrl"@[0] != "down"@[0]); }
    assert("ctrl"@ != "left"@) by { assert("ctrl"@[0] != "left"@[0]); }
    assert("ctrl"@ != "right"@) by { assert("ctrl"@.len() != "right"@.len()); }
    assert("ctrl"@ != "f1"@) by { assert("ctrl"@.len() != "f1"@.len()); }
    assert("ctrl"@ != "f2"@) by { assert("ctrl"@.len() != "f2"@.len()); }
    assert("ctrl"@ != "f3"@) by { assert("ctrl"@.len() != "f3"@.len()); }
    assert("ctrl"@ != "f4"@) by { assert("ctrl"@.len() != "f4"@.len()); }
    assert("ctrl"@ != "f5"@) by { assert("ctrl"@.len() != "f5"@.len()); }
    assert("alt"@ != "enter"@) by { assert("alt"@.len() != "enter"@.len()); }
    assert("alt"@ != "escape"@) by { assert("alt"@.len() != "escape"@.len()); }
    assert("alt"@ != "tab"@) by { assert("alt"@[0] != "tab"@[0]); }
    assert("alt"@ != "space"@) by { assert("alt"@.len() != "space"@.len()); }
    assert("alt"@ != "backspace"@) by { assert("alt"@.len() != "backspace"@.len()); }
    assert("alt"@ != "delete"@) by { assert("alt"@.len() != "delete"@.len()); }
    assert("alt"@ != "up"@) by { assert("alt"@.len() != "up"@.len()); }
    assert("alt"@ != "down"@) by { assert("alt"@.len() != "down"@.len()); }
    assert("alt"@ != "left"@) by { assert("alt"@.len() != "left"@.len()); }
    assert("alt"@ != "right"@) by { assert("alt"@.len() != "right"@.len()); }
    assert("alt"@ != "f1"@) by { assert("alt"@.len() != "f1"@.len()); }
    assert("alt"@ != "f2"@) by { assert("alt"@.len() != "f2"@.len()); }
    assert("alt"@ != "f3"@) by { assert("alt"@.len() != "f3"@.len()); }
    assert("alt"@ != "f4"@) by { assert("alt"@.len() != "f4"@.len()); }
    assert("alt"@ != "f5"@) by { assert("alt"@.len() != "f5"@.len()); }
    assert("alt"@ != "ctrl"@) by { assert("alt"@.len() != "ctrl"@.len()); }
    assert("shift"@ != "enter"@) by { assert("shift"@[0] != "enter"@[0]); }
    assert("shift"@ != "escape"@) by { assert("shift"@.len() != "escape"@.len()); }
    assert("shift"@ != "tab"@) by { assert("shift"@.len() != "tab"@.len()); }
    assert("shift"@ != "space"@) by { assert("shift"@[1] != "space"@[1]); }
    assert("shift"@ != "backspace"@) by { assert("shift"@.len() != "backspace"@.len()); }
    assert("shift"@ != "delete"@) by { assert("shift"@.len() != "delete"@.len()); }
    assert("shift"@ != "up"@) by { assert("shift"@.len() != "up"@.len()); }
    assert("shift"@ != "down"@) by { assert("shift"@.len() != "down"@.len()); }
    assert("shift"@ != "left"@) by { assert("shift"@.len() != "left"@.len()); }
    assert("shift"@ != "right"@) by { assert("shift"@[0] != "right"@[0]); }
    assert("shift"@ != "f1"@) by { assert("shift"@.len() != "f1"@.len()); }
    assert("shift"@ != "f2"@) by { assert("shift"@.len() != "f2"@.len()); }
    assert("shift"@ != "f3"@) by { assert("shift"@.len() != "f3"@.len()); }
    assert("shift"@ != "f4"@) by { assert("shift"@.len() != "f4"@.len()); }
    assert("shift"@ != "f5"@) by { assert("shift"@.len() != "f5"@.len()); }
    assert("shift"@ != "ctrl"@) by { assert("shift"@.len() != "ctrl"@.len()); }
    assert("shift"@ != "alt"@) by { assert("shift"@.len() != "alt"@.len()); }
    assert("win"@ != "enter"@) by { assert("win"@.len() != "enter"@.len()); }
    assert("win"@ != "escape"@) by { assert("win"@.len() != "escape"@.len()); }
    assert("win"@ != "tab"@) by { assert("win"@[0] != "tab"@[0]); }
    assert("win"@ != "space"@) by { assert("win"@.len() != "space"@.len()); }
    assert("win"@ != "backspace"@) by { assert("win"@.len() != "backspace"@.len()); }
    assert("win"@ != "delete"@) by { assert("win"@.len() != "delete"@.len()); }
    assert("win"@ != "up"@) by { assert("win"@.len() != "up"@.len()); }
    assert("win"@ != "down"@) by { assert("win"@.len() != "down"@.len()); }
    assert("win"@ != "left"@) by { assert("win"@.len() != "left"@.len()); }
    assert("win"@ != "right"@) by { assert("win"@.len() != "right"@.len()); }
    assert("win"@ != "f1"@) by { assert("win"@.len() != "f1"@.len()); }
    assert("win"@ != "f2"@) by { assert("win"@.len() != "f2"@.len()); }
    assert("win"@ != "f3"@) by { assert("win"@.len() != "f3"@.len()); }
    assert("win"@ != "f4"@) by { assert("win"@.len() != "f4"@.len()); }
    assert("win"@ != "f5"@) by { assert("win"@.len() != "f5"@.len()); }
    assert("win"@ != "ctrl"@) by { assert("win"@.len() != "ctrl"@.len()); }
    assert("win"@ != "alt"@) by { assert("win"@[0] != "alt"@[0]); }
    assert("win"@ != "shift"@) by { assert("win"@.len() != "shift"@.len()); }
    assert("return"@ != "enter"@) by { assert("return"@.len() != "enter"@.len()); }
    assert("return"@ != "escape"@) by { assert("return"@[0] != "escape"@[0]); }
    assert("return"@ != "tab"@) by { assert("return"@.len() != "tab"@.len()); }
    assert("return"@ != "space"@) by { assert("return"@.len() != "space"@.len()); }
    assert("return"@ != "backspace"@) by { assert("return"@.len() != "backspace"@.len()); }
    assert("return"@ != "delete"@) by { assert("return"@[0] != "delete"@[0]); }
    assert("return"@ != "up"@) by { assert("return"@.len() != "up"@.len()); }
    assert("return"@ != "down"@) by { assert("return"@.len() != "down"@.len()); }
    assert("return"@ != "left"@) by { assert("return"@.len() != "left"@.len()); }
    assert("return"@ != "right"@) by { assert("return"@.len() != "right"@.len()); }
    assert("return"@ != "f1"@) by { assert("return"@.len() != "f1"@.len()); }
    assert("return"@ != "f2"@) by { assert("return"@.len() != "f2"@.len()); }
    assert("return"@ != "f3"@) by { assert("return"@.len() != "f3"@.len()); }
    assert("return"@ != "f4"@) by { assert("return"@.len() != "f4"@.len()); }
    assert("return"@ != "f5"@) by { assert("return"@.len() != "f5"@.len()); }
    assert("return"@ != "ctrl"@) by { assert("return"@.len() != "ctrl"@.len()); }
    assert("return"@ != "alt"@) by { assert("return"@.len() != "alt"@.len()); }
    assert("return"@ != "shift"@) by { assert("return"@.len() != "shift"@.len()); }
    assert("return"@ != "win"@) by { assert("return"@.len() != "win"@.len()); }
    assert("esc"@ != "enter"@) by { assert("esc"@.len() != "enter"@.len()); }
    assert("esc"@ != "escape"@) by { assert("esc"@.len() != "escape"@.len()); }
    assert("esc"@ != "tab"@) by { assert("esc"@[0] != "tab"@[0]); }
    assert("esc"@ != "space"@) by { assert("esc"@.len() != "space"@.len()); }
    assert("esc"@ != "backspace"@) by { assert("esc"@.len() != "backspace"@.len()); }
    assert("esc"@ != "delete"@) by { assert("esc"@.len() != "delete"@.len()); }
    assert("esc"@ != "up"@) by { assert("esc"@.len() != "up"@.len()); }
    assert("esc"@ != "down"@) by { assert("esc"@.len() != "down"@.len()); }
    assert("esc"@ != "left"@) by { assert("esc"@.len() != "left"@.len()); }
    assert("esc"@ != "right"@) by { assert("esc"@.len() != "right"@.len()); }
    assert("esc"@ != "f1"@) by { assert("esc"@.len() != "f1"@.len()); }
    assert("esc"@ != "f2"@) by { assert("esc"@.len() != "f2"@.len()); }
    assert("esc"@ != "f3"@) by { assert("esc"@.len() != "f3"@.len()); }
    assert("esc"@ != "f4"@) by { assert("esc"@.len() != "f4"@.len()); }
    assert("esc"@ != "f5"@) by { assert("esc"@.len() != "f5"@.len()); }
    assert("esc"@ != "ctrl"@) by { assert("esc"@.len() != "ctrl"@.len()); }
    assert("esc"@ != "alt"@) by { assert("esc"@[0] != "alt"@[0]); }
    assert("esc"@ != "shift"@) by { assert("esc"@.len() != "shift"@.len()); }
    assert("esc"@ != "win"@) by { assert("esc"@[0] != "win"@[0]); }
    assert("esc"@ != "return"@) by { assert("esc"@.len() != "return"@.len()); }
    assert("del"@ != "enter"@) by { assert("del"@.len() != "enter"@.len()); }
    assert("del"@ != "escape"@) by { assert("del"@.len() != "escape"@.len()); }
    assert("del"@ != "tab"@) by { assert("del"@[0] != "tab"@[0]); }
    assert("del"@ != "space"@) by { assert("del"@.len() != "space"@.len()); }
    assert("del"@ != "backspace"@) by { assert("del"@.len() != "backspace"@.len()); }
    assert("del"@ != "delete"@) by { assert("del"@.len() != "delete"@.len()); }
    assert("del"@ != "up"@) by { assert("del"@.len() != "up"@.len()); }
    assert("del"@ != "down"@) by { assert("del"@.len() != "down"@.len()); }
    assert("del"@ != "left"@) by { assert("del"@.len() != "left"@.len()); }
    assert("del"@ != "right"@) by { assert("del"@.len() != "right"@.len()); }
    assert("del"@ != "f1"@) by { assert("del"@.len() != "f1"@.len()); }
    assert("del"@ != "f2"@) by { assert("del"@.len() != "f2"@.len()); }
    assert("del"@ != "f3"@) by { assert("del"@.len() != "f3"@.len()); }
    assert("del"@ != "f4"@) by { assert("del"@.len() != "f4"@.len()); }
    assert("del"@ != "f5"@) by { assert("del"@.len() != "f5"@.len()); }
    assert("del"@ != "ctrl"@) by { assert("del"@.len() != "ctrl"@.len()); }
    assert("del"@ != "alt"@) by { assert("del"@[0] != "alt"@[0]); }
    assert("del"@ != "shift"@) by { assert("del"@.len() != "shift"@.len()); }
    assert("del"@ != "win"@) by { assert("del"@[0] != "win"@[0]); }
    assert("del"@ != "return"@) by { assert("del"@.len() != "return"@.len()); }
    assert("del"@ != "esc"@) by { assert("del"@[0] != "esc"@[0]); }
    assert("control"@ != "enter"@) by { assert("control"@.len() != "enter"@.len()); }
    assert("control"@ != "escape"@) by { assert("control"@.len() != "escape"@.len()); }
    assert("control"@ != "tab"@) by { assert("control"@.len() != "tab"@.len()); }
    assert("control"@ != "space"@) by { assert("control"@.len() != "space"@.len()); }
    assert("control"@ != "backspace"@) by { assert("control"@.len() != "backspace"@.len()); }
    assert("control"@ != "delete"@) by { assert("control"@.len() != "delete"@.len()); }
    assert("control"@ != "up"@) by { assert("control"@.len() != "up"@.len()); }
    assert("control"@ != "down"@) by { assert("control"@.len() != "down"@.len()); }
    assert("control"@ != "left"@) by { assert("control"@.len() != "left"@.len()); }
    assert("control"@ != "right"@) by { assert("control"@.len() != "right"@.len()); }
    assert("control"@ != "f1"@) by { assert("control"@.len() != "f1"@.len()); }
    assert("control"@ != "f2"@) by { assert("control"@.len() != "f2"@.len()); }
    assert("control"@ != "f3"@) by { assert("control"@.len() != "f3"@.len()); }
    assert("control"@ != "f4"@) by { assert("control"@.len() != "f4"@.len()); }
    assert("control"@ != "f5"@) by { assert("control"@.len() != "f5"@.len()); }
    assert("control"@ != "ctrl"@) by { assert("control"@.len() != "ctrl"@.len()); }
    assert("control"@ != "alt"@) by { assert("control"@.len() != "alt"@.len()); }
    assert("control"@ != "shift"@) by { assert("control"@.len() != "shift"@.len()); }
    assert("control"@ != "win"@) by { assert("control"@.len() != "win"@.len()); }
    assert("control"@ != "return"@) by { assert("control"@.len() != "return"@.len()); }
    assert("control"@ != "esc"@) by { assert("control"@.len() != "esc"@.len()); }
    assert("control"@ != "del"@) by { assert("control"@.len() != "del"@.len()); }
    assert("super"@ != "enter"@) by { assert("super"@[0] != "enter"@[0]); }
    assert("super"@ != "escape"@) by { assert("super"@.len() != "escape"@.len()); }
    assert("super"@ != "tab"@) by { assert("super"@.len() != "tab"@.len()); }
    assert("super"@ != "space"@) by { assert("super"@[1] != "space"@[1]); }
    assert("super"@ != "backspace"@) by { assert("super"@.len() != "backspace"@.len()); }
    assert("super"@ != "delete"@) by { assert("super"@.len() != "delete"@.len()); }
    assert("super"@ != "up"@) by { assert("super"@.len() != "up"@.len()); }
    assert("super"@ != "down"@) by { assert("super"@.len() != "down"@.len()); }
    assert("super"@ != "left"@) by { assert("super"@.len() != "left"@.len()); }
    assert("super"@ != "right"@) by { assert("super"@[0] != "right"@[0]); }
    assert("super"@ != "f1"@) by { assert("super"@.len() != "f1"@.len()); }
    assert("super"@ != "f2"@) by { assert("super"@.len() != "f2"@.len()); }
    assert("super"@ != "f3"@) by { assert("super"@.len() != "f3"@.len()); }
    assert("super"@ != "f4"@) by { assert("super"@.len() != "f4"@.len()); }
    assert("super"@ != "f5"@) by { assert("super"@.len() != "f5"@.len()); }
    assert("super"@ != "ctrl"@) by { assert("super"@.len() != "ctrl"@.len()); }
    assert("super"@ != "alt"@) by { assert("super"@.len() != "alt"@.len()); }
    assert("super"@ != "shift"@) by { assert("super"@[1] != "shift"@[1]); }
    assert("super"@ != "win"@) by { assert("super"@.len() != "win"@.len()); }
    assert("super"@ != "return"@) by { assert("super"@.len() != "return"@.len()); }
    assert("super"@ != "esc"@) by { assert("super"@.len() != "esc"@.len()); }
    assert("super"@ != "del"@) by { assert("super"@.len() != "del"@.len()); }
    assert("super"@ != "control"@) by { assert("super"@.len() != "control"@.len()); }
    match k {
        Key::Char(c) => {
            if (c as u32) < 128 {
                let l = key_label(k);
                assert(l.len() == 1);
                assert(l != "enter"@);
                assert(l != "escape"@);
                assert(l != "tab"@);
                assert(l != "space"@);
                assert(l != "backspace"@);
                assert(l != "delete"@);
                assert(l != "up"@);
                assert(l != "down"@);
                assert(l != "left"@);
                assert(l != "right"@);
                assert(l != "f1"@);
                assert(l != "f2"@);
                assert(l != "f3"@);
                assert(l != "f4"@);
                assert(l != "f5"@);
                assert(l != "ctrl"@);
                assert(l != "alt"@);
                assert(l != "shift"@);
                assert(l != "win"@);
                assert(l != "return"@);
                assert(l != "esc"@);
                assert(l != "del"@);
                assert(l != "control"@);
                assert(l != "super"@);
            }
        },
        _ => {},
    }
    if key_named(name) == Some(k) && k is Char {
        assert(name != "enter"@);
        assert(name != "escape"@);
        assert(name != "tab"@);
        assert(name != "space"@);
        assert(name != "backspace"@);
        assert(name != "delete"@);
        assert(name != "up"@);
        assert(name != "down"@);
        assert(name != "left"@);
        assert(name != "right"@);
        assert(name != "f1"@);
        assert(name != "f2"@);
        assert(name != "f3"@);
        assert(name != "f4"@);
        assert(name != "f5"@);
        assert(name != "return"@);
        assert(name != "esc"@);
        assert(name != "del"@);
        assert(name =~= seq![name[0]]);
    }
}

/// Reads a key description.
pub fn press_key(key: &str) -> (r: KeyPress)
    ensures
        r@ == key_press(key@),
{
    let lower = crate::text::to_lowercase(key);
    let lc = chars_of(lower.as_str());
    let raw = crate::lines::split_char(lc.as_slice(), '+');
    proof {
        crate::lines::lemma_split_on_len(lower@, '+');
    }
    let ghost rv = raw@.map_values(|v: Vec<char>| v@);
    let mut parts: Vec<String> = Vec::new();
    let mut i: usize = 0;
    while i < raw.len()
        invariant
            i <= raw@.len(),
            rv == raw@.map_values(|v: Vec<char>| v@),
            rv == crate::lines::split_on(lower@, '+'),
            parts.deep_view() == rv.take(i as int).map_values(|p: Seq<char>| trimmed(p)),
        decreases raw@.len() - i,
    {
        let ghost before = parts.deep_view();
        let t = trim(string_of(raw[i].as_slice()).as_str());
        parts.push(t);
        assert(parts.deep_view() =~= before.push(trimmed(rv[i as int])));
        assert(rv.take(i + 1).map_values(|p: Seq<char>| trimmed(p)) =~= rv.take(i as int).map_values(
            |p: Seq<char>| trimmed(p),
        ).push(trimmed(rv[i as int])));
        i = i + 1;
    }
    assert(rv.take(raw@.len() as int) =~= rv);
    let ghost pv = parts.deep_view();
    assert(pv == key_parts(key@));
    let n = parts.len();
    if n == 1 {
        return match key_exec(parts[0].as_str()) {
            Some(k) => KeyPress::Single(k),
            None => KeyPress::Unknown,
        };
    }
    let main = match key_exec(parts[n - 1].as_str()) {
        Some(k) => k,
        None => {
            return KeyPress::Unknown;
        },
    };
    let mut mods: Vec<Key> = Vec::new();
    let mut j: usize = 0;
    while j < n - 1
        invariant
            n == parts@.len(),
            n >= 1,
            j <= n - 1,
            pv == parts.deep_view(),
            mods@ == modifiers_of(pv, j as int),
        decreases n - 1 - j,
    {
        assert(pv[j as int] == parts@[j as int]@);
        match modifier_exec(parts[j].as_str()) {
            Some(m) => {
                mods.push(m);
            },
            None => {},
        }
        j = j + 1;
    }
    KeyPress::Combo { modifiers: mods, key: main }
}

/// The report after pressing a key description.
pub fn key_pressed_message(key: &str, pressed: bool) -> (r: ToolResult)
    ensures
        r@ == (if pressed {
            ok_view("Pressed "@ + key@)
        } else {
            err_view("Unknown key: "@ + key@)
        }),
{
    if pressed {
        ToolResult::ok(cat("Pressed ", key))
    } else {
        ToolResult::err(cat("Unknown key: ", key))
    }
}

} // verus!
