//! Guardrails: common requests answered without a model round-trip.
//!
//! A user message is held against a fixed sequence of intercepts (screenshot
//! notice, Spotify/YouTube/Google searches, GitHub repositories,
//! notifications, system information, single-metric commands, file search).
//! The first one that applies decides what happens; only a message that no
//! intercept claims goes to the language model.
use vstd::prelude::*;

use crate::guard::{first_hit, lemma_first_hit_from};
use crate::pattern::{
    captures_all, compile, group_or_empty, group_text, groups_view, pattern_captures,
    pattern_test, regex_captures_all, regex_captures_of, regex_compiles, regex_test,
    replace_all, regex_replace_all,
};
use crate::text::{
    cat, cat3, chars_of, find_first, first_index, string_of, split_count_exceeds, lowercase, owned, split_count, str_contains, str_eq, has_sub,
    to_lowercase, trim, trimmed, has_prefix, occurs_at,
};
use crate::lines::{lines_exec, lines_of};
use crate::tools::ToolResult;

verus! {

// ── Patterns ───────────────────────────────────────────────────────────────
//
// What each intercept looks for in a message (`_P`), and the patterns the
// extractors read their terms with.

pub const SCREENSHOT_P: &'static str = r"screenshot|what('s| is) on (my )?screen|what do you see";
pub const SPOTIFY_P: &'static str = r"(?i)\bspotify\b.*(play|search|open)|(play|search).*\bspotify\b";
pub const YOUTUBE_P: &'static str = r"(?i)(search|look up).*(on|in)\s+youtube|youtube.*(search|look up)";
pub const GOOGLE_P: &'static str = r"(?i)(search|look up).*(on|in)\s+google|google.*(search|look up)";
pub const GITHUB_P: &'static str = r"(?i)\bgithub\b";
pub const TIMER_P: &'static str = r"(?i)\b(set|start|create)\b.*\btimer\b|\btimer\b.*\b(for|of)\b";
pub const NOTIFY_P: &'static str = r"(?i)\b(show|send|display|give me|pop up)\b.*\bnotification\b|\bnotif(y|ication)\b.*\bsaying\b";
pub const IP_P: &'static str = r"(?i)\b(public\s+)?ip(\s+address)?\b";
pub const NAME_P: &'static str = r"(?i)\b(computer|pc|machine|host)\s*name\b";
pub const WIN_P: &'static str = r"(?i)\bwindows\s*(version|ver)\b|\bos\s*version\b";
pub const CPU_P: &'static str = r"(?i)\b(cpu|processor)\b";
pub const RAM_P: &'static str = r"(?i)\bhow much\s+(ram|memory)\b|\b(ram|memory)\s+(do i have|is free|total|available)\b";
pub const DISK_P: &'static str = r"(?i)\b(disk|drive|storage|space)\b";
pub const UPTIME_P: &'static str = r"(?i)\buptime\b";
pub const FILE_P: &'static str = r"(?i)\b(find|search|look for|locate)\b.*\bfile[s]?\b|\bfile[s]?\b.*\b(find|search|on desktop|in downloads|in documents)\b";
pub const SPOTIFY_PLAY_P: &'static str = r"(?i)\bplay\s+(.+?)(?:\s+by\s+(.+?))?(?:\s+on\s+spotify)?$";
pub const SPOTIFY_SEARCH_P: &'static str = r"(?i)\bsearch\s+(?:for\s+)?(.+?)\s+(?:on\s+)?spotify";
pub const YOUTUBE_Q1_P: &'static str = r"(?i)\bsearch\s+(?:for\s+)?(.+?)\s+(?:on|in)\s+youtube";
pub const YOUTUBE_Q2_P: &'static str = r"(?i)\byoutube\b.*\bsearch\s+(?:for\s+)?(.+)";
pub const GOOGLE_Q1_P: &'static str = r"(?i)\bsearch\s+(?:for\s+)?(.+?)\s+(?:on|in)\s+google";
pub const GOOGLE_Q2_P: &'static str = r"(?i)\bgoogle\b.*\bsearch\s+(?:for\s+)?(.+)";
pub const GITHUB_URL_P: &'static str = r"(?i)github\.com/([\w.-]+)/([\w.-]+)";
pub const NAVIGATE_P: &'static str = r"(?i)\b(open|clone|go to|goto|visit|launch|show)\b";
pub const PAIR_P: &'static str = r"\b([A-Za-z0-9][\w.-]*)/([A-Za-z0-9][\w.-]*)\b";
pub const QUOTED_P: &'static str = r#"["']([^"']+)["']"#;
pub const SAYING_P: &'static str = r"(?i)\bsaying\s+(.+?)$";
pub const NOTIFY_WORDS_P: &'static str = r"(?i)(show|send|display|give me|pop up)\s+(a\s+)?notification(\s+saying)?";
pub const EXT_P: &'static str = r"(?i)\b(pdf|docx?|txt|xlsx?|png|jpg|jpeg|mp4|mp3|zip)\b";
pub const NAMED_P: &'static str = r#"(?i)\bnamed?\s+["']?([^\s"']+)["']?"#;
pub const RAM_REPLY_P: &'static str = r"RAM:\s*([\d.]+)GB total,\s*([\d.]+)GB free";

// ── Texts ──────────────────────────────────────────────────────────────────

pub const SCREENSHOT_REPLY: &'static str = "📸 Screenshot requires Gemini (vision model). Switch to Gemini in ⚙️ Settings.";
pub const SPOTIFY_HOME: &'static str = "https://open.spotify.com";
pub const SPOTIFY_SEARCH: &'static str = "https://open.spotify.com/search/";
pub const YOUTUBE_HOME: &'static str = "https://www.youtube.com";
pub const YOUTUBE_SEARCH: &'static str = "https://www.youtube.com/results?search_query=";
pub const GOOGLE_HOME: &'static str = "https://www.google.com";
pub const GOOGLE_SEARCH: &'static str = "https://www.google.com/search?q=";
pub const GITHUB_HOME: &'static str = "https://github.com/";
pub const OPENED: &'static str = "Opened ";
pub const SEARCHED_FOR: &'static str = " and searched for \"";
pub const QUOTE: &'static str = "\"";
pub const PERIOD: &'static str = ".";
pub const SPACE: &'static str = " ";
pub const SLASH: &'static str = "/";
pub const DONE_WORD: &'static str = "Done";
pub const AND_SEP: &'static str = " and ";

// ── URL encoding ───────────────────────────────────────────────────────────

/// The UTF-8 bytes of one character.
pub open spec fn utf8_bytes(c: char) -> Seq<u8> {
    let v = c as u32 as int;
    if v < 0x80 {
        seq![v as u8]
    } else if v < 0x800 {
        seq![(0xC0 + v / 64) as u8, (0x80 + v % 64) as u8]
    } else if v < 0x10000 {
        seq![(0xE0 + v / 4096) as u8, (0x80 + (v / 64) % 64) as u8, (0x80 + v % 64) as u8]
    } else {
        seq![
            (0xF0 + v / 262144) as u8,
            (0x80 + (v / 4096) % 64) as u8,
            (0x80 + (v / 64) % 64) as u8,
            (0x80 + v % 64) as u8,
        ]
    }
}

/// An upper-case hexadecimal digit.
pub open spec fn hex_digit(d: int) -> char {
    if d < 10 {
        (48 + d) as char
    } else {
        (55 + d) as char
    }
}

/// A byte that form encoding leaves as it is: `*`, `-`, `.`, `_`, a digit
/// or an ASCII letter.
pub open spec fn form_safe(b: u8) -> bool {
    b == 42 || b == 45 || b == 46 || (48 <= b <= 57) || (65 <= b <= 90) || b == 95 || (97 <= b <= 122)
}

/// How form encoding writes one byte: as itself when safe, a space as `+`,
/// anything else as `%` and two upper-case hexadecimal digits.
pub open spec fn form_byte(b: u8) -> Seq<char> {
    if form_safe(b) {
        seq![b as char]
    } else if b == 32 {
        seq!['+']
    } else {
        seq!['%', hex_digit(b as int / 16), hex_digit(b as int % 16)]
    }
}

/// Form encoding of a byte string.
pub open spec fn form_bytes(bs: Seq<u8>) -> Seq<char>
    decreases bs.len(),
{
    if bs.len() == 0 {
        Seq::empty()
    } else {
        form_byte(bs[0]) + form_bytes(bs.skip(1))
    }
}

/// The `application/x-www-form-urlencoded` form of a text: the form
/// encoding of its UTF-8 bytes.
pub open spec fn form_urlencoded_text(text: Seq<char>) -> Seq<char> {
    crate::text::expand(text, |c: char| form_bytes(utf8_bytes(c)))
}

/// Calls `form_urlencoded::byte_serialize` on the UTF-8 bytes of a text and
/// joins the pieces. The crate's source leaves `*`, `-`, `.`, `_`, digits
/// and ASCII letters as they are, writes a space as `+` and every other
/// byte as `%XX` with upper-case hexadecimal digits.
#[verifier::external_body]
fn url_encode(s: &str) -> (r: String)
    ensures
        r@ == form_urlencoded_text(s@),
{
    form_urlencoded::byte_serialize(s.as_bytes()).collect()
}

// ── Query extractors ───────────────────────────────────────────────────────

/// The Spotify search terms in a message: "play SONG [by ARTIST]" first,
/// then "search [for] X [on] spotify", else nothing.
pub open spec fn spotify_query(msg: Seq<char>) -> Seq<char> {
    match pattern_captures(SPOTIFY_PLAY_P@, msg) {
        Some(g) => {
            let song = trimmed(group_or_empty(g, 1));
            let artist = group_or_empty(g, 2);
            if artist.len() == 0 {
                song
            } else {
                song + SPACE@ + trimmed(artist)
            }
        },
        None => match pattern_captures(SPOTIFY_SEARCH_P@, msg) {
            Some(g) => trimmed(group_or_empty(g, 1)),
            None => Seq::empty(),
        },
    }
}

/// Extracts the Spotify search terms from a message.
pub fn extract_spotify_query(msg: &str) -> (r: String)
    ensures
        r@ == spotify_query(msg@),
{
    match regex_captures_of(msg, SPOTIFY_PLAY_P) {
        Some(g) => {
            let song = trim(group_text(&g, 1).as_str());
            let artist = group_text(&g, 2);
            if artist.as_str().unicode_len() == 0 {
                song
            } else {
                cat3(song.as_str(), SPACE, trim(artist.as_str()).as_str())
            }
        },
        None => match regex_captures_of(msg, SPOTIFY_SEARCH_P) {
            Some(g) => trim(group_text(&g, 1).as_str()),
            None => String::new(),
        },
    }
}

/// Group 1 of the first of two patterns that matches, trimmed; else nothing.
pub open spec fn first_query(p1: Seq<char>, p2: Seq<char>, msg: Seq<char>) -> Seq<char> {
    match pattern_captures(p1, msg) {
        Some(g) => trimmed(group_or_empty(g, 1)),
        None => match pattern_captures(p2, msg) {
            Some(g) => trimmed(group_or_empty(g, 1)),
            None => Seq::empty(),
        },
    }
}

fn extract_first_query(msg: &str, p1: &str, p2: &str) -> (r: String)
    ensures
        r@ == first_query(p1@, p2@, msg@),
{
    match regex_captures_of(msg, p1) {
        Some(g) => trim(group_text(&g, 1).as_str()),
        None => match regex_captures_of(msg, p2) {
            Some(g) => trim(group_text(&g, 1).as_str()),
            None => String::new(),
        },
    }
}

/// The YouTube search terms in a message.
pub open spec fn youtube_query(msg: Seq<char>) -> Seq<char> {
    first_query(YOUTUBE_Q1_P@, YOUTUBE_Q2_P@, msg)
}

/// Extracts the YouTube search terms from a message.
pub fn extract_yt_query(msg: &str) -> (r: String)
    ensures
        r@ == youtube_query(msg@),
{
    extract_first_query(msg, YOUTUBE_Q1_P, YOUTUBE_Q2_P)
}

/// The Google search terms in a message.
pub open spec fn google_query(msg: Seq<char>) -> Seq<char> {
    first_query(GOOGLE_Q1_P@, GOOGLE_Q2_P@, msg)
}

/// Extracts the Google search terms from a message.
pub fn extract_google_query(msg: &str) -> (r: String)
    ensures
        r@ == google_query(msg@),
{
    extract_first_query(msg, GOOGLE_Q1_P, GOOGLE_Q2_P)
}

/// Slash-separated pairs that are common words rather than repositories.
pub open spec fn denied_pair(pair: Seq<char>) -> bool {
    pair == "ci/cd"@ || pair == "and/or"@ || pair == "tcp/ip"@ || pair == "http/https"@ || pair
        == "n/a"@ || pair == "i/o"@ || pair == "w/o"@ || pair == "24/7"@ || pair == "km/h"@ || pair
        == "either/or"@ || pair == "read/write"@ || pair == "input/output"@
}

fn is_denied_pair(pair: &str) -> (r: bool)
    ensures
        r == denied_pair(pair@),
{
    str_eq(pair, "ci/cd") || str_eq(pair, "and/or") || str_eq(pair, "tcp/ip") || str_eq(
        pair,
        "http/https",
    ) || str_eq(pair, "n/a") || str_eq(pair, "i/o") || str_eq(pair, "w/o") || str_eq(pair, "24/7")
        || str_eq(pair, "km/h") || str_eq(pair, "either/or") || str_eq(pair, "read/write")
        || str_eq(pair, "input/output")
}

/// The first owner/repo pair, at or after match `i`, that is not a common
/// word pair.
pub open spec fn first_repo(caps: Seq<Seq<Option<Seq<char>>>>, i: int) -> Option<Seq<char>>
    decreases caps.len() - i,
{
    if i < 0 || i >= caps.len() {
        None
    } else {
        let a = group_or_empty(caps[i], 1);
        let b = group_or_empty(caps[i], 2);
        if denied_pair(lowercase(a) + SLASH@ + lowercase(b)) {
            first_repo(caps, i + 1)
        } else {
            Some(a + SLASH@ + b)
        }
    }
}

/// The GitHub repository a message names: an explicit `github.com/o/r`
/// URL, else (only when the message asks to open or visit something) the
/// first bare `owner/repo` pair that is not a common word pair.
pub open spec fn github_repo(msg: Seq<char>) -> Option<Seq<char>> {
    match pattern_captures(GITHUB_URL_P@, msg) {
        Some(g) => Some(group_or_empty(g, 1) + SLASH@ + group_or_empty(g, 2)),
        None => if !pattern_test(NAVIGATE_P@, msg) || !regex_compiles(PAIR_P@) {
            None
        } else {
            first_repo(regex_captures_all(PAIR_P@, msg), 0)
        },
    }
}

/// Extracts the GitHub repository a message names.
pub fn extract_github_repo(msg: &str) -> (r: Option<String>)
    ensures
        match r {
            Some(s) => github_repo(msg@) == Some(s@),
            None => github_repo(msg@) is None,
        },
{
    match regex_captures_of(msg, GITHUB_URL_P) {
        Some(g) => {
            return Some(cat3(group_text(&g, 1).as_str(), SLASH, group_text(&g, 2).as_str()));
        },
        None => {},
    }
    if !regex_test(msg, NAVIGATE_P) {
        return None;
    }
    let p = match compile(PAIR_P) {
        Some(p) => p,
        None => return None,
    };
    let caps = captures_all(&p, msg);
    let ghost views = caps@.map_values(|g: Vec<Option<String>>| groups_view(g@));
    let mut i: usize = 0;
    while i < caps.len()
        invariant
            i <= caps@.len(),
            views == caps@.map_values(|g: Vec<Option<String>>| groups_view(g@)),
            views == regex_captures_all(PAIR_P@, msg@),
            github_repo(msg@) == first_repo(views, i as int),
        decreases caps@.len() - i,
    {
        assert(views[i as int] == groups_view(caps@[i as int]@));
        let a = group_text(&caps[i], 1);
        let b = group_text(&caps[i], 2);
        let pair = cat3(to_lowercase(a.as_str()).as_str(), SLASH, to_lowercase(b.as_str()).as_str());
        if !is_denied_pair(pair.as_str()) {
            return Some(cat3(a.as_str(), SLASH, b.as_str()));
        }
        i = i + 1;
    }
    None
}

/// The text of a requested notification: quoted text first, then what
/// follows "saying", else the message without its notification keywords
/// (or `Done` when nothing is left).
pub open spec fn notification_text(msg: Seq<char>) -> Seq<char> {
    match pattern_captures(QUOTED_P@, msg) {
        Some(g) => group_or_empty(g, 1),
        None => match pattern_captures(SAYING_P@, msg) {
            Some(g) => trimmed(group_or_empty(g, 1)),
            None => if regex_compiles(NOTIFY_WORDS_P@) && trimmed(
                regex_replace_all(NOTIFY_WORDS_P@, msg, Seq::empty()),
            ).len() > 0 {
                trimmed(regex_replace_all(NOTIFY_WORDS_P@, msg, Seq::empty()))
            } else {
                DONE_WORD@
            },
        },
    }
}

/// Extracts the text of a requested notification from a message.
pub fn extract_notification_text(msg: &str) -> (r: String)
    ensures
        r@ == notification_text(msg@),
{
    match regex_captures_of(msg, QUOTED_P) {
        Some(g) => {
            return group_text(&g, 1);
        },
        None => {},
    }
    match regex_captures_of(msg, SAYING_P) {
        Some(g) => {
            return trim(group_text(&g, 1).as_str());
        },
        None => {},
    }
    match compile(NOTIFY_WORDS_P) {
        Some(p) => {
            let stripped = trim(replace_all(&p, msg, "").as_str());
            proof {
                assert(""@ =~= Seq::<char>::empty()) by {
                    reveal_strlit("");
                }
            }
            if stripped.as_str().unicode_len() > 0 {
                stripped
            } else {
                owned(DONE_WORD)
            }
        },
        None => owned(DONE_WORD),
    }
}

// ── System information ─────────────────────────────────────────────────────

/// Which pieces of system information a message asks for.
#[derive(Clone, Copy, Debug)]
pub struct SysinfoFlags {
    pub ip: bool,
    pub name: bool,
    pub win: bool,
    pub cpu: bool,
    pub ram: bool,
    pub disk: bool,
    pub uptime: bool,
}

/// The pieces of system information a message asks for.
pub open spec fn sysinfo_flags(msg: Seq<char>) -> SysinfoFlags {
    SysinfoFlags {
        ip: pattern_test(IP_P@, msg),
        name: pattern_test(NAME_P@, msg),
        win: pattern_test(WIN_P@, msg),
        cpu: pattern_test(CPU_P@, msg),
        ram: pattern_test(RAM_P@, msg),
        disk: pattern_test(DISK_P@, msg),
        uptime: pattern_test(UPTIME_P@, msg),
    }
}

/// How many pieces are asked for.
pub open spec fn flag_count(f: SysinfoFlags) -> nat {
    (if f.ip { 1nat } else { 0nat }) + (if f.name { 1nat } else { 0nat }) + (if f.win {
        1nat
    } else {
        0nat
    }) + (if f.cpu { 1nat } else { 0nat }) + (if f.ram { 1nat } else { 0nat }) + (if f.disk {
        1nat
    } else {
        0nat
    }) + (if f.uptime { 1nat } else { 0nat })
}

/// Detects which pieces of system information a message asks for.
pub fn detect_sysinfo(msg: &str) -> (r: SysinfoFlags)
    ensures
        r == sysinfo_flags(msg@),
{
    SysinfoFlags {
        ip: regex_test(msg, IP_P),
        name: regex_test(msg, NAME_P),
        win: regex_test(msg, WIN_P),
        cpu: regex_test(msg, CPU_P),
        ram: regex_test(msg, RAM_P),
        disk: regex_test(msg, DISK_P),
        uptime: regex_test(msg, UPTIME_P),
    }
}

/// Counts the pieces asked for.
pub fn count_flags(f: SysinfoFlags) -> (r: usize)
    ensures
        r == flag_count(f),
{
    let mut n: usize = 0;
    if f.ip {
        n = n + 1;
    }
    if f.name {
        n = n + 1;
    }
    if f.win {
        n = n + 1;
    }
    if f.cpu {
        n = n + 1;
    }
    if f.ram {
        n = n + 1;
    }
    if f.disk {
        n = n + 1;
    }
    if f.uptime {
        n = n + 1;
    }
    n
}

pub const IP_CMD: &'static str = "$ip=(Invoke-RestMethod https://api.ipify.org)";
pub const IP_PART: &'static str = "\"IP: \" + $ip";
pub const NAME_CMD: &'static str = "$name=$env:COMPUTERNAME";
pub const NAME_PART: &'static str = "\"Computer: \" + $name";
pub const WIN_CMD: &'static str = "$win=(Get-WmiObject Win32_OperatingSystem).Caption";
pub const WIN_PART: &'static str = "\"OS: \" + $win";
pub const CPU_CMD: &'static str = "$cpu=(Get-WmiObject Win32_Processor).Name + \" — \" + (Get-WmiObject Win32_Processor).NumberOfCores + \" cores\"";
pub const CPU_PART: &'static str = "\"CPU: \" + $cpu";
pub const RAM_CMD: &'static str = "$total=[math]::Round((Get-WmiObject Win32_OperatingSystem).TotalVisibleMemorySize/1MB,2); $free=[math]::Round((Get-WmiObject Win32_OperatingSystem).FreePhysicalMemory/1MB,2)";
pub const RAM_PART: &'static str = "\"RAM: \" + $total + \"GB total, \" + $free + \"GB free\"";
pub const DISK_CMD: &'static str = "$df=[math]::Round((Get-PSDrive C).Free/1GB,1); $dt=[math]::Round(((Get-PSDrive C).Used+(Get-PSDrive C).Free)/1GB,1)";
pub const DISK_PART: &'static str = "\"Disk C: \" + $df + \"GB free of \" + $dt + \"GB\"";
pub const UPTIME_CMD: &'static str = "$up=[math]::Round(((Get-Date)-(gcim Win32_OperatingSystem).LastBootUpTime).TotalHours,1)";
pub const UPTIME_PART: &'static str = "\"Uptime: \" + $up + \" hours\"";
pub const CMD_SEP: &'static str = "; ";
pub const PART_SEP: &'static str = "; \" | \"; ";

/// `s` with `x` appended when `b` holds.
pub open spec fn push_if(s: Seq<Seq<char>>, b: bool, x: Seq<char>) -> Seq<Seq<char>> {
    if b {
        s.push(x)
    } else {
        s
    }
}

/// The assignments of the batch script, in fixed order.
pub open spec fn batch_commands(f: SysinfoFlags) -> Seq<Seq<char>> {
    let s = push_if(Seq::empty(), f.ip, IP_CMD@);
    let s = push_if(s, f.name, NAME_CMD@);
    let s = push_if(s, f.win, WIN_CMD@);
    let s = push_if(s, f.cpu, CPU_CMD@);
    let s = push_if(s, f.ram, RAM_CMD@);
    let s = push_if(s, f.disk, DISK_CMD@);
    push_if(s, f.uptime, UPTIME_CMD@)
}

/// The output expressions of the batch script, in the same order.
pub open spec fn batch_parts(f: SysinfoFlags) -> Seq<Seq<char>> {
    let s = push_if(Seq::empty(), f.ip, IP_PART@);
    let s = push_if(s, f.name, NAME_PART@);
    let s = push_if(s, f.win, WIN_PART@);
    let s = push_if(s, f.cpu, CPU_PART@);
    let s = push_if(s, f.ram, RAM_PART@);
    let s = push_if(s, f.disk, DISK_PART@);
    push_if(s, f.uptime, UPTIME_PART@)
}

/// One script that gathers every requested piece and prints them separated by ` | `.
pub open spec fn batch_script(f: SysinfoFlags) -> Seq<char> {
    crate::text::joined(batch_commands(f), CMD_SEP@) + CMD_SEP@ + crate::text::joined(
        batch_parts(f),
        PART_SEP@,
    )
}

fn push_if_exec(v: &mut Vec<String>, b: bool, x: &str)
    ensures
        final(v).deep_view() == push_if(old(v).deep_view(), b, x@),
{
    if b {
        v.push(owned(x));
        assert(final(v).deep_view() =~= old(v).deep_view().push(x@));
    }
}

/// The PowerShell script that gathers the requested system information at once.
pub fn sysinfo_batch_command(f: SysinfoFlags) -> (r: String)
    ensures
        r@ == batch_script(f),
{
    let mut cmds: Vec<String> = Vec::new();
    assert(cmds.deep_view() =~= Seq::<Seq<char>>::empty());
    push_if_exec(&mut cmds, f.ip, IP_CMD);
    push_if_exec(&mut cmds, f.name, NAME_CMD);
    push_if_exec(&mut cmds, f.win, WIN_CMD);
    push_if_exec(&mut cmds, f.cpu, CPU_CMD);
    push_if_exec(&mut cmds, f.ram, RAM_CMD);
    push_if_exec(&mut cmds, f.disk, DISK_CMD);
    push_if_exec(&mut cmds, f.uptime, UPTIME_CMD);
    let mut parts: Vec<String> = Vec::new();
    assert(parts.deep_view() =~= Seq::<Seq<char>>::empty());
    push_if_exec(&mut parts, f.ip, IP_PART);
    push_if_exec(&mut parts, f.name, NAME_PART);
    push_if_exec(&mut parts, f.win, WIN_PART);
    push_if_exec(&mut parts, f.cpu, CPU_PART);
    push_if_exec(&mut parts, f.ram, RAM_PART);
    push_if_exec(&mut parts, f.disk, DISK_PART);
    push_if_exec(&mut parts, f.uptime, UPTIME_PART);
    let c = crate::text::join(&cmds, CMD_SEP);
    let p = crate::text::join(&parts, PART_SEP);
    cat3(c.as_str(), CMD_SEP, p.as_str())
}

pub const FAILED: &'static str = "Failed: ";

/// What a batch run reports: its trimmed output, or the failure text.
pub open spec fn batch_reply_text(ran: crate::tools::ToolResultView) -> Seq<char> {
    if ran.success {
        trimmed(ran.result)
    } else {
        FAILED@ + ran.result
    }
}

/// The reply for a finished system-information batch.
pub fn sysinfo_batch_reply(ran: &ToolResult) -> (r: String)
    ensures
        r@ == batch_reply_text(ran@),
{
    if ran.success {
        trim(ran.result.as_str())
    } else {
        cat(FAILED, ran.result.as_str())
    }
}

/// The sentence for a RAM-only question, built from the batch output when
/// it has the expected shape.
pub open spec fn ram_sentence(reply: Seq<char>) -> Seq<char> {
    match pattern_captures(RAM_REPLY_P@, reply) {
        Some(g) => "You have "@ + group_or_empty(g, 1) + " GB of RAM in total, and "@
            + group_or_empty(g, 2) + " GB is free."@,
        None => reply,
    }
}

/// The Gemini agent's reply for a batch: a RAM-only question is answered in
/// a sentence, any other batch with the raw output.
pub open spec fn gemini_batch_reply(f: SysinfoFlags, reply: Seq<char>) -> Seq<char> {
    if f.ram && flag_count(f) == 1 {
        ram_sentence(reply)
    } else {
        reply
    }
}

/// Phrases the batch output for the Gemini agent.
pub fn gemini_sysinfo_reply(f: SysinfoFlags, reply: &str) -> (r: String)
    ensures
        r@ == gemini_batch_reply(f, reply@),
{
    if f.ram && count_flags(f) == 1 {
        match regex_captures_of(reply, RAM_REPLY_P) {
            Some(g) => crate::text::cat5(
                "You have ",
                group_text(&g, 1).as_str(),
                " GB of RAM in total, and ",
                group_text(&g, 2).as_str(),
                " GB is free.",
            ),
            None => owned(reply),
        }
    } else {
        owned(reply)
    }
}

/// Whether the Gemini agent answers from a system-information batch:
/// two or more pieces asked for, or any RAM question.
pub open spec fn gemini_wants_batch(f: SysinfoFlags) -> bool {
    flag_count(f) >= 2 || f.ram
}

// ── Single-metric commands ─────────────────────────────────────────────────

/// Number of single-metric commands.
pub const DIRECT_COUNT: usize = 7;

/// The pattern of single-metric command `i`.
pub open spec fn direct_pattern(i: int) -> Seq<char> {
    if i == 0 {
        IP_P@
    } else if i == 1 {
        DISK_P@
    } else if i == 2 {
        NAME_P@
    } else if i == 3 {
        CPU_P@
    } else if i == 4 {
        WIN_P@
    } else if i == 5 {
        r"(?i)\b(top|running)\s*(processes|apps|programs)\b.*\bcpu\b|\bcpu\b.*\b(processes|apps)\b"@
    } else {
        r"(?i)\b(top|most)\s*\d*\s*(processes|apps|programs)\b.*\bmemory\b|\bmemory\b.*\b(processes|apps)\b|\bprocesses.*ram\b|\bram.*processes\b"@
    }
}

/// The script of single-metric command `i`.
pub open spec fn direct_script(i: int) -> Seq<char> {
    if i == 0 {
        "(Invoke-RestMethod https://api.ipify.org)"@
    } else if i == 1 {
        "[math]::Round((Get-PSDrive C).Free/1GB,1)"@
    } else if i == 2 {
        "$env:COMPUTERNAME"@
    } else if i == 3 {
        r#""" + (Get-WmiObject Win32_Processor).Name + " — " + (Get-WmiObject Win32_Processor).NumberOfCores + " cores""#@
    } else if i == 4 {
        "(Get-WmiObject Win32_OperatingSystem).Caption"@
    } else if i == 5 {
        r#"Get-Process | Sort-Object CPU -Desc | Select-Object -First 10 Name,@{N="CPU(s)";E={[math]::Round($_.CPU,1)}} | Format-Table -Auto | Out-String -Width 200"#@
    } else {
        r#"Get-Process | Sort-Object WorkingSet -Desc | Select-Object -First 10 Name,@{N="RAM(MB)";E={[math]::Round($_.WorkingSet/1MB,1)}} | Format-Table -Auto | Out-String -Width 200"#@
    }
}

/// The reply prefix of single-metric command `i`.
pub open spec fn direct_prefix(i: int) -> Seq<char> {
    if i == 0 {
        "Your public IP address is "@
    } else if i == 1 {
        "C drive has "@
    } else if i == 2 {
        "Your computer name is "@
    } else if i == 3 {
        "Your CPU: "@
    } else if i == 4 {
        "Your Windows version is: "@
    } else if i == 5 {
        "Top processes by CPU:\n"@
    } else {
        "Top processes by memory:\n"@
    }
}

/// Pattern, script and reply prefix of single-metric command `i`.
pub fn direct_entry(i: usize) -> (r: (&'static str, &'static str, &'static str))
    requires
        i < DIRECT_COUNT,
    ensures
        r.0@ == direct_pattern(i as int),
        r.1@ == direct_script(i as int),
        r.2@ == direct_prefix(i as int),
{
    if i == 0 {
        (IP_P, "(Invoke-RestMethod https://api.ipify.org)", "Your public IP address is ")
    } else if i == 1 {
        (DISK_P, "[math]::Round((Get-PSDrive C).Free/1GB,1)", "C drive has ")
    } else if i == 2 {
        (NAME_P, "$env:COMPUTERNAME", "Your computer name is ")
    } else if i == 3 {
        (
            CPU_P,
            r#""" + (Get-WmiObject Win32_Processor).Name + " — " + (Get-WmiObject Win32_Processor).NumberOfCores + " cores""#,
            "Your CPU: ",
        )
    } else if i == 4 {
        (WIN_P, "(Get-WmiObject Win32_OperatingSystem).Caption", "Your Windows version is: ")
    } else if i == 5 {
        (
            r"(?i)\b(top|running)\s*(processes|apps|programs)\b.*\bcpu\b|\bcpu\b.*\b(processes|apps)\b",
            r#"Get-Process | Sort-Object CPU -Desc | Select-Object -First 10 Name,@{N="CPU(s)";E={[math]::Round($_.CPU,1)}} | Format-Table -Auto | Out-String -Width 200"#,
            "Top processes by CPU:\n",
        )
    } else {
        (
            r"(?i)\b(top|most)\s*\d*\s*(processes|apps|programs)\b.*\bmemory\b|\bmemory\b.*\b(processes|apps)\b|\bprocesses.*ram\b|\bram.*processes\b",
            r#"Get-Process | Sort-Object WorkingSet -Desc | Select-Object -First 10 Name,@{N="RAM(MB)";E={[math]::Round($_.WorkingSet/1MB,1)}} | Format-Table -Auto | Out-String -Width 200"#,
            "Top processes by memory:\n",
        )
    }
}

/// Whether each single-metric command's pattern matches the message.
pub open spec fn direct_hits(msg: Seq<char>) -> Seq<bool> {
    Seq::new(DIRECT_COUNT as nat, |i: int| pattern_test(direct_pattern(i), msg))
}

/// The first single-metric command whose pattern matches the message.
pub open spec fn direct_index(msg: Seq<char>) -> Option<int> {
    first_hit(direct_hits(msg))
}

/// Finds the first single-metric command that applies to a message.
pub fn find_direct_command(msg: &str) -> (r: Option<usize>)
    ensures
        match direct_index(msg@) {
            Some(i) => r matches Some(j) && j as int == i,
            None => r is None,
        },
{
    let mut i: usize = 0;
    while i < DIRECT_COUNT
        invariant
            i <= DIRECT_COUNT,
            direct_index(msg@) == crate::guard::first_hit_from(direct_hits(msg@), i as int),
        decreases DIRECT_COUNT - i,
    {
        let (p, _, _) = direct_entry(i);
        if regex_test(msg, p) {
            return Some(i);
        }
        i = i + 1;
    }
    None
}

/// The reply for single-metric command `i` after it ran.
pub open spec fn direct_reply_text(i: int, ran: crate::tools::ToolResultView) -> Seq<char> {
    if ran.success {
        direct_prefix(i) + trimmed(ran.result)
    } else {
        FAILED@ + ran.result
    }
}

/// Formats the reply for single-metric command `i`.
pub fn direct_reply(i: usize, ran: &ToolResult) -> (r: String)
    requires
        i < DIRECT_COUNT,
    ensures
        r@ == direct_reply_text(i as int, ran@),
{
    let (_, _, prefix) = direct_entry(i);
    if ran.success {
        cat(prefix, trim(ran.result.as_str()).as_str())
    } else {
        cat(FAILED, ran.result.as_str())
    }
}

// ── File search ────────────────────────────────────────────────────────────

/// Where a file search looks.
#[derive(Clone, Copy, Debug)]
pub enum Place {
    Desktop,
    Downloads,
    Documents,
    Home,
}

/// The place a message mentions (checked in this order), else the home directory.
pub open spec fn search_place(msg: Seq<char>) -> Place {
    if has_sub(lowercase(msg), "desktop"@) {
        Place::Desktop
    } else if has_sub(lowercase(msg), "download"@) {
        Place::Downloads
    } else if has_sub(lowercase(msg), "document"@) {
        Place::Documents
    } else {
        Place::Home
    }
}

/// The file name fragment a message looks for: a name after "named", else
/// `.` and a file extension it mentions; none when it mentions neither.
pub open spec fn file_query(msg: Seq<char>) -> Option<Seq<char>> {
    if !regex_compiles(EXT_P@) || !regex_compiles(NAMED_P@) {
        None
    } else {
        match pattern_captures(NAMED_P@, msg) {
            Some(g) => Some(group_or_empty(g, 1)),
            None => match pattern_captures(EXT_P@, msg) {
                Some(g) => Some(PERIOD@ + group_or_empty(g, 1)),
                None => None,
            },
        }
    }
}

/// The file name fragment a message looks for.
pub fn extract_file_query(msg: &str) -> (r: Option<String>)
    ensures
        match file_query(msg@) {
            Some(q) => r matches Some(s) && s@ == q,
            None => r is None,
        },
{
    let ext = match compile(EXT_P) {
        Some(p) => p,
        None => return None,
    };
    let named = match compile(NAMED_P) {
        Some(p) => p,
        None => return None,
    };
    match crate::pattern::captures(&named, msg) {
        Some(g) => Some(group_text(&g, 1)),
        None => match crate::pattern::captures(&ext, msg) {
            Some(g) => Some(cat(PERIOD, group_text(&g, 1).as_str())),
            None => None,
        },
    }
}

/// Finds the place a message mentions.
pub fn detect_place(msg: &str) -> (r: Place)
    ensures
        r == search_place(msg@),
{
    let lower = to_lowercase(msg);
    if str_contains(lower.as_str(), "desktop") {
        Place::Desktop
    } else if str_contains(lower.as_str(), "download") {
        Place::Downloads
    } else if str_contains(lower.as_str(), "document") {
        Place::Documents
    } else {
        Place::Home
    }
}

/// The directory searched for a place, under the user's profile directory `home`.
pub open spec fn place_dir(place: Place, home: Seq<char>) -> Seq<char> {
    match place {
        Place::Desktop => home + "\\Desktop"@,
        Place::Downloads => home + "\\Downloads"@,
        Place::Documents => home + "\\Documents"@,
        Place::Home => home,
    }
}

/// The directory searched for a place.
pub fn place_directory(place: Place, home: &str) -> (r: String)
    ensures
        r@ == place_dir(place, home@),
{
    match place {
        Place::Desktop => cat(home, "\\Desktop"),
        Place::Downloads => cat(home, "\\Downloads"),
        Place::Documents => cat(home, "\\Documents"),
        Place::Home => owned(home),
    }
}

// ── After a file search ────────────────────────────────────────────────────

/// The message asks to open the first file found.
pub const OPEN_P: &'static str = r"(?i)\bopen\b.*\b(first|it|the file)\b|\b(first|it)\b.*\bopen\b";
/// The message asks for a notification as well.
pub const NOTIFY_ANY_P: &'static str = r"(?i)\bnotif(y|ication)\b|\bshow.*notification\b";
/// The notification text at the end of the message.
pub const SAYING_END_P: &'static str = r#"(?i)notification\s+saying\s+["']?([^"']+?)["']?\s*$"#;
/// What a search reports when nothing matched.
pub const NO_FILES: &'static str = "No files found";
/// The notification text when the message gives none.
pub const FILE_OPENED: &'static str = "File opened";

/// Bytes a character takes in UTF-8.
pub open spec fn utf8_width(c: char) -> nat {
    if (c as u32) < 0x80 {
        1
    } else if (c as u32) < 0x800 {
        2
    } else if (c as u32) < 0x10000 {
        3
    } else {
        4
    }
}

/// Bytes a text takes in UTF-8 (what `str::len` counts).
pub open spec fn utf8_size(s: Seq<char>) -> nat
    decreases s.len(),
{
    if s.len() == 0 {
        0
    } else {
        utf8_size(s.drop_last()) + utf8_width(s.last())
    }
}

/// A text takes at least one byte per character.
pub proof fn lemma_utf8_size_at_least_len(s: Seq<char>)
    ensures
        utf8_size(s) >= s.len(),
    decreases s.len(),
{
    if s.len() > 0 {
        lemma_utf8_size_at_least_len(s.drop_last());
    }
}

/// A line of a search listing names a file: trimmed, it is longer than two
/// bytes and its second character is a drive colon.
pub open spec fn names_file(line: Seq<char>) -> bool {
    let t = trimmed(line);
    t.len() > 1 && t[1] == ':' && utf8_size(t) > 2
}

/// The path on a listing line: the trimmed line up to its first double space.
pub open spec fn line_path(line: Seq<char>) -> Seq<char> {
    let t = trimmed(line);
    match first_index(t, "  "@) {
        Some(i) => t.take(i),
        None => t,
    }
}

/// The path on the first line, at or after `i`, that names a file.
pub open spec fn first_file_from(lines: Seq<Seq<char>>, i: int) -> Option<Seq<char>>
    decreases lines.len() - i,
{
    if i < 0 || i >= lines.len() {
        None
    } else if names_file(lines[i]) {
        Some(line_path(lines[i]))
    } else {
        first_file_from(lines, i + 1)
    }
}

/// The path of the first file a search listing names.
pub open spec fn first_file(listing: Seq<char>) -> Option<Seq<char>> {
    first_file_from(lines_of(listing), 0)
}

/// The notification text a message ends with, else `File opened`.
pub open spec fn saying_text(msg: Seq<char>) -> Seq<char> {
    match pattern_captures(SAYING_END_P@, msg) {
        Some(g) => if g.len() > 1 && g[1] is Some {
            g[1]->Some_0
        } else {
            FILE_OPENED@
        },
        None => FILE_OPENED@,
    }
}

/// What follows a file search.
pub enum FileFollowUp {
    /// Answer with this text.
    Reply(String),
    /// Open the file with `command`, show `notify` when there is one, then answer.
    Open { command: String, notify: Option<String>, reply: String },
}

/// The mathematical value of a [`FileFollowUp`].
pub enum FileFollowUpView {
    Reply(Seq<char>),
    Open { command: Seq<char>, notify: Option<Seq<char>>, reply: Seq<char> },
}

impl View for FileFollowUp {
    type V = FileFollowUpView;

    open spec fn view(&self) -> FileFollowUpView {
        match self {
            FileFollowUp::Reply(s) => FileFollowUpView::Reply(s@),
            FileFollowUp::Open { command, notify, reply } => FileFollowUpView::Open {
                command: command@,
                notify: match notify {
                    Some(t) => Some(t@),
                    None => None,
                },
                reply: reply@,
            },
        }
    }
}

/// What follows a search for `query` in `dir` that gave `found`: the
/// failure when nothing was found; the first file opened in Notepad (and a
/// notification) when the message asks for it and the listing names a
/// file; the listing otherwise.
pub open spec fn file_follow_up(
    msg: Seq<char>,
    query: Seq<char>,
    dir: Seq<char>,
    found: crate::tools::ToolResultView,
) -> FileFollowUpView {
    if !found.success || has_sub(found.result, NO_FILES@) {
        FileFollowUpView::Reply(
            "No files found matching \""@ + query + "\" in "@ + crate::tools::last_segment(dir)
                + "."@,
        )
    } else if pattern_test(OPEN_P@, msg) && first_file(found.result) is Some {
        let f = first_file(found.result)->Some_0;
        let command = "notepad \""@ + f + "\""@;
        if pattern_test(NOTIFY_ANY_P@, msg) {
            FileFollowUpView::Open {
                command,
                notify: Some(saying_text(msg)),
                reply: "Opened \""@ + f + "\" in Notepad and showed notification: \""@
                    + saying_text(msg) + "\""@,
            }
        } else {
            FileFollowUpView::Open { command, notify: None, reply: "Opened \""@ + f + "\" in Notepad."@ }
        }
    } else {
        FileFollowUpView::Reply("Found files matching \""@ + query + "\":\n"@ + found.result)
    }
}

fn names_file_exec(t: &[char]) -> (r: bool)
    ensures
        r == (t@.len() > 1 && t@[1] == ':' && utf8_size(t@) > 2),
{
    if t.len() < 2 || t[1] != ':' {
        return false;
    }
    proof {
        lemma_utf8_size_at_least_len(t@);
        if t@.len() == 2 {
            let d = t@.drop_last();
            assert(d.drop_last() =~= Seq::<char>::empty());
            assert(d.last() == t@[0]);
            assert(utf8_size(d.drop_last()) == 0);
            assert(utf8_size(d) == utf8_size(d.drop_last()) + utf8_width(d.last()));
            assert(utf8_width(t@[1]) == 1);
            assert(utf8_size(t@) == utf8_width(t@[0]) + 1);
        }
    }
    t.len() >= 3 || (t[0] as u32) >= 0x80
}

fn line_path_exec(t: &[char]) -> (r: String)
    ensures
        r@ == (match first_index(t@, "  "@) {
            Some(i) => t@.take(i),
            None => t@,
        }),
{
    let sep = chars_of("  ");
    match find_first(t, sep.as_slice()) {
        Some(i) => {
            assert(t@.subrange(0, i as int) =~= t@.take(i as int));
            string_of(&t[0..i])
        },
        None => string_of(t),
    }
}

/// Finds the path of the first file a search listing names.
pub fn find_first_file(listing: &str) -> (r: Option<String>)
    ensures
        match first_file(listing@) {
            Some(f) => r matches Some(s) && s@ == f,
            None => r is None,
        },
{
    let cs = chars_of(listing);
    let lines = lines_exec(cs.as_slice());
    let ghost lv = lines@.map_values(|v: Vec<char>| v@);
    assert(lv == lines_of(listing@));
    let mut i: usize = 0;
    while i < lines.len()
        invariant
            i <= lines@.len(),
            lv == lines@.map_values(|v: Vec<char>| v@),
            first_file(listing@) == first_file_from(lv, i as int),
        decreases lines@.len() - i,
    {
        assert(lines[i as int]@ == lv[i as int]);
        let t = trim(string_of(lines[i].as_slice()).as_str());
        let tc = chars_of(t.as_str());
        if names_file_exec(tc.as_slice()) {
            return Some(line_path_exec(tc.as_slice()));
        }
        i = i + 1;
    }
    None
}

fn saying_text_exec(msg: &str) -> (r: String)
    ensures
        r@ == saying_text(msg@),
{
    match regex_captures_of(msg, SAYING_END_P) {
        Some(g) => if g.len() > 1 {
            match &g[1] {
                Some(t) => t.clone(),
                None => owned(FILE_OPENED),
            }
        } else {
            owned(FILE_OPENED)
        },
        None => owned(FILE_OPENED),
    }
}

/// Decides what follows a search for `query` in `dir` that gave `found`.
pub fn file_search_follow_up(msg: &str, query: &str, dir: &str, found: &ToolResult) -> (r:
    FileFollowUp)
    ensures
        r@ == file_follow_up(msg@, query@, dir@, found@),
{
    if !found.success || str_contains(found.result.as_str(), NO_FILES) {
        let mut r = cat3("No files found matching \"", query, "\" in ");
        r.append(crate::tools::last_segment_of(dir).as_str());
        r.append(".");
        return FileFollowUp::Reply(r);
    }
    if regex_test(msg, OPEN_P) {
        match find_first_file(found.result.as_str()) {
            Some(f) => {
                let command = cat3("notepad \"", f.as_str(), "\"");
                if regex_test(msg, NOTIFY_ANY_P) {
                    let t = saying_text_exec(msg);
                    let mut reply = cat3("Opened \"", f.as_str(), "\" in Notepad and showed notification: \"");
                    reply.append(t.as_str());
                    reply.append("\"");
                    return FileFollowUp::Open { command, notify: Some(t), reply };
                }
                let reply = cat3("Opened \"", f.as_str(), "\" in Notepad.");
                return FileFollowUp::Open { command, notify: None, reply };
            },
            None => {},
        }
    }
    let mut r = cat3("Found files matching \"", query, "\":\n");
    r.append(found.result.as_str());
    FileFollowUp::Reply(r)
}

// ── Routing ────────────────────────────────────────────────────────────────

/// What the Groq agent does with a message.
pub enum Route {
    /// Answer with this text, no tool and no model.
    Reply(String),
    /// Open this URL, then answer with the reply.
    OpenWebsite { url: String, reply: String },
    /// Show a notification with this text.
    Notify(String),
    /// Gather these pieces of system information in one script.
    Sysinfo(SysinfoFlags),
    /// Run single-metric command `i`.
    Direct(usize),
    /// Search files for a name fragment in a place.
    FileSearch { query: String, place: Place },
    /// Ask the language model.
    Llm,
}

/// The mathematical value of a [`Route`].
pub enum RouteView {
    Reply(Seq<char>),
    OpenWebsite { url: Seq<char>, reply: Seq<char> },
    Notify(Seq<char>),
    Sysinfo(SysinfoFlags),
    Direct(int),
    FileSearch { query: Seq<char>, place: Place },
    Llm,
}

impl View for Route {
    type V = RouteView;

    open spec fn view(&self) -> RouteView {
        match self {
            Route::Reply(s) => RouteView::Reply(s@),
            Route::OpenWebsite { url, reply } => RouteView::OpenWebsite { url: url@, reply: reply@ },
            Route::Notify(s) => RouteView::Notify(s@),
            Route::Sysinfo(f) => RouteView::Sysinfo(*f),
            Route::Direct(i) => RouteView::Direct(*i as int),
            Route::FileSearch { query, place } => RouteView::FileSearch {
                query: query@,
                place: *place,
            },
            Route::Llm => RouteView::Llm,
        }
    }
}

/// The reply after opening a site, mentioning the search terms when there are any.
pub open spec fn site_reply(name: Seq<char>, query: Seq<char>) -> Seq<char> {
    if query.len() == 0 {
        OPENED@ + name + PERIOD@
    } else {
        OPENED@ + name + SEARCHED_FOR@ + query + QUOTE@ + PERIOD@
    }
}

/// Opening a site's home page, or its search page for the terms.
pub open spec fn site_route(home: Seq<char>, search: Seq<char>, name: Seq<char>, query: Seq<char>) -> RouteView {
    RouteView::OpenWebsite {
        url: if query.len() == 0 {
            home
        } else {
            search + form_urlencoded_text(query)
        },
        reply: site_reply(name, query),
    }
}

/// The notification intercept applies: a notification is asked for and the
/// message is not a timer request.
pub open spec fn wants_notification(msg: Seq<char>) -> bool {
    !pattern_test(TIMER_P@, msg) && pattern_test(NOTIFY_P@, msg)
}

/// The single-metric intercept applies: the message is not a long
/// multi-part question and some single-metric command matches.
pub open spec fn wants_direct(msg: Seq<char>) -> bool {
    split_count(lowercase(msg), AND_SEP@) <= 3 && direct_index(msg) is Some
}

/// What the Groq agent does with a message: the first intercept, in fixed
/// order, that applies; the language model when none does.
pub open spec fn groq_route(msg: Seq<char>) -> RouteView {
    if pattern_test(SCREENSHOT_P@, msg) {
        RouteView::Reply(SCREENSHOT_REPLY@)
    } else if pattern_test(SPOTIFY_P@, msg) {
        site_route(SPOTIFY_HOME@, SPOTIFY_SEARCH@, "Spotify"@, spotify_query(msg))
    } else if pattern_test(YOUTUBE_P@, msg) {
        site_route(YOUTUBE_HOME@, YOUTUBE_SEARCH@, "YouTube"@, youtube_query(msg))
    } else if pattern_test(GOOGLE_P@, msg) {
        site_route(GOOGLE_HOME@, GOOGLE_SEARCH@, "Google"@, google_query(msg))
    } else if pattern_test(GITHUB_P@, msg) && github_repo(msg) is Some {
        RouteView::OpenWebsite {
            url: GITHUB_HOME@ + github_repo(msg)->Some_0,
            reply: OPENED@ + GITHUB_HOME@ + github_repo(msg)->Some_0,
        }
    } else if wants_notification(msg) {
        RouteView::Notify(notification_text(msg))
    } else if flag_count(sysinfo_flags(msg)) >= 2 {
        RouteView::Sysinfo(sysinfo_flags(msg))
    } else if wants_direct(msg) {
        RouteView::Direct(direct_index(msg)->Some_0)
    } else if pattern_test(FILE_P@, msg) && file_query(msg) is Some {
        RouteView::FileSearch { query: file_query(msg)->Some_0, place: search_place(msg) }
    } else {
        RouteView::Llm
    }
}

/// Law: the Groq agent asks the model only when no intercept applies, and a
/// screenshot question is always answered with the pointer to Gemini.
pub proof fn law_model_only_when_no_intercept(msg: Seq<char>)
    ensures
        pattern_test(SCREENSHOT_P@, msg) ==> groq_route(msg) == RouteView::Reply(SCREENSHOT_REPLY@),
        groq_route(msg) is Llm ==> {
            &&& !pattern_test(SCREENSHOT_P@, msg)
            &&& !pattern_test(SPOTIFY_P@, msg)
            &&& !pattern_test(YOUTUBE_P@, msg)
            &&& !pattern_test(GOOGLE_P@, msg)
            &&& (pattern_test(GITHUB_P@, msg) ==> github_repo(msg) is None)
            &&& !wants_notification(msg)
            &&& flag_count(sysinfo_flags(msg)) < 2
            &&& !wants_direct(msg)
            &&& (pattern_test(FILE_P@, msg) ==> file_query(msg) is None)
        },
{
}

/// Law: a question about two or more pieces of system information that no
/// earlier intercept takes is answered by one batch script, never piece by
/// piece and never by the model.
pub proof fn law_multi_metric_questions_are_batched(msg: Seq<char>)
    requires
        flag_count(sysinfo_flags(msg)) >= 2,
        !pattern_test(SCREENSHOT_P@, msg),
        !pattern_test(SPOTIFY_P@, msg),
        !pattern_test(YOUTUBE_P@, msg),
        !pattern_test(GOOGLE_P@, msg),
        !(pattern_test(GITHUB_P@, msg) && github_repo(msg) is Some),
        !wants_notification(msg),
    ensures
        groq_route(msg) == RouteView::Sysinfo(sysinfo_flags(msg)),
        gemini_wants_batch(sysinfo_flags(msg)),
{
}

/// Law: a search that failed or found nothing never opens a file; a file is
/// opened only when the message asks for it, and then it is the first file
/// the listing names.
pub proof fn law_failed_search_opens_nothing(
    msg: Seq<char>,
    query: Seq<char>,
    dir: Seq<char>,
    found: crate::tools::ToolResultView,
)
    ensures
        (!found.success || has_sub(found.result, NO_FILES@)) ==> file_follow_up(msg, query, dir, found) is Reply,
        file_follow_up(msg, query, dir, found) matches FileFollowUpView::Open { command, .. } ==> {
            &&& found.success
            &&& pattern_test(OPEN_P@, msg)
            &&& first_file(found.result) matches Some(f) && command == "notepad \""@ + f + "\""@
        },
{
}

fn site(home: &str, search: &str, name: &str, query: String) -> (r: Route)
    ensures
        r@ == site_route(home@, search@, name@, query@),
{
    let url = if query.as_str().unicode_len() == 0 {
        owned(home)
    } else {
        cat(search, url_encode(query.as_str()).as_str())
    };
    let reply = if query.as_str().unicode_len() == 0 {
        cat3(OPENED, name, PERIOD)
    } else {
        let mut r = cat3(OPENED, name, SEARCHED_FOR);
        r.append(query.as_str());
        r.append(QUOTE);
        r.append(PERIOD);
        r
    };
    Route::OpenWebsite { url, reply }
}

/// Decides what the Groq agent does with a message.
pub fn route_groq_message(msg: &str) -> (r: Route)
    ensures
        r@ == groq_route(msg@),
{
    if regex_test(msg, SCREENSHOT_P) {
        return Route::Reply(owned(SCREENSHOT_REPLY));
    }
    if regex_test(msg, SPOTIFY_P) {
        return site(SPOTIFY_HOME, SPOTIFY_SEARCH, "Spotify", extract_spotify_query(msg));
    }
    if regex_test(msg, YOUTUBE_P) {
        return site(YOUTUBE_HOME, YOUTUBE_SEARCH, "YouTube", extract_yt_query(msg));
    }
    if regex_test(msg, GOOGLE_P) {
        return site(GOOGLE_HOME, GOOGLE_SEARCH, "Google", extract_google_query(msg));
    }
    if regex_test(msg, GITHUB_P) {
        match extract_github_repo(msg) {
            Some(repo) => {
                let url = cat(GITHUB_HOME, repo.as_str());
                let reply = cat(OPENED, url.as_str());
                assert(reply@ =~= OPENED@ + GITHUB_HOME@ + repo@);
                return Route::OpenWebsite { url, reply };
            },
            None => {},
        }
    }
    if !regex_test(msg, TIMER_P) && regex_test(msg, NOTIFY_P) {
        return Route::Notify(extract_notification_text(msg));
    }
    let flags = detect_sysinfo(msg);
    if count_flags(flags) >= 2 {
        return Route::Sysinfo(flags);
    }
    let lower = to_lowercase(msg);
    proof {
        reveal_strlit(" and ");
    }
    if !split_count_exceeds(lower.as_str(), AND_SEP, 3) {
        match find_direct_command(msg) {
            Some(i) => {
                return Route::Direct(i);
            },
            None => {},
        }
    }
    if regex_test(msg, FILE_P) {
        match extract_file_query(msg) {
            Some(q) => {
                return Route::FileSearch { query: q, place: detect_place(msg) };
            },
            None => {},
        }
    }
    Route::Llm
}

/// What the Gemini agent does with a message: a batch when two or more
/// pieces of system information (or any RAM figure) are asked for, then the
/// notification, single-metric and file-search intercepts as the Groq agent
/// has them; the language model when none applies. (Gemini sees images and
/// opens sites itself, so the screenshot notice and the site intercepts are
/// not among them.)
pub open spec fn gemini_route(msg: Seq<char>) -> RouteView {
    if gemini_wants_batch(sysinfo_flags(msg)) {
        RouteView::Sysinfo(sysinfo_flags(msg))
    } else if wants_notification(msg) {
        RouteView::Notify(notification_text(msg))
    } else if wants_direct(msg) {
        RouteView::Direct(direct_index(msg)->Some_0)
    } else if pattern_test(FILE_P@, msg) && file_query(msg) is Some {
        RouteView::FileSearch { query: file_query(msg)->Some_0, place: search_place(msg) }
    } else {
        RouteView::Llm
    }
}

/// Decides what the Gemini agent does with a message.
pub fn route_gemini_message(msg: &str) -> (r: Route)
    ensures
        r@ == gemini_route(msg@),
{
    let flags = detect_sysinfo(msg);
    if count_flags(flags) >= 2 || flags.ram {
        return Route::Sysinfo(flags);
    }
    if !regex_test(msg, TIMER_P) && regex_test(msg, NOTIFY_P) {
        return Route::Notify(extract_notification_text(msg));
    }
    let lower = to_lowercase(msg);
    proof {
        reveal_strlit(" and ");
    }
    if !split_count_exceeds(lower.as_str(), AND_SEP, 3) {
        match find_direct_command(msg) {
            Some(i) => {
                return Route::Direct(i);
            },
            None => {},
        }
    }
    if regex_test(msg, FILE_P) {
        match extract_file_query(msg) {
            Some(q) => {
                return Route::FileSearch { query: q, place: detect_place(msg) };
            },
            None => {},
        }
    }
    Route::Llm
}

/// Law: the Gemini agent asks the model only when none of its intercepts
/// applies; a message an intercept claims is answered by that intercept.
pub proof fn law_gemini_model_only_when_no_intercept(msg: Seq<char>)
    ensures
        gemini_route(msg) is Llm ==> {
            &&& !gemini_wants_batch(sysinfo_flags(msg))
            &&& !wants_notification(msg)
            &&& !wants_direct(msg)
            &&& (pattern_test(FILE_P@, msg) ==> file_query(msg) is None)
        },
        wants_direct(msg) && !gemini_wants_batch(sysinfo_flags(msg)) && !wants_notification(msg)
            ==> gemini_route(msg) == RouteView::Direct(direct_index(msg)->Some_0),
        gemini_wants_batch(sysinfo_flags(msg)) ==> gemini_route(msg) == RouteView::Sysinfo(
            sysinfo_flags(msg),
        ),
{
}

/// Law: each single-metric command reads the metric its pattern asks for.
/// The commands matched by the IP, computer-name, Windows-version and disk
/// patterns run exactly the expression the batch script assigns for that
/// metric (`$ip`, `$name`, `$win`, the free space `$df`); the CPU command
/// prints the batch's `$cpu` expression; the two process listings sort by
/// CPU time and by working set; no two commands run the same script; and
/// each reply begins with words naming the same metric (IP address, C drive,
/// computer name, CPU, Windows version, by CPU, by memory).
pub proof fn law_direct_commands_read_their_metric()
    ensures
        forall|i: int|
            0 <= i < DIRECT_COUNT && #[trigger] direct_pattern(i) == IP_P@ ==> IP_CMD@ == "$ip="@ + direct_script(i),
        forall|i: int|
            0 <= i < DIRECT_COUNT && #[trigger] direct_pattern(i) == NAME_P@ ==> NAME_CMD@ == "$name="@ + direct_script(i),
        forall|i: int|
            0 <= i < DIRECT_COUNT && #[trigger] direct_pattern(i) == WIN_P@ ==> WIN_CMD@ == "$win="@ + direct_script(i),
        forall|i: int|
            0 <= i < DIRECT_COUNT && #[trigger] direct_pattern(i) == DISK_P@ ==> has_prefix(
                DISK_CMD@,
                "$df="@ + direct_script(i) + "; "@,
            ),
        forall|i: int|
            0 <= i < DIRECT_COUNT && #[trigger] direct_pattern(i) == CPU_P@ ==> "$cpu="@ + direct_script(i)
                == "$cpu=\"\" + "@ + CPU_CMD@.skip(5),
        has_sub(direct_script(5), "Sort-Object CPU -Desc"@),
        has_sub(direct_script(6), "Sort-Object WorkingSet -Desc"@),
        forall|i: int| 0 <= i < DIRECT_COUNT && #[trigger] direct_pattern(i) == IP_P@ ==> has_sub(direct_prefix(i), "IP address"@),
        forall|i: int| 0 <= i < DIRECT_COUNT && #[trigger] direct_pattern(i) == DISK_P@ ==> has_sub(direct_prefix(i), "C drive"@),
        forall|i: int| 0 <= i < DIRECT_COUNT && #[trigger] direct_pattern(i) == NAME_P@ ==> has_sub(direct_prefix(i), "computer name"@),
        forall|i: int| 0 <= i < DIRECT_COUNT && #[trigger] direct_pattern(i) == CPU_P@ ==> has_sub(direct_prefix(i), "CPU"@),
        forall|i: int| 0 <= i < DIRECT_COUNT && #[trigger] direct_pattern(i) == WIN_P@ ==> has_sub(direct_prefix(i), "Windows version"@),
        has_sub(direct_prefix(5), "by CPU"@),
        has_sub(direct_prefix(6), "by memory"@),
        forall|i: int, j: int|
            0 <= i < DIRECT_COUNT && 0 <= j < DIRECT_COUNT && i != j ==> #[trigger] direct_script(i)
                != #[trigger] direct_script(j),
{
    reveal_strlit("$ip=");
    reveal_strlit("$name=");
    reveal_strlit("$win=");
    reveal_strlit("$df=");
    reveal_strlit("; ");
    reveal_strlit("$cpu=");
    reveal_strlit("$cpu=\"\" + ");
    reveal_strlit(r"(?i)\b(public\s+)?ip(\s+address)?\b");
    reveal_strlit(r"(?i)\b(computer|pc|machine|host)\s*name\b");
    reveal_strlit(r"(?i)\bwindows\s*(version|ver)\b|\bos\s*version\b");
    reveal_strlit(r"(?i)\b(disk|drive|storage|space)\b");
    reveal_strlit(r"(?i)\b(cpu|processor)\b");
    reveal_strlit("$ip=(Invoke-RestMethod https://api.ipify.org)");
    reveal_strlit("$name=$env:COMPUTERNAME");
    reveal_strlit("$win=(Get-WmiObject Win32_OperatingSystem).Caption");
    reveal_strlit("$df=[math]::Round((Get-PSDrive C).Free/1GB,1); $dt=[math]::Round(((Get-PSDrive C).Used+(Get-PSDrive C).Free)/1GB,1)");
    reveal_strlit("$cpu=(Get-WmiObject Win32_Processor).Name + \" — \" + (Get-WmiObject Win32_Processor).NumberOfCores + \" cores\"");
    reveal_strlit("(Invoke-RestMethod https://api.ipify.org)");
    reveal_strlit("[math]::Round((Get-PSDrive C).Free/1GB,1)");
    reveal_strlit("$env:COMPUTERNAME");
    reveal_strlit(r#""" + (Get-WmiObject Win32_Processor).Name + " — " + (Get-WmiObject Win32_Processor).NumberOfCores + " cores""#);
    reveal_strlit("(Get-WmiObject Win32_OperatingSystem).Caption");
    reveal_strlit(r#"Get-Process | Sort-Object CPU -Desc | Select-Object -First 10 Name,@{N="CPU(s)";E={[math]::Round($_.CPU,1)}} | Format-Table -Auto | Out-String -Width 200"#);
    reveal_strlit(r#"Get-Process | Sort-Object WorkingSet -Desc | Select-Object -First 10 Name,@{N="RAM(MB)";E={[math]::Round($_.WorkingSet/1MB,1)}} | Format-Table -Auto | Out-String -Width 200"#);
    reveal_strlit("Sort-Object CPU -Desc");
    reveal_strlit("Sort-Object WorkingSet -Desc");
    reveal_strlit(r"(?i)\b(top|running)\s*(processes|apps|programs)\b.*\bcpu\b|\bcpu\b.*\b(processes|apps)\b");
    reveal_strlit(r"(?i)\b(top|most)\s*\d*\s*(processes|apps|programs)\b.*\bmemory\b|\bmemory\b.*\b(processes|apps)\b|\bprocesses.*ram\b|\bram.*processes\b");
    assert("$ip="@ + direct_script(0) =~= IP_CMD@);
    assert("$name="@ + direct_script(2) =~= NAME_CMD@);
    assert("$win="@ + direct_script(4) =~= WIN_CMD@);
    assert(DISK_CMD@.subrange(0, ("$df="@ + direct_script(1) + "; "@).len() as int) =~= "$df="@ + direct_script(1) + "; "@);
    assert("$cpu="@ + direct_script(3) =~= "$cpu=\"\" + "@ + CPU_CMD@.skip(5));
    assert(direct_script(5).subrange(14, 35) =~= "Sort-Object CPU -Desc"@);
    assert(occurs_at(direct_script(5), "Sort-Object CPU -Desc"@, 14));
    assert(direct_script(6).subrange(14, 42) =~= "Sort-Object WorkingSet -Desc"@);
    assert(occurs_at(direct_script(6), "Sort-Object WorkingSet -Desc"@, 14));
    assert forall|i: int| 0 <= i < DIRECT_COUNT && #[trigger] direct_pattern(i) == IP_P@ implies i == 0 by {
        if i != 0 {
            assert(direct_pattern(i)[7] != IP_P@[7] || direct_pattern(i)[8] != IP_P@[8]);
        }
    }
    assert forall|i: int| 0 <= i < DIRECT_COUNT && #[trigger] direct_pattern(i) == NAME_P@ implies i == 2 by {
        if i != 2 {
            assert(direct_pattern(i)[7] != NAME_P@[7] || direct_pattern(i)[8] != NAME_P@[8]);
        }
    }
    assert forall|i: int| 0 <= i < DIRECT_COUNT && #[trigger] direct_pattern(i) == WIN_P@ implies i == 4 by {
        if i != 4 {
            assert(direct_pattern(i)[7] != WIN_P@[7] || direct_pattern(i)[8] != WIN_P@[8]);
        }
    }
    assert forall|i: int| 0 <= i < DIRECT_COUNT && #[trigger] direct_pattern(i) == DISK_P@ implies i == 1 by {
        if i != 1 {
            assert(direct_pattern(i)[7] != DISK_P@[7] || direct_pattern(i)[8] != DISK_P@[8]);
        }
    }
    assert forall|i: int| 0 <= i < DIRECT_COUNT && #[trigger] direct_pattern(i) == CPU_P@ implies i == 3 by {
        if i != 3 {
            assert(direct_pattern(i)[7] != CPU_P@[7] || direct_pattern(i)[8] != CPU_P@[8]);
        }
    }
    reveal_strlit("Your public IP address is ");
    reveal_strlit("C drive has ");
    reveal_strlit("Your computer name is ");
    reveal_strlit("Your CPU: ");
    reveal_strlit("Your Windows version is: ");
    reveal_strlit("Top processes by CPU:\n");
    reveal_strlit("Top processes by memory:\n");
    reveal_strlit("IP address");
    reveal_strlit("C drive");
    reveal_strlit("computer name");
    reveal_strlit("CPU");
    reveal_strlit("Windows version");
    reveal_strlit("by CPU");
    reveal_strlit("by memory");
    assert(direct_prefix(0).subrange(12, 22) =~= "IP address"@);
    assert(occurs_at(direct_prefix(0), "IP address"@, 12));
    assert(direct_prefix(1).subrange(0, 7) =~= "C drive"@);
    assert(occurs_at(direct_prefix(1), "C drive"@, 0));
    assert(direct_prefix(2).subrange(5, 18) =~= "computer name"@);
    assert(occurs_at(direct_prefix(2), "computer name"@, 5));
    assert(direct_prefix(3).subrange(5, 8) =~= "CPU"@);
    assert(occurs_at(direct_prefix(3), "CPU"@, 5));
    assert(direct_prefix(4).subrange(5, 20) =~= "Windows version"@);
    assert(occurs_at(direct_prefix(4), "Windows version"@, 5));
    assert(direct_prefix(5).subrange(14, 20) =~= "by CPU"@);
    assert(occurs_at(direct_prefix(5), "by CPU"@, 14));
    assert(direct_prefix(6).subrange(14, 23) =~= "by memory"@);
    assert(occurs_at(direct_prefix(6), "by memory"@, 14));
    assert forall|i: int, j: int|
        0 <= i < DIRECT_COUNT && 0 <= j < DIRECT_COUNT && i != j implies #[trigger] direct_script(i)
            != #[trigger] direct_script(j) by {
        assert(direct_script(i).len() != direct_script(j).len() || direct_script(i)[0] != direct_script(j)[0]);
    }
}

/// Law: each place is searched in its own folder of the profile directory:
/// the desktop, downloads and documents in the `Desktop`, `Downloads` and
/// `Documents` folders under it, the home place in the profile directory
/// itself; two different places are never searched in the same directory.
pub proof fn law_each_place_has_its_own_folder(home: Seq<char>)
    ensures
        place_dir(Place::Desktop, home) == home + "\\Desktop"@,
        place_dir(Place::Downloads, home) == home + "\\Downloads"@,
        place_dir(Place::Documents, home) == home + "\\Documents"@,
        place_dir(Place::Home, home) == home,
        forall|a: Place, b: Place| a != b ==> #[trigger] place_dir(a, home) != #[trigger] place_dir(b, home),
{
    reveal_strlit("\\Desktop");
    reveal_strlit("\\Downloads");
    reveal_strlit("\\Documents");
    let d = home + "\\Desktop"@;
    let w = home + "\\Downloads"@;
    let c = home + "\\Documents"@;
    let n = home.len() as int;
    assert(d.len() != w.len());
    assert(d.len() != home.len() && w.len() != home.len() && c.len() != home.len());
    assert(d[n + 2] == 'e' && c[n + 2] == 'o');
    assert(w[n + 3] == 'w' && c[n + 3] == 'c');
    assert(d != c);
    assert(w != c);
}

} // verus!
