//! Browser automation over the Chrome DevTools Protocol: which browser to
//! launch, where the page's debugger socket is, and the JavaScript each
//! browser tool evaluates in the page.
use vstd::prelude::*;

use crate::text::{
    cat, cat3, chars_of, expand, has_prefix, join, joined, json_literal, lemma_expand_take, owned,
    str_eq, str_starts_with, string_of,
};

verus! {

/// The remote-debugging port the browser is started with.
pub const CDP_PORT: u16 = 9222;

/// The launch flag that opens the debugging port.
pub const PORT_FLAG: &'static str = "--remote-debugging-port=9222";

/// Number of browser install locations probed.
pub const BROWSER_CANDIDATES: usize = 5;

/// Install location `i`, probed in order: Brave, Brave (x86), Edge, Chrome, Chrome (x86).
pub open spec fn candidate_path(i: int) -> Seq<char> {
    if i == 0 {
        r"C:\Program Files\BraveSoftware\Brave-Browser\Application\brave.exe"@
    } else if i == 1 {
        r"C:\Program Files (x86)\BraveSoftware\Brave-Browser\Application\brave.exe"@
    } else if i == 2 {
        r"C:\Program Files (x86)\Microsoft\Edge\Application\msedge.exe"@
    } else if i == 3 {
        r"C:\Program Files\Google\Chrome\Application\chrome.exe"@
    } else {
        r"C:\Program Files (x86)\Google\Chrome\Application\chrome.exe"@
    }
}

/// Install location `i`.
pub fn candidate(i: usize) -> (r: &'static str)
    requires
        i < BROWSER_CANDIDATES,
    ensures
        r@ == candidate_path(i as int),
{
    if i == 0 {
        r"C:\Program Files\BraveSoftware\Brave-Browser\Application\brave.exe"
    } else if i == 1 {
        r"C:\Program Files (x86)\BraveSoftware\Brave-Browser\Application\brave.exe"
    } else if i == 2 {
        r"C:\Program Files (x86)\Microsoft\Edge\Application\msedge.exe"
    } else if i == 3 {
        r"C:\Program Files\Google\Chrome\Application\chrome.exe"
    } else {
        r"C:\Program Files (x86)\Google\Chrome\Application\chrome.exe"
    }
}

/// The browser to launch: the first install location that exists, given
/// whether each one exists.
pub fn detect_chromium_browser(exists: &Vec<bool>) -> (r: Option<String>)
    requires
        exists@.len() == BROWSER_CANDIDATES,
    ensures
        match crate::guard::first_hit(exists@) {
            Some(i) => r matches Some(p) && p@ == candidate_path(i),
            None => r is None,
        },
{
    let mut i: usize = 0;
    while i < BROWSER_CANDIDATES
        invariant
            i <= BROWSER_CANDIDATES,
            exists@.len() == BROWSER_CANDIDATES,
            crate::guard::first_hit(exists@) == crate::guard::first_hit_from(exists@, i as int),
        decreases BROWSER_CANDIDATES - i,
    {
        if exists[i] {
            return Some(owned(candidate(i)));
        }
        i = i + 1;
    }
    None
}

/// A URL with `https://` added unless it already starts with `http`.
pub open spec fn full_url_of(url: Seq<char>) -> Seq<char> {
    if has_prefix(url, "http"@) {
        url
    } else {
        "https://"@ + url
    }
}

/// Completes a bare host or path into a URL.
pub fn full_url(url: &str) -> (r: String)
    ensures
        r@ == full_url_of(url@),
{
    if str_starts_with(url, "http") {
        owned(url)
    } else {
        cat("https://", url)
    }
}

/// What the page discovery endpoint lists, per target: its `type` and its
/// `webSocketDebuggerUrl`, where these are strings.
pub struct Target {
    pub kind: Option<String>,
    pub ws_url: Option<String>,
}

/// The index of the first target of type `page`, at or after `i`.
pub open spec fn first_page_from(t: Seq<(Option<Seq<char>>, Option<Seq<char>>)>, i: int) -> Option<int>
    decreases t.len() - i,
{
    if i < 0 || i >= t.len() {
        None
    } else if t[i].0 == Some("page"@) {
        Some(i)
    } else {
        first_page_from(t, i + 1)
    }
}

/// The views of a target list.
pub open spec fn targets_view(t: Seq<Target>) -> Seq<(Option<Seq<char>>, Option<Seq<char>>)> {
    t.map_values(|x: Target| (x.kind.deep_view(), x.ws_url.deep_view()))
}

pub const NO_PAGE: &'static str = "No page target found";

/// The debugger socket of the first page target; an error when there is no
/// page target or it has no socket address.
pub fn page_ws_url(targets: &Vec<Target>) -> (r: Result<String, String>)
    ensures
        match first_page_from(targets_view(targets@), 0) {
            Some(i) => match targets_view(targets@)[i].1 {
                Some(u) => r matches Ok(s) && s@ == u,
                None => r matches Err(e) && e@ == NO_PAGE@,
            },
            None => r matches Err(e) && e@ == NO_PAGE@,
        },
{
    let ghost tv = targets_view(targets@);
    let mut i: usize = 0;
    while i < targets.len()
        invariant
            i <= targets@.len(),
            tv == targets_view(targets@),
            first_page_from(tv, 0) == first_page_from(tv, i as int),
        decreases targets@.len() - i,
    {
        let t = &targets[i];
        assert(tv[i as int] == (t.kind.deep_view(), t.ws_url.deep_view()));
        let is_page = match &t.kind {
            Some(k) => str_eq(k.as_str(), "page"),
            None => false,
        };
        if is_page {
            return match &t.ws_url {
                Some(u) => Ok(u.clone()),
                None => Err(owned(NO_PAGE)),
            };
        }
        i = i + 1;
    }
    Err(owned(NO_PAGE))
}

// ── Launching the browser ──────────────────────────────────────────────────

/// The error when no supported browser is installed.
pub const NO_BROWSER: &'static str = "No Chromium browser found. Install Brave, Chrome, or Edge.";
/// The error when the launched browser never opened its debugging port.
pub const NO_CDP: &'static str = "Browser launched but CDP didn't respond in 5s";
/// How many times the debugging port is polled after a launch.
pub const LAUNCH_POLLS: u32 = 10;
/// Milliseconds between two polls.
pub const POLL_MS: u64 = 500;

/// The arguments the browser is launched with.
pub open spec fn launch_arg_views() -> Seq<Seq<char>> {
    seq![PORT_FLAG@, "--no-first-run"@, "--no-default-browser-check"@]
}

/// The arguments the browser is launched with: the debugging port, and no
/// first-run or default-browser prompts.
pub fn launch_args() -> (r: Vec<String>)
    ensures
        r.deep_view() == launch_arg_views(),
{
    let mut v: Vec<String> = Vec::new();
    v.push(owned(PORT_FLAG));
    v.push(owned("--no-first-run"));
    v.push(owned("--no-default-browser-check"));
    assert(v.deep_view() =~= launch_arg_views());
    v
}

/// The error when the browser could not be started.
pub fn launch_failed(reason: &str) -> (r: String)
    ensures
        r@ == "Failed to launch browser: "@ + reason@,
{
    cat("Failed to launch browser: ", reason)
}

/// The report after navigating to `url`.
pub fn navigated_message(url: &str) -> (r: String)
    ensures
        r@ == "Navigated to "@ + url@,
{
    cat("Navigated to ", url)
}

/// The report of closing the browser when none was running.
pub const NO_SESSION: &'static str = "No browser session active.";
/// The report after closing the browser.
pub const CLOSED: &'static str = "Browser closed.";

// ── One command over the debugger socket ───────────────────────────────────

/// How many connections a command tries before it fails.
pub const CDP_ATTEMPTS: u32 = 2;
/// The failure when no attempt got as far as an answer.
pub const NO_RESPONSE: &'static str = "CDP: no response";
/// Why an attempt ended: the command could not be sent.
pub const SEND_FAILED: &'static str = "WS send failed";
/// Why an attempt ended: the socket failed or closed while waiting.
pub const CONNECTION_CLOSED: &'static str = "WS connection closed";

/// A frame read from the debugger socket while waiting for an answer.
pub enum CdpFrame {
    /// A text frame: its `id` when that is a number, and its `error`
    /// member, written out as JSON, when it has one.
    Text { id: Option<u64>, error: Option<String> },
    /// A ping, pong or binary frame.
    Other,
    /// The socket failed or closed.
    Closed,
}

/// The mathematical value of a [`CdpFrame`].
pub enum CdpFrameView {
    Text { id: Option<u64>, error: Option<Seq<char>> },
    Other,
    Closed,
}

impl View for CdpFrame {
    type V = CdpFrameView;

    open spec fn view(&self) -> CdpFrameView {
        match self {
            CdpFrame::Text { id, error } => CdpFrameView::Text { id: *id, error: error.deep_view() },
            CdpFrame::Other => CdpFrameView::Other,
            CdpFrame::Closed => CdpFrameView::Closed,
        }
    }
}

/// What to do with a frame.
pub enum FrameAction {
    /// Keep reading: the frame is not the answer.
    Skip,
    /// The answer arrived: `Ok` means the frame's `result` is the command's
    /// result; `Err` carries the failure.
    Answer(Result<(), String>),
    /// Drop the connection and try again, for this reason.
    Reconnect(String),
}

/// The mathematical value of a [`FrameAction`].
pub enum FrameActionView {
    Skip,
    Answer(Result<(), Seq<char>>),
    Reconnect(Seq<char>),
}

impl View for FrameAction {
    type V = FrameActionView;

    open spec fn view(&self) -> FrameActionView {
        match self {
            FrameAction::Skip => FrameActionView::Skip,
            FrameAction::Answer(Ok(())) => FrameActionView::Answer(Ok(())),
            FrameAction::Answer(Err(e)) => FrameActionView::Answer(Err(e@)),
            FrameAction::Reconnect(m) => FrameActionView::Reconnect(m@),
        }
    }
}

/// The action a frame calls for while waiting for the answer to command `id`:
/// only a text frame carrying that id answers it, with its error when it
/// has one; a failed socket means reconnecting.
pub open spec fn frame_action(id: u64, frame: CdpFrameView) -> FrameActionView {
    match frame {
        CdpFrameView::Text { id: got, error } => if got == Some(id) {
            match error {
                Some(e) => FrameActionView::Answer(Err("CDP error: "@ + e)),
                None => FrameActionView::Answer(Ok(())),
            }
        } else {
            FrameActionView::Skip
        },
        CdpFrameView::Other => FrameActionView::Skip,
        CdpFrameView::Closed => FrameActionView::Reconnect(CONNECTION_CLOSED@),
    }
}

/// Decides what to do with a frame while waiting for the answer to command `id`.
pub fn on_frame(id: u64, frame: &CdpFrame) -> (r: FrameAction)
    ensures
        r@ == frame_action(id, frame@),
{
    match frame {
        CdpFrame::Text { id: got, error } => {
            let mine = match got {
                Some(g) => *g == id,
                None => false,
            };
            if mine {
                match error {
                    Some(e) => FrameAction::Answer(Err(cat("CDP error: ", e.as_str()))),
                    None => FrameAction::Answer(Ok(())),
                }
            } else {
                FrameAction::Skip
            }
        },
        CdpFrame::Other => FrameAction::Skip,
        CdpFrame::Closed => FrameAction::Reconnect(owned(CONNECTION_CLOSED)),
    }
}

/// The id for the next command on a connection, and the counter after it.
pub fn next_command_id(next_id: u64) -> (r: (u64, u64))
    requires
        next_id < u64::MAX,
    ensures
        r.0 == next_id,
        r.1 == next_id + 1,
{
    (next_id, next_id + 1)
}

/// The retry state of one command: how many connections were tried and
/// why the last one failed.
pub struct CdpRetry {
    pub tried: u32,
    pub last_error: String,
}

/// The state before the first attempt.
pub fn cdp_begin() -> (r: CdpRetry)
    ensures
        r.tried == 0,
        r.last_error@ == NO_RESPONSE@,
{
    CdpRetry { tried: 0, last_error: owned(NO_RESPONSE) }
}

/// Whether another attempt may be made.
pub fn cdp_may_attempt(s: &CdpRetry) -> (r: bool)
    ensures
        r == (s.tried < CDP_ATTEMPTS),
{
    s.tried < CDP_ATTEMPTS
}

/// Records an attempt that ended in a dropped connection, for `reason`.
pub fn cdp_attempt_failed(s: CdpRetry, reason: String) -> (r: CdpRetry)
    requires
        s.tried < CDP_ATTEMPTS,
    ensures
        r.tried == s.tried + 1,
        r.last_error@ == reason@,
{
    CdpRetry { tried: s.tried + 1, last_error: reason }
}

// ── JavaScript ─────────────────────────────────────────────────────────────

/// Calls `serde_json::to_string` on a string. serde_json's source writes
/// a string as a JSON literal (see `json_literal`) and does not fail on one.
#[verifier::external_body]
fn json_encode_str(s: &str) -> (r: Option<String>)
    ensures
        match r {
            Some(t) => t@ == json_literal(s@),
            None => false,
        },
{
    serde_json::to_string(s).ok()
}

/// How one character is escaped when the JSON encoder is unavailable.
pub open spec fn fallback_piece(c: char) -> Seq<char> {
    if c == '\\' {
        seq!['\\', '\\']
    } else if c == '"' {
        seq!['\\', '"']
    } else {
        seq![c]
    }
}

/// A JavaScript string literal for a text: its JSON form.
pub open spec fn js_literal(s: Seq<char>) -> Seq<char> {
    json_literal(s)
}

/// A JavaScript string literal for a text.
pub fn js_str(s: &str) -> (r: String)
    ensures
        r@ == js_literal(s@),
{
    match json_encode_str(s) {
        Some(t) => t,
        None => {
            let cs = chars_of(s);
            let mut out: Vec<char> = Vec::new();
            out.push('"');
            let mut i: usize = 0;
            while i < cs.len()
                invariant
                    i <= cs@.len(),
                    cs@ == s@,
                    out@ == seq!['"'] + expand(cs@.take(i as int), |c: char| fallback_piece(c)),
                decreases cs@.len() - i,
            {
                let c = cs[i];
                proof {
                    lemma_expand_take(cs@, i as int, |c: char| fallback_piece(c));
                }
                if c == '\\' {
                    out.push('\\');
                    out.push('\\');
                } else if c == '"' {
                    out.push('\\');
                    out.push('"');
                } else {
                    out.push(c);
                }
                assert(out@ =~= seq!['"'] + expand(cs@.take(i + 1), |c: char| fallback_piece(c)));
                i = i + 1;
            }
            out.push('"');
            assert(cs@.take(cs@.len() as int) =~= cs@);
            string_of(out.as_slice())
        },
    }
}

/// Pieces of the click text script, between copies of the quoted argument.
pub open spec fn click_text_parts() -> Seq<Seq<char>> {
    seq![
        r#"(()=>{const tags='a,button,[role="button"],input[type="submit"],input[type="button"]';
                const el=[...document.querySelectorAll(tags)].find(e=>e.innerText?.trim().toLowerCase().includes("#@,
        r#".toLowerCase())||e.value?.toLowerCase().includes("#@,
        r#".toLowerCase()));
                if(el){el.click();return'Clicked: '+(el.innerText||el.value||"#@,
        r#")}return'Not found: '+"#@,
        r#"})()"#@,
    ]
}

fn click_text_pieces() -> (r: Vec<String>)
    ensures
        r.deep_view() == click_text_parts(),
{
    let mut v: Vec<String> = Vec::new();
    v.push(owned(r#"(()=>{const tags='a,button,[role="button"],input[type="submit"],input[type="button"]';
                const el=[...document.querySelectorAll(tags)].find(e=>e.innerText?.trim().toLowerCase().includes("#));
    v.push(owned(r#".toLowerCase())||e.value?.toLowerCase().includes("#));
    v.push(owned(r#".toLowerCase()));
                if(el){el.click();return'Clicked: '+(el.innerText||el.value||"#));
    v.push(owned(r#")}return'Not found: '+"#));
    v.push(owned(r#"})()"#));
    assert(v.deep_view() =~= click_text_parts());
    v
}

/// Pieces of the click selector script, between copies of the quoted argument.
pub open spec fn click_selector_parts() -> Seq<Seq<char>> {
    seq![
        r#"(()=>{const el=document.querySelector("#@,
        r#");if(el){el.click();return'Clicked: '+"#@,
        r#"}return'Not found: '+"#@,
        r#"})()"#@,
    ]
}

fn click_selector_pieces() -> (r: Vec<String>)
    ensures
        r.deep_view() == click_selector_parts(),
{
    let mut v: Vec<String> = Vec::new();
    v.push(owned(r#"(()=>{const el=document.querySelector("#));
    v.push(owned(r#");if(el){el.click();return'Clicked: '+"#));
    v.push(owned(r#"}return'Not found: '+"#));
    v.push(owned(r#"})()"#));
    assert(v.deep_view() =~= click_selector_parts());
    v
}

/// Pieces of the type before script, between copies of the quoted argument.
pub open spec fn type_before_parts() -> Seq<Seq<char>> {
    seq![
        r#"(()=>{
        const el=document.querySelector("#@,
        r#")||[...document.querySelectorAll('input,textarea,*[contenteditable]')]
            .find(e=>e.placeholder?.toLowerCase().includes("#@,
        r#".toLowerCase())||e.name?.includes("#@,
        r#"));
        if(!el)return'Input not found: '+"#@,
        r#";
        el.focus();el.value="#@,
    ]
}

fn type_before_pieces() -> (r: Vec<String>)
    ensures
        r.deep_view() == type_before_parts(),
{
    let mut v: Vec<String> = Vec::new();
    v.push(owned(r#"(()=>{
        const el=document.querySelector("#));
    v.push(owned(r#")||[...document.querySelectorAll('input,textarea,*[contenteditable]')]
            .find(e=>e.placeholder?.toLowerCase().includes("#));
    v.push(owned(r#".toLowerCase())||e.name?.includes("#));
    v.push(owned(r#"));
        if(!el)return'Input not found: '+"#));
    v.push(owned(r#";
        el.focus();el.value="#));
    assert(v.deep_view() =~= type_before_parts());
    v
}

/// Pieces of the type after script, between copies of the quoted argument.
pub open spec fn type_after_parts() -> Seq<Seq<char>> {
    seq![
        r#";
        el.dispatchEvent(new Event('input',{bubbles:true}));
        el.dispatchEvent(new Event('change',{bubbles:true}));
        return'Typed into '+"#@,
        r#"})()"#@,
    ]
}

fn type_after_pieces() -> (r: Vec<String>)
    ensures
        r.deep_view() == type_after_parts(),
{
    let mut v: Vec<String> = Vec::new();
    v.push(owned(r#";
        el.dispatchEvent(new Event('input',{bubbles:true}));
        el.dispatchEvent(new Event('change',{bubbles:true}));
        return'Typed into '+"#));
    v.push(owned(r#"})()"#));
    assert(v.deep_view() =~= type_after_parts());
    v
}

/// Pieces of the read selector script, between copies of the quoted argument.
pub open spec fn read_selector_parts() -> Seq<Seq<char>> {
    seq![
        r#"(()=>{const el=document.querySelector("#@,
        r#");return el?el.innerText||el.value||el.textContent:'Not found: '+"#@,
        r#"})()"#@,
    ]
}

fn read_selector_pieces() -> (r: Vec<String>)
    ensures
        r.deep_view() == read_selector_parts(),
{
    let mut v: Vec<String> = Vec::new();
    v.push(owned(r#"(()=>{const el=document.querySelector("#));
    v.push(owned(r#");return el?el.innerText||el.value||el.textContent:'Not found: '+"#));
    v.push(owned(r#"})()"#));
    assert(v.deep_view() =~= read_selector_parts());
    v
}


/// The script that clicks: by visible text when a text is given (the first
/// link, button or submit input whose text or value contains it), else by
/// CSS selector; none without either.
pub open spec fn click_script(selector: Option<Seq<char>>, text: Option<Seq<char>>) -> Option<Seq<char>> {
    match text {
        Some(t) => Some(joined(click_text_parts(), js_literal(t))),
        None => match selector {
            Some(s) => Some(joined(click_selector_parts(), js_literal(s))),
            None => None,
        },
    }
}

/// Builds the click script.
pub fn build_click_script(selector: Option<&str>, text: Option<&str>) -> (r: Option<String>)
    ensures
        match click_script(
            match selector {
                Some(s) => Some(s@),
                None => None,
            },
            match text {
                Some(t) => Some(t@),
                None => None,
            },
        ) {
            Some(js) => r matches Some(s) && s@ == js,
            None => r is None,
        },
{
    match text {
        Some(t) => {
            let v = js_str(t);
            Some(join(&click_text_pieces(), v.as_str()))
        },
        None => match selector {
            Some(s) => {
                let v = js_str(s);
                Some(join(&click_selector_pieces(), v.as_str()))
            },
            None => None,
        },
    }
}

pub const NEED_TARGET: &'static str = "Provide selector or text";

/// The script that fills an input (found by selector, placeholder or name)
/// with a text and fires its input and change events.
pub open spec fn type_script(selector: Seq<char>, text: Seq<char>) -> Seq<char> {
    joined(type_before_parts(), js_literal(selector)) + js_literal(text) + joined(
        type_after_parts(),
        js_literal(selector),
    )
}

/// Builds the typing script.
pub fn build_type_script(selector: &str, text: &str) -> (r: String)
    ensures
        r@ == type_script(selector@, text@),
{
    let sel = js_str(selector);
    let txt = js_str(text);
    let a = join(&type_before_pieces(), sel.as_str());
    let b = join(&type_after_pieces(), sel.as_str());
    cat3(a.as_str(), txt.as_str(), b.as_str())
}

/// The script that reads the page: an element's text by selector, else the
/// title and the first 2000 characters of the body.
pub open spec fn read_script(selector: Option<Seq<char>>) -> Seq<char> {
    match selector {
        Some(s) => joined(read_selector_parts(), js_literal(s)),
        None => READ_PAGE@,
    }
}

pub const READ_PAGE: &'static str = "document.title+'\\n---\\n'+document.body.innerText.slice(0,2000)";

/// Builds the reading script.
pub fn build_read_script(selector: Option<&str>) -> (r: String)
    ensures
        r@ == read_script(
            match selector {
                Some(s) => Some(s@),
                None => None,
            },
        ),
{
    match selector {
        Some(s) => {
            let v = js_str(s);
            join(&read_selector_pieces(), v.as_str())
        },
        None => owned(READ_PAGE),
    }
}

} // verus!
