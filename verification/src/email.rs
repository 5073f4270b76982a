//! Scheduling and reporting for outgoing email. Sending goes through SMTP
//! and is the caller's business; this module reads the requested send time,
//! computes the waits, and words the reports.
use vstd::prelude::*;

use crate::pattern::{compile, regex_compiles, regex_replace_first, replace_first};
use crate::text::{cat, cat3, cat5, decimal, decimal_string, owned, to_uppercase, trim, trimmed, uppercase};
use crate::tools::{err_view, ToolResult};
use chrono::Timelike;

verus! {

/// Seconds in a day.
pub const DAY_SECONDS: u64 = 86400;

/// A digit glued to `am`/`pm`, e.g. `6:05PM`.
pub const AMPM_P: &'static str = r"(?i)(\d)(am|pm)";

/// Twelve-hour clock format, e.g. `6:05 PM`.
pub const FMT_12: &'static str = "%I:%M %p";

/// Twenty-four-hour clock format, e.g. `18:05`.
pub const FMT_24: &'static str = "%H:%M";

/// What `chrono::NaiveTime::parse_from_str` yields for a text and a format,
/// as seconds past midnight (`num_seconds_from_midnight`).
pub uninterp spec fn clock_time(text: Seq<char>, format: Seq<char>) -> Option<nat>;

/// Calls `chrono::NaiveTime::parse_from_str` and `num_seconds_from_midnight`;
/// the result is named `clock_time`. chrono documents the seconds as the
/// non-leap seconds past midnight, so they are below a day.
#[verifier::external_body]
fn parse_clock(text: &str, format: &str) -> (r: Option<u32>)
    ensures
        match r {
            Some(n) => clock_time(text@, format@) == Some(n as nat) && n < DAY_SECONDS,
            None => clock_time(text@, format@) is None,
        },
{
    chrono::NaiveTime::parse_from_str(text, format).ok().map(|t| t.num_seconds_from_midnight())
}

/// Reads the local time of day, in seconds past midnight (a value that
/// depends on the clock, so nothing but its range is stated).
#[verifier::external_body]
pub(crate) fn local_seconds_now() -> (r: u32)
    ensures
        r < DAY_SECONDS,
{
    chrono::Local::now().time().num_seconds_from_midnight()
}

/// The send time normalised for the twelve-hour format: trimmed,
/// uppercased, with a space put between a digit and `AM`/`PM`.
pub open spec fn normalized_time(t: Seq<char>) -> Seq<char> {
    let upper = uppercase(trimmed(t));
    if regex_compiles(AMPM_P@) {
        regex_replace_first(AMPM_P@, upper, "$1 $2"@)
    } else {
        upper
    }
}

/// The requested time of day, in seconds past midnight: twelve-hour form
/// first, then twenty-four-hour form.
pub open spec fn requested_time(t: Seq<char>) -> Option<nat> {
    match clock_time(normalized_time(t), FMT_12@) {
        Some(n) => Some(n),
        None => clock_time(trimmed(t), FMT_24@),
    }
}

/// Seconds from `now` until the next `target` time of day (a full day when
/// they coincide).
pub open spec fn seconds_until(target: nat, now: nat) -> int {
    if target - now <= 0 {
        target - now + DAY_SECONDS
    } else {
        target - now
    }
}

/// How long to wait before sending at time `t`, at time of day `now`.
pub open spec fn schedule_wait_view(t: Seq<char>, now: nat) -> Option<int> {
    match requested_time(t) {
        Some(target) => Some(seconds_until(target, now)),
        None => None,
    }
}

/// How long to wait, in seconds, before sending at the requested time, when
/// it is now `now` seconds past midnight; none when the time cannot be read.
pub fn schedule_wait(time_str: &str, now: u32) -> (r: Option<u64>)
    requires
        now < DAY_SECONDS,
    ensures
        match schedule_wait_view(time_str@, now as nat) {
            Some(w) => r matches Some(x) && x as int == w,
            None => r is None,
        },
        r matches Some(w) ==> 0 < w <= DAY_SECONDS,
{
    let s = trim(time_str);
    let upper = to_uppercase(s.as_str());
    let normalized = match compile(AMPM_P) {
        Some(p) => replace_first(&p, upper.as_str(), "$1 $2"),
        None => upper,
    };
    let target = match parse_clock(normalized.as_str(), FMT_12) {
        Some(n) => n,
        None => match parse_clock(s.as_str(), FMT_24) {
            Some(n) => n,
            None => {
                return None;
            },
        },
    };
    if target > now {
        Some((target - now) as u64)
    } else {
        Some((target as u64 + DAY_SECONDS) - now as u64)
    }
}

/// How long to wait before sending at the requested time, read against the
/// local clock. Whatever the clock reads, a readable time gives a wait of
/// more than zero seconds and at most a day.
pub fn parse_schedule_duration(time_str: &str) -> (r: Option<u64>)
    ensures
        r is Some <==> requested_time(time_str@) is Some,
        r matches Some(w) ==> 0 < w <= DAY_SECONDS,
{
    let now = local_seconds_now();
    schedule_wait(time_str, now)
}

/// Whether a send is to be scheduled: a non-empty send time that can be read.
pub open spec fn wants_schedule(schedule_time: Option<Seq<char>>) -> bool {
    schedule_time matches Some(t) && t.len() > 0 && requested_time(t) is Some
}

/// The wait before a scheduled send, or none to send at once (no time, an
/// empty time, or a time that cannot be read).
pub fn scheduled_wait(schedule_time: Option<&str>) -> (r: Option<u64>)
    ensures
        r is Some <==> wants_schedule(
            match schedule_time {
                Some(t) => Some(t@),
                None => None,
            },
        ),
        r matches Some(w) ==> 0 < w <= DAY_SECONDS,
{
    match schedule_time {
        Some(t) => if t.unicode_len() > 0 {
            match parse_schedule_duration(t) {
                Some(w) => if w > 0 {
                    Some(w)
                } else {
                    None
                },
                None => None,
            }
        } else {
            None
        },
        None => None,
    }
}

/// How a wait is worded: `Mm Ss` when it is a minute or more, else `Ss`.
pub open spec fn eta_view(wait: nat) -> Seq<char> {
    if wait / 60 > 0 {
        decimal(wait / 60) + "m "@ + decimal(wait % 60) + "s"@
    } else {
        decimal(wait % 60) + "s"@
    }
}

/// Words a wait in minutes and seconds.
pub fn eta_text(wait: u64) -> (r: String)
    ensures
        r@ == eta_view(wait as nat),
{
    let mins = wait / 60;
    let secs = wait % 60;
    if mins > 0 {
        let m = decimal_string(mins);
        let s = decimal_string(secs);
        let mut r = cat3(m.as_str(), "m ", s.as_str());
        r.append("s");
        r
    } else {
        let s = decimal_string(secs);
        cat(s.as_str(), "s")
    }
}

/// The report for a scheduled send.
pub fn scheduled_message(wait: u64, time_str: &str) -> (r: ToolResult)
    ensures
        r@ == crate::tools::ok_view(
            "Email scheduled to send in "@ + eta_view(wait as nat) + " at "@ + time_str@ + "."@,
        ),
{
    let eta = eta_text(wait);
    ToolResult::ok(cat5("Email scheduled to send in ", eta.as_str(), " at ", time_str, "."))
}

/// How long a persisted email still waits, at Unix time `now`: none once
/// its send time has passed.
pub fn remaining_wait(send_at: i64, now: i64) -> (r: u64)
    ensures
        r as int == (if send_at > now {
            send_at - now
        } else {
            0
        }),
{
    if send_at > now {
        let d = send_at as i128 - now as i128;
        d as u64
    } else {
        0
    }
}

pub const NOT_CONFIGURED: &'static str = "Gmail not configured. Add your Gmail address and App Password in âš™ï¸\u{8f} Settings â†’ Email.";

/// The texts lettre's `AddressError` displays, one per kind of error.
pub open spec fn address_error_text(e: Seq<char>) -> bool {
    e == "Missing domain or user"@ || e == "Unbalanced angle bracket"@ || e == "Invalid email user"@
        || e == "Invalid email domain"@ || e == "Invalid input"@
}

/// What parsing a text as a `lettre::message::Mailbox` yields: none when it
/// parses, else the displayed error.
pub uninterp spec fn mailbox_error(text: Seq<char>) -> Option<Seq<char>>;

/// Parses a text as a `lettre::message::Mailbox` (`str::parse`) and
/// displays the `AddressError` when it fails; the result is named
/// `mailbox_error`. lettre's source displays each of the five kinds of
/// `AddressError` as a fixed text.
#[verifier::external_body]
fn check_mailbox(text: &str) -> (r: Option<String>)
    ensures
        match r {
            Some(e) => mailbox_error(text@) == Some(e@) && address_error_text(e@),
            None => mailbox_error(text@) is None,
        },
{
    text.parse::<lettre::message::Mailbox>().err().map(|e| e.to_string())
}

/// Why an email cannot be sent before any connection is made: missing
/// credentials, then an unreadable sender, then an unreadable recipient.
pub open spec fn email_refusal(user: Seq<char>, pass: Seq<char>, to: Seq<char>) -> Option<Seq<char>> {
    if user.len() == 0 || pass.len() == 0 {
        Some(NOT_CONFIGURED@)
    } else if mailbox_error(user) is Some {
        Some("Invalid sender email '"@ + user + "': "@ + mailbox_error(user)->Some_0)
    } else if mailbox_error(to) is Some {
        Some("Invalid recipient email '"@ + to + "': "@ + mailbox_error(to)->Some_0)
    } else {
        None
    }
}

/// Checks the credentials and both addresses before sending; the refusal
/// comes back as a failed tool result.
pub fn email_precheck(gmail_user: &str, gmail_pass: &str, to: &str) -> (r: Option<ToolResult>)
    ensures
        match email_refusal(gmail_user@, gmail_pass@, to@) {
            Some(m) => r matches Some(e) && e@ == err_view(m),
            None => r is None,
        },
{
    if gmail_user.unicode_len() == 0 || gmail_pass.unicode_len() == 0 {
        return Some(ToolResult::err(owned(NOT_CONFIGURED)));
    }
    match check_mailbox(gmail_user) {
        Some(e) => {
            return Some(ToolResult::err(cat3(cat("Invalid sender email '", gmail_user).as_str(), "': ", e.as_str())));
        },
        None => {},
    }
    match check_mailbox(to) {
        Some(e) => Some(ToolResult::err(cat3(cat("Invalid recipient email '", to).as_str(), "': ", e.as_str()))),
        None => None,
    }
}

/// The report after the mail server took the email.
pub fn email_sent(to: &str) -> (r: ToolResult)
    ensures
        r@ == crate::tools::ok_view("Email sent to "@ + to@ + " âœ“"@),
{
    ToolResult::ok(cat3("Email sent to ", to, " âœ“"))
}

/// The title of the notification after a scheduled send.
pub const SENT_TITLE: &'static str = "📧 Email Sent!";

/// The notification after a scheduled send finished.
pub open spec fn sent_notice_view(to: Seq<char>, sent: crate::tools::ToolResultView) -> Seq<char> {
    if sent.success {
        "Scheduled email to "@ + to + " has been sent."@
    } else {
        "Scheduled email failed: "@ + sent.result
    }
}

/// Words the notification after a scheduled send finished.
pub fn sent_notice(to: &str, sent: &ToolResult) -> (r: String)
    ensures
        r@ == sent_notice_view(to@, sent@),
{
    if sent.success {
        cat3("Scheduled email to ", to, " has been sent.")
    } else {
        cat("Scheduled email failed: ", sent.result.as_str())
    }
}

} // verus!
