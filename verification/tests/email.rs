use niro::email::{
    email_precheck, email_sent, eta_text, parse_schedule_duration, remaining_wait, schedule_wait,
    scheduled_message, scheduled_wait, sent_notice, DAY_SECONDS, NOT_CONFIGURED,
};
use niro::tools::ToolResult;

const ADDRESS_ERRORS: [&str; 5] =
    ["Missing domain or user", "Unbalanced angle bracket", "Invalid email user", "Invalid email domain", "Invalid input"];

#[test]
fn waits_until_the_requested_time() {
    let six_pm = 18 * 3600;
    assert_eq!(schedule_wait("6:05 PM", six_pm), Some(300));
    assert_eq!(schedule_wait("  6:05pm ", six_pm), Some(300));
    assert_eq!(schedule_wait("18:05", 70_000), Some(65_100 + 86_400 - 70_000));
    assert_eq!(schedule_wait("10:00", 36_000), Some(DAY_SECONDS));
    assert_eq!(schedule_wait("7:30 am", 0), Some(7 * 3600 + 1800));
    assert_eq!(schedule_wait("tomorrow", 0), None);
    assert_eq!(schedule_wait("", 0), None);
}

#[test]
fn waits_against_the_clock() {
    let w = parse_schedule_duration("23:59").expect("a valid time");
    assert!(w > 0 && w <= DAY_SECONDS);
    assert_eq!(parse_schedule_duration("soon"), None);
    assert_eq!(scheduled_wait(None), None);
    assert_eq!(scheduled_wait(Some("")), None);
    assert_eq!(scheduled_wait(Some("later")), None);
    let w = scheduled_wait(Some("11:15 PM")).expect("a valid time");
    assert!(w > 0 && w <= DAY_SECONDS);
}

#[test]
fn scheduling_reports() {
    assert_eq!(eta_text(300), "5m 0s");
    assert_eq!(eta_text(59), "59s");
    assert_eq!(eta_text(3661), "61m 1s");
    let r = scheduled_message(300, "6:05 PM");
    assert!(r.success);
    assert_eq!(r.result, "Email scheduled to send in 5m 0s at 6:05 PM.");
    assert_eq!(remaining_wait(100, 40), 60);
    assert_eq!(remaining_wait(40, 100), 0);
    assert_eq!(remaining_wait(i64::MAX, i64::MIN), u64::MAX);
}

#[test]
fn email_checks_before_sending() {
    let r = email_precheck("", "pw", "a@b.c").expect("refused");
    assert!(!r.success);
    assert_eq!(r.result, NOT_CONFIGURED);
    assert!(NOT_CONFIGURED.contains("\u{8f} Settings"));
    assert!(email_precheck("me@gmail.com", "", "a@b.c").is_some());
    let r = email_precheck("not an email", "pw", "a@b.c").expect("refused");
    let prefix = "Invalid sender email 'not an email': ";
    assert!(r.result.starts_with(prefix), "{}", r.result);
    assert!(ADDRESS_ERRORS.contains(&&r.result[prefix.len()..]));
    let r = email_precheck("me@gmail.com", "pw", "bob").expect("refused");
    let prefix = "Invalid recipient email 'bob': ";
    assert!(r.result.starts_with(prefix), "{}", r.result);
    assert!(ADDRESS_ERRORS.contains(&&r.result[prefix.len()..]));
    assert!(email_precheck("Me <me@gmail.com>", "pw", "a@b.co").is_none());
}

#[test]
fn send_reports() {
    assert_eq!(email_sent("a@b.c").result, "Email sent to a@b.c \u{e2}\u{153}\u{201c}");
    assert_eq!(sent_notice("a@b.c", &ToolResult::ok("x".to_string())), "Scheduled email to a@b.c has been sent.");
    assert_eq!(sent_notice("a@b.c", &ToolResult::err("timeout".to_string())), "Scheduled email failed: timeout");
}
