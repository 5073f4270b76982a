use niro::abort::{is_aborted, new_abort_flag, raise_abort};
use niro::session::{choose_agent, should_hide_panel, voice_precheck, whisper_error, Agent, NO_VOICE_KEY};
use niro::text::{decimal_string, join, split_count_exceeds, trim, trim_start};

#[test]
fn trimming_follows_std() {
    for s in ["", "   ", "  a b  ", "\t\nx\r\n", "\u{3000}wide\u{2003}", "no-space"] {
        assert_eq!(trim(s), s.trim());
        assert_eq!(trim_start(s), s.trim_start());
    }
}

#[test]
fn small_text_helpers() {
    assert_eq!(decimal_string(0), "0");
    assert_eq!(decimal_string(18446744073709551615), "18446744073709551615");
    assert_eq!(join(&vec!["a".to_string(), "b".to_string(), "c".to_string()], ", "), "a, b, c");
    assert_eq!(join(&vec![], ", "), "");
    assert!(split_count_exceeds("a and b and c and d and e", " and ", 3));
    assert!(!split_count_exceeds("a and b and c and d", " and ", 4));
}

#[test]
fn abort_flag() {
    let f = new_abort_flag();
    assert!(!is_aborted(&f));
    raise_abort(&f);
    assert!(is_aborted(&f));
}

#[test]
fn agent_choice_and_panel() {
    assert_eq!(choose_agent("groq"), Agent::Groq);
    assert_eq!(choose_agent("gemini"), Agent::Gemini);
    assert_eq!(choose_agent(""), Agent::Gemini);
    assert_eq!(voice_precheck(""), Err(NO_VOICE_KEY.to_string()));
    assert_eq!(voice_precheck("k"), Ok(()));
    assert_eq!(whisper_error("bad audio"), "Whisper API error: bad audio");
    assert!(should_hide_panel(false, Some(false)));
    assert!(!should_hide_panel(true, Some(false)));
    assert!(!should_hide_panel(false, Some(true)));
    assert!(!should_hide_panel(false, None));
}
