use niro::skills::{builtin_skills, load_skills, match_skill, parse_skill_md, Skill, EMAIL_SKILL, MONITOR_SKILL};

#[test]
fn builtin_skills_match_their_keywords() {
    let skills = builtin_skills();
    assert_eq!(skills.len(), 3);
    assert_eq!(
        match_skill(&skills, "Can you HELP ME WRITE AN EMAIL to Bob?"),
        Some(format!("ACTIVE SKILL — Email Composer (follow these instructions for this request):\n{EMAIL_SKILL}"))
    );
    assert_eq!(
        match_skill(&skills, "how is my pc doing today"),
        Some(format!("ACTIVE SKILL — System Monitor (follow these instructions for this request):\n{MONITOR_SKILL}"))
    );
    assert_eq!(match_skill(&skills, "hello there"), None);
}

#[test]
fn empty_keywords_never_match() {
    let skills = vec![Skill { name: "Blank".to_string(), when_to_use: " , ,".to_string(), content: "c".to_string() }];
    assert_eq!(match_skill(&skills, "anything at all"), None);
    let skills = vec![Skill { name: "S".to_string(), when_to_use: "zzz, Foo ".to_string(), content: "c".to_string() }];
    // Keywords are trimmed but not lowercased; the message is lowercased.
    assert_eq!(match_skill(&skills, "FOO"), None);
    let skills = vec![Skill { name: "S".to_string(), when_to_use: "zzz, foo ".to_string(), content: "c".to_string() }];
    assert_eq!(
        match_skill(&skills, "FOO"),
        Some("ACTIVE SKILL — S (follow these instructions for this request):\nc".to_string())
    );
}

#[test]
fn front_matter_is_read() {
    let s = parse_skill_md("greeter", "---\nname: Greeter\nwhen_to_use: hello, hi there\n---\nSay hello warmly.\n").unwrap();
    assert_eq!((s.name.as_str(), s.when_to_use.as_str(), s.content.as_str()), ("Greeter", "hello, hi there", "Say hello warmly."));
    let s = parse_skill_md("notes", "  ---\r\nname: Notes\r\ndescription: take notes\r\n---\r\nWrite notes.").unwrap();
    assert_eq!((s.name.as_str(), s.when_to_use.as_str(), s.content.as_str()), ("Notes", "take notes", "Write notes."));
    let s = parse_skill_md("ab", "---\nwhen_to_use: a\ndescription: b\n---\nBody").unwrap();
    assert_eq!((s.name.as_str(), s.when_to_use.as_str()), ("Custom Skill", "a"));
}

#[test]
fn skills_without_front_matter_or_body() {
    let s = parse_skill_md("rules", "Just follow the rules.").unwrap();
    assert_eq!((s.name.as_str(), s.when_to_use.as_str(), s.content.as_str()), ("rules", "Just follow the rules.", "Just follow the rules."));
    let s = parse_skill_md("deploy", "\n  deploy app\nRun the deploy script.\n").unwrap();
    assert_eq!(
        (s.name.as_str(), s.when_to_use.as_str(), s.content.as_str()),
        ("deploy", "deploy app", "deploy app\nRun the deploy script.")
    );
    let s = parse_skill_md("", "Body only").unwrap();
    assert_eq!((s.name.as_str(), s.when_to_use.as_str()), ("Custom Skill", "Body only"));
    assert!(parse_skill_md("x", "---\nname: X\n---\n   \n").is_none());
    assert!(parse_skill_md("blank", "   ").is_none());
    assert!(parse_skill_md("empty", "").is_none());
}

#[test]
fn user_skills_follow_the_builtin_ones() {
    let files = vec![
        ("greeter".to_string(), "---\nname: Greeter\nwhen_to_use: hello, hi there\n---\nSay hello warmly.".to_string()),
        ("blank".to_string(), "  ".to_string()),
        ("deploy".to_string(), "deploy app\nRun the deploy script.".to_string()),
    ];
    let skills = load_skills(&files);
    assert_eq!(skills.len(), 5);
    assert_eq!(skills[3].name, "Greeter");
    assert_eq!(skills[4].name, "deploy");
    assert_eq!(skills[4].when_to_use, "deploy app");
    assert_eq!(
        match_skill(&skills, "Hi there!"),
        Some("ACTIVE SKILL — Greeter (follow these instructions for this request):\nSay hello warmly.".to_string())
    );
}
