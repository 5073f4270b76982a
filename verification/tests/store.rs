use niro::store::{
    add_scheduled_email, add_task, append_history, default_tasks, delete_task, gemini_role,
    has_plaintext_secrets, recent_history, remove_scheduled_email, resolve_provider_config,
    sanitize_config, save_task, schedule_email, secret_writes, task_saved_message, tasks_or_default,
    ChatMessage, KeychainSecrets, ProviderConfig, HISTORY_LIMIT,
};

fn config() -> ProviderConfig {
    ProviderConfig {
        provider: String::new(),
        gemini_key: "g-stored".to_string(),
        gemini_extra_keys: vec!["g2".to_string()],
        gemini_model: "gemini-2.0-flash".to_string(),
        groq_key: "q-stored".to_string(),
        groq_extra_keys: vec![],
        groq_model: String::new(),
        gmail_user: "me@gmail.com".to_string(),
        gmail_pass: "pw".to_string(),
    }
}

fn no_secrets() -> KeychainSecrets {
    KeychainSecrets { gemini_key: None, gemini_extra_keys: None, groq_key: None, groq_extra_keys: None, gmail_pass: None }
}

#[test]
fn default_task_list() {
    let t = default_tasks();
    let names: Vec<&str> = t.iter().map(|x| x.name.as_str()).collect();
    assert_eq!(names, vec!["Chrome", "Notepad", "25min Timer", "5min Break", "My IP", "Screenshot"]);
    assert_eq!(t[0].id, "1");
    assert_eq!(t[2].icon, "⏱");
    assert_eq!(t[5].instruction, "Take a screenshot and tell me what's on my screen");
    let (shown, seeded) = tasks_or_default(None);
    assert!(seeded && shown.len() == 6);
    let (shown, seeded) = tasks_or_default(Some(vec![]));
    assert!(!seeded && shown.is_empty());
}

#[test]
fn tasks_are_added_and_deleted() {
    let t = add_task(default_tasks(), "x1".to_string(), "Mail".to_string(), "Check mail".to_string());
    assert_eq!(t.len(), 7);
    assert_eq!((t[6].id.as_str(), t[6].icon.as_str()), ("x1", "⚡"));
    let t = delete_task(t, "2");
    assert_eq!(t.len(), 6);
    assert!(t.iter().all(|x| x.id != "2"));
    assert_eq!(t[1].id, "3");
    let same = delete_task(t, "nope");
    assert_eq!(same.len(), 6);
    let saved = save_task(vec![], "Lunch".to_string(), "Set a 30 minute timer".to_string());
    assert_eq!(saved.len(), 1);
    assert_eq!(saved[0].id.len(), 36);
    assert_eq!(saved[0].icon, "⚡");
    assert_eq!(task_saved_message("Lunch"), "Task 'Lunch' saved.");
}

#[test]
fn history_keeps_the_last_fifty() {
    let mut h: Vec<ChatMessage> = Vec::new();
    for i in 0..55 {
        h = append_history(h, "user", &format!("m{i}"));
    }
    assert_eq!(h.len(), HISTORY_LIMIT);
    assert_eq!(h[0].content, "m5");
    assert_eq!(h[49].content, "m54");
    let last = recent_history(&h, 4);
    let c: Vec<&str> = last.iter().map(|m| m.content.as_str()).collect();
    assert_eq!(c, vec!["m51", "m52", "m53", "m54"]);
    let short = append_history(append_history(vec![], "user", "a"), "assistant", "b");
    assert_eq!(recent_history(&short, 4).len(), 2);
    assert_eq!(gemini_role("assistant"), "model");
    assert_eq!(gemini_role("user"), "user");
    assert_eq!(gemini_role("system"), "user");
}

#[test]
fn keychain_takes_precedence() {
    let c = resolve_provider_config(config(), &no_secrets());
    assert_eq!(c.provider, "groq");
    assert_eq!(c.gemini_model, "gemini-2.5-flash");
    assert_eq!(c.groq_model, "llama-3.1-8b-instant");
    assert_eq!(c.gemini_key, "g-stored");
    let secrets = KeychainSecrets {
        gemini_key: Some("g-keychain".to_string()),
        gemini_extra_keys: Some("[\"a\",\"b\"]".to_string()),
        groq_key: Some(String::new()),
        groq_extra_keys: Some("not json".to_string()),
        gmail_pass: Some("kp".to_string()),
    };
    let c = resolve_provider_config(config(), &secrets);
    assert_eq!(c.gemini_key, "g-keychain");
    assert_eq!(c.gemini_extra_keys, vec!["a".to_string(), "b".to_string()]);
    assert_eq!(c.groq_key, "q-stored");
    assert!(c.groq_extra_keys.is_empty());
    assert_eq!(c.gmail_pass, "kp");
    assert_eq!(c.gmail_user, "me@gmail.com");
}

#[test]
fn saving_moves_secrets_to_the_keychain() {
    let c = config();
    let w = secret_writes(&c);
    let pairs: Vec<(&str, &str)> = w.iter().map(|x| (x.account.as_str(), x.value.as_str())).collect();
    assert_eq!(
        pairs,
        vec![
            ("gemini_key", "g-stored"),
            ("gemini_extra_keys", "[\"g2\"]"),
            ("groq_key", "q-stored"),
            ("groq_extra_keys", "[]"),
            ("gmail_pass", "pw"),
        ]
    );
    assert!(has_plaintext_secrets(&c));
    let s = sanitize_config(config(), &vec![true, true, true, true, true]);
    assert!(!has_plaintext_secrets(&s));
    assert_eq!(s.gmail_user, "me@gmail.com");
    let partial = sanitize_config(config(), &vec![true, true, false, true, true]);
    assert_eq!(partial.groq_key, "q-stored");
    assert!(partial.gemini_key.is_empty());
}

#[test]
fn scheduled_email_queue() {
    let e = schedule_email("a@b.c", "Hi", "Body", 1_700_000_000, 90);
    assert_eq!(e.send_at, 1_700_000_090);
    assert_eq!(e.id.len(), 36);
    let id = e.id.clone();
    let q = add_scheduled_email(vec![], e);
    let q = add_scheduled_email(q, schedule_email("x@y.z", "S", "B", 0, 5));
    assert_eq!(q.len(), 2);
    let q = remove_scheduled_email(q, &id);
    assert_eq!(q.len(), 1);
    assert_eq!(q[0].to, "x@y.z");
}

fn settled() -> ProviderConfig {
    ProviderConfig {
        provider: "gemini".to_string(),
        gemini_key: "g-key".to_string(),
        gemini_extra_keys: vec!["g2".to_string(), "g\"3".to_string()],
        gemini_model: "gemini-2.5-flash".to_string(),
        groq_key: String::new(),
        groq_extra_keys: vec!["q2".to_string()],
        groq_model: "llama-3.1-8b-instant".to_string(),
        gmail_user: "me@gmail.com".to_string(),
        gmail_pass: "app-pass".to_string(),
    }
}

fn keychain_after(c: &ProviderConfig, ok: &[bool]) -> KeychainSecrets {
    let w = secret_writes(c);
    let get = |i: usize| if ok[i] && !w[i].value.is_empty() { Some(w[i].value.clone()) } else { None };
    KeychainSecrets { gemini_key: get(0), gemini_extra_keys: get(1), groq_key: get(2), groq_extra_keys: get(3), gmail_pass: get(4) }
}

fn same_config(a: &ProviderConfig, b: &ProviderConfig) -> bool {
    a.provider == b.provider
        && a.gemini_key == b.gemini_key
        && a.gemini_extra_keys == b.gemini_extra_keys
        && a.gemini_model == b.gemini_model
        && a.groq_key == b.groq_key
        && a.groq_extra_keys == b.groq_extra_keys
        && a.groq_model == b.groq_model
        && a.gmail_user == b.gmail_user
        && a.gmail_pass == b.gmail_pass
}

#[test]
fn saved_settings_read_back() {
    for ok in [[true; 5], [false; 5], [true, false, true, false, true], [false, true, false, true, false]] {
        let file = sanitize_config(settled(), &ok.to_vec());
        let back = resolve_provider_config(file, &keychain_after(&settled(), &ok));
        assert!(same_config(&back, &settled()));
    }
}

#[test]
fn migration_settles() {
    let all = vec![true; 5];
    let file = sanitize_config(config(), &all);
    assert!(!has_plaintext_secrets(&file));
    // A clean file is left as it is by a second pass.
    let again = sanitize_config(sanitize_config(config(), &all), &all);
    assert!(same_config(&again, &file));
    // What is in effect is unchanged by the migration.
    let before = resolve_provider_config(config(), &no_secrets());
    let after = resolve_provider_config(file, &keychain_after(&config(), &all));
    assert!(same_config(&before, &after));
}
