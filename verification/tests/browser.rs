use niro::browser::{
    build_click_script, build_read_script, build_type_script, candidate, cdp_attempt_failed,
    cdp_begin, cdp_may_attempt, detect_chromium_browser, full_url, js_str, launch_args,
    launch_failed, navigated_message, next_command_id, on_frame, page_ws_url, CdpFrame,
    FrameAction, Target, NO_PAGE, READ_PAGE,
};

#[test]
fn browser_detection_order() {
    assert_eq!(
        detect_chromium_browser(&vec![false, false, true, true, false]),
        Some("C:\\Program Files (x86)\\Microsoft\\Edge\\Application\\msedge.exe".to_string())
    );
    assert_eq!(detect_chromium_browser(&vec![true, true, true, true, true]), Some(candidate(0).to_string()));
    assert_eq!(detect_chromium_browser(&vec![false; 5]), None);
    assert_eq!(
        launch_args(),
        vec!["--remote-debugging-port=9222", "--no-first-run", "--no-default-browser-check"]
    );
    assert_eq!(launch_failed("denied"), "Failed to launch browser: denied");
}

#[test]
fn urls_and_page_targets() {
    assert_eq!(full_url("example.com"), "https://example.com");
    assert_eq!(full_url("http://x.org"), "http://x.org");
    assert_eq!(navigated_message("https://example.com"), "Navigated to https://example.com");
    let targets = vec![
        Target { kind: Some("service_worker".to_string()), ws_url: Some("ws://a".to_string()) },
        Target { kind: Some("page".to_string()), ws_url: Some("ws://b".to_string()) },
        Target { kind: Some("page".to_string()), ws_url: Some("ws://c".to_string()) },
    ];
    assert_eq!(page_ws_url(&targets), Ok("ws://b".to_string()));
    assert_eq!(page_ws_url(&vec![]), Err(NO_PAGE.to_string()));
    let no_socket = vec![Target { kind: Some("page".to_string()), ws_url: None }];
    assert_eq!(page_ws_url(&no_socket), Err("No page target found".to_string()));
}

#[test]
fn javascript_literals() {
    assert_eq!(js_str("he said \"hi\"\n"), "\"he said \\\"hi\\\"\\n\"");
    assert_eq!(js_str("a\\b"), "\"a\\\\b\"");
}

#[test]
fn page_scripts() {
    let v = js_str("Sign in");
    let expected = format!(
        r#"(()=>{{const tags='a,button,[role="button"],input[type="submit"],input[type="button"]';
                const el=[...document.querySelectorAll(tags)].find(e=>e.innerText?.trim().toLowerCase().includes({v}.toLowerCase())||e.value?.toLowerCase().includes({v}.toLowerCase()));
                if(el){{el.click();return'Clicked: '+(el.innerText||el.value||{v})}}return'Not found: '+{v}}})()"#,
        v = v
    );
    assert_eq!(build_click_script(Some("#ignored"), Some("Sign in")), Some(expected));
    let v = js_str("#go");
    let expected = format!(
        r#"(()=>{{const el=document.querySelector({v});if(el){{el.click();return'Clicked: '+{v}}}return'Not found: '+{v}}})()"#,
        v = v
    );
    assert_eq!(build_click_script(Some("#go"), None), Some(expected));
    assert_eq!(build_click_script(None, None), None);

    let sel = js_str("email");
    let text = js_str("me@x.org");
    let expected = format!(
        r#"(()=>{{
        const el=document.querySelector({sel})||[...document.querySelectorAll('input,textarea,*[contenteditable]')]
            .find(e=>e.placeholder?.toLowerCase().includes({sel}.toLowerCase())||e.name?.includes({sel}));
        if(!el)return'Input not found: '+{sel};
        el.focus();el.value={text};
        el.dispatchEvent(new Event('input',{{bubbles:true}}));
        el.dispatchEvent(new Event('change',{{bubbles:true}}));
        return'Typed into '+{sel}}})()"#,
        sel = sel,
        text = text
    );
    assert_eq!(build_type_script("email", "me@x.org"), expected);

    let v = js_str("h1");
    let expected = format!(
        r#"(()=>{{const el=document.querySelector({v});return el?el.innerText||el.value||el.textContent:'Not found: '+{v}}})()"#,
        v = v
    );
    assert_eq!(build_read_script(Some("h1")), expected);
    assert_eq!(build_read_script(None), READ_PAGE);
    assert_eq!(READ_PAGE, "document.title+'\\n---\\n'+document.body.innerText.slice(0,2000)");
}

#[test]
fn devtools_frames() {
    assert!(matches!(on_frame(7, &CdpFrame::Text { id: Some(6), error: None }), FrameAction::Skip));
    assert!(matches!(on_frame(7, &CdpFrame::Text { id: None, error: None }), FrameAction::Skip));
    assert!(matches!(on_frame(7, &CdpFrame::Other), FrameAction::Skip));
    assert!(matches!(on_frame(7, &CdpFrame::Text { id: Some(7), error: None }), FrameAction::Answer(Ok(()))));
    match on_frame(7, &CdpFrame::Text { id: Some(7), error: Some("{\"code\":-32000}".to_string()) }) {
        FrameAction::Answer(Err(e)) => assert_eq!(e, "CDP error: {\"code\":-32000}"),
        _ => panic!("an error answer"),
    }
    match on_frame(7, &CdpFrame::Closed) {
        FrameAction::Reconnect(m) => assert_eq!(m, "WS connection closed"),
        _ => panic!("a closed socket reconnects"),
    }
    assert_eq!(next_command_id(1), (1, 2));
}

#[test]
fn devtools_retries_twice() {
    let s = cdp_begin();
    assert_eq!(s.last_error, "CDP: no response");
    assert!(cdp_may_attempt(&s));
    let s = cdp_attempt_failed(s, "WS send failed".to_string());
    assert!(cdp_may_attempt(&s));
    let s = cdp_attempt_failed(s, "WS connection closed".to_string());
    assert!(!cdp_may_attempt(&s));
    assert_eq!(s.last_error, "WS connection closed");
}
