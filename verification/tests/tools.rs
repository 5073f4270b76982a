use niro::tools::{
    close_app, close_app_outcome, command_outcome, encode_command, focus_window, key_pressed_message,
    list_windows, note_file_name, notepad_opened_message, notification_failed, notification_shown,
    open_app, opened_message, pick_chrome, press_key, screenshot_result, search_files,
    search_files_outcome, start_process, timer_display_text, timer_done_body, timer_set_message,
    type_text, utf16le_bytes, write_delay_ms, Key, KeyPress, Launch, TimerUnit, ToolResult,
};

#[test]
fn tool_result_constructors() {
    let ok = ToolResult::ok("fine".to_string());
    assert!(ok.success && ok.result == "fine" && ok.is_image.is_none() && ok.image.is_none());
    let err = ToolResult::err("bad".to_string());
    assert!(!err.success && err.result == "bad" && err.is_image.is_none());
    let img = ToolResult::image("QUJD".to_string());
    assert!(img.success && img.result.is_empty() && img.is_image == Some(true));
    assert_eq!(img.image, Some("QUJD".to_string()));
    assert!(!ok.untrusted && !err.untrusted && !img.untrusted);
    let page = ToolResult::untrusted("page".to_string());
    assert!(page.success && page.untrusted && page.result == "page" && page.is_image.is_none() && page.image.is_none());
}

#[test]
fn commands_are_sent_as_base64_utf16() {
    assert_eq!(utf16le_bytes("dir"), vec![0x64, 0, 0x69, 0, 0x72, 0]);
    assert_eq!(utf16le_bytes("é€"), vec![0xE9, 0x00, 0xAC, 0x20]);
    assert_eq!(utf16le_bytes("😀"), vec![0x3D, 0xD8, 0x00, 0xDE]);
    assert_eq!(encode_command("dir"), "ZABpAHIA");
    assert_eq!(encode_command(""), "");
    // A surrogate pair and a two-byte tail (one `=` of padding).
    assert_eq!(encode_command("hé 𝄞"), "aADpACAANNge3Q==");
}

#[test]
fn command_outcomes() {
    let r = command_outcome("  hello \n", "", true);
    assert!(r.success && r.result == "hello");
    let r = command_outcome("", "   ", true);
    assert!(r.success && r.result == "Done.");
    let r = command_outcome("partial", " access denied \r\n", false);
    assert!(!r.success && r.result == "access denied");
    // Warnings on stderr of a command that succeeded do not fail it.
    let r = command_outcome("out", "warning", true);
    assert!(r.success && r.result == "out");
}

#[test]
fn typing_script_escapes_quotes_and_sendkeys() {
    let head = "Add-Type -AssemblyName System.Windows.Forms; Start-Sleep -Milliseconds 600; [System.Windows.Forms.SendKeys]::SendWait('";
    assert_eq!(type_text("it's a+b\n(c)\t"), format!("{head}it''s a{{+}}b{{ENTER}}{{(}}c{{)}}{{TAB}}')"));
    assert_eq!(type_text("100% ~ [x] {y} ^z"), format!("{head}100{{%}} {{~}} {{[}}x{{]}} {{{{}}y{{}}}} {{^}}z')"));
}

#[test]
fn window_scripts() {
    assert_eq!(
        list_windows(),
        "Get-Process | Where-Object {$_.MainWindowTitle -ne ''} | Select-Object ProcessName, MainWindowTitle, Id | Format-Table -AutoSize | Out-String -Width 300"
    );
    let safe = "Bob''s Notes";
    let expected = format!(r#"
Add-Type @"
  using System;
  using System.Runtime.InteropServices;
  public class WinAPI {{
    [DllImport("user32.dll")] public static extern bool SetForegroundWindow(IntPtr hWnd);
    [DllImport("user32.dll")] public static extern bool ShowWindow(IntPtr hWnd, int nCmdShow);
  }}
"@
$proc = Get-Process | Where-Object {{ $_.MainWindowTitle -like '*{safe}*' }} | Select-Object -First 1
if ($proc) {{
  [WinAPI]::ShowWindow($proc.MainWindowHandle, 9)
  [WinAPI]::SetForegroundWindow($proc.MainWindowHandle)
  "Focused: " + $proc.MainWindowTitle
}} else {{
  "No window found matching '{safe}'"
}}"#);
    assert_eq!(focus_window("Bob's Notes"), expected);
    assert_eq!(
        close_app("chrome"),
        "Get-Process -Name '*chrome*' -ErrorAction SilentlyContinue | Stop-Process -Force -PassThru | Select-Object ProcessName"
    );
    let r = close_app_outcome("chrome", ToolResult::ok(" \n ".to_string()));
    assert!(r.success && r.result == "No process found matching 'chrome'");
    let r = close_app_outcome("chrome", ToolResult::ok("chrome".to_string()));
    assert!(r.success && r.result == "chrome");
    let r = close_app_outcome("chrome", ToolResult::err("".to_string()));
    assert!(!r.success && r.result.is_empty());
}

#[test]
fn file_search_script_and_outcome() {
    assert_eq!(
        search_files("o'brien", None, "C:\\Users\\me"),
        "Get-ChildItem -Path 'C:\\Users\\me' -Recurse -Filter '*o''brien*' -ErrorAction SilentlyContinue -Depth 4 | Select-Object -First 15 FullName, Length, LastWriteTime | Format-Table -AutoSize | Out-String -Width 300"
    );
    assert!(search_files("x", Some("D:\\data"), "C:\\Users\\me").starts_with("Get-ChildItem -Path 'D:\\data' "));
    let r = search_files_outcome("report", ToolResult::ok("  \n".to_string()));
    assert!(r.success && r.result == "No files found matching 'report'");
    let r = search_files_outcome("report", ToolResult::ok("C:\\a\\report.pdf".to_string()));
    assert_eq!(r.result, "C:\\a\\report.pdf");
}

#[test]
fn launching_applications() {
    match open_app("Notepad", "C:\\AppData", "C:\\Local") {
        Launch::Spawn { path, args } => {
            assert_eq!(path, "notepad.exe");
            assert!(args.is_empty());
        }
        _ => panic!("notepad is spawned"),
    }
    match open_app("discord", "C:\\AppData", "C:\\Local") {
        Launch::Spawn { path, args } => {
            assert_eq!(path, "C:\\Local\\Discord\\Update.exe");
            assert_eq!(args, vec!["--processStart".to_string(), "Discord.exe".to_string()]);
        }
        _ => panic!("discord is spawned"),
    }
    match open_app("Spotify", "C:\\AppData", "C:\\Local") {
        Launch::Spawn { path, .. } => assert_eq!(path, "C:\\AppData\\Spotify\\Spotify.exe"),
        _ => panic!("spotify is spawned"),
    }
    match open_app("Google Chrome", "C:\\AppData", "C:\\Local") {
        Launch::Chrome { candidates } => assert_eq!(
            candidates,
            vec![
                "C:\\Local\\Google\\Chrome\\Application\\chrome.exe".to_string(),
                "C:\\Program Files\\Google\\Chrome\\Application\\chrome.exe".to_string(),
                "C:\\Program Files (x86)\\Google\\Chrome\\Application\\chrome.exe".to_string(),
            ]
        ),
        _ => panic!("chrome is probed"),
    }
    match open_app("D:\\tools\\thing.exe", "", "") {
        Launch::Spawn { path, .. } => assert_eq!(path, "D:\\tools\\thing.exe"),
        _ => panic!("a path is spawned"),
    }
    match open_app("Paint's", "", "") {
        Launch::Script(s) => assert_eq!(s, "Start-Process 'Paint''s'"),
        _ => panic!("an unknown name goes to Start-Process"),
    }
    assert_eq!(start_process("a'b"), "Start-Process 'a''b'");
    assert_eq!(pick_chrome(&vec![false, false, true]), 2);
    assert_eq!(pick_chrome(&vec![true, true, true]), 0);
    assert_eq!(pick_chrome(&vec![false, false, false]), 1);
    assert_eq!(opened_message("C:\\Program Files\\App\\app.exe").result, "Opened app.exe");
    assert_eq!(opened_message("notepad.exe").result, "Opened notepad.exe");
}

#[test]
fn notes_and_typing_delays() {
    assert_eq!(note_file_name(Some("plan: a/b?")), "plan_ a_b_");
    assert_eq!(note_file_name(None), "niro_note");
    assert_eq!(notepad_opened_message("niro_note").result, "Opened Notepad with your content (niro_note.txt)");
    assert_eq!(write_delay_ms(0), 800);
    assert_eq!(write_delay_ms(150), 150);
    assert_eq!(write_delay_ms(5000), 2000);
}

#[test]
fn key_descriptions() {
    match press_key("Ctrl+Shift+T") {
        KeyPress::Combo { modifiers, key } => {
            assert_eq!(modifiers.len(), 2);
            assert!(matches!(modifiers[0], Key::Control));
            assert!(matches!(modifiers[1], Key::Shift));
            assert!(matches!(key, Key::Char('t')));
        }
        _ => panic!("expected a combination"),
    }
    assert!(matches!(press_key("Enter"), KeyPress::Single(Key::Return)));
    assert!(matches!(press_key(" esc "), KeyPress::Single(Key::Escape)));
    assert!(matches!(press_key("f5"), KeyPress::Single(Key::F5)));
    assert!(matches!(press_key("ctrl+nothing"), KeyPress::Unknown));
    assert!(matches!(press_key("é"), KeyPress::Unknown));
    match press_key("hyper+alt+x") {
        KeyPress::Combo { modifiers, .. } => {
            assert_eq!(modifiers.len(), 1);
            assert!(matches!(modifiers[0], Key::Alt));
        }
        _ => panic!("unknown modifiers are skipped"),
    }
    assert_eq!(key_pressed_message("ctrl+c", true).result, "Pressed ctrl+c");
    let r = key_pressed_message("foo", false);
    assert!(!r.success && r.result == "Unknown key: foo");
}

#[test]
fn notifications_timers_and_screenshots() {
    assert_eq!(notification_shown("Niro").result, "Notification shown: \"Niro\"");
    let r = notification_failed("denied");
    assert!(!r.success && r.result == "Notification failed: denied");
    assert_eq!(timer_display_text(25, TimerUnit::Minute), "25 minute");
    assert_eq!(timer_display_text(0, TimerUnit::Second), "0 second");
    assert_eq!(
        timer_set_message("Tea", "5 minute").result,
        "Timer set: \"Tea\" \u{e2}\u{20ac}\u{201d} 5 minute(s). You'll get a notification when it's done."
    );
    assert_eq!(timer_done_body("Tea", "30 second"), "Tea \u{e2}\u{20ac}\u{201d} 30 second(s) timer done!");
    let shot = screenshot_result(&[1, 2, 3]);
    assert!(shot.success && shot.is_image == Some(true));
    assert_eq!(shot.image, Some("AQID".to_string()));
}
