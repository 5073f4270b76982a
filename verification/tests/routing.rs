use niro::intercept::{
    detect_place, detect_sysinfo, direct_entry, direct_reply, extract_file_query, extract_github_repo,
    extract_google_query, extract_notification_text, extract_spotify_query, extract_yt_query,
    file_search_follow_up, find_direct_command, find_first_file, gemini_sysinfo_reply,
    place_directory, route_gemini_message, route_groq_message, sysinfo_batch_command, sysinfo_batch_reply, FileFollowUp,
    Place, Route, SysinfoFlags, SCREENSHOT_REPLY,
};
use niro::tools::ToolResult;

fn site(msg: &str) -> (String, String) {
    match route_groq_message(msg) {
        Route::OpenWebsite { url, reply } => (url, reply),
        _ => panic!("expected a website for {msg}"),
    }
}

fn no_flags() -> SysinfoFlags {
    SysinfoFlags { ip: false, name: false, win: false, cpu: false, ram: false, disk: false, uptime: false }
}

#[test]
fn screenshot_questions_point_to_gemini() {
    match route_groq_message("take a screenshot please") {
        Route::Reply(r) => assert_eq!(r, SCREENSHOT_REPLY),
        _ => panic!("expected the screenshot reply"),
    }
    match route_groq_message("what is on my screen") {
        Route::Reply(r) => assert_eq!(r, SCREENSHOT_REPLY),
        _ => panic!("expected the screenshot reply"),
    }
}

#[test]
fn spotify_play_with_artist() {
    let msg = "play Blinding Lights by The Weeknd on spotify";
    assert_eq!(extract_spotify_query(msg), "Blinding Lights The Weeknd");
    let (url, reply) = site(msg);
    assert_eq!(url, "https://open.spotify.com/search/Blinding+Lights+The+Weeknd");
    assert_eq!(reply, "Opened Spotify and searched for \"Blinding Lights The Weeknd\".");
}

#[test]
fn spotify_without_terms_opens_home() {
    let msg = "open spotify and play";
    assert_eq!(extract_spotify_query(msg), "");
    let (url, reply) = site(msg);
    assert_eq!(url, "https://open.spotify.com");
    assert_eq!(reply, "Opened Spotify.");
}

#[test]
fn youtube_and_google_searches() {
    assert_eq!(extract_yt_query("search for lofi beats on youtube"), "lofi beats");
    let (url, reply) = site("search for lofi beats on youtube");
    assert_eq!(url, "https://www.youtube.com/results?search_query=lofi+beats");
    assert_eq!(reply, "Opened YouTube and searched for \"lofi beats\".");
    assert_eq!(extract_google_query("google and search for rust & verus"), "rust & verus");
    let (url, reply) = site("search for café près on google");
    assert_eq!(url, "https://www.google.com/search?q=caf%C3%A9+pr%C3%A8s");
    assert_eq!(reply, "Opened Google and searched for \"café près\".");
}

#[test]
fn github_repositories() {
    assert_eq!(extract_github_repo("open github.com/rust-lang/rust"), Some("rust-lang/rust".to_string()));
    assert_eq!(extract_github_repo("open the tokio-rs/tokio repo"), Some("tokio-rs/tokio".to_string()));
    assert_eq!(extract_github_repo("open ci/cd docs then torvalds/linux"), Some("torvalds/linux".to_string()));
    assert_eq!(extract_github_repo("I like tcp/ip and and/or"), None);
    let (url, reply) = site("open github.com/rust-lang/rust");
    assert_eq!(url, "https://github.com/rust-lang/rust");
    assert_eq!(reply, "Opened https://github.com/rust-lang/rust");
}

#[test]
fn notification_texts() {
    assert_eq!(extract_notification_text("show a notification saying 'Drink water'"), "Drink water");
    assert_eq!(extract_notification_text("send a notification saying stand up"), "stand up");
    assert_eq!(extract_notification_text("pop up a notification"), "Done");
    match route_groq_message("show a notification saying 'Drink water'") {
        Route::Notify(t) => assert_eq!(t, "Drink water"),
        _ => panic!("expected a notification"),
    }
    // A timer request is not a notification request.
    assert!(matches!(route_groq_message("set a timer for 5 minutes and show a notification"), Route::Llm));
}

#[test]
fn two_metrics_are_batched() {
    let f = detect_sysinfo("what is my ip address and cpu");
    assert!(f.ip && f.cpu && !f.ram && !f.disk && !f.name && !f.win && !f.uptime);
    match route_groq_message("what is my ip address and cpu") {
        Route::Sysinfo(g) => assert!(g.ip && g.cpu && !g.ram),
        _ => panic!("expected a batch"),
    }
    assert_eq!(
        sysinfo_batch_command(f),
        "$ip=(Invoke-RestMethod https://api.ipify.org); $cpu=(Get-WmiObject Win32_Processor).Name + \" — \" + (Get-WmiObject Win32_Processor).NumberOfCores + \" cores\"; \"IP: \" + $ip; \" | \"; \"CPU: \" + $cpu"
    );
    assert_eq!(sysinfo_batch_reply(&ToolResult::ok("  IP: 1.2.3.4 | CPU: x  \n".to_string())), "IP: 1.2.3.4 | CPU: x");
    assert_eq!(sysinfo_batch_reply(&ToolResult::err("boom".to_string())), "Failed: boom");
}

#[test]
fn single_metric_runs_its_command() {
    assert_eq!(find_direct_command("what's my computer name"), Some(2));
    assert!(matches!(route_groq_message("what's my computer name"), Route::Direct(2)));
    let (_, script, prefix) = direct_entry(2);
    assert_eq!(script, "$env:COMPUTERNAME");
    assert_eq!(prefix, "Your computer name is ");
    assert_eq!(direct_reply(2, &ToolResult::ok("DESKTOP-1\r\n".to_string())), "Your computer name is DESKTOP-1");
    assert_eq!(direct_reply(0, &ToolResult::err("offline".to_string())), "Failed: offline");
}

#[test]
fn long_multi_part_questions_skip_single_metrics() {
    let msg = "cpu and this and that and more and else";
    assert_eq!(find_direct_command(msg), Some(3));
    assert!(matches!(route_groq_message(msg), Route::Llm));
}

#[test]
fn file_searches() {
    assert_eq!(extract_file_query("find pdf files on desktop"), Some(".pdf".to_string()));
    assert_eq!(extract_file_query("find the file named report"), Some("report".to_string()));
    assert_eq!(extract_file_query("find my files"), None);
    assert!(matches!(detect_place("look in Downloads"), Place::Downloads));
    assert!(matches!(detect_place("anywhere"), Place::Home));
    assert_eq!(place_directory(Place::Documents, "C:\\Users\\me"), "C:\\Users\\me\\Documents");
    match route_groq_message("find pdf files on desktop") {
        Route::FileSearch { query, place } => {
            assert_eq!(query, ".pdf");
            assert!(matches!(place, Place::Desktop));
        }
        _ => panic!("expected a file search"),
    }
}

#[test]
fn everything_else_goes_to_the_model() {
    assert!(matches!(route_groq_message("open youtube"), Route::Llm));
    assert!(matches!(route_groq_message("tell me a joke"), Route::Llm));
}

#[test]
fn gemini_batches_any_ram_question() {
    let f = match route_gemini_message("how much ram do i have") {
        Route::Sysinfo(f) => f,
        _ => panic!("ram goes to the batch"),
    };
    assert!(f.ram);
    assert_eq!(
        gemini_sysinfo_reply(f, "RAM: 15.9GB total, 7.2GB free"),
        "You have 15.9 GB of RAM in total, and 7.2 GB is free."
    );
    assert_eq!(gemini_sysinfo_reply(f, "odd output"), "odd output");
    assert!(matches!(route_gemini_message("what is my cpu"), Route::Direct(3)));
    let mut two = no_flags();
    two.ram = true;
    two.cpu = true;
    assert_eq!(gemini_sysinfo_reply(two, "RAM: 1GB total, 1GB free"), "RAM: 1GB total, 1GB free");
}

#[test]
fn file_search_follow_ups() {
    let listing = "\r\nFullName                      Length\n--------                      ------\nC:\\Users\\me\\Desktop\\a.pdf  1200\nC:\\Users\\me\\Desktop\\b.pdf  99\n";
    assert_eq!(find_first_file(listing), Some("C:\\Users\\me\\Desktop\\a.pdf".to_string()));
    assert_eq!(find_first_file("nothing here"), None);
    let found = ToolResult::ok(listing.to_string());
    match file_search_follow_up("find pdf files on desktop and open the first one", ".pdf", "C:\\Users\\me\\Desktop", &found) {
        FileFollowUp::Open { command, notify, reply } => {
            assert_eq!(command, "notepad \"C:\\Users\\me\\Desktop\\a.pdf\"");
            assert!(notify.is_none());
            assert_eq!(reply, "Opened \"C:\\Users\\me\\Desktop\\a.pdf\" in Notepad.");
        }
        _ => panic!("expected to open the file"),
    }
    match file_search_follow_up(
        "find pdf files, open the first one and show a notification saying done reading",
        ".pdf",
        "C:\\Users\\me\\Desktop",
        &found,
    ) {
        FileFollowUp::Open { notify, reply, .. } => {
            assert_eq!(notify, Some("done reading".to_string()));
            assert_eq!(
                reply,
                "Opened \"C:\\Users\\me\\Desktop\\a.pdf\" in Notepad and showed notification: \"done reading\""
            );
        }
        _ => panic!("expected to open the file"),
    }
    let none = ToolResult::ok("No files found matching '.pdf'".to_string());
    match file_search_follow_up("find pdf files and open it", ".pdf", "C:\\Users\\me\\Desktop", &none) {
        FileFollowUp::Reply(r) => assert_eq!(r, "No files found matching \".pdf\" in Desktop."),
        _ => panic!("a failed search opens nothing"),
    }
    match file_search_follow_up("find pdf files", ".pdf", "C:\\Users\\me", &found) {
        FileFollowUp::Reply(r) => assert_eq!(r, format!("Found files matching \".pdf\":\n{listing}")),
        _ => panic!("expected the listing"),
    }
}

#[test]
fn gemini_keeps_the_guardrails() {
    assert!(matches!(route_gemini_message("what is my public ip"), Route::Direct(0)));
    assert!(matches!(route_gemini_message("how much disk space is free"), Route::Direct(1)));
    match route_gemini_message("show a notification saying 'Drink water'") {
        Route::Notify(t) => assert_eq!(t, "Drink water"),
        _ => panic!("expected a notification"),
    }
    match route_gemini_message("find pdf files on desktop") {
        Route::FileSearch { query, place } => {
            assert_eq!(query, ".pdf");
            assert!(matches!(place, Place::Desktop));
        }
        _ => panic!("expected a file search"),
    }
    match route_gemini_message("what is my ip address and cpu") {
        Route::Sysinfo(g) => assert!(g.ip && g.cpu && !g.ram),
        _ => panic!("expected a batch"),
    }
    assert!(matches!(route_gemini_message("tell me a joke"), Route::Llm));
    assert!(matches!(route_gemini_message("open youtube"), Route::Llm));
}
