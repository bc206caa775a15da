use intus::app::{system_context_text, tool_catalog, App};
use intus::config::Config;
use intus::health::{ollama_status, searxng_status, tool_status, HealthStatus, Probe};
use intus::ollama::{ChatMessage, ToolCall, ToolCallFunction};
use intus::tools::{searchable_chunks, MemoryTool, ReadUrlTool, SemanticSearchTool};
use intus::ui::{
    bubble_height, bubble_width, checked_bubble_height, checked_total_height, message_display_text, thinking_at,
};

fn message(role: &str, content: &str) -> ChatMessage {
    ChatMessage { role: role.to_string(), content: content.to_string(), images: None, tool_calls: None, tool_name: None }
}

fn call(name: &str) -> ToolCall {
    ToolCall { function: ToolCallFunction { name: name.to_string(), arguments: "{}".to_string() } }
}

fn strings(v: &[&str]) -> Vec<String> {
    v.iter().map(|s| s.to_string()).collect()
}

#[test]
fn ollama_health_is_critical_on_failure() {
    let ok = ollama_status(&Probe::Answered { success: true, status: "200 OK".to_string() });
    assert_eq!(ok.name, "Ollama");
    assert_eq!(ok.status, HealthStatus::Healthy);
    let bad = ollama_status(&Probe::Answered { success: false, status: "500 Internal Server Error".to_string() });
    assert_eq!(bad.status, HealthStatus::Critical("API Error: 500 Internal Server Error".to_string()));
    let down = ollama_status(&Probe::Failed("connection refused".to_string()));
    assert_eq!(down.status, HealthStatus::Critical("Connection Failed: connection refused".to_string()));
}

#[test]
fn search_health_is_only_a_warning() {
    let ok = searxng_status(&Probe::Answered { success: true, status: "200 OK".to_string() });
    assert_eq!(ok.name, "SearXNG");
    assert_eq!(ok.status, HealthStatus::Healthy);
    let bad = searxng_status(&Probe::Answered { success: false, status: "404 Not Found".to_string() });
    assert_eq!(bad.status, HealthStatus::Warning("Status: 404 Not Found".to_string()));
    let down = searxng_status(&Probe::Failed("timeout".to_string()));
    assert_eq!(down.status, HealthStatus::Warning("Not Reachable: timeout".to_string()));
}

#[test]
fn tool_health_reports_missing_and_failing_commands() {
    assert_eq!(tool_status("git", Some(true)).status, HealthStatus::Healthy);
    assert_eq!(tool_status("uv", Some(false)).status, HealthStatus::Warning("Command failed".to_string()));
    let missing = tool_status("uv", None);
    assert_eq!(missing.name, "uv");
    assert_eq!(missing.status, HealthStatus::Warning("Not installed".to_string()));
}

#[test]
fn searches_stay_inside_their_collection() {
    let collections = strings(&["default", "web", "default", "memory"]);
    assert_eq!(searchable_chunks(&collections, Some("default")), vec![0, 2]);
    assert_eq!(searchable_chunks(&collections, Some("web")), vec![1]);
    assert_eq!(searchable_chunks(&collections, Some("work")), Vec::<usize>::new());
    assert_eq!(searchable_chunks(&collections, None), vec![0, 1, 2, 3]);
}

#[test]
fn knowledge_base_names_pick_their_directory() {
    let tool = SemanticSearchTool {
        ignored_patterns: vec![],
        knowledge_bases: vec![("work".to_string(), "/data/work".to_string())],
    };
    assert_eq!(tool.target("work"), ("/data/work".to_string(), "work".to_string()));
    assert_eq!(tool.target("/tmp/notes"), ("/tmp/notes".to_string(), "default".to_string()));
}

#[test]
fn semantic_search_answers() {
    let tool = SemanticSearchTool { ignored_patterns: vec![], knowledge_bases: vec![] };
    assert_eq!(tool.answer("q", &[], None, false), "No relevant conceptual matches found.");
    assert_eq!(
        tool.answer("q", &[], None, true),
        "No matches yet (Indexing in progress in background). Check status messages."
    );
    assert_eq!(
        tool.answer("q", &strings(&["  first  ", "second"]), Some("web"), false),
        "Top conceptual matches for 'q' (Collection: web):\n\n1. first\n\n2. second\n\n"
    );
    assert_eq!(
        tool.answer("q", &strings(&["x"]), None, true),
        "Top conceptual matches for 'q' (Collection: ALL):\n\n1. x\n\n\n(Note: Background indexing is active, results may improve shortly.)"
    );
}

#[test]
fn pages_needing_javascript_go_to_the_browser() {
    let tool = ReadUrlTool {};
    assert!(tool.needs_browser(None));
    assert!(tool.needs_browser(Some("short page")));
    let long = "x".repeat(600);
    assert!(!tool.needs_browser(Some(&long)));
    let js = format!("Please Enable JavaScript to continue. {}", long);
    assert!(tool.needs_browser(Some(&js)));
}

#[test]
fn browser_failure_falls_back_to_http_text() {
    let tool = ReadUrlTool {};
    assert_eq!(tool.after_browser("raw", Ok("page".to_string())), Ok("page".to_string()));
    assert_eq!(
        tool.after_browser("raw", Err("boom".to_string())),
        Ok("(Warning: Browser rendering failed, showing raw extraction)\nraw".to_string())
    );
    assert_eq!(
        tool.after_browser("", Err("boom".to_string())),
        Err("Failed to read URL via HTTP and Browser: boom".to_string())
    );
}

#[test]
fn read_url_answers() {
    let tool = ReadUrlTool {};
    assert_eq!(tool.answer("http://x", "hello", None, &[]), "hello\n\n(Page content indexed)");
    assert_eq!(
        tool.answer("http://x", "hello", Some("q"), &[]),
        "Page indexed, but no sections found matching query 'q'.\nHere is the beginning of the page:\n\nhello"
    );
    assert_eq!(
        tool.answer("http://x", "hello", Some("q"), &strings(&["s1", "s2"])),
        "Found 2 relevant sections for 'q' in http://x:\n\ns1\n\n---\n\ns2"
    );
    let long = "a".repeat(20005);
    let answer = tool.answer("http://x", &long, None, &[]);
    assert!(answer.starts_with("Page indexed successfully. Showing first 20k chars:\n\n"));
    assert!(answer.contains(&format!("{}... (truncated)", "a".repeat(20000))));
}

#[test]
fn remembered_facts_are_confirmed() {
    assert_eq!(MemoryTool {}.done_text("port 8081"), "Successfully remembered: port 8081");
}

#[test]
fn system_context_lists_place_and_paths() {
    let with_place = system_context_text("Monday, January 01, 2024", "09:00 AM", "UTC", Some("Paris"), "Linux", "/home/u", "/work");
    assert_eq!(
        with_place,
        "\n\n[System Context]\nCurrent Date: Monday, January 01, 2024\nCurrent Time: 09:00 AM (UTC)\nLocation: Paris\nOS: Linux\nHome Directory: /home/u\nCurrent Working Directory: /work\n\nWhen using file system tools, use these actual paths instead of guessing. For example, use '/home/u' instead of '/home/user'."
    );
    let without = system_context_text("d", "t", "z", None, "macOS", "/h", "/c");
    assert!(without.contains("(z)\nOS: macOS\n"));
    assert!(!without.contains("Location"));
}

#[test]
fn catalog_marks_changing_tools_for_confirmation() {
    let tools = tool_catalog();
    assert_eq!(tools.len(), 13);
    let confirmed: Vec<&str> =
        tools.iter().filter(|t| t.requires_confirmation).map(|t| t.name.as_str()).collect();
    assert_eq!(confirmed, vec!["write_file", "edit_file", "replace_text", "delete_file", "run_command"]);
    assert_eq!(tools[0].name, "grep_files");
    assert_eq!(tools[12].name, "run_command");
}

#[test]
fn bubbles_are_padded_and_clamped() {
    assert_eq!(bubble_width(0, 100), 14);
    assert_eq!(bubble_width(50, 100), 54);
    assert_eq!(bubble_width(200, 100), 100);
    assert_eq!(bubble_width(u16::MAX, 100), 100);
}

#[test]
fn bubble_heights_wrap_inside_the_border() {
    assert_eq!(bubble_height(&[10, 0], 9), 5);
    assert_eq!(checked_bubble_height(&[10, 0], 9), Some(5));
    assert_eq!(checked_bubble_height(&[10], 4), Some(2));
    assert_eq!(checked_bubble_height(&[1; 70000], 5), None);
}

#[test]
fn total_height_counts_the_gaps() {
    assert_eq!(checked_total_height(&[]), Some(0));
    assert_eq!(checked_total_height(&[3, 4]), Some(8));
    assert_eq!(checked_total_height(&[60000, 6000]), None);
}

#[test]
fn messages_show_tool_names_and_breakable_output() {
    let mut calls = message("assistant", "  ");
    calls.tool_calls = Some(vec![call("read_file"), call("grep_files")]);
    assert_eq!(message_display_text(&calls), "**Using Tool:** `read_file`, `grep_files`");
    let mut output = message("tool", "a/b_c,d");
    output.tool_name = Some("read_file".to_string());
    assert_eq!(message_display_text(&output), "a/\u{200B}b_\u{200B}c,\u{200B}d");
    assert_eq!(message_display_text(&message("user", "hi")), "hi");
}

#[test]
fn the_pending_reply_shows_as_thinking() {
    let mut app = App::new(&Config::new_test_config(), false).0;
    app.messages = vec![message("user", "hi"), message("assistant", " ")];
    app.loading = true;
    assert!(thinking_at(&app, 1));
    assert!(!thinking_at(&app, 0));
    app.loading = false;
    assert!(!thinking_at(&app, 1));
}

#[test]
fn chat_view_follows_the_end_and_the_selection() {
    let mut app = App::new(&Config::new_test_config(), false).0;
    app.auto_scroll = true;
    app.place_chat_view(&[5, 5, 5], 10);
    assert_eq!(app.vertical_scroll, 7);
    assert!(app.auto_scroll);

    app.selected_message_index = Some(0);
    app.place_chat_view(&[5, 5, 5], 10);
    assert_eq!(app.vertical_scroll, 0);

    app.auto_scroll = false;
    app.selected_message_index = None;
    app.vertical_scroll = 2;
    app.place_chat_view(&[5, 5, 5], 10);
    assert_eq!(app.vertical_scroll, 2);
    assert!(!app.auto_scroll);

    app.vertical_scroll = 9;
    app.place_chat_view(&[5, 5, 5], 10);
    assert_eq!(app.vertical_scroll, 7);
    assert!(app.auto_scroll);
}
