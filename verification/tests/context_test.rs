use intus::context::ContextManager;
use intus::ollama::ChatMessage;

fn message(role: &str, content: &str) -> ChatMessage {
    ChatMessage {
        role: role.to_string(),
        content: content.to_string(),
        images: None,
        tool_calls: None,
        tool_name: None,
    }
}

#[test]
fn test_optimal_context_low_ram() {
    let optimal = ContextManager::get_optimal_context_size(Some(32768), 8000);
    assert!(optimal >= 2048);
    assert!(optimal <= 32768);
}

#[test]
fn test_optimal_context_high_ram() {
    let optimal = ContextManager::get_optimal_context_size(Some(8192), 64000);
    assert_eq!(optimal, 8192);
}

#[test]
fn test_optimal_context_no_model_info() {
    let optimal = ContextManager::get_optimal_context_size(None, 16000);
    assert!(optimal >= 2048);
}

#[test]
fn test_should_summarize_threshold() {
    let manager = ContextManager::new(true, true, 800);
    assert!(manager.should_summarize(800, 1000));
    assert!(!manager.should_summarize(500, 1000));
    assert!(manager.should_summarize(1000, 1000));
}

#[test]
fn test_should_summarize_disabled() {
    let manager = ContextManager::new(true, false, 800);
    assert!(!manager.should_summarize(1000, 1000));
}

#[test]
fn test_generate_summary_prompt() {
    let messages = vec![message("user", "Hello"), message("assistant", "Hi there!")];
    let prompt = ContextManager::generate_summary_prompt(&messages);
    assert!(prompt.contains("USER: Hello"));
    assert!(prompt.contains("ASSISTANT: Hi there!"));
    assert!(prompt.contains("SUMMARY:"));
}

#[test]
fn test_summarize_messages() {
    let messages = vec![
        message("user", "Old message 1"),
        message("assistant", "Old response 1"),
        message("user", "Recent message"),
        message("assistant", "Recent response"),
    ];
    let result = ContextManager::summarize_messages(&messages, 2);
    assert!(result.is_some());
    let (prompt, count) = result.unwrap();
    assert_eq!(count, 2);
    assert!(prompt.contains("Old message 1"));
}

#[test]
fn test_estimate_token_count() {
    let messages = vec![message("user", "Hello world this is a test message")];
    let count = ContextManager::estimate_token_count(&messages);
    assert!(count > 0);
    assert!(count < 20);
}

#[test]
fn test_detect_system_resources() {
    let resources = ContextManager::detect_system_resources();
    assert!(resources.total_ram_mb > 0);
    assert!(resources.available_ram_mb <= resources.total_ram_mb);
}

#[test]
fn token_estimate_is_a_quarter_of_the_bytes_plus_four() {
    let messages = vec![message("user", "12345678"), message("assistant", "abc")];
    assert_eq!(ContextManager::estimate_token_count(&messages), (8 / 4 + 4) + (3 / 4 + 4));
}

#[test]
fn optimal_context_with_little_ram_is_the_minimum() {
    assert_eq!(ContextManager::get_optimal_context_size(Some(32768), 8000), 2048);
    assert_eq!(ContextManager::get_optimal_context_size(Some(32768), 100), 2048);
    assert_eq!(ContextManager::get_optimal_context_size(Some(32768), 40000), 10000);
    assert_eq!(ContextManager::get_optimal_context_size(None, 16000), 4000);
    assert_eq!(ContextManager::get_optimal_context_size(None, 64000), 4096);
}

#[test]
fn nothing_to_summarize_when_all_are_kept() {
    let messages = vec![message("user", "a"), message("assistant", "b")];
    assert!(ContextManager::summarize_messages(&messages, 2).is_none());
}

#[test]
fn summary_request_has_system_then_prompt() {
    let messages = vec![message("user", "Hello")];
    let reqs = ContextManager::build_summary_request(&messages, "persona");
    assert_eq!(reqs.len(), 2);
    assert_eq!(reqs[0].role, "system");
    assert_eq!(reqs[0].content, "persona");
    assert_eq!(reqs[1].role, "user");
    assert_eq!(reqs[1].content, ContextManager::generate_summary_prompt(&messages));
}

#[test]
fn byte_counts_become_whole_megabytes() {
    let r = ContextManager::resources_from_bytes(3 * 1048576 + 5, 1048575);
    assert_eq!(r.available_ram_mb, 3);
    assert_eq!(r.total_ram_mb, 0);
}
