use intus::config::{default_ignored_patterns, Config};
use intus::health::{HealthStatus, ServiceStatus};
use intus::ollama::{LineFramer, ModelInfo, ToolCall, ToolCallFunction};
use intus::process::ProcessTracker;

#[test]
fn process_tracker_adds_and_removes() {
    let mut t = ProcessTracker::new();
    assert!(t.is_empty());
    t.add_pid(7);
    t.add_pid(7);
    t.add_pid(9);
    let mut pids = t.pids();
    pids.sort();
    assert_eq!(pids, vec![7, 9]);
    t.remove_pid(7);
    assert_eq!(t.pids(), vec![9]);
    t.remove_pid(9);
    assert!(t.is_empty());
}

#[test]
fn service_status_keeps_its_fields() {
    let s = ServiceStatus::new("Ollama", HealthStatus::Warning("slow".to_string()));
    assert_eq!(s.name, "Ollama");
    assert_eq!(s.status, HealthStatus::Warning("slow".to_string()));
}

#[test]
fn lines_are_framed_across_chunks() {
    let mut f = LineFramer::new();
    let a = f.push(b"{\"a\":1}\n{\"b\"");
    assert_eq!(a, vec![b"{\"a\":1}\n".to_vec()]);
    let b = f.push(b":2}\n");
    assert_eq!(b, vec![b"{\"b\":2}\n".to_vec()]);
    f.push(b"tail");
    assert_eq!(f.finish(), Some(b"tail".to_vec()));
}

#[test]
fn context_length_from_model_info() {
    let info = ModelInfo {
        modelfile: String::new(),
        parameters: String::new(),
        template: String::new(),
        details: None,
        model_info: vec![("llama.context_length".to_string(), Some(8192))],
    };
    assert_eq!(info.context_length(), Some(8192));
    let params = ModelInfo {
        modelfile: String::new(),
        parameters: "stop x\nnum_ctx 4096".to_string(),
        template: String::new(),
        details: None,
        model_info: vec![],
    };
    assert_eq!(params.context_length(), Some(4096));
}

#[test]
fn test_config_defaults() {
    let c = Config::new_test_config();
    assert_eq!(c.system_prompt, "You are helpful");
    assert_eq!(c.summarization_threshold_permille, 800);
    assert!(default_ignored_patterns().contains(&".git".to_string()));
}

#[test]
fn tool_call_duplicate_is_equal() {
    let c = ToolCall { function: ToolCallFunction { name: "n".to_string(), arguments: "{}".to_string() } };
    assert_eq!(c.duplicate(), c);
}

#[test]
fn default_tracker_is_empty() {
    let t = intus::process::ProcessTracker::default();
    assert!(t.is_empty());
    assert!(t.pids().is_empty());
}

#[test]
fn throttled_saves_wait_two_seconds() {
    assert!(!intus::app::should_save(0));
    assert!(!intus::app::should_save(1));
    assert!(intus::app::should_save(2));
    assert!(intus::app::should_save(30));
}

#[test]
fn whitespace_matches_std_for_every_char() {
    for n in 0u32..=0x10FFFF {
        if let Some(c) = char::from_u32(n) {
            assert_eq!(intus::text::is_whitespace(c), c.is_whitespace(), "U+{:04X}", n);
        }
    }
}
