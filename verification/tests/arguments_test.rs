use intus::args::{ArgValue, ToolArgs};
use intus::tools::{
    EditFileTool, GrepTool, RunCommandTool, SemanticSearchTool, WebRequest, WebSearchTool,
};

fn args(fields: Vec<(&str, ArgValue)>) -> ToolArgs {
    ToolArgs { fields: fields.into_iter().map(|(k, v)| (k.to_string(), v)).collect() }
}

fn text(s: &str) -> ArgValue {
    ArgValue::Text(s.to_string())
}

#[test]
fn grep_needs_a_pattern_and_has_defaults() {
    let tool = GrepTool { ignored_patterns: vec![] };
    assert_eq!(tool.resolve(&args(vec![])), Err("Missing 'pattern' argument".to_string()));
    assert_eq!(
        tool.resolve(&args(vec![("pattern", ArgValue::Count(3))])),
        Err("Missing 'pattern' argument".to_string())
    );
    assert_eq!(
        tool.resolve(&args(vec![("pattern", text("MatchThis"))])),
        Ok(("MatchThis".to_string(), ".".to_string(), true, false))
    );
    assert_eq!(
        tool.resolve(&args(vec![
            ("pattern", text("x")),
            ("path", text("/tmp")),
            ("recursive", ArgValue::Flag(false)),
            ("case_insensitive", ArgValue::Flag(true)),
        ])),
        Ok(("x".to_string(), "/tmp".to_string(), false, true))
    );
}

#[test]
fn edit_needs_whole_line_numbers() {
    let tool = EditFileTool { ignored_patterns: vec![] };
    assert_eq!(tool.resolve(&args(vec![])), Err("Missing 'path' argument".to_string()));
    assert_eq!(
        tool.resolve(&args(vec![("path", text("a")), ("start_line", ArgValue::Other)])),
        Err("Missing 'start_line' argument".to_string())
    );
    assert_eq!(
        tool.resolve(&args(vec![("path", text("a")), ("start_line", ArgValue::Count(2))])),
        Err("Missing 'end_line' argument".to_string())
    );
    assert_eq!(
        tool.resolve(&args(vec![
            ("path", text("a")),
            ("start_line", ArgValue::Count(2)),
            ("end_line", ArgValue::Count(4)),
        ])),
        Ok(("a".to_string(), 2, 4, String::new()))
    );
}

#[test]
fn web_requests_prefer_a_url() {
    let tool = WebSearchTool { searxng_url: String::new() };
    assert!(matches!(tool.resolve(&args(vec![("url", text("http://x"))])), Ok(WebRequest::Page(u)) if u == "http://x"));
    assert!(matches!(
        tool.resolve(&args(vec![("url", text("")), ("query", text("rust"))])),
        Ok(WebRequest::Search(q, c)) if q == "rust" && c == "general"
    ));
    assert!(matches!(tool.resolve(&args(vec![])), Err(e) if e == "Missing 'query' argument (or 'url')"));
}

#[test]
fn commands_take_their_argument_list() {
    let tool = RunCommandTool { allowed_commands: vec![] };
    let r = tool.resolve(&args(vec![
        ("command", text("ls")),
        ("args", ArgValue::Texts(vec![Some("-la".to_string()), None])),
    ]));
    assert_eq!(r, Ok(("ls".to_string(), vec!["-la".to_string(), String::new()])));
    assert_eq!(tool.resolve(&args(vec![("command", text("ls"))])), Ok(("ls".to_string(), vec![])));
}

#[test]
fn semantic_search_plans_its_indexing() {
    let tool = SemanticSearchTool {
        ignored_patterns: vec![],
        knowledge_bases: vec![("work".to_string(), "/data/work".to_string())],
    };
    let p = tool.plan(&args(vec![("query", text("q")), ("index_path", text("work"))])).ok().unwrap();
    assert_eq!(p.index, Some(("/data/work".to_string(), "work".to_string())));
    assert_eq!(p.collection, Some("work".to_string()));
    let p = tool.plan(&args(vec![("query", text("q")), ("refresh", ArgValue::Flag(true))])).ok().unwrap();
    assert_eq!(p.index, Some((".".to_string(), "default".to_string())));
    assert_eq!(p.collection, None);
    let p = tool.plan(&args(vec![("query", text("q"))])).ok().unwrap();
    assert_eq!(p.index, None);
    assert!(tool.plan(&args(vec![])).is_err());
    assert_eq!(tool.started_text("/d", "work"), "Started indexing '/d' into collection 'work'...");
    assert_eq!(tool.completed_text("/d", 7), "Completed indexing '/d': 7 chunks added.");
    assert_eq!(tool.failed_text("/d", "boom"), "Indexing failed for '/d': boom");
}
