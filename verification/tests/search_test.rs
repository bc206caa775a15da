use intus::tools::{EditFileTool, ReadUrlTool, ReplaceTextTool, SymbolSearchTool, WebSearchTool};

fn symbol_tool(ignored: &[&str]) -> SymbolSearchTool {
    SymbolSearchTool { ignored_patterns: ignored.iter().map(|s| s.to_string()).collect() }
}

#[test]
fn symbol_patterns_compile_for_plain_names() {
    let tool = symbol_tool(&[]);
    assert_eq!(tool.compiled_patterns("main").map(|v| v.len()), Some(3));
    assert!(tool.compiled_patterns("foo(").is_none());
}

#[test]
fn definitions_are_found_line_by_line() {
    let tool = symbol_tool(&[]);
    let patterns = tool.compiled_patterns("main").unwrap();
    let content = "fn main() {\n    let x = 1;\n}\nfn main2() {}\nstruct main;";
    let mut hits = Vec::new();
    tool.scan_file(&patterns[0], "src/a.rs", content, &mut hits, 20);
    assert_eq!(hits, vec!["src/a.rs:1: fn main() {".to_string(), "src/a.rs:5: struct main;".to_string()]);

    let md = "# Intro\ntext\n## The main loop\n";
    let mut md_hits = Vec::new();
    tool.scan_file(&patterns[2], "README.md", md, &mut md_hits, 20);
    assert_eq!(md_hits, vec!["README.md:3: ## The main loop".to_string()]);

    let py = "def main():\n    pass\nclass Main:\n";
    let mut py_hits = Vec::new();
    tool.scan_file(&patterns[1], "a.py", py, &mut py_hits, 20);
    assert_eq!(py_hits, vec!["a.py:1: def main():".to_string()]);
}

#[test]
fn scanning_stops_at_the_limit() {
    let tool = symbol_tool(&[]);
    let patterns = tool.compiled_patterns("f").unwrap();
    let content = "fn f() {}\nfn f() {}\nfn f() {}\nfn f() {}";
    let mut hits = vec!["earlier".to_string()];
    tool.scan_file(&patterns[0], "x.rs", content, &mut hits, 3);
    assert_eq!(hits, vec!["earlier".to_string(), "x.rs:1: fn f() {}".to_string(), "x.rs:2: fn f() {}".to_string()]);
}

#[test]
fn files_are_chosen_by_extension_and_ignore_list() {
    let tool = symbol_tool(&["target"]);
    assert_eq!(tool.file_pattern("src/a.rs", Some("rs"), None), Some(0));
    assert_eq!(tool.file_pattern("src/a.py", Some("py"), None), Some(1));
    assert_eq!(tool.file_pattern("doc/a.md", Some("md"), Some("md")), Some(2));
    assert_eq!(tool.file_pattern("target/a.rs", Some("rs"), None), None);
    assert_eq!(tool.file_pattern("a.py", Some("py"), Some("rs")), None);
    assert_eq!(tool.file_pattern("a.txt", Some("txt"), None), None);
    assert_eq!(tool.file_pattern("Makefile", None, None), None);
    assert_eq!(tool.file_pattern("Makefile", None, Some("rs")), None);
}

#[test]
fn fetched_pages_become_text() {
    let web = WebSearchTool { searxng_url: "http://localhost:8080".to_string() };
    let text = web.page_text("<html><body><p>Hello <b>world</b></p></body></html>").unwrap();
    assert!(text.contains("Hello"));
    assert!(text.contains("world"));
    assert!(!text.contains("<p>"));
    let read = ReadUrlTool {};
    let same = read.page_text("<html><body><p>Hello <b>world</b></p></body></html>");
    assert_eq!(same, text);
}

#[test]
fn long_pages_are_cut() {
    let web = WebSearchTool { searxng_url: String::new() };
    assert_eq!(web.page_answer("short"), "short");
    let long = "a".repeat(20001);
    assert_eq!(web.page_answer(&long), format!("{}\n... (truncated)", "a".repeat(20000)));
}

#[test]
fn queries_lose_their_quotes() {
    let tool = ReadUrlTool {};
    assert_eq!(tool.clean_query("'\"pricing\"'"), "pricing");
    assert_eq!(tool.clean_query("''install''"), "install");
    assert_eq!(tool.clean_query("it's"), "it's");
    assert_eq!(tool.clean_query("''"), "");
}

#[test]
fn indexing_failures_show_the_page_start() {
    let tool = ReadUrlTool {};
    assert_eq!(tool.index_failed_text("boom", "abc"), "Fetched content but failed to index: boom\n\nabc");
    let long = "é".repeat(2500);
    let text = tool.index_failed_text("e", &long);
    assert_eq!(text, format!("Fetched content but failed to index: e\n\n{}", "é".repeat(2000)));
}

#[test]
fn edits_and_replacements_are_confirmed() {
    let edit = EditFileTool { ignored_patterns: vec![] };
    assert_eq!(edit.done_text(3, 12, "/tmp/a.rs"), "Successfully updated lines 3-12 in /tmp/a.rs");
    let replace = ReplaceTextTool { ignored_patterns: vec![] };
    assert_eq!(replace.done_text("/tmp/a.rs"), "Successfully modified /tmp/a.rs");
}
