use intus::tools::{
    can_cut, check_path_access, chunk_lines, chunk_text, cut_to_bytes, default_collection, expand_path,
    expand_with_home, rag_context, CatTool, CommandPlan, DeleteFileTool, EditFileTool, FileSearchTool,
    GrepTool, ListDirectoryTool, PythonRuntime, ReplaceTextTool, RunCommandTool, RunPythonTool, SearchHit,
    SymbolSearchTool, WebSearchTool, WriteFileTool,
};

fn strings(v: &[&str]) -> Vec<String> {
    v.iter().map(|s| s.to_string()).collect()
}

fn run_command_piping(allowed: &[&str]) {
    let tool = RunCommandTool { allowed_commands: strings(allowed) };
    let args = strings(&["hello world", "|", "grep", "hello"]);
    let plan = tool.plan("echo", &args).unwrap();
    assert_eq!(plan, CommandPlan::Shell("echo hello world | grep hello".to_string()));
    let output = tool.output(true, "hello world\n", "");
    assert!(output.contains("hello world"));
}

fn run_command_fail_allowlist() {
    let tool = RunCommandTool { allowed_commands: strings(&["ls"]) };
    let result = tool.plan("echo", &strings(&["hello"]));
    assert!(result.is_err());
    assert_eq!(result.unwrap_err(), "Command 'echo' is not allowed. Allowed commands: [\"ls\"]");
}

#[test]
fn tools_test_run_command_shell_piping() {
    run_command_piping(&["echo", "grep"]);
}

#[test]
fn system_test_run_command_shell_piping() {
    run_command_piping(&["echo", "grep"]);
}

#[test]
fn tools_test_run_command_shell_piping_fail_allowlist() {
    run_command_fail_allowlist();
}

#[test]
fn system_test_run_command_shell_piping_fail_allowlist() {
    run_command_fail_allowlist();
}

#[test]
fn plain_arguments_run_directly() {
    let tool = RunCommandTool { allowed_commands: strings(&["git"]) };
    assert_eq!(tool.plan("git", &strings(&["status", "--short"])).unwrap(), CommandPlan::Direct);
    assert_eq!(tool.output(true, "  \n", ""), "Command succeeded with no output.");
    assert_eq!(tool.output(false, "o", "e"), "Command failed:\nstdout: o\nstderr: e");
}

#[test]
fn long_command_output_is_cut() {
    let tool = RunCommandTool { allowed_commands: vec![] };
    let out = "x".repeat(6000);
    let r = tool.output(true, &out, "");
    assert_eq!(r, format!("{}... (truncated)", "x".repeat(5000)));
}

#[test]
fn cutting_inside_a_character_is_refused() {
    let s = format!("{}é", "a".repeat(4999));
    assert!(!can_cut(&s, 5000));
    assert!(can_cut("short", 5000));
    assert_eq!(cut_to_bytes("abcdef", 3, "~"), "abc~");
}

#[test]
fn home_is_expanded() {
    let home = Some("/home/u".to_string());
    assert_eq!(expand_with_home("~", home.clone()), "/home/u");
    assert_eq!(expand_with_home("~/docs", home.clone()), "/home/u/docs");
    assert_eq!(expand_with_home("/tmp/~", home.clone()), "/tmp/~");
    assert_eq!(expand_with_home("~/docs", None), "~/docs");
    assert_eq!(expand_path("relative/path"), "relative/path");
}

#[test]
fn paths_are_checked() {
    let ignored = strings(&["target", ".git"]);
    assert_eq!(check_path_access("a/../b", &ignored), Err("Security: '..' not allowed".to_string()));
    assert_eq!(
        check_path_access("/x/target/y", &ignored),
        Err("Access denied: Path contains ignored pattern 'target'".to_string())
    );
    assert_eq!(check_path_access("/x/src/main.rs", &ignored), Ok(()));
}

#[test]
fn listing_keeps_fifty_lines() {
    let tool = ListDirectoryTool { ignored_patterns: strings(&["target"]) };
    assert_eq!(
        tool.find_args("/p"),
        strings(&["/p", "-maxdepth", "1", "-not", "-path", "*/target/*", "-not", "-path", "*/target", "-ls"])
    );
    let many: String = (0..60).map(|i| format!("line{}\n", i)).collect();
    let out = tool.output(true, &many, "").unwrap();
    assert!(out.ends_with("line49\n... (truncated)"));
    assert_eq!(tool.output(true, " \n", "").unwrap(), "Directory is empty or all items ignored.");
    assert_eq!(tool.output(false, "", "boom").unwrap_err(), "List directory failed: boom");
}

#[test]
fn file_search_keeps_twenty_lines() {
    let tool = FileSearchTool { ignored_patterns: vec![] };
    assert_eq!(tool.find_args(".", "*.rs"), strings(&[".", "-name", "*.rs", "-ls"]));
    let many: String = (0..25).map(|i| format!("f{}\n", i)).collect();
    assert!(tool.output(true, &many, "").unwrap().ends_with("f19\n... (and more)"));
    assert_eq!(tool.output(true, "", "").unwrap(), "No files found.");
}

#[test]
fn grep_arguments_and_output() {
    let tool = GrepTool { ignored_patterns: strings(&["node_modules"]) };
    assert_eq!(
        tool.rg_args("fn main", ".", false, true),
        strings(&[
            "--color=never", "--vimgrep", "--smart-case", "-i", "--max-depth=1", "-g", "!node_modules", "-g",
            "!node_modules/", "--max-columns=1000", "-I", "fn main", "."
        ])
    );
    assert_eq!(
        tool.grep_args("x", "/p", true, false),
        strings(&[
            "--color=never", "-n", "-I", "-H", "-r", "--exclude-dir=node_modules", "--exclude=node_modules",
            "--exclude=node_modules/", "x", "/p"
        ])
    );
    assert_eq!(tool.rg_output(Some(1), ""), Some("No matches found.".to_string()));
    assert_eq!(tool.rg_output(Some(2), "x"), None);
    assert_eq!(tool.rg_output(None, "x"), None);
    assert_eq!(tool.grep_output(0, "a:1:MatchThis\n", "").unwrap(), "a:1:MatchThis");
    assert_eq!(
        tool.grep_output(2, "a:1:x\n", "").unwrap(),
        "a:1:x\n\n(Note: Some directories were skipped due to permission errors)"
    );
    assert_eq!(tool.grep_output(-1, "", "bad").unwrap_err(), "Grep failed with exit code -1: bad");
}

#[test]
fn cat_numbers_lines() {
    let tool = CatTool { ignored_patterns: vec![] };
    assert_eq!(tool.output("Hello Tool World\n", false).trim(), "Hello Tool World");
    assert_eq!(tool.output("a\nb", true), "   1 | a\n   2 | b");
    let long: String = (0..10001).map(|_| "x\n").collect();
    assert!(tool.display(&long, true).contains("10001 | x"));
}

#[test]
fn chunks_overlap() {
    let content: String = (0..120).map(|i| format!("line number {:03}\n", i)).collect();
    let chunks = chunk_lines(&content, 50, 10);
    assert_eq!(chunks.len(), 3);
    assert_eq!((chunks[0].start_line, chunks[0].end_line), (1, 50));
    assert_eq!((chunks[1].start_line, chunks[1].end_line), (41, 90));
    assert_eq!((chunks[2].start_line, chunks[2].end_line), (81, 120));
    assert!(chunk_lines("short\n", 50, 10).is_empty());
    assert_eq!(default_collection(), "default");
}

#[test]
fn edit_replaces_a_range() {
    let tool = EditFileTool { ignored_patterns: vec![] };
    assert_eq!(tool.check_range(0, 1).unwrap_err(), "Invalid line range: 0-1");
    assert_eq!(tool.check_range(3, 2).unwrap_err(), "Invalid line range: 3-2");
    assert_eq!(tool.edit("a\nb\nc\n", 2, 2, "B").unwrap(), "a\nB\nc\n");
    assert_eq!(tool.edit("a\nb\nc\n", 2, 3, "").unwrap(), "a\n");
    assert_eq!(tool.edit("a\nb", 3, 3, "c").unwrap(), "a\nb\nc\n");
    assert_eq!(tool.edit("a\n", 5, 5, "x").unwrap_err(), "Start line 5 is beyond end of file (1 lines)");
}

#[test]
fn test_replace_text_tool() {
    let tool = ReplaceTextTool { ignored_patterns: vec![] };
    let r = tool.replace("fn main() { println!(\"Old\"); }", "println!(\"Old\")", "println!(\"New\")");
    assert_eq!(r.unwrap(), "fn main() { println!(\"New\"); }");
}

#[test]
fn test_replace_text_not_found() {
    let tool = ReplaceTextTool { ignored_patterns: vec![] };
    assert!(tool.replace("content", "missing", "replaced").is_err());
}

#[test]
fn replace_requires_a_unique_match() {
    let tool = ReplaceTextTool { ignored_patterns: vec![] };
    assert_eq!(
        tool.replace("abab", "ab", "x").unwrap_err(),
        "Found multiple matches for old_text. Please provide more context to make it unique."
    );
    assert_eq!(tool.replace("aaa", "aa", "X").unwrap(), "Xa");
    assert_eq!(tool.replace("", "", "new").unwrap(), "new");
    assert!(tool.replace("x", "", "new").is_err());
}

#[test]
fn write_and_delete_messages() {
    let w = WriteFileTool { ignored_patterns: vec![] };
    assert_eq!(w.done_text("/f", false), "Successfully wrote to /f");
    assert_eq!(w.done_text("/f", true), "Successfully appended to /f");
    let d = DeleteFileTool { ignored_patterns: vec![] };
    assert_eq!(d.outcome("/f", true).unwrap(), "Successfully deleted /f");
    assert_eq!(d.outcome("/f", false).unwrap_err(), "File does not exist: /f");
}

#[test]
fn python_paths_and_output() {
    let rt = PythonRuntime { venv_path: "/home/u/.config/intus/venv".to_string() };
    assert_eq!(rt.get_python_path(), "/home/u/.config/intus/venv/bin/python");
    assert_eq!(rt.script_output("out", ""), "out");
    assert_eq!(rt.script_output("out", "err"), "out\n\nSTDERR:\nerr");
    assert_eq!(rt.install_args(&[]), None);
    assert_eq!(
        rt.install_args(&strings(&["requests"])).unwrap(),
        strings(&["pip", "install", "--quiet", "-p", "/home/u/.config/intus/venv/bin/python", "requests"])
    );
}

#[test]
fn missing_module_is_found() {
    let tool = RunPythonTool { runtime: PythonRuntime { venv_path: "/v".to_string() } };
    let out = "Traceback...\nModuleNotFoundError: No module named 'requests'\n";
    assert_eq!(tool.missing_module(out), Some("requests".to_string()));
    assert_eq!(tool.missing_module("all good"), None);
    assert_eq!(tool.missing_module("ModuleNotFoundError: No module named x"), None);
    assert_eq!(
        tool.installed_text("requests", "ok"),
        "(Auto-installing missing package: 'requests'...)\nPackage installed successfully.\n\nok"
    );
}

#[test]
fn symbol_search_texts() {
    let tool = SymbolSearchTool { ignored_patterns: vec![] };
    let (rs, py, md) = tool.patterns("App");
    assert_eq!(rs, r"(fn\s+App\b|struct\s+App\b|trait\s+App\b|enum\s+App\b|type\s+App\b|impl.*App\b)");
    assert_eq!(py, r"(def\s+App\b|class\s+App\b)");
    assert_eq!(md, r"(^#+\s+.*App\b)");
    assert_eq!(tool.pattern_for("md"), Some(2));
    assert_eq!(tool.pattern_for("txt"), None);
    assert_eq!(tool.hit("src/app.rs", 12, "  pub struct App {  "), "src/app.rs:12: pub struct App {");
    assert_eq!(tool.answer("X", &[]), "No definitions found for symbol 'X'.");
}

#[test]
fn knowledge_helpers() {
    assert_eq!(chunk_text(" a \n\n b\n"), strings(&["a", "b"]));
    assert_eq!(rag_context(&[]), None);
    assert_eq!(
        rag_context(&strings(&["x", "y"])),
        Some("\n\n[Relevant Context from Tools]:\nx\n---\ny".to_string())
    );
}

#[test]
fn web_search_answer() {
    let tool = WebSearchTool { searxng_url: "http://localhost:8080".to_string() };
    assert_eq!(tool.search_url(), "http://localhost:8080/search");
    let (none, kept) = tool.answer("q", &[]);
    assert_eq!(none, "No results found for query: 'q'.");
    assert!(kept.is_empty());
    let hits = vec![SearchHit { title: Some("T".to_string()), url: None, content: Some("C".to_string()) }];
    let (out, kept) = tool.answer("q", &hits);
    assert_eq!(out, "1. [T](No URL)\n   C\n\n");
    assert_eq!(kept, "Source: No URL\nTitle: T\nContent: C\n\n");
}
