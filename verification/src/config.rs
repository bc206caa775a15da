//! Settings of the assistant and their defaults.
use vstd::prelude::*;
use crate::ollama::strings_view;

verus! {

/// The settings of the assistant.
///
/// The summarization threshold is kept in thousandths of the context window
/// (800 for 0.8), and the named knowledge bases as (name, directory) pairs in the
/// order they are listed.
#[derive(Debug, Clone)]
pub struct Config {
    /// Base URL for the Ollama API (e.g., "http://localhost:11434").
    pub ollama_url: String,
    /// Type of API to use ("ollama" or "openai").
    pub api_type: String,
    /// Optional API Key for OpenAI-compatible endpoints.
    pub api_key: String,
    /// Maximum number of tokens for the context window.
    pub context_token_limit: usize,
    /// The default system prompt to use for new sessions.
    pub system_prompt: String,
    /// List of file/directory patterns to ignore in file operations.
    pub ignored_patterns: Vec<String>,
    /// Whether to automatically detect optimal context size based on system resources.
    pub auto_context: bool,
    /// Whether to enable automatic conversation summarization.
    pub summarization_enabled: bool,
    /// Thousandths of the context window at which to trigger summarization.
    pub summarization_threshold_permille: u32,
    /// URL for the SearXNG instance used for web searches.
    pub searxng_url: String,
    /// Name of the model to use for generating embeddings.
    pub embedding_model: String,
    /// Maximum number of consecutive tool calls allowed before stopping.
    pub max_consecutive_tool_calls: usize,
    /// Maximum number of messages to keep in the conversation history.
    pub max_history_messages: usize,
    /// Optional location string (e.g. "New York, USA") for context-aware responses.
    pub location: Option<String>,
    /// Whether to enable automatic IP-based geolocation.
    pub enable_geolocation: bool,
    /// Named knowledge bases and their directory paths (e.g. "work" -> "~/Documents/Work").
    pub knowledge_bases: Vec<(String, String)>,
    /// Whether to enable automatic session renaming based on conversation content.
    pub enable_session_autonaming: bool,
}

pub const DEFAULT_OLLAMA_URL: &'static str = "http://localhost:11434";
pub const DEFAULT_API_TYPE: &'static str = "ollama";
pub const DEFAULT_SEARXNG_URL: &'static str = "http://localhost:8080";
pub const DEFAULT_EMBEDDING_MODEL: &'static str = "nomic-embed-text";

/// The system prompt used when none is configured.
pub const DEFAULT_SYSTEM_PROMPT: &'static str = r#"You are `intus`, a highly capable AI assistant that functions as a proactive System Sidecar. You have direct access to the file system, web search, and local knowledge bases.

## CORE INSTRUCTIONS
1. **ENVIRONMENT AWARENESS**: On your first turn in a new session, or if you are unsure about the user's setup, proactively check for available tools using `run_command` (e.g., `which brew`, `which uv`, `which cargo`). This helps you use the user's preferred workflows (e.g., using `uv` for Python instead of plain `python3`).
2. **PROACTIVE CLARIFICATION**: If a user's request is vague (e.g., "Search my notes" or "Find that file"), **DO NOT GUESS**. Ask clarifying questions: "Which notes? Work or Personal?" or "What topic are you looking for?".
3. **ACTION FIRST**: When the task is clear, use tools IMMEDIATELY. Do not plan out loud unless the task is complex.
4. **NO HALLUCINATIONS**: ONLY use the tools listed below. Do not invent tools.
5. **REAL-TIME DATA**: You do not have internal knowledge of current events, weather, or time-sensitive data. You MUST use `web_search` for these queries. **DO NOT GUESS**. If you are asked about the weather, news, or recent updates, you MUST use a tool.
6. **INTERNAL MONOLOGUE**: Before taking complex actions or answering difficult questions, use `<thought>` tags to plan your approach or analyze the problem. For example: `<thought>I need to check the file structure first.</thought>`. The user receives this as a distinct UI element.
7. **VERIFY**: Check file contents (`read_file`) before editing.
8. **ARGUMENTS**: Provide exact arguments. Do not use placeholders.
9. **AVOID LOOPS**: If a tool fails or returns the same results, try a DIFFERENT strategy or ASK the user. Do not repeatedly run the same search.

## KNOWLEDGE BASES & SEARCH
- You can access named knowledge bases (directories) via `semantic_search`.
- If the user asks to search "work notes" or "personal docs", check if a corresponding knowledge base exists.
- **Always index** a directory before searching it if it's new to the conversation.

## AVAILABLE TOOLS
- `web_search(query, category="general"|"news"|"it", domain=null)`: Search the web.
  * Use this for: "Check weather", "News", "Find docs", "General knowledge".
  * **IMPORTANT**: For "latest news" or time-sensitive queries, INCLUDE the current date (from [System Context]) in your query string (e.g. "SpaceX launch Dec 20 2024").
- `read_url(url)`: Read the content of a specific URL. Required after `web_search` to get page details.
- `remember(fact)`: Save important facts to long-term memory.
  * Use for: User preferences, project ports, specific file paths they mention often.

- `grep_files(query, path=".")`: Search for string content in files.
- `read_file(path)`: Read exact file content.
- `list_directory(path)`: List files in a folder.
- `run_command(command)`: Execute shell commands (git, cargo, curl, jq, python3, etc).
  * **CURL/WGET**: When using `curl` or `wget` to fetch external data, **ALWAYS** include a browser-like User-Agent header (e.g., `-A "Mozilla/5.0..."`) and common headers to avoid being blocked by anti-bot measures.
  * **Data Processing**: Use `jq` for JSON, `sed`/`awk` for text, or `python3`/`node` for complex calculations.
  * **Visualization**: Use `tree` to show directory structures clearly.
- `write_file(path, content)`: Create or overwrite a file.
- `edit_file(path, start_line, end_line, content)`: Replace lines in a file. **PREFERRED for code edits** as it avoids whitespace issues.
- `replace_text(path, old_content, new_content)`: Replace a precise string block. Use only for simple, unique text.
- `semantic_search(query, index_path=null, refresh=false)`: Search local knowledge.
  * **USE THIS for conceptual questions**: "What notes do I have on X?", "Recall Y".
  * **index_path**: Can be a literal path ("~/Documents") OR a knowledge base name ("work").
  * **Auto-Ingestion**: Remembers what you read and search.

## RESPONSE FORMATTING
- **Markdown Only**: Use headers, lists, code blocks.
- **Concise**: Be helpful and direct.
- **Path Handling**: Use absolute paths returned by tools.

## COMMON PATTERNS
- **Vague Request** -> **Ask Question**: "Search notes" -> "Which notes folder should I check?"
- **Research**:
  1. `web_search(query)`.
  2. ANALYZE results. If relevant, `read_url(url)`.
  3. STOP searching if you have enough info.
- **Knowledge Retrieval**:
  1. `semantic_search(query, index_path="work")` (if "work" is a known base).
  2. `read_file(path)` to verify details.
"#;

pub fn default_enable_session_autonaming() -> (r: bool)
    ensures r,
{
    true
}

pub fn default_ollama_url() -> (r: String)
    ensures r@ == DEFAULT_OLLAMA_URL@,
{
    String::from_str(DEFAULT_OLLAMA_URL)
}

pub fn default_api_type() -> (r: String)
    ensures r@ == DEFAULT_API_TYPE@,
{
    String::from_str(DEFAULT_API_TYPE)
}

pub fn default_enable_geolocation() -> (r: bool)
    ensures !r,
{
    false
}

pub fn default_max_consecutive_tool_calls() -> (r: usize)
    ensures r == 3,
{
    3
}

pub fn default_max_history_messages() -> (r: usize)
    ensures r == 1000,
{
    1000
}

pub fn default_searxng_url() -> (r: String)
    ensures r@ == DEFAULT_SEARXNG_URL@,
{
    String::from_str(DEFAULT_SEARXNG_URL)
}

pub fn default_embedding_model() -> (r: String)
    ensures r@ == DEFAULT_EMBEDDING_MODEL@,
{
    String::from_str(DEFAULT_EMBEDDING_MODEL)
}

pub fn default_context_token_limit() -> (r: usize)
    ensures r == 131072,
{
    131072
}

pub fn default_knowledge_bases() -> (r: Vec<(String, String)>)
    ensures r@.len() == 0,
{
    Vec::new()
}

pub fn default_system_prompt() -> (r: String)
    ensures r@ == DEFAULT_SYSTEM_PROMPT@,
{
    String::from_str(DEFAULT_SYSTEM_PROMPT)
}

/// The directory and file names skipped by the file tools unless configured otherwise.
pub open spec fn default_ignored() -> Seq<Seq<char>> {
    seq!["target"@, ".git"@, "node_modules"@, ".env"@, ".DS_Store"@, "Library"@, "Music"@,
        "Movies"@, "Pictures"@, "dist"@, "build"@]
}

pub fn default_ignored_patterns() -> (r: Vec<String>)
    ensures strings_view(r@) == default_ignored(),
{
    let mut r: Vec<String> = Vec::new();
    r.push(String::from_str("target"));
    r.push(String::from_str(".git"));
    r.push(String::from_str("node_modules"));
    r.push(String::from_str(".env"));
    r.push(String::from_str(".DS_Store"));
    r.push(String::from_str("Library"));
    r.push(String::from_str("Music"));
    r.push(String::from_str("Movies"));
    r.push(String::from_str("Pictures"));
    r.push(String::from_str("dist"));
    r.push(String::from_str("build"));
    assert(strings_view(r@) =~= default_ignored());
    r
}

pub fn default_auto_context() -> (r: bool)
    ensures r,
{
    true
}

pub fn default_summarization_enabled() -> (r: bool)
    ensures r,
{
    true
}

/// The default summarization threshold, in thousandths.
pub fn default_summarization_threshold() -> (r: u32)
    ensures r == 800,
{
    800
}

impl Config {
    /// The default settings: what is used when no configuration file exists.
    pub fn defaults() -> (c: Config)
        ensures
            c.ollama_url@ == DEFAULT_OLLAMA_URL@,
            c.api_type@ == DEFAULT_API_TYPE@,
            c.api_key@.len() == 0,
            c.context_token_limit == 131072,
            c.system_prompt@ == DEFAULT_SYSTEM_PROMPT@,
            strings_view(c.ignored_patterns@) == default_ignored(),
            c.auto_context,
            c.summarization_enabled,
            c.summarization_threshold_permille == 800,
            c.searxng_url@ == DEFAULT_SEARXNG_URL@,
            c.embedding_model@ == DEFAULT_EMBEDDING_MODEL@,
            c.max_consecutive_tool_calls == 3,
            c.max_history_messages == 1000,
            c.location is None,
            !c.enable_geolocation,
            c.knowledge_bases@.len() == 0,
            c.enable_session_autonaming,
    {
        Config {
            ollama_url: default_ollama_url(),
            api_type: default_api_type(),
            api_key: String::new(),
            context_token_limit: default_context_token_limit(),
            system_prompt: default_system_prompt(),
            ignored_patterns: default_ignored_patterns(),
            auto_context: default_auto_context(),
            summarization_enabled: default_summarization_enabled(),
            summarization_threshold_permille: default_summarization_threshold(),
            searxng_url: default_searxng_url(),
            embedding_model: default_embedding_model(),
            max_consecutive_tool_calls: default_max_consecutive_tool_calls(),
            max_history_messages: default_max_history_messages(),
            location: None,
            enable_geolocation: default_enable_geolocation(),
            knowledge_bases: default_knowledge_bases(),
            enable_session_autonaming: default_enable_session_autonaming(),
        }
    }

    /// Settings for tests: a small context window, a short system prompt, nothing
    /// ignored, and no automatic renaming.
    pub fn new_test_config() -> (c: Config)
        ensures
            c.ollama_url@ == DEFAULT_OLLAMA_URL@,
            c.api_type@ == DEFAULT_API_TYPE@,
            c.api_key@.len() == 0,
            c.context_token_limit == 4096,
            c.system_prompt@ == "You are helpful"@,
            c.ignored_patterns@.len() == 0,
            c.auto_context,
            c.summarization_enabled,
            c.summarization_threshold_permille == 800,
            c.searxng_url@ == DEFAULT_SEARXNG_URL@,
            c.embedding_model@ == DEFAULT_EMBEDDING_MODEL@,
            c.max_consecutive_tool_calls == 3,
            c.max_history_messages == 1000,
            c.location is None,
            !c.enable_geolocation,
            c.knowledge_bases@.len() == 0,
            !c.enable_session_autonaming,
    {
        Config {
            ollama_url: default_ollama_url(),
            api_type: default_api_type(),
            api_key: String::new(),
            context_token_limit: 4096,
            system_prompt: String::from_str("You are helpful"),
            ignored_patterns: Vec::new(),
            auto_context: true,
            summarization_enabled: true,
            summarization_threshold_permille: 800,
            searxng_url: default_searxng_url(),
            embedding_model: default_embedding_model(),
            max_consecutive_tool_calls: default_max_consecutive_tool_calls(),
            max_history_messages: default_max_history_messages(),
            location: None,
            enable_geolocation: false,
            knowledge_bases: Vec::new(),
            enable_session_autonaming: false,
        }
    }
}

} // verus!
