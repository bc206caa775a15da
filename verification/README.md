# intus

A terminal assistant for local language models (served by Ollama), with file,
shell, web and knowledge-base tools. The decisions it makes are a library
verified with Verus; a thin program around it owns the terminal, the network,
the files and the child processes.

## Layout

- `src/` — the verified library.
  - `app.rs`, `update.rs`, `keys.rs`, `chat.rs`, `session.rs` — the application
    state and its transitions: every event goes through `App::update`, which
    returns whether to redraw and the effects to carry out, in order.
  - `monologue.rs` — splitting streamed output into content and
    `<thought>` sections, tag by tag across chunks.
  - `context.rs` — token estimates, context sizing and summarization requests.
  - `ollama.rs` — the model server's data, and the framing of its streamed
    replies into lines.
  - `tools.rs` — the tools' logic: path checks, command lines, cutting and
    shaping output, editing and replacing text, chunking for the knowledge base.
  - `ui.rs` — what each message shows, bubble sizes and the scroll position.
  - `markdown.rs` — laying out a Markdown document (its syntax tree walked
    in order) as styled lines.
  - `health.rs`, `process.rs`, `config.rs`, `text.rs` — service health, the
    tracked child processes, configuration defaults and text helpers.
- `app/` — the program: the event loop, the HTTP client, session files, the
  knowledge base's embeddings, running the tools, and drawing with ratatui.
- `tests/` — tests of the library.
