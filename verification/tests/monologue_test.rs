use intus::monologue::{MonologueParser, StreamEvent};

/// Joins adjacent events of the same kind, for easier comparison.
fn normalize(events: Vec<StreamEvent>) -> Vec<StreamEvent> {
    let mut normalized: Vec<StreamEvent> = Vec::new();
    for event in events {
        match event {
            StreamEvent::Content(s) => {
                if let Some(StreamEvent::Content(last)) = normalized.last_mut() {
                    last.push_str(&s);
                } else {
                    normalized.push(StreamEvent::Content(s));
                }
            }
            StreamEvent::Thought(s) => {
                if let Some(StreamEvent::Thought(last)) = normalized.last_mut() {
                    last.push_str(&s);
                } else {
                    normalized.push(StreamEvent::Thought(s));
                }
            }
        }
    }
    normalized
}

#[test]
fn test_simple_thought() {
    let mut parser = MonologueParser::new();
    let input = "Hello <thought>I am thinking</thought> world";
    let events = parser.process(input);
    let events = normalize(events);

    assert_eq!(events, vec![
        StreamEvent::Content("Hello ".to_string()),
        StreamEvent::Thought("I am thinking".to_string()),
        StreamEvent::Content(" world".to_string()),
    ]);
}

#[test]
fn test_split_start_tag() {
    let mut parser = MonologueParser::new();
    let events1 = parser.process("Hello <thou");
    let events2 = parser.process("ght>thinking</thought>");

    let mut all = normalize(events1);
    all.extend(normalize(events2));
    all = normalize(all);

    assert_eq!(all, vec![
        StreamEvent::Content("Hello ".to_string()),
        StreamEvent::Thought("thinking".to_string()),
    ]);
}

#[test]
fn test_split_end_tag() {
    let mut parser = MonologueParser::new();
    let input = "<thought>thinking</thou";
    let events1 = parser.process(input);
    let events2 = parser.process("ght>Done");

    let mut all = normalize(events1);
    all.extend(normalize(events2));
    all = normalize(all);

    assert_eq!(all, vec![
        StreamEvent::Thought("thinking".to_string()),
        StreamEvent::Content("Done".to_string()),
    ]);
}

#[test]
fn test_incomplete_tag_flush() {
    let mut parser = MonologueParser::new();
    let events = parser.process("Hello <thou");
    let flush = parser.flush();

    let mut all = normalize(events);
    all.extend(normalize(flush));
    all = normalize(all);

    assert_eq!(all, vec![StreamEvent::Content("Hello <thou".to_string())]);
}

#[test]
fn test_mismatched_start_tag() {
    let mut parser = MonologueParser::new();
    let input = "Hello <there>";
    let events = parser.process(input);
    let events = normalize(events);

    assert_eq!(events, vec![StreamEvent::Content("Hello <there>".to_string())]);
}

#[test]
fn test_nested_brackets_in_thought() {
    let mut parser = MonologueParser::new();
    let input = "<thought>Look at this: <Vector></thought>";
    let events = parser.process(input);
    let events = normalize(events);

    assert_eq!(events, vec![StreamEvent::Thought("Look at this: <Vector>".to_string())]);
}

#[test]
fn chunking_does_not_change_the_events() {
    let text = "a<thought>b</thought>c<th";
    let mut whole = MonologueParser::new();
    let mut all_at_once = normalize(whole.process(text));
    all_at_once.extend(normalize(whole.flush()));
    let all_at_once = normalize(all_at_once);

    let mut split = MonologueParser::new();
    let mut pieces: Vec<StreamEvent> = Vec::new();
    for ch in text.chars() {
        pieces.extend(split.process(&ch.to_string()));
    }
    pieces.extend(split.flush());
    assert_eq!(normalize(pieces), all_at_once);
}

#[test]
fn plain_text_is_all_content() {
    let mut parser = MonologueParser::new();
    let mut events = parser.process("no tags here");
    events.extend(parser.flush());
    assert_eq!(normalize(events), vec![StreamEvent::Content("no tags here".to_string())]);
}

#[test]
fn unfinished_thought_is_flushed_as_thought() {
    let mut parser = MonologueParser::new();
    let mut events = parser.process("<thought>half");
    events.extend(parser.flush());
    assert_eq!(normalize(events), vec![StreamEvent::Thought("half".to_string())]);
}
