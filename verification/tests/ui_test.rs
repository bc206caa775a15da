use intus::ui::{estimate_wrapped_height, insert_soft_hyphens, truncate_content};

#[test]
fn test_truncate_content_short() {
    let text = "Line 1\nLine 2\nLine 3";
    assert_eq!(truncate_content(text, 5), text);
}

#[test]
fn test_truncate_content_long() {
    let text = "1\n2\n3\n4\n5\n6";
    let truncated = truncate_content(text, 3);
    assert!(truncated.starts_with("1\n2\n3"));
    assert!(truncated.contains("... [Output truncated associated with tool usage. Total: 6 lines]"));
}

#[test]
fn test_truncate_content_exact() {
    let text = "1\n2\n3";
    assert_eq!(truncate_content(text, 3), text);
}

#[test]
fn truncated_text_is_exact() {
    assert_eq!(
        truncate_content("1\n2\n3\n4", 2),
        "1\n2\n\n... [Output truncated associated with tool usage. Total: 4 lines]"
    );
}

/// The display widths of the lines of an ASCII text, as the interface measures them.
fn widths(text: &str) -> Vec<usize> {
    text.lines().map(|l| l.len()).collect()
}

#[test]
fn test_wrapped_height_simple() {
    let text = "Hello World";
    assert_eq!(estimate_wrapped_height(&widths(text), 20), 1);
    assert_eq!(estimate_wrapped_height(&widths(text), 5), 3);
}

#[test]
fn test_wrapped_height_multiline() {
    let text = "Line1\nLine2\nLine3";
    assert_eq!(estimate_wrapped_height(&widths(text), 50), 3);
}

#[test]
fn test_wrapped_height_zero_width() {
    let text = "Any content";
    assert_eq!(estimate_wrapped_height(&widths(text), 0), 0);
}

#[test]
fn test_wrapped_height_empty_lines() {
    let text = "\n\n";
    let height = estimate_wrapped_height(&widths(text), 50);
    assert!(height >= 2, "Empty lines should contribute to height");
}

#[test]
fn soft_hyphens_follow_separators() {
    assert_eq!(insert_soft_hyphens("a/b_c,d"), "a/\u{200B}b_\u{200B}c,\u{200B}d");
    assert_eq!(insert_soft_hyphens("plain"), "plain");
}

#[test]
fn wider_text_is_never_taller() {
    let widths = [37usize, 0, 120, 5];
    let mut last = u16::MAX;
    for w in 1u16..=130 {
        let h = estimate_wrapped_height(&widths, w);
        assert!(h <= last);
        last = h;
    }
    assert_eq!(estimate_wrapped_height(&widths, 130), 4);
}
