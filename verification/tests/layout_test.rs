use intus::markdown::{markdown_lines, MdColor, MdKind, MdToken, SpanStyle, StyledLine};

fn open(k: MdKind) -> MdToken {
    MdToken::Open(k)
}

fn text(t: &str) -> Vec<MdToken> {
    vec![open(MdKind::Text(t.to_string())), MdToken::Close]
}

fn plain() -> SpanStyle {
    SpanStyle { fg: None, bg: None, bold: false, italic: false, underlined: false }
}

fn fg(c: MdColor) -> SpanStyle {
    SpanStyle { fg: Some(c), ..plain() }
}

fn shown(lines: &[StyledLine]) -> Vec<Vec<(String, SpanStyle)>> {
    lines.iter().map(|l| l.spans.iter().map(|s| (s.text.clone(), s.style)).collect()).collect()
}

fn doc(body: Vec<MdToken>) -> Vec<MdToken> {
    let mut t = vec![open(MdKind::Other)];
    t.extend(body);
    t.push(MdToken::Close);
    t
}

fn paragraph(body: Vec<MdToken>) -> Vec<MdToken> {
    let mut t = vec![open(MdKind::Paragraph)];
    t.extend(body);
    t.push(MdToken::Close);
    t
}

#[test]
fn bold_text_keeps_its_line() {
    let mut body = text("Hello ");
    body.push(open(MdKind::Strong));
    body.extend(text("world"));
    body.push(MdToken::Close);
    let lines = markdown_lines(&doc(paragraph(body)), 80);
    let bold = SpanStyle { bold: true, ..plain() };
    assert_eq!(shown(&lines), vec![vec![("Hello ".to_string(), plain()), ("world".to_string(), bold)]]);
}

#[test]
fn paragraphs_are_separated_by_a_blank_line() {
    let mut body = paragraph(text("one"));
    body.extend(paragraph(text("two")));
    let lines = markdown_lines(&doc(body), 80);
    assert_eq!(
        shown(&lines),
        vec![vec![("one".to_string(), plain())], vec![], vec![("two".to_string(), plain())]]
    );
}

#[test]
fn list_items_get_bullets_and_numbers() {
    let item = |t: &str| {
        let mut v = vec![open(MdKind::Other)];
        v.extend(paragraph(text(t)));
        v.push(MdToken::Close);
        v
    };
    let mut body = vec![open(MdKind::List(false, 1))];
    body.extend(item("a"));
    body.extend(item("b"));
    body.push(MdToken::Close);
    let lines = markdown_lines(&doc(body), 80);
    let bullet = (" • ".to_string(), fg(MdColor::Yellow));
    assert_eq!(
        shown(&lines),
        vec![
            vec![bullet.clone(), ("a".to_string(), plain())],
            vec![],
            vec![bullet, ("b".to_string(), plain())],
        ]
    );

    let mut numbered = vec![open(MdKind::List(true, 3))];
    numbered.extend(item("x"));
    numbered.extend(item("y"));
    numbered.push(MdToken::Close);
    let lines = markdown_lines(&doc(numbered), 80);
    assert_eq!(lines[0].spans[0].text, " 3. ");
    assert_eq!(lines[2].spans[0].text, " 4. ");
}

#[test]
fn headings_are_marked_and_coloured() {
    let mut body = vec![open(MdKind::Heading(2))];
    body.extend(text("Title"));
    body.push(MdToken::Close);
    let lines = markdown_lines(&doc(body), 80);
    let h = SpanStyle { bold: true, fg: Some(MdColor::Blue), ..plain() };
    assert_eq!(shown(&lines), vec![vec![("## ".to_string(), h), ("Title".to_string(), h)]]);
}

#[test]
fn code_blocks_have_a_header_and_a_rule() {
    let body = vec![open(MdKind::CodeBlock("rust".to_string(), "fn main() {}\nlet x = 1;\n".to_string())), MdToken::Close];
    let lines = markdown_lines(&doc(body), 80);
    let green = fg(MdColor::Rgb(166, 209, 137));
    assert_eq!(
        shown(&lines),
        vec![
            vec![("── rust ──".to_string(), fg(MdColor::DarkGray))],
            vec![("fn main() {}".to_string(), green)],
            vec![("let x = 1;".to_string(), green)],
            vec![("────────────────".to_string(), fg(MdColor::DarkGray))],
        ]
    );
}

#[test]
fn links_and_inline_code_are_styled() {
    let mut body = vec![open(MdKind::Link("http://x".to_string()))];
    body.extend(text("site"));
    body.push(MdToken::Close);
    body.push(open(MdKind::Code("cargo".to_string())));
    body.push(MdToken::Close);
    let lines = markdown_lines(&doc(paragraph(body)), 80);
    let link = SpanStyle { fg: Some(MdColor::Cyan), underlined: true, ..plain() };
    let code = SpanStyle { fg: Some(MdColor::Rgb(242, 213, 207)), bg: Some(MdColor::Rgb(65, 69, 89)), ..plain() };
    assert_eq!(
        shown(&lines),
        vec![vec![
            ("[".to_string(), plain()),
            ("site".to_string(), link),
            ("](http://x)".to_string(), fg(MdColor::DarkGray)),
            (" cargo ".to_string(), code),
        ]]
    );
}

#[test]
fn tables_are_rendered_from_their_commonmark() {
    let mut body = vec![open(MdKind::Table("| a | b |\n|---|---|\n| 1 | 2 |\n".to_string()))];
    body.extend(text("zzz"));
    body.push(MdToken::Close);
    let lines = markdown_lines(&doc(body), 40);
    let all: String = shown(&lines).iter().flatten().map(|(t, _)| t.clone()).collect::<Vec<_>>().join("\n");
    assert!(all.contains('a') && all.contains('1') && all.contains('2'));
    assert!(!all.contains("zzz"));
    assert!(lines.iter().all(|l| l.spans.iter().all(|s| s.style == fg(MdColor::Rgb(129, 200, 190)))));
}

#[test]
fn empty_documents_have_no_lines() {
    assert!(markdown_lines(&doc(vec![]), 80).is_empty());
    assert!(markdown_lines(&[], 80).is_empty());
}

#[test]
fn markdown_text_is_parsed_and_laid_out() {
    let lines = intus::markdown::markdown_to_lines("Hello **world**\n\n- a\n- b\n", 80);
    let bold = SpanStyle { bold: true, ..plain() };
    let bullet = (" • ".to_string(), fg(MdColor::Yellow));
    assert_eq!(
        shown(&lines),
        vec![
            vec![("Hello ".to_string(), plain()), ("world".to_string(), bold)],
            vec![],
            vec![bullet.clone(), ("a".to_string(), plain())],
            vec![],
            vec![bullet, ("b".to_string(), plain())],
        ]
    );
}
