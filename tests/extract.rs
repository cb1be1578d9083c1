use palisade::changelog::outline;
use palisade::document::{opaque_kind, Block, BlockKind, Step};
use palisade::extract::{extract, Collector, ExtractionError};

fn block(kind: BlockKind, content: &str, rendered: &str) -> Block {
    Block { kind, content: content.as_bytes().to_vec(), rendered: rendered.as_bytes().to_vec() }
}

fn text(t: &str) -> Vec<Step> {
    vec![Step::Enter(block(BlockKind::Text, t, t)), Step::Leave]
}

fn heading(level: u32, t: &str) -> Vec<Step> {
    let rendered = format!("{} {}\n", "#".repeat(level as usize), t);
    let mut steps = vec![Step::Enter(block(BlockKind::Heading { level }, t, &rendered))];
    steps.extend(text(t));
    steps.push(Step::Leave);
    steps
}

fn paragraph(t: &str) -> Vec<Step> {
    let mut steps = vec![Step::Enter(block(BlockKind::Other, "", &format!("{}\n", t)))];
    steps.extend(text(t));
    steps.push(Step::Leave);
    steps
}

fn document(parts: Vec<Vec<Step>>) -> Vec<Step> {
    let mut steps = vec![Step::Enter(block(BlockKind::Other, "", "whole\n"))];
    for part in parts {
        steps.extend(part);
    }
    steps.push(Step::Leave);
    steps
}

fn sample() -> Vec<Step> {
    document(vec![
        heading(1, "Changelog"),
        heading(2, "0.2.0"),
        heading(3, "ADDED"),
        paragraph("two"),
        heading(2, "0.1.0"),
        paragraph("one"),
        heading(2, "0.0.1"),
        paragraph("first"),
    ])
}

#[test]
fn section_between_headings() {
    let doc = sample();
    assert_eq!(extract(&doc, "0.2.0"), Ok("### ADDED\ntwo\n".to_string()));
    assert_eq!(extract(&doc, "0.1.0"), Ok("one\n".to_string()));
    assert_eq!(extract(&doc, "0.0.1"), Ok("first\n".to_string()));
}

#[test]
fn absent_tag_is_empty() {
    let doc = sample();
    assert_eq!(extract(&doc, "0.3.0"), Ok(String::new()));
    assert_eq!(extract(&doc, "Changelog"), Ok(String::new()));
    assert_eq!(extract(&vec![], "0.1.0"), Ok(String::new()));
}

#[test]
fn repeated_tag_collects_each_section() {
    let doc = document(vec![
        heading(2, "x"),
        paragraph("a"),
        heading(2, "y"),
        paragraph("b"),
        heading(2, "x"),
        paragraph("c"),
    ]);
    assert_eq!(extract(&doc, "x"), Ok("a\nc\n".to_string()));
}

#[test]
fn list_items_are_not_entered() {
    let mut list = vec![Step::Enter(block(BlockKind::Other, "", "  - inner\n"))];
    list.push(Step::Enter(block(BlockKind::ListItem, "", "should not appear\n")));
    list.extend(heading(2, "hidden"));
    list.extend(paragraph("inner"));
    list.push(Step::Leave);
    list.push(Step::Leave);
    let doc = document(vec![heading(2, "v"), list]);
    assert_eq!(extract(&doc, "v"), Ok("  - inner\n".to_string()));
    assert_eq!(extract(&doc, "hidden"), Ok(String::new()));
}

#[test]
fn code_spans_are_not_entered() {
    let para = vec![
        Step::Enter(block(BlockKind::Other, "", "a `b`\n")),
        Step::Enter(block(BlockKind::Code, "b", "`b`\n")),
        Step::Leave,
        Step::Leave,
    ];
    let doc = document(vec![heading(2, "v"), para]);
    assert_eq!(extract(&doc, "v"), Ok("a `b`\n".to_string()));
    assert!(opaque_kind(&BlockKind::Code));
    assert!(opaque_kind(&BlockKind::Text));
    assert!(opaque_kind(&BlockKind::ListItem));
    assert!(!opaque_kind(&BlockKind::Other));
    assert!(!opaque_kind(&BlockKind::Heading { level: 2 }));
}

#[test]
fn invalid_heading_is_an_error() {
    let bad = vec![
        Step::Enter(Block { kind: BlockKind::Heading { level: 2 }, content: vec![0xff, 0xfe], rendered: vec![] }),
        Step::Leave,
    ];
    let doc = document(vec![bad, heading(2, "v"), paragraph("ok")]);
    assert_eq!(extract(&doc, "v"), Err(ExtractionError::InvalidEncoding));
}

#[test]
fn invalid_section_is_an_error() {
    let para = vec![
        Step::Enter(Block { kind: BlockKind::Other, content: vec![], rendered: vec![b'a', 0xc3] }),
        Step::Leave,
    ];
    let doc = document(vec![heading(2, "v"), para]);
    assert_eq!(extract(&doc, "v"), Err(ExtractionError::InvalidEncoding));
    assert_eq!(extract(&doc, "w"), Ok(String::new()));
}

#[test]
fn collector_tracks_state() {
    let mut c = Collector::new();
    assert!(!c.collecting);
    for s in heading(2, "t") {
        assert!(c.visit(&s, "t"));
    }
    assert!(c.collecting);
    assert_eq!(c.depth, 0);
    let para = paragraph("p");
    assert!(c.visit(&para[0], "t"));
    assert_eq!(c.depth, 1);
    assert_eq!(c.buffer, b"p\n".to_vec());
    let item = Step::Enter(block(BlockKind::ListItem, "", "x\n"));
    assert!(c.visit(&item, "t"));
    assert_eq!((c.depth, c.skip), (2, 1));
    assert!(c.visit(&Step::Leave, "t"));
    assert_eq!((c.depth, c.skip), (1, 0));
    assert_eq!(c.buffer, b"p\n".to_vec());
}

#[test]
fn outline_follows_the_document() {
    let steps = outline("## 0.1.0\n\nhello\n");
    assert_eq!(steps.len(), 10);
    match &steps[0] {
        Step::Enter(root) => assert_eq!(root.kind, BlockKind::Other),
        Step::Leave => panic!("the outline starts with the root"),
    }
    match &steps[1] {
        Step::Enter(h) => {
            assert_eq!(h.kind, BlockKind::Heading { level: 2 });
            assert_eq!(h.content, b"0.1.0".to_vec());
        }
        Step::Leave => panic!("the heading comes first"),
    }
    match &steps[5] {
        Step::Enter(p) => assert_eq!(p.rendered, b"hello\n".to_vec()),
        Step::Leave => panic!("the paragraph follows the heading"),
    }
    assert!(matches!(steps[9], Step::Leave));
}
