use zedlib::edits::{insert_edit, select_suggestions};
use zedlib::outline::{excerpt_line, item_line, outline_plan, OutlineItem, OutlineLine};
use zedlib::prompts::{generate_codegen_planning_prompt, quote_text, split_lines};

fn item(range: std::ops::Range<usize>, depth: usize, text: &str, name: std::ops::Range<usize>) -> OutlineItem {
    OutlineItem { range, depth, text: text.to_string(), name_ranges: vec![name] }
}

fn render(text: &str, items: &Vec<OutlineItem>, range: std::ops::Range<usize>) -> String {
    let mut out = String::new();
    for line in outline_plan(items, range) {
        match line {
            OutlineLine::Item { depth, text: t } => out.push_str(&item_line("    ", depth, &t)),
            OutlineLine::Excerpt { depth, before, selection, after } => out.push_str(&excerpt_line(
                "    ",
                depth,
                &text[before],
                &text[selection],
                &text[after],
            )),
        }
    }
    out
}

const OUTLINE_TEXT: &str = "struct X {\n    a: usize,\n    b: usize,\n}\n\nimpl X {\n\n    fn new() -> Self {\n        let a = 1;\n        let b = 2;\n        Self { a, b }\n    }\n\n    pub fn a(&self, param: bool) -> usize {\n        self.a\n    }\n\n    pub fn b(&self) -> usize {\n        self.b\n    }\n}\n";

// The byte offset of `row`, `column` in the text.
fn offset(row: usize, column: usize) -> usize {
    OUTLINE_TEXT.split('\n').take(row).map(|line| line.len() + 1).sum::<usize>() + column
}

// The outline of the text: each item's range from its first to its last
// character, its depth, its text and its name's range within the text.
fn sample_outline() -> Vec<OutlineItem> {
    vec![
        item(offset(0, 0)..offset(3, 1), 0, "struct X", 7..8),
        item(offset(1, 4)..offset(1, 12), 1, "a", 0..1),
        item(offset(2, 4)..offset(2, 12), 1, "b", 0..1),
        item(offset(5, 0)..offset(20, 1), 0, "impl X", 5..6),
        item(offset(7, 4)..offset(11, 5), 1, "fn new", 3..6),
        item(offset(13, 4)..offset(15, 5), 1, "fn a", 3..4),
        item(offset(17, 4)..offset(19, 5), 1, "fn b", 3..4),
    ]
}

#[test]
fn test_outline_for_prompt() {
    let items = sample_outline();
    let outline = |start: (usize, usize), end: (usize, usize)| {
        render(OUTLINE_TEXT, &items, offset(start.0, start.1)..offset(end.0, end.1))
    };
    assert_eq!(
        outline((1, 4), (1, 4)),
        "struct X\n    <||>a: usize\n    b\nimpl X\n    fn new\n    fn a\n    fn b\n"
    );
    assert_eq!(
        outline((8, 12), (8, 14)),
        "struct X\n    a\n    b\nimpl X\n    fn new() -> Self {\n        let <|a |>= 1;\n        let b = 2;\n        Self { a, b }\n    }\n    fn a\n    fn b\n"
    );
    assert_eq!(
        outline((6, 0), (6, 0)),
        "struct X\n    a\n    b\nimpl X\n<||>\n    fn new\n    fn a\n    fn b\n"
    );
    assert_eq!(
        outline((8, 12), (13, 9)),
        "struct X\n    a\n    b\nimpl X\n    fn new() -> Self {\n        let <|a = 1;\n        let b = 2;\n        Self { a, b }\n    }\n\n    pub f|>n a(&self, param: bool) -> usize {\n        self.a\n    }\n    fn b\n"
    );
    assert_eq!(
        outline((5, 6), (12, 0)),
        "struct X\n    a\n    b\nimpl X<| {\n\n    fn new() -> Self {\n        let a = 1;\n        let b = 2;\n        Self { a, b }\n    }\n|>\n    fn a\n    fn b\n"
    );
    assert_eq!(
        outline((18, 8), (18, 8)),
        "struct X\n    a\n    b\nimpl X\n    fn new\n    fn a\n    pub fn b(&self) -> usize {\n        <||>self.b\n    }\n"
    );
}

#[test]
fn outline_without_a_touching_item() {
    let items = vec![item(0..5, 0, "one", 0..1), item(10..20, 0, "two", 0..1)];
    let lines = outline_plan(&items, 6..8);
    assert_eq!(lines.len(), 2);
    assert!(matches!(&lines[0], OutlineLine::Item { depth: 0, text } if text == "one"));
    assert_eq!(item_line("  ", 2, "x"), "    x\n");
    assert_eq!(excerpt_line("\t", 1, "ab", "c", "d"), "\tab<|c|>d\n");
}

#[test]
fn outline_item_lines_are_the_items_not_in_an_excerpt() {
    let items = sample_outline();
    // The selection inside `fn new`: `impl X` has children and its name
    // ends before the selection, so it keeps its line; `fn new` is shown
    // only inside the excerpt.
    let lines = outline_plan(&items, offset(8, 12)..offset(8, 14));
    let texts: Vec<String> = lines
        .iter()
        .filter_map(|l| match l {
            OutlineLine::Item { text, .. } => Some(text.clone()),
            OutlineLine::Excerpt { .. } => None,
        })
        .collect();
    assert_eq!(texts, vec!["struct X", "a", "b", "impl X", "fn a", "fn b"]);
    assert_eq!(lines.len(), 7);
    assert!(matches!(&lines[4], OutlineLine::Excerpt { depth: 1, .. }));
}

#[test]
fn unsorted_selections_are_walked_once() {
    // The walk stops at the first selection that does not end before a
    // suggestion, so a later selection that touches it is not seen.
    let selections = vec![10..12, 3..4];
    let suggestions = vec![2..3, 5..9, 11..15];
    assert_eq!(select_suggestions(&selections, &suggestions), vec![false, false, true]);
}

#[test]
fn selected_suggestions() {
    let selections = vec![3..4, 10..12];
    let suggestions = vec![0..2, 2..3, 5..9, 12..20, 30..31];
    assert_eq!(
        select_suggestions(&selections, &suggestions),
        vec![false, true, false, true, false]
    );
    assert_eq!(select_suggestions(&vec![], &suggestions), vec![false; 5]);
}

#[test]
fn edits_stay_in_order() {
    let mut edits = Vec::new();
    assert!(insert_edit(&mut edits, 10..12, "b".to_string()));
    assert!(insert_edit(&mut edits, 2..3, "a".to_string()));
    assert!(insert_edit(&mut edits, 20..21, "c".to_string()));
    assert!(!insert_edit(&mut edits, 10..15, "dup".to_string()));
    let starts: Vec<usize> = edits.iter().map(|(r, _)| r.start).collect();
    assert_eq!(starts, vec![2, 10, 20]);
    assert_eq!(edits[1].1, "b");
}

#[test]
fn quoting_selections() {
    assert_eq!(quote_text("rust", ""), None);
    assert_eq!(quote_text("rust", "fn x() {}"), Some("```rust\nfn x() {}\n```".to_string()));
    assert_eq!(quote_text("markdown", "a\r\nb\n"), Some("> a\n> b".to_string()));
    assert_eq!(quote_text("markdown", "a\n\nb"), Some("> a\n> \n> b".to_string()));
    assert_eq!(split_lines("x\ny\n"), vec!["x".to_string(), "y".to_string()]);
    assert_eq!(split_lines(""), Vec::<String>::new());
    assert_eq!(split_lines("\n"), vec![String::new()]);
}

#[test]
fn planning_prompt() {
    let p = generate_codegen_planning_prompt("add a test", "Rust", Some("fn main"));
    assert_eq!(
        p,
        "You're an expert rust engineer.\n\n\
         You're currently working inside the Zed editor on a file with the following outline:\n```rust\nfn main\n```\n\
         In particular, the user's cursor is currently on the '<||>' span in the above outline, with no text selected.\n\
         The user has provided the following prompt: 'add a test'\n\n\
         It is your task to identify if any additional context is needed from the repository\n"
    );
    let p = generate_codegen_planning_prompt("x", "Go", None);
    assert!(p.starts_with("You're an expert go engineer.\n\nIn particular"));
}

#[test]
fn lone_carriage_return_stays_in_the_last_line() {
    assert_eq!(quote_text("markdown", "a\r"), Some("> a\r".to_string()));
    assert_eq!(split_lines("x\r"), vec!["x\r".to_string()]);
    assert_eq!(split_lines("x\r\ny\r"), vec!["x".to_string(), "y\r".to_string()]);
    assert_eq!(split_lines("x\ry\n"), vec!["x\ry".to_string()]);
}
