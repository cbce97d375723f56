use rust_core::tui::mermaid::Tone;
use rust_core::tui::semantic_diff::{
    detect_syntax_context, parse_unified_diff_hunks, DiffKind, SemanticDiff, SyntaxLanguage,
};

#[test]
fn empty_diff_has_no_changes() {
    let diff = SemanticDiff::compute("hello\nworld\n", "hello\nworld\n");
    assert!(diff.is_empty());
    assert_eq!(diff.summary(), "No changes.");
}

#[test]
fn detects_added_and_removed_lines() {
    let old = "line1\nline2\nline3\n";
    let new = "line1\nline2_changed\nline3\nline4\n";

    let diff = SemanticDiff::compute(old, new);

    assert!(!diff.is_empty());
    assert!(diff.added_lines() > 0);
    assert!(diff.removed_lines() > 0);
    assert!(!diff.hunks().is_empty());
}

#[test]
fn syntax_context_detection() {
    assert!(detect_syntax_context("fn main() {", SyntaxLanguage::Rust).is_some());
    assert!(detect_syntax_context("function hello() {", SyntaxLanguage::TypeScript).is_some());
    assert!(detect_syntax_context("def foo():", SyntaxLanguage::Python).is_some());
    assert!(detect_syntax_context("let x = 1;", SyntaxLanguage::Rust).is_none());
}

#[test]
fn language_detection_from_extension() {
    assert_eq!(SyntaxLanguage::from_extension("rs"), SyntaxLanguage::Rust);
    assert_eq!(SyntaxLanguage::from_extension("ts"), SyntaxLanguage::TypeScript);
    assert_eq!(SyntaxLanguage::from_extension("tsx"), SyntaxLanguage::TypeScript);
    assert_eq!(SyntaxLanguage::from_extension("py"), SyntaxLanguage::Python);
    assert_eq!(SyntaxLanguage::from_extension("txt"), SyntaxLanguage::Unknown);
}

#[test]
fn render_produces_output() {
    let old = "fn hello() {\n    println!(\"old\");\n}\n";
    let new = "fn hello() {\n    println!(\"new\");\n}\n";

    let diff = SemanticDiff::compute_with_context(old, new, 3, SyntaxLanguage::Rust);
    let lines = diff.render_lines();
    assert!(!lines.is_empty());

    let plain = diff.render_plain();
    assert!(plain.contains("Semantic Diff"));
    assert!(plain.contains("  @@ fn hello @@\n"));
}

#[test]
fn render_lines_colours_each_kind() {
    let old = "fn hello() {\n    println!(\"old\");\n}\n";
    let new = "fn hello() {\n    println!(\"new\");\n}\n";
    let diff = SemanticDiff::compute_with_context(old, new, 3, SyntaxLanguage::Rust);
    let lines = diff.render_lines();
    assert_eq!(lines[0], ("── Semantic Diff ── [".to_string() + &diff.summary() + "]", Tone::Cyan));
    assert!(lines.contains(&("  @@ fn hello @@".to_string(), Tone::Yellow)));
    assert!(lines.contains(&("-     println!(\"old\");\n".to_string(), Tone::Red)));
    assert!(lines.contains(&("+     println!(\"new\");\n".to_string(), Tone::Green)));
    assert!(lines.contains(&("  }\n".to_string(), Tone::DarkGray)));
}

#[test]
fn compute_with_explicit_language() {
    let diff = SemanticDiff::compute_with_context(
        "def foo(): pass\n",
        "def foo():\n    return 1\n",
        3,
        SyntaxLanguage::Python,
    );
    assert!(!diff.is_empty());
    assert_eq!(diff.language(), SyntaxLanguage::Python);
}

#[test]
fn syntax_context_names() {
    assert_eq!(detect_syntax_context("  fn main() {", SyntaxLanguage::Rust).unwrap(), "fn main");
    assert!(detect_syntax_context("impl<T> Foo {", SyntaxLanguage::Rust).is_none());
    assert_eq!(detect_syntax_context("impl Foo<T> {", SyntaxLanguage::Rust).unwrap(), "impl Foo");
    assert_eq!(detect_syntax_context("struct S;", SyntaxLanguage::Rust).unwrap(), "struct S;");
    assert_eq!(detect_syntax_context("mod m {", SyntaxLanguage::Rust).unwrap(), "mod m {");
    assert_eq!(
        detect_syntax_context("async function go<T>() {", SyntaxLanguage::TypeScript).unwrap(),
        "function go"
    );
    assert_eq!(detect_syntax_context("interface I {", SyntaxLanguage::TypeScript).unwrap(), "interface I {");
    assert_eq!(detect_syntax_context("def f(x):", SyntaxLanguage::Python).unwrap(), "def f");
    assert_eq!(detect_syntax_context("class K:", SyntaxLanguage::Python).unwrap(), "class K:");
    assert!(detect_syntax_context("fn x()", SyntaxLanguage::Unknown).is_none());
    assert_eq!(SyntaxLanguage::TypeScript.name(), "TypeScript");
}

#[test]
fn line_numbers_and_summary() {
    let diff = SemanticDiff::compute("a\nb\nc\n", "a\nB\nc\n");
    assert_eq!(diff.added_lines(), 1);
    assert_eq!(diff.removed_lines(), 1);
    assert_eq!(diff.summary(), "1 additions, 1 deletions across 1 hunk(s)");
    let hunk = &diff.hunks()[0];
    assert_eq!(hunk.context_before, 3);
    let removed = hunk.lines.iter().find(|l| l.kind == DiffKind::Removed).unwrap();
    assert_eq!(removed.text, "b\n");
    assert_eq!(removed.new_line, None);
    let added = hunk.lines.iter().find(|l| l.kind == DiffKind::Added).unwrap();
    assert_eq!(added.old_line, None);
    assert!(diff.raw_diff().contains("-b"));
    assert!(diff.raw_diff().contains("+B"));
}

#[test]
fn unified_hunks_are_read_from_their_headers() {
    let diff = "--- a\n+++ b\n@@ -1,3 +1,4 @@\n a\n-b\n+c\n@@ -10 +12,2 @@ fn main\n x\n";
    let hunks = parse_unified_diff_hunks(diff);
    assert_eq!(hunks.len(), 2);
    assert_eq!(hunks[0].old_start, 1);
    assert_eq!(hunks[0].new_start, 1);
    assert_eq!(hunks[0].lines, vec![" a".to_string(), "-b".to_string(), "+c".to_string()]);
    assert_eq!(hunks[1].old_start, 10);
    assert_eq!(hunks[1].new_start, 12);
    assert_eq!(hunks[1].lines, vec![" x".to_string()]);
}

#[test]
fn unified_hunks_without_lines_or_numbers() {
    let diff = "@@ -5,2 +6,2 @@\n@@ -bad +x @@\nonly\n@@ +3 @@\n";
    let hunks = parse_unified_diff_hunks(diff);
    assert_eq!(hunks.len(), 1);
    assert_eq!(hunks[0].old_start, 1);
    assert_eq!(hunks[0].new_start, 1);
    assert_eq!(hunks[0].lines, vec!["only".to_string()]);
    assert!(parse_unified_diff_hunks("no header\n+x\n").is_empty());
}

#[test]
fn each_line_carries_its_own_number() {
    let old_text = "line1\nline2\nline3\n";
    let new_text = "line1\nline2_changed\nline3\nline4\n";
    let diff = SemanticDiff::compute(old_text, new_text);
    let old_lines: Vec<&str> = old_text.lines().collect();
    let new_lines: Vec<&str> = new_text.lines().collect();
    let first = &diff.hunks()[0].lines[0];
    assert_eq!(first.text, "line1\n");
    assert_eq!((first.old_line, first.new_line), (Some(1), Some(1)));
    for hunk in diff.hunks() {
        for l in &hunk.lines {
            let text = l.text.trim_end_matches('\n');
            if let Some(n) = l.old_line {
                assert_eq!(old_lines[n - 1], text);
            }
            if let Some(m) = l.new_line {
                assert_eq!(new_lines[m - 1], text);
            }
        }
    }
}

#[test]
fn equal_texts_give_no_hunks() {
    let diff = SemanticDiff::compute("x\ny\n", "x\ny\n");
    assert!(diff.hunks().is_empty());
    assert_eq!((diff.added_lines(), diff.removed_lines()), (0, 0));
}

#[test]
fn added_minus_removed_is_the_change_in_line_count() {
    let old_text = "a\nb\nc\n";
    let new_text = "a\nx\ny\nc\nd";
    let diff = SemanticDiff::compute(old_text, new_text);
    assert_eq!(
        diff.added_lines() as i64 - diff.removed_lines() as i64,
        new_text.lines().count() as i64 - old_text.lines().count() as i64
    );
    assert!(!diff.hunks().is_empty());
}
