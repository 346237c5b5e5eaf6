use core::cmp::Ordering;
use ghannotate::cargo::{CargoMessage, Diagnostic, DiagnosticLevel, DiagnosticSpan};
use ghannotate::dedup::DedupSet;
use ghannotate::driver::RunState;
use ghannotate::github::{Annotation, AnnotationKind};
use ghannotate::summary::{render_diagnostic_summary, Summary};
use ghannotate::text::{compare_paths, escaped, trimmed, usize_to_string};

fn annotation(
    kind: AnnotationKind,
    file: &str,
    line: usize,
    col: Option<usize>,
    message: &str,
) -> Annotation {
    Annotation {
        kind,
        file: String::from(file),
        line,
        end_line: None,
        col,
        end_column: None,
        title: None,
        message: String::from(message),
    }
}

fn message(text: &str, level: DiagnosticLevel, primary: bool) -> CargoMessage {
    CargoMessage::CompilerMessage(Diagnostic {
        message: String::from(text),
        level,
        spans: vec![DiagnosticSpan {
            file_name: String::from("src/lib.rs"),
            line_start: 10,
            line_end: 10,
            column_start: 5,
            column_end: 8,
            is_primary: primary,
        }],
        rendered: None,
    })
}

#[test]
fn text_helpers() {
    assert_eq!(usize_to_string(0), "0");
    assert_eq!(usize_to_string(10), "10");
    assert_eq!(usize_to_string(120345), "120345");
    assert_eq!(trimmed(" \t x y \n"), "x y");
    assert_eq!(trimmed(""), "");
    assert_eq!(trimmed(" \u{a0} "), "");
    assert_eq!(escaped("a%b"), "a%25b");
    assert_eq!(escaped("%\n\r"), "%25%0A%0D");
    assert_eq!(escaped("plain"), "plain");
}

#[test]
fn path_comparison() {
    assert_eq!(compare_paths("a.rs", "a.rs"), Ordering::Equal);
    assert_eq!(compare_paths("a.rs", "b.rs"), Ordering::Less);
    assert_eq!(compare_paths("a", "ab"), Ordering::Less);
    // The separator sorts before every other character, so a path descends
    // into a directory before a sibling whose name extends the directory's.
    assert_eq!(compare_paths("src/a.rs", "src.x/a.rs"), Ordering::Less);
}

#[test]
fn ordering_tie_break_chain() {
    let base = annotation(AnnotationKind::Warning, "a.rs", 1, Some(2), "m");
    let other_file = annotation(AnnotationKind::Warning, "b.rs", 1, Some(2), "m");
    assert_eq!(base.cmp(&other_file), Ordering::Less);
    assert_eq!(other_file.cmp(&base), Ordering::Greater);

    let later_line = annotation(AnnotationKind::Warning, "a.rs", 2, Some(2), "m");
    assert_eq!(base.cmp(&later_line), Ordering::Less);

    let no_col = annotation(AnnotationKind::Warning, "a.rs", 1, None, "m");
    assert_eq!(no_col.cmp(&base), Ordering::Less);

    // Among otherwise equal keys the more severe kind sorts first.
    let error = annotation(AnnotationKind::Error, "a.rs", 1, Some(2), "m");
    assert_eq!(error.cmp(&base), Ordering::Less);
    assert_eq!(base.cmp(&error), Ordering::Greater);

    // The comparator's key ignores the message; equality does not.
    let other_message = annotation(AnnotationKind::Warning, "a.rs", 1, Some(2), "x");
    assert_eq!(base.cmp(&other_message), Ordering::Equal);
    assert!(!(base == other_message));
}

#[test]
fn dedup_idempotence() {
    let mut set = DedupSet::new();
    let a = annotation(AnnotationKind::Warning, "a.rs", 1, Some(2), "m");
    let mut accepted = 0;
    let mut rejected = 0;
    for _ in 0..5 {
        if set.insert(a.to_owned()) {
            accepted += 1;
        } else {
            rejected += 1;
        }
    }
    assert_eq!(accepted, 1);
    assert_eq!(rejected, 4);
    assert_eq!(set.len(), 1);
    assert!(set.contains(&a));
}

#[test]
fn dedup_is_structural() {
    let mut set = DedupSet::new();
    let a = annotation(AnnotationKind::Warning, "a.rs", 1, Some(2), "m");
    // Same ordering key, different message: not a duplicate.
    let b = annotation(AnnotationKind::Warning, "a.rs", 1, Some(2), "other");
    assert!(set.insert(a));
    assert!(set.insert(b));
    assert_eq!(set.len(), 2);
}

#[test]
fn end_to_end_scenario() {
    let mut state = RunState::new(false);
    let first = state.process(message("unused variable", DiagnosticLevel::Warning, true));
    assert_eq!(
        first,
        Some(String::from(
            "::warning file=src/lib.rs,line=10,endLine=10,col=5,endColumn=8::unused variable"
        ))
    );
    let second = state.process(message("unused variable", DiagnosticLevel::Warning, true));
    assert_eq!(second, None);
    let doc = state.summary_document().unwrap();
    assert_eq!(
        doc,
        "# Diagnostics\n> **TOTAL:** 0 Errors, 1 Warning, 0 Notices\n\n\
         |Level|Message|Location|\n|:--|:--|--:|\n\
         |:warning: Warning|unused variable|`src/lib.rs:10`|\n"
    );
    assert!(state.failed());
}

#[test]
fn diagnostic_without_primary_span_is_dropped() {
    let mut state = RunState::new(false);
    assert_eq!(state.process(message("m", DiagnosticLevel::Error, false)), None);
    assert_eq!(state.summary_document(), None);
    assert!(!state.failed());
}

#[test]
fn threshold_behavior() {
    // Maximum kind Warning: failure under the default threshold.
    let mut strict = RunState::new(false);
    strict.process(message("w", DiagnosticLevel::Warning, true));
    assert!(strict.failed());

    // The same input succeeds when warnings are tolerated.
    let mut tolerant = RunState::new(true);
    tolerant.process(message("w", DiagnosticLevel::Warning, true));
    assert!(!tolerant.failed());

    // Maximum kind Notice: success under either threshold.
    let mut notices = RunState::new(false);
    notices.process(message("n", DiagnosticLevel::Note, true));
    assert!(!notices.failed());
    let mut notices_tolerant = RunState::new(true);
    notices_tolerant.process(message("n", DiagnosticLevel::Note, true));
    assert!(!notices_tolerant.failed());

    // Maximum kind Error: failure even when warnings are tolerated.
    let mut errors = RunState::new(true);
    errors.process(message("e", DiagnosticLevel::Error, true));
    assert!(errors.failed());
}

#[test]
fn summary_of_message() {
    let s = Summary::of_message(&message("unused variable", DiagnosticLevel::Warning, true));
    assert!(matches!(s.level, DiagnosticLevel::Warning));
    assert_eq!(s.message, "unused variable");
    assert_eq!(s.location, Some((String::from("src/lib.rs"), 10)));

    let none = Summary::of_message(&message("m", DiagnosticLevel::Error, false));
    assert_eq!(none.location, None);
}

#[test]
fn summary_totals_pluralization() {
    let summaries = vec![
        Summary {
            level: DiagnosticLevel::Error,
            message: String::from("boom"),
            location: None,
        },
        Summary {
            level: DiagnosticLevel::InternalCompilerError,
            message: String::from("ice"),
            location: Some((String::from("a.rs"), 3)),
        },
        Summary {
            level: DiagnosticLevel::Warning,
            message: String::from("warn"),
            location: None,
        },
    ];
    let doc = render_diagnostic_summary(&summaries);
    assert_eq!(
        doc,
        "# Diagnostics\n> **TOTAL:** 2 Errors, 1 Warning, 0 Notices\n\n\
         |Level|Message|Location|\n|:--|:--|--:|\n\
         |:x: Error|boom||\n\
         |:x: Error|ice|`a.rs:3`|\n\
         |:warning: Warning|warn||\n"
    );
}
