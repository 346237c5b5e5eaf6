use ghannotate::cargo::{CargoMessage, Diagnostic, DiagnosticLevel, DiagnosticSpan};
use ghannotate::github::{Annotation, AnnotationKind};

fn span(
    file: &str,
    line_start: usize,
    line_end: usize,
    column_start: usize,
    column_end: usize,
    is_primary: bool,
) -> DiagnosticSpan {
    DiagnosticSpan {
        file_name: String::from(file),
        line_start,
        line_end,
        column_start,
        column_end,
        is_primary,
    }
}

fn unused_variable_message() -> CargoMessage {
    CargoMessage::CompilerMessage(Diagnostic {
        message: String::from("unused variable"),
        level: DiagnosticLevel::Warning,
        spans: vec![span("src/lib.rs", 10, 10, 5, 8, true)],
        rendered: None,
    })
}

fn simple_annotation(kind: AnnotationKind, file: &str, line: usize, message: &str) -> Annotation {
    Annotation {
        kind,
        file: String::from(file),
        line,
        end_line: None,
        col: None,
        end_column: None,
        title: None,
        message: String::from(message),
    }
}

#[test]
fn severity_classification() {
    assert_eq!(AnnotationKind::from(DiagnosticLevel::Error), AnnotationKind::Error);
    assert_eq!(
        AnnotationKind::from(DiagnosticLevel::InternalCompilerError),
        AnnotationKind::Error
    );
    assert_eq!(AnnotationKind::from(DiagnosticLevel::Warning), AnnotationKind::Warning);
    assert_eq!(AnnotationKind::from(DiagnosticLevel::Note), AnnotationKind::Notice);
    assert_eq!(AnnotationKind::from(DiagnosticLevel::Help), AnnotationKind::Notice);
    assert_eq!(AnnotationKind::from(DiagnosticLevel::FailureNote), AnnotationKind::Notice);
}

#[test]
fn emoji_values() {
    assert_eq!(AnnotationKind::Notice.emoji(), ":information_source:");
    assert_eq!(AnnotationKind::Warning.emoji(), ":warning:");
    assert_eq!(AnnotationKind::Error.emoji(), ":x:");
}

#[test]
fn kind_labels() {
    assert_eq!(AnnotationKind::Warning.label(), ":warning: Warning");
    assert_eq!(AnnotationKind::Error.label(), ":x: Error");
    assert_eq!(AnnotationKind::Notice.label(), ":information_source: Notice");
}

#[test]
fn kind_order() {
    assert!(AnnotationKind::Error.ge(&AnnotationKind::Warning));
    assert!(AnnotationKind::Warning.ge(&AnnotationKind::Warning));
    assert!(!AnnotationKind::Notice.ge(&AnnotationKind::Warning));
    assert_eq!(
        AnnotationKind::Notice.max(AnnotationKind::Warning),
        AnnotationKind::Warning
    );
    assert_eq!(AnnotationKind::Error.max(AnnotationKind::Notice), AnnotationKind::Error);
}

#[test]
fn primary_span_selection() {
    let message = CargoMessage::CompilerMessage(Diagnostic {
        message: String::from("m"),
        level: DiagnosticLevel::Error,
        spans: vec![
            span("b.rs", 1, 1, 1, 2, false),
            span("a.rs", 3, 4, 5, 6, true),
        ],
        rendered: None,
    });
    let a = Annotation::try_from(message).unwrap();
    assert_eq!(a.file, "a.rs");
    assert_eq!(a.line, 3);
    assert_eq!(a.end_line, Some(4));
    assert_eq!(a.col, Some(5));
    assert_eq!(a.end_column, Some(6));
}

#[test]
fn missing_primary_span() {
    let message = CargoMessage::CompilerMessage(Diagnostic {
        message: String::from("m"),
        level: DiagnosticLevel::Error,
        spans: vec![span("b.rs", 1, 1, 1, 2, false)],
        rendered: None,
    });
    assert!(matches!(Annotation::try_from(message), Err("Missing primary span")));
}

#[test]
fn rendered_text_becomes_message_and_title() {
    let message = CargoMessage::CompilerMessage(Diagnostic {
        message: String::from("short"),
        level: DiagnosticLevel::Warning,
        spans: vec![span("a.rs", 1, 1, 1, 2, true)],
        rendered: Some(String::from("long rendered text")),
    });
    let a = Annotation::try_from(message).unwrap();
    assert_eq!(a.title, Some(String::from("short")));
    assert_eq!(a.message, "long rendered text");

    let plain = unused_variable_message();
    let b = Annotation::try_from(plain).unwrap();
    assert_eq!(b.title, None);
    assert_eq!(b.message, "unused variable");
}

#[test]
fn render_canonical_line() {
    let a = Annotation::try_from(unused_variable_message()).unwrap();
    assert_eq!(
        a.render(),
        "::warning file=src/lib.rs,line=10,endLine=10,col=5,endColumn=8::unused variable"
    );
}

#[test]
fn render_with_title() {
    let message = CargoMessage::CompilerMessage(Diagnostic {
        message: String::from("title text"),
        level: DiagnosticLevel::Error,
        spans: vec![span("a.rs", 2, 3, 4, 5, true)],
        rendered: Some(String::from("body")),
    });
    let a = Annotation::try_from(message).unwrap();
    assert_eq!(
        a.render(),
        "::error file=a.rs,line=2,endLine=3,col=4,endColumn=5,title=title text::body"
    );
}

#[test]
fn render_determinism() {
    let a = Annotation::try_from(unused_variable_message()).unwrap();
    let first = a.render();
    let second = a.render();
    assert_eq!(first, second);
    assert_eq!(a.to_owned().render(), first);
}

#[test]
fn render_omits_absent_fields() {
    let a = simple_annotation(AnnotationKind::Notice, "x.rs", 7, "hello");
    assert_eq!(a.render(), "::notice file=x.rs,line=7::hello");
    let mut b = simple_annotation(AnnotationKind::Notice, "x.rs", 7, "hello");
    b.end_column = Some(9);
    // An end column without a column is not emitted.
    assert_eq!(b.render(), "::notice file=x.rs,line=7::hello");
}

#[test]
fn escaping_correctness() {
    // A trailing newline is trimmed away before escaping.
    let a = simple_annotation(AnnotationKind::Warning, "a.rs", 1, "50%\n");
    assert_eq!(a.render(), "::warning file=a.rs,line=1::50%25");
    // Interior control characters are encoded, `%` first, so the `%` that
    // `%0A` and `%0D` insert is never re-encoded.
    let b = simple_annotation(AnnotationKind::Warning, "a.rs", 1, "a 50%\n b\r!");
    assert_eq!(b.render(), "::warning file=a.rs,line=1::a 50%25%0A b%0D!");
}

#[test]
fn message_is_trimmed() {
    let a = simple_annotation(AnnotationKind::Error, "a.rs", 1, "  boom \t\n");
    assert_eq!(a.render(), "::error file=a.rs,line=1::boom");
}

#[test]
fn to_owned_is_structurally_equal() {
    let a = Annotation::try_from(unused_variable_message()).unwrap();
    let b = a.to_owned();
    assert!(a == b);
}
