use codespan_reporting::diagnostic::{Diagnostic, Label, LabelStyle, Severity};

const ALL: [Severity; 5] = [
    Severity::Help,
    Severity::Note,
    Severity::Warning,
    Severity::Error,
    Severity::Bug,
];

#[test]
fn severity_order_matches_ranking() {
    assert!(Severity::Bug > Severity::Error);
    assert!(Severity::Error > Severity::Warning);
    assert!(Severity::Warning > Severity::Note);
    assert!(Severity::Note > Severity::Help);
    for (i, a) in ALL.iter().enumerate() {
        for (j, b) in ALL.iter().enumerate() {
            assert_eq!(a < b, i < j);
            assert_eq!(a == b, i == j);
            assert_eq!(a.partial_cmp(b), i.partial_cmp(&j));
            assert_eq!(a.cmp(b), i.cmp(&j));
        }
        assert_eq!(a.level() as usize, i);
    }
}

#[test]
fn label_style_precedence() {
    assert!(LabelStyle::Primary.outranks(&LabelStyle::Secondary));
    assert!(!LabelStyle::Secondary.outranks(&LabelStyle::Primary));
    assert!(!LabelStyle::Primary.outranks(&LabelStyle::Primary));
    assert!(LabelStyle::Primary < LabelStyle::Secondary);
}

#[test]
fn position_prefers_primary_labels() {
    let d: Diagnostic<usize> = Diagnostic::error().with_labels(vec![
        Label::secondary(0, 1..2),
        Label::primary(0, 20..25),
        Label::secondary(0, 0..3),
        Label::primary(0, 12..14),
        Label::primary(0, 30..31),
    ]);
    assert_eq!(d.position(), Some(12));
}

#[test]
fn position_falls_back_to_secondary_labels() {
    let d: Diagnostic<usize> = Diagnostic::note().with_labels(vec![
        Label::secondary(0, 9..10),
        Label::secondary(0, 4..8),
        Label::secondary(0, 6..6),
    ]);
    assert_eq!(d.position(), Some(4));
}

#[test]
fn position_of_unlabelled_diagnostic_is_none() {
    let d: Diagnostic<usize> = Diagnostic::bug().with_message("internal");
    assert_eq!(d.position(), None);
}

#[test]
fn position_with_tied_primary_starts() {
    let d: Diagnostic<usize> = Diagnostic::error().with_labels(vec![
        Label::primary(1, 7..9).with_message("one"),
        Label::primary(2, 7..12).with_message("two"),
    ]);
    assert_eq!(d.position(), Some(7));
}

#[test]
fn adding_secondary_labels_keeps_position() {
    let d: Diagnostic<usize> = Diagnostic::error().with_labels(vec![Label::primary(0, 15..16)]);
    assert_eq!(d.position(), Some(15));
    let d = d.with_labels(vec![Label::secondary(0, 0..1)]);
    assert_eq!(d.position(), Some(15));
}

#[test]
fn diagnostic_message_is_replaced() {
    let d: Diagnostic<()> = Diagnostic::error().with_message("a").with_message("b");
    assert_eq!(d.message, "b");
}

#[test]
fn diagnostic_code_is_replaced() {
    let d: Diagnostic<()> = Diagnostic::error().with_code("E0001").with_code("E0308");
    assert_eq!(d.code, Some(String::from("E0308")));
}

#[test]
fn label_message_is_replaced() {
    let l = Label::primary_anon(0..1).with_message("first").with_message("second");
    assert_eq!(l.message, "second");
}

#[test]
fn labels_are_appended() {
    let a = Label::primary(1usize, 0..4);
    let b = Label::secondary(2usize, 5..9);
    let d = Diagnostic::error()
        .with_labels(vec![a.clone()])
        .with_labels(vec![b.clone()]);
    assert_eq!(d.labels, vec![a, b]);
}

#[test]
fn labels_iter_are_appended() {
    let a = Label::primary(1usize, 0..4);
    let b = Label::secondary(2usize, 5..9);
    let c = Label::secondary(3usize, 1..2);
    let d = Diagnostic::error()
        .with_labels_iter(vec![a.clone()])
        .with_labels_iter(vec![b.clone(), c.clone()]);
    assert_eq!(d.labels, vec![a, b, c]);
}

#[test]
fn notes_are_appended_in_order() {
    let d: Diagnostic<()> = Diagnostic::help()
        .with_notes(vec![String::from("first")])
        .with_notes_iter(vec![String::from("second"), String::from("third")])
        .with_notes(vec![String::from("fourth\nline")]);
    assert_eq!(d.notes, vec!["first", "second", "third", "fourth\nline"]);
}

#[test]
fn factories_set_severity_and_leave_fields_empty() {
    let cases: [(Diagnostic<()>, Severity); 5] = [
        (Diagnostic::bug(), Severity::Bug),
        (Diagnostic::error(), Severity::Error),
        (Diagnostic::warning(), Severity::Warning),
        (Diagnostic::note(), Severity::Note),
        (Diagnostic::help(), Severity::Help),
    ];
    for (d, s) in cases {
        assert_eq!(d.severity, s);
        assert_eq!(d.code, None);
        assert_eq!(d.message, "");
        assert!(d.labels.is_empty());
        assert!(d.notes.is_empty());
        assert_eq!(d, Diagnostic::new(s));
    }
}

#[test]
fn label_constructors() {
    let l = Label::new(LabelStyle::Secondary, 7u32, 3..1);
    assert_eq!(l.style, LabelStyle::Secondary);
    assert_eq!(l.file_id, 7);
    assert_eq!(l.range, 3..1);
    assert_eq!(l.message, "");
    assert_eq!(Label::secondary(7u32, 3..1), l);
    assert_eq!(Label::primary(7u32, 3..1).style, LabelStyle::Primary);
    let anon = Label::new_anon(LabelStyle::Primary, 2..5);
    assert_eq!(anon, Label::primary_anon(2..5));
    assert_eq!(Label::secondary_anon(2..5).style, LabelStyle::Secondary);
    assert_eq!(anon.file_id, ());
}

#[test]
fn anonymous_label_with_file_equals_named_label() {
    assert_eq!(Label::primary_anon(5..10).with_file(3usize), Label::primary(3usize, 5..10));
    assert_eq!(
        Label::secondary_anon(0..2).with_message("m").with_file("file.rs"),
        Label::secondary("file.rs", 0..2).with_message("m")
    );
}

#[test]
fn with_file_rebinds_every_label() {
    let d = Diagnostic::warning()
        .with_code("W1")
        .with_message("msg")
        .with_labels(vec![
            Label::primary_anon(1..2).with_message("p"),
            Label::secondary_anon(3..9).with_message("s"),
        ])
        .with_notes(vec![String::from("n")]);
    let r = d.clone().with_file(String::from("main.rs"));
    assert_eq!(r.severity, Severity::Warning);
    assert_eq!(r.code, Some(String::from("W1")));
    assert_eq!(r.message, "msg");
    assert_eq!(r.notes, vec!["n"]);
    assert_eq!(r.labels.len(), 2);
    for (new, old) in r.labels.iter().zip(d.labels.iter()) {
        assert_eq!(new.file_id, "main.rs");
        assert_eq!(new.style, old.style);
        assert_eq!(new.range, old.range);
        assert_eq!(new.message, old.message);
    }
}

#[test]
fn unused_variable_warning() {
    let d = Diagnostic::warning()
        .with_message("unused variable")
        .with_labels(vec![Label::primary("FileA", 10..14).with_message("`x` never read")])
        .with_notes(vec![String::from("consider removing it")]);
    assert_eq!(d.severity, Severity::Warning);
    assert_eq!(d.code, None);
    assert_eq!(d.message, "unused variable");
    assert_eq!(d.labels.len(), 1);
    assert_eq!(d.labels[0].style, LabelStyle::Primary);
    assert_eq!(d.labels[0].file_id, "FileA");
    assert_eq!(d.labels[0].range, 10..14);
    assert_eq!(d.labels[0].message, "`x` never read");
    assert_eq!(d.notes, vec!["consider removing it"]);
    assert_eq!(d.position(), Some(10));
}

#[test]
fn clones_are_equal() {
    let d = Diagnostic::error()
        .with_code("E1")
        .with_labels(vec![Label::primary(4u8, 1..3).with_message("here")])
        .with_notes(vec![String::from("note")]);
    assert_eq!(d.clone(), d);
}
