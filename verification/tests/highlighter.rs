use input_mode::highlighter::{Edit, SyntaxHighlighter};
use input_mode::input::mode::{InputMode, TabSize};
use input_mode::length::DefiniteLength;
use std::rc::Rc;

fn editor(language: &str) -> InputMode {
    InputMode::CodeEditor {
        tab: TabSize::default(),
        rows: 2,
        height: None,
        line_number: true,
        language: String::from(language),
        highlighter: None,
        markers: Rc::new(Vec::new()),
    }
}

fn highlighter_of(mode: &InputMode) -> Option<&SyntaxHighlighter> {
    match mode {
        InputMode::CodeEditor { highlighter, .. } => highlighter.as_ref(),
        _ => None,
    }
}

fn edit(range: std::ops::Range<usize>, new_text: &str) -> Edit {
    Edit {
        range,
        new_text: String::from(new_text),
    }
}

#[test]
fn new_highlighter_has_seen_nothing() {
    let h = SyntaxHighlighter::new("rust");
    assert_eq!(h.language(), "rust");
    assert_eq!(h.text(), "");
    assert!(h.edits().is_empty());
}

#[test]
fn highlighter_keeps_every_change_in_order() {
    let mut h = SyntaxHighlighter::new("rust");
    h.update(&(0..0), String::from("fn"), "fn");
    h.update(&(2..2), String::from("fn main"), " main");
    h.update(&(0..2), String::from("pub fn main"), "pub fn");
    assert_eq!(h.language(), "rust");
    assert_eq!(h.text(), "pub fn main");
    assert_eq!(
        h.edits(),
        &vec![edit(0..0, "fn"), edit(2..2, " main"), edit(0..2, "pub fn")]
    );
}

#[test]
fn clone_of_a_highlighter_goes_its_own_way() {
    let mut h = SyntaxHighlighter::new("go");
    h.update(&(0..0), String::from("a"), "a");
    let mut copy = h.clone();
    assert_eq!(copy.language(), "go");
    assert_eq!(copy.text(), "a");
    assert_eq!(copy.edits(), h.edits());
    copy.update(&(1..1), String::from("ab"), "b");
    assert_eq!(copy.edits().len(), 2);
    assert_eq!(h.edits().len(), 1);
    assert_eq!(h.text(), "a");
}

#[test]
fn update_highlighter_does_nothing_outside_a_code_editor() {
    let mut single = InputMode::SingleLine;
    single.update_highlighter(&(0..0), String::from("a"), "a");
    assert!(matches!(single, InputMode::SingleLine));

    let mut lines = InputMode::MultiLine {
        tab: TabSize {
            tab_size: 4,
            hard_tabs: true,
        },
        rows: 3,
        height: Some(DefiniteLength::Pixels(80f32.to_bits())),
    };
    lines.update_highlighter(&(0..0), String::from("a"), "a");
    match &lines {
        InputMode::MultiLine { tab, rows, height } => {
            assert_eq!(tab.tab_size, 4);
            assert!(tab.hard_tabs);
            assert_eq!(*rows, 3);
            assert_eq!(*height, Some(DefiniteLength::Pixels(80f32.to_bits())));
        }
        _ => panic!("the mode changed"),
    }

    let mut grow = InputMode::AutoGrow {
        rows: 2,
        min_rows: 1,
        max_rows: 4,
    };
    grow.update_highlighter(&(0..0), String::from("a"), "a");
    match &grow {
        InputMode::AutoGrow {
            rows,
            min_rows,
            max_rows,
        } => {
            assert_eq!((*rows, *min_rows, *max_rows), (2, 1, 4));
        }
        _ => panic!("the mode changed"),
    }
    assert!(highlighter_of(&single).is_none());
    assert!(highlighter_of(&lines).is_none());
    assert!(highlighter_of(&grow).is_none());
}

#[test]
fn code_editor_has_no_highlighter_before_the_first_change() {
    let mode = editor("rust");
    assert!(highlighter_of(&mode).is_none());
}

#[test]
fn update_highlighter_makes_the_highlighter_once() {
    let mut mode = editor("rust");
    mode.update_highlighter(&(0..0), String::from("let"), "let");
    {
        let h = highlighter_of(&mode).unwrap();
        assert_eq!(h.language(), "rust");
        assert_eq!(h.text(), "let");
        assert_eq!(h.edits(), &vec![edit(0..0, "let")]);
    }
    mode.update_highlighter(&(3..3), String::from("let x"), " x");
    let h = highlighter_of(&mode).unwrap();
    assert_eq!(h.language(), "rust");
    assert_eq!(h.text(), "let x");
    assert_eq!(h.edits(), &vec![edit(0..0, "let"), edit(3..3, " x")]);
}

#[test]
fn update_highlighter_leaves_the_rest_of_a_code_editor() {
    let mut mode = InputMode::CodeEditor {
        tab: TabSize {
            tab_size: 8,
            hard_tabs: false,
        },
        rows: 6,
        height: Some(DefiniteLength::Rems(3f32.to_bits())),
        line_number: true,
        language: String::from("toml"),
        highlighter: None,
        markers: Rc::new(vec![input_mode::input::marker::Marker {
            range: Some(1..3),
            message: String::from("note"),
        }]),
    };
    mode.update_highlighter(&(0..1), String::from("b"), "b");
    assert_eq!(mode.rows(), 6);
    assert_eq!(mode.height(), Some(DefiniteLength::Rems(3f32.to_bits())));
    assert!(mode.line_number());
    assert_eq!(mode.tab_size().unwrap().tab_size, 8);
    assert_eq!(mode.markers().unwrap().len(), 1);
    assert_eq!(mode.marker_for_offset(2).unwrap().message, "note");
    match &mode {
        InputMode::CodeEditor { language, .. } => assert_eq!(language, "toml"),
        _ => panic!("the mode changed"),
    }
}

#[test]
fn a_new_code_editor_gets_a_highlighter_of_its_own() {
    let mut mode = editor("rust");
    mode.update_highlighter(&(0..0), String::from("a"), "a");
    mode.update_highlighter(&(1..1), String::from("ab"), "b");
    assert_eq!(highlighter_of(&mode).unwrap().edits().len(), 2);

    mode = InputMode::MultiLine {
        tab: TabSize::default(),
        rows: 2,
        height: None,
    };
    mode.update_highlighter(&(2..2), String::from("abc"), "c");
    assert!(highlighter_of(&mode).is_none());

    mode = editor("python");
    assert!(highlighter_of(&mode).is_none());
    mode.update_highlighter(&(3..3), String::from("abcd"), "d");
    let h = highlighter_of(&mode).unwrap();
    assert_eq!(h.language(), "python");
    assert_eq!(h.text(), "abcd");
    assert_eq!(h.edits(), &vec![edit(3..3, "d")]);
}

#[test]
fn clone_of_a_code_editor_has_a_highlighter_of_its_own() {
    let mut mode = editor("rust");
    mode.update_highlighter(&(0..0), String::from("a"), "a");
    let mut copy = mode.clone();
    assert_eq!(highlighter_of(&copy).unwrap().edits(), &vec![edit(0..0, "a")]);
    assert_eq!(highlighter_of(&copy).unwrap().language(), "rust");
    copy.update_highlighter(&(1..1), String::from("ab"), "b");
    assert_eq!(highlighter_of(&copy).unwrap().edits().len(), 2);
    assert_eq!(highlighter_of(&mode).unwrap().edits().len(), 1);
    assert_eq!(copy.rows(), mode.rows());
}

#[test]
fn clone_of_an_edit_is_equal_to_it() {
    let one = edit(4..9, "text");
    assert_eq!(one.clone(), one);
}
