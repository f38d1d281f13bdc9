use rquickjs_test::input::{needs_more_input, LineBuffer};

#[test]
fn empty_input_is_complete() {
    assert!(!needs_more_input(""));
}

#[test]
fn open_brace_needs_more() {
    assert!(needs_more_input("function f() {"));
    assert!(needs_more_input("f(["));
}

#[test]
fn balanced_brackets_are_complete() {
    assert!(!needs_more_input("{ let a = [1, (2)]; }"));
}

#[test]
fn stray_closing_bracket_is_complete() {
    assert!(!needs_more_input("}"));
    assert!(!needs_more_input(")( {"));
}

#[test]
fn brackets_inside_strings_are_ignored() {
    assert!(!needs_more_input("print(\"{\")"));
    assert!(!needs_more_input("print('(')"));
    assert!(needs_more_input("f(\"}\""));
}

#[test]
fn escaped_quote_stays_inside_string() {
    assert!(!needs_more_input("'\\'{'"));
    assert!(!needs_more_input("('\\'')"));
    assert!(needs_more_input("( '\\' )"));
}

#[test]
fn open_string_keeps_depth() {
    assert!(needs_more_input("( '"));
    assert!(!needs_more_input("'("));
}

#[test]
fn line_buffer_collects_until_balanced() {
    let mut b = LineBuffer::new();
    assert!(b.is_empty());
    assert_eq!(b.prompt(), ">>> ");
    assert_eq!(b.push_line("function f() {".to_string()), None);
    assert!(!b.is_empty());
    assert_eq!(b.prompt(), "... ");
    assert_eq!(b.push_line("  return 1;".to_string()), None);
    assert_eq!(
        b.push_line("}".to_string()),
        Some("function f() {\n  return 1;\n}".to_string())
    );
    assert!(b.is_empty());
    assert_eq!(b.prompt(), ">>> ");
}

#[test]
fn line_buffer_single_line_entry() {
    let mut b = LineBuffer::new();
    assert_eq!(b.push_line("1 + 1".to_string()), Some("1 + 1".to_string()));
    assert_eq!(b.push_line(String::new()), Some(String::new()));
    assert!(b.is_empty());
}
