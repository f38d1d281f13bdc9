use rquickjs_test::script::{path_segments, script_source, ScriptSource};

#[test]
fn dash_means_stdin() {
    assert_eq!(script_source("-"), ScriptSource::Stdin);
}

#[test]
fn at_prefix_names_a_file() {
    assert_eq!(
        script_source("@scripts/main.js"),
        ScriptSource::File("scripts/main.js".to_string())
    );
    assert_eq!(script_source("@"), ScriptSource::File(String::new()));
}

#[test]
fn other_arguments_are_script_text() {
    assert_eq!(
        script_source("print(1 + 1)"),
        ScriptSource::Literal("print(1 + 1)".to_string())
    );
    assert_eq!(script_source("--"), ScriptSource::Literal("--".to_string()));
    assert_eq!(script_source(""), ScriptSource::Literal(String::new()));
    assert_eq!(script_source("a@b"), ScriptSource::Literal("a@b".to_string()));
}

#[test]
fn dotted_path_splits_into_names() {
    assert_eq!(path_segments("app.handlers.run"), vec!["app", "handlers", "run"]);
    assert_eq!(path_segments("main"), vec!["main"]);
}

#[test]
fn empty_pieces_are_kept() {
    assert_eq!(path_segments(""), vec![""]);
    assert_eq!(path_segments("a..b"), vec!["a", "", "b"]);
    assert_eq!(path_segments(".x."), vec!["", "x", ""]);
}
