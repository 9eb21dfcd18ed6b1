use rojo_util::{
    emit_legacy_scripts_default, file_name_has_suffix, map_reserved_char, match_trailing,
    parent_or_error, sanitize_instance_name, trim_file_name_suffix, PathError, PathExt,
};

#[test]
fn test_sanitize_at_symbol() {
    assert_eq!(sanitize_instance_name("test@script"), "test|script");
    assert_eq!(sanitize_instance_name("@start"), "|start");
    assert_eq!(sanitize_instance_name("end@"), "end|");
    assert_eq!(sanitize_instance_name("multiple@at@symbols"), "multiple|at|symbols");
}

#[test]
fn test_sanitize_underscore() {
    assert_eq!(sanitize_instance_name("test_script"), "test:script");
    assert_eq!(sanitize_instance_name("_start"), ":start");
    assert_eq!(sanitize_instance_name("end_"), "end:");
    assert_eq!(sanitize_instance_name("multiple_under_scores"), "multiple:under:scores");
}

#[test]
fn test_sanitize_combined() {
    assert_eq!(sanitize_instance_name("test@script_name"), "test|script:name");
    assert_eq!(sanitize_instance_name("_@mixed"), ":|mixed");
}

#[test]
fn test_sanitize_no_change() {
    assert_eq!(sanitize_instance_name("normalscript"), "normalscript");
    assert_eq!(sanitize_instance_name("test|pipe"), "test|pipe");
    assert_eq!(sanitize_instance_name("test:colon"), "test:colon");
    assert_eq!(sanitize_instance_name(""), "");
}

#[test]
fn sanitize_keeps_length_and_other_characters() {
    let name = "caf\u{e9}@\u{1f600}_x";
    let out = sanitize_instance_name(name);
    assert_eq!(out, "caf\u{e9}|\u{1f600}:x");
    assert_eq!(out.chars().count(), name.chars().count());
}

#[test]
fn reserved_char_table() {
    assert_eq!(map_reserved_char('@'), '|');
    assert_eq!(map_reserved_char('_'), ':');
    assert_eq!(map_reserved_char('a'), 'a');
    assert_eq!(map_reserved_char('|'), '|');
}

#[test]
fn match_trailing_present() {
    assert_eq!(match_trailing("foo.model.json", ".model.json"), Some("foo"));
    assert_eq!(match_trailing("init.lua", "init.lua"), Some(""));
}

#[test]
fn match_trailing_absent() {
    assert_eq!(match_trailing("foo.lua", ".json"), None);
    assert_eq!(match_trailing("a", "ba"), None);
    assert_eq!(match_trailing("", "x"), None);
}

#[test]
fn match_trailing_empty_suffix() {
    assert_eq!(match_trailing("anything", ""), Some("anything"));
    assert_eq!(match_trailing("", ""), Some(""));
}

#[test]
fn match_trailing_multibyte() {
    assert_eq!(match_trailing("h\u{e9}llo\u{1f600}", "llo\u{1f600}"), Some("h\u{e9}"));
    // The last byte of "é" alone is not a suffix of the text.
    assert_eq!(match_trailing("caf\u{e9}", "\u{e9}"), Some("caf"));
    assert_eq!(match_trailing("\u{1f600}", "\u{1f601}"), None);
}

#[test]
fn trim_end_of_model_file() {
    let path = "src/foo.model.json";
    assert_eq!(path.file_name_trim_end(".model.json"), Ok("foo"));
    assert_eq!(
        path.file_name_trim_end(".txt"),
        Err(PathError::SuffixMismatch { path: path.to_string(), suffix: ".txt".to_string() })
    );
}

#[test]
fn trim_end_without_file_name() {
    assert_eq!(
        "/".file_name_trim_end(".lua"),
        Err(PathError::MissingFileName { path: "/".to_string() })
    );
    assert_eq!(
        "a/..".file_name_trim_end(".lua"),
        Err(PathError::MissingFileName { path: "a/..".to_string() })
    );
}

#[test]
fn file_name_suffix_queries() {
    assert!("dir/init.server.lua".file_name_ends_with(".server.lua"));
    assert!(!"dir.server.lua/init".file_name_ends_with(".server.lua"));
    assert!(!"/".file_name_ends_with(""));
    assert!("dir/x".file_name_ends_with(""));
}

#[test]
fn require_parent_cases() {
    assert_eq!("a/b".require_parent(), Ok("a"));
    assert_eq!("/a".require_parent(), Ok("/"));
    assert_eq!("a".require_parent(), Err(PathError::MissingParent { path: "a".to_string() }));
    assert_eq!("/".require_parent(), Err(PathError::MissingParent { path: "/".to_string() }));
    assert_eq!("".require_parent(), Err(PathError::MissingParent { path: "".to_string() }));
}

#[test]
fn name_level_functions() {
    assert!(file_name_has_suffix(Some("foo.lua"), ".lua"));
    assert!(!file_name_has_suffix(Some("foo.lua"), ".json"));
    assert!(!file_name_has_suffix(None, ""));
    assert_eq!(trim_file_name_suffix("p/foo.lua", Some("foo.lua"), ".lua"), Ok("foo"));
    assert_eq!(
        trim_file_name_suffix("p", None, ".lua"),
        Err(PathError::MissingFileName { path: "p".to_string() })
    );
    assert_eq!(parent_or_error("a/b", Some("a")), Ok("a"));
    assert_eq!(
        parent_or_error("a", Some("")),
        Err(PathError::MissingParent { path: "a".to_string() })
    );
}

#[test]
fn error_messages() {
    let e = PathError::SuffixMismatch { path: "a/b.txt".to_string(), suffix: ".lua".to_string() };
    assert_eq!(e.message(), "Path did not end in .lua: a/b.txt");
    let e = PathError::MissingFileName { path: "/".to_string() };
    assert_eq!(e.message(), "Path did not have a file name: /");
    let e = PathError::MissingParent { path: "a".to_string() };
    assert_eq!(e.message(), "Path did not have a parent: a");
}

#[test]
fn legacy_scripts_default_is_on() {
    assert_eq!(emit_legacy_scripts_default(), Some(true));
}
