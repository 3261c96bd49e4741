use config_model::error::{DecodeError, FieldPath};
use config_model::locate::{plan, PathResolutionError, Plan, Target};
use config_model::schema::{Kind, Section};

#[test]
fn paths_are_written_with_dots() {
    assert_eq!(FieldPath::root().dotted(), "");
    assert_eq!(FieldPath::of_key(&"dist".to_string()).dotted(), "dist");
    assert_eq!(FieldPath::of_section(Section::Serve).dotted(), "serve");
    assert_eq!(FieldPath::of_element(Section::Proxies, 0).dotted(), "proxies.0");
    assert_eq!(FieldPath::of_element(Section::Hooks, 12).dotted(), "hooks.12");
    assert_eq!(
        FieldPath::of_section(Section::Clean).field(&"dist".to_string()).dotted(),
        "clean.dist"
    );
    assert_eq!(
        FieldPath::of_element(Section::Proxies, 120).field(&"ws".to_string()).dotted(),
        "proxies.120.ws"
    );
    let odd = FieldPath { section: None, index: Some(3), field: Some("x".to_string()) };
    assert_eq!(odd.dotted(), "3.x");
}

#[test]
fn field_replaces_the_last_part_of_a_path() {
    let path = FieldPath::of_section(Section::Serve).field(&"a".to_string());
    assert_eq!(path.field(&"b".to_string()).dotted(), "serve.b");
}

#[test]
fn every_error_knows_its_path_and_says_it() {
    let path = FieldPath::of_element(Section::Proxies, 2).field(&"ws".to_string());
    let unknown = DecodeError::UnknownField { path: path.clone() };
    let kind = DecodeError::FieldType { path: path.clone(), expected: Kind::Bool, found: Kind::Integer };
    let twice = DecodeError::DuplicateKey { path: path.clone() };
    let missing = DecodeError::MissingField { path: path.clone() };
    assert_eq!(unknown.path(), &path);
    assert_eq!(kind.path(), &path);
    assert_eq!(twice.path(), &path);
    assert_eq!(missing.path(), &path);
    assert_eq!(unknown.message(), "unknown field `proxies.2.ws`");
    assert_eq!(kind.message(), "invalid type at `proxies.2.ws`: expected boolean, found integer");
    assert_eq!(twice.message(), "duplicate key `proxies.2.ws`");
    assert_eq!(missing.message(), "missing field `proxies.2.ws`");
}

#[test]
fn kinds_have_their_words() {
    assert_eq!(Kind::Bool.word(), "boolean");
    assert_eq!(Kind::Integer.word(), "integer");
    assert_eq!(Kind::Text.word(), "string");
    assert_eq!(Kind::List.word(), "list");
    assert_eq!(Kind::Table.word(), "table");
}

#[test]
fn a_file_is_read_and_a_directory_is_searched() {
    assert_eq!(plan(Some(Target::File { has_parent: true })), Ok(Plan::ReadFile));
    assert_eq!(plan(Some(Target::Directory)), Ok(Plan::SearchGiven));
    assert_eq!(plan(None), Ok(Plan::SearchCurrent));
}

#[test]
fn what_is_neither_file_nor_directory_is_refused() {
    assert_eq!(plan(Some(Target::Other)), Err(PathResolutionError::NeitherFileNorDirectory));
    assert_eq!(plan(Some(Target::File { has_parent: false })), Err(PathResolutionError::NoParent));
}

#[test]
fn path_errors_name_the_path() {
    assert_eq!(
        PathResolutionError::NeitherFileNorDirectory.message("/dev/null"),
        "/dev/null is neither a file nor a directory"
    );
    assert_eq!(
        PathResolutionError::NoParent.message("/"),
        "unable to get parent directory of '/'"
    );
    assert_eq!(
        PathResolutionError::NotFound.message("site"),
        "unable to find a configuration file in 'site'"
    );
}
