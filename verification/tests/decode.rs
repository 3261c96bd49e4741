use config_model::error::{DecodeError, FieldPath};
use config_model::model::{Configuration, Proxy};
use config_model::schema::{Kind, Schema, Scope, Section};
use config_model::value::{Entry, Value};

fn text(s: &str) -> Value {
    Value::Text(s.to_string())
}

fn entry(key: &str, value: Value) -> Entry {
    Entry { key: key.to_string(), value }
}

fn table(entries: Vec<(&str, Value)>) -> Value {
    Value::Table(entries.into_iter().map(|(k, v)| entry(k, v)).collect())
}

fn decode(document: &Value) -> Result<Configuration, DecodeError> {
    Configuration::deserialize(document, &Schema::new())
}

fn path(section: Option<Section>, index: Option<usize>, field: Option<&str>) -> FieldPath {
    FieldPath { section, index, field: field.map(|f| f.to_string()) }
}

#[test]
fn empty_document_gives_the_default_configuration() {
    let config = decode(&table(vec![])).unwrap();
    assert_eq!(config, Configuration::default());
    assert_eq!(config.core.dist, None);
    assert!(config.proxies.0.is_empty());
    assert!(config.hooks.0.is_empty());
}

#[test]
fn core_field_at_the_root_is_kept() {
    let config = decode(&table(vec![("dist", text("out"))])).unwrap();
    assert_eq!(config.core.dist, Some("out".to_string()));
    assert!(config.core.settings.is_empty());
}

#[test]
fn core_field_between_sections_is_kept() {
    let document = table(vec![
        ("serve", table(vec![("proxy_ws", Value::Bool(true))])),
        ("dist", text("public")),
        ("clean", table(vec![])),
    ]);
    let config = decode(&document).unwrap();
    assert_eq!(config.core.dist, Some("public".to_string()));
    assert_eq!(config.serve.proxy_ws, Some(true));
}

#[test]
fn unknown_root_key_is_refused_by_name() {
    let error = decode(&table(vec![("bogus", Value::Integer(1))])).unwrap_err();
    assert_eq!(error, DecodeError::UnknownField { path: path(None, None, Some("bogus")) });
    assert_eq!(error.message(), "unknown field `bogus`");
}

#[test]
fn unknown_root_key_after_valid_keys_is_refused() {
    let document = table(vec![
        ("dist", text("out")),
        ("build", table(vec![])),
        ("bogus", Value::Bool(false)),
    ]);
    let error = decode(&document).unwrap_err();
    assert_eq!(error, DecodeError::UnknownField { path: path(None, None, Some("bogus")) });
}

#[test]
fn first_unknown_root_key_is_the_one_named() {
    let document = table(vec![("alpha", Value::Integer(1)), ("beta", Value::Integer(2))]);
    let error = decode(&document).unwrap_err();
    assert_eq!(error, DecodeError::UnknownField { path: path(None, None, Some("alpha")) });
}

#[test]
fn faulty_section_is_reported_before_an_unknown_root_key() {
    let document = table(vec![("bogus", Value::Integer(1)), ("build", Value::Integer(3))]);
    let error = decode(&document).unwrap_err();
    assert_eq!(
        error,
        DecodeError::FieldType {
            path: path(Some(Section::Build), None, None),
            expected: Kind::Table,
            found: Kind::Integer,
        }
    );
    assert_eq!(error.message(), "invalid type at `build`: expected table, found integer");
}

#[test]
fn unknown_key_in_a_section_is_refused_with_its_path() {
    let document = table(vec![("serve", table(vec![("port", Value::Integer(8080))]))]);
    let error = decode(&document).unwrap_err();
    assert_eq!(
        error,
        DecodeError::UnknownField { path: path(Some(Section::Serve), None, Some("port")) }
    );
    assert_eq!(error.message(), "unknown field `serve.port`");
}

#[test]
fn unknown_key_in_every_table_section_is_refused() {
    for name in ["build", "tools", "watch", "serve", "clean"] {
        let document = table(vec![(name, table(vec![("nonsense", Value::Bool(true))]))]);
        let error = decode(&document).unwrap_err();
        assert_eq!(error.message(), format!("unknown field `{}.nonsense`", name));
    }
}

#[test]
fn wrong_kind_is_refused_with_expected_and_found() {
    let document = table(vec![("serve", table(vec![("proxy_ws", text("yes"))]))]);
    let error = decode(&document).unwrap_err();
    assert_eq!(
        error,
        DecodeError::FieldType {
            path: path(Some(Section::Serve), None, Some("proxy_ws")),
            expected: Kind::Bool,
            found: Kind::Text,
        }
    );
    assert_eq!(
        error.message(),
        "invalid type at `serve.proxy_ws`: expected boolean, found string"
    );
}

#[test]
fn wrong_kind_of_a_core_field_is_refused() {
    let error = decode(&table(vec![("dist", Value::List(vec![]))])).unwrap_err();
    assert_eq!(
        error,
        DecodeError::FieldType {
            path: path(None, None, Some("dist")),
            expected: Kind::Text,
            found: Kind::List,
        }
    );
    assert_eq!(error.message(), "invalid type at `dist`: expected string, found list");
}

#[test]
fn document_that_is_no_table_is_refused() {
    let error = decode(&text("dist")).unwrap_err();
    assert_eq!(
        error,
        DecodeError::FieldType {
            path: path(None, None, None),
            expected: Kind::Table,
            found: Kind::Text,
        }
    );
    assert_eq!(error.message(), "invalid type at ``: expected table, found string");
}

#[test]
fn list_section_that_is_a_table_is_refused() {
    let error = decode(&table(vec![("proxies", table(vec![]))])).unwrap_err();
    assert_eq!(
        error,
        DecodeError::FieldType {
            path: path(Some(Section::Proxies), None, None),
            expected: Kind::List,
            found: Kind::Table,
        }
    );
    let error = decode(&table(vec![("hooks", Value::Bool(true))])).unwrap_err();
    assert_eq!(error.message(), "invalid type at `hooks`: expected list, found boolean");
}

#[test]
fn duplicate_root_key_is_refused() {
    let document = table(vec![("dist", text("a")), ("dist", text("b"))]);
    let error = decode(&document).unwrap_err();
    assert_eq!(error, DecodeError::DuplicateKey { path: path(None, None, Some("dist")) });
    assert_eq!(error.message(), "duplicate key `dist`");
}

#[test]
fn duplicate_section_is_refused() {
    let document = table(vec![("build", table(vec![])), ("build", table(vec![]))]);
    let error = decode(&document).unwrap_err();
    assert_eq!(error, DecodeError::DuplicateKey { path: path(Some(Section::Build), None, None) });
    assert_eq!(error.message(), "duplicate key `build`");
}

#[test]
fn both_spellings_of_proxies_together_are_a_duplicate() {
    let document = table(vec![("proxies", Value::List(vec![])), ("proxy", Value::List(vec![]))]);
    let error = decode(&document).unwrap_err();
    assert_eq!(
        error,
        DecodeError::DuplicateKey { path: path(Some(Section::Proxies), None, None) }
    );
}

#[test]
fn duplicate_key_in_a_section_is_refused() {
    let document = table(vec![(
        "clean",
        table(vec![("dist", text("a")), ("dist", text("b"))]),
    )]);
    let error = decode(&document).unwrap_err();
    assert_eq!(
        error,
        DecodeError::DuplicateKey { path: path(Some(Section::Clean), None, Some("dist")) }
    );
    assert_eq!(error.message(), "duplicate key `clean.dist`");
}

#[test]
fn legacy_fields_are_decoded_and_not_yet_migrated() {
    let document = table(vec![
        ("clean", table(vec![("dist", text("out"))])),
        (
            "serve",
            table(vec![
                ("proxy_backend", text("http://x")),
                ("proxy_rewrite", text("/api")),
                ("proxy_ws", Value::Bool(true)),
                ("proxy_insecure", Value::Bool(false)),
                ("proxy_no_system_proxy", Value::Bool(true)),
            ]),
        ),
    ]);
    let config = decode(&document).unwrap();
    assert_eq!(config.clean.dist, Some("out".to_string()));
    assert_eq!(config.core.dist, None);
    assert_eq!(config.serve.proxy_backend, Some("http://x".to_string()));
    assert_eq!(config.serve.proxy_rewrite, Some("/api".to_string()));
    assert_eq!(config.serve.proxy_ws, Some(true));
    assert_eq!(config.serve.proxy_insecure, Some(false));
    assert_eq!(config.serve.proxy_no_system_proxy, Some(true));
    assert!(config.proxies.0.is_empty());
}

#[test]
fn proxies_are_decoded_in_order() {
    let document = table(vec![(
        "proxies",
        Value::List(vec![
            table(vec![("backend", text("http://a")), ("ws", Value::Bool(true))]),
            table(vec![
                ("rewrite", text("/b")),
                ("backend", text("http://b")),
                ("insecure", Value::Bool(true)),
                ("no_system_proxy", Value::Bool(true)),
            ]),
        ]),
    )]);
    let config = decode(&document).unwrap();
    assert_eq!(
        config.proxies.0,
        vec![
            Proxy {
                backend: "http://a".to_string(),
                rewrite: None,
                ws: true,
                insecure: false,
                no_system_proxy: false,
                settings: vec![],
            },
            Proxy {
                backend: "http://b".to_string(),
                rewrite: Some("/b".to_string()),
                ws: false,
                insecure: true,
                no_system_proxy: true,
                settings: vec![],
            },
        ]
    );
}

#[test]
fn proxy_without_backend_is_refused() {
    let document = table(vec![(
        "proxies",
        Value::List(vec![
            table(vec![("backend", text("http://a"))]),
            table(vec![("ws", Value::Bool(true))]),
        ]),
    )]);
    let error = decode(&document).unwrap_err();
    assert_eq!(
        error,
        DecodeError::MissingField { path: path(Some(Section::Proxies), Some(1), Some("backend")) }
    );
    assert_eq!(error.message(), "missing field `proxies.1.backend`");
}

#[test]
fn proxy_that_is_no_table_is_refused() {
    let document = table(vec![("proxies", Value::List(vec![text("http://a")]))]);
    let error = decode(&document).unwrap_err();
    assert_eq!(
        error,
        DecodeError::FieldType {
            path: path(Some(Section::Proxies), Some(0), None),
            expected: Kind::Table,
            found: Kind::Text,
        }
    );
    assert_eq!(error.message(), "invalid type at `proxies.0`: expected table, found string");
}

#[test]
fn unknown_key_in_a_proxy_is_refused() {
    let document = table(vec![(
        "proxies",
        Value::List(vec![table(vec![("backend", text("http://a")), ("speed", Value::Integer(3))])]),
    )]);
    let error = decode(&document).unwrap_err();
    assert_eq!(error.message(), "unknown field `proxies.0.speed`");
}

#[test]
fn proxy_is_an_alias_of_proxies() {
    let entries = Value::List(vec![table(vec![
        ("backend", text("http://a")),
        ("rewrite", text("/x")),
    ])]);
    let with_alias = table(vec![("dist", text("d")), ("proxy", entries.clone())]);
    let with_name = table(vec![("dist", text("d")), ("proxies", entries)]);
    let left = decode(&with_alias).unwrap();
    let right = decode(&with_name).unwrap();
    assert_eq!(left, right);
    assert_eq!(left.proxies.0.len(), 1);
    assert_eq!(left.proxies.0[0].backend, "http://a");
}

#[test]
fn alias_and_name_are_refused_alike() {
    let entries = Value::List(vec![table(vec![("ws", Value::Bool(true))])]);
    let left = decode(&table(vec![("proxy", entries.clone())])).unwrap_err();
    let right = decode(&table(vec![("proxies", entries)])).unwrap_err();
    assert_eq!(left, right);
    assert_eq!(left.message(), "missing field `proxies.0.backend`");
}

#[test]
fn sections_only_leave_the_core_at_its_default() {
    let document = table(vec![
        ("build", table(vec![])),
        ("tools", table(vec![])),
        ("hooks", Value::List(vec![])),
        ("watch", table(vec![])),
        ("serve", table(vec![("proxy_backend", text("http://x"))])),
        ("clean", table(vec![("dist", text("out"))])),
        ("proxies", Value::List(vec![table(vec![("backend", text("http://y"))])])),
    ]);
    let config = decode(&document).unwrap();
    assert_eq!(config.core, Configuration::default().core);
    assert_eq!(config.serve.proxy_backend, Some("http://x".to_string()));
    assert_eq!(config.clean.dist, Some("out".to_string()));
    assert_eq!(config.proxies.0.len(), 1);
    assert_eq!(config.proxies.0[0].backend, "http://y");
    assert_eq!(config.build, Configuration::default().build);
}

#[test]
fn further_fields_of_the_schema_are_accepted_and_kept() {
    let schema = Schema::new()
        .with_field(Scope::Serve, "port".to_string(), Kind::Integer)
        .with_field(Scope::Build, "target".to_string(), Kind::Text)
        .with_field(Scope::Watch, "ignore".to_string(), Kind::List)
        .with_field(Scope::Core, "minimum-version".to_string(), Kind::Text)
        .with_field(Scope::Hook, "command".to_string(), Kind::Text)
        .with_field(Scope::Proxy, "no_redirect".to_string(), Kind::Bool);
    let document = table(vec![
        ("minimum-version", text("^0.20")),
        ("dist", text("out")),
        (
            "serve",
            table(vec![("port", Value::Integer(8080)), ("proxy_ws", Value::Bool(true))]),
        ),
        ("build", table(vec![("target", text("index.html"))])),
        ("watch", table(vec![("ignore", Value::List(vec![text("dist"), text("target")]))])),
        ("hooks", Value::List(vec![table(vec![("command", text("ls"))])])),
        (
            "proxies",
            Value::List(vec![table(vec![
                ("backend", text("http://a")),
                ("no_redirect", Value::Bool(true)),
            ])]),
        ),
    ]);
    let config = Configuration::deserialize(&document, &schema).unwrap();
    assert_eq!(config.core.dist, Some("out".to_string()));
    assert_eq!(config.core.settings, vec![entry("minimum-version", text("^0.20"))]);
    assert_eq!(config.serve.settings, vec![entry("port", Value::Integer(8080))]);
    assert_eq!(config.serve.proxy_ws, Some(true));
    assert_eq!(config.build.settings, vec![entry("target", text("index.html"))]);
    assert_eq!(
        config.watch.settings,
        vec![entry("ignore", Value::List(vec![text("dist"), text("target")]))]
    );
    assert_eq!(config.hooks.0.len(), 1);
    assert_eq!(config.hooks.0[0].settings, vec![entry("command", text("ls"))]);
    assert_eq!(config.proxies.0[0].settings, vec![entry("no_redirect", Value::Bool(true))]);
}

#[test]
fn further_field_of_the_wrong_kind_is_refused() {
    let schema = Schema::new().with_field(Scope::Serve, "port".to_string(), Kind::Integer);
    let document = table(vec![("serve", table(vec![("port", text("8080"))]))]);
    let error = Configuration::deserialize(&document, &schema).unwrap_err();
    assert_eq!(error.message(), "invalid type at `serve.port`: expected integer, found string");
}

#[test]
fn a_row_cannot_change_the_kind_of_a_known_field() {
    let schema = Schema::new().with_field(Scope::Core, "dist".to_string(), Kind::Integer);
    let config = Configuration::deserialize(&table(vec![("dist", text("out"))]), &schema).unwrap();
    assert_eq!(config.core.dist, Some("out".to_string()));
    let error =
        Configuration::deserialize(&table(vec![("dist", Value::Integer(1))]), &schema).unwrap_err();
    assert_eq!(error.message(), "invalid type at `dist`: expected string, found integer");
}

#[test]
fn a_row_of_one_scope_does_not_open_another() {
    let schema = Schema::new().with_field(Scope::Serve, "port".to_string(), Kind::Integer);
    let error = Configuration::deserialize(
        &table(vec![("build", table(vec![("port", Value::Integer(1))]))]),
        &schema,
    )
    .unwrap_err();
    assert_eq!(error.message(), "unknown field `build.port`");
    let error =
        Configuration::deserialize(&table(vec![("port", Value::Integer(1))]), &schema).unwrap_err();
    assert_eq!(error.message(), "unknown field `port`");
}

#[test]
fn first_fault_in_document_order_decides() {
    let document = table(vec![
        ("serve", table(vec![("proxy_ws", text("no")), ("bogus", Value::Bool(true))])),
        ("clean", Value::Integer(0)),
    ]);
    let error = decode(&document).unwrap_err();
    assert_eq!(
        error.message(),
        "invalid type at `serve.proxy_ws`: expected boolean, found string"
    );
}

#[test]
fn decoding_leaves_the_document_as_it_was() {
    let document = table(vec![("dist", text("out")), ("serve", table(vec![]))]);
    let copy = document.clone();
    decode(&document).unwrap();
    assert_eq!(document, copy);
}

#[test]
fn repeated_key_deep_inside_a_kept_value_is_refused() {
    let schema = Schema::new().with_field(Scope::Build, "options".to_string(), Kind::Table);
    let nested = table(vec![(
        "inner",
        Value::List(vec![table(vec![("twice", Value::Integer(1)), ("twice", Value::Integer(2))])]),
    )]);
    let document = table(vec![("build", table(vec![("options", nested)]))]);
    let error = Configuration::deserialize(&document, &schema).unwrap_err();
    assert_eq!(
        error,
        DecodeError::DuplicateKey { path: path(Some(Section::Build), None, Some("options")) }
    );
    assert_eq!(error.message(), "duplicate key `build.options`");
}

#[test]
fn equal_keys_in_different_tables_are_no_repeat() {
    let schema = Schema::new().with_field(Scope::Core, "extra".to_string(), Kind::List);
    let document = table(vec![
        ("dist", text("a")),
        ("clean", table(vec![("dist", text("b"))])),
        (
            "extra",
            Value::List(vec![table(vec![("dist", text("c"))]), table(vec![("dist", text("d"))])]),
        ),
    ]);
    let config = Configuration::deserialize(&document, &schema).unwrap();
    assert_eq!(config.core.dist, Some("a".to_string()));
    assert_eq!(config.clean.dist, Some("b".to_string()));
    assert_eq!(config.core.settings.len(), 1);
}

#[test]
fn trees_tell_whether_a_key_stands_twice() {
    assert!(!text("x").has_repeat());
    assert!(!Value::List(vec![]).has_repeat());
    assert!(!table(vec![("a", text("x")), ("b", text("x"))]).has_repeat());
    assert!(table(vec![("a", text("x")), ("b", text("y")), ("a", text("z"))]).has_repeat());
    assert!(Value::List(vec![
        text("x"),
        table(vec![("k", table(vec![("a", Value::Bool(true)), ("a", Value::Bool(true))]))]),
    ])
    .has_repeat());
    assert!(!Value::List(vec![table(vec![("a", text("x"))]), table(vec![("a", text("x"))])])
        .has_repeat());
}
