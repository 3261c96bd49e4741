use config_model::schema::{known_kind_of, Field, Kind, Schema, Scope, Section};
use config_model::text::{append_decimal, spells};

fn field(name: &str, kind: Kind) -> Field {
    Field { name: name.to_string(), kind }
}

#[test]
fn root_keys_name_their_sections() {
    let cases = [
        ("build", Some(Section::Build)),
        ("tools", Some(Section::Tools)),
        ("hooks", Some(Section::Hooks)),
        ("watch", Some(Section::Watch)),
        ("serve", Some(Section::Serve)),
        ("clean", Some(Section::Clean)),
        ("proxies", Some(Section::Proxies)),
        ("proxy", Some(Section::Proxies)),
        ("dist", None),
        ("Build", None),
        ("", None),
        ("proxie", None),
    ];
    for (key, section) in cases {
        assert_eq!(Section::from_key(&key.to_string()), section, "{}", key);
    }
}

#[test]
fn sections_are_published_under_their_names() {
    assert_eq!(Section::Build.key(), "build");
    assert_eq!(Section::Tools.key(), "tools");
    assert_eq!(Section::Hooks.key(), "hooks");
    assert_eq!(Section::Watch.key(), "watch");
    assert_eq!(Section::Serve.key(), "serve");
    assert_eq!(Section::Clean.key(), "clean");
    assert_eq!(Section::Proxies.key(), "proxies");
    assert_eq!(Section::Hooks.kind_of(), Kind::List);
    assert_eq!(Section::Proxies.kind_of(), Kind::List);
    assert_eq!(Section::Serve.kind_of(), Kind::Table);
    assert_eq!(Section::Build.field(), field("build", Kind::Table));
}

#[test]
fn every_published_name_names_its_section() {
    for section in [
        Section::Build,
        Section::Tools,
        Section::Hooks,
        Section::Watch,
        Section::Serve,
        Section::Clean,
        Section::Proxies,
    ] {
        assert_eq!(Section::from_key(&section.key()), Some(section));
    }
}

#[test]
fn known_fields_have_their_kinds() {
    let key = |s: &str| s.to_string();
    assert_eq!(known_kind_of(Scope::Core, &key("dist")), Some(Kind::Text));
    assert_eq!(known_kind_of(Scope::Clean, &key("dist")), Some(Kind::Text));
    assert_eq!(known_kind_of(Scope::Build, &key("dist")), None);
    assert_eq!(known_kind_of(Scope::Serve, &key("proxy_backend")), Some(Kind::Text));
    assert_eq!(known_kind_of(Scope::Serve, &key("proxy_rewrite")), Some(Kind::Text));
    assert_eq!(known_kind_of(Scope::Serve, &key("proxy_ws")), Some(Kind::Bool));
    assert_eq!(known_kind_of(Scope::Serve, &key("proxy_insecure")), Some(Kind::Bool));
    assert_eq!(known_kind_of(Scope::Serve, &key("proxy_no_system_proxy")), Some(Kind::Bool));
    assert_eq!(known_kind_of(Scope::Serve, &key("backend")), None);
    assert_eq!(known_kind_of(Scope::Proxy, &key("backend")), Some(Kind::Text));
    assert_eq!(known_kind_of(Scope::Proxy, &key("rewrite")), Some(Kind::Text));
    assert_eq!(known_kind_of(Scope::Proxy, &key("ws")), Some(Kind::Bool));
    assert_eq!(known_kind_of(Scope::Proxy, &key("insecure")), Some(Kind::Bool));
    assert_eq!(known_kind_of(Scope::Proxy, &key("no_system_proxy")), Some(Kind::Bool));
    assert_eq!(known_kind_of(Scope::Proxy, &key("proxy_ws")), None);
    assert_eq!(known_kind_of(Scope::Hook, &key("ws")), None);
    assert_eq!(known_kind_of(Scope::Tools, &key("dist")), None);
    assert_eq!(known_kind_of(Scope::Watch, &key("dist")), None);
}

#[test]
fn schema_asks_the_kind_of_the_first_matching_row() {
    let schema = Schema::new()
        .with_field(Scope::Serve, "port".to_string(), Kind::Integer)
        .with_field(Scope::Build, "port".to_string(), Kind::Text)
        .with_field(Scope::Serve, "port".to_string(), Kind::Bool)
        .with_field(Scope::Serve, "proxy_ws".to_string(), Kind::Text);
    assert_eq!(schema.kind_of(Scope::Serve, &"port".to_string()), Some(Kind::Integer));
    assert_eq!(schema.kind_of(Scope::Build, &"port".to_string()), Some(Kind::Text));
    assert_eq!(schema.kind_of(Scope::Watch, &"port".to_string()), None);
    assert_eq!(schema.kind_of(Scope::Serve, &"proxy_ws".to_string()), Some(Kind::Bool));
    assert_eq!(schema.kind_of(Scope::Serve, &"other".to_string()), None);
    assert_eq!(Schema::new().kind_of(Scope::Serve, &"port".to_string()), None);
    assert_eq!(Schema::new().kind_of(Scope::Core, &"dist".to_string()), Some(Kind::Text));
}

#[test]
fn fields_of_a_scope_are_the_known_ones_then_the_rows() {
    let schema = Schema::new()
        .with_field(Scope::Serve, "port".to_string(), Kind::Integer)
        .with_field(Scope::Core, "offline".to_string(), Kind::Bool)
        .with_field(Scope::Serve, "open".to_string(), Kind::Bool);
    assert_eq!(
        schema.fields(Scope::Serve),
        vec![
            field("proxy_backend", Kind::Text),
            field("proxy_rewrite", Kind::Text),
            field("proxy_ws", Kind::Bool),
            field("proxy_insecure", Kind::Bool),
            field("proxy_no_system_proxy", Kind::Bool),
            field("port", Kind::Integer),
            field("open", Kind::Bool),
        ]
    );
    assert_eq!(schema.fields(Scope::Build), vec![]);
    assert_eq!(
        schema.fields(Scope::Proxy),
        vec![
            field("backend", Kind::Text),
            field("rewrite", Kind::Text),
            field("ws", Kind::Bool),
            field("insecure", Kind::Bool),
            field("no_system_proxy", Kind::Bool),
        ]
    );
    assert_eq!(schema.fields(Scope::Clean), vec![field("dist", Kind::Text)]);
}

#[test]
fn published_root_holds_the_core_fields_beside_the_sections() {
    let schema = Schema::new()
        .with_field(Scope::Serve, "port".to_string(), Kind::Integer)
        .with_field(Scope::Core, "offline".to_string(), Kind::Bool);
    assert_eq!(
        schema.published(),
        vec![
            field("dist", Kind::Text),
            field("offline", Kind::Bool),
            field("build", Kind::Table),
            field("tools", Kind::Table),
            field("hooks", Kind::List),
            field("watch", Kind::Table),
            field("serve", Kind::Table),
            field("clean", Kind::Table),
            field("proxies", Kind::List),
        ]
    );
    assert_eq!(Schema::new().published().len(), 8);
}

#[test]
fn spelling_is_compared_exactly() {
    assert!(spells(&"dist".to_string(), "dist"));
    assert!(!spells(&"dist".to_string(), "dis"));
    assert!(!spells(&"dist".to_string(), "Dist"));
    assert!(spells(&String::new(), ""));
}

#[test]
fn numbers_are_written_in_base_ten() {
    for (n, expected) in [
        (0usize, "0"),
        (7, "7"),
        (9, "9"),
        (10, "10"),
        (42, "42"),
        (100, "100"),
        (1234567890, "1234567890"),
    ] {
        let mut out = "at ".to_string();
        append_decimal(&mut out, n);
        assert_eq!(out, format!("at {}", expected));
    }
    let mut out = String::new();
    append_decimal(&mut out, usize::MAX);
    assert_eq!(out, usize::MAX.to_string());
}
