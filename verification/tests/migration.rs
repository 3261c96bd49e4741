use config_model::error::FieldPath;
use config_model::migrate::{ConfigModel, MigrationError, Warning};
use config_model::schema::Section;
use config_model::model::{Configuration, Proxy};

fn proxy(backend: &str) -> Proxy {
    Proxy {
        backend: backend.to_string(),
        rewrite: None,
        ws: false,
        insecure: false,
        no_system_proxy: false,
        settings: Vec::new(),
    }
}

#[test]
fn clean_dist_moves_to_core() {
    let mut config = Configuration::default();
    config.clean.dist = Some("out".to_string());
    let warnings = config.migrate().unwrap();
    assert_eq!(config.core.dist, Some("out".to_string()));
    assert_eq!(config.clean.dist, None);
    assert_eq!(warnings, vec![Warning::CleanDist]);
}

#[test]
fn single_proxy_becomes_an_entry() {
    let mut config = Configuration::default();
    config.serve.proxy_backend = Some("http://x".to_string());
    config.serve.proxy_ws = Some(true);
    let warnings = config.migrate().unwrap();
    assert_eq!(warnings, vec![Warning::ServeProxy]);
    assert_eq!(config.proxies.0.len(), 1);
    assert_eq!(config.proxies.0[0].backend, "http://x");
    assert!(config.proxies.0[0].ws);
    assert!(!config.proxies.0[0].insecure);
    assert!(!config.proxies.0[0].no_system_proxy);
    assert_eq!(config.proxies.0[0].rewrite, None);
    assert_eq!(config.serve.proxy_backend, None);
    assert_eq!(config.serve.proxy_rewrite, None);
    assert_eq!(config.serve.proxy_ws, None);
    assert_eq!(config.serve.proxy_insecure, None);
    assert_eq!(config.serve.proxy_no_system_proxy, None);
}

#[test]
fn single_proxy_is_appended_after_existing_entries() {
    let mut config = Configuration::default();
    config.proxies.0.push(proxy("http://first"));
    config.serve.proxy_backend = Some("http://second".to_string());
    config.migrate().unwrap();
    assert_eq!(config.proxies.0.len(), 2);
    assert_eq!(config.proxies.0[0].backend, "http://first");
    assert_eq!(config.proxies.0[1].backend, "http://second");
}

#[test]
fn second_migration_changes_nothing_and_warns_of_nothing() {
    let mut config = Configuration::default();
    config.clean.dist = Some("out".to_string());
    config.serve.proxy_backend = Some("http://x".to_string());
    config.serve.proxy_rewrite = Some("/api".to_string());
    config.serve.proxy_insecure = Some(true);
    config.proxies.0.push(proxy("http://first"));
    let first = config.migrate().unwrap();
    assert_eq!(first, vec![Warning::CleanDist, Warning::ServeProxy]);
    let once = config.clone();
    let second = config.migrate().unwrap();
    assert_eq!(second, vec![]);
    assert_eq!(config, once);
}

#[test]
fn migration_of_a_current_configuration_is_silent() {
    let mut config = Configuration::default();
    config.core.dist = Some("dist".to_string());
    config.proxies.0.push(proxy("http://a"));
    let before = config.clone();
    let warnings = config.migrate().unwrap();
    assert!(warnings.is_empty());
    assert_eq!(config, before);
}

#[test]
fn legacy_dist_replaces_the_core_dist() {
    let mut config = Configuration::default();
    config.core.dist = Some("mine".to_string());
    config.clean.dist = Some("legacy".to_string());
    config.migrate().unwrap();
    assert_eq!(config.core.dist, Some("legacy".to_string()));
    assert_eq!(config.clean.dist, None);
}

#[test]
fn single_proxy_takes_all_its_companions() {
    let mut config = Configuration::default();
    config.serve.proxy_backend = Some("http://x".to_string());
    config.serve.proxy_rewrite = Some("/api".to_string());
    config.serve.proxy_ws = Some(false);
    config.serve.proxy_insecure = Some(true);
    config.serve.proxy_no_system_proxy = Some(true);
    config.migrate().unwrap();
    assert_eq!(
        config.proxies.0,
        vec![Proxy {
            backend: "http://x".to_string(),
            rewrite: Some("/api".to_string()),
            ws: false,
            insecure: true,
            no_system_proxy: true,
            settings: vec![],
        }]
    );
    assert_eq!(config.serve, Configuration::default().serve);
}

#[test]
fn companions_without_a_backend_are_left_alone() {
    let mut config = Configuration::default();
    config.serve.proxy_ws = Some(true);
    config.serve.proxy_rewrite = Some("/api".to_string());
    let before = config.clone();
    let warnings = config.migrate().unwrap();
    assert!(warnings.is_empty());
    assert_eq!(config, before);
}

#[test]
fn an_equal_proxy_is_appended_all_the_same() {
    let mut config = Configuration::default();
    config.proxies.0.push(proxy("http://x"));
    config.serve.proxy_backend = Some("http://x".to_string());
    config.migrate().unwrap();
    assert_eq!(config.proxies.0, vec![proxy("http://x"), proxy("http://x")]);
}

#[test]
fn parts_on_their_own_have_nothing_to_migrate() {
    let mut config = Configuration::default();
    config.clean.dist = Some("out".to_string());
    config.serve.proxy_backend = Some("http://x".to_string());
    let before = config.clone();
    assert_eq!(config.core.migrate().unwrap(), vec![]);
    assert_eq!(config.build.migrate().unwrap(), vec![]);
    assert_eq!(config.tools.migrate().unwrap(), vec![]);
    assert_eq!(config.hooks.migrate().unwrap(), vec![]);
    assert_eq!(config.watch.migrate().unwrap(), vec![]);
    assert_eq!(config.serve.migrate().unwrap(), vec![]);
    assert_eq!(config.clean.migrate().unwrap(), vec![]);
    assert_eq!(config.proxies.migrate().unwrap(), vec![]);
    assert_eq!(config, before);
}

#[test]
fn warnings_say_what_was_deprecated() {
    assert_eq!(
        Warning::CleanDist.message(),
        "'clean.dist' is used in the configuration. This is deprecated for the global 'dist' field and will result in an error in a future release."
    );
    assert_eq!(
        Warning::ServeProxy.message(),
        "The proxy fields in the configuration are deprecated and will be removed in a future version. Migrate those settings into an entry of the `proxies` field, which allows adding more than one."
    );
}

struct Untouched(u8);

impl ConfigModel for Untouched {}

#[test]
fn a_part_that_says_nothing_has_nothing_to_migrate() {
    let mut part = Untouched(7);
    assert_eq!(part.migrate().unwrap(), vec![]);
    assert_eq!(part.0, 7);
}

#[test]
fn migration_error_names_the_setting() {
    let error = MigrationError {
        path: FieldPath::of_section(Section::Serve).field(&"proxy_backend".to_string()),
    };
    assert_eq!(error.message(), "unable to migrate `serve.proxy_backend`");
}

#[test]
fn migration_by_value_gives_the_same_as_in_place() {
    let mut config = Configuration::default();
    config.clean.dist = Some("out".to_string());
    config.serve.proxy_backend = Some("http://x".to_string());
    let (moved, warnings) = config.clone().into_migrated().unwrap();
    let told = config.migrate().unwrap();
    assert_eq!(moved, config);
    assert_eq!(warnings, told);
    assert_eq!(warnings, vec![Warning::CleanDist, Warning::ServeProxy]);
}
