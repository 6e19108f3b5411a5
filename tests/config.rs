use std::collections::HashMap;

use ask::config::{
    default_theme_file, default_theme_seed, Config, ConfigError, DEFAULT_THEME_CSS, READ_FAILURE,
};

#[test]
fn no_document_leaves_every_field_unset() {
    let c = Config::new(None).unwrap();
    assert_eq!(c.theme(), None);
    assert_eq!(c.close_on_submit(), None);
    assert_eq!(c.close_on_blur(), None);
    assert_eq!(c.theme_name(), "default");
    assert_eq!(c.theme_file_name(), "default.css");
    assert!(c.closes_on_submit());
    assert!(c.closes_on_blur());
}

#[test]
fn empty_document_takes_the_defaults() {
    let c = Config::new(Some("")).unwrap();
    assert_eq!(c.theme(), None);
    assert_eq!(c.close_on_submit(), None);
    assert_eq!(c.close_on_blur(), None);
    assert_eq!(c.theme_name(), "default");
}

#[test]
fn missing_fields_take_their_defaults() {
    let c = Config::new(Some("close_on_blur = false\n")).unwrap();
    assert_eq!(c.theme(), None);
    assert_eq!(c.theme_name(), "default");
    assert_eq!(c.close_on_submit(), None);
    assert!(c.closes_on_submit());
    assert_eq!(c.close_on_blur(), Some(false));
    assert!(!c.closes_on_blur());
}

#[test]
fn full_document_is_read() {
    let doc = "theme = \"dark\"\nclose_on_submit = false\nclose_on_blur = true\n";
    let c = Config::new(Some(doc)).unwrap();
    assert_eq!(c.theme(), Some("dark".to_string()));
    assert_eq!(c.close_on_submit(), Some(false));
    assert_eq!(c.close_on_blur(), Some(true));
    assert_eq!(c.theme_name(), "dark");
    assert_eq!(c.theme_file_name(), "dark.css");
}

#[test]
fn unknown_entries_are_ignored() {
    let doc = "width = 640\n[window]\nopacity = 0.5\n";
    let c = Config::new(Some(doc)).unwrap();
    assert_eq!(c.theme(), None);
    assert_eq!(c.close_on_submit(), None);
}

#[test]
fn theme_of_wrong_type_is_refused() {
    match Config::new(Some("theme = 42\n")) {
        Err(ConfigError::TomlError(m)) => assert!(m.contains("theme")),
        other => panic!("expected a parse error, got {:?}", other.map(|c| c.theme())),
    }
}

#[test]
fn flags_of_wrong_type_are_refused() {
    assert!(matches!(
        Config::new(Some("close_on_submit = \"yes\"\n")),
        Err(ConfigError::TomlError(_))
    ));
    assert!(matches!(
        Config::new(Some("theme = \"light\"\nclose_on_blur = 1\n")),
        Err(ConfigError::TomlError(_))
    ));
}

#[test]
fn text_that_is_not_toml_is_refused() {
    assert!(matches!(
        Config::new(Some("theme = = dark")),
        Err(ConfigError::TomlError(_))
    ));
    assert!(matches!(
        Config::new(Some("theme = \"a\"\ntheme = \"b\"\n")),
        Err(ConfigError::TomlError(_))
    ));
}

#[test]
fn error_messages() {
    assert_eq!(
        ConfigError::IoError("denied".to_string()).message(),
        "IO Error: denied"
    );
    assert_eq!(
        ConfigError::TomlError("bad".to_string()).message(),
        "TOML Error: bad"
    );
    assert_eq!(
        ConfigError::XdgError("Could not find XDG directories".to_string()).message(),
        "Could not find XDG directories"
    );
}

#[test]
fn wrong_type_message_names_the_field() {
    match Config::new(Some("close_on_blur = [1]\n")) {
        Err(e) => assert_eq!(
            e.message(),
            "TOML Error: invalid type for `close_on_blur`, expected a boolean"
        ),
        Ok(_) => panic!("expected an error"),
    }
}

#[test]
fn seed_writes_default_theme_when_missing() {
    assert_eq!(default_theme_file(), "default.css");
    assert_eq!(
        default_theme_seed(false),
        Some(("default.css".to_string(), DEFAULT_THEME_CSS.to_string()))
    );
    assert_eq!(default_theme_seed(true), None);
}

fn run_seed(dir: &mut HashMap<String, String>) {
    let present = dir.contains_key(&default_theme_file());
    if let Some((name, css)) = default_theme_seed(present) {
        dir.insert(name, css);
    }
}

#[test]
fn seeding_twice_keeps_the_file() {
    let mut dir = HashMap::new();
    run_seed(&mut dir);
    assert_eq!(dir.get("default.css").map(|s| s.as_str()), Some(DEFAULT_THEME_CSS));
    dir.insert("default.css".to_string(), "body { color: red; }".to_string());
    let before = dir.clone();
    run_seed(&mut dir);
    run_seed(&mut dir);
    assert_eq!(dir, before);
}

#[test]
fn load_css_hands_back_the_stylesheet() {
    let c = Config::new(None).unwrap();
    assert_eq!(
        c.load_css(Ok("body {}".to_string())),
        Ok("body {}".to_string())
    );
}

#[test]
fn load_css_reports_a_missing_file() {
    let c = Config::new(None).unwrap();
    let r = c.load_css(Err("No such file or directory (os error 2)".to_string()));
    assert_eq!(
        r,
        Err("Failed to read theme file: No such file or directory (os error 2)".to_string())
    );
    assert!(r.unwrap_err().starts_with(READ_FAILURE));
}

#[test]
fn first_run_on_an_empty_directory() {
    let c = Config::new(None).unwrap();
    assert_eq!(c.theme(), None);
    assert_eq!(c.close_on_submit(), None);
    assert_eq!(c.close_on_blur(), None);
    let mut dir: HashMap<String, String> = HashMap::new();
    run_seed(&mut dir);
    assert_eq!(dir.len(), 1);
    assert_eq!(dir.get("default.css").map(|s| s.as_str()), Some(DEFAULT_THEME_CSS));
    let mut panel = ask::panel::PanelController::new();
    assert!(matches!(
        panel.handle(ask::panel::PanelEvent::Toggle),
        ask::panel::PanelAction::Show
    ));
    assert_eq!(panel.state(), ask::panel::PanelState::Visible);
}

#[test]
fn missing_custom_theme_is_a_load_error() {
    let c = Config::new(Some("theme = \"dark\"\n")).unwrap();
    let mut dir: HashMap<String, String> = HashMap::new();
    run_seed(&mut dir);
    assert!(!dir.contains_key(&c.theme_file_name()));
    let read = dir
        .get(&c.theme_file_name())
        .cloned()
        .ok_or_else(|| "No such file or directory (os error 2)".to_string());
    let r = c.load_css(read);
    assert!(r.is_err());
    assert!(r.unwrap_err().starts_with("Failed to read theme file: "));
}
