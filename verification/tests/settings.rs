use mdpls::json::Json;
use mdpls::settings::{deserialize_command, deserialize_opt_command, Settings, SettingsError};

fn config(text: &str) -> Json {
    Json::parse(text.as_bytes()).unwrap()
}

#[test]
fn deserialize_empty_settings() {
    let json = config("{}");

    assert_eq!(Settings::deserialize(&json).unwrap(), Settings::default());
}

#[test]
fn deserialize_empty_markdown_settings() {
    let json = config(r#"{ "markdown": {} }"#);

    assert_eq!(Settings::deserialize(&json).unwrap(), Settings::default());
}

#[test]
fn deserialize_empty_preview_settings() {
    let json = config(r#"{ "markdown": { "preview": {} } }"#);

    assert_eq!(Settings::deserialize(&json).unwrap(), Settings::default());
}

#[test]
fn deserialize_settings() {
    let json = config(r#"{ "markdown": { "preview": { "auto": false, "browser": "firefox" } } }"#);

    let settings = Settings::deserialize(&json).unwrap();

    assert_eq!(settings.auto, false);
    assert_eq!(settings.browser, Some((String::from("firefox"), vec![])));
}

#[test]
fn deserialize_browser_list() {
    let json = config(r#"{ "markdown": { "preview": { "browser": ["open", "-g"] } } }"#);

    let settings = Settings::deserialize(&json).unwrap();

    assert_eq!(
        settings.browser,
        Some((String::from("open"), vec![String::from("-g")]))
    );
}

#[test]
fn deserialize_theme() {
    let json = config(r#"{ "markdown": { "preview": { "codeTheme": "darcula" } } }"#);

    let settings = Settings::deserialize(&json).unwrap();

    assert_eq!(settings.theme, "darcula");
}

#[test]
fn default_settings_are_the_documented_ones() {
    let settings = Settings::default();

    assert_eq!(settings.auto, true);
    assert_eq!(settings.browser, None);
    assert_eq!(settings.theme, "github");
    assert_eq!(settings.serve_static, false);
    assert_eq!(settings.renderer, None);
    assert_eq!(settings.defer_updates, None);
}

#[test]
fn null_markdown_and_null_preview_give_defaults() {
    assert_eq!(
        Settings::deserialize(&config(r#"{ "markdown": null }"#)).unwrap(),
        Settings::default()
    );
    assert_eq!(
        Settings::deserialize(&config(r#"{ "markdown": { "preview": null } }"#)).unwrap(),
        Settings::default()
    );
}

#[test]
fn every_option_is_read() {
    let json = config(
        r#"{ "markdown": { "preview": {
            "auto": false,
            "browser": ["open", "-a", "Safari"],
            "codeTheme": "monokai",
            "serveStatic": true,
            "renderer": "pandoc",
            "deferUpdates": { "msBefore": 50, "msBetween": 300 },
            "somethingElse": 1
        } } }"#,
    );

    let settings = Settings::deserialize(&json).unwrap();

    assert_eq!(
        settings,
        Settings {
            auto: false,
            browser: Some((
                String::from("open"),
                vec![String::from("-a"), String::from("Safari")]
            )),
            theme: String::from("monokai"),
            serve_static: true,
            renderer: Some((String::from("pandoc"), vec![])),
            defer_updates: Some((50, 300)),
        }
    );
}

#[test]
fn zero_delays_defer_nothing() {
    let json = config(
        r#"{ "markdown": { "preview": { "deferUpdates": { "msBefore": 0, "msBetween": 0 } } } }"#,
    );

    assert_eq!(Settings::deserialize(&json).unwrap().defer_updates, None);
}

#[test]
fn one_nonzero_delay_defers() {
    let json = config(
        r#"{ "markdown": { "preview": { "deferUpdates": { "msBefore": 0, "msBetween": 7 } } } }"#,
    );

    assert_eq!(
        Settings::deserialize(&json).unwrap().defer_updates,
        Some((0, 7))
    );
}

#[test]
fn wrong_kinds_are_invalid_types() {
    for text in [
        "[]",
        "null",
        r#"{ "markdown": 1 }"#,
        r#"{ "markdown": { "preview": "x" } }"#,
        r#"{ "markdown": { "preview": { "auto": 1337 } } }"#,
        r#"{ "markdown": { "preview": { "codeTheme": false } } }"#,
        r#"{ "markdown": { "preview": { "serveStatic": "yes" } } }"#,
        r#"{ "markdown": { "preview": { "browser": 1 } } }"#,
        r#"{ "markdown": { "preview": { "renderer": ["a", 2] } } }"#,
        r#"{ "markdown": { "preview": { "deferUpdates": null } } }"#,
        r#"{ "markdown": { "preview": { "deferUpdates": { "msBefore": 1 } } } }"#,
        r#"{ "markdown": { "preview": { "deferUpdates": { "msBefore": -1, "msBetween": 1 } } } }"#,
        r#"{ "markdown": { "preview": { "deferUpdates": { "msBefore": 1.5, "msBetween": 1 } } } }"#,
    ] {
        assert_eq!(
            Settings::deserialize(&config(text)),
            Err(SettingsError::InvalidType),
            "{}",
            text
        );
    }
}

#[test]
fn empty_command_list_is_rejected() {
    assert_eq!(
        deserialize_command(&config("[]")),
        Err(SettingsError::EmptyCommand)
    );
    assert_eq!(
        Settings::deserialize(&config(r#"{ "markdown": { "preview": { "browser": [] } } }"#)),
        Err(SettingsError::EmptyCommand)
    );
}

#[test]
fn command_from_string_and_list() {
    assert_eq!(
        deserialize_command(&config(r#""firefox""#)),
        Ok((String::from("firefox"), vec![]))
    );
    assert_eq!(
        deserialize_command(&config(r#"["a", "b", "c"]"#)),
        Ok((String::from("a"), vec![String::from("b"), String::from("c")]))
    );
    assert_eq!(
        deserialize_command(&config(r#"["only"]"#)),
        Ok((String::from("only"), vec![]))
    );
    assert_eq!(
        deserialize_command(&config("{}")),
        Err(SettingsError::InvalidType)
    );
}

#[test]
fn optional_command_may_be_absent_or_null() {
    assert_eq!(deserialize_opt_command(None), Ok(None));
    assert_eq!(deserialize_opt_command(Some(&Json::Null)), Ok(None));
    assert_eq!(
        deserialize_opt_command(Some(&config(r#""x""#))),
        Ok(Some((String::from("x"), vec![])))
    );
}
