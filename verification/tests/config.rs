use dstrafe::config::{config_from_raw, AppConfig, MovementKeys, RawConfig, RawMovementConfig};

fn key_value(table: &toml::Table, name: &str) -> Result<Option<String>, String> {
    match table.get(name) {
        None => Ok(None),
        Some(value) => match value.as_str() {
            Some(text) => Ok(Some(text.to_string())),
            None => Err(format!("invalid type for `{name}`")),
        },
    }
}

// Decodes a configuration document the way the program does, then applies
// the library's rules to it.
fn parse_config(contents: &str) -> Result<AppConfig, String> {
    let table: toml::Table = contents.parse().map_err(|error| format!("{error}"))?;
    let debug = match table.get("debug") {
        None => None,
        Some(value) => Some(value.as_bool().ok_or("invalid type for `debug`")?),
    };
    let movement = match table.get("movement") {
        None => None,
        Some(value) => {
            let movement = value.as_table().ok_or("invalid type for `movement`")?;
            Some(RawMovementConfig {
                forward: key_value(movement, "forward")?,
                backward: key_value(movement, "backward")?,
                left: key_value(movement, "left")?,
                right: key_value(movement, "right")?,
            })
        }
    };
    config_from_raw(RawConfig { debug, movement }).map_err(|error| error.message().to_string())
}

#[test]
fn missing_debug_defaults_to_false() {
    let config = parse_config("").expect("empty config");

    assert!(!config.debug);
}

#[test]
fn parses_debug_true() {
    let config = parse_config("debug = true").expect("valid config");

    assert!(config.debug);
}

#[test]
fn parses_valid_movement_keys() {
    let config = parse_config(
        r#"
            [movement]
            forward = "E"
            backward = "D"
            left = "S"
            right = "F"
            "#,
    )
    .expect("valid config");

    assert_eq!(
        config.movement,
        MovementKeys {
            forward: 'E',
            backward: 'D',
            left: 'S',
            right: 'F',
        }
    );
}

#[test]
fn duplicate_configured_keys_are_rejected() {
    let error = parse_config(
        r#"
            [movement]
            forward = "W"
            backward = "W"
            left = "A"
            right = "D"
            "#,
    )
    .expect_err("duplicate keys should fail");

    assert!(error.to_string().contains("movement keys"));
}

#[test]
fn unsupported_configured_keys_are_rejected() {
    let error = parse_config(
        r#"
            [movement]
            forward = "Up"
            backward = "S"
            left = "A"
            right = "D"
            "#,
    )
    .expect_err("special keys should fail");

    assert!(error.to_string().contains("movement keys"));
}
