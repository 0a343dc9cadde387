use gateway_client::config::{
    add_config_option, get_settings, handle_arguments, handle_flags, handle_missing_configvals,
    parse_config_text, settings_valid, ConfigError, Flag, SettingsField, SettingsInitializer,
};

fn empty_init() -> SettingsInitializer {
    SettingsInitializer { client: None, guild: None, secret: None, token: None }
}

#[test]
fn finalize_with_all_fields() {
    let init = SettingsInitializer {
        client: Some(String::from("c1")),
        guild: Some(String::from("g1")),
        secret: Some(String::from("s1")),
        token: Some(String::from("t1")),
    };
    let settings = init.finalize().unwrap();
    assert_eq!(settings.client, "c1");
    assert_eq!(settings.guild, "g1");
    assert_eq!(settings.secret, "s1");
    assert_eq!(settings.token, "t1");
}

#[test]
fn finalize_reports_first_missing_field() {
    let mut init = empty_init();
    init.client = Some(String::from("c1"));
    init.secret = Some(String::from("s1"));
    match init.finalize() {
        Err(ConfigError::MissingValue(f)) => assert_eq!(f, SettingsField::Guild),
        _ => panic!("expected a missing guild"),
    }
}

#[test]
fn finalize_empty_reports_client_first() {
    match empty_init().finalize() {
        Err(ConfigError::MissingValue(f)) => assert_eq!(f, SettingsField::Client),
        _ => panic!("expected a missing client"),
    }
}

#[test]
fn add_config_option_sets_each_known_key() {
    let mut init = empty_init();
    add_config_option(&mut init, "client", "a");
    add_config_option(&mut init, "guild", "b");
    add_config_option(&mut init, "secret", "c");
    add_config_option(&mut init, "token", "d");
    assert_eq!(init.client.as_deref(), Some("a"));
    assert_eq!(init.guild.as_deref(), Some("b"));
    assert_eq!(init.secret.as_deref(), Some("c"));
    assert_eq!(init.token.as_deref(), Some("d"));
}

#[test]
fn add_config_option_ignores_unknown_key() {
    let mut init = empty_init();
    add_config_option(&mut init, "colour", "x");
    assert!(init.client.is_none());
    assert!(init.guild.is_none());
    assert!(init.secret.is_none());
    assert!(init.token.is_none());
}

#[test]
fn parse_config_text_applies_lines_and_trims() {
    let mut init = empty_init();
    let r = parse_config_text("  client=a  \nguild=b\n", &mut init);
    assert!(r.is_ok());
    assert_eq!(init.client.as_deref(), Some("a"));
    assert_eq!(init.guild.as_deref(), Some("b"));
    assert!(init.secret.is_none());
}

#[test]
fn parse_config_text_rejects_line_without_separator() {
    let mut init = empty_init();
    match parse_config_text("client=a\nbroken line\ntoken=t", &mut init) {
        Err(ConfigError::BadConfigLine(l)) => assert_eq!(l, "broken line"),
        _ => panic!("expected a bad line"),
    }
    // the line before the bad one was applied, the one after was not
    assert_eq!(init.client.as_deref(), Some("a"));
    assert!(init.token.is_none());
}

#[test]
fn parse_config_text_rejects_line_with_two_separators() {
    let mut init = empty_init();
    match parse_config_text("client=a=b", &mut init) {
        Err(ConfigError::BadConfigLine(l)) => assert_eq!(l, "client=a=b"),
        _ => panic!("expected a bad line"),
    }
}

#[test]
fn parse_config_text_of_empty_text_is_ok() {
    let mut init = empty_init();
    assert!(parse_config_text("", &mut init).is_ok());
    assert!(init.client.is_none());
}

#[test]
fn handle_flags_applies_files_in_order() {
    let mut init = empty_init();
    let flags = vec![
        Flag::ConfigFile(String::from("client=a\ntoken=t1")),
        Flag::ConfigFile(String::from("token=t2")),
    ];
    assert!(handle_flags(&flags, &mut init).is_ok());
    assert_eq!(init.client.as_deref(), Some("a"));
    assert_eq!(init.token.as_deref(), Some("t2"));
}

#[test]
fn handle_missing_configvals_fills_only_absent_fields() {
    let mut init = empty_init();
    init.client = Some(String::from("kept"));
    handle_missing_configvals(
        &mut init,
        Some(String::from("ignored")),
        Some(String::from("g")),
        Some(String::from("s")),
        None,
    );
    assert_eq!(init.client.as_deref(), Some("kept"));
    assert_eq!(init.guild.as_deref(), Some("g"));
    assert_eq!(init.secret.as_deref(), Some("s"));
    assert!(init.token.is_none());
}

#[test]
fn handle_arguments_extracts_paths() {
    let args = vec![
        String::from("prog"),
        String::from("-f"),
        String::from("one.conf"),
        String::from("noise"),
        String::from("-f"),
        String::from("two.conf"),
    ];
    let paths = handle_arguments(&args).unwrap();
    assert_eq!(paths, vec![String::from("one.conf"), String::from("two.conf")]);
}

#[test]
fn handle_arguments_rejects_trailing_flag() {
    let args = vec![String::from("prog"), String::from("-f")];
    match handle_arguments(&args) {
        Err(ConfigError::MissingFlagArgument) => {}
        _ => panic!("expected a missing flag argument"),
    }
}

#[test]
fn get_settings_assembles_from_flags_and_fills() {
    let flags = vec![Flag::ConfigFile(String::from("client=a\nguild=b"))];
    let settings = get_settings(
        &flags,
        None,
        None,
        Some(String::from("s")),
        Some(String::from("t")),
    )
    .unwrap();
    assert_eq!(settings.client, "a");
    assert_eq!(settings.guild, "b");
    assert_eq!(settings.secret, "s");
    assert_eq!(settings.token, "t");
    assert!(settings_valid(&settings));
}

#[test]
fn get_settings_reports_missing_field() {
    let flags = vec![Flag::ConfigFile(String::from("client=a"))];
    match get_settings(&flags, None, None, None, Some(String::from("t"))) {
        Err(ConfigError::MissingValue(f)) => assert_eq!(f, SettingsField::Guild),
        _ => panic!("expected a missing guild"),
    }
}

#[test]
fn get_settings_reports_bad_line() {
    let flags = vec![Flag::ConfigFile(String::from("nonsense"))];
    match get_settings(&flags, None, None, None, None) {
        Err(ConfigError::BadConfigLine(l)) => assert_eq!(l, "nonsense"),
        _ => panic!("expected a bad line"),
    }
}
