use stackable_config::{
    ConfigOption, Configuration, ResolvedConfig, ResolvedValue, SchemaError, TlsConfig,
};

fn option(name: &'static str) -> ConfigOption {
    ConfigOption {
        name,
        default: None,
        required: false,
        takes_argument: true,
        help: "help",
        documentation: "documentation",
        list: false,
    }
}

fn configuration(names: &[&'static str]) -> Configuration {
    Configuration {
        name: "tool",
        version: "1.0",
        about: "about",
        options: names.iter().map(|name| option(name)).collect(),
    }
}

#[test]
fn options_are_equal_by_name_alone() {
    let plain = option("host");
    let other = ConfigOption {
        name: "host",
        default: Some("80"),
        required: true,
        takes_argument: false,
        help: "",
        documentation: "",
        list: true,
    };
    assert!(plain == other);
    assert!(plain != option("user"));
    assert!(option("") == option(""));
    assert!(option("host") != option("hosts"));
}

#[test]
fn distinct_names_are_valid() {
    assert_eq!(configuration(&["a", "b", "ab", ""]).validate(), Ok(()));
    assert_eq!(configuration(&[]).validate(), Ok(()));
}

#[test]
fn duplicate_name_is_refused() {
    assert_eq!(
        configuration(&["a", "b", "a"]).validate(),
        Err(SchemaError::DuplicateName { index: 2 })
    );
}

#[test]
fn leading_dash_is_refused() {
    assert_eq!(
        configuration(&["a", "--b"]).validate(),
        Err(SchemaError::InvalidName { index: 1 })
    );
    assert_eq!(
        configuration(&["-"]).validate(),
        Err(SchemaError::InvalidName { index: 0 })
    );
}

#[test]
fn dash_inside_a_name_is_fine() {
    assert_eq!(configuration(&["no-config", "a-"]).validate(), Ok(()));
}

#[test]
fn first_defect_is_reported() {
    assert_eq!(
        configuration(&["a", "a", "-b"]).validate(),
        Err(SchemaError::DuplicateName { index: 1 })
    );
    assert_eq!(
        configuration(&["-b", "a", "a"]).validate(),
        Err(SchemaError::InvalidName { index: 0 })
    );
    assert_eq!(
        configuration(&["-b", "-b"]).validate(),
        Err(SchemaError::InvalidName { index: 0 })
    );
}

#[test]
fn resolved_value_has_three_states() {
    let absent = ResolvedValue::from_values(None);
    assert!(matches!(absent, ResolvedValue::Absent));
    assert!(!absent.is_provided());
    assert_eq!(absent.to_option(), None);

    let flag = ResolvedValue::from_values(Some(Vec::new()));
    assert!(matches!(flag, ResolvedValue::PresentFlag));
    assert!(flag.is_provided());
    assert_eq!(flag.to_option(), Some(Vec::new()));

    let values = ResolvedValue::from_values(Some(vec![String::from("1"), String::from("2")]));
    assert!(matches!(values, ResolvedValue::Values(_)));
    assert!(values.is_provided());
    assert_eq!(values.to_option(), Some(vec![String::from("1"), String::from("2")]));
}

#[test]
fn empty_resolved_config_finds_nothing() {
    let config = ResolvedConfig::new();
    assert_eq!(config.len(), 0);
    assert!(config.get(&option("a")).is_none());
}

#[test]
fn tls_options_are_six_values_with_empty_default() {
    let options = TlsConfig::get_options();
    let names: Vec<&str> = options.iter().map(|option| option.name).collect();
    assert_eq!(
        names,
        vec![
            "tls-keystore-location",
            "tls-keystore-password",
            "tls-truststore-location",
            "tls-truststore-password",
            "tls-enabled-ciphers",
            "tls-enabled-protocols",
        ]
    );
    for option in options.iter() {
        assert_eq!(option.default, Some(""));
        assert!(!option.required);
        assert!(option.takes_argument);
        assert!(!option.list);
    }
    assert_eq!(
        options[1].help,
        "The password that is necessary to access the keystore, if one is required."
    );
    assert_eq!(options[1].documentation, options[1].help);
    assert_eq!(
        options[5].help,
        "A list of acceptable protocol versions to use."
    );
    assert!(TlsConfig::keystore_location() == options[0]);
    assert!(TlsConfig::keystore_password() == options[1]);
    assert!(TlsConfig::truststore_location() == options[2]);
    assert!(TlsConfig::truststore_password() == options[3]);
    assert!(TlsConfig::enabled_ciphers() == options[4]);
    assert!(TlsConfig::enabled_protocols() == options[5]);
}

#[test]
fn tls_configuration_is_valid() {
    let config = (TlsConfig {}).get_config();
    assert_eq!(config.name, "Stackable-TLS Options");
    assert_eq!(config.version, "0.1");
    assert_eq!(
        config.about,
        "Not intended for direct use in a command line tool, library of TLS options to beadded to other config."
    );
    assert_eq!(config.options.len(), 6);
    assert_eq!(config.validate(), Ok(()));
}

#[test]
fn options_hash_by_name_alone() {
    let mut found: std::collections::HashMap<ConfigOption, u32> = std::collections::HashMap::new();
    found.insert(option("host"), 1);
    let key = ConfigOption { required: true, default: Some("x"), ..option("host") };
    assert_eq!(found.get(&key), Some(&1));
    assert_eq!(found.insert(key, 2), Some(1));
    assert_eq!(found.len(), 1);
    assert_eq!(found.get(&option("user")), None);
}
