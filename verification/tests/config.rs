use stackable_config::{
    ConfigBuilder, ConfigOption, Configurable, Configuration, Environment, FileRead,
    ResolvedConfig,
};

// A configuration for the tests: a few simple options that cover all the
// shapes (a value with a default, a value without, a switch, a list), and
// two helpers to read the results.
struct TestConfig {
    values: ResolvedConfig,
}

const TEST_PARAM: ConfigOption = ConfigOption {
    name: "testparam",
    default: Some("udtarine"),
    required: false,
    takes_argument: true,
    help: "Testhelp",
    documentation: "Testdoc",
    list: false,
};

const TEST_PARAM2: ConfigOption = ConfigOption {
    name: "testparam2",
    default: None,
    required: false,
    takes_argument: true,
    help: "test2",
    documentation: "test2",
    list: false,
};

const TEST_SWITCH: ConfigOption = ConfigOption {
    name: "testswitch",
    default: None,
    required: false,
    takes_argument: false,
    help: "a switch that can be provided - or not",
    documentation: "test doc switch",
    list: false,
};

const TEST_MULTIPLE: ConfigOption = ConfigOption {
    name: "testmultiple",
    default: Some("3"),
    required: false,
    takes_argument: true,
    help: "A parameter that can be specified multiple times and all values will be used.",
    documentation: "",
    list: true,
};

const CONFIG1: &str = "--testparam\nfromfile\n--testparam2\nfromfile2\n";

impl TestConfig {
    // The value that is stored for the option, if it is the only one;
    // panics where there is none or more than one.
    fn get_first_and_only_value(&self, key: &ConfigOption) -> String {
        let value = self.values.get(key).expect("Error retrieving value!").to_option();
        if value == None {
            panic!("Argument was not specified!");
        }
        let value = value.expect("Shouldn't happen");
        if value.len() != 1 {
            panic!("Not a single value: {}", value.len());
        }
        String::from(&value[0].clone())
    }

    // Whether the argument was provided on the command line.
    fn argument_was_provided(&self, key: &ConfigOption) -> bool {
        self.values
            .get(key)
            .expect("Fatal error: key not present in the values, but should have been!")
            .is_provided()
    }
}

impl Configurable for TestConfig {
    fn get_config_description() -> Configuration {
        Configuration {
            name: "Test Tool",
            version: "0.1",
            about: "blabla",
            options: vec![TEST_PARAM, TEST_PARAM2, TEST_SWITCH, TEST_MULTIPLE],
        }
    }

    fn parse_values(parsed_values: ResolvedConfig) -> Self {
        TestConfig { values: parsed_values }
    }
}

fn no_file() -> Environment {
    Environment { variable: None, file: FileRead::NotRead }
}

fn config1() -> Environment {
    Environment {
        variable: Some(String::from("resources/test/config1.conf")),
        file: FileRead::Content(CONFIG1.as_bytes().to_vec()),
    }
}

#[test]
fn parse_single_param() {
    let command_line_args: Vec<String> = vec![
        String::from("filename"),
        String::from("--testparam"),
        String::from("param1"),
    ];
    let (config, _): (TestConfig, _) =
        ConfigBuilder::build(command_line_args, &no_file()).expect("test");

    // Check that absent parameters are reported correctly
    assert_eq!(config.argument_was_provided(&TEST_SWITCH), false);
    assert_eq!(config.argument_was_provided(&TEST_PARAM2), false);

    assert_eq!(config.get_first_and_only_value(&TEST_PARAM), "param1");
}

#[test]
fn parse_multiple_params() {
    let command_line_args: Vec<String> = vec![
        String::from("filename"),
        String::from("--testswitch"),
        String::from("--testparam"),
        String::from("param1"),
        String::from("--testparam2"),
        String::from("param2"),
    ];
    let (config, _): (TestConfig, _) = ConfigBuilder::build(command_line_args, &no_file())
        .expect("Error building config object!");

    assert!(config.argument_was_provided(&TEST_SWITCH));

    assert!(config.argument_was_provided(&TEST_PARAM));
    assert_eq!(config.get_first_and_only_value(&TEST_PARAM), "param1");

    assert!(config.argument_was_provided(&TEST_PARAM2));

    assert_eq!(config.get_first_and_only_value(&TEST_PARAM2), "param2");

    assert!(config.argument_was_provided(&TEST_SWITCH));
}

#[test]
fn test_parameters_absent() {
    let command_line_args: Vec<String> = vec![String::from("filename")];

    let (config, _): (TestConfig, _) = ConfigBuilder::build(command_line_args, &no_file())
        .expect("Error building config object!");

    // takes_argument: false
    assert_eq!(config.argument_was_provided(&TEST_SWITCH), false);

    // takes_argument: true, default: "udtarine", list: false
    assert!(config.argument_was_provided(&TEST_PARAM), "{}", true);
    assert_eq!(
        config.get_first_and_only_value(&TEST_PARAM),
        TEST_PARAM.default.expect("")
    );

    // takes_argument: true, no default, list: false
    assert_eq!(config.argument_was_provided(&TEST_PARAM2), false);

    // takes_argument: true, default: "3", list: true
    assert!(config.argument_was_provided(&TEST_MULTIPLE));
    assert_eq!(config.get_first_and_only_value(&TEST_MULTIPLE), "3");
}

#[test]
fn parse_from_file_only() {
    let command_line_args: Vec<String> = vec![String::from("filename")];

    let (config, _): (TestConfig, _) = ConfigBuilder::build(command_line_args, &config1())
        .expect("Error building config object!");

    assert!(config.argument_was_provided(&TEST_PARAM));

    assert_eq!(config.get_first_and_only_value(&TEST_PARAM), "fromfile");

    assert!(config.argument_was_provided(&TEST_PARAM2));
}

// The same parameter is given in the file and on the command line: the
// command line overrides the file. To make sure that the file is not simply
// ignored, a second parameter comes from the file only.
#[test]
fn override_value_from_file() {
    let command_line_args: Vec<String> = vec![
        String::from("filename"),
        String::from("--testparam"),
        String::from("param1"),
    ];

    let (config, _): (TestConfig, _) = ConfigBuilder::build(command_line_args, &config1())
        .expect("Error building config object!");

    assert!(config.argument_was_provided(&TEST_PARAM));
    assert_eq!(config.get_first_and_only_value(&TEST_PARAM), "param1");

    assert!(config.argument_was_provided(&TEST_PARAM2));
    assert_eq!(config.get_first_and_only_value(&TEST_PARAM2), "fromfile2");
}

// Several occurrences of the same parameter are all kept.
#[test]
fn test_multiple_values() {
    let command_line_args: Vec<String> = vec![
        String::from("filename"),
        String::from("--testmultiple"),
        String::from("1"),
        String::from("--testmultiple"),
        String::from("2"),
        String::from("--testmultiple"),
        String::from("3"),
    ];
    let (config, _): (TestConfig, _) = ConfigBuilder::build(command_line_args, &no_file())
        .expect("Error building config object!");
    let result = config
        .values
        .get(&TEST_MULTIPLE)
        .expect("error getting value")
        .to_option();
    let result = result.expect("no values specified!");
    assert_eq!(result.len(), 3);
    assert!(result.contains(&String::from("1")));
    assert!(result.contains(&String::from("2")));
    assert!(result.contains(&String::from("3")));
}

#[test]
fn multiple_values_keep_their_order() {
    let command_line_args: Vec<String> = vec![
        String::from("bin"),
        String::from("--testmultiple"),
        String::from("1"),
        String::from("--testmultiple"),
        String::from("2"),
        String::from("--testmultiple"),
        String::from("3"),
    ];
    let (config, _): (TestConfig, _) =
        ConfigBuilder::build(command_line_args, &no_file()).expect("resolution");
    assert_eq!(
        config.values.get(&TEST_MULTIPLE).expect("entry").to_option(),
        Some(vec![String::from("1"), String::from("2"), String::from("3")])
    );
}

#[test]
fn every_option_has_an_entry() {
    let (config, _): (TestConfig, _) =
        ConfigBuilder::build(vec![String::from("bin")], &no_file()).expect("resolution");
    assert_eq!(config.values.len(), 4);
    assert!(config.values.get(&TEST_PARAM).is_some());
    assert!(config.values.get(&TEST_PARAM2).is_some());
    assert!(config.values.get(&TEST_SWITCH).is_some());
    assert!(config.values.get(&TEST_MULTIPLE).is_some());
}
