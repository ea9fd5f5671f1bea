use stackable_config::ConfigBuilder;

fn strings(values: &[&str]) -> Vec<String> {
    values.iter().map(|value| String::from(*value)).collect()
}

#[test]
fn without_file_tokens_the_command_line_is_unchanged() {
    let merged = ConfigBuilder::maybe_combine_arguments(
        strings(&["bin", "--testparam", "param1"]),
        Vec::new(),
    );
    assert_eq!(merged, strings(&["bin", "--testparam", "param1"]));
}

#[test]
fn empty_command_line_without_file_tokens_stays_empty() {
    let merged = ConfigBuilder::maybe_combine_arguments(Vec::new(), Vec::new());
    assert_eq!(merged, Vec::<String>::new());
}

#[test]
fn file_tokens_follow_the_program_name() {
    let merged = ConfigBuilder::maybe_combine_arguments(
        strings(&["bin", "--testparam", "param1"]),
        strings(&["--testparam", "fromfile"]),
    );
    assert_eq!(
        merged,
        strings(&["bin", "--testparam", "fromfile", "--testparam", "param1"])
    );
}

#[test]
fn program_name_alone_is_followed_by_the_file_tokens() {
    let merged = ConfigBuilder::maybe_combine_arguments(
        strings(&["bin"]),
        strings(&["--a", "1", "--b"]),
    );
    assert_eq!(merged, strings(&["bin", "--a", "1", "--b"]));
}

#[test]
fn merged_length_is_the_sum() {
    let merged = ConfigBuilder::maybe_combine_arguments(
        strings(&["bin", "x", "y", "x"]),
        strings(&["x", "z"]),
    );
    assert_eq!(merged.len(), 6);
    assert_eq!(merged.iter().skip(1).filter(|token| *token == "x").count(), 3);
    assert_eq!(merged, strings(&["bin", "x", "z", "x", "y", "x"]));
}
