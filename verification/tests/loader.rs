use stackable_config::{
    args, config_path, parse_line, parse_reader, Environment, FileRead, LineError, ParsedLine,
};

fn strings(values: &[&str]) -> Vec<String> {
    values.iter().map(|value| String::from(*value)).collect()
}

#[test]
fn empty_file_gives_nothing() {
    let (tokens, errors) = parse_reader(b"");
    assert_eq!(tokens, Vec::<String>::new());
    assert_eq!(errors, Vec::<LineError>::new());
}

#[test]
fn one_line_is_one_token() {
    let (tokens, errors) = parse_reader(b"--testparam\nfromfile\n");
    assert_eq!(tokens, strings(&["--testparam", "fromfile"]));
    assert!(errors.is_empty());
}

#[test]
fn last_line_needs_no_terminator() {
    let (tokens, errors) = parse_reader(b"--testparam\nfromfile");
    assert_eq!(tokens, strings(&["--testparam", "fromfile"]));
    assert!(errors.is_empty());
}

#[test]
fn a_line_is_not_split_into_words() {
    let (tokens, _) = parse_reader(b"--name some value\n");
    assert_eq!(tokens, strings(&["--name some value"]));
}

#[test]
fn lines_are_trimmed_on_both_sides() {
    let (tokens, errors) = parse_reader(b"  --flag \t\r\n\tvalue with space   \n");
    assert_eq!(tokens, strings(&["--flag", "value with space"]));
    assert!(errors.is_empty());
}

#[test]
fn comments_and_blank_lines_are_skipped() {
    let (tokens, errors) = parse_reader(b"# a comment\n\n   \n--a\n  # indented comment\n1\n");
    assert_eq!(tokens, strings(&["--a", "1"]));
    assert!(errors.is_empty());
}

#[test]
fn only_comments_and_blank_lines_give_no_tokens() {
    let (tokens, errors) = parse_reader(b"# one\n\n#two\n \t \n\r\n#");
    assert!(tokens.is_empty());
    assert!(errors.is_empty());
}

#[test]
fn a_hash_inside_a_line_is_no_comment() {
    let (tokens, _) = parse_reader(b"--colour=#fff\n");
    assert_eq!(tokens, strings(&["--colour=#fff"]));
}

#[test]
fn text_beyond_ascii_is_kept() {
    let (tokens, errors) = parse_reader("--name\ngr\u{fc}\u{df}e \u{4e16}\u{754c}\n".as_bytes());
    assert_eq!(tokens, strings(&["--name", "gr\u{fc}\u{df}e \u{4e16}\u{754c}"]));
    assert!(errors.is_empty());
}

#[test]
fn undecodable_line_is_reported_and_the_rest_is_read() {
    let (tokens, errors) = parse_reader(b"--a\n# note\nab\xffcd\n--b\n\xfe\nlast\n");
    assert_eq!(tokens, strings(&["--a", "--b", "last"]));
    assert_eq!(
        errors,
        vec![
            LineError { line_number: 3, offset: 2 },
            LineError { line_number: 5, offset: 0 },
        ]
    );
}

#[test]
fn offset_counts_from_the_trimmed_line() {
    let (tokens, errors) = parse_reader(b"   xyz\xff  \n");
    assert!(tokens.is_empty());
    assert_eq!(errors, vec![LineError { line_number: 1, offset: 3 }]);
}

#[test]
fn blank_lines_count_as_lines() {
    let (_, errors) = parse_reader(b"\n\n\n\xff\n");
    assert_eq!(errors, vec![LineError { line_number: 4, offset: 0 }]);
}

#[test]
fn parse_line_skips_blank_and_comment() {
    assert!(matches!(parse_line(b"", 1), ParsedLine::Skipped));
    assert!(matches!(parse_line(b"#", 1), ParsedLine::Skipped));
    assert!(matches!(parse_line(b"# --a", 7), ParsedLine::Skipped));
}

#[test]
fn parse_line_gives_the_token() {
    match parse_line(b"--a b", 1) {
        ParsedLine::Token(text) => assert_eq!(text, "--a b"),
        other => panic!("no token: {:?}", other),
    }
}

#[test]
fn parse_line_reports_the_line_number() {
    match parse_line(b"a\xc3(", 12) {
        ParsedLine::Undecodable(error) => {
            assert_eq!(error, LineError { line_number: 12, offset: 1 })
        }
        other => panic!("no error: {:?}", other),
    }
}

#[test]
fn config_path_is_the_value_that_is_not_empty() {
    assert_eq!(config_path(&None), None);
    assert_eq!(config_path(&Some(String::new())), None);
    let value = Some(String::from("/etc/tool.conf"));
    assert_eq!(config_path(&value), Some(&String::from("/etc/tool.conf")));
}

#[test]
fn unset_variable_loads_nothing() {
    let environment = Environment {
        variable: None,
        file: FileRead::Content(b"--a\n".to_vec()),
    };
    let found = args(&environment);
    assert!(found.tokens.is_empty());
    assert!(found.line_errors.is_empty());
    assert_eq!(found.access_error, None);
}

#[test]
fn empty_variable_loads_nothing() {
    let environment = Environment {
        variable: Some(String::new()),
        file: FileRead::Content(b"--a\n".to_vec()),
    };
    let found = args(&environment);
    assert!(found.tokens.is_empty());
    assert!(found.line_errors.is_empty());
    assert_eq!(found.access_error, None);
}

#[test]
fn unreadable_file_gives_no_tokens_and_the_reason() {
    let environment = Environment {
        variable: Some(String::from("missing.conf")),
        file: FileRead::Unreadable(String::from("missing.conf: No such file or directory")),
    };
    let found = args(&environment);
    assert!(found.tokens.is_empty());
    assert!(found.line_errors.is_empty());
    assert_eq!(
        found.access_error,
        Some(String::from("missing.conf: No such file or directory"))
    );
}

#[test]
fn file_that_was_not_read_gives_nothing() {
    let environment = Environment {
        variable: Some(String::from("tool.conf")),
        file: FileRead::NotRead,
    };
    let found = args(&environment);
    assert!(found.tokens.is_empty());
    assert_eq!(found.access_error, None);
}

#[test]
fn content_gives_tokens_and_line_errors() {
    let environment = Environment {
        variable: Some(String::from("tool.conf")),
        file: FileRead::Content(b"--a\n\xff\n1\n".to_vec()),
    };
    let found = args(&environment);
    assert_eq!(found.tokens, strings(&["--a", "1"]));
    assert_eq!(found.line_errors, vec![LineError { line_number: 2, offset: 0 }]);
    assert_eq!(found.access_error, None);
}

#[test]
fn offset_is_the_length_of_the_longest_valid_prefix() {
    let cases: [(&[u8], usize); 6] = [
        (b"a\xe2\x82", 1),
        (b"\xe2\x82\xacb\xe2\x82", 4),
        (b"ab\xc3(", 2),
        (b"\xed\xa0\x80", 0),
        (b"x\xf0\x9f\x98", 1),
        (b"\xc3\xa9\xc3\xa9\x80z", 4),
    ];
    for (bytes, offset) in cases {
        match parse_line(bytes, 1) {
            ParsedLine::Undecodable(error) => {
                assert_eq!(error, LineError { line_number: 1, offset });
                assert!(std::str::from_utf8(&bytes[..offset]).is_ok());
                for longer in offset + 1..=bytes.len() {
                    assert!(std::str::from_utf8(&bytes[..longer]).is_err());
                }
            }
            other => panic!("no error: {:?}", other),
        }
    }
}

#[test]
fn no_token_begins_or_ends_with_whitespace() {
    let spaces: [&[u8]; 8] = [
        b"\t", b"\x0b", b"\x0c", b"\r", b" ", b" \t \r", "\u{a0}".as_bytes(), "\u{2003}\u{3000}".as_bytes(),
    ];
    for before in spaces {
        for after in spaces {
            let mut content = Vec::new();
            content.extend_from_slice(before);
            content.extend_from_slice("--na me=\u{e9}".as_bytes());
            content.extend_from_slice(after);
            content.extend_from_slice(b"\n");
            content.extend_from_slice(before);
            content.extend_from_slice(b"x");
            content.extend_from_slice(after);
            let (tokens, errors) = parse_reader(&content);
            assert_eq!(tokens, strings(&["--na me=\u{e9}", "x"]));
            assert!(errors.is_empty());
        }
    }
}

#[test]
fn parse_line_keeps_what_it_is_given() {
    match parse_line(b" x ", 1) {
        ParsedLine::Token(text) => assert_eq!(text, " x "),
        other => panic!("no token: {:?}", other),
    }
}
