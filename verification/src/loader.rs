//! Reading of rc-style configuration files: one argument token per line.
//!
//! A file is a sequence of lines, each ending with a line feed (the last one
//! may lack it). Every line is trimmed of surrounding whitespace; a line that
//! is then empty or starts with `#` gives nothing; every other line is one
//! token, taken whole. A line that is not valid UTF-8 cannot be a token and is
//! reported with its number, while the lines after it are still read.

use bstr::ByteSlice;
use vstd::prelude::*;
use vstd::slice::slice_subrange;
use vstd::utf8::{decode_utf8, valid_utf8};

verus! {

/// The line feed that ends a line.
pub const LINE_FEED: u8 = 10;

/// The character that starts a comment line.
pub const COMMENT: u8 = 35;

/// A line of the file that could not be decoded.
#[derive(Clone, Copy, Debug, PartialEq, Eq, Structural)]
pub struct LineError {
    /// The number of the line in the file, the first line being 1.
    pub line_number: usize,
    /// The offset in the trimmed line up to which it is valid UTF-8.
    pub offset: usize,
}

/// A line without the whitespace around it, as `bstr` trims it.
pub uninterp spec fn trimmed(line: Seq<u8>) -> Seq<u8>;

/// Whether a byte is ASCII whitespace: a tab, a line feed, a vertical tab, a
/// form feed, a carriage return or a space.
pub open spec fn is_space(byte: u8) -> bool {
    9 <= byte <= 13 || byte == 32
}

/// Whether a character is ASCII whitespace.
pub open spec fn is_space_char(c: char) -> bool {
    9 <= c as u32 <= 13 || c as u32 == 32
}

/// Whether bytes neither begin nor end with ASCII whitespace.
pub open spec fn has_bare_ends(bytes: Seq<u8>) -> bool {
    bytes.len() == 0 || (!is_space(bytes[0]) && !is_space(bytes.last()))
}

/// Whether a token is not empty and neither begins nor ends with ASCII
/// whitespace.
pub open spec fn is_bare(token: Seq<char>) -> bool {
    token.len() > 0 && !is_space_char(token[0]) && !is_space_char(token.last())
}

/// Whether the first `n` bytes are valid UTF-8 and no longer prefix is.
pub open spec fn is_longest_valid_prefix(bytes: Seq<u8>, n: int) -> bool {
    &&& 0 <= n <= bytes.len()
    &&& valid_utf8(bytes.subrange(0, n))
    &&& forall|m: int| n < m <= bytes.len() ==> !valid_utf8(#[trigger] bytes.subrange(0, m))
}

/// The length of the longest prefix of the bytes that is valid UTF-8: where
/// decoding stops on bytes that are not.
pub open spec fn invalid_offset(bytes: Seq<u8>) -> int {
    choose|n: int| is_longest_valid_prefix(bytes, n)
}

/// The index just past the first line feed at or after `from`, or the length
/// of `content` where there is none.
pub open spec fn line_end(content: Seq<u8>, from: int) -> int
    decreases content.len() - from,
{
    if from < 0 || from >= content.len() {
        content.len() as int
    } else if content[from] == LINE_FEED {
        from + 1
    } else {
        line_end(content, from + 1)
    }
}

/// The lines of `content` that begin at or after `from`, each with its
/// terminator.
pub open spec fn lines_from(content: Seq<u8>, from: int) -> Seq<Seq<u8>>
    decreases content.len() - from,
    when 0 <= from
    via lines_from_decreases
{
    if from >= content.len() {
        Seq::empty()
    } else {
        seq![content.subrange(from, line_end(content, from))] + lines_from(
            content,
            line_end(content, from),
        )
    }
}

#[via_fn]
proof fn lines_from_decreases(content: Seq<u8>, from: int) {
    if from < content.len() {
        lemma_line_end_bounds(content, from);
    }
}

/// The lines of a file.
pub open spec fn lines(content: Seq<u8>) -> Seq<Seq<u8>> {
    lines_from(content, 0)
}

/// Whether a trimmed line is blank or a comment.
pub open spec fn is_blank_or_comment(kept: Seq<u8>) -> bool {
    kept.len() == 0 || kept[0] == COMMENT
}

/// A blank line or a comment: it gives no token and no error.
pub open spec fn is_skipped(line: Seq<u8>) -> bool {
    is_blank_or_comment(trimmed(line))
}

/// A line that gives a token.
pub open spec fn is_token(line: Seq<u8>) -> bool {
    !is_skipped(line) && valid_utf8(trimmed(line))
}

/// A line that is reported as an error.
pub open spec fn is_undecodable(line: Seq<u8>) -> bool {
    !is_skipped(line) && !valid_utf8(trimmed(line))
}

/// The token that a line gives.
pub open spec fn token_of(line: Seq<u8>) -> Seq<char> {
    decode_utf8(trimmed(line))
}

/// The tokens that a sequence of lines gives, in order.
pub open spec fn tokens_in(lines: Seq<Seq<u8>>) -> Seq<Seq<char>>
    decreases lines.len(),
{
    if lines.len() == 0 {
        Seq::empty()
    } else if is_token(lines.last()) {
        tokens_in(lines.drop_last()).push(token_of(lines.last()))
    } else {
        tokens_in(lines.drop_last())
    }
}

/// The errors that a sequence of lines gives, in order; a line's number is
/// its place in the sequence, counted from 1.
pub open spec fn errors_in(lines: Seq<Seq<u8>>) -> Seq<LineError>
    decreases lines.len(),
{
    if lines.len() == 0 {
        Seq::empty()
    } else if is_undecodable(lines.last()) {
        errors_in(lines.drop_last()).push(
            LineError {
                line_number: lines.len() as usize,
                offset: invalid_offset(trimmed(lines.last())) as usize,
            },
        )
    } else {
        errors_in(lines.drop_last())
    }
}

/// The tokens of a file.
pub open spec fn file_tokens(content: Seq<u8>) -> Seq<Seq<char>> {
    tokens_in(lines(content))
}

/// The line errors of a file.
pub open spec fn file_errors(content: Seq<u8>) -> Seq<LineError> {
    errors_in(lines(content))
}

/// A line that starts inside the content is not empty and ends inside it.
pub proof fn lemma_line_end_bounds(content: Seq<u8>, from: int)
    requires
        0 <= from < content.len(),
    ensures
        from < line_end(content, from) <= content.len(),
    decreases content.len() - from,
{
    if content[from] != LINE_FEED {
        if from + 1 < content.len() {
            lemma_line_end_bounds(content, from + 1);
        } else {
            assert(line_end(content, from + 1) == content.len());
        }
    }
}

/// Bytes have one longest prefix that is valid UTF-8.
pub proof fn lemma_longest_valid_prefix_is_one(bytes: Seq<u8>, one: int, other: int)
    requires
        is_longest_valid_prefix(bytes, one),
        other == invalid_offset(bytes),
    ensures
        one == other,
{
}

/// The text of valid UTF-8 begins with ASCII whitespace only where the
/// bytes do, and ends with it only where the bytes do.
pub proof fn lemma_space_at_the_ends(bytes: Seq<u8>)
    requires
        valid_utf8(bytes),
        bytes.len() > 0,
    ensures
        decode_utf8(bytes).len() > 0,
        is_space_char(decode_utf8(bytes)[0]) ==> is_space(bytes[0]),
        is_space_char(decode_utf8(bytes).last()) ==> is_space(bytes.last()),
    decreases bytes.len(),
{
    let rest = vstd::utf8::pop_first_scalar(bytes);
    let text = decode_utf8(bytes);
    let scalar: u32 = text[0] as u32;
    vstd::utf8::decode_utf8_first_scalar(bytes);
    if is_space_char(text[0]) {
        assert(scalar & 0x7F == scalar) by (bit_vector)
            requires
                scalar <= 0x7f,
        ;
        assert(bytes[0] == vstd::utf8::take_first_scalar(bytes)[0]);
    }
    if rest.len() > 0 {
        lemma_space_at_the_ends(rest);
    } else {
        assert(decode_utf8(rest) =~= Seq::<char>::empty());
    }
}

/// Calls `bstr::ByteSlice::trim`, which removes the whitespace at both ends
/// of the line. What it hands back is named `trimmed`, not spelled out:
/// `bstr` goes by Unicode's list of whitespace. ASCII whitespace is on that
/// list, so what is left neither begins nor ends with it.
#[verifier::external_body]
fn trim_line(line: &[u8]) -> (kept: &[u8])
    ensures
        kept@ == trimmed(line@),
        has_bare_ends(kept@),
{
    line.trim()
}

/// Calls `bstr::ByteSlice::to_str` and, where that fails,
/// `bstr::Utf8Error::valid_up_to`. The text comes back exactly when the
/// bytes are valid UTF-8, and it is their decoding; otherwise the offset
/// comes back at which the last complete sequence ends: the bytes before it
/// are valid UTF-8, and no longer prefix is.
#[verifier::external_body]
fn decode_line(bytes: &[u8]) -> (decoded: Result<String, usize>)
    ensures
        decoded is Ok <==> valid_utf8(bytes@),
        decoded matches Ok(text) ==> text@ == decode_utf8(bytes@),
        decoded matches Err(offset) ==> is_longest_valid_prefix(bytes@, offset as int),
{
    match bytes.to_str() {
        Ok(text) => Ok(text.to_owned()),
        Err(error) => Err(error.valid_up_to()),
    }
}

/// Finds where the line that begins at `from` ends.
fn find_line_end(content: &[u8], from: usize) -> (end: usize)
    requires
        from < content@.len(),
    ensures
        end == line_end(content@, from as int),
        from < end <= content@.len(),
{
    let mut i: usize = from;
    while i < content.len() && content[i] != LINE_FEED
        invariant
            from <= i <= content@.len(),
            line_end(content@, from as int) == line_end(content@, i as int),
        decreases content@.len() - i,
    {
        i += 1;
    }
    if i < content.len() {
        i + 1
    } else {
        i
    }
}

/// What a line of the file gives.
#[derive(Debug)]
pub enum ParsedLine {
    /// Nothing: the line is blank or a comment.
    Skipped,
    /// One token: the whole line.
    Token(String),
    /// An error: the line is not valid UTF-8.
    Undecodable(LineError),
}

/// Reads one line that was trimmed already: a blank line or a comment gives
/// nothing, valid UTF-8 gives the token that it encodes, and anything else
/// gives an error with the line's number. A token has whitespace at its ends
/// only where the line has.
pub fn parse_line(kept: &[u8], line_number: usize) -> (parsed: ParsedLine)
    ensures
        match parsed {
            ParsedLine::Skipped => is_blank_or_comment(kept@),
            ParsedLine::Token(text) => !is_blank_or_comment(kept@) && valid_utf8(kept@) && text@
                == decode_utf8(kept@) && (has_bare_ends(kept@) ==> is_bare(text@)),
            ParsedLine::Undecodable(error) => !is_blank_or_comment(kept@) && !valid_utf8(kept@)
                && error == (LineError { line_number, offset: invalid_offset(kept@) as usize }),
        },
{
    if kept.len() == 0 || kept[0] == COMMENT {
        return ParsedLine::Skipped;
    }
    match decode_line(kept) {
        Ok(text) => {
            proof {
                lemma_space_at_the_ends(kept@);
            }
            ParsedLine::Token(text)
        },
        Err(offset) => {
            proof {
                lemma_longest_valid_prefix_is_one(kept@, offset as int, invalid_offset(kept@));
            }
            ParsedLine::Undecodable(LineError { line_number, offset })
        },
    }
}

/// Reads the content of a configuration file: the tokens of its lines, in
/// order, and an error for each line that is not valid UTF-8. No token is
/// empty, and none begins or ends with ASCII whitespace.
pub fn parse_reader(content: &[u8]) -> (parsed: (Vec<String>, Vec<LineError>))
    ensures
        parsed.0.deep_view() == file_tokens(content@),
        parsed.1@ == file_errors(content@),
        forall|i: int| 0 <= i < parsed.0.len() ==> is_bare(#[trigger] parsed.0[i]@),
{
    let mut args: Vec<String> = Vec::new();
    let mut errs: Vec<LineError> = Vec::new();
    let mut line_number: usize = 0;
    let mut pos: usize = 0;
    let ghost mut seen: Seq<Seq<u8>> = Seq::empty();
    while pos < content.len()
        invariant
            pos <= content@.len(),
            line_number == seen.len(),
            line_number <= pos,
            lines(content@) == seen + lines_from(content@, pos as int),
            args.deep_view() == tokens_in(seen),
            errs@ == errors_in(seen),
            forall|i: int| 0 <= i < args.len() ==> is_bare(#[trigger] args[i]@),
        decreases content@.len() - pos,
    {
        let end = find_line_end(content, pos);
        let line = slice_subrange(content, pos, end);
        let ghost before = seen;
        proof {
            seen = seen.push(line@);
            assert(seen.drop_last() =~= before);
            assert(before + lines_from(content@, pos as int) =~= seen + lines_from(
                content@,
                end as int,
            ));
        }
        line_number += 1;
        match parse_line(trim_line(line), line_number) {
            ParsedLine::Skipped => {},
            ParsedLine::Token(text) => {
                args.push(text);
            },
            ParsedLine::Undecodable(error) => {
                errs.push(error);
            },
        }
        pos = end;
    }
    (args, errs)
}

/// What reading the configuration file gave.
#[derive(Debug)]
pub enum FileRead {
    /// No file was read.
    NotRead,
    /// The file could not be opened or read; the text says why.
    Unreadable(String),
    /// The bytes of the file.
    Content(Vec<u8>),
}

/// The mathematical content of a [`FileRead`].
pub enum FileReadModel {
    NotRead,
    Unreadable(Seq<char>),
    Content(Seq<u8>),
}

impl View for FileRead {
    type V = FileReadModel;

    open spec fn view(&self) -> FileReadModel {
        match self {
            FileRead::NotRead => FileReadModel::NotRead,
            FileRead::Unreadable(reason) => FileReadModel::Unreadable(reason@),
            FileRead::Content(bytes) => FileReadModel::Content(bytes@),
        }
    }
}

/// What a resolution sees of the world outside the program: the value of
/// the environment variable that names the configuration file, and what
/// reading that file gave.
#[derive(Debug)]
pub struct Environment {
    /// The value of the variable, `None` where it is not set.
    pub variable: Option<String>,
    /// What reading the file that the variable names gave. It plays no part
    /// where the variable names no file.
    pub file: FileRead,
}

/// The mathematical content of an [`Environment`].
pub struct EnvironmentModel {
    pub variable: Option<Seq<char>>,
    pub file: FileReadModel,
}

impl View for Environment {
    type V = EnvironmentModel;

    open spec fn view(&self) -> EnvironmentModel {
        EnvironmentModel {
            variable: match self.variable {
                Some(value) => Some(value@),
                None => None,
            },
            file: self.file@,
        }
    }
}

/// What the loader hands back: the tokens of the file, with what went wrong
/// on the way.
#[derive(Debug)]
pub struct FileTokens {
    /// The tokens, in the order of their lines.
    pub tokens: Vec<String>,
    /// The lines that could not be decoded.
    pub line_errors: Vec<LineError>,
    /// Why the file could not be read, where it could not.
    pub access_error: Option<String>,
}

/// The mathematical content of a [`FileTokens`].
pub struct Loaded {
    pub tokens: Seq<Seq<char>>,
    pub line_errors: Seq<LineError>,
    pub access_error: Option<Seq<char>>,
}

impl View for FileTokens {
    type V = Loaded;

    open spec fn view(&self) -> Loaded {
        Loaded {
            tokens: self.tokens.deep_view(),
            line_errors: self.line_errors@,
            access_error: match self.access_error {
                Some(reason) => Some(reason@),
                None => None,
            },
        }
    }
}

/// No tokens and nothing wrong.
pub open spec fn nothing_loaded() -> Loaded {
    Loaded { tokens: Seq::empty(), line_errors: Seq::empty(), access_error: None }
}

/// Whether the value of the variable names a file: it is set and not empty.
pub open spec fn names_file(variable: Option<Seq<char>>) -> bool {
    variable matches Some(value) && value.len() > 0
}

/// Whether the environment can give tokens at all: the variable names a
/// file, and the file was read.
pub open spec fn may_give_tokens(environment: EnvironmentModel) -> bool {
    names_file(environment.variable) && environment.file is Content
}

/// What the loader makes of an environment. Where the variable names no
/// file, nothing is loaded and nothing is wrong. A file that could not be
/// read gives no tokens and the reason. A file that was read gives its
/// tokens and its line errors.
pub open spec fn loaded(environment: EnvironmentModel) -> Loaded {
    if !names_file(environment.variable) {
        nothing_loaded()
    } else {
        match environment.file {
            FileReadModel::NotRead => nothing_loaded(),
            FileReadModel::Unreadable(reason) => Loaded {
                tokens: Seq::empty(),
                line_errors: Seq::empty(),
                access_error: Some(reason),
            },
            FileReadModel::Content(bytes) => Loaded {
                tokens: file_tokens(bytes),
                line_errors: file_errors(bytes),
                access_error: None,
            },
        }
    }
}

impl FileTokens {
    /// No tokens and nothing wrong.
    pub fn none() -> (found: FileTokens)
        ensures
            found@ == nothing_loaded(),
            found.tokens@.len() == 0,
    {
        let found = FileTokens { tokens: Vec::new(), line_errors: Vec::new(), access_error: None };
        assert(found.tokens.deep_view() =~= Seq::<Seq<char>>::empty());
        found
    }
}

/// The path of the configuration file, where the value of the variable
/// names one.
pub fn config_path(variable: &Option<String>) -> (path: Option<&String>)
    ensures
        path is Some <==> names_file(
            match *variable {
                Some(value) => Some(value@),
                None => None,
            },
        ),
        path matches Some(found) ==> *variable == Some(*found),
{
    match variable {
        None => None,
        Some(value) => {
            if value.as_str().is_empty() {
                None
            } else {
                Some(value)
            }
        },
    }
}

/// The arguments that the configuration file adds to the command line. None
/// of them is empty, and none begins or ends with ASCII whitespace.
pub fn args(environment: &Environment) -> (found: FileTokens)
    ensures
        found@ == loaded(environment@),
        forall|i: int| 0 <= i < found.tokens.len() ==> is_bare(#[trigger] found.tokens[i]@),
{
    if config_path(&environment.variable).is_none() {
        return FileTokens::none();
    }
    match &environment.file {
        FileRead::NotRead => FileTokens::none(),
        FileRead::Unreadable(reason) => {
            let found = FileTokens {
                tokens: Vec::new(),
                line_errors: Vec::new(),
                access_error: Some(reason.clone()),
            };
            assert(found.tokens.deep_view() =~= Seq::<Seq<char>>::empty());
            found
        },
        FileRead::Content(bytes) => {
            let (tokens, line_errors) = parse_reader(bytes.as_slice());
            FileTokens { tokens, line_errors, access_error: None }
        },
    }
}

/// Lines that are all blank or comments give no token and no error.
pub proof fn lemma_skipped_lines_give_nothing(lines: Seq<Seq<u8>>)
    requires
        forall|i: int| 0 <= i < lines.len() ==> is_skipped(#[trigger] lines[i]),
    ensures
        tokens_in(lines).len() == 0,
        errors_in(lines).len() == 0,
    decreases lines.len(),
{
    if lines.len() > 0 {
        lemma_skipped_lines_give_nothing(lines.drop_last());
    }
}

/// A file that holds only blank lines and comment lines gives no tokens
/// and no errors.
pub proof fn law_blank_and_comment_lines_give_no_tokens(content: Seq<u8>)
    requires
        forall|i: int| 0 <= i < lines(content).len() ==> is_skipped(#[trigger] lines(content)[i]),
    ensures
        file_tokens(content) == Seq::<Seq<char>>::empty(),
        file_errors(content) == Seq::<LineError>::empty(),
{
    lemma_skipped_lines_give_nothing(lines(content));
}

} // verus!
