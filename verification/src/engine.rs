//! The argument-matching engine, `clap`, as the library sees it.
//!
//! Nothing in this file is proved. Each function makes one call into `clap`
//! and states what that call does in terms of a model: what an argument was
//! built with (`arg_slot`), what an application holds (`app_model`) and which
//! values a match assigned to which argument (`matched_args`). What the
//! engine makes of a list of tokens is not spelled out: it is named
//! (`engine`), a function of the application's model and the tokens.

use vstd::prelude::*;

verus! {

#[verifier::external_type_specification]
#[verifier::external_body]
pub struct ExApp<'a, 'b>(clap::App<'a, 'b>) where 'a: 'b;

#[verifier::external_type_specification]
#[verifier::external_body]
pub struct ExArg<'a, 'b>(clap::Arg<'a, 'b>) where 'a: 'b;

#[verifier::external_type_specification]
#[verifier::external_body]
pub struct ExArgMatches<'a>(clap::ArgMatches<'a>);

#[verifier::external_type_specification]
#[verifier::external_body]
pub struct ExError(clap::Error);

/// What one argument of the engine was built with.
pub struct Slot {
    /// The name under which the argument's values are found after a match.
    pub name: Seq<char>,
    /// The text that follows `--` on the command line.
    pub long: Option<Seq<char>>,
    /// The names of the argument's values in the help message.
    pub value_names: Seq<Seq<char>>,
    pub help: Option<Seq<char>>,
    pub takes_value: bool,
    pub required: bool,
    pub multiple: bool,
    pub default_value: Option<Seq<char>>,
    /// The names of the arguments that this one overrides.
    pub overrides: Seq<Seq<char>>,
}

/// What an application of the engine was built with.
pub struct AppModel {
    pub name: Seq<char>,
    pub version: Option<Seq<char>>,
    pub about: Option<Seq<char>>,
    /// The width at which help messages are wrapped, where one was set; 0
    /// stands for no wrapping. Where none was set, the engine wraps at 120
    /// columns.
    pub term_width: Option<nat>,
    /// The arguments, in the order in which they were added.
    pub slots: Seq<Slot>,
}

/// The values that a match assigned: from the name of each argument that is
/// present to its values, in the order in which they were met.
pub type Assignment = Map<Seq<char>, Seq<Seq<char>>>;

/// What an argument was built with.
pub uninterp spec fn arg_slot(arg: clap::Arg<'static, 'static>) -> Slot;

/// What an application was built with.
pub uninterp spec fn app_model(app: clap::App<'static, 'static>) -> AppModel;

/// What a match assigned.
pub uninterp spec fn matched_args(matches: clap::ArgMatches<'static>) -> Assignment;

/// Whether a match was made of text: each of its values is valid UTF-8, and
/// no subcommand was used.
pub uninterp spec fn made_of_text(matches: clap::ArgMatches<'static>) -> bool;

/// The message that an error of the engine holds.
pub uninterp spec fn error_text(error: clap::Error) -> Seq<char>;

/// Whether an error of the engine belongs on standard error, as
/// `clap::Error::use_stderr` tells it.
pub uninterp spec fn error_on_stderr(error: clap::Error) -> bool;

/// What the engine makes of the tokens of a command line, the first of which
/// it takes for the program's name: the assignment, or `None` where it
/// reports an error.
pub uninterp spec fn engine(app: AppModel, tokens: Seq<Seq<char>>) -> Option<Assignment>;

/// A text without the dashes that it begins with.
pub open spec fn without_leading_dashes(text: Seq<char>) -> Seq<char>
    decreases text.len(),
{
    if text.len() > 0 && text[0] == '-' {
        without_leading_dashes(text.drop_first())
    } else {
        text
    }
}

/// A slot with a name and nothing else set.
pub open spec fn bare_slot(name: Seq<char>) -> Slot {
    Slot {
        name,
        long: None,
        value_names: Seq::empty(),
        help: None,
        takes_value: false,
        required: false,
        multiple: false,
        default_value: None,
        overrides: Seq::empty(),
    }
}

/// What an application keeps of an argument that is added to it. Of a
/// switch, which takes no value, it keeps neither the names of a value nor
/// a default.
pub open spec fn stored(slot: Slot) -> Slot {
    if slot.takes_value {
        slot
    } else {
        Slot { value_names: Seq::empty(), default_value: None, ..slot }
    }
}

/// Whether an argument with this slot can be added to the application: its
/// name and its long form are not in use.
pub open spec fn can_add(app: AppModel, slot: Slot) -> bool {
    &&& slot.long is Some
    &&& forall|i: int| 0 <= i < app.slots.len() ==> (#[trigger] app.slots[i]).name != slot.name
    &&& forall|i: int| 0 <= i < app.slots.len() ==> (#[trigger] app.slots[i]).long != slot.long
}

/// Calls `clap::App::new`: an application with a name and nothing else.
#[verifier::external_body]
pub(crate) fn app_new(name: &'static str) -> (app: clap::App<'static, 'static>)
    ensures
        app_model(app) == (AppModel {
            name: name@,
            version: None,
            about: None,
            term_width: None,
            slots: Seq::empty(),
        }),
{
    clap::App::new(name)
}

/// Calls `clap::App::version`, which sets the version and nothing else.
#[verifier::external_body]
pub(crate) fn app_version(app: clap::App<'static, 'static>, version: &'static str) -> (out:
    clap::App<'static, 'static>)
    ensures
        app_model(out) == (AppModel { version: Some(version@), ..app_model(app) }),
{
    app.version(version)
}

/// Calls `clap::App::about`, which sets the description and nothing else.
#[verifier::external_body]
pub(crate) fn app_about(app: clap::App<'static, 'static>, about: &'static str) -> (out: clap::App<
    'static,
    'static,
>)
    ensures
        app_model(out) == (AppModel { about: Some(about@), ..app_model(app) }),
{
    app.about(about)
}

/// Calls `clap::App::set_term_width`, which sets the width at which help
/// messages are wrapped and nothing else.
#[verifier::external_body]
pub(crate) fn app_set_term_width(app: clap::App<'static, 'static>, width: usize) -> (out: clap::App<
    'static,
    'static,
>)
    ensures
        app_model(out) == (AppModel { term_width: Some(width as nat), ..app_model(app) }),
{
    app.set_term_width(width)
}

/// Calls `clap::App::arg`, which adds the argument after those that the
/// application holds, with what it keeps of it: an argument that takes no
/// value is kept as a flag, without the part that describes values. In a
/// debug build `clap` panics where the name or the long form is in use
/// already; an argument without a long form would be taken for a positional
/// one.
#[verifier::external_body]
pub(crate) fn app_arg(app: clap::App<'static, 'static>, arg: clap::Arg<'static, 'static>) -> (out:
    clap::App<'static, 'static>)
    requires
        can_add(app_model(app), arg_slot(arg)),
    ensures
        app_model(out) == (AppModel {
            slots: app_model(app).slots.push(stored(arg_slot(arg))),
            ..app_model(app)
        }),
{
    app.arg(arg)
}

/// Calls `clap::Arg::with_name`: an argument with a name and nothing else.
#[verifier::external_body]
pub(crate) fn arg_with_name(name: &'static str) -> (arg: clap::Arg<'static, 'static>)
    ensures
        arg_slot(arg) == bare_slot(name@),
{
    clap::Arg::with_name(name)
}

/// Calls `clap::Arg::long`, which sets the long form to the text without
/// its leading dashes.
#[verifier::external_body]
pub(crate) fn arg_long(arg: clap::Arg<'static, 'static>, long: &'static str) -> (out: clap::Arg<
    'static,
    'static,
>)
    ensures
        arg_slot(out) == (Slot { long: Some(without_leading_dashes(long@)), ..arg_slot(arg) }),
{
    arg.long(long)
}

/// Calls `clap::Arg::value_name`, which adds a name for the value and makes
/// the argument take a value.
#[verifier::external_body]
pub(crate) fn arg_value_name(arg: clap::Arg<'static, 'static>, name: &'static str) -> (out:
    clap::Arg<'static, 'static>)
    ensures
        arg_slot(out) == (Slot {
            value_names: arg_slot(arg).value_names.push(name@),
            takes_value: true,
            ..arg_slot(arg)
        }),
{
    arg.value_name(name)
}

/// Calls `clap::Arg::help`, which sets the help text.
#[verifier::external_body]
pub(crate) fn arg_help(arg: clap::Arg<'static, 'static>, help: &'static str) -> (out: clap::Arg<
    'static,
    'static,
>)
    ensures
        arg_slot(out) == (Slot { help: Some(help@), ..arg_slot(arg) }),
{
    arg.help(help)
}

/// Calls `clap::Arg::takes_value`, which sets or clears whether the argument
/// takes a value.
#[verifier::external_body]
pub(crate) fn arg_takes_value(arg: clap::Arg<'static, 'static>, takes_value: bool) -> (out:
    clap::Arg<'static, 'static>)
    ensures
        arg_slot(out) == (Slot { takes_value, ..arg_slot(arg) }),
{
    arg.takes_value(takes_value)
}

/// Calls `clap::Arg::required`, which sets or clears whether the argument
/// must be given.
#[verifier::external_body]
pub(crate) fn arg_required(arg: clap::Arg<'static, 'static>, required: bool) -> (out: clap::Arg<
    'static,
    'static,
>)
    ensures
        arg_slot(out) == (Slot { required, ..arg_slot(arg) }),
{
    arg.required(required)
}

/// Calls `clap::Arg::default_value`, which sets the default value and makes
/// the argument take a value.
#[verifier::external_body]
pub(crate) fn arg_default_value(arg: clap::Arg<'static, 'static>, value: &'static str) -> (out:
    clap::Arg<'static, 'static>)
    ensures
        arg_slot(out) == (Slot {
            default_value: Some(value@),
            takes_value: true,
            ..arg_slot(arg)
        }),
{
    arg.default_value(value)
}

/// Calls `clap::Arg::multiple`, which sets or clears whether the argument
/// may be given several times.
#[verifier::external_body]
pub(crate) fn arg_multiple(arg: clap::Arg<'static, 'static>, multiple: bool) -> (out: clap::Arg<
    'static,
    'static,
>)
    ensures
        arg_slot(out) == (Slot { multiple, ..arg_slot(arg) }),
{
    arg.multiple(multiple)
}

/// Calls `clap::Arg::overrides_with`, which adds a name to those that the
/// argument overrides.
#[verifier::external_body]
pub(crate) fn arg_overrides_with(arg: clap::Arg<'static, 'static>, name: &'static str) -> (out:
    clap::Arg<'static, 'static>)
    ensures
        arg_slot(out) == (Slot { overrides: arg_slot(arg).overrides.push(name@), ..arg_slot(arg) }),
{
    arg.overrides_with(name)
}

/// Calls `clap::App::get_matches_from_safe` on a copy of the application
/// (`clap::App::clone`). What the engine makes of the tokens is named, not
/// described: the match comes back exactly when `engine` gives an
/// assignment, and holds that assignment. The tokens are `String`s, the
/// defaults `&str`s and the application has no subcommands, so the match is
/// made of text. Nothing is said of the error.
///
/// Asked for the help, `clap` lays the message out inside this call. With a
/// width to wrap at, it subtracts the columns that the widest argument
/// takes from that width, and panics in a debug build where they are more
/// and a help text holds its line-break marker. Without wrapping the width
/// counts as the largest number, so only such applications are matched.
/// Asked for the version, `clap` writes it to standard output itself.
#[verifier::external_body]
pub(crate) fn run_matcher(app: &clap::App<'static, 'static>, tokens: &Vec<String>) -> (outcome:
    Result<clap::ArgMatches<'static>, clap::Error>)
    requires
        app_model(*app).term_width == Some(0nat),
    ensures
        match outcome {
            Ok(matches) => engine(app_model(*app), tokens.deep_view()) == Some(
                matched_args(matches),
            ) && made_of_text(matches),
            Err(_) => engine(app_model(*app), tokens.deep_view()) is None,
        },
{
    app.clone().get_matches_from_safe(tokens.iter())
}

/// Calls `clap::ArgMatches::values_of`: the values of the argument with that
/// name, where it is present. `clap` panics there on a value that is not
/// valid UTF-8; a match that was made of text holds none.
#[verifier::external_body]
pub(crate) fn matches_values_of(matches: &clap::ArgMatches<'static>, name: &str) -> (values: Option<
    Vec<String>,
>)
    requires
        made_of_text(*matches),
    ensures
        values is Some <==> matched_args(*matches).dom().contains(name@),
        values matches Some(found) ==> found.deep_view() == matched_args(*matches)[name@],
{
    matches.values_of(name).map(|found| found.map(String::from).collect())
}

/// Calls `clap::ArgMatches::is_present`: whether the argument with that name
/// is present. `clap` also takes the name of a subcommand that was used for
/// present; a match that was made of text has none.
#[verifier::external_body]
pub(crate) fn matches_is_present(matches: &clap::ArgMatches<'static>, name: &str) -> (present: bool)
    requires
        made_of_text(*matches),
    ensures
        present == matched_args(*matches).dom().contains(name@),
{
    matches.is_present(name)
}

/// Reads the field `message` of a `clap::Error`: a copy of the message that
/// the error holds, whatever it says.
#[verifier::external_body]
pub(crate) fn error_message(error: &clap::Error) -> (message: String)
    ensures
        message@ == error_text(*error),
{
    error.message.clone()
}

/// Calls `clap::Error::use_stderr`: whether the message is an error to show
/// on standard error, and not the help or the version that the user asked
/// for. The answer depends on the error alone and is named, not described.
#[verifier::external_body]
pub(crate) fn error_use_stderr(error: &clap::Error) -> (on_stderr: bool)
    ensures
        on_stderr == error_on_stderr(*error),
{
    error.use_stderr()
}

} // verus!
