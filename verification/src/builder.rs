//! The resolution engine: from a schema, the tokens of the command line and
//! the environment to one value for each option.
//!
//! The command line is matched once by itself, to learn whether it asks for
//! the configuration file to be left alone. If it does not, and the file
//! gives tokens, they are put between the program's name and the rest of the
//! command line, and the whole is matched again: what comes later wins, so
//! the command line overrides the file.

use crate::engine::{
    app_about, app_arg, app_model, app_new, app_set_term_width, app_version, arg_default_value,
    arg_help, arg_long,
    arg_multiple, arg_overrides_with, arg_required, arg_slot, arg_takes_value, arg_value_name,
    arg_with_name, bare_slot, can_add, engine, error_message, error_on_stderr, error_text,
    error_use_stderr, made_of_text, matched_args, matches_is_present, matches_values_of,
    run_matcher, without_leading_dashes, AppModel, Assignment, Slot,
};
use crate::loader::{
    args, loaded, may_give_tokens, nothing_loaded, Environment, EnvironmentModel, FileTokens,
    Loaded,
};
use crate::resolved::{clone_strings, ResolvedConfig, ResolvedValue};
use crate::schema::{
    is_first_defect, valid_name, Configuration, OptionSpec, Schema, SchemaError,
};
use vstd::prelude::*;

verus! {

/// The name of the switch that, given on the command line, keeps the
/// configuration file from being used.
pub const NO_CONFIG: &'static str = "no-config";

/// The width that tells the matching engine not to wrap its help messages.
pub const NO_WRAPPING: usize = 0;

/// What the matching engine reported of a command line that it refused, or
/// of a request for the help or the version.
#[derive(Debug)]
pub struct MatchError {
    /// The message, as the engine worded it.
    pub message: String,
    /// Whether the message belongs on standard error: it does not where the
    /// user asked for the help or the version.
    pub use_stderr: bool,
}

/// Why a resolution gave no values.
#[derive(Debug)]
pub enum ConfigError {
    /// The schema breaks a rule.
    Schema(SchemaError),
    /// The matching engine refused the tokens.
    Match(MatchError),
}

/// The values of a resolution, with what the loader reported.
#[derive(Debug)]
pub struct Resolution {
    /// One value for each option of the schema.
    pub config: ResolvedConfig,
    /// The tokens that the configuration file gave, and what went wrong
    /// while it was read.
    pub file: FileTokens,
}

/// What the matching engine is told of an option.
pub open spec fn slot_of(option: OptionSpec) -> Slot {
    Slot {
        name: option.name,
        long: Some(without_leading_dashes(option.name)),
        value_names: if option.takes_argument {
            seq![option.name]
        } else {
            Seq::empty()
        },
        help: Some(option.help),
        takes_value: option.takes_argument,
        required: option.required,
        multiple: option.repeatable,
        default_value: if option.takes_argument {
            option.default_value
        } else {
            None
        },
        overrides: if option.repeatable {
            Seq::empty()
        } else {
            seq![option.name]
        },
    }
}

/// What the matching engine is told of the first `n` options.
pub open spec fn slots_of(options: Seq<OptionSpec>, n: int) -> Seq<Slot> {
    Seq::new(n as nat, |i: int| slot_of(options[i]))
}

/// The application that the matching engine is given for a schema: its
/// name, version and description, help messages that are not wrapped, and
/// one slot for each option, in order.
pub open spec fn matcher_of(schema: Schema) -> AppModel {
    AppModel {
        name: schema.name,
        version: Some(schema.version),
        about: Some(schema.about),
        term_width: Some(NO_WRAPPING as nat),
        slots: slots_of(schema.options, schema.options.len() as int),
    }
}

/// The tokens to match in the end. Without tokens from the file they are
/// those of the command line. Otherwise the tokens of the file stand
/// between the program's name and the rest of the command line.
pub open spec fn combined(commandline: Seq<Seq<char>>, from_file: Seq<Seq<char>>) -> Seq<
    Seq<char>,
> {
    if from_file.len() == 0 {
        commandline
    } else {
        seq![commandline[0]] + from_file + commandline.skip(1)
    }
}

/// Whether a match of the command line asks for the file to be left alone.
pub open spec fn bypasses(first: Assignment) -> bool {
    first.dom().contains(NO_CONFIG@)
}

/// What the loader gives after the first match: nothing where the command
/// line asks for the file to be left alone.
pub open spec fn consulted(first: Assignment, environment: EnvironmentModel) -> Loaded {
    if bypasses(first) {
        nothing_loaded()
    } else {
        loaded(environment)
    }
}

/// What a match holds for a name: nothing, or the values.
pub open spec fn value_of(assignment: Assignment, name: Seq<char>) -> Option<Seq<Seq<char>>> {
    if assignment.dom().contains(name) {
        Some(assignment[name])
    } else {
        None
    }
}

/// Whether one of the first `n` options has the name.
pub open spec fn names_upto(options: Seq<OptionSpec>, n: int, name: Seq<char>) -> bool {
    exists|i: int| 0 <= i < n && (#[trigger] options[i]).name == name
}

/// What a match holds for the first `n` options of a schema.
pub open spec fn extracted_upto(options: Seq<OptionSpec>, assignment: Assignment, n: int) -> Map<
    Seq<char>,
    Option<Seq<Seq<char>>>,
> {
    Map::new(
        |name: Seq<char>| names_upto(options, n, name),
        |name: Seq<char>| value_of(assignment, name),
    )
}

/// What a match holds for the options of a schema: one entry for each.
pub open spec fn extracted(schema: Schema, assignment: Assignment) -> Map<
    Seq<char>,
    Option<Seq<Seq<char>>>,
> {
    extracted_upto(schema.options, assignment, schema.options.len() as int)
}

/// The outcome of a resolution for a well-formed schema: the values and
/// what the loader reported, or `None` where the matching engine refuses
/// the command line, or the command line with the tokens of the file.
pub open spec fn resolution(
    schema: Schema,
    commandline: Seq<Seq<char>>,
    environment: EnvironmentModel,
) -> Option<(Map<Seq<char>, Option<Seq<Seq<char>>>>, Loaded)> {
    match engine(matcher_of(schema), commandline) {
        None => None,
        Some(first) => {
            let file = consulted(first, environment);
            if file.tokens.len() == 0 {
                Some((extracted(schema, first), file))
            } else {
                match engine(matcher_of(schema), combined(commandline, file.tokens)) {
                    None => None,
                    Some(last) => Some((extracted(schema, last), file)),
                }
            }
        },
    }
}

/// Whether `outcome` is what a resolution owes. A schema that breaks a rule
/// gives the schema error that tells its first defect. For a well-formed
/// schema the outcome is `Ok` exactly when the matching engine accepts what
/// it is given, and then holds the values and what the loader reported;
/// otherwise it is the error of the engine.
pub open spec fn resolves(
    schema: Schema,
    commandline: Seq<Seq<char>>,
    environment: EnvironmentModel,
    outcome: Result<Resolution, ConfigError>,
) -> bool {
    if !schema.wf() {
        outcome matches Err(ConfigError::Schema(error)) && is_first_defect(schema.options, error)
    } else {
        match resolution(schema, commandline, environment) {
            Some((values, file)) => outcome matches Ok(found) && found.config@ == values
                && found.file@ == file,
            None => outcome matches Err(ConfigError::Match(_)),
        }
    }
}

/// A name that does not begin with a dash has no dashes to lose.
pub proof fn lemma_valid_name_keeps_dashes(name: Seq<char>)
    requires
        valid_name(name),
    ensures
        without_leading_dashes(name) == name,
{
}

/// What was extracted for a schema has an entry for each of its names and
/// for nothing else.
pub proof fn lemma_extracted_names(schema: Schema, values: Map<Seq<char>, Option<Seq<Seq<char>>>>)
    requires
        exists|assignment: Assignment| values == extracted(schema, assignment),
    ensures
        forall|name: Seq<char>| values.dom().contains(name) <==> schema.has_option(name),
{
    assert forall|name: Seq<char>| values.dom().contains(name) <==> schema.has_option(name) by {
        if values.dom().contains(name) {
            let i = choose|i: int|
                0 <= i < schema.options.len() && (#[trigger] schema.options[i]).name == name;
        }
        if schema.has_option(name) {
            let i = choose|i: int|
                0 <= i < schema.options.len() && #[trigger] schema.options[i].name == name;
        }
    }
}

/// The owner of a configuration: it describes the options that it accepts
/// and makes its own value of what was found for them.
pub trait Configurable: Sized {
    /// The schema that `get_config_description` describes. An owner states
    /// it; until it does, nothing is known of it.
    open spec fn description() -> Schema {
        arbitrary()
    }

    /// Whether `made` is what `parse_values` makes of the values. An owner
    /// that states nothing promises nothing.
    open spec fn materializes(values: Map<Seq<char>, Option<Seq<Seq<char>>>>, made: Self) -> bool {
        true
    }

    /// The description of the options to look for on the command line.
    fn get_config_description() -> (description: Configuration)
        ensures
            description@ == Self::description(),
    ;

    /// Makes the configuration of the values that were found. There is one
    /// entry for each option of the description: absent, a switch that is
    /// present, or the values.
    fn parse_values(parsed_values: ResolvedConfig) -> (made: Self)
        requires
            parsed_values.wf(),
            forall|name: Seq<char>|
                parsed_values@.dom().contains(name) <==> Self::description().has_option(name),
        ensures
            Self::materializes(parsed_values@, made),
    ;
}

/// Resolves the configuration of a program from its command line and from
/// an optional file that an environment variable names.
pub struct ConfigBuilder {}

impl ConfigBuilder {
    /// Builds the application of the matching engine for a description: one
    /// argument for each option, found under `--` and the option's name. A
    /// default is handed on only for an option that takes a value. An
    /// option that is a list may be given several times; any other
    /// overrides itself, so that its last occurrence wins. Help messages
    /// are left as the texts are written, not wrapped at a width: the engine
    /// lays out any schema that way.
    fn create_matcher(config: &Configuration) -> (matches: clap::App<'static, 'static>)
        requires
            config.wf(),
        ensures
            app_model(matches) == matcher_of(config@),
    {
        let mut matches = app_set_term_width(
            app_about(app_version(app_new(config.name), config.version), config.about),
            NO_WRAPPING,
        );
        let ghost schema = config@;
        let mut i: usize = 0;
        assert(app_model(matches).slots =~= slots_of(schema.options, 0));
        while i < config.options.len()
            invariant
                i <= config.options.len(),
                config.wf(),
                schema == config@,
                app_model(matches) == (AppModel {
                    slots: slots_of(schema.options, i as int),
                    ..matcher_of(schema)
                }),
            decreases config.options.len() - i,
        {
            let option = config.options[i];
            assert(option@ == schema.options[i as int]);
            let mut new_arg = arg_required(
                arg_takes_value(
                    arg_help(
                        arg_value_name(
                            arg_long(arg_with_name(option.name), option.name),
                            option.name,
                        ),
                        option.help,
                    ),
                    option.takes_argument,
                ),
                option.required,
            );
            if let Some(default_value) = option.default {
                if option.takes_argument {
                    new_arg = arg_default_value(new_arg, default_value);
                }
            }
            if option.list {
                new_arg = arg_multiple(new_arg, true);
            } else {
                new_arg = arg_overrides_with(new_arg, option.name);
            }
            proof {
                assert(bare_slot(option.name@).value_names.push(option.name@) =~= seq![
                    option.name@,
                ]);
                lemma_valid_name_keeps_dashes(option.name@);
                assert forall|k: int| 0 <= k < i implies (#[trigger] app_model(
                    matches,
                ).slots[k]).name != option.name@ && app_model(matches).slots[k].long != Some(
                    option.name@,
                ) by {
                    lemma_valid_name_keeps_dashes(schema.options[k].name);
                }
                assert(slots_of(schema.options, i as int).push(slot_of(option@)) =~= slots_of(
                    schema.options,
                    i + 1,
                ));
            }
            matches = app_arg(matches, new_arg);
            i += 1;
        }
        matches
    }

    /// Puts the arguments of the configuration file before those of the
    /// command line, after the program's name, which stays first. Without
    /// arguments from the file the command line comes back unchanged.
    pub fn maybe_combine_arguments(commandline: Vec<String>, args_from_file: Vec<String>) -> (merged:
        Vec<String>)
        requires
            args_from_file@.len() > 0 ==> commandline@.len() > 0,
        ensures
            merged.deep_view() == combined(commandline.deep_view(), args_from_file.deep_view()),
    {
        if args_from_file.is_empty() {
            return commandline;
        }
        let mut cliargs = commandline;
        let mut merged = args_from_file;
        let program = cliargs.remove(0);
        merged.insert(0, program);
        merged.append(&mut cliargs);
        merged
    }

    /// Asks the loader for the tokens of the configuration file, unless the
    /// command line asked for the file to be left alone: then there are no
    /// tokens and nothing is reported.
    pub fn consult(bypass: bool, environment: &Environment) -> (file: FileTokens)
        ensures
            file@ == if bypass {
                nothing_loaded()
            } else {
                loaded(environment@)
            },
    {
        if bypass {
            FileTokens::none()
        } else {
            args(environment)
        }
    }

    /// Whether a resolution of this command line uses the environment: it
    /// does unless the command line holds the switch that keeps the file
    /// out. A caller that has yet to look at the environment learns here
    /// whether to look at all. The errors are those of a resolution that
    /// stops at the first match. Asked for the version, the matching engine
    /// writes it to standard output itself, during the match.
    pub fn reads_file(description: &Configuration, commandline: &Vec<String>) -> (wanted: Result<
        bool,
        ConfigError,
    >)
        ensures
            !description.wf() ==> (wanted matches Err(ConfigError::Schema(error))
                && is_first_defect(description@.options, error)),
            description.wf() ==> match engine(matcher_of(description@), commandline.deep_view()) {
                Some(first) => wanted == Ok::<bool, ConfigError>(!bypasses(first)),
                None => wanted matches Err(ConfigError::Match(_)),
            },
    {
        match description.validate() {
            Ok(()) => {},
            Err(error) => {
                return Err(ConfigError::Schema(error));
            },
        }
        let matcher = Self::create_matcher(description);
        match run_matcher(&matcher, commandline) {
            Ok(first) => Ok(!matches_is_present(&first, NO_CONFIG)),
            Err(error) => Err(ConfigError::Match(Self::match_error(&error))),
        }
    }

    /// What the engine reported, as the library hands it on: the message
    /// of the error, word for word, and whether it belongs on standard
    /// error.
    fn match_error(error: &clap::Error) -> (made: MatchError)
        ensures
            made.message@ == error_text(*error),
            made.use_stderr == error_on_stderr(*error),
    {
        MatchError { message: error_message(error), use_stderr: error_use_stderr(error) }
    }

    /// Resolves the values of the options of a description. The command
    /// line is matched first by itself. Unless it asks for the file to be
    /// left alone, the loader is asked for the tokens of the file; where
    /// there are some, the command line is matched again with them put in.
    /// The values are read from the last match that was made. A schema that
    /// breaks a rule is refused before anything is matched, and an error of
    /// the matching engine ends the resolution. The command line begins
    /// with the program's name, behind which the tokens of the file are
    /// put; an empty one is resolved only where no file can give tokens.
    ///
    /// Nothing is read or written here but for one thing: asked for the
    /// version, the matching engine writes it to standard output itself,
    /// during the match, and the error that comes back has no message. The
    /// help comes back as the message of the error, not wrapped at any
    /// width.
    pub fn resolve(
        description: &Configuration,
        commandline: Vec<String>,
        environment: &Environment,
    ) -> (outcome: Result<Resolution, ConfigError>)
        requires
            commandline@.len() > 0 || !may_give_tokens(environment@),
        ensures
            resolves(description@, commandline.deep_view(), environment@, outcome),
            outcome matches Ok(found) ==> {
                &&& found.config.wf()
                &&& found.config.keys() == description.options@
                &&& forall|name: Seq<char>|
                    found.config@.dom().contains(name) <==> description@.has_option(name)
            },
    {
        match description.validate() {
            Ok(()) => {},
            Err(error) => {
                return Err(ConfigError::Schema(error));
            },
        }
        let matcher = Self::create_matcher(description);
        let first = match run_matcher(&matcher, &commandline) {
            Ok(matches) => matches,
            Err(error) => {
                return Err(ConfigError::Match(Self::match_error(&error)));
            },
        };
        let file = Self::consult(matches_is_present(&first, NO_CONFIG), environment);
        if file.tokens.is_empty() {
            let config = Self::extract(description, &first);
            proof {
                lemma_extracted_names(description@, config@);
            }
            return Ok(Resolution { config, file });
        }
        let merged = Self::maybe_combine_arguments(commandline, clone_strings(&file.tokens));
        match run_matcher(&matcher, &merged) {
            Ok(last) => {
                let config = Self::extract(description, &last);
                proof {
                    lemma_extracted_names(description@, config@);
                }
                Ok(Resolution { config, file })
            },
            Err(error) => Err(ConfigError::Match(Self::match_error(&error))),
        }
    }

    /// Resolves the configuration of `T`: asks it for its description,
    /// resolves the values of the options, and hands them to `T`, which
    /// makes its configuration of them. What the loader reported comes
    /// back beside it. As in `resolve`, the matching engine writes the
    /// version to standard output itself where the command line asks for
    /// it.
    pub fn build<T: Configurable>(commandline: Vec<String>, environment: &Environment) -> (built:
        Result<(T, FileTokens), ConfigError>)
        requires
            commandline@.len() > 0 || !may_give_tokens(environment@),
        ensures
            !T::description().wf() ==> (built matches Err(ConfigError::Schema(error))
                && is_first_defect(T::description().options, error)),
            T::description().wf() ==> match resolution(
                T::description(),
                commandline.deep_view(),
                environment@,
            ) {
                Some((values, file)) => (built matches Ok((made, reported)) && T::materializes(
                    values,
                    made,
                ) && reported@ == file),
                None => built matches Err(ConfigError::Match(_)),
            },
    {
        let description = T::get_config_description();
        match Self::resolve(&description, commandline, environment) {
            Ok(found) => Ok((T::parse_values(found.config), found.file)),
            Err(error) => Err(error),
        }
    }

    /// Reads what a match holds for each option of the description.
    fn extract(description: &Configuration, matches: &clap::ArgMatches<'static>) -> (config:
        ResolvedConfig)
        requires
            description.wf(),
            made_of_text(*matches),
        ensures
            config.wf(),
            config@ == extracted(description@, matched_args(*matches)),
            config.keys() == description.options@,
    {
        let mut config = ResolvedConfig::new();
        let ghost options = description@.options;
        let ghost assignment = matched_args(*matches);
        let mut i: usize = 0;
        while i < description.options.len()
            invariant
                i <= description.options.len(),
                description.wf(),
                options == description@.options,
                assignment == matched_args(*matches),
                made_of_text(*matches),
                config.wf(),
                config@ == extracted_upto(options, assignment, i as int),
                config.keys() == description.options@.take(i as int),
            decreases description.options.len() - i,
        {
            let option = description.options[i];
            let value = ResolvedValue::from_values(matches_values_of(matches, option.name));
            proof {
                assert(!names_upto(options, i as int, option.name@)) by {
                    assert(options[i as int].name == option.name@);
                }
                assert(extracted_upto(options, assignment, i as int).insert(
                    option.name@,
                    value@,
                ) =~= extracted_upto(options, assignment, i + 1)) by {
                    assert forall|name: Seq<char>|
                        names_upto(options, i + 1, name) == (name == option.name@ || names_upto(
                            options,
                            i as int,
                            name,
                        )) by {
                        if name == option.name@ {
                            assert(options[i as int].name == name);
                        }
                    }
                }
                assert(description.options@.take(i as int).push(option)
                    =~= description.options@.take(i + 1));
            }
            config.insert(option, value);
            i += 1;
        }
        config
    }
}

} // verus!
