//! What holds of every resolution.

use crate::builder::{
    bypasses, combined, extracted, matcher_of, resolution, resolves, ConfigError, Resolution,
};
use crate::engine::engine;
use crate::loader::{loaded, nothing_loaded, EnvironmentModel, FileReadModel};
use crate::schema::{defect_at, is_first_defect, OptionSpec, Schema, SchemaError};
use vstd::prelude::*;

verus! {

/// A resolution with the environment variable unset gives what one gives
/// with the variable set to the empty text, whatever stands for the file.
pub proof fn law_unset_variable_is_empty_variable(
    schema: Schema,
    commandline: Seq<Seq<char>>,
    unset_file: FileReadModel,
    empty_file: FileReadModel,
)
    ensures
        resolution(schema, commandline, EnvironmentModel { variable: None, file: unset_file })
            == resolution(
            schema,
            commandline,
            EnvironmentModel { variable: Some(Seq::empty()), file: empty_file },
        ),
{
}

/// Where the command line holds the switch that keeps the file from being
/// used, the file has no effect: whatever the environment, the values are
/// those that the command line alone gives, and the loader reports nothing.
pub proof fn law_bypass_ignores_file(
    schema: Schema,
    commandline: Seq<Seq<char>>,
    one: EnvironmentModel,
    other: EnvironmentModel,
)
    requires
        engine(matcher_of(schema), commandline) matches Some(first) && bypasses(first),
    ensures
        resolution(schema, commandline, one) == resolution(schema, commandline, other),
        resolution(schema, commandline, one) == Some(
            (extracted(schema, engine(matcher_of(schema), commandline)->0), nothing_loaded()),
        ),
{
}

/// Where a resolution does not use the environment, its outcome does not
/// depend on it.
pub proof fn law_unread_environment_has_no_effect(
    schema: Schema,
    commandline: Seq<Seq<char>>,
    one: EnvironmentModel,
    other: EnvironmentModel,
)
    requires
        engine(matcher_of(schema), commandline) matches Some(first) ==> bypasses(first),
    ensures
        resolution(schema, commandline, one) == resolution(schema, commandline, other),
{
}

/// A schema has one first defect: two errors that both tell it are equal.
pub proof fn lemma_first_defect_is_unique(
    options: Seq<OptionSpec>,
    one: SchemaError,
    other: SchemaError,
)
    requires
        is_first_defect(options, one),
        is_first_defect(options, other),
    ensures
        one == other,
{
    let i = match one {
        SchemaError::InvalidName { index } => index,
        SchemaError::DuplicateName { index } => index,
    };
    let j = match other {
        SchemaError::InvalidName { index } => index,
        SchemaError::DuplicateName { index } => index,
    };
    assert(defect_at(options, i as int));
    assert(defect_at(options, j as int));
}

/// Resolving twice with the same schema, command line and environment
/// gives the same both times: both succeed or both fail; two successes
/// hold the same values and the same report of the loader; two refusals of
/// a schema hold the same error.
pub proof fn law_resolution_is_repeatable(
    schema: Schema,
    commandline: Seq<Seq<char>>,
    environment: EnvironmentModel,
    first: Result<Resolution, ConfigError>,
    second: Result<Resolution, ConfigError>,
)
    requires
        resolves(schema, commandline, environment, first),
        resolves(schema, commandline, environment, second),
    ensures
        first is Ok <==> second is Ok,
        first matches Ok(one) ==> second matches Ok(other) ==> one.config@ == other.config@
            && one.file@ == other.file@,
        first matches Err(ConfigError::Schema(one)) ==> second matches Err(
            ConfigError::Schema(other),
        ) && one == other,
        first matches Err(ConfigError::Match(_)) ==> second matches Err(ConfigError::Match(_)),
{
    if !schema.wf() {
        lemma_first_defect_is_unique(
            schema.options,
            first->Err_0->Schema_0,
            second->Err_0->Schema_0,
        );
    }
}

/// In the tokens that are matched in the end, the program's name stays
/// first, the tokens of the file follow in their order, and the rest of the
/// command line comes after them in its order: every token of the file
/// stands before every argument of the command line.
pub proof fn law_file_tokens_precede_command_line(
    commandline: Seq<Seq<char>>,
    from_file: Seq<Seq<char>>,
)
    requires
        commandline.len() > 0,
        from_file.len() > 0,
    ensures
        combined(commandline, from_file).len() == commandline.len() + from_file.len(),
        combined(commandline, from_file)[0] == commandline[0],
        forall|i: int|
            0 <= i < from_file.len() ==> combined(commandline, from_file)[1 + i] == from_file[i],
        forall|j: int|
            1 <= j < commandline.len() ==> combined(commandline, from_file)[from_file.len() + j]
                == commandline[j],
{
}

/// A token occurs among the arguments that are matched in the end as often
/// as in the file and among the arguments of the command line together.
pub proof fn law_occurrences_add_up(
    commandline: Seq<Seq<char>>,
    from_file: Seq<Seq<char>>,
    token: Seq<char>,
)
    requires
        commandline.len() > 0,
    ensures
        combined(commandline, from_file).skip(1).to_multiset().count(token)
            == from_file.to_multiset().count(token) + commandline.skip(1).to_multiset().count(
            token,
        ),
{
    if from_file.len() == 0 {
        assert(from_file.to_multiset().count(token) == 0) by {
            from_file.to_multiset_ensures();
        }
    } else {
        assert(combined(commandline, from_file).skip(1) =~= from_file + commandline.skip(1));
        vstd::seq_lib::lemma_multiset_commutative(from_file, commandline.skip(1));
    }
}

/// Tokens of the file count as if they had been typed behind the program's
/// name. Where the command line is accepted by itself and does not keep the
/// file out, and the file gives tokens, the resolution succeeds exactly
/// when that of the combined tokens without any file does, and with the
/// same values.
pub proof fn law_file_tokens_read_as_typed(
    schema: Schema,
    commandline: Seq<Seq<char>>,
    environment: EnvironmentModel,
    unread: FileReadModel,
)
    requires
        engine(matcher_of(schema), commandline) matches Some(first) && !bypasses(first),
        loaded(environment).tokens.len() > 0,
    ensures
        ({
            let typed = combined(commandline, loaded(environment).tokens);
            let alone = resolution(
                schema,
                typed,
                EnvironmentModel { variable: None, file: unread },
            );
            match resolution(schema, commandline, environment) {
                Some((values, file)) => alone matches Some((same, _)) && same == values && file
                    == loaded(environment),
                None => alone is None,
            }
        }),
{
}

/// The tokens that stand directly behind a token equal to `flag`, in their
/// order: for the flag of an option that takes a value, the values that the
/// tokens give for it.
pub open spec fn values_behind(tokens: Seq<Seq<char>>, flag: Seq<char>) -> Seq<Seq<char>>
    decreases tokens.len(),
{
    if tokens.len() < 2 {
        Seq::empty()
    } else if tokens[tokens.len() - 2] == flag {
        values_behind(tokens.drop_last(), flag).push(tokens.last())
    } else {
        values_behind(tokens.drop_last(), flag)
    }
}

/// Where the first of two lists of tokens does not end with the flag, the
/// values behind the flag in both together are those of the first followed
/// by those of the second.
pub proof fn lemma_values_behind_both(
    first: Seq<Seq<char>>,
    second: Seq<Seq<char>>,
    flag: Seq<char>,
)
    requires
        first.len() == 0 || first.last() != flag,
    ensures
        values_behind(first + second, flag) == values_behind(first, flag) + values_behind(
            second,
            flag,
        ),
    decreases second.len(),
{
    let both = first + second;
    if second.len() == 0 {
        assert(values_behind(first, flag) + values_behind(second, flag) =~= values_behind(
            first,
            flag,
        ));
    } else {
        let shorter = second.drop_last();
        lemma_values_behind_both(first, shorter, flag);
        assert(both.drop_last() =~= first + shorter);
        assert(values_behind(both, flag) =~= values_behind(first, flag) + values_behind(
            second,
            flag,
        ));
    }
}

/// In the tokens that are matched in the end, the values behind a flag are
/// those of the file, in their order, followed by those of the command
/// line, in theirs, as long as the file does not end with the flag itself.
/// What the engine makes of them is its own rule.
pub proof fn law_values_of_the_file_come_first(
    commandline: Seq<Seq<char>>,
    from_file: Seq<Seq<char>>,
    flag: Seq<char>,
)
    requires
        commandline.len() > 0,
        from_file.len() == 0 || from_file.last() != flag,
    ensures
        values_behind(combined(commandline, from_file).skip(1), flag) == values_behind(
            from_file,
            flag,
        ) + values_behind(commandline.skip(1), flag),
{
    lemma_values_behind_both(from_file, commandline.skip(1), flag);
    if from_file.len() > 0 {
        assert(combined(commandline, from_file).skip(1) =~= from_file + commandline.skip(1));
    }
}

/// Where the command line gives a value behind a flag, the last value
/// behind that flag in the tokens that are matched in the end is the last
/// one of the command line, whatever the file gives.
pub proof fn law_last_value_is_the_command_lines(
    commandline: Seq<Seq<char>>,
    from_file: Seq<Seq<char>>,
    flag: Seq<char>,
)
    requires
        commandline.len() > 0,
        from_file.len() == 0 || from_file.last() != flag,
        values_behind(commandline.skip(1), flag).len() > 0,
    ensures
        values_behind(combined(commandline, from_file).skip(1), flag).len() > 0,
        values_behind(combined(commandline, from_file).skip(1), flag).last() == values_behind(
            commandline.skip(1),
            flag,
        ).last(),
{
    law_values_of_the_file_come_first(commandline, from_file, flag);
}

/// Where the command line gives no value behind a flag, the values behind
/// that flag in the tokens that are matched in the end are those of the
/// file.
pub proof fn law_values_of_the_file_alone(
    commandline: Seq<Seq<char>>,
    from_file: Seq<Seq<char>>,
    flag: Seq<char>,
)
    requires
        commandline.len() > 0,
        from_file.len() == 0 || from_file.last() != flag,
        values_behind(commandline.skip(1), flag).len() == 0,
    ensures
        values_behind(combined(commandline, from_file).skip(1), flag) == values_behind(
            from_file,
            flag,
        ),
{
    law_values_of_the_file_come_first(commandline, from_file, flag);
    assert(values_behind(from_file, flag) + values_behind(commandline.skip(1), flag)
        =~= values_behind(from_file, flag));
}

/// Without tokens from the file, the tokens that are matched in the end
/// are those of the command line.
pub proof fn law_no_file_tokens_no_change(commandline: Seq<Seq<char>>)
    ensures
        combined(commandline, Seq::empty()) == commandline,
{
}

} // verus!
