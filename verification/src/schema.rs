//! The description of the options that an application accepts.

use crate::text::str_eq;
use vstd::prelude::*;
use vstd::string::StrSliceExecFns;

verus! {

/// An individual option that the program can interpret.
#[derive(Clone, Copy, Debug)]
pub struct ConfigOption {
    /// The name of the option, without leading dashes.
    pub name: &'static str,
    /// The value to use when the option is not given. It is ignored unless
    /// `takes_argument` is set: a switch has no sensible default.
    pub default: Option<&'static str>,
    /// Whether the option has to be given.
    pub required: bool,
    /// Whether the option takes a value; if not, it is a switch that is
    /// present or missing.
    pub takes_argument: bool,
    /// The help text to show for the option.
    pub help: &'static str,
    /// A longer text, for generated documentation.
    pub documentation: &'static str,
    /// Whether the option may be given several times. If so, all its values
    /// are kept in order; if not, the last occurrence wins.
    pub list: bool,
}

/// The mathematical content of a [`ConfigOption`].
pub struct OptionSpec {
    pub name: Seq<char>,
    pub default_value: Option<Seq<char>>,
    pub required: bool,
    pub takes_argument: bool,
    pub help: Seq<char>,
    pub documentation: Seq<char>,
    pub repeatable: bool,
}

impl View for ConfigOption {
    type V = OptionSpec;

    open spec fn view(&self) -> OptionSpec {
        OptionSpec {
            name: self.name@,
            default_value: match self.default {
                Some(value) => Some(value@),
                None => None,
            },
            required: self.required,
            takes_argument: self.takes_argument,
            help: self.help@,
            documentation: self.documentation@,
            repeatable: self.list,
        }
    }
}

impl PartialEq for ConfigOption {
    /// Two options with the same name are the same option, whatever their
    /// other fields hold.
    fn eq(&self, other: &Self) -> (same: bool) {
        str_eq(self.name, other.name)
    }
}

impl Eq for ConfigOption {

}

impl core::hash::Hash for ConfigOption {
    /// Calls `str::hash` on the name, so that options that are equal hash
    /// alike.
    #[verifier::external_body]
    fn hash<H: core::hash::Hasher>(&self, state: &mut H) {
        self.name.hash(state);
    }
}

impl vstd::std_specs::cmp::PartialEqSpecImpl for ConfigOption {
    open spec fn obeys_eq_spec() -> bool {
        true
    }

    open spec fn eq_spec(&self, other: &Self) -> bool {
        self.name@ == other.name@
    }
}

/// The properties of an application and the options that it understands.
/// Apart from the options, the values only serve the help message.
#[derive(Debug)]
pub struct Configuration {
    /// The name of the application.
    pub name: &'static str,
    /// The version of the application.
    pub version: &'static str,
    /// A brief description of what the application does.
    pub about: &'static str,
    /// The options, none of which has the name of another.
    pub options: Vec<ConfigOption>,
}

impl Clone for Configuration {
    fn clone(&self) -> (copy: Self)
        ensures
            copy@ == self@,
            copy.options@ == self.options@,
    {
        let mut options: Vec<ConfigOption> = Vec::new();
        let mut i: usize = 0;
        while i < self.options.len()
            invariant
                i <= self.options.len(),
                options@ == self.options@.take(i as int),
            decreases self.options.len() - i,
        {
            options.push(self.options[i]);
            assert(self.options@.take(i as int).push(self.options[i as int])
                =~= self.options@.take(i + 1));
            i += 1;
        }
        assert(self.options@.take(i as int) =~= self.options@);
        Configuration { name: self.name, version: self.version, about: self.about, options }
    }
}

/// The mathematical content of a [`Configuration`].
pub struct Schema {
    pub name: Seq<char>,
    pub version: Seq<char>,
    pub about: Seq<char>,
    pub options: Seq<OptionSpec>,
}

/// The contents of a list of options.
pub open spec fn option_specs(options: Seq<ConfigOption>) -> Seq<OptionSpec> {
    Seq::new(options.len(), |i: int| options[i]@)
}

impl View for Configuration {
    type V = Schema;

    open spec fn view(&self) -> Schema {
        Schema {
            name: self.name@,
            version: self.version@,
            about: self.about@,
            options: option_specs(self.options@),
        }
    }
}

/// A name is usable when it does not begin with a dash.
pub open spec fn valid_name(name: Seq<char>) -> bool {
    name.len() == 0 || name[0] != '-'
}

/// Whether an earlier option than the one at `index` has its name.
pub open spec fn repeats_earlier_name(options: Seq<OptionSpec>, index: int) -> bool {
    exists|i: int| 0 <= i < index && options[i].name == #[trigger] options[index].name
}

/// Whether the option at `index` breaks the rules of a schema.
pub open spec fn defect_at(options: Seq<OptionSpec>, index: int) -> bool {
    !valid_name(options[index].name) || repeats_earlier_name(options, index)
}

impl Schema {
    /// Whether some option has the given name.
    pub open spec fn has_option(self, name: Seq<char>) -> bool {
        exists|i: int| 0 <= i < self.options.len() && #[trigger] self.options[i].name == name
    }

    /// A schema is well formed when every name is usable and no two options
    /// share a name.
    pub open spec fn wf(self) -> bool {
        &&& forall|i: int|
            0 <= i < self.options.len() ==> valid_name(#[trigger] self.options[i].name)
        &&& forall|i: int, j: int|
            0 <= i < j < self.options.len() ==> #[trigger] self.options[i].name
                != #[trigger] self.options[j].name
    }
}

/// What is wrong with a schema.
#[derive(Clone, Copy, Debug, PartialEq, Eq, Structural)]
pub enum SchemaError {
    /// The name of the option at `index` begins with a dash.
    InvalidName { index: usize },
    /// The option at `index` has the name of an earlier option.
    DuplicateName { index: usize },
}

/// Whether the error tells the first option, in order, that breaks a rule,
/// and the rule that it breaks: a name that begins with a dash, or else a
/// name that an earlier option has.
pub open spec fn is_first_defect(options: Seq<OptionSpec>, error: SchemaError) -> bool {
    match error {
        SchemaError::InvalidName { index } => {
            &&& index < options.len()
            &&& !valid_name(options[index as int].name)
            &&& forall|k: int| 0 <= k < index ==> !defect_at(options, k)
        },
        SchemaError::DuplicateName { index } => {
            &&& index < options.len()
            &&& valid_name(options[index as int].name)
            &&& repeats_earlier_name(options, index as int)
            &&& forall|k: int| 0 <= k < index ==> !defect_at(options, k)
        },
    }
}

impl Configuration {
    /// Whether the options obey the rules of a schema.
    pub open spec fn wf(&self) -> bool {
        self@.wf()
    }

    /// Checks the rules of a schema. The error tells the first option, in
    /// order, that breaks one: a name that begins with a dash, or else a
    /// name that an earlier option has.
    pub fn validate(&self) -> (checked: Result<(), SchemaError>)
        ensures
            checked is Ok <==> self.wf(),
            checked matches Err(error) ==> is_first_defect(self@.options, error),
    {
        let ghost specs = self@.options;
        let mut j: usize = 0;
        while j < self.options.len()
            invariant
                j <= self.options.len(),
                specs == self@.options,
                specs.len() == self.options.len(),
                forall|k: int| 0 <= k < j ==> !defect_at(specs, k),
            decreases self.options.len() - j,
        {
            let name = self.options[j].name;
            assert(specs[j as int].name == name@);
            if !name.is_empty() && name.get_char(0) == '-' {
                return Err(SchemaError::InvalidName { index: j });
            }
            let mut i: usize = 0;
            while i < j
                invariant
                    i <= j < self.options.len(),
                    specs == self@.options,
                    specs.len() == self.options.len(),
                    name@ == specs[j as int].name,
                    valid_name(name@),
                    forall|k: int| 0 <= k < j ==> !defect_at(specs, k),
                    forall|k: int| 0 <= k < i ==> specs[k].name != specs[j as int].name,
                decreases j - i,
            {
                assert(specs[i as int].name == self.options[i as int].name@);
                if str_eq(self.options[i].name, name) {
                    return Err(SchemaError::DuplicateName { index: j });
                }
                i += 1;
            }
            j += 1;
        }
        proof {
            assert forall|a: int, b: int| 0 <= a < b < specs.len() implies specs[a].name
                != specs[b].name by {
                assert(!defect_at(specs, b));
            }
            assert forall|a: int| 0 <= a < specs.len() implies valid_name(specs[a].name) by {
                assert(!defect_at(specs, a));
            }
        }
        Ok(())
    }
}

} // verus!
