//! The values that a resolution hands to the application.

use crate::schema::ConfigOption;
use crate::text::str_eq;
use vstd::prelude::*;

verus! {

/// What a resolution found for one option.
#[derive(Debug)]
pub enum ResolvedValue {
    /// The option was given nowhere and no default stood in for it.
    Absent,
    /// The option is a switch and was given.
    PresentFlag,
    /// The values of the option, in the order in which they were met: one
    /// for an option that is not repeatable, one or more for one that is.
    Values(Vec<String>),
}

impl View for ResolvedValue {
    /// `None` for an absent option, the values otherwise; a switch that is
    /// present has none.
    type V = Option<Seq<Seq<char>>>;

    open spec fn view(&self) -> Option<Seq<Seq<char>>> {
        match self {
            ResolvedValue::Absent => None,
            ResolvedValue::PresentFlag => Some(Seq::empty()),
            ResolvedValue::Values(values) => Some(values.deep_view()),
        }
    }
}

/// The texts of a list of strings, copied.
pub fn clone_strings(values: &Vec<String>) -> (copy: Vec<String>)
    ensures
        copy.deep_view() == values.deep_view(),
{
    let mut copy: Vec<String> = Vec::new();
    let mut i: usize = 0;
    while i < values.len()
        invariant
            i <= values.len(),
            copy.len() == i,
            forall|k: int| 0 <= k < i ==> copy[k]@ == values[k]@,
        decreases values.len() - i,
    {
        copy.push(values[i].clone());
        i += 1;
    }
    copy
}

impl ResolvedValue {
    /// `Values` holds at least one value.
    pub open spec fn wf(&self) -> bool {
        self matches ResolvedValue::Values(values) ==> values@.len() > 0
    }

    /// The resolved value for what the matching engine found: nothing, no
    /// values, or some values.
    pub fn from_values(found: Option<Vec<String>>) -> (value: ResolvedValue)
        ensures
            value.wf(),
            value@ == match found {
                Some(values) => Some(values.deep_view()),
                None => None,
            },
    {
        match found {
            None => ResolvedValue::Absent,
            Some(values) => {
                if values.len() == 0 {
                    ResolvedValue::PresentFlag
                } else {
                    ResolvedValue::Values(values)
                }
            },
        }
    }

    /// Whether the option was given, or had a default.
    pub fn is_provided(&self) -> (provided: bool)
        ensures
            provided == (self@ is Some),
    {
        match self {
            ResolvedValue::Absent => false,
            _ => true,
        }
    }

    /// The values as an optional list: `None` for an absent option, an empty
    /// list for a switch that is present.
    pub fn to_option(&self) -> (found: Option<Vec<String>>)
        ensures
            self@ == match found {
                Some(values) => Some(values.deep_view()),
                None => None,
            },
    {
        match self {
            ResolvedValue::Absent => None,
            ResolvedValue::PresentFlag => {
                let values: Vec<String> = Vec::new();
                Some(values)
            },
            ResolvedValue::Values(values) => Some(clone_strings(values)),
        }
    }
}

/// The result of a resolution: one value for each option of the schema,
/// found by the option's name.
#[derive(Debug)]
pub struct ResolvedConfig {
    options: Vec<ConfigOption>,
    values: Vec<ResolvedValue>,
}

impl View for ResolvedConfig {
    /// From the name of each option to what was found for it.
    type V = Map<Seq<char>, Option<Seq<Seq<char>>>>;

    closed spec fn view(&self) -> Map<Seq<char>, Option<Seq<Seq<char>>>> {
        Map::new(
            |name: Seq<char>| self.position(name) is Some,
            |name: Seq<char>| self.values[self.position(name)->0]@,
        )
    }
}

impl ResolvedConfig {
    /// The place of the option with that name, if there is one.
    pub closed spec fn position(&self, name: Seq<char>) -> Option<int> {
        if exists|i: int| 0 <= i < self.options.len() && (#[trigger] self.options[i]).name@ == name {
            Some(
                choose|i: int|
                    0 <= i < self.options.len() && (#[trigger] self.options[i]).name@ == name,
            )
        } else {
            None
        }
    }

    /// Every option has one value, and no two options share a name.
    pub closed spec fn wf(&self) -> bool {
        &&& self.options.len() == self.values.len()
        &&& forall|i: int, j: int|
            0 <= i < j < self.options.len() ==> (#[trigger] self.options[i]).name@ != (
            #[trigger] self.options[j]).name@
        &&& forall|i: int| 0 <= i < self.values.len() ==> (#[trigger] self.values[i]).wf()
    }

    /// The options, in the order in which they were added.
    pub closed spec fn keys(&self) -> Seq<ConfigOption> {
        self.options@
    }

    /// A result without options.
    pub fn new() -> (config: ResolvedConfig)
        ensures
            config.wf(),
            config@ == Map::<Seq<char>, Option<Seq<Seq<char>>>>::empty(),
            config.keys().len() == 0,
    {
        ResolvedConfig { options: Vec::new(), values: Vec::new() }
    }

    /// Adds an option whose name is not in use, with its value.
    pub(crate) fn insert(&mut self, option: ConfigOption, value: ResolvedValue)
        requires
            old(self).wf(),
            value.wf(),
            !old(self)@.dom().contains(option.name@),
        ensures
            final(self).wf(),
            final(self)@ == old(self)@.insert(option.name@, value@),
            final(self).keys() == old(self).keys().push(option),
    {
        let ghost before = *self;
        let ghost n = self.options.len() as int;
        self.options.push(option);
        self.values.push(value);
        proof {
            let after = *self;
            assert(after.options[n] == option);
            assert forall|name: Seq<char>| #[trigger]
                after@.dom().contains(name) == before@.insert(option.name@, value@).dom().contains(
                    name,
                ) by {
                if before.position(name) is Some {
                    assert(after.options[before.position(name)->0].name@ == name);
                }
            }
        }
    }

    /// The number of options.
    pub fn len(&self) -> (n: usize)
        ensures
            n == self.keys().len(),
    {
        self.options.len()
    }

    /// What was found for the option that has the name of `key`; the other
    /// fields of `key` play no part.
    pub fn get(&self, key: &ConfigOption) -> (found: Option<&ResolvedValue>)
        requires
            self.wf(),
        ensures
            match found {
                Some(value) => self@.dom().contains(key.name@) && value@ == self@[key.name@]
                    && value.wf(),
                None => !self@.dom().contains(key.name@),
            },
    {
        let mut i: usize = 0;
        while i < self.options.len()
            invariant
                i <= self.options.len(),
                self.wf(),
                forall|k: int| 0 <= k < i ==> (#[trigger] self.options[k]).name@ != key.name@,
            decreases self.options.len() - i,
        {
            if str_eq(self.options[i].name, key.name) {
                return Some(&self.values[i]);
            }
            i += 1;
        }
        None
    }
}

} // verus!
