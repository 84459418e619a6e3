//! The configuration store: two bounds, each written at most once.

use vstd::prelude::*;
use crate::number::Double;

verus! {

/// One of the two bounds.
#[derive(Clone, Copy, Debug, PartialEq, Eq, Structural)]
pub enum Bound {
    Lower,
    Upper,
}

/// What the properties offer for one bound.
#[derive(Clone, Copy, Debug, PartialEq, Eq, Structural)]
pub enum BoundSetting {
    /// No property carries the bound's name.
    Missing,
    /// The first property of that name does not spell a number.
    Invalid,
    /// The first property of that name spells this number.
    Value(Double),
}

/// The two slots. Each is empty until its first write and keeps that value
/// from then on; nothing empties or overwrites a slot.
#[derive(Debug)]
pub struct Config {
    lower: Option<Double>,
    upper: Option<Double>,
}

/// What a [`Config`] holds.
pub struct ConfigView {
    pub lower: Option<Double>,
    pub upper: Option<Double>,
}

/// A slot after a write is offered to it: a full slot keeps its value, an
/// empty one takes the number if there is one.
pub open spec fn written_once(slot: Option<Double>, setting: BoundSetting) -> Option<Double> {
    match slot {
        Some(_) => slot,
        None => match setting {
            BoundSetting::Value(v) => Some(v),
            _ => None,
        },
    }
}

impl ConfigView {
    /// The store after one initialization with the given settings.
    pub open spec fn stored(self, lower: BoundSetting, upper: BoundSetting) -> ConfigView {
        ConfigView {
            lower: written_once(self.lower, lower),
            upper: written_once(self.upper, upper),
        }
    }
}

impl View for Config {
    type V = ConfigView;

    closed spec fn view(&self) -> ConfigView {
        ConfigView { lower: self.lower, upper: self.upper }
    }
}

/// The name of the property that holds the lower bound.
pub open spec fn lower_name() -> Seq<char> {
    "temperature_lower_bound"@
}

/// The name of the property that holds the upper bound.
pub open spec fn upper_name() -> Seq<char> {
    "temperature_upper_bound"@
}

/// Whether `i` is the place of the first property called `name`.
pub open spec fn is_first_named(properties: Seq<(String, String)>, name: Seq<char>, i: int) -> bool {
    &&& 0 <= i < properties.len()
    &&& properties[i].0@ == name
    &&& forall|j: int| 0 <= j < i ==> (#[trigger] properties[j]).0@ != name
}

/// Whether no property is called `name`.
pub open spec fn none_named(properties: Seq<(String, String)>, name: Seq<char>) -> bool {
    forall|j: int| 0 <= j < properties.len() ==> (#[trigger] properties[j]).0@ != name
}

/// The place of the first property called `name`, if there is one.
pub fn find_property(properties: &Vec<(String, String)>, name: &str) -> (r: Option<usize>)
    ensures
        match r {
            Some(i) => is_first_named(properties@, name@, i as int),
            None => none_named(properties@, name@),
        },
{
    let wanted = name.to_owned();
    let mut i: usize = 0;
    while i < properties.len()
        invariant
            i <= properties.len(),
            wanted@ == name@,
            forall|j: int| 0 <= j < i ==> (#[trigger] properties@[j]).0@ != name@,
        decreases properties.len() - i,
    {
        if properties[i].0 == wanted {
            return Some(i);
        }
        i += 1;
    }
    None
}

/// The setting that the outcome of parsing a property's value amounts to.
pub open spec fn setting_of(parsed: Option<Double>) -> BoundSetting {
    match parsed {
        Some(v) => BoundSetting::Value(v),
        None => BoundSetting::Invalid,
    }
}

/// Whether `setting` is what the properties offer for the bound called
/// `name`, when `parse` reads the value of a property: the first property of
/// that name counts, and it is the only one handed to `parse`.
pub open spec fn offers<F: Fn(&String) -> Option<Double>>(
    properties: Seq<(String, String)>,
    name: Seq<char>,
    parse: F,
    setting: BoundSetting,
) -> bool {
    ||| none_named(properties, name) && setting == BoundSetting::Missing
    ||| exists|i: int, parsed: Option<Double>|
        is_first_named(properties, name, i) && #[trigger] parse.ensures(
            (&properties[i].1,),
            parsed,
        ) && setting == setting_of(parsed)
}

/// Looks the bound called `name` up and has `parse` read its value.
pub fn read_setting<F: Fn(&String) -> Option<Double>>(
    properties: &Vec<(String, String)>,
    name: &str,
    parse: &F,
) -> (setting: BoundSetting)
    requires
        forall|text: &String| parse.requires((text,)),
    ensures
        offers(properties@, name@, *parse, setting),
{
    match find_property(properties, name) {
        None => BoundSetting::Missing,
        Some(i) => match parse(&properties[i].1) {
            Some(v) => BoundSetting::Value(v),
            None => BoundSetting::Invalid,
        },
    }
}

impl Config {
    /// A store with both slots empty.
    pub fn new() -> (r: Config)
        ensures
            r@.lower is None,
            r@.upper is None,
    {
        Config { lower: None, upper: None }
    }

    /// Writes the lower bound if its slot is empty, and says whether it did.
    pub fn set_lower_bound(&mut self, value: Double) -> (written: bool)
        ensures
            written == (old(self)@.lower is None),
            final(self)@.lower == written_once(old(self)@.lower, BoundSetting::Value(value)),
            final(self)@.upper == old(self)@.upper,
    {
        if self.lower.is_none() {
            self.lower = Some(value);
            true
        } else {
            false
        }
    }

    /// Writes the upper bound if its slot is empty, and says whether it did.
    pub fn set_upper_bound(&mut self, value: Double) -> (written: bool)
        ensures
            written == (old(self)@.upper is None),
            final(self)@.upper == written_once(old(self)@.upper, BoundSetting::Value(value)),
            final(self)@.lower == old(self)@.lower,
    {
        if self.upper.is_none() {
            self.upper = Some(value);
            true
        } else {
            false
        }
    }

    /// The lower bound, if it was written.
    pub fn lower_bound(&self) -> (r: Option<Double>)
        ensures
            r == self@.lower,
    {
        self.lower
    }

    /// The upper bound, if it was written.
    pub fn upper_bound(&self) -> (r: Option<Double>)
        ensures
            r == self@.upper,
    {
        self.upper
    }

    /// The lower bound of a store in which it was written.
    pub fn get_lower_bound(&self) -> (r: Double)
        requires
            self@.lower is Some,
        ensures
            self@.lower == Some(r),
    {
        self.lower.unwrap()
    }

    /// The upper bound of a store in which it was written.
    pub fn get_upper_bound(&self) -> (r: Double)
        requires
            self@.upper is Some,
        ensures
            self@.upper == Some(r),
    {
        self.upper.unwrap()
    }

    /// One initialization, given what the properties offer for each bound.
    /// It always succeeds, also when a slot stays empty.
    pub fn store(&mut self, lower: BoundSetting, upper: BoundSetting) -> (ok: bool)
        ensures
            ok,
            final(self)@ == old(self)@.stored(lower, upper),
    {
        if let BoundSetting::Value(v) = lower {
            let _ = self.set_lower_bound(v);
        }
        if let BoundSetting::Value(v) = upper {
            let _ = self.set_upper_bound(v);
        }
        true
    }

    /// Initializes the store from named properties. Each bound is looked up
    /// by its name and its value is read by `parse`; a bound that is missing
    /// or does not parse leaves its slot as it was, and so does one whose
    /// slot is full. Initialization as a whole always succeeds.
    pub fn initialize<F: Fn(&String) -> Option<Double>>(
        &mut self,
        properties: &Vec<(String, String)>,
        parse: F,
    ) -> (ok: bool)
        requires
            forall|text: &String| parse.requires((text,)),
        ensures
            ok,
            exists|lower: BoundSetting, upper: BoundSetting|
                offers(properties@, lower_name(), parse, lower) && offers(
                    properties@,
                    upper_name(),
                    parse,
                    upper,
                ) && final(self)@ == #[trigger] old(self)@.stored(lower, upper),
    {
        let lower = read_setting(properties, "temperature_lower_bound", &parse);
        let upper = read_setting(properties, "temperature_upper_bound", &parse);
        self.store(lower, upper)
    }
}

/// The first write wins: a bound that one initialization has written is
/// what every later initialization leaves, whatever it offers.
pub proof fn lemma_first_write_wins(
    config: ConfigView,
    lower: BoundSetting,
    upper: BoundSetting,
    later_lower: BoundSetting,
    later_upper: BoundSetting,
)
    ensures
        config.stored(lower, upper).lower is Some ==> config.stored(lower, upper).stored(
            later_lower,
            later_upper,
        ).lower == config.stored(lower, upper).lower,
        config.stored(lower, upper).upper is Some ==> config.stored(lower, upper).stored(
            later_lower,
            later_upper,
        ).upper == config.stored(lower, upper).upper,
{
}

/// Two initializations of an empty store with two numbers for one bound
/// leave the first number in its slot.
pub proof fn lemma_second_value_discarded(
    first: Double,
    second: Double,
    other: BoundSetting,
    later_other: BoundSetting,
)
    ensures
        (ConfigView { lower: None, upper: None }).stored(BoundSetting::Value(first), other).stored(
            BoundSetting::Value(second),
            later_other,
        ).lower == Some(first),
        (ConfigView { lower: None, upper: None }).stored(other, BoundSetting::Value(first)).stored(
            later_other,
            BoundSetting::Value(second),
        ).upper == Some(first),
{
}

/// A bound that is missing or does not parse leaves its slot as it was.
pub proof fn lemma_unusable_setting_changes_nothing(config: ConfigView, other: BoundSetting)
    ensures
        config.stored(BoundSetting::Missing, other).lower == config.lower,
        config.stored(BoundSetting::Invalid, other).lower == config.lower,
        config.stored(other, BoundSetting::Missing).upper == config.upper,
        config.stored(other, BoundSetting::Invalid).upper == config.upper,
{
}

} // verus!
