//! The state of the graphical form and how its messages change it.
use vstd::prelude::*;
use crate::categories::{ActivityLevel, MeasureSystem, SexAtBirth};
use crate::fields::{parse_thousandths, parse_whole, spec_parse_thousandths, spec_parse_whole};
use crate::macros::Macros;
use crate::person::Person;
use crate::units::{lemma_conversions_monotonic, spec_inches_to_cm, spec_lbs_to_kg};

verus! {

/// An event of the form: a field's new text, or the submit action.
#[derive(Debug, Clone)]
pub enum Message {
    NameChange(String),
    AgeChange(String),
    WeightChange(String),
    HeightChange(String),
    Submit,
}

/// The form: the text of each field, the profile built from the last valid
/// submission, and whether a submission was tried and succeeded.
pub struct App {
    pub measure_system: MeasureSystem,
    pub name: String,
    pub age: String,
    pub weight: String,
    pub height: String,
    pub person: Person,
    pub macros: Macros,
    pub calculated: bool,
    pub try_calculated: bool,
}

/// The parsed entries: age in years (at most 255), weight in thousandths of
/// a pound and height in thousandths of an inch; `None` if any is invalid.
pub open spec fn spec_form_entries(age: Seq<char>, weight: Seq<char>, height: Seq<char>) -> Option<
    (u8, i64, i64),
> {
    match (spec_parse_whole(age, 255), spec_parse_thousandths(weight), spec_parse_thousandths(height)) {
        (Some(a), Some(w), Some(h)) => Some((a as u8, w, h)),
        _ => None,
    }
}

/// `p` is the profile that the form builds from `name` and parsed entries `e`.
pub open spec fn is_form_profile(p: Person, name: Seq<char>, e: (u8, i64, i64)) -> bool {
    &&& p.name@ == name
    &&& p.age == e.0
    &&& p.weight_milli_kg == spec_lbs_to_kg(e.1 as int)
    &&& p.height_milli_cm == spec_inches_to_cm(e.2 as int)
    &&& p.activity_lvl == ActivityLevel::Active
    &&& p.sex_assigned_at_birth == SexAtBirth::Male
}

/// Of two profiles that the form builds from the same name and age, the one
/// entered with the larger (or equal) weight and height has the larger (or
/// equal) metric weight and height.
pub proof fn lemma_form_profile_monotonic(
    p1: Person,
    p2: Person,
    name: Seq<char>,
    e1: (u8, i64, i64),
    e2: (u8, i64, i64),
)
    requires
        is_form_profile(p1, name, e1),
        is_form_profile(p2, name, e2),
        e1.1 <= e2.1,
        e1.2 <= e2.2,
    ensures
        p1.weight_milli_kg <= p2.weight_milli_kg,
        p1.height_milli_cm <= p2.height_milli_cm,
{
    lemma_conversions_monotonic(e1.1 as int, e2.1 as int);
    lemma_conversions_monotonic(e1.2 as int, e2.2 as int);
}

impl Default for App {
    /// Empty fields, the default profile, nothing submitted.
    fn default() -> (r: Self)
        ensures
            r.measure_system == MeasureSystem::Imperial,
            r.name@.len() == 0,
            r.age@.len() == 0,
            r.weight@.len() == 0,
            r.height@.len() == 0,
            r.person.name@.len() == 0,
            r.person.weight_milli_kg == 0,
            r.person.height_milli_cm == 0,
            r.person.age == 0,
            r.person.activity_lvl == ActivityLevel::Active,
            r.person.sex_assigned_at_birth == SexAtBirth::Male,
            r.macros == (Macros { calories: 0, protein: 0, carbs: 0, fat: 0 }),
            !r.calculated,
            !r.try_calculated,
    {
        App {
            measure_system: MeasureSystem::default(),
            name: String::new(),
            age: String::new(),
            weight: String::new(),
            height: String::new(),
            person: Person::default(),
            macros: Macros::default(),
            calculated: false,
            try_calculated: false,
        }
    }
}

impl App {
    /// The parsed entries of this form.
    pub open spec fn spec_entries(&self) -> Option<(u8, i64, i64)> {
        spec_form_entries(self.age@, self.weight@, self.height@)
    }

    /// Everything but the profile and the two flags is the same in `other`.
    pub open spec fn same_fields(&self, other: &App) -> bool {
        &&& self.measure_system == other.measure_system
        &&& self.name == other.name
        &&& self.age == other.age
        &&& self.weight == other.weight
        &&& self.height == other.height
        &&& self.macros == other.macros
    }

    /// Parses the entries; when all are valid, replaces the profile with the
    /// one they give (Active, Male) and returns true. Otherwise returns false
    /// and leaves the profile as it was.
    pub fn parse_entries(&mut self) -> (ok: bool)
        ensures
            ok == old(self).spec_entries() is Some,
            ok ==> is_form_profile(final(self).person, old(self).name@, old(self).spec_entries()->0),
            !ok ==> final(self).person == old(self).person,
            final(self).same_fields(old(self)),
            final(self).calculated == old(self).calculated,
            final(self).try_calculated == old(self).try_calculated,
    {
        let parsed_age: u8 = match parse_whole(self.age.as_str(), 255) {
            Some(age) => age as u8,
            None => return false,
        };

        let parsed_weight: i64 = match parse_thousandths(self.weight.as_str()) {
            Some(weight) => weight,
            None => return false,
        };

        let parsed_height: i64 = match parse_thousandths(self.height.as_str()) {
            Some(height) => height,
            None => return false,
        };

        self.person = Person::from_form(self.name.clone(), parsed_weight, parsed_height, parsed_age);

        true
    }

    /// Applies one message: a text change replaces that field; a submission
    /// parses the entries and records that it was tried and whether it held.
    pub fn update(&mut self, message: Message)
        ensures
            message matches Message::NameChange(s) ==> *final(self) == (App { name: s, ..*old(self) }),
            message matches Message::AgeChange(s) ==> *final(self) == (App { age: s, ..*old(self) }),
            message matches Message::WeightChange(s) ==> *final(self) == (App {
                weight: s,
                ..*old(self)
            }),
            message matches Message::HeightChange(s) ==> *final(self) == (App {
                height: s,
                ..*old(self)
            }),
            message is Submit ==> {
                &&& final(self).same_fields(old(self))
                &&& final(self).try_calculated
                &&& final(self).calculated == old(self).spec_entries() is Some
                &&& final(self).calculated ==> is_form_profile(
                    final(self).person,
                    old(self).name@,
                    old(self).spec_entries()->0,
                )
                &&& !final(self).calculated ==> final(self).person == old(self).person
            },
    {
        match message {
            Message::Submit => {
                self.calculated = self.parse_entries();
                self.try_calculated = true;
            },
            Message::NameChange(new_name) => self.name = new_name,
            Message::AgeChange(new_age) => self.age = new_age,
            Message::WeightChange(new_weight) => self.weight = new_weight,
            Message::HeightChange(new_height) => self.height = new_height,
        }
    }
}

} // verus!
