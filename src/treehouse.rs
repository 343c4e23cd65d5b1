//! A treehouse roster: known visitors are greeted according to their standing,
//! unknown ones are put on probation.

use vstd::prelude::*;

verus! {

/// Age below which a welcome note comes with a warning.
pub const DRINKING_AGE: i8 = 21;

/// How a visitor is received.
#[derive(Debug)]
pub enum VisitorAction {
    Accept,
    AcceptWithNote { note: String },
    Refuse,
    Probation,
}

/// A visitor on the roster; names are kept in lower case.
#[derive(Debug)]
pub struct Visitor {
    pub name: String,
    pub action: VisitorAction,
    pub age: i8,
}

/// What to tell a known visitor.
#[derive(Debug)]
pub enum Greeting {
    Welcome,
    WelcomeWithNote { note: String, underage: bool },
    Probation,
    Refused,
}

/// What happened when someone gave a name at the door.
#[derive(Debug)]
pub enum Arrival {
    /// A visitor of that name is on the roster.
    Known { index: usize, greeting: Greeting },
    /// Nobody of that name was listed: a probationary visitor was added.
    Listed,
    /// No name was given: the door closes.
    Done,
}

/// The lower-case form of a string, as `str::to_lowercase` gives it.
pub uninterp spec fn lower_of(s: Seq<char>) -> Seq<char>;

/// The string without leading and trailing whitespace, as `str::trim` gives
/// it.
pub uninterp spec fn trim_of(s: Seq<char>) -> Seq<char>;

/// Relies on `str::to_lowercase`: the result depends on the characters
/// alone.
#[verifier::external_body]
fn lowercase(s: &str) -> (r: String)
    ensures
        r@ == lower_of(s@),
{
    s.to_lowercase()
}

/// Relies on `str::trim`: the result depends on the characters alone.
#[verifier::external_body]
fn trimmed(s: &str) -> (r: &str)
    ensures
        r@ == trim_of(s@),
{
    s.trim()
}

/// A name as the roster keeps it: trimmed, then lower-cased.
pub fn normalize_name(raw: &str) -> (r: String)
    ensures
        r@ == lower_of(trim_of(raw@)),
{
    lowercase(trimmed(raw))
}

impl Visitor {
    /// The greeting this visitor gets.
    pub open spec fn greeting_of(self) -> Greeting {
        match self.action {
            VisitorAction::Accept => Greeting::Welcome,
            VisitorAction::AcceptWithNote { note } => Greeting::WelcomeWithNote {
                note,
                underage: self.age < DRINKING_AGE,
            },
            VisitorAction::Probation => Greeting::Probation,
            VisitorAction::Refuse => Greeting::Refused,
        }
    }

    /// A visitor, with the name lower-cased.
    pub fn new(name: &str, action: VisitorAction, age: i8) -> (r: Visitor)
        ensures
            r.name@ == lower_of(name@),
            r.action == action,
            r.age == age,
    {
        Visitor { name: lowercase(name), action, age }
    }

    /// What to tell this visitor at the door.
    pub fn greet_visitor(&self) -> (r: Greeting)
        ensures
            r == self.greeting_of(),
    {
        match &self.action {
            VisitorAction::Accept => Greeting::Welcome,
            VisitorAction::AcceptWithNote { note } => Greeting::WelcomeWithNote {
                note: note.clone(),
                underage: self.age < DRINKING_AGE,
            },
            VisitorAction::Probation => Greeting::Probation,
            VisitorAction::Refuse => Greeting::Refused,
        }
    }
}

/// The first visitor on the roster with the given name.
pub fn find_visitor(list: &Vec<Visitor>, name: &String) -> (r: Option<usize>)
    ensures
        match r {
            Some(i) => i < list@.len() && list@[i as int].name@ == name@ && forall|j: int|
                0 <= j < i ==> list@[j].name@ != name@,
            None => forall|j: int| 0 <= j < list@.len() ==> list@[j].name@ != name@,
        },
{
    let mut i: usize = 0;
    while i < list.len()
        invariant
            0 <= i <= list@.len(),
            forall|j: int| 0 <= j < i ==> list@[j].name@ != name@,
        decreases list@.len() - i,
    {
        if list[i].name == *name {
            return Some(i);
        }
        i = i + 1;
    }
    None
}

/// Someone gives a name at the door: a listed visitor is greeted, an empty
/// name closes the door, and any other name is added to the roster on
/// probation, at age zero.
pub fn arrive(list: &mut Vec<Visitor>, name: &String) -> (r: Arrival)
    ensures
        match r {
            Arrival::Known { index, greeting } => {
                &&& index < old(list)@.len()
                &&& old(list)@[index as int].name@ == name@
                &&& forall|j: int| 0 <= j < index ==> old(list)@[j].name@ != name@
                &&& greeting == old(list)@[index as int].greeting_of()
                &&& final(list)@ == old(list)@
            },
            Arrival::Done => {
                &&& name@.len() == 0
                &&& forall|j: int| 0 <= j < old(list)@.len() ==> old(list)@[j].name@ != name@
                &&& final(list)@ == old(list)@
            },
            Arrival::Listed => {
                &&& name@.len() != 0
                &&& forall|j: int| 0 <= j < old(list)@.len() ==> old(list)@[j].name@ != name@
                &&& final(list)@.len() == old(list)@.len() + 1
                &&& final(list)@.drop_last() == old(list)@
                &&& final(list)@.last().name@ == lower_of(name@)
                &&& final(list)@.last().action == VisitorAction::Probation
                &&& final(list)@.last().age == 0
            },
        },
{
    match find_visitor(list, name) {
        Some(i) => Arrival::Known { index: i, greeting: list[i].greet_visitor() },
        None => {
            if name.as_str().is_empty() {
                Arrival::Done
            } else {
                list.push(Visitor::new(name.as_str(), VisitorAction::Probation, 0));
                Arrival::Listed
            }
        },
    }
}

} // verus!
