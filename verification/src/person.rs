//! Non-player characters: a name, optional per-action reactions, and the
//! conversation they hold.

use vstd::prelude::*;

use crate::actions::{Action, OnAction, OnActionModel};
use crate::conversation::{clone_converse, converse_view, Converse, ConverseModel};

verus! {

/// A person the player can meet in a room.
#[derive(Debug)]
pub struct Person {
    pub name: String,
    pub actions: Option<Vec<(Action, OnAction)>>,
    pub conversation: Converse,
}

/// The mathematical shape of a person.
#[verifier::ext_equal]
pub ghost struct PersonModel {
    pub name: Seq<char>,
    pub actions: Option<Seq<(Action, OnActionModel)>>,
    pub conversation: ConverseModel,
}

/// The shape of one person.
pub open spec fn person_view(p: Person) -> PersonModel {
    PersonModel {
        name: p.name@,
        actions: match p.actions {
            Some(v) => Some(Seq::new(v@.len(), |i: int| (v@[i].0, v@[i].1@))),
            None => None,
        },
        conversation: converse_view(p.conversation),
    }
}

impl View for Person {
    type V = PersonModel;

    open spec fn view(&self) -> PersonModel {
        person_view(*self)
    }
}

impl Person {
    /// Creates a new person.
    pub fn new(
        name: String,
        actions: Option<Vec<(Action, OnAction)>>,
        conversation: Converse,
    ) -> (r: Self)
        ensures
            r.name == name,
            r.actions == actions,
            r.conversation == conversation,
    {
        Person { name, actions, conversation }
    }
}

/// Copies a person; the copy has the same shape.
pub fn clone_person(p: &Person) -> (r: Person)
    ensures
        person_view(r) == person_view(*p),
{
    let name = p.name.clone();
    let actions: Option<Vec<(Action, OnAction)>> = match &p.actions {
        None => None,
        Some(v) => {
            let mut out: Vec<(Action, OnAction)> = Vec::new();
            let mut i: usize = 0;
            while i < v.len()
                invariant
                    i <= v@.len(),
                    out@.len() == i,
                    forall|j: int| 0 <= j < i ==> out@[j].0 == v@[j].0 && out@[j].1 == v@[j].1,
                decreases v@.len() - i,
            {
                let entry = &v[i];
                out.push((entry.0, entry.1.clone()));
                i = i + 1;
            }
            Some(out)
        },
    };
    let conversation = clone_converse(&p.conversation);
    let r = Person { name, actions, conversation };
    proof {
        assert(person_view(r) =~~= person_view(*p));
    }
    r
}

/// The names of the people, in order; rendering numbers them 1-first.
pub fn menu_choices(people: &Vec<Person>) -> (options: Vec<String>)
    ensures
        options.deep_view().len() == people@.len(),
        forall|i: int| 0 <= i < people@.len() ==> options.deep_view()[i] == people@[i].name@,
{
    let mut options: Vec<String> = Vec::new();
    let mut i: usize = 0;
    while i < people.len()
        invariant
            i <= people@.len(),
            options.deep_view().len() == i,
            forall|j: int| 0 <= j < i ==> options.deep_view()[j] == people@[j].name@,
        decreases people@.len() - i,
    {
        let ghost old_dv = options.deep_view();
        options.push(people[i].name.clone());
        proof {
            assert(options.deep_view() =~= old_dv.push(people@[i as int].name@));
        }
        i = i + 1;
    }
    options
}

} // verus!
