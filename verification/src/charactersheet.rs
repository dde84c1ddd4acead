//! The character sheet: name, stats, race and class. The console dialogue
//! that fills one in lives outside; here are the data and the decisions.

use vstd::prelude::*;

use crate::rng::random_in_range;
use crate::text::{first_word, str_eq};

verus! {

/// A character in the game. All characters have a name; the rest is filled
/// in during setup.
#[derive(Debug)]
pub struct Character {
    pub name: String,
    pub stats: Option<Stats>,
    pub class: Option<Class>,
    pub race: Option<Race>,
}

impl Clone for Character {
    fn clone(&self) -> (r: Self)
        ensures
            r == *self,
    {
        Character {
            name: self.name.clone(),
            stats: self.stats,
            class: match &self.class {
                Some(c) => Some(c.clone()),
                None => None,
            },
            race: match &self.race {
                Some(c) => Some(c.clone()),
                None => None,
            },
        }
    }
}

/// Stats of a character.
#[derive(Clone, Copy, PartialEq, Eq, Structural, Debug)]
pub struct Stats {
    pub int: i32,
    pub str: i32,
    pub dex: i32,
    pub chr: i32,
    pub dur: i32,
}

impl Stats {
    pub fn new(strength: i32, intellect: i32, dexterity: i32, charisma: i32, durability: i32) -> (
        r: Self)
        ensures
            r == (Stats {
                int: intellect,
                str: strength,
                dex: dexterity,
                chr: charisma,
                dur: durability,
            }),
    {
        Stats {
            int: intellect,
            str: strength,
            dex: dexterity,
            chr: charisma,
            dur: durability,
        }
    }
}

/// Character race.
#[derive(Debug)]
pub struct Race {
    pub name: String,
}

impl Clone for Race {
    fn clone(&self) -> (r: Self)
        ensures
            r == *self,
    {
        Race { name: self.name.clone() }
    }
}

impl Race {
    pub fn new(name: String) -> (r: Self)
        ensures
            r.name == name,
    {
        Race { name }
    }
}

/// Character class.
#[derive(Debug)]
pub struct Class {
    pub name: String,
    pub can_cast: bool,
    pub can_steal: bool,
    pub max_hp: i32,
}

impl Clone for Class {
    fn clone(&self) -> (r: Self)
        ensures
            r == *self,
    {
        Class {
            name: self.name.clone(),
            can_cast: self.can_cast,
            can_steal: self.can_steal,
            max_hp: self.max_hp,
        }
    }
}

impl Class {
    pub fn new(name: String, can_cast: bool, can_steal: bool, max_hp: i32) -> (r: Self)
        ensures
            r.name == name,
            r.can_cast == can_cast,
            r.can_steal == can_steal,
            r.max_hp == max_hp,
    {
        Class { name, can_cast, can_steal, max_hp }
    }
}

/// Builds a character from just a name; everything else is still open.
pub fn build_character(name: String) -> (r: Character)
    ensures
        r.name == name,
        r.stats is None,
        r.class is None,
        r.race is None,
{
    Character { name, race: None, class: None, stats: None }
}

/// The three classes a character may pick from.
pub fn standard_classes() -> (classes: Vec<Class>)
    ensures
        classes@.len() == 3,
        classes@[0].name@ == "Wizard"@ && classes@[0].can_cast && !classes@[0].can_steal
            && classes@[0].max_hp == 4,
        classes@[1].name@ == "Theif"@ && !classes@[1].can_cast && classes@[1].can_steal
            && classes@[1].max_hp == 6,
        classes@[2].name@ == "Fighter"@ && !classes@[2].can_cast && !classes@[2].can_steal
            && classes@[2].max_hp == 8,
{
    let mut classes: Vec<Class> = Vec::new();
    classes.push(Class::new(String::from_str("Wizard"), true, false, 4));
    classes.push(Class::new(String::from_str("Theif"), false, true, 6));
    classes.push(Class::new(String::from_str("Fighter"), false, false, 8));
    classes
}

/// Picks the class named by the first word, already folded to lower case:
/// the character comes back with that class set, or not at all when the word
/// names none.
pub fn parse_commands(words: Vec<String>, character: Character, classes: &Vec<Class>) -> (r:
    Option<Character>)
    requires
        classes@.len() >= 3,
    ensures
        ({
            let cmd = first_word(words.deep_view());
            &&& (cmd == "wizard"@ ==> r == Some(
                Character { class: Some(classes@[0]), ..character },
            ))
            &&& (cmd == "theif"@ ==> r == Some(
                Character { class: Some(classes@[1]), ..character },
            ))
            &&& (cmd == "fighter"@ ==> r == Some(
                Character { class: Some(classes@[2]), ..character },
            ))
            &&& (cmd != "wizard"@ && cmd != "theif"@ && cmd != "fighter"@ ==> r is None)
        }),
{
    proof {
        reveal_strlit("");
        reveal_strlit("wizard");
        reveal_strlit("theif");
        reveal_strlit("fighter");
    }
    let mut character = character;
    let cmd: &str = if words.len() > 0 {
        words[0].as_str()
    } else {
        ""
    };
    proof {
        if words.len() == 0 {
            assert(cmd@ =~= first_word(words.deep_view()));
        } else {
            assert(cmd@ == first_word(words.deep_view()));
        }
    }
    if str_eq(cmd, "wizard") {
        character.class = Some(classes[0].clone());
        Some(character)
    } else if str_eq(cmd, "theif") {
        character.class = Some(classes[1].clone());
        Some(character)
    } else if str_eq(cmd, "fighter") {
        character.class = Some(classes[2].clone());
        Some(character)
    } else {
        None
    }
}

/// Rolls one set of five stats, one draw each over the 3d6 range: lowest 3,
/// highest 18.
pub fn roll_stats() -> (stats: Vec<i32>)
    ensures
        stats@.len() == 5,
        forall|i: int| 0 <= i < 5 ==> 3 <= #[trigger] stats@[i] <= 18,
{
    let mut stats: Vec<i32> = Vec::new();
    let mut i: usize = 0;
    while i < 5
        invariant
            i <= 5,
            stats@.len() == i,
            forall|j: int| 0 <= j < i ==> 3 <= #[trigger] stats@[j] <= 18,
        decreases 5 - i,
    {
        stats.push(random_in_range(3, 19));
        i = i + 1;
    }
    stats
}

/// Turns five rolled values into the character's stats, in the rolled order.
pub fn accept_stats(stats: &Vec<i32>) -> (r: Stats)
    requires
        stats@.len() >= 5,
    ensures
        r == (Stats {
            str: stats@[0],
            int: stats@[1],
            dex: stats@[2],
            chr: stats@[3],
            dur: stats@[4],
        }),
{
    Stats::new(stats[0], stats[1], stats[2], stats[3], stats[4])
}

} // verus!
