//! Game setup state: the bare session shell that carries the character
//! while the adventure is being chosen and the sheet filled in.

use vstd::prelude::*;

use crate::charactersheet::Character;

verus! {

/// The status of the game during setup, and the character it is for.
#[derive(Debug)]
pub struct Game {
    pub active: bool,
    pub game_character: Character,
}

impl Game {
    /// Is the game active?
    pub fn is_active(&self) -> (r: bool)
        ensures
            r == self.active,
    {
        self.active
    }

    /// Sets the game active or not.
    pub fn set_acive(&mut self, active: bool)
        ensures
            *final(self) == (Game { active, ..*old(self) }),
    {
        self.active = active;
    }

    /// The character played.
    pub fn get_character(&self) -> (r: &Character)
        ensures
            *r == self.game_character,
    {
        &self.game_character
    }

    /// Replaces the character.
    pub fn update_character(&mut self, character: Character)
        ensures
            *final(self) == (Game { game_character: character, ..*old(self) }),
    {
        self.game_character = character;
    }
}

} // verus!
