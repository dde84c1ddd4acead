//! The world: the base room of an adventure, and slots for the room the
//! player is in and the one they came from.

use vstd::prelude::*;

use crate::room::Room;

verus! {

/// The world handed to a session: its base room, and the room the player is
/// in and was in last.
#[derive(Debug)]
pub struct World {
    pub room: Room,
    pub current_room: Option<Room>,
    pub previous_room: Option<Room>,
}

impl World {
    /// Creates a new world with the base room.
    pub fn new(room: Room) -> (w: Self)
        ensures
            w.room == room,
            w.current_room is None,
            w.previous_room is None,
    {
        World { room, current_room: None, previous_room: None }
    }

    /// Gets the base room.
    pub fn get_base_room(&self) -> (r: &Room)
        ensures
            *r == self.room,
    {
        &self.room
    }

    /// Records the room the player is in.
    pub fn set_current_room(self, current_room: Room) -> (w: World)
        ensures
            w.room == self.room,
            w.current_room == Some(current_room),
            w.previous_room == self.previous_room,
    {
        World { current_room: Some(current_room), ..self }
    }
}

} // verus!
