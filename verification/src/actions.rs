//! Actions a player can take in a room, and what happens when one is taken.

use vstd::prelude::*;

verus! {

/// Acceptable actions a player can take.
#[derive(Clone, Copy, PartialEq, Eq, Structural, Debug)]
pub enum Action {
    Look,
    Explore,
    NONE,
    Talk,
}

/// What a room does when an action succeeds: the text shown, optionally
/// gated behind a difficulty-check threshold.
#[derive(Debug)]
pub struct OnAction {
    pub on_action: String,
    pub dc_check: Option<i32>,
}

/// The mathematical shape of an [`OnAction`].
#[verifier::ext_equal]
pub ghost struct OnActionModel {
    pub on_action: Seq<char>,
    pub dc_check: Option<i32>,
}

impl View for OnAction {
    type V = OnActionModel;

    open spec fn view(&self) -> OnActionModel {
        OnActionModel { on_action: self.on_action@, dc_check: self.dc_check }
    }
}

impl Clone for OnAction {
    fn clone(&self) -> (r: Self)
        ensures
            r == *self,
    {
        OnAction { on_action: self.on_action.clone(), dc_check: self.dc_check }
    }
}

impl OnAction {
    /// Creates a new on-action record.
    pub fn new(on_action: String, dc_check: Option<i32>) -> (r: Self)
        ensures
            r.on_action == on_action,
            r.dc_check == dc_check,
    {
        OnAction { on_action, dc_check }
    }
}

} // verus!
