//! Adventure callbacks: which adventure a menu entry launches. Instead of a
//! stored function, an entry carries a tag; whoever runs the menu maps the
//! tag to the adventure's entry point.

use vstd::prelude::*;

verus! {

/// The adventures this collection knows.
#[derive(Clone, Copy, PartialEq, Eq, Structural, Debug)]
pub enum AdventureId {
    DarkHarvest,
}

/// A deferred launch: processing it says which adventure to run.
#[derive(Clone, Copy, PartialEq, Eq, Structural, Debug)]
pub struct SimpleCallback {
    pub callback: AdventureId,
}

impl SimpleCallback {
    /// Processes the callback: hands out the adventure to launch.
    pub fn process(self) -> (r: AdventureId)
        ensures
            r == self.callback,
    {
        self.callback
    }
}

/// Runs the base entry of a menu.
pub fn menu(base: SimpleCallback) -> (r: AdventureId)
    ensures
        r == base.callback,
{
    base.process()
}

} // verus!
