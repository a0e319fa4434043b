//! The debugging aids for the object under the cursor.

use vstd::prelude::*;

verus! {

/// What happened to the tooltip key in a frame.
#[derive(Clone, Copy, PartialEq, Eq, Structural, Debug)]
pub enum KeyChange {
    Unchanged,
    Pressed,
    Released,
}

/// Shows a tooltip with the position of the cursor while a key is held, and
/// dumps the selected object on request.
#[derive(Clone, Copy, PartialEq, Eq, Structural, Debug)]
pub struct ObjectDebugger {
    pub debug_tooltip_key_held: bool,
}

/// Whether the tooltip key is held after a frame.
pub open spec fn held_after(held: bool, change: KeyChange) -> bool {
    if held {
        change != KeyChange::Released
    } else {
        change == KeyChange::Pressed
    }
}

/// A key that is pressed is held until it is released.
pub proof fn lemma_key_stays_held(changes: Seq<KeyChange>, upto: int)
    requires
        0 < upto <= changes.len(),
        changes[0] == KeyChange::Pressed,
        forall|i: int| 0 < i < upto ==> changes[i] != KeyChange::Released,
    ensures
        held_through(false, changes, upto),
    decreases upto,
{
    if upto > 1 {
        lemma_key_stays_held(changes, upto - 1);
    }
}

/// Whether the key is held after the first `upto` of `changes`, starting
/// from `held`.
pub open spec fn held_through(held: bool, changes: Seq<KeyChange>, upto: int) -> bool
    decreases upto,
{
    if upto <= 0 {
        held
    } else {
        held_after(held_through(held, changes, upto - 1), changes[upto - 1])
    }
}

impl ObjectDebugger {
    pub fn new() -> (debugger: ObjectDebugger)
        ensures
            !debugger.debug_tooltip_key_held,
    {
        ObjectDebugger { debug_tooltip_key_held: false }
    }

    /// One frame: follows the tooltip key, and says whether to dump the
    /// selected object, which is where there is one and the user has asked
    /// for it.
    pub fn event(&mut self, key: KeyChange, selected: bool, debug_chosen: bool) -> (dump: bool)
        ensures
            final(self).debug_tooltip_key_held == held_after(
                old(self).debug_tooltip_key_held,
                key,
            ),
            dump == (selected && debug_chosen),
    {
        if self.debug_tooltip_key_held {
            self.debug_tooltip_key_held = !(key == KeyChange::Released);
        } else {
            self.debug_tooltip_key_held = key == KeyChange::Pressed;
        }
        selected && debug_chosen
    }

    /// Whether the tooltip is drawn: while the key is held, and the cursor is
    /// over a place of the map that has coordinates on the globe.
    pub fn draw(&self, cursor_in_map: bool, cursor_on_globe: bool) -> (tooltip: bool)
        ensures
            tooltip == (self.debug_tooltip_key_held && cursor_in_map && cursor_on_globe),
    {
        self.debug_tooltip_key_held && cursor_in_map && cursor_on_globe
    }
}

} // verus!
