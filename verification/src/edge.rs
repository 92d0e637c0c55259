//! Edge detection: deriving "just pressed" events from two
//! consecutive input snapshots.
//!
//! Every discrete action of the control surface is edge-triggered: it
//! fires on the released-to-pressed transition and only then, however
//! long the physical control stays held. Level-triggered axes have no
//! edge semantics; their deflection is re-applied every frame.

use vstd::prelude::*;

use crate::input::{Button, InputSnapshot};

verus! {

/// Whether `b` was just pressed: held in the current snapshot and not
/// in the previous one.
pub open spec fn spec_clicked(b: Button, prev: InputSnapshot, cur: InputSnapshot) -> bool {
    cur.held.spec_pressed(b) && !prev.held.spec_pressed(b)
}

/// Whether `b` was just pressed between the previous and the current
/// frame's snapshot.
pub fn clicked(b: Button, prev: &InputSnapshot, cur: &InputSnapshot) -> (r: bool)
    ensures
        r == spec_clicked(b, *prev, *cur),
{
    cur.held.pressed(b) && !prev.held.pressed(b)
}

/// A discrete action fires exactly on the released-to-pressed
/// transition between two consecutive snapshots. In particular a
/// control held across frames, pressed in both snapshots, never
/// re-fires, and neither does one that is released or stays released.
pub proof fn lemma_edge_fires_once(b: Button, prev: InputSnapshot, cur: InputSnapshot)
    ensures
        spec_clicked(b, prev, cur) <==> (!prev.held.spec_pressed(b) && cur.held.spec_pressed(b)),
        prev.held.spec_pressed(b) ==> !spec_clicked(b, prev, cur),
        !cur.held.spec_pressed(b) ==> !spec_clicked(b, prev, cur),
{
}

} // verus!
