//! The dispatch decision: what the frame sends to the vehicle.
//!
//! A [`DispatchPlan`] is the complete, ordered answer for one frame:
//! which discrete commands to issue and which motion values to set.
//! The caller performs the fire-and-forget calls; nothing here touches
//! a transport.

use vstd::prelude::*;

use crate::intent::CommandIntent;
use crate::{COMMAND_FULL, SENS_MAX};

verus! {

/// The take-off control's outcome: a single toggle driven by the
/// vehicle's own reported flight state.
#[derive(Clone, Copy, PartialEq, Eq, Structural, Debug)]
pub enum FlightAction {
    /// Request take-off.
    TakeOff,
    /// Request landing.
    Land,
    /// Leave the flight state alone.
    NoChange,
}

/// What the take-off control asks for: pressing it always requests
/// the opposite of the vehicle's current flying state, and not
/// pressing it requests nothing.
pub open spec fn spec_flight_action(take_off: bool, flying: bool) -> FlightAction {
    if take_off {
        if flying {
            FlightAction::Land
        } else {
            FlightAction::TakeOff
        }
    } else {
        FlightAction::NoChange
    }
}

/// Everything one frame sends to the vehicle and shows on the
/// sticks' widgets: the flight toggle's outcome, the one-shot
/// commands, and the motion values.
#[derive(Clone, Copy, PartialEq, Eq, Structural, Debug)]
pub struct DispatchPlan {
    /// Take-off, land, or neither.
    pub flight: FlightAction,
    /// Hover in place.
    pub hover: bool,
    /// Take a picture.
    pub take_picture: bool,
    /// Toggle video recording.
    pub toggle_video: bool,
    /// Turn the image carousel left.
    pub carousel_left: bool,
    /// Turn the image carousel right.
    pub carousel_right: bool,
    /// Toggle the image-carousel zoom.
    pub carousel_zoom: bool,
    /// Forward speed; positive is forward.
    pub forward: i32,
    /// Lateral speed; positive is right.
    pub slide_right: i32,
    /// Net vertical speed, ascend minus descend.
    pub vertical: i32,
    /// Yaw rate; positive is clockwise.
    pub turn_clockwise: i32,
    /// The frame's sensitivity level, for presentation.
    pub sensitivity: u8,
}

impl DispatchPlan {
    /// Every motion value within full scale, the sensitivity level on
    /// its scale.
    pub open spec fn wf(self) -> bool {
        &&& self.sensitivity <= SENS_MAX
        &&& -COMMAND_FULL <= self.forward <= COMMAND_FULL
        &&& -COMMAND_FULL <= self.slide_right <= COMMAND_FULL
        &&& -COMMAND_FULL <= self.vertical <= COMMAND_FULL
        &&& -COMMAND_FULL <= self.turn_clockwise <= COMMAND_FULL
    }
}

/// The plan an intent asks for, given the vehicle's reported flying
/// state: the flight toggle resolved against that state, every
/// one-shot command exactly as flagged, and the motion values carried
/// over with the vertical channels folded into their net command.
pub open spec fn spec_plan(i: CommandIntent, flying: bool) -> DispatchPlan {
    DispatchPlan {
        flight: spec_flight_action(i.take_off, flying),
        hover: i.hover,
        take_picture: i.take_picture,
        toggle_video: i.toggle_video,
        carousel_left: i.img_carousel_left,
        carousel_right: i.img_carousel_right,
        carousel_zoom: i.img_carousel_toggle_zoom,
        forward: i.forward,
        slide_right: i.slide_right,
        vertical: (i.vert_accel - i.vert_decel) as i32,
        turn_clockwise: i.turn_clockwise,
        sensitivity: i.sensitivity,
    }
}

/// Resolves the take-off toggle against the vehicle's reported state.
pub fn flight_action(take_off: bool, flying: bool) -> (a: FlightAction)
    ensures
        a == spec_flight_action(take_off, flying),
        take_off && !flying ==> a == FlightAction::TakeOff,
        take_off && flying ==> a == FlightAction::Land,
        !take_off ==> a == FlightAction::NoChange,
{
    if take_off {
        if flying {
            FlightAction::Land
        } else {
            FlightAction::TakeOff
        }
    } else {
        FlightAction::NoChange
    }
}

/// Builds the frame's dispatch plan from the accumulated intent and
/// the vehicle's reported flying state.
pub fn plan_dispatch(intent: &CommandIntent, flying: bool) -> (p: DispatchPlan)
    requires
        intent.wf(),
    ensures
        p == spec_plan(*intent, flying),
        p.wf(),
{
    DispatchPlan {
        flight: flight_action(intent.take_off, flying),
        hover: intent.hover,
        take_picture: intent.take_picture,
        toggle_video: intent.toggle_video,
        carousel_left: intent.img_carousel_left,
        carousel_right: intent.img_carousel_right,
        carousel_zoom: intent.img_carousel_toggle_zoom,
        forward: intent.forward,
        slide_right: intent.slide_right,
        vertical: intent.vert_accel - intent.vert_decel,
        turn_clockwise: intent.turn_clockwise,
        sensitivity: intent.sensitivity,
    }
}

} // verus!
