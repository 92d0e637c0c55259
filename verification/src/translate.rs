//! The translation step: a pure function of the previous snapshot,
//! the current snapshot and the current intent, producing the frame's
//! updated command intent.
//!
//! Sensitivity steps are applied first — they are edge-triggered like
//! every discrete action — and the frame's motion values are then the
//! current snapshot's deflections scaled by the resulting sensitivity
//! level. One-shot flags are set by edges only, never by held state.
//!
//! Sign convention, fixed once: forward motion is a negative
//! deflection of the left stick's vertical axis, so the forward
//! command negates that axis; a keyboard "up" press writes the
//! negative full deflection into the same axis. Positive lateral is
//! right, positive yaw is clockwise, and the net vertical command is
//! ascend minus descend.

use vstd::prelude::*;

use crate::edge::{clicked, spec_clicked};
use crate::input::{Button, InputSnapshot};
use crate::intent::{spec_dec_level, spec_inc_level, CommandIntent};
use crate::{COMMAND_FULL, SENS_MAX};

verus! {

/// The sensitivity level after one frame's edges: a just-pressed
/// digit key sets its level outright (the lowest digit winning if
/// several fire at once, and suppressing the shoulder steps); else a
/// just-pressed left shoulder steps down and a just-pressed right
/// shoulder steps up, each clamped, the decrement applied first.
pub open spec fn spec_sens_after(l: u8, prev: InputSnapshot, cur: InputSnapshot) -> u8 {
    if spec_clicked(Button::KeySens0, prev, cur) {
        0
    } else if spec_clicked(Button::KeySens1, prev, cur) {
        1
    } else if spec_clicked(Button::KeySens2, prev, cur) {
        2
    } else if spec_clicked(Button::KeySens3, prev, cur) {
        3
    } else if spec_clicked(Button::KeySens4, prev, cur) {
        4
    } else if spec_clicked(Button::KeySens5, prev, cur) {
        5
    } else {
        let d = if spec_clicked(Button::LeftShoulder, prev, cur) {
            spec_dec_level(l)
        } else {
            l
        };
        if spec_clicked(Button::RightShoulder, prev, cur) {
            spec_inc_level(d)
        } else {
            d
        }
    }
}

/// A raw deflection scaled by a sensitivity level: the fixed-point
/// motion command.
pub open spec fn spec_scaled(l: u8, raw: i16) -> int {
    l * raw
}

/// The frame's translated intent: sensitivity stepped by this frame's
/// edges, one-shot flags set exactly where their action just fired,
/// and motion values equal to the current deflections scaled by the
/// resulting sensitivity.
pub open spec fn spec_translate(
    i: CommandIntent,
    prev: InputSnapshot,
    cur: InputSnapshot,
) -> CommandIntent {
    let l = spec_sens_after(i.sensitivity, prev, cur);
    CommandIntent {
        take_off: spec_clicked(Button::Start, prev, cur) || spec_clicked(
            Button::KeyTakeOff,
            prev,
            cur,
        ),
        hover: spec_clicked(Button::Guide, prev, cur),
        take_picture: spec_clicked(Button::PadA, prev, cur) || spec_clicked(
            Button::KeyPhoto,
            prev,
            cur,
        ),
        toggle_video: spec_clicked(Button::PadB, prev, cur) || spec_clicked(
            Button::KeyVideo,
            prev,
            cur,
        ),
        img_carousel_left: spec_clicked(Button::DPadLeft, prev, cur),
        img_carousel_right: spec_clicked(Button::DPadRight, prev, cur),
        img_carousel_toggle_zoom: spec_clicked(Button::PadX, prev, cur),
        sensitivity: l,
        forward: (-spec_scaled(l, cur.left_y)) as i32,
        slide_right: spec_scaled(l, cur.left_x) as i32,
        turn_clockwise: spec_scaled(l, cur.right_x) as i32,
        vert_accel: spec_scaled(l, cur.trigger_right) as i32,
        vert_decel: spec_scaled(l, cur.trigger_left) as i32,
    }
}

/// A raw deflection scaled by a sensitivity level, within full scale.
fn scaled(l: u8, raw: i16) -> (r: i32)
    requires
        l <= SENS_MAX,
        -crate::AXIS_FULL <= raw,
    ensures
        r == spec_scaled(l, raw),
        -COMMAND_FULL <= r <= COMMAND_FULL,
        0 <= raw ==> 0 <= r,
{
    proof {
        assert(-163835 <= (l as int) * (raw as int) <= 163835) by (nonlinear_arith)
            requires
                0 <= l <= 5,
                -32767 <= raw <= 32767,
        ;
        if 0 <= raw {
            assert(0 <= (l as int) * (raw as int)) by (nonlinear_arith)
                requires
                    0 <= l,
                    0 <= raw,
            ;
        }
    }
    (l as i32) * (raw as i32)
}

/// The sensitivity level after one frame's edges.
fn sens_step(l: u8, prev: &InputSnapshot, cur: &InputSnapshot) -> (r: u8)
    requires
        l <= SENS_MAX,
    ensures
        r == spec_sens_after(l, *prev, *cur),
        r <= SENS_MAX,
{
    if clicked(Button::KeySens0, prev, cur) {
        0
    } else if clicked(Button::KeySens1, prev, cur) {
        1
    } else if clicked(Button::KeySens2, prev, cur) {
        2
    } else if clicked(Button::KeySens3, prev, cur) {
        3
    } else if clicked(Button::KeySens4, prev, cur) {
        4
    } else if clicked(Button::KeySens5, prev, cur) {
        5
    } else {
        let d: u8 = if clicked(Button::LeftShoulder, prev, cur) {
            if l == 0 {
                0
            } else {
                l - 1
            }
        } else {
            l
        };
        if clicked(Button::RightShoulder, prev, cur) {
            if d >= SENS_MAX {
                SENS_MAX
            } else {
                d + 1
            }
        } else {
            d
        }
    }
}

impl CommandIntent {
    /// The accumulate phase: overwrites this intent with the frame's
    /// translation of the two snapshots, leaving only the sensitivity
    /// to carry history (stepped by this frame's edges).
    pub fn translate(&mut self, prev: &InputSnapshot, cur: &InputSnapshot)
        requires
            old(self).wf(),
            cur.wf(),
        ensures
            *final(self) == spec_translate(*old(self), *prev, *cur),
            final(self).wf(),
    {
        let l: u8 = sens_step(self.sensitivity, prev, cur);
        let fwd: i32 = scaled(l, cur.left_y);
        *self =
        CommandIntent {
            take_off: clicked(Button::Start, prev, cur) || clicked(Button::KeyTakeOff, prev, cur),
            hover: clicked(Button::Guide, prev, cur),
            take_picture: clicked(Button::PadA, prev, cur) || clicked(
                Button::KeyPhoto,
                prev,
                cur,
            ),
            toggle_video: clicked(Button::PadB, prev, cur) || clicked(
                Button::KeyVideo,
                prev,
                cur,
            ),
            img_carousel_left: clicked(Button::DPadLeft, prev, cur),
            img_carousel_right: clicked(Button::DPadRight, prev, cur),
            img_carousel_toggle_zoom: clicked(Button::PadX, prev, cur),
            sensitivity: l,
            forward: -fwd,
            slide_right: scaled(l, cur.left_x),
            turn_clockwise: scaled(l, cur.right_x),
            vert_accel: scaled(l, cur.trigger_right),
            vert_decel: scaled(l, cur.trigger_left),
        };
    }
}

/// Continuous commands scale linearly with sensitivity: each motion
/// value of the translated intent is exactly the current raw
/// deflection times the frame's sensitivity level (with the forward
/// sign convention), and the net vertical command factors through the
/// same level. In real units, with deflection `a` and sensitivity
/// `s`, each command is `a * s`.
pub proof fn lemma_commands_scale_linearly(
    i: CommandIntent,
    prev: InputSnapshot,
    cur: InputSnapshot,
)
    requires
        i.wf(),
        cur.wf(),
    ensures
        ({
            let t = spec_translate(i, prev, cur);
            &&& t.slide_right == t.sensitivity * cur.left_x
            &&& t.forward == -(t.sensitivity * cur.left_y)
            &&& t.turn_clockwise == t.sensitivity * cur.right_x
            &&& t.vert_accel == t.sensitivity * cur.trigger_right
            &&& t.vert_decel == t.sensitivity * cur.trigger_left
            &&& t.vert_accel - t.vert_decel == t.sensitivity * (cur.trigger_right
                - cur.trigger_left)
        }),
{
    let l = spec_sens_after(i.sensitivity, prev, cur);
    assert(l <= 5);
    assert(-163835 <= (l as int) * (cur.left_x as int) <= 163835) by (nonlinear_arith)
        requires
            l <= 5,
            -32767 <= cur.left_x <= 32767,
    ;
    assert(-163835 <= (l as int) * (cur.left_y as int) <= 163835) by (nonlinear_arith)
        requires
            l <= 5,
            -32767 <= cur.left_y <= 32767,
    ;
    assert(-163835 <= (l as int) * (cur.right_x as int) <= 163835) by (nonlinear_arith)
        requires
            l <= 5,
            -32767 <= cur.right_x <= 32767,
    ;
    assert(0 <= (l as int) * (cur.trigger_right as int) <= 163835) by (nonlinear_arith)
        requires
            l <= 5,
            0 <= cur.trigger_right <= 32767,
    ;
    assert(0 <= (l as int) * (cur.trigger_left as int) <= 163835) by (nonlinear_arith)
        requires
            l <= 5,
            0 <= cur.trigger_left <= 32767,
    ;
    assert((l as int) * (cur.trigger_right as int) - (l as int) * (cur.trigger_left as int) == (
    l as int) * ((cur.trigger_right as int) - (cur.trigger_left as int))) by (nonlinear_arith);
}

} // verus!
