//! The command accumulator: one per-frame intent record.
//!
//! A [`CommandIntent`] holds the discrete one-shot flags and the
//! continuous motion values that one frame wants to send to the
//! vehicle, together with the persistent sensitivity scalar. Each
//! frame the translation step overwrites the flags and motion values,
//! the control loop dispatches them, and [`CommandIntent::zero_state`]
//! returns everything but the sensitivity to the zero baseline — the
//! mechanism that turns one input edge into exactly one command.
//!
//! Sensitivity is kept as a level in `[0, SENS_MAX]`; level `l` stands
//! for the scalar `l / 5.0`, so the default level 1 stands for 0.2 and
//! a step is 0.2. Motion values are fixed-point products of a raw axis
//! deflection and the sensitivity level, in
//! `[-COMMAND_FULL, COMMAND_FULL]`.

use vstd::prelude::*;

use crate::{COMMAND_FULL, SENS_MAX};

verus! {

/// Default sensitivity level, standing for 0.2.
pub const SENS_DEFAULT: u8 = 1;

/// The per-frame command intent: one-shot flags, continuous motion
/// values, and the persistent sensitivity level.
#[derive(Clone, Copy, PartialEq, Eq, Structural, Debug)]
pub struct CommandIntent {
    /// One-shot: request take-off or landing, by the vehicle's state.
    pub take_off: bool,
    /// One-shot: hover in place.
    pub hover: bool,
    /// One-shot: take a picture.
    pub take_picture: bool,
    /// One-shot: toggle video recording.
    pub toggle_video: bool,
    /// One-shot: turn the image carousel left.
    pub img_carousel_left: bool,
    /// One-shot: turn the image carousel right.
    pub img_carousel_right: bool,
    /// One-shot: toggle the image-carousel zoom.
    pub img_carousel_toggle_zoom: bool,
    /// Sensitivity level in `[0, SENS_MAX]`; persists across frames.
    pub sensitivity: u8,
    /// Forward speed; positive is forward.
    pub forward: i32,
    /// Lateral speed; positive is right.
    pub slide_right: i32,
    /// Yaw rate; positive is clockwise.
    pub turn_clockwise: i32,
    /// Ascend channel, from the right trigger; never negative.
    pub vert_accel: i32,
    /// Descend channel, from the left trigger; never negative.
    pub vert_decel: i32,
}

/// The level one step above `l`, clamped to `SENS_MAX`.
pub open spec fn spec_inc_level(l: u8) -> u8 {
    if l >= SENS_MAX {
        SENS_MAX
    } else {
        (l + 1) as u8
    }
}

/// The level one step below `l`, clamped to 0.
pub open spec fn spec_dec_level(l: u8) -> u8 {
    if l == 0 {
        0
    } else {
        (l - 1) as u8
    }
}

/// The level after `n` increment presses starting from `l`.
pub open spec fn spec_inc_level_n(l: u8, n: nat) -> u8
    decreases n,
{
    if n == 0 {
        l
    } else {
        spec_inc_level(spec_inc_level_n(l, (n - 1) as nat))
    }
}

/// The level after `n` decrement presses starting from `l`.
pub open spec fn spec_dec_level_n(l: u8, n: nat) -> u8
    decreases n,
{
    if n == 0 {
        l
    } else {
        spec_dec_level(spec_dec_level_n(l, (n - 1) as nat))
    }
}

/// Sensitivity stepping clamps: `n` increment presses from level `l`
/// reach `min(SENS_MAX, l + n)`, and `n` decrement presses reach
/// `max(0, l - n)`. In real units, from 0.2 the value after `n`
/// increments is `min(1.0, 0.2 + 0.2 n)` and after `n` decrements
/// `max(0.0, 0.2 - 0.2 n)`.
pub proof fn lemma_sensitivity_steps_clamp(l: u8, n: nat)
    requires
        l <= SENS_MAX,
    ensures
        spec_inc_level_n(l, n) == if l + n <= SENS_MAX {
            (l + n) as u8
        } else {
            SENS_MAX
        },
        spec_dec_level_n(l, n) == if n <= l {
            (l - n) as u8
        } else {
            0u8
        },
    decreases n,
{
    if n > 0 {
        lemma_sensitivity_steps_clamp(l, (n - 1) as nat);
    }
}

impl CommandIntent {
    /// The sensitivity level is on its scale and every motion value is
    /// within full scale, the vertical channels never negative.
    pub open spec fn wf(self) -> bool {
        &&& self.sensitivity <= SENS_MAX
        &&& -COMMAND_FULL <= self.forward <= COMMAND_FULL
        &&& -COMMAND_FULL <= self.slide_right <= COMMAND_FULL
        &&& -COMMAND_FULL <= self.turn_clockwise <= COMMAND_FULL
        &&& 0 <= self.vert_accel <= COMMAND_FULL
        &&& 0 <= self.vert_decel <= COMMAND_FULL
    }

    /// The clean baseline: no flags, no motion, default sensitivity.
    pub open spec fn spec_baseline() -> CommandIntent {
        CommandIntent {
            take_off: false,
            hover: false,
            take_picture: false,
            toggle_video: false,
            img_carousel_left: false,
            img_carousel_right: false,
            img_carousel_toggle_zoom: false,
            sensitivity: SENS_DEFAULT,
            forward: 0,
            slide_right: 0,
            turn_clockwise: 0,
            vert_accel: 0,
            vert_decel: 0,
        }
    }

    /// `i` with its one-shot flags and motion values at the zero
    /// baseline; the sensitivity is the one field carried over.
    pub open spec fn spec_zeroed(i: CommandIntent) -> CommandIntent {
        CommandIntent { sensitivity: i.sensitivity, ..CommandIntent::spec_baseline() }
    }

    /// Steps the sensitivity one level up, clamped to `SENS_MAX`;
    /// nothing else changes.
    pub fn sensitivity_inc(&mut self)
        ensures
            *final(self) == (CommandIntent {
                sensitivity: spec_inc_level(old(self).sensitivity),
                ..*old(self)
            }),
    {
        let l: u8 = if self.sensitivity >= SENS_MAX {
            SENS_MAX
        } else {
            self.sensitivity + 1
        };
        self.sensitivity = l;
    }

    /// Steps the sensitivity one level down, clamped to 0; nothing
    /// else changes.
    pub fn sensitivity_dec(&mut self)
        ensures
            *final(self) == (CommandIntent {
                sensitivity: spec_dec_level(old(self).sensitivity),
                ..*old(self)
            }),
    {
        let l: u8 = if self.sensitivity == 0 {
            0
        } else {
            self.sensitivity - 1
        };
        self.sensitivity = l;
    }

    /// Sets the sensitivity level outright; nothing else changes.
    pub fn set_sensitivity(&mut self, level: u8)
        requires
            level <= SENS_MAX,
        ensures
            *final(self) == (CommandIntent { sensitivity: level, ..*old(self) }),
    {
        self.sensitivity = level;
    }

    /// Returns the one-shot flags and motion values to the zero
    /// baseline after a dispatch; the sensitivity is the one field
    /// carried forward.
    pub fn zero_state(&mut self)
        ensures
            *final(self) == CommandIntent::spec_zeroed(*old(self)),
            !final(self).take_off,
            !final(self).hover,
            !final(self).take_picture,
            !final(self).toggle_video,
            !final(self).img_carousel_left,
            !final(self).img_carousel_right,
            !final(self).img_carousel_toggle_zoom,
            final(self).sensitivity == old(self).sensitivity,
    {
        self.take_off = false;
        self.hover = false;
        self.take_picture = false;
        self.toggle_video = false;
        self.img_carousel_left = false;
        self.img_carousel_right = false;
        self.img_carousel_toggle_zoom = false;
        self.forward = 0;
        self.slide_right = 0;
        self.turn_clockwise = 0;
        self.vert_accel = 0;
        self.vert_decel = 0;
    }
}

impl Default for CommandIntent {
    /// The clean baseline: no flags, no motion, default sensitivity.
    fn default() -> (d: CommandIntent)
        ensures
            d == CommandIntent::spec_baseline(),
            d.wf(),
    {
        CommandIntent {
            take_off: false,
            hover: false,
            take_picture: false,
            toggle_video: false,
            img_carousel_left: false,
            img_carousel_right: false,
            img_carousel_toggle_zoom: false,
            sensitivity: SENS_DEFAULT,
            forward: 0,
            slide_right: 0,
            turn_clockwise: 0,
            vert_accel: 0,
            vert_decel: 0,
        }
    }
}

} // verus!
