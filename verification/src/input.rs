//! Input sampling: the per-frame capture of gamepad and keyboard state.
//!
//! The sampler keeps one [`InputSnapshot`] up to date by folding input
//! events into it. Controller axis motions are absolute and replace the
//! stored deflection; keyboard motion keys are level-triggered, a press
//! setting the full deflection and the release zeroing it, so that a
//! held key sustains motion just as a held stick does. Discrete
//! controls (pad buttons and action keys) only record their held state
//! here; edge detection against the previous frame's snapshot decides
//! when they fire.

use vstd::prelude::*;

use crate::AXIS_FULL;

verus! {

/// A tracked discrete control: a gamepad button or an action key.
///
/// The `Key*` variants are keyboard keys that act as buttons: they
/// share the edge-triggered treatment of the pad buttons.
#[derive(Clone, Copy, PartialEq, Eq, Structural, Debug)]
pub enum Button {
    /// Pad A: take a picture.
    PadA,
    /// Pad B: toggle video.
    PadB,
    /// Pad X: toggle the image-carousel zoom.
    PadX,
    /// Guide: hover in place.
    Guide,
    /// Start: request take-off or landing.
    Start,
    /// Left shoulder: decrement sensitivity.
    LeftShoulder,
    /// Right shoulder: increment sensitivity.
    RightShoulder,
    /// D-pad left: turn the image carousel left.
    DPadLeft,
    /// D-pad right: turn the image carousel right.
    DPadRight,
    /// Keyboard P: take a picture.
    KeyPhoto,
    /// Keyboard V: toggle video.
    KeyVideo,
    /// Keyboard space: request take-off or landing.
    KeyTakeOff,
    /// Keyboard digit 1: sensitivity level 0.
    KeySens0,
    /// Keyboard digit 2: sensitivity level 1.
    KeySens1,
    /// Keyboard digit 3: sensitivity level 2.
    KeySens2,
    /// Keyboard digit 4: sensitivity level 3.
    KeySens3,
    /// Keyboard digit 5: sensitivity level 4.
    KeySens4,
    /// Keyboard digit 6: sensitivity level 5.
    KeySens5,
}

/// A keyboard key the control surface reacts to.
#[derive(Clone, Copy, PartialEq, Eq, Structural, Debug)]
pub enum Key {
    /// Quit the control loop.
    Escape,
    /// Set sensitivity level 0.
    Num1,
    /// Set sensitivity level 1.
    Num2,
    /// Set sensitivity level 2.
    Num3,
    /// Set sensitivity level 3.
    Num4,
    /// Set sensitivity level 4.
    Num5,
    /// Set sensitivity level 5.
    Num6,
    /// Slide left while held.
    Left,
    /// Slide right while held.
    Right,
    /// Move forward while held.
    Up,
    /// Move backward while held.
    Down,
    /// Ascend while held.
    A,
    /// Descend while held.
    Q,
    /// Toggle video.
    V,
    /// Take a picture.
    P,
    /// Request take-off or landing.
    Space,
}

/// A continuous input channel of the controller.
#[derive(Clone, Copy, PartialEq, Eq, Structural, Debug)]
pub enum Axis {
    LeftX,
    LeftY,
    RightX,
    RightY,
    TriggerLeft,
    TriggerRight,
}

/// One input occurrence, as handed over by the window layer.
#[derive(Clone, Copy, PartialEq, Eq, Structural, Debug)]
pub enum InputEvent {
    /// A gamepad button went down.
    ButtonDown(Button),
    /// A gamepad button went up.
    ButtonUp(Button),
    /// A controller axis moved to an absolute raw position.
    AxisMove(Axis, i16),
    /// A keyboard key went down.
    KeyDown(Key),
    /// A keyboard key went up.
    KeyUp(Key),
    /// The window asked to close.
    Quit,
}

/// Held state of every tracked discrete control.
#[derive(Clone, Copy, PartialEq, Eq, Structural, Debug)]
pub struct ButtonStates {
    pub pad_a: bool,
    pub pad_b: bool,
    pub pad_x: bool,
    pub guide: bool,
    pub start: bool,
    pub left_shoulder: bool,
    pub right_shoulder: bool,
    pub dpad_left: bool,
    pub dpad_right: bool,
    pub key_photo: bool,
    pub key_video: bool,
    pub key_take_off: bool,
    pub key_sens0: bool,
    pub key_sens1: bool,
    pub key_sens2: bool,
    pub key_sens3: bool,
    pub key_sens4: bool,
    pub key_sens5: bool,
}

impl ButtonStates {
    /// No control held.
    pub open spec fn spec_none_held() -> ButtonStates {
        ButtonStates {
            pad_a: false,
            pad_b: false,
            pad_x: false,
            guide: false,
            start: false,
            left_shoulder: false,
            right_shoulder: false,
            dpad_left: false,
            dpad_right: false,
            key_photo: false,
            key_video: false,
            key_take_off: false,
            key_sens0: false,
            key_sens1: false,
            key_sens2: false,
            key_sens3: false,
            key_sens4: false,
            key_sens5: false,
        }
    }

    /// Whether `b` is held in this state.
    pub open spec fn spec_pressed(self, b: Button) -> bool {
        match b {
            Button::PadA => self.pad_a,
            Button::PadB => self.pad_b,
            Button::PadX => self.pad_x,
            Button::Guide => self.guide,
            Button::Start => self.start,
            Button::LeftShoulder => self.left_shoulder,
            Button::RightShoulder => self.right_shoulder,
            Button::DPadLeft => self.dpad_left,
            Button::DPadRight => self.dpad_right,
            Button::KeyPhoto => self.key_photo,
            Button::KeyVideo => self.key_video,
            Button::KeyTakeOff => self.key_take_off,
            Button::KeySens0 => self.key_sens0,
            Button::KeySens1 => self.key_sens1,
            Button::KeySens2 => self.key_sens2,
            Button::KeySens3 => self.key_sens3,
            Button::KeySens4 => self.key_sens4,
            Button::KeySens5 => self.key_sens5,
        }
    }

    /// This state with the held flag of `b` set to `v`, all others kept.
    pub open spec fn spec_with_pressed(self, b: Button, v: bool) -> ButtonStates {
        match b {
            Button::PadA => ButtonStates { pad_a: v, ..self },
            Button::PadB => ButtonStates { pad_b: v, ..self },
            Button::PadX => ButtonStates { pad_x: v, ..self },
            Button::Guide => ButtonStates { guide: v, ..self },
            Button::Start => ButtonStates { start: v, ..self },
            Button::LeftShoulder => ButtonStates { left_shoulder: v, ..self },
            Button::RightShoulder => ButtonStates { right_shoulder: v, ..self },
            Button::DPadLeft => ButtonStates { dpad_left: v, ..self },
            Button::DPadRight => ButtonStates { dpad_right: v, ..self },
            Button::KeyPhoto => ButtonStates { key_photo: v, ..self },
            Button::KeyVideo => ButtonStates { key_video: v, ..self },
            Button::KeyTakeOff => ButtonStates { key_take_off: v, ..self },
            Button::KeySens0 => ButtonStates { key_sens0: v, ..self },
            Button::KeySens1 => ButtonStates { key_sens1: v, ..self },
            Button::KeySens2 => ButtonStates { key_sens2: v, ..self },
            Button::KeySens3 => ButtonStates { key_sens3: v, ..self },
            Button::KeySens4 => ButtonStates { key_sens4: v, ..self },
            Button::KeySens5 => ButtonStates { key_sens5: v, ..self },
        }
    }

    /// Whether `b` is held in this state.
    pub fn pressed(&self, b: Button) -> (r: bool)
        ensures
            r == self.spec_pressed(b),
    {
        match b {
            Button::PadA => self.pad_a,
            Button::PadB => self.pad_b,
            Button::PadX => self.pad_x,
            Button::Guide => self.guide,
            Button::Start => self.start,
            Button::LeftShoulder => self.left_shoulder,
            Button::RightShoulder => self.right_shoulder,
            Button::DPadLeft => self.dpad_left,
            Button::DPadRight => self.dpad_right,
            Button::KeyPhoto => self.key_photo,
            Button::KeyVideo => self.key_video,
            Button::KeyTakeOff => self.key_take_off,
            Button::KeySens0 => self.key_sens0,
            Button::KeySens1 => self.key_sens1,
            Button::KeySens2 => self.key_sens2,
            Button::KeySens3 => self.key_sens3,
            Button::KeySens4 => self.key_sens4,
            Button::KeySens5 => self.key_sens5,
        }
    }

    /// This state with the held flag of `b` set to `v`, all others
    /// kept.
    pub fn with_pressed(self, b: Button, v: bool) -> (r: ButtonStates)
        ensures
            r == self.spec_with_pressed(b, v),
    {
        match b {
            Button::PadA => ButtonStates { pad_a: v, ..self },
            Button::PadB => ButtonStates { pad_b: v, ..self },
            Button::PadX => ButtonStates { pad_x: v, ..self },
            Button::Guide => ButtonStates { guide: v, ..self },
            Button::Start => ButtonStates { start: v, ..self },
            Button::LeftShoulder => ButtonStates { left_shoulder: v, ..self },
            Button::RightShoulder => ButtonStates { right_shoulder: v, ..self },
            Button::DPadLeft => ButtonStates { dpad_left: v, ..self },
            Button::DPadRight => ButtonStates { dpad_right: v, ..self },
            Button::KeyPhoto => ButtonStates { key_photo: v, ..self },
            Button::KeyVideo => ButtonStates { key_video: v, ..self },
            Button::KeyTakeOff => ButtonStates { key_take_off: v, ..self },
            Button::KeySens0 => ButtonStates { key_sens0: v, ..self },
            Button::KeySens1 => ButtonStates { key_sens1: v, ..self },
            Button::KeySens2 => ButtonStates { key_sens2: v, ..self },
            Button::KeySens3 => ButtonStates { key_sens3: v, ..self },
            Button::KeySens4 => ButtonStates { key_sens4: v, ..self },
            Button::KeySens5 => ButtonStates { key_sens5: v, ..self },
        }
    }
}

/// The input state as of one frame: stick and trigger deflections plus
/// the held state of every tracked discrete control. Immutable once
/// captured; frames compare their snapshot against the previous one.
#[derive(Clone, Copy, PartialEq, Eq, Structural, Debug)]
pub struct InputSnapshot {
    /// Left stick, horizontal; positive is right.
    pub left_x: i16,
    /// Left stick, vertical; positive is down, so a forward deflection
    /// is negative.
    pub left_y: i16,
    /// Right stick, horizontal; positive is right.
    pub right_x: i16,
    /// Right stick, vertical; positive is down. Tracked but not mapped
    /// to any command.
    pub right_y: i16,
    /// Left trigger; descend channel.
    pub trigger_left: i16,
    /// Right trigger; ascend channel.
    pub trigger_right: i16,
    /// Held state of the discrete controls.
    pub held: ButtonStates,
}

impl InputSnapshot {
    /// Sticks centered: every axis within one full deflection, and the
    /// triggers released or pushed, never negative.
    pub open spec fn wf(self) -> bool {
        &&& -AXIS_FULL <= self.left_x <= AXIS_FULL
        &&& -AXIS_FULL <= self.left_y <= AXIS_FULL
        &&& -AXIS_FULL <= self.right_x <= AXIS_FULL
        &&& -AXIS_FULL <= self.right_y <= AXIS_FULL
        &&& 0 <= self.trigger_left <= AXIS_FULL
        &&& 0 <= self.trigger_right <= AXIS_FULL
    }

    /// Everything at rest: sticks centered, triggers released, nothing
    /// held.
    pub open spec fn spec_at_rest() -> InputSnapshot {
        InputSnapshot {
            left_x: 0,
            left_y: 0,
            right_x: 0,
            right_y: 0,
            trigger_left: 0,
            trigger_right: 0,
            held: ButtonStates::spec_none_held(),
        }
    }

    /// This snapshot with axis `a` moved to raw position `v`, clamped
    /// to the axis range.
    pub fn with_axis(self, a: Axis, v: i16) -> (r: InputSnapshot)
        requires
            self.wf(),
        ensures
            r == spec_with_axis(self, a, v),
            r.wf(),
    {
        let stick: i16 = if v < -AXIS_FULL {
            -AXIS_FULL
        } else {
            v
        };
        let trigger: i16 = if v < 0 {
            0
        } else {
            v
        };
        match a {
            Axis::LeftX => InputSnapshot { left_x: stick, ..self },
            Axis::LeftY => InputSnapshot { left_y: stick, ..self },
            Axis::RightX => InputSnapshot { right_x: stick, ..self },
            Axis::RightY => InputSnapshot { right_y: stick, ..self },
            Axis::TriggerLeft => InputSnapshot { trigger_left: trigger, ..self },
            Axis::TriggerRight => InputSnapshot { trigger_right: trigger, ..self },
        }
    }

    /// This snapshot after key `k` went down or up.
    pub fn with_key(self, k: Key, down: bool) -> (r: InputSnapshot)
        requires
            self.wf(),
        ensures
            r == spec_apply_key(self, k, down),
            r.wf(),
    {
        match k {
            Key::Escape => self,
            Key::Left => InputSnapshot {
                left_x: if down {
                    -AXIS_FULL
                } else {
                    0
                },
                ..self
            },
            Key::Right => InputSnapshot {
                left_x: if down {
                    AXIS_FULL
                } else {
                    0
                },
                ..self
            },
            Key::Up => InputSnapshot {
                left_y: if down {
                    -AXIS_FULL
                } else {
                    0
                },
                ..self
            },
            Key::Down => InputSnapshot {
                left_y: if down {
                    AXIS_FULL
                } else {
                    0
                },
                ..self
            },
            Key::A => InputSnapshot {
                trigger_right: if down {
                    AXIS_FULL
                } else {
                    0
                },
                ..self
            },
            Key::Q => InputSnapshot {
                trigger_left: if down {
                    AXIS_FULL
                } else {
                    0
                },
                ..self
            },
            Key::Num1 => InputSnapshot {
                held: self.held.with_pressed(Button::KeySens0, down),
                ..self
            },
            Key::Num2 => InputSnapshot {
                held: self.held.with_pressed(Button::KeySens1, down),
                ..self
            },
            Key::Num3 => InputSnapshot {
                held: self.held.with_pressed(Button::KeySens2, down),
                ..self
            },
            Key::Num4 => InputSnapshot {
                held: self.held.with_pressed(Button::KeySens3, down),
                ..self
            },
            Key::Num5 => InputSnapshot {
                held: self.held.with_pressed(Button::KeySens4, down),
                ..self
            },
            Key::Num6 => InputSnapshot {
                held: self.held.with_pressed(Button::KeySens5, down),
                ..self
            },
            Key::V => InputSnapshot {
                held: self.held.with_pressed(Button::KeyVideo, down),
                ..self
            },
            Key::P => InputSnapshot {
                held: self.held.with_pressed(Button::KeyPhoto, down),
                ..self
            },
            Key::Space => InputSnapshot {
                held: self.held.with_pressed(Button::KeyTakeOff, down),
                ..self
            },
        }
    }

    /// This snapshot after one event.
    pub fn with_event(self, ev: &InputEvent) -> (r: InputSnapshot)
        requires
            self.wf(),
        ensures
            r == spec_apply_event(self, *ev),
            r.wf(),
    {
        match *ev {
            InputEvent::ButtonDown(b) => InputSnapshot {
                held: self.held.with_pressed(b, true),
                ..self
            },
            InputEvent::ButtonUp(b) => InputSnapshot {
                held: self.held.with_pressed(b, false),
                ..self
            },
            InputEvent::AxisMove(a, v) => self.with_axis(a, v),
            InputEvent::KeyDown(k) => self.with_key(k, true),
            InputEvent::KeyUp(k) => self.with_key(k, false),
            InputEvent::Quit => self,
        }
    }

    /// Everything at rest: sticks centered, triggers released, nothing
    /// held.
    pub fn at_rest() -> (s: InputSnapshot)
        ensures
            s == InputSnapshot::spec_at_rest(),
            s.wf(),
    {
        InputSnapshot {
            left_x: 0,
            left_y: 0,
            right_x: 0,
            right_y: 0,
            trigger_left: 0,
            trigger_right: 0,
            held: ButtonStates {
                pad_a: false,
                pad_b: false,
                pad_x: false,
                guide: false,
                start: false,
                left_shoulder: false,
                right_shoulder: false,
                dpad_left: false,
                dpad_right: false,
                key_photo: false,
                key_video: false,
                key_take_off: false,
                key_sens0: false,
                key_sens1: false,
                key_sens2: false,
                key_sens3: false,
                key_sens4: false,
                key_sens5: false,
            },
        }
    }
}

/// A raw stick value held to one full deflection: `i16::MIN` comes in
/// from the device but stands for the same full deflection as
/// `-AXIS_FULL`.
pub open spec fn spec_clamp_stick(v: i16) -> i16 {
    if v < -AXIS_FULL {
        (-AXIS_FULL) as i16
    } else {
        v
    }
}

/// A raw trigger value held to `[0, AXIS_FULL]`.
pub open spec fn spec_clamp_trigger(v: i16) -> i16 {
    if v < 0 {
        0
    } else {
        v
    }
}

/// The snapshot with axis `a` moved to raw position `v`, clamped to
/// the axis range. Axis reads are absolute: the new deflection
/// replaces the old one.
pub open spec fn spec_with_axis(s: InputSnapshot, a: Axis, v: i16) -> InputSnapshot {
    match a {
        Axis::LeftX => InputSnapshot { left_x: spec_clamp_stick(v), ..s },
        Axis::LeftY => InputSnapshot { left_y: spec_clamp_stick(v), ..s },
        Axis::RightX => InputSnapshot { right_x: spec_clamp_stick(v), ..s },
        Axis::RightY => InputSnapshot { right_y: spec_clamp_stick(v), ..s },
        Axis::TriggerLeft => InputSnapshot { trigger_left: spec_clamp_trigger(v), ..s },
        Axis::TriggerRight => InputSnapshot { trigger_right: spec_clamp_trigger(v), ..s },
    }
}

/// The snapshot after key `k` went down (`down` true) or up (`down`
/// false). Motion keys write a level-triggered full deflection into
/// their axis channel; action keys record their held state; `Escape`
/// changes nothing here, it is a quit signal.
pub open spec fn spec_apply_key(s: InputSnapshot, k: Key, down: bool) -> InputSnapshot {
    match k {
        Key::Escape => s,
        Key::Left => InputSnapshot { left_x: if down { (-AXIS_FULL) as i16 } else { 0 }, ..s },
        Key::Right => InputSnapshot { left_x: if down { AXIS_FULL } else { 0 }, ..s },
        Key::Up => InputSnapshot { left_y: if down { (-AXIS_FULL) as i16 } else { 0 }, ..s },
        Key::Down => InputSnapshot { left_y: if down { AXIS_FULL } else { 0 }, ..s },
        Key::A => InputSnapshot { trigger_right: if down { AXIS_FULL } else { 0 }, ..s },
        Key::Q => InputSnapshot { trigger_left: if down { AXIS_FULL } else { 0 }, ..s },
        Key::Num1 => InputSnapshot { held: s.held.spec_with_pressed(Button::KeySens0, down), ..s },
        Key::Num2 => InputSnapshot { held: s.held.spec_with_pressed(Button::KeySens1, down), ..s },
        Key::Num3 => InputSnapshot { held: s.held.spec_with_pressed(Button::KeySens2, down), ..s },
        Key::Num4 => InputSnapshot { held: s.held.spec_with_pressed(Button::KeySens3, down), ..s },
        Key::Num5 => InputSnapshot { held: s.held.spec_with_pressed(Button::KeySens4, down), ..s },
        Key::Num6 => InputSnapshot { held: s.held.spec_with_pressed(Button::KeySens5, down), ..s },
        Key::V => InputSnapshot { held: s.held.spec_with_pressed(Button::KeyVideo, down), ..s },
        Key::P => InputSnapshot { held: s.held.spec_with_pressed(Button::KeyPhoto, down), ..s },
        Key::Space => InputSnapshot {
            held: s.held.spec_with_pressed(Button::KeyTakeOff, down),
            ..s
        },
    }
}

/// The snapshot after one event. Quit signals leave it unchanged.
pub open spec fn spec_apply_event(s: InputSnapshot, ev: InputEvent) -> InputSnapshot {
    match ev {
        InputEvent::ButtonDown(b) => InputSnapshot { held: s.held.spec_with_pressed(b, true), ..s },
        InputEvent::ButtonUp(b) => InputSnapshot { held: s.held.spec_with_pressed(b, false), ..s },
        InputEvent::AxisMove(a, v) => spec_with_axis(s, a, v),
        InputEvent::KeyDown(k) => spec_apply_key(s, k, true),
        InputEvent::KeyUp(k) => spec_apply_key(s, k, false),
        InputEvent::Quit => s,
    }
}

/// Whether one event asks to quit: a window close or the escape key.
pub open spec fn spec_is_quit(ev: InputEvent) -> bool {
    ev == InputEvent::Quit || ev == InputEvent::KeyDown(Key::Escape)
}

/// The snapshot after a frame's event batch, applied in order up to
/// but not including the first quit signal.
pub open spec fn spec_apply_events(s: InputSnapshot, evs: Seq<InputEvent>) -> InputSnapshot
    decreases evs.len(),
{
    if evs.len() == 0 {
        s
    } else if spec_is_quit(evs[0]) {
        s
    } else {
        spec_apply_events(spec_apply_event(s, evs[0]), evs.drop_first())
    }
}

/// Whether a frame's event batch asks to quit.
pub open spec fn spec_events_quit(evs: Seq<InputEvent>) -> bool
    decreases evs.len(),
{
    evs.len() > 0 && (spec_is_quit(evs[0]) || spec_events_quit(evs.drop_first()))
}

/// The input sampler: folds the frame's events into the live input
/// state and hands out one immutable snapshot per frame.
#[derive(Clone, Copy, PartialEq, Eq, Structural, Debug)]
pub struct InputSampler {
    /// The live input state; becomes the frame's snapshot on `sample`.
    pub state: InputSnapshot,
}

impl InputSampler {
    /// A sampler whose state is everything at rest.
    pub fn new() -> (s: InputSampler)
        ensures
            s.state == InputSnapshot::spec_at_rest(),
            s.state.wf(),
    {
        InputSampler { state: InputSnapshot::at_rest() }
    }

    /// Whether `ev` asks to quit.
    pub fn is_quit(ev: &InputEvent) -> (r: bool)
        ensures
            r == spec_is_quit(*ev),
    {
        match ev {
            InputEvent::Quit => true,
            InputEvent::KeyDown(Key::Escape) => true,
            _ => false,
        }
    }

    /// Folds one event into the live state.
    pub fn apply_event(&mut self, ev: &InputEvent)
        requires
            old(self).state.wf(),
        ensures
            final(self).state == spec_apply_event(old(self).state, *ev),
            final(self).state.wf(),
    {
        self.state = self.state.with_event(ev);
    }

    /// Folds a frame's event batch into the live state, in order.
    /// Returns true as soon as a quit signal is seen; events after it
    /// are left unapplied, since the loop terminates.
    pub fn process_events(&mut self, events: &Vec<InputEvent>) -> (quit: bool)
        requires
            old(self).state.wf(),
        ensures
            final(self).state == spec_apply_events(old(self).state, events@),
            quit == spec_events_quit(events@),
            final(self).state.wf(),
    {
        let n: usize = events.len();
        let mut i: usize = 0;
        proof {
            assert(events@.skip(0) =~= events@);
        }
        while i < n
            invariant
                n == events@.len(),
                i <= n,
                self.state.wf(),
                spec_apply_events(old(self).state, events@) == spec_apply_events(
                    self.state,
                    events@.skip(i as int),
                ),
                spec_events_quit(events@) == spec_events_quit(events@.skip(i as int)),
            decreases n - i,
        {
            let ev = &events[i];
            proof {
                assert(events@.skip(i as int).drop_first() =~= events@.skip(i as int + 1));
                assert(events@.skip(i as int)[0] == events@[i as int]);
            }
            if Self::is_quit(ev) {
                return true;
            }
            self.apply_event(ev);
            i = i + 1;
        }
        proof {
            assert(events@.skip(n as int) =~= Seq::<InputEvent>::empty());
        }
        false
    }

    /// The frame's immutable snapshot of the live state.
    pub fn sample(&self) -> (s: InputSnapshot)
        ensures
            s == self.state,
    {
        self.state
    }
}

} // verus!
