//! The control loop's per-frame decision step.
//!
//! The loop around this — window events in, vehicle calls and drawing
//! out, frame pacing — performs only input and output. Everything the
//! frame decides happens in [`ControlState::frame`]: fold the frame's
//! events into the live input state, detect edges against the previous
//! frame's snapshot, translate into the command intent, resolve the
//! dispatch plan against the vehicle's reported flying state, rotate
//! the snapshot for the next frame, and return the intent to its
//! baseline. A quit signal ends the loop instead; that is its sole
//! termination path.

use vstd::prelude::*;

use crate::dispatch::{plan_dispatch, spec_plan, DispatchPlan};
use crate::input::{
    spec_apply_events, spec_events_quit, InputEvent, InputSampler, InputSnapshot,
};
use crate::intent::CommandIntent;
use crate::translate::spec_translate;

verus! {

/// The state the control loop carries across frames: the previous
/// frame's snapshot, the live input state, and the command intent.
/// Owned by the loop alone; never shared across threads.
#[derive(Clone, Copy, PartialEq, Eq, Structural, Debug)]
pub struct ControlState {
    /// The previous frame's snapshot, the edge detector's reference.
    pub prev: InputSnapshot,
    /// The input sampler's live state.
    pub sampler: InputSampler,
    /// The command accumulator.
    pub intent: CommandIntent,
}

impl ControlState {
    /// Both snapshots within range and the intent on its scales.
    pub open spec fn wf(self) -> bool {
        &&& self.prev.wf()
        &&& self.sampler.state.wf()
        &&& self.intent.wf()
    }

    /// The loop's starting state: input at rest, intent at the clean
    /// baseline with the default sensitivity.
    pub fn new() -> (s: ControlState)
        ensures
            s.wf(),
            s.prev == InputSnapshot::spec_at_rest(),
            s.sampler.state == InputSnapshot::spec_at_rest(),
            s.intent == CommandIntent::spec_baseline(),
    {
        ControlState {
            prev: InputSnapshot::at_rest(),
            sampler: InputSampler::new(),
            intent: CommandIntent::default(),
        }
    }

    /// One frame: returns the dispatch plan, or `None` exactly when
    /// the frame's events ask to quit.
    ///
    /// On a quit the intent and the previous snapshot are left alone —
    /// the loop terminates. Otherwise the plan is the translation of
    /// the frame's snapshot against the previous one, resolved against
    /// `flying`; the frame's snapshot becomes the previous one; and
    /// the intent is back at the zero baseline — every one-shot flag
    /// false — with only the frame's sensitivity carried forward.
    pub fn frame(&mut self, events: &Vec<InputEvent>, flying: bool) -> (r: Option<DispatchPlan>)
        requires
            old(self).wf(),
        ensures
            final(self).wf(),
            final(self).sampler.state == spec_apply_events(old(self).sampler.state, events@),
            r is None <==> spec_events_quit(events@),
            spec_events_quit(events@) ==> final(self).prev == old(self).prev && final(self).intent
                == old(self).intent,
            !spec_events_quit(events@) ==> ({
                let cur = spec_apply_events(old(self).sampler.state, events@);
                let t = spec_translate(old(self).intent, old(self).prev, cur);
                &&& r == Some(spec_plan(t, flying))
                &&& final(self).prev == cur
                &&& final(self).intent == CommandIntent::spec_zeroed(t)
                &&& final(self).intent.sensitivity == t.sensitivity
                &&& !final(self).intent.take_off
                &&& !final(self).intent.hover
                &&& !final(self).intent.take_picture
                &&& !final(self).intent.toggle_video
                &&& !final(self).intent.img_carousel_left
                &&& !final(self).intent.img_carousel_right
                &&& !final(self).intent.img_carousel_toggle_zoom
            }),
    {
        let quit = self.sampler.process_events(events);
        if quit {
            return None;
        }
        let cur = self.sampler.sample();
        self.intent.translate(&self.prev, &cur);
        let plan = plan_dispatch(&self.intent, flying);
        self.prev = cur;
        self.intent.zero_state();
        Some(plan)
    }
}

} // verus!
