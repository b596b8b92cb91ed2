use vstd::prelude::*;

use crate::candidate::Candidate;
use crate::candidate_service::{active, clear_spec, MAX_CANDIDATES};
use crate::dispatcher::{candidates_post, ended, input_post, DispatchView, Dispatcher, Step};
use crate::keys::Key;
use crate::mode_switcher::{
    decode_spec, flip, has_modifier, initial_switcher, lemma_shift_tap_toggles, switch_step, KeyContent, Mode,
    ModeSwitcher, ModeSwitcherReturn, SwitcherState,
};
use crate::sink::SinkCall;

verus! {

/// The model of a pipeline: the mode switcher's state and the dispatcher's.
pub struct PipelineView {
    pub switcher: SwitcherState,
    pub dispatch: DispatchView,
}

/// What one decoded event does: the mode switcher steps; a pass-through
/// leaves the dispatcher alone, a mode toggle ends the composition, and a
/// forwarded event goes to the dispatcher.
pub open spec fn event_post(p: PipelineView, q: PipelineView, ev: KeyContent, r: Step) -> bool {
    let (sw, ret) = switch_step(p.switcher, ev);
    &&& q.switcher == sw
    &&& match ret {
        ModeSwitcherReturn::Done(handled) => q.dispatch == p.dispatch && r == Step::Done(handled),
        ModeSwitcherReturn::SwitchMode => q.dispatch == ended(p.dispatch) && r == Step::Done(true),
        ModeSwitcherReturn::Continue(k) => input_post(p.dispatch, q.dispatch, k, r),
    }
}

/// The whole key-event path: mode switcher, then dispatcher.
pub struct Pipeline {
    mode_switcher: ModeSwitcher,
    dispatcher: Dispatcher,
}

impl View for Pipeline {
    type V = PipelineView;

    closed spec fn view(&self) -> PipelineView {
        PipelineView { switcher: self.mode_switcher@, dispatch: self.dispatcher@ }
    }
}

impl Pipeline {
    /// The dispatcher is well formed.
    pub closed spec fn wf(&self) -> bool {
        self.dispatcher.wf()
    }

    /// A pipeline in English mode with no composition and nothing queued.
    pub fn new() -> (r: Pipeline)
        ensures
            r.wf(),
            r@.switcher == initial_switcher(),
            r@.dispatch == (DispatchView {
                preedit: Seq::empty(),
                session: clear_spec(),
                outbox: Seq::empty(),
            }),
    {
        Pipeline { mode_switcher: ModeSwitcher::new(), dispatcher: Dispatcher::new() }
    }

    /// Processes one raw key event from the host.
    pub fn accept(&mut self, keyval: u32, keycode: u32, state: u32) -> (r: Step)
        requires
            old(self).wf(),
        ensures
            final(self).wf(),
            match decode_spec(keyval, keycode, state) {
                Some(ev) => event_post(old(self)@, final(self)@, ev, r),
                None => final(self)@ == old(self)@ && r == Step::Done(false),
            },
    {
        let output = self.mode_switcher.process_key_event(keyval, keycode, state);
        match output {
            ModeSwitcherReturn::Continue(key_content) => self.dispatcher.on_input(key_content),
            ModeSwitcherReturn::Done(has_handled) => Step::Done(has_handled),
            ModeSwitcherReturn::SwitchMode => {
                self.dispatcher.end_composition();
                Step::Done(true)
            },
        }
    }

    /// Takes the candidate source's answer to the query that `accept` asked
    /// for.
    pub fn on_candidates(&mut self, candidates: Vec<Candidate>) -> (r: bool)
        requires
            old(self).wf(),
            candidates@.len() <= MAX_CANDIDATES,
        ensures
            final(self).wf(),
            r,
            final(self)@ == (PipelineView {
                switcher: old(self)@.switcher,
                dispatch: candidates_post(old(self)@.dispatch, candidates@),
            }),
    {
        self.dispatcher.on_candidates(candidates)
    }

    /// Hands out the calls queued for the host, in order.
    pub fn take_calls(&mut self) -> (r: Vec<SinkCall>)
        requires
            old(self).wf(),
        ensures
            final(self).wf(),
            r@.map_values(|c: SinkCall| c@) == old(self)@.dispatch.outbox,
            final(self)@.switcher == old(self)@.switcher,
            final(self)@.dispatch == (DispatchView { outbox: Seq::empty(), ..old(self)@.dispatch }),
    {
        self.dispatcher.take_calls()
    }

    /// The current mode.
    pub fn mode(&self) -> (r: Mode)
        ensures
            r == self@.switcher.mode,
    {
        self.mode_switcher.mode()
    }
}

/// A Shift press followed at once by a Shift release toggles the mode exactly
/// once and ends any composition: after the release no session is active and
/// the composing text is empty. (In English mode the release must carry none
/// of the modifiers that make an event pass through.)
pub proof fn lemma_shift_tap_ends_composition(
    p0: PipelineView,
    p1: PipelineView,
    p2: PipelineView,
    press: KeyContent,
    release: KeyContent,
    r1: Step,
    r2: Step,
)
    requires
        press.key == Key::Shift,
        !press.flags.is_release,
        release.key == Key::Shift,
        release.flags.is_release,
        !(p0.switcher.mode == Mode::English && has_modifier(release.flags)),
        event_post(p0, p1, press, r1),
        event_post(p1, p2, release, r2),
    ensures
        p1.switcher.mode == p0.switcher.mode,
        p2.switcher.mode == flip(p0.switcher.mode),
        r2 == Step::Done(true),
        !active(p2.dispatch.session),
        p2.dispatch.preedit.len() == 0,
{
    lemma_shift_tap_toggles(p0.switcher, press, release);
}

} // verus!
