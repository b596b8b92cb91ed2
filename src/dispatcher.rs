use vstd::prelude::*;

use crate::candidate::Candidate;
use crate::candidate_service::{
    active, clear_spec, in_window, page_back_spec, page_into_spec, render,
    selected, set_spec, CandidateService, SessionView, MAX_CANDIDATES,
};
use crate::keys::{full_width_of, is_control, is_digit, is_letter, is_punctuation, digit_value,
    letter_char, Key,
};
use crate::mode_switcher::KeyContent;
use crate::number_service::{digit_text, NumberService};
use crate::preedit::PreeditBuffer;
use crate::sink::{Outbox, SinkCall, SinkEvent, TableView};
use crate::symbol_service::SymbolService;

verus! {

/// What the dispatcher asks of its caller once an event is processed.
#[derive(Clone, Debug, PartialEq, Eq)]
pub enum Step {
    /// The event is finished; the flag says whether it was handled.
    Done(bool),
    /// The caller queries the candidate source for `prefix` with at least
    /// `min_count` results and hands them to `on_candidates`; the event is
    /// then handled.
    Query { prefix: String, min_count: usize },
}

/// `r` asks for a query of `prefix` with batch size `n`.
pub open spec fn is_query(r: Step, prefix: Seq<char>, n: usize) -> bool {
    r matches Step::Query { prefix: p, min_count } && p@ == prefix && min_count == n
}

/// The batch sizes of candidate queries, ascending.
pub open spec fn batch_levels() -> Seq<usize> {
    seq![11usize, 21, 41, 81, 161, 321, 641, 1281]
}

/// The smallest batch level that is at least `min`; 0 when there is none.
pub open spec fn batch_for(min: nat) -> usize {
    if min <= 11 {
        11
    } else if min <= 21 {
        21
    } else if min <= 41 {
        41
    } else if min <= 81 {
        81
    } else if min <= 161 {
        161
    } else if min <= 321 {
        321
    } else if min <= 641 {
        641
    } else if min <= 1281 {
        1281
    } else {
        0
    }
}

/// The model of a dispatcher: composing text, candidate session, and the
/// calls queued for the host.
pub struct DispatchView {
    pub preedit: Seq<char>,
    pub session: SessionView,
    pub outbox: Seq<SinkEvent>,
}

/// The 1-based slot that a digit key selects; `0` stands for the tenth.
pub open spec fn slot_of(k: Key) -> nat {
    if digit_value(k) == 0 {
        10
    } else {
        digit_value(k)
    }
}

/// Composing text and session ended, with the empty table queued.
pub open spec fn ended(d: DispatchView) -> DispatchView {
    DispatchView {
        preedit: Seq::empty(),
        session: clear_spec(),
        outbox: d.outbox.push(SinkEvent::Table(TableView::Empty, false)),
    }
}

/// Selecting slot `ith`: when it is a row of the window, its word is
/// committed and the composition ends; otherwise nothing changes.
pub open spec fn select_post(d: DispatchView, e: DispatchView, ith: nat) -> bool {
    if in_window(d.session, ith) {
        e == ended(
            DispatchView {
                outbox: d.outbox.push(SinkEvent::Commit(selected(d.session, ith).word@)),
                ..d
            },
        )
    } else {
        e == d
    }
}

/// A letter: a press appends it and asks for the first batch of candidates
/// for the new text; a release is swallowed.
pub open spec fn letter_post(d: DispatchView, e: DispatchView, k: KeyContent, r: Step) -> bool {
    if k.flags.is_release {
        e == d && r == Step::Done(true)
    } else {
        e == DispatchView { preedit: d.preedit.push(letter_char(k.key)), ..d } && is_query(
            r,
            e.preedit,
            batch_levels()[0],
        )
    }
}

/// A digit: in a session, a press selects its slot and a release is
/// swallowed; outside one, the digit is committed as text.
pub open spec fn digit_post(d: DispatchView, e: DispatchView, k: KeyContent, r: Step) -> bool {
    &&& r == Step::Done(true)
    &&& if active(d.session) {
        if k.flags.is_release {
            e == d
        } else {
            select_post(d, e, slot_of(k.key))
        }
    } else {
        e == DispatchView { outbox: d.outbox.push(SinkEvent::Commit(digit_text(k))), ..d }
    }
}

/// A punctuation key: a press commits its full-width glyph, whatever the
/// session; a release does nothing.
pub open spec fn punctuation_post(d: DispatchView, e: DispatchView, k: KeyContent, r: Step) -> bool {
    &&& r == Step::Done(true)
    &&& if k.flags.is_release {
        e == d
    } else {
        e == DispatchView {
            outbox: d.outbox.push(SinkEvent::Commit(full_width_of(k.key))),
            ..d
        }
    }
}

/// A control key. Outside a session it is unhandled. In one: Space selects
/// slot 1; Enter commits the composing text itself, then ends the composition;
/// Minus pages back; Equal pages forward, or asks for a larger batch when the
/// next page lacks candidates; Backspace removes the last character and asks
/// for candidates again, ends the composition when none is left, and is
/// unhandled when the text was empty; Escape ends the composition; the arrow
/// keys are unhandled.
pub open spec fn control_post(d: DispatchView, e: DispatchView, k: KeyContent, r: Step) -> bool {
    if !active(d.session) {
        e == d && r == Step::Done(false)
    } else {
        match k.key {
            Key::Space => r == Step::Done(true) && select_post(d, e, 1),
            Key::Enter => r == Step::Done(true) && e == ended(
                DispatchView { outbox: d.outbox.push(SinkEvent::Commit(d.preedit)), ..d },
            ),
            Key::Minus => r == Step::Done(true) && e == DispatchView {
                session: page_back_spec(d.session),
                outbox: if d.session.page == 0 {
                    d.outbox
                } else {
                    d.outbox.push(
                        SinkEvent::Table(render(d.session.candidates, (d.session.page - 1) as nat), true),
                    )
                },
                ..d
            },
            Key::Equal => {
                let (s2, (enough, min_needed)) = page_into_spec(d.session);
                if enough {
                    r == Step::Done(true) && e == DispatchView {
                        session: s2,
                        outbox: d.outbox.push(
                            SinkEvent::Table(render(d.session.candidates, d.session.page + 1), true),
                        ),
                        ..d
                    }
                } else {
                    e == d && is_query(
                        r,
                        d.preedit,
                        batch_for(min_needed.unwrap() as nat),
                    )
                }
            },
            Key::Backspace => if d.preedit.len() == 0 {
                e == d && r == Step::Done(false)
            } else if d.preedit.len() == 1 {
                e == ended(d) && r == Step::Done(true)
            } else {
                e == DispatchView { preedit: d.preedit.drop_last(), ..d } && is_query(
                    r,
                    e.preedit,
                    batch_levels()[0],
                )
            },
            Key::Escape => r == Step::Done(true) && e == ended(d),
            _ => e == d && r == Step::Done(false),
        }
    }
}

/// What one forwarded event does, by key class. Uppercase letters and bare
/// modifier keys are declined and change nothing.
pub open spec fn input_post(d: DispatchView, e: DispatchView, k: KeyContent, r: Step) -> bool {
    if is_letter(k.key) {
        letter_post(d, e, k, r)
    } else if is_digit(k.key) {
        digit_post(d, e, k, r)
    } else if is_punctuation(k.key) {
        punctuation_post(d, e, k, r)
    } else if is_control(k.key) {
        control_post(d, e, k, r)
    } else {
        e == d && r == Step::Done(false)
    }
}

/// The state after the candidate source answered with `list`.
pub open spec fn candidates_post(d: DispatchView, list: Seq<Candidate>) -> DispatchView {
    DispatchView {
        session: set_spec(d.session, list),
        outbox: d.outbox.push(SinkEvent::Table(render(list, d.session.page), true)),
        ..d
    }
}

/// The batch level picked for a query that must return at least `min`
/// candidates, when the first `i` levels are too small and level `i` is not.
proof fn lemma_batch_for(min: nat, i: int)
    requires
        0 <= i < 8,
        batch_levels()[i] >= min,
        forall|j: int| 0 <= j < i ==> batch_levels()[j] < min,
    ensures
        batch_for(min) == batch_levels()[i],
{
    if i > 0 {
        assert(batch_levels()[0] < min);
    }
    if i > 1 {
        assert(batch_levels()[1] < min);
    }
    if i > 2 {
        assert(batch_levels()[2] < min);
    }
    if i > 3 {
        assert(batch_levels()[3] < min);
    }
    if i > 4 {
        assert(batch_levels()[4] < min);
    }
    if i > 5 {
        assert(batch_levels()[5] < min);
    }
    if i > 6 {
        assert(batch_levels()[6] < min);
    }
}

/// Routes forwarded key events by key class, and owns the composing text,
/// the candidate session and the calls queued for the host.
pub struct Dispatcher {
    pub candidate_svc: CandidateService,
    pub preedit_svc: PreeditBuffer,
    symbol_svc: SymbolService,
    number_svc: NumberService,
    outbox: Outbox,
    level: Vec<usize>,
}

impl View for Dispatcher {
    type V = DispatchView;

    closed spec fn view(&self) -> DispatchView {
        DispatchView {
            preedit: self.preedit_svc@,
            session: self.candidate_svc@,
            outbox: self.outbox@,
        }
    }
}

impl Dispatcher {
    /// The session invariant holds and the batch levels are the fixed ones.
    pub closed spec fn wf(&self) -> bool {
        self.candidate_svc.wf() && self.level@ == batch_levels()
    }

    /// A dispatcher with no composition and nothing queued.
    pub fn new() -> (r: Dispatcher)
        ensures
            r.wf(),
            r@ == (DispatchView {
                preedit: Seq::empty(),
                session: clear_spec(),
                outbox: Seq::empty(),
            }),
    {
        let level = vec![11usize, 21, 41, 81, 161, 321, 641, 1281];
        assert(level@ =~= batch_levels());
        Dispatcher {
            candidate_svc: CandidateService::new(),
            preedit_svc: PreeditBuffer::new(),
            symbol_svc: SymbolService::new(),
            number_svc: NumberService::new(),
            outbox: Outbox::new(),
            level,
        }
    }

    /// Hands out the calls queued for the host, in order.
    pub fn take_calls(&mut self) -> (r: Vec<SinkCall>)
        requires
            old(self).wf(),
        ensures
            final(self).wf(),
            r@.map_values(|c: SinkCall| c@) == old(self)@.outbox,
            final(self)@ == (DispatchView { outbox: Seq::empty(), ..old(self)@ }),
    {
        self.outbox.take_calls()
    }

    /// Processes one forwarded key event.
    pub fn on_input(&mut self, key_content: KeyContent) -> (r: Step)
        requires
            old(self).wf(),
        ensures
            final(self).wf(),
            input_post(old(self)@, final(self)@, key_content, r),
    {
        let key = key_content.key;
        if key.is_letter() {
            self.handle_pinyin(key_content)
        } else if key.is_digit() {
            if self.candidate_svc.in_session() {
                self.handle_select(key_content);
            } else {
                self.number_svc.handle_number(key_content, &mut self.outbox);
            }
            Step::Done(true)
        } else if key.is_punctuation() {
            self.symbol_svc.handle_symbol(key_content, &mut self.outbox);
            Step::Done(true)
        } else if key.is_control() {
            self.handle_control(key_content)
        } else {
            Step::Done(false)
        }
    }

    /// A letter key: a press appends the letter and asks for candidates.
    pub fn handle_pinyin(&mut self, key_content: KeyContent) -> (r: Step)
        requires
            old(self).wf(),
            is_letter(key_content.key),
        ensures
            final(self).wf(),
            letter_post(old(self)@, final(self)@, key_content, r),
    {
        if key_content.flags.is_release {
            return Step::Done(true);
        }
        let c = match key_content.key.to_char() {
            Some(c) => c,
            None => ' ',
        };
        self.preedit_svc.push(c);
        let prefix = self.preedit_svc.to_string();
        Step::Query { prefix, min_count: self.level[0] }
    }

    /// A digit key in a session: a press selects its slot when the window has
    /// it.
    pub fn handle_select(&mut self, key_content: KeyContent) -> (r: bool)
        requires
            old(self).wf(),
            is_digit(key_content.key),
        ensures
            final(self).wf(),
            r,
            key_content.flags.is_release ==> final(self)@ == old(self)@,
            !key_content.flags.is_release ==> select_post(
                old(self)@,
                final(self)@,
                slot_of(key_content.key),
            ),
    {
        if key_content.flags.is_release {
            return true;
        }
        let d = match key_content.key.to_usize() {
            Some(d) => d,
            None => 0,
        };
        let ith = if d == 0 {
            10
        } else {
            d
        };
        self.select_slot(ith);
        true
    }

    /// Commits slot `ith` and ends the composition, when the window has it.
    fn select_slot(&mut self, ith: usize)
        requires
            old(self).wf(),
        ensures
            final(self).wf(),
            select_post(old(self)@, final(self)@, ith as nat),
    {
        if self.candidate_svc.has_slot(ith) {
            self.preedit_svc.clear();
            self.candidate_svc.select(ith, &mut self.outbox);
        }
    }

    /// Ends the composition: composing text and session.
    pub fn end_composition(&mut self)
        requires
            old(self).wf(),
        ensures
            final(self).wf(),
            final(self)@ == ended(old(self)@),
    {
        self.preedit_svc.clear();
        self.candidate_svc.clear(&mut self.outbox);
    }

    /// A control or navigation key.
    pub fn handle_control(&mut self, key_content: KeyContent) -> (r: Step)
        requires
            old(self).wf(),
            is_control(key_content.key),
        ensures
            final(self).wf(),
            control_post(old(self)@, final(self)@, key_content, r),
    {
        if !self.candidate_svc.in_session() {
            return Step::Done(false);
        }
        match key_content.key {
            Key::Space => {
                self.select_slot(1);
                Step::Done(true)
            },
            Key::Enter => {
                let preedit = self.preedit_svc.to_string();
                self.outbox.commit_text(preedit);
                self.end_composition();
                Step::Done(true)
            },
            Key::Minus => {
                self.candidate_svc.page_back(&mut self.outbox);
                Step::Done(true)
            },
            Key::Equal => {
                let (enough, min_needed) = self.candidate_svc.page_into(&mut self.outbox);
                if enough {
                    return Step::Done(true);
                }
                let min = match min_needed {
                    Some(m) => m,
                    None => 0,
                };
                let mut to_load: usize = 0;
                let mut i: usize = 0;
                while i < self.level.len() && to_load == 0
                    invariant
                        self.level@ == batch_levels(),
                        i <= 8,
                        to_load == 0 ==> forall|j: int| 0 <= j < i ==> batch_levels()[j] < min,
                        to_load != 0 ==> to_load == batch_for(min as nat),
                    decreases 8 - i,
                {
                    if self.level[i] >= min {
                        to_load = self.level[i];
                        proof {
                            lemma_batch_for(min as nat, i as int);
                        }
                    }
                    i = i + 1;
                }
                proof {
                    if to_load == 0 {
                        assert(batch_levels()[7] < min);
                    }
                }
                let prefix = self.preedit_svc.to_string();
                Step::Query { prefix, min_count: to_load }
            },
            Key::Backspace => {
                let popped = self.preedit_svc.pop();
                if popped.is_none() {
                    return Step::Done(false);
                }
                if self.preedit_svc.is_empty() {
                    assert(self.preedit_svc@ =~= Seq::<char>::empty());
                    self.candidate_svc.clear(&mut self.outbox);
                    return Step::Done(true);
                }
                let prefix = self.preedit_svc.to_string();
                Step::Query { prefix, min_count: self.level[0] }
            },
            Key::Escape => {
                self.end_composition();
                Step::Done(true)
            },
            _ => Step::Done(false),
        }
    }

    /// Takes the candidate source's answer to a query: it replaces the
    /// session's list and is rendered.
    pub fn on_candidates(&mut self, candidates: Vec<Candidate>) -> (r: bool)
        requires
            old(self).wf(),
            candidates@.len() <= MAX_CANDIDATES,
        ensures
            final(self).wf(),
            r,
            final(self)@ == candidates_post(old(self)@, candidates@),
    {
        self.candidate_svc.set_candidates(candidates, &mut self.outbox);
        true
    }
}

} // verus!
