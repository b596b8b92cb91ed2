use vstd::prelude::*;

use crate::candidate::Candidate;
use crate::sink::{entry_view, LookupTable, Outbox, SinkEvent, TableEntry, TableView};

verus! {

/// Number of candidates that one page of the lookup table shows.
pub const PAGE_SIZE: usize = 5;

/// Largest candidate list a session takes. A `Vec<Candidate>` never comes near
/// it: its elements span many bytes, and an allocation holds at most
/// `isize::MAX` bytes.
pub const MAX_CANDIDATES: usize = usize::MAX / 16;

/// The model of a candidate session: the candidate list and the page shown.
pub struct SessionView {
    pub candidates: Seq<Candidate>,
    pub page: nat,
}

/// The list and the start of the page stay within the largest list a
/// session takes.
pub open spec fn session_wf(s: SessionView) -> bool {
    &&& s.candidates.len() <= MAX_CANDIDATES
    &&& s.page * PAGE_SIZE <= MAX_CANDIDATES
}

/// Whether the session is active: its list is not empty.
pub open spec fn active(s: SessionView) -> bool {
    s.candidates.len() > 0
}

/// A candidate as a row of the lookup table.
pub open spec fn candidate_entry(c: Candidate) -> (Seq<char>, Seq<char>) {
    (c.word@, c.annotation@)
}

/// First index of page `page`.
pub open spec fn window_start(page: nat) -> int {
    page * PAGE_SIZE
}

/// One past the last index of page `page` of a list of length `len`:
/// `min((page + 1) * PAGE_SIZE, len)`.
pub open spec fn window_end(len: nat, page: nat) -> int {
    if (page + 1) * PAGE_SIZE < len {
        (page + 1) * PAGE_SIZE
    } else {
        len as int
    }
}

/// What page `page` of `cands` renders: the rows of indices
/// `[window_start, window_end)`, or the explicit empty marker when that range
/// is empty.
pub open spec fn render(cands: Seq<Candidate>, page: nat) -> TableView {
    let start = window_start(page);
    let end = window_end(cands.len(), page);
    if start < end {
        TableView::Entries(cands.subrange(start, end).map_values(|c: Candidate| candidate_entry(c)))
    } else {
        TableView::Empty
    }
}

/// The session after its list is replaced; the page is kept.
pub open spec fn set_spec(s: SessionView, list: Seq<Candidate>) -> SessionView {
    SessionView { candidates: list, page: s.page }
}

/// Whether the page after the current one starts beyond the list.
pub open spec fn next_page_missing(s: SessionView) -> bool {
    (s.page + 1) * PAGE_SIZE >= s.candidates.len()
}

/// The session after an attempt to page forward, and the answer: whether there
/// were enough candidates, and if not the least list length that would do.
pub open spec fn page_into_spec(s: SessionView) -> (SessionView, (bool, Option<usize>)) {
    if next_page_missing(s) {
        (s, (false, Some(((s.page + 1) * PAGE_SIZE + 1) as usize)))
    } else {
        (SessionView { candidates: s.candidates, page: s.page + 1 }, (true, None))
    }
}

/// The session after paging back; page 0 stays.
pub open spec fn page_back_spec(s: SessionView) -> SessionView {
    if s.page == 0 {
        s
    } else {
        SessionView { candidates: s.candidates, page: (s.page - 1) as nat }
    }
}

/// The ended session: no candidates, page 0.
pub open spec fn clear_spec() -> SessionView {
    SessionView { candidates: Seq::empty(), page: 0 }
}

/// Whether the 1-based slot `ith` is a row of the rendered window.
pub open spec fn in_window(s: SessionView, ith: nat) -> bool {
    1 <= ith <= PAGE_SIZE && ith - 1 + s.page * PAGE_SIZE < s.candidates.len()
}

/// The candidate in the 1-based slot `ith` of the current page.
pub open spec fn selected(s: SessionView, ith: nat) -> Candidate {
    s.candidates[ith - 1 + s.page * PAGE_SIZE]
}

/// The rows of the current page, as an exec value.
fn render_window(cands: &Vec<Candidate>, page: usize) -> (r: LookupTable)
    requires
        page * PAGE_SIZE <= MAX_CANDIDATES,
    ensures
        r@ == render(cands@, page as nat),
{
    let start = page * PAGE_SIZE;
    let end = if start + PAGE_SIZE < cands.len() {
        start + PAGE_SIZE
    } else {
        cands.len()
    };
    if start < end {
        let mut rows: Vec<TableEntry> = Vec::new();
        let mut i = start;
        while i < end
            invariant
                start <= i <= end,
                end <= cands@.len(),
                rows@.len() == i - start,
                forall|j: int|
                    0 <= j < rows@.len() ==> entry_view(#[trigger] rows@[j]) == candidate_entry(
                        cands@[start + j],
                    ),
            decreases end - i,
        {
            let row = TableEntry {
                word: cands[i].word.clone(),
                annotation: cands[i].annotation.clone(),
            };
            rows.push(row);
            i = i + 1;
        }
        let r = LookupTable::Entries(rows);
        assert(rows@.map_values(|e: TableEntry| entry_view(e)) =~= cands@.subrange(
            start as int,
            end as int,
        ).map_values(|c: Candidate| candidate_entry(c)));
        r
    } else {
        LookupTable::Empty
    }
}

/// The candidate list of a session and the page shown.
pub struct State {
    candidates: Vec<Candidate>,
    page: usize,
}

impl View for State {
    type V = SessionView;

    closed spec fn view(&self) -> SessionView {
        SessionView { candidates: self.candidates@, page: self.page as nat }
    }
}

impl State {
    /// No candidates, page 0.
    pub fn new() -> (r: State)
        ensures
            r@ == clear_spec(),
    {
        let r = State { candidates: Vec::new(), page: 0 };
        assert(r@.candidates =~= Seq::<Candidate>::empty());
        r
    }
}

/// Owner of the paged candidate session. Each operation that changes what the
/// host should show queues the rendering on the outbox it is given.
pub struct CandidateService {
    state: State,
}

impl View for CandidateService {
    type V = SessionView;

    closed spec fn view(&self) -> SessionView {
        self.state@
    }
}

impl CandidateService {
    /// The session invariant holds.
    pub open spec fn wf(&self) -> bool {
        session_wf(self@)
    }

    /// A service with no session.
    pub fn new() -> (r: CandidateService)
        ensures
            r.wf(),
            r@ == clear_spec(),
    {
        CandidateService { state: State::new() }
    }

    /// Whether a session is active.
    pub fn in_session(&self) -> (r: bool)
        ensures
            r == active(self@),
    {
        self.state.candidates.len() != 0
    }

    /// The page shown.
    pub fn page(&self) -> (r: usize)
        ensures
            r == self@.page,
    {
        self.state.page
    }

    /// Whether the 1-based slot `ith` is a row of the rendered window.
    pub fn has_slot(&self, ith: usize) -> (r: bool)
        requires
            self.wf(),
        ensures
            r == in_window(self@, ith as nat),
    {
        1 <= ith && ith <= PAGE_SIZE && ith - 1 + self.state.page * PAGE_SIZE
            < self.state.candidates.len()
    }

    /// Replaces the candidate list, keeps the page, and renders that page of
    /// the new list with focus.
    pub fn set_candidates(&mut self, candidates: Vec<Candidate>, sink: &mut Outbox)
        requires
            old(self).wf(),
            candidates@.len() <= MAX_CANDIDATES,
        ensures
            final(self).wf(),
            final(self)@ == set_spec(old(self)@, candidates@),
            final(self)@ == apply_op(old(self)@, SessionOp::SetCandidates(candidates@)),
            final(sink)@ == old(sink)@.push(
                SinkEvent::Table(render(candidates@, old(self)@.page), true),
            ),
    {
        self.state.candidates = candidates;
        let table = render_window(&self.state.candidates, self.state.page);
        sink.update_lookup_table(table, true);
    }

    /// Pages forward when the next page has candidates, rendering it with
    /// focus, and answers `(true, None)`; otherwise stays and answers
    /// `(false, Some(n))` with `n` the least list length that fills the first
    /// row of the next page.
    pub fn page_into(&mut self, sink: &mut Outbox) -> (r: (bool, Option<usize>))
        requires
            old(self).wf(),
        ensures
            final(self).wf(),
            (final(self)@, r) == page_into_spec(old(self)@),
            final(self)@ == apply_op(old(self)@, SessionOp::PageInto),
            next_page_missing(old(self)@) ==> final(sink)@ == old(sink)@,
            !next_page_missing(old(self)@) ==> final(sink)@ == old(sink)@.push(
                SinkEvent::Table(render(old(self)@.candidates, old(self)@.page + 1), true),
            ),
    {
        let potential_start = (self.state.page + 1) * PAGE_SIZE;
        if potential_start >= self.state.candidates.len() {
            return (false, Some(potential_start + 1));
        }
        self.state.page = self.state.page + 1;
        let table = render_window(&self.state.candidates, self.state.page);
        sink.update_lookup_table(table, true);
        (true, None)
    }

    /// Pages back, rendering the earlier page with focus; nothing happens on
    /// page 0.
    pub fn page_back(&mut self, sink: &mut Outbox)
        requires
            old(self).wf(),
        ensures
            final(self).wf(),
            final(self)@ == page_back_spec(old(self)@),
            final(self)@ == apply_op(old(self)@, SessionOp::PageBack),
            old(self)@.page == 0 ==> final(sink)@ == old(sink)@,
            old(self)@.page > 0 ==> final(sink)@ == old(sink)@.push(
                SinkEvent::Table(render(old(self)@.candidates, (old(self)@.page - 1) as nat), true),
            ),
    {
        if self.state.page == 0 {
            return ;
        }
        self.state.page = self.state.page - 1;
        let table = render_window(&self.state.candidates, self.state.page);
        sink.update_lookup_table(table, true);
    }

    /// Commits the word in the 1-based slot `ith` of the current page, then
    /// ends the session.
    pub fn select(&mut self, ith: usize, sink: &mut Outbox)
        requires
            old(self).wf(),
            in_window(old(self)@, ith as nat),
        ensures
            final(self).wf(),
            final(self)@ == clear_spec(),
            final(self)@ == apply_op(old(self)@, SessionOp::Select),
            final(sink)@ == old(sink)@.push(
                SinkEvent::Commit(selected(old(self)@, ith as nat).word@),
            ).push(SinkEvent::Table(TableView::Empty, false)),
    {
        let idx = ith - 1 + self.state.page * PAGE_SIZE;
        let text = self.state.candidates[idx].word.clone();
        sink.commit_text(text);
        self.clear(sink);
    }

    /// Ends the session: no candidates, page 0, and an explicit empty table
    /// rendered without focus.
    pub fn clear(&mut self, sink: &mut Outbox)
        ensures
            final(self).wf(),
            final(self)@ == clear_spec(),
            final(self)@ == apply_op(old(self)@, SessionOp::Clear),
            final(sink)@ == old(sink)@.push(SinkEvent::Table(TableView::Empty, false)),
    {
        self.state.candidates.clear();
        self.state.page = 0;
        assert(self@.candidates =~= Seq::<Candidate>::empty());
        sink.update_lookup_table(LookupTable::Empty, false);
    }
}

/// An operation on a candidate session, for stating what holds after a run
/// of them.
pub enum SessionOp {
    SetCandidates(Seq<Candidate>),
    PageInto,
    PageBack,
    Select,
    Clear,
}

/// The session after one operation.
pub open spec fn apply_op(s: SessionView, op: SessionOp) -> SessionView {
    match op {
        SessionOp::SetCandidates(list) => set_spec(s, list),
        SessionOp::PageInto => page_into_spec(s).0,
        SessionOp::PageBack => page_back_spec(s),
        SessionOp::Select => clear_spec(),
        SessionOp::Clear => clear_spec(),
    }
}

/// The session after a run of operations, in order.
pub open spec fn apply_ops(s: SessionView, ops: Seq<SessionOp>) -> SessionView
    decreases ops.len(),
{
    if ops.len() == 0 {
        s
    } else {
        apply_op(apply_ops(s, ops.drop_last()), ops.last())
    }
}

/// Whether the last `SetCandidates` of the run had a non-empty list with no `Select`
/// or `Clear` after it (with no `SetCandidates`, `Select` or `Clear` at all: whether
/// the starting session was active).
pub open spec fn opened_by_last_set(s: SessionView, ops: Seq<SessionOp>) -> bool
    decreases ops.len(),
{
    if ops.len() == 0 {
        active(s)
    } else {
        match ops.last() {
            SessionOp::SetCandidates(list) => list.len() > 0,
            SessionOp::Select => false,
            SessionOp::Clear => false,
            _ => opened_by_last_set(s, ops.drop_last()),
        }
    }
}

/// A session is active exactly when the most recent `set_candidates` gave a
/// non-empty list and no `select` or `clear` came after it; paging does not
/// change it.
pub proof fn lemma_in_session_tracks_last_set(s: SessionView, ops: Seq<SessionOp>)
    ensures
        active(apply_ops(s, ops)) == opened_by_last_set(s, ops),
    decreases ops.len(),
{
    if ops.len() > 0 {
        lemma_in_session_tracks_last_set(s, ops.drop_last());
    }
}

/// When the next page has candidates, paging forward and then back returns
/// to the same session, and the window rendered on the way back is the one
/// that was shown before.
pub proof fn lemma_page_into_then_back(s: SessionView)
    requires
        !next_page_missing(s),
    ensures
        page_into_spec(s).1 == (true, None::<usize>),
        page_back_spec(page_into_spec(s).0) == s,
        render(page_into_spec(s).0.candidates, (page_into_spec(s).0.page - 1) as nat) == render(
            s.candidates,
            s.page,
        ),
{
}

/// On page 0, a list shorter than a page renders whole (the empty marker for
/// an empty list), and paging forward then reports that `PAGE_SIZE + 1`
/// candidates are needed.
pub proof fn lemma_short_list_one_page(s: SessionView, list: Seq<Candidate>)
    requires
        s.page == 0,
        list.len() < PAGE_SIZE,
    ensures
        list.len() == 0 ==> render(set_spec(s, list).candidates, 0) == TableView::Empty,
        list.len() > 0 ==> render(set_spec(s, list).candidates, 0) == TableView::Entries(
            list.map_values(|c: Candidate| candidate_entry(c)),
        ),
        page_into_spec(set_spec(s, list)) == (set_spec(s, list), (false, Some((PAGE_SIZE + 1) as usize))),
{
    assert(list.subrange(0, list.len() as int) =~= list);
}

} // verus!
