use vstd::prelude::*;

verus! {

/// One row of a lookup table: a word and its annotation.
#[derive(Clone, Debug, PartialEq, Eq)]
pub struct TableEntry {
    pub word: String,
    pub annotation: String,
}

/// What the host's candidate window shows: an explicit empty marker, or a
/// non-empty list of rows whose display index is their position plus one.
#[derive(Clone, Debug, PartialEq, Eq)]
pub enum LookupTable {
    Empty,
    Entries(Vec<TableEntry>),
}

/// A call to the host: commit text, or replace the lookup table (asking for
/// focus or not).
#[derive(Clone, Debug, PartialEq, Eq)]
pub enum SinkCall {
    CommitText(String),
    UpdateLookupTable(LookupTable, bool),
}

/// The model of a lookup table: rows as (word, annotation) character sequences.
pub enum TableView {
    Empty,
    Entries(Seq<(Seq<char>, Seq<char>)>),
}

/// The model of a call to the host.
pub enum SinkEvent {
    Commit(Seq<char>),
    Table(TableView, bool),
}

pub open spec fn entry_view(e: TableEntry) -> (Seq<char>, Seq<char>) {
    (e.word@, e.annotation@)
}

impl View for LookupTable {
    type V = TableView;

    open spec fn view(&self) -> TableView {
        match self {
            LookupTable::Empty => TableView::Empty,
            LookupTable::Entries(v) => TableView::Entries(v@.map_values(|e: TableEntry| entry_view(e))),
        }
    }
}

impl View for SinkCall {
    type V = SinkEvent;

    open spec fn view(&self) -> SinkEvent {
        match self {
            SinkCall::CommitText(s) => SinkEvent::Commit(s@),
            SinkCall::UpdateLookupTable(t, focus) => SinkEvent::Table(t@, *focus),
        }
    }
}

/// The calls to the host, in the order in which they are to be made.
pub struct Outbox {
    calls: Vec<SinkCall>,
}

impl View for Outbox {
    type V = Seq<SinkEvent>;

    closed spec fn view(&self) -> Seq<SinkEvent> {
        self.calls@.map_values(|c: SinkCall| c@)
    }
}

impl Outbox {
    /// An empty outbox.
    pub fn new() -> (r: Outbox)
        ensures
            r@ == Seq::<SinkEvent>::empty(),
    {
        let r = Outbox { calls: Vec::new() };
        assert(r@ =~= Seq::<SinkEvent>::empty());
        r
    }

    /// Queues one call.
    pub fn push(&mut self, call: SinkCall)
        ensures
            final(self)@ == old(self)@.push(call@),
    {
        self.calls.push(call);
        assert(final(self)@ =~= old(self)@.push(call@));
    }

    /// Queues a commit of `text`.
    pub fn commit_text(&mut self, text: String)
        ensures
            final(self)@ == old(self)@.push(SinkEvent::Commit(text@)),
    {
        self.push(SinkCall::CommitText(text));
    }

    /// Queues a replacement of the lookup table.
    pub fn update_lookup_table(&mut self, table: LookupTable, focus: bool)
        ensures
            final(self)@ == old(self)@.push(SinkEvent::Table(table@, focus)),
    {
        self.push(SinkCall::UpdateLookupTable(table, focus));
    }

    /// The number of queued calls.
    pub fn len(&self) -> (r: usize)
        ensures
            r == self@.len(),
    {
        self.calls.len()
    }

    /// Hands out the queued calls, in order, and leaves the outbox empty.
    pub fn take_calls(&mut self) -> (r: Vec<SinkCall>)
        ensures
            r@.map_values(|c: SinkCall| c@) == old(self)@,
            final(self)@ == Seq::<SinkEvent>::empty(),
    {
        let mut r: Vec<SinkCall> = Vec::new();
        std::mem::swap(&mut r, &mut self.calls);
        assert(final(self)@ =~= Seq::<SinkEvent>::empty());
        r
    }
}

} // verus!
