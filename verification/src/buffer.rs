//! The records of one scan, in the order they were resolved, and a cursor
//! into them.

use crate::json::Json;
use crate::record::ProfileRecord;
use vstd::prelude::*;

verus! {

/// What a buffer holds: the records, and how many of them were handed out.
pub struct BufferState {
    pub records: Seq<Json>,
    pub cursor: nat,
}

impl BufferState {
    /// The cursor is within the records, or just behind the last.
    pub open spec fn valid(self) -> bool {
        self.cursor <= self.records.len()
    }

    pub open spec fn empty() -> BufferState {
        BufferState { records: Seq::empty(), cursor: 0 }
    }

    pub open spec fn push(self, record: Json) -> BufferState {
        BufferState { records: self.records.push(record), cursor: self.cursor }
    }

    pub open spec fn reset(self) -> BufferState {
        BufferState { records: self.records, cursor: 0 }
    }

    /// Whether every record was handed out.
    pub open spec fn at_end(self) -> bool {
        self.cursor >= self.records.len()
    }

    /// The record under the cursor.
    pub open spec fn current(self) -> Json {
        self.records[self.cursor as int]
    }

    /// The state after the record under the cursor was handed out; at the
    /// end, the state itself.
    pub open spec fn advance(self) -> BufferState {
        if self.at_end() {
            self
        } else {
            BufferState { records: self.records, cursor: self.cursor + 1 }
        }
    }
}

/// The records of a list, each by its document.
pub open spec fn documents(records: Seq<ProfileRecord>) -> Seq<Json> {
    records.map_values(|r: ProfileRecord| r@)
}

/// An ordered collection of records with a cursor.
#[derive(Debug)]
pub struct ResultBuffer {
    records: Vec<ProfileRecord>,
    cursor: usize,
}

impl View for ResultBuffer {
    type V = BufferState;

    closed spec fn view(&self) -> BufferState {
        BufferState { records: documents(self.records@), cursor: self.cursor as nat }
    }
}

impl ResultBuffer {
    /// An empty buffer.
    pub fn new() -> (buffer: ResultBuffer)
        ensures
            buffer@ == BufferState::empty(),
    {
        let buffer = ResultBuffer { records: Vec::new(), cursor: 0 };
        assert(documents(buffer.records@) =~= Seq::empty());
        buffer
    }

    /// The number of records.
    pub fn len(&self) -> (n: usize)
        ensures
            n == self@.records.len(),
    {
        self.records.len()
    }

    /// How many records were handed out since the last reset.
    pub fn cursor(&self) -> (n: usize)
        ensures
            n == self@.cursor,
    {
        self.cursor
    }

    /// Adds a record behind the others.
    pub fn push(&mut self, record: ProfileRecord)
        ensures
            final(self)@ == old(self)@.push(record@),
    {
        let ghost before = self.records@;
        self.records.push(record);
        assert(documents(self.records@) =~= documents(before).push(record@));
    }

    /// Puts the cursor back on the first record and keeps the records.
    pub fn reset(&mut self)
        ensures
            final(self)@ == old(self)@.reset(),
    {
        self.cursor = 0;
    }

    /// Drops the records and puts the cursor back.
    pub fn clear(&mut self)
        ensures
            final(self)@ == BufferState::empty(),
    {
        self.cursor = 0;
        self.records.clear();
        assert(documents(self.records@) =~= Seq::empty());
    }

    /// Hands out the record under the cursor and moves the cursor on, or
    /// tells that the scan is at its end.
    pub fn advance(&mut self) -> (record: Option<&ProfileRecord>)
        ensures
            final(self)@ == old(self)@.advance(),
            match record {
                Some(r) => !old(self)@.at_end() && r@ == old(self)@.current(),
                None => old(self)@.at_end(),
            },
    {
        if self.cursor >= self.records.len() {
            None
        } else {
            let at = self.cursor;
            self.cursor = at + 1;
            Some(&self.records[at])
        }
    }
}

/// The cursor stays within the records: an empty buffer is valid, and
/// every operation on a valid buffer leaves a valid one.
pub proof fn lemma_cursor_stays_in_range(state: BufferState, record: Json)
    requires
        state.valid(),
    ensures
        BufferState::empty().valid(),
        state.push(record).valid(),
        state.reset().valid(),
        state.advance().valid(),
{
}

/// From a fresh cursor, a buffer of `n` records hands out a record on each
/// of the first `n` calls of `advance`, the records in their order, and is
/// at its end after them.
pub proof fn lemma_advance_hands_out_each_record(state: BufferState, k: nat)
    requires
        state.cursor == 0,
        k <= state.records.len(),
    ensures
        advance_times(state, k).records == state.records,
        advance_times(state, k).cursor == k,
        advance_times(state, k).at_end() <==> k == state.records.len(),
    decreases k,
{
    if k > 0 {
        lemma_advance_hands_out_each_record(state, (k - 1) as nat);
    }
}

/// The state after `k` calls of `advance`.
pub open spec fn advance_times(state: BufferState, k: nat) -> BufferState
    decreases k,
{
    if k == 0 {
        state
    } else {
        advance_times(state, (k - 1) as nat).advance()
    }
}

} // verus!
