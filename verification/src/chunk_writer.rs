//! Row tracking for the output chunk of a table function scan.
//!
//! A [`ChunkWriter`] hands out row indices until the chunk is full and counts
//! the rows handed out; that count is the size the chunk is given when
//! writing ends.

use vstd::prelude::*;

verus! {

/// The default maximum number of rows per chunk in DuckDB.
pub const STANDARD_VECTOR_SIZE: usize = 2048;

/// The abstract state of a [`ChunkWriter`].
pub struct ChunkWriterView {
    /// Rows handed out so far.
    pub row_count: nat,
    /// The most rows the chunk can hold.
    pub capacity: nat,
}

/// The outcome of one request for a row: the state after it and the row
/// handed out, if any.
pub open spec fn next_row_step(v: ChunkWriterView) -> (ChunkWriterView, Option<nat>) {
    if v.row_count >= v.capacity {
        (v, None)
    } else {
        (ChunkWriterView { row_count: v.row_count + 1, capacity: v.capacity }, Some(v.row_count))
    }
}

/// The state after `k` requests for a row, starting from `v`.
pub open spec fn after_requests(v: ChunkWriterView, k: nat) -> ChunkWriterView
    decreases k,
{
    if k == 0 {
        v
    } else {
        next_row_step(after_requests(v, (k - 1) as nat)).0
    }
}

/// The row handed out by the `k`-th request (counting from 0), starting from `v`.
pub open spec fn row_of_request(v: ChunkWriterView, k: nat) -> Option<nat> {
    next_row_step(after_requests(v, k)).1
}

/// A row index seen as a natural number.
pub open spec fn row_as_nat(r: Option<usize>) -> Option<nat> {
    match r {
        Some(x) => Some(x as nat),
        None => None,
    }
}

/// A row-tracking writer for an output data chunk.
pub struct ChunkWriter {
    row_count: usize,
    capacity: usize,
}

impl View for ChunkWriter {
    type V = ChunkWriterView;

    closed spec fn view(&self) -> ChunkWriterView {
        ChunkWriterView { row_count: self.row_count as nat, capacity: self.capacity as nat }
    }
}

impl ChunkWriter {
    #[verifier::type_invariant]
    closed spec fn within_capacity(self) -> bool {
        self.row_count <= self.capacity
    }

    /// Creates a writer with no rows written and the standard capacity of
    /// 2048 rows.
    pub fn new() -> (w: Self)
        ensures
            w@ == (ChunkWriterView { row_count: 0, capacity: STANDARD_VECTOR_SIZE as nat }),
    {
        ChunkWriter { row_count: 0, capacity: STANDARD_VECTOR_SIZE }
    }

    /// Creates a writer with no rows written and the given capacity, which
    /// must not exceed the chunk's actual capacity.
    pub fn with_capacity(capacity: usize) -> (w: Self)
        ensures
            w@ == (ChunkWriterView { row_count: 0, capacity: capacity as nat }),
    {
        ChunkWriter { row_count: 0, capacity }
    }

    /// Returns `true` if the chunk has reached its capacity.
    pub fn is_full(&self) -> (r: bool)
        ensures
            r == (self@.row_count >= self@.capacity),
    {
        self.row_count >= self.capacity
    }

    /// Returns the next free row index and counts it as written, or `None`
    /// (and no change) if the chunk is full.
    pub fn next_row(&mut self) -> (r: Option<usize>)
        ensures
            (final(self)@, row_as_nat(r)) == next_row_step(old(self)@),
            final(self)@.row_count <= final(self)@.capacity,
    {
        proof {
            use_type_invariant(&*self);
        }
        if self.is_full() {
            return None;
        }
        let row = self.row_count;
        self.row_count = self.row_count + 1;
        Some(row)
    }

    /// Returns the number of rows written so far.
    pub fn row_count(&self) -> (r: usize)
        ensures
            r == self@.row_count,
            self@.row_count <= self@.capacity,
    {
        proof {
            use_type_invariant(self);
        }
        self.row_count
    }

    /// Returns the chunk's capacity (maximum rows).
    pub fn capacity(&self) -> (r: usize)
        ensures
            r == self@.capacity,
    {
        self.capacity
    }
}

/// From a fresh writer with capacity `c`, the first `k` requests leave
/// `min(k, c)` rows written, and request `k` hands out row `k` while `k < c`
/// and nothing afterwards: rows are handed out once each, in order, and never
/// beyond the capacity.
pub proof fn law_requests_hand_out_consecutive_rows(c: nat, k: nat)
    ensures
        after_requests(ChunkWriterView { row_count: 0, capacity: c }, k) == (ChunkWriterView {
            row_count: if k < c {
                k
            } else {
                c
            },
            capacity: c,
        }),
        row_of_request(ChunkWriterView { row_count: 0, capacity: c }, k) == if k < c {
            Some(k)
        } else {
            None::<nat>
        },
    decreases k,
{
    if k > 0 {
        law_requests_hand_out_consecutive_rows(c, (k - 1) as nat);
    }
}

} // verus!
