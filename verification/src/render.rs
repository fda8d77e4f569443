//! The bookkeeping of the renderer: which batches of a result set were
//! written to the output, how many rows that makes, and where the rendering
//! stops.

use crate::engine::QueryEngine;
use crate::error::{outcome, ErrorView, SqlStreamError};
use vstd::prelude::*;

verus! {

/// What became of one batch of a result set at the output.
#[derive(Debug, PartialEq, Eq)]
pub struct BatchReport {
    /// The number of data rows that the batch holds.
    pub rows: usize,
    /// Whether the output stream took the batch, and if not, why.
    pub written: Result<(), String>,
}

/// What the rendering of a result set yields, from the reports of its
/// batches in the order of their arrival. The first batch that the output
/// stream refuses ends the rendering with `RenderFailure` and its cause;
/// batches behind it are not looked at. Where every batch was written, the
/// rendering yields the number of rows of all of them. A result set without
/// batches renders to zero rows.
pub open spec fn rendering(reports: Seq<BatchReport>) -> Result<nat, ErrorView>
    decreases reports.len(),
{
    if reports.len() == 0 {
        Ok(0)
    } else {
        match rendering(reports.drop_last()) {
            Err(earlier) => Err(earlier),
            Ok(rows) => match reports.last().written {
                Ok(()) => Ok((rows + reports.last().rows) as nat),
                Err(cause) => Err(ErrorView::RenderFailure(cause@)),
            },
        }
    }
}

/// The number of rows of the batches that were written before the first one
/// that was refused.
pub open spec fn rows_written(reports: Seq<BatchReport>) -> nat
    decreases reports.len(),
{
    if reports.len() == 0 {
        0
    } else if rendering(reports) is Ok {
        (rows_written(reports.drop_last()) + reports.last().rows) as nat
    } else {
        rows_written(reports.drop_last())
    }
}

/// The number of rows of all the batches.
pub open spec fn rows_arrived(reports: Seq<BatchReport>) -> nat
    decreases reports.len(),
{
    if reports.len() == 0 {
        0
    } else {
        (rows_arrived(reports.drop_last()) + reports.last().rows) as nat
    }
}

/// The progress of the rendering of one result set.
pub struct Renderer {
    rows: usize,
    header_written: bool,
}

impl Renderer {
    /// The number of data rows written so far.
    pub closed spec fn rows_printed(&self) -> nat {
        self.rows as nat
    }

    /// True once a batch, and with it the header row, was written.
    pub closed spec fn header_printed(&self) -> bool {
        self.header_written
    }

    /// The state before the first batch.
    pub fn new() -> (renderer: Renderer)
        ensures
            renderer.rows_printed() == 0,
            !renderer.header_printed(),
    {
        Renderer { rows: 0, header_written: false }
    }

    /// The number of data rows written so far.
    pub fn rows(&self) -> (rows: usize)
        ensures
            rows == self.rows_printed(),
    {
        self.rows
    }

    /// Whether the header row is still to be written. It is after the last
    /// batch of a result set that held no batch at all: such a result is
    /// rendered as its header alone, by way of a batch without rows.
    pub fn header_due(&self) -> (due: bool)
        ensures
            due == !self.header_printed(),
    {
        !self.header_written
    }

    /// Whether a batch of `rows` rows can still be counted.
    pub fn has_room_for(&self, rows: usize) -> (fits: bool)
        ensures
            fits == (self.rows_printed() + rows <= usize::MAX),
    {
        rows <= usize::MAX - self.rows
    }

    /// Takes in what became of the next batch. A batch that was written
    /// counts with its rows and brings the header with it. A batch that the
    /// output stream refused yields `RenderFailure` with the cause and leaves
    /// the count as it was: what was written stays written, and nothing is to
    /// be written after it.
    pub fn batch_written(&mut self, rows: usize, written: Result<(), String>) -> (result: Result<
        (),
        SqlStreamError,
    >)
        requires
            written is Ok ==> old(self).rows_printed() + rows <= usize::MAX,
        ensures
            match written {
                Ok(()) => {
                    &&& result is Ok
                    &&& final(self).rows_printed() == old(self).rows_printed() + rows
                    &&& final(self).header_printed()
                },
                Err(cause) => {
                    &&& outcome(result) == Err::<(), ErrorView>(ErrorView::RenderFailure(cause@))
                    &&& final(self).rows_printed() == old(self).rows_printed()
                    &&& final(self).header_printed() == old(self).header_printed()
                },
            },
    {
        match written {
            Ok(()) => {
                self.rows = self.rows + rows;
                self.header_written = true;
                Ok(())
            },
            Err(cause) => Err(SqlStreamError::RenderFailure(cause)),
        }
    }
}

impl QueryEngine {
    /// The outcome of rendering a result set, from the reports of its batches
    /// in the order of their arrival: the number of data rows written, or
    /// `RenderFailure` with the cause for which the first batch was refused.
    pub fn print_results(&self, reports: &Vec<BatchReport>) -> (result: Result<
        usize,
        SqlStreamError,
    >)
        requires
            rows_written(reports@) <= usize::MAX,
        ensures
            match rendering(reports@) {
                Ok(rows) => result == Ok::<usize, SqlStreamError>(rows as usize) && rows
                    == rows_written(reports@),
                Err(error) => outcome(result) == Err::<usize, ErrorView>(error),
            },
    {
        let mut renderer = Renderer::new();
        let mut i: usize = 0;
        assert(reports@.take(0) =~= Seq::<BatchReport>::empty());
        while i < reports.len()
            invariant
                i <= reports@.len(),
                rendering(reports@.take(i as int)) == Ok::<nat, ErrorView>(renderer.rows_printed()),
                rows_written(reports@.take(i as int)) == renderer.rows_printed(),
                rows_written(reports@) <= usize::MAX,
            decreases reports@.len() - i,
        {
            proof {
                assert(reports@.take(i + 1).drop_last() =~= reports@.take(i as int));
                lemma_rows_written_grows(reports@, i + 1);
            }
            let written: Result<(), String> = match &reports[i].written {
                Ok(()) => Ok(()),
                Err(cause) => Err(cause.clone()),
            };
            match renderer.batch_written(reports[i].rows, written) {
                Ok(()) => {},
                Err(error) => {
                    proof {
                        lemma_failure_stays(reports@, i + 1);
                    }
                    return Err(error);
                },
            }
            i += 1;
        }
        assert(reports@.take(i as int) =~= reports@);
        Ok(renderer.rows())
    }
}

/// The renderer writes no row that did not arrive, and it writes every row
/// that arrived exactly when the rendering succeeds with that number of rows.
/// So a result that the engine has cut down to some number of rows is never
/// rendered with more.
pub proof fn law_rendering_counts_what_arrived(reports: Seq<BatchReport>)
    ensures
        rows_written(reports) <= rows_arrived(reports),
        rendering(reports) is Ok ==> rendering(reports) == Ok::<nat, ErrorView>(
            rows_arrived(reports),
        ) && rows_written(reports) == rows_arrived(reports),
        rendering(reports) matches Err(error) ==> error is RenderFailure,
    decreases reports.len(),
{
    if reports.len() > 0 {
        law_rendering_counts_what_arrived(reports.drop_last());
    }
}

/// A result set without rows is rendered, not refused: as long as the output
/// stream takes what is written, the rendering succeeds with zero rows.
pub proof fn law_empty_result_is_rendered(reports: Seq<BatchReport>)
    requires
        forall|i: int| 0 <= i < reports.len() ==> (#[trigger] reports[i]).written is Ok,
        rows_arrived(reports) == 0,
    ensures
        rendering(reports) == Ok::<nat, ErrorView>(0),
{
    law_rendering_succeeds_where_all_is_written(reports);
}

/// Where the output stream takes every batch, the rendering succeeds.
pub proof fn law_rendering_succeeds_where_all_is_written(reports: Seq<BatchReport>)
    requires
        forall|i: int| 0 <= i < reports.len() ==> (#[trigger] reports[i]).written is Ok,
    ensures
        rendering(reports) == Ok::<nat, ErrorView>(rows_arrived(reports)),
    decreases reports.len(),
{
    if reports.len() > 0 {
        let front = reports.drop_last();
        assert forall|i: int| 0 <= i < front.len() implies (#[trigger] front[i]).written is Ok by {
            assert(front[i] == reports[i]);
        }
        law_rendering_succeeds_where_all_is_written(front);
    }
}

/// The rows written by a part of the reports are among those written by all
/// of them.
proof fn lemma_rows_written_grows(reports: Seq<BatchReport>, k: int)
    requires
        0 <= k <= reports.len(),
    ensures
        rows_written(reports.take(k)) <= rows_written(reports),
    decreases reports.len() - k,
{
    if k < reports.len() {
        assert(reports.take(k + 1).drop_last() =~= reports.take(k));
        lemma_rows_written_grows(reports, k + 1);
    } else {
        assert(reports.take(k) =~= reports);
    }
}

/// A rendering that has failed after some of the reports fails in the same
/// way after all of them.
proof fn lemma_failure_stays(reports: Seq<BatchReport>, k: int)
    requires
        0 <= k <= reports.len(),
        rendering(reports.take(k)) is Err,
    ensures
        rendering(reports) == rendering(reports.take(k)),
    decreases reports.len() - k,
{
    if k < reports.len() {
        assert(reports.take(k + 1).drop_last() =~= reports.take(k));
        lemma_failure_stays(reports, k + 1);
    } else {
        assert(reports.take(k) =~= reports);
    }
}

} // verus!
