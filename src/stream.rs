//! The one-shot stream that produces the grid's single batch.

use vstd::prelude::*;

use crate::error::GridError;
use crate::grid::{grid_seq, int_view, time_grid, Millisecond};
use crate::schema::Schema;
use vstd::string::StringExecFns;

verus! {

/// Where a stream stands: it has not produced its batch yet, or it has.
#[derive(Debug, PartialEq)]
pub enum StreamState {
    Pending,
    Done,
}

/// A column computed by the expression engine, with its number of rows.
#[derive(Debug, PartialEq)]
pub struct Column<V> {
    pub data: V,
    pub len: usize,
}

/// The batch a stream produces: the timestamps, and the value column when the
/// node has an expression.
#[derive(Debug, PartialEq)]
pub struct Batch<V> {
    pub time_index: Vec<Millisecond>,
    pub value: Option<V>,
}

/// What a pull in state `s` yields for the grid `grid`: the grid on the first
/// pull, end-of-data after that.
pub open spec fn pull_yield(s: StreamState, grid: Seq<int>) -> Option<Seq<int>> {
    match s {
        StreamState::Pending => Some(grid),
        StreamState::Done => None,
    }
}

/// Every pull leaves a stream done, and a pull on a done stream yields
/// end-of-data, whatever grid it enumerates (an empty one included): the
/// second pull always ends the stream.
pub proof fn lemma_second_pull_ends(first: StreamState, grid: Seq<int>)
    ensures
        pull_yield(first, grid) is Some ==> first is Pending,
        pull_yield(StreamState::Done, grid) is None,
{
}

/// Stream of the rows of one execution of the grid source.
pub struct EmptyMetricStream {
    start: Millisecond,
    end: Millisecond,
    interval: Millisecond,
    has_expr: bool,
    state: StreamState,
    result_schema: Schema,
}

impl EmptyMetricStream {
    pub closed spec fn spec_state(&self) -> StreamState {
        self.state
    }

    pub closed spec fn bounds(&self) -> (int, int, int) {
        (self.start as int, self.end as int, self.interval as int)
    }

    pub closed spec fn spec_has_expr(&self) -> bool {
        self.has_expr
    }

    pub closed spec fn spec_result_schema(&self) -> Schema {
        self.result_schema
    }

    /// The grid that this stream enumerates.
    pub open spec fn grid(&self) -> Seq<int> {
        grid_seq(self.bounds().0, self.bounds().1, self.bounds().2)
    }

    /// The step is positive and the result schema has a value column exactly
    /// when there is an expression.
    pub closed spec fn wf(&self) -> bool {
        &&& self.interval > 0
        &&& self.result_schema.fields@.len() == if self.has_expr { 2int } else { 1int }
    }

    /// A well-formed stream steps by a positive interval.
    pub proof fn lemma_interval_positive(&self)
        requires
            self.wf(),
        ensures
            self.bounds().2 > 0,
    {
    }

    /// A stream that has not produced anything yet.
    pub fn new(
        start: Millisecond,
        end: Millisecond,
        interval: Millisecond,
        has_expr: bool,
        result_schema: Schema,
    ) -> (r: Self)
        requires
            interval > 0,
            result_schema.fields@.len() == if has_expr { 2int } else { 1int },
        ensures
            r.wf(),
            r.spec_state() is Pending,
            r.bounds() == (start as int, end as int, interval as int),
            r.spec_has_expr() == has_expr,
            r.spec_result_schema() == result_schema,
    {
        EmptyMetricStream { start, end, interval, has_expr, state: StreamState::Pending, result_schema }
    }

    /// The schema of the batch this stream produces.
    pub fn schema(&self) -> (r: &Schema)
        ensures
            *r == self.spec_result_schema(),
    {
        &self.result_schema
    }

    pub fn is_done(&self) -> (r: bool)
        ensures
            r == (self.spec_state() is Done),
    {
        match self.state {
            StreamState::Pending => false,
            StreamState::Done => true,
        }
    }

    /// Pulls the stream: the first pull yields the timestamps of the grid and
    /// ends the stream; every later pull yields end-of-data and changes
    /// nothing.
    pub fn poll_next(&mut self) -> (r: Option<Vec<Millisecond>>)
        requires
            old(self).wf(),
        ensures
            final(self).wf(),
            final(self).spec_state() is Done,
            final(self).bounds() == old(self).bounds(),
            final(self).spec_has_expr() == old(self).spec_has_expr(),
            final(self).spec_result_schema() == old(self).spec_result_schema(),
            match r {
                None => pull_yield(old(self).spec_state(), old(self).grid()) is None,
                Some(v) => pull_yield(old(self).spec_state(), old(self).grid()) == Some(int_view(v@)),
            },
    {
        match self.state {
            StreamState::Done => None,
            StreamState::Pending => {
                self.state = StreamState::Done;
                Some(time_grid(self.start, self.end, self.interval))
            },
        }
    }

    /// Assembles the output batch from the timestamps of the first pull and
    /// the outcome of evaluating the expression over them (`None` when the
    /// node has no expression). An evaluation failure is passed on as
    /// [`GridError::ExpressionEvaluation`]; a value column where none is due,
    /// none where one is due, or one of another length than the timestamps is
    /// an [`GridError::ArrayConstruction`]. No partial batch is produced.
    pub fn assemble<V>(&self, time_index: Vec<Millisecond>, evaluated: Option<Result<Column<V>, String>>) -> (r:
        Result<Batch<V>, GridError>)
        requires
            self.wf(),
        ensures
            match evaluated {
                Some(Err(msg)) => r == Err::<Batch<V>, GridError>(GridError::ExpressionEvaluation(msg)),
                Some(Ok(c)) => if self.spec_has_expr() && c.len == time_index@.len() {
                    r == Ok::<Batch<V>, GridError>(Batch { time_index, value: Some(c.data) })
                } else {
                    r matches Err(GridError::ArrayConstruction(_))
                },
                None => if self.spec_has_expr() {
                    r matches Err(GridError::ArrayConstruction(_))
                } else {
                    r == Ok::<Batch<V>, GridError>(Batch { time_index, value: None })
                },
            },
            r matches Ok(b) ==> (b.value is Some) == (self.spec_result_schema().fields@.len() == 2),
    {
        match evaluated {
            Some(Err(msg)) => Err(GridError::ExpressionEvaluation(msg)),
            Some(Ok(c)) => {
                if !self.has_expr {
                    Err(GridError::ArrayConstruction(String::from_str("value column without an expression")))
                } else if c.len != time_index.len() {
                    Err(GridError::ArrayConstruction(String::from_str("value column length differs from the row count")))
                } else {
                    Ok(Batch { time_index, value: Some(c.data) })
                }
            },
            None => {
                if self.has_expr {
                    Err(GridError::ArrayConstruction(String::from_str("missing value column")))
                } else {
                    Ok(Batch { time_index, value: None })
                }
            },
        }
    }
}

} // verus!
