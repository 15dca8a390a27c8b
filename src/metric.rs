//! The plan node of the grid source and its lowered, executable form.

use vstd::prelude::*;

use crate::display::{explain, explain_line};
use crate::error::GridError;
use crate::grid::{byte_estimate, estimated_byte_size, estimated_row_count, row_estimate, Millisecond};
use crate::schema::{
    build_result_schema, build_ts_only_schema, is_result_schema, is_time_index_field, is_ts_only_schema,
    Schema,
};
use crate::stream::EmptyMetricStream;
use std::cmp::Ordering;
use vstd::string::StringExecFns;

verus! {

/// Plan node of a source that generates rows without reading any data: a
/// timestamp column at every `interval` from `start` to `end`, and, when an
/// expression of type `E` is given, a value column computed from it.
pub struct EmptyMetric<E> {
    start: Millisecond,
    end: Millisecond,
    interval: Millisecond,
    expr: Option<E>,
    /// Holds only the timestamp column; expressions are evaluated against it.
    time_index_schema: Schema,
    /// Schema of the rows the node produces.
    result_schema: Schema,
}

/// Lexicographic comparison of two triples of integers.
pub open spec fn lex_cmp(a: (int, int, int), b: (int, int, int)) -> Ordering {
    if a.0 != b.0 {
        if a.0 < b.0 { Ordering::Less } else { Ordering::Greater }
    } else if a.1 != b.1 {
        if a.1 < b.1 { Ordering::Less } else { Ordering::Greater }
    } else if a.2 != b.2 {
        if a.2 < b.2 { Ordering::Less } else { Ordering::Greater }
    } else {
        Ordering::Equal
    }
}

/// Orders two integers.
fn cmp_i64(a: i64, b: i64) -> (r: Ordering)
    ensures
        r == (if a < b { Ordering::Less } else if a > b { Ordering::Greater } else { Ordering::Equal }),
{
    if a < b {
        Ordering::Less
    } else if a > b {
        Ordering::Greater
    } else {
        Ordering::Equal
    }
}

impl<E> EmptyMetric<E> {
    pub closed spec fn spec_expr(&self) -> Option<E> {
        self.expr
    }

    pub closed spec fn spec_time_index_schema(&self) -> Schema {
        self.time_index_schema
    }

    pub closed spec fn spec_result_schema(&self) -> Schema {
        self.result_schema
    }

    /// The bounds, ordered as the node's ordering reads them.
    pub closed spec fn bounds(&self) -> (int, int, int) {
        (self.start as int, self.end as int, self.interval as int)
    }

    /// The step is positive, the timestamp-only schema holds one timestamp
    /// column, and the result schema starts with that same column and has at
    /// most one more.
    pub closed spec fn wf(&self) -> bool {
        &&& self.interval > 0
        &&& is_ts_only_schema(self.time_index_schema, self.time_index_schema.fields@[0].name@)
        &&& 1 <= self.result_schema.fields@.len() <= 2
        &&& is_time_index_field(self.result_schema.fields@[0], self.time_index_schema.fields@[0].name@)
        &&& self.result_schema.fields@.len() == 2 ==> {
            &&& self.result_schema.fields@[1].data_type is Derived
            &&& self.result_schema.fields@[1].nullable
        }
    }

    /// A well-formed node steps by a positive interval.
    pub proof fn lemma_interval_positive(&self)
        requires
            self.wf(),
        ensures
            self.bounds().2 > 0,
    {
    }

    /// Builds the node. `field` is the expression of the value column, with the
    /// expression engine's verdict on its type over the timestamp-only schema:
    /// the type's name, or the engine's message, which yields
    /// [`GridError::Schema`]. A value column named like the timestamp column
    /// is a [`GridError::Schema`] too.
    pub fn new(
        start: Millisecond,
        end: Millisecond,
        interval: Millisecond,
        time_index_column_name: String,
        field_column_name: String,
        field: Option<(E, Result<String, String>)>,
    ) -> (r: Result<Self, GridError>)
        requires
            interval > 0,
        ensures
            match field {
                None => r is Ok,
                Some((_, Err(msg))) => r == Err::<Self, GridError>(GridError::Schema(msg)),
                Some((_, Ok(_))) => if field_column_name@ == time_index_column_name@ {
                    r matches Err(GridError::Schema(_))
                } else {
                    r is Ok
                },
            },
            r matches Ok(m) ==> {
                &&& m.wf()
                &&& m.bounds() == (start as int, end as int, interval as int)
                &&& is_ts_only_schema(m.spec_time_index_schema(), time_index_column_name@)
                &&& match field {
                    None => {
                        &&& m.spec_expr() is None
                        &&& is_result_schema(m.spec_result_schema(), time_index_column_name@, None)
                    },
                    Some((e, ty)) => {
                        &&& m.spec_expr() == Some(e)
                        &&& is_result_schema(
                            m.spec_result_schema(),
                            time_index_column_name@,
                            Some((field_column_name@, ty->Ok_0@)),
                        )
                    },
                }
            },
    {
        let time_index_schema = build_ts_only_schema(time_index_column_name.as_str());
        match field {
            None => {
                let result_schema = build_result_schema(
                    time_index_column_name.as_str(),
                    field_column_name.as_str(),
                    None,
                );
                Ok(EmptyMetric { start, end, interval, expr: None, time_index_schema, result_schema })
            },
            Some((_, Err(msg))) => Err(GridError::Schema(msg)),
            Some((expr, Ok(ty))) => {
                if field_column_name == time_index_column_name {
                    return Err(
                        GridError::Schema(
                            String::from_str("the value column has the name of the timestamp column"),
                        ),
                    );
                }
                let result_schema = build_result_schema(
                    time_index_column_name.as_str(),
                    field_column_name.as_str(),
                    Some(ty.as_str()),
                );
                Ok(
                    EmptyMetric {
                        start,
                        end,
                        interval,
                        expr: Some(expr),
                        time_index_schema,
                        result_schema,
                    },
                )
            },
        }
    }

    /// The name of this kind of node.
    pub fn name() -> (r: &'static str)
        ensures
            r@ == "EmptyMetric"@,
    {
        "EmptyMetric"
    }

    pub fn start(&self) -> (r: Millisecond)
        ensures
            r == self.bounds().0,
    {
        self.start
    }

    pub fn end(&self) -> (r: Millisecond)
        ensures
            r == self.bounds().1,
    {
        self.end
    }

    pub fn interval(&self) -> (r: Millisecond)
        ensures
            r == self.bounds().2,
    {
        self.interval
    }

    /// The schema of the rows the node produces.
    pub fn schema(&self) -> (r: &Schema)
        ensures
            *r == self.spec_result_schema(),
    {
        &self.result_schema
    }

    /// The schema that holds only the timestamp column.
    pub fn time_index_schema(&self) -> (r: &Schema)
        ensures
            *r == self.spec_time_index_schema(),
    {
        &self.time_index_schema
    }

    /// The expression of the value column, if any.
    pub fn expressions(&self) -> (r: &Option<E>)
        ensures
            *r == self.spec_expr(),
    {
        &self.expr
    }

    /// One line for plan explanations: `EmptyMetric: range=[start..end], interval=[interval]`.
    pub fn fmt_for_explain(&self) -> (r: String)
        ensures
            r@ == explain_line(self.bounds().0, self.bounds().1, self.bounds().2),
    {
        explain(self.start, self.end, self.interval)
    }
}


impl<E> EmptyMetric<E> {
    /// Compares the bounds `(start, end, interval)` lexicographically.
    pub fn cmp_bounds(&self, other: &Self) -> (r: Ordering)
        ensures
            r == lex_cmp(self.bounds(), other.bounds()),
    {
        match cmp_i64(self.start, other.start) {
            Ordering::Equal => {},
            a => {
                return a;
            },
        }
        match cmp_i64(self.end, other.end) {
            Ordering::Equal => {},
            b => {
                return b;
            },
        }
        cmp_i64(self.interval, other.interval)
    }

    /// Orders two nodes by `(start, end, interval, expression)`; the schemas
    /// take no part. `expr_ord` is the expression engine's comparison of the
    /// two expressions, consulted only when the bounds are equal.
    pub fn partial_cmp_with(&self, other: &Self, expr_ord: Option<Ordering>) -> (r: Option<Ordering>)
        ensures
            r == if lex_cmp(self.bounds(), other.bounds()) == Ordering::Equal {
                expr_ord
            } else {
                Some(lex_cmp(self.bounds(), other.bounds()))
            },
    {
        match self.cmp_bounds(other) {
            Ordering::Equal => expr_ord,
            b => Some(b),
        }
    }

    /// Two nodes are equal when their bounds are and the expression engine
    /// finds their expressions equal (`exprs_equal`); the schemas take no part.
    pub fn eq_with(&self, other: &Self, exprs_equal: bool) -> (r: bool)
        ensures
            r == (self.bounds() == other.bounds() && exprs_equal),
    {
        self.start == other.start && self.end == other.end && self.interval == other.interval
            && exprs_equal
    }

    /// The same node with its expression replaced by the first of `exprs`
    /// (none when `exprs` is empty); bounds and schemas are kept.
    pub fn with_exprs_and_inputs(&self, exprs: Vec<E>) -> (r: Self)
        requires
            self.wf(),
        ensures
            r.wf(),
            r.bounds() == self.bounds(),
            r.spec_time_index_schema().fields@ == self.spec_time_index_schema().fields@,
            r.spec_result_schema().fields@ == self.spec_result_schema().fields@,
            r.spec_expr() == if exprs@.len() == 0 {
                None
            } else {
                Some(exprs@[0])
            },
    {
        let mut exprs = exprs;
        let expr = if exprs.len() == 0 {
            None
        } else {
            Some(exprs.remove(0))
        };
        EmptyMetric {
            start: self.start,
            end: self.end,
            interval: self.interval,
            expr,
            time_index_schema: self.time_index_schema.duplicate(),
            result_schema: self.result_schema.duplicate(),
        }
    }

    /// Lowers the node to its executable form. `bound` is the expression
    /// engine's outcome of binding the expression against the timestamp-only
    /// schema: the executable expression, or the engine's message, which
    /// yields [`GridError::ExpressionBinding`]. It is `None` exactly when the
    /// node has no expression. A node whose value column and expression do
    /// not go together (one without the other, as rebuilding with other
    /// expressions can leave it) yields [`GridError::ArrayConstruction`].
    pub fn to_execution_plan<P>(&self, bound: Option<Result<P, String>>) -> (r: Result<
        EmptyMetricExec<P>,
        GridError,
    >)
        requires
            self.wf(),
            bound is Some <==> self.spec_expr() is Some,
        ensures
            match bound {
                Some(Err(msg)) => r == Err::<EmptyMetricExec<P>, GridError>(
                    GridError::ExpressionBinding(msg),
                ),
                _ => if (self.spec_result_schema().fields@.len() == 2) != (self.spec_expr() is Some) {
                    r matches Err(GridError::ArrayConstruction(_))
                } else {
                    match bound {
                        Some(Ok(p)) => (r matches Ok(x) && x.spec_expr() == Some(p)),
                        _ => (r matches Ok(x) && x.spec_expr() is None),
                    }
                },
            },
            r matches Ok(x) ==> {
                &&& x.wf()
                &&& x.bounds() == self.bounds()
                &&& x.spec_time_index_schema().fields@ == self.spec_time_index_schema().fields@
                &&& x.spec_result_schema().fields@ == self.spec_result_schema().fields@
            },
    {
        let expr = match bound {
            None => None,
            Some(Err(msg)) => {
                return Err(GridError::ExpressionBinding(msg));
            },
            Some(Ok(p)) => Some(p),
        };
        let has_value_column = self.result_schema.num_fields() == 2;
        let has_expr = match &self.expr {
            Some(_) => true,
            None => false,
        };
        if has_value_column != has_expr {
            return Err(
                GridError::ArrayConstruction(
                    String::from_str("the value column and the expression do not go together"),
                ),
            );
        }
        Ok(
            EmptyMetricExec {
                start: self.start,
                end: self.end,
                interval: self.interval,
                time_index_schema: self.time_index_schema.duplicate(),
                result_schema: self.result_schema.duplicate(),
                expr,
            },
        )
    }
}

/// How a node emits its output.
#[derive(Debug, PartialEq)]
pub enum EmissionType {
    /// Rows come out as they are produced.
    Incremental,
    /// All rows come out at once, when the node is done.
    Final,
}

/// What a node declares to the scheduler about its execution.
#[derive(Debug, PartialEq)]
pub struct PlanProperties {
    pub output_partitions: usize,
    pub emission: EmissionType,
    pub bounded: bool,
}

/// How far an estimate can be trusted.
#[derive(Debug, PartialEq)]
pub enum Precision {
    Exact(usize),
    Inexact(usize),
    Absent,
}

/// What is known of one column: here, nothing.
#[derive(Debug, PartialEq)]
pub struct ColumnStatistics {
    pub null_count: Precision,
    pub distinct_count: Precision,
}

/// Size estimates for the optimizer.
#[derive(Debug, PartialEq)]
pub struct Statistics {
    pub num_rows: Precision,
    pub total_byte_size: Precision,
    pub column_statistics: Vec<ColumnStatistics>,
}

/// The executable form of [`EmptyMetric`], with the expression bound to an
/// executable form of type `P`.
pub struct EmptyMetricExec<P> {
    start: Millisecond,
    end: Millisecond,
    interval: Millisecond,
    /// Holds only the timestamp column; the expression is evaluated against it.
    time_index_schema: Schema,
    /// Schema of the rows the node produces.
    result_schema: Schema,
    expr: Option<P>,
}

impl<P> EmptyMetricExec<P> {
    pub closed spec fn bounds(&self) -> (int, int, int) {
        (self.start as int, self.end as int, self.interval as int)
    }

    pub closed spec fn spec_expr(&self) -> Option<P> {
        self.expr
    }

    pub closed spec fn spec_time_index_schema(&self) -> Schema {
        self.time_index_schema
    }

    pub closed spec fn spec_result_schema(&self) -> Schema {
        self.result_schema
    }

    /// The step is positive and the result schema has a value column exactly
    /// when there is an expression.
    pub closed spec fn wf(&self) -> bool {
        &&& self.interval > 0
        &&& self.result_schema.fields@.len() == if self.expr is Some { 2int } else { 1int }
    }

    /// A well-formed node steps by a positive interval.
    pub proof fn lemma_interval_positive(&self)
        requires
            self.wf(),
        ensures
            self.bounds().2 > 0,
    {
    }

    /// The schema of the rows the node produces.
    pub fn schema(&self) -> (r: &Schema)
        ensures
            *r == self.spec_result_schema(),
    {
        &self.result_schema
    }

    /// The schema that holds only the timestamp column.
    pub fn time_index_schema(&self) -> (r: &Schema)
        ensures
            *r == self.spec_time_index_schema(),
    {
        &self.time_index_schema
    }

    /// The bound expression, if any.
    pub fn expr(&self) -> (r: &Option<P>)
        ensures
            *r == self.spec_expr(),
    {
        &self.expr
    }

    /// One output partition, all rows at once, and a finite output.
    pub fn properties(&self) -> (r: PlanProperties)
        ensures
            r.output_partitions == 1,
            r.emission is Final,
            r.bounded,
    {
        PlanProperties { output_partitions: 1, emission: EmissionType::Final, bounded: true }
    }

    /// The node has no children.
    pub fn children(&self) -> (r: usize)
        ensures
            r == 0,
    {
        0
    }

    /// Inexact estimates: `floor((end - start) / interval)` rows, never below
    /// zero, and eight bytes per row; nothing is known of the columns.
    pub fn statistics(&self) -> (r: Statistics)
        requires
            self.wf(),
        ensures
            r.num_rows == Precision::Inexact(
                row_estimate(self.bounds().0, self.bounds().1, self.bounds().2) as usize,
            ),
            r.total_byte_size == Precision::Inexact(
                byte_estimate(self.bounds().0, self.bounds().1, self.bounds().2) as usize,
            ),
            r.column_statistics@.len() == self.spec_result_schema().fields@.len(),
            forall|i: int|
                0 <= i < r.column_statistics@.len() ==> {
                    &&& (#[trigger] r.column_statistics@[i]).null_count is Absent
                    &&& r.column_statistics@[i].distinct_count is Absent
                },
    {
        let rows = estimated_row_count(self.start, self.end, self.interval);
        let bytes = estimated_byte_size(self.start, self.end, self.interval);
        let mut columns: Vec<ColumnStatistics> = Vec::new();
        let n = self.result_schema.num_fields();
        let mut i: usize = 0;
        while i < n
            invariant
                i <= n,
                columns@.len() == i,
                forall|j: int|
                    0 <= j < i ==> {
                        &&& (#[trigger] columns@[j]).null_count is Absent
                        &&& columns@[j].distinct_count is Absent
                    },
            decreases n - i,
        {
            columns.push(ColumnStatistics { null_count: Precision::Absent, distinct_count: Precision::Absent });
            i = i + 1;
        }
        Statistics {
            num_rows: Precision::Inexact(rows),
            total_byte_size: Precision::Inexact(bytes),
            column_statistics: columns,
        }
    }

    /// Starts one execution. The node has a single partition, numbered 0.
    pub fn execute(&self, partition: usize) -> (r: EmptyMetricStream)
        requires
            self.wf(),
            partition == 0,
        ensures
            r.wf(),
            r.spec_state() is Pending,
            r.bounds() == self.bounds(),
            r.spec_has_expr() == (self.spec_expr() is Some),
            r.spec_result_schema().fields@ == self.spec_result_schema().fields@,
    {
        let has_expr = match &self.expr {
            Some(_) => true,
            None => false,
        };
        EmptyMetricStream::new(self.start, self.end, self.interval, has_expr, self.result_schema.duplicate())
    }

    /// One line for plan explanations: `EmptyMetric: range=[start..end], interval=[interval]`.
    pub fn fmt_as(&self) -> (r: String)
        ensures
            r@ == explain_line(self.bounds().0, self.bounds().1, self.bounds().2),
    {
        explain(self.start, self.end, self.interval)
    }
}

} // verus!
