//! A synthetic time-grid row source: timestamps at a fixed cadence between two
//! bounds, optionally with one value column computed from them by an
//! expression engine. The library holds the plan node, its executable form,
//! the size estimates, and the one-shot stream that hands out the single batch.

pub mod display;
pub mod error;
pub mod grid;
pub mod metric;
pub mod schema;
pub mod stream;

pub use display::explain;
pub use error::GridError;
pub use grid::{estimated_byte_size, estimated_row_count, time_grid, Millisecond};
pub use metric::{
    ColumnStatistics, EmissionType, EmptyMetric, EmptyMetricExec, PlanProperties, Precision,
    Statistics,
};
pub use schema::{build_result_schema, build_ts_only_schema, ColumnType, Field, Schema};
pub use stream::{Batch, Column, EmptyMetricStream, StreamState};
