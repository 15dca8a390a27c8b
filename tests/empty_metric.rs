use datafusion::arrow::array::{Array, ArrayRef, Float64Array, TimestampMillisecondArray};
use datafusion::arrow::datatypes::{DataType, Field as ArrowField, Schema as ArrowSchema, TimeUnit};
use datafusion::arrow::record_batch::RecordBatch;
use datafusion::common::{DFSchema, TableReference};
use datafusion::execution::context::ExecutionProps;
use datafusion::logical_expr::ExprSchemable;
use datafusion::physical_expr::create_physical_expr;
use datafusion::prelude::{col, lit, Expr};
use empty_metric::{
    build_result_schema, build_ts_only_schema, estimated_byte_size, estimated_row_count, explain,
    time_grid, Batch, Column, ColumnType, EmissionType, EmptyMetric, GridError, Precision,
};
use std::collections::HashMap;
use std::ops::Div;
use std::sync::Arc;
use std::cmp::Ordering;

fn ts_field() -> ArrowField {
    ArrowField::new("time", DataType::Timestamp(TimeUnit::Millisecond, None), false)
}

fn ts_df_schema() -> DFSchema {
    DFSchema::new_with_metadata(vec![(Some(TableReference::bare("")), Arc::new(ts_field()))], HashMap::new())
        .unwrap()
}

/// The timestamp in seconds, as a DataFusion expression.
fn seconds_expr() -> Expr {
    let schema = ts_df_schema();
    col("time")
        .cast_to(&DataType::Int64, &schema)
        .unwrap()
        .cast_to(&DataType::Float64, &schema)
        .unwrap()
        .div(lit(1000.0))
}

/// DataFusion's type for `seconds_expr`.
fn seconds_type() -> String {
    seconds_expr().get_type(&ts_df_schema()).unwrap().to_string()
}

/// Evaluates `seconds_expr` with DataFusion over the timestamps.
fn seconds(ts: &[i64]) -> Vec<f64> {
    let physical = create_physical_expr(&seconds_expr(), &ts_df_schema(), &ExecutionProps::new()).unwrap();
    let array: ArrayRef = Arc::new(TimestampMillisecondArray::from(ts.to_vec()));
    let batch = RecordBatch::try_new(Arc::new(ArrowSchema::new(vec![ts_field()])), vec![array]).unwrap();
    let values = physical.evaluate(&batch).unwrap().into_array(ts.len()).unwrap();
    let values = values.as_any().downcast_ref::<Float64Array>().unwrap();
    (0..values.len()).map(|i| values.value(i)).collect()
}

fn seconds_node(start: i64, end: i64, interval: i64) -> EmptyMetric<String> {
    EmptyMetric::new(
        start,
        end,
        interval,
        "time".to_string(),
        "value".to_string(),
        Some(("time / 1000".to_string(), Ok(seconds_type()))),
    )
    .unwrap()
}

/// Runs the node to completion, evaluating the expression with DataFusion.
fn run(node: &EmptyMetric<String>) -> Batch<Vec<f64>> {
    let has_expr = node.expressions().is_some();
    let bound = if has_expr { Some(Ok(())) } else { None };
    let exec = node.to_execution_plan(bound).unwrap();
    let mut stream = exec.execute(0);
    let ts = stream.poll_next().unwrap();
    let evaluated = if has_expr {
        let data = seconds(&ts);
        let len = data.len();
        Some(Ok(Column { data, len }))
    } else {
        None
    };
    let batch = stream.assemble(ts, evaluated).unwrap();
    assert!(stream.poll_next().is_none());
    assert!(stream.is_done());
    batch
}

fn headers(node: &EmptyMetric<String>) -> Vec<String> {
    node.schema().field_names()
}

#[test]
fn normal_empty_metric_test() {
    let node = seconds_node(0, 100, 10);
    assert_eq!(headers(&node), vec!["time".to_string(), "value".to_string()]);
    let batch = run(&node);
    assert_eq!(batch.time_index, vec![0, 10, 20, 30, 40, 50, 60, 70, 80, 90, 100]);
    assert_eq!(
        batch.value,
        Some(vec![0.0, 0.01, 0.02, 0.03, 0.04, 0.05, 0.06, 0.07, 0.08, 0.09, 0.1])
    );
}

#[test]
fn unaligned_empty_metric_test() {
    let node = seconds_node(0, 100, 11);
    assert_eq!(headers(&node), vec!["time".to_string(), "value".to_string()]);
    let batch = run(&node);
    assert_eq!(batch.time_index, vec![0, 11, 22, 33, 44, 55, 66, 77, 88, 99]);
    assert_eq!(
        batch.value,
        Some(vec![0.0, 0.011, 0.022, 0.033, 0.044, 0.055, 0.066, 0.077, 0.088, 0.099])
    );
}

#[test]
fn one_row_empty_metric_test() {
    let node = seconds_node(0, 100, 1000);
    assert_eq!(headers(&node), vec!["time".to_string(), "value".to_string()]);
    let batch = run(&node);
    assert_eq!(batch.time_index, vec![0]);
    assert_eq!(batch.value, Some(vec![0.0]));
}

#[test]
fn negative_range_empty_metric_test() {
    let node = seconds_node(1000, -1000, 10);
    assert_eq!(node.schema().field_names(), vec!["time".to_string(), "value".to_string()]);
    let batch = run(&node);
    assert!(batch.time_index.is_empty());
    assert_eq!(batch.value, Some(vec![]));
}

#[test]
fn no_field_expr() {
    let node: EmptyMetric<String> =
        EmptyMetric::new(0, 200, 1000, "time".to_string(), "value".to_string(), None).unwrap();
    assert_eq!(node.schema().field_names(), vec!["time".to_string()]);
    let batch = run(&node);
    assert_eq!(batch.time_index, vec![0]);
    assert_eq!(batch.value, None);
}

#[test]
fn grid_row_count_and_points() {
    for &(start, end, interval) in
        &[(0i64, 100i64, 10i64), (-50, 50, 7), (5, 5, 3), (-1000, -1, 1000), (0, 1, 1)]
    {
        let g = time_grid(start, end, interval);
        assert_eq!(g.len() as i64, (end - start) / interval + 1);
        for (k, t) in g.iter().enumerate() {
            assert_eq!(*t, start + k as i64 * interval);
        }
        let estimate = estimated_row_count(start, end, interval);
        assert!(estimate <= g.len() && g.len() <= estimate + 1);
        let last = *g.last().unwrap();
        assert!(last <= end);
        assert!(end - last < interval);
    }
}

#[test]
fn grid_single_point_when_bounds_equal() {
    assert_eq!(time_grid(42, 42, 5), vec![42]);
}

#[test]
fn grid_reversed_range_is_empty() {
    assert!(time_grid(1000, -1000, 10).is_empty());
    assert!(time_grid(1, 0, 1).is_empty());
}

#[test]
fn grid_unaligned_never_reaches_end() {
    let g = time_grid(0, 100, 11);
    assert_eq!(g.len(), 10);
    assert!(!g.contains(&100));
    assert_eq!(*g.last().unwrap(), 99);
}

#[test]
fn grid_near_the_limits_of_i64() {
    let g = time_grid(i64::MAX - 10, i64::MAX, 4);
    assert_eq!(g, vec![i64::MAX - 10, i64::MAX - 6, i64::MAX - 2]);
    let h = time_grid(i64::MIN, i64::MAX, i64::MAX);
    assert_eq!(h, vec![i64::MIN, -1, i64::MAX - 1]);
}

#[test]
fn second_pull_ends_even_with_zero_rows() {
    let node = seconds_node(10, 0, 1);
    let exec = node.to_execution_plan(Some(Ok(()))).unwrap();
    let mut stream = exec.execute(0);
    assert!(!stream.is_done());
    assert_eq!(stream.poll_next(), Some(vec![]));
    assert_eq!(stream.poll_next(), None);
    assert_eq!(stream.poll_next(), None);
}

#[test]
fn schema_shape_with_and_without_expression() {
    let with = seconds_node(0, 10, 1);
    let fields = &with.schema().fields;
    assert_eq!(fields.len(), 2);
    assert_eq!(fields[0].name, "time");
    assert_eq!(fields[0].data_type, ColumnType::TimestampMillisecond);
    assert!(!fields[0].nullable);
    assert_eq!(fields[1].name, "value");
    assert_eq!(fields[1].data_type, ColumnType::Derived("Float64".to_string()));
    assert!(fields[1].nullable);
    assert_eq!(with.time_index_schema().num_fields(), 1);

    let without: EmptyMetric<String> =
        EmptyMetric::new(0, 10, 1, "ts".to_string(), "v".to_string(), None).unwrap();
    assert_eq!(without.schema().num_fields(), 1);
    assert_eq!(without.schema().fields[0].name, "ts");
}

#[test]
fn schema_builders() {
    let ts = build_ts_only_schema("t");
    assert_eq!(ts.field_names(), vec!["t".to_string()]);
    let r = build_result_schema("t", "v", Some("Int64"));
    assert_eq!(r.fields[1].data_type, ColumnType::Derived("Int64".to_string()));
    assert_eq!(build_result_schema("t", "v", None).num_fields(), 1);
    assert_eq!(r.duplicate(), r);
}

#[test]
fn ill_typed_expression_is_a_schema_error() {
    let r = EmptyMetric::new(
        0,
        10,
        1,
        "time".to_string(),
        "value".to_string(),
        Some(("other_column + 1".to_string(), Err("no field other_column".to_string()))),
    );
    assert_eq!(r.err(), Some(GridError::Schema("no field other_column".to_string())));
}

#[test]
fn binding_failure_is_a_binding_error() {
    let node = seconds_node(0, 10, 1);
    let r = node.to_execution_plan::<()>(Some(Err("cannot bind".to_string())));
    assert_eq!(r.err(), Some(GridError::ExpressionBinding("cannot bind".to_string())));
}

#[test]
fn evaluation_failure_is_passed_on() {
    let node = seconds_node(0, 10, 5);
    let exec = node.to_execution_plan(Some(Ok(()))).unwrap();
    let mut stream = exec.execute(0);
    let ts = stream.poll_next().unwrap();
    let r = stream.assemble::<Vec<f64>>(ts, Some(Err("overflow".to_string())));
    assert_eq!(r, Err(GridError::ExpressionEvaluation("overflow".to_string())));
    assert_eq!(stream.poll_next(), None);
}

#[test]
fn mismatched_columns_are_array_construction_errors() {
    let node = seconds_node(0, 10, 5);
    let exec = node.to_execution_plan(Some(Ok(()))).unwrap();
    let stream = exec.execute(0);
    let short = stream.assemble(vec![0, 5, 10], Some(Ok(Column { data: vec![0.0], len: 1 })));
    assert!(matches!(short, Err(GridError::ArrayConstruction(_))));
    let missing = stream.assemble::<Vec<f64>>(vec![0, 5, 10], None);
    assert!(matches!(missing, Err(GridError::ArrayConstruction(_))));

    let bare: EmptyMetric<String> =
        EmptyMetric::new(0, 10, 5, "t".to_string(), "v".to_string(), None).unwrap();
    let bare_stream = bare.to_execution_plan::<()>(None).unwrap().execute(0);
    let extra = bare_stream.assemble(vec![0], Some(Ok(Column { data: vec![1.0], len: 1 })));
    assert!(matches!(extra, Err(GridError::ArrayConstruction(_))));
}

#[test]
fn statistics_are_inexact_estimates() {
    let exec = seconds_node(0, 100, 11).to_execution_plan(Some(Ok(()))).unwrap();
    let stats = exec.statistics();
    assert_eq!(stats.num_rows, Precision::Inexact(9));
    assert_eq!(stats.total_byte_size, Precision::Inexact(72));
    assert_eq!(stats.column_statistics.len(), 2);
    assert!(stats.column_statistics.iter().all(|c| c.null_count == Precision::Absent
        && c.distinct_count == Precision::Absent));

    let reversed = seconds_node(1000, -1000, 10).to_execution_plan(Some(Ok(()))).unwrap();
    assert_eq!(reversed.statistics().num_rows, Precision::Inexact(0));
    assert_eq!(reversed.statistics().total_byte_size, Precision::Inexact(0));
}

#[test]
fn estimates_saturate() {
    assert_eq!(estimated_row_count(i64::MIN, i64::MAX, 1), usize::MAX);
    assert_eq!(estimated_byte_size(i64::MIN, i64::MAX, 1), usize::MAX);
    assert_eq!(estimated_row_count(0, 100, 10), 10);
    assert_eq!(estimated_byte_size(0, 100, 10), 80);
}

#[test]
fn explain_line() {
    let node = seconds_node(0, 100, 10);
    assert_eq!(node.fmt_for_explain(), "EmptyMetric: range=[0..100], interval=[10]");
    let exec = seconds_node(-1000, 2500, 250).to_execution_plan(Some(Ok(()))).unwrap();
    assert_eq!(exec.fmt_as(), "EmptyMetric: range=[-1000..2500], interval=[250]");
    assert_eq!(
        explain(i64::MIN, i64::MAX, 1),
        "EmptyMetric: range=[-9223372036854775808..9223372036854775807], interval=[1]"
    );
    assert_eq!(EmptyMetric::<String>::name(), "EmptyMetric");
}

#[test]
fn ordering_ignores_schemas() {
    let a = seconds_node(0, 100, 10);
    let b: EmptyMetric<String> = EmptyMetric::new(
        0,
        100,
        10,
        "other_time".to_string(),
        "other_value".to_string(),
        Some(("time / 1000".to_string(), Ok("Int64".to_string()))),
    )
    .unwrap();
    assert!(a.eq_with(&b, true));
    assert!(!a.eq_with(&b, false));
    assert_eq!(a.cmp_bounds(&b), Ordering::Equal);
    assert_eq!(a.partial_cmp_with(&b, Some(Ordering::Less)), Some(Ordering::Less));

    let c = seconds_node(0, 100, 20);
    assert_eq!(a.partial_cmp_with(&c, Some(Ordering::Greater)), Some(Ordering::Less));
    let d = seconds_node(-5, 200, 1);
    assert_eq!(a.partial_cmp_with(&d, None), Some(Ordering::Greater));
    assert!(!a.eq_with(&d, true));
}

#[test]
fn rebuilding_replaces_the_expression() {
    let a = seconds_node(0, 100, 10);
    let b = a.with_exprs_and_inputs(vec!["time * 2".to_string(), "ignored".to_string()]);
    assert_eq!(b.expressions(), &Some("time * 2".to_string()));
    assert_eq!(b.start(), 0);
    assert_eq!(b.end(), 100);
    assert_eq!(b.interval(), 10);
    assert_eq!(b.schema(), a.schema());
    let c = a.with_exprs_and_inputs(vec![]);
    assert_eq!(c.expressions(), &None);
}

#[test]
fn execution_properties() {
    let exec = seconds_node(0, 100, 10).to_execution_plan(Some(Ok(7u8))).unwrap();
    let p = exec.properties();
    assert_eq!(p.output_partitions, 1);
    assert_eq!(p.emission, EmissionType::Final);
    assert!(p.bounded);
    assert_eq!(exec.children(), 0);
    assert_eq!(exec.expr(), &Some(7u8));
    assert_eq!(exec.schema().num_fields(), 2);
    assert_eq!(exec.time_index_schema().num_fields(), 1);
    assert_eq!(exec.execute(0).schema().num_fields(), 2);
}

#[test]
fn value_column_typed_by_the_engine() {
    let node = seconds_node(0, 10, 5);
    assert_eq!(node.schema().fields[1].data_type, ColumnType::Derived("Float64".to_string()));
}

#[test]
fn value_column_named_like_the_timestamp_is_rejected() {
    let r = EmptyMetric::new(
        0,
        10,
        5,
        "time".to_string(),
        "time".to_string(),
        Some(("time / 1000".to_string(), Ok("Float64".to_string()))),
    );
    assert!(matches!(r, Err(GridError::Schema(_))));
    let bare: EmptyMetric<String> =
        EmptyMetric::new(0, 10, 5, "time".to_string(), "time".to_string(), None).unwrap();
    assert_eq!(bare.schema().num_fields(), 1);
}

#[test]
fn lowering_a_value_column_without_expression_fails() {
    let node = seconds_node(0, 10, 5).with_exprs_and_inputs(vec![]);
    let r = node.to_execution_plan::<()>(None);
    assert!(matches!(r, Err(GridError::ArrayConstruction(_))));
}
