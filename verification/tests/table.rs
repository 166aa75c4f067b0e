use axiom_rs::model::{AggregationOp, FilterOp};
use axiom_rs::table::{Field, FieldType, Source, Table};
use serde_json::Value;

fn sample_table() -> Table {
    // Two fields and two columns of three rows each.
    let fields = vec![
        Field::new("host".to_string(), FieldType::new("string".to_string()), None),
        Field::new("count".to_string(), FieldType::new("integer".to_string()), None),
    ];
    let columns = vec![
        vec![
            Value::String("a".to_string()),
            Value::String("b".to_string()),
            Value::String("c".to_string()),
        ],
        vec![Value::from(1), Value::from(2), Value::from(3)],
    ];
    Table::new(
        "t".to_string(),
        vec![Source::new("logs".to_string())],
        fields,
        Vec::new(),
        Vec::new(),
        None,
        None,
        columns,
    )
}

#[test]
fn table_len_is_the_first_column() {
    let table = sample_table();
    assert_eq!(table.len(), 3);
    assert!(!table.is_empty());
    let empty = Table::new(
        "e".to_string(),
        Vec::new(),
        Vec::new(),
        Vec::new(),
        Vec::new(),
        None,
        None,
        Vec::new(),
    );
    assert_eq!(empty.len(), 0);
    assert!(empty.is_empty());
}

#[test]
fn rows_index_into_columns() {
    let table = sample_table();
    let row = table.get_row(1).expect("row 1 exists");
    assert_eq!(row.get(0), Some(&Value::String("b".to_string())));
    assert_eq!(row.get(1).and_then(Value::as_i64), Some(2));
    assert_eq!(row.get(2), None);
    assert!(table.get_row(3).is_none());
}

#[test]
fn cells_are_found_by_field_name() {
    let table = sample_table();
    let row = table.get_row(2).expect("row 2 exists");
    assert_eq!(row.get_field("host"), Some(&Value::String("c".to_string())));
    assert_eq!(row.get_field("count").and_then(Value::as_i64), Some(3));
    assert_eq!(row.get_field("missing"), None);
    assert_eq!(row.fields().len(), 2);
    assert_eq!(row.fields()[0].name(), "host");
    assert_eq!(row.fields()[0].typ().name(), "string");
}

#[test]
fn row_iterator_walks_every_row() {
    let table = sample_table();
    let mut iter = table.iter();
    let mut seen = 0;
    while let Some(row) = iter.next() {
        assert!(row.get(0).is_some());
        seen += 1;
    }
    assert_eq!(seen, 3);
}

#[test]
fn field_iterator_walks_every_column() {
    let table = sample_table();
    let row = table.get_row(0).expect("row 0 exists");
    let mut iter = row.iter();
    let mut cells = Vec::new();
    while let Some(cell) = iter.next() {
        cells.push(cell.cloned());
    }
    assert_eq!(cells.len(), 2);
    assert_eq!(cells[0], Some(Value::String("a".to_string())));
}

#[test]
fn aggregation_wire_names_round_trip() {
    assert_eq!(AggregationOp::Count.wire_name(), "count");
    assert_eq!(AggregationOp::CountDistinct.wire_name(), "distinct");
    assert_eq!(AggregationOp::StandardDeviation.wire_name(), "stdev");
    assert!(matches!(AggregationOp::parse("count"), AggregationOp::Count));
    assert!(matches!(AggregationOp::parse("topk"), AggregationOp::Topk));
    match AggregationOp::parse("something-new") {
        AggregationOp::Unknown(s) => assert_eq!(s, "something-new"),
        other => panic!("expected an unknown aggregation, got {:?}", other),
    }
    // The wire name of a parsed string is the string itself.
    assert_eq!(AggregationOp::parse("argmin").wire_name(), "argmin");
    assert_eq!(AggregationOp::parse("weird").wire_name(), "weird");
}

#[test]
fn filter_wire_names() {
    assert_eq!(FilterOp::And.wire_name(), "and");
    assert_eq!(FilterOp::Equal.wire_name(), "==");
    assert_eq!(FilterOp::NotEqual.wire_name(), "!=");
    assert_eq!(FilterOp::GreaterThan.wire_name(), ">");
    assert_eq!(FilterOp::Contains.wire_name(), "contains");
}
