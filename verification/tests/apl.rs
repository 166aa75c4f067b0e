use axiom_rs::apl::{builder, TabularOperators};

#[test]
fn test_builder_simple() {
    let apl = builder().dataset("foo").build();
    assert_eq!("['foo']", apl);
}

#[test]
fn test_builder_advanced() {
    let apl = builder()
        .dataset("foo")
        .where_eq("foo", "bar")
        .and_eq("bar", "baz")
        .or_eq("baz", "qux")
        .count()
        .project(vec!["foo".to_string()])
        .summarize("count()", "bin_auto(_time)")
        .build();
    assert_eq!(
        r#"['foo'] | where foo == "bar" | count | project foo | summarize count() by bin_auto(_time)"#,
        apl
    );
}

#[test]
fn apl_where_raw_passes_through() {
    let apl = builder().dataset("foo").where_raw("age", ">", "30").build();
    assert_eq!(r#"['foo'] | where age > 30"#, apl);
}

#[test]
fn apl_take_and_projections() {
    let apl = builder()
        .dataset("logs")
        .project_keep(vec!["a".to_string(), "b".to_string()])
        .take(25)
        .build();
    assert_eq!("['logs'] | project-keep a, b | take 25", apl);

    let apl = builder()
        .dataset("logs")
        .project_away(vec!["c".to_string()])
        .extend(vec!["d = 1".to_string(), "e = 2".to_string()])
        .build();
    assert_eq!("['logs'] | project-away c | extend d = 1, e = 2", apl);
}
