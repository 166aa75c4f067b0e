use axiom_rs::query_builder::QueryBuilder;

#[test]
fn test_query_builder() {
    let query = QueryBuilder::new("users")
        .where_("name == 'John'")
        .and("age == 30")
        .or("age == 40")
        .extend(vec!["height = 84", "isYoung = age < 30"])
        .project("weight = 78")
        .take(10)
        .summarize("avg(price)")
        .by(vec!["bin_auto(_time)", "customer_name"])
        .count()
        .to_string();

    assert_eq!(
        query,
        r#"['users']
| where name == 'John' and age == 30 or age == 40
| extend height = 84, isYoung = age < 30
| project weight = 78
| take 10
| summarize avg(price) by bin_auto(_time), customer_name
| count"#
    );
}

#[test]
fn query_builder_take_negative() {
    let query = QueryBuilder::new("d").take(-5).to_string();
    assert_eq!(query, "['d']\n| take -5");
}

#[test]
fn query_builder_single_statements() {
    assert_eq!(
        QueryBuilder::new("my-dataset").where_("foo == 'bar'").to_string(),
        "['my-dataset']\n| where foo == 'bar'"
    );
    assert_eq!(
        QueryBuilder::new("my-dataset").summarize("count()").by("foo").to_string(),
        "['my-dataset']\n| summarize count() by foo"
    );
    assert_eq!(QueryBuilder::new("my-dataset").count().to_string(), "['my-dataset']\n| count");
}
