use axiom_rs::annotations;
use axiom_rs::error::Error;

fn millis(rfc3339: &str) -> i64 {
    chrono::DateTime::parse_from_rfc3339(rfc3339)
        .expect("the time is right")
        .timestamp_millis()
}

#[test]
fn empty_datasets() {
    let res = annotations::Create::new("snot", vec![]);
    assert!(matches!(res, Err(Error::EmptyDatasets)));

    let res = annotations::Create::builder()
        .with_type("snot")
        .expect("we got type")
        .with_datasets(vec![]);
    assert!(matches!(res, Err(Error::EmptyDatasets)));
}

#[test]
fn create_invalid_times() {
    let start = millis("2024-02-06T11:39:28.382Z");
    let end = millis("2023-02-06T11:39:28.382Z");
    let res = annotations::Create::builder()
        .with_type("snot")
        .expect("we got type")
        .with_datasets(vec!["badger".to_string()])
        .expect("we got datasets")
        .with_time(start)
        .expect("we got time")
        .with_end_time(end);
    assert!(matches!(res, Err(Error::InvalidTimeOrder)));
    let res = annotations::Create::builder()
        .with_type("snot")
        .expect("we got type")
        .with_datasets(vec!["badger".to_string()])
        .expect("we got datasets")
        .with_end_time(end)
        .expect("we got time")
        .with_time(start);
    assert!(matches!(res, Err(Error::InvalidTimeOrder)));
}

#[test]
fn list_invalid_times() {
    let start = millis("2024-02-06T11:39:28.382Z");
    let end = millis("2023-02-06T11:39:28.382Z");
    let res = annotations::List::builder()
        .with_start(start)
        .expect("we got start")
        .with_end(end);
    assert!(matches!(res, Err(Error::InvalidTimeOrder)));
    let res = annotations::List::builder()
        .with_end(end)
        .expect("we got start")
        .with_start(start);
    assert!(matches!(res, Err(Error::InvalidTimeOrder)));
}

#[test]
fn update_invalid_times() {
    let start = millis("2024-02-06T11:39:28.382Z");
    let end = millis("2023-02-06T11:39:28.382Z");
    let res = annotations::Update::builder()
        .with_time(start)
        .expect("we got start")
        .with_end_time(end);
    assert!(matches!(res, Err(Error::InvalidTimeOrder)));
    let res = annotations::Update::builder()
        .with_end_time(end)
        .expect("we got start")
        .with_time(start);
    assert!(matches!(res, Err(Error::InvalidTimeOrder)));
}

#[test]
fn empty_type_and_empty_update() {
    let res = annotations::Create::builder().with_type("");
    assert!(matches!(res, Err(Error::EmptyType)));

    let res = annotations::Update::builder().build();
    assert!(matches!(res, Err(Error::EmptyUpdate)));

    let res = annotations::Update::builder().with_title("cookie").build();
    assert!(res.is_ok());
}

#[test]
fn valid_times_are_kept() {
    let start = millis("2023-02-06T11:39:28.382Z");
    let end = millis("2024-02-06T11:39:28.382Z");
    let req = annotations::Create::builder()
        .with_type("deploy")
        .expect("we got type")
        .with_datasets(vec!["logs".to_string()])
        .expect("we got datasets")
        .with_time(start)
        .expect("start before end")
        .with_end_time(end)
        .expect("end after start")
        .build();
    let _ = req;
}
