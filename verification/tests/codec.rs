use axiom_rs::codec::{decode_batch, encode_batch, join_lines, split_lines};

fn round_trip(lines: Vec<Vec<u8>>) {
    let encoded = encode_batch(&lines);
    let decoded = decode_batch(&encoded).expect("a fresh encoding always decodes");
    assert_eq!(decoded, lines);
}

#[test]
fn batch_round_trip_empty() {
    round_trip(vec![]);
}

#[test]
fn batch_round_trip_one_event() {
    round_trip(vec![br#"{"foo":"bar"}"#.to_vec()]);
}

#[test]
fn batch_round_trip_thousand_events() {
    let mut lines = Vec::new();
    for i in 0..1000u32 {
        lines.push(format!(r#"{{"seq":{}}}"#, i).into_bytes());
    }
    round_trip(lines);
}

#[test]
fn join_inserts_single_separators() {
    let lines = vec![b"a".to_vec(), b"bc".to_vec(), b"d".to_vec()];
    assert_eq!(join_lines(&lines), b"a\nbc\nd".to_vec());
    assert_eq!(join_lines(&vec![b"xyz".to_vec()]), b"xyz".to_vec());
    assert_eq!(join_lines(&vec![]), Vec::<u8>::new());
}

#[test]
fn split_is_the_inverse_on_wire_data() {
    assert_eq!(
        split_lines(&b"a\nbc\nd".to_vec()),
        vec![b"a".to_vec(), b"bc".to_vec(), b"d".to_vec()]
    );
    assert_eq!(split_lines(&Vec::new()), Vec::<Vec<u8>>::new());
    assert_eq!(split_lines(&b"abc".to_vec()), vec![b"abc".to_vec()]);
}

#[test]
fn malformed_gzip_is_rejected() {
    let garbage = b"this is not a gzip stream".to_vec();
    assert!(decode_batch(&garbage).is_err());
}
