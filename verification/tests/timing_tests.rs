use depth_stream::timing::{get_valid_timestamp, millis_deadline};

#[test]
fn deadline_adds_the_offset() {
    assert_eq!(millis_deadline(5, 10), Some(15));
    assert_eq!(millis_deadline(0, 0), Some(0));
}

#[test]
fn deadline_out_of_range_is_none() {
    assert_eq!(millis_deadline(u128::MAX, 1), None);
    assert_eq!(millis_deadline(u128::MAX, 0), Some(u128::MAX));
}

#[test]
fn timestamp_is_at_least_the_offset() {
    let t = get_valid_timestamp(300000).unwrap();
    assert!(t >= 300000);
}
