use depth_stream::decode::decode_frame;
use depth_stream::depth::DecodeReason;

#[test]
fn decodes_example_frame() {
    let frame = r#"{"stream":"ethbtc@depth5@100ms","data":{"lastUpdateId":160,"bids":[["0.0531","10.5"]],"asks":[["0.0532","3.2"],["0.0533","1.0"]]}}"#;
    let env = decode_frame(frame).unwrap();
    assert_eq!(env.stream_name, "ethbtc@depth5@100ms");
    assert_eq!(env.payload.last_update_id, 160);
    assert_eq!(env.payload.bids.len(), 1);
    assert_eq!(env.payload.bids[0].price, "0.0531");
    assert_eq!(env.payload.bids[0].size, "10.5");
    assert_eq!(env.payload.asks.len(), 2);
    assert_eq!(env.payload.asks[0].price, "0.0532");
    assert_eq!(env.payload.asks[0].size, "3.2");
    assert_eq!(env.payload.asks[1].price, "0.0533");
    assert_eq!(env.payload.asks[1].size, "1.0");
}

#[test]
fn decoding_is_idempotent() {
    let frame = r#"{"stream":"bnbeth@depth5@100ms","data":{"lastUpdateId":7,"bids":[],"asks":[["0.1","2"]]}}"#;
    let first = decode_frame(frame).unwrap();
    let second = decode_frame(frame).unwrap();
    assert_eq!(first, second);
}

#[test]
fn numeric_price_and_size_become_exact_text() {
    let frame = r#"{"stream":"s","data":{"lastUpdateId":1,"bids":[[0.0531,10.5]],"asks":[[3.2,1.0]]}}"#;
    let env = decode_frame(frame).unwrap();
    assert_eq!(env.payload.bids[0].price, "0.0531");
    assert_eq!(env.payload.bids[0].size, "10.5");
    assert_eq!(env.payload.asks[0].price, "3.2");
    assert_eq!(env.payload.asks[0].size, "1.0");
}

#[test]
fn price_strings_keep_trailing_zeros() {
    let frame = r#"{"stream":"s","data":{"lastUpdateId":1,"bids":[],"asks":[["0.05310000","10.500"]]}}"#;
    let env = decode_frame(frame).unwrap();
    assert_eq!(env.payload.asks[0].price, "0.05310000");
    assert_eq!(env.payload.asks[0].size, "10.500");
}

#[test]
fn non_json_frame_fails() {
    assert_eq!(decode_frame("not json"), Err(DecodeReason::NotJson));
}

#[test]
fn non_object_document_fails() {
    assert_eq!(decode_frame("[1,2]"), Err(DecodeReason::NotObject));
    assert_eq!(decode_frame("5"), Err(DecodeReason::NotObject));
}

#[test]
fn missing_stream_field_fails() {
    let frame = r#"{"data":{"lastUpdateId":1,"bids":[],"asks":[]}}"#;
    assert_eq!(decode_frame(frame), Err(DecodeReason::MissingStream));
}

#[test]
fn empty_or_non_string_stream_fails() {
    let empty = r#"{"stream":"","data":{"lastUpdateId":1,"bids":[],"asks":[]}}"#;
    assert_eq!(decode_frame(empty), Err(DecodeReason::BadStream));
    let numeric = r#"{"stream":5,"data":{"lastUpdateId":1,"bids":[],"asks":[]}}"#;
    assert_eq!(decode_frame(numeric), Err(DecodeReason::BadStream));
}

#[test]
fn missing_or_non_object_data_fails() {
    assert_eq!(decode_frame(r#"{"stream":"s"}"#), Err(DecodeReason::MissingData));
    assert_eq!(decode_frame(r#"{"stream":"s","data":[]}"#), Err(DecodeReason::BadData));
}

#[test]
fn bad_update_id_fails() {
    let missing = r#"{"stream":"s","data":{"bids":[],"asks":[]}}"#;
    assert_eq!(decode_frame(missing), Err(DecodeReason::BadUpdateId));
    let as_string = r#"{"stream":"s","data":{"lastUpdateId":"160","bids":[],"asks":[]}}"#;
    assert_eq!(decode_frame(as_string), Err(DecodeReason::BadUpdateId));
    let negative = r#"{"stream":"s","data":{"lastUpdateId":-5,"bids":[],"asks":[]}}"#;
    assert_eq!(decode_frame(negative), Err(DecodeReason::BadUpdateId));
    let fractional = r#"{"stream":"s","data":{"lastUpdateId":160.5,"bids":[],"asks":[]}}"#;
    assert_eq!(decode_frame(fractional), Err(DecodeReason::BadUpdateId));
    let too_large = r#"{"stream":"s","data":{"lastUpdateId":18446744073709551616,"bids":[],"asks":[]}}"#;
    assert_eq!(decode_frame(too_large), Err(DecodeReason::BadUpdateId));
}

#[test]
fn update_id_at_limit_is_kept() {
    let frame = r#"{"stream":"s","data":{"lastUpdateId":18446744073709551615,"bids":[],"asks":[]}}"#;
    let env = decode_frame(frame).unwrap();
    assert_eq!(env.payload.last_update_id, u64::MAX);
}

#[test]
fn bids_not_pairs_fails() {
    let one_element = r#"{"stream":"s","data":{"lastUpdateId":1,"bids":[["0.1"]],"asks":[]}}"#;
    assert_eq!(decode_frame(one_element), Err(DecodeReason::BadBids));
    let three_elements = r#"{"stream":"s","data":{"lastUpdateId":1,"bids":[["0.1","2","3"]],"asks":[]}}"#;
    assert_eq!(decode_frame(three_elements), Err(DecodeReason::BadBids));
    let not_array = r#"{"stream":"s","data":{"lastUpdateId":1,"bids":"x","asks":[]}}"#;
    assert_eq!(decode_frame(not_array), Err(DecodeReason::BadBids));
    let missing = r#"{"stream":"s","data":{"lastUpdateId":1,"asks":[]}}"#;
    assert_eq!(decode_frame(missing), Err(DecodeReason::BadBids));
}

#[test]
fn asks_not_pairs_fails() {
    let bad_pair = r#"{"stream":"s","data":{"lastUpdateId":1,"bids":[],"asks":[[true,"2"]]}}"#;
    assert_eq!(decode_frame(bad_pair), Err(DecodeReason::BadAsks));
    let missing = r#"{"stream":"s","data":{"lastUpdateId":1,"bids":[]}}"#;
    assert_eq!(decode_frame(missing), Err(DecodeReason::BadAsks));
}

#[test]
fn empty_asks_decode_without_error() {
    let frame = r#"{"stream":"s","data":{"lastUpdateId":1,"bids":[["0.1","2"]],"asks":[]}}"#;
    let env = decode_frame(frame).unwrap();
    assert_eq!(env.payload.asks.len(), 0);
}
