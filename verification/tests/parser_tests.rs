use bitcoin_metaprotocols::common::parse_i64_str;
use bitcoin_metaprotocols::common::parse_info_x;
use bitcoin_metaprotocols::common::parse_omb_x;
use bitcoin_metaprotocols::common::parse_stats_x;
use bitcoin_metaprotocols::request::HttpResponseData;
use bitcoin_metaprotocols::transform;

fn bytes(s: &str) -> Vec<u8> {
    s.as_bytes().to_vec()
}

#[test]
fn decimal_string_parsing_matches_expected_values() {
    assert_eq!(parse_i64_str("500"), Some(500));
    assert_eq!(parse_i64_str("+7"), Some(7));
    assert_eq!(parse_i64_str("-3"), Some(-3));
    assert_eq!(parse_i64_str("0"), Some(0));
    assert_eq!(parse_i64_str("007"), Some(7));
    assert_eq!(parse_i64_str("9223372036854775807"), Some(i64::MAX));
    assert_eq!(parse_i64_str("-9223372036854775808"), Some(i64::MIN));
    assert_eq!(parse_i64_str("9223372036854775808"), None);
    assert_eq!(parse_i64_str("99999999999999999999"), None);
    assert_eq!(parse_i64_str(""), None);
    assert_eq!(parse_i64_str("-"), None);
    assert_eq!(parse_i64_str("12a"), None);
    assert_eq!(parse_i64_str("1.5"), None);
}

#[test]
fn detail_parse_reads_the_symbol() {
    let b = bytes(
        r#"{"data":{"collection_symbol":"punks"},"last_updated":{"block_hash":"h","block_height":4},"next_cursor":"nc"}"#,
    );
    let v = parse_info_x(&b).unwrap();
    assert_eq!(v.data.collection_symbol, Some("punks".to_string()));
    assert_eq!(v.last_updated.block_hash, "h".to_string());
    assert_eq!(v.last_updated.block_height, 4);
    assert_eq!(v.next_cursor, Some("nc".to_string()));
}

#[test]
fn detail_parse_tolerates_unknown_members() {
    let b = bytes(
        r#"{"extra":{"deep":[1,2,{"x":[]}]},"data":{"other":true,"collection_symbol":null},"last_updated":{"block_hash":"h","block_height":4,"note":"n"},"next_cursor":null,"more":1.75e3}"#,
    );
    let v = parse_info_x(&b).unwrap();
    assert_eq!(v.data.collection_symbol, None);
    assert_eq!(v.next_cursor, None);
}

#[test]
fn detail_parse_allows_missing_optional_members() {
    let b = bytes(r#"{"data":{},"last_updated":{"block_hash":"h","block_height":4}}"#);
    let v = parse_info_x(&b).unwrap();
    assert_eq!(v.data.collection_symbol, None);
    assert_eq!(v.next_cursor, None);
}

#[test]
fn detail_parse_refuses_duplicates_and_missing_members() {
    assert!(
        parse_info_x(&bytes(
            r#"{"data":{"collection_symbol":"a","collection_symbol":"b"},"last_updated":{"block_hash":"h","block_height":4}}"#
        ))
        .is_none()
    );
    assert!(parse_info_x(&bytes(r#"{"data":{}}"#)).is_none());
    assert!(parse_info_x(&bytes(r#"{"data":{},"last_updated":{"block_hash":"h"}}"#)).is_none());
    assert!(parse_info_x(&bytes(r#"[1,2,3]"#)).is_none());
    assert!(parse_info_x(&bytes(r#"{"data":{}} trailing"#)).is_none());
}

#[test]
fn string_escapes_are_decoded() {
    let b = bytes(
        r#"{"data":{"collection_symbol":"pu\"nk\\s\n"},"last_updated":{"block_hash":"h","block_height":4}}"#,
    );
    let v = parse_info_x(&b).unwrap();
    assert_eq!(v.data.collection_symbol, Some("pu\"nk\\s\n".to_string()));
}

#[test]
fn stats_parse_reads_the_floor_price_string() {
    let b = bytes(
        r#"{"data":{"floor_price":"500"},"last_updated":{"block_hash":"h","block_height":4},"next_cursor":null}"#,
    );
    let v = parse_stats_x(&b).unwrap();
    assert_eq!(v.data.floor_price, Some("500".to_string()));
}

#[test]
fn omb_parse_needs_both_parts() {
    let v = parse_omb_x(&bytes(r#"{"data":{"color":"red","floor_price":600}}"#)).unwrap();
    assert_eq!(v.data.omb_color, "red".to_string());
    assert_eq!(v.data.omb_floor_price, 600);
    assert!(parse_omb_x(&bytes(r#"{"data":{"color":"red"}}"#)).is_none());
    assert!(parse_omb_x(&bytes(r#"{"data":{"floor_price":600}}"#)).is_none());
    // a fractional number is not a signed 64-bit integer
    assert!(parse_omb_x(&bytes(r#"{"data":{"color":"red","floor_price":600.5}}"#)).is_none());
    // an integer beyond the signed 64-bit range is refused
    assert!(
        parse_omb_x(&bytes(r#"{"data":{"color":"red","floor_price":9223372036854775808}}"#))
            .is_none()
    );
}

#[test]
fn number_edge_cases_follow_the_wire_grammar() {
    // negative zero is a valid integer
    let v = parse_omb_x(&bytes(r#"{"data":{"color":"red","floor_price":-0}}"#)).unwrap();
    assert_eq!(v.data.omb_floor_price, 0);
    // a leading zero is not well formed
    assert!(parse_omb_x(&bytes(r#"{"data":{"color":"red","floor_price":01}}"#)).is_none());
    // an exponent makes the number a non-integer
    assert!(parse_omb_x(&bytes(r#"{"data":{"color":"red","floor_price":6e2}}"#)).is_none());
    // whitespace between tokens is fine
    let v = parse_omb_x(&bytes("{ \"data\" :\t{ \"color\" : \"red\" ,\r\n\"floor_price\" : 600 } }"))
        .unwrap();
    assert_eq!(v.data.omb_floor_price, 600);
}

#[test]
fn sanitizer_keeps_body_and_drops_headers() {
    let raw = HttpResponseData {
        status: 200,
        body: vec![1, 2, 3],
        headers: vec![("server".to_string(), "x".to_string())],
    };
    let out = transform(&raw);
    assert_eq!(out.status, 200);
    assert_eq!(out.body, vec![1, 2, 3]);
    assert!(out.headers.is_empty());
}

#[test]
fn sanitizer_passes_non_success_bodies_through_too() {
    let raw = HttpResponseData {
        status: 500,
        body: bytes("oops"),
        headers: vec![("a".to_string(), "b".to_string())],
    };
    let out = transform(&raw);
    assert_eq!(out.status, 500);
    assert_eq!(out.body, bytes("oops"));
    assert!(out.headers.is_empty());
}
