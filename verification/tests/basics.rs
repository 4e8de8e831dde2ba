use eth_rpc_module::dialect::normalize_verified_result;
use eth_rpc_module::json::{json_text, parse_json, parse_json_bytes, Json};
use eth_rpc_module::num::{to_signed, to_unsigned};
use eth_rpc_module::order::insert_in_order;
use eth_rpc_module::reply::{http_error, read_response, shape_answer, Answer, Shape};
use eth_rpc_module::text::{
    begins_with, decimal_i128, decimal_u128, decimal_u64, hex_u64, parse_hex_u64, parse_u64,
};
use eth_rpc_module::time::{Duration, Instant};

#[test]
fn json_reads_and_writes() {
    let v = parse_json(r#" {"b":[1,-2,1.5,1e3,true,null,"x\n"],"a":{}} "#).unwrap();
    assert_eq!(json_text(&v), r#"{"a":{},"b":[1,-2,1.5,1000.0,true,null,"x\n"]}"#);
    assert_eq!(v.get("b").unwrap().as_array().unwrap().len(), 7);
    assert_eq!(parse_json("").unwrap_err(), "EOF while parsing a value at line 1 column 0");
    assert_eq!(parse_json_bytes(&b"[18446744073709551615]".to_vec()).unwrap(), Json::Array(vec![Json::Unsigned(u64::MAX)]));
    assert!(parse_json_bytes(&vec![0x22, 0xff, 0x22]).is_err());
    // The later of two members counts.
    let twice = parse_json(r#"{"k":1,"k":2}"#).unwrap();
    assert_eq!(twice.i64_at("k"), Some(2));
    let built = Json::object().with("k", Json::Unsigned(1)).with("k", Json::Unsigned(2));
    assert_eq!(built.i64_at("k"), Some(2));
    assert_eq!(json_text(&built), r#"{"k":2}"#);
}

#[test]
fn json_numbers_keep_their_range() {
    assert_eq!(parse_json("9223372036854775808").unwrap().as_i64(), None);
    assert_eq!(parse_json("9223372036854775808").unwrap().as_u64(), Some(1 << 63));
    assert_eq!(parse_json("-1").unwrap().as_u64(), None);
    assert_eq!(parse_json("-9223372036854775808").unwrap().as_i64(), Some(i64::MIN));
    assert_eq!(parse_json("1.0").unwrap().as_i64(), None);
    assert_eq!(json_text(&Json::number(-7)), "-7");
    assert_eq!(json_text(&Json::Negative(5)), "5");
}

#[test]
fn numbers_are_spelled() {
    assert_eq!(decimal_u64(0), "0");
    assert_eq!(decimal_u64(u64::MAX), "18446744073709551615");
    assert_eq!(decimal_u128(u128::MAX), "340282366920938463463374607431768211455");
    assert_eq!(decimal_i128(-42), "-42");
    assert_eq!(hex_u64(0), "0");
    assert_eq!(hex_u64(0xdeadbeef), "deadbeef");
}

#[test]
fn numbers_are_read() {
    for (text, n) in [("0", Some(0)), ("007", Some(7)), ("+7", Some(7)), ("", None), ("+", None), ("-1", None), ("1 ", None)] {
        assert_eq!(parse_u64(text, 10), n, "{text:?}");
    }
    assert_eq!(parse_u64("18446744073709551615", 10), Some(u64::MAX));
    assert_eq!(parse_u64("18446744073709551616", 10), None);
    assert_eq!(parse_u64("fF", 16), Some(255));
    for (text, n) in [
        ("0x1", Some(1)),
        (" 0XfF\n", Some(255)),
        ("1", None),
        ("0x", None),
        ("0x10000000000000000", None),
        ("0xffffffffffffffff", Some(u64::MAX)),
    ] {
        assert_eq!(parse_hex_u64(text), n, "{text:?}");
    }
    for n in [0, 9, 10, 255, 1 << 40, u64::MAX] {
        assert_eq!(parse_u64(&decimal_u64(n), 10), Some(n));
    }
}

#[test]
fn texts_begin_with_their_prefix() {
    assert!(begins_with("http://x", "http://"));
    assert!(begins_with("x", ""));
    assert!(!begins_with("htt", "http://"));
    assert!(!begins_with("HTTP://x", "http://"));
}

#[test]
fn chain_ids_keep_their_bits() {
    for n in [0, 1, i64::MAX as u64, 1 << 63, u64::MAX] {
        assert_eq!(to_signed(n), n as i64);
        assert_eq!(to_unsigned(to_signed(n)), n);
    }
}

#[test]
fn ids_stay_in_order() {
    let mut ids = vec![];
    for id in [5, 1, 9, 5, 0, 9] {
        insert_in_order(&mut ids, id);
    }
    assert_eq!(ids, vec![0, 1, 5, 9]);
}

#[test]
fn spans_and_points() {
    assert_eq!(Duration::from_secs(2), Duration::from_millis(2000));
    assert_eq!(Duration::from_nanos(1_999_999).as_millis(), 1);
    assert_eq!(Duration::from_millis(3).as_nanos(), 3_000_000);
    assert_eq!(Duration::from_secs(1).saturating_sub(Duration::from_secs(2)), Duration::from_secs(0));
    let early = Instant::since_start(Duration::from_secs(1));
    let late = Instant::since_start(Duration::from_secs(4));
    assert_eq!(late.saturating_duration_since(early), Duration::from_secs(3));
    assert_eq!(early.saturating_duration_since(late), Duration::from_secs(0));
}

#[test]
fn results_take_the_shape_that_is_wanted() {
    let v = parse_json(r#"{"a":1}"#).unwrap();
    assert_eq!(shape_answer(Shape::Value, v.clone()), Ok(Answer::Value(v.clone())));
    assert_eq!(shape_answer(Shape::Text, v), Ok(Answer::Text(r#"{"a":1}"#.to_string())));
    assert_eq!(shape_answer(Shape::ChainId, Json::text("0x10")), Ok(Answer::ChainId(16)));
    assert_eq!(read_response(&parse_json(r#"{"result":[]}"#).unwrap()), Ok(Json::Array(vec![])));
    assert_eq!(http_error(false, &vec![], None).message(), "http: ");
}

#[test]
fn wire_form_is_reached_once() {
    for text in ["[0,255]", "7", "\"0x1\"", "{\"a\":[1]}", "[1,256]", "-3", "2.5"] {
        let once = normalize_verified_result(parse_json(text).unwrap());
        assert_eq!(normalize_verified_result(once.clone()), once, "{text}");
    }
    assert_eq!(normalize_verified_result(parse_json("[0,255]").unwrap()), Json::text("0x00ff"));
    assert_eq!(normalize_verified_result(parse_json("0").unwrap()), Json::text("0x0"));
}
