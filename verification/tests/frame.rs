use phi_bitwarden_helper::codec::{decode, encode};
use phi_bitwarden_helper::frame::{frame_len, read_payload, write_frame, FrameError, MAX_FRAME};
use phi_bitwarden_helper::json::Json;

fn fields(pairs: Vec<(&str, Json)>) -> Json {
    Json::Object(pairs.into_iter().map(|(k, v)| (k.to_string(), v)).collect())
}

#[test]
fn frames_carry_a_big_endian_length() {
    let bytes = write_frame(fields(vec![("ok", Json::Bool(true))])).unwrap();
    assert_eq!(&bytes[..4], &[0, 0, 0, 11]);
    assert_eq!(&bytes[4..], br#"{"ok":true}"#);
}

#[test]
fn frames_are_read_back() {
    let value = || {
        fields(vec![
            ("text", Json::Text("\u{e4} \"q\" \n".to_string())),
            ("list", Json::Array(vec![Json::Null, Json::Bool(false), Json::Count(u64::MAX)])),
            ("nested", fields(vec![("n", Json::Count(0))])),
        ])
    };
    let bytes = write_frame(value()).unwrap();
    let header: [u8; 4] = bytes[..4].try_into().unwrap();
    let len = frame_len(header).unwrap();
    assert_eq!(len, bytes.len() - 4);
    let back = read_payload(&bytes[4..]).unwrap();
    assert_eq!(back.get("text"), value().get("text"));
    assert_eq!(back.get("list"), value().get("list"));
    assert_eq!(back.get("nested").unwrap().get("n"), Some(&Json::Count(0)));
}

#[test]
fn frame_lengths_are_bounded() {
    assert!(matches!(frame_len([0, 0, 0, 0]), Err(FrameError::Length)));
    assert!(matches!(frame_len([0, 0, 0, 1]), Ok(1)));
    assert!(matches!(frame_len([0, 0, 1, 2]), Ok(258)));
    assert_eq!(MAX_FRAME, 4 * 1024 * 1024);
    assert!(matches!(frame_len([0, 0x40, 0, 0]), Ok(0x40_0000)));
    assert!(matches!(frame_len([0, 0x40, 0, 1]), Err(FrameError::Length)));
    assert!(matches!(frame_len([0xff, 0xff, 0xff, 0xff]), Err(FrameError::Length)));
}

#[test]
fn malformed_payloads_are_refused() {
    assert!(matches!(read_payload(b"{"), Err(FrameError::Malformed(_))));
    assert!(matches!(read_payload(b""), Err(FrameError::Malformed(_))));
    assert!(matches!(read_payload(b"{} x"), Err(FrameError::Malformed(_))));
    assert!(matches!(read_payload(&[0xff]), Err(FrameError::Malformed(_))));
}

#[test]
fn other_numbers_pass_through() {
    for text in ["1.5", "-0", "1e3", "18446744073709551616", "-9223372036854775809"] {
        let value = decode(text.as_bytes()).unwrap();
        assert!(matches!(value, Json::Decimal(_)), "{text}");
    }
    assert_eq!(encode(decode(b"[1.5]").unwrap()).unwrap(), b"[1.5]");
    assert_eq!(decode(b"7").unwrap(), Json::Count(7));
}

#[test]
fn a_later_field_of_the_same_name_wins() {
    let value = decode(br#"{"a": 1, "b": 2, "a": 3}"#).unwrap();
    assert_eq!(value.get("a"), Some(&Json::Count(3)));
    let built = fields(vec![("a", Json::Count(1)), ("a", Json::Count(3))]);
    assert_eq!(built.get("a"), Some(&Json::Count(3)));
    assert_eq!(encode(built).unwrap(), br#"{"a":3}"#);
}

#[test]
fn fields_are_written_in_the_order_of_their_names() {
    let built = fields(vec![("b", Json::Count(1)), ("a", Json::Count(2))]);
    assert_eq!(encode(built).unwrap(), br#"{"a":2,"b":1}"#);
}

#[test]
fn nesting_is_read_up_to_the_limit() {
    let deep = |n: usize| (0..n).fold(Json::Null, |inner, _| Json::Array(vec![inner]));
    let bytes = write_frame(deep(127)).unwrap();
    assert_eq!(read_payload(&bytes[4..]).unwrap(), deep(127));
    let bytes = write_frame(deep(128)).unwrap();
    assert!(matches!(read_payload(&bytes[4..]), Err(FrameError::Malformed(_))));
}

#[test]
fn integers_are_read_back() {
    for n in [i64::MIN, -7, -1] {
        let bytes = write_frame(Json::Negative(n)).unwrap();
        assert_eq!(&bytes[4..], n.to_string().as_bytes());
        assert_eq!(read_payload(&bytes[4..]).unwrap(), Json::Negative(n));
    }
    for n in [0, 1, u64::MAX] {
        let bytes = write_frame(Json::Count(n)).unwrap();
        assert_eq!(&bytes[4..], n.to_string().as_bytes());
        assert_eq!(read_payload(&bytes[4..]).unwrap(), Json::Count(n));
    }
    // Integers from 0 up are counts, however they were built.
    let bytes = write_frame(Json::Negative(5)).unwrap();
    assert_eq!(read_payload(&bytes[4..]).unwrap(), Json::Count(5));
}

#[test]
fn frames_are_read_in_order() {
    let mut stream = Vec::new();
    for n in [-1, -2, -3] {
        stream.extend(write_frame(fields(vec![("id", Json::Negative(n))])).unwrap());
    }
    let mut at = 0;
    for n in [-1, -2, -3] {
        let header: [u8; 4] = stream[at..at + 4].try_into().unwrap();
        let len = frame_len(header).unwrap();
        let value = read_payload(&stream[at + 4..at + 4 + len]).unwrap();
        assert_eq!(value.get("id"), Some(&Json::Negative(n)));
        at += 4 + len;
    }
    assert_eq!(at, stream.len());
}
