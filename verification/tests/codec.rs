use holomess::codec::PayloadValue;
use holomess::codec::decode_payload;
use holomess::codec::encode_payload;
use holomess::codec::payload_wf;

#[test]
fn unit_encodes_to_one_tag_byte() {
    let v = PayloadValue::Unit;
    assert!(payload_wf(&v));
    assert_eq!(encode_payload(&v), vec![0u8]);
}

#[test]
fn text_encoding_is_exact() {
    let v = PayloadValue::Text(b"hi".to_vec());
    assert!(payload_wf(&v));
    assert_eq!(encode_payload(&v), vec![1u8, 2, 0, 0, 0, b'h', b'i']);
}

#[test]
fn text_list_encoding_is_exact() {
    let v = PayloadValue::TextList(vec![b"a".to_vec(), b"bc".to_vec()]);
    assert!(payload_wf(&v));
    assert_eq!(
        encode_payload(&v),
        vec![2u8, 2, 0, 0, 0, 1, 0, 0, 0, b'a', 2, 0, 0, 0, b'b', b'c']
    );
}

#[test]
fn round_trip_unit() {
    let v = PayloadValue::Unit;
    assert_eq!(decode_payload(&encode_payload(&v)), Some(v));
}

#[test]
fn round_trip_text() {
    let v = PayloadValue::Text(b"hello".to_vec());
    let bytes = encode_payload(&v);
    assert_eq!(decode_payload(&bytes), Some(v));
}

#[test]
fn round_trip_text_list() {
    let v = PayloadValue::TextList(vec![b"hello".to_vec(), b"".to_vec(), b"world".to_vec()]);
    let bytes = encode_payload(&v);
    assert_eq!(decode_payload(&bytes), Some(v));
}

#[test]
fn empty_buffer_is_refused() {
    assert_eq!(decode_payload(&Vec::new()), None);
}

#[test]
fn unknown_tag_is_refused() {
    assert_eq!(decode_payload(&vec![9u8]), None);
}

#[test]
fn truncated_text_is_refused() {
    // claims five bytes of text but carries two
    assert_eq!(decode_payload(&vec![1u8, 5, 0, 0, 0, b'h', b'i']), None);
}

#[test]
fn trailing_garbage_is_refused() {
    assert_eq!(decode_payload(&vec![0u8, 0]), None);
    assert_eq!(decode_payload(&vec![1u8, 1, 0, 0, 0, b'x', b'x']), None);
}

#[test]
fn short_list_is_refused() {
    // claims two items but carries one
    assert_eq!(decode_payload(&vec![2u8, 2, 0, 0, 0, 1, 0, 0, 0, b'a']), None);
}
