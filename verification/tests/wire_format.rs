use tracing_perfetto::AnnotationValue;
use tracing_perfetto::DebugAnnotation;
use tracing_perfetto::wire;

#[test]
fn varint_small_value_is_one_byte() {
    let mut buf: Vec<u8> = Vec::new();
    wire::push_varint(&mut buf, 0);
    wire::push_varint(&mut buf, 1);
    wire::push_varint(&mut buf, 127);
    assert_eq!(buf, vec![0x00, 0x01, 0x7F]);
}

#[test]
fn varint_multi_byte_values() {
    let mut buf: Vec<u8> = Vec::new();
    wire::push_varint(&mut buf, 128);
    assert_eq!(buf, vec![0x80, 0x01]);

    let mut buf: Vec<u8> = Vec::new();
    wire::push_varint(&mut buf, 300);
    assert_eq!(buf, vec![0xAC, 0x02]);

    let mut buf: Vec<u8> = Vec::new();
    wire::push_varint(&mut buf, u64::MAX);
    assert_eq!(buf, vec![0xFF, 0xFF, 0xFF, 0xFF, 0xFF, 0xFF, 0xFF, 0xFF, 0xFF, 0x01]);
}

#[test]
fn bool_annotation_bytes() {
    let a = DebugAnnotation {
        name: "b".to_string(),
        value: AnnotationValue::Bool(true),
    };
    // name: field 10, length-delimited: key 0x52, length 1, 'b'.
    // bool value: field 2, varint: key 0x10, value 1.
    assert_eq!(wire::encode_annotation(&a), vec![0x52, 0x01, 0x62, 0x10, 0x01]);
}

#[test]
fn negative_int_annotation_is_sign_extended() {
    let a = DebugAnnotation {
        name: "i".to_string(),
        value: AnnotationValue::Int(-1),
    };
    // int value: field 4, varint: key 0x20, then the ten-byte varint of
    // the 64-bit two's complement of -1.
    assert_eq!(
        wire::encode_annotation(&a),
        vec![
            0x52, 0x01, 0x69, 0x20, 0xFF, 0xFF, 0xFF, 0xFF, 0xFF, 0xFF, 0xFF, 0xFF, 0xFF,
            0x01
        ]
    );
}

#[test]
fn double_annotation_is_little_endian_bits() {
    let a = DebugAnnotation {
        name: "d".to_string(),
        value: AnnotationValue::DoubleBits(1.5f64.to_bits()),
    };
    // double value: field 5, fixed64: key 0x29, bits of 1.5 little-endian.
    assert_eq!(
        wire::encode_annotation(&a),
        vec![0x52, 0x01, 0x64, 0x29, 0x00, 0x00, 0x00, 0x00, 0x00, 0x00, 0xF8, 0x3F]
    );
}

#[test]
fn string_annotation_bytes() {
    let a = DebugAnnotation {
        name: "s".to_string(),
        value: AnnotationValue::Str("hi".to_string()),
    };
    // string value: field 6, length-delimited: key 0x32, length 2, "hi".
    assert_eq!(
        wire::encode_annotation(&a),
        vec![0x52, 0x01, 0x73, 0x32, 0x02, 0x68, 0x69]
    );
}
