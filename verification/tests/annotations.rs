use tracing_perfetto::AnnotationValue;
use tracing_perfetto::Field;
use tracing_perfetto::FieldValue;
use tracing_perfetto::annotation;
use tracing_perfetto::fields;

fn field(name: &str, value: FieldValue) -> Field {
    Field { name: name.to_string(), value }
}

#[test]
fn decimal_rendering_unsigned() {
    assert_eq!(annotation::u128_to_decimal(0), "0");
    assert_eq!(annotation::u128_to_decimal(7), "7");
    assert_eq!(annotation::u128_to_decimal(10), "10");
    assert_eq!(annotation::u128_to_decimal(12345), "12345");
    assert_eq!(
        annotation::u128_to_decimal(u128::MAX),
        "340282366920938463463374607431768211455"
    );
}

#[test]
fn decimal_rendering_signed() {
    assert_eq!(annotation::i128_to_decimal(0), "0");
    assert_eq!(annotation::i128_to_decimal(-1), "-1");
    assert_eq!(annotation::i128_to_decimal(-42), "-42");
    assert_eq!(annotation::i128_to_decimal(42), "42");
    assert_eq!(
        annotation::i128_to_decimal(i128::MIN),
        "-170141183460469231731687303715884105728"
    );
    assert_eq!(
        annotation::i128_to_decimal(i128::MAX),
        "170141183460469231731687303715884105727"
    );
}

#[test]
fn wide_integers_become_decimal_strings() {
    let a = annotation::render_annotation(&field("w", FieldValue::U128(u128::MAX)));
    match a.value {
        AnnotationValue::Str(s) => {
            assert_eq!(s, "340282366920938463463374607431768211455")
        }
        _ => panic!("a 128-bit integer must render as a string"),
    }

    let a = annotation::render_annotation(&field("w", FieldValue::I128(-5)));
    match a.value {
        AnnotationValue::Str(s) => assert_eq!(s, "-5"),
        _ => panic!("a 128-bit integer must render as a string"),
    }
}

#[test]
fn u64_above_signed_range_narrows_by_bit_reinterpretation() {
    let a = annotation::render_annotation(&field("n", FieldValue::U64(u64::MAX)));
    match a.value {
        AnnotationValue::Int(i) => assert_eq!(i, -1),
        _ => panic!("an unsigned 64-bit integer must render as an integer"),
    }

    let a = annotation::render_annotation(&field("n", FieldValue::U64(5)));
    match a.value {
        AnnotationValue::Int(i) => assert_eq!(i, 5),
        _ => panic!("an unsigned 64-bit integer must render as an integer"),
    }
}

#[test]
fn opaque_values_fall_back_to_their_text() {
    let a = annotation::render_annotation(&field("t", FieldValue::Text("Thing(3)".to_string())));
    assert_eq!(a.name, "t");
    match a.value {
        AnnotationValue::Str(s) => assert_eq!(s, "Thing(3)"),
        _ => panic!("an opaque value must render as its text"),
    }
}

#[test]
fn annotations_preserve_visit_order_and_duplicates() {
    let fields = vec![
        field("a", FieldValue::Bool(true)),
        field("b", FieldValue::I64(-3)),
        field("a", FieldValue::Str("again".to_string())),
    ];
    let rendered = annotation::collect_annotations(&fields);
    assert_eq!(rendered.len(), 3);
    assert_eq!(rendered[0].name, "a");
    assert_eq!(rendered[1].name, "b");
    assert_eq!(rendered[2].name, "a");
    assert!(matches!(rendered[0].value, AnnotationValue::Bool(true)));
    assert!(matches!(rendered[1].value, AnnotationValue::Int(-3)));
    assert!(matches!(&rendered[2].value, AnnotationValue::Str(s) if s == "again"));
}

#[test]
fn track_name_extraction_takes_the_last_string_field() {
    let result = fields::extract_track_name(&vec![
        field("perfetto.track_name", FieldValue::Str("first".to_string())),
        field("other", FieldValue::I64(1)),
        field("perfetto.track_name", FieldValue::Str("second".to_string())),
    ]);
    assert_eq!(result.as_deref(), Some("second"));

    let none = fields::extract_track_name(&vec![
        // A non-string value under the key is ignored.
        field("perfetto.track_name", FieldValue::I64(9)),
        field("other", FieldValue::Bool(false)),
    ]);
    assert!(none.is_none());
}
