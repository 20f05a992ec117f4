//! Rendering typed field values into uniform debug-annotation records.
//!
//! The mapping is total and lossless except for two documented cases:
//! 128-bit integers become their exact decimal string, and unsigned 64-bit
//! integers are narrowed into signed 64-bit integers by reinterpreting the
//! bit pattern.

use vstd::prelude::*;

use crate::fields::Field;
use crate::fields::FieldValue;
use crate::fields::FieldValueView;
use crate::fields::FieldView;
use crate::fields::fields_view;

verus! {

/// The typed payload of a debug annotation. A double is carried as its raw
/// IEEE-754 bit pattern.
pub enum AnnotationValue {
    Bool(bool),
    Int(i64),
    DoubleBits(u64),
    Str(String),
}

/// Mathematical image of an [`AnnotationValue`].
pub enum AnnotationValueView {
    Bool(bool),
    Int(i64),
    DoubleBits(u64),
    Str(Seq<char>),
}

impl View for AnnotationValue {
    type V = AnnotationValueView;

    open spec fn view(&self) -> AnnotationValueView {
        match self {
            AnnotationValue::Bool(b) => AnnotationValueView::Bool(*b),
            AnnotationValue::Int(i) => AnnotationValueView::Int(*i),
            AnnotationValue::DoubleBits(b) => AnnotationValueView::DoubleBits(*b),
            AnnotationValue::Str(s) => AnnotationValueView::Str(s@),
        }
    }
}

/// A name together with one typed value, attached to a track event.
pub struct DebugAnnotation {
    pub name: String,
    pub value: AnnotationValue,
}

/// Mathematical image of a [`DebugAnnotation`].
pub struct DebugAnnotationView {
    pub name: Seq<char>,
    pub value: AnnotationValueView,
}

impl View for DebugAnnotation {
    type V = DebugAnnotationView;

    open spec fn view(&self) -> DebugAnnotationView {
        DebugAnnotationView { name: self.name@, value: self.value@ }
    }
}

/// The image of a whole annotation list.
pub open spec fn annotations_view(annotations: Seq<DebugAnnotation>) -> Seq<DebugAnnotationView> {
    annotations.map_values(|a: DebugAnnotation| a@)
}

/// The decimal digit for `d`.
pub open spec fn digit_char(d: int) -> char {
    if d == 0 {
        '0'
    } else if d == 1 {
        '1'
    } else if d == 2 {
        '2'
    } else if d == 3 {
        '3'
    } else if d == 4 {
        '4'
    } else if d == 5 {
        '5'
    } else if d == 6 {
        '6'
    } else if d == 7 {
        '7'
    } else if d == 8 {
        '8'
    } else {
        '9'
    }
}

/// The decimal digit string of a nonnegative integer, most significant
/// digit first, with no leading zeros (a single `0` for zero).
pub open spec fn decimal_digits(n: nat) -> Seq<char>
    decreases n,
{
    if n < 10 {
        seq![digit_char(n as int)]
    } else {
        decimal_digits(n / 10).push(digit_char((n % 10) as int))
    }
}

/// The decimal string of an integer: the digit string, prefixed with `-`
/// for negative values.
pub open spec fn decimal_string(n: int) -> Seq<char> {
    if n >= 0 {
        decimal_digits(n as nat)
    } else {
        seq!['-'] + decimal_digits((-n) as nat)
    }
}

fn digit_str(d: u8) -> (r: &'static str)
    requires
        d < 10,
    ensures
        r@ == seq![digit_char(d as int)],
{
    if d == 0 {
        proof {
            reveal_strlit("0");
            assert("0"@ =~= seq![digit_char(0)]);
        }
        "0"
    } else if d == 1 {
        proof {
            reveal_strlit("1");
            assert("1"@ =~= seq![digit_char(1)]);
        }
        "1"
    } else if d == 2 {
        proof {
            reveal_strlit("2");
            assert("2"@ =~= seq![digit_char(2)]);
        }
        "2"
    } else if d == 3 {
        proof {
            reveal_strlit("3");
            assert("3"@ =~= seq![digit_char(3)]);
        }
        "3"
    } else if d == 4 {
        proof {
            reveal_strlit("4");
            assert("4"@ =~= seq![digit_char(4)]);
        }
        "4"
    } else if d == 5 {
        proof {
            reveal_strlit("5");
            assert("5"@ =~= seq![digit_char(5)]);
        }
        "5"
    } else if d == 6 {
        proof {
            reveal_strlit("6");
            assert("6"@ =~= seq![digit_char(6)]);
        }
        "6"
    } else if d == 7 {
        proof {
            reveal_strlit("7");
            assert("7"@ =~= seq![digit_char(7)]);
        }
        "7"
    } else if d == 8 {
        proof {
            reveal_strlit("8");
            assert("8"@ =~= seq![digit_char(8)]);
        }
        "8"
    } else {
        proof {
            reveal_strlit("9");
            assert("9"@ =~= seq![digit_char(9)]);
        }
        "9"
    }
}

/// Renders an unsigned 128-bit integer as its exact decimal string.
pub fn u128_to_decimal(n: u128) -> (r: String)
    ensures
        r@ == decimal_digits(n as nat),
    decreases n,
{
    if n < 10 {
        let s = digit_str(n as u8);
        s.to_owned()
    } else {
        let mut s = u128_to_decimal(n / 10);
        s.append(digit_str((n % 10) as u8));
        s
    }
}

/// Renders a signed 128-bit integer as its exact decimal string.
pub fn i128_to_decimal(n: i128) -> (r: String)
    ensures
        r@ == decimal_string(n as int),
{
    if n >= 0 {
        u128_to_decimal(n as u128)
    } else {
        let magnitude: u128 = ((-(n + 1)) as u128) + 1;
        assert(magnitude as nat == -(n as int));
        let mut s: String = "-".to_owned();
        proof {
            reveal_strlit("-");
            assert(s@ =~= seq!['-']);
        }
        let digits = u128_to_decimal(magnitude);
        s.append(digits.as_str());
        s
    }
}

/// The annotation value a field value renders to.
pub open spec fn annotation_value_of(v: FieldValueView) -> AnnotationValueView {
    match v {
        FieldValueView::Bool(b) => AnnotationValueView::Bool(b),
        FieldValueView::I64(i) => AnnotationValueView::Int(i),
        FieldValueView::U64(u) => AnnotationValueView::Int(u as i64),
        FieldValueView::I128(i) => AnnotationValueView::Str(decimal_string(i)),
        FieldValueView::U128(u) => AnnotationValueView::Str(decimal_digits(u)),
        FieldValueView::F64Bits(b) => AnnotationValueView::DoubleBits(b),
        FieldValueView::Str(s) => AnnotationValueView::Str(s),
        FieldValueView::Text(s) => AnnotationValueView::Str(s),
    }
}

/// The annotation record a field renders to: the field's name with its
/// rendered value.
pub open spec fn annotation_of(f: FieldView) -> DebugAnnotationView {
    DebugAnnotationView { name: f.name, value: annotation_value_of(f.value) }
}

/// The ordered annotation list of a whole field list.
pub open spec fn annotations_of(fields: Seq<FieldView>) -> Seq<DebugAnnotationView> {
    fields.map_values(|f: FieldView| annotation_of(f))
}

/// Renders one field into its annotation record.
pub fn render_annotation(field: &Field) -> (r: DebugAnnotation)
    ensures
        r@ == annotation_of(field@),
{
    let value = match &field.value {
        FieldValue::Bool(b) => AnnotationValue::Bool(*b),
        FieldValue::I64(i) => AnnotationValue::Int(*i),
        FieldValue::U64(u) => AnnotationValue::Int(#[verifier::truncate] (*u as i64)),
        FieldValue::I128(i) => AnnotationValue::Str(i128_to_decimal(*i)),
        FieldValue::U128(u) => AnnotationValue::Str(u128_to_decimal(*u)),
        FieldValue::F64Bits(b) => AnnotationValue::DoubleBits(*b),
        FieldValue::Str(s) => AnnotationValue::Str(s.clone()),
        FieldValue::Text(s) => AnnotationValue::Str(s.clone()),
    };
    DebugAnnotation { name: field.name.clone(), value }
}

/// Appends one annotation per field to `out`, preserving the order the
/// fields were visited. Duplicate names simply appear as distinct entries.
pub fn append_annotations(out: &mut Vec<DebugAnnotation>, fields: &Vec<Field>)
    ensures
        annotations_view(final(out)@) == annotations_view(old(out)@) + annotations_of(
            fields_view(fields@),
        ),
{
    let mut i: usize = 0;
    while i < fields.len()
        invariant
            0 <= i <= fields.len(),
            annotations_view(out@) == annotations_view(old(out)@) + annotations_of(
                fields_view(fields@).take(i as int),
            ),
        decreases fields.len() - i,
    {
        let ghost pre = out@;
        let a = render_annotation(&fields[i]);
        out.push(a);
        proof {
            assert(annotations_view(out@) =~= annotations_view(pre).push(a@));
            assert(fields_view(fields@).take(i + 1 as int).drop_last() =~= fields_view(
                fields@,
            ).take(i as int));
            assert(annotations_of(fields_view(fields@).take(i + 1 as int)) =~= annotations_of(
                fields_view(fields@).take(i as int),
            ).push(annotation_of(fields_view(fields@)[i as int])));
            assert(annotations_view(out@) =~= annotations_view(old(out)@) + annotations_of(
                fields_view(fields@).take(i + 1 as int),
            ));
        }
        i += 1;
    }
    proof {
        assert(fields_view(fields@).take(fields@.len() as int) =~= fields_view(fields@));
    }
}

/// Renders a whole field list into a fresh annotation list.
pub fn collect_annotations(fields: &Vec<Field>) -> (r: Vec<DebugAnnotation>)
    ensures
        annotations_view(r@) == annotations_of(fields_view(fields@)),
{
    let mut out: Vec<DebugAnnotation> = Vec::new();
    append_annotations(&mut out, fields);
    proof {
        assert(annotations_view(Seq::<DebugAnnotation>::empty()) =~= Seq::<
            DebugAnnotationView,
        >::empty());
        assert(annotations_view(out@) =~= annotations_of(fields_view(fields@)));
    }
    out
}

} // verus!
