//! Typed field values as the host records them, the marker filter that
//! gates capture, and extraction of the user-chosen track name.

use vstd::prelude::*;

verus! {

/// One typed value recorded on a span or event field.
///
/// A double travels as its raw IEEE-754 bit pattern; an opaque value
/// arrives already rendered as text by the host.
pub enum FieldValue {
    Bool(bool),
    I64(i64),
    U64(u64),
    I128(i128),
    U128(u128),
    F64Bits(u64),
    Str(String),
    Text(String),
}

/// Mathematical image of a [`FieldValue`].
pub enum FieldValueView {
    Bool(bool),
    I64(i64),
    U64(u64),
    I128(int),
    U128(nat),
    F64Bits(u64),
    Str(Seq<char>),
    Text(Seq<char>),
}

impl View for FieldValue {
    type V = FieldValueView;

    open spec fn view(&self) -> FieldValueView {
        match self {
            FieldValue::Bool(b) => FieldValueView::Bool(*b),
            FieldValue::I64(i) => FieldValueView::I64(*i),
            FieldValue::U64(u) => FieldValueView::U64(*u),
            FieldValue::I128(i) => FieldValueView::I128(*i as int),
            FieldValue::U128(u) => FieldValueView::U128(*u as nat),
            FieldValue::F64Bits(b) => FieldValueView::F64Bits(*b),
            FieldValue::Str(s) => FieldValueView::Str(s@),
            FieldValue::Text(s) => FieldValueView::Text(s@),
        }
    }
}

/// A named field, in the order the host visited it.
pub struct Field {
    pub name: String,
    pub value: FieldValue,
}

/// Mathematical image of a [`Field`].
pub struct FieldView {
    pub name: Seq<char>,
    pub value: FieldValueView,
}

impl View for Field {
    type V = FieldView;

    open spec fn view(&self) -> FieldView {
        FieldView { name: self.name@, value: self.value@ }
    }
}

/// The image of a whole field list.
pub open spec fn fields_view(fields: Seq<Field>) -> Seq<FieldView> {
    fields.map_values(|f: Field| f@)
}

/// A predicate over field names that decides whether a span or event is
/// captured at all. The predicate must be pure: its spec-level meaning is
/// `spec_accepts`, and `accepts` must return exactly that.
pub trait FieldFilter {
    /// The predicate's meaning. An implementation overrides this together
    /// with `accepts`; by default nothing is accepted.
    open spec fn spec_accepts(&self, name: Seq<char>) -> bool {
        false
    }

    fn accepts(&self, name: &str) -> (r: bool)
        ensures
            r == self.spec_accepts(name@),
    ;
}

/// Built-in filter strategy: accept exactly the fields bearing one marker
/// name.
pub struct MarkerFilter {
    pub marker: String,
}

impl FieldFilter for MarkerFilter {
    open spec fn spec_accepts(&self, name: Seq<char>) -> bool {
        name == self.marker@
    }

    fn accepts(&self, name: &str) -> (r: bool) {
        let owned = name.to_owned();
        self.marker == owned
    }
}

/// Some field of `fields` has a name the filter accepts.
pub open spec fn some_field_accepted<F: FieldFilter>(filter: F, fields: Seq<FieldView>) -> bool {
    exists|i: int| 0 <= i < fields.len() && filter.spec_accepts(fields[i].name)
}

/// Visits every field name and reports whether any satisfies the filter;
/// the field's value is irrelevant. Pure and re-entrant.
pub fn filter_accepts_some<F: FieldFilter>(filter: &F, fields: &Vec<Field>) -> (r: bool)
    ensures
        r == some_field_accepted(*filter, fields_view(fields@)),
{
    let mut i: usize = 0;
    while i < fields.len()
        invariant
            0 <= i <= fields.len(),
            forall|j: int| 0 <= j < i ==> !filter.spec_accepts(fields_view(fields@)[j].name),
        decreases fields.len() - i,
    {
        if filter.accepts(fields[i].name.as_str()) {
            assert(filter.spec_accepts(fields_view(fields@)[i as int].name));
            return true;
        }
        i += 1;
    }
    false
}

/// The name of the field through which a user assigns a span to a named
/// track.
pub open spec fn track_name_key() -> Seq<char> {
    "perfetto.track_name"@
}

/// The value of the last string-typed field named `perfetto.track_name`,
/// if any.
pub open spec fn track_name_of(fields: Seq<FieldView>) -> Option<Seq<char>>
    decreases fields.len(),
{
    if fields.len() == 0 {
        None
    } else if fields.last().value is Str && fields.last().name == track_name_key() {
        Some(fields.last().value->Str_0)
    } else {
        track_name_of(fields.drop_last())
    }
}

/// Scans the fields for a user-chosen track name, later fields taking
/// precedence.
pub fn extract_track_name(fields: &Vec<Field>) -> (r: Option<String>)
    ensures
        match r {
            Some(name) => track_name_of(fields_view(fields@)) == Some(name@),
            None => track_name_of(fields_view(fields@)) is None,
        },
{
    let key: String = "perfetto.track_name".to_owned();
    let mut result: Option<String> = None;
    let mut i: usize = 0;
    while i < fields.len()
        invariant
            0 <= i <= fields.len(),
            key@ == track_name_key(),
            match result {
                Some(name) => track_name_of(fields_view(fields@).take(i as int)) == Some(name@),
                None => track_name_of(fields_view(fields@).take(i as int)) is None,
            },
        decreases fields.len() - i,
    {
        let ghost pre = fields_view(fields@).take(i as int);
        if let FieldValue::Str(s) = &fields[i].value {
            if fields[i].name == key {
                result = Some(s.clone());
            }
        }
        proof {
            let post = fields_view(fields@).take(i + 1 as int);
            assert(post.drop_last() =~= pre);
            assert(post.last() == fields_view(fields@)[i as int]);
        }
        i += 1;
    }
    proof {
        assert(fields_view(fields@).take(fields@.len() as int) =~= fields_view(fields@));
    }
    result
}

} // verus!
