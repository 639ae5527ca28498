use vstd::prelude::*;
use crate::error::{DecodeReason, FieldError, FieldErrorView};

verus! {

/// Whether `i` is the first column of the header `h` named `name`.
pub open spec fn first_column(h: Seq<Seq<char>>, name: Seq<char>, i: int) -> bool {
    &&& 0 <= i < h.len()
    &&& h[i] == name
    &&& forall|j: int| 0 <= j < i ==> #[trigger] h[j] != name
}

/// The raw value of column `name` in the row `v` under header `h`; `None` where
/// the header has no such column or the row is too short to hold it.
pub open spec fn cell(h: Seq<Seq<char>>, v: Seq<Seq<char>>, name: Seq<char>) -> Option<Seq<char>> {
    if exists|i: int| first_column(h, name, i) {
        let i = choose|i: int| first_column(h, name, i);
        if i < v.len() {
            Some(v[i])
        } else {
            None
        }
    } else {
        None
    }
}

/// The value of an optional column: absent where the column is missing or empty.
pub open spec fn filled(h: Seq<Seq<char>>, v: Seq<Seq<char>>, name: Seq<char>) -> Option<Seq<char>> {
    match cell(h, v, name) {
        Some(x) => if x.len() > 0 {
            Some(x)
        } else {
            None
        },
        None => None,
    }
}

/// The error for a required field without a value.
pub open spec fn missing_view(record_type: Seq<char>, field: Seq<char>) -> FieldErrorView {
    FieldErrorView::Missing { record_type, field }
}

/// The error for a value that its decoder refused.
pub open spec fn invalid_view(
    record_type: Seq<char>,
    field: Seq<char>,
    raw: Seq<char>,
    reason: DecodeReason,
) -> FieldErrorView {
    FieldErrorView::Invalid { record_type, field, raw, reason }
}

proof fn lemma_first_column_unique(h: Seq<Seq<char>>, name: Seq<char>, i: int, k: int)
    requires
        first_column(h, name, i),
        first_column(h, name, k),
    ensures
        i == k,
{
    if i < k {
        assert(h[i] != name);
    } else if k < i {
        assert(h[k] != name);
    }
}

/// The raw value of column `name` in the row `values` under `header`.
pub fn lookup<'a>(header: &Vec<String>, values: &'a Vec<String>, name: &str) -> (r: Option<&'a String>)
    ensures
        match r {
            Some(x) => cell(header.deep_view(), values.deep_view(), name@) == Some(x@),
            None => cell(header.deep_view(), values.deep_view(), name@) is None,
        },
{
    let ghost h = header.deep_view();
    let key = name.to_owned();
    let mut i: usize = 0;
    while i < header.len()
        invariant
            h == header.deep_view(),
            key@ == name@,
            i <= header.len(),
            forall|j: int| 0 <= j < i ==> #[trigger] h[j] != name@,
        decreases header.len() - i,
    {
        if header[i] == key {
            proof {
                assert(first_column(h, name@, i as int));
                let k = choose|k: int| first_column(h, name@, k);
                lemma_first_column_unique(h, name@, i as int, k);
            }
            if i < values.len() {
                return Some(&values[i]);
            } else {
                return None;
            }
        }
        i = i + 1;
    }
    assert(!exists|k: int| first_column(h, name@, k));
    None
}

/// The value of an optional column, absent where the column is missing or empty.
pub fn lookup_filled<'a>(header: &Vec<String>, values: &'a Vec<String>, name: &str) -> (r: Option<&'a String>)
    ensures
        match r {
            Some(x) => filled(header.deep_view(), values.deep_view(), name@) == Some(x@),
            None => filled(header.deep_view(), values.deep_view(), name@) is None,
        },
{
    match lookup(header, values, name) {
        Some(x) => if x.as_str().is_empty() {
            None
        } else {
            Some(x)
        },
        None => None,
    }
}

/// A `MissingRequiredField` error.
pub fn missing(record_type: &str, field: &str) -> (r: FieldError)
    ensures
        r@ == missing_view(record_type@, field@),
{
    FieldError::MissingRequiredField { record_type: record_type.to_owned(), field: field.to_owned() }
}

/// An `InvalidFieldValue` error.
pub fn invalid(record_type: &str, field: &str, raw: &String, reason: DecodeReason) -> (r: FieldError)
    ensures
        r@ == invalid_view(record_type@, field@, raw@, reason),
{
    FieldError::InvalidFieldValue {
        record_type: record_type.to_owned(),
        field: field.to_owned(),
        raw: raw.clone(),
        reason,
    }
}

} // verus!

verus! {

/// The raw value of a required column, or the error naming the field.
pub fn required<'a>(
    header: &Vec<String>,
    values: &'a Vec<String>,
    record_type: &str,
    field: &str,
    column: &str,
) -> (r: Result<&'a String, FieldError>)
    ensures
        match r {
            Ok(x) => cell(header.deep_view(), values.deep_view(), column@) == Some(x@),
            Err(e) => cell(header.deep_view(), values.deep_view(), column@) is None && e@
                == missing_view(record_type@, field@),
        },
{
    match lookup(header, values, column) {
        Some(x) => Ok(x),
        None => Err(missing(record_type, field)),
    }
}

/// The value of an optional text column, copied.
pub fn optional_text(header: &Vec<String>, values: &Vec<String>, column: &str) -> (r: Option<String>)
    ensures
        r.deep_view() == filled(header.deep_view(), values.deep_view(), column@),
{
    match lookup_filled(header, values, column) {
        Some(x) => Some(x.clone()),
        None => None,
    }
}

} // verus!
