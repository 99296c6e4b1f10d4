//! Structured values: the generic shape in which a tool receives its input.

use vstd::prelude::*;
use vstd::string::*;

verus! {

/// A structured payload, decoded only as far as its generic shape.
///
/// Numbers keep their decimal text; record fields keep the order in which
/// they were written, and a lookup by name finds the first field of that name.
#[derive(Debug, PartialEq, Eq)]
pub enum StructuredValue {
    Null,
    Bool(bool),
    Number(String),
    Text(String),
    List(Vec<StructuredValue>),
    Record(Vec<(String, StructuredValue)>),
}

/// The value of the first field called `key`, if any field has that name.
pub open spec fn first_field(fields: Seq<(String, StructuredValue)>, key: Seq<char>) -> Option<
    StructuredValue,
>
    decreases fields.len(),
{
    if fields.len() == 0 {
        None
    } else if fields[0].0@ == key {
        Some(fields[0].1)
    } else {
        first_field(fields.drop_first(), key)
    }
}

/// Whether `s` holds exactly the characters of `literal`.
pub fn text_is(s: &String, literal: &str) -> (same: bool)
    ensures
        same == (s@ == literal@),
{
    let other = String::from_str(literal);
    *s == other
}

/// Scans `fields` front to back for the first one called `key`.
fn find_field<'a>(fields: &'a Vec<(String, StructuredValue)>, key: &str) -> (found: Option<
    &'a StructuredValue,
>)
    ensures
        match found {
            Some(v) => first_field(fields@, key@) == Some(*v),
            None => first_field(fields@, key@) is None,
        },
{
    let mut i: usize = 0;
    assert(fields@.subrange(0, fields.len() as int) == fields@);
    while i < fields.len()
        invariant
            i <= fields.len(),
            first_field(fields@, key@) == first_field(
                fields@.subrange(i as int, fields.len() as int),
                key@,
            ),
        decreases fields.len() - i,
    {
        let ghost rest = fields@.subrange(i as int, fields.len() as int);
        assert(rest.len() > 0 && rest[0] == fields@[i as int]);
        assert(rest.drop_first() == fields@.subrange(i + 1, fields.len() as int));
        if text_is(&fields[i].0, key) {
            return Some(&fields[i].1);
        }
        i += 1;
    }
    None
}

impl StructuredValue {
    /// What a lookup of `key` yields: the first field of that name when the
    /// value is a record, nothing for any other shape.
    pub open spec fn spec_field(&self, key: Seq<char>) -> Option<StructuredValue> {
        match self {
            StructuredValue::Record(fields) => first_field(fields@, key),
            _ => None,
        }
    }

    /// The text held by a `Text` value, nothing for any other shape.
    pub open spec fn spec_text(&self) -> Option<String> {
        match self {
            StructuredValue::Text(t) => Some(*t),
            _ => None,
        }
    }

    /// Looks up a record field by name.
    pub fn field(&self, key: &str) -> (found: Option<&StructuredValue>)
        ensures
            match found {
                Some(v) => self.spec_field(key@) == Some(*v),
                None => self.spec_field(key@) is None,
            },
    {
        match self {
            StructuredValue::Record(fields) => find_field(fields, key),
            _ => None,
        }
    }

    /// The text of a `Text` value.
    pub fn as_text(&self) -> (text: Option<&String>)
        ensures
            match text {
                Some(t) => self.spec_text() == Some(*t),
                None => self.spec_text() is None,
            },
    {
        match self {
            StructuredValue::Text(t) => Some(t),
            _ => None,
        }
    }
}

} // verus!
