//! Untyped descriptions: what a caller hands over where a message is
//! built from records of named values.

use vstd::prelude::*;

verus! {

/// A value of an untyped description, as a caller hands it over: text,
/// bytes, a record of named values, or anything else.
pub enum Value {
    /// A character string.
    Text(String),
    /// A byte string.
    Bytes(Vec<u8>),
    /// Named values. Where a name occurs twice, the first entry counts.
    Record(Vec<(String, Value)>),
    /// A value of any other kind.
    Other,
}

/// The mathematical value of a [`Value`].
pub enum ValueView {
    Text(Seq<char>),
    Bytes(Seq<u8>),
    Record(Seq<(Seq<char>, ValueView)>),
    Other,
}

/// The mathematical value of the entries of a record: each name with the
/// value under it, in their order.
pub open spec fn fields_view(fields: Seq<(String, Value)>) -> Seq<(Seq<char>, ValueView)>
    decreases fields,
{
    Seq::new(
        fields.len(),
        |i: int|
            if 0 <= i < fields.len() {
                (fields[i].0@, fields[i].1@)
            } else {
                (Seq::empty(), ValueView::Other)
            },
    )
}

impl View for Value {
    type V = ValueView;

    open spec fn view(&self) -> ValueView
        decreases self,
    {
        match self {
            Value::Text(text) => ValueView::Text(text@),
            Value::Bytes(bytes) => ValueView::Bytes(bytes@),
            Value::Record(fields) => ValueView::Record(fields_view(fields@)),
            Value::Other => ValueView::Other,
        }
    }
}

/// The value that `fields` holds under `key`: that of the first entry with
/// that name, if there is one.
pub open spec fn lookup(fields: Seq<(Seq<char>, ValueView)>, key: Seq<char>) -> Option<ValueView>
    decreases fields.len(),
{
    if fields.len() == 0 {
        None
    } else if fields[0].0 == key {
        Some(fields[0].1)
    } else {
        lookup(fields.drop_first(), key)
    }
}

/// Looks `key` up in `fields`.
pub fn find_field<'a>(fields: &'a Vec<(String, Value)>, key: &str) -> (found: Option<&'a Value>)
    ensures
        match found {
            Some(value) => lookup(fields_view(fields@), key@) == Some(value@),
            None => lookup(fields_view(fields@), key@) is None,
        },
{
    let ghost entries = fields_view(fields@);
    let wanted = key.to_owned();
    let n = fields.len();
    let mut i: usize = 0;
    assert(entries.skip(0) == entries);
    while i < n
        invariant
            i <= n,
            n == fields@.len(),
            entries == fields_view(fields@),
            wanted@ == key@,
            lookup(entries, key@) == lookup(entries.skip(i as int), key@),
        decreases n - i,
    {
        assert(entries.skip(i as int).drop_first() == entries.skip(i + 1));
        assert(entries.skip(i as int)[0] == (fields@[i as int].0@, fields@[i as int].1@));
        if fields[i].0 == wanted {
            return Some(&fields[i].1);
        }
        i += 1;
    }
    None
}

} // verus!
