//! Reading request fields the way the handlers do.
use vstd::prelude::*;
use crate::field::{Field, FieldId, FieldModel, FieldValue};
use crate::transaction::{Transaction, first_with_id};

verus! {

/// The last field with identifier `id`.
pub open spec fn last_with_id(fs: Seq<FieldModel>, id: FieldId) -> Option<FieldModel>
    decreases fs.len(),
{
    if fs.len() == 0 {
        None
    } else if fs.last().id == id {
        Some(fs.last())
    } else {
        last_with_id(fs.drop_last(), id)
    }
}

/// The integer of the last integer field with identifier `id`.
pub open spec fn last_int_with_id(fs: Seq<FieldModel>, id: FieldId) -> Option<i32>
    decreases fs.len(),
{
    if fs.len() == 0 {
        None
    } else if fs.last().id == id && fs.last().value is Integer {
        Some(fs.last().value->Integer_0)
    } else {
        last_int_with_id(fs.drop_last(), id)
    }
}

/// The integer of the first integer field with identifier `id`.
pub open spec fn first_int_with_id(fs: Seq<FieldModel>, id: FieldId) -> Option<i32>
    decreases fs.len(),
{
    if fs.len() == 0 {
        None
    } else if fs[0].id == id && fs[0].value is Integer {
        Some(fs[0].value->Integer_0)
    } else {
        first_int_with_id(fs.drop_first(), id)
    }
}

/// The bytes of a field, if it is a bytes field.
pub open spec fn bytes_of(f: Option<FieldModel>) -> Option<Seq<u8>> {
    match f {
        Some(m) => match m.value {
            FieldValue::Bytes(b) => Some(b),
            _ => None,
        },
        None => None,
    }
}

/// The text of a field, if it is a text field.
pub open spec fn text_of(f: Option<FieldModel>) -> Option<Seq<char>> {
    match f {
        Some(m) => match m.value {
            FieldValue::Text(t) => Some(t),
            _ => None,
        },
        None => None,
    }
}

/// The integer of a field, if it is an integer field.
pub open spec fn int_of(f: Option<FieldModel>) -> Option<i32> {
    match f {
        Some(m) => match m.value {
            FieldValue::Integer(v) => Some(v),
            _ => None,
        },
        None => None,
    }
}

/// The last field of `t` with identifier `id`.
pub fn last_field(t: &Transaction, id: FieldId) -> (r: Option<&Field>)
    ensures
        r.is_some() == last_with_id(t@.fields, id).is_some(),
        r matches Some(f) ==> last_with_id(t@.fields, id) == Some(f@),
{
    let mut i: usize = t.fields.len();
    assert(t@.fields.take(i as int) =~= t@.fields);
    while i > 0
        invariant
            i <= t.fields@.len(),
            last_with_id(t@.fields, id) == last_with_id(t@.fields.take(i as int), id),
        decreases i,
    {
        let ghost pre = t@.fields.take(i as int);
        assert(pre.last() == t.fields@[i - 1]@);
        if t.fields[i - 1].id == id {
            return Some(&t.fields[i - 1]);
        }
        assert(pre.drop_last() =~= t@.fields.take(i - 1));
        i -= 1;
    }
    None
}

/// The integer of the last integer field of `t` with identifier `id`.
pub fn last_int(t: &Transaction, id: FieldId) -> (r: Option<i32>)
    ensures
        r == last_int_with_id(t@.fields, id),
{
    let mut i: usize = t.fields.len();
    assert(t@.fields.take(i as int) =~= t@.fields);
    while i > 0
        invariant
            i <= t.fields@.len(),
            last_int_with_id(t@.fields, id) == last_int_with_id(t@.fields.take(i as int), id),
        decreases i,
    {
        let ghost pre = t@.fields.take(i as int);
        assert(pre.last() == t.fields@[i - 1]@);
        if t.fields[i - 1].id == id {
            match t.fields[i - 1].as_integer() {
                Some(v) => {
                    return Some(v);
                },
                None => {},
            }
        }
        assert(pre.drop_last() =~= t@.fields.take(i - 1));
        i -= 1;
    }
    None
}

/// The integer of the first integer field of `t` with identifier `id`.
pub fn first_int(t: &Transaction, id: FieldId) -> (r: Option<i32>)
    ensures
        r == first_int_with_id(t@.fields, id),
{
    let mut i: usize = 0;
    let ghost fs = t@.fields;
    assert(fs.subrange(0, fs.len() as int) =~= fs);
    while i < t.fields.len()
        invariant
            fs == t@.fields,
            i <= fs.len(),
            first_int_with_id(fs, id) == first_int_with_id(fs.subrange(i as int, fs.len() as int), id),
        decreases fs.len() - i,
    {
        let ghost rest = fs.subrange(i as int, fs.len() as int);
        assert(rest[0] == t.fields@[i as int]@);
        if t.fields[i].id == id {
            match t.fields[i].as_integer() {
                Some(v) => {
                    return Some(v);
                },
                None => {},
            }
        }
        assert(rest.drop_first() =~= fs.subrange(i + 1, fs.len() as int));
        i += 1;
    }
    None
}

/// The first field of `t` with identifier `id`.
pub fn first_field(t: &Transaction, id: FieldId) -> (r: Option<&Field>)
    ensures
        r.is_some() == first_with_id(t@.fields, id).is_some(),
        r matches Some(f) ==> first_with_id(t@.fields, id) == Some(f@),
{
    t.get_field(id)
}

} // verus!
