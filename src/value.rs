use vstd::prelude::*;

use crate::record::TagValues;

verus! {

/// A value in the guest language's model. A float is an IEEE-754
/// single-precision bit pattern.
#[derive(Debug)]
pub enum GuestValue {
    Nil,
    Bool(bool),
    Integer(i64),
    Float(u32),
    Text(String),
    List(Vec<GuestValue>),
    Table(Vec<TableEntry>),
}

/// One keyed entry of a guest table.
#[derive(Debug)]
pub struct TableEntry {
    pub key: String,
    pub value: GuestValue,
}

/// `g` is a list holding exactly `items`.
pub open spec fn is_list_of(g: GuestValue, items: Seq<GuestValue>) -> bool {
    g matches GuestValue::List(v) && v@ == items
}

pub open spec fn values_len(v: TagValues) -> nat {
    match v {
        TagValues::Integer(x) => x@.len(),
        TagValues::Float(x) => x@.len(),
        TagValues::Text(x) => x@.len(),
        TagValues::Flag => 1,
    }
}

/// The guest value of the `k`-th (0-based) of the values.
pub open spec fn scalar_at(v: TagValues, k: int) -> GuestValue {
    match v {
        TagValues::Integer(x) => GuestValue::Integer(x@[k] as i64),
        TagValues::Float(x) => GuestValue::Float(x@[k]),
        TagValues::Text(x) => GuestValue::Text(x@[k]),
        TagValues::Flag => GuestValue::Bool(true),
    }
}

/// The guest values of all the values, in order.
pub open spec fn values_seq(v: TagValues) -> Seq<GuestValue> {
    Seq::new(values_len(v), |k: int| scalar_at(v, k))
}

/// The first value, or nil when there is none.
pub open spec fn first_scalar(v: TagValues) -> GuestValue {
    if values_len(v) > 0 {
        scalar_at(v, 0)
    } else {
        GuestValue::Nil
    }
}

pub(crate) fn values_count(v: &TagValues) -> (n: usize)
    ensures
        n == values_len(*v),
{
    match v {
        TagValues::Integer(x) => x.len(),
        TagValues::Float(x) => x.len(),
        TagValues::Text(x) => x.len(),
        TagValues::Flag => 1,
    }
}

pub(crate) fn scalar(v: &TagValues, k: usize) -> (g: GuestValue)
    requires
        k < values_len(*v),
    ensures
        g == scalar_at(*v, k as int),
{
    match v {
        TagValues::Integer(x) => GuestValue::Integer(x[k] as i64),
        TagValues::Float(x) => GuestValue::Float(x[k]),
        TagValues::Text(x) => GuestValue::Text(x[k].clone()),
        TagValues::Flag => GuestValue::Bool(true),
    }
}

pub(crate) fn first_value(v: &TagValues) -> (g: GuestValue)
    ensures
        g == first_scalar(*v),
{
    if values_count(v) > 0 {
        scalar(v, 0)
    } else {
        GuestValue::Nil
    }
}

pub(crate) fn values_list(v: &TagValues) -> (g: GuestValue)
    ensures
        is_list_of(g, values_seq(*v)),
{
    let n = values_count(v);
    let mut items: Vec<GuestValue> = Vec::new();
    for k in 0..n
        invariant
            n == values_len(*v),
            items@ =~= Seq::new(k as nat, |j: int| scalar_at(*v, j)),
    {
        items.push(scalar(v, k));
    }
    GuestValue::List(items)
}

} // verus!
