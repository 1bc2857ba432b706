//! The values that the store holds, and what each of them stands for.

use crate::assoc::{distinct_keys, pairs_to_map};
use vstd::prelude::*;

verus! {

/// One named member of a [`Value::Dict`].
#[derive(Debug, PartialEq)]
pub struct Field {
    pub key: String,
    pub value: Value,
}

/// Every value that can be stored.
#[derive(Debug, PartialEq)]
pub enum Value {
    Null,
    Boolean(bool),
    /// A number, held as the 64 bits of its IEEE 754 double.
    Number(u64),
    String(String),
    List(Vec<Value>),
    /// A mapping from text to values: the order of the fields carries no meaning, and each
    /// key is meant to stand once. Where one stands twice, the later field counts.
    Dict(Vec<Field>),
    Tuple(Vec<Value>),
}

/// What a [`Value`] stands for.
pub enum ValueModel {
    Null,
    Boolean(bool),
    Number(u64),
    String(Seq<char>),
    List(Seq<ValueModel>),
    Dict(Map<Seq<char>, ValueModel>),
    Tuple(Seq<ValueModel>),
}

/// The models of `items`, in order.
pub open spec fn list_model(items: Seq<Value>) -> Seq<ValueModel>
    decreases items,
{
    Seq::new(
        items.len(),
        |i: int|
            if 0 <= i < items.len() {
                value_model(items[i])
            } else {
                ValueModel::Null
            },
    )
}

/// Key and model of each of `fields`, in order.
pub open spec fn field_pairs(fields: Seq<Field>) -> Seq<(Seq<char>, ValueModel)>
    decreases fields,
{
    Seq::new(
        fields.len(),
        |i: int|
            if 0 <= i < fields.len() {
                (fields[i].key@, value_model(fields[i].value))
            } else {
                (Seq::empty(), ValueModel::Null)
            },
    )
}

/// What `v` stands for.
pub open spec fn value_model(v: Value) -> ValueModel
    decreases v,
{
    match v {
        Value::Null => ValueModel::Null,
        Value::Boolean(b) => ValueModel::Boolean(b),
        Value::Number(bits) => ValueModel::Number(bits),
        Value::String(s) => ValueModel::String(s@),
        Value::List(items) => ValueModel::List(list_model(items@)),
        Value::Dict(fields) => ValueModel::Dict(pairs_to_map(field_pairs(fields@))),
        Value::Tuple(items) => ValueModel::Tuple(list_model(items@)),
    }
}

impl View for Value {
    type V = ValueModel;

    open spec fn view(&self) -> ValueModel {
        value_model(*self)
    }
}

/// What an optional value stands for.
pub open spec fn option_model(value: Option<Value>) -> Option<ValueModel> {
    match value {
        Some(v) => Some(v@),
        None => None,
    }
}

impl Value {
    /// No dictionary inside this value names a key twice.
    pub open spec fn well_formed(self) -> bool
        decreases self,
    {
        match self {
            Value::List(items) => forall|i: int|
                0 <= i < items@.len() ==> (#[trigger] items@[i]).well_formed(),
            Value::Tuple(items) => forall|i: int|
                0 <= i < items@.len() ==> (#[trigger] items@[i]).well_formed(),
            Value::Dict(fields) => {
                &&& distinct_keys(field_pairs(fields@))
                &&& forall|i: int| 0 <= i < fields@.len() ==> (#[trigger] fields@[i]).value.well_formed()
            },
            _ => true,
        }
    }
}

/// Copies of `items`, in order.
fn clone_items(items: &Vec<Value>) -> (copies: Vec<Value>)
    ensures
        list_model(copies@) == list_model(items@),
    decreases items,
{
    let mut copies: Vec<Value> = Vec::new();
    let mut i: usize = 0;
    while i < items.len()
        invariant
            i <= items.len(),
            copies@.len() == i,
            forall|j: int| 0 <= j < i ==> value_model(#[trigger] copies@[j]) == value_model(items@[j]),
        decreases items.len() - i,
    {
        copies.push(items[i].clone());
        i += 1;
    }
    assert(list_model(copies@) =~= list_model(items@));
    copies
}

/// Copies of `fields`, in order.
fn clone_fields(fields: &Vec<Field>) -> (copies: Vec<Field>)
    ensures
        field_pairs(copies@) == field_pairs(fields@),
    decreases fields,
{
    let mut copies: Vec<Field> = Vec::new();
    let mut i: usize = 0;
    while i < fields.len()
        invariant
            i <= fields.len(),
            copies@.len() == i,
            forall|j: int|
                0 <= j < i ==> (#[trigger] copies@[j]).key@ == fields@[j].key@ && value_model(
                    copies@[j].value,
                ) == value_model(fields@[j].value),
        decreases fields.len() - i,
    {
        let field = &fields[i];
        copies.push(Field { key: field.key.clone(), value: field.value.clone() });
        i += 1;
    }
    assert(field_pairs(copies@) =~= field_pairs(fields@));
    copies
}

impl Clone for Value {
    /// A copy that stands for the same value.
    fn clone(&self) -> (copy: Self)
        ensures
            copy@ == self@,
        decreases self,
    {
        match self {
            Value::Null => Value::Null,
            Value::Boolean(b) => Value::Boolean(*b),
            Value::Number(bits) => Value::Number(*bits),
            Value::String(s) => Value::String(s.clone()),
            Value::List(items) => Value::List(clone_items(items)),
            Value::Dict(fields) => Value::Dict(clone_fields(fields)),
            Value::Tuple(items) => Value::Tuple(clone_items(items)),
        }
    }
}

} // verus!
