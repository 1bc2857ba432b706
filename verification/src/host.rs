//! Values as they cross the boundary of the store, and the conversion in both directions.
//!
//! A caller of the access gateway does not hand over or receive a [`Value`]. It speaks in
//! [`HostValue`]s, which can also hold what the store has no place for. Going out, every
//! `Value` has its host form; coming in, a host value is taken or refused as a whole.

use crate::error::StoreError;
use crate::assoc::{
    distinct_keys, lemma_pairs_to_map, lemma_pairs_to_map_values, pairs_to_map,
};
use crate::value::{field_pairs, list_model, Field, Value, ValueModel};
use vstd::prelude::*;

verus! {

/// One named member of a [`HostValue::Table`].
#[derive(Debug, PartialEq)]
pub struct HostField {
    pub key: String,
    pub value: HostValue,
}

/// A value on the caller's side of the boundary.
#[derive(Debug, PartialEq)]
pub enum HostValue {
    Nil,
    Boolean(bool),
    /// A number, held as the 64 bits of its IEEE 754 double.
    Number(u64),
    Text(String),
    List(Vec<HostValue>),
    /// A mapping from text to values. Where a key stands twice, the later field counts.
    Table(Vec<HostField>),
    Tuple(Vec<HostValue>),
    /// Raw bytes. The store holds none: a value with bytes in it cannot be stored.
    Bytes(Vec<u8>),
}

/// What a [`HostValue`] stands for.
pub enum HostModel {
    Nil,
    Boolean(bool),
    Number(u64),
    Text(Seq<char>),
    List(Seq<HostModel>),
    Table(Map<Seq<char>, HostModel>),
    Tuple(Seq<HostModel>),
    Bytes(Seq<u8>),
}

/// The models of `items`, in order.
pub open spec fn host_list_model(items: Seq<HostValue>) -> Seq<HostModel>
    decreases items,
{
    Seq::new(
        items.len(),
        |i: int|
            if 0 <= i < items.len() {
                host_model(items[i])
            } else {
                HostModel::Nil
            },
    )
}

/// Key and model of each of `fields`, in order.
pub open spec fn host_field_pairs(fields: Seq<HostField>) -> Seq<(Seq<char>, HostModel)>
    decreases fields,
{
    Seq::new(
        fields.len(),
        |i: int|
            if 0 <= i < fields.len() {
                (fields[i].key@, host_model(fields[i].value))
            } else {
                (Seq::empty(), HostModel::Nil)
            },
    )
}

/// What `h` stands for.
pub open spec fn host_model(h: HostValue) -> HostModel
    decreases h,
{
    match h {
        HostValue::Nil => HostModel::Nil,
        HostValue::Boolean(b) => HostModel::Boolean(b),
        HostValue::Number(bits) => HostModel::Number(bits),
        HostValue::Text(s) => HostModel::Text(s@),
        HostValue::List(items) => HostModel::List(host_list_model(items@)),
        HostValue::Table(fields) => HostModel::Table(pairs_to_map(host_field_pairs(fields@))),
        HostValue::Tuple(items) => HostModel::Tuple(host_list_model(items@)),
        HostValue::Bytes(bytes) => HostModel::Bytes(bytes@),
    }
}

impl View for HostValue {
    type V = HostModel;

    open spec fn view(&self) -> HostModel {
        host_model(*self)
    }
}

/// What an optional host value stands for.
pub open spec fn option_host_model(value: Option<HostValue>) -> Option<HostModel> {
    match value {
        Some(h) => Some(h@),
        None => None,
    }
}

/// What a script is given for what a reader found: the value, or nil for nothing.
pub open spec fn nil_if_absent(found: Option<HostModel>) -> HostModel {
    match found {
        Some(h) => h,
        None => HostModel::Nil,
    }
}

impl HostValue {
    /// What a script is given for what a reader found: the value itself, or nil where
    /// nothing was found. A script cannot tell a stored null from no entry; a caller
    /// that has to, keeps the `Option`.
    pub fn or_nil(found: Option<HostValue>) -> (host: HostValue)
        ensures
            host@ == nil_if_absent(option_host_model(found)),
    {
        match found {
            Some(value) => value,
            None => HostValue::Nil,
        }
    }

    /// No table inside this value names a key twice.
    pub open spec fn well_formed(self) -> bool
        decreases self,
    {
        match self {
            HostValue::List(items) => forall|i: int|
                0 <= i < items@.len() ==> (#[trigger] items@[i]).well_formed(),
            HostValue::Tuple(items) => forall|i: int|
                0 <= i < items@.len() ==> (#[trigger] items@[i]).well_formed(),
            HostValue::Table(fields) => {
                &&& distinct_keys(host_field_pairs(fields@))
                &&& forall|i: int| 0 <= i < fields@.len() ==> (#[trigger] fields@[i]).value.well_formed()
            },
            _ => true,
        }
    }

    /// Nothing written in this value is raw bytes.
    pub open spec fn convertible(self) -> bool
        decreases self,
    {
        match self {
            HostValue::Bytes(_) => false,
            HostValue::List(items) => forall|i: int|
                0 <= i < items@.len() ==> (#[trigger] items@[i]).convertible(),
            HostValue::Tuple(items) => forall|i: int|
                0 <= i < items@.len() ==> (#[trigger] items@[i]).convertible(),
            HostValue::Table(fields) => forall|i: int|
                0 <= i < fields@.len() ==> (#[trigger] fields@[i]).value.convertible(),
            _ => true,
        }
    }
}

/// The host form of a stored value: each kind of value has its own kind of host value,
/// lists and tuples keep their items in order, and a dictionary keeps its keys. (A
/// dictionary of infinitely many keys, which no stored value stands for, is given the
/// empty table.)
pub open spec fn host_of(v: ValueModel) -> HostModel
    decreases v,
{
    match v {
        ValueModel::Null => HostModel::Nil,
        ValueModel::Boolean(b) => HostModel::Boolean(b),
        ValueModel::Number(bits) => HostModel::Number(bits),
        ValueModel::String(s) => HostModel::Text(s),
        ValueModel::List(items) => HostModel::List(
            Seq::new(
                items.len(),
                |i: int|
                    if 0 <= i < items.len() {
                        host_of(items[i])
                    } else {
                        HostModel::Nil
                    },
            ),
        ),
        ValueModel::Dict(m) => if m.dom().finite() {
            HostModel::Table(
                Map::new(
                    |k: Seq<char>| m.contains_key(k),
                    |k: Seq<char>|
                        if m.contains_key(k) {
                            host_of(m[k])
                        } else {
                            HostModel::Nil
                        },
                ),
            )
        } else {
            HostModel::Table(Map::empty())
        },
        ValueModel::Tuple(items) => HostModel::Tuple(
            Seq::new(
                items.len(),
                |i: int|
                    if 0 <= i < items.len() {
                        host_of(items[i])
                    } else {
                        HostModel::Nil
                    },
            ),
        ),
    }
}

/// Every item of `items` has a stored form.
pub open spec fn all_storable(items: Seq<HostModel>) -> bool
    decreases items, 1nat,
{
    forall|i: int| 0 <= i < items.len() ==> value_of(#[trigger] items[i]) is Some
}

/// The stored forms of `items`, in order.
pub open spec fn stored_items(items: Seq<HostModel>) -> Seq<ValueModel>
    decreases items, 1nat,
{
    Seq::new(
        items.len(),
        |i: int|
            if 0 <= i < items.len() {
                value_of(items[i]).unwrap()
            } else {
                ValueModel::Null
            },
    )
}

/// The stored form of a host value, where it has one: bytes have none, and a list, a
/// tuple or a table has one exactly if everything in it has.
pub open spec fn value_of(h: HostModel) -> Option<ValueModel>
    decreases h, 0nat,
{
    match h {
        HostModel::Nil => Some(ValueModel::Null),
        HostModel::Boolean(b) => Some(ValueModel::Boolean(b)),
        HostModel::Number(bits) => Some(ValueModel::Number(bits)),
        HostModel::Text(s) => Some(ValueModel::String(s)),
        HostModel::List(items) => if all_storable(items) {
            Some(ValueModel::List(stored_items(items)))
        } else {
            None
        },
        HostModel::Table(m) => if m.dom().finite() && (forall|k: Seq<char>| #[trigger]
            m.contains_key(k) ==> value_of(m[k]) is Some) {
            Some(
                ValueModel::Dict(
                    Map::new(
                        |k: Seq<char>| m.contains_key(k),
                        |k: Seq<char>|
                            if m.contains_key(k) {
                                value_of(m[k]).unwrap()
                            } else {
                                ValueModel::Null
                            },
                    ),
                ),
            )
        } else {
            None
        },
        HostModel::Tuple(items) => if all_storable(items) {
            Some(ValueModel::Tuple(stored_items(items)))
        } else {
            None
        },
        HostModel::Bytes(_) => None,
    }
}

/// The host forms of `items`, in order.
fn to_host_items(items: &Vec<Value>) -> (hosts: Vec<HostValue>)
    ensures
        hosts@.len() == items@.len(),
        forall|j: int|
            #![trigger items@[j]]
            #![trigger hosts@[j]]
            0 <= j < items@.len() ==> {
                &&& hosts@[j]@ == host_of(items@[j]@)
                &&& hosts@[j].convertible()
                &&& items@[j].well_formed() ==> hosts@[j].well_formed()
            },
    decreases items,
{
    let mut hosts: Vec<HostValue> = Vec::new();
    let mut i: usize = 0;
    while i < items.len()
        invariant
            i <= items.len(),
            hosts@.len() == i,
            forall|j: int|
                #![trigger items@[j]]
                #![trigger hosts@[j]]
                0 <= j < i ==> {
                    &&& hosts@[j]@ == host_of(items@[j]@)
                    &&& hosts@[j].convertible()
                    &&& items@[j].well_formed() ==> hosts@[j].well_formed()
                },
        decreases items.len() - i,
    {
        hosts.push(items[i].to_host());
        i += 1;
    }
    hosts
}

/// The host forms of `fields`, in order and under the same keys.
fn to_host_fields(fields: &Vec<Field>) -> (hosts: Vec<HostField>)
    ensures
        hosts@.len() == fields@.len(),
        forall|j: int|
            #![trigger fields@[j]]
            #![trigger hosts@[j]]
            0 <= j < fields@.len() ==> {
                &&& hosts@[j].key@ == fields@[j].key@
                &&& hosts@[j].value@ == host_of(fields@[j].value@)
                &&& hosts@[j].value.convertible()
                &&& fields@[j].value.well_formed() ==> hosts@[j].value.well_formed()
            },
    decreases fields,
{
    let mut hosts: Vec<HostField> = Vec::new();
    let mut i: usize = 0;
    while i < fields.len()
        invariant
            i <= fields.len(),
            hosts@.len() == i,
            forall|j: int|
                #![trigger fields@[j]]
                #![trigger hosts@[j]]
                0 <= j < i ==> {
                    &&& hosts@[j].key@ == fields@[j].key@
                    &&& hosts@[j].value@ == host_of(fields@[j].value@)
                    &&& hosts@[j].value.convertible()
                    &&& fields@[j].value.well_formed() ==> hosts@[j].value.well_formed()
                },
        decreases fields.len() - i,
    {
        let field = &fields[i];
        hosts.push(HostField { key: field.key.clone(), value: field.value.to_host() });
        i += 1;
    }
    hosts
}

impl Value {
    /// Converts a stored value to its host form, by the kind of value it is.
    ///
    /// The result always has a stored form again, and names no key twice where `self`
    /// names none twice.
    pub fn to_host(&self) -> (host: HostValue)
        ensures
            host@ == host_of(self@),
            host.convertible(),
            self.well_formed() ==> host.well_formed(),
        decreases self,
    {
        match self {
            Value::Null => HostValue::Nil,
            Value::Boolean(b) => HostValue::Boolean(*b),
            Value::Number(bits) => HostValue::Number(*bits),
            Value::String(s) => HostValue::Text(s.clone()),
            Value::List(items) => {
                let hosts = to_host_items(items);
                let host = HostValue::List(hosts);
                assert(host@ =~= host_of(self@)) by {
                    assert(host_list_model(hosts@) =~= host_of(self@)->List_0);
                }
                host
            },
            Value::Dict(fields) => {
                let hosts = to_host_fields(fields);
                let host = HostValue::Table(hosts);
                proof {
                    let from = field_pairs(fields@);
                    let to = host_field_pairs(hosts@);
                    lemma_pairs_to_map(from);
                    lemma_pairs_to_map_values(from, to, |v: ValueModel| host_of(v));
                    assert(pairs_to_map(to) =~= host_of(self@)->Table_0);
                    if self.well_formed() {
                        assert forall|i: int, j: int| 0 <= i < j < to.len() implies (#[trigger] to[i]).0
                            != (#[trigger] to[j]).0 by {
                            assert(from[i].0 != from[j].0);
                        }
                    }
                }
                host
            },
            Value::Tuple(items) => {
                let hosts = to_host_items(items);
                let host = HostValue::Tuple(hosts);
                assert(host@ =~= host_of(self@)) by {
                    assert(host_list_model(hosts@) =~= host_of(self@)->Tuple_0);
                }
                host
            },
        }
    }
}

/// The stored forms of `items`, in order, unless one of them has none.
fn to_value_items(items: &Vec<HostValue>) -> (values: Option<Vec<Value>>)
    ensures
        values is Some <==> forall|j: int| 0 <= j < items@.len() ==> (#[trigger] items@[j]).convertible(),
        values is Some ==> {
            &&& values->0@.len() == items@.len()
            &&& forall|j: int|
                #![trigger items@[j]]
                #![trigger values->0@[j]]
                0 <= j < items@.len() ==> {
                    &&& value_of(items@[j]@) == Some(values->0@[j]@)
                    &&& items@[j].well_formed() ==> values->0@[j].well_formed()
                }
        },
    decreases items,
{
    let mut values: Vec<Value> = Vec::new();
    let mut i: usize = 0;
    while i < items.len()
        invariant
            i <= items.len(),
            values@.len() == i,
            forall|j: int| 0 <= j < i ==> (#[trigger] items@[j]).convertible(),
            forall|j: int|
                #![trigger items@[j]]
                #![trigger values@[j]]
                0 <= j < i ==> {
                    &&& value_of(items@[j]@) == Some(values@[j]@)
                    &&& items@[j].well_formed() ==> values@[j].well_formed()
                },
        decreases items.len() - i,
    {
        match items[i].to_value() {
            Ok(value) => {
                values.push(value);
            },
            Err(_) => {
                assert(!items@[i as int].convertible());
                return None;
            },
        }
        i += 1;
    }
    Some(values)
}

/// The stored forms of `fields`, in order and under the same keys, unless one of them
/// has none.
fn to_value_fields(fields: &Vec<HostField>) -> (values: Option<Vec<Field>>)
    ensures
        values is Some <==> forall|j: int|
            0 <= j < fields@.len() ==> (#[trigger] fields@[j]).value.convertible(),
        values is Some ==> {
            &&& values->0@.len() == fields@.len()
            &&& forall|j: int|
                #![trigger fields@[j]]
                #![trigger values->0@[j]]
                0 <= j < fields@.len() ==> {
                    &&& values->0@[j].key@ == fields@[j].key@
                    &&& value_of(fields@[j].value@) == Some(values->0@[j].value@)
                    &&& fields@[j].value.well_formed() ==> values->0@[j].value.well_formed()
                }
        },
    decreases fields,
{
    let mut values: Vec<Field> = Vec::new();
    let mut i: usize = 0;
    while i < fields.len()
        invariant
            i <= fields.len(),
            values@.len() == i,
            forall|j: int| 0 <= j < i ==> (#[trigger] fields@[j]).value.convertible(),
            forall|j: int|
                #![trigger fields@[j]]
                #![trigger values@[j]]
                0 <= j < i ==> {
                    &&& values@[j].key@ == fields@[j].key@
                    &&& value_of(fields@[j].value@) == Some(values@[j].value@)
                    &&& fields@[j].value.well_formed() ==> values@[j].value.well_formed()
                },
        decreases fields.len() - i,
    {
        let field = &fields[i];
        match field.value.to_value() {
            Ok(value) => {
                values.push(Field { key: field.key.clone(), value });
            },
            Err(_) => {
                assert(!fields@[i as int].value.convertible());
                return None;
            },
        }
        i += 1;
    }
    Some(values)
}

impl HostValue {
    /// Converts a host value to the value that is stored for it, by the kind of value
    /// it is.
    ///
    /// The conversion fails, with [`StoreError::ValueConversionFailure`], exactly if raw
    /// bytes are written anywhere in `self`. Otherwise the result is the stored form of
    /// what `self` stands for.
    pub fn to_value(&self) -> (value: Result<Value, StoreError>)
        ensures
            value is Ok <==> self.convertible(),
            value is Ok ==> value_of(self@) == Some(value->Ok_0@) && (self.well_formed()
                ==> value->Ok_0.well_formed()),
            value is Err ==> value->Err_0 == StoreError::ValueConversionFailure,
        decreases self,
    {
        match self {
            HostValue::Nil => Ok(Value::Null),
            HostValue::Boolean(b) => Ok(Value::Boolean(*b)),
            HostValue::Number(bits) => Ok(Value::Number(*bits)),
            HostValue::Text(s) => Ok(Value::String(s.clone())),
            HostValue::List(items) => match to_value_items(items) {
                Some(values) => {
                    let value = Value::List(values);
                    proof {
                        let models = host_list_model(items@);
                        assert(all_storable(models));
                        assert(list_model(values@) =~= stored_items(models));
                    }
                    Ok(value)
                },
                None => Err(StoreError::ValueConversionFailure),
            },
            HostValue::Table(fields) => match to_value_fields(fields) {
                Some(values) => {
                    let value = Value::Dict(values);
                    proof {
                        let from = host_field_pairs(fields@);
                        let to = field_pairs(values@);
                        let m = pairs_to_map(from);
                        lemma_pairs_to_map(from);
                        lemma_pairs_to_map_values(from, to, |h: HostModel| value_of(h).unwrap());
                        assert forall|k: Seq<char>| #[trigger] m.contains_key(k) implies value_of(
                            m[k],
                        ) is Some by {
                            let i = choose|i: int|
                                0 <= i < from.len() && (#[trigger] from[i]).0 == k && m[k] == from[i].1;
                            assert(value_of(fields@[i].value@) is Some);
                        }
                        assert(pairs_to_map(to) =~= value_of(self@)->0->Dict_0);
                        if self.well_formed() {
                            assert forall|i: int, j: int| 0 <= i < j < to.len() implies (
                            #[trigger] to[i]).0 != (#[trigger] to[j]).0 by {
                                assert(from[i].0 != from[j].0);
                            }
                        }
                    }
                    Ok(value)
                },
                None => Err(StoreError::ValueConversionFailure),
            },
            HostValue::Tuple(items) => match to_value_items(items) {
                Some(values) => {
                    let value = Value::Tuple(values);
                    proof {
                        let models = host_list_model(items@);
                        assert(all_storable(models));
                        assert(list_model(values@) =~= stored_items(models));
                    }
                    Ok(value)
                },
                None => Err(StoreError::ValueConversionFailure),
            },
            HostValue::Bytes(_) => Err(StoreError::ValueConversionFailure),
        }
    }
}

impl HostValue {
    /// Whether this value can be stored: whether no raw bytes are written anywhere in it.
    pub fn is_convertible(&self) -> (yes: bool)
        ensures
            yes == self.convertible(),
        decreases self,
    {
        match self {
            HostValue::Bytes(_) => false,
            HostValue::List(items) => all_convertible(items),
            HostValue::Tuple(items) => all_convertible(items),
            HostValue::Table(fields) => all_fields_convertible(fields),
            _ => true,
        }
    }
}

/// Whether what each of `fields` holds can be stored.
fn all_fields_convertible(fields: &Vec<HostField>) -> (yes: bool)
    ensures
        yes == forall|j: int| 0 <= j < fields@.len() ==> (#[trigger] fields@[j]).value.convertible(),
    decreases fields,
{
    let mut i: usize = 0;
    while i < fields.len()
        invariant
            i <= fields.len(),
            forall|j: int| 0 <= j < i ==> (#[trigger] fields@[j]).value.convertible(),
        decreases fields.len() - i,
    {
        if !fields[i].value.is_convertible() {
            return false;
        }
        i += 1;
    }
    true
}

/// Whether each of `items` can be stored.
fn all_convertible(items: &Vec<HostValue>) -> (yes: bool)
    ensures
        yes == forall|j: int| 0 <= j < items@.len() ==> (#[trigger] items@[j]).convertible(),
    decreases items,
{
    let mut i: usize = 0;
    while i < items.len()
        invariant
            i <= items.len(),
            forall|j: int| 0 <= j < i ==> (#[trigger] items@[j]).convertible(),
        decreases items.len() - i,
    {
        if !items[i].is_convertible() {
            return false;
        }
        i += 1;
    }
    true
}

/// A value that goes out and comes back in is the value that went out: the host form of
/// any stored value has a stored form, and that is the value itself, of the same kind,
/// with the same items in the same order and the same values under the same keys.
pub proof fn law_round_trip(v: Value)
    ensures
        value_of(host_of(v@)) == Some(v@),
    decreases v,
{
    match v {
        Value::List(items) => {
            let models = list_model(items@);
            let hosts = host_of(v@)->List_0;
            assert forall|i: int| 0 <= i < hosts.len() implies value_of(#[trigger] hosts[i]) == Some(
                models[i],
            ) by {
                law_round_trip(items@[i]);
            }
            assert(all_storable(hosts));
            assert(stored_items(hosts) =~= models);
        },
        Value::Tuple(items) => {
            let models = list_model(items@);
            let hosts = host_of(v@)->Tuple_0;
            assert forall|i: int| 0 <= i < hosts.len() implies value_of(#[trigger] hosts[i]) == Some(
                models[i],
            ) by {
                law_round_trip(items@[i]);
            }
            assert(all_storable(hosts));
            assert(stored_items(hosts) =~= models);
        },
        Value::Dict(fields) => {
            let pairs = field_pairs(fields@);
            let m = pairs_to_map(pairs);
            let table = host_of(v@)->Table_0;
            lemma_pairs_to_map(pairs);
            assert(table.dom() =~= m.dom());
            assert forall|k: Seq<char>| #[trigger] table.contains_key(k) implies value_of(table[k])
                == Some(m[k]) by {
                let i = choose|i: int| 0 <= i < pairs.len() && (#[trigger] pairs[i]).0 == k && m[k] == pairs[i].1;
                law_round_trip(fields@[i].value);
            }
            assert(value_of(host_of(v@))->0->Dict_0 =~= m);
        },
        _ => {},
    }
}

/// A host value that comes in and goes back out is the value that came in: where a host
/// value has a stored form, the host form of that is the host value itself.
pub proof fn law_host_round_trip(h: HostValue)
    requires
        value_of(h@) is Some,
    ensures
        host_of(value_of(h@)->0) == h@,
    decreases h,
{
    match h {
        HostValue::List(items) => {
            let hosts = host_list_model(items@);
            assert(all_storable(hosts));
            let stored = stored_items(hosts);
            assert(stored.len() == hosts.len());
            let back = host_of(value_of(h@)->0)->List_0;
            assert forall|i: int| 0 <= i < hosts.len() implies #[trigger] back[i] == hosts[i] by {
                assert(value_of(hosts[i]) is Some);
                assert(stored[i] == value_of(hosts[i])->0);
                law_host_round_trip(items@[i]);
            }
            assert(back =~= hosts);
        },
        HostValue::Tuple(items) => {
            let hosts = host_list_model(items@);
            assert(all_storable(hosts));
            let stored = stored_items(hosts);
            assert(stored.len() == hosts.len());
            let back = host_of(value_of(h@)->0)->Tuple_0;
            assert forall|i: int| 0 <= i < hosts.len() implies #[trigger] back[i] == hosts[i] by {
                assert(value_of(hosts[i]) is Some);
                assert(stored[i] == value_of(hosts[i])->0);
                law_host_round_trip(items@[i]);
            }
            assert(back =~= hosts);
        },
        HostValue::Table(fields) => {
            let pairs = host_field_pairs(fields@);
            let m = pairs_to_map(pairs);
            lemma_pairs_to_map(pairs);
            let stored = value_of(h@)->0->Dict_0;
            assert(stored.dom() =~= m.dom());
            let back = host_of(value_of(h@)->0)->Table_0;
            assert forall|k: Seq<char>| #[trigger] m.contains_key(k) implies back[k] == m[k] by {
                let i = choose|i: int| 0 <= i < pairs.len() && (#[trigger] pairs[i]).0 == k && m[k] == pairs[i].1;
                assert(value_of(m[k]) is Some);
                law_host_round_trip(fields@[i].value);
            }
            assert(back =~= m);
        },
        _ => {},
    }
}

/// A host value in which no raw bytes are written has a stored form.
pub proof fn law_convertible_is_storable(h: HostValue)
    requires
        h.convertible(),
    ensures
        value_of(h@) is Some,
    decreases h,
{
    match h {
        HostValue::List(items) => {
            assert forall|i: int| 0 <= i < items@.len() implies value_of(
                #[trigger] host_list_model(items@)[i],
            ) is Some by {
                law_convertible_is_storable(items@[i]);
            }
            assert(all_storable(host_list_model(items@)));
        },
        HostValue::Tuple(items) => {
            assert forall|i: int| 0 <= i < items@.len() implies value_of(
                #[trigger] host_list_model(items@)[i],
            ) is Some by {
                law_convertible_is_storable(items@[i]);
            }
            assert(all_storable(host_list_model(items@)));
        },
        HostValue::Table(fields) => {
            let pairs = host_field_pairs(fields@);
            let m = pairs_to_map(pairs);
            lemma_pairs_to_map(pairs);
            assert forall|k: Seq<char>| #[trigger] m.contains_key(k) implies value_of(m[k]) is Some by {
                let i = choose|i: int| 0 <= i < pairs.len() && (#[trigger] pairs[i]).0 == k && m[k] == pairs[i].1;
                law_convertible_is_storable(fields@[i].value);
            }
        },
        _ => {},
    }
}

/// Among host values that name no key twice, exactly those without raw bytes have a
/// stored form.
pub proof fn law_storable_is_convertible(h: HostValue)
    requires
        h.well_formed(),
        value_of(h@) is Some,
    ensures
        h.convertible(),
    decreases h,
{
    match h {
        HostValue::List(items) => {
            assert(all_storable(host_list_model(items@)));
            assert forall|i: int| 0 <= i < items@.len() implies (#[trigger] items@[i]).convertible() by {
                assert(value_of(host_list_model(items@)[i]) is Some);
                law_storable_is_convertible(items@[i]);
            }
        },
        HostValue::Tuple(items) => {
            assert(all_storable(host_list_model(items@)));
            assert forall|i: int| 0 <= i < items@.len() implies (#[trigger] items@[i]).convertible() by {
                assert(value_of(host_list_model(items@)[i]) is Some);
                law_storable_is_convertible(items@[i]);
            }
        },
        HostValue::Table(fields) => {
            let pairs = host_field_pairs(fields@);
            let m = pairs_to_map(pairs);
            lemma_pairs_to_map(pairs);
            assert forall|i: int| 0 <= i < fields@.len() implies (#[trigger] fields@[i]).value.convertible() by {
                assert(m.contains_key(pairs[i].0));
                assert(m[pairs[i].0] == pairs[i].1);
                law_storable_is_convertible(fields@[i].value);
            }
        },
        _ => {},
    }
}

} // verus!
