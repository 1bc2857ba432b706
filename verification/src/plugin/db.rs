//! The access gateway: the only way from an extension, or from a protocol handler, to
//! the store.
//!
//! The gateway knows five verbs: open a namespace, and set, get, delete and test a key
//! in it. It lists no keys and shows no namespace. Each read goes through the operation
//! that takes an expired entry out before it answers, so nothing that has expired is
//! ever handed out, whether or not anybody has swept the store since.

use crate::error::GatewayFailure;
use crate::host::{
    host_of, law_convertible_is_storable, law_host_round_trip, law_round_trip,
    law_storable_is_convertible, option_host_model, value_of, HostField, HostModel, HostValue,
};
use crate::manager::{put_in, remove_in, select, sweep_in, Handle, Namespaces, StoreManager};
use crate::namespace::{is_expired, is_live, read};
use crate::value::{Value, ValueModel};
use vstd::prelude::*;

verus! {

/// The value type of the `doson` crate.
#[verifier::external_type_specification]
#[verifier::external_body]
pub struct ExDataValue(doson::DataValue);

/// What a `doson::DataValue` holds, written as a host value: `None` as nil, a number by
/// the bits of its double, a dictionary by its keys, a tuple by its two members, `Binary`
/// by its bytes.
pub uninterp spec fn data_value_model(value: doson::DataValue) -> HostModel;

/// What `doson::DataValue::from` reads out of a text.
pub uninterp spec fn doson_text_value(text: Seq<char>) -> HostModel;

/// `doson::DataValue::from` parses a text. What it returns holds the same whenever it
/// is given the same text.
pub assume_specification[ doson::DataValue::from ](data: &str) -> (value: doson::DataValue)
    ensures
        data_value_model(value) == doson_text_value(data@),
;

/// Rewrites a `doson::DataValue` as a host value, variant by variant. No table of the
/// result names a key twice, since `doson` keeps a dictionary in a hash map.
#[verifier::external_body]
fn host_value_of(value: doson::DataValue) -> (host: HostValue)
    ensures
        host@ == data_value_model(value),
        host.well_formed(),
{
    match value {
        doson::DataValue::None => HostValue::Nil,
        doson::DataValue::String(s) => HostValue::Text(s),
        doson::DataValue::Number(n) => HostValue::Number(n.to_bits()),
        doson::DataValue::Boolean(b) => HostValue::Boolean(b),
        doson::DataValue::List(l) => HostValue::List(l.into_iter().map(host_value_of).collect()),
        doson::DataValue::Dict(d) => HostValue::Table(
            d.into_iter().map(|(key, v)| HostField { key, value: host_value_of(v) }).collect(),
        ),
        doson::DataValue::Tuple(t) => HostValue::Tuple(vec![host_value_of(*t.0), host_value_of(*t.1)]),
        doson::DataValue::Binary(b) => HostValue::Bytes(b.read()),
    }
}

/// The gateway itself: the store manager behind the five verbs.
pub struct PluginDbManager {
    db: StoreManager,
}

impl View for PluginDbManager {
    type V = Namespaces;

    /// What the store behind the gateway holds.
    closed spec fn view(&self) -> Namespaces {
        self.db@
    }
}

/// One opened namespace: what an extension holds in order to work on it.
#[derive(Debug)]
pub struct PluginDbGroup {
    current: Handle,
}

impl View for PluginDbGroup {
    type V = Seq<char>;

    /// The name of the opened namespace.
    closed spec fn view(&self) -> Seq<char> {
        self.current@
    }
}

impl Clone for PluginDbGroup {
    fn clone(&self) -> (copy: Self)
        ensures
            copy@ == self@,
    {
        PluginDbGroup { current: self.current.clone() }
    }
}

/// What a reader is given for what it is shown: the host form of the value, or nothing.
pub open spec fn host_of_read(shown: Option<ValueModel>) -> Option<HostModel> {
    match shown {
        Some(v) => Some(host_of(v)),
        None => None,
    }
}

impl PluginDbManager {
    /// A gateway to `db`.
    pub fn init(db: StoreManager) -> (gateway: PluginDbManager)
        ensures
            gateway@ == db@,
    {
        PluginDbManager { db }
    }

    /// Opens the namespace `group`, creating it empty if there is none of that name.
    /// Opening never fails.
    pub fn open_group(&mut self, group: String) -> (opened: PluginDbGroup)
        ensures
            opened@ == group@,
            final(self)@ == select(old(self)@, group@),
    {
        let current = self.db.select_or_create(group.as_str());
        PluginDbGroup { current }
    }
}

impl PluginDbGroup {
    /// The name of the opened namespace.
    pub fn name(&self) -> (name: &String)
        ensures
            name@ == self@,
    {
        self.current.namespace()
    }

    /// Stores `value` under `key`, in place of what was there. With `expire` 0 the entry
    /// never expires; otherwise it expires `expire` seconds after `now`.
    ///
    /// Fails, and changes nothing, exactly if raw bytes are written somewhere in `value`
    /// or the store behind `db` has no namespace of this name.
    pub fn set(
        &self,
        db: &mut PluginDbManager,
        key: &str,
        value: &HostValue,
        expire: u64,
        now: u64,
    ) -> (done: Result<(), GatewayFailure>)
        ensures
            done is Ok <==> value.convertible() && old(db)@.contains_key(self@),
            done is Ok ==> value_of(value@) is Some && final(db)@ == put_in(
                old(db)@,
                self@,
                key@,
                value_of(value@)->0,
                expire,
                now,
            ),
            done is Err ==> final(db)@ == old(db)@,
    {
        match value.to_value() {
            Err(cause) => Err(GatewayFailure::from_error(cause)),
            Ok(stored) => match db.db.set(&self.current, key, stored, expire, now) {
                Err(cause) => Err(GatewayFailure::from_error(cause)),
                Ok(()) => Ok(()),
            },
        }
    }

    /// Stores under `key` the value that `text` spells out, as [`set`](Self::set) does.
    ///
    /// The text is read by `doson`: a number, `true` or `false`, a quoted string, a list
    /// in square brackets, a dictionary in braces, a pair in round brackets. A text that
    /// cannot be read is stored as nothing.
    ///
    /// Fails, and changes nothing, exactly if what the text spells out has no stored
    /// form or the store behind `db` has no namespace of this name.
    pub fn set_text(
        &self,
        db: &mut PluginDbManager,
        key: &str,
        text: &str,
        expire: u64,
        now: u64,
    ) -> (done: Result<(), GatewayFailure>)
        ensures
            done is Ok <==> value_of(doson_text_value(text@)) is Some && old(db)@.contains_key(self@),
            done is Ok ==> final(db)@ == put_in(
                old(db)@,
                self@,
                key@,
                value_of(doson_text_value(text@))->0,
                expire,
                now,
            ),
            done is Err ==> final(db)@ == old(db)@,
    {
        let value = host_value_of(doson::DataValue::from(text));
        proof {
            if value.convertible() {
                law_convertible_is_storable(value);
            }
            if value_of(value@) is Some {
                law_storable_is_convertible(value);
            }
        }
        self.set(db, key, &value, expire, now)
    }

    /// Reads the value under `key`, in its host form; `None` where there is none. (For
    /// a script, [`HostValue::or_nil`] turns `None` into nil.)
    ///
    /// An entry that has expired at `now` is never shown: it is taken out, and the answer
    /// is `None`.
    ///
    /// Fails, and changes nothing, exactly if the store behind `db` has no namespace of
    /// this name.
    pub fn get(
        &self,
        db: &mut PluginDbManager,
        key: &str,
        now: u64,
    ) -> (found: Result<Option<HostValue>, GatewayFailure>)
        ensures
            found is Ok <==> old(db)@.contains_key(self@),
            found is Ok ==> {
                &&& final(db)@ == sweep_in(old(db)@, self@, key@, now)
                &&& option_host_model(found->Ok_0) == host_of_read(
                    read(old(db)@[self@], key@, now),
                )
                &&& found->Ok_0 is Some ==> found->Ok_0->0.convertible()
            },
            found is Err ==> final(db)@ == old(db)@,
    {
        match db.db.get(&self.current, key, now) {
            Err(cause) => Err(GatewayFailure::from_error(cause)),
            Ok(None) => Ok(None),
            Ok(Some(value)) => Ok(Some(value.to_host())),
        }
    }

    /// Takes the entry under `key` out, whatever its state, and says whether a caller
    /// could still have seen it at `now`.
    ///
    /// Fails, and changes nothing, exactly if the store behind `db` has no namespace of
    /// this name.
    pub fn delete(
        &self,
        db: &mut PluginDbManager,
        key: &str,
        now: u64,
    ) -> (existed: Result<bool, GatewayFailure>)
        ensures
            existed is Ok <==> old(db)@.contains_key(self@),
            existed is Ok ==> {
                &&& final(db)@ == remove_in(old(db)@, self@, key@)
                &&& existed->Ok_0 == is_live(old(db)@[self@], key@, now)
            },
            existed is Err ==> final(db)@ == old(db)@,
    {
        match db.db.delete(&self.current, key, now) {
            Err(cause) => Err(GatewayFailure::from_error(cause)),
            Ok(existed) => Ok(existed),
        }
    }

    /// Whether there is an entry under `key` that has not expired at `now`. An expired
    /// entry is taken out before the answer is given. Scripts and the wire know this verb
    /// as `exists`.
    ///
    /// Fails, and changes nothing, exactly if the store behind `db` has no namespace of
    /// this name.
    pub fn exist(
        &self,
        db: &mut PluginDbManager,
        key: &str,
        now: u64,
    ) -> (found: Result<bool, GatewayFailure>)
        ensures
            found is Ok <==> old(db)@.contains_key(self@),
            found is Ok ==> {
                &&& final(db)@ == sweep_in(old(db)@, self@, key@, now)
                &&& found->Ok_0 == is_live(old(db)@[self@], key@, now)
            },
            found is Err ==> final(db)@ == old(db)@,
    {
        match db.db.contains_key(&self.current, key, now) {
            Err(cause) => Err(GatewayFailure::from_error(cause)),
            Ok(found) => Ok(found),
        }
    }
}

/// Whatever value is handed to the gateway and read back while its entry is there comes
/// back as it went in: of the same kind, with the same items in the same order and the
/// same values under the same keys.
pub proof fn law_stored_value_comes_back(
    spaces: Namespaces,
    name: Seq<char>,
    key: Seq<char>,
    value: Value,
    expire: u64,
    now: u64,
    later: u64,
)
    requires
        expire == 0 || now <= later <= now + expire,
    ensures
        value_of(host_of(value@)) == Some(value@),
        host_of_read(read(put_in(spaces, name, key, value@, expire, now)[name], key, later)) == Some(
            host_of(value@),
        ),
{
    law_round_trip(value);
}

/// Whatever host value is handed to the gateway and read back while its entry is there
/// comes back as it was handed in.
pub proof fn law_handed_value_comes_back(
    spaces: Namespaces,
    name: Seq<char>,
    key: Seq<char>,
    value: HostValue,
    expire: u64,
    now: u64,
    later: u64,
)
    requires
        value.convertible(),
        expire == 0 || now <= later <= now + expire,
    ensures
        value_of(value@) is Some,
        host_of_read(
            read(put_in(spaces, name, key, value_of(value@)->0, expire, now)[name], key, later),
        ) == Some(value@),
{
    law_convertible_is_storable(value);
    law_host_round_trip(value);
}

/// The gateway never hands out what has expired. In whatever state the store is, and
/// whether or not anything has looked at the entry since its time passed: a reader of an
/// expired entry is given nothing, and the entry is gone afterwards.
pub proof fn law_expired_value_is_never_handed_out(
    spaces: Namespaces,
    name: Seq<char>,
    key: Seq<char>,
    now: u64,
)
    requires
        spaces.contains_key(name),
        spaces[name].contains_key(key),
        is_expired(spaces[name][key], now),
    ensures
        host_of_read(read(spaces[name], key, now)) is None,
        !sweep_in(spaces, name, key, now)[name].contains_key(key),
        !is_live(sweep_in(spaces, name, key, now)[name], key, now),
{
}

} // verus!
