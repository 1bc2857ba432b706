//! One namespace: entries under text keys, each of which may expire.
//!
//! Nothing sweeps a namespace in the background. An entry whose time has passed stays in
//! memory until somebody asks for its key; the operation that asks takes it out before it
//! answers, so no caller is ever shown such an entry.

use crate::assoc::{
    distinct_keys, lemma_pairs_push, lemma_pairs_remove, lemma_pairs_to_map, lemma_pairs_update,
    pairs_to_map,
};
use crate::value::{option_model, Value, ValueModel};
use vstd::prelude::*;

verus! {

/// What an [`Entry`] stands for.
pub struct EntryModel {
    pub value: ValueModel,
    /// The last second at which the entry is still there; `None` where it stays for good.
    pub expire_at: Option<nat>,
}

/// A stored value and the time at which it expires.
#[derive(Debug)]
pub struct Entry {
    pub value: Value,
    /// The last second at which the entry is still there; `None` where it stays for good.
    /// Held in 128 bits, so that any time of writing plus any time to live fits.
    pub expire_at: Option<u128>,
}

impl View for Entry {
    type V = EntryModel;

    open spec fn view(&self) -> EntryModel {
        EntryModel {
            value: self.value@,
            expire_at: match self.expire_at {
                Some(at) => Some(at as nat),
                None => None,
            },
        }
    }
}

/// What a namespace holds: its entries by key.
pub type Entries = Map<Seq<char>, EntryModel>;

/// When an entry written at `now` with `ttl_seconds` to live expires: never where
/// `ttl_seconds` is 0, else `ttl_seconds` after `now`.
pub open spec fn expiry(ttl_seconds: u64, now: u64) -> Option<nat> {
    if ttl_seconds == 0 {
        None
    } else {
        Some((now + ttl_seconds) as nat)
    }
}

/// The time of `entry` lies before `now`.
pub open spec fn is_expired(entry: EntryModel, now: u64) -> bool {
    entry.expire_at is Some && entry.expire_at->0 < now
}

/// `entries` has an entry under `key` that has not expired at `now`.
pub open spec fn is_live(entries: Entries, key: Seq<char>, now: u64) -> bool {
    entries.contains_key(key) && !is_expired(entries[key], now)
}

/// `entries` once somebody has looked at `key` at `now`: an expired entry under `key` is
/// gone, and nothing else has changed.
pub open spec fn sweep(entries: Entries, key: Seq<char>, now: u64) -> Entries {
    if entries.contains_key(key) && is_expired(entries[key], now) {
        entries.remove(key)
    } else {
        entries
    }
}

/// `entries` once `value` has been written under `key` at `now` with `ttl_seconds` to live.
pub open spec fn put(entries: Entries, key: Seq<char>, value: ValueModel, ttl_seconds: u64, now: u64)
    -> Entries {
    entries.insert(key, EntryModel { value, expire_at: expiry(ttl_seconds, now) })
}

/// What a reader of `key` at `now` is shown.
pub open spec fn read(entries: Entries, key: Seq<char>, now: u64) -> Option<ValueModel> {
    if is_live(entries, key, now) {
        Some(entries[key].value)
    } else {
        None
    }
}

impl Entry {
    /// An entry for `value`, written at `now` with `ttl_seconds` to live; 0 is forever.
    pub fn new(value: Value, ttl_seconds: u64, now: u64) -> (entry: Entry)
        ensures
            entry@ == (EntryModel { value: value@, expire_at: expiry(ttl_seconds, now) }),
    {
        let expire_at = if ttl_seconds == 0 {
            None
        } else {
            Some(now as u128 + ttl_seconds as u128)
        };
        Entry { value, expire_at }
    }

    /// Whether the time of this entry lies before `now`.
    pub fn is_expired(&self, now: u64) -> (gone: bool)
        ensures
            gone == is_expired(self@, now),
    {
        match self.expire_at {
            Some(at) => at < now as u128,
            None => false,
        }
    }
}

struct Slot {
    key: String,
    entry: Entry,
}

/// A named store of entries.
pub struct Namespace {
    name: String,
    slots: Vec<Slot>,
}

spec fn slot_pairs(slots: Seq<Slot>) -> Seq<(Seq<char>, EntryModel)> {
    Seq::new(slots.len(), |i: int| (slots[i].key@, slots[i].entry@))
}

impl View for Namespace {
    type V = Entries;

    closed spec fn view(&self) -> Entries {
        pairs_to_map(slot_pairs(self.slots@))
    }
}

impl Namespace {
    #[verifier::type_invariant]
    spec fn keys_are_distinct(self) -> bool {
        distinct_keys(slot_pairs(self.slots@))
    }

    /// The name of this namespace.
    pub closed spec fn name_model(self) -> Seq<char> {
        self.name@
    }

    /// An empty namespace called `name`.
    pub fn new(name: String) -> (namespace: Namespace)
        ensures
            namespace@ == Entries::empty(),
            namespace.name_model() == name@,
    {
        let namespace = Namespace { name, slots: Vec::new() };
        assert(slot_pairs(namespace.slots@) =~= Seq::empty());
        namespace
    }

    /// The name of this namespace.
    pub fn name(&self) -> (name: &String)
        ensures
            name@ == self.name_model(),
    {
        &self.name
    }

    /// Whether nothing is held, expired entries that nobody has asked for included.
    pub fn is_empty(&self) -> (empty: bool)
        ensures
            empty == (self@ == Entries::empty()),
    {
        proof {
            lemma_pairs_to_map(slot_pairs(self.slots@));
            if self.slots@.len() > 0 {
                assert(self@.contains_key(slot_pairs(self.slots@)[0].0));
            } else {
                assert(slot_pairs(self.slots@) =~= Seq::empty());
            }
        }
        self.slots.len() == 0
    }

    /// Where `key` stands among the slots.
    fn find(&self, key: &String) -> (at: Option<usize>)
        ensures
            at is Some <==> self@.contains_key(key@),
            at is Some ==> {
                &&& at->0 < self.slots@.len()
                &&& self.slots@[at->0 as int].key@ == key@
                &&& self.slots@[at->0 as int].entry@ == self@[key@]
            },
    {
        proof {
            use_type_invariant(self);
            lemma_pairs_to_map(slot_pairs(self.slots@));
        }
        let mut i: usize = 0;
        while i < self.slots.len()
            invariant
                i <= self.slots@.len(),
                forall|j: int| 0 <= j < i ==> (#[trigger] self.slots@[j]).key@ != key@,
            decreases self.slots@.len() - i,
        {
            if self.slots[i].key == *key {
                proof {
                    use_type_invariant(self);
                    let pairs = slot_pairs(self.slots@);
                    lemma_pairs_to_map(pairs);
                    assert(pairs[i as int].0 == key@);
                    assert(self@[pairs[i as int].0] == pairs[i as int].1);
                }
                return Some(i);
            }
            i += 1;
        }
        proof {
            let pairs = slot_pairs(self.slots@);
            if self@.contains_key(key@) {
                let j = choose|j: int| 0 <= j < pairs.len() && (#[trigger] pairs[j]).0 == key@;
                assert(self.slots@[j].key@ == key@);
            }
        }
        None
    }

    /// Hands the slots out, leaving none behind.
    fn take_slots(&mut self) -> (slots: Vec<Slot>)
        ensures
            slots == old(self).slots,
            distinct_keys(slot_pairs(slots@)),
            final(self).slots@.len() == 0,
            final(self).name == old(self).name,
    {
        proof {
            use_type_invariant(&*self);
        }
        let mut slots: Vec<Slot> = Vec::new();
        core::mem::swap(&mut self.slots, &mut slots);
        slots
    }

    /// Takes the slot at `at` out.
    fn take_out(&mut self, at: usize)
        requires
            at < old(self).slots@.len(),
        ensures
            final(self)@ == old(self)@.remove(old(self).slots@[at as int].key@),
            final(self).name_model() == old(self).name_model(),
    {
        let mut slots = self.take_slots();
        proof {
            let pairs = slot_pairs(slots@);
            lemma_pairs_remove(pairs, at as int);
            assert(slot_pairs(slots@.remove(at as int)) =~= pairs.remove(at as int));
        }
        slots.remove(at);
        self.slots = slots;
    }

    /// Writes `value` under `key`, in place of what was there. With `ttl_seconds` 0 the
    /// entry never expires; otherwise it expires `ttl_seconds` after `now`.
    pub fn set(&mut self, key: &str, value: Value, ttl_seconds: u64, now: u64)
        ensures
            final(self)@ == put(old(self)@, key@, value@, ttl_seconds, now),
            final(self).name_model() == old(self).name_model(),
    {
        let key = key.to_owned();
        let entry = Entry::new(value, ttl_seconds, now);
        match self.find(&key) {
            Some(at) => {
                let mut slots = self.take_slots();
                proof {
                    let pairs = slot_pairs(slots@);
                    let slot = Slot { key, entry };
                    lemma_pairs_update(pairs, at as int, entry@);
                    assert(slot_pairs(slots@.update(at as int, slot)) =~= pairs.update(
                        at as int,
                        (pairs[at as int].0, entry@),
                    ));
                }
                slots.set(at, Slot { key, entry });
                self.slots = slots;
            },
            None => {
                let mut slots = self.take_slots();
                proof {
                    let pairs = slot_pairs(slots@);
                    let slot = Slot { key, entry };
                    lemma_pairs_push(pairs, key@, entry@);
                    assert(slot_pairs(slots@.push(slot)) =~= pairs.push((key@, entry@)));
                }
                slots.push(Slot { key, entry });
                self.slots = slots;
            },
        }
    }

    /// Reads the value under `key`.
    ///
    /// Where there is no entry, or the entry has expired at `now`, the answer is `None`;
    /// an expired entry is taken out first. Otherwise the answer is a copy of the value,
    /// and nothing changes.
    pub fn get(&mut self, key: &str, now: u64) -> (found: Option<Value>)
        ensures
            final(self)@ == sweep(old(self)@, key@, now),
            option_model(found) == read(old(self)@, key@, now),
            final(self).name_model() == old(self).name_model(),
    {
        let key = key.to_owned();
        match self.find(&key) {
            None => None,
            Some(at) => {
                if self.slots[at].entry.is_expired(now) {
                    self.take_out(at);
                    None
                } else {
                    Some(self.slots[at].entry.value.clone())
                }
            },
        }
    }

    /// Takes the entry under `key` out, whatever its state, and says whether a caller
    /// could still have seen it at `now`: an entry that had expired counts as absent.
    pub fn delete(&mut self, key: &str, now: u64) -> (existed: bool)
        ensures
            final(self)@ == old(self)@.remove(key@),
            existed == is_live(old(self)@, key@, now),
            final(self).name_model() == old(self).name_model(),
    {
        let key = key.to_owned();
        match self.find(&key) {
            None => {
                assert(self@.remove(key@) =~= self@);
                false
            },
            Some(at) => {
                let existed = !self.slots[at].entry.is_expired(now);
                self.take_out(at);
                existed
            },
        }
    }

    /// Whether there is an entry under `key` that has not expired at `now`. An expired
    /// entry is taken out before the answer is given.
    pub fn contains_key(&mut self, key: &str, now: u64) -> (found: bool)
        ensures
            final(self)@ == sweep(old(self)@, key@, now),
            found == is_live(old(self)@, key@, now),
            final(self).name_model() == old(self).name_model(),
    {
        let key = key.to_owned();
        match self.find(&key) {
            None => false,
            Some(at) => {
                if self.slots[at].entry.is_expired(now) {
                    self.take_out(at);
                    false
                } else {
                    true
                }
            },
        }
    }
}

/// What is written can be read: from the moment an entry is written with a time to live
/// until that time is over, a reader of its key is shown its value, the key counts as
/// present, and the entry stays where it is.
pub proof fn law_written_entry_is_read(
    entries: Entries,
    key: Seq<char>,
    value: ValueModel,
    ttl_seconds: u64,
    now: u64,
    later: u64,
)
    requires
        ttl_seconds > 0,
        now <= later <= now + ttl_seconds,
    ensures
        read(put(entries, key, value, ttl_seconds, now), key, later) == Some(value),
        is_live(put(entries, key, value, ttl_seconds, now), key, later),
        sweep(put(entries, key, value, ttl_seconds, now), key, later) == put(
            entries,
            key,
            value,
            ttl_seconds,
            now,
        ),
{
}

/// An entry written with a time to live of 0 never expires: at whatever time somebody
/// asks, its value is shown and it stays where it is.
pub proof fn law_zero_ttl_never_expires(
    entries: Entries,
    key: Seq<char>,
    value: ValueModel,
    now: u64,
    later: u64,
)
    ensures
        read(put(entries, key, value, 0, now), key, later) == Some(value),
        is_live(put(entries, key, value, 0, now), key, later),
        sweep(put(entries, key, value, 0, now), key, later) == put(entries, key, value, 0, now),
{
}

/// Once the time to live of an entry is over, a reader of its key is shown nothing, the
/// key counts as absent, and whoever asked has taken the entry out: no later look at the
/// key, at any time, finds it.
pub proof fn law_expired_entry_is_gone(
    entries: Entries,
    key: Seq<char>,
    value: ValueModel,
    ttl_seconds: u64,
    now: u64,
    later: u64,
    afterwards: u64,
)
    requires
        ttl_seconds > 0,
        later > now + ttl_seconds,
    ensures
        read(put(entries, key, value, ttl_seconds, now), key, later) is None,
        !is_live(put(entries, key, value, ttl_seconds, now), key, later),
        !sweep(put(entries, key, value, ttl_seconds, now), key, later).contains_key(key),
        !is_live(sweep(put(entries, key, value, ttl_seconds, now), key, later), key, afterwards),
{
}

/// In whatever state a namespace is, and with no operation in between: a reader is shown
/// nothing of an entry whose time lies before the time of reading, and that entry is
/// gone afterwards, while every other entry is untouched.
pub proof fn law_expired_entry_is_never_read(entries: Entries, key: Seq<char>, now: u64)
    requires
        entries.contains_key(key),
        is_expired(entries[key], now),
    ensures
        read(entries, key, now) is None,
        sweep(entries, key, now) == entries.remove(key),
{
}

} // verus!
