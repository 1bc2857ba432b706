//! The store manager: every namespace of the store, by name.
//!
//! A caller never holds a namespace. It holds a [`Handle`], which names one, and hands it
//! to the manager with each operation. Every operation takes the manager by `&mut`: while
//! one runs no other can, whichever namespaces the two work on.

use crate::assoc::{
    distinct_keys, lemma_pairs_push, lemma_pairs_to_map, lemma_pairs_update, pairs_to_map,
};
use crate::error::StoreError;
use crate::namespace::{is_live, put, read, sweep, Entries, Namespace};
use crate::value::{option_model, Value, ValueModel};
use vstd::prelude::*;

verus! {

/// What a store holds: the entries of each namespace, by its name.
pub type Namespaces = Map<Seq<char>, Entries>;

/// `spaces` once `name` has been selected: a namespace that was not there is there and
/// empty, and nothing else has changed.
pub open spec fn select(spaces: Namespaces, name: Seq<char>) -> Namespaces {
    if spaces.contains_key(name) {
        spaces
    } else {
        spaces.insert(name, Entries::empty())
    }
}

/// `spaces` once `value` has been written under `key` in the namespace `name`.
pub open spec fn put_in(
    spaces: Namespaces,
    name: Seq<char>,
    key: Seq<char>,
    value: ValueModel,
    ttl_seconds: u64,
    now: u64,
) -> Namespaces {
    spaces.insert(name, put(spaces[name], key, value, ttl_seconds, now))
}

/// `spaces` once somebody has looked at `key` in the namespace `name` at `now`.
pub open spec fn sweep_in(spaces: Namespaces, name: Seq<char>, key: Seq<char>, now: u64) -> Namespaces {
    spaces.insert(name, sweep(spaces[name], key, now))
}

/// `spaces` once `key` has been taken out of the namespace `name`.
pub open spec fn remove_in(spaces: Namespaces, name: Seq<char>, key: Seq<char>) -> Namespaces {
    spaces.insert(name, spaces[name].remove(key))
}

/// The selection of one namespace, produced by [`StoreManager::select_or_create`].
#[derive(Debug)]
pub struct Handle {
    namespace: String,
}

impl View for Handle {
    type V = Seq<char>;

    /// The name of the selected namespace.
    closed spec fn view(&self) -> Seq<char> {
        self.namespace@
    }
}

impl Clone for Handle {
    fn clone(&self) -> (copy: Self)
        ensures
            copy@ == self@,
    {
        Handle { namespace: self.namespace.clone() }
    }
}

impl Handle {
    /// The name of the selected namespace.
    pub fn namespace(&self) -> (name: &String)
        ensures
            name@ == self@,
    {
        &self.namespace
    }
}

/// Owner of all namespaces.
pub struct StoreManager {
    namespaces: Vec<Namespace>,
}

spec fn namespace_pairs(namespaces: Seq<Namespace>) -> Seq<(Seq<char>, Entries)> {
    Seq::new(namespaces.len(), |i: int| (namespaces[i].name_model(), namespaces[i]@))
}

/// Where one namespace of a list has changed what it holds and kept its name, the list
/// stands for the same store with the new entries under that name, and its names are
/// still distinct.
proof fn lemma_one_namespace_changed(before: Seq<Namespace>, after: Seq<Namespace>, at: int)
    requires
        distinct_keys(namespace_pairs(before)),
        0 <= at < before.len(),
        after == before.update(at, after[at]),
        after[at].name_model() == before[at].name_model(),
    ensures
        distinct_keys(namespace_pairs(after)),
        pairs_to_map(namespace_pairs(after)) == pairs_to_map(namespace_pairs(before)).insert(
            before[at].name_model(),
            after[at]@,
        ),
{
    let pairs = namespace_pairs(before);
    lemma_pairs_update(pairs, at, after[at]@);
    assert(namespace_pairs(after) =~= pairs.update(at, (pairs[at].0, after[at]@)));
}

impl View for StoreManager {
    type V = Namespaces;

    closed spec fn view(&self) -> Namespaces {
        pairs_to_map(namespace_pairs(self.namespaces@))
    }
}

impl StoreManager {
    #[verifier::type_invariant]
    spec fn names_are_distinct(self) -> bool {
        distinct_keys(namespace_pairs(self.namespaces@))
    }

    /// A manager without namespaces.
    pub fn new() -> (manager: StoreManager)
        ensures
            manager@ == Namespaces::empty(),
    {
        let manager = StoreManager { namespaces: Vec::new() };
        assert(namespace_pairs(manager.namespaces@) =~= Seq::empty());
        manager
    }

    /// Where the namespace `name` stands.
    fn find(&self, name: &String) -> (at: Option<usize>)
        ensures
            at is Some <==> self@.contains_key(name@),
            at is Some ==> {
                &&& at->0 < self.namespaces@.len()
                &&& self.namespaces@[at->0 as int].name_model() == name@
                &&& self.namespaces@[at->0 as int]@ == self@[name@]
            },
    {
        proof {
            use_type_invariant(self);
            lemma_pairs_to_map(namespace_pairs(self.namespaces@));
        }
        let mut i: usize = 0;
        while i < self.namespaces.len()
            invariant
                i <= self.namespaces@.len(),
                forall|j: int| 0 <= j < i ==> (#[trigger] self.namespaces@[j]).name_model() != name@,
            decreases self.namespaces@.len() - i,
        {
            if *self.namespaces[i].name() == *name {
                proof {
                    use_type_invariant(self);
                    let pairs = namespace_pairs(self.namespaces@);
                    lemma_pairs_to_map(pairs);
                    assert(pairs[i as int].0 == name@);
                    assert(self@[pairs[i as int].0] == pairs[i as int].1);
                }
                return Some(i);
            }
            i += 1;
        }
        proof {
            let pairs = namespace_pairs(self.namespaces@);
            if self@.contains_key(name@) {
                let j = choose|j: int| 0 <= j < pairs.len() && (#[trigger] pairs[j]).0 == name@;
                assert(self.namespaces@[j].name_model() == name@);
            }
        }
        None
    }

    /// Hands the namespaces out, leaving none behind.
    fn take_namespaces(&mut self) -> (namespaces: Vec<Namespace>)
        ensures
            namespaces == old(self).namespaces,
            distinct_keys(namespace_pairs(namespaces@)),
            final(self).namespaces@.len() == 0,
    {
        proof {
            use_type_invariant(&*self);
        }
        let mut namespaces: Vec<Namespace> = Vec::new();
        core::mem::swap(&mut self.namespaces, &mut namespaces);
        namespaces
    }

    /// Selects the namespace `name`, creating it empty if there is none of that name.
    /// This is the only way in which a namespace comes to be.
    pub fn select_or_create(&mut self, name: &str) -> (handle: Handle)
        ensures
            handle@ == name@,
            final(self)@ == select(old(self)@, name@),
    {
        let name = name.to_owned();
        if self.find(&name).is_none() {
            let mut namespaces = self.take_namespaces();
            let namespace = Namespace::new(name.clone());
            proof {
                let pairs = namespace_pairs(namespaces@);
                lemma_pairs_push(pairs, name@, Entries::empty());
                assert(namespace_pairs(namespaces@.push(namespace)) =~= pairs.push(
                    (name@, Entries::empty()),
                ));
            }
            namespaces.push(namespace);
            self.namespaces = namespaces;
        }
        Handle { namespace: name }
    }

    /// Writes `value` under `key` in the selected namespace, in place of what was there.
    /// With `ttl_seconds` 0 the entry never expires; otherwise it expires `ttl_seconds`
    /// after `now`.
    ///
    /// Fails, and changes nothing, exactly if this manager has no namespace of the
    /// handle's name.
    pub fn set(
        &mut self,
        handle: &Handle,
        key: &str,
        value: Value,
        ttl_seconds: u64,
        now: u64,
    ) -> (done: Result<(), StoreError>)
        ensures
            done is Ok <==> old(self)@.contains_key(handle@),
            done is Ok ==> final(self)@ == put_in(
                old(self)@,
                handle@,
                key@,
                value@,
                ttl_seconds,
                now,
            ),
            done is Err ==> done->Err_0 == StoreError::NamespaceRequiredButUnselected && final(self)@
                == old(self)@,
    {
        match self.find(&handle.namespace) {
            None => Err(StoreError::NamespaceRequiredButUnselected),
            Some(at) => {
                let mut namespaces = self.take_namespaces();
                let ghost before = namespaces@;
                namespaces[at].set(key, value, ttl_seconds, now);
                proof {
                    lemma_one_namespace_changed(before, namespaces@, at as int);
                }
                self.namespaces = namespaces;
                Ok(())
            },
        }
    }

    /// Reads the value under `key` in the selected namespace.
    ///
    /// Where there is no entry, or the entry has expired at `now`, the answer is `None`;
    /// an expired entry is taken out first. Otherwise the answer is a copy of the value.
    ///
    /// Fails, and changes nothing, exactly if this manager has no namespace of the
    /// handle's name.
    pub fn get(
        &mut self,
        handle: &Handle,
        key: &str,
        now: u64,
    ) -> (found: Result<Option<Value>, StoreError>)
        ensures
            found is Ok <==> old(self)@.contains_key(handle@),
            found is Ok ==> {
                &&& final(self)@ == sweep_in(old(self)@, handle@, key@, now)
                &&& option_model(found->Ok_0) == read(old(self)@[handle@], key@, now)
            },
            found is Err ==> found->Err_0 == StoreError::NamespaceRequiredButUnselected && final(self)@ == old(self)@,
    {
        match self.find(&handle.namespace) {
            None => Err(StoreError::NamespaceRequiredButUnselected),
            Some(at) => {
                let mut namespaces = self.take_namespaces();
                let ghost before = namespaces@;
                let found = namespaces[at].get(key, now);
                proof {
                    lemma_one_namespace_changed(before, namespaces@, at as int);
                }
                self.namespaces = namespaces;
                Ok(found)
            },
        }
    }

    /// Takes the entry under `key` out of the selected namespace, whatever its state, and
    /// says whether a caller could still have seen it at `now`.
    ///
    /// Fails, and changes nothing, exactly if this manager has no namespace of the
    /// handle's name.
    pub fn delete(
        &mut self,
        handle: &Handle,
        key: &str,
        now: u64,
    ) -> (existed: Result<bool, StoreError>)
        ensures
            existed is Ok <==> old(self)@.contains_key(handle@),
            existed is Ok ==> {
                &&& final(self)@ == remove_in(old(self)@, handle@, key@)
                &&& existed->Ok_0 == is_live(old(self)@[handle@], key@, now)
            },
            existed is Err ==> existed->Err_0 == StoreError::NamespaceRequiredButUnselected
                && final(self)@ == old(self)@,
    {
        match self.find(&handle.namespace) {
            None => Err(StoreError::NamespaceRequiredButUnselected),
            Some(at) => {
                let mut namespaces = self.take_namespaces();
                let ghost before = namespaces@;
                let existed = namespaces[at].delete(key, now);
                proof {
                    lemma_one_namespace_changed(before, namespaces@, at as int);
                }
                self.namespaces = namespaces;
                Ok(existed)
            },
        }
    }

    /// Whether the selected namespace has an entry under `key` that has not expired at
    /// `now`. An expired entry is taken out before the answer is given.
    ///
    /// Fails, and changes nothing, exactly if this manager has no namespace of the
    /// handle's name.
    pub fn contains_key(
        &mut self,
        handle: &Handle,
        key: &str,
        now: u64,
    ) -> (found: Result<bool, StoreError>)
        ensures
            found is Ok <==> old(self)@.contains_key(handle@),
            found is Ok ==> {
                &&& final(self)@ == sweep_in(old(self)@, handle@, key@, now)
                &&& found->Ok_0 == is_live(old(self)@[handle@], key@, now)
            },
            found is Err ==> found->Err_0 == StoreError::NamespaceRequiredButUnselected && final(self)@ == old(self)@,
    {
        match self.find(&handle.namespace) {
            None => Err(StoreError::NamespaceRequiredButUnselected),
            Some(at) => {
                let mut namespaces = self.take_namespaces();
                let ghost before = namespaces@;
                let found = namespaces[at].contains_key(key, now);
                proof {
                    lemma_one_namespace_changed(before, namespaces@, at as int);
                }
                self.namespaces = namespaces;
                Ok(found)
            },
        }
    }
}

/// A namespace that is selected for the first time is there afterwards and holds
/// nothing: a reader of any key, at any time, is shown nothing. No other namespace has
/// changed.
pub proof fn law_new_namespace_is_empty(spaces: Namespaces, name: Seq<char>, key: Seq<char>, now: u64)
    requires
        !spaces.contains_key(name),
    ensures
        select(spaces, name).contains_key(name),
        select(spaces, name)[name] == Entries::empty(),
        read(select(spaces, name)[name], key, now) is None,
        select(spaces, name).remove(name) == spaces,
{
    assert(select(spaces, name).remove(name) =~= spaces);
}

/// Selecting a namespace that is there changes nothing, however often it is done.
pub proof fn law_select_is_idempotent(spaces: Namespaces, name: Seq<char>)
    ensures
        select(select(spaces, name), name) == select(spaces, name),
        spaces.contains_key(name) ==> select(spaces, name) == spaces,
{
}

/// Two writes to different namespaces do not get in each other's way: in whichever order
/// they run, the store ends in the same state, in which each namespace holds exactly what
/// its own write made of it and every other namespace is as it was.
pub proof fn law_writes_to_distinct_namespaces_commute(
    spaces: Namespaces,
    first: Seq<char>,
    first_key: Seq<char>,
    first_value: ValueModel,
    first_ttl: u64,
    first_now: u64,
    second: Seq<char>,
    second_key: Seq<char>,
    second_value: ValueModel,
    second_ttl: u64,
    second_now: u64,
)
    requires
        first != second,
    ensures
        ({
            let one_way = put_in(
                put_in(spaces, first, first_key, first_value, first_ttl, first_now),
                second,
                second_key,
                second_value,
                second_ttl,
                second_now,
            );
            let other_way = put_in(
                put_in(spaces, second, second_key, second_value, second_ttl, second_now),
                first,
                first_key,
                first_value,
                first_ttl,
                first_now,
            );
            &&& one_way == other_way
            &&& one_way[first] == put(spaces[first], first_key, first_value, first_ttl, first_now)
            &&& one_way[second] == put(
                spaces[second],
                second_key,
                second_value,
                second_ttl,
                second_now,
            )
            &&& forall|other: Seq<char>|
                other != first && other != second ==> (one_way.contains_key(other)
                    <==> spaces.contains_key(other)) && one_way[other] == spaces[other]
        }),
{
    let one_way = put_in(
        put_in(spaces, first, first_key, first_value, first_ttl, first_now),
        second,
        second_key,
        second_value,
        second_ttl,
        second_now,
    );
    let other_way = put_in(
        put_in(spaces, second, second_key, second_value, second_ttl, second_now),
        first,
        first_key,
        first_value,
        first_ttl,
        first_now,
    );
    assert(one_way =~= other_way);
}

} // verus!
