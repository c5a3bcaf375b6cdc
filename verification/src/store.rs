use vstd::prelude::*;
use vstd::string::StringExecFns;
use crate::kv::FieldMap;
use crate::kv::assoc_view;
use crate::kv::has_key;
use crate::kv::lemma_assoc_view_at;
use crate::kv::lemma_assoc_view_dom;
use crate::kv::lemma_assoc_view_push;
use crate::kv::lemma_assoc_view_remove;
use crate::kv::lemma_remove_only_key;
use crate::kv::unique_keys;

verus! {

// The store that the linking flows run against: a field map per user id,
// plus the username index that registration consults. It mirrors the
// field-level interface of a hash-per-entity key-value backend: fields are
// read, written and deleted one at a time, a record exists exactly when it
// is present in the key space, and writing a field of an absent record
// creates the record.

pub struct Store {
    users: Vec<(String, FieldMap)>,
    usernames: FieldMap,
}

impl Store {
    /// The records: a map from user id to that record's field map.
    pub closed spec fn users_view(&self) -> Map<Seq<char>, Map<Seq<char>, Seq<char>>> {
        assoc_view(self.users@)
    }

    /// The username index: a map from username to user id.
    pub closed spec fn usernames_view(&self) -> Map<Seq<char>, Seq<char>> {
        self.usernames@
    }

    /// Whether a record exists for the user `id`.
    pub open spec fn has_user(&self, id: Seq<char>) -> bool {
        self.users_view().dom().contains(id)
    }

    /// The record of the user `id`.
    pub open spec fn record_view(&self, id: Seq<char>) -> Map<Seq<char>, Seq<char>> {
        self.users_view()[id]
    }

    /// The record of the user `id`, or an empty one where none exists yet.
    pub open spec fn record_or_empty(&self, id: Seq<char>) -> Map<Seq<char>, Seq<char>> {
        if self.has_user(id) {
            self.record_view(id)
        } else {
            Map::empty()
        }
    }

    /// Well-formed: ids and field names are unique at every level.
    pub closed spec fn wf(&self) -> bool {
        &&& unique_keys(self.users@)
        &&& self.usernames.wf()
        &&& forall|i: int| 0 <= i < self.users@.len() ==> (#[trigger] self.users@[i].1).wf()
    }

    pub fn new() -> (r: Store)
        ensures
            r.wf(),
            r.users_view() == Map::<Seq<char>, Map<Seq<char>, Seq<char>>>::empty(),
            r.usernames_view() == Map::<Seq<char>, Seq<char>>::empty(),
    {
        Store { users: Vec::new(), usernames: FieldMap::new() }
    }

    fn find_user(&self, id: &String) -> (r: Option<usize>)
        ensures
            match r {
                Some(i) => i < self.users@.len() && self.users@[i as int].0@ == id@,
                None => !has_key(self.users@, id@),
            },
    {
        let mut i: usize = 0;
        while i < self.users.len()
            invariant
                i <= self.users@.len(),
                forall|j: int| 0 <= j < i ==> #[trigger] self.users@[j].0@ != id@,
            decreases self.users@.len() - i,
        {
            if self.users[i].0 == *id {
                return Some(i);
            }
            i = i + 1;
        }
        None
    }

    /// Whether the user `id` is present in the store's key space.
    pub fn user_exists(&self, id: &String) -> (r: bool)
        requires
            self.wf(),
        ensures
            r == self.has_user(id@),
    {
        proof {
            lemma_assoc_view_dom(self.users@);
        }
        match self.find_user(id) {
            Some(i) => {
                proof {
                    lemma_assoc_view_at(self.users@, i as int);
                }
                true
            }
            None => false,
        }
    }

    /// Read one field of the user's record.
    pub fn get_field(&self, id: &String, field: &String) -> (r: Option<&String>)
        requires
            self.wf(),
        ensures
            match r {
                Some(v) => self.has_user(id@) && self.record_view(id@).dom().contains(field@)
                    && v@ == self.record_view(id@)[field@],
                None => !self.has_user(id@) || !self.record_view(id@).dom().contains(field@),
            },
    {
        match self.find_user(id) {
            Some(i) => {
                proof {
                    lemma_assoc_view_at(self.users@, i as int);
                }
                self.users[i].1.get(field)
            }
            None => {
                proof {
                    lemma_assoc_view_dom(self.users@);
                }
                None
            }
        }
    }

    /// Write one field of the user's record, creating the record when the
    /// id is not yet in the key space.
    pub fn set_field(&mut self, id: &String, field: String, value: String)
        requires
            old(self).wf(),
        ensures
            final(self).wf(),
            final(self).users_view() == old(self).users_view().insert(
                id@,
                old(self).record_or_empty(id@).insert(field@, value@),
            ),
            final(self).usernames_view() == old(self).usernames_view(),
    {
        let ghost u0 = self.users@;
        let ghost uv0 = self.users_view();
        let ghost f = field@;
        let ghost v = value@;
        match self.find_user(id) {
            Some(i) => {
                proof {
                    lemma_assoc_view_at(u0, i as int);
                    lemma_assoc_view_remove(u0, i as int);
                    lemma_remove_only_key(u0, i as int);
                }
                let mut entry = self.users.remove(i);
                entry.1.set(field, value);
                self.users.push(entry);
                proof {
                    lemma_assoc_view_push(u0.remove(i as int), entry);
                    assert(self.users_view() =~= uv0.insert(id@, uv0[id@].insert(f, v)));
                }
            }
            None => {
                proof {
                    lemma_assoc_view_dom(u0);
                }
                let mut fields = FieldMap::new();
                fields.set(field, value);
                let entry = (id.clone(), fields);
                self.users.push(entry);
                proof {
                    lemma_assoc_view_push(u0, entry);
                    assert(self.users_view() =~= uv0.insert(
                        id@,
                        Map::<Seq<char>, Seq<char>>::empty().insert(f, v),
                    ));
                }
            }
        }
    }

    /// Delete one field of the user's record; an absent id or field
    /// changes nothing.
    pub fn delete_field(&mut self, id: &String, field: &String)
        requires
            old(self).wf(),
        ensures
            final(self).wf(),
            final(self).users_view() == if old(self).has_user(id@) {
                old(self).users_view().insert(id@, old(self).record_view(id@).remove(field@))
            } else {
                old(self).users_view()
            },
            final(self).usernames_view() == old(self).usernames_view(),
    {
        let ghost u0 = self.users@;
        let ghost uv0 = self.users_view();
        match self.find_user(id) {
            Some(i) => {
                proof {
                    lemma_assoc_view_at(u0, i as int);
                    lemma_assoc_view_remove(u0, i as int);
                    lemma_remove_only_key(u0, i as int);
                }
                let mut entry = self.users.remove(i);
                entry.1.delete(field);
                self.users.push(entry);
                proof {
                    lemma_assoc_view_push(u0.remove(i as int), entry);
                    assert(self.users_view() =~= uv0.insert(id@, uv0[id@].remove(field@)));
                }
            }
            None => {
                proof {
                    lemma_assoc_view_dom(u0);
                }
            }
        }
    }

    /// Whether a username is already registered.
    pub fn username_taken(&self, username: &String) -> (r: bool)
        requires
            self.wf(),
        ensures
            r == self.usernames_view().dom().contains(username@),
    {
        self.usernames.contains(username)
    }

    /// The user id registered under a username, if any.
    pub fn lookup_username(&self, username: &String) -> (r: Option<&String>)
        requires
            self.wf(),
        ensures
            match r {
                Some(v) => self.usernames_view().dom().contains(username@)
                    && v@ == self.usernames_view()[username@],
                None => !self.usernames_view().dom().contains(username@),
            },
    {
        self.usernames.get(username)
    }

    /// Bind a username to a user id in the index.
    pub fn set_username(&mut self, username: String, id: String)
        requires
            old(self).wf(),
        ensures
            final(self).wf(),
            final(self).usernames_view() == old(self).usernames_view().insert(username@, id@),
            final(self).users_view() == old(self).users_view(),
    {
        self.usernames.set(username, id);
    }
}

/// The record of the user `id`, for a caller that renders or mirrors it.
pub fn get_user_by_id<'a>(store: &'a Store, id: &String) -> (r: Option<&'a FieldMap>)
    requires
        store.wf(),
    ensures
        match r {
            Some(fields) => store.has_user(id@) && fields.wf() && fields@ == store.record_view(
                id@,
            ),
            None => !store.has_user(id@),
        },
{
    match store.find_user(id) {
        Some(i) => {
            proof {
                lemma_assoc_view_at(store.users@, i as int);
            }
            Some(&store.users[i].1)
        }
        None => {
            proof {
                lemma_assoc_view_dom(store.users@);
            }
            None
        }
    }
}

/// The delete route's answer. Account deletion is not implemented:
/// records outlive every flow here, so this only echoes the id and takes
/// no store at all. A real deletion would also have to unbind the
/// username from the index, or the index would keep pointing at a dead
/// id.
pub fn delete_user_by_id(id: &String) -> (r: String)
    ensures
        r@ == "id: "@ + id@,
{
    let prefix = "id: ".to_owned();
    prefix.concat(id.as_str())
}

} // verus!
