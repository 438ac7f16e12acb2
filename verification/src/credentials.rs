//! A credential store in memory: session keys bound to users for a
//! limited time.
//!
//! An entry is live from the moment it is written until its time is up.
//! Only a live entry is ever handed out. Writing a key again replaces its
//! entry.

use vstd::prelude::*;
use crate::ids::Uuid;
use crate::models::Timestamp;
use crate::text::same_text;

verus! {

/// The number of microseconds in a second.
pub const MICROS_PER_SECOND: u64 = 1_000_000;

/// What a key is bound to.
pub struct Binding {
    pub user_id: Uuid,
    /// The moment from which the entry is no longer live, in microseconds
    /// since the Unix epoch.
    pub expires_at: int,
}

/// What a credential store holds: for each key its binding.
pub type CredentialsView = Map<Seq<char>, Binding>;

/// The moment at which an entry written at `now` for `ttl_seconds` stops
/// being live.
pub open spec fn expiry(now: Timestamp, ttl_seconds: u64) -> int {
    now + ttl_seconds * MICROS_PER_SECOND
}

/// The user that a key is bound to at the moment `now`, if its entry is
/// live then.
pub open spec fn live_session(sessions: CredentialsView, key: Seq<char>, now: Timestamp) -> Option<
    Uuid,
> {
    if sessions.contains_key(key) && now < sessions[key].expires_at {
        Some(sessions[key].user_id)
    } else {
        None
    }
}

/// The store after a key was bound to a user at `now` for `ttl_seconds`.
pub open spec fn with_session(
    sessions: CredentialsView,
    key: Seq<char>,
    user_id: Uuid,
    ttl_seconds: u64,
    now: Timestamp,
) -> CredentialsView {
    sessions.insert(key, Binding { user_id, expires_at: expiry(now, ttl_seconds) })
}

struct Entry {
    key: String,
    user_id: Uuid,
    expires_at: i128,
}

/// A credential store in memory.
pub struct CredentialStore {
    entries: Vec<Entry>,
}

impl CredentialStore {
    spec fn key_at(&self, key: Seq<char>, index: int) -> bool {
        0 <= index < self.entries.len() && self.entries[index].key@ == key
    }

    spec fn binding_at(&self, index: int) -> Binding {
        Binding {
            user_id: self.entries[index].user_id,
            expires_at: self.entries[index].expires_at as int,
        }
    }

    /// Whether the store is consistent: no key has two entries.
    pub closed spec fn wf(&self) -> bool {
        forall|i: int, j: int|
            #![trigger self.entries[i], self.entries[j]]
            0 <= i < j < self.entries.len() ==> self.entries[i].key@ != self.entries[j].key@
    }

    proof fn entry_found(&self, key: Seq<char>, index: int)
        requires
            self.wf(),
            self.key_at(key, index),
        ensures
            self@.contains_key(key),
            self@[key] == self.binding_at(index),
    {
        let chosen = choose|index: int| self.key_at(key, index);
        assert(self.key_at(key, chosen));
        if chosen < index {
            assert(self.entries[chosen].key@ != self.entries[index].key@);
        }
        if index < chosen {
            assert(self.entries[index].key@ != self.entries[chosen].key@);
        }
    }

    fn find(&self, key: &str) -> (found: Option<usize>)
        requires
            self.wf(),
        ensures
            match found {
                Some(index) => self.key_at(key@, index as int),
                None => !self@.contains_key(key@),
            },
    {
        let mut index: usize = 0;
        while index < self.entries.len()
            invariant
                index <= self.entries.len(),
                forall|earlier: int| 0 <= earlier < index ==> !self.key_at(key@, earlier),
            decreases self.entries.len() - index,
        {
            if same_text(self.entries[index].key.as_str(), key) {
                return Some(index);
            }
            index = index + 1;
        }
        None
    }

    /// A store that holds nothing.
    pub fn new() -> (store: CredentialStore)
        ensures
            store.wf(),
            store@ == Map::<Seq<char>, Binding>::empty(),
    {
        let store = CredentialStore { entries: Vec::new() };
        assert(store@ =~= Map::<Seq<char>, Binding>::empty());
        store
    }

    /// Binds a key to a user from `now` on, for `ttl_seconds`.
    pub fn set_ex(&mut self, key: String, user_id: Uuid, ttl_seconds: u64, now: Timestamp)
        requires
            old(self).wf(),
        ensures
            final(self).wf(),
            final(self)@ == with_session(old(self)@, key@, user_id, ttl_seconds, now),
    {
        let lifetime: i128 = (ttl_seconds as i128) * 1_000_000;
        let expires_at: i128 = (now as i128) + lifetime;
        assert(expires_at == expiry(now, ttl_seconds));
        let ghost binding = Binding { user_id, expires_at: expires_at as int };
        let ghost text = key@;
        match self.find(key.as_str()) {
            Some(index) => {
                self.entries.set(index, Entry { key, user_id, expires_at });
                proof {
                    assert forall|i: int, j: int|
                        #![trigger self.entries[i], self.entries[j]]
                        0 <= i < j < self.entries.len() implies self.entries[i].key@
                        != self.entries[j].key@ by {
                        assert(old(self).entries[i].key@ != old(self).entries[j].key@);
                    }
                    assert forall|other: Seq<char>|
                        self@.contains_key(other) <==> old(self)@.insert(
                            text,
                            binding,
                        ).contains_key(other) by {
                        if self@.contains_key(other) {
                            let at = choose|at: int| self.key_at(other, at);
                            assert(old(self).key_at(other, at));
                        }
                        if old(self)@.contains_key(other) {
                            let at = choose|at: int| old(self).key_at(other, at);
                            assert(self.key_at(other, at));
                        }
                        if other == text {
                            assert(self.key_at(other, index as int));
                        }
                    }
                    assert forall|other: Seq<char>| self@.contains_key(other) implies self@[other]
                        == old(self)@.insert(text, binding)[other] by {
                        let at = choose|at: int| self.key_at(other, at);
                        self.entry_found(other, at);
                        if other != text {
                            old(self).entry_found(other, at);
                        } else {
                            self.entry_found(other, index as int);
                        }
                    }
                    assert(self@ =~= old(self)@.insert(text, binding));
                }
            },
            None => {
                self.entries.push(Entry { key, user_id, expires_at });
                proof {
                    let last = old(self).entries.len() as int;
                    assert forall|i: int, j: int|
                        #![trigger self.entries[i], self.entries[j]]
                        0 <= i < j < self.entries.len() implies self.entries[i].key@
                        != self.entries[j].key@ by {
                        if j == last {
                            assert(old(self).key_at(self.entries[i].key@, i));
                        } else {
                            assert(old(self).entries[i].key@ != old(self).entries[j].key@);
                        }
                    }
                    assert forall|other: Seq<char>|
                        self@.contains_key(other) <==> old(self)@.insert(
                            text,
                            binding,
                        ).contains_key(other) by {
                        if self@.contains_key(other) {
                            let at = choose|at: int| self.key_at(other, at);
                            if at != last {
                                assert(old(self).key_at(other, at));
                            }
                        }
                        if old(self)@.contains_key(other) {
                            let at = choose|at: int| old(self).key_at(other, at);
                            assert(self.key_at(other, at));
                        }
                        if other == text {
                            assert(self.key_at(other, last));
                        }
                    }
                    assert forall|other: Seq<char>| self@.contains_key(other) implies self@[other]
                        == old(self)@.insert(text, binding)[other] by {
                        let at = choose|at: int| self.key_at(other, at);
                        self.entry_found(other, at);
                        if other != text {
                            old(self).entry_found(other, at);
                        } else {
                            self.entry_found(other, last);
                        }
                    }
                    assert(self@ =~= old(self)@.insert(text, binding));
                }
            },
        }
    }

    /// The user that a key is bound to, where its entry is live at `now`.
    pub fn get(&self, key: &str, now: Timestamp) -> (user_id: Option<Uuid>)
        requires
            self.wf(),
        ensures
            user_id == live_session(self@, key@, now),
    {
        match self.find(key) {
            Some(index) => {
                proof {
                    self.entry_found(key@, index as int);
                }
                if (now as i128) < self.entries[index].expires_at {
                    Some(self.entries[index].user_id)
                } else {
                    None
                }
            },
            None => None,
        }
    }
}

impl View for CredentialStore {
    type V = CredentialsView;

    closed spec fn view(&self) -> CredentialsView {
        Map::new(
            |key: Seq<char>| exists|index: int| self.key_at(key, index),
            |key: Seq<char>| self.binding_at(choose|index: int| self.key_at(key, index)),
        )
    }
}

} // verus!
