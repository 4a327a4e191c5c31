//! The table of live sessions, keyed by their identifiers.

use vstd::prelude::*;

verus! {

/// Failures of the session layer.
#[derive(Clone, Debug, PartialEq, Eq)]
pub enum SessionError {
    /// The system refused a pseudo-terminal.
    PtyAllocationFailed(String),
    /// The command could not be started.
    ProcessSpawnFailed(String),
    /// No session has the identifier given.
    SessionNotFound,
    /// A live session already has the identifier given.
    DuplicateSession,
    /// A write, resize or read failed.
    IoFailure(String),
}

/// Sessions by identifier; an identifier names at most one session.
pub struct SessionRegistry<T> {
    ids: Vec<String>,
    items: Vec<T>,
    table: Ghost<Map<Seq<char>, T>>,
}

impl<T> View for SessionRegistry<T> {
    type V = Map<Seq<char>, T>;

    closed spec fn view(&self) -> Map<Seq<char>, T> {
        self.table@
    }
}

impl<T> SessionRegistry<T> {
    pub closed spec fn wf(&self) -> bool {
        &&& self.ids.len() == self.items.len()
        &&& forall|i: int, j: int|
            0 <= i < j < self.ids.len() ==> #[trigger] self.ids@[i]@ != #[trigger] self.ids@[j]@
        &&& forall|i: int|
            0 <= i < self.ids.len() ==> self.table@.contains_key(#[trigger] self.ids@[i]@)
                && self.table@[self.ids@[i]@] == self.items@[i]
        &&& forall|k: Seq<char>|
            #[trigger] self.table@.contains_key(k) ==> exists|i: int|
                0 <= i < self.ids.len() && #[trigger] self.ids@[i]@ == k
    }

    /// An empty table.
    pub fn new() -> (r: Self)
        ensures
            r.wf(),
            r@ == Map::<Seq<char>, T>::empty(),
    {
        SessionRegistry { ids: Vec::new(), items: Vec::new(), table: Ghost(Map::empty()) }
    }

    /// Number of sessions.
    pub fn len(&self) -> (r: usize)
        requires
            self.wf(),
        ensures
            r == self@.len(),
    {
        proof {
            let ids = self.ids@.map_values(|s: String| s@);
            assert forall|k: Seq<char>| self@.contains_key(k) implies ids.contains(k) by {
                let i = choose|i: int| 0 <= i < self.ids.len() && #[trigger] self.ids@[i]@ == k;
                assert(ids[i] == k);
            }
            assert forall|k: Seq<char>| ids.contains(k) implies self@.contains_key(k) by {
                let i = choose|i: int| 0 <= i < ids.len() && ids[i] == k;
                assert(self.ids@[i]@ == k);
            }
            assert(self@.dom() =~= ids.to_set());
            assert forall|i: int, j: int| 0 <= i < j < ids.len() implies ids[i] != ids[j] by {
                assert(self.ids@[i]@ != self.ids@[j]@);
            }
            ids.unique_seq_to_set();
        }
        self.ids.len()
    }

    fn find(&self, id: &String) -> (r: Option<usize>)
        requires
            self.wf(),
        ensures
            match r {
                Some(i) => i < self.ids.len() && self.ids@[i as int]@ == id@ && self@.contains_key(id@),
                None => !self@.contains_key(id@),
            },
    {
        let mut i: usize = 0;
        while i < self.ids.len()
            invariant
                self.wf(),
                i <= self.ids.len(),
                forall|j: int| 0 <= j < i ==> self.ids@[j]@ != id@,
            decreases self.ids.len() - i,
        {
            if self.ids[i] == *id {
                return Some(i);
            }
            i = i + 1;
        }
        None
    }

    /// Whether a session has the identifier `id`.
    pub fn contains(&self, id: &String) -> (r: bool)
        requires
            self.wf(),
        ensures
            r == self@.contains_key(id@),
    {
        self.find(id).is_some()
    }

    /// The session with the identifier `id`.
    pub fn get(&self, id: &String) -> (r: Result<&T, SessionError>)
        requires
            self.wf(),
        ensures
            match r {
                Ok(t) => self@.contains_key(id@) && *t == self@[id@],
                Err(e) => !self@.contains_key(id@) && e is SessionNotFound,
            },
    {
        match self.find(id) {
            Some(i) => Ok(&self.items[i]),
            None => Err(SessionError::SessionNotFound),
        }
    }

    /// Registers `item` under `id`, which no live session may already hold;
    /// on that error the table is unchanged and `item` is handed back.
    pub fn insert(&mut self, id: String, item: T) -> (r: Result<(), (SessionError, T)>)
        requires
            old(self).wf(),
        ensures
            final(self).wf(),
            match r {
                Ok(()) => !old(self)@.contains_key(id@) && final(self)@ == old(self)@.insert(id@, item),
                Err((e, back)) => old(self)@.contains_key(id@) && e is DuplicateSession && back == item
                    && final(self)@ == old(self)@,
            },
    {
        if self.find(&id).is_some() {
            return Err((SessionError::DuplicateSession, item));
        }
        let ghost old_ids = self.ids@;
        let ghost key = id@;
        self.table = Ghost(self.table@.insert(id@, item));
        self.ids.push(id);
        self.items.push(item);
        proof {
            assert(self.ids@[old_ids.len() as int]@ == key);
            assert forall|i: int, j: int| 0 <= i < j < self.ids.len() implies #[trigger] self.ids@[i]@
                != #[trigger] self.ids@[j]@ by {
                if j == old_ids.len() {
                    assert(self.ids@[i] == old_ids[i]);
                } else {
                    assert(self.ids@[i] == old_ids[i] && self.ids@[j] == old_ids[j]);
                }
            }
            assert forall|k: Seq<char>| #[trigger] self.table@.contains_key(k) implies exists|i: int|
                0 <= i < self.ids.len() && #[trigger] self.ids@[i]@ == k by {
                if k == key {
                    assert(self.ids@[old_ids.len() as int]@ == k);
                } else {
                    assert(old(self).table@.contains_key(k));
                    let i = choose|i: int| 0 <= i < old_ids.len() && #[trigger] old_ids[i]@ == k;
                    assert(self.ids@[i] == old_ids[i]);
                }
            }
        }
        Ok(())
    }

    /// Takes the session with the identifier `id` out of the table.
    pub fn remove(&mut self, id: &String) -> (r: Result<T, SessionError>)
        requires
            old(self).wf(),
        ensures
            final(self).wf(),
            match r {
                Ok(t) => old(self)@.contains_key(id@) && t == old(self)@[id@] && final(self)@
                    == old(self)@.remove(id@),
                Err(e) => !old(self)@.contains_key(id@) && e is SessionNotFound && final(self)@
                    == old(self)@,
            },
    {
        let i = match self.find(id) {
            Some(i) => i,
            None => return Err(SessionError::SessionNotFound),
        };
        let ghost old_ids = self.ids@;
        let ghost old_items = self.items@;
        let ghost key = id@;
        self.ids.remove(i);
        let item = self.items.remove(i);
        self.table = Ghost(self.table@.remove(id@));
        proof {
            assert forall|j: int| 0 <= j < self.ids.len() implies #[trigger] self.ids@[j]
                == old_ids[if j < i { j } else { j + 1 }] && self.items@[j] == old_items[if j < i { j } else { j + 1 }] by {
            }
            assert forall|a: int, b: int| 0 <= a < b < self.ids.len() implies #[trigger] self.ids@[a]@
                != #[trigger] self.ids@[b]@ by {
                let a0 = if a < i { a } else { a + 1 };
                let b0 = if b < i { b } else { b + 1 };
                assert(old_ids[a0]@ != old_ids[b0]@);
            }
            assert forall|j: int| 0 <= j < self.ids.len() implies self.table@.contains_key(
                #[trigger] self.ids@[j]@,
            ) && self.table@[self.ids@[j]@] == self.items@[j] by {
                let j0 = if j < i { j } else { j + 1 };
                assert(old_ids[j0]@ != old_ids[i as int]@);
            }
            assert forall|k: Seq<char>| #[trigger] self.table@.contains_key(k) implies exists|j: int|
                0 <= j < self.ids.len() && #[trigger] self.ids@[j]@ == k by {
                let j0 = choose|j0: int| 0 <= j0 < old_ids.len() && #[trigger] old_ids[j0]@ == k;
                assert(j0 != i);
                let j = if j0 < i { j0 } else { j0 - 1 };
                assert(self.ids@[j] == old_ids[j0]);
            }
        }
        Ok(item)
    }
}

} // verus!
