use vstd::prelude::*;
use crate::error::{ErrorView, MyError};
use crate::model::{merge, PayloadView, UpdatePayload, User, UserView};

verus! {

/// No two records of the sequence share an id.
pub open spec fn unique_ids(s: Seq<UserView>) -> bool {
    forall|i: int, j: int| 0 <= i < s.len() && 0 <= j < s.len() && i != j ==> s[i].id != s[j].id
}

pub open spec fn has_id(s: Seq<UserView>, id: Seq<char>) -> bool {
    exists|i: int| 0 <= i < s.len() && s[i].id == id
}

pub open spec fn index_of(s: Seq<UserView>, id: Seq<char>) -> int {
    choose|i: int| 0 <= i < s.len() && s[i].id == id
}

/// The record whose id is `id`, if there is one.
pub open spec fn lookup(s: Seq<UserView>, id: Seq<char>) -> Option<UserView> {
    if has_id(s, id) {
        Some(s[index_of(s, id)])
    } else {
        None
    }
}

/// The collection after writing `u` under its id: a record with that id is
/// replaced, otherwise `u` is added.
pub open spec fn stored(s: Seq<UserView>, u: UserView) -> Seq<UserView> {
    if has_id(s, u.id) {
        s.update(index_of(s, u.id), u)
    } else {
        s.push(u)
    }
}

/// The collection after deleting `id`; unchanged when no record has it.
pub open spec fn removed(s: Seq<UserView>, id: Seq<char>) -> Seq<UserView> {
    if has_id(s, id) {
        s.remove(index_of(s, id))
    } else {
        s
    }
}

/// The collection after a merge write of `p` into the record `id`.
pub open spec fn updated(s: Seq<UserView>, id: Seq<char>, p: PayloadView) -> Seq<UserView> {
    if has_id(s, id) {
        s.update(index_of(s, id), merge(s[index_of(s, id)], p))
    } else {
        s
    }
}

/// In a collection with unique ids, the one index that holds `id`.
pub(crate) proof fn lemma_index_of(s: Seq<UserView>, id: Seq<char>, i: int)
    requires
        unique_ids(s),
        0 <= i < s.len(),
        s[i].id == id,
    ensures
        has_id(s, id),
        index_of(s, id) == i,
{
    assert(has_id(s, id));
}

/// A collection of user records keyed by id, held in memory, with the
/// semantics of the document store: whole-record writes that overwrite,
/// merge writes, idempotent deletes.
#[derive(Debug)]
pub struct UserStore {
    docs: Vec<User>,
}

impl View for UserStore {
    type V = Seq<UserView>;

    closed spec fn view(&self) -> Seq<UserView> {
        self.docs@.map_values(|u: User| u@)
    }
}

impl UserStore {
    pub open spec fn wf(&self) -> bool {
        unique_ids(self@)
    }

    pub fn new() -> (r: UserStore)
        ensures
            r.wf(),
            r@ == Seq::<UserView>::empty(),
    {
        let r = UserStore { docs: Vec::new() };
        assert(r@ =~= Seq::<UserView>::empty());
        r
    }

    /// The position of the record with this id.
    fn position(&self, id: &String) -> (r: Option<usize>)
        requires
            self.wf(),
        ensures
            match r {
                Some(i) => has_id(self@, id@) && i == index_of(self@, id@) && i < self@.len(),
                None => !has_id(self@, id@),
            },
    {
        let mut i: usize = 0;
        while i < self.docs.len()
            invariant
                i <= self.docs@.len(),
                self.wf(),
                self@.len() == self.docs@.len(),
                forall|j: int| 0 <= j < i ==> self@[j].id != id@,
            decreases self.docs@.len() - i,
        {
            if self.docs[i].id == *id {
                proof {
                    lemma_index_of(self@, id@, i as int);
                }
                return Some(i);
            }
            i = i + 1;
        }
        None
    }

    /// Writes the record under its id and returns that id; a record already
    /// stored under the id is overwritten.
    pub fn insert(&mut self, user: User) -> (r: String)
        requires
            old(self).wf(),
        ensures
            final(self).wf(),
            final(self)@ == stored(old(self)@, user@),
            r@ == user@.id,
    {
        let id = user.id.clone();
        match self.position(&id) {
            Some(i) => {
                self.docs.set(i, user);
                assert(self@ =~= stored(old(self)@, user@));
            },
            None => {
                self.docs.push(user);
                assert(self@ =~= stored(old(self)@, user@));
            },
        }
        id
    }

    /// Every record of the collection, in stored order.
    pub fn get_all(&self) -> (r: Vec<User>)
        ensures
            r@.map_values(|u: User| u@) == self@,
    {
        let mut r: Vec<User> = Vec::new();
        let mut i: usize = 0;
        while i < self.docs.len()
            invariant
                i <= self.docs@.len(),
                self@.len() == self.docs@.len(),
                r@.len() == i,
                r@.map_values(|u: User| u@) == self@.subrange(0, i as int),
            decreases self.docs@.len() - i,
        {
            let u = self.docs[i].copied();
            assert(self@[i as int] == u@);
            let ghost prev = r@;
            r.push(u);
            proof {
                assert forall|j: int| 0 <= j < i implies r@[j]@ == self@[j] by {
                    assert(r@[j] == prev[j]);
                    assert(prev.map_values(|u: User| u@)[j] == self@.subrange(0, i as int)[j]);
                }
                assert(r@.map_values(|u: User| u@) =~= self@.subrange(0, i + 1));
            }
            i = i + 1;
        }
        assert(self@.subrange(0, i as int) =~= self@);
        r
    }

    /// The records whose `id` field equals `id` (an equality filter, not a
    /// document fetch).
    pub fn select_where_id(&self, id: &String) -> (r: Vec<User>)
        ensures
            r@.map_values(|u: User| u@) == self@.filter(|u: UserView| u.id == id@),
    {
        let mut r: Vec<User> = Vec::new();
        let mut i: usize = 0;
        while i < self.docs.len()
            invariant
                i <= self.docs@.len(),
                self@.len() == self.docs@.len(),
                r@.map_values(|u: User| u@) == self@.subrange(0, i as int).filter(
                    |u: UserView| u.id == id@,
                ),
            decreases self.docs@.len() - i,
        {
            proof {
                reveal(Seq::filter);
                assert(self@.subrange(0, i + 1).drop_last() =~= self@.subrange(0, i as int));
            }
            if self.docs[i].id == *id {
                r.push(self.docs[i].copied());
            }
            assert(r@.map_values(|u: User| u@) =~= self@.subrange(0, i + 1).filter(
                |u: UserView| u.id == id@,
            ));
            i = i + 1;
        }
        assert(self@.subrange(0, i as int) =~= self@);
        r
    }

    /// The record stored under `id`, or `UserNotFound(id)`.
    pub fn get_user_by_id(&self, id: String) -> (r: Result<User, MyError>)
        requires
            self.wf(),
        ensures
            match r {
                Ok(u) => lookup(self@, id@) == Some(u@),
                Err(e) => lookup(self@, id@) is None && e@ == ErrorView::NotFound(id@),
            },
    {
        let found = match self.position(&id) {
            Some(i) => Some(self.docs[i].copied()),
            None => None,
        };
        user_from_lookup(id, found)
    }

    /// Whether a record with this id exists, decided by an equality filter.
    pub fn check_user_exists(&self, id: &String) -> (r: bool)
        requires
            self.wf(),
        ensures
            r == has_id(self@, id@),
    {
        let matches = self.select_where_id(id);
        let r = any_with_id(&matches, id);
        proof {
            let pred = |u: UserView| u.id == id@;
            let f = self@.filter(pred);
            assert(matches@.map_values(|u: User| u@) == f);
            if has_id(self@, id@) {
                let i = index_of(self@, id@);
                self@.lemma_filter_contains(pred, i);
                let k = choose|k: int| 0 <= k < f.len() && f[k] == self@[i];
                assert(matches@.map_values(|u: User| u@)[k] == matches@[k]@);
            } else if r {
                let k = choose|k: int| 0 <= k < matches@.len() && matches@[k]@.id == id@;
                assert(matches@.map_values(|u: User| u@)[k] == matches@[k]@);
                assert(f[k] == matches@[k]@);
                assert(f.contains(matches@[k]@));
                self@.lemma_filter_contains_rev(pred, matches@[k]@);
                let j = choose|j: int| 0 <= j < self@.len() && self@[j] == matches@[k]@;
                assert(self@[j].id == id@);
            }
        }
        r
    }

    /// Merge-writes `p` into the record `id`. The store refuses a merge
    /// write on an id it does not hold: that is a store failure, and the
    /// collection is unchanged.
    pub fn update_by_id(&mut self, id: String, p: &UpdatePayload) -> (r: Result<(), MyError>)
        requires
            old(self).wf(),
        ensures
            final(self).wf(),
            final(self)@ == updated(old(self)@, id@, p@),
            r is Ok <==> has_id(old(self)@, id@),
            r matches Err(e) ==> e@ == ErrorView::Store("no document to update: "@ + id@),
    {
        match self.position(&id) {
            Some(i) => {
                let mut u = self.docs[i].copied();
                u.apply(p);
                self.docs.set(i, u);
                assert(self@ =~= updated(old(self)@, id@, p@));
                Ok(())
            },
            None => {
                let mut m = String::from_str("no document to update: ");
                m.append(id.as_str());
                Err(MyError::FirestoreError(m))
            },
        }
    }

    /// Deletes the record `id`. Deleting an id that is not stored is a
    /// no-op, never a failure.
    pub fn delete_by_id(&mut self, id: &String)
        requires
            old(self).wf(),
        ensures
            final(self).wf(),
            final(self)@ == removed(old(self)@, id@),
    {
        match self.position(id) {
            Some(i) => {
                self.docs.remove(i);
                assert(self@ =~= removed(old(self)@, id@));
            },
            None => {},
        }
    }
}

/// Whether any of the records has this id.
pub fn any_with_id(records: &Vec<User>, id: &String) -> (r: bool)
    ensures
        r == exists|k: int| 0 <= k < records@.len() && records@[k]@.id == id@,
{
    let mut i: usize = 0;
    while i < records.len()
        invariant
            i <= records@.len(),
            forall|k: int| 0 <= k < i ==> records@[k]@.id != id@,
        decreases records@.len() - i,
    {
        if records[i].id == *id {
            return true;
        }
        i = i + 1;
    }
    false
}

/// The outcome of a lookup by id: the record found, or `UserNotFound(id)`.
pub fn user_from_lookup(id: String, found: Option<User>) -> (r: Result<User, MyError>)
    ensures
        match found {
            Some(u) => r matches Ok(v) && v@ == u@,
            None => r matches Err(e) && e@ == ErrorView::NotFound(id@),
        },
{
    match found {
        Some(u) => Ok(u),
        None => Err(MyError::UserNotFound(id)),
    }
}

} // verus!
