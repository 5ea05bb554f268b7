use vstd::prelude::*;
use crate::model::{merge, PayloadView, UserView};
use crate::error::RequestErrorView;
use crate::handlers::{delete_effect, update_effect};
use crate::reply::rejection_view;
use crate::request::{id_of, update_request, FieldValueView};
use crate::store::{has_id, index_of, lemma_index_of, lookup, removed, stored, unique_ids, updated};

verus! {

/// The collection after writing each record of `rs`, in order.
pub open spec fn stored_all(s: Seq<UserView>, rs: Seq<UserView>) -> Seq<UserView>
    decreases rs.len(),
{
    if rs.len() == 0 {
        s
    } else {
        stored(stored_all(s, rs.drop_last()), rs.last())
    }
}

/// The collection after deleting each id of `ids`, in order.
pub open spec fn removed_all(s: Seq<UserView>, ids: Seq<Seq<char>>) -> Seq<UserView>
    decreases ids.len(),
{
    if ids.len() == 0 {
        s
    } else {
        removed(removed_all(s, ids.drop_last()), ids.last())
    }
}

proof fn lemma_stored(s: Seq<UserView>, u: UserView)
    requires
        unique_ids(s),
    ensures
        unique_ids(stored(s, u)),
        forall|y: Seq<char>| has_id(stored(s, u), y) <==> (has_id(s, y) || y == u.id),
        stored(s, u).len() == if has_id(s, u.id) { s.len() } else { s.len() + 1 },
{
    let t = stored(s, u);
    if has_id(s, u.id) {
        let i = index_of(s, u.id);
        assert forall|y: Seq<char>| has_id(t, y) implies (has_id(s, y) || y == u.id) by {
            let k = choose|k: int| 0 <= k < t.len() && t[k].id == y;
            if k != i {
                assert(s[k].id == y);
            }
        }
        assert forall|y: Seq<char>| (has_id(s, y) || y == u.id) implies has_id(t, y) by {
            if y == u.id {
                assert(t[i].id == y);
            } else {
                let k = choose|k: int| 0 <= k < s.len() && s[k].id == y;
                assert(t[k].id == y);
            }
        }
    } else {
        let n = s.len() as int;
        assert(t[n] == u);
        assert forall|y: Seq<char>| has_id(t, y) implies (has_id(s, y) || y == u.id) by {
            let k = choose|k: int| 0 <= k < t.len() && t[k].id == y;
            if k != n {
                assert(s[k].id == y);
            }
        }
        assert forall|y: Seq<char>| (has_id(s, y) || y == u.id) implies has_id(t, y) by {
            if y == u.id {
                assert(t[n].id == y);
            } else {
                let k = choose|k: int| 0 <= k < s.len() && s[k].id == y;
                assert(t[k].id == y);
            }
        }
    }
}

proof fn lemma_removed(s: Seq<UserView>, id: Seq<char>)
    requires
        unique_ids(s),
    ensures
        unique_ids(removed(s, id)),
        forall|y: Seq<char>| has_id(removed(s, id), y) <==> (has_id(s, y) && y != id),
        removed(s, id).len() == if has_id(s, id) { s.len() - 1 } else { s.len() as int },
{
    let t = removed(s, id);
    if has_id(s, id) {
        let i = index_of(s, id);
        assert forall|a: int, b: int|
            0 <= a < t.len() && 0 <= b < t.len() && a != b implies t[a].id != t[b].id by {
            let a2 = if a < i { a } else { a + 1 };
            let b2 = if b < i { b } else { b + 1 };
            assert(t[a] == s[a2] && t[b] == s[b2]);
        }
        assert forall|y: Seq<char>| has_id(t, y) implies (has_id(s, y) && y != id) by {
            let k = choose|k: int| 0 <= k < t.len() && t[k].id == y;
            let k2 = if k < i { k } else { k + 1 };
            assert(t[k] == s[k2]);
            assert(k2 != i);
        }
        assert forall|y: Seq<char>| (has_id(s, y) && y != id) implies has_id(t, y) by {
            let k = choose|k: int| 0 <= k < s.len() && s[k].id == y;
            assert(k != i);
            if k < i {
                assert(t[k].id == y);
            } else {
                assert(t[k - 1].id == y);
            }
        }
    }
}

/// Inserting a record and then looking up its id gives back exactly that
/// record, whether or not the id was already stored.
pub proof fn law_insert_then_get(s: Seq<UserView>, u: UserView)
    requires
        unique_ids(s),
    ensures
        lookup(stored(s, u), u.id) == Some(u),
{
    lemma_stored(s, u);
    let t = stored(s, u);
    if has_id(s, u.id) {
        lemma_index_of(t, u.id, index_of(s, u.id));
    } else {
        lemma_index_of(t, u.id, s.len() as int);
    }
}

/// A merge write on a stored id changes exactly the fields the payload
/// carries on that record: its id and every other field keep their values,
/// and every other record is untouched.
pub proof fn law_update_is_partial(s: Seq<UserView>, id: Seq<char>, p: PayloadView)
    requires
        unique_ids(s),
        has_id(s, id),
    ensures
        unique_ids(updated(s, id, p)),
        lookup(updated(s, id, p), id) == Some(merge(lookup(s, id)->Some_0, p)),
        lookup(updated(s, id, p), id)->Some_0.id == id,
        p.first_name is None ==> lookup(updated(s, id, p), id)->Some_0.first_name == lookup(
            s,
            id,
        )->Some_0.first_name,
        p.email is None ==> lookup(updated(s, id, p), id)->Some_0.email == lookup(
            s,
            id,
        )->Some_0.email,
        p.phone is None ==> lookup(updated(s, id, p), id)->Some_0.phone == lookup(
            s,
            id,
        )->Some_0.phone,
        forall|k: Seq<char>| k != id ==> lookup(updated(s, id, p), k) == lookup(s, k),
{
    let i = index_of(s, id);
    let t = updated(s, id, p);
    assert(t[i].id == id);
    lemma_index_of(t, id, i);
    assert forall|k: Seq<char>| k != id implies lookup(t, k) == lookup(s, k) by {
        if has_id(s, k) {
            let j = index_of(s, k);
            assert(j != i);
            lemma_index_of(t, k, j);
        } else if has_id(t, k) {
            let j = choose|j: int| 0 <= j < t.len() && t[j].id == k;
            assert(j != i);
            assert(s[j].id == k);
        }
    }
}

/// Deleting an id twice leaves the collection as deleting it once: the id
/// is gone after the first delete and the second one is a no-op.
pub proof fn law_delete_idempotent(s: Seq<UserView>, id: Seq<char>)
    requires
        unique_ids(s),
    ensures
        !has_id(removed(s, id), id),
        removed(removed(s, id), id) == removed(s, id),
{
    lemma_removed(s, id);
}

proof fn lemma_stored_all(rs: Seq<UserView>)
    requires
        unique_ids(rs),
    ensures
        unique_ids(stored_all(Seq::empty(), rs)),
        stored_all(Seq::empty(), rs).len() == rs.len(),
        forall|y: Seq<char>| has_id(stored_all(Seq::empty(), rs), y) <==> has_id(rs, y),
    decreases rs.len(),
{
    if rs.len() > 0 {
        let front = rs.drop_last();
        assert(unique_ids(front));
        lemma_stored_all(front);
        let s = stored_all(Seq::empty(), front);
        lemma_stored(s, rs.last());
        let n = rs.len() - 1;
        if has_id(front, rs.last().id) {
            let k = choose|k: int| 0 <= k < front.len() && front[k].id == rs.last().id;
            assert(rs[k].id == rs[n].id);
        }
        assert forall|y: Seq<char>| has_id(rs, y) <==> (has_id(front, y) || y == rs.last().id) by {
            if has_id(rs, y) {
                let k = choose|k: int| 0 <= k < rs.len() && rs[k].id == y;
                if k != n {
                    assert(front[k].id == y);
                }
            }
            if has_id(front, y) {
                let k = choose|k: int| 0 <= k < front.len() && front[k].id == y;
                assert(rs[k].id == y);
            }
            if y == rs.last().id {
                assert(rs[n].id == y);
            }
        }
    }
}

proof fn lemma_removed_all(s: Seq<UserView>, ids: Seq<Seq<char>>)
    requires
        unique_ids(s),
        ids.no_duplicates(),
        forall|k: int| 0 <= k < ids.len() ==> has_id(s, #[trigger] ids[k]),
    ensures
        unique_ids(removed_all(s, ids)),
        removed_all(s, ids).len() == s.len() - ids.len(),
        forall|y: Seq<char>| has_id(removed_all(s, ids), y) <==> (has_id(s, y) && !ids.contains(y)),
    decreases ids.len(),
{
    if ids.len() > 0 {
        let front = ids.drop_last();
        let n = ids.len() - 1;
        assert forall|k: int| 0 <= k < front.len() implies has_id(s, #[trigger] front[k]) by {
            assert(front[k] == ids[k]);
        }
        lemma_removed_all(s, front);
        let t = removed_all(s, front);
        lemma_removed(t, ids.last());
        assert(has_id(s, ids[n]));
        assert(!front.contains(ids[n]));
        assert forall|y: Seq<char>| ids.contains(y) <==> (front.contains(y) || y == ids.last()) by {
            if ids.contains(y) {
                let k = choose|k: int| 0 <= k < ids.len() && ids[k] == y;
                if k != n {
                    assert(front[k] == y);
                }
            }
            if front.contains(y) {
                let k = choose|k: int| 0 <= k < front.len() && front[k] == y;
                assert(ids[k] == y);
            }
        }
    }
}

/// Starting from an empty collection, writing `n` records with distinct ids
/// and then deleting `m` distinct ones of those ids leaves exactly `n - m`
/// records.
pub proof fn law_get_all_cardinality(rs: Seq<UserView>, ids: Seq<Seq<char>>)
    requires
        unique_ids(rs),
        ids.no_duplicates(),
        forall|k: int| 0 <= k < ids.len() ==> has_id(rs, #[trigger] ids[k]),
    ensures
        ids.len() <= rs.len(),
        removed_all(stored_all(Seq::empty(), rs), ids).len() == rs.len() - ids.len(),
{
    lemma_stored_all(rs);
    lemma_removed_all(stored_all(Seq::empty(), rs), ids);
}

/// An update body without a string id is refused as missing its
/// identifier, whatever the collection holds, and the collection is left as
/// it was: neither the existence check nor a write is reached.
pub proof fn law_missing_id_rejected(s: Seq<UserView>, es: Seq<(Seq<char>, FieldValueView)>)
    requires
        id_of(es) is None,
    ensures
        update_request(es) == Err::<(Seq<char>, PayloadView), RequestErrorView>(
            RequestErrorView::MissingIdentifier,
        ),
        update_effect(s, es) == (s, rejection_view(RequestErrorView::MissingIdentifier)),
{
}

/// A well-formed update, or a delete, aimed at an id that the existence
/// check does not find is refused as not found, and the collection is left
/// as it was: the mutation is never applied.
pub proof fn law_existence_gate(
    s: Seq<UserView>,
    es: Seq<(Seq<char>, FieldValueView)>,
    id: Seq<char>,
    p: PayloadView,
)
    requires
        !has_id(s, id),
    ensures
        update_request(es) == Ok::<(Seq<char>, PayloadView), RequestErrorView>((id, p))
            ==> update_effect(s, es) == (s, rejection_view(RequestErrorView::UserNotFound(id))),
        delete_effect(s, id) == (s, rejection_view(RequestErrorView::UserNotFound(id))),
{
}

} // verus!
