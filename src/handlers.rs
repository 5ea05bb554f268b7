use vstd::prelude::*;
use crate::error::{request_error_of, MyError, RequestError, RequestErrorView};
use crate::model::{User, UserView};
use crate::reply::{
    insert_reply, insert_reply_view, rejection_reply, rejection_view, update_reply,
    update_reply_view, users_reply, users_reply_view, delete_reply, delete_reply_view, Reply,
    ReplyView,
};
use crate::request::{entries_view, parse_update, update_request, FieldValue, FieldValueView};
use crate::store::{has_id, removed, stored, updated, UserStore};

verus! {

/// Relies on uuid's `Uuid::new_v4` and its `Display`: a random version-4
/// UUID in hyphenated form, 36 characters long.
#[verifier::external_body]
fn fresh_id() -> (r: String)
    ensures
        r@.len() == 36,
{
    uuid::Uuid::new_v4().to_string()
}

/// The record as it is written: a record without an id takes `fresh` as its id.
pub open spec fn with_assigned_id(u: UserView, fresh: Seq<char>) -> UserView {
    if u.id.len() == 0 {
        UserView { id: fresh, ..u }
    } else {
        u
    }
}

/// Gives a record without an id the id `fresh`; a record with one keeps it.
pub fn assign_id(user: User, fresh: String) -> (r: User)
    ensures
        r@ == with_assigned_id(user@, fresh@),
{
    if user.id.as_str().is_empty() {
        User { id: fresh, ..user }
    } else {
        user
    }
}

/// The record as it will be written: unchanged when it has an id, else
/// given a freshly generated one.
pub fn ensure_id(user: User) -> (r: User)
    ensures
        user@.id.len() > 0 ==> r@ == user@,
        user@.id.len() == 0 ==> r@.id.len() == 36 && r@ == (UserView { id: r@.id, ..user@ }),
{
    if user.id.as_str().is_empty() {
        assign_id(user, fresh_id())
    } else {
        user
    }
}

/// The existence gate in front of every mutation: a mutation proceeds only
/// when the existence check answered true. A negative answer is not-found,
/// a failed check a store failure.
pub fn existence_gate(id: &String, checked: &Result<bool, MyError>) -> (r: Result<(), RequestError>)
    ensures
        match checked {
            Ok(true) => r is Ok,
            Ok(false) => r matches Err(e) && e@ == RequestErrorView::UserNotFound(id@),
            Err(e) => r matches Err(x) && x@ == request_error_of(e@),
        },
{
    match checked {
        Ok(true) => Ok(()),
        Ok(false) => Err(RequestError::UserNotFound(id.clone())),
        Err(e) => Err(RequestError::from_service(e)),
    }
}

/// The collection and the reply after an update request with body `es`:
/// a malformed body and an unknown id are refused before any write.
pub open spec fn update_effect(s: Seq<UserView>, es: Seq<(Seq<char>, FieldValueView)>) -> (
    Seq<UserView>,
    ReplyView,
) {
    match update_request(es) {
        Err(e) => (s, rejection_view(e)),
        Ok((id, p)) => if has_id(s, id) {
            (updated(s, id, p), update_reply_view(Ok(())))
        } else {
            (s, rejection_view(RequestErrorView::UserNotFound(id)))
        },
    }
}

/// The collection and the reply after a delete request for `id`: an unknown
/// id is refused before any delete.
pub open spec fn delete_effect(s: Seq<UserView>, id: Seq<char>) -> (Seq<UserView>, ReplyView) {
    if has_id(s, id) {
        (removed(s, id), delete_reply_view(Ok(())))
    } else {
        (s, rejection_view(RequestErrorView::UserNotFound(id)))
    }
}

/// Inserts a record. A record with an id is written under it; one without
/// gets a freshly generated id. The reply carries the id used.
pub fn handle_insert_user(store: &mut UserStore, user: User) -> (out: Reply)
    requires
        old(store).wf(),
    ensures
        final(store).wf(),
        user@.id.len() > 0 ==> final(store)@ == stored(old(store)@, user@) && out@
            == insert_reply_view(Ok(user@.id)),
        user@.id.len() == 0 ==> exists|g: Seq<char>|
            g.len() == 36 && final(store)@ == stored(old(store)@, UserView { id: g, ..user@ })
                && out@ == insert_reply_view(Ok(g)),
{
    let user = ensure_id(user);
    let id = store.insert(user);
    insert_reply(&Ok(id))
}

/// Applies an update request: reads the id and the payload from the body,
/// checks that the id exists, and only then merge-writes.
pub fn handle_update_user(store: &mut UserStore, body: &Vec<(String, FieldValue)>) -> (out: Reply)
    requires
        old(store).wf(),
    ensures
        final(store).wf(),
        (final(store)@, out@) == update_effect(old(store)@, entries_view(body@)),
{
    match parse_update(body) {
        Err(e) => rejection_reply(&e),
        Ok((id, p)) => {
            let exists = store.check_user_exists(&id);
            match existence_gate(&id, &Ok(exists)) {
                Err(e) => rejection_reply(&e),
                Ok(()) => {
                    let r = store.update_by_id(id, &p);
                    update_reply(&r)
                },
            }
        },
    }
}

/// Applies a delete request: checks that the id exists, and only then deletes.
pub fn handle_delete_user(store: &mut UserStore, id: String) -> (out: Reply)
    requires
        old(store).wf(),
    ensures
        final(store).wf(),
        (final(store)@, out@) == delete_effect(old(store)@, id@),
{
    let exists = store.check_user_exists(&id);
    match existence_gate(&id, &Ok(exists)) {
        Err(e) => rejection_reply(&e),
        Ok(()) => {
            store.delete_by_id(&id);
            delete_reply(&Ok(()))
        },
    }
}

/// Lists every record.
pub fn handle_get_all_users(store: &UserStore) -> (out: Reply)
    ensures
        out@ == users_reply_view(Ok(store@)),
{
    users_reply(&Ok(store.get_all()))
}

} // verus!
