use vstd::prelude::*;
use crate::error::{error_message, request_error_of, ErrorView, MyError, RequestError, RequestErrorView};
use crate::model::{User, UserView};

verus! {

/// The JSON string literal that serde_json writes for a text: quoted, with
/// its special characters escaped.
pub uninterp spec fn json_string(s: Seq<char>) -> Seq<char>;

/// Relies on serde_json's `Display` for `Value`: a `Value::String` prints as
/// its JSON string literal, which depends on the text alone.
#[verifier::external_body]
fn json_quote(s: &str) -> (r: String)
    ensures
        r@ == json_string(s@),
{
    serde_json::Value::String(s.to_string()).to_string()
}

/// The parts, separated by commas.
pub open spec fn comma_joined(parts: Seq<Seq<char>>) -> Seq<char>
    decreases parts.len(),
{
    if parts.len() == 0 {
        Seq::empty()
    } else if parts.len() == 1 {
        parts[0]
    } else {
        comma_joined(parts.drop_last()) + ","@ + parts.last()
    }
}

pub open spec fn json_member(key: Seq<char>, value: Seq<char>) -> Seq<char> {
    json_string(key) + ":"@ + value
}

pub open spec fn json_object(members: Seq<Seq<char>>) -> Seq<char> {
    "{"@ + comma_joined(members) + "}"@
}

pub open spec fn json_array(items: Seq<Seq<char>>) -> Seq<char> {
    "["@ + comma_joined(items) + "]"@
}

/// A user record as a JSON object, its attributes in declaration order.
pub open spec fn user_json(u: UserView) -> Seq<char> {
    json_object(
        seq![
            json_member("id"@, json_string(u.id)),
            json_member("first_name"@, json_string(u.first_name)),
            json_member("email"@, json_string(u.email)),
            json_member("phone"@, json_string(u.phone)),
        ],
    )
}

/// A body that carries a status only.
pub open spec fn status_body(status: Seq<char>) -> Seq<char> {
    json_object(seq![json_member("status"@, json_string(status))])
}

/// A body that carries a status and one more member, already in JSON.
pub open spec fn status_body_with(status: Seq<char>, key: Seq<char>, value: Seq<char>) -> Seq<
    char,
> {
    json_object(seq![json_member("status"@, json_string(status)), json_member(key, value)])
}

/// An HTTP reply: status code and JSON body.
#[derive(Debug)]
pub struct Reply {
    pub code: u16,
    pub body: String,
}

pub struct ReplyView {
    pub code: u16,
    pub body: Seq<char>,
}

impl View for Reply {
    type V = ReplyView;

    open spec fn view(&self) -> ReplyView {
        ReplyView { code: self.code, body: self.body@ }
    }
}

pub open spec fn failure_reply(status: Seq<char>, e: ErrorView) -> ReplyView {
    ReplyView {
        code: 500,
        body: status_body_with(status, "error"@, json_string(error_message(e))),
    }
}

pub open spec fn insert_reply_view(r: Result<Seq<char>, ErrorView>) -> ReplyView {
    match r {
        Ok(id) => ReplyView {
            code: 200,
            body: status_body_with("User inserted successfully"@, "id"@, json_string(id)),
        },
        Err(e) => failure_reply("Error inserting user"@, e),
    }
}

pub open spec fn users_reply_view(r: Result<Seq<UserView>, ErrorView>) -> ReplyView {
    match r {
        Ok(us) => ReplyView {
            code: 200,
            body: status_body_with("Success"@, "users"@, json_array(us.map_values(|u| user_json(u)))),
        },
        Err(e) => failure_reply("Error fetching users"@, e),
    }
}

pub open spec fn delete_reply_view(r: Result<(), ErrorView>) -> ReplyView {
    match r {
        Ok(_) => ReplyView { code: 200, body: status_body("User deleted successfully"@) },
        Err(e) => failure_reply("Error deleting user"@, e),
    }
}

/// The reply to a refused request: 400 for a malformed body, 404 for an
/// unknown id, 500 for a store failure.
pub open spec fn rejection_view(e: RequestErrorView) -> ReplyView {
    match e {
        RequestErrorView::MissingIdentifier => ReplyView {
            code: 400,
            body: status_body("Missing user id"@),
        },
        RequestErrorView::UnknownField(k) => ReplyView {
            code: 400,
            body: status_body_with("Unknown field"@, "field"@, json_string(k)),
        },
        RequestErrorView::InvalidValue(k) => ReplyView {
            code: 400,
            body: status_body_with("Invalid field value"@, "field"@, json_string(k)),
        },
        RequestErrorView::UserNotFound(id) => ReplyView {
            code: 404,
            body: status_body_with("User not found"@, "id"@, json_string(id)),
        },
        RequestErrorView::StoreFailure(m) => ReplyView {
            code: 500,
            body: status_body_with("Store error"@, "error"@, json_string(m)),
        },
    }
}

pub open spec fn update_reply_view(r: Result<(), ErrorView>) -> ReplyView {
    match r {
        Ok(_) => ReplyView { code: 200, body: status_body("User updated successfully"@) },
        Err(e) => rejection_view(request_error_of(e)),
    }
}

fn join_with_commas(parts: &Vec<String>) -> (r: String)
    ensures
        r@ == comma_joined(parts@.map_values(|s: String| s@)),
{
    let ghost ps = parts@.map_values(|s: String| s@);
    let mut r = String::new();
    let mut i: usize = 0;
    while i < parts.len()
        invariant
            i <= parts@.len(),
            ps == parts@.map_values(|s: String| s@),
            r@ == comma_joined(ps.subrange(0, i as int)),
        decreases parts@.len() - i,
    {
        proof {
            assert(ps.subrange(0, i + 1).drop_last() =~= ps.subrange(0, i as int));
            assert(ps[i as int] == parts@[i as int]@);
        }
        if i > 0 {
            r.append(",");
        }
        r.append(parts[i].as_str());
        proof {
            if i == 0 {
                assert(r@ =~= comma_joined(ps.subrange(0, 1)));
            }
        }
        i = i + 1;
    }
    proof {
        assert(ps.subrange(0, i as int) =~= ps);
    }
    r
}

fn member(key: &str, value: String) -> (r: String)
    ensures
        r@ == json_member(key@, value@),
{
    let mut r = json_quote(key);
    r.append(":");
    r.append(value.as_str());
    r
}

fn object(members: Vec<String>) -> (r: String)
    ensures
        r@ == json_object(members@.map_values(|s: String| s@)),
{
    let mut r = String::from_str("{");
    let inner = join_with_commas(&members);
    r.append(inner.as_str());
    r.append("}");
    r
}

fn status_only(status: &str) -> (r: String)
    ensures
        r@ == status_body(status@),
{
    let members = vec![member("status", json_quote(status))];
    let r = object(members);
    proof {
        assert(members@.map_values(|s: String| s@) =~= seq![
            json_member("status"@, json_string(status@)),
        ]);
    }
    r
}

fn status_with(status: &str, key: &str, value: String) -> (r: String)
    ensures
        r@ == status_body_with(status@, key@, value@),
{
    let members = vec![member("status", json_quote(status)), member(key, value)];
    let ghost v = members@;
    let r = object(members);
    proof {
        assert(v.map_values(|s: String| s@) =~= seq![
            json_member("status"@, json_string(status@)),
            json_member(key@, value@),
        ]);
    }
    r
}

/// A user record rendered as a JSON object.
pub fn render_user(u: &User) -> (r: String)
    ensures
        r@ == user_json(u@),
{
    let members = vec![
        member("id", json_quote(u.id.as_str())),
        member("first_name", json_quote(u.first_name.as_str())),
        member("email", json_quote(u.email.as_str())),
        member("phone", json_quote(u.phone.as_str())),
    ];
    let ghost v = members@;
    let r = object(members);
    proof {
        assert(v.map_values(|s: String| s@) =~= seq![
            json_member("id"@, json_string(u.id@)),
            json_member("first_name"@, json_string(u.first_name@)),
            json_member("email"@, json_string(u.email@)),
            json_member("phone"@, json_string(u.phone@)),
        ]);
    }
    r
}

fn failure(status: &str, e: &MyError) -> (r: Reply)
    ensures
        r@ == failure_reply(status@, e@),
{
    let m = e.message();
    Reply { code: 500, body: status_with(status, "error", json_quote(m.as_str())) }
}

/// The reply to an insert: the id written, or the store failure.
pub fn insert_reply(r: &Result<String, MyError>) -> (out: Reply)
    ensures
        out@ == insert_reply_view(
            match r {
                Ok(id) => Ok(id@),
                Err(e) => Err(e@),
            },
        ),
{
    match r {
        Ok(id) => Reply {
            code: 200,
            body: status_with("User inserted successfully", "id", json_quote(id.as_str())),
        },
        Err(e) => failure("Error inserting user", e),
    }
}

/// The reply to a listing: every record, or the store failure.
pub fn users_reply(r: &Result<Vec<User>, MyError>) -> (out: Reply)
    ensures
        out@ == users_reply_view(
            match r {
                Ok(us) => Ok(us@.map_values(|u: User| u@)),
                Err(e) => Err(e@),
            },
        ),
{
    match r {
        Ok(us) => {
            let mut items: Vec<String> = Vec::new();
            let mut i: usize = 0;
            while i < us.len()
                invariant
                    i <= us@.len(),
                    items@.len() == i,
                    forall|k: int| 0 <= k < i ==> #[trigger] items@[k]@ == user_json(us@[k]@),
                decreases us@.len() - i,
            {
                items.push(render_user(&us[i]));
                i = i + 1;
            }
            let ghost iv = items@;
            let arr = {
                let mut a = String::from_str("[");
                let inner = join_with_commas(&items);
                a.append(inner.as_str());
                a.append("]");
                a
            };
            proof {
                assert(iv.map_values(|s: String| s@) =~= us@.map_values(|u: User| u@).map_values(
                    |u| user_json(u),
                ));
            }
            Reply { code: 200, body: status_with("Success", "users", arr) }
        },
        Err(e) => failure("Error fetching users", e),
    }
}

/// The reply to a refused request.
pub fn rejection_reply(e: &RequestError) -> (out: Reply)
    ensures
        out@ == rejection_view(e@),
{
    match e {
        RequestError::MissingIdentifier => Reply { code: 400, body: status_only("Missing user id") },
        RequestError::UnknownField(k) => Reply {
            code: 400,
            body: status_with("Unknown field", "field", json_quote(k.as_str())),
        },
        RequestError::InvalidValue(k) => Reply {
            code: 400,
            body: status_with("Invalid field value", "field", json_quote(k.as_str())),
        },
        RequestError::UserNotFound(id) => Reply {
            code: 404,
            body: status_with("User not found", "id", json_quote(id.as_str())),
        },
        RequestError::StoreFailure(m) => Reply {
            code: 500,
            body: status_with("Store error", "error", json_quote(m.as_str())),
        },
    }
}

/// The reply to a merge write: success, or the failure as a rejection.
pub fn update_reply(r: &Result<(), MyError>) -> (out: Reply)
    ensures
        out@ == update_reply_view(
            match r {
                Ok(_) => Ok(()),
                Err(e) => Err(e@),
            },
        ),
{
    match r {
        Ok(_) => Reply { code: 200, body: status_only("User updated successfully") },
        Err(e) => rejection_reply(&RequestError::from_service(e)),
    }
}

/// The reply to a delete: success, or the store failure.
pub fn delete_reply(r: &Result<(), MyError>) -> (out: Reply)
    ensures
        out@ == delete_reply_view(
            match r {
                Ok(_) => Ok(()),
                Err(e) => Err(e@),
            },
        ),
{
    match r {
        Ok(_) => Reply { code: 200, body: status_only("User deleted successfully") },
        Err(e) => failure("Error deleting user", e),
    }
}

} // verus!
