use user_records::{
    any_with_id, assign_id, delete_reply, existence_gate, handle_delete_user,
    handle_get_all_users, handle_insert_user, handle_update_user, insert_reply, parse_update,
    rejection_reply, render_user, update_reply, user_from_lookup, users_reply, FieldValue,
    MyError, RequestError, UpdatePayload, User, UserStore,
};

fn user(id: &str, first_name: &str, email: &str, phone: &str) -> User {
    User::new(id.to_string(), first_name.to_string(), email.to_string(), phone.to_string())
}

fn text(key: &str, value: &str) -> (String, FieldValue) {
    (key.to_string(), FieldValue::Text(value.to_string()))
}

fn same(a: &User, b: &User) -> bool {
    a.id == b.id && a.first_name == b.first_name && a.email == b.email && a.phone == b.phone
}

#[test]
fn scenario_insert_update_get() {
    let mut store = UserStore::new();
    let reply = handle_insert_user(&mut store, user("u1", "Ann", "a@x.com", "555"));
    assert_eq!(reply.code, 200);
    assert_eq!(reply.body, r#"{"status":"User inserted successfully","id":"u1"}"#);

    let body = vec![text("id", "u1"), text("phone", "999")];
    let reply = handle_update_user(&mut store, &body);
    assert_eq!(reply.code, 200);
    assert_eq!(reply.body, r#"{"status":"User updated successfully"}"#);

    let got = store.get_user_by_id("u1".to_string()).unwrap();
    assert!(same(&got, &user("u1", "Ann", "a@x.com", "999")));
}

#[test]
fn insert_then_get_returns_the_record() {
    let mut store = UserStore::new();
    let r = user("a", "Bo", "b@y.org", "1");
    assert_eq!(store.insert(r.clone()), "a");
    assert!(same(&store.get_user_by_id("a".to_string()).unwrap(), &r));
}

#[test]
fn insert_with_existing_id_overwrites() {
    let mut store = UserStore::new();
    store.insert(user("a", "Bo", "b@y.org", "1"));
    store.insert(user("a", "Cy", "c@y.org", "2"));
    assert_eq!(store.get_all().len(), 1);
    assert!(same(&store.get_user_by_id("a".to_string()).unwrap(), &user("a", "Cy", "c@y.org", "2")));
}

#[test]
fn insert_without_id_generates_one() {
    let mut store = UserStore::new();
    let reply = handle_insert_user(&mut store, user("", "Ann", "a@x.com", "555"));
    assert_eq!(reply.code, 200);
    let all = store.get_all();
    assert_eq!(all.len(), 1);
    assert_eq!(all[0].id.len(), 36);
    assert_eq!(all[0].first_name, "Ann");
    assert!(reply.body.contains(&all[0].id));
}

#[test]
fn assign_id_keeps_a_given_id() {
    assert_eq!(assign_id(user("k", "A", "e", "p"), "fresh".to_string()).id, "k");
    assert_eq!(assign_id(user("", "A", "e", "p"), "fresh".to_string()).id, "fresh");
}

#[test]
fn update_changes_only_the_given_fields() {
    let mut store = UserStore::new();
    store.insert(user("a", "Bo", "b@y.org", "1"));
    store.insert(user("b", "Cy", "c@y.org", "2"));
    let p = UpdatePayload::empty().with_email("new@y.org".to_string());
    assert!(store.update_by_id("a".to_string(), &p).is_ok());
    assert!(same(&store.get_user_by_id("a".to_string()).unwrap(), &user("a", "Bo", "new@y.org", "1")));
    assert!(same(&store.get_user_by_id("b".to_string()).unwrap(), &user("b", "Cy", "c@y.org", "2")));
}

#[test]
fn update_of_unknown_id_is_a_store_failure() {
    let mut store = UserStore::new();
    let p = UpdatePayload::empty().with_phone("9".to_string());
    match store.update_by_id("zz".to_string(), &p) {
        Err(MyError::FirestoreError(m)) => assert_eq!(m, "no document to update: zz"),
        other => panic!("unexpected {:?}", other),
    }
    assert_eq!(store.get_all().len(), 0);
}

#[test]
fn apply_merges_fields() {
    let mut u = user("a", "Bo", "b@y.org", "1");
    u.apply(&UpdatePayload::empty().with_first_name("Al".to_string()).with_phone("7".to_string()));
    assert!(same(&u, &user("a", "Al", "b@y.org", "7")));
}

#[test]
fn field_names_follow_the_payload() {
    let p = UpdatePayload::empty().with_phone("1".to_string()).with_first_name("x".to_string());
    assert_eq!(p.field_names(), vec!["first_name".to_string(), "phone".to_string()]);
    assert!(UpdatePayload::empty().is_empty());
    assert!(!p.is_empty());
}

#[test]
fn delete_twice_is_harmless_at_the_store() {
    let mut store = UserStore::new();
    store.insert(user("a", "Bo", "b@y.org", "1"));
    store.delete_by_id(&"a".to_string());
    store.delete_by_id(&"a".to_string());
    assert_eq!(store.get_all().len(), 0);
    assert!(!store.check_user_exists(&"a".to_string()));
}

#[test]
fn delete_handler_rejects_missing_id() {
    let mut store = UserStore::new();
    store.insert(user("a", "Bo", "b@y.org", "1"));
    let reply = handle_delete_user(&mut store, "a".to_string());
    assert_eq!(reply.code, 200);
    assert_eq!(reply.body, r#"{"status":"User deleted successfully"}"#);
    let reply = handle_delete_user(&mut store, "a".to_string());
    assert_eq!(reply.code, 404);
    assert_eq!(reply.body, r#"{"status":"User not found","id":"a"}"#);
}

#[test]
fn get_all_count_after_inserts_and_deletes() {
    let mut store = UserStore::new();
    for i in 0..5 {
        store.insert(user(&format!("id{}", i), "n", "e", "p"));
    }
    store.delete_by_id(&"id1".to_string());
    store.delete_by_id(&"id3".to_string());
    assert_eq!(store.get_all().len(), 3);
}

#[test]
fn get_all_reply_lists_users() {
    let mut store = UserStore::new();
    store.insert(user("a", "Bo", "b@y.org", "1"));
    let reply = handle_get_all_users(&store);
    assert_eq!(reply.code, 200);
    assert_eq!(
        reply.body,
        r#"{"status":"Success","users":[{"id":"a","first_name":"Bo","email":"b@y.org","phone":"1"}]}"#
    );
    let empty = handle_get_all_users(&UserStore::new());
    assert_eq!(empty.body, r#"{"status":"Success","users":[]}"#);
}

#[test]
fn check_exists_and_select() {
    let mut store = UserStore::new();
    store.insert(user("a", "Bo", "b@y.org", "1"));
    store.insert(user("b", "Cy", "c@y.org", "2"));
    assert!(store.check_user_exists(&"b".to_string()));
    assert!(!store.check_user_exists(&"c".to_string()));
    let found = store.select_where_id(&"b".to_string());
    assert_eq!(found.len(), 1);
    assert_eq!(found[0].first_name, "Cy");
}

#[test]
fn get_unknown_id_is_not_found() {
    let store = UserStore::new();
    match store.get_user_by_id("q".to_string()) {
        Err(MyError::UserNotFound(id)) => assert_eq!(id, "q"),
        other => panic!("unexpected {:?}", other),
    }
}

#[test]
fn update_without_id_is_missing_identifier() {
    let mut store = UserStore::new();
    store.insert(user("a", "Bo", "b@y.org", "1"));
    let body = vec![text("phone", "9")];
    assert!(matches!(parse_update(&body), Err(RequestError::MissingIdentifier)));
    let reply = handle_update_user(&mut store, &body);
    assert_eq!(reply.code, 400);
    assert_eq!(reply.body, r#"{"status":"Missing user id"}"#);
    let body = vec![("id".to_string(), FieldValue::Other), text("phone", "9")];
    assert!(matches!(parse_update(&body), Err(RequestError::MissingIdentifier)));
    assert_eq!(store.get_user_by_id("a".to_string()).unwrap().phone, "1");
}

#[test]
fn update_of_absent_user_is_rejected() {
    let mut store = UserStore::new();
    let body = vec![text("id", "nobody"), text("phone", "9")];
    let reply = handle_update_user(&mut store, &body);
    assert_eq!(reply.code, 404);
    assert_eq!(reply.body, r#"{"status":"User not found","id":"nobody"}"#);
    assert_eq!(store.get_all().len(), 0);
}

#[test]
fn parse_strips_nulls_and_refuses_unknown_fields() {
    let body = vec![
        text("id", "u1"),
        ("email".to_string(), FieldValue::Null),
        ("nickname".to_string(), FieldValue::Null),
        text("first_name", "Ann"),
    ];
    let (id, p) = parse_update(&body).unwrap();
    assert_eq!(id, "u1");
    assert_eq!(p.first_name.as_deref(), Some("Ann"));
    assert!(p.email.is_none() && p.phone.is_none());

    let body = vec![text("id", "u1"), text("nickname", "x")];
    match parse_update(&body) {
        Err(RequestError::UnknownField(k)) => assert_eq!(k, "nickname"),
        other => panic!("unexpected {:?}", other),
    }
    let body = vec![text("id", "u1"), ("phone".to_string(), FieldValue::Other)];
    match parse_update(&body) {
        Err(RequestError::InvalidValue(k)) => assert_eq!(k, "phone"),
        other => panic!("unexpected {:?}", other),
    }
}

#[test]
fn rejection_replies_by_kind() {
    let r = rejection_reply(&RequestError::UnknownField("x".to_string()));
    assert_eq!((r.code, r.body.as_str()), (400, r#"{"status":"Unknown field","field":"x"}"#));
    let r = rejection_reply(&RequestError::InvalidValue("phone".to_string()));
    assert_eq!((r.code, r.body.as_str()), (400, r#"{"status":"Invalid field value","field":"phone"}"#));
    let r = rejection_reply(&RequestError::StoreFailure("down".to_string()));
    assert_eq!((r.code, r.body.as_str()), (500, r#"{"status":"Store error","error":"down"}"#));
}

#[test]
fn existence_gate_outcomes() {
    let id = "u".to_string();
    assert!(existence_gate(&id, &Ok(true)).is_ok());
    assert!(matches!(existence_gate(&id, &Ok(false)), Err(RequestError::UserNotFound(x)) if x == "u"));
    match existence_gate(&id, &Err(MyError::FirestoreError("timeout".to_string()))) {
        Err(RequestError::StoreFailure(m)) => assert_eq!(m, "Firestore error: timeout"),
        other => panic!("unexpected {:?}", other),
    }
}

#[test]
fn error_messages() {
    assert_eq!(MyError::FirestoreError("boom".to_string()).message(), "Firestore error: boom");
    assert_eq!(MyError::UserNotFound("u9".to_string()).message(), "User not found with id: u9");
    assert!(matches!(
        RequestError::from_service(&MyError::UserNotFound("u9".to_string())),
        RequestError::UserNotFound(x) if x == "u9"
    ));
}

#[test]
fn failure_replies() {
    let e = MyError::FirestoreError("down".to_string());
    let r = insert_reply(&Err(MyError::FirestoreError("down".to_string())));
    assert_eq!((r.code, r.body.as_str()), (500, r#"{"status":"Error inserting user","error":"Firestore error: down"}"#));
    let r = delete_reply(&Err(MyError::FirestoreError("down".to_string())));
    assert_eq!(r.body, r#"{"status":"Error deleting user","error":"Firestore error: down"}"#);
    let r = users_reply(&Err(e));
    assert_eq!(r.body, r#"{"status":"Error fetching users","error":"Firestore error: down"}"#);
    let r = update_reply(&Err(MyError::FirestoreError("down".to_string())));
    assert_eq!((r.code, r.body.as_str()), (500, r#"{"status":"Store error","error":"Firestore error: down"}"#));
}

#[test]
fn rendering_escapes_text() {
    let u = user("q\"1", "A\\B", "line\nbreak", "5");
    assert_eq!(
        render_user(&u),
        r#"{"id":"q\"1","first_name":"A\\B","email":"line\nbreak","phone":"5"}"#
    );
}

#[test]
fn lookup_helpers() {
    let us = vec![user("a", "", "", ""), user("b", "", "", "")];
    assert!(any_with_id(&us, &"b".to_string()));
    assert!(!any_with_id(&us, &"c".to_string()));
    assert!(user_from_lookup("a".to_string(), Some(user("a", "n", "e", "p"))).is_ok());
    assert!(matches!(user_from_lookup("z".to_string(), None), Err(MyError::UserNotFound(x)) if x == "z"));
}
