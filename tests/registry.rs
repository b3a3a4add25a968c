use user_registry::error::{Error, Errors};
use user_registry::handlers::{
    admit_user, bad_request_error, get_user, get_users, insert_user, lookup_user,
    not_found_error, GetUserReply, STATUS_CREATED,
};
use user_registry::service::create_user;
use user_registry::store::UserStore;
use user_registry::user::{User, UserRequest, UserResponse};

fn request(username: &str, password: &str, email: &str) -> UserRequest {
    UserRequest {
        username: username.to_string(),
        password: password.to_string(),
        email: email.to_string(),
    }
}

fn user(id: u128, username: &str, is_active: bool) -> User {
    User {
        id,
        username: username.to_string(),
        password: "secret".to_string(),
        email: "u@x.com".to_string(),
        is_active,
    }
}

fn id_text(id: u128) -> String {
    uuid::Uuid::from_u128(id).to_string()
}

fn single_error(errors: &Errors) -> &Error {
    assert_eq!(errors.errors.len(), 1);
    &errors.errors[0]
}

#[test]
fn create_list_and_get_unknown_scenario() {
    let mut store = UserStore::new();
    let created = insert_user(&mut store, request("alice", "pw", "a@x.com"));
    assert_eq!(STATUS_CREATED, 201);
    assert_eq!(created.username, "alice");
    assert!(created.is_active);
    assert_eq!(id_text(created.id).len(), 36);

    let listed = get_users(&store);
    assert_eq!(listed.len(), 1);
    assert_eq!(listed[0].id, created.id);
    assert_eq!(listed[0].username, "alice");
    assert!(listed[0].is_active);

    let mut unused = uuid::Uuid::new_v4().as_u128();
    while unused == created.id {
        unused = uuid::Uuid::new_v4().as_u128();
    }
    let reply = get_user(&store, &id_text(unused));
    assert_eq!(reply.status_code(), 404);
    match reply {
        GetUserReply::NotFound(errors) => {
            assert_eq!(single_error(&errors).reason, "user not found");
        }
        _ => panic!("expected a not-found reply"),
    }
}

#[test]
fn creations_give_one_record_each_with_distinct_ids() {
    let mut store = UserStore::new();
    let mut ids: Vec<u128> = Vec::new();
    for k in 0..20 {
        let r = insert_user(&mut store, request(&format!("user{}", k), "pw", "e@x.com"));
        ids.push(r.id);
    }
    assert_eq!(store.len(), 20);
    for i in 0..ids.len() {
        for j in (i + 1)..ids.len() {
            assert_ne!(ids[i], ids[j]);
        }
    }
}

#[test]
fn get_after_create_returns_the_view() {
    let mut store = UserStore::new();
    insert_user(&mut store, request("bob", "pw1", "b@x.com"));
    let created = insert_user(&mut store, request("carol", "pw2", "c@x.com"));
    let reply = get_user(&store, &id_text(created.id));
    assert_eq!(reply.status_code(), 200);
    match reply {
        GetUserReply::Found(view) => {
            assert_eq!(view.id, created.id);
            assert_eq!(view.username, "carol");
            assert!(view.is_active);
        }
        _ => panic!("expected the created user"),
    }
}

#[test]
fn get_accepts_other_textual_forms() {
    let mut store = UserStore::new();
    let created = insert_user(&mut store, request("dave", "pw", "d@x.com"));
    let simple = uuid::Uuid::from_u128(created.id).simple().to_string().to_uppercase();
    match get_user(&store, &simple) {
        GetUserReply::Found(view) => assert_eq!(view.username, "dave"),
        _ => panic!("expected the created user"),
    }
}

#[test]
fn list_keeps_creation_order() {
    let mut store = UserStore::new();
    let names = ["ann", "ben", "cid", "dot"];
    let mut created: Vec<UserResponse> = Vec::new();
    for name in names.iter() {
        created.push(insert_user(&mut store, request(name, "pw", "x@x.com")));
    }
    let listed = get_users(&store);
    assert_eq!(listed.len(), names.len());
    for i in 0..names.len() {
        assert_eq!(listed[i].id, created[i].id);
        assert_eq!(listed[i].username, names[i]);
        assert!(listed[i].is_active);
    }
}

#[test]
fn list_skips_inactive_but_get_finds_them() {
    let mut store = UserStore::new();
    store.insert(user(1, "on", true));
    store.insert(user(2, "off", false));
    store.insert(user(3, "on2", true));
    let listed = get_users(&store);
    assert_eq!(listed.len(), 2);
    assert_eq!(listed[0].id, 1);
    assert_eq!(listed[1].id, 3);
    assert!(listed.iter().all(|u| u.is_active));

    match get_user(&store, &id_text(2)) {
        GetUserReply::Found(view) => {
            assert_eq!(view.username, "off");
            assert!(!view.is_active);
        }
        _ => panic!("expected the inactive user"),
    }
}

#[test]
fn list_of_empty_store_is_empty() {
    let store = UserStore::new();
    assert!(get_users(&store).is_empty());
    assert_eq!(store.list_active().len(), 0);
}

#[test]
fn get_with_malformed_id_is_bad_request() {
    let mut store = UserStore::new();
    insert_user(&mut store, request("alice", "pw", "a@x.com"));
    for path in ["not-a-uuid", "", "550e8400-e29b-41d4-a716-44665544000g", "12345"] {
        let reply = get_user(&store, path);
        assert_eq!(reply.status_code(), 400);
        match reply {
            GetUserReply::BadRequest(errors) => {
                let e = single_error(&errors);
                assert_eq!(e.reason, "Bad Request");
                assert_eq!(e.message, "Invalid UUID format in the path");
            }
            _ => panic!("expected a bad-request reply"),
        }
    }
}

#[test]
fn get_with_unused_id_names_it() {
    let store = UserStore::new();
    let text = "550e8400-e29b-41d4-a716-446655440000";
    let reply = get_user(&store, text);
    assert_eq!(reply.status_code(), 404);
    match reply {
        GetUserReply::NotFound(errors) => {
            let e = single_error(&errors);
            assert_eq!(e.reason, "user not found");
            assert!(e.message.contains(text));
            assert_eq!(
                e.message,
                "The user 550e8400-e29b-41d4-a716-446655440000 was not found in the management. Try using `is_active` = false in the query parameter"
            );
        }
        _ => panic!("expected a not-found reply"),
    }
}

#[test]
fn not_found_message_uses_hyphenated_lower_case() {
    let store = UserStore::new();
    let reply = lookup_user(&store, Some(0x550E8400E29B41D4A716446655440000));
    match reply {
        GetUserReply::NotFound(errors) => {
            assert!(single_error(&errors)
                .message
                .contains("550e8400-e29b-41d4-a716-446655440000"));
        }
        _ => panic!("expected a not-found reply"),
    }
}

#[test]
fn lookup_without_parsed_id_is_bad_request() {
    let store = UserStore::new();
    let reply = lookup_user(&store, None);
    assert_eq!(reply.status_code(), 400);
    assert!(matches!(reply, GetUserReply::BadRequest(_)));
}

#[test]
fn error_constructors_give_exact_text() {
    let e = bad_request_error();
    assert_eq!(e.reason, "Bad Request");
    assert_eq!(e.message, "Invalid UUID format in the path");
    let e = not_found_error("abc");
    assert_eq!(e.reason, "user not found");
    assert_eq!(
        e.message,
        "The user abc was not found in the management. Try using `is_active` = false in the query parameter"
    );
    let envelope = Errors::single(not_found_error("x"));
    assert_eq!(envelope.errors.len(), 1);
}

#[test]
fn create_user_copies_fields_and_is_active() {
    let u = create_user(request("eve", "pw", "e@x.com"));
    assert_eq!(u.username, "eve");
    assert_eq!(u.password, "pw");
    assert_eq!(u.email, "e@x.com");
    assert!(u.is_active);
    let w = create_user(request("eve", "pw", "e@x.com"));
    assert_ne!(u.id, w.id);
}

#[test]
fn store_keeps_password_but_views_omit_it() {
    let mut store = UserStore::new();
    let created = insert_user(&mut store, request("frank", "hunter2", "f@x.com"));
    match store.find_by_id(created.id) {
        Some(u) => {
            assert_eq!(u.password, "hunter2");
            assert_eq!(u.email, "f@x.com");
        }
        None => panic!("expected the stored record"),
    }
}

#[test]
fn colliding_id_is_replaced_by_smallest_unused() {
    let mut store = UserStore::new();
    store.insert(user(0, "a", true));
    store.insert(user(1, "b", true));
    store.insert(user(7, "c", true));
    assert_eq!(store.fresh_id(9), 9);
    assert_eq!(store.fresh_id(7), 2);
    let r = admit_user(&mut store, user(1, "d", true));
    assert_eq!(r.id, 2);
    assert_eq!(r.username, "d");
    assert_eq!(store.len(), 4);
    assert!(store.contains_id(2));
    let r = admit_user(&mut store, user(42, "e", true));
    assert_eq!(r.id, 42);
}

#[test]
fn find_by_id_returns_matching_record() {
    let mut store = UserStore::new();
    store.insert(user(5, "five", true));
    store.insert(user(6, "six", false));
    assert_eq!(store.find_by_id(6).map(|u| u.username), Some("six".to_string()));
    assert!(store.find_by_id(4).is_none());
    assert!(!store.contains_id(4));
}

#[test]
fn inserting_returns_a_copy() {
    let mut store = UserStore::new();
    let copy = store.insert(user(3, "copy", true));
    assert_eq!(copy.id, 3);
    assert_eq!(copy.username, "copy");
    let cloned = copy.clone();
    assert_eq!(cloned.password, "secret");
    let view = cloned.to_response();
    assert_eq!(view.id, 3);
}
