use chat_relay::credentials::password_hash;
use chat_relay::database::{DbConnection, TOKEN_LIFETIME};
use chat_relay::protocol::{DatabaseMessage, Delivery, NetworkMessage};
use chat_relay::store::{MessageRow, StoreChange};

fn s(text: &str) -> String {
    text.to_string()
}

fn actor_with(connections: &[&str]) -> DbConnection {
    let mut db = DbConnection::new();
    for c in connections {
        db.register_connection(s(c));
    }
    db
}

fn register(db: &mut DbConnection, conn: &str, name: &str, email: &str, password: &str, now: u64, token: &str) -> Vec<Delivery> {
    db.process_with(NetworkMessage::RegisterUser(s(conn), s(name), s(email), s(password)), now, s(token))
}

fn login(db: &mut DbConnection, conn: &str, email: &str, password: &str, now: u64, fresh: &str) -> Vec<Delivery> {
    db.process_with(NetworkMessage::LoginRequest(s(conn), s(email), password_hash(password)), now, s(fresh))
}

fn new_message(db: &mut DbConnection, conn: &str, token: &str, sender: &str, chat: &str, content: &str, id: &str, now: u64) -> Vec<Delivery> {
    db.process_with(
        NetworkMessage::NewMessage(s(conn), s(token), s(sender), s(chat), s(content), s(id)),
        now,
        s("unused"),
    )
}

fn chat_request(db: &mut DbConnection, conn: &str, token: &str, chat: &str, now: u64) -> Vec<Delivery> {
    db.process_with(NetworkMessage::ChatRequest(s(conn), s(token), s(chat)), now, s("unused"))
}

fn only_failure(out: &[Delivery], conn: &str) -> bool {
    out.len() == 1 && out[0].connection == conn && matches!(out[0].message, DatabaseMessage::Failure)
}

#[test]
fn register_login_chat_and_message_scenario() {
    let mut db = actor_with(&["c"]);
    let out = register(&mut db, "c", "Alice", "a@x", "password1", 1000, "T1");
    assert_eq!(out.len(), 1);
    assert_eq!(out[0].connection, "c");
    assert!(matches!(&out[0].message, DatabaseMessage::Token(t) if t == "T1"));

    let out = login(&mut db, "c", "a@x", "password1", 1500, "T2");
    assert_eq!(out.len(), 1);
    match &out[0].message {
        DatabaseMessage::UserInfo(info) => {
            assert_eq!(info.token, "T1");
            assert_eq!(info.name, "Alice");
            assert_eq!(info.email, "a@x");
        }
        other => panic!("unexpected {:?}", other),
    }

    let out = db.process_with(NetworkMessage::NewChat(s("c"), s("a@x")), 1600, s("C"));
    assert_eq!(out.len(), 1);
    assert_eq!(out[0].connection, "c");
    assert!(matches!(&out[0].message, DatabaseMessage::NewChat(id) if id == "C"));

    let out = new_message(&mut db, "c", "T1", "user", "C", "hi", "mid1", 1700);
    assert_eq!(out.len(), 1);
    let ts1 = match out[0].message {
        DatabaseMessage::Timestamp(t) => t,
        ref other => panic!("unexpected {:?}", other),
    };
    assert_eq!(ts1, 1700);
    let out = new_message(&mut db, "c", "T1", "assistant", "C", "hello", "mid2", 1701);
    assert!(matches!(out[0].message, DatabaseMessage::Timestamp(1701)));

    let out = chat_request(&mut db, "c", "T1", "C", 1800);
    assert_eq!(out.len(), 1);
    match &out[0].message {
        DatabaseMessage::Messages(chat, list) => {
            assert_eq!(chat, "C");
            assert_eq!(list.len(), 2);
            assert_eq!(list[0].message.role.as_deref(), Some("user"));
            assert_eq!(list[0].message.content.as_deref(), Some("hi"));
            assert_eq!(list[0].id, "mid1");
            assert_eq!(list[0].created_at, ts1);
            assert_eq!(list[1].message.role.as_deref(), Some("assistant"));
            assert_eq!(list[1].message.content.as_deref(), Some("hello"));
            assert_eq!(list[1].id, "mid2");
        }
        other => panic!("unexpected {:?}", other),
    }
}

#[test]
fn expired_token_is_refused_without_renewal() {
    let mut db = actor_with(&["c"]);
    register(&mut db, "c", "Alice", "a@x", "password1", 1000, "T1");
    let expired = 1000 + TOKEN_LIFETIME + 1;
    let out = db.process_with(NetworkMessage::TokenValidation(s("c"), s("T1")), expired, s("x"));
    assert!(only_failure(&out, "c"));
    let out = chat_request(&mut db, "c", "T1", "C", expired);
    assert!(only_failure(&out, "c"));
    let out = db.process_with(NetworkMessage::TokenValidation(s("c"), s("T1")), 1000 + TOKEN_LIFETIME, s("x"));
    assert!(matches!(&out[0].message, DatabaseMessage::Email(e) if e == "a@x"));
}

#[test]
fn chat_request_returns_the_fifty_newest_of_seventy_five() {
    let mut db = actor_with(&["c"]);
    register(&mut db, "c", "Alice", "a@x", "pw", 1000, "T");
    for i in 0..75u64 {
        let id = format!("m{}", i);
        new_message(&mut db, "c", "T", "user", "C", &format!("text {}", i), &id, 2000 + i);
    }
    let out = chat_request(&mut db, "c", "T", "C", 3000);
    match &out[0].message {
        DatabaseMessage::Messages(_, list) => {
            assert_eq!(list.len(), 50);
            for (k, m) in list.iter().enumerate() {
                assert_eq!(m.id, format!("m{}", k + 25));
                assert_eq!(m.created_at, 2025 + k as u64);
            }
        }
        other => panic!("unexpected {:?}", other),
    }
}

#[test]
fn chat_request_with_few_messages_returns_all() {
    let mut db = actor_with(&["c"]);
    register(&mut db, "c", "Alice", "a@x", "pw", 1000, "T");
    let out = chat_request(&mut db, "c", "T", "C", 1001);
    assert!(matches!(&out[0].message, DatabaseMessage::Messages(_, list) if list.is_empty()));
    new_message(&mut db, "c", "T", "user", "C", "one", "m1", 1002);
    new_message(&mut db, "c", "T", "user", "other", "two", "m2", 1003);
    let out = chat_request(&mut db, "c", "T", "C", 1004);
    assert!(matches!(&out[0].message, DatabaseMessage::Messages(_, list) if list.len() == 1 && list[0].id == "m1"));
}

#[test]
fn logins_leave_exactly_one_live_token() {
    let mut db = actor_with(&["c", "d"]);
    register(&mut db, "c", "Alice", "a@x", "pw", 1000, "T1");
    let first = login(&mut db, "c", "a@x", "pw", 1100, "T2");
    let second = login(&mut db, "c", "a@x", "pw", 1200, "T3");
    for out in [&first, &second] {
        assert!(matches!(&out[0].message, DatabaseMessage::UserInfo(i) if i.token == "T1"));
    }
    let later = 1000 + TOKEN_LIFETIME + 5;
    let renewed = login(&mut db, "c", "a@x", "pw", later, "T4");
    assert!(matches!(&renewed[0].message, DatabaseMessage::UserInfo(i) if i.token == "T4"));
    let old = db.process_with(NetworkMessage::TokenValidation(s("d"), s("T1")), later, s("x"));
    assert!(only_failure(&old, "d"));
    let new = db.process_with(NetworkMessage::TokenValidation(s("d"), s("T4")), later, s("x"));
    assert!(matches!(&new[0].message, DatabaseMessage::Email(e) if e == "a@x"));
}

#[test]
fn new_message_is_pushed_to_other_sessions_only() {
    let mut db = actor_with(&["a", "b"]);
    register(&mut db, "a", "Alice", "u@x", "pw", 1000, "T");
    login(&mut db, "a", "u@x", "pw", 1001, "unused");
    db.process_with(NetworkMessage::TokenValidation(s("b"), s("T")), 1002, s("x"));

    let out = new_message(&mut db, "a", "T", "user", "C", "hi", "m1", 1003);
    assert_eq!(out.len(), 2);
    assert_eq!(out[0].connection, "a");
    assert!(matches!(out[0].message, DatabaseMessage::Timestamp(1003)));
    assert_eq!(out[1].connection, "b");
    match &out[1].message {
        DatabaseMessage::WebMessage(m) => {
            assert_eq!(m.id, "m1");
            assert_eq!(m.created_at, 1003);
            assert_eq!(m.message.content.as_deref(), Some("hi"));
            assert_eq!(m.message.role.as_deref(), Some("user"));
        }
        other => panic!("unexpected {:?}", other),
    }

    let out = db.process_with(NetworkMessage::NewChat(s("a"), s("u@x")), 1004, s("C2"));
    let mut targets: Vec<&str> = out.iter().map(|d| d.connection.as_str()).collect();
    targets.sort();
    assert_eq!(targets, vec!["a", "b"]);
    assert!(out.iter().all(|d| matches!(&d.message, DatabaseMessage::NewChat(id) if id == "C2")));
}

#[test]
fn delete_chat_removes_messages_and_notifies_others() {
    let mut db = actor_with(&["a", "b"]);
    register(&mut db, "a", "Alice", "u@x", "pw", 1000, "T");
    db.process_with(NetworkMessage::TokenValidation(s("b"), s("T")), 1001, s("x"));
    db.process_with(NetworkMessage::NewChat(s("a"), s("u@x")), 1002, s("C"));
    new_message(&mut db, "a", "T", "user", "C", "hi", "m1", 1003);

    let out = db.process_with(NetworkMessage::DeleteChat(s("a"), s("T"), s("C")), 1004, s("x"));
    assert_eq!(out.len(), 2);
    assert_eq!(out[0].connection, "a");
    assert!(matches!(&out[0].message, DatabaseMessage::Deleted(c) if c == "C"));
    assert_eq!(out[1].connection, "b");
    assert!(matches!(&out[1].message, DatabaseMessage::Deleted(c) if c == "C"));

    let chats = db.process_with(NetworkMessage::GetChats(s("a"), s("u@x")), 1005, s("x"));
    assert!(matches!(&chats[0].message, DatabaseMessage::Chats(v) if v.is_empty()));
    let out = chat_request(&mut db, "a", "T", "C", 1006);
    assert!(matches!(&out[0].message, DatabaseMessage::Messages(_, list) if list.is_empty()));
    let gone = db.process_with(NetworkMessage::GetMessage(s("a"), s("m1")), 1007, s("x"));
    assert!(only_failure(&gone, "a"));
}

#[test]
fn audio_cache_keeps_the_first_path() {
    let mut db = actor_with(&["c"]);
    let miss = db.process_with(NetworkMessage::GetAudioPath(s("c"), s("m1")), 1, s("x"));
    assert!(only_failure(&miss, "c"));
    let none = db.process_with(NetworkMessage::RecordAudioPath(s("m1"), s("static/m1")), 2, s("x"));
    assert!(none.is_empty());
    let hit = db.process_with(NetworkMessage::GetAudioPath(s("c"), s("m1")), 3, s("x"));
    assert!(matches!(&hit[0].message, DatabaseMessage::AudioPath(p) if p == "static/m1"));
    db.process_with(NetworkMessage::RecordAudioPath(s("m1"), s("elsewhere")), 4, s("x"));
    let again = db.process_with(NetworkMessage::GetAudioPath(s("c"), s("m1")), 5, s("x"));
    assert!(matches!(&again[0].message, DatabaseMessage::AudioPath(p) if p == "static/m1"));
}

#[test]
fn sequential_messages_are_all_stored_in_timestamp_order() {
    let mut db = actor_with(&["c"]);
    register(&mut db, "c", "Alice", "a@x", "pw", 1000, "T");
    let times = [1500u64, 1400, 1600, 1600, 1200];
    let mut stamps = Vec::new();
    for (i, now) in times.iter().enumerate() {
        let out = new_message(&mut db, "c", "T", "user", "C", "x", &format!("m{}", i), *now);
        match out[0].message {
            DatabaseMessage::Timestamp(t) => stamps.push(t),
            ref other => panic!("unexpected {:?}", other),
        }
    }
    assert_eq!(stamps, vec![1500, 1500, 1600, 1600, 1600]);
    let out = chat_request(&mut db, "c", "T", "C", 2000);
    match &out[0].message {
        DatabaseMessage::Messages(_, list) => {
            assert_eq!(list.len(), 5);
            let ids: Vec<&str> = list.iter().map(|m| m.id.as_str()).collect();
            assert_eq!(ids, vec!["m0", "m1", "m2", "m3", "m4"]);
            assert!(list.windows(2).all(|w| w[0].created_at <= w[1].created_at));
        }
        other => panic!("unexpected {:?}", other),
    }
}

#[test]
fn duplicate_registration_is_refused() {
    let mut db = actor_with(&["c"]);
    register(&mut db, "c", "Alice", "a@x", "pw", 1000, "T1");
    let out = register(&mut db, "c", "Other", "a@x", "pw2", 1001, "T2");
    assert!(only_failure(&out, "c"));
    let out = login(&mut db, "c", "a@x", "pw2", 1002, "T3");
    assert!(only_failure(&out, "c"));
}

#[test]
fn wrong_password_and_unknown_user_are_refused() {
    let mut db = actor_with(&["c"]);
    register(&mut db, "c", "Alice", "a@x", "pw", 1000, "T1");
    assert!(only_failure(&login(&mut db, "c", "a@x", "nope", 1001, "T2"), "c"));
    assert!(only_failure(&login(&mut db, "c", "b@x", "pw", 1001, "T2"), "c"));
    let out = db.process_with(NetworkMessage::TokenValidation(s("c"), s("unknown")), 1002, s("x"));
    assert!(only_failure(&out, "c"));
    let out = new_message(&mut db, "c", "unknown", "user", "C", "hi", "m", 1003);
    assert!(only_failure(&out, "c"));
    let out = db.process_with(NetworkMessage::DeleteChat(s("c"), s("unknown"), s("C")), 1004, s("x"));
    assert!(only_failure(&out, "c"));
}

#[test]
fn requests_from_unregistered_connections_are_ignored() {
    let mut db = actor_with(&["c"]);
    let out = register(&mut db, "ghost", "Alice", "a@x", "pw", 1000, "T1");
    assert!(out.is_empty());
    let out = register(&mut db, "c", "Alice", "a@x", "pw", 1000, "T1");
    assert!(matches!(&out[0].message, DatabaseMessage::Token(t) if t == "T1"));
}

#[test]
fn disconnected_sessions_get_no_more_notices() {
    let mut db = actor_with(&["a", "b"]);
    register(&mut db, "a", "Alice", "u@x", "pw", 1000, "T");
    db.process_with(NetworkMessage::TokenValidation(s("b"), s("T")), 1001, s("x"));
    db.process_with(NetworkMessage::Disconnect(s("b")), 1002, s("x"));
    let out = new_message(&mut db, "a", "T", "user", "C", "hi", "m1", 1003);
    assert_eq!(out.len(), 1);
    assert_eq!(out[0].connection, "a");
    let out = db.process_with(NetworkMessage::TokenValidation(s("b"), s("T")), 1004, s("x"));
    assert!(out.is_empty());
}

#[test]
fn get_message_returns_content_with_empty_role() {
    let mut db = actor_with(&["c"]);
    register(&mut db, "c", "Alice", "a@x", "pw", 1000, "T");
    new_message(&mut db, "c", "T", "user", "C", "hello there", "m1", 1001);
    let out = db.process_with(NetworkMessage::GetMessage(s("c"), s("m1")), 1002, s("x"));
    match &out[0].message {
        DatabaseMessage::Message(m) => {
            assert_eq!(m.content.as_deref(), Some("hello there"));
            assert_eq!(m.role.as_deref(), Some(""));
        }
        other => panic!("unexpected {:?}", other),
    }
}

#[test]
fn chats_are_listed_in_creation_order_per_user() {
    let mut db = actor_with(&["c"]);
    db.process_with(NetworkMessage::NewChat(s("c"), s("a@x")), 1, s("C1"));
    db.process_with(NetworkMessage::NewChat(s("c"), s("b@x")), 2, s("C2"));
    db.process_with(NetworkMessage::NewChat(s("c"), s("a@x")), 3, s("C3"));
    let out = db.process_with(NetworkMessage::GetChats(s("c"), s("a@x")), 4, s("x"));
    assert!(matches!(&out[0].message, DatabaseMessage::Chats(v) if v == &vec![s("C1"), s("C3")]));
}

#[test]
fn process_draws_distinct_identifiers() {
    let mut db = actor_with(&["c"]);
    let a = db.process(NetworkMessage::RegisterUser(s("c"), s("A"), s("a@x"), s("pw")), 1000);
    let b = db.process(NetworkMessage::RegisterUser(s("c"), s("B"), s("b@x"), s("pw")), 1000);
    let ta = match &a[0].message {
        DatabaseMessage::Token(t) => t.clone(),
        other => panic!("unexpected {:?}", other),
    };
    let tb = match &b[0].message {
        DatabaseMessage::Token(t) => t.clone(),
        other => panic!("unexpected {:?}", other),
    };
    assert_ne!(ta, tb);
    assert_eq!(ta.len(), 36);
}

#[test]
fn recorded_writes_rebuild_an_equal_actor() {
    let mut db = actor_with(&["c"]);
    register(&mut db, "c", "Alice", "a@x", "pw", 1000, "T");
    db.process_with(NetworkMessage::NewChat(s("c"), s("a@x")), 1001, s("C1"));
    db.process_with(NetworkMessage::NewChat(s("c"), s("a@x")), 1002, s("C2"));
    new_message(&mut db, "c", "T", "user", "C1", "hi", "m1", 1003);
    new_message(&mut db, "c", "T", "user", "C2", "yo", "m2", 1004);
    db.process_with(NetworkMessage::DeleteChat(s("c"), s("T"), s("C2")), 1005, s("x"));
    db.process_with(NetworkMessage::RecordAudioPath(s("m1"), s("static/m1")), 1006, s("x"));
    let changes = db.take_changes();
    assert_eq!(changes.len(), 8);
    assert!(db.take_changes().is_empty());

    let mut copy = actor_with(&["c"]);
    for change in changes {
        assert!(copy.replay(change));
    }
    assert!(copy.take_changes().is_empty());
    let chats = copy.process_with(NetworkMessage::GetChats(s("c"), s("a@x")), 1007, s("x"));
    assert!(matches!(&chats[0].message, DatabaseMessage::Chats(v) if v == &vec![s("C1")]));
    let listing = chat_request(&mut copy, "c", "T", "C1", 1008);
    assert!(matches!(&listing[0].message, DatabaseMessage::Messages(_, l) if l.len() == 1 && l[0].id == "m1"));
    let audio = copy.process_with(NetworkMessage::GetAudioPath(s("c"), s("m1")), 1009, s("x"));
    assert!(matches!(&audio[0].message, DatabaseMessage::AudioPath(p) if p == "static/m1"));
    assert!(only_failure(&login(&mut copy, "c", "a@x", "wrong", 1010, "U"), "c"));
    let again = login(&mut copy, "c", "a@x", "pw", 1010, "U");
    assert!(matches!(&again[0].message, DatabaseMessage::UserInfo(i) if i.token == "T" && i.name == "Alice"));
}

#[test]
fn replay_refuses_a_message_older_than_the_last() {
    let row = |id: &str, at: u64| MessageRow {
        email: s("a@x"),
        chat_id: s("C"),
        sender: s("user"),
        content: s("x"),
        created_at: at,
        id: s(id),
    };
    let mut db = DbConnection::new();
    assert!(db.replay(StoreChange::AddMessage(row("m1", 50))));
    assert!(!db.replay(StoreChange::AddMessage(row("m0", 40))));
    assert!(db.replay(StoreChange::AddMessage(row("m2", 50))));
}

#[test]
fn identifiers_already_in_use_are_refused() {
    let mut db = actor_with(&["c"]);
    register(&mut db, "c", "Alice", "a@x", "pw", 1000, "T");
    let out = register(&mut db, "c", "Bob", "b@x", "pw", 1001, "T");
    assert!(only_failure(&out, "c"));
    assert!(only_failure(&login(&mut db, "c", "b@x", "pw", 1001, "U"), "c"));
    register(&mut db, "c", "Bob", "b@x", "pw", 1002, "U");
    let later = 1002 + TOKEN_LIFETIME + 1;
    assert!(only_failure(&login(&mut db, "c", "b@x", "pw", later, "T"), "c"));
    let out = login(&mut db, "c", "b@x", "pw", later, "V");
    assert!(matches!(&out[0].message, DatabaseMessage::UserInfo(i) if i.token == "V"));

    db.process_with(NetworkMessage::NewChat(s("c"), s("a@x")), 1003, s("C"));
    let out = db.process_with(NetworkMessage::NewChat(s("c"), s("b@x")), 1004, s("C"));
    assert!(only_failure(&out, "c"));
    let chats = db.process_with(NetworkMessage::GetChats(s("c"), s("b@x")), 1005, s("x"));
    assert!(matches!(&chats[0].message, DatabaseMessage::Chats(v) if v.is_empty()));
}

#[test]
fn registration_and_login_both_trim_the_password() {
    let register = chat_relay::types::Register { email: s("a@x"), password: s("  pw  "), name: s("A") };
    let mut db = actor_with(&["c"]);
    db.process_with(chat_relay::worker::register_request(&s("c"), &register), 1000, s("T"));
    let login_msg = chat_relay::types::Login { email: s("a@x"), password: s(" pw") };
    let out = db.process_with(chat_relay::worker::login_request(&s("c"), &login_msg), 1001, s("U"));
    assert!(matches!(&out[0].message, DatabaseMessage::UserInfo(i) if i.token == "T"));
}
