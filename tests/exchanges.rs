use chat_relay::exchange::{
    get_audio_step, send_message_step, AudioAction, AudioEvent, AudioState, SendAction, SendEvent, SendState,
};
use chat_relay::database::DbConnection;
use chat_relay::protocol::{DatabaseMessage, NetworkMessage};
use chat_relay::types::{GetAudio, Message, NewMessage, ServerResponse, WebMessage};
use chat_relay::worker::Outcome;

fn s(text: &str) -> String {
    text.to_string()
}

fn begin(content: &str, loaded_chat: &str) -> SendEvent {
    SendEvent::Begin {
        connection: s("c"),
        request: NewMessage { token: s("T"), chat_id: s("C"), content: s(content) },
        loaded_chat: s(loaded_chat),
        message_id: s("m1"),
        reply_id: s("m2"),
    }
}

fn failed_with(action: &SendAction, code: u16) -> bool {
    matches!(action, SendAction::Finish(Outcome::Fail(c, _)) if *c == code)
}

#[test]
fn blank_message_is_a_bad_request_and_not_stored() {
    let (state, action) = send_message_step(SendState::Idle, begin("  \n ", "C"));
    assert!(failed_with(&action, 400));
    assert!(matches!(state, SendState::Done));
}

#[test]
fn unstored_message_is_forbidden() {
    let (state, action) = send_message_step(SendState::Idle, begin("hi", "C"));
    assert!(matches!(&action, SendAction::Ask(NetworkMessage::NewMessage(c, t, r, ch, co, id))
        if c == "c" && t == "T" && r == "user" && ch == "C" && co == "hi" && id == "m1"));
    let (_, action) = send_message_step(state, SendEvent::Answer(DatabaseMessage::Failure));
    assert!(failed_with(&action, 403));
}

#[test]
fn missing_completion_is_a_bad_gateway() {
    let (state, _) = send_message_step(SendState::Idle, begin("hi", "C"));
    let (state, action) = send_message_step(state, SendEvent::Answer(DatabaseMessage::Timestamp(7)));
    assert!(matches!(&action, SendAction::Complete(m) if m.created_at == 7 && m.message.content.as_deref() == Some("hi")));
    let (state, action) = send_message_step(state, SendEvent::Completion(None));
    assert!(failed_with(&action, 502));
    assert!(matches!(state, SendState::Done));
}

#[test]
fn answer_is_stored_then_returned_after_reloading_the_context() {
    let (state, _) = send_message_step(SendState::Idle, begin("hi", "other"));
    let (state, action) = send_message_step(state, SendEvent::Answer(DatabaseMessage::Timestamp(7)));
    assert!(matches!(&action, SendAction::Ask(NetworkMessage::ChatRequest(c, t, ch)) if c == "c" && t == "T" && ch == "C"));
    let old = WebMessage::new(Message::new("user", "earlier"), 1, s("m0"));
    let (state, action) = send_message_step(state, SendEvent::Answer(DatabaseMessage::Messages(s("C"), vec![old])));
    assert!(matches!(&action, SendAction::LoadContext(ch, v) if ch == "C" && v.len() == 1));
    let (state, action) = send_message_step(state, SendEvent::Loaded);
    assert!(matches!(&action, SendAction::Complete(m) if m.created_at == 7));
    let (state, action) = send_message_step(state, SendEvent::Completion(Some(Message::new("assistant", "hello"))));
    assert!(matches!(&action, SendAction::Ask(NetworkMessage::NewMessage(c, t, r, ch, co, id))
        if c == "c" && t == "T" && r == "assistant" && ch == "C" && co == "hello" && id == "m2"));
    let (state, action) = send_message_step(state, SendEvent::Answer(DatabaseMessage::Timestamp(8)));
    assert!(matches!(&action, SendAction::Finish(Outcome::Respond(ServerResponse::Message(m)))
        if m.id == "m2" && m.created_at == 7 && m.message.content.as_deref() == Some("hello")));
    assert!(matches!(state, SendState::Done));
}

#[test]
fn out_of_order_events_end_the_exchange() {
    let (_, action) = send_message_step(SendState::Idle, SendEvent::Loaded);
    assert!(failed_with(&action, 500));
}

fn audio_begin() -> AudioEvent {
    AudioEvent::Begin { connection: s("c"), request: GetAudio { token: s("T"), message_id: s("m1") } }
}

fn audio_failed_with(action: &AudioAction, code: u16) -> bool {
    matches!(action, AudioAction::Finish(Outcome::Fail(c, _)) if *c == code)
}

fn message_found() -> DatabaseMessage {
    DatabaseMessage::Message(Message { content: Some(s("olá")), role: Some(String::new()) })
}

#[test]
fn audio_needs_a_valid_token_and_a_known_message() {
    let (state, action) = get_audio_step(AudioState::Idle, audio_begin());
    assert!(matches!(&action, AudioAction::Ask(NetworkMessage::TokenValidation(c, t)) if c == "c" && t == "T"));
    let (_, action) = get_audio_step(state, AudioEvent::Answer(DatabaseMessage::Failure));
    assert!(audio_failed_with(&action, 401));

    let (state, _) = get_audio_step(AudioState::Idle, audio_begin());
    let (state, action) = get_audio_step(state, AudioEvent::Answer(DatabaseMessage::Email(s("a@x"))));
    assert!(matches!(&action, AudioAction::Ask(NetworkMessage::GetMessage(c, id)) if c == "c" && id == "m1"));
    let (_, action) = get_audio_step(state, AudioEvent::Answer(DatabaseMessage::Failure));
    assert!(audio_failed_with(&action, 403));
}

fn up_to_cache_answer(answer: DatabaseMessage) -> (AudioState, AudioAction) {
    let (state, _) = get_audio_step(AudioState::Idle, audio_begin());
    let (state, _) = get_audio_step(state, AudioEvent::Answer(DatabaseMessage::Email(s("a@x"))));
    let (state, action) = get_audio_step(state, AudioEvent::Answer(message_found()));
    assert!(matches!(&action, AudioAction::Ask(NetworkMessage::GetAudioPath(c, id)) if c == "c" && id == "m1"));
    get_audio_step(state, AudioEvent::Answer(answer))
}

#[test]
fn cached_audio_is_read_from_its_file() {
    let (state, action) = up_to_cache_answer(DatabaseMessage::AudioPath(s("static/m1")));
    assert!(matches!(&action, AudioAction::ReadFile(p) if p == "static/m1"));
    let (_, action) = get_audio_step(state, AudioEvent::FileRead(Some(s("AAAA"))));
    assert!(matches!(&action, AudioAction::Finish(Outcome::Respond(ServerResponse::Audio(a)))
        if a.message_id == "m1" && a.content == "AAAA"));
}

#[test]
fn cache_miss_is_synthesized_then_recorded() {
    let (state, action) = up_to_cache_answer(DatabaseMessage::Failure);
    assert!(matches!(&action, AudioAction::Synthesize(t) if t == "olá"));
    let (state, action) = get_audio_step(state, AudioEvent::Synth(Some(s("BBBB"))));
    assert!(matches!(&action, AudioAction::RecordAndWrite(id, p, a) if id == "m1" && p == "static/m1" && a == "BBBB"));
    let (_, action) = get_audio_step(state, AudioEvent::Recorded);
    assert!(matches!(&action, AudioAction::Finish(Outcome::Respond(ServerResponse::Audio(a)))
        if a.message_id == "m1" && a.content == "BBBB"));
}

#[test]
fn failed_synthesis_is_a_bad_gateway_and_records_nothing() {
    let (state, _) = up_to_cache_answer(DatabaseMessage::Failure);
    let (state, action) = get_audio_step(state, AudioEvent::Synth(None));
    assert!(audio_failed_with(&action, 502));
    assert!(matches!(state, AudioState::Done));
}

#[test]
fn message_exchange_against_the_actor_stores_both_rows() {
    let mut db = DbConnection::new();
    db.register_connection(s("c"));
    db.process_with(NetworkMessage::RegisterUser(s("c"), s("Alice"), s("a@x"), s("password1")), 1000, s("T"));
    db.process_with(NetworkMessage::NewChat(s("c"), s("a@x")), 1001, s("C"));
    let mut state = SendState::Idle;
    let mut event = begin("hi", "none");
    let outcome = loop {
        let (next, action) = send_message_step(state, event);
        state = next;
        event = match action {
            SendAction::Ask(request) => {
                let mut out = db.process_with(request, 1002, s("unused"));
                SendEvent::Answer(out.remove(0).message)
            }
            SendAction::LoadContext(_, _) => SendEvent::Loaded,
            SendAction::Complete(m) => {
                assert_eq!(m.message.content.as_deref(), Some("hi"));
                SendEvent::Completion(Some(Message::new("assistant", "hello")))
            }
            SendAction::Finish(outcome) => break outcome,
        };
    };
    assert!(matches!(&outcome, Outcome::Respond(ServerResponse::Message(m)) if m.id == "m2"));
    let out = db.process_with(NetworkMessage::ChatRequest(s("c"), s("T"), s("C")), 1003, s("x"));
    match &out[0].message {
        DatabaseMessage::Messages(_, list) => {
            assert_eq!(list.len(), 2);
            assert_eq!(list[0].id, "m1");
            assert_eq!(list[0].message.role.as_deref(), Some("user"));
            assert_eq!(list[0].message.content.as_deref(), Some("hi"));
            assert_eq!(list[1].id, "m2");
            assert_eq!(list[1].message.role.as_deref(), Some("assistant"));
            assert_eq!(list[1].message.content.as_deref(), Some("hello"));
            assert!(list[0].created_at <= list[1].created_at);
        }
        other => panic!("unexpected {:?}", other),
    }
}
