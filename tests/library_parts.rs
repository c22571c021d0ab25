use chat_relay::credentials::password_hash;
use chat_relay::env::Env;
use chat_relay::google_types::{AudioConfig, AudioEncoding, SynthesisInput, VoiceRequest, VoiceSelectionParams};
use chat_relay::protocol::{DatabaseMessage, NetworkMessage};
use chat_relay::types::{GroqTextRequest, Login, Message, Messages, Register, ServerResponse, UserInfo, WebMessage};
use chat_relay::worker::{
    audio_file_path, chat_outcome, has_content, login_outcome, login_request, push_notice,
    register_outcome, register_request, Outcome, BAD_REQUEST, FORBIDDEN, UNAUTHORIZED,
};

fn s(text: &str) -> String {
    text.to_string()
}

fn web(id: &str) -> WebMessage {
    WebMessage::new(Message::new("user", id), 1, s(id))
}

#[test]
fn password_hash_is_hex_sha256() {
    assert_eq!(password_hash("abc"), "ba7816bf8f01cfea414140de5dae2223b00361a396177a9cb410ff61f20015ad");
    assert_eq!(password_hash(""), "e3b0c44298fc1c149afbf4c8996fb92427ae41e4649b934ca495991b7852b855");
}

#[test]
fn window_takes_newest_messages_within_budget() {
    let mut context = Messages::new(vec![web("a"), web("b"), web("c")]);
    context.max_tokens = 100;
    context.answer_tokens = 10;
    let window = context.get_window(20, &vec![30, 50, 40]);
    let ids: Vec<&str> = window.iter().map(|m| m.id.as_str()).collect();
    assert_eq!(ids, vec!["b", "c"]);
    let all = context.get_window(0, &vec![1, 1, 1]);
    assert_eq!(all.len(), 3);
}

#[test]
fn window_is_empty_when_no_budget_is_left() {
    let mut context = Messages::new(vec![web("a")]);
    context.max_tokens = 10;
    context.answer_tokens = 20;
    assert!(context.get_window(5, &vec![1]).is_empty());
    context.answer_tokens = 5;
    assert!(context.get_window(5, &vec![1]).is_empty());
}

#[test]
fn pushing_appends_to_the_context() {
    let mut context = Messages::new(Vec::new());
    context.push(web("a"));
    context.push(web("b"));
    assert_eq!(context.messages.len(), 2);
    assert_eq!(context.messages[1].id, "b");
    assert_eq!(context.max_tokens, 0);
    assert_eq!(context.used_tokens, 0);
}

#[test]
fn completion_request_keeps_messages_in_order() {
    let request = GroqTextRequest::new(vec![web("a"), web("b")], s("model-x"));
    assert_eq!(request.model, "model-x");
    assert_eq!(request.messages.len(), 2);
    assert_eq!(request.messages[1].content.as_deref(), Some("b"));
    assert_eq!(request.messages[1].role.as_deref(), Some("user"));
}

fn vars(pairs: &[(&str, &str)]) -> Vec<(String, String)> {
    pairs.iter().map(|(k, v)| (s(k), s(v))).collect()
}

fn full_vars() -> Vec<(String, String)> {
    vars(&[
        ("API_KEY", "k"),
        ("TEXT_MODEL", "tm"),
        ("VOICE_MODEL", "vm"),
        ("CONTEXT_SIZE", "+4096"),
        ("ANSWER_MAX", "512"),
        ("GOOGLE_API_KEY", "g"),
        ("VOICE", "v"),
        ("PROJECT_ID", "p"),
    ])
}

#[test]
fn env_reads_every_setting() {
    let env = Env::from_vars(&full_vars()).expect("complete settings");
    assert_eq!(env.api_key(), "k");
    assert_eq!(env.text_model(), "tm");
    assert_eq!(env.voice_model(), "vm");
    assert_eq!(env.context_size, 4096);
    assert_eq!(env.answer_max, 512);
    assert_eq!(env.google_api_key(), "g");
    assert_eq!(env.voice(), "v");
    assert_eq!(env.project_id(), "p");
}

#[test]
fn env_refuses_missing_or_malformed_settings() {
    let mut missing = full_vars();
    missing.retain(|(k, _)| k.as_str() != "VOICE");
    assert!(Env::from_vars(&missing).is_none());
    let mut bad = full_vars();
    bad[3].1 = s("12a");
    assert!(Env::from_vars(&bad).is_none());
    bad[3].1 = s("-1");
    assert!(Env::from_vars(&bad).is_none());
    bad[3].1 = s("18446744073709551616");
    assert!(Env::from_vars(&bad).is_none());
    bad[3].1 = s("18446744073709551615");
    assert_eq!(Env::from_vars(&bad).unwrap().context_size, u64::MAX);
}

#[test]
fn voice_request_speaks_text_in_mp3() {
    let request = VoiceRequest::new(s("olá"), s("voice-a"));
    assert!(matches!(&request.input, SynthesisInput::Text(t) if t == "olá"));
    assert_eq!(request.voice.name, "voice-a");
    assert_eq!(request.voice.language_code, "pt-BR");
    assert_eq!(request.audio_config.audio_encoding, AudioEncoding::Mp3);
    assert_eq!(VoiceSelectionParams::new(s("x")).language_code, "pt-BR");
    assert_eq!(AudioConfig::new(AudioEncoding::OggOpus).audio_encoding, AudioEncoding::OggOpus);
}

#[test]
fn login_request_trims_then_hashes() {
    let request = login_request(&s("c"), &Login { email: s("a@x"), password: s("  pw \n") });
    match request {
        NetworkMessage::LoginRequest(c, e, h) => {
            assert_eq!(c, "c");
            assert_eq!(e, "a@x");
            assert_eq!(h, password_hash("pw"));
        }
        _ => panic!("not a login request"),
    }
    let register = Register { email: s("a@x"), password: s(" pw "), name: s("A") };
    assert!(matches!(register_request(&s("c"), &register), NetworkMessage::RegisterUser(_, n, _, p) if n == "A" && p == "pw"));
}

#[test]
fn answers_map_to_client_outcomes() {
    let ok = login_outcome(DatabaseMessage::UserInfo(UserInfo::new(s("a@x"), s("A"), s("T"))));
    assert!(matches!(ok, Outcome::Respond(ServerResponse::UserInfo(i)) if i.token == "T"));
    assert!(matches!(login_outcome(DatabaseMessage::Failure), Outcome::Fail(c, r) if c == UNAUTHORIZED && r == "Unauthorized"));
    let register = Register { email: s("a@x"), password: s("pw"), name: s("A") };
    let made = register_outcome(&register, DatabaseMessage::Token(s("T")));
    assert!(matches!(made, Outcome::Respond(ServerResponse::UserInfo(i)) if i.email == "a@x" && i.name == "A" && i.token == "T"));
    assert!(matches!(chat_outcome(DatabaseMessage::Failure), Outcome::Fail(c, _) if c == FORBIDDEN));
}

#[test]
fn only_notices_are_pushed() {
    assert!(matches!(push_notice(DatabaseMessage::Deleted(s("C"))), Some(ServerResponse::Deleted(c)) if c == "C"));
    assert!(matches!(push_notice(DatabaseMessage::NewChat(s("C"))), Some(ServerResponse::ChatId(c)) if c == "C"));
    assert!(matches!(push_notice(DatabaseMessage::WebMessage(web("m"))), Some(ServerResponse::Message(m)) if m.id == "m"));
    assert!(push_notice(DatabaseMessage::Timestamp(3)).is_none());
}

#[test]
fn blank_messages_have_no_content() {
    assert!(!has_content("   \t\n"));
    assert!(has_content("  hi "));
    assert_eq!(BAD_REQUEST, 400);
}

#[test]
fn audio_is_cached_under_the_static_directory() {
    assert_eq!(audio_file_path(&s("m1")), "static/m1");
}
