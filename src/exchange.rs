use vstd::prelude::*;
use crate::protocol::{DatabaseMessage, DatabaseMessageView, NetworkMessage, NetworkMessageView};
use crate::types::{
    web_views, AudioInfo, GetAudio, Message, MessageView, NewMessage, ServerResponse, ServerResponseView, WebMessage,
    WebMessageView, opt_view,
};
use crate::worker::{audio_file_path, has_content, trimmed_of, Outcome, AUDIO_DIR, BAD_GATEWAY, BAD_REQUEST, FORBIDDEN, INTERNAL_ERROR, UNAUTHORIZED, USER_ROLE};

verus! {

pub enum OutcomeView {
    Respond(ServerResponseView),
    Fail(u16, Seq<char>),
}

impl View for Outcome {
    type V = OutcomeView;

    open spec fn view(&self) -> OutcomeView {
        match self {
            Outcome::Respond(r) => OutcomeView::Respond(r@),
            Outcome::Fail(c, t) => OutcomeView::Fail(*c, t@),
        }
    }
}

fn failure(code: u16, reason: &str) -> (r: Outcome)
    ensures
        r@ == OutcomeView::Fail(code, reason@),
{
    Outcome::Fail(code, reason.to_owned())
}

/// The failure of an exchange that got an event it was not waiting for.
pub open spec fn out_of_step() -> OutcomeView {
    OutcomeView::Fail(INTERNAL_ERROR, "Internal Server Error"@)
}

pub open spec fn text_or_empty(o: Option<Seq<char>>) -> Seq<char> {
    match o {
        Some(t) => t,
        None => Seq::empty(),
    }
}

fn take_text(o: Option<String>) -> (r: String)
    ensures
        r@ == text_or_empty(opt_view(o)),
{
    match o {
        Some(t) => t,
        None => String::new(),
    }
}

/// A client's message as the completion service gets it: the user's role, no identifier.
pub open spec fn user_message(content: Seq<char>, created_at: u64) -> WebMessageView {
    WebMessageView {
        message: MessageView { content: Some(content), role: Some(USER_ROLE@) },
        created_at,
        id: Seq::empty(),
    }
}

// ---------------------------------------------------------------------------
// Sending a message: store it, load the chat's context when the chat changed,
// ask the completion service, store its answer, and answer the client.

/// Where a message exchange stands.
pub enum SendState {
    Idle,
    /// waiting for the actor to store the client's message
    Storing { connection: String, token: String, chat_id: String, content: String, reply_id: String, reload: bool },
    /// waiting for the chat's messages
    Reloading { connection: String, token: String, chat_id: String, content: String, reply_id: String, created_at: u64 },
    /// waiting for the context to be loaded
    Loading { connection: String, token: String, chat_id: String, content: String, reply_id: String, created_at: u64 },
    /// waiting for the completion service
    Completing { connection: String, token: String, chat_id: String, reply_id: String, created_at: u64 },
    /// waiting for the actor to store the answer
    StoringReply { answer: Message, reply_id: String, created_at: u64 },
    Done,
}

pub enum SendStateView {
    Idle,
    Storing { connection: Seq<char>, token: Seq<char>, chat_id: Seq<char>, content: Seq<char>, reply_id: Seq<char>, reload: bool },
    Reloading { connection: Seq<char>, token: Seq<char>, chat_id: Seq<char>, content: Seq<char>, reply_id: Seq<char>, created_at: u64 },
    Loading { connection: Seq<char>, token: Seq<char>, chat_id: Seq<char>, content: Seq<char>, reply_id: Seq<char>, created_at: u64 },
    Completing { connection: Seq<char>, token: Seq<char>, chat_id: Seq<char>, reply_id: Seq<char>, created_at: u64 },
    StoringReply { answer: MessageView, reply_id: Seq<char>, created_at: u64 },
    Done,
}

impl View for SendState {
    type V = SendStateView;

    open spec fn view(&self) -> SendStateView {
        match self {
            SendState::Idle => SendStateView::Idle,
            SendState::Storing { connection, token, chat_id, content, reply_id, reload } => SendStateView::Storing {
                connection: connection@,
                token: token@,
                chat_id: chat_id@,
                content: content@,
                reply_id: reply_id@,
                reload: *reload,
            },
            SendState::Reloading { connection, token, chat_id, content, reply_id, created_at } => SendStateView::Reloading {
                connection: connection@,
                token: token@,
                chat_id: chat_id@,
                content: content@,
                reply_id: reply_id@,
                created_at: *created_at,
            },
            SendState::Loading { connection, token, chat_id, content, reply_id, created_at } => SendStateView::Loading {
                connection: connection@,
                token: token@,
                chat_id: chat_id@,
                content: content@,
                reply_id: reply_id@,
                created_at: *created_at,
            },
            SendState::Completing { connection, token, chat_id, reply_id, created_at } => SendStateView::Completing {
                connection: connection@,
                token: token@,
                chat_id: chat_id@,
                reply_id: reply_id@,
                created_at: *created_at,
            },
            SendState::StoringReply { answer, reply_id, created_at } => SendStateView::StoringReply {
                answer: answer@,
                reply_id: reply_id@,
                created_at: *created_at,
            },
            SendState::Done => SendStateView::Done,
        }
    }
}

/// What happened since the last step of a message exchange.
pub enum SendEvent {
    /// the client's request; the chat whose context is loaded; ids for the message and the answer
    Begin { connection: String, request: NewMessage, loaded_chat: String, message_id: String, reply_id: String },
    Answer(DatabaseMessage),
    Loaded,
    Completion(Option<Message>),
}

pub enum SendEventView {
    Begin {
        connection: Seq<char>,
        token: Seq<char>,
        chat_id: Seq<char>,
        content: Seq<char>,
        loaded_chat: Seq<char>,
        message_id: Seq<char>,
        reply_id: Seq<char>,
    },
    Answer(DatabaseMessageView),
    Loaded,
    Completion(Option<MessageView>),
}

impl View for SendEvent {
    type V = SendEventView;

    open spec fn view(&self) -> SendEventView {
        match self {
            SendEvent::Begin { connection, request, loaded_chat, message_id, reply_id } => SendEventView::Begin {
                connection: connection@,
                token: request.token@,
                chat_id: request.chat_id@,
                content: request.content@,
                loaded_chat: loaded_chat@,
                message_id: message_id@,
                reply_id: reply_id@,
            },
            SendEvent::Answer(a) => SendEventView::Answer(a@),
            SendEvent::Loaded => SendEventView::Loaded,
            SendEvent::Completion(c) => SendEventView::Completion(
                match c {
                    Some(m) => Some(m@),
                    None => None,
                },
            ),
        }
    }
}

/// What the worker does next in a message exchange.
pub enum SendAction {
    /// send a request to the actor and hand back its answer
    Ask(NetworkMessage),
    /// load these messages as the completion context of this chat, then hand back `Loaded`
    LoadContext(String, Vec<WebMessage>),
    /// ask the completion service to answer this message and hand back its answer
    Complete(WebMessage),
    Finish(Outcome),
}

pub enum SendActionView {
    Ask(NetworkMessageView),
    LoadContext(Seq<char>, Seq<WebMessageView>),
    Complete(WebMessageView),
    Finish(OutcomeView),
}

impl View for SendAction {
    type V = SendActionView;

    open spec fn view(&self) -> SendActionView {
        match self {
            SendAction::Ask(r) => SendActionView::Ask(r@),
            SendAction::LoadContext(c, v) => SendActionView::LoadContext(c@, web_views(v@)),
            SendAction::Complete(m) => SendActionView::Complete(m@),
            SendAction::Finish(o) => SendActionView::Finish(o@),
        }
    }
}

/// One step of a message exchange. A blank message is a bad request and is
/// not stored; a message the actor does not store is forbidden; a missing
/// completion is a bad gateway, with no retry; otherwise the answer is stored
/// under `reply_id` and sent to the client with the message's timestamp.
pub open spec fn send_step(s: SendStateView, e: SendEventView) -> (SendStateView, SendActionView) {
    let stray = (SendStateView::Done, SendActionView::Finish(out_of_step()));
    match s {
        SendStateView::Idle => match e {
            SendEventView::Begin { connection, token, chat_id, content, loaded_chat, message_id, reply_id } => if trimmed_of(
                content,
            ).len() == 0 {
                (SendStateView::Done, SendActionView::Finish(OutcomeView::Fail(BAD_REQUEST, "Bad Request"@)))
            } else {
                (
                    SendStateView::Storing { connection, token, chat_id, content, reply_id, reload: loaded_chat != chat_id },
                    SendActionView::Ask(
                        NetworkMessageView::NewMessage(connection, token, USER_ROLE@, chat_id, content, message_id),
                    ),
                )
            },
            _ => stray,
        },
        SendStateView::Storing { connection, token, chat_id, content, reply_id, reload } => match e {
            SendEventView::Answer(DatabaseMessageView::Timestamp(ts)) => if reload {
                (
                    SendStateView::Reloading { connection, token, chat_id, content, reply_id, created_at: ts },
                    SendActionView::Ask(NetworkMessageView::ChatRequest(connection, token, chat_id)),
                )
            } else {
                (
                    SendStateView::Completing { connection, token, chat_id, reply_id, created_at: ts },
                    SendActionView::Complete(user_message(content, ts)),
                )
            },
            SendEventView::Answer(_) => (
                SendStateView::Done,
                SendActionView::Finish(OutcomeView::Fail(FORBIDDEN, "Forbidden"@)),
            ),
            _ => stray,
        },
        SendStateView::Reloading { connection, token, chat_id, content, reply_id, created_at } => match e {
            SendEventView::Answer(DatabaseMessageView::Messages(_, list)) => (
                SendStateView::Loading { connection, token, chat_id, content, reply_id, created_at },
                SendActionView::LoadContext(chat_id, list),
            ),
            SendEventView::Answer(_) => (
                SendStateView::Completing { connection, token, chat_id, reply_id, created_at },
                SendActionView::Complete(user_message(content, created_at)),
            ),
            _ => stray,
        },
        SendStateView::Loading { connection, token, chat_id, content, reply_id, created_at } => match e {
            SendEventView::Loaded => (
                SendStateView::Completing { connection, token, chat_id, reply_id, created_at },
                SendActionView::Complete(user_message(content, created_at)),
            ),
            _ => stray,
        },
        SendStateView::Completing { connection, token, chat_id, reply_id, created_at } => match e {
            SendEventView::Completion(None) => (
                SendStateView::Done,
                SendActionView::Finish(OutcomeView::Fail(BAD_GATEWAY, "Bad Gateway"@)),
            ),
            SendEventView::Completion(Some(answer)) => (
                SendStateView::StoringReply { answer, reply_id, created_at },
                SendActionView::Ask(
                    NetworkMessageView::NewMessage(
                        connection,
                        token,
                        text_or_empty(answer.role),
                        chat_id,
                        text_or_empty(answer.content),
                        reply_id,
                    ),
                ),
            ),
            _ => stray,
        },
        SendStateView::StoringReply { answer, reply_id, created_at } => match e {
            SendEventView::Answer(_) => (
                SendStateView::Done,
                SendActionView::Finish(
                    OutcomeView::Respond(
                        ServerResponseView::Message(WebMessageView { message: answer, created_at, id: reply_id }),
                    ),
                ),
            ),
            _ => stray,
        },
        SendStateView::Done => stray,
    }
}

fn stray_send() -> (r: (SendState, SendAction))
    ensures
        r.0@ == SendStateView::Done,
        r.1@ == SendActionView::Finish(out_of_step()),
{
    (SendState::Done, SendAction::Finish(failure(INTERNAL_ERROR, "Internal Server Error")))
}

fn user_message_of(content: String, created_at: u64) -> (r: WebMessage)
    ensures
        r@ == user_message(content@, created_at),
{
    WebMessage::new(Message { content: Some(content), role: Some(USER_ROLE.to_owned()) }, created_at, String::new())
}

/// Performs one step of a message exchange.
pub fn send_message_step(state: SendState, event: SendEvent) -> (r: (SendState, SendAction))
    ensures
        (r.0@, r.1@) == send_step(state@, event@),
{
    match state {
        SendState::Idle => match event {
            SendEvent::Begin { connection, request, loaded_chat, message_id, reply_id } => {
                if !has_content(request.content.as_str()) {
                    return (SendState::Done, SendAction::Finish(failure(BAD_REQUEST, "Bad Request")));
                }
                let reload = !(loaded_chat == request.chat_id);
                let ask = NetworkMessage::NewMessage(
                    connection.clone(),
                    request.token.clone(),
                    USER_ROLE.to_owned(),
                    request.chat_id.clone(),
                    request.content.clone(),
                    message_id,
                );
                (
                    SendState::Storing {
                        connection,
                        token: request.token,
                        chat_id: request.chat_id,
                        content: request.content,
                        reply_id,
                        reload,
                    },
                    SendAction::Ask(ask),
                )
            },
            _ => stray_send(),
        },
        SendState::Storing { connection, token, chat_id, content, reply_id, reload } => match event {
            SendEvent::Answer(DatabaseMessage::Timestamp(ts)) => {
                if reload {
                    let ask = NetworkMessage::ChatRequest(connection.clone(), token.clone(), chat_id.clone());
                    (SendState::Reloading { connection, token, chat_id, content, reply_id, created_at: ts }, SendAction::Ask(ask))
                } else {
                    (
                        SendState::Completing { connection, token, chat_id, reply_id, created_at: ts },
                        SendAction::Complete(user_message_of(content, ts)),
                    )
                }
            },
            SendEvent::Answer(_) => (SendState::Done, SendAction::Finish(failure(FORBIDDEN, "Forbidden"))),
            _ => stray_send(),
        },
        SendState::Reloading { connection, token, chat_id, content, reply_id, created_at } => match event {
            SendEvent::Answer(DatabaseMessage::Messages(_, list)) => {
                let chat = chat_id.clone();
                (
                    SendState::Loading { connection, token, chat_id, content, reply_id, created_at },
                    SendAction::LoadContext(chat, list),
                )
            },
            SendEvent::Answer(_) => (
                SendState::Completing { connection, token, chat_id, reply_id, created_at },
                SendAction::Complete(user_message_of(content, created_at)),
            ),
            _ => stray_send(),
        },
        SendState::Loading { connection, token, chat_id, content, reply_id, created_at } => match event {
            SendEvent::Loaded => (
                SendState::Completing { connection, token, chat_id, reply_id, created_at },
                SendAction::Complete(user_message_of(content, created_at)),
            ),
            _ => stray_send(),
        },
        SendState::Completing { connection, token, chat_id, reply_id, created_at } => match event {
            SendEvent::Completion(None) => (SendState::Done, SendAction::Finish(failure(BAD_GATEWAY, "Bad Gateway"))),
            SendEvent::Completion(Some(answer)) => {
                let role = take_text(crate::types::copy_opt(&answer.role));
                let content = take_text(crate::types::copy_opt(&answer.content));
                let ask = NetworkMessage::NewMessage(connection, token, role, chat_id, content, reply_id.clone());
                (SendState::StoringReply { answer, reply_id, created_at }, SendAction::Ask(ask))
            },
            _ => stray_send(),
        },
        SendState::StoringReply { answer, reply_id, created_at } => match event {
            SendEvent::Answer(_) => (
                SendState::Done,
                SendAction::Finish(Outcome::Respond(ServerResponse::Message(WebMessage::new(answer, created_at, reply_id)))),
            ),
            _ => stray_send(),
        },
        SendState::Done => stray_send(),
    }
}

// ---------------------------------------------------------------------------
// Fetching a message's audio: validate the token, fetch the message, use the
// cached audio file if there is one, else synthesize, record and write it.

/// Where an audio exchange stands.
pub enum AudioState {
    Idle,
    Validating { connection: String, message_id: String },
    Fetching { connection: String, message_id: String },
    Looking { connection: String, message_id: String, text: String },
    Reading { message_id: String },
    Synthesizing { message_id: String },
    Recording { message_id: String, audio: String },
    Done,
}

pub enum AudioStateView {
    Idle,
    Validating { connection: Seq<char>, message_id: Seq<char> },
    Fetching { connection: Seq<char>, message_id: Seq<char> },
    Looking { connection: Seq<char>, message_id: Seq<char>, text: Seq<char> },
    Reading { message_id: Seq<char> },
    Synthesizing { message_id: Seq<char> },
    Recording { message_id: Seq<char>, audio: Seq<char> },
    Done,
}

impl View for AudioState {
    type V = AudioStateView;

    open spec fn view(&self) -> AudioStateView {
        match self {
            AudioState::Idle => AudioStateView::Idle,
            AudioState::Validating { connection, message_id } => AudioStateView::Validating {
                connection: connection@,
                message_id: message_id@,
            },
            AudioState::Fetching { connection, message_id } => AudioStateView::Fetching {
                connection: connection@,
                message_id: message_id@,
            },
            AudioState::Looking { connection, message_id, text } => AudioStateView::Looking {
                connection: connection@,
                message_id: message_id@,
                text: text@,
            },
            AudioState::Reading { message_id } => AudioStateView::Reading { message_id: message_id@ },
            AudioState::Synthesizing { message_id } => AudioStateView::Synthesizing { message_id: message_id@ },
            AudioState::Recording { message_id, audio } => AudioStateView::Recording {
                message_id: message_id@,
                audio: audio@,
            },
            AudioState::Done => AudioStateView::Done,
        }
    }
}

/// What happened since the last step of an audio exchange.
pub enum AudioEvent {
    Begin { connection: String, request: GetAudio },
    Answer(DatabaseMessage),
    /// the contents of the cached file, if it could be read
    FileRead(Option<String>),
    /// the synthesized audio, if the speech service answered
    Synth(Option<String>),
    Recorded,
}

pub enum AudioEventView {
    Begin { connection: Seq<char>, token: Seq<char>, message_id: Seq<char> },
    Answer(DatabaseMessageView),
    FileRead(Option<Seq<char>>),
    Synth(Option<Seq<char>>),
    Recorded,
}

impl View for AudioEvent {
    type V = AudioEventView;

    open spec fn view(&self) -> AudioEventView {
        match self {
            AudioEvent::Begin { connection, request } => AudioEventView::Begin {
                connection: connection@,
                token: request.token@,
                message_id: request.message_id@,
            },
            AudioEvent::Answer(a) => AudioEventView::Answer(a@),
            AudioEvent::FileRead(f) => AudioEventView::FileRead(opt_view(*f)),
            AudioEvent::Synth(a) => AudioEventView::Synth(opt_view(*a)),
            AudioEvent::Recorded => AudioEventView::Recorded,
        }
    }
}

/// What the worker does next in an audio exchange.
pub enum AudioAction {
    Ask(NetworkMessage),
    ReadFile(String),
    Synthesize(String),
    /// record the path of the message's audio with the actor and write the audio there, then hand back `Recorded`
    RecordAndWrite(String, String, String),
    Finish(Outcome),
}

pub enum AudioActionView {
    Ask(NetworkMessageView),
    ReadFile(Seq<char>),
    Synthesize(Seq<char>),
    RecordAndWrite(Seq<char>, Seq<char>, Seq<char>),
    Finish(OutcomeView),
}

impl View for AudioAction {
    type V = AudioActionView;

    open spec fn view(&self) -> AudioActionView {
        match self {
            AudioAction::Ask(r) => AudioActionView::Ask(r@),
            AudioAction::ReadFile(p) => AudioActionView::ReadFile(p@),
            AudioAction::Synthesize(t) => AudioActionView::Synthesize(t@),
            AudioAction::RecordAndWrite(i, p, a) => AudioActionView::RecordAndWrite(i@, p@, a@),
            AudioAction::Finish(o) => AudioActionView::Finish(o@),
        }
    }
}

/// One step of an audio exchange. An invalid token is unauthorized; an
/// unknown message is forbidden; a cache miss is synthesized, and only
/// synthesized audio is recorded, at `AUDIO_DIR` + id; a missing synthesis is
/// a bad gateway, with no retry.
pub open spec fn audio_step(s: AudioStateView, e: AudioEventView) -> (AudioStateView, AudioActionView) {
    let stray = (AudioStateView::Done, AudioActionView::Finish(out_of_step()));
    match s {
        AudioStateView::Idle => match e {
            AudioEventView::Begin { connection, token, message_id } => (
                AudioStateView::Validating { connection, message_id },
                AudioActionView::Ask(NetworkMessageView::TokenValidation(connection, token)),
            ),
            _ => stray,
        },
        AudioStateView::Validating { connection, message_id } => match e {
            AudioEventView::Answer(DatabaseMessageView::Email(_)) => (
                AudioStateView::Fetching { connection, message_id },
                AudioActionView::Ask(NetworkMessageView::GetMessage(connection, message_id)),
            ),
            AudioEventView::Answer(_) => (
                AudioStateView::Done,
                AudioActionView::Finish(OutcomeView::Fail(UNAUTHORIZED, "Unauthorized"@)),
            ),
            _ => stray,
        },
        AudioStateView::Fetching { connection, message_id } => match e {
            AudioEventView::Answer(DatabaseMessageView::Message(m)) => match m.content {
                Some(text) => (
                    AudioStateView::Looking { connection, message_id, text },
                    AudioActionView::Ask(NetworkMessageView::GetAudioPath(connection, message_id)),
                ),
                None => (AudioStateView::Done, AudioActionView::Finish(OutcomeView::Fail(FORBIDDEN, "Forbidden"@))),
            },
            AudioEventView::Answer(_) => (
                AudioStateView::Done,
                AudioActionView::Finish(OutcomeView::Fail(FORBIDDEN, "Forbidden"@)),
            ),
            _ => stray,
        },
        AudioStateView::Looking { connection, message_id, text } => match e {
            AudioEventView::Answer(DatabaseMessageView::AudioPath(path)) => (
                AudioStateView::Reading { message_id },
                AudioActionView::ReadFile(path),
            ),
            AudioEventView::Answer(_) => (AudioStateView::Synthesizing { message_id }, AudioActionView::Synthesize(text)),
            _ => stray,
        },
        AudioStateView::Reading { message_id } => match e {
            AudioEventView::FileRead(Some(data)) => (
                AudioStateView::Done,
                AudioActionView::Finish(OutcomeView::Respond(ServerResponseView::Audio(message_id, data))),
            ),
            AudioEventView::FileRead(None) => (AudioStateView::Done, AudioActionView::Finish(out_of_step())),
            _ => stray,
        },
        AudioStateView::Synthesizing { message_id } => match e {
            AudioEventView::Synth(None) => (
                AudioStateView::Done,
                AudioActionView::Finish(OutcomeView::Fail(BAD_GATEWAY, "Bad Gateway"@)),
            ),
            AudioEventView::Synth(Some(audio)) => (
                AudioStateView::Recording { message_id, audio },
                AudioActionView::RecordAndWrite(message_id, AUDIO_DIR@ + message_id, audio),
            ),
            _ => stray,
        },
        AudioStateView::Recording { message_id, audio } => match e {
            AudioEventView::Recorded => (
                AudioStateView::Done,
                AudioActionView::Finish(OutcomeView::Respond(ServerResponseView::Audio(message_id, audio))),
            ),
            _ => stray,
        },
        AudioStateView::Done => stray,
    }
}

fn stray_audio() -> (r: (AudioState, AudioAction))
    ensures
        r.0@ == AudioStateView::Done,
        r.1@ == AudioActionView::Finish(out_of_step()),
{
    (AudioState::Done, AudioAction::Finish(failure(INTERNAL_ERROR, "Internal Server Error")))
}

/// Performs one step of an audio exchange.
pub fn get_audio_step(state: AudioState, event: AudioEvent) -> (r: (AudioState, AudioAction))
    ensures
        (r.0@, r.1@) == audio_step(state@, event@),
{
    match state {
        AudioState::Idle => match event {
            AudioEvent::Begin { connection, request } => {
                let ask = NetworkMessage::TokenValidation(connection.clone(), request.token);
                (AudioState::Validating { connection, message_id: request.message_id }, AudioAction::Ask(ask))
            },
            _ => stray_audio(),
        },
        AudioState::Validating { connection, message_id } => match event {
            AudioEvent::Answer(DatabaseMessage::Email(_)) => {
                let ask = NetworkMessage::GetMessage(connection.clone(), message_id.clone());
                (AudioState::Fetching { connection, message_id }, AudioAction::Ask(ask))
            },
            AudioEvent::Answer(_) => (AudioState::Done, AudioAction::Finish(failure(UNAUTHORIZED, "Unauthorized"))),
            _ => stray_audio(),
        },
        AudioState::Fetching { connection, message_id } => match event {
            AudioEvent::Answer(DatabaseMessage::Message(m)) => match m.content {
                Some(text) => {
                    let ask = NetworkMessage::GetAudioPath(connection.clone(), message_id.clone());
                    (AudioState::Looking { connection, message_id, text }, AudioAction::Ask(ask))
                },
                None => (AudioState::Done, AudioAction::Finish(failure(FORBIDDEN, "Forbidden"))),
            },
            AudioEvent::Answer(_) => (AudioState::Done, AudioAction::Finish(failure(FORBIDDEN, "Forbidden"))),
            _ => stray_audio(),
        },
        AudioState::Looking { connection, message_id, text } => match event {
            AudioEvent::Answer(DatabaseMessage::AudioPath(path)) => (
                AudioState::Reading { message_id },
                AudioAction::ReadFile(path),
            ),
            AudioEvent::Answer(_) => (AudioState::Synthesizing { message_id }, AudioAction::Synthesize(text)),
            _ => stray_audio(),
        },
        AudioState::Reading { message_id } => match event {
            AudioEvent::FileRead(Some(data)) => (
                AudioState::Done,
                AudioAction::Finish(Outcome::Respond(ServerResponse::Audio(AudioInfo { message_id, content: data }))),
            ),
            AudioEvent::FileRead(None) => (
                AudioState::Done,
                AudioAction::Finish(failure(INTERNAL_ERROR, "Internal Server Error")),
            ),
            _ => stray_audio(),
        },
        AudioState::Synthesizing { message_id } => match event {
            AudioEvent::Synth(None) => (AudioState::Done, AudioAction::Finish(failure(BAD_GATEWAY, "Bad Gateway"))),
            AudioEvent::Synth(Some(audio)) => {
                let path = audio_file_path(&message_id);
                let record = AudioAction::RecordAndWrite(message_id.clone(), path, audio.clone());
                (AudioState::Recording { message_id, audio }, record)
            },
            _ => stray_audio(),
        },
        AudioState::Recording { message_id, audio } => match event {
            AudioEvent::Recorded => (
                AudioState::Done,
                AudioAction::Finish(Outcome::Respond(ServerResponse::Audio(AudioInfo { message_id, content: audio }))),
            ),
            _ => stray_audio(),
        },
        AudioState::Done => stray_audio(),
    }
}

} // verus!
