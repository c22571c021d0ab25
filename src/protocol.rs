use vstd::prelude::*;
use crate::types::{
    copy_web_messages, web_views, Message, MessageView, UserInfo, UserInfoView, WebMessage,
    WebMessageView,
};

verus! {

/// What the storage actor sends back on a connection's reply channel: the answer
/// to a request, or a notice pushed from another session of the same user.
#[derive(Debug)]
pub enum DatabaseMessage {
    Chats(Vec<String>),
    Messages(String, Vec<WebMessage>),
    Email(String),
    Token(String),
    Timestamp(u64),
    Message(Message),
    AudioPath(String),
    UserInfo(UserInfo),
    Deleted(String),
    NewChat(String),
    WebMessage(WebMessage),
    Success,
    Failure,
}

pub enum DatabaseMessageView {
    Chats(Seq<Seq<char>>),
    Messages(Seq<char>, Seq<WebMessageView>),
    Email(Seq<char>),
    Token(Seq<char>),
    Timestamp(u64),
    Message(MessageView),
    AudioPath(Seq<char>),
    UserInfo(UserInfoView),
    Deleted(Seq<char>),
    NewChat(Seq<char>),
    WebMessage(WebMessageView),
    Success,
    Failure,
}

pub open spec fn strings_view(v: Seq<String>) -> Seq<Seq<char>> {
    v.map_values(|s: String| s@)
}

impl View for DatabaseMessage {
    type V = DatabaseMessageView;

    open spec fn view(&self) -> DatabaseMessageView {
        match self {
            DatabaseMessage::Chats(v) => DatabaseMessageView::Chats(strings_view(v@)),
            DatabaseMessage::Messages(c, v) => DatabaseMessageView::Messages(c@, web_views(v@)),
            DatabaseMessage::Email(e) => DatabaseMessageView::Email(e@),
            DatabaseMessage::Token(t) => DatabaseMessageView::Token(t@),
            DatabaseMessage::Timestamp(t) => DatabaseMessageView::Timestamp(*t),
            DatabaseMessage::Message(m) => DatabaseMessageView::Message(m@),
            DatabaseMessage::AudioPath(p) => DatabaseMessageView::AudioPath(p@),
            DatabaseMessage::UserInfo(u) => DatabaseMessageView::UserInfo(u@),
            DatabaseMessage::Deleted(c) => DatabaseMessageView::Deleted(c@),
            DatabaseMessage::NewChat(c) => DatabaseMessageView::NewChat(c@),
            DatabaseMessage::WebMessage(m) => DatabaseMessageView::WebMessage(m@),
            DatabaseMessage::Success => DatabaseMessageView::Success,
            DatabaseMessage::Failure => DatabaseMessageView::Failure,
        }
    }
}

/// A request to the storage actor. Every variant but `RecordAudioPath` names the
/// connection that sent it first; the others' fields are in the order given.
pub enum NetworkMessage {
    /// connection, token, chat id
    ChatRequest(String, String, String),
    /// connection, email, password hash
    LoginRequest(String, String, String),
    /// connection, token
    TokenValidation(String, String),
    /// connection, email
    NewChat(String, String),
    /// connection, token, sender role, chat id, content, message id
    NewMessage(String, String, String, String, String, String),
    /// connection, email
    GetChats(String, String),
    /// connection, token, chat id
    DeleteChat(String, String, String),
    /// connection, display name, email, password
    RegisterUser(String, String, String, String),
    /// connection, message id
    GetMessage(String, String),
    /// connection, message id
    GetAudioPath(String, String),
    /// message id, path
    RecordAudioPath(String, String),
    /// connection
    Disconnect(String),
}

pub enum NetworkMessageView {
    ChatRequest(Seq<char>, Seq<char>, Seq<char>),
    LoginRequest(Seq<char>, Seq<char>, Seq<char>),
    TokenValidation(Seq<char>, Seq<char>),
    NewChat(Seq<char>, Seq<char>),
    NewMessage(Seq<char>, Seq<char>, Seq<char>, Seq<char>, Seq<char>, Seq<char>),
    GetChats(Seq<char>, Seq<char>),
    DeleteChat(Seq<char>, Seq<char>, Seq<char>),
    RegisterUser(Seq<char>, Seq<char>, Seq<char>, Seq<char>),
    GetMessage(Seq<char>, Seq<char>),
    GetAudioPath(Seq<char>, Seq<char>),
    RecordAudioPath(Seq<char>, Seq<char>),
    Disconnect(Seq<char>),
}

impl View for NetworkMessage {
    type V = NetworkMessageView;

    open spec fn view(&self) -> NetworkMessageView {
        match self {
            NetworkMessage::ChatRequest(a, b, c) => NetworkMessageView::ChatRequest(a@, b@, c@),
            NetworkMessage::LoginRequest(a, b, c) => NetworkMessageView::LoginRequest(a@, b@, c@),
            NetworkMessage::TokenValidation(a, b) => NetworkMessageView::TokenValidation(a@, b@),
            NetworkMessage::NewChat(a, b) => NetworkMessageView::NewChat(a@, b@),
            NetworkMessage::NewMessage(a, b, c, d, e, f) => NetworkMessageView::NewMessage(
                a@,
                b@,
                c@,
                d@,
                e@,
                f@,
            ),
            NetworkMessage::GetChats(a, b) => NetworkMessageView::GetChats(a@, b@),
            NetworkMessage::DeleteChat(a, b, c) => NetworkMessageView::DeleteChat(a@, b@, c@),
            NetworkMessage::RegisterUser(a, b, c, d) => NetworkMessageView::RegisterUser(
                a@,
                b@,
                c@,
                d@,
            ),
            NetworkMessage::GetMessage(a, b) => NetworkMessageView::GetMessage(a@, b@),
            NetworkMessage::GetAudioPath(a, b) => NetworkMessageView::GetAudioPath(a@, b@),
            NetworkMessage::RecordAudioPath(a, b) => NetworkMessageView::RecordAudioPath(a@, b@),
            NetworkMessage::Disconnect(a) => NetworkMessageView::Disconnect(a@),
        }
    }
}

/// One message put on one connection's reply channel.
#[derive(Debug)]
pub struct Delivery {
    pub connection: String,
    pub message: DatabaseMessage,
}

pub struct DeliveryView {
    pub connection: Seq<char>,
    pub message: DatabaseMessageView,
}

impl View for Delivery {
    type V = DeliveryView;

    open spec fn view(&self) -> DeliveryView {
        DeliveryView { connection: self.connection@, message: self.message@ }
    }
}

pub open spec fn deliveries_view(v: Seq<Delivery>) -> Seq<DeliveryView> {
    v.map_values(|d: Delivery| d@)
}

pub fn copy_strings(v: &Vec<String>) -> (r: Vec<String>)
    ensures
        strings_view(r@) == strings_view(v@),
{
    let mut out: Vec<String> = Vec::new();
    let mut i: usize = 0;
    while i < v.len()
        invariant
            i <= v.len(),
            strings_view(out@) == strings_view(v@).take(i as int),
        decreases v.len() - i,
    {
        let ghost before = out@;
        out.push(v[i].clone());
        assert(strings_view(out@) =~= strings_view(before).push(v@[i as int]@));
        assert(strings_view(v@).take(i as int + 1) =~= strings_view(v@).take(i as int).push(v@[i as int]@));
        i += 1;
    }
    assert(strings_view(v@).take(v.len() as int) =~= strings_view(v@));
    out
}

impl DatabaseMessage {
    /// A variant-by-variant copy.
    pub fn duplicate(&self) -> (r: DatabaseMessage)
        ensures
            r@ == self@,
    {
        match self {
            DatabaseMessage::Chats(v) => DatabaseMessage::Chats(copy_strings(v)),
            DatabaseMessage::Messages(c, v) => DatabaseMessage::Messages(c.clone(), copy_web_messages(v)),
            DatabaseMessage::Email(e) => DatabaseMessage::Email(e.clone()),
            DatabaseMessage::Token(t) => DatabaseMessage::Token(t.clone()),
            DatabaseMessage::Timestamp(t) => DatabaseMessage::Timestamp(*t),
            DatabaseMessage::Message(m) => DatabaseMessage::Message(m.duplicate()),
            DatabaseMessage::AudioPath(p) => DatabaseMessage::AudioPath(p.clone()),
            DatabaseMessage::UserInfo(u) => DatabaseMessage::UserInfo(
                UserInfo::new(u.email.clone(), u.name.clone(), u.token.clone()),
            ),
            DatabaseMessage::Deleted(c) => DatabaseMessage::Deleted(c.clone()),
            DatabaseMessage::NewChat(c) => DatabaseMessage::NewChat(c.clone()),
            DatabaseMessage::WebMessage(m) => DatabaseMessage::WebMessage(m.duplicate()),
            DatabaseMessage::Success => DatabaseMessage::Success,
            DatabaseMessage::Failure => DatabaseMessage::Failure,
        }
    }
}

} // verus!
