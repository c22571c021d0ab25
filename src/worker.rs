use vstd::prelude::*;
use vstd::string::StringExecFns;
use crate::credentials::{password_hash, password_hash_of};
use crate::protocol::{DatabaseMessage, NetworkMessage};
use crate::types::{Login, Register, ServerResponse, UserInfo};

verus! {

/// The text with leading and trailing white space removed.
pub uninterp spec fn trimmed_of(s: Seq<char>) -> Seq<char>;

/// Relies on str::trim: the text without leading and trailing white space.
#[verifier::external_body]
fn trim_text(s: &str) -> (r: String)
    ensures
        r@ == trimmed_of(s@),
{
    s.trim().to_string()
}

/// The sender role of a message that a client writes.
pub const USER_ROLE: &'static str = "user";

/// Where the audio of a message is cached, before its identifier.
pub const AUDIO_DIR: &'static str = "static/";

/// How a client's exchange ends: a response, or an error status and its reason.
#[derive(Debug)]
pub enum Outcome {
    Respond(ServerResponse),
    Fail(u16, String),
}

pub const UNAUTHORIZED: u16 = 401;
pub const FORBIDDEN: u16 = 403;
pub const NOT_FOUND: u16 = 404;
pub const BAD_REQUEST: u16 = 400;
pub const INTERNAL_ERROR: u16 = 500;
pub const BAD_GATEWAY: u16 = 502;

fn fail(code: u16, reason: &str) -> (r: Outcome)
    ensures
        r matches Outcome::Fail(c, t) && c == code && t@ == reason@,
{
    Outcome::Fail(code, reason.to_owned())
}

/// The actor request for a login: the password is trimmed, then hashed.
pub fn login_request(connection: &String, login: &Login) -> (r: NetworkMessage)
    ensures
        r matches NetworkMessage::LoginRequest(c, e, h) && c@ == connection@ && e@ == login.email@ && h@
            == password_hash_of(trimmed_of(login.password@)),
{
    let trimmed = trim_text(login.password.as_str());
    NetworkMessage::LoginRequest(connection.clone(), login.email.clone(), password_hash(trimmed.as_str()))
}

/// The actor request for a registration: the password is trimmed, as at
/// login, and the actor hashes it.
pub fn register_request(connection: &String, register: &Register) -> (r: NetworkMessage)
    ensures
        r matches NetworkMessage::RegisterUser(c, n, e, p) && c@ == connection@ && n@ == register.name@ && e@
            == register.email@ && p@ == trimmed_of(register.password@),
{
    NetworkMessage::RegisterUser(
        connection.clone(),
        register.name.clone(),
        register.email.clone(),
        trim_text(register.password.as_str()),
    )
}

/// A login answer: the account, or unauthorized.
pub fn login_outcome(answer: DatabaseMessage) -> (r: Outcome)
    ensures
        match answer {
            DatabaseMessage::UserInfo(i) => r matches Outcome::Respond(ServerResponse::UserInfo(j)) && j@ == i@,
            _ => r matches Outcome::Fail(c, t) && c == UNAUTHORIZED && t@ == "Unauthorized"@,
        },
{
    match answer {
        DatabaseMessage::UserInfo(info) => Outcome::Respond(ServerResponse::UserInfo(info)),
        _ => fail(UNAUTHORIZED, "Unauthorized"),
    }
}

/// A registration answer: the new account with its token, or unauthorized.
pub fn register_outcome(register: &Register, answer: DatabaseMessage) -> (r: Outcome)
    ensures
        match answer {
            DatabaseMessage::Token(t) => r matches Outcome::Respond(ServerResponse::UserInfo(j)) && j.email@
                == register.email@ && j.name@ == register.name@ && j.token@ == t@,
            _ => r matches Outcome::Fail(c, t) && c == UNAUTHORIZED && t@ == "Unauthorized"@,
        },
{
    match answer {
        DatabaseMessage::Token(token) => Outcome::Respond(
            ServerResponse::UserInfo(UserInfo::new(register.email.clone(), register.name.clone(), token)),
        ),
        _ => fail(UNAUTHORIZED, "Unauthorized"),
    }
}

/// A chat deletion answer: the deleted chat, or not found.
pub fn delete_outcome(answer: DatabaseMessage) -> (r: Outcome)
    ensures
        match answer {
            DatabaseMessage::Deleted(id) => r matches Outcome::Respond(ServerResponse::Deleted(j)) && j@ == id@,
            _ => r matches Outcome::Fail(c, t) && c == NOT_FOUND && t@ == "Not Found"@,
        },
{
    match answer {
        DatabaseMessage::Deleted(id) => Outcome::Respond(ServerResponse::Deleted(id)),
        _ => fail(NOT_FOUND, "Not Found"),
    }
}

/// The email that a token validation answer gives, if it succeeded.
pub fn validated_email(answer: DatabaseMessage) -> (r: Option<String>)
    ensures
        match answer {
            DatabaseMessage::Email(e) => r matches Some(f) && f@ == e@,
            _ => r is None,
        },
{
    match answer {
        DatabaseMessage::Email(email) => Some(email),
        _ => None,
    }
}

/// The failure of an exchange whose token did not validate.
pub fn unauthorized() -> (r: Outcome)
    ensures
        r matches Outcome::Fail(c, t) && c == UNAUTHORIZED && t@ == "Unauthorized"@,
{
    fail(UNAUTHORIZED, "Unauthorized")
}

/// A chat list answer: the chats, or an internal error.
pub fn chats_outcome(answer: DatabaseMessage) -> (r: Outcome)
    ensures
        match answer {
            DatabaseMessage::Chats(v) => r matches Outcome::Respond(ServerResponse::Chats(w)) && w@ == v@,
            _ => r matches Outcome::Fail(c, t) && c == INTERNAL_ERROR && t@ == "Internal Server Error"@,
        },
{
    match answer {
        DatabaseMessage::Chats(chats) => Outcome::Respond(ServerResponse::Chats(chats)),
        _ => fail(INTERNAL_ERROR, "Internal Server Error"),
    }
}

/// A new chat notice as the answer to the requester: the chat id, or forbidden.
pub fn new_chat_outcome(answer: DatabaseMessage) -> (r: Outcome)
    ensures
        match answer {
            DatabaseMessage::NewChat(id) => r matches Outcome::Respond(ServerResponse::ChatId(j)) && j@ == id@,
            _ => r matches Outcome::Fail(c, t) && c == FORBIDDEN && t@ == "Forbidden"@,
        },
{
    match answer {
        DatabaseMessage::NewChat(id) => Outcome::Respond(ServerResponse::ChatId(id)),
        _ => fail(FORBIDDEN, "Forbidden"),
    }
}

/// A chat listing answer: its messages, or forbidden.
pub fn chat_outcome(answer: DatabaseMessage) -> (r: Outcome)
    ensures
        match answer {
            DatabaseMessage::Messages(_, v) => r matches Outcome::Respond(ServerResponse::Messages(w)) && w@ == v@,
            _ => r matches Outcome::Fail(c, t) && c == FORBIDDEN && t@ == "Forbidden"@,
        },
{
    match answer {
        DatabaseMessage::Messages(_, messages) => Outcome::Respond(ServerResponse::Messages(messages)),
        _ => fail(FORBIDDEN, "Forbidden"),
    }
}

/// A notice pushed by the actor, as the client sees it; answers that are not
/// notices give nothing.
pub fn push_notice(notice: DatabaseMessage) -> (r: Option<ServerResponse>)
    ensures
        match notice {
            DatabaseMessage::WebMessage(m) => r matches Some(ServerResponse::Message(n)) && n@ == m@,
            DatabaseMessage::Deleted(id) => r matches Some(ServerResponse::Deleted(j)) && j@ == id@,
            DatabaseMessage::NewChat(id) => r matches Some(ServerResponse::ChatId(j)) && j@ == id@,
            _ => r is None,
        },
{
    match notice {
        DatabaseMessage::WebMessage(message) => Some(ServerResponse::Message(message)),
        DatabaseMessage::Deleted(id) => Some(ServerResponse::Deleted(id)),
        DatabaseMessage::NewChat(id) => Some(ServerResponse::ChatId(id)),
        _ => None,
    }
}

/// Whether a client's message has content once trimmed.
pub fn has_content(content: &str) -> (r: bool)
    ensures
        r == (trimmed_of(content@).len() > 0),
{
    let trimmed = trim_text(content);
    !trimmed.as_str().is_empty()
}

/// Where the audio of a message is cached.
pub fn audio_file_path(message_id: &String) -> (r: String)
    ensures
        r@ == AUDIO_DIR@ + message_id@,
{
    AUDIO_DIR.to_owned().concat(message_id.as_str())
}

} // verus!
