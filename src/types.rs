use vstd::prelude::*;

verus! {

/// What an optional text field holds, as characters.
pub open spec fn opt_view(o: Option<String>) -> Option<Seq<char>> {
    match o {
        Some(s) => Some(s@),
        None => None,
    }
}

/// Copies an optional text field.
pub fn copy_opt(o: &Option<String>) -> (r: Option<String>)
    ensures
        opt_view(r) == opt_view(*o),
{
    match o {
        Some(s) => Some(s.clone()),
        None => None,
    }
}

/// One chat message as the completion service sees it: a role and a content.
#[derive(Clone, Debug)]
pub struct Message {
    pub content: Option<String>,
    pub role: Option<String>,
}

pub struct MessageView {
    pub content: Option<Seq<char>>,
    pub role: Option<Seq<char>>,
}

impl View for Message {
    type V = MessageView;

    open spec fn view(&self) -> MessageView {
        MessageView { content: opt_view(self.content), role: opt_view(self.role) }
    }
}

impl Message {
    pub fn new(role: &str, content: &str) -> (r: Message)
        ensures
            r@ == (MessageView { content: Some(content@), role: Some(role@) }),
    {
        Message { content: Some(content.to_owned()), role: Some(role.to_owned()) }
    }

    /// A field-by-field copy.
    pub fn duplicate(&self) -> (r: Message)
        ensures
            r@ == self@,
    {
        Message { content: copy_opt(&self.content), role: copy_opt(&self.role) }
    }
}

/// A stored message with its server timestamp and its identifier.
#[derive(Clone, Debug)]
pub struct WebMessage {
    pub message: Message,
    pub created_at: u64,
    pub id: String,
}

pub struct WebMessageView {
    pub message: MessageView,
    pub created_at: u64,
    pub id: Seq<char>,
}

impl View for WebMessage {
    type V = WebMessageView;

    open spec fn view(&self) -> WebMessageView {
        WebMessageView { message: self.message@, created_at: self.created_at, id: self.id@ }
    }
}

impl WebMessage {
    pub fn new(message: Message, created_at: u64, id: String) -> (r: WebMessage)
        ensures
            r@ == (WebMessageView { message: message@, created_at, id: id@ }),
    {
        WebMessage { message, created_at, id }
    }

    /// A field-by-field copy.
    pub fn duplicate(&self) -> (r: WebMessage)
        ensures
            r@ == self@,
    {
        WebMessage { message: self.message.duplicate(), created_at: self.created_at, id: self.id.clone() }
    }
}

/// Copies a list of stored messages.
pub fn copy_web_messages(v: &Vec<WebMessage>) -> (r: Vec<WebMessage>)
    ensures
        web_views(r@) == web_views(v@),
{
    let mut out: Vec<WebMessage> = Vec::new();
    let mut i: usize = 0;
    while i < v.len()
        invariant
            i <= v.len(),
            web_views(out@) == web_views(v@).take(i as int),
        decreases v.len() - i,
    {
        let ghost before = out@;
        out.push(v[i].duplicate());
        assert(web_views(out@) =~= web_views(before).push(v@[i as int]@));
        assert(web_views(v@).take(i as int + 1) =~= web_views(v@).take(i as int).push(v@[i as int]@));
        i += 1;
    }
    assert(web_views(v@).take(v.len() as int) =~= web_views(v@));
    out
}

/// What a signed-in user learns of the account: email, display name and session token.
#[derive(Debug)]
pub struct UserInfo {
    pub token: String,
    pub name: String,
    pub email: String,
}

pub struct UserInfoView {
    pub token: Seq<char>,
    pub name: Seq<char>,
    pub email: Seq<char>,
}

impl View for UserInfo {
    type V = UserInfoView;

    open spec fn view(&self) -> UserInfoView {
        UserInfoView { token: self.token@, name: self.name@, email: self.email@ }
    }
}

impl UserInfo {
    pub fn new(email: String, name: String, token: String) -> (r: UserInfo)
        ensures
            r@ == (UserInfoView { token: token@, name: name@, email: email@ }),
    {
        UserInfo { email, name, token }
    }
}

/// The views of a sequence of stored messages.
pub open spec fn web_views(s: Seq<WebMessage>) -> Seq<WebMessageView> {
    s.map_values(|m: WebMessage| m@)
}

/// The conversation kept for the completion service, with its token budget.
#[derive(Clone, Debug)]
pub struct Messages {
    pub answer_tokens: u64,
    pub used_tokens: u64,
    pub max_tokens: u64,
    pub messages: Vec<WebMessage>,
}

pub struct MessagesView {
    pub answer_tokens: u64,
    pub max_tokens: u64,
    pub messages: Seq<WebMessageView>,
}

impl View for Messages {
    type V = MessagesView;

    open spec fn view(&self) -> MessagesView {
        MessagesView {
            answer_tokens: self.answer_tokens,
            max_tokens: self.max_tokens,
            messages: web_views(self.messages@),
        }
    }
}

/// How many of the newest messages fit a budget, given each message's encoded
/// size: newest first, a message is taken while the sizes already taken stay under the budget.
pub open spec fn window_len(sizes: Seq<u64>, budget: int) -> nat
    decreases sizes.len(),
{
    if sizes.len() == 0 || budget <= 0 {
        0
    } else {
        1 + window_len(sizes.drop_last(), budget - sizes.last())
    }
}

pub proof fn lemma_window_len_bounded(sizes: Seq<u64>, budget: int)
    ensures
        window_len(sizes, budget) <= sizes.len(),
    decreases sizes.len(),
{
    if sizes.len() > 0 && budget > 0 {
        lemma_window_len_bounded(sizes.drop_last(), budget - sizes.last());
    }
}

/// The budget left for context: the maximum less the answer's share and the new content.
pub open spec fn context_budget(m: MessagesView, content_len: u64) -> int {
    m.max_tokens - m.answer_tokens - content_len
}

impl Messages {
    pub fn new(messages: Vec<WebMessage>) -> (r: Messages)
        ensures
            r@ == (MessagesView { answer_tokens: 0, max_tokens: 0, messages: web_views(messages@) }),
            r.used_tokens == 0,
    {
        Messages { messages, answer_tokens: 0, max_tokens: 0, used_tokens: 0 }
    }

    pub fn push(&mut self, message: WebMessage)
        ensures
            final(self)@ == (MessagesView { messages: old(self)@.messages.push(message@), ..old(self)@ }),
            final(self).used_tokens == old(self).used_tokens,
    {
        let ghost m = message@;
        self.messages.push(message);
        assert(web_views(self.messages@) =~= old(self)@.messages.push(m));
    }

    /// The newest messages that fit the context budget, oldest first. `sizes`
    /// holds the encoded size of each message, in the same order.
    pub fn get_window(&self, content_len: u64, sizes: &Vec<u64>) -> (r: Vec<WebMessage>)
        requires
            sizes@.len() == self.messages@.len(),
        ensures
            ({
                let n = self.messages@.len() as int;
                let k = window_len(sizes@, context_budget(self@, content_len)) as int;
                web_views(r@) == self@.messages.subrange(n - k, n)
            }),
    {
        let n = self.messages.len();
        let ghost budget = context_budget(self@, content_len);
        let mut remaining: u64 = self.max_tokens.saturating_sub(self.answer_tokens.saturating_add(content_len));
        let mut k: usize = 0;
        assert(sizes@.take(n as int) =~= sizes@);
        while k < n && remaining > 0
            invariant
                k <= n,
                n == sizes@.len(),
                k + window_len(sizes@.take(n - k), remaining as int) == window_len(sizes@, budget),
            decreases n - k,
        {
            let ghost prefix = sizes@.take(n - k);
            let ghost rem = remaining as int;
            assert(prefix.drop_last() =~= sizes@.take(n - k - 1));
            assert(prefix.last() == sizes@[n - k - 1]);
            assert(window_len(prefix, rem) == 1 + window_len(prefix.drop_last(), rem - prefix.last()));
            remaining = remaining.saturating_sub(sizes[n - k - 1]);
            assert(window_len(prefix.drop_last(), rem - prefix.last()) == window_len(
                prefix.drop_last(),
                remaining as int,
            ));
            k += 1;
        }
        proof {
            lemma_window_len_bounded(sizes@, budget);
        }
        let start = n - k;
        let mut out: Vec<WebMessage> = Vec::new();
        let mut i: usize = start;
        while i < n
            invariant
                start <= i <= n,
                n == self.messages@.len(),
                web_views(out@) == self@.messages.subrange(start as int, i as int),
            decreases n - i,
        {
            let ghost before = out@;
            out.push(self.messages[i].duplicate());
            assert(web_views(out@) =~= web_views(before).push(self.messages@[i as int]@));
            assert(self@.messages.subrange(start as int, i as int + 1) =~= self@.messages.subrange(
                start as int,
                i as int,
            ).push(self.messages@[i as int]@));
            i += 1;
        }
        out
    }
}

/// The views of a sequence of chat messages.
pub open spec fn message_views(s: Seq<Message>) -> Seq<MessageView> {
    s.map_values(|m: Message| m@)
}

/// A chat-completion request: the model and the conversation.
#[derive(Clone, Debug)]
pub struct GroqTextRequest {
    pub model: String,
    pub messages: Vec<Message>,
}

impl GroqTextRequest {
    pub fn new(messages: Vec<WebMessage>, model: String) -> (r: GroqTextRequest)
        ensures
            r.model@ == model@,
            message_views(r.messages@) == web_views(messages@).map_values(|w: WebMessageView| w.message),
    {
        let mut out: Vec<Message> = Vec::new();
        let mut i: usize = 0;
        while i < messages.len()
            invariant
                i <= messages.len(),
                message_views(out@) == web_views(messages@).take(i as int).map_values(|w: WebMessageView| w.message),
            decreases messages.len() - i,
        {
            let ghost before = out@;
            out.push(messages[i].message.duplicate());
            assert(message_views(out@) =~= message_views(before).push(messages@[i as int].message@));
            assert(web_views(messages@).take(i as int + 1).map_values(|w: WebMessageView| w.message)
                =~= web_views(messages@).take(i as int).map_values(|w: WebMessageView| w.message).push(
                messages@[i as int].message@,
            ));
            i += 1;
        }
        assert(web_views(messages@).take(messages.len() as int) =~= web_views(messages@));
        GroqTextRequest { model, messages: out }
    }
}

/// Token counts of a completion.
#[derive(Debug)]
pub struct Usage {
    pub prompt_tokens: i32,
    pub total_tokens: i32,
    pub completion_tokens: i32,
}

/// One candidate answer of a completion.
#[derive(Debug)]
pub struct Choice {
    pub index: i32,
    pub message: Message,
    pub finish_reason: String,
}

/// A completion service's answer.
#[derive(Debug)]
pub struct ApiResponse {
    pub id: String,
    pub object: String,
    pub created: i32,
    pub model: String,
    pub choices: Vec<Choice>,
    pub usage: Usage,
}

/// An error body of a completion service; `kind` is its type.
#[derive(Debug)]
pub struct Error {
    pub kind: String,
    pub message: String,
}

/// A notice pushed to a client.
#[derive(Debug)]
pub enum SocketMessage {
    Deleted(String),
    NewChat(String),
    Message(Message),
}

/// A client's request as it arrives on the socket.
#[derive(Debug)]
pub struct ClientMessage {
    pub kind: String,
    pub body: ClientMessageKind,
}

#[derive(Debug)]
pub enum ClientMessageKind {
    Login(Login),
    NewMessage(NewMessage),
    NewChat(NewChat),
    DeleteChat(DeleteChat),
    GetChats(String),
    GetChat(GetChat),
    Register(Register),
    GetAudio(GetAudio),
}

#[derive(Debug)]
pub struct Login {
    pub email: String,
    pub password: String,
}

#[derive(Debug)]
pub struct NewMessage {
    pub token: String,
    pub chat_id: String,
    pub content: String,
}

#[derive(Debug)]
pub struct NewChat {
    pub token: String,
}

#[derive(Debug)]
pub struct DeleteChat {
    pub token: String,
    pub chat_id: String,
}

#[derive(Debug)]
pub struct GetAudio {
    pub token: String,
    pub message_id: String,
}

#[derive(Debug)]
pub struct ValidateToken {
    pub token: String,
}

#[derive(Debug)]
pub struct GetChat {
    pub token: String,
    pub chat_id: String,
}

#[derive(Debug)]
pub struct Register {
    pub email: String,
    pub password: String,
    pub name: String,
}

/// Synthesized audio of one message.
#[derive(Debug)]
pub struct AudioInfo {
    pub message_id: String,
    pub content: String,
}

/// What the server sends a client.
#[derive(Debug)]
pub enum ServerResponse {
    Token(String),
    UserInfo(UserInfo),
    ChatId(String),
    Message(WebMessage),
    Chats(Vec<String>),
    Messages(Vec<WebMessage>),
    Audio(AudioInfo),
    Deleted(String),
}

pub open spec fn text_views(v: Seq<String>) -> Seq<Seq<char>> {
    v.map_values(|s: String| s@)
}

pub enum ServerResponseView {
    Token(Seq<char>),
    UserInfo(UserInfoView),
    ChatId(Seq<char>),
    Message(WebMessageView),
    Chats(Seq<Seq<char>>),
    Messages(Seq<WebMessageView>),
    /// message id, audio content
    Audio(Seq<char>, Seq<char>),
    Deleted(Seq<char>),
}

impl View for ServerResponse {
    type V = ServerResponseView;

    open spec fn view(&self) -> ServerResponseView {
        match self {
            ServerResponse::Token(t) => ServerResponseView::Token(t@),
            ServerResponse::UserInfo(u) => ServerResponseView::UserInfo(u@),
            ServerResponse::ChatId(c) => ServerResponseView::ChatId(c@),
            ServerResponse::Message(m) => ServerResponseView::Message(m@),
            ServerResponse::Chats(v) => ServerResponseView::Chats(text_views(v@)),
            ServerResponse::Messages(v) => ServerResponseView::Messages(web_views(v@)),
            ServerResponse::Audio(a) => ServerResponseView::Audio(a.message_id@, a.content@),
            ServerResponse::Deleted(c) => ServerResponseView::Deleted(c@),
        }
    }
}

} // verus!
