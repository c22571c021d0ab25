use vstd::prelude::*;
use crate::seqs::{distinct_keys, lemma_filter_distinct_keys, lemma_push_distinct_keys, find_first, lemma_filter_take_step, lemma_first_match_at, lemma_first_match_none};
use crate::types::{Message, MessageView, WebMessage, WebMessageView, web_views};

verus! {

/// The most messages that a chat listing returns.
pub const MESSAGE_WINDOW: usize = 50;

pub struct UserRow {
    pub email: String,
    pub name: String,
    pub password_hash: String,
}

pub struct UserV {
    pub email: Seq<char>,
    pub name: Seq<char>,
    pub password_hash: Seq<char>,
}

impl View for UserRow {
    type V = UserV;

    open spec fn view(&self) -> UserV {
        UserV { email: self.email@, name: self.name@, password_hash: self.password_hash@ }
    }
}

pub struct TokenRow {
    pub token: String,
    pub email: String,
    pub expire: u64,
}

pub struct TokenV {
    pub token: Seq<char>,
    pub email: Seq<char>,
    pub expire: u64,
}

impl View for TokenRow {
    type V = TokenV;

    open spec fn view(&self) -> TokenV {
        TokenV { token: self.token@, email: self.email@, expire: self.expire }
    }
}

impl TokenRow {
    pub fn duplicate(&self) -> (r: TokenRow)
        ensures
            r@ == self@,
    {
        TokenRow { token: self.token.clone(), email: self.email.clone(), expire: self.expire }
    }
}

pub struct ChatRow {
    pub email: String,
    pub chat_id: String,
}

pub struct ChatV {
    pub email: Seq<char>,
    pub chat_id: Seq<char>,
}

impl View for ChatRow {
    type V = ChatV;

    open spec fn view(&self) -> ChatV {
        ChatV { email: self.email@, chat_id: self.chat_id@ }
    }
}

pub struct MessageRow {
    pub email: String,
    pub chat_id: String,
    pub sender: String,
    pub content: String,
    pub created_at: u64,
    pub id: String,
}

pub struct MessageV {
    pub email: Seq<char>,
    pub chat_id: Seq<char>,
    pub sender: Seq<char>,
    pub content: Seq<char>,
    pub created_at: u64,
    pub id: Seq<char>,
}

impl View for MessageRow {
    type V = MessageV;

    open spec fn view(&self) -> MessageV {
        MessageV {
            email: self.email@,
            chat_id: self.chat_id@,
            sender: self.sender@,
            content: self.content@,
            created_at: self.created_at,
            id: self.id@,
        }
    }
}

pub struct AudioRow {
    pub id: String,
    pub path: String,
}

pub struct AudioV {
    pub id: Seq<char>,
    pub path: Seq<char>,
}

impl View for AudioRow {
    type V = AudioV;

    open spec fn view(&self) -> AudioV {
        AudioV { id: self.id@, path: self.path@ }
    }
}

pub open spec fn user_views(s: Seq<UserRow>) -> Seq<UserV> {
    s.map_values(|r: UserRow| r@)
}

pub open spec fn token_views(s: Seq<TokenRow>) -> Seq<TokenV> {
    s.map_values(|r: TokenRow| r@)
}

pub open spec fn chat_views(s: Seq<ChatRow>) -> Seq<ChatV> {
    s.map_values(|r: ChatRow| r@)
}

pub open spec fn message_views(s: Seq<MessageRow>) -> Seq<MessageV> {
    s.map_values(|r: MessageRow| r@)
}

pub open spec fn audio_views(s: Seq<AudioRow>) -> Seq<AudioV> {
    s.map_values(|r: AudioRow| r@)
}

/// The persistent tables: users, tokens, chats, messages and cached audio paths.
pub struct Store {
    users: Vec<UserRow>,
    tokens: Vec<TokenRow>,
    chats: Vec<ChatRow>,
    messages: Vec<MessageRow>,
    audio: Vec<AudioRow>,
}

pub struct StoreView {
    pub users: Seq<UserV>,
    pub tokens: Seq<TokenV>,
    pub chats: Seq<ChatV>,
    pub messages: Seq<MessageV>,
    pub audio: Seq<AudioV>,
}

impl View for Store {
    type V = StoreView;

    closed spec fn view(&self) -> StoreView {
        StoreView {
            users: user_views(self.users@),
            tokens: token_views(self.tokens@),
            chats: chat_views(self.chats@),
            messages: message_views(self.messages@),
            audio: audio_views(self.audio@),
        }
    }
}

pub open spec fn user_email() -> spec_fn(UserV) -> Seq<char> {
    |u: UserV| u.email
}

pub open spec fn token_email() -> spec_fn(TokenV) -> Seq<char> {
    |t: TokenV| t.email
}

pub open spec fn token_string() -> spec_fn(TokenV) -> Seq<char> {
    |t: TokenV| t.token
}

pub open spec fn chat_id_key() -> spec_fn(ChatV) -> Seq<char> {
    |c: ChatV| c.chat_id
}

pub open spec fn audio_id() -> spec_fn(AudioV) -> Seq<char> {
    |a: AudioV| a.id
}

pub open spec fn user_has_email(email: Seq<char>) -> spec_fn(UserV) -> bool {
    |u: UserV| u.email == email
}

pub open spec fn token_has_email(email: Seq<char>) -> spec_fn(TokenV) -> bool {
    |t: TokenV| t.email == email
}

pub open spec fn token_not_of(email: Seq<char>) -> spec_fn(TokenV) -> bool {
    |t: TokenV| t.email != email
}

pub open spec fn not_in_chat(email: Seq<char>, chat_id: Seq<char>) -> spec_fn(MessageV) -> bool {
    |m: MessageV| !(m.email == email && m.chat_id == chat_id)
}

pub open spec fn token_is(token: Seq<char>) -> spec_fn(TokenV) -> bool {
    |t: TokenV| t.token == token
}

pub open spec fn chat_of(email: Seq<char>) -> spec_fn(ChatV) -> bool {
    |c: ChatV| c.email == email
}

pub open spec fn other_chat(email: Seq<char>, chat_id: Seq<char>) -> spec_fn(ChatV) -> bool {
    |c: ChatV| !(c.email == email && c.chat_id == chat_id)
}

pub open spec fn in_chat(email: Seq<char>, chat_id: Seq<char>) -> spec_fn(MessageV) -> bool {
    |m: MessageV| m.email == email && m.chat_id == chat_id
}

pub open spec fn message_is(id: Seq<char>) -> spec_fn(MessageV) -> bool {
    |m: MessageV| m.id == id
}

pub open spec fn audio_is(id: Seq<char>) -> spec_fn(AudioV) -> bool {
    |a: AudioV| a.id == id
}

/// A stored message row as it is handed to a client.
pub open spec fn web_view_of(m: MessageV) -> WebMessageView {
    WebMessageView {
        message: MessageView { content: Some(m.content), role: Some(m.sender) },
        created_at: m.created_at,
        id: m.id,
    }
}

pub open spec fn web_views_of(s: Seq<MessageV>) -> Seq<WebMessageView> {
    s.map_values(|m: MessageV| web_view_of(m))
}

pub open spec fn chat_id_list(s: Seq<ChatV>) -> Seq<Seq<char>> {
    s.map_values(|c: ChatV| c.chat_id)
}

pub open spec fn string_views(s: Seq<String>) -> Seq<Seq<char>> {
    s.map_values(|x: String| x@)
}

pub open spec fn last_n<A>(s: Seq<A>, n: int) -> Seq<A> {
    if s.len() <= n {
        s
    } else {
        s.subrange(s.len() - n, s.len() as int)
    }
}

impl StoreView {
    pub open spec fn empty() -> StoreView {
        StoreView {
            users: Seq::empty(),
            tokens: Seq::empty(),
            chats: Seq::empty(),
            messages: Seq::empty(),
            audio: Seq::empty(),
        }
    }

    /// Emails are unique among users; at most one token row exists per email
    /// and per token string; chat ids are unique; at most one audio path per message identifier.
    pub open spec fn wf(self) -> bool {
        &&& distinct_keys(self.users, user_email())
        &&& distinct_keys(self.tokens, token_email())
        &&& distinct_keys(self.tokens, token_string())
        &&& distinct_keys(self.chats, chat_id_key())
        &&& distinct_keys(self.audio, audio_id())
    }

    /// Whether another email holds a row with this token string.
    pub open spec fn token_taken(self, token: Seq<char>, email: Seq<char>) -> bool {
        exists|i: int| 0 <= i < self.tokens.len() && self.tokens[i].token == token && self.tokens[i].email != email
    }

    pub open spec fn chat_exists(self, chat_id: Seq<char>) -> bool {
        exists|i: int| 0 <= i < self.chats.len() && self.chats[i].chat_id == chat_id
    }

    pub open spec fn user_exists(self, email: Seq<char>) -> bool {
        exists|i: int| 0 <= i < self.users.len() && self.users[i].email == email
    }

    pub open spec fn credentials_ok(self, email: Seq<char>, password_hash: Seq<char>) -> bool {
        exists|i: int|
            0 <= i < self.users.len() && self.users[i].email == email
                && self.users[i].password_hash == password_hash
    }

    pub open spec fn user_name(self, email: Seq<char>) -> Option<Seq<char>> {
        match find_first(self.users, user_has_email(email)) {
            Some(u) => Some(u.name),
            None => None,
        }
    }

    pub open spec fn token_of_email(self, email: Seq<char>) -> Option<TokenV> {
        find_first(self.tokens, token_has_email(email))
    }

    pub open spec fn token_lookup(self, token: Seq<char>) -> Option<TokenV> {
        find_first(self.tokens, token_is(token))
    }

    /// The token rows of every other email.
    pub open spec fn tokens_without(self, email: Seq<char>) -> Seq<TokenV> {
        self.tokens.filter(token_not_of(email))
    }

    /// The identifiers of the chats that `email` owns, in creation order.
    pub open spec fn chat_ids(self, email: Seq<char>) -> Seq<Seq<char>> {
        chat_id_list(self.chats.filter(chat_of(email)))
    }

    /// The messages of one chat, oldest first.
    pub open spec fn chat_messages(self, email: Seq<char>, chat_id: Seq<char>) -> Seq<MessageV> {
        self.messages.filter(in_chat(email, chat_id))
    }

    /// The most recent messages of one chat, at most `MESSAGE_WINDOW`, oldest first.
    pub open spec fn recent_messages(self, email: Seq<char>, chat_id: Seq<char>) -> Seq<WebMessageView> {
        web_views_of(last_n(self.chat_messages(email, chat_id), MESSAGE_WINDOW as int))
    }

    pub open spec fn message_content(self, id: Seq<char>) -> Option<Seq<char>> {
        match find_first(self.messages, message_is(id)) {
            Some(m) => Some(m.content),
            None => None,
        }
    }

    pub open spec fn audio_path(self, id: Seq<char>) -> Option<Seq<char>> {
        match find_first(self.audio, audio_is(id)) {
            Some(a) => Some(a.path),
            None => None,
        }
    }

    /// The store after a token is minted for `email`: its old rows go, the new one is appended.
    pub open spec fn with_token(self, token: Seq<char>, email: Seq<char>, expire: u64) -> StoreView {
        StoreView {
            tokens: self.tokens_without(email).push(TokenV { token, email, expire }),
            ..self
        }
    }

    pub open spec fn with_user(self, email: Seq<char>, name: Seq<char>, password_hash: Seq<char>) -> StoreView {
        StoreView { users: self.users.push(UserV { email, name, password_hash }), ..self }
    }

    pub open spec fn with_chat(self, email: Seq<char>, chat_id: Seq<char>) -> StoreView {
        StoreView { chats: self.chats.push(ChatV { email, chat_id }), ..self }
    }

    /// The store after a chat and all of its messages are deleted.
    pub open spec fn without_chat(self, email: Seq<char>, chat_id: Seq<char>) -> StoreView {
        StoreView {
            chats: self.chats.filter(other_chat(email, chat_id)),
            messages: self.messages.filter(not_in_chat(email, chat_id)),
            ..self
        }
    }

    pub open spec fn with_message(self, m: MessageV) -> StoreView {
        StoreView { messages: self.messages.push(m), ..self }
    }

    /// The store after an audio path is recorded: a path already cached for the id is kept.
    pub open spec fn with_audio(self, id: Seq<char>, path: Seq<char>) -> StoreView {
        if self.audio_path(id) is Some {
            self
        } else {
            StoreView { audio: self.audio.push(AudioV { id, path }), ..self }
        }
    }
}

impl Store {
    pub open spec fn wf(&self) -> bool {
        self@.wf()
    }

    pub fn new() -> (r: Store)
        ensures
            r@ == StoreView::empty(),
            r.wf(),
    {
        let r = Store { users: Vec::new(), tokens: Vec::new(), chats: Vec::new(), messages: Vec::new(), audio: Vec::new() };
        assert(r@.users =~= Seq::empty());
        assert(r@.tokens =~= Seq::empty());
        assert(r@.chats =~= Seq::empty());
        assert(r@.messages =~= Seq::empty());
        assert(r@.audio =~= Seq::empty());
        r
    }

    pub fn user_exists(&self, email: &String) -> (r: bool)
        ensures
            r == self@.user_exists(email@),
    {
        let mut i: usize = 0;
        while i < self.users.len()
            invariant
                i <= self.users.len(),
                forall|j: int| 0 <= j < i ==> self@.users[j].email != email@,
            decreases self.users.len() - i,
        {
            if self.users[i].email == *email {
                assert(self@.users[i as int].email == email@);
                return true;
            }
            i += 1;
        }
        false
    }

    pub fn verify_user(&self, email: &String, password_hash: &String) -> (r: bool)
        ensures
            r == self@.credentials_ok(email@, password_hash@),
    {
        let mut i: usize = 0;
        while i < self.users.len()
            invariant
                i <= self.users.len(),
                forall|j: int|
                    0 <= j < i ==> !(self@.users[j].email == email@ && self@.users[j].password_hash
                        == password_hash@),
            decreases self.users.len() - i,
        {
            if self.users[i].email == *email && self.users[i].password_hash == *password_hash {
                assert(self@.users[i as int].email == email@);
                return true;
            }
            i += 1;
        }
        false
    }

    /// Adds a user; an email that is already registered leaves the store unchanged.
    pub fn insert_user(&mut self, email: &String, name: &String, password_hash: &String) -> (r: bool)
        requires
            old(self).wf(),
        ensures
            final(self).wf(),
            r == !old(self)@.user_exists(email@),
            r ==> final(self)@ == old(self)@.with_user(email@, name@, password_hash@),
            !r ==> final(self)@ == old(self)@,
    {
        if self.user_exists(email) {
            return false;
        }
        let ghost pre = self@;
        self.users.push(UserRow { email: email.clone(), name: name.clone(), password_hash: password_hash.clone() });
        assert(self@.users =~= pre.users.push(UserV { email: email@, name: name@, password_hash: password_hash@ }));
        assert(self@ == pre.with_user(email@, name@, password_hash@));
        true
    }

    pub fn user_name(&self, email: &String) -> (r: Option<String>)
        ensures
            match r {
                Some(n) => self@.user_name(email@) == Some(n@),
                None => self@.user_name(email@) is None,
            },
    {
        let mut i: usize = 0;
        while i < self.users.len()
            invariant
                i <= self.users.len(),
                forall|j: int| 0 <= j < i ==> !user_has_email(email@)(self@.users[j]),
            decreases self.users.len() - i,
        {
            if self.users[i].email == *email {
                proof {
                    lemma_first_match_at(self@.users, user_has_email(email@), i as int);
                }
                return Some(self.users[i].name.clone());
            }
            i += 1;
        }
        proof {
            lemma_first_match_none(self@.users, user_has_email(email@));
        }
        None
    }

    pub fn token_of_email(&self, email: &String) -> (r: Option<TokenRow>)
        ensures
            match r {
                Some(t) => self@.token_of_email(email@) == Some(t@),
                None => self@.token_of_email(email@) is None,
            },
    {
        let mut i: usize = 0;
        while i < self.tokens.len()
            invariant
                i <= self.tokens.len(),
                forall|j: int| 0 <= j < i ==> !token_has_email(email@)(self@.tokens[j]),
            decreases self.tokens.len() - i,
        {
            if self.tokens[i].email == *email {
                proof {
                    lemma_first_match_at(self@.tokens, token_has_email(email@), i as int);
                }
                return Some(self.tokens[i].duplicate());
            }
            i += 1;
        }
        proof {
            lemma_first_match_none(self@.tokens, token_has_email(email@));
        }
        None
    }

    pub fn token_lookup(&self, token: &String) -> (r: Option<TokenRow>)
        ensures
            match r {
                Some(t) => self@.token_lookup(token@) == Some(t@),
                None => self@.token_lookup(token@) is None,
            },
    {
        let mut i: usize = 0;
        while i < self.tokens.len()
            invariant
                i <= self.tokens.len(),
                forall|j: int| 0 <= j < i ==> !token_is(token@)(self@.tokens[j]),
            decreases self.tokens.len() - i,
        {
            if self.tokens[i].token == *token {
                proof {
                    lemma_first_match_at(self@.tokens, token_is(token@), i as int);
                }
                return Some(self.tokens[i].duplicate());
            }
            i += 1;
        }
        proof {
            lemma_first_match_none(self@.tokens, token_is(token@));
        }
        None
    }

    /// Deletes every token row of `email` and appends the new one.
    pub fn replace_token(&mut self, token: &String, email: &String, expire: u64)
        requires
            old(self).wf(),
            !old(self)@.token_taken(token@, email@),
        ensures
            final(self).wf(),
            final(self)@ == old(self)@.with_token(token@, email@, expire),
    {
        let ghost pre = self@;
        let ghost p = token_not_of(email@);
        let mut kept: Vec<TokenRow> = Vec::new();
        let mut i: usize = 0;
        while i < self.tokens.len()
            invariant
                i <= self.tokens.len(),
                self@ == pre,
                p == token_not_of(email@),
                token_views(kept@) == pre.tokens.take(i as int).filter(p),
            decreases self.tokens.len() - i,
        {
            proof {
                lemma_filter_take_step(pre.tokens, p, i as int);
            }
            if !(self.tokens[i].email == *email) {
                let ghost before = kept@;
                kept.push(self.tokens[i].duplicate());
                assert(token_views(kept@) =~= token_views(before).push(
                    pre.tokens[i as int],
                ));
            }
            i += 1;
        }
        assert(pre.tokens.take(self.tokens.len() as int) =~= pre.tokens);
        let ghost kept_view = token_views(kept@);
        kept.push(TokenRow { token: token.clone(), email: email.clone(), expire });
        assert(token_views(kept@) =~= kept_view.push(TokenV { token: token@, email: email@, expire }));
        self.tokens = kept;
        assert(self@ == pre.with_token(token@, email@, expire));
        proof {
            lemma_filter_distinct_keys(pre.tokens, p, token_email());
            crate::seqs::lemma_filter_members(pre.tokens, p);
            lemma_push_distinct_keys(pre.tokens.filter(p), TokenV { token: token@, email: email@, expire }, token_email());
            lemma_filter_distinct_keys(pre.tokens, p, token_string());
            let f = pre.tokens.filter(p);
            assert forall|i: int| 0 <= i < f.len() implies token_string()(f[i]) != token@ by {
                assert(pre.tokens.contains(f[i]));
                assert(p(f[i]));
            }
            lemma_push_distinct_keys(f, TokenV { token: token@, email: email@, expire }, token_string());
        }
    }

    /// Whether another email holds a row with this token string.
    pub fn token_taken(&self, token: &String, email: &String) -> (r: bool)
        ensures
            r == self@.token_taken(token@, email@),
    {
        let mut i: usize = 0;
        while i < self.tokens.len()
            invariant
                i <= self.tokens.len(),
                forall|j: int| 0 <= j < i ==> !(self@.tokens[j].token == token@ && self@.tokens[j].email != email@),
            decreases self.tokens.len() - i,
        {
            if self.tokens[i].token == *token && !(self.tokens[i].email == *email) {
                assert(self@.tokens[i as int].token == token@);
                return true;
            }
            i += 1;
        }
        false
    }

    pub fn chat_exists(&self, chat_id: &String) -> (r: bool)
        ensures
            r == self@.chat_exists(chat_id@),
    {
        let mut i: usize = 0;
        while i < self.chats.len()
            invariant
                i <= self.chats.len(),
                forall|j: int| 0 <= j < i ==> self@.chats[j].chat_id != chat_id@,
            decreases self.chats.len() - i,
        {
            if self.chats[i].chat_id == *chat_id {
                assert(self@.chats[i as int].chat_id == chat_id@);
                return true;
            }
            i += 1;
        }
        false
    }
}

impl Store {
    pub fn insert_chat(&mut self, email: &String, chat_id: &String)
        requires
            old(self).wf(),
            !old(self)@.chat_exists(chat_id@),
        ensures
            final(self).wf(),
            final(self)@ == old(self)@.with_chat(email@, chat_id@),
    {
        let ghost pre = self@;
        self.chats.push(ChatRow { email: email.clone(), chat_id: chat_id.clone() });
        assert(chat_views(self.chats@) =~= pre.chats.push(ChatV { email: email@, chat_id: chat_id@ }));
        assert(self@ == pre.with_chat(email@, chat_id@));
        proof {
            lemma_push_distinct_keys(pre.chats, ChatV { email: email@, chat_id: chat_id@ }, chat_id_key());
        }
    }

    pub fn list_chats(&self, email: &String) -> (r: Vec<String>)
        ensures
            string_views(r@) == self@.chat_ids(email@),
    {
        let ghost p = chat_of(email@);
        let ghost rows = self@.chats;
        let mut out: Vec<String> = Vec::new();
        let mut i: usize = 0;
        while i < self.chats.len()
            invariant
                i <= self.chats.len(),
                p == chat_of(email@),
                rows == self@.chats,
                string_views(out@) == chat_id_list(rows.take(i as int).filter(p)),
            decreases self.chats.len() - i,
        {
            proof {
                lemma_filter_take_step(rows, p, i as int);
            }
            if self.chats[i].email == *email {
                let ghost before = out@;
                out.push(self.chats[i].chat_id.clone());
                assert(string_views(out@) =~= string_views(before).push(rows[i as int].chat_id));
                assert(chat_id_list(rows.take(i as int + 1).filter(p)) =~= chat_id_list(
                    rows.take(i as int).filter(p),
                ).push(rows[i as int].chat_id));
            }
            i += 1;
        }
        assert(rows.take(self.chats.len() as int) =~= rows);
        out
    }

    /// Deletes the chat row and every message of that chat.
    pub fn delete_chat(&mut self, email: &String, chat_id: &String)
        requires
            old(self).wf(),
        ensures
            final(self).wf(),
            final(self)@ == old(self)@.without_chat(email@, chat_id@),
    {
        let ghost pre = self@;
        let ghost p = other_chat(email@, chat_id@);
        let mut kept: Vec<ChatRow> = Vec::new();
        let mut i: usize = 0;
        while i < self.chats.len()
            invariant
                i <= self.chats.len(),
                self@ == pre,
                p == other_chat(email@, chat_id@),
                chat_views(kept@) == pre.chats.take(i as int).filter(p),
            decreases self.chats.len() - i,
        {
            proof {
                lemma_filter_take_step(pre.chats, p, i as int);
            }
            if !(self.chats[i].email == *email && self.chats[i].chat_id == *chat_id) {
                let ghost before = kept@;
                kept.push(ChatRow { email: self.chats[i].email.clone(), chat_id: self.chats[i].chat_id.clone() });
                assert(chat_views(kept@) =~= chat_views(before).push(pre.chats[i as int]));
            }
            i += 1;
        }
        assert(pre.chats.take(self.chats.len() as int) =~= pre.chats);
        let ghost q = not_in_chat(email@, chat_id@);
        let mut rest: Vec<MessageRow> = Vec::new();
        let mut j: usize = 0;
        while j < self.messages.len()
            invariant
                j <= self.messages.len(),
                self@ == pre,
                q == not_in_chat(email@, chat_id@),
                message_views(rest@) == pre.messages.take(j as int).filter(q),
            decreases self.messages.len() - j,
        {
            proof {
                lemma_filter_take_step(pre.messages, q, j as int);
            }
            if !(self.messages[j].email == *email && self.messages[j].chat_id == *chat_id) {
                let ghost before = rest@;
                rest.push(self.messages[j].duplicate());
                assert(message_views(rest@) =~= message_views(before).push(pre.messages[j as int]));
            }
            j += 1;
        }
        assert(pre.messages.take(self.messages.len() as int) =~= pre.messages);
        self.chats = kept;
        self.messages = rest;
        assert(self@ == pre.without_chat(email@, chat_id@));
        proof {
            lemma_filter_distinct_keys(pre.chats, other_chat(email@, chat_id@), chat_id_key());
        }
    }

    pub fn insert_message(&mut self, row: MessageRow)
        requires
            old(self).wf(),
        ensures
            final(self).wf(),
            final(self)@ == old(self)@.with_message(row@),
    {
        let ghost pre = self@;
        let ghost v = row@;
        self.messages.push(row);
        assert(message_views(self.messages@) =~= pre.messages.push(v));
        assert(self@ == pre.with_message(v));
    }

    /// The most recent messages of one chat, at most `MESSAGE_WINDOW`, oldest first.
    pub fn recent_messages(&self, email: &String, chat_id: &String) -> (r: Vec<WebMessage>)
        ensures
            web_views(r@) == self@.recent_messages(email@, chat_id@),
    {
        let ghost p = in_chat(email@, chat_id@);
        let ghost rows = self@.messages;
        let mut all: Vec<WebMessage> = Vec::new();
        let mut i: usize = 0;
        while i < self.messages.len()
            invariant
                i <= self.messages.len(),
                p == in_chat(email@, chat_id@),
                rows == self@.messages,
                web_views(all@) == web_views_of(rows.take(i as int).filter(p)),
            decreases self.messages.len() - i,
        {
            proof {
                lemma_filter_take_step(rows, p, i as int);
            }
            let m = &self.messages[i];
            if m.email == *email && m.chat_id == *chat_id {
                let ghost before = all@;
                let content: &str = m.content.as_str();
                let sender: &str = m.sender.as_str();
                all.push(WebMessage::new(Message::new(sender, content), m.created_at, m.id.clone()));
                assert(web_views(all@) =~= web_views(before).push(web_view_of(rows[i as int])));
                assert(web_views_of(rows.take(i as int + 1).filter(p)) =~= web_views_of(
                    rows.take(i as int).filter(p),
                ).push(web_view_of(rows[i as int])));
            }
            i += 1;
        }
        assert(rows.take(self.messages.len() as int) =~= rows);
        let ghost f = self@.chat_messages(email@, chat_id@);
        assert(web_views(all@) == web_views_of(f));
        let start: usize = if all.len() > MESSAGE_WINDOW {
            all.len() - MESSAGE_WINDOW
        } else {
            0
        };
        let mut out: Vec<WebMessage> = Vec::new();
        let mut k: usize = start;
        while k < all.len()
            invariant
                start <= k <= all.len(),
                web_views(out@) == web_views(all@).subrange(start as int, k as int),
            decreases all.len() - k,
        {
            let ghost before = out@;
            out.push(all[k].duplicate());
            assert(web_views(out@) =~= web_views(before).push(all@[k as int]@));
            assert(web_views(all@).subrange(start as int, k as int + 1) =~= web_views(all@).subrange(
                start as int,
                k as int,
            ).push(all@[k as int]@));
            k += 1;
        }
        assert(web_views(out@) =~= web_views_of(last_n(f, MESSAGE_WINDOW as int)));
        out
    }

    pub fn message_content(&self, id: &String) -> (r: Option<String>)
        ensures
            match r {
                Some(c) => self@.message_content(id@) == Some(c@),
                None => self@.message_content(id@) is None,
            },
    {
        let mut i: usize = 0;
        while i < self.messages.len()
            invariant
                i <= self.messages.len(),
                forall|j: int| 0 <= j < i ==> !message_is(id@)(self@.messages[j]),
            decreases self.messages.len() - i,
        {
            if self.messages[i].id == *id {
                proof {
                    lemma_first_match_at(self@.messages, message_is(id@), i as int);
                }
                return Some(self.messages[i].content.clone());
            }
            i += 1;
        }
        proof {
            lemma_first_match_none(self@.messages, message_is(id@));
        }
        None
    }

    pub fn audio_path(&self, id: &String) -> (r: Option<String>)
        ensures
            match r {
                Some(path) => self@.audio_path(id@) == Some(path@),
                None => self@.audio_path(id@) is None,
            },
    {
        let mut i: usize = 0;
        while i < self.audio.len()
            invariant
                i <= self.audio.len(),
                forall|j: int| 0 <= j < i ==> !audio_is(id@)(self@.audio[j]),
            decreases self.audio.len() - i,
        {
            if self.audio[i].id == *id {
                proof {
                    lemma_first_match_at(self@.audio, audio_is(id@), i as int);
                }
                return Some(self.audio[i].path.clone());
            }
            i += 1;
        }
        proof {
            lemma_first_match_none(self@.audio, audio_is(id@));
        }
        None
    }

    /// Caches the audio path of a message; a path already cached for the id is kept.
    pub fn record_audio_path(&mut self, id: &String, path: &String)
        requires
            old(self).wf(),
        ensures
            final(self).wf(),
            final(self)@ == old(self)@.with_audio(id@, path@),
    {
        if self.audio_path(id).is_some() {
            return;
        }
        let ghost pre = self@;
        proof {
            assert forall|j: int| 0 <= j < pre.audio.len() implies pre.audio[j].id != id@ by {
                if pre.audio[j].id == id@ {
                    crate::seqs::lemma_first_match_none_converse(pre.audio, audio_is(id@), j);
                }
            }
        }
        self.audio.push(AudioRow { id: id.clone(), path: path.clone() });
        assert(audio_views(self.audio@) =~= pre.audio.push(AudioV { id: id@, path: path@ }));
        assert(self@ == pre.with_audio(id@, path@));
    }
}

impl MessageRow {
    pub fn duplicate(&self) -> (r: MessageRow)
        ensures
            r@ == self@,
    {
        MessageRow {
            email: self.email.clone(),
            chat_id: self.chat_id.clone(),
            sender: self.sender.clone(),
            content: self.content.clone(),
            created_at: self.created_at,
            id: self.id.clone(),
        }
    }
}

/// One write to the tables, as a request made it; replayed in order, the
/// writes rebuild the tables.
pub enum StoreChange {
    /// email, display name, password hash
    AddUser(String, String, String),
    /// token, email, expiry: replaces every token of the email, unless another email holds the token
    SetToken(String, String, u64),
    /// email, chat id: unless the id is in use
    AddChat(String, String),
    /// email, chat id: the chat and all of its messages
    DeleteChat(String, String),
    AddMessage(MessageRow),
    /// message id, path: kept only if the id has no path yet
    AddAudio(String, String),
}

pub enum StoreChangeView {
    AddUser(Seq<char>, Seq<char>, Seq<char>),
    SetToken(Seq<char>, Seq<char>, u64),
    AddChat(Seq<char>, Seq<char>),
    DeleteChat(Seq<char>, Seq<char>),
    AddMessage(MessageV),
    AddAudio(Seq<char>, Seq<char>),
}

impl View for StoreChange {
    type V = StoreChangeView;

    open spec fn view(&self) -> StoreChangeView {
        match self {
            StoreChange::AddUser(e, n, h) => StoreChangeView::AddUser(e@, n@, h@),
            StoreChange::SetToken(t, e, x) => StoreChangeView::SetToken(t@, e@, *x),
            StoreChange::AddChat(e, c) => StoreChangeView::AddChat(e@, c@),
            StoreChange::DeleteChat(e, c) => StoreChangeView::DeleteChat(e@, c@),
            StoreChange::AddMessage(m) => StoreChangeView::AddMessage(m@),
            StoreChange::AddAudio(i, p) => StoreChangeView::AddAudio(i@, p@),
        }
    }
}

pub open spec fn change_views(s: Seq<StoreChange>) -> Seq<StoreChangeView> {
    s.map_values(|c: StoreChange| c@)
}

impl StoreView {
    /// The tables after one write; a user whose email is taken, a token held by
    /// another email and a chat id in use are not added.
    pub open spec fn apply(self, change: StoreChangeView) -> StoreView {
        match change {
            StoreChangeView::AddUser(e, n, h) => if self.user_exists(e) {
                self
            } else {
                self.with_user(e, n, h)
            },
            StoreChangeView::SetToken(t, e, x) => if self.token_taken(t, e) {
                self
            } else {
                self.with_token(t, e, x)
            },
            StoreChangeView::AddChat(e, c) => if self.chat_exists(c) {
                self
            } else {
                self.with_chat(e, c)
            },
            StoreChangeView::DeleteChat(e, c) => self.without_chat(e, c),
            StoreChangeView::AddMessage(m) => self.with_message(m),
            StoreChangeView::AddAudio(i, p) => self.with_audio(i, p),
        }
    }
}

impl Store {
    /// Performs one write.
    pub fn apply(&mut self, change: StoreChange)
        requires
            old(self).wf(),
        ensures
            final(self).wf(),
            final(self)@ == old(self)@.apply(change@),
    {
        match change {
            StoreChange::AddUser(e, n, h) => {
                self.insert_user(&e, &n, &h);
            },
            StoreChange::SetToken(t, e, x) => {
                if !self.token_taken(&t, &e) {
                    self.replace_token(&t, &e, x);
                }
            },
            StoreChange::AddChat(e, c) => {
                if !self.chat_exists(&c) {
                    self.insert_chat(&e, &c);
                }
            },
            StoreChange::DeleteChat(e, c) => self.delete_chat(&e, &c),
            StoreChange::AddMessage(m) => self.insert_message(m),
            StoreChange::AddAudio(i, p) => self.record_audio_path(&i, &p),
        }
    }
}

impl StoreChange {
    /// A variant-by-variant copy.
    pub fn duplicate(&self) -> (r: StoreChange)
        ensures
            r@ == self@,
    {
        match self {
            StoreChange::AddUser(e, n, h) => StoreChange::AddUser(e.clone(), n.clone(), h.clone()),
            StoreChange::SetToken(t, e, x) => StoreChange::SetToken(t.clone(), e.clone(), *x),
            StoreChange::AddChat(e, c) => StoreChange::AddChat(e.clone(), c.clone()),
            StoreChange::DeleteChat(e, c) => StoreChange::DeleteChat(e.clone(), c.clone()),
            StoreChange::AddMessage(m) => StoreChange::AddMessage(m.duplicate()),
            StoreChange::AddAudio(i, p) => StoreChange::AddAudio(i.clone(), p.clone()),
        }
    }
}

} // verus!
