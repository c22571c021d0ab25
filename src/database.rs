use vstd::prelude::*;
use crate::credentials::{new_identifier, password_hash, password_hash_of};
use crate::protocol::{
    deliveries_view, DatabaseMessage, DatabaseMessageView, Delivery, DeliveryView, NetworkMessage,
    NetworkMessageView,
};
use crate::seqs::{
    distinct_keys, lemma_filter_distinct_keys, lemma_filter_members, lemma_filter_sorted,
    lemma_filter_take_step, lemma_push_distinct_keys, sorted_by,
};
use crate::store::{change_views, MessageRow, MessageV, Store, StoreChange, StoreChangeView, StoreView, TokenV};
use crate::types::{Message, MessageView, UserInfo, UserInfoView, WebMessage, WebMessageView};

verus! {

/// How long a minted token stays valid, in seconds.
pub const TOKEN_LIFETIME: u64 = 60 * 60 * 24;

/// A connection that authenticated as `email` and receives its pushed notices.
pub struct Session {
    pub connection: String,
    pub email: String,
}

pub struct SessionV {
    pub connection: Seq<char>,
    pub email: Seq<char>,
}

impl View for Session {
    type V = SessionV;

    open spec fn view(&self) -> SessionV {
        SessionV { connection: self.connection@, email: self.email@ }
    }
}

pub open spec fn session_views(s: Seq<Session>) -> Seq<SessionV> {
    s.map_values(|x: Session| x@)
}

pub open spec fn string_seq_views(s: Seq<String>) -> Seq<Seq<char>> {
    s.map_values(|x: String| x@)
}

/// The single writer: it owns the store, the registered reply channels (by
/// connection identifier) and the session index, and handles one request at a time.
pub struct DbConnection {
    store: Store,
    senders: Vec<String>,
    sessions: Vec<Session>,
    last_timestamp: u64,
    changes: Vec<StoreChange>,
}

pub struct DbView {
    pub store: StoreView,
    /// The connections that have a reply channel.
    pub connections: Seq<Seq<char>>,
    /// The session index, in order of authentication.
    pub sessions: Seq<SessionV>,
    /// The latest timestamp given to a message.
    pub last_timestamp: u64,
    /// The writes made to the store and not yet taken, oldest first.
    pub changes: Seq<StoreChangeView>,
}

impl View for DbConnection {
    type V = DbView;

    closed spec fn view(&self) -> DbView {
        DbView {
            store: self.store@,
            connections: string_seq_views(self.senders@),
            sessions: session_views(self.sessions@),
            last_timestamp: self.last_timestamp,
            changes: change_views(self.changes@),
        }
    }
}

pub open spec fn session_connection() -> spec_fn(SessionV) -> Seq<char> {
    |s: SessionV| s.connection
}

pub open spec fn message_time() -> spec_fn(MessageV) -> int {
    |m: MessageV| m.created_at as int
}

pub open spec fn session_not_of(connection: Seq<char>) -> spec_fn(SessionV) -> bool {
    |s: SessionV| s.connection != connection
}

pub open spec fn other_connection(connection: Seq<char>) -> spec_fn(Seq<char>) -> bool {
    |c: Seq<char>| c != connection
}

/// The sessions that a notice about `email` goes to: all of them, or all but `exclude`.
pub open spec fn notified(email: Seq<char>, exclude: Option<Seq<char>>) -> spec_fn(SessionV) -> bool {
    |s: SessionV| s.email == email && exclude != Some(s.connection)
}

pub open spec fn deliver_to_each(sessions: Seq<SessionV>, message: DatabaseMessageView) -> Seq<DeliveryView> {
    sessions.map_values(|s: SessionV| DeliveryView { connection: s.connection, message })
}

/// One notice per session of `email`, in session order, skipping `exclude`.
pub open spec fn fan_out(
    sessions: Seq<SessionV>,
    email: Seq<char>,
    exclude: Option<Seq<char>>,
    message: DatabaseMessageView,
) -> Seq<DeliveryView> {
    deliver_to_each(sessions.filter(notified(email, exclude)), message)
}

pub open spec fn reply(connection: Seq<char>, message: DatabaseMessageView) -> Seq<DeliveryView> {
    seq![DeliveryView { connection, message }]
}

/// The session index once `connection` is authenticated as `email`: its
/// earlier entry, if any, is replaced.
pub open spec fn bind_session(sessions: Seq<SessionV>, connection: Seq<char>, email: Seq<char>) -> Seq<SessionV> {
    sessions.filter(session_not_of(connection)).push(SessionV { connection, email })
}

pub open spec fn expiry_from(now: u64) -> u64 {
    if now <= u64::MAX - TOKEN_LIFETIME {
        (now + TOKEN_LIFETIME) as u64
    } else {
        u64::MAX
    }
}

/// A token is live while `now` has not passed its expiry.
pub open spec fn is_live(t: TokenV, now: u64) -> bool {
    now <= t.expire
}

/// The email that a live token belongs to.
pub open spec fn token_owner(store: StoreView, token: Seq<char>, now: u64) -> Option<Seq<char>> {
    match store.token_lookup(token) {
        Some(t) => if is_live(t, now) {
            Some(t.email)
        } else {
            None
        },
        None => None,
    }
}

/// The token that a login hands out, and the store after it: a live token of
/// the email is reused; otherwise `fresh` is minted.
pub open spec fn login_token(store: StoreView, email: Seq<char>, now: u64, fresh: Seq<char>) -> (StoreView, Seq<char>) {
    match store.token_of_email(email) {
        Some(t) => if is_live(t, now) {
            (store, t.token)
        } else {
            (store.with_token(fresh, email, expiry_from(now)), fresh)
        },
        None => (store.with_token(fresh, email, expiry_from(now)), fresh),
    }
}

/// Whether a login of `email` must mint a token: it has none, or its token expired.
pub open spec fn needs_token(store: StoreView, email: Seq<char>, now: u64) -> bool {
    match store.token_of_email(email) {
        Some(t) => !is_live(t, now),
        None => true,
    }
}

/// The writes that a login makes: none when a live token is reused, else the minted token.
pub open spec fn login_changes(store: StoreView, email: Seq<char>, now: u64, fresh: Seq<char>) -> Seq<StoreChangeView> {
    match store.token_of_email(email) {
        Some(t) => if is_live(t, now) {
            Seq::empty()
        } else {
            seq![StoreChangeView::SetToken(fresh, email, expiry_from(now))]
        },
        None => seq![StoreChangeView::SetToken(fresh, email, expiry_from(now))],
    }
}

pub open spec fn timestamp_after(now: u64, last: u64) -> u64 {
    if now > last {
        now
    } else {
        last
    }
}

/// The connection that sent a request, if it names one.
pub open spec fn origin(req: NetworkMessageView) -> Option<Seq<char>> {
    match req {
        NetworkMessageView::ChatRequest(c, _, _) => Some(c),
        NetworkMessageView::LoginRequest(c, _, _) => Some(c),
        NetworkMessageView::TokenValidation(c, _) => Some(c),
        NetworkMessageView::NewChat(c, _) => Some(c),
        NetworkMessageView::NewMessage(c, _, _, _, _, _) => Some(c),
        NetworkMessageView::GetChats(c, _) => Some(c),
        NetworkMessageView::DeleteChat(c, _, _) => Some(c),
        NetworkMessageView::RegisterUser(c, _, _, _) => Some(c),
        NetworkMessageView::GetMessage(c, _) => Some(c),
        NetworkMessageView::GetAudioPath(c, _) => Some(c),
        NetworkMessageView::RecordAudioPath(_, _) => None,
        NetworkMessageView::Disconnect(_) => None,
    }
}

/// Messages stored in order of their timestamps, none later than `last`.
pub open spec fn timeline_ok(m: Seq<MessageV>, last: u64) -> bool {
    &&& sorted_by(m, message_time())
    &&& forall|i: int| 0 <= i < m.len() ==> m[i].created_at <= last
}

/// A message no older than the last one keeps the timeline in order.
pub proof fn lemma_timeline_push(m: Seq<MessageV>, last: u64, v: MessageV)
    requires
        timeline_ok(m, last),
        last <= v.created_at,
    ensures
        timeline_ok(m.push(v), v.created_at),
{
    let n = m.push(v);
    assert forall|i: int, j: int| 0 <= i <= j < n.len() implies message_time()(n[i]) <= message_time()(n[j]) by {
        if j < m.len() {
            assert(n[i] == m[i] && n[j] == m[j]);
        } else if i < m.len() {
            assert(n[i] == m[i]);
        }
    }
    assert forall|i: int| 0 <= i < n.len() implies n[i].created_at <= v.created_at by {
        if i < m.len() {
            assert(n[i] == m[i]);
        }
    }
}

/// Dropping messages keeps the timeline in order.
pub proof fn lemma_timeline_filter(m: Seq<MessageV>, last: u64, p: spec_fn(MessageV) -> bool)
    requires
        timeline_ok(m, last),
    ensures
        timeline_ok(m.filter(p), last),
{
    lemma_filter_sorted(m, p, message_time());
    lemma_filter_members(m, p);
    let f = m.filter(p);
    assert forall|i: int| 0 <= i < f.len() implies f[i].created_at <= last by {
        assert(m.contains(f[i]));
    }
}

impl DbView {
    pub open spec fn initial() -> DbView {
        DbView {
            store: StoreView::empty(),
            connections: Seq::empty(),
            sessions: Seq::empty(),
            last_timestamp: 0,
            changes: Seq::empty(),
        }
    }

    /// The store's own invariant; a connection is in at most one session;
    /// messages are stored in order of their timestamps, none later than the last one given.
    pub open spec fn wf(self) -> bool {
        &&& self.store.wf()
        &&& distinct_keys(self.sessions, session_connection())
        &&& timeline_ok(self.store.messages, self.last_timestamp)
    }

    pub open spec fn with_connection(self, connection: Seq<char>) -> DbView {
        if self.connections.contains(connection) {
            self
        } else {
            DbView { connections: self.connections.push(connection), ..self }
        }
    }

    /// What one request does: the state after it and the messages it puts on reply channels.
    /// `now` is the time in seconds; `fresh` is the identifier that a new token or chat gets;
    /// a request whose new token or chat would take an identifier already in use fails.
    /// A request from a connection without a reply channel is ignored.
    pub open spec fn step(self, req: NetworkMessageView, now: u64, fresh: Seq<char>) -> (DbView, Seq<DeliveryView>) {
        let s = self;
        let none = Seq::<DeliveryView>::empty();
        match req {
            NetworkMessageView::RecordAudioPath(id, path) => (
                DbView {
                    store: s.store.with_audio(id, path),
                    changes: s.changes.push(StoreChangeView::AddAudio(id, path)),
                    ..s
                },
                none,
            ),
            NetworkMessageView::Disconnect(c) => (
                DbView {
                    connections: s.connections.filter(other_connection(c)),
                    sessions: s.sessions.filter(session_not_of(c)),
                    ..s
                },
                none,
            ),
            _ => if !s.connections.contains(origin(req)->0) {
                (s, none)
            } else {
                match req {
                    NetworkMessageView::LoginRequest(c, email, hash) => if !s.store.credentials_ok(email, hash) {
                        (s, reply(c, DatabaseMessageView::Failure))
                    } else if needs_token(s.store, email, now) && s.store.token_taken(fresh, email) {
                        (s, reply(c, DatabaseMessageView::Failure))
                    } else {
                        let (store, token) = login_token(s.store, email, now, fresh);
                        let changes = s.changes + login_changes(s.store, email, now, fresh);
                        match s.store.user_name(email) {
                            Some(name) => (
                                DbView { store, changes, sessions: bind_session(s.sessions, c, email), ..s },
                                reply(c, DatabaseMessageView::UserInfo(UserInfoView { token, name, email })),
                            ),
                            None => (DbView { store, changes, ..s }, reply(c, DatabaseMessageView::Failure)),
                        }
                    },
                    NetworkMessageView::RegisterUser(c, name, email, password) => if s.store.user_exists(email)
                        || s.store.token_taken(fresh, email) {
                        (s, reply(c, DatabaseMessageView::Failure))
                    } else {
                        (
                            DbView {
                                store: s.store.with_user(email, name, password_hash_of(password)).with_token(
                                    fresh,
                                    email,
                                    expiry_from(now),
                                ),
                                changes: s.changes.push(
                                    StoreChangeView::AddUser(email, name, password_hash_of(password)),
                                ).push(StoreChangeView::SetToken(fresh, email, expiry_from(now))),
                                ..s
                            },
                            reply(c, DatabaseMessageView::Token(fresh)),
                        )
                    },
                    NetworkMessageView::TokenValidation(c, token) => match token_owner(s.store, token, now) {
                        Some(email) => (
                            DbView { sessions: bind_session(s.sessions, c, email), ..s },
                            reply(c, DatabaseMessageView::Email(email)),
                        ),
                        None => (s, reply(c, DatabaseMessageView::Failure)),
                    },
                    NetworkMessageView::NewChat(c, email) => if s.store.chat_exists(fresh) {
                        (s, reply(c, DatabaseMessageView::Failure))
                    } else {
                        (
                            DbView {
                                store: s.store.with_chat(email, fresh),
                                changes: s.changes.push(StoreChangeView::AddChat(email, fresh)),
                                ..s
                            },
                            fan_out(s.sessions, email, None, DatabaseMessageView::NewChat(fresh)),
                        )
                    },
                    NetworkMessageView::ChatRequest(c, token, chat_id) => match token_owner(s.store, token, now) {
                        Some(email) => (
                            s,
                            reply(c, DatabaseMessageView::Messages(chat_id, s.store.recent_messages(email, chat_id))),
                        ),
                        None => (s, reply(c, DatabaseMessageView::Failure)),
                    },
                    NetworkMessageView::NewMessage(c, token, sender, chat_id, content, id) => match token_owner(
                        s.store,
                        token,
                        now,
                    ) {
                        Some(email) => {
                            let ts = timestamp_after(now, s.last_timestamp);
                            let row = MessageV { email, chat_id, sender, content, created_at: ts, id };
                            let echo = WebMessageView {
                                message: MessageView { content: Some(content), role: Some(sender) },
                                created_at: ts,
                                id,
                            };
                            (
                                DbView {
                                    store: s.store.with_message(row),
                                    last_timestamp: ts,
                                    changes: s.changes.push(StoreChangeView::AddMessage(row)),
                                    ..s
                                },
                                reply(c, DatabaseMessageView::Timestamp(ts)) + fan_out(
                                    s.sessions,
                                    email,
                                    Some(c),
                                    DatabaseMessageView::WebMessage(echo),
                                ),
                            )
                        },
                        None => (s, reply(c, DatabaseMessageView::Failure)),
                    },
                    NetworkMessageView::GetChats(c, email) => (
                        s,
                        reply(c, DatabaseMessageView::Chats(s.store.chat_ids(email))),
                    ),
                    NetworkMessageView::DeleteChat(c, token, chat_id) => match token_owner(s.store, token, now) {
                        Some(email) => (
                            DbView {
                                store: s.store.without_chat(email, chat_id),
                                changes: s.changes.push(StoreChangeView::DeleteChat(email, chat_id)),
                                ..s
                            },
                            reply(c, DatabaseMessageView::Deleted(chat_id)) + fan_out(
                                s.sessions,
                                email,
                                Some(c),
                                DatabaseMessageView::Deleted(chat_id),
                            ),
                        ),
                        None => (s, reply(c, DatabaseMessageView::Failure)),
                    },
                    NetworkMessageView::GetMessage(c, id) => match s.store.message_content(id) {
                        Some(content) => (
                            s,
                            reply(
                                c,
                                DatabaseMessageView::Message(
                                    MessageView { content: Some(content), role: Some(Seq::empty()) },
                                ),
                            ),
                        ),
                        None => (s, reply(c, DatabaseMessageView::Failure)),
                    },
                    NetworkMessageView::GetAudioPath(c, id) => match s.store.audio_path(id) {
                        Some(path) => (s, reply(c, DatabaseMessageView::AudioPath(path))),
                        None => (s, reply(c, DatabaseMessageView::Failure)),
                    },
                    _ => (s, none),
                }
            },
        }
    }
}

pub open spec fn opt_str_view(o: Option<&String>) -> Option<Seq<char>> {
    match o {
        Some(s) => Some(s@),
        None => None,
    }
}

impl DbConnection {
    pub open spec fn wf(&self) -> bool {
        self@.wf()
    }

    pub fn new() -> (r: DbConnection)
        ensures
            r@ == DbView::initial(),
            r.wf(),
    {
        let r = DbConnection {
            store: Store::new(),
            senders: Vec::new(),
            sessions: Vec::new(),
            last_timestamp: 0,
            changes: Vec::new(),
        };
        assert(r@.connections =~= Seq::<Seq<char>>::empty());
        assert(r@.changes =~= Seq::<StoreChangeView>::empty());
        assert(r@.sessions =~= Seq::<SessionV>::empty());
        r
    }

    /// Gives `connection` a reply channel; requests from it are handled from now on.
    pub fn register_connection(&mut self, connection: String)
        requires
            old(self).wf(),
        ensures
            final(self).wf(),
            final(self)@ == old(self)@.with_connection(connection@),
    {
        if self.is_registered(&connection) {
            return;
        }
        let ghost pre = self@;
        let ghost c = connection@;
        self.senders.push(connection);
        assert(string_seq_views(self.senders@) =~= pre.connections.push(c));
    }

    fn is_registered(&self, connection: &String) -> (r: bool)
        ensures
            r == self@.connections.contains(connection@),
    {
        let mut i: usize = 0;
        while i < self.senders.len()
            invariant
                i <= self.senders.len(),
                forall|j: int| 0 <= j < i ==> self@.connections[j] != connection@,
            decreases self.senders.len() - i,
        {
            if self.senders[i] == *connection {
                assert(self@.connections[i as int] == connection@);
                return true;
            }
            i += 1;
        }
        false
    }

    /// Drops the sessions of `connection` from the index.
    fn unbind(&mut self, connection: &String)
        requires
            old(self).wf(),
        ensures
            final(self).wf(),
            final(self)@ == (DbView { sessions: old(self)@.sessions.filter(session_not_of(connection@)), ..old(self)@ }),
    {
        let ghost pre = self@;
        let ghost p = session_not_of(connection@);
        let mut kept: Vec<Session> = Vec::new();
        let mut i: usize = 0;
        while i < self.sessions.len()
            invariant
                i <= self.sessions.len(),
                self@ == pre,
                p == session_not_of(connection@),
                session_views(kept@) == pre.sessions.take(i as int).filter(p),
            decreases self.sessions.len() - i,
        {
            proof {
                lemma_filter_take_step(pre.sessions, p, i as int);
            }
            if !(self.sessions[i].connection == *connection) {
                let ghost before = kept@;
                kept.push(Session { connection: self.sessions[i].connection.clone(), email: self.sessions[i].email.clone() });
                assert(session_views(kept@) =~= session_views(before).push(pre.sessions[i as int]));
            }
            i += 1;
        }
        assert(pre.sessions.take(self.sessions.len() as int) =~= pre.sessions);
        self.sessions = kept;
        proof {
            lemma_filter_distinct_keys(pre.sessions, p, session_connection());
        }
    }

    /// Records that `connection` is authenticated as `email`.
    fn bind(&mut self, connection: &String, email: &String)
        requires
            old(self).wf(),
        ensures
            final(self).wf(),
            final(self)@ == (DbView { sessions: bind_session(old(self)@.sessions, connection@, email@), ..old(self)@ }),
    {
        let ghost pre = self@;
        self.unbind(connection);
        let ghost mid = self@.sessions;
        self.sessions.push(Session { connection: connection.clone(), email: email.clone() });
        assert(session_views(self.sessions@) =~= mid.push(SessionV { connection: connection@, email: email@ }));
        proof {
            lemma_filter_members(pre.sessions, session_not_of(connection@));
            assert forall|i: int| 0 <= i < mid.len() implies session_connection()(mid[i]) != connection@ by {
                assert(session_not_of(connection@)(mid[i]));
            }
            lemma_push_distinct_keys(mid, SessionV { connection: connection@, email: email@ }, session_connection());
        }
    }

    /// Forgets a connection: its reply channel and its sessions.
    fn disconnect(&mut self, connection: &String)
        requires
            old(self).wf(),
        ensures
            final(self).wf(),
            final(self)@ == (DbView {
                connections: old(self)@.connections.filter(other_connection(connection@)),
                sessions: old(self)@.sessions.filter(session_not_of(connection@)),
                ..old(self)@
            }),
    {
        self.unbind(connection);
        let ghost pre = self@;
        let ghost p = other_connection(connection@);
        let mut kept: Vec<String> = Vec::new();
        let mut i: usize = 0;
        while i < self.senders.len()
            invariant
                i <= self.senders.len(),
                self@ == pre,
                p == other_connection(connection@),
                string_seq_views(kept@) == pre.connections.take(i as int).filter(p),
            decreases self.senders.len() - i,
        {
            proof {
                lemma_filter_take_step(pre.connections, p, i as int);
            }
            if !(self.senders[i] == *connection) {
                let ghost before = kept@;
                kept.push(self.senders[i].clone());
                assert(string_seq_views(kept@) =~= string_seq_views(before).push(pre.connections[i as int]));
            }
            i += 1;
        }
        assert(pre.connections.take(self.senders.len() as int) =~= pre.connections);
        self.senders = kept;
    }

    /// Appends one copy of `message` for each session that a notice about `email` goes to.
    fn fan_out_into(&self, email: &String, exclude: Option<&String>, message: &DatabaseMessage, out: &mut Vec<Delivery>)
        ensures
            deliveries_view(final(out)@) == deliveries_view(old(out)@) + fan_out(
                self@.sessions,
                email@,
                opt_str_view(exclude),
                message@,
            ),
    {
        let ghost start = deliveries_view(out@);
        let ghost p = notified(email@, opt_str_view(exclude));
        let ghost all = self@.sessions;
        let mut i: usize = 0;
        while i < self.sessions.len()
            invariant
                i <= self.sessions.len(),
                all == self@.sessions,
                p == notified(email@, opt_str_view(exclude)),
                deliveries_view(out@) == start + deliver_to_each(all.take(i as int).filter(p), message@),
            decreases self.sessions.len() - i,
        {
            proof {
                lemma_filter_take_step(all, p, i as int);
            }
            let session = &self.sessions[i];
            let skip = match exclude {
                Some(c) => session.connection == *c,
                None => false,
            };
            if session.email == *email && !skip {
                let ghost before = deliveries_view(out@);
                out.push(Delivery { connection: session.connection.clone(), message: message.duplicate() });
                assert(deliveries_view(out@) =~= before.push(DeliveryView { connection: all[i as int].connection, message: message@ }));
                assert(deliver_to_each(all.take(i as int + 1).filter(p), message@) =~= deliver_to_each(
                    all.take(i as int).filter(p),
                    message@,
                ).push(DeliveryView { connection: all[i as int].connection, message: message@ }));
            }
            i += 1;
        }
        assert(all.take(self.sessions.len() as int) =~= all);
    }

    /// The email of a live token.
    fn live_owner(&self, token: &String, now: u64) -> (r: Option<String>)
        ensures
            match r {
                Some(e) => token_owner(self@.store, token@, now) == Some(e@),
                None => token_owner(self@.store, token@, now) is None,
            },
    {
        match self.store.token_lookup(token) {
            Some(t) => if now <= t.expire {
                Some(t.email)
            } else {
                None
            },
            None => None,
        }
    }

    fn needs_token(&self, email: &String, now: u64) -> (r: bool)
        ensures
            r == needs_token(self@.store, email@, now),
    {
        match self.store.token_of_email(email) {
            Some(t) => !(now <= t.expire),
            None => true,
        }
    }

    /// Hands out the login token of `email`: its live token, or `fresh` minted in its place.
    fn issue_token(&mut self, email: &String, now: u64, fresh: String) -> (r: String)
        requires
            old(self).wf(),
            !(needs_token(old(self)@.store, email@, now) && old(self)@.store.token_taken(fresh@, email@)),
        ensures
            final(self).wf(),
            final(self)@ == (DbView {
                store: login_token(old(self)@.store, email@, now, fresh@).0,
                changes: old(self)@.changes + login_changes(old(self)@.store, email@, now, fresh@),
                ..old(self)@
            }),
            r@ == login_token(old(self)@.store, email@, now, fresh@).1,
    {
        match self.store.token_of_email(email) {
            Some(t) => {
                if now <= t.expire {
                    assert(self@.changes + Seq::<StoreChangeView>::empty() =~= self@.changes);
                    return t.token;
                }
            },
            None => {},
        }
        let ghost pre = self@;
        self.mint_token(email, now, &fresh);
        assert(pre.changes.push(StoreChangeView::SetToken(fresh@, email@, expiry_from(now))) =~= pre.changes
            + seq![StoreChangeView::SetToken(fresh@, email@, expiry_from(now))]);
        fresh
    }

    fn mint_token(&mut self, email: &String, now: u64, fresh: &String)
        requires
            old(self).wf(),
            !old(self)@.store.token_taken(fresh@, email@),
        ensures
            final(self).wf(),
            final(self)@ == (DbView {
                store: old(self)@.store.with_token(fresh@, email@, expiry_from(now)),
                changes: old(self)@.changes.push(StoreChangeView::SetToken(fresh@, email@, expiry_from(now))),
                ..old(self)@
            }),
    {
        let expire = now.saturating_add(TOKEN_LIFETIME);
        self.store.replace_token(fresh, email, expire);
        self.record(StoreChange::SetToken(fresh.clone(), email.clone(), expire));
    }

    /// Notes a write for whoever keeps the store durable.
    fn record(&mut self, change: StoreChange)
        requires
            old(self).wf(),
        ensures
            final(self).wf(),
            final(self)@ == (DbView { changes: old(self)@.changes.push(change@), ..old(self)@ }),
    {
        let ghost pre = self@;
        let ghost c = change@;
        self.changes.push(change);
        assert(change_views(self.changes@) =~= pre.changes.push(c));
    }

    /// Hands over the writes made since the last call, oldest first.
    pub fn take_changes(&mut self) -> (r: Vec<StoreChange>)
        requires
            old(self).wf(),
        ensures
            final(self).wf(),
            change_views(r@) == old(self)@.changes,
            final(self)@ == (DbView { changes: Seq::empty(), ..old(self)@ }),
    {
        let mut taken: Vec<StoreChange> = Vec::new();
        core::mem::swap(&mut taken, &mut self.changes);
        assert(change_views(self.changes@) =~= Seq::<StoreChangeView>::empty());
        taken
    }

    /// Rebuilds the store from a write taken earlier. A message older than the
    /// last one stored is refused and leaves everything unchanged.
    pub fn replay(&mut self, change: StoreChange) -> (r: bool)
        requires
            old(self).wf(),
        ensures
            final(self).wf(),
            r == !(change@ matches StoreChangeView::AddMessage(m) && m.created_at < old(self)@.last_timestamp),
            r ==> final(self)@ == (DbView {
                store: old(self)@.store.apply(change@),
                last_timestamp: match change@ {
                    StoreChangeView::AddMessage(m) => m.created_at,
                    _ => old(self)@.last_timestamp,
                },
                ..old(self)@
            }),
            !r ==> final(self)@ == old(self)@,
    {
        let ghost pre = self@;
        match change {
            StoreChange::AddMessage(row) => {
                if row.created_at < self.last_timestamp {
                    return false;
                }
                let ts = row.created_at;
                let ghost v = row@;
                self.store.insert_message(row);
                self.last_timestamp = ts;
                proof {
                    lemma_timeline_push(pre.store.messages, pre.last_timestamp, v);
                }
                true
            },
            other => {
                let ghost c = other@;
                self.store.apply(other);
                proof {
                    if c is DeleteChat {
                        lemma_timeline_filter(
                            pre.store.messages,
                            pre.last_timestamp,
                            crate::store::not_in_chat(c->DeleteChat_0, c->DeleteChat_1),
                        );
                    }
                }
                true
            },
        }
    }
}

fn reply_to(connection: String, message: DatabaseMessage) -> (r: Vec<Delivery>)
    ensures
        deliveries_view(r@) == reply(connection@, message@),
{
    let mut out: Vec<Delivery> = Vec::new();
    out.push(Delivery { connection, message });
    assert(deliveries_view(out@) =~= reply(out@[0].connection@, out@[0].message@));
    out
}

fn no_deliveries() -> (r: Vec<Delivery>)
    ensures
        deliveries_view(r@) == Seq::<DeliveryView>::empty(),
{
    let out: Vec<Delivery> = Vec::new();
    assert(deliveries_view(out@) =~= Seq::<DeliveryView>::empty());
    out
}

impl DbConnection {
    fn login(&mut self, c: String, email: String, hash: String, now: u64, fresh: &String) -> (r: Vec<Delivery>)
        requires
            old(self).wf(),
            old(self)@.connections.contains(c@),
        ensures
            final(self).wf(),
            (final(self)@, deliveries_view(r@)) == old(self)@.step(
                NetworkMessageView::LoginRequest(c@, email@, hash@),
                now,
                fresh@,
            ),
    {
        if !self.store.verify_user(&email, &hash) {
            return reply_to(c, DatabaseMessage::Failure);
        }
        if self.needs_token(&email, now) && self.store.token_taken(fresh, &email) {
            return reply_to(c, DatabaseMessage::Failure);
        }
        let token = self.issue_token(&email, now, fresh.clone());
        match self.store.user_name(&email) {
            Some(name) => {
                self.bind(&c, &email);
                reply_to(c, DatabaseMessage::UserInfo(UserInfo::new(email, name, token)))
            },
            None => reply_to(c, DatabaseMessage::Failure),
        }
    }

    fn register_user(&mut self, c: String, name: String, email: String, password: String, now: u64, fresh: &String) -> (r: Vec<Delivery>)
        requires
            old(self).wf(),
            old(self)@.connections.contains(c@),
        ensures
            final(self).wf(),
            (final(self)@, deliveries_view(r@)) == old(self)@.step(
                NetworkMessageView::RegisterUser(c@, name@, email@, password@),
                now,
                fresh@,
            ),
    {
        if self.store.user_exists(&email) || self.store.token_taken(fresh, &email) {
            return reply_to(c, DatabaseMessage::Failure);
        }
        let hash = password_hash(password.as_str());
        self.store.insert_user(&email, &name, &hash);
        self.record(StoreChange::AddUser(email.clone(), name, hash));
        self.mint_token(&email, now, fresh);
        reply_to(c, DatabaseMessage::Token(fresh.clone()))
    }

    fn validate_token(&mut self, c: String, token: String, now: u64, fresh: &String) -> (r: Vec<Delivery>)
        requires
            old(self).wf(),
            old(self)@.connections.contains(c@),
        ensures
            final(self).wf(),
            (final(self)@, deliveries_view(r@)) == old(self)@.step(
                NetworkMessageView::TokenValidation(c@, token@),
                now,
                fresh@,
            ),
    {
        match self.live_owner(&token, now) {
            Some(email) => {
                self.bind(&c, &email);
                reply_to(c, DatabaseMessage::Email(email))
            },
            None => reply_to(c, DatabaseMessage::Failure),
        }
    }

    fn new_chat(&mut self, c: String, email: String, now: u64, fresh: &String) -> (r: Vec<Delivery>)
        requires
            old(self).wf(),
            old(self)@.connections.contains(c@),
        ensures
            final(self).wf(),
            (final(self)@, deliveries_view(r@)) == old(self)@.step(
                NetworkMessageView::NewChat(c@, email@),
                now,
                fresh@,
            ),
    {
        if self.store.chat_exists(fresh) {
            return reply_to(c, DatabaseMessage::Failure);
        }
        self.store.insert_chat(&email, fresh);
        self.record(StoreChange::AddChat(email.clone(), fresh.clone()));
        let mut out = no_deliveries();
        self.fan_out_into(&email, None, &DatabaseMessage::NewChat(fresh.clone()), &mut out);
        assert(deliveries_view(out@) =~= fan_out(self@.sessions, email@, None, DatabaseMessageView::NewChat(fresh@)));
        out
    }

    fn chat_request(&self, c: String, token: String, chat_id: String, now: u64, fresh: &String) -> (r: Vec<Delivery>)
        requires
            self.wf(),
            self@.connections.contains(c@),
        ensures
            (self@, deliveries_view(r@)) == self@.step(
                NetworkMessageView::ChatRequest(c@, token@, chat_id@),
                now,
                fresh@,
            ),
    {
        match self.live_owner(&token, now) {
            Some(email) => {
                let messages = self.store.recent_messages(&email, &chat_id);
                reply_to(c, DatabaseMessage::Messages(chat_id, messages))
            },
            None => reply_to(c, DatabaseMessage::Failure),
        }
    }

    fn new_message(
        &mut self,
        c: String,
        token: String,
        sender: String,
        chat_id: String,
        content: String,
        id: String,
        now: u64,
        fresh: &String,
    ) -> (r: Vec<Delivery>)
        requires
            old(self).wf(),
            old(self)@.connections.contains(c@),
        ensures
            final(self).wf(),
            (final(self)@, deliveries_view(r@)) == old(self)@.step(
                NetworkMessageView::NewMessage(c@, token@, sender@, chat_id@, content@, id@),
                now,
                fresh@,
            ),
    {
        match self.live_owner(&token, now) {
            None => reply_to(c, DatabaseMessage::Failure),
            Some(email) => {
                let ghost pre = self@;
                let ts: u64 = if now > self.last_timestamp {
                    now
                } else {
                    self.last_timestamp
                };
                let echo = DatabaseMessage::WebMessage(
                    WebMessage::new(Message::new(sender.as_str(), content.as_str()), ts, id.clone()),
                );
                let row = MessageRow { email: email.clone(), chat_id, sender, content, created_at: ts, id };
                let ghost v = row@;
                let change = StoreChange::AddMessage(row.duplicate());
                self.store.insert_message(row);
                self.last_timestamp = ts;
                proof {
                    lemma_timeline_push(pre.store.messages, pre.last_timestamp, v);
                }
                self.record(change);
                let mut out = reply_to(c.clone(), DatabaseMessage::Timestamp(ts));
                self.fan_out_into(&email, Some(&c), &echo, &mut out);
                out
            },
        }
    }

    fn get_chats(&self, c: String, email: String, now: u64, fresh: &String) -> (r: Vec<Delivery>)
        requires
            self.wf(),
            self@.connections.contains(c@),
        ensures
            (self@, deliveries_view(r@)) == self@.step(NetworkMessageView::GetChats(c@, email@), now, fresh@),
    {
        let chats = self.store.list_chats(&email);
        assert(crate::protocol::strings_view(chats@) =~= crate::store::string_views(chats@));
        reply_to(c, DatabaseMessage::Chats(chats))
    }

    fn delete_chat(&mut self, c: String, token: String, chat_id: String, now: u64, fresh: &String) -> (r: Vec<Delivery>)
        requires
            old(self).wf(),
            old(self)@.connections.contains(c@),
        ensures
            final(self).wf(),
            (final(self)@, deliveries_view(r@)) == old(self)@.step(
                NetworkMessageView::DeleteChat(c@, token@, chat_id@),
                now,
                fresh@,
            ),
    {
        match self.live_owner(&token, now) {
            None => reply_to(c, DatabaseMessage::Failure),
            Some(email) => {
                let ghost pre = self@;
                self.store.delete_chat(&email, &chat_id);
                proof {
                    lemma_timeline_filter(pre.store.messages, pre.last_timestamp, crate::store::not_in_chat(email@, chat_id@));
                }
                self.record(StoreChange::DeleteChat(email.clone(), chat_id.clone()));
                let mut out = reply_to(c.clone(), DatabaseMessage::Deleted(chat_id.clone()));
                self.fan_out_into(&email, Some(&c), &DatabaseMessage::Deleted(chat_id), &mut out);
                out
            },
        }
    }

    fn get_message(&self, c: String, id: String, now: u64, fresh: &String) -> (r: Vec<Delivery>)
        requires
            self.wf(),
            self@.connections.contains(c@),
        ensures
            (self@, deliveries_view(r@)) == self@.step(NetworkMessageView::GetMessage(c@, id@), now, fresh@),
    {
        match self.store.message_content(&id) {
            Some(content) => reply_to(
                c,
                DatabaseMessage::Message(Message { content: Some(content), role: Some(String::new()) }),
            ),
            None => reply_to(c, DatabaseMessage::Failure),
        }
    }

    fn get_audio_path(&self, c: String, id: String, now: u64, fresh: &String) -> (r: Vec<Delivery>)
        requires
            self.wf(),
            self@.connections.contains(c@),
        ensures
            (self@, deliveries_view(r@)) == self@.step(NetworkMessageView::GetAudioPath(c@, id@), now, fresh@),
    {
        match self.store.audio_path(&id) {
            Some(path) => reply_to(c, DatabaseMessage::AudioPath(path)),
            None => reply_to(c, DatabaseMessage::Failure),
        }
    }

    /// Whether the connection that sent `request` has a reply channel; true for
    /// requests that name none.
    fn accepts(&self, request: &NetworkMessage) -> (r: bool)
        ensures
            r == match origin(request@) {
                Some(c) => self@.connections.contains(c),
                None => true,
            },
    {
        match request {
            NetworkMessage::ChatRequest(c, _, _) => self.is_registered(c),
            NetworkMessage::LoginRequest(c, _, _) => self.is_registered(c),
            NetworkMessage::TokenValidation(c, _) => self.is_registered(c),
            NetworkMessage::NewChat(c, _) => self.is_registered(c),
            NetworkMessage::NewMessage(c, _, _, _, _, _) => self.is_registered(c),
            NetworkMessage::GetChats(c, _) => self.is_registered(c),
            NetworkMessage::DeleteChat(c, _, _) => self.is_registered(c),
            NetworkMessage::RegisterUser(c, _, _, _) => self.is_registered(c),
            NetworkMessage::GetMessage(c, _) => self.is_registered(c),
            NetworkMessage::GetAudioPath(c, _) => self.is_registered(c),
            NetworkMessage::RecordAudioPath(_, _) => true,
            NetworkMessage::Disconnect(_) => true,
        }
    }

    /// Handles one request to completion. `now` is the time in seconds and
    /// `fresh` the identifier that a token or chat created by the request gets.
    /// Returns what goes on which reply channel, in order.
    pub fn process_with(&mut self, request: NetworkMessage, now: u64, fresh: String) -> (r: Vec<Delivery>)
        requires
            old(self).wf(),
        ensures
            final(self).wf(),
            (final(self)@, deliveries_view(r@)) == old(self)@.step(request@, now, fresh@),
    {
        if !self.accepts(&request) {
            return no_deliveries();
        }
        match request {
            NetworkMessage::RecordAudioPath(id, path) => {
                self.store.record_audio_path(&id, &path);
                self.record(StoreChange::AddAudio(id, path));
                no_deliveries()
            },
            NetworkMessage::Disconnect(c) => {
                self.disconnect(&c);
                no_deliveries()
            },
            NetworkMessage::LoginRequest(c, email, hash) => self.login(c, email, hash, now, &fresh),
            NetworkMessage::RegisterUser(c, name, email, password) => self.register_user(c, name, email, password, now, &fresh),
            NetworkMessage::TokenValidation(c, token) => self.validate_token(c, token, now, &fresh),
            NetworkMessage::NewChat(c, email) => self.new_chat(c, email, now, &fresh),
            NetworkMessage::ChatRequest(c, token, chat_id) => self.chat_request(c, token, chat_id, now, &fresh),
            NetworkMessage::NewMessage(c, token, sender, chat_id, content, id) => self.new_message(
                c,
                token,
                sender,
                chat_id,
                content,
                id,
                now,
                &fresh,
            ),
            NetworkMessage::GetChats(c, email) => self.get_chats(c, email, now, &fresh),
            NetworkMessage::DeleteChat(c, token, chat_id) => self.delete_chat(c, token, chat_id, now, &fresh),
            NetworkMessage::GetMessage(c, id) => self.get_message(c, id, now, &fresh),
            NetworkMessage::GetAudioPath(c, id) => self.get_audio_path(c, id, now, &fresh),
        }
    }

    /// Handles one request, drawing a fresh random identifier for whatever it creates.
    pub fn process(&mut self, request: NetworkMessage, now: u64) -> (r: Vec<Delivery>)
        requires
            old(self).wf(),
        ensures
            final(self).wf(),
            exists|fresh: Seq<char>| (final(self)@, deliveries_view(r@)) == old(self)@.step(request@, now, fresh),
    {
        let fresh = new_identifier();
        self.process_with(request, now, fresh)
    }
}

} // verus!
