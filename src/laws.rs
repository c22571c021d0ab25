use vstd::prelude::*;
use crate::database::{
    expiry_from, fan_out, session_connection, is_live, login_token, message_time, notified, reply,
    timeline_ok, timestamp_after, token_owner, DbView,
};
use crate::protocol::{DatabaseMessageView, DeliveryView, NetworkMessageView};
use crate::seqs::{
    distinct_keys, lemma_filter_distinct_keys,
    lemma_filter_members, lemma_filter_sorted, lemma_find_first_some,
    lemma_first_match_at, lemma_first_match_none_converse, sorted_by,
};
use crate::store::{
    StoreChangeView, StoreView,
    audio_is, last_n, token_has_email, user_has_email, token_not_of, web_views_of, AudioV, MessageV, TokenV,
    MESSAGE_WINDOW,
};
use crate::types::{MessageView, UserInfoView, WebMessageView};

verus! {

/// A notice about `email` reaches every session of `email` but `exclude`,
/// each connection at most once, and no connection outside those sessions.
pub proof fn lemma_fan_out_targets(
    sessions: Seq<crate::database::SessionV>,
    email: Seq<char>,
    exclude: Option<Seq<char>>,
    message: DatabaseMessageView,
)
    requires
        distinct_keys(sessions, session_connection()),
    ensures
        forall|k: int|
            0 <= k < sessions.len() && sessions[k].email == email && exclude != Some(sessions[k].connection)
                ==> (exists|j: int|
                0 <= j < fan_out(sessions, email, exclude, message).len() && fan_out(sessions, email, exclude, message)[j]
                    == (DeliveryView { connection: sessions[k].connection, message })),
        forall|j: int|
            0 <= j < fan_out(sessions, email, exclude, message).len() ==> exclude != Some(
                fan_out(sessions, email, exclude, message)[j].connection,
            ) && fan_out(sessions, email, exclude, message)[j].message == message && (exists|k: int|
                0 <= k < sessions.len() && sessions[k].email == email && sessions[k].connection == fan_out(
                    sessions,
                    email,
                    exclude,
                    message,
                )[j].connection),
        forall|j1: int, j2: int|
            0 <= j1 < fan_out(sessions, email, exclude, message).len() && 0 <= j2 < fan_out(
                sessions,
                email,
                exclude,
                message,
            ).len() && j1 != j2 ==> fan_out(sessions, email, exclude, message)[j1].connection != fan_out(
                sessions,
                email,
                exclude,
                message,
            )[j2].connection,
{
    let p = notified(email, exclude);
    let f = sessions.filter(p);
    let out = fan_out(sessions, email, exclude, message);
    lemma_filter_members(sessions, p);
    lemma_filter_distinct_keys(sessions, p, session_connection());
    assert forall|k: int|
        0 <= k < sessions.len() && sessions[k].email == email && exclude != Some(sessions[k].connection) implies (exists|j: int|
        0 <= j < out.len() && out[j] == (DeliveryView { connection: sessions[k].connection, message })) by {
        assert(p(sessions[k]));
        assert(f.contains(sessions[k]));
        let j = choose|j: int| 0 <= j < f.len() && f[j] == sessions[k];
        assert(out[j] == DeliveryView { connection: sessions[k].connection, message });
    }
    assert forall|j: int| 0 <= j < out.len() implies exclude != Some(out[j].connection) && out[j].message == message
        && (exists|k: int| 0 <= k < sessions.len() && sessions[k].email == email && sessions[k].connection == out[j].connection) by {
        assert(p(f[j]));
        assert(sessions.contains(f[j]));
        let k = choose|k: int| 0 <= k < sessions.len() && sessions[k] == f[j];
        assert(sessions[k].connection == out[j].connection);
    }
    assert forall|j1: int, j2: int| 0 <= j1 < out.len() && 0 <= j2 < out.len() && j1 != j2 implies out[j1].connection
        != out[j2].connection by {
        assert(session_connection()(f[j1]) != session_connection()(f[j2]));
    }
}

/// Mutual exclusion: requests are applied one at a time, so an accepted new
/// message adds exactly one row after all earlier ones, and its timestamp is
/// no earlier than any stored message's.
pub proof fn lemma_new_message_appends_one_row(
    s: DbView,
    c: Seq<char>,
    token: Seq<char>,
    sender: Seq<char>,
    chat_id: Seq<char>,
    content: Seq<char>,
    id: Seq<char>,
    now: u64,
    fresh: Seq<char>,
)
    requires
        s.wf(),
        s.connections.contains(c),
        token_owner(s.store, token, now) is Some,
    ensures
        ({
            let after = s.step(NetworkMessageView::NewMessage(c, token, sender, chat_id, content, id), now, fresh).0;
            let ts = timestamp_after(now, s.last_timestamp);
            &&& after.store.messages == s.store.messages.push(
                MessageV {
                    email: token_owner(s.store, token, now)->0,
                    chat_id,
                    sender,
                    content,
                    created_at: ts,
                    id,
                },
            )
            &&& forall|i: int| 0 <= i < s.store.messages.len() ==> s.store.messages[i].created_at <= ts
            &&& sorted_by(after.store.messages, message_time())
        }),
{
    let ts = timestamp_after(now, s.last_timestamp);
    let row = MessageV { email: token_owner(s.store, token, now)->0, chat_id, sender, content, created_at: ts, id };
    crate::database::lemma_timeline_push(s.store.messages, s.last_timestamp, row);
}

/// Token uniqueness: after a login that the credentials allow, with a fresh
/// identifier no other email holds, the email has exactly one token row; it is
/// live, the reply hands out its token, and the rows of other emails are kept.
pub proof fn lemma_login_leaves_one_live_token(
    s: DbView,
    c: Seq<char>,
    email: Seq<char>,
    hash: Seq<char>,
    now: u64,
    fresh: Seq<char>,
)
    requires
        s.wf(),
        s.connections.contains(c),
        s.store.credentials_ok(email, hash),
        !s.store.token_taken(fresh, email),
    ensures
        ({
            let (after, out) = s.step(NetworkMessageView::LoginRequest(c, email, hash), now, fresh);
            let tokens = after.store.tokens;
            &&& exists|i: int|
                0 <= i < tokens.len() && tokens[i].email == email && is_live(tokens[i], now) && (forall|j: int|
                    0 <= j < tokens.len() && tokens[j].email == email ==> j == i) && out == reply(
                    c,
                    DatabaseMessageView::UserInfo(
                        UserInfoView { token: tokens[i].token, name: s.store.user_name(email)->0, email },
                    ),
                )
            &&& forall|j: int| 0 <= j < tokens.len() && tokens[j].email != email ==> s.store.tokens.contains(tokens[j])
            &&& forall|j: int|
                0 <= j < s.store.tokens.len() && s.store.tokens[j].email != email ==> tokens.contains(
                    s.store.tokens[j],
                )
        }),
{
    let after = s.step(NetworkMessageView::LoginRequest(c, email, hash), now, fresh).0;
    assert(after.store == login_token(s.store, email, now, fresh).0);
    let u = choose|u: int|
        0 <= u < s.store.users.len() && s.store.users[u].email == email && s.store.users[u].password_hash == hash;
    lemma_first_match_none_converse(s.store.users, user_has_email(email), u);
    let tokens = after.store.tokens;
    let old_t = s.store.tokens;
    match s.store.token_of_email(email) {
        Some(t) => {
            if is_live(t, now) {
                lemma_find_first_some(old_t, token_has_email(email));
                let i = choose|i: int| 0 <= i < old_t.len() && token_has_email(email)(old_t[i]) && old_t[i] == t;
                assert(tokens == old_t);
                assert forall|j: int| 0 <= j < tokens.len() && tokens[j].email == email implies j == i by {
                    if j != i {
                        assert(crate::store::token_email()(old_t[i]) != crate::store::token_email()(old_t[j]));
                    }
                }
                return;
            }
        },
        None => {},
    }
    let kept = old_t.filter(token_not_of(email));
    lemma_filter_members(old_t, token_not_of(email));
    assert(tokens == kept.push(TokenV { token: fresh, email, expire: expiry_from(now) }));
    let i = kept.len() as int;
    assert forall|j: int| 0 <= j < tokens.len() && tokens[j].email == email implies j == i by {
        if j < kept.len() {
            assert(token_not_of(email)(kept[j]));
            assert(tokens[j] == kept[j]);
        }
    }
    assert(tokens[i].email == email && is_live(tokens[i], now));
    assert forall|j: int| 0 <= j < tokens.len() && tokens[j].email != email implies old_t.contains(tokens[j]) by {
        assert(tokens[j] == kept[j]);
    }
    assert forall|j: int| 0 <= j < old_t.len() && old_t[j].email != email implies tokens.contains(old_t[j]) by {
        assert(token_not_of(email)(old_t[j]));
        assert(kept.contains(old_t[j]));
        let k = choose|k: int| 0 <= k < kept.len() && kept[k] == old_t[j];
        assert(tokens[k] == old_t[j]);
    }
}

/// Fan-out completeness: with sessions A and B of one user, a new message from
/// A is pushed to B and never pushed back to A (A gets only its timestamp),
/// and a new chat from A, under an unused identifier, is pushed to both.
pub proof fn lemma_fan_out_completeness(
    s: DbView,
    a: Seq<char>,
    b: Seq<char>,
    user: Seq<char>,
    token: Seq<char>,
    sender: Seq<char>,
    chat_id: Seq<char>,
    content: Seq<char>,
    id: Seq<char>,
    now: u64,
    fresh: Seq<char>,
)
    requires
        s.wf(),
        a != b,
        s.connections.contains(a),
        s.sessions.contains(crate::database::SessionV { connection: a, email: user }),
        s.sessions.contains(crate::database::SessionV { connection: b, email: user }),
        token_owner(s.store, token, now) == Some(user),
        !s.store.chat_exists(fresh),
    ensures
        ({
            let out = s.step(NetworkMessageView::NewMessage(a, token, sender, chat_id, content, id), now, fresh).1;
            let ts = timestamp_after(now, s.last_timestamp);
            &&& out[0] == (DeliveryView { connection: a, message: DatabaseMessageView::Timestamp(ts) })
            &&& exists|k: int|
                1 <= k < out.len() && out[k] == (DeliveryView {
                    connection: b,
                    message: DatabaseMessageView::WebMessage(
                        WebMessageView {
                            message: MessageView { content: Some(content), role: Some(sender) },
                            created_at: ts,
                            id,
                        },
                    ),
                })
            &&& forall|k: int| 1 <= k < out.len() ==> out[k].connection != a
            &&& forall|k1: int, k2: int|
                1 <= k1 < out.len() && 1 <= k2 < out.len() && out[k1].connection == b && out[k2].connection == b
                    ==> k1 == k2
            &&& forall|k: int|
                1 <= k < out.len() ==> exists|i: int|
                    0 <= i < s.sessions.len() && s.sessions[i].email == user && s.sessions[i].connection
                        == (#[trigger] out[k]).connection
        }),
        ({
            let out = s.step(NetworkMessageView::NewChat(a, user), now, fresh).1;
            &&& exists|k: int|
                0 <= k < out.len() && out[k] == (DeliveryView { connection: a, message: DatabaseMessageView::NewChat(fresh) })
            &&& exists|k: int|
                0 <= k < out.len() && out[k] == (DeliveryView { connection: b, message: DatabaseMessageView::NewChat(fresh) })
        }),
{
    let ts = timestamp_after(now, s.last_timestamp);
    let echo = DatabaseMessageView::WebMessage(
        WebMessageView { message: MessageView { content: Some(content), role: Some(sender) }, created_at: ts, id },
    );
    let pushed = fan_out(s.sessions, user, Some(a), echo);
    let out = s.step(NetworkMessageView::NewMessage(a, token, sender, chat_id, content, id), now, fresh).1;
    assert(out == reply(a, DatabaseMessageView::Timestamp(ts)) + pushed);
    lemma_fan_out_targets(s.sessions, user, Some(a), echo);
    let kb = choose|k: int| 0 <= k < s.sessions.len() && s.sessions[k] == crate::database::SessionV { connection: b, email: user };
    let jb = choose|j: int| 0 <= j < pushed.len() && pushed[j] == (DeliveryView { connection: b, message: echo });
    assert(out[jb + 1] == pushed[jb]);
    assert forall|k: int| 1 <= k < out.len() implies out[k].connection != a by {
        assert(out[k] == pushed[k - 1]);
    }
    assert forall|k1: int, k2: int|
        1 <= k1 < out.len() && 1 <= k2 < out.len() && out[k1].connection == b && out[k2].connection == b implies k1
        == k2 by {
        assert(out[k1] == pushed[k1 - 1] && out[k2] == pushed[k2 - 1]);
    }
    assert forall|k: int| 1 <= k < out.len() implies exists|i: int|
        0 <= i < s.sessions.len() && s.sessions[i].email == user && s.sessions[i].connection == (#[trigger] out[k]).connection by {
        assert(out[k] == pushed[k - 1]);
    }
    let chat_out = s.step(NetworkMessageView::NewChat(a, user), now, fresh).1;
    let notice = DatabaseMessageView::NewChat(fresh);
    assert(chat_out == fan_out(s.sessions, user, None, notice));
    lemma_fan_out_targets(s.sessions, user, None, notice);
    let ka = choose|k: int| 0 <= k < s.sessions.len() && s.sessions[k] == crate::database::SessionV { connection: a, email: user };
    let kb2 = choose|k: int| 0 <= k < s.sessions.len() && s.sessions[k] == crate::database::SessionV { connection: b, email: user };
    assert(s.sessions[ka].email == user && s.sessions[kb2].email == user);
}

/// Audio cache idempotence: a miss, then a recorded path is found exactly; a
/// second recording for the same message leaves the first path in place.
pub proof fn lemma_audio_cache_first_write_wins(
    s: DbView,
    c: Seq<char>,
    id: Seq<char>,
    first: Seq<char>,
    second: Seq<char>,
    now: u64,
    fresh: Seq<char>,
)
    requires
        s.wf(),
        s.connections.contains(c),
        s.store.audio_path(id) is None,
    ensures
        s.step(NetworkMessageView::GetAudioPath(c, id), now, fresh).1 == reply(c, DatabaseMessageView::Failure),
        ({
            let s1 = s.step(NetworkMessageView::RecordAudioPath(id, first), now, fresh).0;
            let s2 = s1.step(NetworkMessageView::RecordAudioPath(id, second), now, fresh).0;
            &&& s1.step(NetworkMessageView::GetAudioPath(c, id), now, fresh).1 == reply(
                c,
                DatabaseMessageView::AudioPath(first),
            )
            &&& s2.step(NetworkMessageView::GetAudioPath(c, id), now, fresh).1 == reply(
                c,
                DatabaseMessageView::AudioPath(first),
            )
        }),
{
    let s1 = s.step(NetworkMessageView::RecordAudioPath(id, first), now, fresh).0;
    let a = s.store.audio;
    let a1 = s1.store.audio;
    assert(a1 == a.push(AudioV { id, path: first }));
    assert forall|j: int| 0 <= j < a.len() implies !audio_is(id)(a1[j]) by {
        assert(a1[j] == a[j]);
        if audio_is(id)(a[j]) {
            lemma_first_match_none_converse(a, audio_is(id), j);
        }
    }
    lemma_first_match_at(a1, audio_is(id), a.len() as int);
    assert(s1.store.audio_path(id) == Some(first));
}

/// Message window: a chat listing holds the most recent `MESSAGE_WINDOW`
/// messages of the chat (all of them when there are fewer), oldest first.
pub proof fn lemma_chat_listing_window(s: DbView, c: Seq<char>, token: Seq<char>, chat_id: Seq<char>, now: u64, fresh: Seq<char>)
    requires
        s.wf(),
        s.connections.contains(c),
        token_owner(s.store, token, now) is Some,
    ensures
        ({
            let email = token_owner(s.store, token, now)->0;
            let all = s.store.chat_messages(email, chat_id);
            let shown = last_n(all, MESSAGE_WINDOW as int);
            &&& s.step(NetworkMessageView::ChatRequest(c, token, chat_id), now, fresh).1 == reply(
                c,
                DatabaseMessageView::Messages(chat_id, web_views_of(shown)),
            )
            &&& all.len() >= MESSAGE_WINDOW ==> shown.len() == MESSAGE_WINDOW && shown == all.subrange(
                all.len() - MESSAGE_WINDOW,
                all.len() as int,
            )
            &&& all.len() < MESSAGE_WINDOW ==> shown == all
            &&& sorted_by(shown, message_time())
        }),
{
    let email = token_owner(s.store, token, now)->0;
    let all = s.store.chat_messages(email, chat_id);
    lemma_filter_sorted(s.store.messages, crate::store::in_chat(email, chat_id), message_time());
    let shown = last_n(all, MESSAGE_WINDOW as int);
    assert forall|i: int, j: int| 0 <= i <= j < shown.len() implies message_time()(shown[i]) <= message_time()(
        shown[j],
    ) by {
        if all.len() > MESSAGE_WINDOW {
            let base = all.len() - MESSAGE_WINDOW;
            assert(shown[i] == all[base + i] && shown[j] == all[base + j]);
        }
    }
}

/// An expired token is refused without renewal: validation fails, and so does
/// a chat listing with it; neither changes the state.
pub proof fn lemma_expired_token_refused(s: DbView, c: Seq<char>, token: Seq<char>, chat_id: Seq<char>, now: u64, fresh: Seq<char>)
    requires
        s.connections.contains(c),
        s.store.token_lookup(token) is Some,
        !is_live(s.store.token_lookup(token)->0, now),
    ensures
        s.step(NetworkMessageView::TokenValidation(c, token), now, fresh) == (s, reply(c, DatabaseMessageView::Failure)),
        s.step(NetworkMessageView::ChatRequest(c, token, chat_id), now, fresh) == (s, reply(c, DatabaseMessageView::Failure)),
{
}

/// The tables after a series of writes, applied oldest first.
pub open spec fn apply_all(store: StoreView, changes: Seq<StoreChangeView>) -> StoreView
    decreases changes.len(),
{
    if changes.len() == 0 {
        store
    } else {
        apply_all(store, changes.drop_last()).apply(changes.last())
    }
}

/// The writes that a request recorded: those after the ones already pending.
pub open spec fn recorded(before: DbView, after: DbView) -> Seq<StoreChangeView> {
    after.changes.subrange(before.changes.len() as int, after.changes.len() as int)
}

/// Durability: a request only appends to the pending writes, and the writes it
/// appends, replayed in order on the tables as they were, give the tables as they are after it.
pub proof fn lemma_recorded_writes_rebuild_store(s: DbView, req: NetworkMessageView, now: u64, fresh: Seq<char>)
    requires
        s.wf(),
    ensures
        ({
            let after = s.step(req, now, fresh).0;
            &&& after.changes.len() >= s.changes.len()
            &&& after.changes.subrange(0, s.changes.len() as int) == s.changes
            &&& apply_all(s.store, recorded(s, after)) == after.store
        }),
{
    let after = s.step(req, now, fresh).0;
    let written = recorded(s, after);
    reveal_with_fuel(apply_all, 3);
    assert(after.changes =~= s.changes + written);
    assert((s.changes + written).subrange(0, s.changes.len() as int) =~= s.changes);
    if written.len() == 1 {
        assert(written.drop_last() =~= Seq::<StoreChangeView>::empty());
    } else if written.len() == 2 {
        assert(written.drop_last().drop_last() =~= Seq::<StoreChangeView>::empty());
    }
}

/// The state after a series of requests, each handled to completion before
/// the next; `nows` gives the time of each.
pub open spec fn run(s: DbView, reqs: Seq<NetworkMessageView>, nows: Seq<u64>, fresh: Seq<char>) -> DbView
    decreases reqs.len(),
{
    if reqs.len() == 0 {
        s
    } else {
        run(s, reqs.drop_last(), nows.drop_last(), fresh).step(reqs.last(), nows.last(), fresh).0
    }
}

/// Mutual exclusion over a series: any number of new messages under one live
/// token, from registered connections, handled one at a time, leave every
/// earlier row in place and add exactly one row per request, in order, with
/// the request's fields; the timeline stays in timestamp order, and the
/// other tables and the connections are untouched.
pub proof fn lemma_serial_new_messages(
    s: DbView,
    reqs: Seq<NetworkMessageView>,
    nows: Seq<u64>,
    fresh: Seq<char>,
    token: Seq<char>,
    user: Seq<char>,
)
    requires
        s.wf(),
        nows.len() == reqs.len(),
        forall|i: int|
            0 <= i < reqs.len() ==> (#[trigger] reqs[i]) is NewMessage && reqs[i]->NewMessage_1 == token
                && s.connections.contains(reqs[i]->NewMessage_0),
        forall|i: int| 0 <= i < nows.len() ==> token_owner(s.store, token, #[trigger] nows[i]) == Some(user),
    ensures
        ({
            let f = run(s, reqs, nows, fresh);
            let m = f.store.messages;
            let n0 = s.store.messages.len() as int;
            &&& m.len() == n0 + reqs.len()
            &&& m.subrange(0, n0) == s.store.messages
            &&& forall|i: int|
                0 <= i < reqs.len() ==> m[n0 + i].email == user && m[n0 + i].sender == (#[trigger] reqs[i])->NewMessage_2
                    && m[n0 + i].chat_id == reqs[i]->NewMessage_3 && m[n0 + i].content == reqs[i]->NewMessage_4
                    && m[n0 + i].id == reqs[i]->NewMessage_5
            &&& timeline_ok(m, f.last_timestamp)
            &&& f.store.users == s.store.users
            &&& f.store.tokens == s.store.tokens
            &&& f.store.chats == s.store.chats
            &&& f.store.audio == s.store.audio
            &&& f.connections == s.connections
        }),
    decreases reqs.len(),
{
    let n0 = s.store.messages.len() as int;
    if reqs.len() > 0 {
        let rs = reqs.drop_last();
        let ns = nows.drop_last();
        assert forall|i: int| 0 <= i < rs.len() implies (#[trigger] rs[i]) is NewMessage && rs[i]->NewMessage_1 == token
            && s.connections.contains(rs[i]->NewMessage_0) by {
            assert(rs[i] == reqs[i]);
        }
        assert forall|i: int| 0 <= i < ns.len() implies token_owner(s.store, token, #[trigger] ns[i]) == Some(user) by {
            assert(ns[i] == nows[i]);
        }
        lemma_serial_new_messages(s, rs, ns, fresh, token, user);
        let p = run(s, rs, ns, fresh);
        let last = reqs.last();
        let now = nows.last();
        assert(last == reqs[reqs.len() - 1]);
        assert(now == nows[nows.len() - 1]);
        assert(token_owner(p.store, token, now) == token_owner(s.store, token, now));
        let ts = timestamp_after(now, p.last_timestamp);
        let row = MessageV {
            email: user,
            chat_id: last->NewMessage_3,
            sender: last->NewMessage_2,
            content: last->NewMessage_4,
            created_at: ts,
            id: last->NewMessage_5,
        };
        crate::database::lemma_timeline_push(p.store.messages, p.last_timestamp, row);
        let f = run(s, reqs, nows, fresh);
        assert(f.store.messages == p.store.messages.push(row));
        let m = f.store.messages;
        assert(m.subrange(0, n0) =~= p.store.messages.subrange(0, n0));
        assert forall|i: int| 0 <= i < reqs.len() implies m[n0 + i].email == user && m[n0 + i].sender == (
        #[trigger] reqs[i])->NewMessage_2 && m[n0 + i].chat_id == reqs[i]->NewMessage_3 && m[n0 + i].content
            == reqs[i]->NewMessage_4 && m[n0 + i].id == reqs[i]->NewMessage_5 by {
            if i < rs.len() {
                assert(rs[i] == reqs[i]);
                assert(m[n0 + i] == p.store.messages[n0 + i]);
            }
        }
    } else {
        assert(s.store.messages.subrange(0, n0) =~= s.store.messages);
    }
}

} // verus!
