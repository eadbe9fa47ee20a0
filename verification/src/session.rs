//! Conversation sessions: each with its history of turns, held under its
//! identifier in a store that also knows which session is the current one.
//!
//! No operation here talks to the agent. Identifiers that the agent assigns
//! and identifiers made here share one namespace; `rekey_session` moves a
//! session from one to the other.

use crate::config::DEFAULT_MAX_HISTORY;
use crate::json;
use crate::json::{json_of, json_pretty_text, jsons_of, Json};
use crate::named::{
    distinct_names, entries_map, lemma_entries_map, lemma_entries_push, lemma_entries_remove,
    lemma_entries_update, lemma_place, lemma_place_from, named_views, place, place_from,
};
use crate::model::{optional_view, views};
use crate::protocol::codec::{encode_nullable, nullable_to_json};
use crate::text;
use serde_json::Value;
use vstd::prelude::*;

verus! {

/// A point in time: seconds since the start of 1970 in UTC, and nanoseconds
/// into the second.
#[derive(Clone, Copy, Debug, PartialEq, Eq, Structural)]
pub struct Timestamp {
    pub secs: i64,
    pub nanos: u32,
}

/// The text that `chrono` writes for a point in time in RFC 3339, with `Z`
/// for UTC and as many digits of the second's fraction as are needed; `None`
/// for a point in time that `chrono` cannot hold.
pub uninterp spec fn rfc3339(secs: i64, nanos: u32) -> Option<Seq<char>>;

/// `chrono::Utc::now`, taken apart by `DateTime::timestamp` and
/// `DateTime::timestamp_subsec_nanos`. Nothing is claimed of the time read.
#[verifier::external_body]
fn now() -> Timestamp {
    let now = chrono::Utc::now();
    Timestamp { secs: now.timestamp(), nanos: now.timestamp_subsec_nanos() }
}

/// `chrono::DateTime::to_rfc3339_opts` with `SecondsFormat::AutoSi` and `Z`,
/// on the time that `DateTime::from_timestamp` makes of the two numbers.
/// Claimed: the result is a function of the two numbers.
#[verifier::external_body]
fn timestamp_text(at: Timestamp) -> (result: Option<String>)
    ensures
        optional_view(result) == rfc3339(at.secs, at.nanos),
{
    match chrono::DateTime::from_timestamp(at.secs, at.nanos) {
        Some(time) => Some(time.to_rfc3339_opts(chrono::SecondsFormat::AutoSi, true)),
        None => None,
    }
}

/// `uuid::Uuid::new_v4` and its `Display`. Claimed: a text of 36
/// characters. That two calls give different texts is likely, not certain,
/// and is not claimed.
#[verifier::external_body]
fn new_id() -> (result: String)
    ensures
        result@.len() == 36,
{
    uuid::Uuid::new_v4().to_string()
}

/// Who speaks in a turn.
#[derive(Clone, Copy, Debug, PartialEq, Eq, Structural)]
pub enum MessageRole {
    User,
    Assistant,
    System,
    Tool,
}

impl MessageRole {
    /// The name of the role in a snapshot.
    pub open spec fn name(self) -> Seq<char> {
        match self {
            MessageRole::User => "user"@,
            MessageRole::Assistant => "assistant"@,
            MessageRole::System => "system"@,
            MessageRole::Tool => "tool"@,
        }
    }

    /// The name of the role in a snapshot.
    pub fn as_str(&self) -> (result: &'static str)
        ensures
            result@ == self.name(),
    {
        match self {
            MessageRole::User => "user",
            MessageRole::Assistant => "assistant",
            MessageRole::System => "system",
            MessageRole::Tool => "tool",
        }
    }
}

/// One turn of a conversation. `metadata` is a JSON object.
#[derive(Debug)]
pub struct Message {
    pub id: String,
    pub role: MessageRole,
    pub content: String,
    pub timestamp: Timestamp,
    pub metadata: Value,
}

/// A turn as a mathematical value.
pub struct TurnView {
    pub id: Seq<char>,
    pub role: MessageRole,
    pub content: Seq<char>,
    pub timestamp: Timestamp,
    pub metadata: Json,
}

impl View for Message {
    type V = TurnView;

    open spec fn view(&self) -> TurnView {
        TurnView {
            id: self.id@,
            role: self.role,
            content: self.content@,
            timestamp: self.timestamp,
            metadata: json_of(self.metadata),
        }
    }
}

impl TurnView {
    /// The turn in a snapshot; `None` where its time cannot be written.
    pub open spec fn to_json(self) -> Option<Json> {
        match rfc3339(self.timestamp.secs, self.timestamp.nanos) {
            Some(at) => Some(
                Json::empty_object().with("id"@, Json::Str(self.id)).with(
                    "role"@,
                    Json::Str(self.role.name()),
                ).with("content"@, Json::Str(self.content)).with("timestamp"@, Json::Str(at)).with(
                    "metadata"@,
                    self.metadata,
                ),
            ),
            None => None,
        }
    }
}

impl Clone for Message {
    fn clone(&self) -> (result: Self)
        ensures
            result@ == self@,
    {
        Message {
            id: self.id.clone(),
            role: self.role,
            content: self.content.clone(),
            timestamp: self.timestamp,
            metadata: json::copy(&self.metadata),
        }
    }
}

impl Message {
    /// A turn with the given identifier and time, and without metadata.
    pub fn at(id: String, role: MessageRole, content: String, timestamp: Timestamp) -> (result:
        Message)
        ensures
            result@ == (TurnView {
                id: id@,
                role,
                content: content@,
                timestamp,
                metadata: Json::empty_object(),
            }),
    {
        Message { id, role, content, timestamp, metadata: json::object() }
    }

    /// The turn in a snapshot.
    pub fn to_json(&self) -> (result: Option<Value>)
        ensures
            json::optional_json(result) == self@.to_json(),
    {
        let at = match timestamp_text(self.timestamp) {
            Some(at) => at,
            None => return None,
        };
        let mut object = json::object();
        json::set_member(&mut object, "id", json::string(self.id.as_str()));
        json::set_member(&mut object, "role", json::string(self.role.as_str()));
        json::set_member(&mut object, "content", json::string(self.content.as_str()));
        json::set_member(&mut object, "timestamp", json::string(at.as_str()));
        json::set_member(&mut object, "metadata", json::copy(&self.metadata));
        Some(object)
    }
}

/// The turns of a history in a snapshot; `None` where one of them cannot be
/// written.
pub open spec fn messages_json(messages: Seq<TurnView>) -> Option<Seq<Json>> {
    if forall|i: int| 0 <= i < messages.len() ==> (#[trigger] messages[i].to_json()) is Some {
        Some(Seq::new(messages.len(), |i: int| messages[i].to_json()->0))
    } else {
        None
    }
}

/// The newest `count` turns of a history, or all of them where there are no
/// more than that.
pub open spec fn newest(messages: Seq<TurnView>, count: nat) -> Seq<TurnView> {
    if messages.len() > count {
        messages.subrange(messages.len() - count, messages.len() as int)
    } else {
        messages
    }
}

/// A conversation. `messages` holds its turns, oldest first, and never more
/// than `max_history` of them; `metadata` is a JSON object.
#[derive(Debug)]
pub struct Session {
    pub id: String,
    pub cwd: Option<String>,
    pub messages: Vec<Message>,
    pub created_at: Timestamp,
    pub updated_at: Timestamp,
    pub metadata: Value,
    pub max_history: usize,
}

/// `Session` as a mathematical value.
pub struct SessionView {
    pub id: Seq<char>,
    pub cwd: Option<Seq<char>>,
    pub messages: Seq<TurnView>,
    pub created_at: Timestamp,
    pub updated_at: Timestamp,
    pub metadata: Json,
    pub max_history: usize,
}

impl View for Session {
    type V = SessionView;

    open spec fn view(&self) -> SessionView {
        SessionView {
            id: self.id@,
            cwd: optional_view(self.cwd),
            messages: views(self.messages@),
            created_at: self.created_at,
            updated_at: self.updated_at,
            metadata: json_of(self.metadata),
            max_history: self.max_history,
        }
    }
}

impl SessionView {
    /// A session without turns, made at the time `now`.
    pub open spec fn initial(
        id: Seq<char>,
        cwd: Option<Seq<char>>,
        now: Timestamp,
        max_history: usize,
    ) -> SessionView {
        SessionView {
            id,
            cwd,
            messages: Seq::empty(),
            created_at: now,
            updated_at: now,
            metadata: Json::empty_object(),
            max_history,
        }
    }

    /// The history holds no more turns than the session allows.
    pub open spec fn wf(self) -> bool {
        self.messages.len() <= self.max_history
    }

    /// The session after a turn is appended at the time `now`: where the
    /// history is then longer than allowed, its oldest turn leaves.
    pub open spec fn add(self, message: TurnView, now: Timestamp) -> SessionView {
        let appended = self.messages.push(message);
        SessionView {
            messages: if appended.len() > self.max_history {
                appended.drop_first()
            } else {
                appended
            },
            updated_at: now,
            ..self
        }
    }

    /// Whether `after` is the session after a new turn with the given role
    /// and content, and without metadata, is appended: the turn has an
    /// identifier of 36 characters, and it and the session have the times
    /// at which each was written.
    pub open spec fn adds(self, after: SessionView, role: MessageRole, content: Seq<char>) -> bool {
        exists|id: Seq<char>, at: Timestamp, now: Timestamp|
            id.len() == 36 && after == #[trigger] self.add(
                TurnView { id, role, content, timestamp: at, metadata: Json::empty_object() },
                now,
            )
    }

    /// The session after its history is dropped at the time `now`.
    pub open spec fn cleared(self, now: Timestamp) -> SessionView {
        SessionView { messages: Seq::empty(), updated_at: now, ..self }
    }

    /// The session with another cap on its history: of a history longer
    /// than the cap, the newest turns stay, as many as the cap allows. The
    /// cap is a setting, not a part of the conversation: the time of the
    /// last update stays as it is.
    pub open spec fn limited(self, max_history: usize) -> SessionView {
        SessionView { messages: newest(self.messages, max_history as nat), max_history, ..self }
    }

    /// The session as a snapshot: its identifier, working directory, turns,
    /// times and metadata. `None` where a time cannot be written.
    pub open spec fn to_json(self) -> Option<Json> {
        match (
            rfc3339(self.created_at.secs, self.created_at.nanos),
            rfc3339(self.updated_at.secs, self.updated_at.nanos),
            messages_json(self.messages),
        ) {
            (Some(created_at), Some(updated_at), Some(messages)) => Some(
                Json::empty_object().with("id"@, Json::Str(self.id)).with(
                    "cwd"@,
                    encode_nullable::<String>(self.cwd),
                ).with("messages"@, Json::Array(messages)).with(
                    "created_at"@,
                    Json::Str(created_at),
                ).with("updated_at"@, Json::Str(updated_at)).with("metadata"@, self.metadata),
            ),
            _ => None,
        }
    }
}

impl SessionView {
    /// The text of the session's snapshot: the indented text of the
    /// snapshot. It is the empty text where there is no snapshot, because a
    /// time cannot be written, and where the snapshot has no text.
    pub open spec fn snapshot_text(self) -> Seq<char> {
        match self.to_json() {
            Some(snapshot) => match json_pretty_text(snapshot) {
                Some(text) => text,
                None => Seq::empty(),
            },
            None => Seq::empty(),
        }
    }
}

/// The history never exceeds its cap, and it is a queue. A turn appended to
/// a history within its cap leaves the history within its cap. While there
/// is room the turn is added behind the others; once the history is full,
/// the oldest turn leaves and all others stay in order. Unless the cap is
/// zero, the turn appended is the last of the history.
pub proof fn lemma_history_capped(session: SessionView, message: TurnView, now: Timestamp)
    requires
        session.wf(),
    ensures
        session.add(message, now).wf(),
        session.messages.len() < session.max_history ==> session.add(message, now).messages
            == session.messages.push(message),
        session.messages.len() == session.max_history && session.max_history > 0 ==> session.add(
            message,
            now,
        ).messages == session.messages.drop_first().push(message),
        session.max_history > 0 ==> session.add(message, now).messages.len() > 0 && session.add(
            message,
            now,
        ).messages.last() == message,
        session.max_history == 0 ==> session.add(message, now).messages.len() == 0,
{
    let appended = session.messages.push(message);
    if session.messages.len() == session.max_history && session.max_history > 0 {
        assert(appended.drop_first() =~= session.messages.drop_first().push(message));
    }
    if session.max_history == 0 {
        assert(appended.drop_first() =~= Seq::<TurnView>::empty());
    }
}

/// A new cap holds at once, and it takes the oldest turns first. The
/// history is within the new cap; the turns that stay are the newest, in
/// their order; and a history that was within the cap stays whole.
pub proof fn lemma_history_limited(session: SessionView, max_history: usize)
    ensures
        session.limited(max_history).wf(),
        session.limited(max_history).max_history == max_history,
        session.messages.len() <= max_history ==> session.limited(max_history).messages
            == session.messages,
        forall|i: int|
            0 <= i < session.limited(max_history).messages.len() ==> #[trigger] session.limited(
                max_history,
            ).messages[i] == session.messages[session.messages.len() - session.limited(
                max_history,
            ).messages.len() + i],
{
}

impl Session {
    /// Sets the cap on the history. Of a history longer than the cap, the
    /// newest turns stay.
    pub fn set_max_history(&mut self, max_history: usize)
        ensures
            final(self)@ == old(self)@.limited(max_history),
    {
        if self.messages.len() > max_history {
            let excess = self.messages.len() - max_history;
            let kept = self.messages.split_off(excess);
            assert(views(kept@) =~= newest(old(self)@.messages, max_history as nat));
            self.messages = kept;
        }
        self.max_history = max_history;
    }

    /// A session without turns, with the given identifier, made at the
    /// time `now`.
    pub fn at(id: String, cwd: Option<String>, now: Timestamp, max_history: usize) -> (result:
        Session)
        ensures
            result@ == SessionView::initial(id@, optional_view(cwd), now, max_history),
    {
        let result = Session {
            id,
            cwd,
            messages: Vec::new(),
            created_at: now,
            updated_at: now,
            metadata: json::object(),
            max_history,
        };
        assert(views(result.messages@) =~= Seq::<TurnView>::empty());
        result
    }

    /// A new session that keeps the last 100 turns. It gets a fresh
    /// identifier and the present time.
    pub fn new(cwd: Option<String>) -> (result: Session)
        ensures
            result@.id.len() == 36,
            result@ == SessionView::initial(
                result@.id,
                optional_view(cwd),
                result@.created_at,
                100,
            ),
    {
        Session::at(new_id(), cwd, now(), DEFAULT_MAX_HISTORY)
    }

    /// A new session that keeps the last `max_history` turns.
    pub fn with_max_history(cwd: Option<String>, max_history: usize) -> (result: Session)
        ensures
            result@.id.len() == 36,
            result@ == SessionView::initial(
                result@.id,
                optional_view(cwd),
                result@.created_at,
                max_history,
            ),
    {
        Session::at(new_id(), cwd, now(), max_history)
    }

    /// Appends a turn at the time `now`.
    pub fn push_message(&mut self, message: Message, now: Timestamp)
        ensures
            final(self)@ == old(self)@.add(message@, now),
    {
        self.messages.push(message);
        self.updated_at = now;
        assert(views(self.messages@) =~= old(self)@.messages.push(message@));
        if self.messages.len() > self.max_history {
            self.messages.remove(0);
            assert(views(self.messages@) =~= old(self)@.messages.push(message@).drop_first());
        }
    }

    /// Appends a new turn. It gets a fresh identifier and the present time.
    pub fn add_message(&mut self, role: MessageRole, content: String)
        ensures
            old(self)@.adds(final(self)@, role, content@),
    {
        let message = Message::at(new_id(), role, content, now());
        let ghost added = message@;
        let at = now();
        self.push_message(message, at);
        assert(final(self)@ == old(self)@.add(added, at));
    }

    /// Drops the history at the time `now`.
    pub fn clear_history_at(&mut self, now: Timestamp)
        ensures
            final(self)@ == old(self)@.cleared(now),
    {
        self.messages.clear();
        self.updated_at = now;
        assert(views(self.messages@) =~= Seq::<TurnView>::empty());
    }

    /// Drops the history; the session stays, updated at the present time.
    pub fn clear_history(&mut self)
        ensures
            final(self)@ == old(self)@.cleared(final(self)@.updated_at),
    {
        self.clear_history_at(now());
    }

    /// The session as a snapshot.
    pub fn to_json(&self) -> (result: Option<Value>)
        ensures
            json::optional_json(result) == self@.to_json(),
    {
        let created_at = match timestamp_text(self.created_at) {
            Some(text) => text,
            None => return None,
        };
        let updated_at = match timestamp_text(self.updated_at) {
            Some(text) => text,
            None => return None,
        };
        let mut messages: Vec<Value> = Vec::new();
        let mut i: usize = 0;
        while i < self.messages.len()
            invariant
                i <= self.messages.len(),
                messages@.len() == i,
                forall|k: int|
                    0 <= k < i ==> (#[trigger] self@.messages[k].to_json()) == Some(
                        json_of(messages@[k]),
                    ),
            decreases self.messages.len() - i,
        {
            match self.messages[i].to_json() {
                Some(message) => {
                    messages.push(message);
                },
                None => {
                    assert(self@.messages[i as int].to_json() is None);
                    return None;
                },
            }
            i += 1;
        }
        assert(jsons_of(messages@) =~= messages_json(self@.messages)->0);
        let mut object = json::object();
        json::set_member(&mut object, "id", json::string(self.id.as_str()));
        json::set_member(&mut object, "cwd", nullable_to_json::<String>(&self.cwd));
        json::set_member(&mut object, "messages", json::array(messages));
        json::set_member(&mut object, "created_at", json::string(created_at.as_str()));
        json::set_member(&mut object, "updated_at", json::string(updated_at.as_str()));
        json::set_member(&mut object, "metadata", json::copy(&self.metadata));
        Some(object)
    }

    /// The text of a snapshot from what writing it gave: the text, or the
    /// empty text where writing failed.
    pub fn snapshot_text(encoded: Result<String, serde_json::Error>) -> (result: String)
        ensures
            result@ == match encoded {
                Ok(text) => text@,
                Err(_) => Seq::empty(),
            },
    {
        match encoded {
            Ok(text) => text,
            Err(_) => String::new(),
        }
    }

    /// The session as the text of a snapshot: the indented text of the
    /// snapshot, or the empty text where the snapshot cannot be written.
    pub fn export(&self) -> (result: String)
        ensures
            result@ == self@.snapshot_text(),
    {
        match self.to_json() {
            Some(snapshot) => Session::snapshot_text(json::to_pretty_text(&snapshot)),
            None => String::new(),
        }
    }
}

/// The store of sessions as a mathematical value: the sessions under their
/// identifiers, in the order in which the identifiers came, and the
/// identifier of the current session.
pub struct SessionManagerView {
    pub entries: Seq<(Seq<char>, SessionView)>,
    pub current: Option<Seq<char>>,
    pub max_history: usize,
}

impl SessionManagerView {
    /// No identifier is held twice.
    pub open spec fn wf(self) -> bool {
        distinct_names(self.entries)
    }

    /// The sessions, each under its identifier.
    pub open spec fn sessions(self) -> Map<Seq<char>, SessionView> {
        entries_map(self.entries)
    }

    /// The session held under `id`.
    pub open spec fn get(self, id: Seq<char>) -> Option<SessionView> {
        match place(self.entries, id) {
            Some(i) => Some(self.entries[i].1),
            None => None,
        }
    }

    /// Whether a session is held under `id`.
    pub open spec fn contains(self, id: Seq<char>) -> bool {
        place(self.entries, id) is Some
    }

    /// The store with `session` under `id`, in place of what was there.
    pub open spec fn with_session(self, id: Seq<char>, session: SessionView) -> SessionManagerView {
        SessionManagerView {
            entries: match place(self.entries, id) {
                Some(i) => self.entries.update(i, (id, session)),
                None => self.entries.push((id, session)),
            },
            ..self
        }
    }

    /// The store after a session is created: it is held under its
    /// identifier and is the current session.
    pub open spec fn created(self, session: SessionView) -> SessionManagerView {
        SessionManagerView { current: Some(session.id), ..self.with_session(session.id, session) }
    }

    /// The store after the session under `id` is deleted: if it was the
    /// current session, there is no current session any more.
    pub open spec fn deleted(self, id: Seq<char>) -> SessionManagerView {
        SessionManagerView {
            entries: match place(self.entries, id) {
                Some(i) => self.entries.remove(i),
                None => self.entries,
            },
            current: if self.current == Some(id) {
                None
            } else {
                self.current
            },
            ..self
        }
    }

    /// The store after the session under `from` is moved to `to` at the
    /// time `now`: it takes the new identifier as its own, and the current
    /// session follows it. Nothing moves where `from` holds no session or
    /// `to` holds one.
    pub open spec fn rekeyed(self, from: Seq<char>, to: Seq<char>, now: Timestamp) -> SessionManagerView {
        match place(self.entries, from) {
            Some(i) => if self.contains(to) {
                self
            } else {
                SessionManagerView {
                    entries: self.entries.update(
                        i,
                        (to, SessionView { id: to, updated_at: now, ..self.entries[i].1 }),
                    ),
                    current: if self.current == Some(from) {
                        Some(to)
                    } else {
                        self.current
                    },
                    ..self
                }
            },
            None => self,
        }
    }

    /// The sessions in the order in which their identifiers came.
    pub open spec fn listing(self) -> Seq<SessionView> {
        Seq::new(self.entries.len(), |i: int| self.entries[i].1)
    }

    /// The store with another cap on the histories: every session that is
    /// held takes the cap, and so does every session created afterwards.
    pub open spec fn limited(self, max_history: usize) -> SessionManagerView {
        SessionManagerView {
            entries: Seq::new(
                self.entries.len(),
                |i: int| (self.entries[i].0, self.entries[i].1.limited(max_history)),
            ),
            max_history,
            ..self
        }
    }
}

/// A new cap reaches every session and moves none. Each session is held
/// under the identifier it was held under, with its history within the cap;
/// the current session is the same.
pub proof fn lemma_store_limited(store: SessionManagerView, max_history: usize)
    ensures
        store.wf() ==> store.limited(max_history).wf(),
        store.limited(max_history).current == store.current,
        forall|id: Seq<char>| #[trigger]
            store.limited(max_history).get(id) == match store.get(id) {
                Some(session) => Some(session.limited(max_history)),
                None => None,
            },
        forall|i: int|
            0 <= i < store.limited(max_history).entries.len() ==> (#[trigger] store.limited(
                max_history,
            ).entries[i]).1.wf(),
{
    let after = store.limited(max_history);
    assert forall|id: Seq<char>| #[trigger]
        after.get(id) == match store.get(id) {
            Some(session) => Some(session.limited(max_history)),
            None => None,
        } by {
        lemma_same_places(store, max_history, id, 0);
        lemma_place_from(store.entries, id, 0);
    }
}

/// A new cap leaves every identifier at its place.
proof fn lemma_same_places(store: SessionManagerView, max_history: usize, id: Seq<char>, start: int)
    requires
        0 <= start,
    ensures
        place_from(store.limited(max_history).entries, id, start) == place_from(
            store.entries,
            id,
            start,
        ),
    decreases store.entries.len() - start,
{
    if start < store.entries.len() && store.entries[start].0 != id {
        lemma_same_places(store, max_history, id, start + 1);
    }
}

/// The store behaves as a map. In a store that holds no identifier twice,
/// a session is held under an identifier exactly if the map of sessions
/// holds it there.
pub proof fn lemma_store_get(store: SessionManagerView, id: Seq<char>)
    requires
        store.wf(),
    ensures
        store.contains(id) == store.sessions().contains_key(id),
        store.get(id) == if store.sessions().contains_key(id) {
            Some(store.sessions()[id])
        } else {
            None
        },
{
    lemma_place(store.entries, id);
}

/// Putting a session under an identifier puts it into the map, and leaves
/// all else as it was.
pub proof fn lemma_store_with_session(store: SessionManagerView, id: Seq<char>, session: SessionView)
    requires
        store.wf(),
    ensures
        store.with_session(id, session).wf(),
        store.with_session(id, session).sessions() == store.sessions().insert(id, session),
        store.with_session(id, session).get(id) == Some(session),
        store.with_session(id, session).current == store.current,
{
    lemma_place(store.entries, id);
    match place(store.entries, id) {
        Some(i) => {
            lemma_entries_update(store.entries, i, session);
        },
        None => {
            lemma_entries_push(store.entries, id, session);
        },
    }
    lemma_place(store.with_session(id, session).entries, id);
}

/// Creating a session makes it the current one. The session is then held
/// under its identifier, all other sessions are held as before, and the
/// pointer to the current session names the new session, whatever it named
/// before.
pub proof fn lemma_store_created(store: SessionManagerView, session: SessionView)
    requires
        store.wf(),
    ensures
        store.created(session).wf(),
        store.created(session).current == Some(session.id),
        store.created(session).get(session.id) == Some(session),
        store.created(session).sessions() == store.sessions().insert(session.id, session),
{
    lemma_store_with_session(store, session.id, session);
}

/// Deleting the current session clears the pointer; deleting any other
/// session leaves it. Either way the session is gone afterwards, and every
/// other session is held as before.
pub proof fn lemma_store_deleted(store: SessionManagerView, id: Seq<char>)
    requires
        store.wf(),
    ensures
        store.deleted(id).wf(),
        store.current == Some(id) ==> store.deleted(id).current is None,
        store.current != Some(id) ==> store.deleted(id).current == store.current,
        !store.deleted(id).contains(id),
        store.deleted(id).sessions() == store.sessions().remove(id),
        forall|other: Seq<char>|
            other != id ==> #[trigger] store.deleted(id).get(other) == store.get(other),
{
    lemma_place(store.entries, id);
    match place(store.entries, id) {
        Some(i) => {
            lemma_entries_remove(store.entries, i);
        },
        None => {
            assert(store.sessions().remove(id) =~= store.sessions());
        },
    }
    let after = store.deleted(id);
    lemma_place(after.entries, id);
    assert forall|other: Seq<char>| other != id implies #[trigger] after.get(other) == store.get(
        other,
    ) by {
        lemma_store_get(store, other);
        lemma_store_get(after, other);
    }
}

/// Moving a session to a new identifier keeps the store a map: the session
/// is then held under the new identifier and no longer under the old one.
pub proof fn lemma_store_rekeyed(
    store: SessionManagerView,
    from: Seq<char>,
    to: Seq<char>,
    now: Timestamp,
)
    requires
        store.wf(),
        store.contains(from),
        !store.contains(to),
    ensures
        store.rekeyed(from, to, now).wf(),
        store.rekeyed(from, to, now).get(to) == Some(
            SessionView { id: to, updated_at: now, ..store.get(from)->0 },
        ),
        !store.rekeyed(from, to, now).contains(from),
        store.current == Some(from) ==> store.rekeyed(from, to, now).current == Some(to),
        store.current != Some(from) ==> store.rekeyed(from, to, now).current == store.current,
        forall|other: Seq<char>|
            other != from && other != to ==> #[trigger] store.rekeyed(from, to, now).get(other)
                == store.get(other),
{
    lemma_place_from(store.entries, from, 0);
    lemma_place_from(store.entries, to, 0);
    let i = place(store.entries, from)->0;
    let after = store.rekeyed(from, to, now);
    assert forall|a: int, b: int| 0 <= a < b < after.entries.len() implies (
    #[trigger] after.entries[a]).0 != (#[trigger] after.entries[b]).0 by {
        if a != i {
            assert(after.entries[a] == store.entries[a]);
        }
        if b != i {
            assert(after.entries[b] == store.entries[b]);
        }
    }
    lemma_place_from(after.entries, to, 0);
    lemma_place_from(after.entries, from, 0);
    assert(after.entries[i].0 == to);
    match place(after.entries, to) {
        Some(k) => {
            if k != i {
                assert(after.entries[k] == store.entries[k]);
            }
        },
        None => {},
    }
    match place(after.entries, from) {
        Some(k) => {
            if k != i {
                assert(after.entries[k] == store.entries[k]);
            }
        },
        None => {},
    }
    assert forall|other: Seq<char>| other != from && other != to implies #[trigger] after.get(
        other,
    ) == store.get(other) by {
        lemma_place(store.entries, other);
        lemma_place(after.entries, other);
        lemma_entries_map(store.entries);
        lemma_entries_map(after.entries);
        match place(after.entries, other) {
            Some(k) => {
                assert(after.entries[k] == store.entries[k]);
            },
            None => {
                match place(store.entries, other) {
                    Some(k) => {
                        assert(after.entries[k] == store.entries[k]);
                    },
                    None => {},
                }
            },
        }
    }
}

/// After a session is put under an identifier, it is found there.
pub proof fn lemma_place_after_put(store: SessionManagerView, id: Seq<char>, session: SessionView)
    ensures
        store.with_session(id, session).get(id) == Some(session),
{
    lemma_place_from(store.entries, id, 0);
    let after = store.with_session(id, session);
    lemma_place_from(after.entries, id, 0);
    match place(store.entries, id) {
        Some(i) => {
            assert(after.entries[i] == (id, session));
            match place(after.entries, id) {
                Some(k) => {
                    if k < i {
                        assert(after.entries[k] == store.entries[k]);
                    }
                },
                None => {},
            }
        },
        None => {
            let last = store.entries.len() as int;
            assert(after.entries[last] == (id, session));
            match place(after.entries, id) {
                Some(k) => {
                    if k < last {
                        assert(after.entries[k] == store.entries[k]);
                    }
                },
                None => {},
            }
        },
    }
}

/// The store of sessions.
pub struct SessionManager {
    entries: Vec<(String, Session)>,
    current_session: Option<String>,
    max_history: usize,
}

impl View for SessionManager {
    type V = SessionManagerView;

    closed spec fn view(&self) -> SessionManagerView {
        SessionManagerView {
            entries: named_views(self.entries@),
            current: optional_view(self.current_session),
            max_history: self.max_history,
        }
    }
}

impl SessionManager {
    /// An empty store whose sessions keep the last 100 turns.
    pub fn new() -> (result: SessionManager)
        ensures
            result@.entries.len() == 0,
            result@.current is None,
            result@.max_history == 100,
            result@.wf(),
    {
        SessionManager::with_max_history(DEFAULT_MAX_HISTORY)
    }

    /// An empty store whose sessions keep the last `max_history` turns.
    pub fn with_max_history(max_history: usize) -> (result: SessionManager)
        ensures
            result@.entries.len() == 0,
            result@.current is None,
            result@.max_history == max_history,
            result@.wf(),
    {
        SessionManager { entries: Vec::new(), current_session: None, max_history }
    }

    fn find(&self, session_id: &str) -> (result: Option<usize>)
        ensures
            match result {
                Some(i) => place(self@.entries, session_id@) == Some(i as int) && i
                    < self.entries@.len(),
                None => place(self@.entries, session_id@) is None,
            },
    {
        let mut i: usize = 0;
        while i < self.entries.len()
            invariant
                i <= self.entries.len(),
                place(self@.entries, session_id@) == place_from(
                    self@.entries,
                    session_id@,
                    i as int,
                ),
            decreases self.entries.len() - i,
        {
            if text::same(self.entries[i].0.as_str(), session_id) {
                return Some(i);
            }
            i += 1;
        }
        None
    }

    /// Puts a session into the store under its identifier, in place of a
    /// session that is held there, and makes it the current session.
    pub fn insert_session(&mut self, session: Session) -> (result: String)
        ensures
            result@ == session@.id,
            final(self)@ == old(self)@.created(session@),
            old(self)@.wf() ==> final(self)@.wf(),
    {
        proof {
            if old(self)@.wf() {
                lemma_store_created(old(self)@, session@);
            }
        }
        let session_id = session.id.clone();
        match self.find(session_id.as_str()) {
            Some(i) => {
                self.entries.remove(i);
                self.entries.insert(i, (session_id.clone(), session));
                assert(named_views(self.entries@) =~= old(self)@.entries.update(
                    i as int,
                    (session@.id, session@),
                ));
            },
            None => {
                self.entries.push((session_id.clone(), session));
                assert(named_views(self.entries@) =~= old(self)@.entries.push(
                    (session@.id, session@),
                ));
            },
        }
        self.current_session = Some(session_id.clone());
        session_id
    }

    /// Creates a session, which becomes the current one, and returns its
    /// identifier.
    pub fn create_session(&mut self, cwd: Option<String>) -> (result: String)
        ensures
            result@.len() == 36,
            final(self)@.get(result@) matches Some(session) && session == SessionView::initial(
                result@,
                optional_view(cwd),
                session.created_at,
                old(self)@.max_history,
            ) && final(self)@ == old(self)@.created(session),
            old(self)@.wf() ==> final(self)@.wf(),
    {
        let session = Session::with_max_history(cwd, self.max_history);
        proof {
            lemma_place_after_put(old(self)@, session@.id, session@);
        }
        self.insert_session(session)
    }

    /// The session held under `session_id`.
    pub fn get_session(&self, session_id: &str) -> (result: Option<&Session>)
        ensures
            match result {
                Some(session) => self@.get(session_id@) == Some(session@),
                None => self@.get(session_id@) is None,
            },
    {
        match self.find(session_id) {
            Some(i) => Some(&self.entries[i].1),
            None => None,
        }
    }

    /// The session held under `session_id`, to be changed in place. The
    /// store holds whatever the session is changed to.
    pub fn get_session_mut(&mut self, session_id: &str) -> (result: Option<&mut Session>)
        ensures
            match result {
                Some(session) => {
                    &&& old(self)@.get(session_id@) == Some((*session)@)
                    &&& final(self)@.entries =~= old(self)@.with_session(
                        session_id@,
                        (*final(session))@,
                    ).entries
                    &&& final(self)@.current == old(self)@.current
                    &&& final(self)@.max_history == old(self)@.max_history
                },
                None => old(self)@.get(session_id@) is None && final(self)@ == old(self)@,
            },
    {
        match self.find(session_id) {
            Some(i) => {
                proof {
                    lemma_place_from(old(self)@.entries, session_id@, 0);
                }
                Some(&mut self.entries[i].1)
            },
            None => None,
        }
    }

    /// The identifier of the current session.
    pub fn current_session(&self) -> (result: Option<String>)
        ensures
            optional_view(result) == self@.current,
    {
        match &self.current_session {
            Some(id) => Some(id.clone()),
            None => None,
        }
    }

    /// Sets the cap on the histories: every session that is held takes it,
    /// and so does every session created afterwards.
    pub fn set_max_history(&mut self, max_history: usize)
        ensures
            final(self)@ == old(self)@.limited(max_history),
            old(self)@.wf() ==> final(self)@.wf(),
    {
        proof {
            lemma_store_limited(old(self)@, max_history);
        }
        let mut i: usize = 0;
        while i < self.entries.len()
            invariant
                i <= self.entries.len(),
                self.entries@.len() == old(self).entries@.len(),
                self.current_session == old(self).current_session,
                self.max_history == old(self).max_history,
                forall|k: int|
                    0 <= k < i ==> (#[trigger] self@.entries[k]) == old(self)@.limited(
                        max_history,
                    ).entries[k],
                forall|k: int|
                    i <= k < self.entries@.len() ==> (#[trigger] self@.entries[k])
                        == old(self)@.entries[k],
            decreases self.entries.len() - i,
        {
            let ghost before = self@.entries;
            let (key, mut session) = self.entries.remove(i);
            session.set_max_history(max_history);
            self.entries.insert(i, (key, session));
            assert(self@.entries =~= before.update(
                i as int,
                (before[i as int].0, before[i as int].1.limited(max_history)),
            ));
            i += 1;
        }
        let ghost limited = old(self)@.limited(max_history).entries;
        assert(self@.entries =~= limited) by {
            assert(self@.entries.len() == limited.len());
            assert forall|k: int| 0 <= k < limited.len() implies self@.entries[k] == limited[k] by {
                assert(self@.entries[k] == old(self)@.limited(max_history).entries[k]);
            }
        }
        self.max_history = max_history;
    }

    /// Makes `session_id` the identifier of the current session, whether a
    /// session is held under it or not.
    pub fn set_current_session(&mut self, session_id: String)
        ensures
            final(self)@ == (SessionManagerView { current: Some(session_id@), ..old(self)@ }),
    {
        self.current_session = Some(session_id);
    }

    /// Drops the history of the session under `session_id`, if there is
    /// such a session.
    pub fn clear_history(&mut self, session_id: &str)
        ensures
            match old(self)@.get(session_id@) {
                Some(session) => final(self)@.get(session_id@) matches Some(after) && after
                    == session.cleared(after.updated_at) && final(self)@ == old(self)@.with_session(
                    session_id@,
                    after,
                ),
                None => final(self)@ == old(self)@,
            },
            old(self)@.wf() ==> final(self)@.wf(),
    {
        match self.find(session_id) {
            Some(i) => {
                let (key, mut session) = self.entries.remove(i);
                session.clear_history();
                proof {
                    lemma_place_from(old(self)@.entries, session_id@, 0);
                    lemma_place_after_put(old(self)@, session_id@, session@);
                    if old(self)@.wf() {
                        lemma_store_with_session(old(self)@, session_id@, session@);
                    }
                }
                self.entries.insert(i, (key, session));
                assert(named_views(self.entries@) =~= old(self)@.entries.update(
                    i as int,
                    (session_id@, session@),
                ));
            },
            None => {},
        }
    }

    /// Appends a new turn to the session under `session_id`, if there is
    /// such a session.
    pub fn add_message(&mut self, session_id: &str, role: MessageRole, content: String)
        ensures
            match old(self)@.get(session_id@) {
                Some(session) => final(self)@.get(session_id@) matches Some(after) && session.adds(
                    after,
                    role,
                    content@,
                ) && final(self)@ == old(self)@.with_session(session_id@, after),
                None => final(self)@ == old(self)@,
            },
            old(self)@.wf() ==> final(self)@.wf(),
    {
        match self.find(session_id) {
            Some(i) => {
                let (key, mut session) = self.entries.remove(i);
                session.add_message(role, content);
                proof {
                    lemma_place_from(old(self)@.entries, session_id@, 0);
                    lemma_place_after_put(old(self)@, session_id@, session@);
                    if old(self)@.wf() {
                        lemma_store_with_session(old(self)@, session_id@, session@);
                    }
                }
                self.entries.insert(i, (key, session));
                assert(named_views(self.entries@) =~= old(self)@.entries.update(
                    i as int,
                    (session_id@, session@),
                ));
            },
            None => {},
        }
    }

    /// All sessions, in the order in which their identifiers came.
    pub fn list_sessions(&self) -> (result: Vec<&Session>)
        ensures
            result@.len() == self@.entries.len(),
            forall|i: int| 0 <= i < result@.len() ==> (#[trigger] result@[i])@ == self@.listing()[i],
    {
        let mut result: Vec<&Session> = Vec::new();
        let mut i: usize = 0;
        while i < self.entries.len()
            invariant
                i <= self.entries.len(),
                result@.len() == i,
                forall|k: int| 0 <= k < i ==> (#[trigger] result@[k])@ == self.entries@[k].1@,
            decreases self.entries.len() - i,
        {
            result.push(&self.entries[i].1);
            i += 1;
        }
        result
    }

    /// Deletes the session under `session_id` and says whether there was
    /// one. The pointer to the current session is cleared if it names
    /// `session_id`, whether a session was held there or not.
    pub fn delete_session(&mut self, session_id: &str) -> (result: bool)
        ensures
            result == old(self)@.contains(session_id@),
            final(self)@ == old(self)@.deleted(session_id@),
            old(self)@.wf() ==> final(self)@.wf(),
    {
        proof {
            if old(self)@.wf() {
                lemma_store_deleted(old(self)@, session_id@);
            }
        }
        let removed = match self.find(session_id) {
            Some(i) => {
                self.entries.remove(i);
                assert(named_views(self.entries@) =~= old(self)@.entries.remove(i as int));
                true
            },
            None => false,
        };
        let clear = match &self.current_session {
            Some(current) => text::same(current.as_str(), session_id),
            None => false,
        };
        if clear {
            self.current_session = None;
        }
        removed
    }

    /// The session under `session_id` as the text of a snapshot; `None`
    /// where no session is held there.
    pub fn export_session(&self, session_id: &str) -> (result: Option<String>)
        ensures
            match self@.get(session_id@) {
                Some(session) => result matches Some(text) && text@ == session.snapshot_text(),
                None => result is None,
            },
    {
        match self.get_session(session_id) {
            Some(session) => Some(session.export()),
            None => None,
        }
    }

    /// Moves the session under `from` to the identifier `to`, as when the
    /// agent has assigned the session its identifier, and says whether it
    /// did. Nothing moves where `from` holds no session or `to` holds one.
    pub fn rekey_session(&mut self, from: &str, to: String) -> (result: bool)
        ensures
            result == (old(self)@.contains(from@) && !old(self)@.contains(to@)),
            if result {
                final(self)@.get(to@) matches Some(moved) && final(self)@ == old(self)@.rekeyed(
                    from@,
                    to@,
                    moved.updated_at,
                )
            } else {
                final(self)@ == old(self)@
            },
            old(self)@.wf() ==> final(self)@.wf(),
    {
        let i = match self.find(from) {
            Some(i) => i,
            None => return false,
        };
        if self.find(to.as_str()).is_some() {
            return false;
        }
        let at = now();
        proof {
            if old(self)@.wf() {
                lemma_store_rekeyed(old(self)@, from@, to@, at);
            }
            lemma_place_from(old(self)@.entries, from@, 0);
            lemma_place_from(old(self)@.entries, to@, 0);
            let after = old(self)@.rekeyed(from@, to@, at);
            lemma_place_from(after.entries, to@, 0);
            assert(after.entries[i as int].0 == to@);
            match place(after.entries, to@) {
                Some(k) => {
                    if k != i {
                        assert(after.entries[k] == old(self)@.entries[k]);
                    }
                },
                None => {},
            }
        }
        let (key, mut session) = self.entries.remove(i);
        session.id = to.clone();
        session.updated_at = at;
        let follow = match &self.current_session {
            Some(current) => text::same(current.as_str(), from),
            None => false,
        };
        if follow {
            self.current_session = Some(to.clone());
        }
        self.entries.insert(i, (to, session));
        assert(named_views(self.entries@) =~= old(self)@.entries.update(
            i as int,
            (to@, SessionView { id: to@, updated_at: at, ..old(self)@.entries[i as int].1 }),
        ));
        true
    }
}

} // verus!
