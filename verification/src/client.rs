//! The protocol client: the connection's state, the identifiers it issues,
//! and the table of requests that await a response.
//!
//! The client decides; it performs no input or output. Each operation takes
//! what happened (a request to send, a line read, a clock reading) and says
//! what is to be done: the line to write, the response to hand to a waiter,
//! the process to terminate. Times are readings of one clock in
//! milliseconds, supplied by the caller.

use crate::config::{ACPConfig, ACPConfigView, AgentServerConfig};
use crate::json;
use crate::json::{json_of, single_line, Json};
use crate::model::{optional_view, views};
use crate::protocol::codec::Wire;
use crate::protocol::{
    ACPMessage, ACPMessageView, ClientInfo, ClientInfoView, InitializeRequest,
    InitializeRequestView, InitializeResponse, InitializeResponseView, MessageId, MessageIdView,
    NewSessionRequest, NewSessionRequestView, NewSessionResponse, NewSessionResponseView,
    PromptRequest, PromptRequestView, PromptResponse, PromptResponseView, ResponseResult,
    ResponseResultView, SessionNotification, SessionNotificationView,
};
use crate::text;
use serde_json::Value;
use vstd::prelude::*;
use vstd::string::*;
use vstd::utf8::{decode_utf8, valid_utf8};

verus! {

/// Why an operation of the client failed.
#[derive(Debug)]
pub enum ACPClientError {
    /// The transport failed: the process could not be started, written to
    /// or read from, or the connection was closed.
    Io(String),
    /// A payload could not be written as JSON or read from it.
    Json(String),
    /// The agent answered with an error, or with something that is no
    /// answer. `code` is the agent's error code, where the error is the
    /// agent's; an error that the client raises itself has none.
    Protocol { code: Option<i64>, message: String },
    /// No response came within the time allowed.
    Timeout,
    /// No agent server is configured, or none is connected.
    ServerNotConfigured,
}

/// `ACPClientError` as a mathematical value.
pub enum ACPClientErrorView {
    Io(Seq<char>),
    Json(Seq<char>),
    Protocol { code: Option<i64>, message: Seq<char> },
    Timeout,
    ServerNotConfigured,
}

impl View for ACPClientError {
    type V = ACPClientErrorView;

    open spec fn view(&self) -> ACPClientErrorView {
        match self {
            ACPClientError::Io(text) => ACPClientErrorView::Io(text@),
            ACPClientError::Json(text) => ACPClientErrorView::Json(text@),
            ACPClientError::Protocol { code, message } => ACPClientErrorView::Protocol {
                code: *code,
                message: message@,
            },
            ACPClientError::Timeout => ACPClientErrorView::Timeout,
            ACPClientError::ServerNotConfigured => ACPClientErrorView::ServerNotConfigured,
        }
    }
}

impl ACPClientErrorView {
    /// The error for a request that finds no identifier left to give it.
    pub open spec fn exhausted() -> ACPClientErrorView {
        ACPClientErrorView::Protocol { code: None, message: "Message identifiers exhausted"@ }
    }

    /// The text shown for the error.
    pub open spec fn message(self) -> Seq<char> {
        match self {
            ACPClientErrorView::Io(text) => "IO error: "@ + text,
            ACPClientErrorView::Json(text) => "JSON error: "@ + text,
            ACPClientErrorView::Protocol { message, .. } => "Protocol error: "@ + message,
            ACPClientErrorView::Timeout => "Timeout error"@,
            ACPClientErrorView::ServerNotConfigured => "Server not configured"@,
        }
    }
}

impl ACPClientError {
    /// The text shown for the error.
    pub fn message(&self) -> (result: String)
        ensures
            result@ == self@.message(),
    {
        match self {
            ACPClientError::Io(text) => {
                let mut result = "IO error: ".to_owned();
                result.append(text.as_str());
                result
            },
            ACPClientError::Json(text) => {
                let mut result = "JSON error: ".to_owned();
                result.append(text.as_str());
                result
            },
            ACPClientError::Protocol { message, .. } => {
                let mut result = "Protocol error: ".to_owned();
                result.append(message.as_str());
                result
            },
            ACPClientError::Timeout => "Timeout error".to_owned(),
            ACPClientError::ServerNotConfigured => "Server not configured".to_owned(),
        }
    }

    /// The error for a request whose connection was closed under it.
    pub fn connection_closed() -> (result: ACPClientError)
        ensures
            result@ == ACPClientErrorView::Io("Connection closed"@),
    {
        ACPClientError::Io("Connection closed".to_owned())
    }
}

/// Where a connection stands. A process runs in every state but
/// `Disconnected`; requests other than the handshake need `Initialized`.
#[derive(Clone, Copy, Debug, PartialEq, Eq, Structural)]
pub enum ConnectionState {
    Disconnected,
    Starting,
    Initialized,
}

/// What a connection needs next before a request can be sent.
#[derive(Clone, Copy, Debug, PartialEq, Eq, Structural)]
pub enum ConnectionStep {
    /// No process runs: connect, and launch the server that `connect`
    /// names.
    Connect,
    /// The process runs and the handshake is not done: send the handshake
    /// and take its response.
    Handshake,
    /// The handshake is done: requests can be sent.
    Ready,
}

impl ConnectionState {
    /// What a connection in this state needs next.
    pub open spec fn next_step(self) -> ConnectionStep {
        match self {
            ConnectionState::Disconnected => ConnectionStep::Connect,
            ConnectionState::Starting => ConnectionStep::Handshake,
            ConnectionState::Initialized => ConnectionStep::Ready,
        }
    }
}

/// A request that awaits its response: its identifier and the time at which
/// it expires.
#[derive(Debug)]
pub struct PendingRequest {
    pub id: MessageId,
    pub deadline: u64,
}

/// `Pending` as a mathematical value.
pub struct PendingView {
    pub id: MessageIdView,
    pub deadline: u64,
}

impl View for PendingRequest {
    type V = PendingView;

    open spec fn view(&self) -> PendingView {
        PendingView { id: self.id@, deadline: self.deadline }
    }
}

/// The views of a list of pending requests.
pub open spec fn pending_view(pending: Seq<PendingRequest>) -> Seq<PendingView> {
    Seq::new(pending.len(), |i: int| pending[i]@)
}

/// A request to write to the agent: `line` is the message, to be followed by
/// a line's end; the response is awaited until `deadline`.
#[derive(Debug)]
pub struct Outbound {
    pub id: MessageId,
    pub line: String,
    pub deadline: u64,
}

/// What to launch on `connect`, and whether a process that still runs must
/// be terminated first.
#[derive(Debug)]
pub struct LaunchPlan {
    pub server: AgentServerConfig,
    pub terminate_previous: bool,
}

/// What the reader does with one read from the agent's output.
#[derive(Debug)]
pub enum ReaderAction {
    /// Hand `message`, the response to the request `id`, to the request's
    /// waiter.
    Deliver { id: MessageId, message: ACPMessage },
    /// Hand the notification to whoever listens.
    Notify { method: String, params: Value },
    /// Go on to the next line.
    Ignore,
    /// The stream has ended: stop reading.
    Stop,
}

/// `ReaderAction` as a mathematical value.
pub enum ReaderActionView {
    Deliver { id: MessageIdView, message: ACPMessageView },
    Notify { method: Seq<char>, params: Json },
    Ignore,
    Stop,
}

impl View for ReaderAction {
    type V = ReaderActionView;

    open spec fn view(&self) -> ReaderActionView {
        match self {
            ReaderAction::Deliver { id, message } => ReaderActionView::Deliver {
                id: id@,
                message: message@,
            },
            ReaderAction::Notify { method, params } => ReaderActionView::Notify {
                method: method@,
                params: json_of(*params),
            },
            ReaderAction::Ignore => ReaderActionView::Ignore,
            ReaderAction::Stop => ReaderActionView::Stop,
        }
    }
}

/// What a look at a request's deadline finds.
#[derive(Clone, Copy, Debug, PartialEq, Eq, Structural)]
pub enum Expiry {
    /// The deadline has passed: the request is no longer awaited and fails
    /// with a timeout.
    Expired,
    /// The request is still awaited.
    Waiting,
    /// The request is not awaited: it was answered, has expired before, or
    /// was never sent.
    Settled,
}

impl Expiry {
    /// What the request's sender is told: a timeout where the request has
    /// expired, and nothing where it still waits or has had its outcome.
    pub open spec fn failure_view(self) -> Option<ACPClientErrorView> {
        match self {
            Expiry::Expired => Some(ACPClientErrorView::Timeout),
            _ => None,
        }
    }

    /// What the request's sender is told.
    pub fn failure(&self) -> (result: Option<ACPClientError>)
        ensures
            optional_view(result) == self.failure_view(),
    {
        match self {
            Expiry::Expired => Some(ACPClientError::Timeout),
            _ => None,
        }
    }
}

/// What remains to be done when a client is closed.
#[derive(Debug)]
pub struct Closing {
    /// Whether a process runs that must be terminated.
    pub terminate: bool,
    /// The requests that were still awaited, oldest first: each is to fail
    /// with `ACPClientError::connection_closed`.
    pub abandoned: Vec<MessageId>,
}

/// The identifiers of a list.
pub open spec fn ids_view(ids: Seq<MessageId>) -> Seq<MessageIdView> {
    Seq::new(ids.len(), |i: int| ids[i]@)
}

/// Whether `id` is one of the numbers from 1 up to, not including, `bound`.
pub open spec fn issued_before(id: MessageIdView, bound: int) -> bool {
    match id {
        MessageIdView::Number(number) => 1 <= number < bound,
        MessageIdView::String(_) => false,
    }
}

/// The client as a mathematical value.
pub struct ClientView {
    pub config: ACPConfigView,
    pub state: ConnectionState,
    /// The number of the identifier that the next request gets.
    pub next_id: int,
    /// The requests that await a response, oldest first.
    pub pending: Seq<PendingView>,
}

impl ClientView {
    /// A client that has not connected and has sent nothing.
    pub open spec fn initial(config: ACPConfigView) -> ClientView {
        ClientView { config, state: ConnectionState::Disconnected, next_id: 1, pending: Seq::empty() }
    }

    /// The place at or after `start` where the request `id` is awaited.
    pub open spec fn position_from(self, id: MessageIdView, start: int) -> Option<int>
        decreases self.pending.len() - start,
    {
        if start < 0 || start >= self.pending.len() {
            None
        } else if self.pending[start].id == id {
            Some(start)
        } else {
            self.position_from(id, start + 1)
        }
    }

    /// The place in the table where the request `id` is awaited.
    pub open spec fn position(self, id: MessageIdView) -> Option<int> {
        self.position_from(id, 0)
    }

    /// Whether a response to the request `id` is awaited.
    pub open spec fn is_pending(self, id: MessageIdView) -> bool {
        self.position(id) is Some
    }

    /// Every identifier in the table was issued by this client, and none is
    /// there twice.
    pub open spec fn wf(self) -> bool {
        &&& 1 <= self.next_id <= i64::MAX
        &&& forall|i: int|
            0 <= i < self.pending.len() ==> issued_before(
                (#[trigger] self.pending[i]).id,
                self.next_id,
            )
        &&& forall|i: int, j: int|
            0 <= i < j < self.pending.len() ==> (#[trigger] self.pending[i]).id != (
            #[trigger] self.pending[j]).id
    }

    /// Whether an agent process runs.
    pub open spec fn running(self) -> bool {
        self.state != ConnectionState::Disconnected
    }

    /// Whether another identifier can be issued.
    pub open spec fn can_issue(self) -> bool {
        self.next_id < i64::MAX
    }

    /// The identifier that the next request gets.
    pub open spec fn next_message_id(self) -> MessageIdView {
        MessageIdView::Number(self.next_id as i64)
    }

    /// The time at which a request sent at `now` expires.
    pub open spec fn deadline(self, now: u64) -> u64 {
        if now + self.config.performance.request_timeout > u64::MAX {
            u64::MAX
        } else {
            (now + self.config.performance.request_timeout) as u64
        }
    }

    /// The client after it has issued the next identifier and awaits the
    /// response to that request until `deadline`.
    pub open spec fn register(self, deadline: u64) -> ClientView {
        ClientView {
            next_id: self.next_id + 1,
            pending: self.pending.push(PendingView { id: self.next_message_id(), deadline }),
            ..self
        }
    }

    /// The client after the request `id` is no longer awaited.
    pub open spec fn settle(self, id: MessageIdView) -> ClientView {
        match self.position(id) {
            Some(i) => ClientView { pending: self.pending.remove(i), ..self },
            None => self,
        }
    }

    /// The client with its connection in another state.
    pub open spec fn in_state(self, state: ConnectionState) -> ClientView {
        ClientView { state, ..self }
    }

    /// What a message from the agent does. A response to an awaited request
    /// is delivered, and the request is then no longer awaited; any other
    /// response is dropped. A notification is passed on. A request from the
    /// agent, and a line that is no message, are passed over.
    pub open spec fn after_message(self, message: Option<ACPMessageView>) -> (
        ClientView,
        ReaderActionView,
    ) {
        match message {
            Some(ACPMessageView::Response { id, result }) => if self.is_pending(id) {
                (
                    self.settle(id),
                    ReaderActionView::Deliver {
                        id,
                        message: ACPMessageView::Response { id, result },
                    },
                )
            } else {
                (self, ReaderActionView::Ignore)
            },
            Some(ACPMessageView::Notification { method, params }) => (
                self,
                ReaderActionView::Notify { method, params },
            ),
            _ => (self, ReaderActionView::Ignore),
        }
    }

    /// What one line of the agent's output does.
    pub open spec fn after_line(self, line: Seq<char>) -> (ClientView, ReaderActionView) {
        self.after_message(ACPMessageView::from_line(line))
    }

    /// What one read from the agent's output does: a read of nothing is the
    /// end of the stream.
    pub open spec fn after_read(self, bytes_read: usize, line: Seq<char>) -> (
        ClientView,
        ReaderActionView,
    ) {
        if bytes_read == 0 {
            (self, ReaderActionView::Stop)
        } else {
            self.after_line(line)
        }
    }

    /// What one read of bytes from the agent's output does: a read of
    /// nothing is the end of the stream, and bytes that are no text are
    /// passed over, as is any line that is no message.
    pub open spec fn after_bytes(self, bytes_read: usize, bytes: Seq<u8>) -> (
        ClientView,
        ReaderActionView,
    ) {
        if bytes_read == 0 {
            (self, ReaderActionView::Stop)
        } else if valid_utf8(bytes) {
            self.after_line(decode_utf8(bytes))
        } else {
            (self, ReaderActionView::Ignore)
        }
    }

    /// The client with another configuration and without its connection.
    pub open spec fn reconfigured(self, config: ACPConfigView) -> ClientView {
        ClientView { config, state: ConnectionState::Disconnected, ..self }
    }

    /// What a look at the deadline of the request `id` at the time `now`
    /// does.
    pub open spec fn after_expiry_check(self, id: MessageIdView, now: u64) -> (ClientView, Expiry) {
        match self.position(id) {
            Some(i) => if now >= self.pending[i].deadline {
                (self.settle(id), Expiry::Expired)
            } else {
                (self, Expiry::Waiting)
            },
            None => (self, Expiry::Settled),
        }
    }

    /// What `reconnect` does: the connection is given up, and a process
    /// that runs is to be terminated.
    pub open spec fn after_reconnect(self) -> (ClientView, bool) {
        (self.in_state(ConnectionState::Disconnected), self.running())
    }
}

/// Where `position_from` finds a request, the request is there and at no
/// earlier place; where it finds none, there is none.
pub proof fn lemma_position(client: ClientView, id: MessageIdView, start: int)
    requires
        0 <= start,
    ensures
        match client.position_from(id, start) {
            Some(i) => {
                &&& start <= i < client.pending.len()
                &&& client.pending[i].id == id
                &&& forall|k: int| start <= k < i ==> client.pending[k].id != id
            },
            None => forall|k: int| start <= k < client.pending.len() ==> client.pending[k].id != id,
        },
    decreases client.pending.len() - start,
{
    if start < client.pending.len() && client.pending[start].id != id {
        lemma_position(client, id, start + 1);
    }
}

/// A request is awaited exactly if its identifier stands in the table.
pub proof fn lemma_is_pending(client: ClientView, id: MessageIdView)
    ensures
        client.is_pending(id) <==> exists|i: int|
            0 <= i < client.pending.len() && (#[trigger] client.pending[i]).id == id,
{
    lemma_position(client, id, 0);
}

/// One outcome for each request. Once a request is settled, by its response
/// or by its deadline, it is no longer awaited, so that nothing more can be
/// delivered for it; and every other request is awaited exactly as before.
pub proof fn lemma_settle(client: ClientView, id: MessageIdView)
    requires
        client.wf(),
    ensures
        client.settle(id).wf(),
        !client.settle(id).is_pending(id),
        forall|other: MessageIdView|
            other != id ==> (#[trigger] client.settle(id).is_pending(other)) == client.is_pending(
                other,
            ),
        client.settle(id).next_id == client.next_id,
        client.settle(id).state == client.state,
{
    lemma_position(client, id, 0);
    let after = client.settle(id);
    match client.position(id) {
        Some(i) => {
            assert forall|k: int| 0 <= k < after.pending.len() implies (
            #[trigger] after.pending[k]).id != id by {
                if k < i {
                    assert(after.pending[k] == client.pending[k]);
                } else {
                    assert(after.pending[k] == client.pending[k + 1]);
                }
            }
            lemma_is_pending(after, id);
            assert forall|other: MessageIdView| other != id implies (
            #[trigger] after.is_pending(other)) == client.is_pending(other) by {
                lemma_is_pending(after, other);
                lemma_is_pending(client, other);
                if client.is_pending(other) {
                    let k = choose|k: int|
                        0 <= k < client.pending.len() && (#[trigger] client.pending[k]).id == other;
                    if k < i {
                        assert(after.pending[k].id == other);
                    } else {
                        assert(after.pending[k - 1].id == other);
                    }
                }
                if after.is_pending(other) {
                    let k = choose|k: int|
                        0 <= k < after.pending.len() && (#[trigger] after.pending[k]).id == other;
                    if k < i {
                        assert(client.pending[k].id == other);
                    } else {
                        assert(client.pending[k + 1].id == other);
                    }
                }
            }
            assert forall|k: int| 0 <= k < after.pending.len() implies issued_before(
                (#[trigger] after.pending[k]).id,
                after.next_id,
            ) by {
                if k < i {
                    assert(after.pending[k] == client.pending[k]);
                } else {
                    assert(after.pending[k] == client.pending[k + 1]);
                }
            }
            assert forall|a: int, b: int| 0 <= a < b < after.pending.len() implies (
            #[trigger] after.pending[a]).id != (#[trigger] after.pending[b]).id by {
                let a0 = if a < i { a } else { a + 1 };
                let b0 = if b < i { b } else { b + 1 };
                assert(after.pending[a] == client.pending[a0]);
                assert(after.pending[b] == client.pending[b0]);
            }
        },
        None => {},
    }
}

/// Identifiers increase and are fresh. The identifier that the next request
/// gets is larger than every identifier that is awaited, so it is awaited by
/// nobody; and the request after it gets the next larger number.
pub proof fn lemma_register(client: ClientView, deadline: u64)
    requires
        client.wf(),
        client.can_issue(),
    ensures
        client.register(deadline).wf(),
        !client.is_pending(client.next_message_id()),
        client.register(deadline).is_pending(client.next_message_id()),
        client.register(deadline).next_id == client.next_id + 1,
        forall|other: MessageIdView|
            other != client.next_message_id() ==> (#[trigger] client.register(deadline).is_pending(
                other,
            )) == client.is_pending(other),
        forall|i: int|
            0 <= i < client.pending.len() ==> issued_before(
                (#[trigger] client.pending[i]).id,
                client.next_id,
            ),
{
    let after = client.register(deadline);
    let id = client.next_message_id();
    lemma_is_pending(client, id);
    lemma_is_pending(after, id);
    assert(after.pending[client.pending.len() as int].id == id);
    assert forall|other: MessageIdView| other != id implies (#[trigger] after.is_pending(other))
        == client.is_pending(other) by {
        lemma_is_pending(after, other);
        lemma_is_pending(client, other);
        if client.is_pending(other) {
            let k = choose|k: int|
                0 <= k < client.pending.len() && (#[trigger] client.pending[k]).id == other;
            assert(after.pending[k].id == other);
        }
        if after.is_pending(other) {
            let k = choose|k: int|
                0 <= k < after.pending.len() && (#[trigger] after.pending[k]).id == other;
            assert(client.pending[k].id == other);
        }
    }
    assert forall|k: int| 0 <= k < after.pending.len() implies issued_before(
        (#[trigger] after.pending[k]).id,
        after.next_id,
    ) by {
        if k < client.pending.len() {
            assert(after.pending[k] == client.pending[k]);
        }
    }
    assert forall|a: int, b: int| 0 <= a < b < after.pending.len() implies (
    #[trigger] after.pending[a]).id != (#[trigger] after.pending[b]).id by {
        assert(after.pending[a] == client.pending[a]);
        if b < client.pending.len() {
            assert(after.pending[b] == client.pending[b]);
        }
    }
}

/// What is delivered belongs to the request it is delivered for. If a
/// message leads to a delivery, the message is a response, the request it is
/// delivered for is the one the response names, that request was awaited,
/// and it is awaited no longer.
pub proof fn lemma_delivery_matches(client: ClientView, message: Option<ACPMessageView>)
    requires
        client.wf(),
    ensures
        client.after_message(message).0.wf(),
        client.after_message(message).1 matches ReaderActionView::Deliver { id, message: delivered }
            ==> {
            &&& message == Some(delivered)
            &&& delivered matches ACPMessageView::Response { id: named, .. } && named == id
            &&& client.is_pending(id)
            &&& !client.after_message(message).0.is_pending(id)
        },
        !(client.after_message(message).1 is Deliver) ==> client.after_message(message).0 == client,
        !(client.after_message(message).1 is Stop),
{
    match message {
        Some(ACPMessageView::Response { id, result }) => {
            lemma_settle(client, id);
        },
        _ => {},
    }
}

/// A response that nobody awaits is dropped. A response whose identifier is
/// not in the table, because the request has expired, was answered before or
/// was never sent, changes nothing and is passed over.
pub proof fn lemma_unmatched_response_dropped(
    client: ClientView,
    id: MessageIdView,
    result: ResponseResultView,
)
    requires
        !client.is_pending(id),
    ensures
        client.after_message(Some(ACPMessageView::Response { id, result })) == (
            client,
            ReaderActionView::Ignore,
        ),
{
}

/// A second response to the same request is dropped.
pub proof fn lemma_duplicate_response_dropped(
    client: ClientView,
    id: MessageIdView,
    first: ResponseResultView,
    second: ResponseResultView,
)
    requires
        client.wf(),
    ensures
        ({
            let after = client.after_message(Some(ACPMessageView::Response { id, result: first })).0;
            after.after_message(Some(ACPMessageView::Response { id, result: second })) == (
                after,
                ReaderActionView::Ignore,
            )
        }),
{
    lemma_settle(client, id);
}

/// A line that is no message does not stop the reader and changes nothing:
/// the line after it is handled as if the bad line had never come.
pub proof fn lemma_malformed_line_skipped(client: ClientView, bad: Seq<char>, next: Seq<char>)
    requires
        ACPMessageView::from_line(bad) is None,
    ensures
        client.after_line(bad) == (client, ReaderActionView::Ignore),
        forall|bytes_read: usize|
            bytes_read > 0 ==> #[trigger] client.after_read(bytes_read, bad) == (
                client,
                ReaderActionView::Ignore,
            ),
        client.after_line(bad).0.after_line(next) == client.after_line(next),
{
}

/// Bytes that are no text do not stop the reader and change nothing: what
/// is read after them is handled as if they had never come.
pub proof fn lemma_undecodable_bytes_skipped(
    client: ClientView,
    bad: Seq<u8>,
    bytes_read: usize,
    next: Seq<u8>,
)
    requires
        !valid_utf8(bad),
        bytes_read > 0,
    ensures
        client.after_bytes(bytes_read, bad) == (client, ReaderActionView::Ignore),
        forall|next_read: usize|
            client.after_bytes(bytes_read, bad).0.after_bytes(next_read, next)
                == #[trigger] client.after_bytes(next_read, next),
{
}

/// A request that has expired gets no response. After the deadline check
/// has settled a request, a response that names it is dropped.
pub proof fn lemma_late_response_dropped(
    client: ClientView,
    id: MessageIdView,
    now: u64,
    result: ResponseResultView,
)
    requires
        client.wf(),
        client.after_expiry_check(id, now).1 == Expiry::Expired,
    ensures
        ({
            let after = client.after_expiry_check(id, now).0;
            after.after_message(Some(ACPMessageView::Response { id, result })) == (
                after,
                ReaderActionView::Ignore,
            )
        }),
{
    lemma_settle(client, id);
}

/// A deadline check touches one request only, and no request waits for
/// ever. The check settles the request exactly if it is awaited and its
/// deadline has come; whatever it finds, every other request is awaited as
/// before. At the end of time the check settles every request that is still
/// awaited.
pub proof fn lemma_expiry_check(client: ClientView, id: MessageIdView, now: u64)
    requires
        client.wf(),
    ensures
        client.is_pending(id) ==> client.after_expiry_check(id, u64::MAX).1 == Expiry::Expired,
        client.after_expiry_check(id, now).0.wf(),
        client.after_expiry_check(id, now).1 == Expiry::Expired ==> client.is_pending(id)
            && !client.after_expiry_check(id, now).0.is_pending(id),
        client.after_expiry_check(id, now).1 != Expiry::Expired ==> client.after_expiry_check(
            id,
            now,
        ).0 == client,
        client.after_expiry_check(id, now).1 == Expiry::Settled <==> !client.is_pending(id),
        forall|other: MessageIdView|
            other != id ==> (#[trigger] client.after_expiry_check(id, now).0.is_pending(other))
                == client.is_pending(other),
{
    lemma_settle(client, id);
}

/// After `reconnect` no process is left. Whatever the state was, the
/// connection is given up; a process that ran is to be terminated; and a
/// second `reconnect` finds nothing to terminate.
pub proof fn lemma_reconnect(client: ClientView)
    ensures
        client.after_reconnect().0.state == ConnectionState::Disconnected,
        !client.after_reconnect().0.running(),
        client.after_reconnect().1 == client.running(),
        client.after_reconnect().0.after_reconnect() == (client.after_reconnect().0, false),
        client.wf() ==> client.after_reconnect().0.wf(),
{
}

/// The name under which the client presents itself to an agent.
pub const CLIENT_NAME: &'static str = "Zed ACP Client";

/// The version under which the client presents itself to an agent.
pub const CLIENT_VERSION: &'static str = "0.1.0";

/// The version of the protocol that the client speaks.
pub const PROTOCOL_VERSION: u32 = 1;

impl ClientView {
    /// The line that carries the next request; `None` where the request
    /// cannot be written.
    pub open spec fn request_line(self, method: Seq<char>, params: Json) -> Option<Seq<char>> {
        (ACPMessageView::Request { id: self.next_message_id(), method, params }).line()
    }

    /// The line that carries a notification; `None` where the notification
    /// cannot be written.
    pub open spec fn notification_line(method: Seq<char>, params: Json) -> Option<Seq<char>> {
        (ACPMessageView::Notification { method, params }).line()
    }

    /// A request went out: the client has issued the next identifier and
    /// awaits the response until the deadline, and `outbound` holds the
    /// line to write.
    pub open spec fn sends(
        self,
        after: ClientView,
        outbound: Outbound,
        method: Seq<char>,
        params: Json,
        now: u64,
    ) -> bool {
        &&& self.can_issue()
        &&& after == self.register(self.deadline(now))
        &&& outbound.id@ == self.next_message_id()
        &&& self.request_line(method, params) == Some(outbound.line@)
        &&& single_line(outbound.line@)
        &&& outbound.deadline == self.deadline(now)
    }

    /// Nothing was registered: nothing has changed, and the error says that
    /// no identifier is left or that the request could not be written.
    pub open spec fn declines(self, after: ClientView, error: ACPClientError) -> bool {
        &&& after == self
        &&& if self.can_issue() {
            error@ is Json
        } else {
            error@ == ACPClientErrorView::exhausted()
        }
    }

    /// No request went out: nothing has changed, and either no identifier
    /// is left, or the request could not be written, and the error says
    /// which.
    pub open spec fn fails_to_send(
        self,
        after: ClientView,
        error: ACPClientError,
        method: Seq<char>,
        params: Json,
    ) -> bool {
        &&& self.declines(after, error)
        &&& self.can_issue() ==> self.request_line(method, params) is None
    }

    /// The parameters of the handshake: the protocol's version, and the
    /// client's name and version.
    pub open spec fn initialize_params() -> InitializeRequestView {
        InitializeRequestView {
            protocol_version: 1,
            capabilities: None,
            client_info: Some(
                ClientInfoView { name: "Zed ACP Client"@, version: "0.1.0"@ },
            ),
        }
    }

    /// What a response means to the one who sent the request: the result,
    /// the agent's error with its code and message, or an error without a
    /// code where the message is no response at all.
    pub open spec fn outcome(message: ACPMessageView) -> Result<Json, ACPClientErrorView> {
        match message {
            ACPMessageView::Response { result: ResponseResultView::Success { result }, .. } => Ok(
                result,
            ),
            ACPMessageView::Response { result: ResponseResultView::Error { error }, .. } => Err(
                ACPClientErrorView::Protocol { code: Some(error.code), message: error.message },
            ),
            _ => Err(
                ACPClientErrorView::Protocol { code: None, message: "Unexpected response type"@ },
            ),
        }
    }

    /// The error for a result that cannot be read as the method's result.
    pub open spec fn unreadable_result() -> ACPClientErrorView {
        ACPClientErrorView::Json("Result does not match the method"@)
    }

    /// What the response to a request means once its result is read as a
    /// `T`.
    pub open spec fn typed_outcome<T: Wire>(message: ACPMessageView) -> Result<
        T::V,
        ACPClientErrorView,
    > {
        match Self::outcome(message) {
            Ok(result) => match T::decode(result) {
                Some(read) => Ok(read),
                None => Err(Self::unreadable_result()),
            },
            Err(error) => Err(error),
        }
    }

    /// The client after the handshake's response has come.
    pub open spec fn after_handshake(self, message: ACPMessageView) -> ClientView {
        if Self::typed_outcome::<InitializeResponse>(message) is Ok && self.state
            == ConnectionState::Starting {
            self.in_state(ConnectionState::Initialized)
        } else {
            self
        }
    }

    /// The client after it has been closed.
    pub open spec fn closed(self) -> ClientView {
        ClientView { state: ConnectionState::Disconnected, pending: Seq::empty(), ..self }
    }

    /// The identifiers that are awaited, oldest first.
    pub open spec fn pending_ids(self) -> Seq<MessageIdView> {
        Seq::new(self.pending.len(), |i: int| self.pending[i].id)
    }
}

/// What one update adds to the text of a prompt to the session
/// `session_id`: what it adds to the agent's message, if it belongs to that
/// session, and nothing if it belongs to another.
pub open spec fn added_text(update: SessionNotificationView, session_id: Seq<char>) -> Seq<char> {
    if update.session_id == session_id {
        update.update.message_text()
    } else {
        Seq::empty()
    }
}

/// The text that the updates add up to for a prompt to the session
/// `session_id`: what each update of that session adds to the agent's
/// message, in the order in which the updates came.
pub open spec fn collected_text(updates: Seq<SessionNotificationView>, session_id: Seq<char>) -> Seq<
    char,
>
    decreases updates.len(),
{
    if updates.len() == 0 {
        Seq::empty()
    } else {
        collected_text(updates.drop_last(), session_id) + added_text(updates.last(), session_id)
    }
}

/// The protocol client.
pub struct ACPClient {
    config: ACPConfig,
    state: ConnectionState,
    next_id: i64,
    pending: Vec<PendingRequest>,
}

impl View for ACPClient {
    type V = ClientView;

    closed spec fn view(&self) -> ClientView {
        ClientView {
            config: self.config@,
            state: self.state,
            next_id: self.next_id as int,
            pending: pending_view(self.pending@),
        }
    }
}

impl ACPClient {
    #[verifier::type_invariant]
    spec fn well_formed(self) -> bool {
        self@.wf()
    }

    /// A client for the given configuration. It has no process and has sent
    /// nothing.
    pub fn new(config: &ACPConfig) -> (result: Result<ACPClient, ACPClientError>)
        ensures
            result matches Ok(client) && client@ == ClientView::initial(config@),
    {
        let client = ACPClient {
            config: config.clone(),
            state: ConnectionState::Disconnected,
            next_id: 1,
            pending: Vec::new(),
        };
        assert(client@.pending =~= Seq::empty());
        Ok(client)
    }

    /// Recalls that the client's table is well formed, so that the laws of
    /// this module apply to the client as it is.
    pub fn recall_well_formed(&self)
        ensures
            self@.wf(),
    {
        proof {
            use_type_invariant(self);
        }
    }

    /// The state of the connection.
    pub fn state(&self) -> (result: ConnectionState)
        ensures
            result == self@.state,
    {
        self.state
    }

    /// Whether a connection must be made before a request can be sent.
    pub fn needs_connection(&self) -> (result: bool)
        ensures
            result == !self@.running(),
    {
        self.state == ConnectionState::Disconnected
    }

    /// What the connection needs next before a request can be sent. An
    /// operation that finds the client disconnected does not fail for that:
    /// its caller takes these steps first.
    pub fn next_step(&self) -> (result: ConnectionStep)
        ensures
            result == self@.state.next_step(),
    {
        match self.state {
            ConnectionState::Disconnected => ConnectionStep::Connect,
            ConnectionState::Starting => ConnectionStep::Handshake,
            ConnectionState::Initialized => ConnectionStep::Ready,
        }
    }

    /// The time, in milliseconds, that a request may stay unanswered.
    pub fn request_timeout(&self) -> (result: u64)
        ensures
            result == self@.config.performance.request_timeout,
    {
        self.config.performance.request_timeout
    }

    /// The number of requests that await a response.
    pub fn pending_count(&self) -> (result: usize)
        ensures
            result == self@.pending.len(),
    {
        self.pending.len()
    }

    fn find(&self, id: &MessageId) -> (result: Option<usize>)
        ensures
            match result {
                Some(i) => self@.position(id@) == Some(i as int) && i < self.pending@.len(),
                None => self@.position(id@) is None,
            },
    {
        let mut i: usize = 0;
        while i < self.pending.len()
            invariant
                i <= self.pending.len(),
                self@.position(id@) == self@.position_from(id@, i as int),
            decreases self.pending.len() - i,
        {
            if self.pending[i].id.same(id) {
                return Some(i);
            }
            i += 1;
        }
        None
    }

    /// Takes the table out of the client, which holds an empty one until
    /// the table is put back.
    fn take_pending(&mut self) -> (result: Vec<PendingRequest>)
        ensures
            result == old(self).pending,
            final(self).pending@.len() == 0,
            final(self).config == old(self).config,
            final(self).state == old(self).state,
            final(self).next_id == old(self).next_id,
    {
        proof {
            use_type_invariant(&*self);
        }
        let mut taken: Vec<PendingRequest> = Vec::new();
        std::mem::swap(&mut self.pending, &mut taken);
        taken
    }

    /// Whether a response to the request `id` is awaited.
    pub fn is_pending(&self, id: &MessageId) -> (result: bool)
        ensures
            result == self@.is_pending(id@),
    {
        self.find(id).is_some()
    }

    /// Begins a connection: says which server to launch, and whether a
    /// process that still runs must be terminated first. Fails where no
    /// server is defined.
    pub fn connect(&mut self) -> (result: Result<LaunchPlan, ACPClientError>)
        ensures
            match result {
                Ok(plan) => {
                    &&& old(self)@.config.server_to_launch() == Some(plan.server@)
                    &&& plan.terminate_previous == old(self)@.running()
                    &&& final(self)@ == old(self)@.in_state(ConnectionState::Starting)
                },
                Err(error) => {
                    &&& old(self)@.config.server_to_launch() is None
                    &&& error@ == ACPClientErrorView::ServerNotConfigured
                    &&& final(self)@ == old(self)@
                },
            },
    {
        proof {
            use_type_invariant(&*self);
        }
        let server = match self.config.server_config() {
            Some(server) => server.clone(),
            None => return Err(ACPClientError::ServerNotConfigured),
        };
        let terminate_previous = self.state != ConnectionState::Disconnected;
        self.state = ConnectionState::Starting;
        Ok(LaunchPlan { server, terminate_previous })
    }

    /// Gives the connection up. The result says whether a process runs that
    /// must be terminated.
    pub fn reconnect(&mut self) -> (result: Result<bool, ACPClientError>)
        ensures
            result matches Ok(terminate) && (final(self)@, terminate) == old(self)@.after_reconnect(),
    {
        proof {
            use_type_invariant(&*self);
        }
        let terminate = self.state != ConnectionState::Disconnected;
        self.state = ConnectionState::Disconnected;
        Ok(terminate)
    }

    /// Takes another configuration and gives the connection up, so that the
    /// next connection is made as the new configuration says. The result
    /// says whether a process runs that must be terminated.
    pub fn reconfigure(&mut self, config: &ACPConfig) -> (result: bool)
        ensures
            final(self)@ == old(self)@.reconfigured(config@),
            result == old(self)@.running(),
    {
        proof {
            use_type_invariant(&*self);
        }
        let terminate = self.state != ConnectionState::Disconnected;
        self.config = config.clone();
        self.state = ConnectionState::Disconnected;
        terminate
    }

    /// Closes the client: the connection is given up and no request is
    /// awaited any longer. The result says what is left to do.
    pub fn close(&mut self) -> (result: Closing)
        ensures
            final(self)@ == old(self)@.closed(),
            result.terminate == old(self)@.running(),
            ids_view(result.abandoned@) == old(self)@.pending_ids(),
    {
        proof {
            use_type_invariant(&*self);
        }
        let mut abandoned: Vec<MessageId> = Vec::new();
        let mut i: usize = 0;
        while i < self.pending.len()
            invariant
                i <= self.pending.len(),
                abandoned@.len() == i,
                forall|k: int| 0 <= k < i ==> abandoned@[k]@ == self.pending@[k].id@,
            decreases self.pending.len() - i,
        {
            abandoned.push(self.pending[i].id.clone());
            i += 1;
        }
        assert(ids_view(abandoned@) =~= self@.pending_ids());
        let terminate = self.state != ConnectionState::Disconnected;
        proof {
            assert(pending_view(Seq::<PendingRequest>::empty()) =~= Seq::empty());
        }
        self.pending = Vec::new();
        self.state = ConnectionState::Disconnected;
        Closing { terminate, abandoned }
    }

    /// Takes a request that has been written as a line, or the error that
    /// writing it gave, and registers it: the request gets the next
    /// identifier and is awaited until its deadline.
    pub fn register(&mut self, encoded: Result<String, serde_json::Error>, now: u64) -> (result:
        Result<Outbound, ACPClientError>)
        ensures
            match result {
                Ok(outbound) => {
                    &&& encoded matches Ok(line) && outbound.line@ == line@
                    &&& old(self)@.can_issue()
                    &&& final(self)@ == old(self)@.register(old(self)@.deadline(now))
                    &&& outbound.id@ == old(self)@.next_message_id()
                    &&& outbound.deadline == old(self)@.deadline(now)
                },
                Err(error) => (encoded is Err || !old(self)@.can_issue()) && old(self)@.declines(
                    final(self)@,
                    error,
                ),
            },
    {
        proof {
            use_type_invariant(&*self);
        }
        if self.next_id == i64::MAX {
            return Err(
                ACPClientError::Protocol {
                    code: None,
                    message: "Message identifiers exhausted".to_owned(),
                },
            );
        }
        let line = match encoded {
            Ok(line) => line,
            Err(error) => return Err(ACPClientError::Json(json::error_text(&error))),
        };
        let timeout = self.config.performance.request_timeout;
        let deadline = if now > u64::MAX - timeout {
            u64::MAX
        } else {
            now + timeout
        };
        let number = self.next_id;
        let mut pending = self.take_pending();
        pending.push(PendingRequest { id: MessageId::Number(number), deadline });
        proof {
            lemma_register(old(self)@, deadline);
            assert(pending_view(pending@) =~= old(self)@.register(deadline).pending);
        }
        self.next_id = number + 1;
        self.pending = pending;
        Ok(Outbound { id: MessageId::Number(number), line, deadline })
    }

    /// Sends a request: writes it as a line and registers it. A process
    /// must run and the handshake must be done.
    pub fn send_request(&mut self, method: &str, params: Value, now: u64) -> (result: Result<
        Outbound,
        ACPClientError,
    >)
        ensures
            match result {
                Ok(outbound) => old(self)@.state == ConnectionState::Initialized && old(self)@.sends(
                    final(self)@,
                    outbound,
                    method@,
                    json_of(params),
                    now,
                ),
                Err(error) => if old(self)@.state == ConnectionState::Initialized {
                    old(self)@.fails_to_send(final(self)@, error, method@, json_of(params))
                } else {
                    error@ == ACPClientErrorView::ServerNotConfigured && final(self)@ == old(self)@
                },
            },
    {
        if self.state != ConnectionState::Initialized {
            return Err(ACPClientError::ServerNotConfigured);
        }
        self.issue(method, params, now)
    }

    fn issue(&mut self, method: &str, params: Value, now: u64) -> (result: Result<
        Outbound,
        ACPClientError,
    >)
        ensures
            match result {
                Ok(outbound) => old(self)@.sends(
                    final(self)@,
                    outbound,
                    method@,
                    json_of(params),
                    now,
                ),
                Err(error) => old(self)@.fails_to_send(
                    final(self)@,
                    error,
                    method@,
                    json_of(params),
                ),
            },
    {
        let message = ACPMessage::Request {
            id: MessageId::Number(self.next_id),
            method: method.to_owned(),
            params,
        };
        let encoded = message.to_line();
        self.register(encoded, now)
    }

    /// Sends the handshake. A process must run.
    pub fn initialize(&mut self, now: u64) -> (result: Result<Outbound, ACPClientError>)
        ensures
            match result {
                Ok(outbound) => old(self)@.running() && old(self)@.sends(
                    final(self)@,
                    outbound,
                    "initialize"@,
                    InitializeRequest::encode(ClientView::initialize_params()),
                    now,
                ),
                Err(error) => if old(self)@.running() {
                    old(self)@.fails_to_send(
                        final(self)@,
                        error,
                        "initialize"@,
                        InitializeRequest::encode(ClientView::initialize_params()),
                    )
                } else {
                    error@ == ACPClientErrorView::ServerNotConfigured && final(self)@ == old(self)@
                },
            },
    {
        if self.state == ConnectionState::Disconnected {
            return Err(ACPClientError::ServerNotConfigured);
        }
        let request = InitializeRequest {
            protocol_version: PROTOCOL_VERSION,
            capabilities: None,
            client_info: Some(
                ClientInfo { name: CLIENT_NAME.to_owned(), version: CLIENT_VERSION.to_owned() },
            ),
        };
        self.issue("initialize", request.to_json(), now)
    }

    /// Asks the agent for a new session.
    pub fn new_session(&mut self, cwd: Option<String>, now: u64) -> (result: Result<
        Outbound,
        ACPClientError,
    >)
        ensures
            match result {
                Ok(outbound) => old(self)@.state == ConnectionState::Initialized && old(self)@.sends(
                    final(self)@,
                    outbound,
                    "session/new"@,
                    NewSessionRequest::encode(
                        NewSessionRequestView { cwd: optional_view(cwd), mcp_servers: None },
                    ),
                    now,
                ),
                Err(error) => if old(self)@.state == ConnectionState::Initialized {
                    old(self)@.fails_to_send(
                        final(self)@,
                        error,
                        "session/new"@,
                        NewSessionRequest::encode(
                            NewSessionRequestView { cwd: optional_view(cwd), mcp_servers: None },
                        ),
                    )
                } else {
                    error@ == ACPClientErrorView::ServerNotConfigured && final(self)@ == old(self)@
                },
            },
    {
        let request = NewSessionRequest { cwd, mcp_servers: None };
        self.send_request("session/new", request.to_json(), now)
    }

    /// Submits a text to a session as a prompt of one block of text.
    pub fn prompt(&mut self, session_id: &str, prompt: &str, now: u64) -> (result: Result<
        Outbound,
        ACPClientError,
    >)
        ensures
            match result {
                Ok(outbound) => old(self)@.state == ConnectionState::Initialized && old(self)@.sends(
                    final(self)@,
                    outbound,
                    "session/prompt"@,
                    PromptRequest::encode(PromptRequestView::of_text(session_id@, prompt@)),
                    now,
                ),
                Err(error) => if old(self)@.state == ConnectionState::Initialized {
                    old(self)@.fails_to_send(
                        final(self)@,
                        error,
                        "session/prompt"@,
                        PromptRequest::encode(PromptRequestView::of_text(session_id@, prompt@)),
                    )
                } else {
                    error@ == ACPClientErrorView::ServerNotConfigured && final(self)@ == old(self)@
                },
            },
    {
        let request = PromptRequest::of_text(session_id, prompt);
        self.send_request("session/prompt", request.to_json(), now)
    }

    /// Writes a notification as a line. A process must run. Nothing is
    /// awaited for a notification.
    pub fn send_notification(&self, method: &str, params: Value) -> (result: Result<
        String,
        ACPClientError,
    >)
        ensures
            match result {
                Ok(line) => self@.running() && single_line(line@) && ClientView::notification_line(
                    method@,
                    json_of(params),
                ) == Some(line@),
                Err(error) => if self@.running() {
                    error@ is Json && ClientView::notification_line(method@, json_of(params))
                        is None
                } else {
                    error@ == ACPClientErrorView::ServerNotConfigured
                },
            },
    {
        if self.state == ConnectionState::Disconnected {
            return Err(ACPClientError::ServerNotConfigured);
        }
        let message = ACPMessage::Notification { method: method.to_owned(), params };
        match message.to_line() {
            Ok(line) => Ok(line),
            Err(error) => Err(ACPClientError::Json(json::error_text(&error))),
        }
    }

    /// Asks the agent to give up the prompt it works on. The agent may or
    /// may not comply: no request of the client is settled by this.
    pub fn cancel(&self) -> (result: Result<String, ACPClientError>)
        ensures
            match result {
                Ok(line) => self@.running() && single_line(line@) && ClientView::notification_line(
                    "session/cancel"@,
                    Json::Null,
                ) == Some(line@),
                Err(error) => if self@.running() {
                    error@ is Json && ClientView::notification_line("session/cancel"@, Json::Null)
                        is None
                } else {
                    error@ == ACPClientErrorView::ServerNotConfigured
                },
            },
    {
        self.send_notification("session/cancel", json::null())
    }

    /// Handles one message from the agent.
    pub fn handle_message(&mut self, message: ACPMessage) -> (action: ReaderAction)
        ensures
            (final(self)@, action@) == old(self)@.after_message(Some(message@)),
    {
        proof {
            use_type_invariant(&*self);
        }
        match message {
            ACPMessage::Response { id, result } => match self.find(&id) {
                Some(i) => {
                    let mut pending = self.take_pending();
                    pending.remove(i);
                    proof {
                        lemma_settle(old(self)@, id@);
                        assert(pending_view(pending@) =~= old(self)@.settle(id@).pending);
                    }
                    self.pending = pending;
                    ReaderAction::Deliver {
                        id: id.clone(),
                        message: ACPMessage::Response { id, result },
                    }
                },
                None => ReaderAction::Ignore,
            },
            ACPMessage::Notification { method, params } => ReaderAction::Notify { method, params },
            ACPMessage::Request { .. } => ReaderAction::Ignore,
        }
    }

    /// Handles one line of the agent's output. A line that is no message
    /// is passed over.
    pub fn handle_line(&mut self, line: &str) -> (action: ReaderAction)
        ensures
            (final(self)@, action@) == old(self)@.after_line(line@),
    {
        match ACPMessage::from_line(line) {
            Some(message) => self.handle_message(message),
            None => ReaderAction::Ignore,
        }
    }

    /// Handles one read from the agent's output: `bytes_read` is what the
    /// read returned, `line` what it read. A read of nothing ends the
    /// stream.
    pub fn handle_read(&mut self, bytes_read: usize, line: &str) -> (action: ReaderAction)
        ensures
            (final(self)@, action@) == old(self)@.after_read(bytes_read, line@),
    {
        if bytes_read == 0 {
            ReaderAction::Stop
        } else {
            self.handle_line(line)
        }
    }

    /// Handles one read of bytes from the agent's output: `bytes_read` is
    /// what the read returned, `bytes` what it read. A read of nothing ends
    /// the stream; bytes that are no text are passed over.
    pub fn handle_bytes(&mut self, bytes_read: usize, bytes: &[u8]) -> (action: ReaderAction)
        ensures
            (final(self)@, action@) == old(self)@.after_bytes(bytes_read, bytes@),
    {
        if bytes_read == 0 {
            return ReaderAction::Stop;
        }
        match text::decoded(bytes) {
            Some(line) => self.handle_line(line),
            None => ReaderAction::Ignore,
        }
    }

    /// Looks at the deadline of the request `id` at the time `now`: a
    /// request whose deadline has come is no longer awaited.
    pub fn expire(&mut self, id: &MessageId, now: u64) -> (result: Expiry)
        ensures
            (final(self)@, result) == old(self)@.after_expiry_check(id@, now),
    {
        proof {
            use_type_invariant(&*self);
        }
        match self.find(id) {
            Some(i) => if now >= self.pending[i].deadline {
                let mut pending = self.take_pending();
                pending.remove(i);
                proof {
                    lemma_settle(old(self)@, id@);
                    assert(pending_view(pending@) =~= old(self)@.settle(id@).pending);
                }
                self.pending = pending;
                Expiry::Expired
            } else {
                Expiry::Waiting
            },
            None => Expiry::Settled,
        }
    }

    /// What a response means to the one who sent the request.
    pub fn outcome(message: ACPMessage) -> (result: Result<Value, ACPClientError>)
        ensures
            match result {
                Ok(value) => ClientView::outcome(message@) == Ok::<Json, ACPClientErrorView>(
                    json_of(value),
                ),
                Err(error) => ClientView::outcome(message@) == Err::<Json, ACPClientErrorView>(
                    error@,
                ),
            },
    {
        match message {
            ACPMessage::Response { id, result: ResponseResult::Success { result } } => Ok(result),
            ACPMessage::Response { id, result: ResponseResult::Error { error } } => Err(
                ACPClientError::Protocol { code: Some(error.code), message: error.message },
            ),
            _ => Err(
                ACPClientError::Protocol {
                    code: None,
                    message: "Unexpected response type".to_owned(),
                },
            ),
        }
    }

    /// What a response means once its result is read as a `T`.
    pub fn typed_outcome<T: Wire>(message: ACPMessage) -> (result: Result<T, ACPClientError>)
        ensures
            match result {
                Ok(read) => ClientView::typed_outcome::<T>(message@) == Ok::<
                    T::V,
                    ACPClientErrorView,
                >(read@),
                Err(error) => ClientView::typed_outcome::<T>(message@) == Err::<
                    T::V,
                    ACPClientErrorView,
                >(error@),
            },
    {
        match Self::outcome(message) {
            Ok(value) => match T::from_json(&value) {
                Some(read) => Ok(read),
                None => Err(ACPClientError::Json("Result does not match the method".to_owned())),
            },
            Err(error) => Err(error),
        }
    }

    /// Takes the response to the handshake. Where the agent has answered as
    /// it should, the connection that was starting is initialized.
    pub fn finish_initialize(&mut self, message: ACPMessage) -> (result: Result<
        InitializeResponse,
        ACPClientError,
    >)
        ensures
            final(self)@ == old(self)@.after_handshake(message@),
            match result {
                Ok(read) => ClientView::typed_outcome::<InitializeResponse>(message@) == Ok::<
                    InitializeResponseView,
                    ACPClientErrorView,
                >(read@),
                Err(error) => ClientView::typed_outcome::<InitializeResponse>(message@) == Err::<
                    InitializeResponseView,
                    ACPClientErrorView,
                >(error@),
            },
    {
        proof {
            use_type_invariant(&*self);
        }
        match Self::typed_outcome::<InitializeResponse>(message) {
            Ok(read) => {
                if self.state == ConnectionState::Starting {
                    self.state = ConnectionState::Initialized;
                }
                Ok(read)
            },
            Err(error) => Err(error),
        }
    }

    /// Takes the response to `session/new`: the identifier that the agent
    /// gave the session.
    pub fn finish_new_session(message: ACPMessage) -> (result: Result<String, ACPClientError>)
        ensures
            match result {
                Ok(session_id) => ClientView::typed_outcome::<NewSessionResponse>(message@) matches Ok(
                    read,
                ) && read.session_id == session_id@,
                Err(error) => ClientView::typed_outcome::<NewSessionResponse>(message@) == Err::<
                    NewSessionResponseView,
                    ACPClientErrorView,
                >(error@),
            },
    {
        match Self::typed_outcome::<NewSessionResponse>(message) {
            Ok(read) => Ok(read.session_id),
            Err(error) => Err(error),
        }
    }

    /// The text of the agent's answer to a prompt to the session
    /// `session_id`, from the updates that came while the prompt was
    /// awaited.
    pub fn collect_response(
        initial_response: &PromptResponse,
        session_id: &str,
        updates: &Vec<SessionNotification>,
    ) -> (result: String)
        ensures
            result@ == collected_text(views(updates@), session_id@),
    {
        let mut result = String::new();
        let mut i: usize = 0;
        while i < updates.len()
            invariant
                i <= updates.len(),
                result@ == collected_text(views(updates@).take(i as int), session_id@),
            decreases updates.len() - i,
        {
            if text::same(updates[i].session_id.as_str(), session_id) {
                result.append(updates[i].update.message_text());
            }
            proof {
                let next = views(updates@).take(i + 1);
                assert(next.drop_last() =~= views(updates@).take(i as int));
                assert(next.last() == updates@[i as int]@);
                assert(result@ =~= collected_text(next, session_id@));
            }
            i += 1;
        }
        assert(views(updates@).take(i as int) =~= views(updates@));
        result
    }

    /// Takes the response to a prompt to the session `session_id`, and the
    /// updates that came while the prompt was awaited: the text of the
    /// agent's answer.
    pub fn finish_prompt(
        message: ACPMessage,
        session_id: &str,
        updates: &Vec<SessionNotification>,
    ) -> (result: Result<String, ACPClientError>)
        ensures
            match result {
                Ok(text) => ClientView::typed_outcome::<PromptResponse>(message@) is Ok && text@
                    == collected_text(views(updates@), session_id@),
                Err(error) => ClientView::typed_outcome::<PromptResponse>(message@) == Err::<
                    PromptResponseView,
                    ACPClientErrorView,
                >(error@),
            },
    {
        match Self::typed_outcome::<PromptResponse>(message) {
            Ok(read) => Ok(Self::collect_response(&read, session_id, updates)),
            Err(error) => Err(error),
        }
    }
}

} // verus!
