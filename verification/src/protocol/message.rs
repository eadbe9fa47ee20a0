//! The three kinds of message, their identifiers and outcomes.
//!
//! On the wire a message is one JSON object. Its member `jsonrpc` names the
//! kind: `request`, `response` or `notification`. A response carries either a
//! member `result` or a member `error`, never both and never neither.

use crate::json;
use crate::json::{json_of, json_parse, json_text, optional_json, single_line, Json};
use crate::protocol::codec::{
    decode_required, json_survives, optional_value, required, required_value, set_optional_value,
    Wire,
};
use crate::text;
use crate::text::trimmed;
use serde_json::Value;
use vstd::prelude::*;

verus! {

/// Identifies one outstanding request: an integer or a string.
#[derive(Debug)]
pub enum MessageId {
    Number(i64),
    String(String),
}

/// `MessageId` as a mathematical value.
pub enum MessageIdView {
    Number(i64),
    String(Seq<char>),
}

impl View for MessageId {
    type V = MessageIdView;

    open spec fn view(&self) -> MessageIdView {
        match self {
            MessageId::Number(number) => MessageIdView::Number(*number),
            MessageId::String(text) => MessageIdView::String(text@),
        }
    }
}

impl Clone for MessageId {
    fn clone(&self) -> (result: Self)
        ensures
            result@ == self@,
    {
        match self {
            MessageId::Number(number) => MessageId::Number(*number),
            MessageId::String(text) => MessageId::String(text.clone()),
        }
    }
}

impl MessageId {
    /// Whether two identifiers are the same.
    pub fn same(&self, other: &MessageId) -> (result: bool)
        ensures
            result == (self@ == other@),
    {
        match (self, other) {
            (MessageId::Number(left), MessageId::Number(right)) => *left == *right,
            (MessageId::String(left), MessageId::String(right)) => text::same(
                left.as_str(),
                right.as_str(),
            ),
            _ => false,
        }
    }

}

impl Wire for MessageId {
    open spec fn encode(model: MessageIdView) -> Json {
        match model {
            MessageIdView::Number(number) => Json::Int(number as int),
            MessageIdView::String(text) => Json::Str(text),
        }
    }

    /// An integer within `i64` is a number identifier, a string is a string
    /// identifier, and nothing else is an identifier.
    open spec fn decode(json: Json) -> Option<MessageIdView> {
        match json {
            Json::Int(number) => if i64::MIN <= number <= i64::MAX {
                Some(MessageIdView::Number(number as i64))
            } else {
                None
            },
            Json::Str(text) => Some(MessageIdView::String(text)),
            _ => None,
        }
    }

    open spec fn survives(model: MessageIdView) -> bool {
        true
    }

    proof fn lemma_survives(model: MessageIdView) {
    }

    fn to_json(&self) -> (result: Value) {
        match self {
            MessageId::Number(number) => json::integer(*number),
            MessageId::String(text) => json::string(text.as_str()),
        }
    }

    fn from_json(value: &Value) -> (result: Option<MessageId>) {
        match json::as_i64(value) {
            Some(number) => Some(MessageId::Number(number)),
            None => match json::as_str(value) {
                Some(text) => Some(MessageId::String(text.to_owned())),
                None => None,
            },
        }
    }
}

/// The error an agent reports in place of a result.
#[derive(Debug)]
pub struct ACPError {
    pub code: i64,
    pub message: String,
    pub data: Option<Value>,
}

/// `ACPError` as a mathematical value.
pub struct ACPErrorView {
    pub code: i64,
    pub message: Seq<char>,
    pub data: Option<Json>,
}

impl View for ACPError {
    type V = ACPErrorView;

    open spec fn view(&self) -> ACPErrorView {
        ACPErrorView {
            code: self.code,
            message: self.message@,
            data: optional_json(self.data),
        }
    }
}

impl Clone for ACPError {
    fn clone(&self) -> (result: Self)
        ensures
            result@ == self@,
    {
        ACPError {
            code: self.code,
            message: self.message.clone(),
            data: match &self.data {
                Some(data) => Some(json::copy(data)),
                None => None,
            },
        }
    }
}

impl Wire for ACPError {
    /// An object with `code` and `message`, and with `data` where there is
    /// any.
    open spec fn encode(model: ACPErrorView) -> Json {
        Json::empty_object().with("code"@, Json::Int(model.code as int)).with(
            "message"@,
            Json::Str(model.message),
        ).with_some("data"@, model.data)
    }

    /// `code` must be an integer within `i64` and `message` a string. A
    /// member `data` that is missing or null is no data.
    open spec fn decode(json: Json) -> Option<ACPErrorView> {
        match (decode_required::<i64>(json, "code"@), decode_required::<String>(json, "message"@)) {
            (Some(code), Some(message)) => Some(
                ACPErrorView { code, message, data: json.present("data"@) },
            ),
            _ => None,
        }
    }

    open spec fn survives(model: ACPErrorView) -> bool {
        json_survives(model.data)
    }

    proof fn lemma_survives(model: ACPErrorView) {
        lemma_message_names();
    }

    fn to_json(&self) -> (result: Value) {
        let mut object = json::object();
        json::set_member(&mut object, "code", self.code.to_json());
        json::set_member(&mut object, "message", self.message.to_json());
        set_optional_value(&mut object, "data", &self.data);
        object
    }

    fn from_json(value: &Value) -> (result: Option<ACPError>) {
        let code = match required::<i64>(value, "code") {
            Some(code) => code,
            None => return None,
        };
        let message = match required::<String>(value, "message") {
            Some(message) => message,
            None => return None,
        };
        Some(ACPError { code, message, data: optional_value(value, "data") })
    }
}

/// What a response carries: the result of the request, or the agent's error.
#[derive(Debug)]
pub enum ResponseResult {
    Success { result: Value },
    Error { error: ACPError },
}

/// `ResponseResult` as a mathematical value.
pub enum ResponseResultView {
    Success { result: Json },
    Error { error: ACPErrorView },
}

impl View for ResponseResult {
    type V = ResponseResultView;

    open spec fn view(&self) -> ResponseResultView {
        match self {
            ResponseResult::Success { result } => ResponseResultView::Success {
                result: json_of(*result),
            },
            ResponseResult::Error { error } => ResponseResultView::Error { error: error@ },
        }
    }
}

impl Clone for ResponseResult {
    fn clone(&self) -> (result: Self)
        ensures
            result@ == self@,
    {
        match self {
            ResponseResult::Success { result } => ResponseResult::Success {
                result: json::copy(result),
            },
            ResponseResult::Error { error } => ResponseResult::Error { error: error.clone() },
        }
    }
}

/// One message of the protocol.
#[derive(Debug)]
pub enum ACPMessage {
    Request { id: MessageId, method: String, params: Value },
    Response { id: MessageId, result: ResponseResult },
    Notification { method: String, params: Value },
}

/// `ACPMessage` as a mathematical value.
pub enum ACPMessageView {
    Request { id: MessageIdView, method: Seq<char>, params: Json },
    Response { id: MessageIdView, result: ResponseResultView },
    Notification { method: Seq<char>, params: Json },
}

impl View for ACPMessage {
    type V = ACPMessageView;

    open spec fn view(&self) -> ACPMessageView {
        match self {
            ACPMessage::Request { id, method, params } => ACPMessageView::Request {
                id: id@,
                method: method@,
                params: json_of(*params),
            },
            ACPMessage::Response { id, result } => ACPMessageView::Response {
                id: id@,
                result: result@,
            },
            ACPMessage::Notification { method, params } => ACPMessageView::Notification {
                method: method@,
                params: json_of(*params),
            },
        }
    }
}

impl ACPMessageView {
    /// A request has an identifier, a method name and parameters.
    pub open spec fn decode_request(json: Json) -> Option<ACPMessageView> {
        match (
            decode_required::<MessageId>(json, "id"@),
            decode_required::<String>(json, "method"@),
            json.member("params"@),
        ) {
            (Some(id), Some(method), Some(params)) => Some(
                ACPMessageView::Request { id, method, params },
            ),
            _ => None,
        }
    }

    /// A response has an identifier and exactly one of `result` and `error`.
    pub open spec fn decode_response(json: Json) -> Option<ACPMessageView> {
        match decode_required::<MessageId>(json, "id"@) {
            Some(id) => match (json.member("result"@), json.member("error"@)) {
                (Some(result), None) => Some(
                    ACPMessageView::Response { id, result: ResponseResultView::Success { result } },
                ),
                (None, Some(error)) => match ACPError::decode(error) {
                    Some(error) => Some(
                        ACPMessageView::Response {
                            id,
                            result: ResponseResultView::Error { error },
                        },
                    ),
                    None => None,
                },
                _ => None,
            },
            None => None,
        }
    }

    /// A notification has a method name and parameters.
    pub open spec fn decode_notification(json: Json) -> Option<ACPMessageView> {
        match (decode_required::<String>(json, "method"@), json.member("params"@)) {
            (Some(method), Some(params)) => Some(ACPMessageView::Notification { method, params }),
            _ => None,
        }
    }

    /// The line that carries the message, without the line's end: the
    /// compact text of the JSON object that stands for the message. `None`
    /// where that object has no text.
    pub open spec fn line(self) -> Option<Seq<char>> {
        json_text(ACPMessage::encode(self))
    }

    /// The message that one line of the agent's output stands for: the line
    /// without the whitespace around it must be one JSON document, and the
    /// document a message.
    pub open spec fn from_line(line: Seq<char>) -> Option<ACPMessageView> {
        match json_parse(trimmed(line)) {
            Some(json) => ACPMessage::decode(json),
            None => None,
        }
    }
}

impl Clone for ACPMessage {
    fn clone(&self) -> (result: Self)
        ensures
            result@ == self@,
    {
        match self {
            ACPMessage::Request { id, method, params } => ACPMessage::Request {
                id: id.clone(),
                method: method.clone(),
                params: json::copy(params),
            },
            ACPMessage::Response { id, result } => ACPMessage::Response {
                id: id.clone(),
                result: result.clone(),
            },
            ACPMessage::Notification { method, params } => ACPMessage::Notification {
                method: method.clone(),
                params: json::copy(params),
            },
        }
    }
}

impl ACPMessage {
    fn request_from_json(value: &Value) -> (result: Option<ACPMessage>)
        ensures
            match result {
                Some(message) => ACPMessageView::decode_request(json_of(*value)) == Some(message@),
                None => ACPMessageView::decode_request(json_of(*value)) is None,
            },
    {
        let id = match required::<MessageId>(value, "id") {
            Some(id) => id,
            None => return None,
        };
        let method = match required::<String>(value, "method") {
            Some(method) => method,
            None => return None,
        };
        let params = match required_value(value, "params") {
            Some(params) => params,
            None => return None,
        };
        Some(ACPMessage::Request { id, method, params })
    }

    fn response_from_json(value: &Value) -> (result: Option<ACPMessage>)
        ensures
            match result {
                Some(message) => ACPMessageView::decode_response(json_of(*value)) == Some(message@),
                None => ACPMessageView::decode_response(json_of(*value)) is None,
            },
    {
        let id = match required::<MessageId>(value, "id") {
            Some(id) => id,
            None => return None,
        };
        match (json::member(value, "result"), json::member(value, "error")) {
            (Some(result), None) => Some(
                ACPMessage::Response {
                    id,
                    result: ResponseResult::Success { result: json::copy(result) },
                },
            ),
            (None, Some(error)) => match ACPError::from_json(error) {
                Some(error) => Some(
                    ACPMessage::Response { id, result: ResponseResult::Error { error } },
                ),
                None => None,
            },
            _ => None,
        }
    }

    fn notification_from_json(value: &Value) -> (result: Option<ACPMessage>)
        ensures
            match result {
                Some(message) => ACPMessageView::decode_notification(json_of(*value)) == Some(
                    message@,
                ),
                None => ACPMessageView::decode_notification(json_of(*value)) is None,
            },
    {
        let method = match required::<String>(value, "method") {
            Some(method) => method,
            None => return None,
        };
        let params = match required_value(value, "params") {
            Some(params) => params,
            None => return None,
        };
        Some(ACPMessage::Notification { method, params })
    }

    /// Writes the message as one line of text, without the line's end: the
    /// compact text of the JSON object that stands for the message. The
    /// call fails exactly where that object has no text.
    pub fn to_line(&self) -> (result: Result<String, serde_json::Error>)
        ensures
            match result {
                Ok(line) => self@.line() == Some(line@) && single_line(line@),
                Err(_) => self@.line() is None,
            },
    {
        let value = self.to_json();
        json::to_text(&value)
    }

    /// Reads one line of the agent's output: `Some` exactly where the line
    /// stands for a message, and then that message.
    pub fn from_line(line: &str) -> (result: Option<ACPMessage>)
        ensures
            match result {
                Some(message) => ACPMessageView::from_line(line@) == Some(message@),
                None => ACPMessageView::from_line(line@) is None,
            },
    {
        match json::parse(text::trim(line)) {
            Ok(value) => Self::from_json(&value),
            Err(_) => None,
        }
    }
}

impl Wire for ACPMessage {
    /// The JSON object that stands for the message on the wire.
    open spec fn encode(model: ACPMessageView) -> Json {
        match model {
            ACPMessageView::Request { id, method, params } => Json::empty_object().with(
                "jsonrpc"@,
                Json::Str("request"@),
            ).with("id"@, MessageId::encode(id)).with("method"@, Json::Str(method)).with(
                "params"@,
                params,
            ),
            ACPMessageView::Response { id, result } => {
                let head = Json::empty_object().with("jsonrpc"@, Json::Str("response"@)).with(
                    "id"@,
                    MessageId::encode(id),
                );
                match result {
                    ResponseResultView::Success { result } => head.with("result"@, result),
                    ResponseResultView::Error { error } => head.with(
                        "error"@,
                        ACPError::encode(error),
                    ),
                }
            },
            ACPMessageView::Notification { method, params } => Json::empty_object().with(
                "jsonrpc"@,
                Json::Str("notification"@),
            ).with("method"@, Json::Str(method)).with("params"@, params),
        }
    }

    /// The message that a JSON document stands for, if it stands for one:
    /// the member `jsonrpc` names the kind, and the other members must be
    /// those of that kind.
    open spec fn decode(json: Json) -> Option<ACPMessageView> {
        match decode_required::<String>(json, "jsonrpc"@) {
            Some(kind) => if kind == "request"@ {
                ACPMessageView::decode_request(json)
            } else if kind == "response"@ {
                ACPMessageView::decode_response(json)
            } else if kind == "notification"@ {
                ACPMessageView::decode_notification(json)
            } else {
                None
            },
            None => None,
        }
    }

    /// A message does not survive the wire only where an error carries
    /// `null` as its data, which reads back as no data.
    open spec fn survives(model: ACPMessageView) -> bool {
        match model {
            ACPMessageView::Response { result: ResponseResultView::Error { error }, .. } => ACPError::survives(
                error,
            ),
            _ => true,
        }
    }

    proof fn lemma_survives(model: ACPMessageView) {
        lemma_message_names();
        let json = ACPMessage::encode(model);
        match model {
            ACPMessageView::Request { id, method, params } => {
                assert(json.member("jsonrpc"@) == Some(Json::Str("request"@)));
            },
            ACPMessageView::Response { id, result } => {
                assert(json.member("jsonrpc"@) == Some(Json::Str("response"@)));
                match result {
                    ResponseResultView::Success { result } => {},
                    ResponseResultView::Error { error } => {
                        ACPError::lemma_survives(error);
                    },
                }
            },
            ACPMessageView::Notification { method, params } => {
                assert(json.member("jsonrpc"@) == Some(Json::Str("notification"@)));
            },
        }
    }

    fn to_json(&self) -> (result: Value) {
        let mut object = json::object();
        match self {
            ACPMessage::Request { id, method, params } => {
                json::set_member(&mut object, "jsonrpc", json::string("request"));
                json::set_member(&mut object, "id", id.to_json());
                json::set_member(&mut object, "method", method.to_json());
                json::set_member(&mut object, "params", json::copy(params));
            },
            ACPMessage::Response { id, result } => {
                json::set_member(&mut object, "jsonrpc", json::string("response"));
                json::set_member(&mut object, "id", id.to_json());
                match result {
                    ResponseResult::Success { result } => {
                        json::set_member(&mut object, "result", json::copy(result));
                    },
                    ResponseResult::Error { error } => {
                        json::set_member(&mut object, "error", error.to_json());
                    },
                }
            },
            ACPMessage::Notification { method, params } => {
                json::set_member(&mut object, "jsonrpc", json::string("notification"));
                json::set_member(&mut object, "method", method.to_json());
                json::set_member(&mut object, "params", json::copy(params));
            },
        }
        object
    }

    fn from_json(value: &Value) -> (result: Option<ACPMessage>) {
        let kind = match required::<String>(value, "jsonrpc") {
            Some(kind) => kind,
            None => return None,
        };
        if text::same(kind.as_str(), "request") {
            Self::request_from_json(value)
        } else if text::same(kind.as_str(), "response") {
            Self::response_from_json(value)
        } else if text::same(kind.as_str(), "notification") {
            Self::notification_from_json(value)
        } else {
            None
        }
    }
}

/// The length and the first character of each name used on the wire: enough
/// to tell any two of them apart.
pub proof fn lemma_message_names()
    ensures
        "jsonrpc"@.len() == 7 && "jsonrpc"@[0] == 'j',
        "id"@.len() == 2 && "id"@[0] == 'i',
        "method"@.len() == 6 && "method"@[0] == 'm',
        "params"@.len() == 6 && "params"@[0] == 'p',
        "result"@.len() == 6 && "result"@[0] == 'r',
        "error"@.len() == 5 && "error"@[0] == 'e',
        "code"@.len() == 4 && "code"@[0] == 'c',
        "message"@.len() == 7 && "message"@[0] == 'm',
        "data"@.len() == 4 && "data"@[0] == 'd',
        "request"@.len() == 7 && "request"@[0] == 'r',
        "response"@.len() == 8 && "response"@[0] == 'r',
        "notification"@.len() == 12 && "notification"@[0] == 'n',
{
    reveal_strlit("jsonrpc");
    reveal_strlit("id");
    reveal_strlit("method");
    reveal_strlit("params");
    reveal_strlit("result");
    reveal_strlit("error");
    reveal_strlit("code");
    reveal_strlit("message");
    reveal_strlit("data");
    reveal_strlit("request");
    reveal_strlit("response");
    reveal_strlit("notification");
}

} // verus!
