//! The chat-completions payload sent upstream and the response that comes back.

use crate::json::{
    elements, encode, error_text, integer_value, json_encoding, json_shape, json_shapes,
    list_value, member, parse, parsed_json, record_of, record_value, text, text_value, JsonShape,
};
use crate::text::has_prefix;
use serde_json::Value;
use vstd::prelude::*;
use vstd::string::StringExecFns;

verus! {

/// Host that serves the chat-completions API when no override is configured.
pub const DEFAULT_HOST: &'static str = "api.openai.com";

/// Path of the chat-completions endpoint.
pub const ENDPOINT: &'static str = "/v1/chat/completions";

/// Scheme under which the upstream API is reached.
pub const SCHEME: &'static str = "https://";

/// Member of a message that names the speaker.
pub const ROLE_KEY: &'static str = "role";

/// Member of a message that holds what was said.
pub const CONTENT_KEY: &'static str = "content";

/// Member of a payload that names the model.
pub const MODEL_KEY: &'static str = "model";

/// Member of a payload or of a request body that holds the conversation.
pub const MESSAGES_KEY: &'static str = "messages";

/// Member of a payload that caps the completion's length.
pub const MAX_COMPLETION_TOKENS_KEY: &'static str = "max_completion_tokens";

/// Member of an upstream response that holds the choices.
pub const CHOICES_KEY: &'static str = "choices";

/// Member of a choice that holds its message.
pub const MESSAGE_KEY: &'static str = "message";

/// Role of the message that opens every conversation sent upstream.
pub const SYSTEM_ROLE: &'static str = "system";

/// One turn of a conversation.
#[derive(Debug, Clone)]
pub struct Message {
    pub role: String,
    pub content: String,
}

/// The mathematical value of a [`Message`].
pub struct MessageView {
    pub role: Seq<char>,
    pub content: Seq<char>,
}

impl View for Message {
    type V = MessageView;

    open spec fn view(&self) -> MessageView {
        MessageView { role: self.role@, content: self.content@ }
    }
}

impl DeepView for Message {
    type V = MessageView;

    open spec fn deep_view(&self) -> MessageView {
        self@
    }
}

/// The message sent back when the upstream response holds no choice.
pub open spec fn fallback_message() -> MessageView {
    MessageView { role: SYSTEM_ROLE@, content: "An error occurred"@ }
}

/// The characters of an optional JSON value where it is a string, `fallback`
/// where it is absent or anything else.
pub open spec fn text_or(found: Option<JsonShape>, fallback: Seq<char>) -> Seq<char> {
    match found {
        Some(JsonShape::Text(chars)) => chars,
        _ => fallback,
    }
}

/// The message that an element of a request's `messages` array stands for:
/// a missing or non-string `role` becomes `default_role`, a missing or
/// non-string `content` becomes the empty string.
pub open spec fn lenient_message(item: JsonShape, default_role: Seq<char>) -> MessageView {
    MessageView {
        role: text_or(item.member(ROLE_KEY@), default_role),
        content: text_or(item.member(CONTENT_KEY@), Seq::empty()),
    }
}

/// The message that a JSON object with a string `role` and a string
/// `content` holds; any other document holds none.
pub open spec fn strict_message(shape: JsonShape) -> Option<MessageView> {
    match (shape.member(ROLE_KEY@), shape.member(CONTENT_KEY@)) {
        (Some(JsonShape::Text(role)), Some(JsonShape::Text(content))) => Some(
            MessageView { role, content },
        ),
        _ => None,
    }
}

/// The JSON object that a message is written as.
pub open spec fn message_shape(message: MessageView) -> JsonShape {
    JsonShape::Record(
        Map::empty().insert(ROLE_KEY@, JsonShape::Text(message.role)).insert(
            CONTENT_KEY@,
            JsonShape::Text(message.content),
        ),
    )
}

/// The string member `key` of `item`, or `fallback`.
fn text_member_or(item: &Value, key: &str, fallback: &str) -> (chars: String)
    ensures
        chars@ == text_or(json_shape(*item).member(key@), fallback@),
{
    match member(item, key) {
        Some(inner) => match text(inner) {
            Some(chars) => chars.to_string(),
            None => fallback.to_string(),
        },
        None => fallback.to_string(),
    }
}

/// The string member `key` of `item`, if it has one.
fn text_member(item: &Value, key: &str) -> (chars: Option<String>)
    ensures
        chars.deep_view() == match json_shape(*item).member(key@) {
            Some(JsonShape::Text(found)) => Some(found),
            _ => None,
        },
{
    match member(item, key) {
        Some(inner) => match text(inner) {
            Some(chars) => Some(chars.to_string()),
            None => None,
        },
        None => None,
    }
}

impl Message {
    pub fn default_error_message() -> (message: Self)
        ensures
            message@ == fallback_message(),
    {
        Message { role: SYSTEM_ROLE.to_string(), content: "An error occurred".to_string() }
    }

    /// The system message that opens a conversation.
    pub fn system(content: String) -> (message: Self)
        ensures
            message@ == (MessageView { role: SYSTEM_ROLE@, content: content@ }),
    {
        Message { role: SYSTEM_ROLE.to_string(), content }
    }

    /// Reads one element of a request's `messages` array, leniently.
    pub fn from_json(item: &Value, default_role: &str) -> (message: Self)
        ensures
            message@ == lenient_message(json_shape(*item), default_role@),
    {
        proof {
            reveal_strlit("");
            assert(""@ =~= Seq::<char>::empty());
        }
        let content = text_member_or(item, CONTENT_KEY, "");
        let role = text_member_or(item, ROLE_KEY, default_role);
        Message { role, content }
    }

    /// Reads a message from a JSON object that must hold both members as
    /// strings.
    pub fn from_json_strict(item: &Value) -> (message: Option<Self>)
        ensures
            message.deep_view() == strict_message(json_shape(*item)),
    {
        match text_member(item, ROLE_KEY) {
            Some(role) => match text_member(item, CONTENT_KEY) {
                Some(content) => Some(Message { role, content }),
                None => None,
            },
            None => None,
        }
    }

    /// Writes the message as a JSON object with the members `role` and
    /// `content`.
    pub fn to_json(&self) -> (value: Value)
        ensures
            json_shape(value) == message_shape(self@),
    {
        let mut entries: Vec<(String, Value)> = Vec::new();
        entries.push((ROLE_KEY.to_string(), text_value(self.role.as_str())));
        entries.push((CONTENT_KEY.to_string(), text_value(self.content.as_str())));
        proof {
            reveal_strlit("role");
            reveal_strlit("content");
            reveal_with_fuel(record_of, 3);
            assert(entries@[0].0@.len() == 4 && entries@[1].0@.len() == 7);
        }
        record_value(entries)
    }
}

/// The endpoint for an optional host override: the override, or the default
/// host, followed by the path, under `https://` exactly once.
pub open spec fn endpoint_for(hostname: Option<Seq<char>>) -> Seq<char> {
    let host = match hostname {
        Some(host) => host,
        None => DEFAULT_HOST@,
    };
    if SCHEME@.is_prefix_of(host) {
        host + ENDPOINT@
    } else {
        SCHEME@ + host + ENDPOINT@
    }
}

/// The body of a chat-completions request.
#[derive(Debug, Clone)]
pub struct OpenAIPayload {
    pub model: String,
    pub messages: Vec<Message>,
    pub max_completion_tokens: Option<u32>,
}

/// The mathematical value of an [`OpenAIPayload`].
pub struct PayloadView {
    pub model: Seq<char>,
    pub messages: Seq<MessageView>,
    pub max_completion_tokens: Option<u32>,
}

impl View for OpenAIPayload {
    type V = PayloadView;

    open spec fn view(&self) -> PayloadView {
        PayloadView {
            model: self.model@,
            messages: self.messages.deep_view(),
            max_completion_tokens: self.max_completion_tokens,
        }
    }
}

/// The JSON objects that a conversation is written as, in order.
pub open spec fn message_shapes(messages: Seq<MessageView>) -> Seq<JsonShape> {
    messages.map_values(|message: MessageView| message_shape(message))
}

/// The JSON object that a payload is written as: `model` and `messages`
/// always, `max_completion_tokens` only where a limit is set.
pub open spec fn payload_shape(payload: PayloadView) -> JsonShape {
    let required = Map::empty().insert(MODEL_KEY@, JsonShape::Text(payload.model)).insert(
        MESSAGES_KEY@,
        JsonShape::List(message_shapes(payload.messages)),
    );
    JsonShape::Record(
        match payload.max_completion_tokens {
            Some(limit) => required.insert(
                MAX_COMPLETION_TOKENS_KEY@,
                JsonShape::Integer(limit as int),
            ),
            None => required,
        },
    )
}

/// Header that names the body's media type.
pub const CONTENT_TYPE_HEADER: &'static str = "Content-Type";

/// Media type of a JSON body.
pub const JSON_CONTENT_TYPE: &'static str = "application/json";

/// Header that carries the credentials.
pub const AUTHORIZATION_HEADER: &'static str = "Authorization";

/// What precedes the key in the credentials.
pub const BEARER_PREFIX: &'static str = "Bearer ";

/// A POST request to the upstream API, ready to be sent.
#[derive(Debug)]
pub struct UpstreamRequest {
    pub endpoint: String,
    pub headers: Vec<(String, String)>,
    pub body: Value,
}

/// The mathematical value of an [`UpstreamRequest`].
pub struct UpstreamRequestView {
    pub endpoint: Seq<char>,
    pub headers: Seq<(Seq<char>, Seq<char>)>,
    pub body: JsonShape,
}

impl View for UpstreamRequest {
    type V = UpstreamRequestView;

    open spec fn view(&self) -> UpstreamRequestView {
        UpstreamRequestView {
            endpoint: self.endpoint@,
            headers: self.headers.deep_view(),
            body: json_shape(self.body),
        }
    }
}

/// The headers of an upstream request: the JSON media type, then the key as
/// a bearer token.
pub open spec fn request_headers(api_key: Seq<char>) -> Seq<(Seq<char>, Seq<char>)> {
    seq![
        (CONTENT_TYPE_HEADER@, JSON_CONTENT_TYPE@),
        (AUTHORIZATION_HEADER@, BEARER_PREFIX@ + api_key),
    ]
}

/// The upstream request for a payload, an optional host override and a key.
pub open spec fn upstream_request_for(
    payload: PayloadView,
    hostname: Option<Seq<char>>,
    api_key: Seq<char>,
) -> UpstreamRequestView {
    UpstreamRequestView {
        endpoint: endpoint_for(hostname),
        headers: request_headers(api_key),
        body: payload_shape(payload),
    }
}

impl UpstreamRequest {
    /// The bytes of the body, as they go over the wire: the compact JSON
    /// text of the body. Where the body cannot be written, and only there,
    /// the text of the error comes back.
    pub fn body_bytes(&self) -> (written: Result<Vec<u8>, String>)
        ensures
            match written {
                Ok(bytes) => json_encoding(self.body) == Some(bytes@),
                Err(_) => json_encoding(self.body) is None,
            },
    {
        match encode(&self.body) {
            Ok(bytes) => Ok(bytes),
            Err(error) => Err(error_text(&error)),
        }
    }
}

impl OpenAIPayload {
    pub fn new(model: String, messages: Vec<Message>, max_completion_tokens: Option<u32>) -> (payload:
        Self)
        ensures
            payload.model == model,
            payload.messages == messages,
            payload.max_completion_tokens == max_completion_tokens,
    {
        OpenAIPayload { model, messages, max_completion_tokens }
    }

    pub fn generate_endpoint(&self, hostname: Option<String>) -> (endpoint: String)
        ensures
            endpoint@ == endpoint_for(hostname.deep_view()),
    {
        let host = match hostname {
            Some(host) => host,
            None => DEFAULT_HOST.to_string(),
        };
        if has_prefix(host.as_str(), SCHEME) {
            host.concat(ENDPOINT)
        } else {
            SCHEME.to_string().concat(host.as_str()).concat(ENDPOINT)
        }
    }

    /// The request that carries the payload upstream: a POST to the
    /// endpoint, as JSON, with the key as a bearer token.
    pub fn request(&self, hostname: Option<String>, api_key: String) -> (request: UpstreamRequest)
        ensures
            request@ == upstream_request_for(self@, hostname.deep_view(), api_key@),
    {
        let endpoint = self.generate_endpoint(hostname);
        let mut headers: Vec<(String, String)> = Vec::new();
        headers.push((CONTENT_TYPE_HEADER.to_string(), JSON_CONTENT_TYPE.to_string()));
        headers.push(
            (AUTHORIZATION_HEADER.to_string(), BEARER_PREFIX.to_string().concat(api_key.as_str())),
        );
        let request = UpstreamRequest { endpoint, headers, body: self.to_json() };
        assert(request@.headers =~= request_headers(api_key@));
        request
    }

    /// Writes the payload as the JSON object that the upstream API expects.
    pub fn to_json(&self) -> (value: Value)
        ensures
            json_shape(value) == payload_shape(self@),
    {
        let mut items: Vec<Value> = Vec::new();
        let mut i: usize = 0;
        while i < self.messages.len()
            invariant
                i <= self.messages.len(),
                items.len() == i,
                forall|j: int|
                    0 <= j < i ==> json_shape(#[trigger] items@[j]) == message_shape(
                        self.messages@[j]@,
                    ),
            decreases self.messages.len() - i,
        {
            items.push(self.messages[i].to_json());
            i += 1;
        }
        assert(json_shapes(items@) =~= message_shapes(self@.messages));
        let mut entries: Vec<(String, Value)> = Vec::new();
        entries.push((MODEL_KEY.to_string(), text_value(self.model.as_str())));
        entries.push((MESSAGES_KEY.to_string(), list_value(items)));
        proof {
            reveal_strlit("model");
            reveal_strlit("messages");
            reveal_strlit("max_completion_tokens");
            reveal_with_fuel(record_of, 4);
            assert(entries@[0].0@.len() == 5 && entries@[1].0@.len() == 8);
        }
        match self.max_completion_tokens {
            Some(limit) => {
                let ghost required = entries@;
                entries.push((MAX_COMPLETION_TOKENS_KEY.to_string(), integer_value(limit)));
                proof {
                    assert(entries@.drop_last() =~= required);
                }
            },
            None => {},
        }
        record_value(entries)
    }
}

/// A payload holds the token limit under `max_completion_tokens` exactly
/// when one is set, and then as the number itself; with no limit the key is
/// absent from the object.
pub proof fn lemma_token_limit_written_iff_set(payload: PayloadView)
    ensures
        payload.max_completion_tokens is None ==> payload_shape(payload).member(
            MAX_COMPLETION_TOKENS_KEY@,
        ) is None,
        payload.max_completion_tokens matches Some(limit) ==> payload_shape(payload).member(
            MAX_COMPLETION_TOKENS_KEY@,
        ) == Some(JsonShape::Integer(limit as int)),
        payload_shape(payload).member(MODEL_KEY@) == Some(JsonShape::Text(payload.model)),
        payload_shape(payload).member(MESSAGES_KEY@) == Some(
            JsonShape::List(message_shapes(payload.messages)),
        ),
{
    reveal_strlit("model");
    reveal_strlit("messages");
    reveal_strlit("max_completion_tokens");
    assert(MODEL_KEY@.len() == 5 && MESSAGES_KEY@.len() == 8 && MAX_COMPLETION_TOKENS_KEY@.len()
        == 21);
}

/// One alternative completion in an upstream response.
#[derive(Debug)]
pub struct OpenAIChoice {
    pub message: Message,
}

impl DeepView for OpenAIChoice {
    type V = MessageView;

    open spec fn deep_view(&self) -> MessageView {
        self.message@
    }
}

/// What the upstream API answered, as far as the adapter reads it.
#[derive(Debug)]
pub struct OpenAIResponse {
    pub choices: Vec<OpenAIChoice>,
}

impl View for OpenAIResponse {
    type V = Seq<MessageView>;

    open spec fn view(&self) -> Seq<MessageView> {
        self.choices.deep_view()
    }
}

/// Why an upstream response could not be read.
#[derive(Debug)]
pub enum ResponseError {
    /// The body is not one JSON document; the text says why.
    InvalidJson(String),
    /// The document is no object with a `choices` member.
    MissingChoices,
    /// The `choices` member is no array.
    InvalidChoices,
    /// Some choice holds no `message` with a string `role` and a string
    /// `content`.
    InvalidChoice,
}

impl ResponseError {
    /// The text that describes the error.
    pub open spec fn message(self) -> Seq<char> {
        match self {
            ResponseError::InvalidJson(detail) => detail@,
            ResponseError::MissingChoices => "missing field `choices`"@,
            ResponseError::InvalidChoices => "invalid type for `choices`, expected an array"@,
            ResponseError::InvalidChoice => "invalid choice, expected a `message` with a string `role` and a string `content`"@,
        }
    }

    pub fn to_string(&self) -> (text: String)
        ensures
            text@ == self.message(),
    {
        match self {
            ResponseError::InvalidJson(detail) => detail.clone(),
            ResponseError::MissingChoices => "missing field `choices`".to_string(),
            ResponseError::InvalidChoices => "invalid type for `choices`, expected an array".to_string(),
            ResponseError::InvalidChoice => "invalid choice, expected a `message` with a string `role` and a string `content`".to_string(),
        }
    }
}

/// The message of a choice, where the choice is an object whose `message`
/// holds one.
pub open spec fn choice_message(choice: JsonShape) -> Option<MessageView> {
    match choice.member(MESSAGE_KEY@) {
        Some(message) => strict_message(message),
        None => None,
    }
}

/// Whether every element of `items` holds a message.
pub open spec fn all_choices_valid(items: Seq<JsonShape>) -> bool {
    forall|i: int| 0 <= i < items.len() ==> (#[trigger] choice_message(items[i])) is Some
}

/// The messages of the choices in `items`, in order.
pub open spec fn choice_messages(items: Seq<JsonShape>) -> Seq<MessageView> {
    items.map_values(|choice: JsonShape| choice_message(choice).unwrap())
}

/// The choices that a JSON document holds as an upstream response, or the
/// first reason why it holds none.
pub open spec fn decoded_response(shape: JsonShape) -> Result<Seq<MessageView>, ResponseError> {
    match shape.member(CHOICES_KEY@) {
        None => Err(ResponseError::MissingChoices),
        Some(choices) => match choices.items() {
            None => Err(ResponseError::InvalidChoices),
            Some(items) => if all_choices_valid(items) {
                Ok(choice_messages(items))
            } else {
                Err(ResponseError::InvalidChoice)
            },
        },
    }
}

/// Whether `decoded` is what reading `shape` as an upstream response gives.
pub open spec fn decodes_to(shape: JsonShape, decoded: Result<OpenAIResponse, ResponseError>) -> bool {
    match decoded {
        Ok(response) => decoded_response(shape) == Ok::<Seq<MessageView>, ResponseError>(
            response@,
        ),
        Err(error) => decoded_response(shape) == Err::<Seq<MessageView>, ResponseError>(error),
    }
}

/// The message that answers the caller: the first choice's, or the fallback
/// where there is no choice.
pub open spec fn first_message_or_fallback(choices: Seq<MessageView>) -> MessageView {
    if choices.len() > 0 {
        choices[0]
    } else {
        fallback_message()
    }
}

impl OpenAIChoice {
    /// Reads one element of the `choices` array.
    pub fn from_json(item: &Value) -> (choice: Option<Self>)
        ensures
            choice.deep_view() == choice_message(json_shape(*item)),
    {
        match member(item, MESSAGE_KEY) {
            Some(inner) => match Message::from_json_strict(inner) {
                Some(message) => Some(OpenAIChoice { message }),
                None => None,
            },
            None => None,
        }
    }
}

impl OpenAIResponse {
    pub fn from_json_string(response_body: String) -> (decoded: Result<Self, ResponseError>)
        ensures
            match parsed_json(response_body@) {
                Some(shape) => decodes_to(shape, decoded),
                None => decoded matches Err(ResponseError::InvalidJson(_)),
            },
    {
        match parse(response_body.as_str()) {
            Ok(value) => Self::from_json(&value),
            Err(error) => Err(ResponseError::InvalidJson(error_text(&error))),
        }
    }

    /// Reads an upstream response from a parsed JSON document.
    pub fn from_json(value: &Value) -> (decoded: Result<Self, ResponseError>)
        ensures
            decodes_to(json_shape(*value), decoded),
    {
        let listed = match member(value, CHOICES_KEY) {
            Some(listed) => listed,
            None => {
                return Err(ResponseError::MissingChoices);
            },
        };
        let items = match elements(listed) {
            Some(items) => items,
            None => {
                return Err(ResponseError::InvalidChoices);
            },
        };
        let ghost shapes = json_shapes(items@);
        let mut choices: Vec<OpenAIChoice> = Vec::new();
        let mut i: usize = 0;
        while i < items.len()
            invariant
                i <= items.len(),
                choices.len() == i,
                shapes == json_shapes(items@),
                json_shape(*value).member(CHOICES_KEY@) == Some(json_shape(*listed)),
                json_shape(*listed).items() == Some(shapes),
                forall|j: int|
                    0 <= j < i ==> choice_message(shapes[j]) == Some(
                        (#[trigger] choices@[j]).message@,
                    ),
            decreases items.len() - i,
        {
            match OpenAIChoice::from_json(&items[i]) {
                Some(choice) => {
                    choices.push(choice);
                },
                None => {
                    assert(choice_message(shapes[i as int]) is None);
                    return Err(ResponseError::InvalidChoice);
                },
            }
            i += 1;
        }
        let response = OpenAIResponse { choices };
        proof {
            assert forall|j: int| 0 <= j < shapes.len() implies (#[trigger] choice_message(
                shapes[j],
            )) is Some by {
                assert(choice_message(shapes[j]) == Some(choices@[j].message@));
            }
            assert(response@ =~= choice_messages(shapes));
        }
        Ok(response)
    }

    pub fn first_choice_to_json(&self) -> (value: Value)
        ensures
            json_shape(value) == message_shape(first_message_or_fallback(self@)),
    {
        if self.choices.len() > 0 {
            self.choices[0].message.to_json()
        } else {
            Message::default_error_message().to_json()
        }
    }
}

} // verus!
