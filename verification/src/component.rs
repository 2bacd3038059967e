//! The request pipeline: from an inbound request to the upstream request, and
//! from the upstream response to the reply.

use crate::headers::header_texts;
use crate::json::{
    elements, error_text, json_shape, member, parse_bytes, parsed_json, parsed_json_bytes,
    record_of, record_value, text_value, JsonShape,
};
use crate::openai_payload::{
    choice_messages, decoded_response, fallback_message, first_message_or_fallback,
    lemma_token_limit_written_iff_set, lenient_message, message_shape, upstream_request_for,
    Message, MessageView, OpenAIPayload, OpenAIResponse, PayloadView, ResponseError,
    UpstreamRequest, UpstreamRequestView, CHOICES_KEY, MESSAGES_KEY, SYSTEM_ROLE,
};
use crate::settings::{
    settings_from_values, system_prompt_of, Settings, SettingsError, SettingsView, SETTINGS_HEADER,
};
use crate::status::{accepts_status, is_status_code};
use crate::text::{decode_lossy, lossy_text};
use http::header::{HeaderMap, HeaderValue};
use serde_json::Value;
use vstd::prelude::*;
use vstd::string::StringExecFns;

verus! {

/// Member of an error body that holds the message.
pub const ERROR_KEY: &'static str = "error";

/// Status of a reply to a request that the client got wrong.
pub const BAD_REQUEST: u16 = 400;

/// Status of a reply to a request that failed for any other reason.
pub const INTERNAL_SERVER_ERROR: u16 = 500;

/// Why a request got no answer from upstream.
#[derive(Debug)]
pub enum ComponentError {
    /// The deployment's settings could not be read.
    Config(SettingsError),
    /// The request body is not one JSON document; the text says why.
    InvalidBody(String),
    /// The request body holds no `messages`.
    MissingMessages,
    /// The request could not be sent upstream; the text says why.
    SendFailed(String),
    /// The upstream response could not be read.
    InvalidResponse(ResponseError),
    /// The upstream response came with a status that is no status code.
    InvalidStatus(u16),
}

impl ComponentError {
    /// The text that describes the error.
    pub open spec fn message(self) -> Seq<char> {
        match self {
            ComponentError::Config(error) => error.message(),
            ComponentError::InvalidBody(detail) => "Invalid request body: "@ + detail@,
            ComponentError::MissingMessages => "Missing 'messages' field in request body"@,
            ComponentError::SendFailed(detail) => "Failed to send OpenAI request: "@ + detail@,
            ComponentError::InvalidResponse(error) => "Could not parse OpenAI response: "@
                + error.message(),
            ComponentError::InvalidStatus(_) => "Invalid status code"@,
        }
    }

    /// The status that answers the error: 400 for what the client got
    /// wrong, 500 for everything else.
    pub open spec fn status(self) -> u16 {
        match self {
            ComponentError::InvalidBody(_) | ComponentError::MissingMessages => BAD_REQUEST,
            _ => INTERNAL_SERVER_ERROR,
        }
    }

    /// The body that answers the error: an object with the message under
    /// `error`.
    pub open spec fn body(self) -> JsonShape {
        JsonShape::Record(Map::empty().insert(ERROR_KEY@, JsonShape::Text(self.message())))
    }

    pub fn to_string(&self) -> (text: String)
        ensures
            text@ == self.message(),
    {
        match self {
            ComponentError::Config(error) => error.to_string(),
            ComponentError::InvalidBody(detail) => "Invalid request body: ".to_string().concat(
                detail.as_str(),
            ),
            ComponentError::MissingMessages => "Missing 'messages' field in request body".to_string(),
            ComponentError::SendFailed(detail) => "Failed to send OpenAI request: ".to_string().concat(
                detail.as_str(),
            ),
            ComponentError::InvalidResponse(error) => "Could not parse OpenAI response: ".to_string().concat(
                error.to_string().as_str(),
            ),
            ComponentError::InvalidStatus(_) => "Invalid status code".to_string(),
        }
    }

    pub fn status_code(&self) -> (status: u16)
        ensures
            status == self.status(),
    {
        match self {
            ComponentError::InvalidBody(_) | ComponentError::MissingMessages => BAD_REQUEST,
            _ => INTERNAL_SERVER_ERROR,
        }
    }

    /// Writes the error as the JSON object that answers it.
    pub fn to_json(&self) -> (value: Value)
        ensures
            json_shape(value) == self.body(),
    {
        let mut entries: Vec<(String, Value)> = Vec::new();
        entries.push((ERROR_KEY.to_string(), text_value(self.to_string().as_str())));
        proof {
            reveal_with_fuel(record_of, 2);
        }
        record_value(entries)
    }

    /// The reply that answers the error.
    pub fn reply(&self) -> (reply: Reply)
        ensures
            reply@ == (ReplyView { status: self.status(), body: self.body() }),
            is_status_code(reply.status),
    {
        Reply { status: self.status_code(), body: self.to_json() }
    }
}

/// What goes back to the caller: a status and a JSON body. A reply that the
/// adapter makes carries a status code.
#[derive(Debug)]
pub struct Reply {
    pub status: u16,
    pub body: Value,
}

/// The mathematical value of a [`Reply`].
pub struct ReplyView {
    pub status: u16,
    pub body: JsonShape,
}

impl View for Reply {
    type V = ReplyView;

    open spec fn view(&self) -> ReplyView {
        ReplyView { status: self.status, body: json_shape(self.body) }
    }
}

/// The messages that the `messages` member of a request body lists: one for
/// each element of an array, none for anything that is no array.
pub open spec fn listed_messages(listed: JsonShape, default_role: Seq<char>) -> Seq<MessageView> {
    match listed.items() {
        Some(items) => items.map_values(|item: JsonShape| lenient_message(item, default_role)),
        None => Seq::empty(),
    }
}

/// The conversation that a request body stands for, where it has a
/// `messages` member: the system prompt first, then the listed messages.
pub open spec fn normalized_messages(body: JsonShape, settings: SettingsView) -> Option<
    Seq<MessageView>,
> {
    match body.member(MESSAGES_KEY@) {
        Some(listed) => Some(
            seq![MessageView { role: SYSTEM_ROLE@, content: system_prompt_of(settings) }]
                + listed_messages(listed, settings.default_role),
        ),
        None => None,
    }
}

/// The upstream request that answers a request with these settings and this
/// body.
pub open spec fn upstream_request_of(settings: SettingsView, body: JsonShape) -> Result<
    UpstreamRequestView,
    ComponentError,
> {
    match normalized_messages(body, settings) {
        Some(messages) => Ok(
            upstream_request_for(
                PayloadView {
                    model: settings.model,
                    messages,
                    max_completion_tokens: settings.max_completion_tokens,
                },
                settings.api_hostname,
                settings.api_key,
            ),
        ),
        None => Err(ComponentError::MissingMessages),
    }
}

/// The upstream request that answers a request with these values of the
/// settings header and this body. The settings are read first: a header
/// that fails does so whatever the body holds.
pub open spec fn upstream_request_from(values: Seq<Option<Seq<char>>>, body: JsonShape) -> Result<
    UpstreamRequestView,
    ComponentError,
> {
    match settings_from_values(values) {
        Ok(settings) => upstream_request_of(settings, body),
        Err(error) => Err(ComponentError::Config(error)),
    }
}

/// Whether `prepared` is the outcome `expected`, the request taken by its
/// value.
pub open spec fn prepares(
    expected: Result<UpstreamRequestView, ComponentError>,
    prepared: Result<UpstreamRequest, ComponentError>,
) -> bool {
    match prepared {
        Ok(request) => expected == Ok::<UpstreamRequestView, ComponentError>(request@),
        Err(error) => expected == Err::<UpstreamRequestView, ComponentError>(error),
    }
}

/// The reply to the caller for an upstream status and a parsed upstream
/// body: the first choice's message, or the fallback, under the upstream's
/// status. A body that cannot be read fails first, then a status that is no
/// status code.
pub open spec fn reply_of(status: u16, shape: JsonShape) -> Result<ReplyView, ComponentError> {
    match decoded_response(shape) {
        Ok(choices) => if is_status_code(status) {
            Ok(ReplyView { status, body: message_shape(first_message_or_fallback(choices)) })
        } else {
            Err(ComponentError::InvalidStatus(status))
        },
        Err(error) => Err(ComponentError::InvalidResponse(error)),
    }
}

/// Whether `replied` is the outcome `expected`, the reply taken by its
/// value.
pub open spec fn replies(
    expected: Result<ReplyView, ComponentError>,
    replied: Result<Reply, ComponentError>,
) -> bool {
    match replied {
        Ok(reply) => expected == Ok::<ReplyView, ComponentError>(reply@),
        Err(error) => expected == Err::<ReplyView, ComponentError>(error),
    }
}

/// Whether `replied` is the outcome for an upstream status and raw body: the
/// body that is no JSON document fails as such, any other is answered as
/// [`reply_of`] says.
pub open spec fn answers(status: u16, body: Seq<u8>, replied: Result<Reply, ComponentError>) -> bool {
    match parsed_json(lossy_text(body)) {
        Some(shape) => replies(reply_of(status, shape), replied),
        None => replied matches Err(ComponentError::InvalidResponse(ResponseError::InvalidJson(_))),
    }
}

/// What came back from upstream: the status and the raw body.
#[derive(Debug)]
pub struct UpstreamResponse {
    pub status: u16,
    pub body: Vec<u8>,
}

/// The adapter between the caller and the upstream API.
pub struct Component;

impl Component {
    /// Turns the `messages` of a request body into the conversation sent
    /// upstream.
    pub fn normalize_messages(body: &Value, settings: &Settings) -> (normalized: Result<
        Vec<Message>,
        ComponentError,
    >)
        ensures
            match normalized_messages(json_shape(*body), settings@) {
                Some(messages) => normalized matches Ok(list) && list.deep_view() == messages,
                None => normalized matches Err(ComponentError::MissingMessages),
            },
            normalized matches Ok(list) ==> list.len() >= 1 && list[0]@ == (MessageView {
                role: SYSTEM_ROLE@,
                content: system_prompt_of(settings@),
            }),
            json_shape(*body).member(MESSAGES_KEY@) matches Some(JsonShape::List(items))
                ==> normalized matches Ok(list) && list.len() == items.len() + 1,
    {
        let listed = match member(body, MESSAGES_KEY) {
            Some(listed) => listed,
            None => {
                return Err(ComponentError::MissingMessages);
            },
        };
        let mut messages: Vec<Message> = Vec::new();
        match elements(listed) {
            Some(items) => {
                let mut i: usize = 0;
                while i < items.len()
                    invariant
                        i <= items.len(),
                        messages.len() == i,
                        forall|j: int|
                            0 <= j < i ==> (#[trigger] messages@[j])@ == lenient_message(
                                json_shape(items@[j]),
                                settings@.default_role,
                            ),
                    decreases items.len() - i,
                {
                    messages.push(Message::from_json(&items[i], settings.default_role.as_str()));
                    i += 1;
                }
            },
            None => {},
        }
        let system = Message::system(settings.system_prompt());
        messages.insert(0, system);
        Ok(messages)
    }

    /// The upstream request for the settings and the body of an inbound
    /// request.
    pub fn upstream_request_with(settings: Settings, body: &Value) -> (prepared: Result<
        UpstreamRequest,
        ComponentError,
    >)
        ensures
            prepares(upstream_request_of(settings@, json_shape(*body)), prepared),
    {
        let messages = match Self::normalize_messages(body, &settings) {
            Ok(messages) => messages,
            Err(error) => {
                return Err(error);
            },
        };
        let payload = OpenAIPayload::new(settings.model, messages, settings.max_completion_tokens);
        Ok(payload.request(settings.api_hostname, settings.api_key))
    }

    /// The upstream request for the headers and the parsed body of an
    /// inbound request.
    pub fn upstream_request(headers: &HeaderMap<HeaderValue>, body: &Value) -> (prepared: Result<
        UpstreamRequest,
        ComponentError,
    >)
        ensures
            prepares(
                upstream_request_from(
                    header_texts(*headers, SETTINGS_HEADER@),
                    json_shape(*body),
                ),
                prepared,
            ),
    {
        match Settings::new(headers) {
            Ok(settings) => Self::upstream_request_with(settings, body),
            Err(error) => Err(ComponentError::Config(error)),
        }
    }

    /// The upstream request for the headers and the raw body of an inbound
    /// request. The settings are read before the body is parsed.
    pub fn upstream_request_from_bytes(headers: &HeaderMap<HeaderValue>, body: &[u8]) -> (prepared:
        Result<UpstreamRequest, ComponentError>)
        ensures
            match settings_from_values(header_texts(*headers, SETTINGS_HEADER@)) {
                Ok(settings) => match parsed_json_bytes(body@) {
                    Some(shape) => prepares(upstream_request_of(settings, shape), prepared),
                    None => prepared matches Err(ComponentError::InvalidBody(_)),
                },
                Err(error) => prepared matches Err(ComponentError::Config(found)) && found
                    == error,
            },
    {
        let settings = match Settings::new(headers) {
            Ok(settings) => settings,
            Err(error) => {
                return Err(ComponentError::Config(error));
            },
        };
        match parse_bytes(body) {
            Ok(value) => Self::upstream_request_with(settings, &value),
            Err(error) => Err(ComponentError::InvalidBody(error_text(&error))),
        }
    }

    /// The reply to the caller for the status and the body that came back
    /// from upstream. The body is read as UTF-8, leniently, then as JSON.
    pub fn reply(status: u16, body: &[u8]) -> (replied: Result<Reply, ComponentError>)
        ensures
            answers(status, body@, replied),
    {
        let text = decode_lossy(body);
        match OpenAIResponse::from_json_string(text) {
            Ok(response) => if accepts_status(status) {
                Ok(Reply { status, body: response.first_choice_to_json() })
            } else {
                Err(ComponentError::InvalidStatus(status))
            },
            Err(error) => Err(ComponentError::InvalidResponse(error)),
        }
    }

    /// The reply to the caller for what sending the request upstream came
    /// to: a response is read, a failure to send is reported as such.
    pub fn reply_to(sent: Result<UpstreamResponse, String>) -> (replied: Result<
        Reply,
        ComponentError,
    >)
        ensures
            match sent {
                Ok(response) => answers(response.status, response.body@, replied),
                Err(detail) => replied matches Err(ComponentError::SendFailed(found)) && found
                    == detail,
            },
    {
        match sent {
            Ok(response) => Self::reply(response.status, response.body.as_slice()),
            Err(detail) => Err(ComponentError::SendFailed(detail)),
        }
    }

    /// What goes back to the caller in the end: the reply, or the reply that
    /// reports the error.
    pub fn respond(outcome: Result<Reply, ComponentError>) -> (reply: Reply)
        ensures
            match outcome {
                Ok(replied) => reply == replied,
                Err(error) => reply@ == (ReplyView { status: error.status(), body: error.body() })
                    && is_status_code(reply.status),
            },
    {
        match outcome {
            Ok(replied) => replied,
            Err(error) => error.reply(),
        }
    }
}

/// A request without a settings header fails on that account, whatever its
/// body holds.
pub proof fn lemma_missing_header_fails_for_any_body(body: JsonShape)
    ensures
        upstream_request_from(Seq::empty(), body) == Err::<UpstreamRequestView, ComponentError>(
            ComponentError::Config(SettingsError::MissingHeader),
        ),
        ComponentError::Config(SettingsError::MissingHeader).message()
            == SettingsError::MissingHeader.message(),
{
}

/// A body whose `messages` is an array gives one message more than the
/// array has elements, and the first has the role `system`.
pub proof fn lemma_normalized_messages_of_array(
    body: JsonShape,
    items: Seq<JsonShape>,
    settings: SettingsView,
)
    requires
        body.member(MESSAGES_KEY@) == Some(JsonShape::List(items)),
    ensures
        normalized_messages(body, settings) matches Some(messages) && {
            &&& messages.len() == items.len() + 1
            &&& messages[0].role == SYSTEM_ROLE@
            &&& messages[0].content == system_prompt_of(settings)
            &&& forall|i: int|
                0 <= i < items.len() ==> #[trigger] messages[i + 1] == lenient_message(
                    items[i],
                    settings.default_role,
                )
        },
{
}

/// Whatever `messages` holds, the conversation sent upstream is not empty
/// and opens with the system message: in the normalized messages, and in
/// the body of the upstream request.
pub proof fn lemma_conversation_opens_with_system(body: JsonShape, settings: SettingsView)
    requires
        body.member(MESSAGES_KEY@) is Some,
    ensures
        normalized_messages(body, settings) matches Some(messages) && {
            &&& messages.len() >= 1
            &&& messages[0] == (MessageView {
                role: SYSTEM_ROLE@,
                content: system_prompt_of(settings),
            })
        },
        upstream_request_of(settings, body) matches Ok(request) && request.body.member(
            MESSAGES_KEY@,
        ) matches Some(JsonShape::List(sent)) && {
            &&& sent.len() >= 1
            &&& sent[0] == message_shape(
                MessageView { role: SYSTEM_ROLE@, content: system_prompt_of(settings) },
            )
        },
{
    let messages = normalized_messages(body, settings).unwrap();
    let payload = PayloadView {
        model: settings.model,
        messages,
        max_completion_tokens: settings.max_completion_tokens,
    };
    lemma_token_limit_written_iff_set(payload);
}

/// An upstream response whose `choices` is an empty array is no error: it
/// holds no choice, the message that answers the caller is the fallback, and
/// under a status code the reply carries that message and that status.
pub proof fn lemma_no_choice_gives_fallback(status: u16, shape: JsonShape)
    requires
        shape.member(CHOICES_KEY@) == Some(JsonShape::List(Seq::empty())),
    ensures
        decoded_response(shape) == Ok::<Seq<MessageView>, ResponseError>(Seq::empty()),
        first_message_or_fallback(Seq::empty()) == fallback_message(),
        is_status_code(status) ==> reply_of(status, shape) == Ok::<ReplyView, ComponentError>(
            ReplyView { status, body: message_shape(fallback_message()) },
        ),
{
    assert(choice_messages(Seq::empty()) =~= Seq::empty());
}

} // verus!
