//! Deployment settings, read from one request header.

use crate::headers::{header_texts, header_values};
use crate::json::{parse_string_map, parsed_string_map};
use crate::text::{decimal_u32, parse_u32};
use http::header::{HeaderMap, HeaderValue};
use vstd::hash_map::StringHashMap;
use vstd::prelude::*;

verus! {

/// Header that carries the settings as a JSON object of strings.
pub const SETTINGS_HEADER: &'static str = "x-edgee-component-settings";

/// Setting that holds the bearer key of the upstream API.
pub const API_KEY_SETTING: &'static str = "api_key";

/// Setting that names the model.
pub const MODEL_SETTING: &'static str = "model";

/// Setting that caps the completion's length, as a decimal numeral.
pub const MAX_COMPLETION_TOKENS_SETTING: &'static str = "max_completion_tokens";

/// Setting that names the role of messages that carry none.
pub const DEFAULT_ROLE_SETTING: &'static str = "default_role";

/// Setting that holds the system prompt.
pub const DEFAULT_SYSTEM_PROMPT_SETTING: &'static str = "default_system_prompt";

/// Setting that overrides the upstream host.
pub const API_HOSTNAME_SETTING: &'static str = "api_hostname";

/// Role given to messages where the settings name none.
pub const DEFAULT_ROLE: &'static str = "user";

/// System prompt used where the settings hold none.
pub const DEFAULT_SYSTEM_PROMPT: &'static str = "You are a helpful assistant.";

/// The settings of one deployment.
///
/// Both `api_key` and `model` are required, and the settings header must
/// occur exactly once.
#[derive(Debug)]
pub struct Settings {
    pub api_key: String,
    pub model: String,
    pub max_completion_tokens: Option<u32>,
    pub default_role: String,
    pub default_system_prompt: Option<String>,
    pub api_hostname: Option<String>,
}

/// The mathematical value of [`Settings`].
pub struct SettingsView {
    pub api_key: Seq<char>,
    pub model: Seq<char>,
    pub max_completion_tokens: Option<u32>,
    pub default_role: Seq<char>,
    pub default_system_prompt: Option<Seq<char>>,
    pub api_hostname: Option<Seq<char>>,
}

impl View for Settings {
    type V = SettingsView;

    open spec fn view(&self) -> SettingsView {
        SettingsView {
            api_key: self.api_key@,
            model: self.model@,
            max_completion_tokens: self.max_completion_tokens,
            default_role: self.default_role@,
            default_system_prompt: self.default_system_prompt.deep_view(),
            api_hostname: self.api_hostname.deep_view(),
        }
    }
}

/// Why no settings could be read.
#[derive(Debug, Clone, Copy, PartialEq, Eq, Structural)]
pub enum SettingsError {
    /// The request carries no settings header.
    MissingHeader,
    /// The request carries the settings header more than once.
    RepeatedHeader,
    /// The header's value holds bytes that are no visible ASCII.
    UnreadableHeader,
    /// The header's value is no JSON object of strings.
    InvalidJson,
    /// The settings hold no `api_key`.
    MissingApiKey,
    /// The settings hold no `model`.
    MissingModel,
}

impl SettingsError {
    /// The text that describes the error.
    pub open spec fn message(self) -> Seq<char> {
        match self {
            SettingsError::MissingHeader => "Missing 'x-edgee-component-settings' header"@,
            SettingsError::RepeatedHeader => "Expected exactly one 'x-edgee-component-settings' header"@,
            SettingsError::UnreadableHeader => "Failed to convert header to a str"@,
            SettingsError::InvalidJson => "Invalid settings JSON"@,
            SettingsError::MissingApiKey => "Missing api_key setting"@,
            SettingsError::MissingModel => "Missing model setting"@,
        }
    }

    pub fn to_string(&self) -> (text: String)
        ensures
            text@ == self.message(),
    {
        match self {
            SettingsError::MissingHeader => "Missing 'x-edgee-component-settings' header".to_string(),
            SettingsError::RepeatedHeader => "Expected exactly one 'x-edgee-component-settings' header".to_string(),
            SettingsError::UnreadableHeader => "Failed to convert header to a str".to_string(),
            SettingsError::InvalidJson => "Invalid settings JSON".to_string(),
            SettingsError::MissingApiKey => "Missing api_key setting".to_string(),
            SettingsError::MissingModel => "Missing model setting".to_string(),
        }
    }
}

/// The value stored under `key`, if there is one.
pub open spec fn entry(entries: Map<Seq<char>, Seq<char>>, key: Seq<char>) -> Option<Seq<char>> {
    if entries.contains_key(key) {
        Some(entries[key])
    } else {
        None
    }
}

/// The value stored under `key`, if there is one and it is not empty.
pub open spec fn non_empty_entry(entries: Map<Seq<char>, Seq<char>>, key: Seq<char>) -> Option<
    Seq<char>,
> {
    if entries.contains_key(key) && entries[key].len() > 0 {
        Some(entries[key])
    } else {
        None
    }
}

/// The settings that a map of entries holds: `api_key` and `model` as they
/// stand, the token limit where it is a numeral, the default role or
/// `user`, and the system prompt and the host where they are not empty.
pub open spec fn settings_from_entries(entries: Map<Seq<char>, Seq<char>>) -> Result<
    SettingsView,
    SettingsError,
> {
    if !entries.contains_key(API_KEY_SETTING@) {
        Err(SettingsError::MissingApiKey)
    } else if !entries.contains_key(MODEL_SETTING@) {
        Err(SettingsError::MissingModel)
    } else {
        Ok(
            SettingsView {
                api_key: entries[API_KEY_SETTING@],
                model: entries[MODEL_SETTING@],
                max_completion_tokens: match entry(entries, MAX_COMPLETION_TOKENS_SETTING@) {
                    Some(numeral) => decimal_u32(numeral),
                    None => None,
                },
                default_role: match entry(entries, DEFAULT_ROLE_SETTING@) {
                    Some(role) => role,
                    None => DEFAULT_ROLE@,
                },
                default_system_prompt: non_empty_entry(entries, DEFAULT_SYSTEM_PROMPT_SETTING@),
                api_hostname: non_empty_entry(entries, API_HOSTNAME_SETTING@),
            },
        )
    }
}

/// The settings that the text of a settings header holds.
pub open spec fn settings_from_text(text: Seq<char>) -> Result<SettingsView, SettingsError> {
    match parsed_string_map(text) {
        Some(entries) => settings_from_entries(entries),
        None => Err(SettingsError::InvalidJson),
    }
}

/// The settings that the values of the settings header hold: there must be
/// exactly one value, and it must be text.
pub open spec fn settings_from_values(values: Seq<Option<Seq<char>>>) -> Result<
    SettingsView,
    SettingsError,
> {
    if values.len() == 0 {
        Err(SettingsError::MissingHeader)
    } else if values.len() > 1 {
        Err(SettingsError::RepeatedHeader)
    } else {
        match values[0] {
            Some(text) => settings_from_text(text),
            None => Err(SettingsError::UnreadableHeader),
        }
    }
}

/// Whether `resolved` is the outcome `expected`, settings taken by their
/// value.
pub open spec fn resolves_to(
    expected: Result<SettingsView, SettingsError>,
    resolved: Result<Settings, SettingsError>,
) -> bool {
    match resolved {
        Ok(settings) => expected == Ok::<SettingsView, SettingsError>(settings@),
        Err(error) => expected == Err::<SettingsView, SettingsError>(error),
    }
}

/// The texts of the entries of a map of strings.
pub open spec fn entry_texts(entries: Map<Seq<char>, String>) -> Map<Seq<char>, Seq<char>> {
    entries.map_values(|value: String| value@)
}

/// A copy of the value stored under `key`, if there is one.
fn entry_of(entries: &StringHashMap<String>, key: &str) -> (found: Option<String>)
    ensures
        found.deep_view() == entry(entry_texts(entries@), key@),
{
    match entries.get(key) {
        Some(value) => Some(value.clone()),
        None => None,
    }
}

/// A copy of the value stored under `key`, if there is one and it is not
/// empty.
fn non_empty_entry_of(entries: &StringHashMap<String>, key: &str) -> (found: Option<String>)
    ensures
        found.deep_view() == non_empty_entry(entry_texts(entries@), key@),
{
    match entries.get(key) {
        Some(value) => if value.as_str().is_empty() {
            None
        } else {
            Some(value.clone())
        },
        None => None,
    }
}

impl Settings {
    /// Reads the settings from the headers of a request.
    pub fn new(headers: &HeaderMap<HeaderValue>) -> (resolved: Result<Self, SettingsError>)
        ensures
            resolves_to(settings_from_values(header_texts(*headers, SETTINGS_HEADER@)), resolved),
    {
        let values = header_values(headers, SETTINGS_HEADER);
        Self::from_header_values(&values)
    }

    /// Reads the settings from a request, whatever its body is. The outcome
    /// is that of [`Settings::new`] on the request's headers.
    pub fn from_req<B>(req: &http::Request<B>) -> (resolved: Result<Self, SettingsError>)
        ensures
            exists|headers: HeaderMap<HeaderValue>|
                resolves_to(
                    settings_from_values(#[trigger] header_texts(headers, SETTINGS_HEADER@)),
                    resolved,
                ),
    {
        Self::new(req.headers())
    }

    /// Reads the settings from the values that a request carries under the
    /// settings header.
    pub fn from_header_values(values: &Vec<Option<String>>) -> (resolved: Result<
        Self,
        SettingsError,
    >)
        ensures
            resolves_to(settings_from_values(values.deep_view()), resolved),
    {
        if values.len() == 0 {
            Err(SettingsError::MissingHeader)
        } else if values.len() > 1 {
            Err(SettingsError::RepeatedHeader)
        } else {
            match &values[0] {
                Some(text) => Self::from_json_text(text.as_str()),
                None => Err(SettingsError::UnreadableHeader),
            }
        }
    }

    /// Reads the settings from the text of the settings header.
    pub fn from_json_text(text: &str) -> (resolved: Result<Self, SettingsError>)
        ensures
            resolves_to(settings_from_text(text@), resolved),
    {
        match parse_string_map(text) {
            Ok(entries) => Self::from_entries(&entries),
            Err(_) => Err(SettingsError::InvalidJson),
        }
    }

    /// Reads the settings from the entries of the settings object.
    pub fn from_entries(entries: &StringHashMap<String>) -> (resolved: Result<Self, SettingsError>)
        ensures
            resolves_to(settings_from_entries(entry_texts(entries@)), resolved),
    {
        let api_key = match entry_of(entries, API_KEY_SETTING) {
            Some(api_key) => api_key,
            None => {
                return Err(SettingsError::MissingApiKey);
            },
        };
        let model = match entry_of(entries, MODEL_SETTING) {
            Some(model) => model,
            None => {
                return Err(SettingsError::MissingModel);
            },
        };
        let max_completion_tokens = match entry_of(entries, MAX_COMPLETION_TOKENS_SETTING) {
            Some(numeral) => parse_u32(numeral.as_str()),
            None => None,
        };
        let default_role = match entry_of(entries, DEFAULT_ROLE_SETTING) {
            Some(role) => role,
            None => DEFAULT_ROLE.to_string(),
        };
        let default_system_prompt = non_empty_entry_of(entries, DEFAULT_SYSTEM_PROMPT_SETTING);
        let api_hostname = non_empty_entry_of(entries, API_HOSTNAME_SETTING);
        Ok(
            Settings {
                api_key,
                model,
                max_completion_tokens,
                default_role,
                default_system_prompt,
                api_hostname,
            },
        )
    }

    /// The system prompt that opens the conversation: the configured one, or
    /// the default.
    pub fn system_prompt(&self) -> (prompt: String)
        ensures
            prompt@ == system_prompt_of(self@),
    {
        match &self.default_system_prompt {
            Some(prompt) => prompt.clone(),
            None => DEFAULT_SYSTEM_PROMPT.to_string(),
        }
    }
}

/// Entries that hold both `api_key` and `model` always give settings, and
/// each field is what the entries hold for it: the role defaults to `user`,
/// a token limit that is no numeral counts as absent, and so do an empty
/// system prompt and an empty host.
pub proof fn lemma_settings_hold_entries(entries: Map<Seq<char>, Seq<char>>)
    requires
        entries.contains_key(API_KEY_SETTING@),
        entries.contains_key(MODEL_SETTING@),
    ensures
        settings_from_entries(entries) matches Ok(settings) && {
            &&& settings.api_key == entries[API_KEY_SETTING@]
            &&& settings.model == entries[MODEL_SETTING@]
            &&& settings.max_completion_tokens == if entries.contains_key(
                MAX_COMPLETION_TOKENS_SETTING@,
            ) {
                decimal_u32(entries[MAX_COMPLETION_TOKENS_SETTING@])
            } else {
                None
            }
            &&& settings.default_role == if entries.contains_key(DEFAULT_ROLE_SETTING@) {
                entries[DEFAULT_ROLE_SETTING@]
            } else {
                DEFAULT_ROLE@
            }
            &&& settings.default_system_prompt == if entries.contains_key(
                DEFAULT_SYSTEM_PROMPT_SETTING@,
            ) && entries[DEFAULT_SYSTEM_PROMPT_SETTING@].len() > 0 {
                Some(entries[DEFAULT_SYSTEM_PROMPT_SETTING@])
            } else {
                None
            }
            &&& settings.api_hostname == if entries.contains_key(API_HOSTNAME_SETTING@)
                && entries[API_HOSTNAME_SETTING@].len() > 0 {
                Some(entries[API_HOSTNAME_SETTING@])
            } else {
                None
            }
        },
{
}

/// A settings header that occurs once, as text that is a JSON object of
/// strings with `api_key` and `model`, gives the settings of its entries.
pub proof fn lemma_valid_header_resolves(text: Seq<char>, entries: Map<Seq<char>, Seq<char>>)
    requires
        parsed_string_map(text) == Some(entries),
        entries.contains_key(API_KEY_SETTING@),
        entries.contains_key(MODEL_SETTING@),
    ensures
        settings_from_values(seq![Some(text)]) is Ok,
        settings_from_values(seq![Some(text)]) == settings_from_entries(entries),
{
}

/// Without a settings header nothing is read, and the error's text names
/// the header.
pub proof fn lemma_missing_header_fails()
    ensures
        settings_from_values(Seq::empty()) == Err::<SettingsView, SettingsError>(
            SettingsError::MissingHeader,
        ),
        SettingsError::MissingHeader.message() == "Missing '"@ + SETTINGS_HEADER@ + "' header"@,
{
    reveal_strlit("Missing 'x-edgee-component-settings' header");
    reveal_strlit("Missing '");
    reveal_strlit("x-edgee-component-settings");
    reveal_strlit("' header");
    assert(SettingsError::MissingHeader.message() =~= "Missing '"@ + SETTINGS_HEADER@
        + "' header"@);
}

/// The system prompt of the settings: the configured one, or the default.
pub open spec fn system_prompt_of(settings: SettingsView) -> Seq<char> {
    match settings.default_system_prompt {
        Some(prompt) => prompt,
        None => DEFAULT_SYSTEM_PROMPT@,
    }
}

} // verus!
