//! The configuration document: its values, how a text on disk is read into them (as the
//! current shape, as an older shape, or not at all), and the text written back.
use crate::json::{
    find_member, find_string_member, json_quoted, json_top, member_text, members_of,
    members_view, object_members, parse_json, quote_json, string_member, JsonNode,
    JsonNodeView,
};
use crate::text::{
    has_infix, has_suffix, text_has_infix, text_has_suffix, text_without_trailing,
    without_trailing,
};
use vstd::prelude::*;

verus! {

/// Name of the configuration file in the application-data directory.
pub const CONFIG_FILE: &'static str = "config.json";

/// Name of the database file, in the application-data directory or a chosen one.
pub const DATABASE_FILE: &'static str = "jdnotes.db";

/// Endpoint that new settings start with.
pub const DEFAULT_BASE_URL: &'static str = "https://api.deepseek.com/v1";

/// Model that new settings start with.
pub const DEFAULT_MODEL: &'static str = "deepseek-chat";

/// Which wire dialect the AI client speaks.
#[derive(Clone, Copy, Debug, PartialEq, Eq, Structural)]
pub enum AIProvider {
    /// OpenAI and the services that speak its format.
    OpenAICompatible,
    Anthropic,
    Google,
    /// Local models.
    Ollama,
}

/// Settings of the AI provider.
#[derive(Clone, Debug, PartialEq, Eq)]
pub struct AISettings {
    pub provider: AIProvider,
    pub base_url: String,
    pub api_key: String,
    pub model: String,
}

/// The configuration document.
#[derive(Clone, Debug, PartialEq, Eq)]
pub struct AppConfig {
    /// A chosen database file; `None` means the default place.
    pub database_path: Option<String>,
    pub ai_settings: AISettings,
}

/// The mathematical form of [`AISettings`].
pub struct AISettingsView {
    pub provider: AIProvider,
    pub base_url: Seq<char>,
    pub api_key: Seq<char>,
    pub model: Seq<char>,
}

/// The mathematical form of [`AppConfig`].
pub struct AppConfigView {
    pub database_path: Option<Seq<char>>,
    pub ai_settings: AISettingsView,
}

/// An optional text as an optional sequence of characters.
pub open spec fn text_opt(o: Option<String>) -> Option<Seq<char>> {
    match o {
        Some(s) => Some(s@),
        None => None,
    }
}

impl View for AISettings {
    type V = AISettingsView;

    open spec fn view(&self) -> AISettingsView {
        AISettingsView {
            provider: self.provider,
            base_url: self.base_url@,
            api_key: self.api_key@,
            model: self.model@,
        }
    }
}

impl View for AppConfig {
    type V = AppConfigView;

    open spec fn view(&self) -> AppConfigView {
        AppConfigView { database_path: text_opt(self.database_path), ai_settings: self.ai_settings@ }
    }
}

/// An optional configuration in its mathematical form.
pub open spec fn config_opt(o: Option<AppConfig>) -> Option<AppConfigView> {
    match o {
        Some(c) => Some(c@),
        None => None,
    }
}

/// The settings that a new configuration starts with.
pub open spec fn default_settings() -> AISettingsView {
    AISettingsView {
        provider: AIProvider::OpenAICompatible,
        base_url: DEFAULT_BASE_URL@,
        api_key: Seq::empty(),
        model: DEFAULT_MODEL@,
    }
}

/// A new configuration: no database path of its own, default settings.
pub open spec fn default_config() -> AppConfigView {
    AppConfigView { database_path: None, ai_settings: default_settings() }
}

impl Default for AIProvider {
    fn default() -> (r: Self)
        ensures
            r == AIProvider::OpenAICompatible,
    {
        AIProvider::OpenAICompatible
    }
}

impl Default for AISettings {
    fn default() -> (r: Self)
        ensures
            r@ == default_settings(),
    {
        AISettings {
            provider: AIProvider::OpenAICompatible,
            base_url: String::from_str(DEFAULT_BASE_URL),
            api_key: String::new(),
            model: String::from_str(DEFAULT_MODEL),
        }
    }
}

impl Default for AppConfig {
    fn default() -> (r: Self)
        ensures
            r@ == default_config(),
    {
        AppConfig { database_path: None, ai_settings: AISettings::default() }
    }
}

/// The name under which a provider is written.
pub open spec fn provider_label(p: AIProvider) -> Seq<char> {
    match p {
        AIProvider::OpenAICompatible => "OpenAICompatible"@,
        AIProvider::Anthropic => "Anthropic"@,
        AIProvider::Google => "Google"@,
        AIProvider::Ollama => "Ollama"@,
    }
}

/// The provider written under `name`, in the current shape.
pub open spec fn provider_named(name: Seq<char>) -> Option<AIProvider> {
    if name == "OpenAICompatible"@ {
        Some(AIProvider::OpenAICompatible)
    } else if name == "Anthropic"@ {
        Some(AIProvider::Anthropic)
    } else if name == "Google"@ {
        Some(AIProvider::Google)
    } else if name == "Ollama"@ {
        Some(AIProvider::Ollama)
    } else {
        None
    }
}

/// The provider written under `name` in an older shape: an unknown name is the default.
pub open spec fn provider_or_default(name: Seq<char>) -> AIProvider {
    if name == "Anthropic"@ {
        AIProvider::Anthropic
    } else if name == "Google"@ {
        AIProvider::Google
    } else if name == "Ollama"@ {
        AIProvider::Ollama
    } else {
        AIProvider::OpenAICompatible
    }
}

fn same_text(a: &str, b: &str) -> (r: bool)
    ensures
        r == (a@ == b@),
{
    String::from_str(a) == String::from_str(b)
}

impl AIProvider {
    /// The name under which the provider is written.
    pub fn label(&self) -> (r: &'static str)
        ensures
            r@ == provider_label(*self),
    {
        match self {
            AIProvider::OpenAICompatible => "OpenAICompatible",
            AIProvider::Anthropic => "Anthropic",
            AIProvider::Google => "Google",
            AIProvider::Ollama => "Ollama",
        }
    }

    /// The provider written under `name`, if it is one.
    pub fn from_label(name: &str) -> (r: Option<AIProvider>)
        ensures
            r == provider_named(name@),
    {
        if same_text(name, "OpenAICompatible") {
            Some(AIProvider::OpenAICompatible)
        } else if same_text(name, "Anthropic") {
            Some(AIProvider::Anthropic)
        } else if same_text(name, "Google") {
            Some(AIProvider::Google)
        } else if same_text(name, "Ollama") {
            Some(AIProvider::Ollama)
        } else {
            None
        }
    }

    /// The provider written under `name` in an older document; any other name gives the
    /// default provider.
    pub fn from_legacy_label(name: &str) -> (r: AIProvider)
        ensures
            r == provider_or_default(name@),
    {
        if same_text(name, "Anthropic") {
            AIProvider::Anthropic
        } else if same_text(name, "Google") {
            AIProvider::Google
        } else if same_text(name, "Ollama") {
            AIProvider::Ollama
        } else {
            AIProvider::OpenAICompatible
        }
    }
}

// ---------------------------------------------------------------------------------------
// The current shape
// ---------------------------------------------------------------------------------------

/// `database_path` in the current shape: absent or null is no override, a string is one,
/// anything else does not fit (outer `None`).
pub open spec fn decoded_database_path(members: Seq<(Seq<char>, Seq<char>)>) -> Option<
    Option<Seq<char>>,
> {
    match member_text(members, "database_path"@) {
        None => Some(None),
        Some(t) => match json_top(t) {
            Some(JsonNodeView::Null) => Some(None),
            Some(JsonNodeView::Str(s)) => Some(Some(s)),
            _ => None,
        },
    }
}

/// `provider` in the current shape: absent is the default, else one of the four names.
pub open spec fn decoded_provider(members: Seq<(Seq<char>, Seq<char>)>) -> Option<AIProvider> {
    match member_text(members, "provider"@) {
        None => Some(AIProvider::OpenAICompatible),
        Some(t) => match json_top(t) {
            Some(JsonNodeView::Str(s)) => provider_named(s),
            _ => None,
        },
    }
}

/// The settings that a text holds in the current shape: an object whose `base_url`,
/// `api_key` and `model` are strings.
pub open spec fn decoded_settings(text: Seq<char>) -> Option<AISettingsView> {
    match json_top(text) {
        Some(JsonNodeView::Object(ms)) => match (
            decoded_provider(ms),
            string_member(ms, "base_url"@),
            string_member(ms, "api_key"@),
            string_member(ms, "model"@),
        ) {
            (Some(p), Some(b), Some(k), Some(m)) => Some(
                AISettingsView { provider: p, base_url: b, api_key: k, model: m },
            ),
            _ => None,
        },
        _ => None,
    }
}

/// The configuration that a text holds in the current shape, if it has that shape. Absent
/// `ai_settings` are the default ones; members of other names are ignored.
pub open spec fn decoded_config(text: Seq<char>) -> Option<AppConfigView> {
    match json_top(text) {
        Some(JsonNodeView::Object(ms)) => match decoded_database_path(ms) {
            Some(path) => match member_text(ms, "ai_settings"@) {
                None => Some(AppConfigView { database_path: path, ai_settings: default_settings() }),
                Some(t) => match decoded_settings(t) {
                    Some(ai) => Some(AppConfigView { database_path: path, ai_settings: ai }),
                    None => None,
                },
            },
            None => None,
        },
        _ => None,
    }
}

/// Reads the settings that `text` holds in the current shape.
pub fn decode_settings(text: &str) -> (r: Option<AISettings>)
    ensures
        match r {
            Some(s) => decoded_settings(text@) == Some(s@),
            None => decoded_settings(text@) is None,
        },
{
    let members = match parse_json(text) {
        Some(JsonNode::Object(ms)) => ms,
        _ => {
            return None;
        },
    };
    let provider = match find_member(&members, "provider") {
        None => AIProvider::OpenAICompatible,
        Some(t) => match parse_json(t.as_str()) {
            Some(JsonNode::Str(s)) => match AIProvider::from_label(s.as_str()) {
                Some(p) => p,
                None => {
                    return None;
                },
            },
            _ => {
                return None;
            },
        },
    };
    let base_url = match find_string_member(&members, "base_url") {
        Some(s) => s,
        None => {
            return None;
        },
    };
    let api_key = match find_string_member(&members, "api_key") {
        Some(s) => s,
        None => {
            return None;
        },
    };
    let model = match find_string_member(&members, "model") {
        Some(s) => s,
        None => {
            return None;
        },
    };
    Some(AISettings { provider, base_url, api_key, model })
}

/// Reads the configuration that `text` holds in the current shape; `None` when it does not
/// have that shape.
pub fn decode_config(text: &str) -> (r: Option<AppConfig>)
    ensures
        config_opt(r) == decoded_config(text@),
{
    let members = match parse_json(text) {
        Some(JsonNode::Object(ms)) => ms,
        _ => {
            return None;
        },
    };
    let database_path = match find_member(&members, "database_path") {
        None => None,
        Some(t) => match parse_json(t.as_str()) {
            Some(JsonNode::Null) => None,
            Some(JsonNode::Str(s)) => Some(s),
            _ => {
                return None;
            },
        },
    };
    let ai_settings = match find_member(&members, "ai_settings") {
        None => AISettings::default(),
        Some(t) => match decode_settings(t.as_str()) {
            Some(ai) => ai,
            None => {
                return None;
            },
        },
    };
    Some(AppConfig { database_path, ai_settings })
}


// ---------------------------------------------------------------------------------------
// Older shapes
// ---------------------------------------------------------------------------------------

/// An older base URL with a version segment: kept when it ends in `/v1` or holds `/v4`,
/// else its trailing slashes give way to `/v1`.
pub open spec fn versioned_url(url: Seq<char>) -> Seq<char> {
    if has_suffix(url, "/v1"@) || has_infix(url, "/v4"@) {
        url
    } else {
        without_trailing(url, '/') + "/v1"@
    }
}

/// A database path override read defensively: a non-empty string, else none.
pub open spec fn path_override(members: Seq<(Seq<char>, Seq<char>)>) -> Option<Seq<char>> {
    match string_member(members, "database_path"@) {
        Some(p) => if p.len() > 0 {
            Some(p)
        } else {
            None
        },
        None => None,
    }
}

/// Settings read defensively from the members of an older `ai_settings` object: each field
/// on its own, the default where it is missing or not a string.
pub open spec fn migrated_settings(members: Seq<(Seq<char>, Seq<char>)>) -> AISettingsView {
    AISettingsView {
        provider: match string_member(members, "provider"@) {
            Some(p) => provider_or_default(p),
            None => AIProvider::OpenAICompatible,
        },
        base_url: match string_member(members, "base_url"@) {
            Some(u) => versioned_url(u),
            None => DEFAULT_BASE_URL@,
        },
        api_key: match string_member(members, "api_key"@) {
            Some(k) => k,
            None => Seq::empty(),
        },
        model: match string_member(members, "model"@) {
            Some(m) => m,
            None => DEFAULT_MODEL@,
        },
    }
}

/// The configuration carried over from a JSON text of an older shape.
pub open spec fn migrated_config(text: Seq<char>) -> AppConfigView {
    let ms = object_members(text);
    AppConfigView {
        database_path: path_override(ms),
        ai_settings: match member_text(ms, "ai_settings"@) {
            Some(t) => migrated_settings(object_members(t)),
            None => default_settings(),
        },
    }
}

/// Gives an older base URL its version segment.
pub fn versioned_base_url(url: &str) -> (r: String)
    ensures
        r@ == versioned_url(url@),
{
    if text_has_suffix(url, "/v1") || text_has_infix(url, "/v4") {
        String::from_str(url)
    } else {
        let mut r = text_without_trailing(url, '/');
        r.append("/v1");
        r
    }
}

/// The database path override among `members`, read defensively.
pub fn database_path_override(members: &Vec<(String, String)>) -> (r: Option<String>)
    ensures
        text_opt(r) == path_override(members_view(members@)),
{
    match find_string_member(members, "database_path") {
        Some(p) => if p.as_str().unicode_len() > 0 {
            Some(p)
        } else {
            None
        },
        None => None,
    }
}

/// Settings carried over from the members of an older `ai_settings` object.
pub fn migrate_settings(members: &Vec<(String, String)>) -> (r: AISettings)
    ensures
        r@ == migrated_settings(members_view(members@)),
{
    let provider = match find_string_member(members, "provider") {
        Some(p) => AIProvider::from_legacy_label(p.as_str()),
        None => AIProvider::OpenAICompatible,
    };
    let base_url = match find_string_member(members, "base_url") {
        Some(u) => versioned_base_url(u.as_str()),
        None => String::from_str(DEFAULT_BASE_URL),
    };
    let api_key = match find_string_member(members, "api_key") {
        Some(k) => k,
        None => String::new(),
    };
    let model = match find_string_member(members, "model") {
        Some(m) => m,
        None => String::from_str(DEFAULT_MODEL),
    };
    AISettings { provider, base_url, api_key, model }
}

/// The configuration carried over from a JSON text of an older shape.
pub fn migrate_config(text: &str) -> (r: AppConfig)
    ensures
        r@ == migrated_config(text@),
{
    let members = members_of(text);
    let database_path = database_path_override(&members);
    let ai_settings = match find_member(&members, "ai_settings") {
        Some(t) => migrate_settings(&members_of(t.as_str())),
        None => AISettings::default(),
    };
    AppConfig { database_path, ai_settings }
}

// ---------------------------------------------------------------------------------------
// The text written
// ---------------------------------------------------------------------------------------

/// The JSON value written for the database path.
pub open spec fn path_json(p: Option<Seq<char>>) -> Seq<char> {
    match p {
        Some(s) => json_quoted(s),
        None => "null"@,
    }
}

/// The document written for a configuration: a two-space indented JSON object.
pub open spec fn config_text(c: AppConfigView) -> Seq<char> {
    "{\n  \"database_path\": "@ + path_json(c.database_path) + ",\n  \"ai_settings\": {\n    \"provider\": "@
        + json_quoted(provider_label(c.ai_settings.provider)) + ",\n    \"base_url\": "@
        + json_quoted(c.ai_settings.base_url) + ",\n    \"api_key\": "@ + json_quoted(
        c.ai_settings.api_key,
    ) + ",\n    \"model\": "@ + json_quoted(c.ai_settings.model) + "\n  }\n}"@
}

/// The document to write for `config`.
pub fn config_json(config: &AppConfig) -> (r: String)
    ensures
        r@ == config_text(config@),
{
    let mut r = String::from_str("{\n  \"database_path\": ");
    match &config.database_path {
        Some(p) => r.append(quote_json(p.as_str()).as_str()),
        None => r.append("null"),
    }
    r.append(",\n  \"ai_settings\": {\n    \"provider\": ");
    r.append(quote_json(config.ai_settings.provider.label()).as_str());
    r.append(",\n    \"base_url\": ");
    r.append(quote_json(config.ai_settings.base_url.as_str()).as_str());
    r.append(",\n    \"api_key\": ");
    r.append(quote_json(config.ai_settings.api_key.as_str()).as_str());
    r.append(",\n    \"model\": ");
    r.append(quote_json(config.ai_settings.model.as_str()).as_str());
    r.append("\n  }\n}");
    r
}

} // verus!
