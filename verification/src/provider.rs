//! What the provider protocols share: URLs, credentials, body fields and errors.

use crate::config::{AuthConfig, Temperature};
use crate::json::{self, field, object, set_field, Json, JsonView};
use crate::text::{self, chars_of, join_texts};
use vstd::prelude::*;
use vstd::string::*;

verus! {

/// A text without the slashes at its end.
pub open spec fn without_trailing_slashes(text: Seq<char>) -> Seq<char>
    decreases text.len(),
{
    if text.len() > 0 && text.last() == '/' {
        without_trailing_slashes(text.drop_last())
    } else {
        text
    }
}

/// A text without the slashes at its start.
pub open spec fn without_leading_slashes(text: Seq<char>) -> Seq<char>
    decreases text.len(),
{
    if text.len() > 0 && text[0] == '/' {
        without_leading_slashes(text.drop_first())
    } else {
        text
    }
}

/// The URL of an endpoint under a base URL.
pub open spec fn endpoint_url(base: Seq<char>, endpoint: Seq<char>) -> Seq<char> {
    without_trailing_slashes(base) + "/"@ + without_leading_slashes(endpoint)
}

/// Joins a provider base URL and endpoint without assuming either slash shape.
pub fn join_url(base: &str, endpoint: &str) -> (url: String)
    ensures
        url@ == endpoint_url(base@, endpoint@),
{
    let chars = chars_of(base);
    let mut end: usize = chars.len();
    assert(base@.take(end as int) =~= base@);
    while end > 0 && chars[end - 1] == '/'
        invariant
            end <= chars@.len(),
            chars@ == base@,
            without_trailing_slashes(base@.take(end as int)) == without_trailing_slashes(base@),
        decreases end,
    {
        assert(base@.take(end as int).drop_last() =~= base@.take(end - 1));
        end -= 1;
    }
    let kept = base.substring_char(0, end);
    assert(kept@ =~= base@.take(end as int));
    let mut url = kept.to_string();
    url.append("/");
    let tail = chars_of(endpoint);
    let mut start: usize = 0;
    assert(endpoint@.skip(0) =~= endpoint@);
    while start < tail.len() && tail[start] == '/'
        invariant
            start <= tail@.len(),
            tail@ == endpoint@,
            without_leading_slashes(endpoint@.skip(start as int)) == without_leading_slashes(
                endpoint@,
            ),
        decreases tail@.len() - start,
    {
        assert(endpoint@.skip(start as int).drop_first() =~= endpoint@.skip(start + 1));
        start += 1;
    }
    let named = endpoint.substring_char(start, tail.len());
    assert(named@ =~= endpoint@.skip(start as int));
    url.append(named);
    url
}

/// A slash more at the end of the base URL makes no difference.
pub proof fn lemma_base_url_slash_is_optional(base: Seq<char>, endpoint: Seq<char>)
    ensures
        endpoint_url(base.push('/'), endpoint) == endpoint_url(base, endpoint),
{
    assert(base.push('/').drop_last() =~= base);
}

/// A slash more at the start of the endpoint makes no difference.
pub proof fn lemma_endpoint_slash_is_optional(base: Seq<char>, endpoint: Seq<char>)
    ensures
        endpoint_url(base, seq!['/'] + endpoint) == endpoint_url(base, endpoint),
{
    assert((seq!['/'] + endpoint).drop_first() =~= endpoint);
}

/// The credentials that requests carry.
#[derive(Debug, Clone)]
pub enum Auth {
    /// None.
    NoAuth,
    /// An API key.
    ApiKey(String),
}

/// The model of an [`Auth`]: the key, where there is one.
impl View for Auth {
    type V = Option<Seq<char>>;

    open spec fn view(&self) -> Option<Seq<char>> {
        match self {
            Auth::NoAuth => None,
            Auth::ApiKey(key) => Some(key@),
        }
    }
}

/// How far the credentials are known.
#[derive(Debug)]
pub enum AuthStep {
    /// They are.
    Ready(Auth),
    /// An environment variable has to be read first.
    ReadVariable(PendingKey),
}

/// An API key that is still in an environment variable.
#[derive(Debug)]
pub struct PendingKey {
    /// The name of the variable.
    pub name: String,
}

/// An API key that could not be read.
#[derive(Debug)]
pub struct AuthError {
    /// The name of the variable.
    pub name: String,
    /// Why it could not be read.
    pub cause: String,
}

/// What an [`AuthError`] says, then why.
pub open spec fn auth_error_chain(name: Seq<char>, cause: Seq<char>) -> Seq<Seq<char>> {
    seq!["reading API key env var "@ + name, cause]
}

impl AuthError {
    /// Says what happened, then why.
    pub fn chain(&self) -> (messages: Vec<String>)
        ensures
            text::texts(messages@) == auth_error_chain(self.name@, self.cause@),
    {
        let mut message = "reading API key env var ".to_string();
        message.append(self.name.as_str());
        let messages = vec![message, self.cause.clone()];
        assert(text::texts(messages@) =~= auth_error_chain(self.name@, self.cause@));
        messages
    }
}

impl Auth {
    /// Resolves provider authentication from explicit config.
    ///
    /// Going without is a named choice for local servers; a key has to be read
    /// from its variable before the runtime starts.
    pub fn from_config(config: &AuthConfig) -> (step: AuthStep)
        ensures
            match *config {
                AuthConfig::NoAuth => step == AuthStep::Ready(Auth::NoAuth),
                AuthConfig::ApiKeyEnv { name } => step matches AuthStep::ReadVariable(pending)
                    && pending.name@ == name@,
            },
    {
        match config {
            AuthConfig::NoAuth => AuthStep::Ready(Auth::NoAuth),
            AuthConfig::ApiKeyEnv { name } => AuthStep::ReadVariable(
                PendingKey { name: name.clone() },
            ),
        }
    }
}

impl PendingKey {
    /// Goes on once the variable was read, or could not be.
    pub fn resume(self, read: Result<String, String>) -> (outcome: Result<Auth, AuthError>)
        ensures
            match read {
                Ok(key) => outcome == Ok::<Auth, AuthError>(Auth::ApiKey(key)),
                Err(cause) => outcome == Err::<Auth, AuthError>(
                    (AuthError { name: self.name, cause }),
                ),
            },
    {
        match read {
            Ok(key) => Ok(Auth::ApiKey(key)),
            Err(cause) => Err(AuthError { name: self.name, cause }),
        }
    }
}

/// Whose way of carrying a key a request follows.
#[derive(Debug, Clone, Copy, PartialEq, Eq, Structural)]
pub enum ProviderHeader {
    /// As a bearer token.
    OpenAi,
    /// In a header of its own.
    Anthropic,
}

/// How a request carries its credentials.
#[derive(Debug)]
pub enum RequestAuth {
    /// It carries none.
    Anonymous,
    /// As a bearer token in the `Authorization` header.
    Bearer(String),
    /// In a header of its own.
    Header {
        /// The name of the header.
        name: String,
        /// Its value.
        value: String,
    },
}

/// The model of a [`RequestAuth`].
pub enum RequestAuthView {
    /// It carries none.
    Anonymous,
    /// As a bearer token in the `Authorization` header.
    Bearer(Seq<char>),
    /// In a header of its own.
    Header {
        /// The name of the header.
        name: Seq<char>,
        /// Its value.
        value: Seq<char>,
    },
}

impl View for RequestAuth {
    type V = RequestAuthView;

    open spec fn view(&self) -> RequestAuthView {
        match self {
            RequestAuth::Anonymous => RequestAuthView::Anonymous,
            RequestAuth::Bearer(token) => RequestAuthView::Bearer(token@),
            RequestAuth::Header { name, value } => RequestAuthView::Header {
                name: name@,
                value: value@,
            },
        }
    }
}

/// How a request to a provider carries a key, where there is one.
pub open spec fn carried(key: Option<Seq<char>>, header: ProviderHeader) -> RequestAuthView {
    match (key, header) {
        (None, _) => RequestAuthView::Anonymous,
        (Some(key), ProviderHeader::OpenAi) => RequestAuthView::Bearer(key),
        (Some(key), ProviderHeader::Anthropic) => RequestAuthView::Header {
            name: "x-api-key"@,
            value: key,
        },
    }
}

/// Chooses the provider-specific auth header when auth is configured.
pub fn with_auth(auth: &Auth, header: ProviderHeader) -> (carrying: RequestAuth)
    ensures
        carrying@ == carried(auth@, header),
{
    match auth {
        Auth::NoAuth => RequestAuth::Anonymous,
        Auth::ApiKey(key) => match header {
            ProviderHeader::OpenAi => RequestAuth::Bearer(key.clone()),
            ProviderHeader::Anthropic => RequestAuth::Header {
                name: "x-api-key".to_string(),
                value: key.clone(),
            },
        },
    }
}

/// The fields of a body once the temperature is in: a field more only where it is fixed.
pub open spec fn tempered(
    fields: Seq<(Seq<char>, JsonView)>,
    temperature: Temperature,
) -> Seq<(Seq<char>, JsonView)> {
    match temperature {
        Temperature::ProviderDefault => fields,
        Temperature::Fixed { value } => json::with_field(
            fields,
            "temperature"@,
            JsonView::Document(value),
        ),
    }
}

/// Adds temperature only when the config names a fixed value.
pub fn apply_temperature(body: &mut Vec<(String, Json)>, temperature: &Temperature)
    ensures
        json::field_views(final(body)@) == tempered(json::field_views(old(body)@), *temperature),
{
    match temperature {
        Temperature::ProviderDefault => {},
        Temperature::Fixed { value } => {
            set_field(body, "temperature", Json::Document(value.clone()));
        },
    }
}

/// A message object with a role and contents.
pub open spec fn message(role: Seq<char>, content: JsonView) -> JsonView {
    JsonView::Object(seq![("role"@, JsonView::Text(role)), ("content"@, content)])
}

/// Builds a message object.
pub fn message_of(role: &str, content: Json) -> (json: Json)
    ensures
        json@ == message(role@, content@),
{
    let fields = vec![field("role", json::text(role)), field("content", content)];
    assert(json::field_views(fields@) =~= message(role@, content@)->Object_0);
    object(fields)
}

/// A request that is ready to be posted.
#[derive(Debug)]
pub struct HttpRequest {
    /// Where it goes.
    pub url: String,
    /// How it carries its credentials.
    pub auth: RequestAuth,
    /// Headers besides those of the credentials and of the body, each with its name.
    pub headers: Vec<(String, String)>,
    /// The body.
    pub body: Json,
}

/// The model of an [`HttpRequest`].
pub struct HttpRequestView {
    /// Where it goes.
    pub url: Seq<char>,
    /// How it carries its credentials.
    pub auth: RequestAuthView,
    /// Headers besides those of the credentials and of the body, each with its name.
    pub headers: Seq<(Seq<char>, Seq<char>)>,
    /// The body.
    pub body: JsonView,
}

impl View for HttpRequest {
    type V = HttpRequestView;

    open spec fn view(&self) -> HttpRequestView {
        HttpRequestView {
            url: self.url@,
            auth: self.auth@,
            headers: self.headers@.map_values(|header: (String, String)| (header.0@, header.1@)),
            body: self.body@,
        }
    }
}

/// Where no field is called `temperature`, a fixed one comes last and nothing else changes.
pub proof fn lemma_temperature_comes_last(
    fields: Seq<(Seq<char>, JsonView)>,
    temperature: Temperature,
)
    requires
        forall|i: int| 0 <= i < fields.len() ==> (#[trigger] fields[i]).0 != "temperature"@,
    ensures
        match temperature {
            Temperature::ProviderDefault => tempered(fields, temperature) == fields,
            Temperature::Fixed { value } => tempered(fields, temperature) == fields.push(
                ("temperature"@, JsonView::Document(value)),
            ),
        },
{
    if let Temperature::Fixed { value } = temperature {
        json::lemma_new_field_comes_last(fields, "temperature"@, JsonView::Document(value));
    }
}

/// Formats an error with its causes, outermost first, for frontend display.
pub fn format_error_chain(messages: &Vec<String>) -> (text: String)
    ensures
        text@ == text::joined(text::texts(messages@), ": "@),
{
    join_texts(messages, ": ")
}

} // verus!
