//! Identity providers: what differs between them, and how a provider's
//! profile document becomes a normalized profile.
//!
//! The providers share one contract. Each has its endpoints, its user agent,
//! the scopes it is asked for, extra parameters of the authorization request
//! and the lifetime of the sessions it backs. Sending the requests is left to
//! the caller; this module says what to send and reads what came back.

use crate::claims::optional_view;
use vstd::prelude::*;

verus! {

/// A JSON document of `serde_json`.
#[verifier::external_type_specification]
#[verifier::external_body]
pub struct ExJsonValue(serde_json::Value);

/// The error of `serde_json`'s parser.
#[verifier::external_type_specification]
#[verifier::external_body]
pub struct ExJsonError(serde_json::Error);

/// The document that `serde_json` reads from a text, if it reads one.
pub uninterp spec fn json_document(text: Seq<char>) -> Option<serde_json::Value>;

/// The member of a JSON object under a key: absent where the document is no
/// object or has no such key.
pub uninterp spec fn json_member(document: serde_json::Value, key: Seq<char>) -> Option<
    serde_json::Value,
>;

/// The text of a JSON string: absent where the document is no string.
pub uninterp spec fn json_text(document: serde_json::Value) -> Option<Seq<char>>;

/// Parses a text with `serde_json::from_str` into a `Value`. The outcome
/// depends on the text alone; a text that is no JSON document gives the
/// parser's error.
#[verifier::external_body]
fn parse_json(text: &str) -> (r: Result<serde_json::Value, serde_json::Error>)
    ensures
        r matches Ok(v) ==> json_document(text@) == Some(v),
        r is Err ==> json_document(text@) is None,
{
    serde_json::from_str::<serde_json::Value>(text)
}

/// Looks a key up with `Value::get`, which gives the member of an object
/// under that key and nothing for any other document or a missing key.
#[verifier::external_body]
fn member<'a>(document: &'a serde_json::Value, key: &str) -> (r: Option<&'a serde_json::Value>)
    ensures
        r matches Some(m) ==> json_member(*document, key@) == Some(*m),
        r is None ==> json_member(*document, key@) is None,
{
    document.get(key)
}

/// Reads a string with `Value::as_str`, which gives the text of a JSON string
/// and nothing for any other document.
#[verifier::external_body]
fn text_of(document: &serde_json::Value) -> (r: Option<String>)
    ensures
        optional_view(r) == json_text(*document),
{
    match document.as_str() {
        Some(text) => Some(text.to_string()),
        None => None,
    }
}

/// An identity provider.
#[derive(Debug, Clone, Copy, PartialEq, Eq, Structural)]
pub enum Platform {
    Reddit,
    Discord,
}

/// Why a provider did not deliver.
#[derive(Debug, Clone, Copy, PartialEq, Eq, Structural)]
pub enum ProviderError {
    /// The request did not get through.
    Network,
    /// The answer cannot be read, or names no usable user.
    BadPayload,
}

/// The tokens that a provider issued for an authorization code. They are
/// opaque to this library.
#[derive(Debug, Clone, PartialEq, Eq)]
pub struct ProviderToken {
    pub access_token: String,
    pub refresh_token: Option<String>,
}

/// What a `ProviderToken` holds.
pub struct TokenView {
    pub access_token: Seq<char>,
    pub refresh_token: Option<Seq<char>>,
}

impl View for ProviderToken {
    type V = TokenView;

    open spec fn view(&self) -> TokenView {
        TokenView {
            access_token: self.access_token@,
            refresh_token: optional_view(self.refresh_token),
        }
    }
}

/// The normalized result of a profile request.
#[derive(Debug, Clone, PartialEq, Eq)]
pub struct ExternalProfile {
    pub display_name: String,
    pub platform: Platform,
}

/// What an `ExternalProfile` holds.
pub struct ProfileView {
    pub display_name: Seq<char>,
    pub platform: Platform,
}

impl View for ExternalProfile {
    type V = ProfileView;

    open spec fn view(&self) -> ProfileView {
        ProfileView { display_name: self.display_name@, platform: self.platform }
    }
}

/// What to ask of the provider when a login starts.
#[derive(Debug, Clone, PartialEq, Eq)]
pub struct LoginRequest {
    /// The provider's authorization endpoint.
    pub authorize_endpoint: String,
    /// The scopes to request.
    pub scopes: Vec<String>,
    /// Extra parameters of the authorization request, as key and value.
    pub extras: Vec<(String, String)>,
}

/// What to send to fetch the profile of the user behind a token.
#[derive(Debug, Clone, PartialEq, Eq)]
pub struct ProfileRequest {
    /// The provider's profile endpoint.
    pub endpoint: String,
    /// The value of the `User-Agent` header.
    pub user_agent: String,
    /// The value of the `Authorization` header.
    pub authorization: String,
}

/// What a `ProfileRequest` holds.
pub struct ProfileRequestView {
    pub endpoint: Seq<char>,
    pub user_agent: Seq<char>,
    pub authorization: Seq<char>,
}

impl View for ProfileRequest {
    type V = ProfileRequestView;

    open spec fn view(&self) -> ProfileRequestView {
        ProfileRequestView {
            endpoint: self.endpoint@,
            user_agent: self.user_agent@,
            authorization: self.authorization@,
        }
    }
}

/// The name under which a provider's users are kept.
pub open spec fn platform_name(platform: Platform) -> Seq<char> {
    match platform {
        Platform::Reddit => "reddit"@,
        Platform::Discord => "discord"@,
    }
}

/// The authorization endpoint of a provider.
pub open spec fn authorize_endpoint(platform: Platform) -> Seq<char> {
    match platform {
        Platform::Reddit => "https://www.reddit.com/api/v1/authorize"@,
        Platform::Discord => "https://discord.com/api/oauth2/authorize"@,
    }
}

/// The token endpoint of a provider.
pub open spec fn token_endpoint(platform: Platform) -> Seq<char> {
    match platform {
        Platform::Reddit => "https://www.reddit.com/api/v1/access_token"@,
        Platform::Discord => "https://discord.com/api/oauth2/token"@,
    }
}

/// The profile endpoint of a provider.
pub open spec fn profile_endpoint(platform: Platform) -> Seq<char> {
    match platform {
        Platform::Reddit => "https://oauth.reddit.com/api/v1/me"@,
        Platform::Discord => "https://discord.com/api/users/@me"@,
    }
}

/// The user agent that requests to a provider carry.
pub open spec fn user_agent(platform: Platform) -> Seq<char> {
    match platform {
        Platform::Reddit => "AggieRiskLocal - Dev Edition"@,
        Platform::Discord => "AggieRiskLocal - Dev Edition"@,
    }
}

/// The scopes that a provider is asked for.
pub open spec fn scopes(platform: Platform) -> Seq<Seq<char>> {
    match platform {
        Platform::Reddit => seq!["identity"@],
        Platform::Discord => seq!["identify"@],
    }
}

/// The extra parameters of a provider's authorization request: Reddit is
/// asked for a permanent grant, Discord for nothing more.
pub open spec fn extras(platform: Platform) -> Seq<(Seq<char>, Seq<char>)> {
    match platform {
        Platform::Reddit => seq![("duration"@, "permanent"@)],
        Platform::Discord => seq![],
    }
}

/// The hours that a session backed by a provider lasts.
pub open spec fn session_hours_of(platform: Platform) -> int {
    match platform {
        Platform::Reddit => 720,
        Platform::Discord => 168,
    }
}

/// The views of a list of texts.
pub open spec fn texts(list: Seq<String>) -> Seq<Seq<char>> {
    list.map_values(|t: String| t@)
}

/// The views of a list of pairs of texts.
pub open spec fn pairs(list: Seq<(String, String)>) -> Seq<(Seq<char>, Seq<char>)> {
    list.map_values(|p: (String, String)| (p.0@, p.1@))
}

/// The text that names the user in a provider's profile document, if the
/// document is a JSON object with a string under `name`.
pub open spec fn named_in(body: Seq<char>) -> Option<Seq<char>> {
    match json_document(body) {
        None => None,
        Some(document) => match json_member(document, "name"@) {
            None => None,
            Some(name) => json_text(name),
        },
    }
}

/// The profile that a name stands for: a name that is present and not empty
/// is the display name, anything else is a bad payload.
pub open spec fn profile_named(name: Option<Seq<char>>, platform: Platform) -> Result<
    ProfileView,
    ProviderError,
> {
    match name {
        Some(n) => if n.len() > 0 {
            Ok(ProfileView { display_name: n, platform })
        } else {
            Err(ProviderError::BadPayload)
        },
        None => Err(ProviderError::BadPayload),
    }
}

/// The profile that a provider's profile document gives.
pub open spec fn profile_of(body: Seq<char>, platform: Platform) -> Result<
    ProfileView,
    ProviderError,
> {
    profile_named(named_in(body), platform)
}

/// The view of the result of reading a profile.
pub open spec fn profile_result_view(r: Result<ExternalProfile, ProviderError>) -> Result<
    ProfileView,
    ProviderError,
> {
    match r {
        Ok(p) => Ok(p@),
        Err(e) => Err(e),
    }
}

impl Platform {
    /// The name under which the provider's users are kept.
    pub fn name(self) -> (r: &'static str)
        ensures
            r@ == platform_name(self),
    {
        match self {
            Platform::Reddit => "reddit",
            Platform::Discord => "discord",
        }
    }

    /// The provider's authorization endpoint.
    pub fn authorize_endpoint(self) -> (r: &'static str)
        ensures
            r@ == authorize_endpoint(self),
    {
        match self {
            Platform::Reddit => "https://www.reddit.com/api/v1/authorize",
            Platform::Discord => "https://discord.com/api/oauth2/authorize",
        }
    }

    /// The provider's token endpoint.
    pub fn token_endpoint(self) -> (r: &'static str)
        ensures
            r@ == token_endpoint(self),
    {
        match self {
            Platform::Reddit => "https://www.reddit.com/api/v1/access_token",
            Platform::Discord => "https://discord.com/api/oauth2/token",
        }
    }

    /// The provider's profile endpoint.
    pub fn profile_endpoint(self) -> (r: &'static str)
        ensures
            r@ == profile_endpoint(self),
    {
        match self {
            Platform::Reddit => "https://oauth.reddit.com/api/v1/me",
            Platform::Discord => "https://discord.com/api/users/@me",
        }
    }

    /// The user agent that requests to the provider carry.
    pub fn user_agent(self) -> (r: &'static str)
        ensures
            r@ == user_agent(self),
    {
        match self {
            Platform::Reddit => "AggieRiskLocal - Dev Edition",
            Platform::Discord => "AggieRiskLocal - Dev Edition",
        }
    }

    /// The hours that a session backed by the provider lasts.
    pub fn session_hours(self) -> (r: u64)
        ensures
            r == session_hours_of(self),
    {
        match self {
            Platform::Reddit => 720,
            Platform::Discord => 168,
        }
    }

    /// The seconds that a session backed by the provider lasts.
    pub fn session_seconds(self) -> (r: u64)
        ensures
            r == session_hours_of(self) * 3600,
    {
        self.session_hours() * 3600
    }

    /// What to ask of the provider when a login starts: its authorization
    /// endpoint, its scopes and its extra parameters.
    pub fn initiate_login(self) -> (r: LoginRequest)
        ensures
            r.authorize_endpoint@ == authorize_endpoint(self),
            texts(r.scopes@) == scopes(self),
            pairs(r.extras@) == extras(self),
    {
        let mut scopes: Vec<String> = Vec::new();
        let mut extras: Vec<(String, String)> = Vec::new();
        match self {
            Platform::Reddit => {
                scopes.push("identity".to_owned());
                extras.push(("duration".to_owned(), "permanent".to_owned()));
            },
            Platform::Discord => {
                scopes.push("identify".to_owned());
            },
        }
        assert(texts(scopes@) =~= crate::provider::scopes(self));
        assert(pairs(extras@) =~= crate::provider::extras(self));
        LoginRequest { authorize_endpoint: self.authorize_endpoint().to_owned(), scopes, extras }
    }

    /// What to send to fetch the profile behind an access token: the
    /// provider's endpoint and user agent, and the token as a bearer.
    pub fn profile_request(self, access_token: &str) -> (r: ProfileRequest)
        ensures
            r@ == (ProfileRequestView {
                endpoint: profile_endpoint(self),
                user_agent: user_agent(self),
                authorization: "Bearer "@ + access_token@,
            }),
    {
        let mut authorization = "Bearer ".to_owned();
        vstd::string::StringExecFns::append(&mut authorization, access_token);
        ProfileRequest {
            endpoint: self.profile_endpoint().to_owned(),
            user_agent: self.user_agent().to_owned(),
            authorization,
        }
    }
}

/// The profile that a name stands for.
pub fn profile_from_name(name: Option<String>, platform: Platform) -> (r: Result<
    ExternalProfile,
    ProviderError,
>)
    ensures
        profile_result_view(r) == profile_named(optional_view(name), platform),
{
    match name {
        Some(display_name) => {
            if display_name.as_str().unicode_len() > 0 {
                Ok(ExternalProfile { display_name, platform })
            } else {
                Err(ProviderError::BadPayload)
            }
        },
        None => Err(ProviderError::BadPayload),
    }
}

/// The name that a provider's profile document gives the user.
pub fn display_name(body: &str) -> (r: Option<String>)
    ensures
        optional_view(r) == named_in(body@),
{
    match parse_json(body) {
        Err(_) => None,
        Ok(document) => match member(&document, "name") {
            None => None,
            Some(name) => text_of(name),
        },
    }
}

/// Reads a provider's profile document.
///
/// The document must be a JSON object whose `name` is a string that is not
/// empty; any other body is a bad payload.
pub fn fetch_profile(body: &str, platform: Platform) -> (r: Result<ExternalProfile, ProviderError>)
    ensures
        profile_result_view(r) == profile_of(body@, platform),
{
    profile_from_name(display_name(body), platform)
}

} // verus!
