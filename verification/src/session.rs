//! The session issuer: the login attempt as a state machine.
//!
//! The machine decides; its caller acts. Each step takes the state and the
//! outcome of the last action, and gives the next state and the next action:
//! a redirect, a request to the provider, a call to the store, a reading of
//! the clock, or the final answer. A session is granted in the last step
//! alone, with both cookies or with none.

use crate::claims::{encodable, encode, encoded, optional_view, Claims, ClaimsView};
use crate::directory::{StoreError, User, UserView};
use crate::gate::{
    attempt_entry, copy_optional, login_attempt, DenyReason, LoginPolicy, NewAuditEntry,
    NewEntryView, SessionError,
};
use crate::provider::{
    authorize_endpoint, extras, fetch_profile, pairs, profile_endpoint, profile_of,
    scopes, session_hours_of, texts, user_agent, ExternalProfile, LoginRequest, Platform,
    ProfileRequest, ProfileRequestView, ProfileView, ProviderError, ProviderToken, TokenView,
};
use vstd::prelude::*;
use vstd::slice::*;
use vstd::utf8::*;

verus! {

/// What the site is configured with, fixed when the process starts.
#[derive(Debug, Clone, PartialEq, Eq)]
pub struct SiteConfig {
    /// The domain that the cookies are scoped to.
    pub domain: String,
    /// The key that the claims are signed with.
    pub signing_key: Vec<u8>,
}

/// What a `SiteConfig` holds.
pub struct ConfigView {
    pub domain: Seq<char>,
    pub signing_key: Seq<u8>,
}

impl View for SiteConfig {
    type V = ConfigView;

    open spec fn view(&self) -> ConfigView {
        ConfigView { domain: self.domain@, signing_key: self.signing_key@ }
    }
}

impl SiteConfig {
    /// The configuration for a domain and a secret. Without a secret there
    /// is none: the site must not start.
    pub fn new(domain: String, secret: Option<String>) -> (config: Option<SiteConfig>)
        ensures
            config is Some <==> secret is Some,
            config matches Some(c) ==> c@ == (ConfigView {
                domain: domain@,
                signing_key: encode_utf8(secret.unwrap()@),
            }),
    {
        match secret {
            None => None,
            Some(text) => Some(
                SiteConfig { domain, signing_key: slice_to_vec(text.as_str().as_bytes()) },
            ),
        }
    }
}

/// How a browser may send a cookie along with requests from other sites.
#[derive(Debug, Clone, Copy, PartialEq, Eq, Structural)]
pub enum SameSite {
    Lax,
    Strict,
}

/// A cookie to set.
#[derive(Debug, Clone, PartialEq, Eq)]
pub struct Cookie {
    pub name: String,
    pub value: String,
    pub domain: String,
    pub path: String,
    /// The seconds that the browser keeps the cookie; zero clears it.
    pub max_age: u64,
    pub same_site: SameSite,
    pub http_only: bool,
}

/// What a `Cookie` holds.
pub struct CookieView {
    pub name: Seq<char>,
    pub value: Seq<char>,
    pub domain: Seq<char>,
    pub path: Seq<char>,
    pub max_age: u64,
    pub same_site: SameSite,
    pub http_only: bool,
}

impl View for Cookie {
    type V = CookieView;

    open spec fn view(&self) -> CookieView {
        CookieView {
            name: self.name@,
            value: self.value@,
            domain: self.domain@,
            path: self.path@,
            max_age: self.max_age,
            same_site: self.same_site,
            http_only: self.http_only,
        }
    }
}

/// The two cookies of a session: the user name, which identifies and no
/// more, and the signed claims, which authorize.
#[derive(Debug, Clone, PartialEq, Eq)]
pub struct SessionCookies {
    pub username: Cookie,
    pub claims: Cookie,
}

/// What `SessionCookies` hold.
pub struct CookiesView {
    pub username: CookieView,
    pub claims: CookieView,
}

impl View for SessionCookies {
    type V = CookiesView;

    open spec fn view(&self) -> CookiesView {
        CookiesView { username: self.username@, claims: self.claims@ }
    }
}

/// Why a login attempt ended without a session.
#[derive(Debug, Clone, Copy, PartialEq, Eq, Structural)]
pub enum FailureReason {
    Provider(ProviderError),
    Store(StoreError),
    Denied(DenyReason),
    Session(SessionError),
    /// The claims could not be made into a token.
    Codec,
    /// An outcome was reported that the state did not wait for.
    OutOfOrder,
}

/// The end of a login attempt without a session: the reason, and the HTTP
/// status that the browser gets.
#[derive(Debug, Clone, Copy, PartialEq, Eq, Structural)]
pub struct Failure {
    pub reason: FailureReason,
    pub status: u16,
}

/// The failure of the code exchange: a bad request, whatever went wrong.
pub open spec fn exchange_failure(e: ProviderError) -> Failure {
    Failure { reason: FailureReason::Provider(e), status: 400 }
}

/// The failure of the profile request: a server error where the request did
/// not get through, a bad request where the answer is unusable.
pub open spec fn profile_failure(e: ProviderError) -> Failure {
    Failure {
        reason: FailureReason::Provider(e),
        status: match e {
            ProviderError::Network => 500,
            ProviderError::BadPayload => 400,
        },
    }
}

/// The failure of the store: a server error.
pub open spec fn store_failure(e: StoreError) -> Failure {
    Failure { reason: FailureReason::Store(e), status: 500 }
}

/// The denial by the policy: forbidden.
pub open spec fn denial(reason: DenyReason) -> Failure {
    Failure { reason: FailureReason::Denied(reason), status: 403 }
}

/// The failure to record the attempt: a server error.
pub open spec fn audit_failure() -> Failure {
    Failure { reason: FailureReason::Session(SessionError::AuditFailure), status: 500 }
}

/// The failure to make the token: not acceptable.
pub open spec fn codec_failure() -> Failure {
    Failure { reason: FailureReason::Codec, status: 406 }
}

/// The failure of the caller to keep the order of the steps: a server error.
pub open spec fn out_of_order() -> Failure {
    Failure { reason: FailureReason::OutOfOrder, status: 500 }
}

/// A session cookie: scoped to the domain and the root path, kept from
/// scripts, sent along on top-level navigation only.
pub open spec fn session_cookie(
    name: Seq<char>,
    value: Seq<char>,
    domain: Seq<char>,
    max_age: u64,
) -> CookieView {
    CookieView {
        name,
        value,
        domain,
        path: "/"@,
        max_age,
        same_site: SameSite::Lax,
        http_only: true,
    }
}

/// The cookies of a session for a display name and a token of claims: both
/// live as long as the provider's sessions do.
pub open spec fn session_cookies(
    site: ConfigView,
    platform: Platform,
    display_name: Seq<char>,
    token: Seq<char>,
) -> CookiesView {
    CookiesView {
        username: session_cookie(
            "username"@,
            display_name,
            site.domain,
            (session_hours_of(platform) * 3600) as u64,
        ),
        claims: session_cookie(
            "jwt"@,
            token,
            site.domain,
            (session_hours_of(platform) * 3600) as u64,
        ),
    }
}

/// The cookies that end a session: both empty, both with a lifetime of zero.
pub open spec fn cleared_cookies(site: ConfigView) -> CookiesView {
    CookiesView {
        username: session_cookie("username"@, Seq::empty(), site.domain, 0),
        claims: session_cookie("jwt"@, Seq::empty(), site.domain, 0),
    }
}

/// The claims of a session granted at `now`: the user's id and canonical
/// name, the provider's tokens, and an expiry one session lifetime ahead.
/// There are none where that expiry is no 64-bit number.
pub open spec fn claims_for(user: UserView, token: TokenView, platform: Platform, now: u64)
    -> Option<ClaimsView> {
    if now + session_hours_of(platform) * 3600 > u64::MAX {
        None
    } else {
        Some(
            ClaimsView {
                user_id: user.id,
                username: user.username,
                access_token: token.access_token,
                refresh_token: token.refresh_token,
                expires_at: (now + session_hours_of(platform) * 3600) as u64,
            },
        )
    }
}

/// The cookies of a session granted at `now`, or the failure to make them.
pub open spec fn minted(
    site: ConfigView,
    platform: Platform,
    user: UserView,
    profile: ProfileView,
    token: TokenView,
    now: u64,
) -> Result<CookiesView, Failure> {
    match claims_for(user, token, platform, now) {
        None => Err(codec_failure()),
        Some(claims) => if encodable(claims) {
            Ok(
                session_cookies(
                    site,
                    platform,
                    profile.display_name,
                    encoded(claims, site.signing_key),
                ),
            )
        } else {
            Err(codec_failure())
        },
    }
}

/// The view of the result of minting.
pub open spec fn minting_view(r: Result<SessionCookies, Failure>) -> Result<CookiesView, Failure> {
    match r {
        Ok(c) => Ok(c@),
        Err(f) => Err(f),
    }
}

/// A session cookie.
pub fn make_cookie(name: &str, value: String, domain: &str, max_age: u64) -> (cookie: Cookie)
    ensures
        cookie@ == session_cookie(name@, value@, domain@, max_age),
{
    Cookie {
        name: name.to_owned(),
        value,
        domain: domain.to_owned(),
        path: "/".to_owned(),
        max_age,
        same_site: SameSite::Lax,
        http_only: true,
    }
}

/// The cookies of a session for a display name and a token of claims.
pub fn issue_cookies(site: &SiteConfig, platform: Platform, display_name: &str, token: String)
    -> (cookies: SessionCookies)
    ensures
        cookies@ == session_cookies(site@, platform, display_name@, token@),
{
    let max_age = platform.session_seconds();
    SessionCookies {
        username: make_cookie(
            "username",
            display_name.to_owned(),
            site.domain.as_str(),
            max_age,
        ),
        claims: make_cookie("jwt", token, site.domain.as_str(), max_age),
    }
}

/// The cookies that end a session. Nothing is kept on the server, so
/// nothing else has to be done: a token that was issued stays valid until it
/// expires.
pub fn logout(site: &SiteConfig) -> (cookies: SessionCookies)
    ensures
        cookies@ == cleared_cookies(site@),
        cookies.username.max_age == 0,
        cookies.claims.max_age == 0,
{
    SessionCookies {
        username: make_cookie("username", String::new(), site.domain.as_str(), 0),
        claims: make_cookie("jwt", String::new(), site.domain.as_str(), 0),
    }
}

/// The claims of a session granted at `now`.
pub fn build_claims(user: &User, token: &ProviderToken, platform: Platform, now: u64) -> (r:
    Option<Claims>)
    ensures
        r is Some <==> claims_for(user@, token@, platform, now) is Some,
        r matches Some(c) ==> Some(c@) == claims_for(user@, token@, platform, now),
{
    match now.checked_add(platform.session_seconds()) {
        None => None,
        Some(expires_at) => Some(
            Claims {
                user_id: user.id,
                username: user.username.clone(),
                access_token: token.access_token.clone(),
                refresh_token: copy_optional(&token.refresh_token),
                expires_at,
            },
        ),
    }
}

/// Grants a session at `now`: builds the claims, signs them, and makes the
/// two cookies.
///
/// Fails, with no cookie at all, exactly when the expiry is no 64-bit number
/// or a text of the claims does not fit in a token.
pub fn mint(
    site: &SiteConfig,
    platform: Platform,
    user: &User,
    profile: &ExternalProfile,
    token: &ProviderToken,
    now: u64,
) -> (r: Result<SessionCookies, Failure>)
    ensures
        minting_view(r) == minted(site@, platform, user@, profile@, token@, now),
{
    match build_claims(user, token, platform, now) {
        None => Err(Failure { reason: FailureReason::Codec, status: 406 }),
        Some(claims) => match encode(&claims, site.signing_key.as_slice()) {
            Err(_) => Err(Failure { reason: FailureReason::Codec, status: 406 }),
            Ok(text) => Ok(issue_cookies(site, platform, profile.display_name.as_str(), text)),
        },
    }
}

/// What a login attempt is run with: the provider, the site, the policy,
/// and the address that the attempt came from, if it is known.
pub struct LoginContext<P: LoginPolicy> {
    pub platform: Platform,
    pub site: SiteConfig,
    pub policy: P,
    pub client_ip: Option<String>,
}

/// What a `LoginContext` holds.
pub struct ContextView<P: LoginPolicy> {
    pub platform: Platform,
    pub site: ConfigView,
    pub policy: P,
    pub client_ip: Option<Seq<char>>,
}

impl<P: LoginPolicy> View for LoginContext<P> {
    type V = ContextView<P>;

    open spec fn view(&self) -> ContextView<P> {
        ContextView {
            platform: self.platform,
            site: self.site@,
            policy: self.policy,
            client_ip: optional_view(self.client_ip),
        }
    }
}

/// Where a login attempt stands.
#[derive(Debug, Clone, PartialEq, Eq)]
pub enum LoginState {
    Start,
    RedirectIssued,
    AwaitingCallback,
    TokenExchanged { token: ProviderToken },
    ProfileFetched { token: ProviderToken, profile: ExternalProfile, data: String },
    UserUpserted { token: ProviderToken, profile: ExternalProfile, data: String },
    /// The user is loaded and the attempt is being recorded.
    UserLoaded { token: ProviderToken, profile: ExternalProfile, user: User },
    SecurityChecked { token: ProviderToken, profile: ExternalProfile, user: User },
    SessionMinted,
    Failed { failure: Failure },
}

/// What a `LoginState` holds.
pub enum StateView {
    Start,
    RedirectIssued,
    AwaitingCallback,
    TokenExchanged { token: TokenView },
    ProfileFetched { token: TokenView, profile: ProfileView, data: Seq<char> },
    UserUpserted { token: TokenView, profile: ProfileView, data: Seq<char> },
    UserLoaded { token: TokenView, profile: ProfileView, user: UserView },
    SecurityChecked { token: TokenView, profile: ProfileView, user: UserView },
    SessionMinted,
    Failed { failure: Failure },
}

impl View for LoginState {
    type V = StateView;

    open spec fn view(&self) -> StateView {
        match *self {
            LoginState::Start => StateView::Start,
            LoginState::RedirectIssued => StateView::RedirectIssued,
            LoginState::AwaitingCallback => StateView::AwaitingCallback,
            LoginState::TokenExchanged { token } => StateView::TokenExchanged { token: token@ },
            LoginState::ProfileFetched { token, profile, data } => StateView::ProfileFetched {
                token: token@,
                profile: profile@,
                data: data@,
            },
            LoginState::UserUpserted { token, profile, data } => StateView::UserUpserted {
                token: token@,
                profile: profile@,
                data: data@,
            },
            LoginState::UserLoaded { token, profile, user } => StateView::UserLoaded {
                token: token@,
                profile: profile@,
                user: user@,
            },
            LoginState::SecurityChecked { token, profile, user } => StateView::SecurityChecked {
                token: token@,
                profile: profile@,
                user: user@,
            },
            LoginState::SessionMinted => StateView::SessionMinted,
            LoginState::Failed { failure } => StateView::Failed { failure },
        }
    }
}

/// The outcome of the last action.
#[derive(Debug, PartialEq, Eq)]
pub enum LoginEvent {
    /// A browser asks to log in.
    Begin,
    /// The browser was sent to the provider.
    RedirectSent,
    /// The provider called back, and the code was exchanged or not.
    CodeExchanged(Result<ProviderToken, ProviderError>),
    /// The profile request gave a body, or did not get through.
    ProfileResponse(Result<String, ProviderError>),
    Upserted(Result<(), StoreError>),
    UserLoaded(Result<User, StoreError>),
    AuditWritten(Result<(), StoreError>),
    /// The clock shows this second, counted from the Unix epoch.
    Clock(u64),
}

/// What a `LoginEvent` holds.
pub enum EventView {
    Begin,
    RedirectSent,
    CodeExchanged(Result<TokenView, ProviderError>),
    ProfileResponse(Result<Seq<char>, ProviderError>),
    Upserted(Result<(), StoreError>),
    UserLoaded(Result<UserView, StoreError>),
    AuditWritten(Result<(), StoreError>),
    Clock(u64),
}

impl View for LoginEvent {
    type V = EventView;

    open spec fn view(&self) -> EventView {
        match *self {
            LoginEvent::Begin => EventView::Begin,
            LoginEvent::RedirectSent => EventView::RedirectSent,
            LoginEvent::CodeExchanged(r) => EventView::CodeExchanged(
                match r {
                    Ok(t) => Ok(t@),
                    Err(e) => Err(e),
                },
            ),
            LoginEvent::ProfileResponse(r) => EventView::ProfileResponse(
                match r {
                    Ok(b) => Ok(b@),
                    Err(e) => Err(e),
                },
            ),
            LoginEvent::Upserted(r) => EventView::Upserted(r),
            LoginEvent::UserLoaded(r) => EventView::UserLoaded(
                match r {
                    Ok(u) => Ok(u@),
                    Err(e) => Err(e),
                },
            ),
            LoginEvent::AuditWritten(r) => EventView::AuditWritten(r),
            LoginEvent::Clock(now) => EventView::Clock(now),
        }
    }
}

/// What the caller has to do next.
#[derive(Debug, Clone, PartialEq, Eq)]
pub enum LoginAction {
    /// Send the browser to the provider.
    Redirect(LoginRequest),
    /// Wait for the provider to call back, and exchange the code.
    AwaitCallback,
    FetchProfile(ProfileRequest),
    UpsertUser { username: String, platform: Platform },
    LoadUser { username: String, platform: Platform },
    WriteAudit(NewAuditEntry),
    ReadClock,
    /// Set both cookies and send the browser to the home page.
    IssueSession(SessionCookies),
    /// Answer with the status, and set no cookie.
    Reject { status: u16 },
    /// The attempt is over.
    Nothing,
}

/// What a `LoginRequest` holds.
pub struct LoginRequestView {
    pub authorize_endpoint: Seq<char>,
    pub scopes: Seq<Seq<char>>,
    pub extras: Seq<(Seq<char>, Seq<char>)>,
}

/// What a `LoginAction` holds.
pub enum ActionView {
    Redirect(LoginRequestView),
    AwaitCallback,
    FetchProfile(ProfileRequestView),
    UpsertUser { username: Seq<char>, platform: Platform },
    LoadUser { username: Seq<char>, platform: Platform },
    WriteAudit(NewEntryView),
    ReadClock,
    IssueSession(CookiesView),
    Reject { status: u16 },
    Nothing,
}

impl View for LoginAction {
    type V = ActionView;

    open spec fn view(&self) -> ActionView {
        match *self {
            LoginAction::Redirect(request) => ActionView::Redirect(
                LoginRequestView {
                    authorize_endpoint: request.authorize_endpoint@,
                    scopes: texts(request.scopes@),
                    extras: pairs(request.extras@),
                },
            ),
            LoginAction::AwaitCallback => ActionView::AwaitCallback,
            LoginAction::FetchProfile(request) => ActionView::FetchProfile(request@),
            LoginAction::UpsertUser { username, platform } => ActionView::UpsertUser {
                username: username@,
                platform,
            },
            LoginAction::LoadUser { username, platform } => ActionView::LoadUser {
                username: username@,
                platform,
            },
            LoginAction::WriteAudit(entry) => ActionView::WriteAudit(entry@),
            LoginAction::ReadClock => ActionView::ReadClock,
            LoginAction::IssueSession(cookies) => ActionView::IssueSession(cookies@),
            LoginAction::Reject { status } => ActionView::Reject { status },
            LoginAction::Nothing => ActionView::Nothing,
        }
    }
}

/// The end of an attempt in a failure: the browser gets the status.
pub open spec fn fail(failure: Failure) -> (StateView, ActionView) {
    (StateView::Failed { failure }, ActionView::Reject { status: failure.status })
}

/// What to ask of a provider when a login starts.
pub open spec fn login_request(platform: Platform) -> LoginRequestView {
    LoginRequestView {
        authorize_endpoint: authorize_endpoint(platform),
        scopes: scopes(platform),
        extras: extras(platform),
    }
}

/// What to send to fetch the profile behind an access token.
pub open spec fn profile_request(platform: Platform, access_token: Seq<char>)
    -> ProfileRequestView {
    ProfileRequestView {
        endpoint: profile_endpoint(platform),
        user_agent: user_agent(platform),
        authorization: "Bearer "@ + access_token,
    }
}

/// The next state and the next action, for a state and the outcome of the
/// last action.
///
/// An attempt that is over stays as it is. An outcome that the state did
/// not wait for ends the attempt. Every failure ends it, with the status
/// that belongs to the step. The attempt is recorded before the policy is
/// asked, and a session is granted in the last step alone.
pub open spec fn next<P: LoginPolicy>(ctx: ContextView<P>, state: StateView, event: EventView)
    -> (StateView, ActionView) {
    match (state, event) {
        (StateView::SessionMinted, _) => (state, ActionView::Nothing),
        (StateView::Failed { failure }, _) => (state, ActionView::Nothing),
        (StateView::Start, EventView::Begin) => (
            StateView::RedirectIssued,
            ActionView::Redirect(login_request(ctx.platform)),
        ),
        (StateView::RedirectIssued, EventView::RedirectSent) => (
            StateView::AwaitingCallback,
            ActionView::AwaitCallback,
        ),
        (StateView::AwaitingCallback, EventView::CodeExchanged(Ok(token))) => (
            StateView::TokenExchanged { token },
            ActionView::FetchProfile(profile_request(ctx.platform, token.access_token)),
        ),
        (StateView::AwaitingCallback, EventView::CodeExchanged(Err(e))) => fail(
            exchange_failure(e),
        ),
        (StateView::TokenExchanged { token }, EventView::ProfileResponse(Ok(body))) => {
            match profile_of(body, ctx.platform) {
                Ok(profile) => (
                    StateView::ProfileFetched { token, profile, data: body },
                    ActionView::UpsertUser {
                        username: profile.display_name,
                        platform: ctx.platform,
                    },
                ),
                Err(e) => fail(profile_failure(e)),
            }
        },
        (StateView::TokenExchanged { token }, EventView::ProfileResponse(Err(e))) => fail(
            profile_failure(e),
        ),
        (StateView::ProfileFetched { token, profile, data }, EventView::Upserted(Ok(_))) => (
            StateView::UserUpserted { token, profile, data },
            ActionView::LoadUser { username: profile.display_name, platform: ctx.platform },
        ),
        (StateView::ProfileFetched { token, profile, data }, EventView::Upserted(Err(e))) => fail(
            store_failure(e),
        ),
        (StateView::UserUpserted { token, profile, data }, EventView::UserLoaded(Ok(user))) => (
            StateView::UserLoaded { token, profile, user },
            ActionView::WriteAudit(login_attempt(user, data, ctx.client_ip)),
        ),
        (StateView::UserUpserted { token, profile, data }, EventView::UserLoaded(Err(e))) => fail(
            store_failure(e),
        ),
        (StateView::UserLoaded { token, profile, user }, EventView::AuditWritten(Ok(_))) => {
            match ctx.policy.holds_against(user, profile, ctx.client_ip) {
                None => (StateView::SecurityChecked { token, profile, user }, ActionView::ReadClock),
                Some(reason) => fail(denial(reason)),
            }
        },
        (StateView::UserLoaded { token, profile, user }, EventView::AuditWritten(Err(_))) => fail(
            audit_failure(),
        ),
        (StateView::SecurityChecked { token, profile, user }, EventView::Clock(now)) => {
            match minted(ctx.site, ctx.platform, user, profile, token, now) {
                Ok(cookies) => (StateView::SessionMinted, ActionView::IssueSession(cookies)),
                Err(failure) => fail(failure),
            }
        },
        _ => fail(out_of_order()),
    }
}

/// The failed state and the rejection for a failure.
fn reject(reason: FailureReason, status: u16) -> (r: (LoginState, LoginAction))
    ensures
        (r.0@, r.1@) == fail(Failure { reason, status }),
{
    (LoginState::Failed { failure: Failure { reason, status } }, LoginAction::Reject { status })
}

/// One step of a login attempt: the next state and the next action, for a
/// state and the outcome of the last action.
pub fn step<P: LoginPolicy>(ctx: &LoginContext<P>, state: LoginState, event: LoginEvent) -> (r: (
    LoginState,
    LoginAction,
))
    ensures
        (r.0@, r.1@) == next(ctx@, state@, event@),
{
    match (state, event) {
        (LoginState::SessionMinted, _) => (LoginState::SessionMinted, LoginAction::Nothing),
        (LoginState::Failed { failure }, _) => (LoginState::Failed { failure }, LoginAction::Nothing),
        (LoginState::Start, LoginEvent::Begin) => (
            LoginState::RedirectIssued,
            LoginAction::Redirect(ctx.platform.initiate_login()),
        ),
        (LoginState::RedirectIssued, LoginEvent::RedirectSent) => (
            LoginState::AwaitingCallback,
            LoginAction::AwaitCallback,
        ),
        (LoginState::AwaitingCallback, LoginEvent::CodeExchanged(Ok(token))) => {
            let request = ctx.platform.profile_request(token.access_token.as_str());
            (LoginState::TokenExchanged { token }, LoginAction::FetchProfile(request))
        },
        (LoginState::AwaitingCallback, LoginEvent::CodeExchanged(Err(e))) => reject(
            FailureReason::Provider(e),
            400,
        ),
        (LoginState::TokenExchanged { token }, LoginEvent::ProfileResponse(Ok(body))) => {
            match fetch_profile(body.as_str(), ctx.platform) {
                Ok(profile) => {
                    let username = profile.display_name.clone();
                    (
                        LoginState::ProfileFetched { token, profile, data: body },
                        LoginAction::UpsertUser { username, platform: ctx.platform },
                    )
                },
                Err(e) => reject(FailureReason::Provider(e), profile_status(e)),
            }
        },
        (LoginState::TokenExchanged { token }, LoginEvent::ProfileResponse(Err(e))) => reject(
            FailureReason::Provider(e),
            profile_status(e),
        ),
        (LoginState::ProfileFetched { token, profile, data }, LoginEvent::Upserted(Ok(_))) => {
            let username = profile.display_name.clone();
            (
                LoginState::UserUpserted { token, profile, data },
                LoginAction::LoadUser { username, platform: ctx.platform },
            )
        },
        (LoginState::ProfileFetched { token, profile, data }, LoginEvent::Upserted(Err(e))) => {
            reject(FailureReason::Store(e), 500)
        },
        (LoginState::UserUpserted { token, profile, data }, LoginEvent::UserLoaded(Ok(user))) => {
            let entry = attempt_entry(&user, data.as_str(), &ctx.client_ip);
            (LoginState::UserLoaded { token, profile, user }, LoginAction::WriteAudit(entry))
        },
        (LoginState::UserUpserted { token, profile, data }, LoginEvent::UserLoaded(Err(e))) => {
            reject(FailureReason::Store(e), 500)
        },
        (LoginState::UserLoaded { token, profile, user }, LoginEvent::AuditWritten(Ok(_))) => {
            match ctx.policy.evaluate(&user, &profile, &ctx.client_ip) {
                Ok(()) => (
                    LoginState::SecurityChecked { token, profile, user },
                    LoginAction::ReadClock,
                ),
                Err(reason) => reject(FailureReason::Denied(reason), 403),
            }
        },
        (LoginState::UserLoaded { token, profile, user }, LoginEvent::AuditWritten(Err(_))) => {
            reject(FailureReason::Session(SessionError::AuditFailure), 500)
        },
        (LoginState::SecurityChecked { token, profile, user }, LoginEvent::Clock(now)) => {
            match mint(&ctx.site, ctx.platform, &user, &profile, &token, now) {
                Ok(cookies) => (LoginState::SessionMinted, LoginAction::IssueSession(cookies)),
                Err(failure) => reject(failure.reason, failure.status),
            }
        },
        _ => reject(FailureReason::OutOfOrder, 500),
    }
}

/// The order of the last steps cannot be skipped: the attempt is handed to
/// the audit log exactly when the user was loaded, the policy is passed only
/// on the word that the attempt is on record, a session is issued only when
/// the policy was passed, and a failure sets no cookie.
pub proof fn law_steps_keep_their_order<P: LoginPolicy>(
    ctx: ContextView<P>,
    state: StateView,
    event: EventView,
)
    ensures
        next(ctx, state, event).1 is WriteAudit <==> (state is UserUpserted
            && event matches EventView::UserLoaded(Ok(_))),
        next(ctx, state, event).0 is SecurityChecked ==> (state is UserLoaded
            && event matches EventView::AuditWritten(Ok(_))),
        next(ctx, state, event).1 is IssueSession ==> (state is SecurityChecked
            && next(ctx, state, event).0 is SessionMinted),
        next(ctx, state, event).0 is Failed ==> !(next(ctx, state, event).1 is IssueSession),
        next(ctx, state, event).0 is SessionMinted ==> (state is SessionMinted
            || state is SecurityChecked),
{
}

/// The status of a failed profile request.
pub fn profile_status(e: ProviderError) -> (status: u16)
    ensures
        status == profile_failure(e).status,
{
    match e {
        ProviderError::Network => 500,
        ProviderError::BadPayload => 400,
    }
}

} // verus!
