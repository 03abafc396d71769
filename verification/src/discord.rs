//! The routes of the Discord provider: login, logout and the callback.

use crate::callback::{attempt_outcome, complete_login, exchange_view, response_view};
use crate::claims::optional_view;
use crate::directory::{well_formed, UserDirectory};
use crate::gate::{log_well_formed, AuditLog, LoginPolicy};
use crate::guard::Cip;
use crate::provider::{
    authorize_endpoint, extras, pairs, scopes, texts, LoginRequest, Platform, ProviderError,
    ProviderToken,
};
use crate::session::{
    cleared_cookies, minting_view, ContextView, Failure, LoginContext, SessionCookies,
    SiteConfig,
};
use vstd::prelude::*;

verus! {

/// What to ask of Discord when a login starts: to identify the user, and
/// nothing more.
pub fn discord_login() -> (request: LoginRequest)
    ensures
        request.authorize_endpoint@ == authorize_endpoint(Platform::Discord),
        texts(request.scopes@) == scopes(Platform::Discord),
        pairs(request.extras@) == extras(Platform::Discord),
{
    Platform::Discord.initiate_login()
}

/// The cookies that end a session.
pub fn discord_logout(site: &SiteConfig) -> (cookies: SessionCookies)
    ensures
        cookies@ == cleared_cookies(site@),
{
    crate::session::logout(site)
}

/// What a Discord callback is run with.
pub open spec fn discord_context<P: LoginPolicy>(
    site: SiteConfig,
    policy: P,
    cip: Cip,
) -> ContextView<P> {
    ContextView {
        platform: Platform::Discord,
        site: site@,
        policy,
        client_ip: optional_view(cip.0),
    }
}

/// The callback of a Discord login: reads the profile, upserts and loads
/// the user, lets the security gate decide, and grants the session.
///
/// `token` is what the code exchange gave, `response` what the profile
/// request gave. The answer is both cookies, to be set on the way to the
/// home page, or a failure with its status and no cookie.
pub fn discord_callback<P: LoginPolicy>(
    token: Result<ProviderToken, ProviderError>,
    response: Result<String, ProviderError>,
    cip: Cip,
    directory: &mut UserDirectory,
    log: &mut AuditLog,
    site: SiteConfig,
    policy: P,
    now: u64,
) -> (r: Result<SessionCookies, Failure>)
    requires
        well_formed(old(directory)@),
        log_well_formed(old(log)@),
    ensures
        (minting_view(r), final(directory)@, final(log)@) == attempt_outcome(
            discord_context(site, policy, cip),
            exchange_view(token),
            response_view(response),
            old(directory)@,
            old(log)@,
            now,
        ),
        well_formed(final(directory)@),
        log_well_formed(final(log)@),
{
    let ctx = LoginContext { platform: Platform::Discord, site, policy, client_ip: cip.0 };
    complete_login(&ctx, token, response, directory, log, now)
}

} // verus!
