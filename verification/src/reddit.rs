//! The routes of the Reddit provider: login, logout, and the callback with
//! its security check.

use crate::callback::{attempt_outcome, complete_login, exchange_view, response_view};
use crate::claims::optional_view;
use crate::directory::{well_formed, User, UserDirectory};
use crate::gate::{
    check, gate, log_well_formed, AuditLog, Baseline, GateRefusal, LoginPolicy,
};
use crate::guard::Cip;
use crate::provider::{
    authorize_endpoint, extras, pairs, scopes, texts, ExternalProfile, LoginRequest, Platform,
    ProviderError, ProviderToken,
};
use crate::session::{
    cleared_cookies, minting_view, ContextView, Failure, LoginContext, SessionCookies,
    SiteConfig,
};
use vstd::prelude::*;

verus! {

/// What to ask of Reddit when a login starts: the identity scope, and a
/// permanent grant.
pub fn login() -> (request: LoginRequest)
    ensures
        request.authorize_endpoint@ == authorize_endpoint(Platform::Reddit),
        texts(request.scopes@) == scopes(Platform::Reddit),
        pairs(request.extras@) == extras(Platform::Reddit),
{
    Platform::Reddit.initiate_login()
}

/// The cookies that end a session.
pub fn logout(site: &SiteConfig) -> (cookies: SessionCookies)
    ensures
        cookies@ == cleared_cookies(site@),
{
    crate::session::logout(site)
}

/// The status that a refusal of the security gate is answered with.
pub open spec fn refusal_status(refusal: GateRefusal) -> u16 {
    match refusal {
        GateRefusal::Denied(_) => 403,
        GateRefusal::Audit(_) => 500,
    }
}

/// The answer to a login check: nothing to object, or a status.
pub open spec fn check_answer(r: Result<(), GateRefusal>) -> Result<(), u16> {
    match r {
        Ok(_) => Ok(()),
        Err(refusal) => Err(refusal_status(refusal)),
    }
}

/// Lets the security gate decide whether a login goes through, under the
/// policy that lets everyone in: the attempt is recorded, and the answer is
/// a server error exactly when it could not be.
pub fn check_login(
    user_information: &User,
    profile: &ExternalProfile,
    user_ext: &str,
    cip_ext: &Option<String>,
    log: &mut AuditLog,
    now: u64,
) -> (r: Result<(), u16>)
    requires
        log_well_formed(old(log)@),
    ensures
        final(log)@ == gate(
            Baseline,
            user_information@,
            profile@,
            user_ext@,
            optional_view(*cip_ext),
            old(log)@,
            now,
        ).0,
        r == check_answer(
            gate(
                Baseline,
                user_information@,
                profile@,
                user_ext@,
                optional_view(*cip_ext),
                old(log)@,
                now,
            ).1,
        ),
        log_well_formed(final(log)@),
{
    match check(&Baseline, user_information, profile, user_ext, cip_ext, log, now) {
        Ok(()) => Ok(()),
        Err(GateRefusal::Denied(_)) => Err(403),
        Err(GateRefusal::Audit(_)) => Err(500),
    }
}

/// What a Reddit callback is run with.
pub open spec fn reddit_context<P: LoginPolicy>(
    site: SiteConfig,
    policy: P,
    cip: Cip,
) -> ContextView<P> {
    ContextView {
        platform: Platform::Reddit,
        site: site@,
        policy,
        client_ip: optional_view(cip.0),
    }
}

/// The callback of a Reddit login: reads the profile, upserts and loads the
/// user, lets the security gate decide, and grants the session.
///
/// `token` is what the code exchange gave, `response` what the profile
/// request gave. The answer is both cookies, to be set on the way to the
/// home page, or a failure with its status and no cookie.
pub fn callback<P: LoginPolicy>(
    token: Result<ProviderToken, ProviderError>,
    response: Result<String, ProviderError>,
    cip: Cip,
    directory: &mut UserDirectory,
    log: &mut AuditLog,
    site: SiteConfig,
    policy: P,
    now: u64,
) -> (r: Result<SessionCookies, Failure>)
    requires
        well_formed(old(directory)@),
        log_well_formed(old(log)@),
    ensures
        (minting_view(r), final(directory)@, final(log)@) == attempt_outcome(
            reddit_context(site, policy, cip),
            exchange_view(token),
            response_view(response),
            old(directory)@,
            old(log)@,
            now,
        ),
        well_formed(final(directory)@),
        log_well_formed(final(log)@),
{
    let ctx = LoginContext { platform: Platform::Reddit, site, policy, client_ip: cip.0 };
    complete_login(&ctx, token, response, directory, log, now)
}

} // verus!
