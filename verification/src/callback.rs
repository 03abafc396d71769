//! A whole login attempt, from the provider's callback to the answer, run
//! against a directory and an audit log in memory.
//!
//! The attempt is driven through the state machine: each action that the
//! machine asks for is performed on the directory, the log or the clock
//! reading at hand, and its outcome is handed back.

use crate::directory::{loaded, upserted, well_formed, DirectoryView, StoreError, UserDirectory};
use crate::gate::{
    gate, log_well_formed, recorded, login_attempt, AuditLog, GateRefusal, LogView, LoginPolicy,
};
use crate::provider::{profile_of, ProviderError, ProviderToken, TokenView};
use crate::session::{
    audit_failure, denial, exchange_failure, minted, minting_view, out_of_order,
    profile_failure, step, store_failure, ContextView, CookiesView, Failure, FailureReason,
    LoginAction, LoginContext, LoginEvent, LoginState, SessionCookies,
};
use vstd::prelude::*;

verus! {

/// The view of the outcome of the code exchange.
pub open spec fn exchange_view(r: Result<ProviderToken, ProviderError>) -> Result<
    TokenView,
    ProviderError,
> {
    match r {
        Ok(t) => Ok(t@),
        Err(e) => Err(e),
    }
}

/// The view of the outcome of the profile request.
pub open spec fn response_view(r: Result<String, ProviderError>) -> Result<
    Seq<char>,
    ProviderError,
> {
    match r {
        Ok(b) => Ok(b@),
        Err(e) => Err(e),
    }
}

/// What a login attempt comes to: its answer, and the directory and the log
/// after it.
///
/// The steps follow one another, and the first that fails ends the attempt:
/// the code exchange, the profile request, the reading of the profile, the
/// upsert of the user, the load of the user, the security gate, and the
/// minting of the session. Nothing is written before the profile is read;
/// the user row stays where a later step fails.
pub open spec fn attempt_outcome<P: LoginPolicy>(
    ctx: ContextView<P>,
    exchange: Result<TokenView, ProviderError>,
    response: Result<Seq<char>, ProviderError>,
    directory: DirectoryView,
    log: LogView,
    now: u64,
) -> (Result<CookiesView, Failure>, DirectoryView, LogView) {
    match exchange {
        Err(e) => (Err(exchange_failure(e)), directory, log),
        Ok(token) => match response {
            Err(e) => (Err(profile_failure(e)), directory, log),
            Ok(body) => match profile_of(body, ctx.platform) {
                Err(e) => (Err(profile_failure(e)), directory, log),
                Ok(profile) => {
                    let upsert = upserted(directory, profile.display_name, ctx.platform);
                    match upsert.1 {
                        Err(e) => (Err(store_failure(e)), upsert.0, log),
                        Ok(_) => match loaded(upsert.0, profile.display_name, ctx.platform) {
                            Err(e) => (Err(store_failure(e)), upsert.0, log),
                            Ok(user) => {
                                let checked = gate(
                                    ctx.policy,
                                    user,
                                    profile,
                                    body,
                                    ctx.client_ip,
                                    log,
                                    now,
                                );
                                match checked.1 {
                                    Err(GateRefusal::Audit(_)) => (
                                        Err(audit_failure()),
                                        upsert.0,
                                        checked.0,
                                    ),
                                    Err(GateRefusal::Denied(reason)) => (
                                        Err(denial(reason)),
                                        upsert.0,
                                        checked.0,
                                    ),
                                    Ok(_) => (
                                        minted(ctx.site, ctx.platform, user, profile, token, now),
                                        upsert.0,
                                        checked.0,
                                    ),
                                }
                            },
                        },
                    }
                },
            },
        },
    }
}

/// An attempt whose profile cannot be read ends as a bad request and leaves
/// the directory and the log as they were.
pub proof fn law_unread_profile_writes_nothing<P: LoginPolicy>(
    ctx: ContextView<P>,
    token: TokenView,
    body: Seq<char>,
    directory: DirectoryView,
    log: LogView,
    now: u64,
)
    requires
        profile_of(body, ctx.platform) is Err,
    ensures
        attempt_outcome(ctx, Ok(token), Ok(body), directory, log, now) == (
            Err::<CookiesView, Failure>(
                Failure {
                    reason: FailureReason::Provider(ProviderError::BadPayload),
                    status: 400,
                },
            ),
            directory,
            log,
        ),
{
}

/// No session without a record: an attempt that is granted a session left
/// exactly one new entry in the log, the one that records it.
pub proof fn law_session_is_on_record<P: LoginPolicy>(
    ctx: ContextView<P>,
    exchange: Result<TokenView, ProviderError>,
    response: Result<Seq<char>, ProviderError>,
    directory: DirectoryView,
    log: LogView,
    now: u64,
)
    requires
        attempt_outcome(ctx, exchange, response, directory, log, now).0 is Ok,
    ensures
        ({
            let after = attempt_outcome(ctx, exchange, response, directory, log, now);
            let profile = profile_of(response->Ok_0, ctx.platform)->Ok_0;
            let user = loaded(after.1, profile.display_name, ctx.platform)->Ok_0;
            &&& after.2.entries == log.entries.push(
                recorded(
                    login_attempt(user, response->Ok_0, ctx.client_ip),
                    (log.entries.len() + 1) as i32,
                    now,
                ),
            )
            &&& after.0->Ok_0.username.value == profile.display_name
            &&& after.0->Ok_0.username.max_age == after.0->Ok_0.claims.max_age
        }),
{
}

/// A denied attempt is on record: where the log has room and the policy
/// holds something against the user, the answer is forbidden, no session is
/// granted, and the log has exactly one new entry with the attempt's data.
pub proof fn law_denied_attempt_is_on_record<P: LoginPolicy>(
    ctx: ContextView<P>,
    token: TokenView,
    body: Seq<char>,
    directory: DirectoryView,
    log: LogView,
    now: u64,
)
    requires
        profile_of(body, ctx.platform) is Ok,
        upserted(directory, profile_of(body, ctx.platform)->Ok_0.display_name, ctx.platform).1
            is Ok,
        loaded(
            upserted(
                directory,
                profile_of(body, ctx.platform)->Ok_0.display_name,
                ctx.platform,
            ).0,
            profile_of(body, ctx.platform)->Ok_0.display_name,
            ctx.platform,
        ) is Ok,
        log.entries.len() < log.capacity,
        ctx.policy.holds_against(
            loaded(
                upserted(
                    directory,
                    profile_of(body, ctx.platform)->Ok_0.display_name,
                    ctx.platform,
                ).0,
                profile_of(body, ctx.platform)->Ok_0.display_name,
                ctx.platform,
            )->Ok_0,
            profile_of(body, ctx.platform)->Ok_0,
            ctx.client_ip,
        ) is Some,
    ensures
        ({
            let after = attempt_outcome(ctx, Ok(token), Ok(body), directory, log, now);
            let profile = profile_of(body, ctx.platform)->Ok_0;
            let user = loaded(after.1, profile.display_name, ctx.platform)->Ok_0;
            &&& after.0 is Err
            &&& after.0->Err_0.status == 403
            &&& after.0->Err_0.reason == FailureReason::Denied(
                ctx.policy.holds_against(user, profile, ctx.client_ip)->Some_0,
            )
            &&& after.2.entries == log.entries.push(
                recorded(
                    login_attempt(user, body, ctx.client_ip),
                    (log.entries.len() + 1) as i32,
                    now,
                ),
            )
        }),
{
}

/// The failure that a state stands for: its own where the attempt has
/// failed, and a breach of the order of the steps for any other state.
pub open spec fn failure_of(state: crate::session::StateView) -> Failure {
    match state {
        crate::session::StateView::Failed { failure } => failure,
        _ => out_of_order(),
    }
}

/// The failure that a state stands for.
pub fn ended(state: &LoginState) -> (failure: Failure)
    ensures
        failure == failure_of(state@),
{
    match state {
        LoginState::Failed { failure } => *failure,
        _ => Failure { reason: FailureReason::OutOfOrder, status: 500 },
    }
}

/// The outcome of an append as the state machine takes it.
pub fn written(r: Result<i32, StoreError>) -> (w: Result<(), StoreError>)
    ensures
        w is Ok <==> r is Ok,
        r matches Err(e) ==> w == Err::<(), StoreError>(e),
{
    match r {
        Ok(_) => Ok(()),
        Err(e) => Err(e),
    }
}

/// Runs a login attempt from the provider's callback on.
///
/// `exchange` is the outcome of the code exchange, `response` the outcome of
/// the profile request, and `now` the reading of the clock that the audit
/// entry and the expiry of the session go by. The answer is both cookies or
/// a failure with its status.
pub fn complete_login<P: LoginPolicy>(
    ctx: &LoginContext<P>,
    exchange: Result<ProviderToken, ProviderError>,
    response: Result<String, ProviderError>,
    directory: &mut UserDirectory,
    log: &mut AuditLog,
    now: u64,
) -> (r: Result<SessionCookies, Failure>)
    requires
        well_formed(old(directory)@),
        log_well_formed(old(log)@),
    ensures
        (minting_view(r), final(directory)@, final(log)@) == attempt_outcome(
            ctx@,
            exchange_view(exchange),
            response_view(response),
            old(directory)@,
            old(log)@,
            now,
        ),
        well_formed(final(directory)@),
        log_well_formed(final(log)@),
{
    let (state, action) = step(ctx, LoginState::AwaitingCallback, LoginEvent::CodeExchanged(exchange));
    match action {
        LoginAction::FetchProfile(_) => {},
        _ => {
            return Err(ended(&state));
        },
    }
    let (state, action) = step(ctx, state, LoginEvent::ProfileResponse(response));
    let upsert = match action {
        LoginAction::UpsertUser { username, platform } => directory.upsert(
            username.as_str(),
            platform,
        ),
        _ => {
            return Err(ended(&state));
        },
    };
    let (state, action) = step(ctx, state, LoginEvent::Upserted(upsert));
    let load = match action {
        LoginAction::LoadUser { username, platform } => directory.load(username.as_str(), platform),
        _ => {
            return Err(ended(&state));
        },
    };
    let (state, action) = step(ctx, state, LoginEvent::UserLoaded(load));
    let write = match action {
        LoginAction::WriteAudit(entry) => written(log.append(entry, now)),
        _ => {
            return Err(ended(&state));
        },
    };
    let (state, action) = step(ctx, state, LoginEvent::AuditWritten(write));
    match action {
        LoginAction::ReadClock => {},
        _ => {
            return Err(ended(&state));
        },
    }
    let (state, action) = step(ctx, state, LoginEvent::Clock(now));
    match action {
        LoginAction::IssueSession(cookies) => Ok(cookies),
        _ => Err(ended(&state)),
    }
}

} // verus!
