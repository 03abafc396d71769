use risk_auth::callback::complete_login;
use risk_auth::claims::{decode, Claims, DecodeError};
use risk_auth::directory::{StoreError, User, UserDirectory};
use risk_auth::discord::{discord_callback, discord_login, discord_logout};
use risk_auth::gate::{
    check, AuditLog, Baseline, DenyList, DenyReason, GateRefusal, NewAuditEntry, SessionError,
    LOGIN_ATTEMPT,
};
use risk_auth::guard::{high_trust, low_trust, privileged, AuthError, Cip, Identity, LowTrust};
use risk_auth::provider::{ExternalProfile, Platform, ProviderError, ProviderToken};
use risk_auth::reddit::{callback, check_login, login, logout};
use risk_auth::session::{
    mint, step, Failure, FailureReason, LoginAction, LoginContext, LoginEvent, LoginState,
    SameSite, SessionCookies, SiteConfig,
};

const NOW: u64 = 1_700_000_000;

fn site() -> SiteConfig {
    SiteConfig::new("risk.example".to_string(), Some("a secret".to_string())).unwrap()
}

fn token() -> ProviderToken {
    ProviderToken {
        access_token: "access-1".to_string(),
        refresh_token: Some("refresh-1".to_string()),
    }
}

fn bob_body() -> String {
    "{\"name\":\"bob\",\"id\":\"42\"}".to_string()
}

fn claims_of(cookies: &SessionCookies) -> Claims {
    decode(&cookies.claims.value, b"a secret", NOW).unwrap()
}

#[test]
fn scenario_a_first_discord_login() {
    let mut directory = UserDirectory::new(100);
    let mut log = AuditLog::new(100);
    let cookies = discord_callback(
        Ok(token()),
        Ok(bob_body()),
        Cip(Some("203.0.113.7".to_string())),
        &mut directory,
        &mut log,
        site(),
        Baseline,
        NOW,
    )
    .unwrap();
    assert_eq!(
        directory.load("bob", Platform::Discord),
        Ok(User { id: 1, username: "bob".to_string(), platform: Platform::Discord })
    );
    assert_eq!(directory.len(), 1);
    let claims = claims_of(&cookies);
    assert_eq!(claims.user_id, 1);
    assert_eq!(claims.username, "bob");
    assert_eq!(claims.access_token, "access-1");
    assert_eq!(claims.refresh_token, Some("refresh-1".to_string()));
    assert_eq!(claims.expires_at, NOW + 168 * 3600);
    assert_eq!(cookies.username.name, "username");
    assert_eq!(cookies.username.value, "bob");
    assert_eq!(cookies.claims.name, "jwt");
    for cookie in [&cookies.username, &cookies.claims] {
        assert_eq!(cookie.max_age, 604_800);
        assert_eq!(cookie.domain, "risk.example");
        assert_eq!(cookie.path, "/");
        assert_eq!(cookie.same_site, SameSite::Lax);
        assert!(cookie.http_only);
    }
    assert_eq!(log.len(), 1);
    let entry = log.get(0).unwrap();
    assert_eq!(entry.id, 1);
    assert_eq!(entry.user_id, 1);
    assert_eq!(entry.event_kind, 1);
    assert_eq!(entry.timestamp, NOW);
    assert_eq!(entry.data, bob_body());
    assert_eq!(entry.client_ip, Some("203.0.113.7".to_string()));
}

#[test]
fn scenario_b_malformed_profile() {
    let mut directory = UserDirectory::new(100);
    let mut log = AuditLog::new(100);
    for body in ["{\"name\":", "[]", "{\"id\":1}", "{\"name\":7}", "{\"name\":\"\"}", ""] {
        let answer = discord_callback(
            Ok(token()),
            Ok(body.to_string()),
            Cip(None),
            &mut directory,
            &mut log,
            site(),
            Baseline,
            NOW,
        );
        assert_eq!(
            answer,
            Err(Failure {
                reason: FailureReason::Provider(ProviderError::BadPayload),
                status: 400
            }),
            "{}",
            body
        );
    }
    assert_eq!(directory.len(), 0);
    assert_eq!(log.len(), 0);
}

#[test]
fn scenario_c_banned_user() {
    let mut directory = UserDirectory::new(100);
    let mut log = AuditLog::new(100);
    let policy = DenyList { entries: vec![(1, DenyReason::Banned)] };
    let answer = callback(
        Ok(token()),
        Ok(bob_body()),
        Cip(None),
        &mut directory,
        &mut log,
        site(),
        policy,
        NOW,
    );
    assert_eq!(
        answer,
        Err(Failure { reason: FailureReason::Denied(DenyReason::Banned), status: 403 })
    );
    assert_eq!(log.len(), 1);
    let entry = log.get(0).unwrap();
    assert_eq!(entry.user_id, 1);
    assert_eq!(entry.event_kind, LOGIN_ATTEMPT);
    assert_eq!(entry.data, bob_body());
    assert_eq!(entry.client_ip, None);
    assert_eq!(directory.len(), 1);
}

#[test]
fn scenario_d_low_trust_without_claims() {
    assert_eq!(
        low_trust(Some("carol".to_string())),
        LowTrust::Success(Identity { username: "carol".to_string() })
    );
    assert_eq!(low_trust(None), LowTrust::Forward);
    assert_eq!(high_trust(None, &site(), NOW), Err(AuthError::Missing));
    assert_eq!(privileged(Some("carol"), None, &site(), NOW), Err(AuthError::Missing));
}

#[test]
fn logout_clears_both_cookies_and_revokes_nothing() {
    let mut directory = UserDirectory::new(100);
    let mut log = AuditLog::new(100);
    let cookies = callback(
        Ok(token()),
        Ok(bob_body()),
        Cip(None),
        &mut directory,
        &mut log,
        site(),
        Baseline,
        NOW,
    )
    .unwrap();
    for cleared in [logout(&site()), discord_logout(&site())] {
        assert_eq!(cleared.username.name, "username");
        assert_eq!(cleared.claims.name, "jwt");
        for cookie in [&cleared.username, &cleared.claims] {
            assert_eq!(cookie.max_age, 0);
            assert_eq!(cookie.value, "");
            assert_eq!(cookie.domain, "risk.example");
            assert_eq!(cookie.path, "/");
        }
    }
    let claims = high_trust(Some(&cookies.claims.value), &site(), NOW + 1).unwrap();
    assert_eq!(claims.username, "bob");
    assert_eq!(claims.expires_at, NOW + 720 * 3600);
}

#[test]
fn reddit_session_lasts_thirty_days() {
    let mut directory = UserDirectory::new(100);
    let mut log = AuditLog::new(100);
    let cookies = callback(
        Ok(ProviderToken { access_token: "a".to_string(), refresh_token: None }),
        Ok("{\"name\":\"Alice\"}".to_string()),
        Cip(None),
        &mut directory,
        &mut log,
        site(),
        Baseline,
        NOW,
    )
    .unwrap();
    assert_eq!(cookies.username.max_age, 2_592_000);
    assert_eq!(cookies.claims.max_age, 2_592_000);
    assert_eq!(cookies.username.value, "Alice");
    let claims = claims_of(&cookies);
    assert_eq!(claims.username, "alice");
    assert_eq!(claims.refresh_token, None);
    assert_eq!(claims.expires_at, NOW + 2_592_000);
    assert_eq!(
        privileged(Some("ALICE"), Some(&cookies.claims.value), &site(), NOW).unwrap(),
        claims
    );
    assert_eq!(
        privileged(Some("bob"), Some(&cookies.claims.value), &site(), NOW),
        Err(AuthError::Mismatch)
    );
    assert_eq!(
        privileged(None, Some(&cookies.claims.value), &site(), NOW),
        Err(AuthError::Mismatch)
    );
    assert_eq!(
        high_trust(Some(&cookies.claims.value), &site(), NOW + 2_592_001),
        Err(AuthError::Expired)
    );
    assert_eq!(high_trust(Some("garbage"), &site(), NOW), Err(AuthError::Invalid));
    let other = SiteConfig::new("risk.example".to_string(), Some("other".to_string())).unwrap();
    assert_eq!(high_trust(Some(&cookies.claims.value), &other, NOW), Err(AuthError::Invalid));
}

#[test]
fn failures_before_the_profile_is_read() {
    let mut directory = UserDirectory::new(100);
    let mut log = AuditLog::new(100);
    for e in [ProviderError::Network, ProviderError::BadPayload] {
        let answer = callback(
            Err(e),
            Ok(bob_body()),
            Cip(None),
            &mut directory,
            &mut log,
            site(),
            Baseline,
            NOW,
        );
        assert_eq!(answer, Err(Failure { reason: FailureReason::Provider(e), status: 400 }));
    }
    let answer = callback(
        Ok(token()),
        Err(ProviderError::Network),
        Cip(None),
        &mut directory,
        &mut log,
        site(),
        Baseline,
        NOW,
    );
    assert_eq!(
        answer,
        Err(Failure { reason: FailureReason::Provider(ProviderError::Network), status: 500 })
    );
    assert_eq!(directory.len(), 0);
    assert_eq!(log.len(), 0);
}

#[test]
fn full_stores_fail_the_attempt() {
    let mut directory = UserDirectory::new(0);
    let mut log = AuditLog::new(100);
    let answer = callback(
        Ok(token()),
        Ok(bob_body()),
        Cip(None),
        &mut directory,
        &mut log,
        site(),
        Baseline,
        NOW,
    );
    assert_eq!(
        answer,
        Err(Failure { reason: FailureReason::Store(StoreError::Unavailable), status: 500 })
    );
    assert_eq!(log.len(), 0);

    let mut directory = UserDirectory::new(100);
    let mut log = AuditLog::new(0);
    let policy = DenyList { entries: vec![(1, DenyReason::Banned)] };
    let answer = callback(
        Ok(token()),
        Ok(bob_body()),
        Cip(None),
        &mut directory,
        &mut log,
        site(),
        policy,
        NOW,
    );
    assert_eq!(
        answer,
        Err(Failure { reason: FailureReason::Session(SessionError::AuditFailure), status: 500 })
    );
    assert_eq!(directory.len(), 1);
    assert_eq!(log.len(), 0);
}

#[test]
fn codec_failure_issues_no_cookie() {
    let user = User { id: 1, username: "bob".to_string(), platform: Platform::Reddit };
    let profile = ExternalProfile { display_name: "bob".to_string(), platform: Platform::Reddit };
    let failure = Err(Failure { reason: FailureReason::Codec, status: 406 });
    assert_eq!(mint(&site(), Platform::Reddit, &user, &profile, &token(), u64::MAX), failure);
    assert_eq!(
        mint(&site(), Platform::Reddit, &user, &profile, &token(), u64::MAX - 2_591_999),
        failure
    );
    let long = ProviderToken { access_token: "x".repeat(70_000), refresh_token: None };
    assert_eq!(mint(&site(), Platform::Reddit, &user, &profile, &long, NOW), failure);
    let cookies =
        mint(&site(), Platform::Reddit, &user, &profile, &token(), u64::MAX - 2_592_000).unwrap();
    assert_eq!(
        decode(&cookies.claims.value, b"a secret", u64::MAX).unwrap().expires_at,
        u64::MAX
    );
    let mut directory = UserDirectory::new(100);
    let mut log = AuditLog::new(100);
    let answer = callback(
        Ok(long),
        Ok(bob_body()),
        Cip(None),
        &mut directory,
        &mut log,
        site(),
        Baseline,
        NOW,
    );
    assert_eq!(answer, failure);
    assert_eq!(log.len(), 1);
}

#[test]
fn the_machine_step_by_step() {
    let ctx = LoginContext {
        platform: Platform::Reddit,
        site: site(),
        policy: Baseline,
        client_ip: Some("198.51.100.1".to_string()),
    };
    let (state, action) = step(&ctx, LoginState::Start, LoginEvent::Begin);
    assert_eq!(state, LoginState::RedirectIssued);
    assert_eq!(action, LoginAction::Redirect(login()));
    let (state, action) = step(&ctx, state, LoginEvent::RedirectSent);
    assert_eq!(state, LoginState::AwaitingCallback);
    assert_eq!(action, LoginAction::AwaitCallback);
    let (state, action) = step(&ctx, state, LoginEvent::CodeExchanged(Ok(token())));
    assert_eq!(state, LoginState::TokenExchanged { token: token() });
    match action {
        LoginAction::FetchProfile(request) => {
            assert_eq!(request.endpoint, "https://oauth.reddit.com/api/v1/me");
            assert_eq!(request.user_agent, "AggieRiskLocal - Dev Edition");
            assert_eq!(request.authorization, "Bearer access-1");
        }
        other => panic!("{:?}", other),
    }
    let (state, action) = step(&ctx, state, LoginEvent::ProfileResponse(Ok(bob_body())));
    assert_eq!(
        action,
        LoginAction::UpsertUser { username: "bob".to_string(), platform: Platform::Reddit }
    );
    let (state, action) = step(&ctx, state, LoginEvent::Upserted(Ok(())));
    assert_eq!(
        action,
        LoginAction::LoadUser { username: "bob".to_string(), platform: Platform::Reddit }
    );
    let user = User { id: 9, username: "bob".to_string(), platform: Platform::Reddit };
    let (state, action) = step(&ctx, state, LoginEvent::UserLoaded(Ok(user.clone())));
    assert_eq!(
        action,
        LoginAction::WriteAudit(NewAuditEntry {
            user_id: 9,
            event_kind: 1,
            data: bob_body(),
            client_ip: Some("198.51.100.1".to_string()),
        })
    );
    let (state, action) = step(&ctx, state, LoginEvent::AuditWritten(Ok(())));
    assert_eq!(action, LoginAction::ReadClock);
    assert!(matches!(state, LoginState::SecurityChecked { .. }));
    let (state, action) = step(&ctx, state, LoginEvent::Clock(NOW));
    assert_eq!(state, LoginState::SessionMinted);
    let cookies = match action {
        LoginAction::IssueSession(cookies) => cookies,
        other => panic!("{:?}", other),
    };
    assert_eq!(claims_of(&cookies).user_id, 9);
    let (state, action) = step(&ctx, state, LoginEvent::Clock(NOW));
    assert_eq!(state, LoginState::SessionMinted);
    assert_eq!(action, LoginAction::Nothing);
}

#[test]
fn the_machine_rejects_what_it_did_not_wait_for() {
    let ctx = LoginContext {
        platform: Platform::Discord,
        site: site(),
        policy: Baseline,
        client_ip: None,
    };
    let failure = Failure { reason: FailureReason::OutOfOrder, status: 500 };
    let (state, action) = step(&ctx, LoginState::Start, LoginEvent::Clock(NOW));
    assert_eq!(state, LoginState::Failed { failure });
    assert_eq!(action, LoginAction::Reject { status: 500 });
    let (state, action) = step(&ctx, state, LoginEvent::Begin);
    assert_eq!(state, LoginState::Failed { failure });
    assert_eq!(action, LoginAction::Nothing);
    let (state, action) =
        step(&ctx, LoginState::AwaitingCallback, LoginEvent::Upserted(Err(StoreError::Conflict)));
    assert_eq!(state, LoginState::Failed { failure });
    assert_eq!(action, LoginAction::Reject { status: 500 });
    let waiting = LoginState::ProfileFetched {
        token: token(),
        profile: ExternalProfile { display_name: "bob".to_string(), platform: Platform::Discord },
        data: bob_body(),
    };
    for e in [StoreError::Conflict, StoreError::NotFound, StoreError::Unavailable] {
        let (state, action) = step(&ctx, waiting.clone(), LoginEvent::Upserted(Err(e)));
        assert_eq!(
            state,
            LoginState::Failed { failure: Failure { reason: FailureReason::Store(e), status: 500 } }
        );
        assert_eq!(action, LoginAction::Reject { status: 500 });
    }
    let (state, _) = step(&ctx, LoginState::Start, LoginEvent::Begin);
    assert_eq!(state, LoginState::RedirectIssued);
    assert_eq!(discord_login().scopes, vec!["identify".to_string()]);
}

#[test]
fn the_gate_writes_one_entry_whatever_it_answers() {
    let user = User { id: 5, username: "eve".to_string(), platform: Platform::Reddit };
    let profile = ExternalProfile { display_name: "Eve".to_string(), platform: Platform::Reddit };
    let mut log = AuditLog::new(3);
    assert_eq!(check(&Baseline, &user, &profile, "{}", &None, &mut log, 10), Ok(()));
    assert_eq!(log.len(), 1);
    let list = DenyList {
        entries: vec![
            (4, DenyReason::Banned),
            (5, DenyReason::PolicyViolation),
            (5, DenyReason::Banned),
        ],
    };
    assert_eq!(
        check(&list, &user, &profile, "{}", &None, &mut log, 11),
        Err(GateRefusal::Denied(DenyReason::PolicyViolation))
    );
    assert_eq!(log.len(), 2);
    assert_eq!(log.get(1).unwrap().id, 2);
    assert_eq!(log.get(1).unwrap().timestamp, 11);
    assert_eq!(check_login(&user, &profile, "{}", &None, &mut log, 12), Ok(()));
    assert_eq!(log.len(), 3);
    assert_eq!(check_login(&user, &profile, "{}", &None, &mut log, 13), Err(500));
    assert_eq!(
        check(&list, &user, &profile, "{}", &None, &mut log, 13),
        Err(GateRefusal::Audit(SessionError::AuditFailure))
    );
    assert_eq!(log.len(), 3);
    assert_eq!(log.get(3), None);
}

#[test]
fn complete_login_is_what_the_routes_run() {
    let ctx = LoginContext {
        platform: Platform::Discord,
        site: site(),
        policy: Baseline,
        client_ip: None,
    };
    let mut directory = UserDirectory::new(100);
    let mut log = AuditLog::new(100);
    let first =
        complete_login(&ctx, Ok(token()), Ok(bob_body()), &mut directory, &mut log, NOW).unwrap();
    let second =
        complete_login(&ctx, Ok(token()), Ok(bob_body()), &mut directory, &mut log, NOW).unwrap();
    assert_eq!(first, second);
    assert_eq!(directory.len(), 1);
    assert_eq!(log.len(), 2);
    assert_eq!(decode(&first.claims.value, b"a secret", NOW + 604_801), Err(DecodeError::Expired));
}
