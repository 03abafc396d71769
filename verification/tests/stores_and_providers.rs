use risk_auth::directory::{StoreError, User, UserDirectory};
use risk_auth::gate::{AuditLog, NewAuditEntry};
use risk_auth::guard::{names_match, same_user, Cip, Identity};
use risk_auth::claims::Claims;
use risk_auth::hex::{from_hex, to_hex};
use risk_auth::provider::{
    display_name, fetch_profile, profile_from_name, ExternalProfile, Platform, ProviderError,
};
use risk_auth::session::SiteConfig;

#[test]
fn upsert_is_idempotent_and_ignores_case() {
    let mut directory = UserDirectory::new(10);
    assert_eq!(directory.upsert("Alice", Platform::Reddit), Ok(()));
    assert_eq!(directory.upsert("Alice", Platform::Reddit), Ok(()));
    assert_eq!(directory.len(), 1);
    assert_eq!(directory.upsert("alice", Platform::Reddit), Ok(()));
    assert_eq!(directory.len(), 1);
    let row = User { id: 1, username: "alice".to_string(), platform: Platform::Reddit };
    assert_eq!(directory.load("alice", Platform::Reddit), Ok(row.clone()));
    assert_eq!(directory.load("ALICE", Platform::Reddit), Ok(row));
}

#[test]
fn platforms_keep_their_own_users() {
    let mut directory = UserDirectory::new(10);
    assert_eq!(directory.load("bob", Platform::Discord), Err(StoreError::NotFound));
    assert_eq!(directory.upsert("bob", Platform::Discord), Ok(()));
    assert_eq!(directory.load("bob", Platform::Reddit), Err(StoreError::NotFound));
    assert_eq!(directory.upsert("bob", Platform::Reddit), Ok(()));
    assert_eq!(directory.upsert("carol", Platform::Reddit), Ok(()));
    assert_eq!(directory.load("bob", Platform::Reddit).unwrap().id, 2);
    assert_eq!(directory.load("Carol", Platform::Reddit).unwrap().id, 3);
    assert_eq!(directory.load("bob", Platform::Discord).unwrap().id, 1);
    assert_eq!(directory.len(), 3);
}

#[test]
fn a_full_directory_takes_no_new_user() {
    let mut directory = UserDirectory::new(1);
    assert_eq!(directory.upsert("bob", Platform::Discord), Ok(()));
    assert_eq!(directory.upsert("carol", Platform::Discord), Err(StoreError::Unavailable));
    assert_eq!(directory.upsert("BOB", Platform::Discord), Ok(()));
    assert_eq!(directory.len(), 1);
    assert_eq!(directory.load("carol", Platform::Discord), Err(StoreError::NotFound));
}

#[test]
fn the_log_numbers_its_entries() {
    let mut log = AuditLog::new(2);
    let entry = NewAuditEntry {
        user_id: 7,
        event_kind: 1,
        data: "{\"name\":\"x\"}".to_string(),
        client_ip: None,
    };
    assert_eq!(log.append(entry.clone(), 100), Ok(1));
    assert_eq!(log.append(entry.clone(), 101), Ok(2));
    assert_eq!(log.append(entry, 102), Err(StoreError::Unavailable));
    assert_eq!(log.len(), 2);
    let second = log.get(1).unwrap();
    assert_eq!((second.id, second.user_id, second.timestamp), (2, 7, 101));
    assert_eq!(second.data, "{\"name\":\"x\"}");
}

#[test]
fn profile_documents() {
    assert_eq!(display_name("{\"name\":\"bob\"}"), Some("bob".to_string()));
    assert_eq!(display_name("{\"name\":\"b\\u00f6b\",\"x\":[1,2]}"), Some("böb".to_string()));
    assert_eq!(display_name("{\"name\":null}"), None);
    assert_eq!(display_name("{\"Name\":\"bob\"}"), None);
    assert_eq!(display_name("\"bob\""), None);
    assert_eq!(display_name("not json"), None);
    assert_eq!(
        fetch_profile("{\"name\":\"bob\"}", Platform::Discord),
        Ok(ExternalProfile { display_name: "bob".to_string(), platform: Platform::Discord })
    );
    assert_eq!(fetch_profile("{\"name\":\"\"}", Platform::Reddit), Err(ProviderError::BadPayload));
    assert_eq!(profile_from_name(None, Platform::Reddit), Err(ProviderError::BadPayload));
    assert_eq!(
        profile_from_name(Some(String::new()), Platform::Reddit),
        Err(ProviderError::BadPayload)
    );
    assert_eq!(
        profile_from_name(Some("é".to_string()), Platform::Reddit),
        Ok(ExternalProfile { display_name: "é".to_string(), platform: Platform::Reddit })
    );
}

#[test]
fn what_the_providers_differ_in() {
    assert_eq!(Platform::Reddit.name(), "reddit");
    assert_eq!(Platform::Discord.name(), "discord");
    assert_eq!(Platform::Reddit.session_hours(), 720);
    assert_eq!(Platform::Discord.session_hours(), 168);
    assert_eq!(Platform::Reddit.session_seconds(), 2_592_000);
    assert_eq!(Platform::Discord.session_seconds(), 604_800);
    let reddit = Platform::Reddit.initiate_login();
    assert_eq!(reddit.authorize_endpoint, "https://www.reddit.com/api/v1/authorize");
    assert_eq!(reddit.scopes, vec!["identity".to_string()]);
    assert_eq!(reddit.extras, vec![("duration".to_string(), "permanent".to_string())]);
    let discord = Platform::Discord.initiate_login();
    assert_eq!(discord.authorize_endpoint, "https://discord.com/api/oauth2/authorize");
    assert_eq!(discord.scopes, vec!["identify".to_string()]);
    assert!(discord.extras.is_empty());
    assert_eq!(Platform::Reddit.token_endpoint(), "https://www.reddit.com/api/v1/access_token");
    assert_eq!(Platform::Discord.token_endpoint(), "https://discord.com/api/oauth2/token");
    let request = Platform::Discord.profile_request("tok");
    assert_eq!(request.endpoint, "https://discord.com/api/users/@me");
    assert_eq!(request.authorization, "Bearer tok");
    assert_eq!(request.user_agent, Platform::Discord.user_agent());
}

#[test]
fn the_site_needs_a_secret() {
    assert_eq!(SiteConfig::new("d".to_string(), None), None);
    let site = SiteConfig::new("d".to_string(), Some("sécret".to_string())).unwrap();
    assert_eq!(site.domain, "d");
    assert_eq!(site.signing_key, "sécret".as_bytes().to_vec());
}

#[test]
fn the_client_address_comes_from_the_header() {
    assert_eq!(Cip::from_header(&vec![]), Cip(None));
    assert_eq!(Cip::from_header(&vec!["203.0.113.7".to_string()]), Cip(Some("203.0.113.7".to_string())));
    assert_eq!(
        Cip::from_header(&vec!["a".to_string(), "b".to_string(), "c".to_string()]),
        Cip(Some("abc".to_string()))
    );
}

#[test]
fn names_are_matched_whatever_their_case() {
    assert!(names_match("Carol", "cAROL"));
    assert!(names_match("ÉMILE", "émile"));
    assert!(!names_match("carol", "carl"));
    let claims = Claims {
        user_id: 1,
        username: "carol".to_string(),
        access_token: String::new(),
        refresh_token: None,
        expires_at: 0,
    };
    assert!(same_user(&Identity { username: "Carol".to_string() }, &claims));
    assert!(!same_user(&Identity { username: "bob".to_string() }, &claims));
}

#[test]
fn hex_text_is_lower_case_and_exact() {
    assert_eq!(to_hex(&[0x00, 0x9f, 0xa0, 0xff]), "009fa0ff");
    assert_eq!(to_hex(&[]), "");
    assert_eq!(from_hex("009fa0ff"), Some(vec![0x00, 0x9f, 0xa0, 0xff]));
    assert_eq!(from_hex(""), Some(vec![]));
    assert_eq!(from_hex("0"), None);
    assert_eq!(from_hex("0g"), None);
    assert_eq!(from_hex("0A"), None);
    assert_eq!(from_hex("é0"), None);
}
