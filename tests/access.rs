use base64::Engine;
use bson::oid::ObjectId;
use neura_api::auth::{AuthError, CredentialCache, AccessStep, StorageFault, Validation};
use neura_api::config::{lookup_var, parse_port, EnvError};
use neura_api::ids::{parse_subject_id, Timestamp};
use neura_api::keys::generate_api_key;
use neura_api::models::{CollectionNames, Tokens};

fn s(text: &str) -> String {
    text.to_string()
}

fn stored(token: &str, revoked: bool) -> Tokens {
    Tokens {
        _id: ObjectId::new(),
        token: s(token),
        created_at: Timestamp { millis: 0 },
        updated_at: None,
        tomestoned: revoked,
        userId: ObjectId::new(),
    }
}

#[test]
fn bypass_secret_is_admitted_without_lookup() {
    let cache = CredentialCache::new();
    assert_eq!(cache.validate(&s("super"), &s("super")), Validation::Admitted);
    assert_eq!(cache.authorize(Some(s("super")), &s("super")), AccessStep::Admit);
    assert!(!cache.contains(&s("super")));
}

#[test]
fn missing_header_is_rejected() {
    let cache = CredentialCache::new();
    assert_eq!(
        cache.authorize(None, &s("super")),
        AccessStep::Reject(AuthError::MissingCredential)
    );
}

#[test]
fn unknown_credential_needs_the_store() {
    let cache = CredentialCache::new();
    assert_eq!(cache.validate(&s("k1"), &s("super")), Validation::NeedsLookup);
    assert_eq!(cache.authorize(Some(s("k1")), &s("super")), AccessStep::LookUp(s("k1")));
}

#[test]
fn credential_admitted_once_stored_then_cached() {
    let mut cache = CredentialCache::new();
    // Not in the store yet: refused, and not remembered.
    assert_eq!(
        cache.complete_lookup(s("k1"), Ok(None)),
        Err(AuthError::InvalidCredential)
    );
    assert_eq!(cache.authorize(Some(s("k1")), &s("super")), AccessStep::LookUp(s("k1")));
    // Now stored: the next attempt is admitted.
    assert_eq!(cache.complete_lookup(s("k1"), Ok(Some(stored("k1", false)))), Ok(()));
    // Later attempts never reach the store: a failing store is not consulted.
    assert_eq!(cache.authorize(Some(s("k1")), &s("super")), AccessStep::Admit);
    assert_eq!(cache.validate(&s("k1"), &s("super")), Validation::Admitted);
}

#[test]
fn revoked_credential_is_refused() {
    let mut cache = CredentialCache::new();
    assert_eq!(
        cache.complete_lookup(s("k2"), Ok(Some(stored("k2", true)))),
        Err(AuthError::InvalidCredential)
    );
    assert!(!cache.contains(&s("k2")));
}

#[test]
fn store_failure_is_not_a_denial() {
    let mut cache = CredentialCache::new();
    assert_eq!(
        cache.complete_lookup(s("k3"), Err(StorageFault)),
        Err(AuthError::StorageUnavailable)
    );
    assert!(!cache.contains(&s("k3")));
}

#[test]
fn cache_insert_and_contains() {
    let mut cache = CredentialCache::new();
    cache.insert(s("a"));
    cache.insert(s("a"));
    cache.insert(s("b"));
    assert!(cache.contains(&s("a")));
    assert!(cache.contains(&s("b")));
    assert!(!cache.contains(&s("c")));
}

fn vars(pairs: &[(&str, &str)]) -> Vec<(String, String)> {
    pairs.iter().map(|(k, v)| (s(k), s(v))).collect()
}

#[test]
fn env_defaults() {
    let e = neura_api::config::env(&vars(&[("SUPER_KEY", "secret")])).ok().unwrap();
    assert_eq!(e.super_key, "secret");
    assert_eq!(e.mongodb_uri, "mongodb://localhost:27017");
    assert_eq!(e.port, 8080);
    assert_eq!(e.address, "127.0.0.1");
}

#[test]
fn env_reads_all_settings() {
    let e = neura_api::config::env(&vars(&[
        ("MONGODB_URI", "mongodb://db:1"),
        ("SUPER_KEY", "k"),
        ("PORT", "9000"),
        ("ADDRESS", "0.0.0.0"),
    ]))
    .ok()
    .unwrap();
    assert_eq!(e.mongodb_uri, "mongodb://db:1");
    assert_eq!(e.super_key, "k");
    assert_eq!(e.port, 9000);
    assert_eq!(e.address, "0.0.0.0");
}

#[test]
fn env_without_super_key_fails() {
    assert_eq!(neura_api::config::env(&vars(&[("PORT", "80")])).err(), Some(EnvError::MissingSuperKey));
}

#[test]
fn env_with_bad_port_fails() {
    assert_eq!(
        neura_api::config::env(&vars(&[("SUPER_KEY", "k"), ("PORT", "eighty")])).err(),
        Some(EnvError::InvalidPort)
    );
}

#[test]
fn later_binding_wins() {
    let v = vars(&[("A", "1"), ("B", "2"), ("A", "3")]);
    assert_eq!(lookup_var(&v, &s("A")), Some(s("3")));
    assert_eq!(lookup_var(&v, &s("C")), None);
}

#[test]
fn port_parsing() {
    assert_eq!(parse_port(&s("8080")), Some(8080));
    assert_eq!(parse_port(&s("+80")), Some(80));
    assert_eq!(parse_port(&s("0065535")), Some(65535));
    assert_eq!(parse_port(&s("0")), Some(0));
    assert_eq!(parse_port(&s("65536")), None);
    assert_eq!(parse_port(&s("")), None);
    assert_eq!(parse_port(&s("+")), None);
    assert_eq!(parse_port(&s("-1")), None);
    assert_eq!(parse_port(&s("80a")), None);
    assert_eq!(parse_port(&s("8 0")), None);
    assert_eq!(parse_port(&s("99999999999")), None);
    for text in ["1", "443", "+8080", "65535", "65536", "x", "", "٣"] {
        assert_eq!(parse_port(&s(text)), text.parse::<u16>().ok());
    }
}

#[test]
fn api_key_is_base64_of_32_bytes() {
    let key = generate_api_key().unwrap();
    assert_eq!(key.len(), 44);
    let bytes = base64::engine::general_purpose::STANDARD.decode(&key).unwrap();
    assert_eq!(bytes.len(), 32);
    let other = generate_api_key().unwrap();
    assert_ne!(key, other);
}

#[test]
fn subject_id_parsing() {
    let id = parse_subject_id("64b7f0c2a1b2c3d4e5f60718").ok().unwrap();
    assert_eq!(id.to_hex(), "64b7f0c2a1b2c3d4e5f60718");
    assert!(parse_subject_id("64B7F0C2A1B2C3D4E5F60718").is_ok());
    assert!(parse_subject_id("64b7f0c2a1b2c3d4e5f6071").is_err());
    assert!(parse_subject_id("64b7f0c2a1b2c3d4e5f6071z").is_err());
    assert!(parse_subject_id("").is_err());
}

#[test]
fn collection_names() {
    assert_eq!(CollectionNames::User.collection_name(), "users");
    assert_eq!(CollectionNames::Credits.collection_name(), "credits");
    assert_eq!(CollectionNames::Statistics.collection_name(), "statistics");
    assert_eq!(CollectionNames::SystemReport.collection_name(), "system_reports");
    assert_eq!(CollectionNames::UserReport.collection_name(), "user_reports");
    assert_eq!(CollectionNames::Custom(s("extra")).collection_name(), "extra");
}
