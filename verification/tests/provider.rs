use journey::active::{ActiveField, ProviderActive};
use journey::dto::ProviderKey;
use journey::enums::{ProviderAuthSchema, ProviderVariant};
use journey::error::{JellyfinProviderError, ProviderError, ProviderManagerError};
use journey::provider::{AuthReply, HostInfo, JellyfinProvider, UserRef};
use journey::provider_manager::ProviderManager;

fn host() -> HostInfo {
    HostInfo {
        hostname: "box".to_string(),
        platform: "linux".to_string(),
        arch: "x86_64".to_string(),
        version: "6.1".to_string(),
    }
}

fn url_only(url: &str) -> ProviderActive {
    let mut model = ProviderActive::blank();
    model.url = ActiveField::Assigned(url::Url::parse(url).unwrap().to_string());
    model
}

const USER: u128 = 0xa1a2a3a4b1b2c1c2d1d2d3d4d5d6d7d8;
const PROVIDER: u128 = 0x0123456789abcdef0123456789abcdef;

fn signed_in(provider_id: u128, user_id: u128) -> JellyfinProvider {
    let mut model = ProviderActive::with_url_and_ty("http://smth.example.com".to_string(), ProviderVariant::JellyfinProvider);
    model.provider_id = ActiveField::Unchanged(provider_id);
    model.user_id = ActiveField::Unchanged(user_id);
    JellyfinProvider::new(model, &host())
}

#[test]
fn matching_name() {
    let model = url_only("http://smth.example.com");
    assert!(matches!(
        JellyfinProvider::new(model, &host()).ty(),
        ProviderVariant::JellyfinProvider
    ));
}

#[test]
fn hash_no_login_failure() {
    let params = url_only("http://smth.example.com");
    let provider = JellyfinProvider::new(params, &host());
    let hash = provider.key();
    assert!(hash.is_err())
}

#[test]
fn new_provider_names_the_device_after_the_host() {
    let provider = JellyfinProvider::new(url_only("http://smth.example.com"), &host());
    assert_eq!(provider.device_info.name, "box-linux-x86_64-6.1");
    assert!(provider.config.is_none());
}

#[test]
fn fresh_provider_has_url_but_no_ids() {
    let provider = JellyfinProvider::new(url_only("http://smth.example.com"), &host());
    assert_eq!(provider.url().unwrap(), "http://smth.example.com/");
    assert!(matches!(provider.user_id(), Err(ProviderError::MissingUserIdError)));
    assert!(matches!(provider.provider_id(), Err(ProviderError::MissingServerIdError)));
    assert!(matches!(provider.stored_ty(), Err(ProviderError::MissingVariantError)));
    assert_eq!(provider.client_info.name, "journey");
    assert_eq!(provider.client_info.version, "0.1.0");
    assert_ne!(provider.device_info.id, 0);
}

#[test]
fn missing_and_bad_urls() {
    let provider = JellyfinProvider::new(ProviderActive::blank(), &host());
    assert!(matches!(provider.url(), Err(ProviderError::MissingUrlError)));
    let mut model = ProviderActive::blank();
    model.url = ActiveField::Assigned("not a url".to_string());
    let provider = JellyfinProvider::new(model, &host());
    match provider.url() {
        Err(ProviderError::FailedParseUrlError(m)) => assert_eq!(m, "relative URL without a base"),
        other => panic!("unexpected {:?}", other),
    }
}

#[test]
fn nil_ids_count_as_missing() {
    let provider = signed_in(0, USER);
    assert!(matches!(provider.provider_id(), Err(ProviderError::MissingServerIdError)));
    assert_eq!(provider.user_id().unwrap(), USER);
}

#[test]
fn key_and_token_entry_name() {
    let provider = signed_in(PROVIDER, USER);
    let key = provider.key().unwrap();
    assert_eq!(key, ProviderKey { user_id: USER, provider_id: PROVIDER });
    assert_eq!(
        provider.token_entry_name().unwrap(),
        "01234567-89ab-cdef-0123-456789abcdef-a1a2a3a4-b1b2-c1c2-d1d2-d3d4d5d6d7d8"
    );
}

#[test]
fn token_counts() {
    assert!(!JellyfinProvider::authenticated_from(0));
    assert!(JellyfinProvider::authenticated_from(2));
    assert!(JellyfinProvider::token_removal_outcome(1).is_ok());
    assert!(matches!(JellyfinProvider::token_removal_outcome(2), Err(ProviderError::TooManyCredentialsError)));
    match JellyfinProvider::token_removal_outcome(0) {
        Err(ProviderError::NoCredentialsError(m)) => assert_eq!(m, ""),
        other => panic!("unexpected {:?}", other),
    }
}

#[test]
fn sign_in_records_ids_and_invalidate_forgets_them() {
    let mut provider = JellyfinProvider::new(
        ProviderActive::with_url_and_ty("http://smth.example.com".to_string(), ProviderVariant::JellyfinProvider),
        &host(),
    );
    let reply = AuthReply {
        access_token: Some(Some("token".to_string())),
        server_id: Some(Some("01234567-89ab-cdef-0123-456789abcdef".to_string())),
        user: Some(Some(UserRef { id: Some(USER) })),
    };
    let token = provider.apply_auth_reply(reply).unwrap();
    assert_eq!(token, "token");
    assert!(matches!(provider.model.provider_id, ActiveField::Assigned(PROVIDER)));
    assert_eq!(provider.provider_id().unwrap(), PROVIDER);
    assert_eq!(provider.user_id().unwrap(), USER);
    assert_eq!(provider.key().unwrap(), ProviderKey { user_id: USER, provider_id: PROVIDER });
    assert!(provider.get_indexer().is_err());
    let session = provider.client_config(Some(token)).unwrap();
    assert_eq!(session.base_url, "http://smth.example.com/");
    provider.set_session(session);
    let indexer = provider.get_indexer().unwrap();
    assert!(indexer.config.is_some());
    provider.invalidate().unwrap();
    assert!(provider.user_id().is_err());
    assert!(provider.provider_id().is_err());
    assert!(provider.url().is_err());
    assert!(provider.config.is_none());
}

#[test]
fn sign_in_failures() {
    let mut provider = signed_in(PROVIDER, USER);
    let no_token = AuthReply { access_token: Some(None), server_id: None, user: None };
    assert!(matches!(
        provider.apply_auth_reply(no_token),
        Err(ProviderError::JellyfinProviderError(JellyfinProviderError::ApiEntryRetrievalError(None)))
    ));
    let bad_server = AuthReply {
        access_token: Some(Some("t".to_string())),
        server_id: Some(Some("nope".to_string())),
        user: None,
    };
    match provider.apply_auth_reply(bad_server) {
        Err(ProviderError::FailedUuidParseError(m)) => assert_eq!(m, "nope"),
        other => panic!("unexpected {:?}", other),
    }
    let no_user_id = AuthReply {
        access_token: Some(Some("t".to_string())),
        server_id: Some(Some("01234567-89ab-cdef-0123-456789abcdef".to_string())),
        user: Some(Some(UserRef { id: None })),
    };
    assert!(matches!(provider.apply_auth_reply(no_user_id), Err(ProviderError::MissingUserIdError)));
}

#[test]
fn set_ne_keeps_unchanged_equal_values() {
    let mut provider = signed_in(PROVIDER, USER);
    provider.set_user_id(Some(Some(UserRef { id: Some(USER) }))).unwrap();
    assert!(matches!(provider.model.user_id, ActiveField::Unchanged(USER)));
    provider.set_user_id(Some(Some(UserRef { id: Some(7) }))).unwrap();
    assert!(matches!(provider.model.user_id, ActiveField::Assigned(7)));
}

#[test]
fn details_and_summary() {
    let provider = signed_in(PROVIDER, USER);
    let d = provider.details(true).unwrap();
    assert_eq!(d.authenticated, Some(true));
    assert_eq!(d.url.as_deref(), Some("http://smth.example.com/"));
    assert_eq!(d.ty, ProviderVariant::JellyfinProvider);
    let s = provider.summary().unwrap();
    assert!(s.url.is_none() && s.authenticated.is_none());
    assert_eq!(s.key, ProviderKey { user_id: USER, provider_id: PROVIDER });
    assert_eq!(provider.get_auth_schema(), vec![ProviderAuthSchema::Password]);
}

#[test]
fn registry_register_lookup_take() {
    let mut manager = ProviderManager::new();
    let key = ProviderKey { user_id: USER, provider_id: PROVIDER };
    assert!(matches!(manager.get_variant(&key), Err(ProviderManagerError::NoProviderError)));
    manager.register(signed_in(PROVIDER, USER)).unwrap();
    assert!(manager.provider_exists(&key).unwrap());
    assert_eq!(manager.get_variant(&key).unwrap().key().unwrap(), key);
    manager.register(signed_in(PROVIDER, USER)).unwrap();
    assert_eq!(manager.get_variants_values().len(), 1);
    manager.register(signed_in(PROVIDER, 5)).unwrap();
    assert_eq!(manager.get_providers().unwrap().len(), 2);
    let taken = manager.take(&key).unwrap();
    assert_eq!(taken.key().unwrap(), key);
    assert!(!manager.provider_exists(&key).unwrap());
    assert!(matches!(manager.take(&key), Err(ProviderManagerError::DeregisterError)));
}

#[test]
fn registry_refuses_providers_without_key() {
    let mut manager = ProviderManager::new();
    let provider = JellyfinProvider::new(url_only("http://smth.example.com"), &host());
    assert!(matches!(
        manager.register(provider),
        Err(ProviderManagerError::ProviderError(ProviderError::MissingUserIdError))
    ));
    assert_eq!(manager.get_providers().unwrap().len(), 0);
}

#[test]
fn registered_key_is_in_use() {
    let mut manager = ProviderManager::new();
    manager.register(signed_in(PROVIDER, USER)).unwrap();
    let newcomer = signed_in(PROVIDER, USER);
    assert!(matches!(
        manager.check_provider_free(&newcomer, true),
        Err(ProviderManagerError::ProviderInUseError)
    ));
    assert!(manager.check_provider_free(&newcomer, false).is_ok());
    assert!(manager.check_provider_free(&signed_in(PROVIDER, 9), true).is_ok());
}

#[test]
fn provider_kinds() {
    let manager = ProviderManager::new();
    assert_eq!(manager.get_supported_variants(), vec![ProviderVariant::JellyfinProvider]);
    assert!(matches!(
        manager.get_supported_auth_schema(ProviderVariant::Unknown),
        Err(ProviderManagerError::UnknownProviderError)
    ));
    assert!(matches!(
        manager.get_type(&ProviderVariant::Unknown, ProviderActive::blank(), &host()),
        Err(ProviderManagerError::UnknownProviderError)
    ));
    assert!(manager.get_type(&ProviderVariant::JellyfinProvider, ProviderActive::blank(), &host()).is_ok());
}

#[test]
fn indexers_need_tokens_and_a_session() {
    let mut manager = ProviderManager::new();
    manager.register(signed_in(PROVIDER, USER)).unwrap();
    match manager.get_indexers(&vec![Ok(false)]) {
        Err(ProviderManagerError::NotAuthenticatedError(m)) => assert_eq!(m, ""),
        other => panic!("unexpected {:?}", other.map(|v| v.len())),
    }
    match manager.get_indexers(&vec![Err("locked".to_string())]) {
        Err(ProviderManagerError::NotAuthenticatedError(m)) => assert_eq!(m, "locked"),
        other => panic!("unexpected {:?}", other.map(|v| v.len())),
    }
    assert!(matches!(
        manager.get_indexers(&vec![Ok(true)]),
        Err(ProviderManagerError::ProviderError(ProviderError::JellyfinProviderError(_)))
    ));
}

fn stored(provider_id: u128, user_id: u128) -> ProviderActive {
    let mut model = ProviderActive::with_url_and_ty("http://smth.example.com".to_string(), ProviderVariant::JellyfinProvider);
    model.provider_id = ActiveField::Unchanged(provider_id);
    model.user_id = ActiveField::Unchanged(user_id);
    model
}

#[test]
fn init_registers_stored_providers_until_the_first_failure() {
    let mut manager = ProviderManager::new();
    let known = vec![
        (ProviderVariant::JellyfinProvider, stored(PROVIDER, USER)),
        (ProviderVariant::JellyfinProvider, stored(PROVIDER, 7)),
        (ProviderVariant::Unknown, stored(PROVIDER, 8)),
        (ProviderVariant::JellyfinProvider, stored(PROVIDER, 9)),
    ];
    assert!(matches!(
        manager.init(known, &host()),
        Err(ProviderManagerError::UnknownProviderError)
    ));
    assert_eq!(manager.get_variants_values().len(), 2);
    assert!(manager.provider_exists(&ProviderKey { user_id: 7, provider_id: PROVIDER }).unwrap());
    assert!(!manager.provider_exists(&ProviderKey { user_id: 9, provider_id: PROVIDER }).unwrap());
    let registered = manager.get_variant(&ProviderKey { user_id: USER, provider_id: PROVIDER }).unwrap();
    assert!(registered.config.is_none());
    assert_eq!(registered.device_info.name, "box-linux-x86_64-6.1");

    let mut fresh = ProviderManager::new();
    assert!(matches!(
        fresh.init(vec![(ProviderVariant::JellyfinProvider, ProviderActive::blank())], &host()),
        Err(ProviderManagerError::ProviderError(ProviderError::MissingUserIdError))
    ));
    assert!(fresh.init(vec![(ProviderVariant::JellyfinProvider, stored(PROVIDER, USER))], &host()).is_ok());
    assert_eq!(fresh.get_providers().unwrap().len(), 1);
}
