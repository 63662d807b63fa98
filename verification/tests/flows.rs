use identity_core::login::{get_device, login};
use identity_core::store::{Device, Store, TwoFactor, User};
use identity_core::types::{
    AuthError, ChallengePayload, Collaborators, Config, ConnectData, FreshSecrets, LoginOutcome,
};

fn s(x: &str) -> String {
    x.to_string()
}

fn base_config() -> Config {
    Config {
        mail_enabled: false,
        require_device_email: false,
        disable_2fa_remember: false,
        domain_set: false,
        expires_in: 3600,
    }
}

fn collaborators() -> Collaborators {
    Collaborators {
        verifier_accepts: true,
        u2f_login: None,
        duo_signature: None,
        mail_ok: true,
        store_writable: true,
        fresh: FreshSecrets {
            access_token: s("access-1"),
            refresh_token: s("refresh-1"),
            remember_token: s("remember-1"),
            now: 42,
        },
    }
}

fn user_alice() -> User {
    User {
        uuid: s("u-alice"),
        email: s("alice@example.com"),
        password_hash: s("hash-alice"),
        akey: s("key-alice"),
        private_key: Some(s("priv-alice")),
    }
}

fn user_bob() -> User {
    User {
        uuid: s("u-bob"),
        email: s("bob@example.com"),
        password_hash: s("hash-bob"),
        akey: s("key-bob"),
        private_key: None,
    }
}

fn store_with_alice() -> Store {
    Store {
        users: vec![user_alice()],
        devices: vec![],
        twofactors: vec![],
        org_memberships: vec![],
    }
}

fn password_request() -> ConnectData {
    ConnectData {
        grant_type: s("password"),
        refresh_token: None,
        client_id: Some(s("web")),
        password: Some(s("hash-alice")),
        scope: Some(s("api offline_access")),
        username: Some(s("alice@example.com")),
        device_identifier: Some(s("dev-1")),
        device_name: Some(s("laptop")),
        device_type: Some(s("9")),
        two_factor_provider: None,
        two_factor_token: None,
        two_factor_remember: None,
    }
}

#[test]
fn password_grant_plain_success() {
    let mut store = store_with_alice();
    let outcome = login(&password_request(), &mut store, &base_config(), &collaborators());
    match outcome {
        LoginOutcome::Success(tp) => {
            assert_eq!(tp.access_token, s("access-1"));
            assert_eq!(tp.refresh_token, s("refresh-1"));
            assert_eq!(tp.expires_in, 3600);
            assert_eq!(tp.token_type, s("Bearer"));
            assert_eq!(tp.key, s("key-alice"));
            assert_eq!(tp.private_key, Some(s("priv-alice")));
            assert_eq!(tp.two_factor_token, None);
        }
        _ => panic!("expected success"),
    }
    assert_eq!(store.devices.len(), 1);
    assert_eq!(store.devices[0].uuid, s("dev-1"));
    assert_eq!(store.devices[0].user_uuid, s("u-alice"));
    assert_eq!(store.devices[0].name, s("laptop"));
    assert_eq!(store.devices[0].atype, 9);
    assert_eq!(store.devices[0].refresh_token, s("refresh-1"));
    assert_eq!(store.devices[0].updated_at, 42);
}

#[test]
fn platform_name_defaults_classifier_to_zero() {
    let mut store = store_with_alice();
    let mut data = password_request();
    data.device_type = Some(s("iOS"));
    assert!(matches!(
        login(&data, &mut store, &base_config(), &collaborators()),
        LoginOutcome::Success(_)
    ));
    assert_eq!(store.devices[0].atype, 0);
}

#[test]
fn unsupported_grant_type_rejected() {
    let mut store = store_with_alice();
    let mut data = password_request();
    data.grant_type = s("client_credentials");
    match login(&data, &mut store, &base_config(), &collaborators()) {
        LoginOutcome::Failure(AuthError::UnsupportedGrantType { grant_type }) => {
            assert_eq!(grant_type, s("client_credentials"));
        }
        _ => panic!("expected unsupported grant type"),
    }
    assert_eq!(store.devices.len(), 0);
}

#[test]
fn missing_field_named_in_order() {
    let mut store = store_with_alice();
    let mut data = password_request();
    data.client_id = None;
    data.password = None;
    match login(&data, &mut store, &base_config(), &collaborators()) {
        LoginOutcome::Failure(AuthError::MissingField { message }) => {
            assert_eq!(message, s("client_id cannot be blank"));
        }
        _ => panic!("expected missing field"),
    }
    let mut refresh = password_request();
    refresh.grant_type = s("refresh_token");
    match login(&refresh, &mut store, &base_config(), &collaborators()) {
        LoginOutcome::Failure(AuthError::MissingField { message }) => {
            assert_eq!(message, s("refresh_token cannot be blank"));
        }
        _ => panic!("expected missing refresh token"),
    }
    assert_eq!(store.devices.len(), 0);
}

#[test]
fn wrong_credentials_generic_failure() {
    let mut store = store_with_alice();
    let mut data = password_request();
    data.password = Some(s("wrong"));
    assert!(matches!(
        login(&data, &mut store, &base_config(), &collaborators()),
        LoginOutcome::Failure(AuthError::InvalidCredentials)
    ));
    let mut data2 = password_request();
    data2.username = Some(s("nobody@example.com"));
    assert!(matches!(
        login(&data2, &mut store, &base_config(), &collaborators()),
        LoginOutcome::Failure(AuthError::InvalidCredentials)
    ));
    assert_eq!(store.devices.len(), 0);
}

#[test]
fn unsupported_scope_rejected() {
    let mut store = store_with_alice();
    let mut data = password_request();
    data.scope = Some(s("api"));
    assert!(matches!(
        login(&data, &mut store, &base_config(), &collaborators()),
        LoginOutcome::Failure(AuthError::ScopeNotSupported)
    ));
}

#[test]
fn zero_records_ignore_submitted_token() {
    let mut store = store_with_alice();
    let mut data = password_request();
    data.two_factor_token = Some(s("junk-proof"));
    match login(&data, &mut store, &base_config(), &collaborators()) {
        LoginOutcome::Success(tp) => assert_eq!(tp.two_factor_token, None),
        _ => panic!("expected success without challenge"),
    }
}

#[test]
fn challenge_lists_every_registered_provider() {
    let mut store = store_with_alice();
    store.twofactors.push(TwoFactor {
        user_uuid: s("u-alice"),
        atype: 0,
        data: s("totp-secret"),
    });
    store.twofactors.push(TwoFactor {
        user_uuid: s("u-alice"),
        atype: 3,
        data: s("{\"Nfc\":true}"),
    });
    let data = password_request();
    match login(&data, &mut store, &base_config(), &collaborators()) {
        LoginOutcome::Challenge(ch) => {
            assert_eq!(ch.providers, vec![0, 3]);
            assert_eq!(ch.payloads.len(), 2);
            assert!(matches!(ch.payloads[0], ChallengePayload::Empty));
            match &ch.payloads[1] {
                ChallengePayload::YubiKey { nfc } => assert!(*nfc),
                _ => panic!("expected hardware-key payload"),
            }
            assert_eq!(ch.error(), s("invalid_grant"));
            assert_eq!(ch.error_description(), s("Two factor required."));
        }
        _ => panic!("expected challenge"),
    }
    assert_eq!(store.devices.len(), 0);
}

#[test]
fn totp_only_challenge_has_no_extra_payload() {
    let mut store = store_with_alice();
    store.twofactors.push(TwoFactor {
        user_uuid: s("u-alice"),
        atype: 0,
        data: s("totp-secret"),
    });
    match login(&password_request(), &mut store, &base_config(), &collaborators()) {
        LoginOutcome::Challenge(ch) => {
            assert_eq!(ch.providers, vec![0]);
            assert_eq!(ch.payloads.len(), 1);
            assert!(matches!(ch.payloads[0], ChallengePayload::Empty));
        }
        _ => panic!("expected challenge"),
    }
}

#[test]
fn refresh_grant_rotates_stored_token() {
    let mut store = store_with_alice();
    store.devices.push(Device {
        uuid: s("dev-1"),
        user_uuid: s("u-alice"),
        name: s("laptop"),
        atype: 9,
        refresh_token: s("old-token"),
        twofactor_remember: None,
        updated_at: 7,
    });
    let data = ConnectData {
        grant_type: s("refresh_token"),
        refresh_token: Some(s("old-token")),
        client_id: None,
        password: None,
        scope: None,
        username: None,
        device_identifier: None,
        device_name: None,
        device_type: None,
        two_factor_provider: None,
        two_factor_token: None,
        two_factor_remember: None,
    };
    match login(&data, &mut store, &base_config(), &collaborators()) {
        LoginOutcome::Success(tp) => {
            assert_eq!(tp.refresh_token, s("refresh-1"));
            assert_ne!(tp.refresh_token, s("old-token"));
            assert_eq!(tp.key, s("key-alice"));
            assert_eq!(tp.two_factor_token, None);
        }
        _ => panic!("expected success"),
    }
    assert_eq!(store.devices.len(), 1);
    assert_eq!(store.devices[0].refresh_token, s("refresh-1"));
    assert_eq!(store.devices[0].updated_at, 42);
}

#[test]
fn unknown_refresh_token_issues_nothing() {
    let mut store = store_with_alice();
    store.devices.push(Device {
        uuid: s("dev-1"),
        user_uuid: s("u-alice"),
        name: s("laptop"),
        atype: 9,
        refresh_token: s("old-token"),
        twofactor_remember: None,
        updated_at: 7,
    });
    let data = ConnectData {
        grant_type: s("refresh_token"),
        refresh_token: Some(s("never-issued")),
        client_id: None,
        password: None,
        scope: None,
        username: None,
        device_identifier: None,
        device_name: None,
        device_type: None,
        two_factor_provider: None,
        two_factor_token: None,
        two_factor_remember: None,
    };
    assert!(matches!(
        login(&data, &mut store, &base_config(), &collaborators()),
        LoginOutcome::Failure(AuthError::InvalidRefreshToken)
    ));
    assert_eq!(store.devices[0].refresh_token, s("old-token"));
    assert_eq!(store.devices[0].updated_at, 7);
}

#[test]
fn reused_identifier_binds_to_new_user_only() {
    let mut store = store_with_alice();
    store.users.push(user_bob());
    store.devices.push(Device {
        uuid: s("dev-1"),
        user_uuid: s("u-bob"),
        name: s("bobs-laptop"),
        atype: 3,
        refresh_token: s("bobs-token"),
        twofactor_remember: Some(s("bobs-remember")),
        updated_at: 7,
    });
    let (device, is_new) = get_device(&password_request(), &store, &store.users[0]);
    assert!(is_new);
    assert_eq!(device.user_uuid, s("u-alice"));
    assert_eq!(device.refresh_token, s(""));
    assert_eq!(device.twofactor_remember, None);
    assert_eq!(store.devices[0].user_uuid, s("u-bob"));
    assert_eq!(store.devices[0].refresh_token, s("bobs-token"));

    let outcome = login(&password_request(), &mut store, &base_config(), &collaborators());
    assert!(matches!(outcome, LoginOutcome::Success(_)));
    assert_eq!(store.devices.len(), 1);
    assert_eq!(store.devices[0].user_uuid, s("u-alice"));
    assert_eq!(store.devices[0].twofactor_remember, None);
}

#[test]
fn remember_bypass_refreshes_token() {
    let mut store = store_with_alice();
    store.twofactors.push(TwoFactor {
        user_uuid: s("u-alice"),
        atype: 5,
        data: s(""),
    });
    store.devices.push(Device {
        uuid: s("dev-1"),
        user_uuid: s("u-alice"),
        name: s("laptop"),
        atype: 9,
        refresh_token: s("old-token"),
        twofactor_remember: Some(s("remember-old")),
        updated_at: 7,
    });
    let mut data = password_request();
    data.two_factor_token = Some(s("remember-old"));
    match login(&data, &mut store, &base_config(), &collaborators()) {
        LoginOutcome::Success(tp) => {
            assert_eq!(tp.two_factor_token, Some(s("remember-1")));
        }
        _ => panic!("expected bypass success"),
    }
    assert_eq!(store.devices[0].twofactor_remember, Some(s("remember-1")));
}

#[test]
fn remember_mismatch_reissues_challenge() {
    let mut store = store_with_alice();
    store.twofactors.push(TwoFactor {
        user_uuid: s("u-alice"),
        atype: 5,
        data: s(""),
    });
    store.devices.push(Device {
        uuid: s("dev-1"),
        user_uuid: s("u-alice"),
        name: s("laptop"),
        atype: 9,
        refresh_token: s("old-token"),
        twofactor_remember: Some(s("remember-old")),
        updated_at: 7,
    });
    let mut data = password_request();
    data.two_factor_token = Some(s("wrong-token"));
    match login(&data, &mut store, &base_config(), &collaborators()) {
        LoginOutcome::Challenge(ch) => assert_eq!(ch.providers, vec![5]),
        _ => panic!("expected challenge"),
    }
    assert_eq!(store.devices[0].twofactor_remember, Some(s("remember-old")));
}

#[test]
fn rejected_proof_reissues_full_challenge() {
    let mut store = store_with_alice();
    store.twofactors.push(TwoFactor {
        user_uuid: s("u-alice"),
        atype: 0,
        data: s("totp-secret"),
    });
    let mut data = password_request();
    data.two_factor_token = Some(s("000000"));
    let mut ext = collaborators();
    ext.verifier_accepts = false;
    match login(&data, &mut store, &base_config(), &ext) {
        LoginOutcome::Challenge(ch) => assert_eq!(ch.providers, vec![0]),
        _ => panic!("expected challenge"),
    }
}

#[test]
fn accepted_proof_with_remember_request() {
    let mut store = store_with_alice();
    store.twofactors.push(TwoFactor {
        user_uuid: s("u-alice"),
        atype: 0,
        data: s("totp-secret"),
    });
    let mut data = password_request();
    data.two_factor_token = Some(s("123456"));
    data.two_factor_remember = Some(1);
    match login(&data, &mut store, &base_config(), &collaborators()) {
        LoginOutcome::Success(tp) => assert_eq!(tp.two_factor_token, Some(s("remember-1"))),
        _ => panic!("expected success"),
    }
    assert_eq!(store.devices[0].twofactor_remember, Some(s("remember-1")));
}

#[test]
fn accepted_proof_without_remember_clears_bypass() {
    let mut store = store_with_alice();
    store.twofactors.push(TwoFactor {
        user_uuid: s("u-alice"),
        atype: 0,
        data: s("totp-secret"),
    });
    store.devices.push(Device {
        uuid: s("dev-1"),
        user_uuid: s("u-alice"),
        name: s("laptop"),
        atype: 9,
        refresh_token: s("old-token"),
        twofactor_remember: Some(s("remember-old")),
        updated_at: 7,
    });
    let mut data = password_request();
    data.two_factor_token = Some(s("123456"));
    match login(&data, &mut store, &base_config(), &collaborators()) {
        LoginOutcome::Success(tp) => assert_eq!(tp.two_factor_token, None),
        _ => panic!("expected success"),
    }
    assert_eq!(store.devices[0].twofactor_remember, None);
}

#[test]
fn invalid_provider_is_terminal() {
    let mut store = store_with_alice();
    store.twofactors.push(TwoFactor {
        user_uuid: s("u-alice"),
        atype: 0,
        data: s("totp-secret"),
    });
    let mut data = password_request();
    data.two_factor_token = Some(s("123456"));
    data.two_factor_provider = Some(9);
    assert!(matches!(
        login(&data, &mut store, &base_config(), &collaborators()),
        LoginOutcome::Failure(AuthError::InvalidTwoFactorProvider)
    ));
    let mut data2 = password_request();
    data2.two_factor_token = Some(s("123456"));
    data2.two_factor_provider = Some(4);
    assert!(matches!(
        login(&data2, &mut store, &base_config(), &collaborators()),
        LoginOutcome::Failure(AuthError::InvalidTwoFactorProvider)
    ));
}

#[test]
fn new_device_mail_gate() {
    let mut config = base_config();
    config.mail_enabled = true;
    config.require_device_email = true;
    let mut ext = collaborators();
    ext.mail_ok = false;
    let mut store = store_with_alice();
    assert!(matches!(
        login(&password_request(), &mut store, &config, &ext),
        LoginOutcome::Failure(AuthError::MailDeliveryFailed)
    ));
    assert_eq!(store.devices.len(), 0);

    config.require_device_email = false;
    assert!(matches!(
        login(&password_request(), &mut store, &config, &ext),
        LoginOutcome::Success(_)
    ));
}

#[test]
fn refused_write_aborts_whole_attempt() {
    let mut ext = collaborators();
    ext.store_writable = false;
    let mut store = store_with_alice();
    assert!(matches!(
        login(&password_request(), &mut store, &base_config(), &ext),
        LoginOutcome::Failure(AuthError::StorageUnavailable)
    ));
    assert_eq!(store.devices.len(), 0);
}
