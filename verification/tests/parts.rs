use identity_core::form::connect_data_from_form;
use identity_core::store::{Store, TwoFactor, User};
use identity_core::strutil::{ct_eq, parse_i32, str_eq};
use identity_core::twofactor::build_twofactor_challenge;
use identity_core::types::{
    AuthError, ChallengePayload, Collaborators, Config, DuoSignature, FreshSecrets,
    U2fLoginRequest, U2fRegisteredKey,
};

fn t(x: &str) -> String {
    x.to_string()
}

fn cfg() -> Config {
    Config {
        mail_enabled: false,
        require_device_email: false,
        disable_2fa_remember: false,
        domain_set: false,
        expires_in: 3600,
    }
}

fn ext() -> Collaborators {
    Collaborators {
        verifier_accepts: true,
        u2f_login: None,
        duo_signature: None,
        mail_ok: true,
        store_writable: true,
        fresh: FreshSecrets {
            access_token: t("a"),
            refresh_token: t("r"),
            remember_token: t("m"),
            now: 1,
        },
    }
}

fn one_user_store() -> Store {
    Store {
        users: vec![User {
            uuid: t("u-1"),
            email: t("one@example.com"),
            password_hash: t("h"),
            akey: t("k"),
            private_key: None,
        }],
        devices: vec![],
        twofactors: vec![],
        org_memberships: vec![],
    }
}

#[test]
fn parse_i32_matches_standard_behaviour() {
    assert_eq!(parse_i32("0"), Some(0));
    assert_eq!(parse_i32("9"), Some(9));
    assert_eq!(parse_i32("+5"), Some(5));
    assert_eq!(parse_i32("-7"), Some(-7));
    assert_eq!(parse_i32("2147483647"), Some(2147483647));
    assert_eq!(parse_i32("2147483648"), None);
    assert_eq!(parse_i32("-2147483648"), Some(-2147483648));
    assert_eq!(parse_i32("-2147483649"), None);
    assert_eq!(parse_i32("00012"), Some(12));
    assert_eq!(parse_i32(""), None);
    assert_eq!(parse_i32("+"), None);
    assert_eq!(parse_i32("-"), None);
    assert_eq!(parse_i32("12a"), None);
    assert_eq!(parse_i32(" 1"), None);
    assert_eq!(parse_i32("99999999999999999999"), None);
}

#[test]
fn secret_comparison_decides_equality_only() {
    assert!(ct_eq("", ""));
    assert!(ct_eq("same-secret", "same-secret"));
    assert!(!ct_eq("Xame-secret", "same-secret"));
    assert!(!ct_eq("same-secreX", "same-secret"));
    assert!(!ct_eq("short", "shorter"));
    assert!(str_eq("abc", "abc"));
    assert!(!str_eq("abc", "abd"));
}

#[test]
fn form_keys_fold_case_and_underscores() {
    let items = vec![
        (t("Grant_Type"), t("password")),
        (t("USERNAME"), t("a@example.com")),
        (t("device_identifier"), t("dev-9")),
        (t("deviceName"), t("phone")),
        (t("device_type"), t("iOS")),
        (t("two_factor_provider"), t("5")),
        (t("unexpected_key"), t("ignored")),
    ];
    let data = connect_data_from_form(&items);
    assert_eq!(data.grant_type, t("password"));
    assert_eq!(data.username, Some(t("a@example.com")));
    assert_eq!(data.device_identifier, Some(t("dev-9")));
    assert_eq!(data.device_name, Some(t("phone")));
    assert_eq!(data.device_type, Some(t("iOS")));
    assert_eq!(data.two_factor_provider, Some(5));
    assert_eq!(data.refresh_token, None);
    assert_eq!(data.two_factor_token, None);
}

#[test]
fn later_form_pairs_overwrite_earlier_ones() {
    let items = vec![
        (t("scope"), t("api")),
        (t("Scope"), t("api offline_access")),
        (t("twofactorremember"), t("1")),
        (t("two_factor_remember"), t("not-a-number")),
    ];
    let data = connect_data_from_form(&items);
    assert_eq!(data.scope, Some(t("api offline_access")));
    assert_eq!(data.two_factor_remember, None);
    assert_eq!(data.grant_type, t(""));
}

#[test]
fn yubikey_payload_reads_stored_metadata() {
    let mut store = one_user_store();
    store.twofactors.push(TwoFactor {
        user_uuid: t("u-1"),
        atype: 3,
        data: t("{\"Keys\":[],\"Nfc\":false}"),
    });
    let ch = build_twofactor_challenge(&vec![3], &t("u-1"), &store, &cfg(), &ext()).unwrap();
    match &ch.payloads[0] {
        ChallengePayload::YubiKey { nfc } => assert!(!*nfc),
        _ => panic!("expected hardware-key payload"),
    }
}

#[test]
fn yubikey_payload_rejects_unreadable_metadata() {
    let mut store = one_user_store();
    store.twofactors.push(TwoFactor {
        user_uuid: t("u-1"),
        atype: 3,
        data: t("not json at all"),
    });
    assert!(matches!(
        build_twofactor_challenge(&vec![3], &t("u-1"), &store, &cfg(), &ext()),
        Err(AuthError::InvalidStoredData)
    ));
}

#[test]
fn listed_provider_without_record_fails() {
    let store = one_user_store();
    assert!(matches!(
        build_twofactor_challenge(&vec![3], &t("u-1"), &store, &cfg(), &ext()),
        Err(AuthError::NoSuchProviderRegistered)
    ));
}

#[test]
fn push_provider_needs_user_and_signature() {
    let store = one_user_store();
    assert!(matches!(
        build_twofactor_challenge(&vec![2], &t("u-unknown"), &store, &cfg(), &ext()),
        Err(AuthError::UserNotFound)
    ));
    assert!(matches!(
        build_twofactor_challenge(&vec![2], &t("u-1"), &store, &cfg(), &ext()),
        Err(AuthError::ChallengeUnavailable)
    ));
    let mut with_duo = ext();
    with_duo.duo_signature = Some(DuoSignature {
        host: t("duo.example.com"),
        signature: t("sig-1"),
    });
    let ch = build_twofactor_challenge(&vec![2], &t("u-1"), &store, &cfg(), &with_duo).unwrap();
    match &ch.payloads[0] {
        ChallengePayload::Duo { host, signature } => {
            assert_eq!(host, &t("duo.example.com"));
            assert_eq!(signature, &t("sig-1"));
        }
        _ => panic!("expected push payload"),
    }
}

#[test]
fn challenge_response_payload_follows_endpoint_identity() {
    let store = one_user_store();
    let mut config = cfg();
    let quiet = build_twofactor_challenge(&vec![4], &t("u-1"), &store, &config, &ext()).unwrap();
    assert!(matches!(quiet.payloads[0], ChallengePayload::Empty));

    config.domain_set = true;
    assert!(matches!(
        build_twofactor_challenge(&vec![4], &t("u-1"), &store, &config, &ext()),
        Err(AuthError::ChallengeUnavailable)
    ));

    let mut with_u2f = ext();
    with_u2f.u2f_login = Some(U2fLoginRequest {
        app_id: t("https://vault.example.com/app-id.json"),
        challenge: t("nonce-1"),
        registered_keys: vec![
            U2fRegisteredKey { version: t("U2F_V2"), key_handle: t("handle-1") },
            U2fRegisteredKey { version: t("U2F_V2"), key_handle: t("handle-2") },
        ],
    });
    let ch = build_twofactor_challenge(&vec![4], &t("u-1"), &store, &config, &with_u2f).unwrap();
    match &ch.payloads[0] {
        ChallengePayload::U2f { challenges } => {
            assert_eq!(challenges.len(), 2);
            assert_eq!(challenges[0].app_id, t("https://vault.example.com/app-id.json"));
            assert_eq!(challenges[0].challenge, t("nonce-1"));
            assert_eq!(challenges[0].version, t("U2F_V2"));
            assert_eq!(challenges[0].key_handle, t("handle-1"));
            assert_eq!(challenges[1].key_handle, t("handle-2"));
        }
        _ => panic!("expected challenge-response payload"),
    }
}

#[test]
fn error_messages_match_the_protocol() {
    assert_eq!(
        AuthError::InvalidRefreshToken.message(),
        t("Invalid refresh token")
    );
    assert_eq!(
        AuthError::InvalidTwoFactorProvider.message(),
        t("Invalid two factor provider")
    );
    assert_eq!(
        AuthError::InvalidCredentials.message(),
        t("Username or password is incorrect. Try again")
    );
    assert_eq!(
        AuthError::MissingField { message: t("scope cannot be blank") }.message(),
        t("scope cannot be blank")
    );
    assert_eq!(
        AuthError::UnsupportedGrantType { grant_type: t("x") }.message(),
        t("Invalid type")
    );
}
