//! Grant dispatch, device reconciliation and the two login flows.

use vstd::prelude::*;
use vstd::string::StringExecFns;
use crate::store::{
    first_device_with_refresh_token, first_device_with_uuid, first_user_with_mail,
    first_user_with_uuid, lemma_first_device_with_refresh_token_is_member,
    lemma_first_device_with_uuid_member, lemma_first_user_with_mail_is_member,
    lemma_first_user_with_uuid_member, twofactors_of, Device, Store, User,
};
use crate::strutil::{parse_i32, spec_parse_i32, str_eq};
use crate::twofactor::{
    provider_ids, spec_payloads, spec_twofactor, twofactor_auth, TwoFactorVerdict,
};
use crate::types::{
    payload_views, AuthError, Collaborators, Config, ConnectData, LoginOutcome, TokenPair,
    TwoFactorStop,
};
verus! {

/// Fails with the named field when a required value is absent.
pub fn _check_is_some<T>(value: &Option<T>, msg: &str) -> (r: Result<(), AuthError>)
    ensures
        value is Some ==> r is Ok,
        value is None ==> (r matches Err(e) && e matches AuthError::MissingField { message }
            && message@ == msg@),
{
    match value {
        Some(_) => Ok(()),
        None => Err(AuthError::MissingField { message: String::from_str(msg) }),
    }
}

/// The platform classifier of a request: a numeric value when one parses,
/// and the best-effort default otherwise.
pub open spec fn spec_parsed_device_type(dt: Option<String>) -> i32 {
    match dt {
        None => 0,
        Some(s) => match spec_parse_i32(vstd::utf8::encode_utf8(s@)) {
            Some(v) => v,
            None => 0,
        },
    }
}

/// Whether reconciliation must create a fresh device: the identifier is
/// unknown, or the found record belongs to another user.
pub open spec fn spec_device_is_new(data: ConnectData, store: Store, user: User) -> bool {
    match first_device_with_uuid(store.devices@, data.device_identifier.unwrap()@) {
        None => true,
        Some(d) => d.user_uuid@ != user.uuid@,
    }
}

/// The shape of a freshly constructed device: bound to the current user,
/// carrying the request's identity fields and no secrets.
pub open spec fn spec_fresh_device(d: Device, data: ConnectData, user: User) -> bool {
    &&& d.uuid == data.device_identifier.unwrap()
    &&& d.user_uuid == user.uuid
    &&& d.name == data.device_name.unwrap()
    &&& d.atype == spec_parsed_device_type(data.device_type)
    &&& d.refresh_token@ == Seq::<char>::empty()
    &&& d.twofactor_remember is None
    &&& d.updated_at == 0
}

/// What device reconciliation returns: the stored record when it already
/// belongs to this user, and a fresh device otherwise.
pub open spec fn spec_reconciled_device(d: Device, data: ConnectData, store: Store, user: User) -> bool {
    if spec_device_is_new(data, store, user) {
        spec_fresh_device(d, data, user)
    } else {
        Some(d) == first_device_with_uuid(store.devices@, data.device_identifier.unwrap()@)
    }
}

/// The bypass token outstanding on the reconciled device: none on a fresh
/// device, the stored one otherwise.
pub open spec fn spec_reconciled_remember(data: ConnectData, store: Store, user: User) -> Option<
    String,
> {
    if spec_device_is_new(data, store, user) {
        None
    } else {
        first_device_with_uuid(store.devices@, data.device_identifier.unwrap()@).unwrap()
            .twofactor_remember
    }
}

/// Retrieves the stored device of this request, or constructs a fresh one.
/// A stored record bound to a different user is never reused: device
/// identifiers are client-supplied and untrusted for ownership continuity.
pub fn get_device(data: &ConnectData, store: &Store, user: &User) -> (r: (Device, bool))
    requires
        data.device_identifier is Some,
        data.device_name is Some,
    ensures
        r.1 == spec_device_is_new(*data, *store, *user),
        spec_reconciled_device(r.0, *data, *store, *user),
{
    let device_type: i32 = match &data.device_type {
        Some(s) => match parse_i32(s.as_str()) {
            Some(v) => v,
            None => 0,
        },
        None => 0,
    };
    let device_id: String = data.device_identifier.as_ref().unwrap().clone();
    let device_name: String = data.device_name.as_ref().unwrap().clone();
    match store.find_device_by_uuid(device_id.as_str()) {
        Some(device) => {
            if !str_eq(device.user_uuid.as_str(), user.uuid.as_str()) {
                (Device::new(device_id, user.uuid.clone(), device_name, device_type), true)
            } else {
                (device, false)
            }
        },
        None => (Device::new(device_id, user.uuid.clone(), device_name, device_type), true),
    }
}

/// What the refresh-token grant owes for every input: an unknown token
/// fails without any token issuance; otherwise the device's secret rotates
/// and the pair is returned, unless the storage adapter refuses the write.
pub open spec fn refresh_outcome_ok(
    r: LoginOutcome,
    data: ConnectData,
    s0: Store,
    s1: Store,
    config: Config,
    ext: Collaborators,
) -> bool {
    match first_device_with_refresh_token(s0.devices@, data.refresh_token.unwrap()@) {
        None => r matches LoginOutcome::Failure(e) && e is InvalidRefreshToken && s1 == s0,
        Some(d0) => if !ext.store_writable {
            r matches LoginOutcome::Failure(e) && e is StorageUnavailable && s1 == s0
        } else {
            let d1 = Device {
                uuid: d0.uuid,
                user_uuid: d0.user_uuid,
                name: d0.name,
                atype: d0.atype,
                refresh_token: ext.fresh.refresh_token,
                twofactor_remember: d0.twofactor_remember,
                updated_at: ext.fresh.now,
            };
            &&& r matches LoginOutcome::Success(tp)
                && first_user_with_uuid(s0.users@, d0.user_uuid@) matches Some(u)
                && tp.access_token == ext.fresh.access_token && tp.expires_in == config.expires_in
                && tp.token_type@ == "Bearer"@ && tp.refresh_token == ext.fresh.refresh_token
                && tp.key == u.akey && tp.private_key == u.private_key
                && tp.two_factor_token is None
            &&& s1.users == s0.users && s1.twofactors == s0.twofactors && s1.org_memberships
                == s0.org_memberships
            &&& exists|j: int|
                0 <= j < s0.devices@.len() && (#[trigger] s0.devices@[j]).uuid@ == d0.uuid@
                    && s1.devices@ == s0.devices@.update(j, d1)
        },
    }
}

/// Exchanges a refresh token for a fresh pair and rotates the device's
/// stored secret.
pub fn refresh_login(
    data: &ConnectData,
    store: &mut Store,
    config: &Config,
    ext: &Collaborators,
) -> (r: LoginOutcome)
    requires
        old(store).wf(),
        data.refresh_token is Some,
    ensures
        final(store).wf(),
        refresh_outcome_ok(r, *data, *old(store), *final(store), *config, *ext),
{
    let token = data.refresh_token.as_ref().unwrap();
    let mut device = match store.find_device_by_refresh_token(token.as_str()) {
        Some(d) => d,
        None => {
            return LoginOutcome::Failure(AuthError::InvalidRefreshToken);
        },
    };
    let ghost d0 = device;
    proof {
        lemma_first_device_with_refresh_token_is_member(store.devices@, token@);
        let i = choose|i: int| 0 <= i < store.devices@.len() && store.devices@[i] == d0;
        assert(store.has_user(store.devices@[i].user_uuid@));
        lemma_first_user_with_uuid_member(store.users@, d0.user_uuid@);
    }
    let user = match store.find_user_by_uuid(device.user_uuid.as_str()) {
        Some(u) => u,
        None => {
            proof {
                assert(false);
            }
            return LoginOutcome::Failure(AuthError::UserNotFound);
        },
    };
    let orgs = store.orgs_by_user(user.uuid.as_str());
    let (access_token, expires_in) = device.refresh_tokens(&user, &orgs, &ext.fresh, config);
    match store.save_device(&device, ext.store_writable) {
        Err(e) => {
            return LoginOutcome::Failure(e);
        },
        Ok(()) => {},
    }
    proof {
        let i = choose|i: int| 0 <= i < old(store).devices@.len() && old(store).devices@[i] == d0;
        assert(old(store).devices@[i].uuid@ == d0.uuid@);
    }
    let token_pair = TokenPair {
        access_token,
        expires_in,
        token_type: String::from_str("Bearer"),
        refresh_token: device.refresh_token.clone(),
        key: user.akey.clone(),
        private_key: match &user.private_key {
            Some(s) => Some(s.clone()),
            None => None,
        },
        two_factor_token: None,
    };
    LoginOutcome::Success(token_pair)
}

/// The device record the password flow writes back: the reconciled device
/// with the rotated secret, the new timestamp and the bypass-token outcome.
pub open spec fn spec_saved_password_device(
    data: ConnectData,
    s0: Store,
    user: User,
    rem1: Option<String>,
    ext: Collaborators,
) -> Device {
    if spec_device_is_new(data, s0, user) {
        Device {
            uuid: data.device_identifier.unwrap(),
            user_uuid: user.uuid,
            name: data.device_name.unwrap(),
            atype: spec_parsed_device_type(data.device_type),
            refresh_token: ext.fresh.refresh_token,
            twofactor_remember: rem1,
            updated_at: ext.fresh.now,
        }
    } else {
        let found = first_device_with_uuid(s0.devices@, data.device_identifier.unwrap()@).unwrap();
        Device {
            uuid: found.uuid,
            user_uuid: found.user_uuid,
            name: found.name,
            atype: found.atype,
            refresh_token: ext.fresh.refresh_token,
            twofactor_remember: rem1,
            updated_at: ext.fresh.now,
        }
    }
}

/// What the password grant owes for every input, step by step: the scope
/// gate, the credential check, the two-factor verdict, the notification
/// gate, and finally token issuance with the single device write.
pub open spec fn password_outcome_ok(
    r: LoginOutcome,
    data: ConnectData,
    s0: Store,
    s1: Store,
    config: Config,
    ext: Collaborators,
) -> bool {
    if data.scope.unwrap()@ != "api offline_access"@ {
        r matches LoginOutcome::Failure(e) && e is ScopeNotSupported && s1 == s0
    } else {
        match first_user_with_mail(s0.users@, data.username.unwrap()@) {
            None => r matches LoginOutcome::Failure(e) && e is InvalidCredentials && s1 == s0,
            Some(user) => if user.password_hash@ != data.password.unwrap()@ {
                r matches LoginOutcome::Failure(e) && e is InvalidCredentials && s1 == s0
            } else {
                let is_new = spec_device_is_new(data, s0, user);
                let stored_rem = spec_reconciled_remember(data, s0, user);
                let tfs = twofactors_of(s0.twofactors@, user.uuid@);
                let verdict = spec_twofactor(data, tfs, stored_rem, config, ext);
                match verdict {
                    TwoFactorVerdict::Failed(e) => r matches LoginOutcome::Failure(e2) && e2 == e
                        && s1 == s0,
                    TwoFactorVerdict::ChallengeOut => s1 == s0 && (match spec_payloads(
                        provider_ids(tfs),
                        user.uuid@,
                        s0,
                        config,
                        ext,
                    ) {
                        Ok(pls) => r matches LoginOutcome::Challenge(ch) && ch.providers@
                            == provider_ids(tfs) && payload_views(ch.payloads@) == pls,
                        Err(e) => r matches LoginOutcome::Failure(e2) && e2 == e,
                    }),
                    _ => {
                        if config.mail_enabled && is_new && !ext.mail_ok
                            && config.require_device_email {
                            r matches LoginOutcome::Failure(e) && e is MailDeliveryFailed && s1
                                == s0
                        } else if !ext.store_writable {
                            r matches LoginOutcome::Failure(e) && e is StorageUnavailable && s1
                                == s0
                        } else {
                            let rem1 = match verdict {
                                TwoFactorVerdict::Remembered => Some(ext.fresh.remember_token),
                                TwoFactorVerdict::Cleared => None,
                                _ => stored_rem,
                            };
                            let d1 = spec_saved_password_device(data, s0, user, rem1, ext);
                            &&& r matches LoginOutcome::Success(tp) && tp.access_token
                                == ext.fresh.access_token && tp.expires_in == config.expires_in
                                && tp.token_type@ == "Bearer"@ && tp.refresh_token
                                == ext.fresh.refresh_token && tp.key == user.akey
                                && tp.private_key == user.private_key && tp.two_factor_token == (
                            if verdict is Remembered {
                                Some(ext.fresh.remember_token)
                            } else {
                                None
                            })
                            &&& s1.users == s0.users && s1.twofactors == s0.twofactors
                                && s1.org_memberships == s0.org_memberships
                            &&& (match first_device_with_uuid(
                                s0.devices@,
                                data.device_identifier.unwrap()@,
                            ) {
                                None => s1.devices@ == s0.devices@.push(d1),
                                Some(_) => exists|j: int|
                                    0 <= j < s0.devices@.len() && (#[trigger] s0.devices@[j]).uuid@
                                        == data.device_identifier.unwrap()@ && s1.devices@
                                        == s0.devices@.update(j, d1),
                            })
                        }
                    },
                }
            },
        }
    }
}

/// Authenticates a password grant: credentials, device reconciliation, the
/// two-factor state machine, the new-device notification gate, and token
/// issuance.  No storage mutation happens before every check has passed.
pub fn password_login(
    data: &ConnectData,
    store: &mut Store,
    config: &Config,
    ext: &Collaborators,
) -> (r: LoginOutcome)
    requires
        old(store).wf(),
        data.client_id is Some,
        data.password is Some,
        data.scope is Some,
        data.username is Some,
        data.device_identifier is Some,
        data.device_name is Some,
        data.device_type is Some,
    ensures
        final(store).wf(),
        password_outcome_ok(r, *data, *old(store), *final(store), *config, *ext),
{
    let scope = data.scope.as_ref().unwrap();
    if !str_eq(scope.as_str(), "api offline_access") {
        return LoginOutcome::Failure(AuthError::ScopeNotSupported);
    }
    let username = data.username.as_ref().unwrap();
    let user = match store.find_user_by_mail(username.as_str()) {
        Some(u) => u,
        None => {
            return LoginOutcome::Failure(AuthError::InvalidCredentials);
        },
    };
    let password = data.password.as_ref().unwrap();
    if !user.check_valid_password(password.as_str()) {
        return LoginOutcome::Failure(AuthError::InvalidCredentials);
    }
    let (mut device, new_device) = get_device(data, store, &user);
    let twofactor_token: Option<String> = match twofactor_auth(
        &user.uuid,
        data,
        &mut device,
        store,
        config,
        ext,
    ) {
        Ok(t) => t,
        Err(TwoFactorStop::Challenge(ch)) => {
            return LoginOutcome::Challenge(ch);
        },
        Err(TwoFactorStop::Fail(e)) => {
            return LoginOutcome::Failure(e);
        },
    };
    if config.mail_enabled && new_device && !ext.mail_ok && config.require_device_email {
        return LoginOutcome::Failure(AuthError::MailDeliveryFailed);
    }
    let orgs = store.orgs_by_user(user.uuid.as_str());
    let (access_token, expires_in) = device.refresh_tokens(&user, &orgs, &ext.fresh, config);
    proof {
        lemma_first_user_with_mail_is_member(store.users@, username@);
        lemma_first_device_with_uuid_member(store.devices@, data.device_identifier.unwrap()@);
    }
    match store.save_device(&device, ext.store_writable) {
        Err(e) => {
            return LoginOutcome::Failure(e);
        },
        Ok(()) => {},
    }
    let token_pair = TokenPair {
        access_token,
        expires_in,
        token_type: String::from_str("Bearer"),
        refresh_token: device.refresh_token.clone(),
        key: user.akey.clone(),
        private_key: match &user.private_key {
            Some(s) => Some(s.clone()),
            None => None,
        },
        two_factor_token: match &twofactor_token {
            Some(t) => Some(t.clone()),
            None => None,
        },
    };
    LoginOutcome::Success(token_pair)
}

/// The user-facing text of the first missing password-grant field, checked
/// in the fixed order.
pub open spec fn missing_password_field_msg(data: ConnectData) -> Option<Seq<char>> {
    if data.client_id is None {
        Some("client_id cannot be blank"@)
    } else if data.password is None {
        Some("password cannot be blank"@)
    } else if data.scope is None {
        Some("scope cannot be blank"@)
    } else if data.username is None {
        Some("username cannot be blank"@)
    } else if data.device_identifier is None {
        Some("device_identifier cannot be blank"@)
    } else if data.device_name is None {
        Some("device_name cannot be blank"@)
    } else if data.device_type is None {
        Some("device_type cannot be blank"@)
    } else {
        None
    }
}

/// What the dispatcher owes for every request: field validation per grant
/// type with no storage access, the unsupported-grant failure echoing the
/// offending value, and delegation to the two flows otherwise.
pub open spec fn login_outcome_ok(
    r: LoginOutcome,
    data: ConnectData,
    s0: Store,
    s1: Store,
    config: Config,
    ext: Collaborators,
) -> bool {
    if data.grant_type@ == "refresh_token"@ {
        if data.refresh_token is None {
            r matches LoginOutcome::Failure(e) && e matches AuthError::MissingField { message }
                && message@ == "refresh_token cannot be blank"@ && s1 == s0
        } else {
            refresh_outcome_ok(r, data, s0, s1, config, ext)
        }
    } else if data.grant_type@ == "password"@ {
        match missing_password_field_msg(data) {
            Some(m) => r matches LoginOutcome::Failure(e) && e matches AuthError::MissingField {
                message,
            } && message@ == m && s1 == s0,
            None => password_outcome_ok(r, data, s0, s1, config, ext),
        }
    } else {
        r matches LoginOutcome::Failure(e) && e matches AuthError::UnsupportedGrantType {
            grant_type,
        } && grant_type == data.grant_type && s1 == s0
    }
}

/// The top-level entry point: validates the fields the grant type requires
/// and routes to the password or refresh flow.
pub fn login(data: &ConnectData, store: &mut Store, config: &Config, ext: &Collaborators) -> (r:
    LoginOutcome)
    requires
        old(store).wf(),
    ensures
        final(store).wf(),
        login_outcome_ok(r, *data, *old(store), *final(store), *config, *ext),
{
    if str_eq(data.grant_type.as_str(), "refresh_token") {
        match _check_is_some(&data.refresh_token, "refresh_token cannot be blank") {
            Err(e) => LoginOutcome::Failure(e),
            Ok(_) => refresh_login(data, store, config, ext),
        }
    } else if str_eq(data.grant_type.as_str(), "password") {
        if let Err(e) = _check_is_some(&data.client_id, "client_id cannot be blank") {
            return LoginOutcome::Failure(e);
        }
        if let Err(e) = _check_is_some(&data.password, "password cannot be blank") {
            return LoginOutcome::Failure(e);
        }
        if let Err(e) = _check_is_some(&data.scope, "scope cannot be blank") {
            return LoginOutcome::Failure(e);
        }
        if let Err(e) = _check_is_some(&data.username, "username cannot be blank") {
            return LoginOutcome::Failure(e);
        }
        if let Err(e) = _check_is_some(&data.device_identifier, "device_identifier cannot be blank")
            {
            return LoginOutcome::Failure(e);
        }
        if let Err(e) = _check_is_some(&data.device_name, "device_name cannot be blank") {
            return LoginOutcome::Failure(e);
        }
        if let Err(e) = _check_is_some(&data.device_type, "device_type cannot be blank") {
            return LoginOutcome::Failure(e);
        }
        password_login(data, store, config, ext)
    } else {
        LoginOutcome::Failure(
            AuthError::UnsupportedGrantType { grant_type: data.grant_type.clone() },
        )
    }
}

} // verus!
