//! The library's stated laws, proved once and for all against the outcome
//! predicates that the flow functions are specified by.

use vstd::prelude::*;
use crate::login::{
    login_outcome_ok, missing_password_field_msg, password_outcome_ok, refresh_outcome_ok,
    spec_device_is_new, spec_reconciled_device, spec_reconciled_remember,
};
use crate::store::{
    first_device_with_refresh_token, first_device_with_uuid, first_user_with_mail, twofactors_of,
    Device, Store, User,
};
use crate::twofactor::provider_ids;
use crate::types::{AuthError, Collaborators, Config, ConnectData, LoginOutcome};

verus! {

/// A grant type other than `password` and `refresh_token` always fails
/// with the unsupported-grant-type error, echoing the offending value, and
/// leaves the store untouched.
pub proof fn lemma_unsupported_grant_type(
    r: LoginOutcome,
    data: ConnectData,
    s0: Store,
    s1: Store,
    config: Config,
    ext: Collaborators,
)
    requires
        login_outcome_ok(r, data, s0, s1, config, ext),
        data.grant_type@ != "password"@,
        data.grant_type@ != "refresh_token"@,
    ensures
        r matches LoginOutcome::Failure(e) && e matches AuthError::UnsupportedGrantType {
            grant_type,
        } && grant_type == data.grant_type,
        s1 == s0,
{
}

/// A password-grant request missing a required field fails during
/// validation: the same missing-field error comes back whatever the store
/// holds, and no store is ever touched.
pub proof fn lemma_validation_precedes_authentication(
    r1: LoginOutcome,
    r2: LoginOutcome,
    data: ConnectData,
    sa0: Store,
    sa1: Store,
    sb0: Store,
    sb1: Store,
    config: Config,
    ext: Collaborators,
)
    requires
        data.grant_type@ == "password"@,
        missing_password_field_msg(data) is Some,
        login_outcome_ok(r1, data, sa0, sa1, config, ext),
        login_outcome_ok(r2, data, sb0, sb1, config, ext),
    ensures
        sa1 == sa0,
        sb1 == sb0,
        r1 matches LoginOutcome::Failure(e1) && e1 matches AuthError::MissingField { message }
            && message@ == missing_password_field_msg(data).unwrap(),
        r2 matches LoginOutcome::Failure(e2) && e2 matches AuthError::MissingField { message }
            && message@ == missing_password_field_msg(data).unwrap(),
{
    reveal_strlit("password");
    reveal_strlit("refresh_token");
    assert("password"@.len() != "refresh_token"@.len());
}

/// A device identifier previously bound to one user, reused by another,
/// yields a fresh device bound to the new user, never the stored record:
/// ownership does not transfer silently, and reconciliation itself touches
/// no stored record.
pub proof fn lemma_device_ownership_never_transfers(
    d: Device,
    is_new: bool,
    data: ConnectData,
    store: Store,
    user: User,
)
    requires
        data.device_identifier is Some,
        data.device_name is Some,
        first_device_with_uuid(store.devices@, data.device_identifier.unwrap()@) matches Some(found)
            && found.user_uuid@ != user.uuid@,
        spec_reconciled_device(d, data, store, user),
        is_new == spec_device_is_new(data, store, user),
    ensures
        is_new,
        d.user_uuid == user.uuid,
        d.user_uuid@ != first_device_with_uuid(
            store.devices@,
            data.device_identifier.unwrap()@,
        ).unwrap().user_uuid@,
        d.refresh_token@ == Seq::<char>::empty(),
        d.twofactor_remember is None,
{
}

/// A user with no registered second factor is never challenged, whatever
/// proof token the request carries, and a login with valid credentials and
/// willing collaborators succeeds with no bypass token in the response.
pub proof fn lemma_no_second_factor_no_challenge(
    r: LoginOutcome,
    data: ConnectData,
    s0: Store,
    s1: Store,
    config: Config,
    ext: Collaborators,
)
    requires
        password_outcome_ok(r, data, s0, s1, config, ext),
        data.scope is Some && data.scope.unwrap()@ == "api offline_access"@,
        data.username is Some,
        data.password is Some,
        first_user_with_mail(s0.users@, data.username.unwrap()@) matches Some(user)
            && user.password_hash@ == data.password.unwrap()@ && twofactors_of(
            s0.twofactors@,
            user.uuid@,
        ).len() == 0,
    ensures
        !(r is Challenge),
        ({
            let user = first_user_with_mail(s0.users@, data.username.unwrap()@).unwrap();
            (!(config.mail_enabled && spec_device_is_new(data, s0, user) && !ext.mail_ok
                && config.require_device_email) && ext.store_writable) ==> (r matches
            LoginOutcome::Success(tp) && tp.two_factor_token is None)
        }),
{
}

/// A user with registered second factors who supplies no proof token gets a
/// challenge listing every registered provider in storage order, not only
/// the defaulted one, and nothing is stored.
pub proof fn lemma_challenge_lists_every_provider(
    r: LoginOutcome,
    data: ConnectData,
    s0: Store,
    s1: Store,
    config: Config,
    ext: Collaborators,
)
    requires
        password_outcome_ok(r, data, s0, s1, config, ext),
        data.scope is Some && data.scope.unwrap()@ == "api offline_access"@,
        data.username is Some,
        data.password is Some,
        data.two_factor_token is None,
        first_user_with_mail(s0.users@, data.username.unwrap()@) matches Some(user)
            && user.password_hash@ == data.password.unwrap()@ && twofactors_of(
            s0.twofactors@,
            user.uuid@,
        ).len() > 0 && crate::twofactor::spec_payloads(
            provider_ids(twofactors_of(s0.twofactors@, user.uuid@)),
            user.uuid@,
            s0,
            config,
            ext,
        ) is Ok,
    ensures
        s1 == s0,
        ({
            let user = first_user_with_mail(s0.users@, data.username.unwrap()@).unwrap();
            let tfs = twofactors_of(s0.twofactors@, user.uuid@);
            r matches LoginOutcome::Challenge(ch) && ch.providers@ == provider_ids(tfs)
                && ch.providers@.len() == tfs.len() && (forall|i: int|
                0 <= i < tfs.len() ==> ch.providers@[i] == tfs[i].atype)
        }),
{
}

/// When the stored remembered-device bypass token equals the submitted
/// proof and the bypass is enabled, login succeeds and the response carries
/// a refreshed bypass token — even though the caller named no provider and
/// the selection only defaulted to the bypass pseudo-provider.
pub proof fn lemma_remember_bypass_grants_fresh_token(
    r: LoginOutcome,
    data: ConnectData,
    s0: Store,
    s1: Store,
    config: Config,
    ext: Collaborators,
)
    requires
        password_outcome_ok(r, data, s0, s1, config, ext),
        data.scope is Some && data.scope.unwrap()@ == "api offline_access"@,
        data.username is Some,
        data.password is Some,
        data.two_factor_provider is None,
        data.two_factor_token is Some,
        !config.disable_2fa_remember,
        ext.store_writable,
        first_user_with_mail(s0.users@, data.username.unwrap()@) matches Some(user)
            && user.password_hash@ == data.password.unwrap()@ && ({
            let tfs = twofactors_of(s0.twofactors@, user.uuid@);
            tfs.len() > 0 && tfs[0].atype == 5 && (spec_reconciled_remember(data, s0, user)
                matches Some(stored) && stored@ == data.two_factor_token.unwrap()@) && !(
            config.mail_enabled && spec_device_is_new(data, s0, user) && !ext.mail_ok
                && config.require_device_email)
        }),
    ensures
        r matches LoginOutcome::Success(tp) && tp.two_factor_token == Some(
            ext.fresh.remember_token,
        ),
{
}

/// A refresh token naming no stored device always fails with the
/// invalid-refresh-token error and issues nothing.
pub proof fn lemma_unknown_refresh_token_rejected(
    r: LoginOutcome,
    data: ConnectData,
    s0: Store,
    s1: Store,
    config: Config,
    ext: Collaborators,
)
    requires
        data.refresh_token is Some,
        refresh_outcome_ok(r, data, s0, s1, config, ext),
        first_device_with_refresh_token(s0.devices@, data.refresh_token.unwrap()@) is None,
    ensures
        r matches LoginOutcome::Failure(e) && e is InvalidRefreshToken,
        s1 == s0,
{
}

} // verus!
