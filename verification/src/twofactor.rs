//! The two-factor challenge engine: decides whether a second factor is
//! required, selects a provider, checks a submitted proof, manages the
//! remembered-device bypass token, and builds the challenge payloads.

use vstd::prelude::*;
use crate::store::{first_of_type, first_user_with_uuid, twofactors_of, Device, Store, TwoFactor};
use crate::strutil::ct_eq;
use crate::types::{
    AuthError, ChallengePayload, Collaborators, Config, ConnectData, PayloadView,
    TwoFactorChallenge, TwoFactorStop, TwoFactorType, U2fChallengeEntry, U2fEntryView,
    U2fLoginRequest, payload_views, spec_twofactor_type_of, twofactor_type_of,
};

verus! {

/// What the hardware-key metadata blob says about near-field support, or
/// nothing when the blob cannot be read.  The value is a function of the
/// blob's characters alone.
pub uninterp spec fn yubikey_nfc_of(data: Seq<char>) -> Option<bool>;

/// Relies on `serde_json::from_str`, `serde_json::Value::get` and
/// `serde_json::Value::as_bool`: reads the boolean `Nfc` field of the stored
/// hardware-key metadata blob.  Which value comes back depends only on the
/// blob's text, so the result is named by [`yubikey_nfc_of`].
#[verifier::external_body]
fn read_yubikey_nfc(data: &str) -> (r: Option<bool>)
    ensures
        r == yubikey_nfc_of(data@),
{
    match serde_json::from_str::<serde_json::Value>(data) {
        Ok(v) => match v.get("Nfc") {
            Some(f) => f.as_bool(),
            None => None,
        },
        Err(_) => None,
    }
}

/// The provider classifiers of a run of records, in the same order.
pub open spec fn provider_ids(tfs: Seq<TwoFactor>) -> Seq<i32> {
    tfs.map_values(|tf: TwoFactor| tf.atype)
}

/// Lists the provider classifiers of the given records, in order.
pub fn provider_id_list(tfs: &Vec<TwoFactor>) -> (r: Vec<i32>)
    ensures
        r@ == provider_ids(tfs@),
{
    let n = tfs.len();
    let mut out: Vec<i32> = Vec::new();
    let mut i: usize = 0;
    while i < n
        invariant
            i <= n,
            n == tfs@.len(),
            out@ == provider_ids(tfs@.subrange(0, i as int)),
        decreases n - i,
    {
        out.push(tfs[i].atype);
        proof {
            assert(out@ =~= provider_ids(tfs@.subrange(0, i + 1)));
        }
        i += 1;
    }
    proof {
        assert(tfs@.subrange(0, n as int) =~= tfs@);
    }
    out
}

/// Finds the first record of one provider type among the given records.
pub fn first_twofactor_of_type(tfs: &Vec<TwoFactor>, atype: i32) -> (r: Option<TwoFactor>)
    ensures
        r == first_of_type(tfs@, atype),
{
    let n = tfs.len();
    proof {
        assert(tfs@.subrange(0, n as int) =~= tfs@);
    }
    let mut i: usize = 0;
    while i < n
        invariant
            i <= n,
            n == tfs@.len(),
            first_of_type(tfs@.subrange(i as int, n as int), atype) == first_of_type(tfs@, atype),
        decreases n - i,
    {
        proof {
            assert(tfs@.subrange(i as int, n as int)[0] == tfs@[i as int]);
            assert(tfs@.subrange(i as int, n as int).drop_first() =~= tfs@.subrange(
                i + 1,
                n as int,
            ));
        }
        if tfs[i].atype == atype {
            return Some(tfs[i].clone());
        }
        i += 1;
    }
    proof {
        assert(tfs@.subrange(n as int, n as int).len() == 0);
    }
    None
}

/// The stored data blob of the selected record, or the unified
/// invalid-provider failure when the user has no record of the selected type.
pub fn _selected_data(tf: Option<TwoFactor>) -> (r: Result<String, AuthError>)
    ensures
        tf matches Some(t) ==> (r matches Ok(d) && d == t.data),
        tf is None ==> (r matches Err(e) && e is InvalidTwoFactorProvider),
{
    match tf {
        Some(t) => Ok(t.data),
        None => Err(AuthError::InvalidTwoFactorProvider),
    }
}

/// The challenge-response entries a login request yields: one entry per
/// registered key, each carrying the application identifier and the nonce.
pub open spec fn u2f_entry_views(req: U2fLoginRequest) -> Seq<U2fEntryView> {
    Seq::new(
        req.registered_keys@.len(),
        |j: int|
            U2fEntryView {
                app_id: req.app_id@,
                challenge: req.challenge@,
                version: req.registered_keys@[j].version@,
                key_handle: req.registered_keys@[j].key_handle@,
            },
    )
}

/// The challenge payload owed to one listed provider, or the failure that
/// aborts challenge building.
pub open spec fn spec_payload(
    p: i32,
    user_uuid: Seq<char>,
    store: Store,
    config: Config,
    ext: Collaborators,
) -> Result<PayloadView, AuthError> {
    if p == 4 {
        if !config.domain_set {
            Ok(PayloadView::Empty)
        } else {
            match ext.u2f_login {
                None => Err(AuthError::ChallengeUnavailable),
                Some(req) => Ok(PayloadView::U2f(u2f_entry_views(req))),
            }
        }
    } else if p == 2 {
        if first_user_with_uuid(store.users@, user_uuid) is None {
            Err(AuthError::UserNotFound)
        } else {
            match ext.duo_signature {
                None => Err(AuthError::ChallengeUnavailable),
                Some(ds) => Ok(PayloadView::Duo(ds.host@, ds.signature@)),
            }
        }
    } else if p == 3 {
        match first_of_type(twofactors_of(store.twofactors@, user_uuid), 3) {
            None => Err(AuthError::NoSuchProviderRegistered),
            Some(tf) => match yubikey_nfc_of(tf.data@) {
                None => Err(AuthError::InvalidStoredData),
                Some(nfc) => Ok(PayloadView::YubiKey(nfc)),
            },
        }
    } else {
        Ok(PayloadView::Empty)
    }
}

/// The payloads owed to a whole provider list, in order; the first failing
/// provider aborts the build.
pub open spec fn spec_payloads(
    ps: Seq<i32>,
    user_uuid: Seq<char>,
    store: Store,
    config: Config,
    ext: Collaborators,
) -> Result<Seq<PayloadView>, AuthError>
    decreases ps.len(),
{
    if ps.len() == 0 {
        Ok(Seq::empty())
    } else {
        match spec_payloads(ps.drop_last(), user_uuid, store, config, ext) {
            Err(e) => Err(e),
            Ok(pre) => match spec_payload(ps.last(), user_uuid, store, config, ext) {
                Err(e) => Err(e),
                Ok(v) => Ok(pre.push(v)),
            },
        }
    }
}

/// A failure among the first providers decides the whole build.
proof fn lemma_payloads_err_persists(
    ps: Seq<i32>,
    i: int,
    user_uuid: Seq<char>,
    store: Store,
    config: Config,
    ext: Collaborators,
)
    requires
        0 <= i <= ps.len(),
        spec_payloads(ps.subrange(0, i), user_uuid, store, config, ext) is Err,
    ensures
        spec_payloads(ps, user_uuid, store, config, ext) == spec_payloads(
            ps.subrange(0, i),
            user_uuid,
            store,
            config,
            ext,
        ),
    decreases ps.len() - i,
{
    if i < ps.len() {
        assert(ps.subrange(0, i + 1).drop_last() =~= ps.subrange(0, i));
        lemma_payloads_err_persists(ps, i + 1, user_uuid, store, config, ext);
    } else {
        assert(ps.subrange(0, i) =~= ps);
    }
}

/// Builds the payload for one listed provider.
fn payload_for(
    p: i32,
    user_uuid: &String,
    store: &Store,
    config: &Config,
    ext: &Collaborators,
) -> (r: Result<ChallengePayload, AuthError>)
    ensures
        match r {
            Ok(pl) => (spec_payload(p, user_uuid@, *store, *config, *ext) matches Ok(v) && pl@
                == v),
            Err(e) => spec_payload(p, user_uuid@, *store, *config, *ext) == Err::<
                PayloadView,
                AuthError,
            >(e),
        },
{
    if p == 4 {
        if !config.domain_set {
            Ok(ChallengePayload::Empty)
        } else {
            match &ext.u2f_login {
                None => Err(AuthError::ChallengeUnavailable),
                Some(req) => {
                    let n = req.registered_keys.len();
                    let mut challenges: Vec<U2fChallengeEntry> = Vec::new();
                    let mut i: usize = 0;
                    while i < n
                        invariant
                            i <= n,
                            n == req.registered_keys@.len(),
                            challenges@.len() == i,
                            forall|j: int|
                                0 <= j < i ==> (#[trigger] challenges@[j]).view()
                                    == u2f_entry_views(*req)[j],
                        decreases n - i,
                    {
                        let k = &req.registered_keys[i];
                        challenges.push(
                            U2fChallengeEntry {
                                app_id: req.app_id.clone(),
                                challenge: req.challenge.clone(),
                                version: k.version.clone(),
                                key_handle: k.key_handle.clone(),
                            },
                        );
                        i += 1;
                    }
                    proof {
                        assert(crate::types::entry_views(challenges@) =~= u2f_entry_views(*req));
                    }
                    Ok(ChallengePayload::U2f { challenges })
                },
            }
        }
    } else if p == 2 {
        match store.find_user_by_uuid(user_uuid.as_str()) {
            None => Err(AuthError::UserNotFound),
            Some(_user) => match &ext.duo_signature {
                None => Err(AuthError::ChallengeUnavailable),
                Some(ds) => Ok(
                    ChallengePayload::Duo { host: ds.host.clone(), signature: ds.signature.clone() },
                ),
            },
        }
    } else if p == 3 {
        let tfs = store.twofactors_by_user(user_uuid.as_str());
        match first_twofactor_of_type(&tfs, 3) {
            None => Err(AuthError::NoSuchProviderRegistered),
            Some(tf) => match read_yubikey_nfc(tf.data.as_str()) {
                None => Err(AuthError::InvalidStoredData),
                Some(nfc) => Ok(ChallengePayload::YubiKey { nfc }),
            },
        }
    } else {
        Ok(ChallengePayload::Empty)
    }
}

/// Builds the challenge-pending payload set for every listed provider, in
/// order, so a client can switch factors mid-challenge.
pub fn build_twofactor_challenge(
    providers: &Vec<i32>,
    user_uuid: &String,
    store: &Store,
    config: &Config,
    ext: &Collaborators,
) -> (r: Result<TwoFactorChallenge, AuthError>)
    ensures
        match r {
            Ok(ch) => (spec_payloads(providers@, user_uuid@, *store, *config, *ext) matches Ok(pls)
                && ch.providers@ == providers@ && payload_views(ch.payloads@) == pls),
            Err(e) => spec_payloads(providers@, user_uuid@, *store, *config, *ext) == Err::<
                Seq<PayloadView>,
                AuthError,
            >(e),
        },
{
    let n = providers.len();
    let mut out_providers: Vec<i32> = Vec::new();
    let mut payloads: Vec<ChallengePayload> = Vec::new();
    let mut i: usize = 0;
    proof {
        assert(providers@.subrange(0, 0) =~= Seq::<i32>::empty());
        assert(payload_views(payloads@) =~= Seq::<PayloadView>::empty());
    }
    while i < n
        invariant
            i <= n,
            n == providers@.len(),
            out_providers@ == providers@.subrange(0, i as int),
            spec_payloads(providers@.subrange(0, i as int), user_uuid@, *store, *config, *ext)
                matches Ok(pls) && payload_views(payloads@) == pls,
        decreases n - i,
    {
        proof {
            assert(providers@.subrange(0, i + 1).drop_last() =~= providers@.subrange(0, i as int));
            assert(providers@.subrange(0, i + 1).last() == providers@[i as int]);
        }
        let p = providers[i];
        match payload_for(p, user_uuid, store, config, ext) {
            Err(e) => {
                proof {
                    lemma_payloads_err_persists(providers@, i + 1, user_uuid@, *store, *config, *ext);
                }
                return Err(e);
            },
            Ok(pl) => {
                out_providers.push(p);
                payloads.push(pl);
                proof {
                    assert(out_providers@ =~= providers@.subrange(0, i + 1));
                    assert(payload_views(payloads@) =~= payload_views(payloads@.drop_last()).push(
                        pl@,
                    ));
                }
            },
        }
        i += 1;
    }
    proof {
        assert(providers@.subrange(0, n as int) =~= providers@);
    }
    Ok(TwoFactorChallenge { providers: out_providers, payloads })
}

/// How one attempt moves through the challenge state machine, given the
/// user's registered records, the device's outstanding bypass token, policy
/// and the collaborators' answers.
pub enum TwoFactorVerdict {
    /// No registered second factor: proceed without any challenge.
    Skip,
    /// Verification succeeded and a refreshed bypass token is owed.
    Remembered,
    /// Verification succeeded; any outstanding bypass token is cleared.
    Cleared,
    /// Authentication is incomplete: the full challenge set is owed.
    ChallengeOut,
    /// The attempt fails terminally.
    Failed(AuthError),
}

/// The verdict of the two-factor state machine on one attempt.
pub open spec fn spec_twofactor(
    data: ConnectData,
    tfs: Seq<TwoFactor>,
    remember_stored: Option<String>,
    config: Config,
    ext: Collaborators,
) -> TwoFactorVerdict {
    if tfs.len() == 0 {
        TwoFactorVerdict::Skip
    } else if data.two_factor_token is None {
        TwoFactorVerdict::ChallengeOut
    } else {
        let selected = if data.two_factor_provider is Some {
            data.two_factor_provider.unwrap()
        } else {
            tfs[0].atype
        };
        let code = data.two_factor_token.unwrap();
        match spec_twofactor_type_of(selected) {
            None => TwoFactorVerdict::Failed(AuthError::InvalidTwoFactorProvider),
            Some(TwoFactorType::Remember) => {
                if remember_stored matches Some(stored) && !config.disable_2fa_remember && stored@
                    == code@ {
                    TwoFactorVerdict::Remembered
                } else {
                    TwoFactorVerdict::ChallengeOut
                }
            },
            Some(_) => {
                if first_of_type(tfs, selected) is None {
                    TwoFactorVerdict::Failed(AuthError::InvalidTwoFactorProvider)
                } else if !ext.verifier_accepts {
                    TwoFactorVerdict::ChallengeOut
                } else {
                    let remember = if data.two_factor_remember is Some {
                        data.two_factor_remember.unwrap()
                    } else {
                        0
                    };
                    if !config.disable_2fa_remember && remember == 1 {
                        TwoFactorVerdict::Remembered
                    } else {
                        TwoFactorVerdict::Cleared
                    }
                }
            },
        }
    }
}

/// Wraps the challenge build as the early stop of an attempt.
fn challenge_stop(
    providers: &Vec<i32>,
    user_uuid: &String,
    store: &Store,
    config: &Config,
    ext: &Collaborators,
) -> (r: TwoFactorStop)
    ensures
        match spec_payloads(providers@, user_uuid@, *store, *config, *ext) {
            Ok(pls) => (r matches TwoFactorStop::Challenge(ch) && ch.providers@ == providers@
                && payload_views(ch.payloads@) == pls),
            Err(e) => (r matches TwoFactorStop::Fail(e2) && e2 == e),
        },
{
    match build_twofactor_challenge(providers, user_uuid, store, config, ext) {
        Ok(ch) => TwoFactorStop::Challenge(ch),
        Err(e) => TwoFactorStop::Fail(e),
    }
}

/// Runs the two-factor state machine for one attempt.
///
/// A missing proof or a failed delegated verification re-issues the full
/// challenge set; a matching remembered-device bypass token counts as
/// success and refreshes the bypass token even when the caller did not ask
/// for provider `Remember`'s renewal explicitly.
pub fn twofactor_auth(
    user_uuid: &String,
    data: &ConnectData,
    device: &mut Device,
    store: &Store,
    config: &Config,
    ext: &Collaborators,
) -> (r: Result<Option<String>, TwoFactorStop>)
    ensures
        ({
            let tfs = twofactors_of(store.twofactors@, user_uuid@);
            let verdict = spec_twofactor(
                *data,
                tfs,
                old(device).twofactor_remember,
                *config,
                *ext,
            );
            &&& verdict is Skip ==> (r matches Ok(t) && t is None
                && *final(device) == *old(device))
            &&& verdict is Remembered ==> (r matches Ok(t) && t == Some(ext.fresh.remember_token)
                && final(device).twofactor_remember == Some(ext.fresh.remember_token))
            &&& verdict is Cleared ==> (r matches Ok(t) && t is None
                && final(device).twofactor_remember is None)
            &&& (verdict is Remembered || verdict is Cleared) ==> (final(device).uuid
                == old(device).uuid && final(device).user_uuid == old(device).user_uuid
                && final(device).name == old(device).name
                && final(device).atype == old(device).atype
                && final(device).refresh_token == old(device).refresh_token
                && final(device).updated_at == old(device).updated_at)
            &&& verdict is ChallengeOut ==> (*final(device) == *old(device) && (r matches Err(stop)
                && (match spec_payloads(provider_ids(tfs), user_uuid@, *store, *config, *ext) {
                    Ok(pls) => stop matches TwoFactorStop::Challenge(ch) && ch.providers@
                        == provider_ids(tfs) && payload_views(ch.payloads@) == pls,
                    Err(e) => stop matches TwoFactorStop::Fail(e2) && e2 == e,
                })))
            &&& verdict matches TwoFactorVerdict::Failed(e) ==> (r matches Err(stop)
                && stop matches TwoFactorStop::Fail(e2) && *final(device) == *old(device) && e2
                == e)
        }),
{
    let tfs = store.twofactors_by_user(user_uuid.as_str());
    if tfs.len() == 0 {
        return Ok(None);
    }
    let ids = provider_id_list(&tfs);
    let selected: i32 = match data.two_factor_provider {
        Some(p) => p,
        None => tfs[0].atype,
    };
    let code: &String = match &data.two_factor_token {
        Some(c) => c,
        None => {
            return Err(challenge_stop(&ids, user_uuid, store, config, ext));
        },
    };
    let mut remember_forced = false;
    match twofactor_type_of(selected) {
        None => {
            return Err(TwoFactorStop::Fail(AuthError::InvalidTwoFactorProvider));
        },
        Some(TwoFactorType::Remember) => {
            let matched = match &device.twofactor_remember {
                Some(stored) => !config.disable_2fa_remember && ct_eq(
                    stored.as_str(),
                    code.as_str(),
                ),
                None => false,
            };
            if matched {
                remember_forced = true;
            } else {
                return Err(challenge_stop(&ids, user_uuid, store, config, ext));
            }
        },
        Some(_) => {
            let sel_tf = first_twofactor_of_type(&tfs, selected);
            match _selected_data(sel_tf) {
                Err(e) => {
                    return Err(TwoFactorStop::Fail(e));
                },
                Ok(_sel_data) => {},
            }
            if !ext.verifier_accepts {
                return Err(challenge_stop(&ids, user_uuid, store, config, ext));
            }
        },
    }
    let remember_requested: i32 = match data.two_factor_remember {
        Some(x) => x,
        None => 0,
    };
    let remember: i32 = if remember_forced {
        1
    } else {
        remember_requested
    };
    if !config.disable_2fa_remember && remember == 1 {
        Ok(Some(device.refresh_twofactor_remember(&ext.fresh.remember_token)))
    } else {
        device.delete_twofactor_remember();
        Ok(None)
    }
}

} // verus!
