//! The persistent records an attempt works on — users, devices, two-factor
//! records and organization memberships — and an in-memory model of the
//! storage adapter with verified lookups and a per-device upsert.

use vstd::prelude::*;
use vstd::pervasive::VecAdditionalExecFns;
use crate::strutil::str_eq;
use crate::types::{AuthError, Config, FreshSecrets};

verus! {

/// One user record.  The concrete hashing of credentials is a collaborator
/// concern: the record stores the verifier value that a submitted password
/// is checked against.
#[derive(Debug)]
pub struct User {
    pub uuid: String,
    pub email: String,
    pub password_hash: String,
    /// Key material passed through into a successful response.
    pub akey: String,
    pub private_key: Option<String>,
}

/// One device record, named by a client-supplied identifier that is
/// untrusted for ownership continuity.
#[derive(Debug)]
pub struct Device {
    pub uuid: String,
    pub user_uuid: String,
    pub name: String,
    /// Best-effort platform classifier.
    pub atype: i32,
    /// The current rotating secret; empty until the first issuance.
    pub refresh_token: String,
    /// The remembered-device bypass token, when one is outstanding.
    pub twofactor_remember: Option<String>,
    pub updated_at: u64,
}

/// One registered second factor: a provider classifier and an opaque
/// provider-specific data blob.
#[derive(Debug)]
pub struct TwoFactor {
    pub user_uuid: String,
    pub atype: i32,
    pub data: String,
}

/// One organization membership, read-only input to token issuance.
#[derive(Debug)]
pub struct UserOrganization {
    pub user_uuid: String,
    pub org_uuid: String,
}

impl Clone for User {
    fn clone(&self) -> (r: Self)
        ensures
            r == *self,
    {
        User {
            uuid: self.uuid.clone(),
            email: self.email.clone(),
            password_hash: self.password_hash.clone(),
            akey: self.akey.clone(),
            private_key: match &self.private_key {
                Some(s) => Some(s.clone()),
                None => None,
            },
        }
    }
}

impl Clone for Device {
    fn clone(&self) -> (r: Self)
        ensures
            r == *self,
    {
        Device {
            uuid: self.uuid.clone(),
            user_uuid: self.user_uuid.clone(),
            name: self.name.clone(),
            atype: self.atype,
            refresh_token: self.refresh_token.clone(),
            twofactor_remember: match &self.twofactor_remember {
                Some(s) => Some(s.clone()),
                None => None,
            },
            updated_at: self.updated_at,
        }
    }
}

impl Clone for TwoFactor {
    fn clone(&self) -> (r: Self)
        ensures
            r == *self,
    {
        TwoFactor {
            user_uuid: self.user_uuid.clone(),
            atype: self.atype,
            data: self.data.clone(),
        }
    }
}

impl Clone for UserOrganization {
    fn clone(&self) -> (r: Self)
        ensures
            r == *self,
    {
        UserOrganization {
            user_uuid: self.user_uuid.clone(),
            org_uuid: self.org_uuid.clone(),
        }
    }
}

impl User {
    /// Whether the submitted password checks out against the stored
    /// verifier value.  This comparison is not security-sensitive timing-wise.
    pub fn check_valid_password(&self, password: &str) -> (r: bool)
        ensures
            r == (self.password_hash@ == password@),
    {
        str_eq(self.password_hash.as_str(), password)
    }
}

impl Device {
    /// A fresh device bound to one user, with no outstanding secrets.
    pub fn new(uuid: String, user_uuid: String, name: String, atype: i32) -> (d: Device)
        ensures
            d.uuid == uuid,
            d.user_uuid == user_uuid,
            d.name == name,
            d.atype == atype,
            d.refresh_token@ == Seq::<char>::empty(),
            d.twofactor_remember is None,
            d.updated_at == 0,
    {
        Device {
            uuid,
            user_uuid,
            name,
            atype,
            refresh_token: String::new(),
            twofactor_remember: None,
            updated_at: 0,
        }
    }

    /// Issues a fresh access token and rotates this device's refresh token.
    /// The user record and the organization memberships are read-only policy
    /// inputs to minting; the secrets themselves come from the caller.
    pub fn refresh_tokens(
        &mut self,
        user: &User,
        orgs: &Vec<UserOrganization>,
        fresh: &FreshSecrets,
        config: &Config,
    ) -> (r: (String, u64))
        ensures
            r.0 == fresh.access_token,
            r.1 == config.expires_in,
            final(self).refresh_token == fresh.refresh_token,
            final(self).updated_at == fresh.now,
            final(self).uuid == old(self).uuid,
            final(self).user_uuid == old(self).user_uuid,
            final(self).name == old(self).name,
            final(self).atype == old(self).atype,
            final(self).twofactor_remember == old(self).twofactor_remember,
    {
        let _ = user;
        let _ = orgs;
        self.refresh_token = fresh.refresh_token.clone();
        self.updated_at = fresh.now;
        (fresh.access_token.clone(), config.expires_in)
    }

    /// Binds a caller-minted bypass token to this device and returns it.
    pub fn refresh_twofactor_remember(&mut self, fresh_token: &String) -> (r: String)
        ensures
            r == *fresh_token,
            final(self).twofactor_remember == Some(*fresh_token),
            final(self).uuid == old(self).uuid,
            final(self).user_uuid == old(self).user_uuid,
            final(self).name == old(self).name,
            final(self).atype == old(self).atype,
            final(self).refresh_token == old(self).refresh_token,
            final(self).updated_at == old(self).updated_at,
    {
        let t = fresh_token.clone();
        self.twofactor_remember = Some(t.clone());
        t
    }

    /// Clears any outstanding bypass token on this device.
    pub fn delete_twofactor_remember(&mut self)
        ensures
            final(self).twofactor_remember is None,
            final(self).uuid == old(self).uuid,
            final(self).user_uuid == old(self).user_uuid,
            final(self).name == old(self).name,
            final(self).atype == old(self).atype,
            final(self).refresh_token == old(self).refresh_token,
            final(self).updated_at == old(self).updated_at,
    {
        self.twofactor_remember = None;
    }
}

/// The first user whose e-mail address is `mail`, in storage order.
pub open spec fn first_user_with_mail(users: Seq<User>, mail: Seq<char>) -> Option<User>
    decreases users.len(),
{
    if users.len() == 0 {
        None
    } else if users[0].email@ == mail {
        Some(users[0])
    } else {
        first_user_with_mail(users.drop_first(), mail)
    }
}

/// The first user with the given identifier, in storage order.
pub open spec fn first_user_with_uuid(users: Seq<User>, uuid: Seq<char>) -> Option<User>
    decreases users.len(),
{
    if users.len() == 0 {
        None
    } else if users[0].uuid@ == uuid {
        Some(users[0])
    } else {
        first_user_with_uuid(users.drop_first(), uuid)
    }
}

/// The first device with the given identifier, in storage order.
pub open spec fn first_device_with_uuid(devices: Seq<Device>, uuid: Seq<char>) -> Option<Device>
    decreases devices.len(),
{
    if devices.len() == 0 {
        None
    } else if devices[0].uuid@ == uuid {
        Some(devices[0])
    } else {
        first_device_with_uuid(devices.drop_first(), uuid)
    }
}

/// The first device holding the given refresh token, in storage order.
pub open spec fn first_device_with_refresh_token(devices: Seq<Device>, token: Seq<char>) -> Option<
    Device,
>
    decreases devices.len(),
{
    if devices.len() == 0 {
        None
    } else if devices[0].refresh_token@ == token {
        Some(devices[0])
    } else {
        first_device_with_refresh_token(devices.drop_first(), token)
    }
}

/// One user's two-factor records, in storage order.
pub open spec fn twofactors_of(tfs: Seq<TwoFactor>, user_uuid: Seq<char>) -> Seq<TwoFactor>
    decreases tfs.len(),
{
    if tfs.len() == 0 {
        Seq::empty()
    } else {
        let rest = twofactors_of(tfs.drop_last(), user_uuid);
        if tfs.last().user_uuid@ == user_uuid {
            rest.push(tfs.last())
        } else {
            rest
        }
    }
}

/// One user's organization memberships, in storage order.
pub open spec fn orgs_of(orgs: Seq<UserOrganization>, user_uuid: Seq<char>) -> Seq<
    UserOrganization,
>
    decreases orgs.len(),
{
    if orgs.len() == 0 {
        Seq::empty()
    } else {
        let rest = orgs_of(orgs.drop_last(), user_uuid);
        if orgs.last().user_uuid@ == user_uuid {
            rest.push(orgs.last())
        } else {
            rest
        }
    }
}

/// The first record of the given provider type, in storage order.
pub open spec fn first_of_type(tfs: Seq<TwoFactor>, atype: i32) -> Option<TwoFactor>
    decreases tfs.len(),
{
    if tfs.len() == 0 {
        None
    } else if tfs[0].atype == atype {
        Some(tfs[0])
    } else {
        first_of_type(tfs.drop_first(), atype)
    }
}

/// A found user is one of the stored users and bears the looked-up address.
pub proof fn lemma_first_user_with_mail_is_member(users: Seq<User>, mail: Seq<char>)
    requires
        first_user_with_mail(users, mail) is Some,
    ensures
        exists|i: int|
            0 <= i < users.len() && users[i] == first_user_with_mail(users, mail).unwrap(),
        first_user_with_mail(users, mail).unwrap().email@ == mail,
    decreases users.len(),
{
    if users.len() > 0 && users[0].email@ != mail {
        lemma_first_user_with_mail_is_member(users.drop_first(), mail);
        let u = first_user_with_mail(users, mail).unwrap();
        let i = choose|i: int| 0 <= i < users.drop_first().len() && users.drop_first()[i] == u;
        assert(users[i + 1] == u);
    }
}

/// A user lookup by identifier succeeds exactly when such a user is stored.
pub proof fn lemma_first_user_with_uuid_member(users: Seq<User>, uuid: Seq<char>)
    ensures
        (first_user_with_uuid(users, uuid) is Some) <==> (exists|i: int|
            0 <= i < users.len() && users[i].uuid@ == uuid),
        first_user_with_uuid(users, uuid) matches Some(u) ==> u.uuid@ == uuid && exists|i: int|
            0 <= i < users.len() && users[i] == u,
    decreases users.len(),
{
    if users.len() > 0 && users[0].uuid@ != uuid {
        lemma_first_user_with_uuid_member(users.drop_first(), uuid);
        if first_user_with_uuid(users, uuid) is Some {
            let u = first_user_with_uuid(users, uuid).unwrap();
            let i = choose|i: int|
                0 <= i < users.drop_first().len() && users.drop_first()[i] == u;
            assert(users[i + 1] == u);
        }
        if exists|i: int| 0 <= i < users.len() && users[i].uuid@ == uuid {
            let i = choose|i: int| 0 <= i < users.len() && users[i].uuid@ == uuid;
            assert(users.drop_first()[i - 1] == users[i]);
        }
    }
}

/// A found device is one of the stored devices and holds the looked-up token.
pub proof fn lemma_first_device_with_refresh_token_is_member(devices: Seq<Device>, token: Seq<char>)
    requires
        first_device_with_refresh_token(devices, token) is Some,
    ensures
        exists|i: int|
            0 <= i < devices.len() && devices[i] == first_device_with_refresh_token(
                devices,
                token,
            ).unwrap(),
        first_device_with_refresh_token(devices, token).unwrap().refresh_token@ == token,
    decreases devices.len(),
{
    if devices.len() > 0 && devices[0].refresh_token@ != token {
        lemma_first_device_with_refresh_token_is_member(devices.drop_first(), token);
        let d = first_device_with_refresh_token(devices, token).unwrap();
        let i = choose|i: int|
            0 <= i < devices.drop_first().len() && devices.drop_first()[i] == d;
        assert(devices[i + 1] == d);
    }
}

/// A device lookup by identifier succeeds exactly when such a device is
/// stored, and the found device is one of the stored ones.
pub proof fn lemma_first_device_with_uuid_member(devices: Seq<Device>, uuid: Seq<char>)
    ensures
        (first_device_with_uuid(devices, uuid) is Some) <==> (exists|i: int|
            0 <= i < devices.len() && (#[trigger] devices[i]).uuid@ == uuid),
        first_device_with_uuid(devices, uuid) matches Some(d) ==> d.uuid@ == uuid && exists|i: int|
            0 <= i < devices.len() && devices[i] == d,
    decreases devices.len(),
{
    if devices.len() > 0 && devices[0].uuid@ != uuid {
        lemma_first_device_with_uuid_member(devices.drop_first(), uuid);
        if first_device_with_uuid(devices, uuid) is Some {
            let d = first_device_with_uuid(devices, uuid).unwrap();
            let i = choose|i: int|
                0 <= i < devices.drop_first().len() && devices.drop_first()[i] == d;
            assert(devices[i + 1] == d);
        }
        if exists|i: int| 0 <= i < devices.len() && (#[trigger] devices[i]).uuid@ == uuid {
            let i = choose|i: int| 0 <= i < devices.len() && (#[trigger] devices[i]).uuid@ == uuid;
            assert(devices.drop_first()[i - 1] == devices[i]);
        }
    }
}

/// The in-memory model of the storage adapter.  Each authentication attempt
/// is an independent unit of work against one such value; serializing
/// concurrent writes per device is the adapter's task, modelled here by the
/// single point of mutation [`Store::save_device`].
#[derive(Debug)]
pub struct Store {
    pub users: Vec<User>,
    pub devices: Vec<Device>,
    pub twofactors: Vec<TwoFactor>,
    pub org_memberships: Vec<UserOrganization>,
}

impl Store {
    /// Whether some stored user bears this identifier.
    pub open spec fn has_user(self, uuid: Seq<char>) -> bool {
        exists|q: int| 0 <= q < self.users@.len() && (#[trigger] self.users@[q]).uuid@ == uuid
    }

    /// The storage layer's assumed shape: unique user and device
    /// identifiers, every device owned by a stored user, and at most one
    /// two-factor record per user and provider type.
    pub open spec fn wf(self) -> bool {
        &&& forall|p: int, q: int|
            #![trigger self.users@[p], self.users@[q]]
            0 <= p < q < self.users@.len() ==> self.users@[p].uuid@ != self.users@[q].uuid@
        &&& forall|p: int, q: int|
            #![trigger self.devices@[p], self.devices@[q]]
            0 <= p < q < self.devices@.len() ==> self.devices@[p].uuid@ != self.devices@[q].uuid@
        &&& forall|p: int|
            0 <= p < self.devices@.len() ==> self.has_user(
                (#[trigger] self.devices@[p]).user_uuid@,
            )
        &&& forall|p: int, q: int|
            #![trigger self.twofactors@[p], self.twofactors@[q]]
            0 <= p < q < self.twofactors@.len() ==> !(self.twofactors@[p].user_uuid@
                == self.twofactors@[q].user_uuid@ && self.twofactors@[p].atype
                == self.twofactors@[q].atype)
    }

    /// Looks a user up by e-mail address; the first match wins.
    pub fn find_user_by_mail(&self, mail: &str) -> (r: Option<User>)
        ensures
            r == first_user_with_mail(self.users@, mail@),
    {
        let n = self.users.len();
        proof {
            assert(self.users@.subrange(0, n as int) =~= self.users@);
        }
        let mut i: usize = 0;
        while i < n
            invariant
                i <= n,
                n == self.users@.len(),
                first_user_with_mail(self.users@.subrange(i as int, n as int), mail@)
                    == first_user_with_mail(self.users@, mail@),
            decreases n - i,
        {
            proof {
                assert(self.users@.subrange(i as int, n as int)[0] == self.users@[i as int]);
                assert(self.users@.subrange(i as int, n as int).drop_first() =~= self.users@
                    .subrange(i + 1, n as int));
            }
            if str_eq(self.users[i].email.as_str(), mail) {
                return Some(self.users[i].clone());
            }
            i += 1;
        }
        proof {
            assert(self.users@.subrange(n as int, n as int).len() == 0);
        }
        None
    }

    /// Looks a user up by identifier; the first match wins.
    pub fn find_user_by_uuid(&self, uuid: &str) -> (r: Option<User>)
        ensures
            r == first_user_with_uuid(self.users@, uuid@),
    {
        let n = self.users.len();
        proof {
            assert(self.users@.subrange(0, n as int) =~= self.users@);
        }
        let mut i: usize = 0;
        while i < n
            invariant
                i <= n,
                n == self.users@.len(),
                first_user_with_uuid(self.users@.subrange(i as int, n as int), uuid@)
                    == first_user_with_uuid(self.users@, uuid@),
            decreases n - i,
        {
            proof {
                assert(self.users@.subrange(i as int, n as int)[0] == self.users@[i as int]);
                assert(self.users@.subrange(i as int, n as int).drop_first() =~= self.users@
                    .subrange(i + 1, n as int));
            }
            if str_eq(self.users[i].uuid.as_str(), uuid) {
                return Some(self.users[i].clone());
            }
            i += 1;
        }
        proof {
            assert(self.users@.subrange(n as int, n as int).len() == 0);
        }
        None
    }

    /// Looks a device up by its client-supplied identifier.
    pub fn find_device_by_uuid(&self, uuid: &str) -> (r: Option<Device>)
        ensures
            r == first_device_with_uuid(self.devices@, uuid@),
    {
        let n = self.devices.len();
        proof {
            assert(self.devices@.subrange(0, n as int) =~= self.devices@);
        }
        let mut i: usize = 0;
        while i < n
            invariant
                i <= n,
                n == self.devices@.len(),
                first_device_with_uuid(self.devices@.subrange(i as int, n as int), uuid@)
                    == first_device_with_uuid(self.devices@, uuid@),
            decreases n - i,
        {
            proof {
                assert(self.devices@.subrange(i as int, n as int)[0] == self.devices@[i as int]);
                assert(self.devices@.subrange(i as int, n as int).drop_first() =~= self.devices@
                    .subrange(i + 1, n as int));
            }
            if str_eq(self.devices[i].uuid.as_str(), uuid) {
                return Some(self.devices[i].clone());
            }
            i += 1;
        }
        proof {
            assert(self.devices@.subrange(n as int, n as int).len() == 0);
        }
        None
    }

    /// Looks a device up by the refresh token it currently holds.
    pub fn find_device_by_refresh_token(&self, token: &str) -> (r: Option<Device>)
        ensures
            r == first_device_with_refresh_token(self.devices@, token@),
    {
        let n = self.devices.len();
        proof {
            assert(self.devices@.subrange(0, n as int) =~= self.devices@);
        }
        let mut i: usize = 0;
        while i < n
            invariant
                i <= n,
                n == self.devices@.len(),
                first_device_with_refresh_token(self.devices@.subrange(i as int, n as int), token@)
                    == first_device_with_refresh_token(self.devices@, token@),
            decreases n - i,
        {
            proof {
                assert(self.devices@.subrange(i as int, n as int)[0] == self.devices@[i as int]);
                assert(self.devices@.subrange(i as int, n as int).drop_first() =~= self.devices@
                    .subrange(i + 1, n as int));
            }
            if str_eq(self.devices[i].refresh_token.as_str(), token) {
                return Some(self.devices[i].clone());
            }
            i += 1;
        }
        proof {
            assert(self.devices@.subrange(n as int, n as int).len() == 0);
        }
        None
    }

    /// All two-factor records of one user, in storage order.
    pub fn twofactors_by_user(&self, user_uuid: &str) -> (r: Vec<TwoFactor>)
        ensures
            r@ == twofactors_of(self.twofactors@, user_uuid@),
    {
        let n = self.twofactors.len();
        let mut out: Vec<TwoFactor> = Vec::new();
        let mut i: usize = 0;
        proof {
            assert(self.twofactors@.subrange(0, 0) =~= Seq::<TwoFactor>::empty());
        }
        while i < n
            invariant
                i <= n,
                n == self.twofactors@.len(),
                out@ == twofactors_of(self.twofactors@.subrange(0, i as int), user_uuid@),
            decreases n - i,
        {
            proof {
                assert(self.twofactors@.subrange(0, i + 1).drop_last() =~= self.twofactors@
                    .subrange(0, i as int));
                assert(self.twofactors@.subrange(0, i + 1).last() == self.twofactors@[i as int]);
            }
            if str_eq(self.twofactors[i].user_uuid.as_str(), user_uuid) {
                out.push(self.twofactors[i].clone());
            }
            i += 1;
        }
        proof {
            assert(self.twofactors@.subrange(0, n as int) =~= self.twofactors@);
        }
        out
    }

    /// All organization memberships of one user, in storage order.
    pub fn orgs_by_user(&self, user_uuid: &str) -> (r: Vec<UserOrganization>)
        ensures
            r@ == orgs_of(self.org_memberships@, user_uuid@),
    {
        let n = self.org_memberships.len();
        let mut out: Vec<UserOrganization> = Vec::new();
        let mut i: usize = 0;
        proof {
            assert(self.org_memberships@.subrange(0, 0) =~= Seq::<UserOrganization>::empty());
        }
        while i < n
            invariant
                i <= n,
                n == self.org_memberships@.len(),
                out@ == orgs_of(self.org_memberships@.subrange(0, i as int), user_uuid@),
            decreases n - i,
        {
            proof {
                assert(self.org_memberships@.subrange(0, i + 1).drop_last() =~= self.org_memberships@
                    .subrange(0, i as int));
                assert(self.org_memberships@.subrange(0, i + 1).last()
                    == self.org_memberships@[i as int]);
            }
            if str_eq(self.org_memberships[i].user_uuid.as_str(), user_uuid) {
                out.push(self.org_memberships[i].clone());
            }
            i += 1;
        }
        proof {
            assert(self.org_memberships@.subrange(0, n as int) =~= self.org_memberships@);
        }
        out
    }

    /// Writes one device record back: the record with the same identifier is
    /// replaced, or the device is appended.  The adapter may refuse the
    /// write; then nothing changes and the attempt fails as a storage error.
    pub fn save_device(&mut self, device: &Device, accept: bool) -> (r: Result<(), AuthError>)
        requires
            old(self).wf(),
            old(self).has_user(device.user_uuid@),
        ensures
            final(self).wf(),
            !accept ==> (r matches Err(e) && e is StorageUnavailable && *final(self) == *old(
                self,
            )),
            accept ==> r is Ok && final(self).users == old(self).users && final(self).twofactors
                == old(self).twofactors && final(self).org_memberships == old(
                self,
            ).org_memberships,
            accept && (forall|j: int|
                0 <= j < old(self).devices@.len() ==> (#[trigger] old(self).devices@[j]).uuid@
                    != device.uuid@) ==> final(self).devices@ == old(self).devices@.push(*device),
            accept ==> forall|j: int|
                0 <= j < old(self).devices@.len() && (#[trigger] old(self).devices@[j]).uuid@
                    == device.uuid@ ==> final(self).devices@ == old(self).devices@.update(
                    j,
                    *device,
                ),
    {
        if !accept {
            return Err(AuthError::StorageUnavailable);
        }
        let n = self.devices.len();
        let mut i: usize = 0;
        while i < n
            invariant
                accept,
                i <= n,
                n == self.devices@.len(),
                *self == *old(self),
                old(self).wf(),
                old(self).has_user(device.user_uuid@),
                forall|j: int| 0 <= j < i ==> (#[trigger] self.devices@[j]).uuid@ != device.uuid@,
            decreases n - i,
        {
            if str_eq(self.devices[i].uuid.as_str(), device.uuid.as_str()) {
                self.devices.set(i, device.clone());
                proof {
                    let ds0 = old(self).devices@;
                    let ds1 = self.devices@;
                    assert(ds1 == ds0.update(i as int, *device));
                    assert(self.users@ == old(self).users@);
                    assert forall|p: int, q: int|
                        0 <= p < q < ds1.len() implies (#[trigger] ds1[p]).uuid@
                        != (#[trigger] ds1[q]).uuid@ by {
                        assert(ds0[p].uuid@ != ds0[q].uuid@);
                        if p == i as int {
                            assert(ds1[p].uuid@ == ds0[p].uuid@);
                        }
                        if q == i as int {
                            assert(ds1[q].uuid@ == ds0[q].uuid@);
                        }
                    }
                    assert forall|p: int| 0 <= p < ds1.len() implies self.has_user(
                        (#[trigger] ds1[p]).user_uuid@,
                    ) by {
                        let target = if p == i as int {
                            device.user_uuid@
                        } else {
                            ds0[p].user_uuid@
                        };
                        assert(old(self).has_user(target));
                        let q = choose|q: int|
                            0 <= q < old(self).users@.len() && (#[trigger] old(
                                self,
                            ).users@[q]).uuid@ == target;
                        assert(self.users@[q].uuid@ == ds1[p].user_uuid@);
                    }
                }
                return Ok(());
            }
            i += 1;
        }
        self.devices.push(device.clone());
        proof {
            let ds0 = old(self).devices@;
            let ds1 = self.devices@;
            assert(ds1 == ds0.push(*device));
            assert(self.users@ == old(self).users@);
            assert forall|p: int, q: int|
                0 <= p < q < ds1.len() implies (#[trigger] ds1[p]).uuid@ != (#[trigger] ds1[q]).uuid@
                by {
                if q < ds0.len() {
                    assert(ds0[p].uuid@ != ds0[q].uuid@);
                } else {
                    assert(ds1[q] == *device);
                    assert(ds1[p] == ds0[p]);
                }
            }
            assert forall|p: int| 0 <= p < ds1.len() implies self.has_user(
                (#[trigger] ds1[p]).user_uuid@,
            ) by {
                let target = if p < ds0.len() {
                    ds0[p].user_uuid@
                } else {
                    device.user_uuid@
                };
                assert(old(self).has_user(target));
                let q = choose|q: int|
                    0 <= q < old(self).users@.len() && (#[trigger] old(self).users@[q]).uuid@
                        == target;
                assert(self.users@[q].uuid@ == ds1[p].user_uuid@);
            }
        }
        Ok(())
    }
}

} // verus!
