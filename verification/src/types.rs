//! Request, configuration, collaborator-input and response types of the
//! credential-issuance core.

use vstd::prelude::*;
use vstd::string::StringExecFns;

verus! {

/// One submitted authentication request, after form decoding.
///
/// The fields a grant type needs must be non-empty before its flow runs;
/// a missing field is a request-validation failure.
#[derive(Debug)]
pub struct ConnectData {
    pub grant_type: String,
    /// Needed for the refresh-token grant.
    pub refresh_token: Option<String>,
    /// Needed for the password grant.
    pub client_id: Option<String>,
    pub password: Option<String>,
    pub scope: Option<String>,
    pub username: Option<String>,
    pub device_identifier: Option<String>,
    pub device_name: Option<String>,
    pub device_type: Option<String>,
    /// Optional second-factor fields.
    pub two_factor_provider: Option<i32>,
    pub two_factor_token: Option<String>,
    pub two_factor_remember: Option<i32>,
}

impl ConnectData {
    /// A request with every field absent, the starting point of form decoding.
    pub fn empty() -> (r: ConnectData)
        ensures
            r.grant_type@ == Seq::<char>::empty(),
            r.refresh_token is None,
            r.client_id is None,
            r.password is None,
            r.scope is None,
            r.username is None,
            r.device_identifier is None,
            r.device_name is None,
            r.device_type is None,
            r.two_factor_provider is None,
            r.two_factor_token is None,
            r.two_factor_remember is None,
    {
        ConnectData {
            grant_type: String::new(),
            refresh_token: None,
            client_id: None,
            password: None,
            scope: None,
            username: None,
            device_identifier: None,
            device_name: None,
            device_type: None,
            two_factor_provider: None,
            two_factor_token: None,
            two_factor_remember: None,
        }
    }
}

/// Policy flags and token lifetime, passed in explicitly instead of being
/// read from ambient global state.
#[derive(Debug, Clone, Copy)]
pub struct Config {
    /// Whether a new-device notification is sent at all.
    pub mail_enabled: bool,
    /// Whether a failed new-device notification aborts the attempt.
    pub require_device_email: bool,
    /// Whether the remembered-device bypass is switched off.
    pub disable_2fa_remember: bool,
    /// Whether a public endpoint identity is configured, which the
    /// challenge-response payload needs.
    pub domain_set: bool,
    /// Lifetime of an issued access token, in seconds.
    pub expires_in: u64,
}

/// Fresh secret material for one attempt, minted by the caller: the core
/// never draws randomness or reads a clock itself.
#[derive(Debug)]
pub struct FreshSecrets {
    pub access_token: String,
    pub refresh_token: String,
    pub remember_token: String,
    pub now: u64,
}

/// A signed host and signature pair produced by the push-based verifier
/// for one user's address.
#[derive(Debug)]
pub struct DuoSignature {
    pub host: String,
    pub signature: String,
}

/// One registered challenge-response credential, as the external verifier
/// reports it.
#[derive(Debug)]
pub struct U2fRegisteredKey {
    pub version: String,
    pub key_handle: String,
}

/// A challenge-response login request produced by the external verifier:
/// an application identifier, a challenge nonce and the registered keys.
#[derive(Debug)]
pub struct U2fLoginRequest {
    pub app_id: String,
    pub challenge: String,
    pub registered_keys: Vec<U2fRegisteredKey>,
}

/// What the external collaborators answer during one attempt.  The core is
/// verified for every value of these fields, so nothing is assumed about
/// the collaborators' behaviour.
#[derive(Debug)]
pub struct Collaborators {
    /// The second-factor verifier's verdict on the submitted proof for the
    /// selected provider's stored data.
    pub verifier_accepts: bool,
    /// The challenge-response login request, absent when the verifier could
    /// not produce one.
    pub u2f_login: Option<U2fLoginRequest>,
    /// The push-based verifier's signature, absent when it failed.
    pub duo_signature: Option<DuoSignature>,
    /// Whether the new-device notification was delivered.
    pub mail_ok: bool,
    /// Whether the storage adapter accepts the device write.
    pub store_writable: bool,
    /// Fresh secret material and the current time.
    pub fresh: FreshSecrets,
}

/// The terminal failures of an attempt.
#[derive(Debug)]
pub enum AuthError {
    /// A field the grant type requires is absent; carries the user-facing text.
    MissingField { message: String },
    /// The grant type is neither `password` nor `refresh_token`; echoes it.
    UnsupportedGrantType { grant_type: String },
    /// The password grant was asked for a scope the core does not issue.
    ScopeNotSupported,
    /// Unknown username or wrong password, reported with one generic text.
    InvalidCredentials,
    /// The submitted refresh token names no device.
    InvalidRefreshToken,
    /// The selected two-factor provider is unknown, or the user has no
    /// record of that provider.
    InvalidTwoFactorProvider,
    /// A listed provider has no stored record to build its payload from.
    NoSuchProviderRegistered,
    /// A challenge payload needed a user record that does not exist.
    UserNotFound,
    /// An external collaborator could not produce challenge material.
    ChallengeUnavailable,
    /// A stored provider data blob could not be read.
    InvalidStoredData,
    /// The new-device notification failed and policy demands delivery.
    MailDeliveryFailed,
    /// The storage adapter refused the device write.
    StorageUnavailable,
}

impl AuthError {
    /// The user-facing message of this failure.
    pub fn message(&self) -> (r: String)
        ensures
            self matches AuthError::MissingField { message } ==> r@ == message@,
            self matches AuthError::UnsupportedGrantType { .. } ==> r@ == "Invalid type"@,
            self is ScopeNotSupported ==> r@ == "Scope not supported"@,
            self is InvalidCredentials ==> r@ == "Username or password is incorrect. Try again"@,
            self is InvalidRefreshToken ==> r@ == "Invalid refresh token"@,
            self is InvalidTwoFactorProvider ==> r@ == "Invalid two factor provider"@,
            self is NoSuchProviderRegistered ==> r@ == "No such provider registered"@,
            self is UserNotFound ==> r@ == "User does not exist"@,
            self is ChallengeUnavailable ==> r@ == "Challenge material unavailable"@,
            self is InvalidStoredData ==> r@ == "Two factor data is invalid"@,
            self is MailDeliveryFailed ==> r@
                == "Could not send login notification email. Please contact your administrator."@,
            self is StorageUnavailable ==> r@ == "Error saving device"@,
    {
        match self {
            AuthError::MissingField { message } => message.clone(),
            AuthError::UnsupportedGrantType { .. } => String::from_str("Invalid type"),
            AuthError::ScopeNotSupported => String::from_str("Scope not supported"),
            AuthError::InvalidCredentials => String::from_str(
                "Username or password is incorrect. Try again",
            ),
            AuthError::InvalidRefreshToken => String::from_str("Invalid refresh token"),
            AuthError::InvalidTwoFactorProvider => String::from_str(
                "Invalid two factor provider",
            ),
            AuthError::NoSuchProviderRegistered => String::from_str(
                "No such provider registered",
            ),
            AuthError::UserNotFound => String::from_str("User does not exist"),
            AuthError::ChallengeUnavailable => String::from_str(
                "Challenge material unavailable",
            ),
            AuthError::InvalidStoredData => String::from_str("Two factor data is invalid"),
            AuthError::MailDeliveryFailed => String::from_str(
                "Could not send login notification email. Please contact your administrator.",
            ),
            AuthError::StorageUnavailable => String::from_str("Error saving device"),
        }
    }
}

/// The closed set of second-factor provider kinds the core dispatches on.
#[derive(Debug, Clone, Copy, PartialEq, Eq, Structural)]
pub enum TwoFactorType {
    /// Time-based code provider.
    Authenticator,
    /// Push-based provider.
    Duo,
    /// Hardware-key provider.
    YubiKey,
    /// Challenge-response provider.
    U2f,
    /// Remembered-device bypass pseudo-provider.
    Remember,
}

/// The provider kind a numeric classifier names, if any.
pub open spec fn spec_twofactor_type_of(id: i32) -> Option<TwoFactorType> {
    if id == 0 {
        Some(TwoFactorType::Authenticator)
    } else if id == 2 {
        Some(TwoFactorType::Duo)
    } else if id == 3 {
        Some(TwoFactorType::YubiKey)
    } else if id == 4 {
        Some(TwoFactorType::U2f)
    } else if id == 5 {
        Some(TwoFactorType::Remember)
    } else {
        None
    }
}

/// Maps a numeric provider classifier to its kind.
pub fn twofactor_type_of(id: i32) -> (r: Option<TwoFactorType>)
    ensures
        r == spec_twofactor_type_of(id),
{
    if id == 0 {
        Some(TwoFactorType::Authenticator)
    } else if id == 2 {
        Some(TwoFactorType::Duo)
    } else if id == 3 {
        Some(TwoFactorType::YubiKey)
    } else if id == 4 {
        Some(TwoFactorType::U2f)
    } else if id == 5 {
        Some(TwoFactorType::Remember)
    } else {
        None
    }
}

/// The minted session artifacts returned on success.
#[derive(Debug)]
pub struct TokenPair {
    pub access_token: String,
    pub expires_in: u64,
    /// Always the fixed value `Bearer`.
    pub token_type: String,
    pub refresh_token: String,
    /// The user's key material, passed through, not derived here.
    pub key: String,
    pub private_key: Option<String>,
    /// A refreshed remembered-device bypass token, when one was granted.
    pub two_factor_token: Option<String>,
}

/// One challenge-response entry of a challenge payload.
#[derive(Debug)]
pub struct U2fChallengeEntry {
    pub app_id: String,
    pub challenge: String,
    pub version: String,
    pub key_handle: String,
}

/// The extra payload emitted for one listed provider.
#[derive(Debug)]
pub enum ChallengePayload {
    /// No extra payload: the client already knows how to prompt.
    Empty,
    /// One entry per registered challenge-response credential.
    U2f { challenges: Vec<U2fChallengeEntry> },
    /// The push-based verifier's signed host and signature pair.
    Duo { host: String, signature: String },
    /// Hardware-key metadata from the stored record.
    YubiKey { nfc: bool },
}

/// The abstract value of one challenge-response entry.
pub struct U2fEntryView {
    pub app_id: Seq<char>,
    pub challenge: Seq<char>,
    pub version: Seq<char>,
    pub key_handle: Seq<char>,
}

/// The abstract value of one provider's challenge payload.
pub enum PayloadView {
    Empty,
    U2f(Seq<U2fEntryView>),
    Duo(Seq<char>, Seq<char>),
    YubiKey(bool),
}

impl U2fChallengeEntry {
    pub open spec fn view(&self) -> U2fEntryView {
        U2fEntryView {
            app_id: self.app_id@,
            challenge: self.challenge@,
            version: self.version@,
            key_handle: self.key_handle@,
        }
    }
}

/// The abstract values of a run of challenge-response entries.
pub open spec fn entry_views(es: Seq<U2fChallengeEntry>) -> Seq<U2fEntryView> {
    Seq::new(es.len(), |j: int| es[j].view())
}

impl View for ChallengePayload {
    type V = PayloadView;

    open spec fn view(&self) -> PayloadView {
        match self {
            ChallengePayload::Empty => PayloadView::Empty,
            ChallengePayload::U2f { challenges } => PayloadView::U2f(entry_views(challenges@)),
            ChallengePayload::Duo { host, signature } => PayloadView::Duo(host@, signature@),
            ChallengePayload::YubiKey { nfc } => PayloadView::YubiKey(*nfc),
        }
    }
}

/// The abstract values of a run of challenge payloads.
pub open spec fn payload_views(ps: Seq<ChallengePayload>) -> Seq<PayloadView> {
    Seq::new(ps.len(), |j: int| ps[j]@)
}

/// The challenge-pending outcome: authentication is incomplete and the
/// caller must resubmit with a second-factor proof.  Every registered
/// provider is listed, so a client can switch factors mid-challenge.
#[derive(Debug)]
pub struct TwoFactorChallenge {
    /// The registered provider classifiers, in storage order.
    pub providers: Vec<i32>,
    /// One payload per listed provider, in the same order.
    pub payloads: Vec<ChallengePayload>,
}

impl TwoFactorChallenge {
    /// The transport-level error code of a challenge-pending response.
    pub fn error(&self) -> (r: String)
        ensures
            r@ == "invalid_grant"@,
    {
        String::from_str("invalid_grant")
    }

    /// The human-readable description of a challenge-pending response.
    pub fn error_description(&self) -> (r: String)
        ensures
            r@ == "Two factor required."@,
    {
        String::from_str("Two factor required.")
    }
}

/// How the two-factor engine ends an attempt early: with a retryable
/// challenge, or with a terminal failure.
#[derive(Debug)]
pub enum TwoFactorStop {
    Challenge(TwoFactorChallenge),
    Fail(AuthError),
}

/// The terminal outcome of one authentication attempt.
#[derive(Debug)]
pub enum LoginOutcome {
    Success(TokenPair),
    Challenge(TwoFactorChallenge),
    Failure(AuthError),
}

} // verus!
