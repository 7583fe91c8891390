//! What keeps a login, a credential or a policy from being taken.
use vstd::prelude::*;

verus! {

/// Why a login, a credential or a policy is not taken.
#[derive(Debug, Clone, Copy, PartialEq, Eq, Structural)]
pub enum CopilotError {
    ClockBeforeEpoch,
    UnsupportedClock,
    LoginLifetime,
    IssuanceTime,
    Expired,
    Lifetime,
    PolicyIdentity,
    UserAllowlist,
    UnsupportedTtl,
    LifetimeRequired,
    KeyLength,
    KeyInline,
    KeyUnreadable,
    InvalidCredential,
    AdmissionDenied,
    LifetimeOverflow,
    VerifiedRequired,
    MissingPollingInterval,
    PollingInterval,
    MissingLoginExpiry,
    LoginExpiry,
    MissingDeviceCode,
    MissingUserCode,
    VerificationUri,
    NoRandomness,
    Upstream,
    MissingAccessToken,
    UpstreamExpiry,
    MissingUserId,
    LoginExpired,
    SealFailed,
    HeaderValue,
    TokenNotFound,
}

impl CopilotError {
    pub open spec fn message_spec(self) -> Seq<char> {
        match self {
            CopilotError::ClockBeforeEpoch => "second time provided was later than self"@,
            CopilotError::UnsupportedClock => "unsupported clock value"@,
            CopilotError::LoginLifetime => "invalid login lifetime"@,
            CopilotError::IssuanceTime => "invalid credential issuance time"@,
            CopilotError::Expired => "expired credential"@,
            CopilotError::Lifetime => "invalid credential lifetime"@,
            CopilotError::PolicyIdentity => "invalid Copilot policy identity"@,
            CopilotError::UserAllowlist => "invalid Copilot user allowlist"@,
            CopilotError::UnsupportedTtl => "unsupported Copilot credential TTL"@,
            CopilotError::LifetimeRequired => "Copilot requires positive credentialTTL or disableExpiry: true"@,
            CopilotError::KeyLength => "Copilot encryption key must contain exactly 32 raw bytes"@,
            CopilotError::KeyInline => "Copilot encryptionKey must reference a file"@,
            CopilotError::KeyUnreadable => "failed to load Copilot encryption key"@,
            CopilotError::InvalidCredential => "invalid credential"@,
            CopilotError::AdmissionDenied => "Copilot user is not allowed"@,
            CopilotError::LifetimeOverflow => "credential lifetime overflow"@,
            CopilotError::VerifiedRequired => "verified Copilot user credential required"@,
            CopilotError::MissingPollingInterval => "missing polling interval"@,
            CopilotError::PollingInterval => "invalid polling interval"@,
            CopilotError::MissingLoginExpiry => "missing login expiry"@,
            CopilotError::LoginExpiry => "invalid login expiry"@,
            CopilotError::MissingDeviceCode => "missing device code"@,
            CopilotError::MissingUserCode => "missing user code"@,
            CopilotError::VerificationUri => "invalid verification URI"@,
            CopilotError::NoRandomness => "no random bytes"@,
            CopilotError::Upstream => "the request to GitHub failed"@,
            CopilotError::MissingAccessToken => "missing access token"@,
            CopilotError::UpstreamExpiry => "invalid upstream expiry"@,
            CopilotError::MissingUserId => "missing user ID"@,
            CopilotError::LoginExpired => "login expired"@,
            CopilotError::SealFailed => "sealing failed"@,
            CopilotError::HeaderValue => "failed to parse header value"@,
            CopilotError::TokenNotFound => "Copilot token not found; set GH_COPILOT_TOKEN or authenticate with GitHub Copilot/GitHub CLI"@,
        }
    }

    /// What is said of the error. It never holds anything of a credential.
    pub fn message(&self) -> (r: &'static str)
        ensures
            r@ == self.message_spec(),
    {
        match self {
            CopilotError::ClockBeforeEpoch => "second time provided was later than self",
            CopilotError::UnsupportedClock => "unsupported clock value",
            CopilotError::LoginLifetime => "invalid login lifetime",
            CopilotError::IssuanceTime => "invalid credential issuance time",
            CopilotError::Expired => "expired credential",
            CopilotError::Lifetime => "invalid credential lifetime",
            CopilotError::PolicyIdentity => "invalid Copilot policy identity",
            CopilotError::UserAllowlist => "invalid Copilot user allowlist",
            CopilotError::UnsupportedTtl => "unsupported Copilot credential TTL",
            CopilotError::LifetimeRequired => "Copilot requires positive credentialTTL or disableExpiry: true",
            CopilotError::KeyLength => "Copilot encryption key must contain exactly 32 raw bytes",
            CopilotError::KeyInline => "Copilot encryptionKey must reference a file",
            CopilotError::KeyUnreadable => "failed to load Copilot encryption key",
            CopilotError::InvalidCredential => "invalid credential",
            CopilotError::AdmissionDenied => "Copilot user is not allowed",
            CopilotError::LifetimeOverflow => "credential lifetime overflow",
            CopilotError::VerifiedRequired => "verified Copilot user credential required",
            CopilotError::MissingPollingInterval => "missing polling interval",
            CopilotError::PollingInterval => "invalid polling interval",
            CopilotError::MissingLoginExpiry => "missing login expiry",
            CopilotError::LoginExpiry => "invalid login expiry",
            CopilotError::MissingDeviceCode => "missing device code",
            CopilotError::MissingUserCode => "missing user code",
            CopilotError::VerificationUri => "invalid verification URI",
            CopilotError::NoRandomness => "no random bytes",
            CopilotError::Upstream => "the request to GitHub failed",
            CopilotError::MissingAccessToken => "missing access token",
            CopilotError::UpstreamExpiry => "invalid upstream expiry",
            CopilotError::MissingUserId => "missing user ID",
            CopilotError::LoginExpired => "login expired",
            CopilotError::SealFailed => "sealing failed",
            CopilotError::HeaderValue => "failed to parse header value",
            CopilotError::TokenNotFound => "Copilot token not found; set GH_COPILOT_TOKEN or authenticate with GitHub Copilot/GitHub CLI",
        }
    }
}

} // verus!
