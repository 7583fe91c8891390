//! Policies: whose credentials are taken and made, and for how long they are valid.
use vstd::prelude::*;

use crate::envelope::{
    deadlines_fault, envelope_written, now, read_envelope, stamped, validate_deadlines, Envelope,
    EnvelopeOf, EnvelopeView, ENVELOPE_PREFIX, ISSUER, MAX_CREDENTIAL, MAX_TOKEN, PURPOSE,
    TRANSACTION_PREFIX,
};
use crate::fault::CopilotError;
use crate::json::{views, Json, JsonView};
use crate::stream_state::{byte_len, bytes_of};
use crate::text::{
    after_prefix, blank, chars_of, join, owned, same, strip_prefix, text_of, trim, trimmed,
};

use base64::Engine;

verus! {

broadcast use crate::json::lemma_array_view;

/// The string that bytes are written as in the base64 alphabet for URLs, without padding.
pub uninterp spec fn base64url_text(bytes: Seq<u8>) -> Seq<char>;

/// The bytes that a string stands for in the base64 alphabet for URLs without padding, where it
/// stands for any.
pub uninterp spec fn base64url_bytes(s: Seq<char>) -> Option<Seq<u8>>;

/// Whether a character is one of the base64 alphabet for URLs.
pub open spec fn url_safe(c: char) -> bool {
    'A' <= c <= 'Z' || 'a' <= c <= 'z' || '0' <= c <= '9' || c == '-' || c == '_'
}

/// `base64::engine::general_purpose::URL_SAFE_NO_PAD.encode`: the string is a function of the
/// bytes, four characters for every three bytes and the rest rounded up, all of its alphabet, and
/// stands for the bytes again. The length bound keeps the size of the string from overflowing.
#[verifier::external_body]
fn encode_base64url(bytes: &[u8]) -> (r: String)
    requires
        bytes@.len() <= usize::MAX / 4,
    ensures
        r@ == base64url_text(bytes@),
        base64url_bytes(r@) == Some(bytes@),
        bytes_of(r@) == (4 * bytes@.len() + 2) / 3,
        forall|i: int| 0 <= i < r@.len() ==> url_safe(#[trigger] r@[i]),
{
    base64::engine::general_purpose::URL_SAFE_NO_PAD.encode(bytes)
}

/// `base64::engine::general_purpose::URL_SAFE_NO_PAD.decode`: the outcome is a function of the
/// string.
#[verifier::external_body]
fn decode_base64url(s: &str) -> (r: Option<Vec<u8>>)
    ensures
        match r {
            Some(bytes) => base64url_bytes(s@) == Some(bytes@),
            None => base64url_bytes(s@) is None,
        },
{
    base64::engine::general_purpose::URL_SAFE_NO_PAD.decode(s).ok()
}

/// The sealed bytes that a credential carries, where it is written as one.
pub open spec fn sealed_in(credential: Seq<char>) -> Option<Seq<u8>> {
    if bytes_of(credential) > MAX_CREDENTIAL {
        None
    } else {
        match after_prefix(credential, ENVELOPE_PREFIX@) {
            Some(rest) => base64url_bytes(rest),
            None => None,
        }
    }
}

/// The sealed bytes that a credential carries.
pub fn unframe(credential: &str) -> (r: Result<Vec<u8>, CopilotError>)
    ensures
        match sealed_in(credential@) {
            Some(bytes) => r is Ok && r->Ok_0@ == bytes,
            None => r is Err && r->Err_0 == CopilotError::InvalidCredential,
        },
{
    if byte_len(credential) > MAX_CREDENTIAL {
        return Err(CopilotError::InvalidCredential);
    }
    match strip_prefix(credential, ENVELOPE_PREFIX) {
        Some(rest) => match decode_base64url(rest) {
            Some(bytes) => Ok(bytes),
            None => Err(CopilotError::InvalidCredential),
        },
        None => Err(CopilotError::InvalidCredential),
    }
}

/// Whether a string is the credential that carries sealed bytes: one that is not too long carries
/// them to whoever takes it apart, and without its prefix it carries nothing.
pub open spec fn framed(credential: Seq<char>, sealed: Seq<u8>) -> bool {
    &&& credential == ENVELOPE_PREFIX@ + base64url_text(sealed)
    &&& bytes_of(credential) <= MAX_CREDENTIAL ==> sealed_in(credential) == Some(sealed)
    &&& sealed_in(base64url_text(sealed)) is None
}

/// The credential that carries sealed bytes.
pub fn frame(sealed: &[u8]) -> (r: String)
    requires
        sealed@.len() <= usize::MAX / 4,
    ensures
        framed(r@, sealed@),
{
    let text = encode_base64url(sealed);
    let r = join(ENVELOPE_PREFIX, text.as_str());
    assert(r@.skip(ENVELOPE_PREFIX@.len() as int) == text@);
    assert(r@.subrange(0, ENVELOPE_PREFIX@.len() as int) == ENVELOPE_PREFIX@);
    assert(r@.take(ENVELOPE_PREFIX@.len() as int) == ENVELOPE_PREFIX@);
    proof {
        // The prefix ends with a dot, which is not in the alphabet.
        reveal_strlit("agw_cp1.");
        assert(ENVELOPE_PREFIX@[7] == '.');
        if ENVELOPE_PREFIX@.is_prefix_of(text@) {
            assert(text@[7] == '.');
        }
    }
    r
}

/// The handle of a login that random bytes make.
pub fn frame_handle(random: &[u8; 32]) -> (r: String)
    ensures
        r@ == TRANSACTION_PREFIX@ + base64url_text(random@),
{
    let text = encode_base64url(random);
    join(TRANSACTION_PREFIX, text.as_str())
}

/// What a policy is made of.
#[derive(Debug)]
pub struct CopilotConfig {
    pub client_id: String,
    pub audience: String,
    pub allowed_user_ids: Vec<u64>,
    /// For how long credentials are valid, in nanoseconds.
    pub credential_ttl: Option<u128>,
    pub disable_expiry: Option<bool>,
    pub policy_id: String,
}

/// What a policy is made of, as mathematics.
pub struct ConfigView {
    pub client_id: Seq<char>,
    pub audience: Seq<char>,
    pub allowed_user_ids: Seq<u64>,
    pub credential_ttl: Option<u128>,
    pub disable_expiry: Option<bool>,
    pub policy_id: Seq<char>,
}

impl View for CopilotConfig {
    type V = ConfigView;

    open spec fn view(&self) -> ConfigView {
        ConfigView {
            client_id: self.client_id@,
            audience: self.audience@,
            allowed_user_ids: self.allowed_user_ids@,
            credential_ttl: self.credential_ttl,
            disable_expiry: self.disable_expiry,
            policy_id: self.policy_id@,
        }
    }
}

impl CopilotConfig {
    pub fn copy(&self) -> (r: CopilotConfig)
        ensures
            r@ == self@,
    {
        let mut ids: Vec<u64> = Vec::new();
        let mut i: usize = 0;
        while i < self.allowed_user_ids.len()
            invariant
                i <= self.allowed_user_ids.len(),
                ids@ == self.allowed_user_ids@.take(i as int),
            decreases self.allowed_user_ids.len() - i,
        {
            ids.push(self.allowed_user_ids[i]);
            i = i + 1;
        }
        assert(ids@ == self.allowed_user_ids@);
        CopilotConfig {
            client_id: owned(self.client_id.as_str()),
            audience: owned(self.audience.as_str()),
            allowed_user_ids: ids,
            credential_ttl: self.credential_ttl,
            disable_expiry: self.disable_expiry,
            policy_id: owned(self.policy_id.as_str()),
        }
    }
}

/// A policy that can take and make credentials.
#[derive(Debug)]
pub struct CopilotState {
    pub config: CopilotConfig,
    /// For how long credentials are valid, in nanoseconds, where they expire.
    pub ttl: Option<u64>,
}

/// A policy, as mathematics.
pub struct StateView {
    pub config: ConfigView,
    pub ttl: Option<u64>,
}

impl View for CopilotState {
    type V = StateView;

    open spec fn view(&self) -> StateView {
        StateView { config: self.config@, ttl: self.ttl }
    }
}

/// A policy. One without a state takes no credentials at all.
#[derive(Debug)]
pub struct CopilotPolicy {
    pub state: Option<CopilotState>,
}

/// Whether a name of a policy says something and is not too long.
pub open spec fn identity_ok(s: Seq<char>, maximum: usize) -> bool {
    trimmed(s).len() > 0 && bytes_of(s) <= maximum
}

fn is_identity(s: &str, maximum: usize) -> (r: bool)
    ensures
        r == identity_ok(s@, maximum),
{
    !blank(trim(s)) && byte_len(s) <= maximum
}

/// Whether a list of users is one that a policy can have.
pub open spec fn users_ok(ids: Seq<u64>) -> bool {
    0 < ids.len() <= 4096 && forall|i: int| 0 <= i < ids.len() ==> (#[trigger] ids[i]) > 0
}

fn are_users(ids: &Vec<u64>) -> (r: bool)
    ensures
        r == users_ok(ids@),
{
    if ids.len() == 0 || ids.len() > 4096 {
        return false;
    }
    let mut i: usize = 0;
    while i < ids.len()
        invariant
            0 < ids@.len() <= 4096,
            i <= ids.len(),
            forall|k: int| 0 <= k < i ==> (#[trigger] ids@[k]) > 0,
        decreases ids.len() - i,
    {
        if ids[i] == 0 {
            return false;
        }
        i = i + 1;
    }
    true
}

/// For how long the credentials of a policy are valid, where they expire; or why the policy does
/// not say so. `clock` is the time now.
pub open spec fn lifetime_of(config: ConfigView, clock: Result<u64, CopilotError>) -> Result<
    Option<u64>,
    CopilotError,
> {
    match (config.credential_ttl, config.disable_expiry) {
        (Some(ttl), None) => if ttl == 0 {
            Err(CopilotError::LifetimeRequired)
        } else if ttl > u64::MAX {
            Err(CopilotError::UnsupportedTtl)
        } else {
            match clock {
                Err(e) => Err(e),
                Ok(time) => if time + ttl <= u64::MAX {
                    Ok(Some(ttl as u64))
                } else {
                    Err(CopilotError::UnsupportedTtl)
                },
            }
        },
        (None, Some(true)) => Ok(None),
        _ => Err(CopilotError::LifetimeRequired),
    }
}

/// For how long the credentials of a policy are valid, where they expire; or why there is no such
/// policy.
pub open spec fn policy_ttl(
    config: ConfigView,
    key_length: nat,
    clock: Result<u64, CopilotError>,
) -> Result<Option<u64>, CopilotError> {
    if !identity_ok(config.client_id, 1024) || !identity_ok(config.audience, 2048) || !identity_ok(
        config.policy_id,
        2048,
    ) {
        Err(CopilotError::PolicyIdentity)
    } else if !users_ok(config.allowed_user_ids) {
        Err(CopilotError::UserAllowlist)
    } else {
        match lifetime_of(config, clock) {
            Err(e) => Err(e),
            Ok(ttl) => if key_length != 32 {
                Err(CopilotError::KeyLength)
            } else {
                Ok(ttl)
            },
        }
    }
}

/// Whether a policy is what a configuration comes to.
pub open spec fn policy_made(
    config: ConfigView,
    key_length: nat,
    clock: Result<u64, CopilotError>,
    r: Result<CopilotPolicy, CopilotError>,
) -> bool {
    match policy_ttl(config, key_length, clock) {
        Ok(ttl) => r is Ok && r->Ok_0.state is Some && r->Ok_0.state->0@ == (StateView {
            config,
            ttl,
        }),
        Err(e) => r is Err && r->Err_0 == e,
    }
}

impl CopilotPolicy {
    /// The policy that a configuration comes to, at a time.
    pub fn from_config_at(
        config: CopilotConfig,
        encryption_key: &[u8],
        clock: Result<u64, CopilotError>,
    ) -> (r: Result<CopilotPolicy, CopilotError>)
        ensures
            policy_made(config@, encryption_key@.len(), clock, r),
    {
        if !is_identity(config.client_id.as_str(), 1024) || !is_identity(
            config.audience.as_str(),
            2048,
        ) || !is_identity(config.policy_id.as_str(), 2048) {
            return Err(CopilotError::PolicyIdentity);
        }
        if !are_users(&config.allowed_user_ids) {
            return Err(CopilotError::UserAllowlist);
        }
        let ttl = match (config.credential_ttl, config.disable_expiry) {
            (Some(ttl), None) => {
                if ttl == 0 {
                    return Err(CopilotError::LifetimeRequired);
                }
                if ttl > u64::MAX as u128 {
                    return Err(CopilotError::UnsupportedTtl);
                }
                let ttl: u64 = ttl as u64;
                match clock {
                    Ok(time) => match time.checked_add(ttl) {
                        Some(_) => Some(ttl),
                        None => return Err(CopilotError::UnsupportedTtl),
                    },
                    Err(e) => return Err(e),
                }
            },
            (None, Some(true)) => None,
            _ => return Err(CopilotError::LifetimeRequired),
        };
        if encryption_key.len() != 32 {
            return Err(CopilotError::KeyLength);
        }
        Ok(CopilotPolicy { state: Some(CopilotState { config, ttl }) })
    }

    /// The policy that a configuration comes to, now.
    pub fn from_config(config: CopilotConfig, encryption_key: &[u8]) -> (r: Result<
        CopilotPolicy,
        CopilotError,
    >)
        ensures
            exists|nanos: Option<u128>|
                policy_made(config@, encryption_key@.len(), #[trigger] stamped(nanos), r),
    {
        let clock = now();
        CopilotPolicy::from_config_at(config, encryption_key, clock)
    }

    /// A policy that takes no credentials, for a configuration that could not be understood. Why
    /// it could not be is not kept.
    pub fn invalid(_reason: String) -> (r: CopilotPolicy)
        ensures
            r.state is None,
    {
        CopilotPolicy { state: None }
    }

    /// What may be shown of the policy. `ttl_text` is how the lifetime of credentials is written,
    /// where they have one.
    pub fn to_json(&self, ttl_text: Option<&str>) -> (r: Json)
        ensures
            r@ == policy_json(
                match self.state {
                    Some(state) => Some(state@),
                    None => None,
                },
                text_of(ttl_text),
            ),
    {
        match &self.state {
            None => Json::object().with(
                "translationError",
                Json::text("invalid Copilot authentication configuration"),
            ),
            Some(state) => {
                let config = &state.config;
                let mut ids: Vec<Json> = Vec::new();
                let mut i: usize = 0;
                while i < config.allowed_user_ids.len()
                    invariant
                        i <= config.allowed_user_ids.len(),
                        ids.len() == i,
                        forall|k: int|
                            0 <= k < i ==> (#[trigger] ids@[k])@ == JsonView::Unsigned(
                                config.allowed_user_ids@[k],
                            ),
                    decreases config.allowed_user_ids.len() - i,
                {
                    ids.push(Json::Unsigned(config.allowed_user_ids[i]));
                    i = i + 1;
                }
                assert(views(ids@) == config.allowed_user_ids@.map_values(
                    |n: u64| JsonView::Unsigned(n),
                ));
                Json::object().with("clientId", Json::text(config.client_id.as_str())).with(
                    "audience",
                    Json::text(config.audience.as_str()),
                ).with("allowedUserIds", Json::Array(ids)).with_some(
                    "credentialTTL",
                    match (config.credential_ttl, ttl_text) {
                        (Some(_), Some(text)) => Some(Json::text(text)),
                        _ => None,
                    },
                ).with_some(
                    "disableExpiry",
                    match config.disable_expiry {
                        Some(on) => Some(Json::Bool(on)),
                        None => None,
                    },
                ).with("policyId", Json::text(config.policy_id.as_str()))
            },
        }
    }
}

/// What may be shown of a policy: its configuration and never its key, or that it has none.
pub open spec fn policy_json(state: Option<StateView>, ttl_text: Option<Seq<char>>) -> JsonView {
    match state {
        None => JsonView::object().with(
            "translationError"@,
            JsonView::Text("invalid Copilot authentication configuration"@),
        ),
        Some(s) => JsonView::object().with("clientId"@, JsonView::Text(s.config.client_id)).with(
            "audience"@,
            JsonView::Text(s.config.audience),
        ).with(
            "allowedUserIds"@,
            JsonView::Array(
                s.config.allowed_user_ids.map_values(|n: u64| JsonView::Unsigned(n)),
            ),
        ).with_some(
            "credentialTTL"@,
            match (s.config.credential_ttl, ttl_text) {
                (Some(_), Some(text)) => Some(JsonView::Text(text)),
                _ => None,
            },
        ).with_some(
            "disableExpiry"@,
            match s.config.disable_expiry {
                Some(on) => Some(JsonView::Bool(on)),
                None => None,
            },
        ).with("policyId"@, JsonView::Text(s.config.policy_id)),
    }
}

/// Where the key of a policy is.
pub enum FileOrInline {
    /// In a file.
    File { file: String },
    /// In the configuration itself.
    Inline(String),
}

/// What a policy is made of, as an operator writes it.
pub struct LocalCopilotConfig {
    pub client_id: String,
    pub audience: String,
    pub allowed_user_ids: Vec<u64>,
    /// For how long credentials are valid, in nanoseconds.
    pub credential_ttl: Option<u128>,
    pub disable_expiry: Option<bool>,
    /// A protected file with the key: exactly 32 raw bytes. A key written here is not taken.
    pub encryption_key: FileOrInline,
}

/// What may be shown of a configuration: all of it but the key.
#[derive(Debug)]
pub struct ShownConfig<'a> {
    pub client_id: &'a str,
    pub audience: &'a str,
    pub allowed_user_ids: &'a Vec<u64>,
    pub credential_ttl: Option<u128>,
    pub disable_expiry: Option<bool>,
}

/// The configuration of a policy with an id.
pub open spec fn local_config(local: LocalCopilotConfig, policy_id: Seq<char>) -> ConfigView {
    ConfigView {
        client_id: local.client_id@,
        audience: local.audience@,
        allowed_user_ids: local.allowed_user_ids@,
        credential_ttl: local.credential_ttl,
        disable_expiry: local.disable_expiry,
        policy_id,
    }
}

impl LocalCopilotConfig {
    /// What may be shown of the configuration.
    pub fn shown<'a>(&'a self) -> (r: ShownConfig<'a>)
        ensures
            r.client_id@ == self.client_id@,
            r.audience@ == self.audience@,
            r.allowed_user_ids == self.allowed_user_ids,
            r.credential_ttl == self.credential_ttl,
            r.disable_expiry == self.disable_expiry,
    {
        ShownConfig {
            client_id: self.client_id.as_str(),
            audience: self.audience.as_str(),
            allowed_user_ids: &self.allowed_user_ids,
            credential_ttl: self.credential_ttl,
            disable_expiry: self.disable_expiry,
        }
    }

    /// The file that holds the key.
    pub fn key_file(&self) -> (r: Result<&str, CopilotError>)
        ensures
            match self.encryption_key {
                FileOrInline::File { file } => r is Ok && r->Ok_0@ == file@,
                FileOrInline::Inline(_) => r is Err && r->Err_0 == CopilotError::KeyInline,
            },
    {
        match &self.encryption_key {
            FileOrInline::File { file } => Ok(file.as_str()),
            FileOrInline::Inline(_) => Err(CopilotError::KeyInline),
        }
    }

    /// The policy that the configuration comes to, at a time. `key` is what the file with the key
    /// holds, where it could be read.
    pub fn compile_at(
        self,
        key: Option<Vec<u8>>,
        policy_id: String,
        clock: Result<u64, CopilotError>,
    ) -> (r: Result<CopilotPolicy, CopilotError>)
        ensures
            compiled(self, key, policy_id@, clock, r),
    {
        match self.encryption_key {
            FileOrInline::Inline(_) => return Err(CopilotError::KeyInline),
            FileOrInline::File { .. } => {},
        }
        let key = match key {
            Some(key) => key,
            None => return Err(CopilotError::KeyUnreadable),
        };
        let config = CopilotConfig {
            client_id: self.client_id,
            audience: self.audience,
            allowed_user_ids: self.allowed_user_ids,
            credential_ttl: self.credential_ttl,
            disable_expiry: self.disable_expiry,
            policy_id,
        };
        CopilotPolicy::from_config_at(config, key.as_slice(), clock)
    }

    /// The policy that the configuration comes to, now. `key` is what the file with the key holds,
    /// where it could be read.
    pub fn compile(self, key: Option<Vec<u8>>, policy_id: String) -> (r: Result<
        CopilotPolicy,
        CopilotError,
    >)
        ensures
            exists|nanos: Option<u128>|
                compiled(self, key, policy_id@, #[trigger] stamped(nanos), r),
    {
        let clock = now();
        self.compile_at(key, policy_id, clock)
    }
}

/// Whether a policy is what a configuration and its key come to.
pub open spec fn compiled(
    local: LocalCopilotConfig,
    key: Option<Vec<u8>>,
    policy_id: Seq<char>,
    clock: Result<u64, CopilotError>,
    r: Result<CopilotPolicy, CopilotError>,
) -> bool {
    match (local.encryption_key, key) {
        (FileOrInline::Inline(_), _) => r is Err && r->Err_0 == CopilotError::KeyInline,
        (FileOrInline::File { .. }, None) => r is Err && r->Err_0 == CopilotError::KeyUnreadable,
        (FileOrInline::File { .. }, Some(key)) => policy_made(
            local_config(local, policy_id),
            key@.len(),
            clock,
            r,
        ),
    }
}

/// Whether a character is one that a token may have: visible ASCII.
pub open spec fn graphic(c: char) -> bool {
    '!' <= c && c <= '~'
}

/// Whether a token of the upstream is one that a credential can hold.
pub open spec fn token_ok(token: Seq<char>) -> bool {
    token.len() > 0 && bytes_of(token) <= MAX_TOKEN && forall|i: int|
        0 <= i < token.len() ==> graphic(#[trigger] token[i])
}

fn is_token(token: &str) -> (r: bool)
    ensures
        r == token_ok(token@),
{
    if blank(token) || byte_len(token) > MAX_TOKEN {
        return false;
    }
    let cs = chars_of(token);
    let mut i: usize = 0;
    while i < cs.len()
        invariant
            cs@ == token@,
            i <= cs.len(),
            forall|k: int| 0 <= k < i ==> graphic(#[trigger] token@[k]),
        decreases cs.len() - i,
    {
        let c = cs[i];
        if !('!' <= c && c <= '~') {
            assert(!graphic(token@[i as int]));
            return false;
        }
        i = i + 1;
    }
    true
}

/// What keeps a policy from taking a credential at a time, if anything does. Who the user is
/// counts last: whoever has a credential that is not valid does not learn of the users.
pub open spec fn credential_fault(s: StateView, e: EnvelopeView, time: u64) -> Option<CopilotError> {
    if e.version != 1 || e.issuer != ISSUER@ || e.purpose != PURPOSE@ || e.audience
        != s.config.audience || e.policy_id != s.config.policy_id || !token_ok(e.upstream_token) {
        Some(CopilotError::InvalidCredential)
    } else {
        match deadlines_fault(
            e.issued_at,
            e.gateway_expires_at,
            e.upstream_expires_at,
            s.ttl,
            time,
        ) {
            Some(fault) => Some(fault),
            None => if s.config.allowed_user_ids.contains(e.user_id) {
                None
            } else {
                Some(CopilotError::AdmissionDenied)
            },
        }
    }
}

/// The credential that a policy makes for a user at a time, or why it makes none.
pub open spec fn credential_made(
    s: StateView,
    user_id: u64,
    token: Seq<char>,
    upstream_expires_at: Option<u64>,
    time: u64,
) -> Result<EnvelopeView, CopilotError> {
    if s.ttl matches Some(ttl) && time + ttl > u64::MAX {
        Err(CopilotError::LifetimeOverflow)
    } else {
        let e = EnvelopeOf {
            version: 1,
            issuer: ISSUER@,
            purpose: PURPOSE@,
            audience: s.config.audience,
            policy_id: s.config.policy_id,
            user_id,
            issued_at: time,
            gateway_expires_at: match s.ttl {
                Some(ttl) => Some((time + ttl) as u64),
                None => None,
            },
            upstream_expires_at,
            upstream_token: token,
        };
        match credential_fault(s, e, time) {
            Some(fault) => Err(fault),
            None => Ok(e),
        }
    }
}

/// The credential that unsealed bytes hold, where a policy takes it at a time; or why it does not.
/// None stands for bytes that could not be unsealed.
pub open spec fn credential_opened(s: StateView, plaintext: Option<Seq<u8>>, time: u64) -> Result<
    EnvelopeView,
    CopilotError,
> {
    match plaintext {
        None => Err(CopilotError::InvalidCredential),
        Some(bytes) => match envelope_written(bytes) {
            None => Err(CopilotError::InvalidCredential),
            Some(e) => match credential_fault(s, e, time) {
                Some(fault) => Err(fault),
                None => Ok(e),
            },
        },
    }
}

fn is_among(ids: &Vec<u64>, id: u64) -> (r: bool)
    ensures
        r == ids@.contains(id),
{
    let mut i: usize = 0;
    while i < ids.len()
        invariant
            i <= ids.len(),
            forall|k: int| 0 <= k < i ==> (#[trigger] ids@[k]) != id,
        decreases ids.len() - i,
    {
        if ids[i] == id {
            return true;
        }
        i = i + 1;
    }
    false
}

impl CopilotState {
    pub fn copy(&self) -> (r: CopilotState)
        ensures
            r@ == self@,
    {
        CopilotState { config: self.config.copy(), ttl: self.ttl }
    }

    /// Whether a user may have credentials of the policy.
    pub fn admits(&self, user_id: u64) -> (r: bool)
        ensures
            r == self@.config.allowed_user_ids.contains(user_id),
    {
        is_among(&self.config.allowed_user_ids, user_id)
    }

    /// Whether the policy takes a credential at a time.
    pub fn validate(&self, envelope: &Envelope, time: u64) -> (r: Result<(), CopilotError>)
        ensures
            match credential_fault(self@, envelope@, time) {
                Some(e) => r is Err && r->Err_0 == e,
                None => r is Ok,
            },
    {
        if envelope.version != 1 || !same(envelope.issuer.as_str(), ISSUER) || !same(
            envelope.purpose.as_str(),
            PURPOSE,
        ) || !same(envelope.audience.as_str(), self.config.audience.as_str()) || !same(
            envelope.policy_id.as_str(),
            self.config.policy_id.as_str(),
        ) || !is_token(envelope.upstream_token.as_str()) {
            return Err(CopilotError::InvalidCredential);
        }
        match validate_deadlines(
            envelope.issued_at,
            envelope.gateway_expires_at,
            envelope.upstream_expires_at,
            self.ttl,
            time,
        ) {
            Ok(_) => {},
            Err(e) => return Err(e),
        }
        if !self.admits(envelope.user_id) {
            return Err(CopilotError::AdmissionDenied);
        }
        Ok(())
    }

    /// The credential that the policy makes for a user at a time.
    pub fn envelope(
        &self,
        user_id: u64,
        token: &str,
        upstream_expires_at: Option<u64>,
        time: u64,
    ) -> (r: Result<Envelope, CopilotError>)
        ensures
            match credential_made(self@, user_id, token@, upstream_expires_at, time) {
                Ok(e) => r is Ok && r->Ok_0@ == e,
                Err(e) => r is Err && r->Err_0 == e,
            },
    {
        let gateway_expires_at = match self.ttl {
            Some(ttl) => match time.checked_add(ttl) {
                Some(t) => Some(t),
                None => return Err(CopilotError::LifetimeOverflow),
            },
            None => None,
        };
        let envelope = EnvelopeOf {
            version: 1,
            issuer: owned(ISSUER),
            purpose: owned(PURPOSE),
            audience: owned(self.config.audience.as_str()),
            policy_id: owned(self.config.policy_id.as_str()),
            user_id,
            issued_at: time,
            gateway_expires_at,
            upstream_expires_at,
            upstream_token: owned(token),
        };
        match self.validate(&envelope, time) {
            Ok(_) => Ok(envelope),
            Err(e) => Err(e),
        }
    }

    /// The credential that unsealed bytes hold, where the policy takes it at a time. None stands
    /// for bytes that could not be unsealed. What the bytes hold otherwise is not told.
    pub fn open(&self, plaintext: Option<&[u8]>, time: u64) -> (r: Result<Envelope, CopilotError>)
        ensures
            match credential_opened(
                self@,
                match plaintext {
                    Some(bytes) => Some(bytes@),
                    None => None,
                },
                time,
            ) {
                Ok(e) => r is Ok && r->Ok_0@ == e,
                Err(e) => r is Err && r->Err_0 == e,
            },
    {
        let bytes = match plaintext {
            Some(bytes) => bytes,
            None => return Err(CopilotError::InvalidCredential),
        };
        let value = match Json::parse_once(bytes) {
            Some(value) => value,
            None => return Err(CopilotError::InvalidCredential),
        };
        let envelope = match read_envelope(&value) {
            Some(envelope) => envelope,
            None => return Err(CopilotError::InvalidCredential),
        };
        match self.validate(&envelope, time) {
            Ok(_) => Ok(envelope),
            Err(e) => Err(e),
        }
    }
}

/// A credential that a policy makes is opened again by every policy that has the same audience,
/// id and lifetime and admits its user, at every time from its issuance until just before its
/// first deadline; and what is opened is what was made. From that deadline on it is not opened.
pub proof fn lemma_credential_opens(
    maker: StateView,
    taker: StateView,
    user_id: u64,
    token: Seq<char>,
    upstream_expires_at: Option<u64>,
    issued_at: u64,
    plaintext: Seq<u8>,
    time: u64,
)
    requires
        taker.config.audience == maker.config.audience,
        taker.config.policy_id == maker.config.policy_id,
        taker.ttl == maker.ttl,
        taker.config.allowed_user_ids.contains(user_id),
    ensures
        credential_made(maker, user_id, token, upstream_expires_at, issued_at) matches Ok(e) ==> (
        envelope_written(plaintext) == Some(e) ==> {
            &&& (issued_at <= time && (crate::envelope::first_deadline(e) matches Some(t) ==> time
                < t)) ==> credential_opened(taker, Some(plaintext), time) == Ok::<
                EnvelopeView,
                CopilotError,
            >(e)
            &&& (crate::envelope::first_deadline(e) matches Some(t) && time >= t)
                ==> credential_opened(taker, Some(plaintext), time) is Err
        }),
{
}

/// A credential with another audience or of another policy is not opened, and neither is one for
/// a user that the policy does not admit.
pub proof fn lemma_credential_is_bound(s: StateView, plaintext: Seq<u8>, time: u64)
    ensures
        envelope_written(plaintext) matches Some(e) ==> (e.audience != s.config.audience
            || e.policy_id != s.config.policy_id || !s.config.allowed_user_ids.contains(e.user_id))
            ==> credential_opened(s, Some(plaintext), time) is Err,
{
}

/// What a credential comes to as a policy takes it at a time, with a key that unseals bytes as
/// `unseal` says.
pub open spec fn credential_taken(
    s: StateView,
    unseal: spec_fn(Seq<u8>) -> Option<Seq<u8>>,
    credential: Seq<char>,
    time: u64,
) -> Result<EnvelopeView, CopilotError> {
    match sealed_in(credential) {
        Some(sealed) => credential_opened(s, unseal(sealed), time),
        None => Err(CopilotError::InvalidCredential),
    }
}

/// A credential that is sealed and written out is taken, and is what was sealed, by every policy
/// that finds it valid and whose key unseals what was sealed. It is not taken with a key that does
/// not unseal it, by a policy with another audience or id or one that does not admit its user, or
/// without its prefix.
pub proof fn lemma_sealed_credential_is_taken(
    s: StateView,
    other: StateView,
    e: EnvelopeView,
    plaintext: Seq<u8>,
    sealed: Seq<u8>,
    credential: Seq<char>,
    unseal: spec_fn(Seq<u8>) -> Option<Seq<u8>>,
    other_unseal: spec_fn(Seq<u8>) -> Option<Seq<u8>>,
    time: u64,
)
    requires
        envelope_written(plaintext) == Some(e),
        framed(credential, sealed),
        bytes_of(credential) <= MAX_CREDENTIAL,
        unseal(sealed) == Some(plaintext),
        credential_fault(s, e, time) is None,
    ensures
        credential_taken(s, unseal, credential, time) == Ok::<EnvelopeView, CopilotError>(e),
        other_unseal(sealed) is None ==> credential_taken(s, other_unseal, credential, time) is Err,
        other.config.audience != s.config.audience || other.config.policy_id != s.config.policy_id
            || !other.config.allowed_user_ids.contains(e.user_id) ==> credential_taken(
            other,
            unseal,
            credential,
            time,
        ) is Err,
        credential_taken(
            s,
            unseal,
            credential.skip(ENVELOPE_PREFIX@.len() as int),
            time,
        ) is Err,
{
    assert(credential.skip(ENVELOPE_PREFIX@.len() as int) == base64url_text(sealed));
}

/// A credential whose sealed bytes were altered so that the key does not unseal them any more is
/// not taken.
pub proof fn lemma_altered_credential_is_refused(
    s: StateView,
    altered: Seq<u8>,
    credential: Seq<char>,
    unseal: spec_fn(Seq<u8>) -> Option<Seq<u8>>,
    time: u64,
)
    requires
        framed(credential, altered),
        unseal(altered) is None,
    ensures
        credential_taken(s, unseal, credential, time) is Err,
{
}

} // verus!
