//! Credentials of Copilot users: how they are made, taken and refused, and how users log in.
use std::time::{Duration, SystemTime};

use copilot_bridge::device::LoginStep;
use copilot_bridge::envelope::{
    deadline, now, timestamp, validate_deadlines, Envelope, ENVELOPE_PREFIX, NANOS_PER_SECOND,
};
use copilot_bridge::fault::CopilotError;
use copilot_bridge::ingress::{
    has_verified, is_sensitive_request, protect_ingress_credential, request_token,
    request_token_at, response, secure_transport, Admission, IpAddress, LocalResponse, Request,
    TcpConnection, Verified,
};
use copilot_bridge::json::Json;
use copilot_bridge::login::{Logins, Pending, MAX_PENDING};
use copilot_bridge::outgoing::{
    extract_json_oauth_token, extract_yaml_oauth_token, insert_user_headers,
    insert_user_headers_at, BackendAuthError,
};
use copilot_bridge::policy::{
    frame, unframe, CopilotConfig, CopilotPolicy, CopilotState, FileOrInline, LocalCopilotConfig,
};

/// A cipher for tests: it is undone by its key alone, and changed bytes are noticed.
struct Cipher([u8; 32]);

impl Cipher {
    fn tag(&self, bytes: &[u8]) -> [u8; 8] {
        let mut hash: u64 = 0xcbf2_9ce4_8422_2325;
        for b in self.0.iter().chain(bytes) {
            hash = (hash ^ u64::from(*b)).wrapping_mul(0x0100_0000_01b3);
        }
        hash.to_be_bytes()
    }

    fn mask(&self, bytes: &[u8]) -> Vec<u8> {
        bytes
            .iter()
            .enumerate()
            .map(|(i, b)| b ^ self.0[i % 32] ^ 0x5a)
            .collect()
    }

    fn seal(&self, plaintext: &[u8]) -> Vec<u8> {
        let masked = self.mask(plaintext);
        let mut sealed = self.tag(&masked).to_vec();
        sealed.extend(masked);
        sealed
    }

    fn open(&self, sealed: &[u8]) -> Option<Vec<u8>> {
        let (tag, masked) = (sealed.get(..8)?, &sealed[8..]);
        (tag == self.tag(masked)).then(|| self.mask(masked))
    }
}

/// A policy with its key.
struct Gate {
    policy: CopilotPolicy,
    cipher: Cipher,
}

impl Gate {
    fn new(config: CopilotConfig, key: [u8; 32]) -> Gate {
        Gate {
            policy: CopilotPolicy::from_config(config, &key).unwrap(),
            cipher: Cipher(key),
        }
    }

    fn state(&self) -> &CopilotState {
        self.policy.state.as_ref().unwrap()
    }

    fn seal(&self, envelope: &Envelope) -> String {
        frame(&self.cipher.seal(&envelope.plaintext()))
    }

    fn open(&self, credential: &str, time: u64) -> Result<Envelope, CopilotError> {
        let plaintext = self.cipher.open(&unframe(credential)?);
        self.state().open(plaintext.as_deref(), time)
    }

    fn test_credential(
        &self,
        user_id: u64,
        token: &str,
        issued_at: SystemTime,
        upstream_expires_at: Option<SystemTime>,
    ) -> Result<String, CopilotError> {
        Ok(self.seal(&self.state().envelope(
            user_id,
            token,
            upstream_expires_at.map(timestamp).transpose()?,
            timestamp(issued_at)?,
        )?))
    }

    /// What a request is answered right away; none where it goes on.
    fn authenticate(&self, req: &mut Request) -> Option<LocalResponse> {
        match self.policy.authenticate(req) {
            Admission::Answer(answer) => Some(answer),
            Admission::StartLogin => panic!("a login would start"),
            Admission::PollLogin(handle) => {
                match self.state().login_poll(&mut Logins::new(), &handle, now()) {
                    Ok(LoginStep::Answer(answer)) => Some(answer),
                    _ => panic!("a login would be polled"),
                }
            }
            Admission::Open(sealed) => {
                let plaintext = self.cipher.open(&sealed);
                self.state().enter(req, plaintext.as_deref(), now())
            }
        }
    }
}

fn config(ttl: Option<Duration>) -> CopilotConfig {
    CopilotConfig {
        client_id: "synthetic-client".into(),
        audience: "https://copilot.test".into(),
        allowed_user_ids: vec![1, 2],
        credential_ttl: ttl.map(|ttl| ttl.as_nanos()),
        disable_expiry: ttl.is_none().then_some(true),
        policy_id: "namespace/policy".into(),
    }
}

fn policy(ttl: Option<Duration>) -> Gate {
    Gate::new(config(ttl), [7; 32])
}

const LOOPBACK: IpAddress = IpAddress::V4(127, 0, 0, 1);

fn request(path: &str, method: &str, credential: Option<&str>) -> Request {
    let mut headers = Vec::new();
    if let Some(credential) = credential {
        headers.push((
            "authorization".to_string(),
            format!("Bearer {credential}").into_bytes(),
        ));
    }
    Request {
        method: method.into(),
        path: path.into(),
        headers,
        tls: false,
        tcp: Some(TcpConnection {
            local: LOOPBACK,
            peer: LOOPBACK,
            raw_peer: None,
        }),
        captured: None,
        verified: None,
    }
}

fn append(req: &mut Request, name: &str, value: &str) {
    req.headers.push((name.into(), value.as_bytes().to_vec()));
}

fn header<'a>(req: &'a Request, name: &str) -> Option<&'a [u8]> {
    req.headers
        .iter()
        .find(|(n, _)| n == name)
        .map(|(_, value)| value.as_slice())
}

#[test]
fn expiry_is_exclusive_and_each_deadline_applies() {
    assert!(validate_deadlines(100, Some(110), Some(108), Some(10), 107).is_ok());
    assert!(validate_deadlines(100, Some(110), Some(108), Some(10), 108).is_err());
    assert!(validate_deadlines(100, Some(110), Some(120), Some(10), 110).is_err());
}

#[test]
fn disabled_gateway_expiry_still_honors_upstream_expiry() {
    assert!(validate_deadlines(100, None, None, None, 900).is_ok());
    assert!(validate_deadlines(100, None, Some(110), None, 109).is_ok());
    assert!(validate_deadlines(100, None, Some(110), None, 110).is_err());
}

#[test]
fn receiving_policy_checks_current_lifetime() {
    assert!(validate_deadlines(100, Some(110), None, None, 105).is_ok());
    assert!(validate_deadlines(100, None, None, Some(10), 105).is_err());
    assert!(validate_deadlines(100, Some(111), None, Some(10), 105).is_err());
    assert!(validate_deadlines(100, Some(110), None, Some(10), 99).is_err());
    assert!(validate_deadlines(100, Some(100), None, None, 100).is_err());
    assert!(validate_deadlines(100, None, Some(99), None, 100).is_err());
}

#[test]
fn envelope_survives_restart_and_rejects_other_trust_boundaries() {
    let p = policy(None);
    let envelope = p.state().envelope(1, "synthetic-alice", None, 100).unwrap();
    let sealed = p.seal(&envelope);
    assert!(policy(None).open(&sealed, 101).is_ok());
    for field in ["policy", "audience", "key", "allowlist"] {
        let mut c = config(None);
        let mut key = [7; 32];
        match field {
            "policy" => c.policy_id = "other/policy".into(),
            "audience" => c.audience = "https://elsewhere.test".into(),
            "key" => key = [8; 32],
            "allowlist" => c.allowed_user_ids = vec![2],
            _ => unreachable!(),
        }
        let receiver = Gate::new(c, key);
        assert!(receiver.open(&sealed, 101).is_err(), "{field}");
    }
    let mut tampered = unframe(&sealed).unwrap();
    tampered[20] ^= 1;
    assert!(p.open(&frame(&tampered), 101).is_err());
}

#[test]
fn authenticated_metadata_and_future_issuance_are_checked() {
    let p = policy(None);
    for field in ["version", "issuer", "purpose", "future", "token"] {
        let mut envelope = p.state().envelope(1, "synthetic-alice", None, 100).unwrap();
        match field {
            "version" => envelope.version = 2,
            "issuer" => envelope.issuer = "other".into(),
            "purpose" => envelope.purpose = "other".into(),
            "future" => envelope.issued_at = 200,
            "token" => envelope.upstream_token = "".into(),
            _ => unreachable!(),
        }
        assert!(p.open(&p.seal(&envelope), 101).is_err(), "{field}");
    }
}

#[test]
fn issuance_rejects_overflow_and_expired_upstream_token() {
    let p = policy(Some(Duration::from_nanos(10)));
    let state = p.state();
    assert!(state
        .envelope(1, "synthetic", None, u64::MAX - 5)
        .is_err());
    assert!(state.envelope(1, "synthetic", Some(100), 100).is_err());
    assert_eq!(
        state
            .envelope(1, "synthetic", Some(108), 100)
            .unwrap()
            .expiration(),
        Some(108)
    );
}

#[test]
fn configuration_requires_explicit_lifetime_and_valid_key() {
    for length in [0, 31, 33] {
        assert!(CopilotPolicy::from_config(config(None), &vec![7; length]).is_err());
    }
    for case in [
        "missing",
        "both",
        "false",
        "zero",
        "empty-users",
        "zero-user",
        "empty-client",
        "empty-audience",
        "empty-policy",
        "overflow",
    ] {
        let mut c = config(None);
        match case {
            "missing" => c.disable_expiry = None,
            "both" => c.credential_ttl = Some(Duration::from_secs(1).as_nanos()),
            "false" => c.disable_expiry = Some(false),
            "zero" => {
                c.disable_expiry = None;
                c.credential_ttl = Some(Duration::ZERO.as_nanos());
            }
            "empty-users" => c.allowed_user_ids.clear(),
            "zero-user" => c.allowed_user_ids = vec![0],
            "empty-client" => c.client_id.clear(),
            "empty-audience" => c.audience.clear(),
            "empty-policy" => c.policy_id.clear(),
            "overflow" => {
                c.disable_expiry = None;
                c.credential_ttl = Some(Duration::MAX.as_nanos());
            }
            _ => unreachable!(),
        }
        assert!(CopilotPolicy::from_config(c, &[7; 32]).is_err(), "{case}");
    }
}

#[test]
fn debug_and_runtime_serialization_do_not_reveal_credentials() {
    let p = CopilotPolicy::from_config(config(None), b"synthetic-key-marker-32-bytes!!!").unwrap();
    let state = p.state.as_ref().unwrap();
    let envelope = state
        .envelope(1, "synthetic-token-marker", None, 100)
        .unwrap();
    let verified = Verified {
        state: state.copy(),
        envelope,
    };
    let invalid = CopilotPolicy::invalid("synthetic-resolver-secret".into());
    let debug = format!("{p:?} {} {invalid:?}", verified.describe());
    let serialized = format!(
        "{} {}",
        String::from_utf8(p.to_json(None).to_bytes()).unwrap(),
        String::from_utf8(invalid.to_json(None).to_bytes()).unwrap()
    );
    for output in [&debug, &serialized] {
        for marker in [
            "synthetic-key-marker",
            "synthetic-token-marker",
            "synthetic-resolver-secret",
        ] {
            assert!(!output.contains(marker));
        }
    }
}

#[test]
fn ingress_capture_preserves_authentication_and_duplicate_rejection() {
    let policy = policy(None);
    let credential = policy
        .test_credential(1, "synthetic-alice", SystemTime::now(), None)
        .unwrap();
    for duplicate in [false, true] {
        let mut req = request("/v1/chat/completions", "POST", Some(&credential));
        if duplicate {
            append(&mut req, "authorization", "Bearer another");
        }
        protect_ingress_credential(&mut req);
        assert!(header(&req, "authorization").is_none());
        let shown = req.captured.as_ref().map(|c| c.describe());
        assert!(!format!("{shown:?}").contains(&credential));
        let _ = policy.authenticate(&mut req);
        assert_eq!(has_verified(&req), !duplicate);
    }
    let mut ordinary = request("/login/poll", "POST", Some("ordinary-auth"));
    protect_ingress_credential(&mut ordinary);
    assert_eq!(
        header(&ordinary, "authorization"),
        Some(&b"Bearer ordinary-auth"[..])
    );
    let mut malformed = request("/v1/chat/completions", "POST", None);
    append(
        &mut malformed,
        "authorization",
        &format!("bearer {credential}"),
    );
    protect_ingress_credential(&mut malformed);
    assert!(header(&malformed, "authorization").is_none());
    assert!(policy.authenticate(&mut malformed).is_some());
    let mut replaced = request("/v1/chat/completions", "POST", Some(&credential));
    protect_ingress_credential(&mut replaced);
    append(&mut replaced, "authorization", "Bearer replacement");
    assert!(policy.authenticate(&mut replaced).is_some());
}

#[test]
fn policy_requires_credential_and_strips_it_before_continuing() {
    let p = policy(None);
    let credential = p
        .test_credential(1, "synthetic-alice", SystemTime::now(), None)
        .unwrap();
    let mut req = request("/v1/chat/completions", "POST", Some(&credential));
    assert!(p.authenticate(&mut req).is_none());
    assert!(header(&req, "authorization").is_none());
    assert!(has_verified(&req));
    assert_eq!(request_token(&req).unwrap(), "synthetic-alice");
    let mut missing = request("/v1/chat/completions", "POST", None);
    assert_eq!(p.authenticate(&mut missing).unwrap().status, 401);
    assert!(request_token(&missing).is_err());
}

#[test]
fn invalid_credentials_and_duplicate_headers_never_reach_dispatch() {
    let p = policy(None);
    let credential = p
        .test_credential(1, "synthetic-alice", SystemTime::now(), None)
        .unwrap();
    let mut req = request("/v1/chat/completions", "POST", Some(&credential));
    append(&mut req, "authorization", "Bearer another");
    assert_eq!(p.authenticate(&mut req).unwrap().status, 401);
    assert!(!has_verified(&req));
    assert!(header(&req, "authorization").is_none());
    let mut req = request(
        "/v1/chat/completions",
        "POST",
        Some("plaintext-github-token"),
    );
    assert_eq!(p.authenticate(&mut req).unwrap().status, 401);
    assert!(request_token(&req).is_err());
    let mut req = request("/v1/chat/completions", "POST", Some(&credential));
    let invalid = Gate {
        policy: CopilotPolicy::invalid("safe".into()),
        cipher: Cipher([7; 32]),
    };
    assert_eq!(invalid.authenticate(&mut req).unwrap().status, 500);
    assert!(header(&req, "authorization").is_none());
}

#[test]
fn login_rejects_browser_origin_and_invalid_methods_without_network() {
    let p = policy(None);
    for path in ["/login/start", "/login/poll"] {
        let mut req = request(path, "GET", None);
        let resp = p.authenticate(&mut req).unwrap();
        assert_eq!(resp.status, 405);
        assert_eq!(resp.cache_control, "no-store");
        let mut req = request(path, "POST", None);
        append(&mut req, "origin", "https://browser.test");
        assert_eq!(p.authenticate(&mut req).unwrap().status, 403);
    }
    let mut req = request("/login/poll", "POST", Some("unknown-transaction"));
    assert_eq!(p.authenticate(&mut req).unwrap().status, 401);
}

#[test]
fn current_allowlist_returns_admission_denial() {
    let issuer = policy(None);
    let credential = issuer
        .test_credential(1, "synthetic-alice", SystemTime::now(), None)
        .unwrap();
    let mut c = config(None);
    c.allowed_user_ids = vec![2];
    let receiver = Gate::new(c, [7; 32]);
    let mut req = request("/v1/chat/completions", "POST", Some(&credential));
    assert_eq!(receiver.authenticate(&mut req).unwrap().status, 403);
}

fn local_config(ttl: Option<u128>, encryption_key: FileOrInline) -> LocalCopilotConfig {
    LocalCopilotConfig {
        client_id: "synthetic-client".into(),
        audience: "gateway".into(),
        allowed_user_ids: vec![1],
        credential_ttl: ttl,
        disable_expiry: ttl.is_none().then_some(true),
        encryption_key,
    }
}

#[test]
fn local_key_is_raw_bytes_and_inline_is_rejected_without_echoing_it() {
    let local = local_config(
        None,
        FileOrInline::File {
            file: "synthetic-key".into(),
        },
    );
    assert_eq!(local.key_file(), Ok("synthetic-key"));
    assert!(local
        .compile(Some(vec![0xff; 32]), "route/policy".into())
        .is_ok());
    let local = local_config(
        Some(Duration::from_secs(1).as_nanos()),
        FileOrInline::Inline("synthetic-inline-secret".into()),
    );
    assert!(!format!("{:?}", local.shown()).contains("synthetic-inline-secret"));
    assert_eq!(local.key_file(), Err(CopilotError::KeyInline));
    let error = local
        .compile(Some(vec![0xff; 32]), "route/policy".into())
        .unwrap_err();
    assert!(!format!("{error:?} {}", error.message()).contains("synthetic-inline-secret"));
}

#[test]
fn downstream_transport_cannot_be_spoofed_by_forwarded_headers() {
    let mut req = request("/login/start", "GET", None);
    append(&mut req, "x-forwarded-proto", "https");
    append(&mut req, "forwarded", "proto=https");
    req.tcp = None;
    assert!(!secure_transport(&req));
    let mut tcp = TcpConnection {
        peer: IpAddress::V4(203, 0, 113, 1),
        local: LOOPBACK,
        raw_peer: None,
    };
    req.tcp = Some(tcp);
    assert!(!secure_transport(&req));
    tcp.peer = LOOPBACK;
    req.tcp = Some(tcp);
    assert!(secure_transport(&req));
    tcp.raw_peer = Some(IpAddress::V4(203, 0, 113, 2));
    req.tcp = Some(tcp);
    assert!(!secure_transport(&req));
    tcp.raw_peer = Some(LOOPBACK);
    req.tcp = Some(tcp);
    assert!(!secure_transport(&req));
    req.tls = true;
    assert!(secure_transport(&req));
}

fn status(step: LoginStep) -> u16 {
    match step {
        LoginStep::Answer(answer) => answer.status,
        LoginStep::Ask(form) => panic!("would ask {}", form.endpoint),
    }
}

#[test]
fn bounded_pending_logins_and_poll_intervals_need_no_network() {
    let p = policy(None);
    let state = p.state();
    let time = now().unwrap();
    let mut logins = Logins::new();
    let login = |expires_at, next_poll, polling| Pending {
        device_code: "synthetic-device-code".into(),
        expires_at,
        next_poll,
        interval: 10,
        polling,
    };
    let expires_at = deadline(time, 900).unwrap();
    let next_poll = deadline(time, 10).unwrap();
    for n in 0..MAX_PENDING {
        assert!(logins.reserve());
        logins.insert(format!("transaction-{n}"), login(expires_at, next_poll, false));
    }
    assert_eq!(status(state.login_start(&mut logins, now())), 429);
    assert_eq!(
        status(state.login_poll(&mut logins, "transaction-0", now()).unwrap()),
        202
    );
    assert_eq!(logins.len(), MAX_PENDING);
    logins.update("transaction-0", login(expires_at, 0, true));
    assert_eq!(
        status(state.login_poll(&mut logins, "transaction-0", now()).unwrap()),
        202
    );
    logins.update("transaction-0", login(0, 0, true));
    assert_eq!(
        status(state.login_poll(&mut logins, "transaction-0", now()).unwrap()),
        401
    );
    assert_eq!(logins.available(), 1);
}

#[test]
fn slow_down_delays_next_poll_and_checks_overflow() {
    let mut pending = Pending {
        device_code: "synthetic-device-code".into(),
        expires_at: u64::MAX,
        next_poll: 0,
        interval: 5,
        polling: true,
    };
    assert_eq!(pending.defer(true, 100).unwrap(), 10);
    assert_eq!(pending.next_poll, 100 + 10 * NANOS_PER_SECOND);
    assert!(!pending.polling);
    assert_eq!(pending.defer(false, 200).unwrap(), 10);
    assert_eq!(pending.defer(true, 300).unwrap(), 15);
    assert!(pending.defer(false, u64::MAX).is_err());
}

#[test]
fn retry_rechecks_deadlines_without_extending_credential_lifetime() {
    let p = policy(Some(Duration::from_nanos(10)));
    let state = p.state();
    let envelope = state.envelope(1, "synthetic-alice", None, 100).unwrap();
    let mut req = request("/v1/chat/completions", "POST", None);
    req.verified = Some(Verified {
        state: state.copy(),
        envelope,
    });
    assert_eq!(request_token_at(&req, 109).unwrap(), "synthetic-alice");
    assert!(request_token_at(&req, 110).is_err());
    assert!(request_token_at(&req, 111).is_err());
}

#[test]
fn concurrent_users_keep_request_credentials_separate() {
    let policy = policy(None);
    let alice = policy
        .test_credential(1, "synthetic-alice", SystemTime::now(), None)
        .unwrap();
    let bob = policy
        .test_credential(2, "synthetic-bob", SystemTime::now(), None)
        .unwrap();
    let mut requests = Vec::new();
    for i in 0..12 {
        let (credential, expected) = if i % 2 == 0 {
            (&alice, "synthetic-alice")
        } else {
            (&bob, "synthetic-bob")
        };
        let mut req = request("/v1/chat/completions", "POST", Some(credential));
        assert!(policy.authenticate(&mut req).is_none());
        requests.push((req, expected));
    }
    for (req, expected) in requests {
        assert_eq!(request_token(&req).unwrap(), expected);
        assert!(header(&req, "authorization").is_none());
    }
}

#[test]
fn encrypted_parse_errors_do_not_echo_plaintext() {
    let p = policy(None);
    let malformed = br#"{"version":"synthetic-secret-marker"}"#;
    let sealed = frame(&p.cipher.seal(malformed));
    assert!(sealed.starts_with(ENVELOPE_PREFIX));
    let error = match p.open(&sealed, 100) {
        Err(error) => error,
        Ok(_) => panic!("a credential came of it"),
    };
    assert!(!format!("{error:?} {}", error.message()).contains("synthetic-secret-marker"));
}

#[test]
fn issued_envelopes_have_recognizable_prefix_for_early_trace_redaction() {
    let p = policy(None);
    let envelope = p.state().envelope(1, "synthetic-alice", None, 100).unwrap();
    let sealed = p.seal(&envelope);
    assert!(sealed.starts_with("agw_cp1."));
    assert!(p.open(sealed.trim_start_matches("agw_cp1."), 101).is_err());
}

#[test]
fn sensitive_login_and_credential_requests_are_detected_before_routing() {
    for path in ["/login/start", "/login/poll"] {
        assert!(is_sensitive_request(&request(path, "POST", None)));
    }
    assert!(!is_sensitive_request(&request("/normal", "GET", None)));
    assert!(!is_sensitive_request(&request(
        "/normal",
        "GET",
        Some("unrelated-token")
    )));
    let mut req = request("/v1/chat/completions", "POST", Some("unrelated-token"));
    append(&mut req, "authorization", "Bearer agw_cp1.synthetic");
    assert!(is_sensitive_request(&req));
}

#[test]
fn all_local_responses_mark_credential_bodies_as_sensitive() {
    for status in [200, 202, 401, 403, 405, 429, 500, 502] {
        let body = Json::parse(br#"{"credential":"synthetic-credential"}"#).unwrap();
        let response = response(status, body);
        assert!(response.sensitive);
        assert_eq!(response.cache_control, "no-store");
    }
}

#[test]
fn copilot_expiry_between_authentication_and_dispatch_is_unauthorized() {
    let policy = Gate::new(
        CopilotConfig {
            client_id: "synthetic-client".into(),
            audience: "synthetic-gateway".into(),
            allowed_user_ids: vec![1],
            credential_ttl: None,
            disable_expiry: Some(true),
            policy_id: "synthetic-policy".into(),
        },
        [7; 32],
    );
    let issued_at = SystemTime::now();
    let expires_at = issued_at + Duration::from_secs(60);
    let credential = policy
        .test_credential(1, "synthetic-upstream-token", issued_at, Some(expires_at))
        .unwrap();
    let mut req = request("/v1/chat/completions", "GET", Some(&credential));
    req.tcp = None;
    req.tls = true;
    assert!(policy.authenticate(&mut req).is_none());
    assert!(header(&req, "authorization").is_none());

    // The credential expires after the request was let in and before it goes out.
    let error = insert_user_headers_at(&mut req, timestamp(expires_at), "agentgateway/0");
    assert!(matches!(
        error,
        Err(BackendAuthError::ClientCredential(_))
    ));
    assert!(header(&req, "authorization").is_none());

    assert!(insert_user_headers(&mut req, "agentgateway/0").is_ok());
    assert_eq!(
        header(&req, "authorization"),
        Some(&b"Bearer synthetic-upstream-token"[..])
    );
}

#[test]
fn json_token_extraction() {
    let contents = r#"{
        "github.com": {
            "oauth_token": " copilot-token\n"
        },
        "enterprise.example.com": {
            "oauth_token": "wrong-token"
        }
    }"#;

    assert_eq!(
        extract_json_oauth_token(contents, "github.com").as_deref(),
        Some("copilot-token")
    );
}

#[test]
fn yaml_token_extraction() {
    let contents = r#"
github.com:
  oauth_token: " copilot-token\n"
  user: octocat
enterprise.example.com:
  oauth_token: wrong-token
"#;

    assert_eq!(
        extract_yaml_oauth_token(contents, "github.com").as_deref(),
        Some("copilot-token")
    );
}
