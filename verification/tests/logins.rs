//! Logins, credentials and tokens, step by step, and what holds of all of them.
use std::time::{Duration, UNIX_EPOCH};

use copilot_bridge::device::{
    login_failed, GrantStep, IssueStep, LoginStep, Redeemed,
};
use copilot_bridge::envelope::{
    deadline, now, read_envelope, stamp, timestamp, validate_deadlines, NANOS_PER_SECOND,
};
use copilot_bridge::fault::CopilotError;
use copilot_bridge::ingress::{
    bearer, has_copilot_bearer, is_sensitive_request, protect_ingress_credential,
    request_token_at, Admission, IpAddress, Request, Verified,
};
use copilot_bridge::json::Json;
use copilot_bridge::login::{Logins, Pending, MAX_PENDING};
use copilot_bridge::outgoing::{
    config_dir, copilot_config_paths, extract_json_oauth_token, extract_yaml_oauth_token,
    gh_config_paths, insert_token_headers, load_token, nonempty_trimmed, platform_config_dir,
    token_sources, TokenSource, TokenStep,
};
use copilot_bridge::policy::{
    frame, frame_handle, unframe, CopilotConfig, CopilotPolicy, CopilotState, FileOrInline,
    LocalCopilotConfig,
};

const SECOND: u64 = NANOS_PER_SECOND;

fn config() -> CopilotConfig {
    CopilotConfig {
        client_id: "a&b c".into(),
        audience: "gateway".into(),
        allowed_user_ids: vec![1, 2],
        credential_ttl: None,
        disable_expiry: Some(true),
        policy_id: "route/policy".into(),
    }
}

fn state() -> CopilotState {
    CopilotPolicy::from_config(config(), &[7; 32])
        .unwrap()
        .state
        .unwrap()
}

fn json(text: &str) -> Json {
    Json::parse(text.as_bytes()).unwrap()
}

fn request(headers: &[(&str, &[u8])]) -> Request {
    Request {
        method: "POST".into(),
        path: "/v1/responses".into(),
        headers: headers
            .iter()
            .map(|(name, value)| (name.to_string(), value.to_vec()))
            .collect(),
        tls: true,
        tcp: None,
        captured: None,
        verified: None,
    }
}

fn text(bytes: Vec<u8>) -> String {
    String::from_utf8(bytes).unwrap()
}

const GRANT: &str = r#"{"interval":1,"expires_in":1000,"device_code":"d/1","user_code":"U-1",
    "verification_uri":"https://github.com/login/device"}"#;

/// A login that was started at second 100 and may be polled from second 105 on.
fn started(state: &CopilotState, logins: &mut Logins) -> String {
    match state.login_start(logins, Ok(100 * SECOND)) {
        LoginStep::Ask(form) => {
            assert_eq!(form.endpoint, "https://github.com/login/device/code");
            assert_eq!(form.accept, "application/json");
            assert_eq!(form.content_type, "application/x-www-form-urlencoded");
            assert_eq!(form.body, "client_id=a%26b+c&scope=read%3Aorg");
        }
        LoginStep::Answer(answer) => panic!("{answer:?}"),
    }
    let started = state
        .login_granted(logins, Some(json(GRANT)), Some([0xff; 32]), Ok(100 * SECOND))
        .ok()
        .unwrap();
    assert_eq!(started.lifetime, 900);
    assert_eq!(
        text(started.response.bytes()),
        format!(
            r#"{{"verification_uri":"https://github.com/login/device","user_code":"U-1","transaction":"{}","interval":5,"expires_in":900}}"#,
            started.handle
        )
    );
    started.handle
}

fn polled(state: &CopilotState, logins: &mut Logins, handle: &str, second: u64) -> Option<String> {
    match state.login_poll(logins, handle, Ok(second * SECOND)) {
        Ok(LoginStep::Ask(form)) => {
            assert_eq!(form.endpoint, "https://github.com/login/oauth/access_token");
            Some(form.body)
        }
        Ok(LoginStep::Answer(answer)) => {
            assert!(matches!(answer.status, 202 | 401));
            None
        }
        Err(error) => panic!("{error:?}"),
    }
}

#[test]
fn a_login_ends_in_a_credential() {
    let state = state();
    let mut logins = Logins::new();
    let handle = started(&state, &mut logins);
    assert_eq!(
        handle,
        format!("agw_cpl1.{}8", "_".repeat(42))
    );
    assert_eq!(polled(&state, &mut logins, &handle, 104), None);
    assert_eq!(
        polled(&state, &mut logins, &handle, 105).unwrap(),
        "client_id=a%26b+c&device_code=d%2F1&grant_type=urn%3Aietf%3Aparams%3Aoauth%3Agrant-type%3Adevice_code"
    );
    // While it is being polled, no one else polls it.
    assert_eq!(polled(&state, &mut logins, &handle, 106), None);

    let slow = Some(json(r#"{"error":"slow_down"}"#));
    match state.login_polled(&mut logins, &handle, slow, Ok(106 * SECOND)) {
        Ok(GrantStep::Answer(answer)) => {
            assert_eq!(answer.status, 202);
            assert_eq!(text(answer.bytes()), r#"{"status":"pending","interval":10}"#);
        }
        _ => panic!("it should wait"),
    }
    assert_eq!(polled(&state, &mut logins, &handle, 115), None);
    assert!(polled(&state, &mut logins, &handle, 116).is_some());

    let token = Some(json(
        r#"{"access_token":"t","expires_in":60,"refresh_token":"r"}"#,
    ));
    let got = match state.login_polled(&mut logins, &handle, token, Ok(117 * SECOND)) {
        Ok(GrantStep::Identify(got)) => got,
        _ => panic!("a token should come of it"),
    };
    assert_eq!(got.token, "t");
    assert_eq!(got.upstream_expires_at, Some(177 * SECOND));
    // Nothing can come of the login again, but its place is taken until it is over.
    assert_eq!(polled(&state, &mut logins, &handle, 118), None);
    assert_eq!(logins.len(), 0);
    assert_eq!(logins.available(), MAX_PENDING - 1);

    let identity = Some(json(r#"{"id":2,"login":"octocat"}"#));
    let envelope = match state.login_identified(
        &mut logins,
        &got,
        &identity,
        Ok(118 * SECOND),
        Ok(119 * SECOND),
    ) {
        Ok(IssueStep::Seal(envelope)) => envelope,
        _ => panic!("a credential should come of it"),
    };
    assert_eq!(logins.available(), MAX_PENDING);
    assert_eq!(envelope.user_id, 2);
    assert_eq!(envelope.issued_at, 119 * SECOND);
    let answer = state
        .login_issued(&envelope, Some(&[0xfb, 0xff]), &identity.unwrap(), &got)
        .unwrap();
    assert_eq!(answer.status, 200);
    assert_eq!(
        text(answer.bytes()),
        r#"{"credential":"agw_cp1.-_8","expires_at":177,"login":"octocat","github_expires_in":60,"refresh_token_received":true}"#
    );
}

#[test]
fn a_login_that_is_refused_or_late_is_gone() {
    let state = state();
    for (reply, second, error) in [
        (r#"{"error":"access_denied"}"#, 106, "authorization_denied_or_expired"),
        (r#"{"access_token":"t"}"#, 1000, "login_expired"),
    ] {
        let mut logins = Logins::new();
        let handle = started(&state, &mut logins);
        assert!(polled(&state, &mut logins, &handle, 105).is_some());
        match state.login_polled(&mut logins, &handle, Some(json(reply)), Ok(second * SECOND)) {
            Ok(GrantStep::Answer(answer)) => {
                assert_eq!(answer.status, 401);
                assert_eq!(text(answer.bytes()), format!(r#"{{"error":"{error}"}}"#));
            }
            _ => panic!("{reply}"),
        }
        assert_eq!(logins.available(), MAX_PENDING);
    }
    assert_eq!(
        text(login_failed().bytes()),
        r#"{"error":"login_or_issuance_failed"}"#
    );
}

#[test]
fn each_error_of_a_login_comes_of_its_cause() {
    let state = state();
    for (change, due) in [
        ((r#""interval":1"#, r#""interval":"1""#), CopilotError::MissingPollingInterval),
        ((r#""interval":1"#, r#""interval":901"#), CopilotError::PollingInterval),
        ((r#""expires_in":1000"#, r#""a":1"#), CopilotError::MissingLoginExpiry),
        ((r#""expires_in":1000"#, r#""expires_in":0"#), CopilotError::LoginExpiry),
        (("d/1", ""), CopilotError::MissingDeviceCode),
        (("U-1", ""), CopilotError::MissingUserCode),
        (("https://github.com", "https://elsewhere.test"), CopilotError::VerificationUri),
    ] {
        let mut logins = Logins::new();
        assert!(logins.reserve());
        let grant = json(&GRANT.replace(change.0, change.1));
        let r = state.login_granted(&mut logins, Some(grant), Some([1; 32]), Ok(0));
        assert_eq!(r.err(), Some(due));
        assert_eq!(logins.available(), MAX_PENDING);
    }
    for (grant, random, clock, due) in [
        (None, Some([1; 32]), Ok(0), CopilotError::Upstream),
        (Some(json(GRANT)), None, Ok(0), CopilotError::NoRandomness),
        (
            Some(json(GRANT)),
            Some([1; 32]),
            Err(CopilotError::UnsupportedClock),
            CopilotError::UnsupportedClock,
        ),
        (Some(json(GRANT)), Some([1; 32]), Ok(u64::MAX), CopilotError::LoginLifetime),
    ] {
        let mut logins = Logins::new();
        assert!(logins.reserve());
        let r = state.login_granted(&mut logins, grant, random, clock);
        assert_eq!(r.err(), Some(due));
        assert_eq!(logins.available(), MAX_PENDING);
    }
    for (reply, due) in [
        (None, CopilotError::Upstream),
        (Some(json("{}")), CopilotError::MissingAccessToken),
        (
            Some(json(r#"{"access_token":"t","expires_in":null}"#)),
            CopilotError::UpstreamExpiry,
        ),
    ] {
        let mut logins = Logins::new();
        let handle = started(&state, &mut logins);
        assert!(polled(&state, &mut logins, &handle, 105).is_some());
        let r = state.login_polled(&mut logins, &handle, reply, Ok(106 * SECOND));
        assert_eq!(r.err(), Some(due));
        assert_eq!(logins.available(), MAX_PENDING);
    }
    let got = Redeemed {
        token: "t".into(),
        lifetime: None,
        upstream_expires_at: None,
        login_expires_at: 100,
        refresh_token_received: false,
    };
    for (identity, clock, due) in [
        (None, Ok(1), CopilotError::Upstream),
        (Some(json(r#"{"id":-1}"#)), Ok(1), CopilotError::MissingUserId),
        (Some(json(r#"{"id":1}"#)), Ok(100), CopilotError::LoginExpired),
    ] {
        let mut logins = Logins::new();
        assert!(logins.reserve());
        let r = state.login_identified(&mut logins, &got, &identity, clock, Ok(1));
        assert_eq!(r.err(), Some(due));
        assert_eq!(logins.available(), MAX_PENDING);
    }
    let mut logins = Logins::new();
    assert!(logins.reserve());
    match state.login_identified(&mut logins, &got, &Some(json(r#"{"id":3}"#)), Ok(1), Ok(1)) {
        Ok(IssueStep::Answer(answer)) => assert_eq!(answer.status, 403),
        _ => panic!("the user is not allowed"),
    }
    let envelope = state.envelope(1, "t", None, 1).unwrap();
    let r = state.login_issued(&envelope, None, &json("{}"), &got);
    assert_eq!(r.err(), Some(CopilotError::SealFailed));
    let mut pending = Pending {
        device_code: "d".into(),
        expires_at: 1,
        next_poll: 0,
        interval: u64::MAX,
        polling: true,
    };
    assert_eq!(pending.defer(true, 0), Err(CopilotError::PollingInterval));
    assert!(pending.polling);
}

#[test]
fn no_more_logins_than_there_are_places() {
    let mut logins = Logins::new();
    for _ in 0..MAX_PENDING {
        assert!(logins.reserve());
    }
    assert!(!logins.reserve());
    logins.release();
    assert_eq!(logins.available(), 1);
    let login = |expires_at| Pending {
        device_code: "d".into(),
        expires_at,
        next_poll: 0,
        interval: 5,
        polling: false,
    };
    logins.insert("a".into(), login(10));
    logins.insert("b".into(), login(20));
    assert_eq!(logins.len(), 2);
    assert_eq!(logins.get("a").unwrap().expires_at, 10);
    logins.retain_live(10);
    assert!(logins.get("a").is_none());
    assert_eq!(logins.get("b").unwrap().expires_at, 20);
    logins.remove("b");
    assert!(logins.get("b").is_none());
    assert_eq!(logins.len(), 0);
}

#[test]
fn times_are_nanoseconds_since_the_epoch() {
    assert_eq!(
        timestamp(UNIX_EPOCH + Duration::from_millis(1500)),
        Ok(1_500_000_000)
    );
    assert_eq!(
        timestamp(UNIX_EPOCH - Duration::from_nanos(1)),
        Err(CopilotError::ClockBeforeEpoch)
    );
    assert_eq!(stamp(Some(u64::MAX as u128)), Ok(u64::MAX));
    assert_eq!(
        stamp(Some(u64::MAX as u128 + 1)),
        Err(CopilotError::UnsupportedClock)
    );
    assert!(now().unwrap() > 1_600_000_000 * SECOND);
    assert_eq!(deadline(7, 2), Ok(7 + 2 * SECOND));
    assert_eq!(deadline(0, u64::MAX), Err(CopilotError::LoginLifetime));
}

#[test]
fn each_error_of_a_credential_comes_of_its_cause() {
    assert_eq!(
        validate_deadlines(2, None, None, None, 1),
        Err(CopilotError::IssuanceTime)
    );
    assert_eq!(
        validate_deadlines(1, Some(2), None, None, 2),
        Err(CopilotError::Expired)
    );
    assert_eq!(
        validate_deadlines(1, Some(9), None, Some(7), 2),
        Err(CopilotError::Lifetime)
    );
    for credential in ["-_8", "agw_cp1.+/8", "agw_cp1.-_8=", &"x".repeat(16385)] {
        assert_eq!(unframe(credential), Err(CopilotError::InvalidCredential));
    }
    let state = state();
    assert_eq!(
        state.envelope(3, "t", None, 1).err(),
        Some(CopilotError::AdmissionDenied)
    );
    assert_eq!(
        state.envelope(1, "a b", None, 1).err(),
        Some(CopilotError::InvalidCredential)
    );
    assert_eq!(
        request_token_at(&request(&[]), 1),
        Err(CopilotError::VerifiedRequired)
    );
    let mut short = config();
    short.disable_expiry = None;
    short.credential_ttl = Some(10);
    let short = CopilotPolicy::from_config(short, &[7; 32]).unwrap().state.unwrap();
    assert_eq!(
        short.envelope(1, "t", None, u64::MAX).err(),
        Some(CopilotError::LifetimeOverflow)
    );
}

#[test]
fn each_error_of_a_policy_comes_of_its_cause() {
    let made = |c: CopilotConfig, key: &[u8]| CopilotPolicy::from_config(c, key).err();
    let mut c = config();
    c.client_id = " ".into();
    assert_eq!(made(c, &[7; 32]), Some(CopilotError::PolicyIdentity));
    let mut c = config();
    c.audience = "a".repeat(2049);
    assert_eq!(made(c, &[7; 32]), Some(CopilotError::PolicyIdentity));
    let mut c = config();
    c.allowed_user_ids = vec![1; 4097];
    assert_eq!(made(c, &[7; 32]), Some(CopilotError::UserAllowlist));
    let mut c = config();
    c.disable_expiry = None;
    assert_eq!(made(c, &[7; 32]), Some(CopilotError::LifetimeRequired));
    let mut c = config();
    c.disable_expiry = None;
    c.credential_ttl = Some(u64::MAX as u128);
    assert_eq!(made(c, &[7; 32]), Some(CopilotError::UnsupportedTtl));
    assert_eq!(made(config(), &[7; 31]), Some(CopilotError::KeyLength));
    let local = || LocalCopilotConfig {
        client_id: "c".into(),
        audience: "a".into(),
        allowed_user_ids: vec![1],
        credential_ttl: None,
        disable_expiry: Some(true),
        encryption_key: FileOrInline::File { file: "f".into() },
    };
    assert_eq!(
        local().compile(None, "p".into()).err(),
        Some(CopilotError::KeyUnreadable)
    );
    let mut inline = local();
    inline.encryption_key = FileOrInline::Inline("k".into());
    assert_eq!(
        inline.compile(None, "p".into()).err(),
        Some(CopilotError::KeyInline)
    );
}

#[test]
fn a_policy_shows_its_configuration() {
    let policy = CopilotPolicy::from_config(config(), &[7; 32]).unwrap();
    assert_eq!(
        text(policy.to_json(None).to_bytes()),
        r#"{"clientId":"a&b c","audience":"gateway","allowedUserIds":[1,2],"disableExpiry":true,"policyId":"route/policy"}"#
    );
    let mut c = config();
    c.disable_expiry = None;
    c.credential_ttl = Some(SECOND as u128);
    let policy = CopilotPolicy::from_config(c, &[7; 32]).unwrap();
    assert_eq!(
        text(policy.to_json(Some("1s")).to_bytes()),
        r#"{"clientId":"a&b c","audience":"gateway","allowedUserIds":[1,2],"credentialTTL":"1s","policyId":"route/policy"}"#
    );
    assert_eq!(
        text(CopilotPolicy::invalid("why".into()).to_json(None).to_bytes()),
        r#"{"translationError":"invalid Copilot authentication configuration"}"#
    );
}

#[test]
fn bytes_come_back_out_of_their_frame() {
    assert_eq!(frame(&[0xfb, 0xff]), "agw_cp1.-_8");
    assert_eq!(unframe("agw_cp1.-_8"), Ok(vec![0xfb, 0xff]));
    for length in 0..40u8 {
        let bytes: Vec<u8> = (0..length).map(|n| n.wrapping_mul(37)).collect();
        let bare = frame(&bytes).replacen("agw_cp1.", "", 1);
        assert_eq!(unframe(&bare), Err(CopilotError::InvalidCredential));
        assert_eq!(unframe(&frame(&bytes)), Ok(bytes));
    }
    assert_eq!(frame_handle(&[0; 32]), format!("agw_cpl1.{}", "A".repeat(43)));
}

#[test]
fn a_name_is_told_once() {
    assert!(Json::parse_once(br#"{"a":1,"b":[{"a":2},{"a":"\u00e9"}],"c":-1.5}"#).is_some());
    assert!(Json::parse_once(br#"["a","a"]"#).is_some());
    assert!(Json::parse(br#"{"a":1,"\u0061":2}"#).is_some());
    for repeated in [&br#"{"a":1,"\u0061":2}"#[..], br#"[{"a":{"b":1,"b":1}}]"#, b"{"] {
        assert!(Json::parse_once(repeated).is_none());
    }
}

#[test]
fn what_is_sealed_is_read_back() {
    let state = state();
    let envelope = state.envelope(2, "t", Some(9), 5).unwrap();
    assert_eq!(
        text(envelope.plaintext()),
        r#"{"version":1,"issuer":"agentgateway","purpose":"agentgateway-copilot-user","audience":"gateway","policy_id":"route/policy","user_id":2,"issued_at":5,"gateway_expires_at":null,"upstream_expires_at":9,"upstream_token":"t"}"#
    );
    let read = read_envelope(&envelope.to_json()).unwrap();
    assert_eq!(read.plaintext(), envelope.plaintext());
    let opened = state.open(Some(&envelope.plaintext()), 8).unwrap();
    assert_eq!(opened.plaintext(), envelope.plaintext());
    assert_eq!(
        state.open(Some(&envelope.plaintext()), 9).err(),
        Some(CopilotError::Expired)
    );
    assert_eq!(
        state.open(None, 8).err(),
        Some(CopilotError::InvalidCredential)
    );
    for broken in [
        text(envelope.plaintext()).replace(r#""version":1"#, r#""version":256"#),
        text(envelope.plaintext()).replace(r#""version":1"#, r#""version":1,"more":1"#),
        text(envelope.plaintext()).replace(r#""user_id":2,"#, ""),
        text(envelope.plaintext()).replace(r#""user_id":2,"#, r#""user_id":2,"user_id":2,"#),
    ] {
        assert_eq!(
            state.open(Some(broken.as_bytes()), 8).err(),
            Some(CopilotError::InvalidCredential)
        );
    }
}

#[test]
fn protection_does_not_change_who_is_let_in() {
    let policy = CopilotPolicy::from_config(config(), &[7; 32]).unwrap();
    for value in [
        "Bearer agw_cp1.-_8",
        "Bearer agw_cpl1.x",
        "bearer agw_cp1.-_8",
        "Bearer other",
    ] {
        let mut plain = request(&[("authorization", value.as_bytes())]);
        let mut guarded = request(&[("authorization", value.as_bytes())]);
        protect_ingress_credential(&mut guarded);
        assert_eq!(
            guarded.captured.is_some(),
            has_copilot_bearer(&plain),
            "{value}"
        );
        assert_eq!(is_sensitive_request(&plain), is_sensitive_request(&guarded));
        match (policy.authenticate(&mut plain), policy.authenticate(&mut guarded)) {
            (Admission::Open(a), Admission::Open(b)) => assert_eq!(a, b),
            (Admission::Answer(a), Admission::Answer(b)) => {
                assert_eq!(a.status, b.status);
                assert_eq!(a.bytes(), b.bytes());
            }
            _ => panic!("{value}"),
        }
        assert!(guarded.headers.is_empty() && guarded.captured.is_none());
        assert!(plain.headers.is_empty());
    }
}

#[test]
fn a_header_that_is_no_text_is_no_credential() {
    assert_eq!(
        bearer(&request(&[("authorization", b"Bearer abc")])),
        Ok("abc".to_string())
    );
    for value in [&b"Bearer \xff"[..], b"Bearer ", b"Basic abc", b"Bearer a\x01"] {
        assert_eq!(
            bearer(&request(&[("authorization", value)])),
            Err(CopilotError::InvalidCredential)
        );
    }
    assert!(bearer(&request(&[])).is_err());
}

#[test]
fn loopback_addresses_are_local() {
    assert!(IpAddress::V4(127, 9, 9, 9).is_loopback());
    assert!(!IpAddress::V4(10, 0, 0, 1).is_loopback());
    assert!(IpAddress::V6(1).is_loopback());
    assert!(!IpAddress::V6(2).is_loopback());
}

#[test]
fn a_request_goes_out_with_its_token() {
    let mut req = request(&[("x-initiator", b"user"), ("accept", b"*/*")]);
    assert_eq!(insert_token_headers(&mut req, "t", "agentgateway/1"), Ok(()));
    for (name, value) in [
        ("accept", "*/*"),
        ("authorization", "Bearer t"),
        ("content-type", "application/json"),
        ("editor-version", "agentgateway/1"),
        ("x-github-api-version", "2025-10-01"),
        ("x-initiator", "agent"),
        ("x-interaction-type", "conversation-agent"),
        ("openai-intent", "conversation-agent"),
    ] {
        let found: Vec<_> = req.headers.iter().filter(|(n, _)| n == name).collect();
        assert_eq!(found.len(), 1, "{name}");
        assert_eq!(found[0].1, value.as_bytes());
    }
    let mut req = request(&[]);
    assert_eq!(
        insert_token_headers(&mut req, "a\nb", "agentgateway/1"),
        Err(CopilotError::HeaderValue)
    );
    assert!(req.headers.is_empty());
}

#[test]
fn a_verified_request_needs_a_valid_credential_to_go_on() {
    let state = state();
    let envelope = state.envelope(1, "t", Some(10), 5).unwrap();
    let mut req = request(&[]);
    req.verified = Some(Verified { state, envelope });
    assert_eq!(request_token_at(&req, 4), Err(CopilotError::IssuanceTime));
    assert_eq!(request_token_at(&req, 9), Ok("t"));
    assert_eq!(request_token_at(&req, 10), Err(CopilotError::Expired));
}

#[test]
fn tokens_are_looked_for_in_order() {
    assert_eq!(nonempty_trimmed(" \t\u{a0}a b\n"), Some("a b"));
    assert_eq!(nonempty_trimmed(" \n"), None);
    assert_eq!(config_dir(None, Some(2), Some(3)), Some(2));
    assert_eq!(config_dir(Some(1), Some(2), Some(3)), Some(1));
    assert_eq!(config_dir::<u8>(None, None, None), None);
    assert_eq!(platform_config_dir(false, Some(1)), None);
    assert_eq!(platform_config_dir(true, Some(1)), Some(1));
    assert!(copilot_config_paths(false).is_empty());
    assert_eq!(gh_config_paths(true), vec![vec!["gh", "hosts.yml"]]);
    let sources = token_sources(true);
    assert_eq!(sources.len(), 5);
    assert!(matches!(sources[0], TokenSource::Variable("GH_COPILOT_TOKEN")));
    assert!(matches!(load_token(&sources, 0, None), TokenStep::Read));
    assert!(matches!(load_token(&sources, 1, Some(" ")), TokenStep::Read));
    match load_token(&sources, 2, Some(r#"{"github.com":{"oauth_token":"t"}}"#)) {
        TokenStep::Found(token) => assert_eq!(token, "t"),
        _ => panic!("there is a token"),
    }
    match load_token(&sources, 4, Some("github.com: {oauth_token: t}")) {
        TokenStep::Found(token) => assert_eq!(token, "t"),
        _ => panic!("there is a token"),
    }
    assert!(matches!(
        load_token(&sources, 4, None),
        TokenStep::NotFound(CopilotError::TokenNotFound)
    ));
    assert_eq!(token_sources(false).len(), 2);
}

#[test]
fn tokens_are_found_by_the_name_of_their_host() {
    let contents = r#"{"elsewhere":{"oauth_token":"a"},"github.com:app":{"oauth_token":" "},
        "github.com.test":{"oauth_token":"b"},"github.com":{"oauth_token":"c"}}"#;
    assert_eq!(
        extract_json_oauth_token(contents, "github.com").as_deref(),
        Some("b")
    );
    assert_eq!(extract_json_oauth_token("[]", "github.com"), None);
    assert_eq!(extract_json_oauth_token("{", "github.com"), None);
    let contents = "1: x\ngithub.com: {user: u}\ngithub.com.test: !host {oauth_token: !t b}\n";
    assert_eq!(
        extract_yaml_oauth_token(contents, "github.com").as_deref(),
        Some("b")
    );
    assert_eq!(extract_yaml_oauth_token("- a", "github.com"), None);
    assert_eq!(extract_yaml_oauth_token("a: [", "github.com"), None);
}
