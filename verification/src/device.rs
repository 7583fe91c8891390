//! The steps of a login: what is asked of GitHub, and what follows from its answers.
use vstd::prelude::*;

use crate::envelope::{
    as_number, deadline, first_deadline, later, Envelope, EnvelopeView, ENVELOPE_PREFIX,
    NANOS_PER_SECOND, TRANSACTION_PREFIX,
};
use crate::fault::CopilotError;
use crate::ingress::{error_json, local_response, response, says, LocalResponse};
use crate::json::{Json, JsonView};
use crate::login::{
    bounded, deferred, dropped, live, login_named, placed, Logins, LoginsView, Pending, PendingOf,
    PendingView, MAX_LOGIN_SECONDS, MAX_PENDING,
};
use crate::policy::{base64url_text, credential_made, frame, frame_handle, CopilotState, StateView};
use crate::request_types::json_in;
use crate::stream_state::{byte_len, bytes_of};
use crate::text::{blank, owned, same};

verus! {

/// The string that pairs of names and values are sent as in a form.
pub uninterp spec fn form_text(pairs: Seq<(Seq<char>, Seq<char>)>) -> Seq<char>;

pub open spec fn pair_views(pairs: Seq<(&str, &str)>) -> Seq<(Seq<char>, Seq<char>)> {
    pairs.map_values(|p: (&str, &str)| (p.0@, p.1@))
}

/// `url::form_urlencoded::Serializer::new` on an empty string, then `extend_pairs` and `finish`:
/// the string is a function of the pairs.
#[verifier::external_body]
fn encode_form(pairs: &[(&str, &str)]) -> (r: String)
    ensures
        r@ == form_text(pair_views(pairs@)),
{
    url::form_urlencoded::Serializer::new(String::new()).extend_pairs(pairs.iter().copied()).finish()
}

/// A form that is to be sent to GitHub. The answer is to be JSON.
pub struct FormRequest {
    pub endpoint: &'static str,
    pub accept: &'static str,
    pub content_type: &'static str,
    pub body: String,
}

/// Whether a form is sent to an endpoint with some pairs.
pub open spec fn asks(
    form: FormRequest,
    endpoint: Seq<char>,
    pairs: Seq<(Seq<char>, Seq<char>)>,
) -> bool {
    form.endpoint@ == endpoint && form.accept@ == "application/json"@ && form.content_type@
        == "application/x-www-form-urlencoded"@ && form.body@ == form_text(pairs)
}

/// A form that is to be sent to GitHub.
pub fn github_form(endpoint: &'static str, pairs: &[(&str, &str)]) -> (r: FormRequest)
    ensures
        asks(r, endpoint@, pair_views(pairs@)),
{
    FormRequest {
        endpoint,
        accept: "application/json",
        content_type: "application/x-www-form-urlencoded",
        body: encode_form(pairs),
    }
}

/// What comes next in a login.
pub enum LoginStep {
    /// The client is answered.
    Answer(LocalResponse),
    /// A form is sent, and its answer decides.
    Ask(FormRequest),
}

/// What is asked when a login starts.
pub open spec fn device_pairs(client_id: Seq<char>) -> Seq<(Seq<char>, Seq<char>)> {
    seq![("client_id"@, client_id), ("scope"@, "read:org"@)]
}

/// What is asked when a login is polled.
pub open spec fn token_pairs(client_id: Seq<char>, device_code: Seq<char>) -> Seq<
    (Seq<char>, Seq<char>),
> {
    seq![
        ("client_id"@, client_id),
        ("device_code"@, device_code),
        ("grant_type"@, "urn:ietf:params:oauth:grant-type:device_code"@),
    ]
}

/// What GitHub says of a new login, as far as it counts.
pub struct TermsOf<S> {
    pub interval: u64,
    pub lifetime: u64,
    pub device_code: S,
    pub user_code: S,
}

/// Where users let the gateway in.
pub open spec fn verification_uri() -> Seq<char> {
    "https://github.com/login/device"@
}

/// A string of a value that is not empty and not too long.
pub open spec fn short_text(v: JsonView, name: Seq<char>, limit: usize) -> Option<Seq<char>> {
    match v.text_at(name) {
        Some(s) => if s.len() > 0 && bytes_of(s) <= limit {
            Some(s)
        } else {
            None
        },
        None => None,
    }
}

fn read_short_text<'a>(v: &'a Json, name: &str, limit: usize) -> (r: Option<&'a str>)
    ensures
        crate::text::text_of(r) == short_text(v@, name@, limit),
{
    match v.text_at(name) {
        Some(s) => if blank(s) || byte_len(s) > limit {
            None
        } else {
            Some(s)
        },
        None => None,
    }
}

/// A number of a value.
pub open spec fn number_at(v: JsonView, name: Seq<char>) -> Option<u64> {
    as_number(v.get(name))
}

fn read_number(v: &Json, name: &str) -> (r: Option<u64>)
    ensures
        r == number_at(v@, name@),
{
    match v.get(name) {
        Some(Json::Unsigned(n)) => Some(*n),
        Some(Json::Negative(n)) => if *n >= 0 {
            Some(*n as u64)
        } else {
            None
        },
        _ => None,
    }
}

/// What GitHub says of a new login, or what it fails to say.
pub open spec fn terms_in(grant: JsonView) -> Result<TermsOf<Seq<char>>, CopilotError> {
    match number_at(grant, "interval"@) {
        None => Err(CopilotError::MissingPollingInterval),
        Some(asked) => {
            let interval = if asked < 5 {
                5
            } else {
                asked
            };
            if interval > MAX_LOGIN_SECONDS {
                Err(CopilotError::PollingInterval)
            } else {
                match number_at(grant, "expires_in"@) {
                    None => Err(CopilotError::MissingLoginExpiry),
                    Some(asked) => {
                        let lifetime = if asked > MAX_LOGIN_SECONDS {
                            MAX_LOGIN_SECONDS
                        } else {
                            asked
                        };
                        if lifetime == 0 {
                            Err(CopilotError::LoginExpiry)
                        } else {
                            codes_in(grant, interval, lifetime)
                        }
                    },
                }
            }
        },
    }
}

/// The codes of a new login, or which is missing.
pub open spec fn codes_in(grant: JsonView, interval: u64, lifetime: u64) -> Result<
    TermsOf<Seq<char>>,
    CopilotError,
> {
    match (short_text(grant, "device_code"@, 4096), short_text(grant, "user_code"@, 128)) {
        (None, _) => Err(CopilotError::MissingDeviceCode),
        (_, None) => Err(CopilotError::MissingUserCode),
        (Some(device_code), Some(user_code)) => if grant.text_at("verification_uri"@) != Some(
            verification_uri(),
        ) {
            Err(CopilotError::VerificationUri)
        } else {
            Ok(TermsOf { interval, lifetime, device_code, user_code })
        },
    }
}

fn read_terms(grant: &Json) -> (r: Result<TermsOf<String>, CopilotError>)
    ensures
        match terms_in(grant@) {
            Ok(t) => r is Ok && r->Ok_0.interval == t.interval && r->Ok_0.lifetime == t.lifetime
                && r->Ok_0.device_code@ == t.device_code && r->Ok_0.user_code@ == t.user_code,
            Err(e) => r is Err && r->Err_0 == e,
        },
{
    let interval: u64 = match read_number(grant, "interval") {
        Some(asked) => if asked < 5 {
            5
        } else {
            asked
        },
        None => return Err(CopilotError::MissingPollingInterval),
    };
    if interval > MAX_LOGIN_SECONDS {
        return Err(CopilotError::PollingInterval);
    }
    let lifetime: u64 = match read_number(grant, "expires_in") {
        Some(asked) => if asked > MAX_LOGIN_SECONDS {
            MAX_LOGIN_SECONDS
        } else {
            asked
        },
        None => return Err(CopilotError::MissingLoginExpiry),
    };
    if lifetime == 0 {
        return Err(CopilotError::LoginExpiry);
    }
    let device_code = match read_short_text(grant, "device_code", 4096) {
        Some(code) => code,
        None => return Err(CopilotError::MissingDeviceCode),
    };
    let user_code = match read_short_text(grant, "user_code", 128) {
        Some(code) => code,
        None => return Err(CopilotError::MissingUserCode),
    };
    let uri_fits = match grant.text_at("verification_uri") {
        Some(uri) => same(uri, "https://github.com/login/device"),
        None => false,
    };
    if !uri_fits {
        return Err(CopilotError::VerificationUri);
    }
    Ok(
        TermsOf {
            interval,
            lifetime,
            device_code: owned(device_code),
            user_code: owned(user_code),
        },
    )
}

/// A login that has started: its handle, what is kept of it, and for how long.
pub struct StartedView {
    pub pending: PendingView,
    pub lifetime: u64,
    pub body: JsonView,
}

/// What a client is told of a login that has started.
pub open spec fn started_json(t: TermsOf<Seq<char>>, handle: Seq<char>) -> JsonView {
    JsonView::object().with("verification_uri"@, JsonView::Text(verification_uri())).with(
        "user_code"@,
        JsonView::Text(t.user_code),
    ).with("transaction"@, JsonView::Text(handle)).with(
        "interval"@,
        JsonView::Unsigned(t.interval),
    ).with("expires_in"@, JsonView::Unsigned(t.lifetime))
}

/// A login that has started with a handle, or why it did not. `grant` is what GitHub said, where
/// it said anything; `random` tells whether there were random bytes for the handle.
pub open spec fn login_started(
    grant: Option<JsonView>,
    random: bool,
    handle: Seq<char>,
    clock: Result<u64, CopilotError>,
) -> Result<(StartedView, u64), CopilotError> {
    match grant {
        None => Err(CopilotError::Upstream),
        Some(grant) => match terms_in(grant) {
            Err(e) => Err(e),
            Ok(t) => if !random {
                Err(CopilotError::NoRandomness)
            } else {
                match clock {
                    Err(e) => Err(e),
                    Ok(time) => match (later(time, t.lifetime), later(time, t.interval)) {
                        (Err(e), _) => Err(e),
                        (_, Err(e)) => Err(e),
                        (Ok(expires_at), Ok(next_poll)) => Ok(
                            (
                                StartedView {
                                    pending: PendingOf {
                                        device_code: t.device_code,
                                        expires_at,
                                        next_poll,
                                        interval: t.interval,
                                        polling: false,
                                    },
                                    lifetime: t.lifetime,
                                    body: started_json(t, handle),
                                },
                                time,
                            ),
                        ),
                    },
                }
            },
        },
    }
}

/// A login that has started.
pub struct Started {
    pub response: LocalResponse,
    /// The handle of the login, which is to be forgotten when its lifetime is over.
    pub handle: String,
    /// In seconds.
    pub lifetime: u64,
}

/// How many seconds are left until a login may be polled: no less than one.
pub open spec fn waiting(next_poll: u64, time: u64) -> u64 {
    if next_poll <= time {
        1
    } else {
        ((next_poll - time + NANOS_PER_SECOND - 1) / NANOS_PER_SECOND as int) as u64
    }
}

fn seconds_left(next_poll: u64, time: u64) -> (r: u64)
    ensures
        r == waiting(next_poll, time),
        r >= 1,
{
    if next_poll <= time {
        return 1;
    }
    let left: u64 = next_poll - time;
    let whole: u64 = left / NANOS_PER_SECOND;
    if left % NANOS_PER_SECOND == 0 {
        whole
    } else {
        whole + 1
    }
}

/// What a client is told that has to wait.
pub open spec fn waiting_json(interval: u64) -> JsonView {
    JsonView::object().with("status"@, JsonView::Text("pending"@)).with(
        "interval"@,
        JsonView::Unsigned(interval),
    )
}

fn wait_response(interval: u64) -> (r: LocalResponse)
    ensures
        says(r, 202, waiting_json(interval)),
{
    response(
        202,
        Json::object().with("status", Json::text("pending")).with(
            "interval",
            Json::Unsigned(interval),
        ),
    )
}

/// How a client is answered whose login could not go on for a reason of ours.
pub fn login_failed() -> (r: LocalResponse)
    ensures
        says(r, 502, error_json("login_or_issuance_failed"@)),
{
    local_response(502, "login_or_issuance_failed")
}

/// What a user has let the gateway have.
pub struct RedeemedOf<S> {
    pub token: S,
    /// For how many seconds the token is valid, where that is told.
    pub lifetime: Option<u64>,
    pub upstream_expires_at: Option<u64>,
    /// When the login expires.
    pub login_expires_at: u64,
    pub refresh_token_received: bool,
}

pub type Redeemed = RedeemedOf<String>;

impl View for RedeemedOf<String> {
    type V = RedeemedOf<Seq<char>>;

    open spec fn view(&self) -> RedeemedOf<Seq<char>> {
        RedeemedOf {
            token: self.token@,
            lifetime: self.lifetime,
            upstream_expires_at: self.upstream_expires_at,
            login_expires_at: self.login_expires_at,
            refresh_token_received: self.refresh_token_received,
        }
    }
}

/// What comes next once GitHub has answered a poll.
pub enum GrantStep {
    /// The client is answered.
    Answer(LocalResponse),
    /// GitHub is asked whose token this is.
    Identify(Redeemed),
}

/// What comes next once GitHub has answered a poll, as mathematics.
pub enum GrantView {
    Answer(u16, JsonView),
    Identify(RedeemedOf<Seq<char>>),
}

/// Whether the user of a login is still to let the gateway in. The outer option is none where
/// that is not so; the inner tells whether the login is to be polled less often.
pub open spec fn still_pending(grant: Option<JsonView>) -> Option<bool> {
    match grant {
        Some(g) => if g.text_at("error"@) == Some("authorization_pending"@) {
            Some(false)
        } else if g.text_at("error"@) == Some("slow_down"@) {
            Some(true)
        } else {
            None
        },
        None => None,
    }
}

/// What GitHub gave for a login, or why nothing comes of it.
pub open spec fn redeemed(grant: Option<JsonView>, login_expires_at: u64, time: u64) -> Result<
    GrantView,
    CopilotError,
> {
    match grant {
        None => Err(CopilotError::Upstream),
        Some(g) => if g.text_at("error"@) is Some {
            Ok(GrantView::Answer(401, error_json("authorization_denied_or_expired"@)))
        } else {
            match g.text_at("access_token"@) {
                None => Err(CopilotError::MissingAccessToken),
                Some(token) => match g.get("expires_in"@) {
                    None => Ok(
                        GrantView::Identify(
                            RedeemedOf {
                                token,
                                lifetime: None,
                                upstream_expires_at: None,
                                login_expires_at,
                                refresh_token_received: g.text_at("refresh_token"@) is Some,
                            },
                        ),
                    ),
                    Some(v) => match as_number(Some(v)) {
                        None => Err(CopilotError::UpstreamExpiry),
                        Some(seconds) => match later(time, seconds) {
                            Err(e) => Err(e),
                            Ok(t) => Ok(
                                GrantView::Identify(
                                    RedeemedOf {
                                        token,
                                        lifetime: Some(seconds),
                                        upstream_expires_at: Some(t),
                                        login_expires_at,
                                        refresh_token_received: g.text_at(
                                            "refresh_token"@,
                                        ) is Some,
                                    },
                                ),
                            ),
                        },
                    },
                },
            }
        },
    }
}

/// What comes next once GitHub has answered a poll, and the logins then. A login from which a
/// token came is gone: nothing can come of it again.
pub open spec fn grant_taken(
    l: LoginsView,
    handle: Seq<char>,
    grant: Option<JsonView>,
    clock: Result<u64, CopilotError>,
) -> (LoginsView, Result<GrantView, CopilotError>) {
    match clock {
        Err(e) => (l, Err(e)),
        Ok(time) => match login_named(l.pending, handle) {
            None => (l, Ok(GrantView::Answer(401, error_json("login_expired"@)))),
            Some(p) => {
                let gone = LoginsView { pending: dropped(l.pending, handle), ..l };
                if p.expires_at <= time {
                    (gone, Ok(GrantView::Answer(401, error_json("login_expired"@))))
                } else {
                    match still_pending(grant) {
                        Some(slow_down) => {
                            let (waits, interval) = deferred(p, slow_down, time);
                            (
                                LoginsView { pending: placed(l.pending, handle, waits), ..l },
                                match interval {
                                    Ok(n) => Ok(GrantView::Answer(202, waiting_json(n))),
                                    Err(e) => Err(e),
                                },
                            )
                        },
                        None => {
                            let got = redeemed(grant, p.expires_at, time);
                            if got matches Ok(GrantView::Identify(_)) {
                                (LoginsView { reserved: l.reserved + 1, ..gone }, got)
                            } else {
                                (gone, got)
                            }
                        },
                    }
                }
            },
        },
    }
}

/// Whether what comes next is what is due.
pub open spec fn grant_is(r: Result<GrantStep, CopilotError>, due: Result<GrantView, CopilotError>) -> bool {
    match due {
        Err(e) => r is Err && r->Err_0 == e,
        Ok(GrantView::Answer(status, body)) => r matches Ok(GrantStep::Answer(answer)) && says(
            answer,
            status,
            body,
        ),
        Ok(GrantView::Identify(due)) => r matches Ok(GrantStep::Identify(got)) && got@ == due,
    }
}

/// What comes next when a client polls a login, and the logins then.
pub open spec fn poll_step(l: LoginsView, handle: Seq<char>, time: u64) -> (
    LoginsView,
    Result<Seq<char>, (u16, JsonView)>,
) {
    let kept = LoginsView { pending: live(l.pending, time), ..l };
    match login_named(kept.pending, handle) {
        None => (kept, Err((401, error_json("invalid_login_transaction"@)))),
        Some(p) => if p.polling || time < p.next_poll {
            (kept, Err((202, waiting_json(waiting(p.next_poll, time)))))
        } else {
            (
                LoginsView {
                    pending: placed(kept.pending, handle, PendingOf { polling: true, ..p }),
                    ..kept
                },
                Ok(p.device_code),
            )
        },
    }
}

/// What comes next once GitHub has said whose token it gave.
pub enum IssueStep {
    /// The client is answered.
    Answer(LocalResponse),
    /// This credential is sealed, and the client gets it.
    Seal(Envelope),
}

/// The credential that comes of a login, none where its user is not admitted; or why none comes
/// of it. The clock is read twice: before the login is found to be in time, and after.
pub open spec fn issue_of(
    s: StateView,
    got: RedeemedOf<Seq<char>>,
    identity: Option<JsonView>,
    clock: Result<u64, CopilotError>,
    again: Result<u64, CopilotError>,
) -> Result<Option<EnvelopeView>, CopilotError> {
    match identity {
        None => Err(CopilotError::Upstream),
        Some(identity) => match number_at(identity, "id"@) {
            None => Err(CopilotError::MissingUserId),
            Some(user_id) => if !s.config.allowed_user_ids.contains(user_id) {
                Ok(None)
            } else {
                match (clock, again) {
                    (Err(e), _) => Err(e),
                    (Ok(time), _) if time >= got.login_expires_at => Err(CopilotError::LoginExpired),
                    (Ok(_), Err(e)) => Err(e),
                    (Ok(_), Ok(time)) => match credential_made(
                        s,
                        user_id,
                        got.token,
                        got.upstream_expires_at,
                        time,
                    ) {
                        Ok(e) => Ok(Some(e)),
                        Err(e) => Err(e),
                    },
                }
            },
        },
    }
}

/// A number of seconds, where there is one, as JSON.
pub open spec fn seconds_json(n: Option<u64>) -> JsonView {
    match n {
        Some(n) => JsonView::Unsigned(n),
        None => JsonView::Null,
    }
}

fn seconds_to_json(n: Option<u64>) -> (r: Json)
    ensures
        r@ == seconds_json(n),
{
    match n {
        Some(n) => Json::Unsigned(n),
        None => Json::Null,
    }
}

/// What a client is told that gets a credential.
pub open spec fn issued_json(
    e: EnvelopeView,
    sealed: Seq<u8>,
    identity: JsonView,
    got: RedeemedOf<Seq<char>>,
) -> JsonView {
    JsonView::object().with(
        "credential"@,
        JsonView::Text(ENVELOPE_PREFIX@ + base64url_text(sealed)),
    ).with(
        "expires_at"@,
        seconds_json(
            match first_deadline(e) {
                Some(t) => Some(t / NANOS_PER_SECOND),
                None => None,
            },
        ),
    ).with(
        "login"@,
        match identity.get("login"@) {
            Some(login) => login,
            None => JsonView::Null,
        },
    ).with("github_expires_in"@, seconds_json(got.lifetime)).with(
        "refresh_token_received"@,
        JsonView::Bool(got.refresh_token_received),
    )
}

impl CopilotState {
    /// Starts a login: takes a place for it, and has GitHub asked for one. Where all places are
    /// taken, the client is told so. The place is kept until [`CopilotState::login_granted`] is
    /// told how it went.
    pub fn login_start(&self, logins: &mut Logins, clock: Result<u64, CopilotError>) -> (r:
        LoginStep)
        ensures
            ({
                let time = match clock {
                    Ok(time) => time,
                    Err(_) => u64::MAX,
                };
                let kept = live(old(logins)@.pending, time);
                if kept.len() + old(logins)@.reserved < MAX_PENDING {
                    &&& r matches LoginStep::Ask(form)
                    &&& asks(
                        form,
                        "https://github.com/login/device/code"@,
                        device_pairs(self@.config.client_id),
                    )
                    &&& final(logins)@ == (LoginsView {
                        pending: kept,
                        reserved: old(logins)@.reserved + 1,
                    })
                } else {
                    &&& r matches LoginStep::Answer(answer)
                    &&& says(answer, 429, error_json("too_many_pending_logins"@))
                    &&& final(logins)@ == (LoginsView { pending: kept, ..old(logins)@ })
                }
            }),
            bounded(final(logins)@),
    {
        let time: u64 = match clock {
            Ok(time) => time,
            Err(_) => u64::MAX,
        };
        logins.retain_live(time);
        if !logins.reserve() {
            return LoginStep::Answer(local_response(429, "too_many_pending_logins"));
        }
        let pairs = [("client_id", self.config.client_id.as_str()), ("scope", "read:org")];
        assert(pair_views(pairs@) == device_pairs(self@.config.client_id));
        LoginStep::Ask(github_form("https://github.com/login/device/code", &pairs))
    }

    /// Goes on with a login once GitHub has answered: keeps it under a new handle that random
    /// bytes make, and says what the client is told. Whatever comes of it, the place that was
    /// taken for it is free again or the login has it.
    pub fn login_granted(
        &self,
        logins: &mut Logins,
        grant: Option<Json>,
        random: Option<[u8; 32]>,
        clock: Result<u64, CopilotError>,
    ) -> (r: Result<Started, CopilotError>)
        requires
            old(logins)@.reserved > 0,
        ensures
            ({
                let handle = match random {
                    Some(bytes) => TRANSACTION_PREFIX@ + base64url_text(bytes@),
                    None => Seq::empty(),
                };
                match login_started(json_in(grant), random is Some, handle, clock) {
                    Ok((due, time)) => {
                        &&& r is Ok
                        &&& r->Ok_0.handle@ == handle
                        &&& r->Ok_0.lifetime == due.lifetime
                        &&& says(r->Ok_0.response, 200, due.body)
                        &&& final(logins)@ == (LoginsView {
                            pending: placed(live(old(logins)@.pending, time), handle, due.pending),
                            reserved: (old(logins)@.reserved - 1) as nat,
                        })
                    },
                    Err(e) => {
                        &&& r is Err
                        &&& r->Err_0 == e
                        &&& final(logins)@ == (LoginsView {
                            reserved: (old(logins)@.reserved - 1) as nat,
                            ..old(logins)@
                        })
                    },
                }
            }),
            bounded(final(logins)@),
    {
        let terms = match &grant {
            Some(grant) => match read_terms(grant) {
                Ok(terms) => terms,
                Err(e) => {
                    logins.release();
                    return Err(e);
                },
            },
            None => {
                logins.release();
                return Err(CopilotError::Upstream);
            },
        };
        let handle = match random {
            Some(bytes) => frame_handle(&bytes),
            None => {
                logins.release();
                return Err(CopilotError::NoRandomness);
            },
        };
        let time: u64 = match clock {
            Ok(time) => time,
            Err(e) => {
                logins.release();
                return Err(e);
            },
        };
        let expires_at: u64 = match deadline(time, terms.lifetime) {
            Ok(t) => t,
            Err(e) => {
                logins.release();
                return Err(e);
            },
        };
        let next_poll: u64 = match deadline(time, terms.interval) {
            Ok(t) => t,
            Err(e) => {
                logins.release();
                return Err(e);
            },
        };
        let body = Json::object().with(
            "verification_uri",
            Json::text("https://github.com/login/device"),
        ).with("user_code", Json::text(terms.user_code.as_str())).with(
            "transaction",
            Json::text(handle.as_str()),
        ).with("interval", Json::Unsigned(terms.interval)).with(
            "expires_in",
            Json::Unsigned(terms.lifetime),
        );
        logins.retain_live(time);
        logins.insert(
            owned(handle.as_str()),
            PendingOf {
                device_code: terms.device_code,
                expires_at,
                next_poll,
                interval: terms.interval,
                polling: false,
            },
        );
        Ok(Started { response: response(200, body), handle, lifetime: terms.lifetime })
    }

    /// Polls a login for a client: GitHub is asked where it is time for that, and else the client
    /// is told to wait, or that there is no such login.
    pub fn login_poll(
        &self,
        logins: &mut Logins,
        handle: &str,
        clock: Result<u64, CopilotError>,
    ) -> (r: Result<LoginStep, CopilotError>)
        ensures
            match clock {
                Err(e) => r is Err && r->Err_0 == e && *final(logins) == *old(logins),
                Ok(time) => {
                    let (after, due) = poll_step(old(logins)@, handle@, time);
                    &&& final(logins)@ == after
                    &&& bounded(final(logins)@)
                    &&& match due {
                        Ok(device_code) => r matches Ok(LoginStep::Ask(form)) && asks(
                            form,
                            "https://github.com/login/oauth/access_token"@,
                            token_pairs(self@.config.client_id, device_code),
                        ),
                        Err((status, body)) => r matches Ok(LoginStep::Answer(answer)) && says(
                            answer,
                            status,
                            body,
                        ),
                    }
                },
            },
    {
        let time: u64 = match clock {
            Ok(time) => time,
            Err(e) => return Err(e),
        };
        logins.retain_live(time);
        let (device_code, waiting_login) = match logins.get(handle) {
            None => return Ok(
                LoginStep::Answer(local_response(401, "invalid_login_transaction")),
            ),
            Some(p) => {
                if p.polling || time < p.next_poll {
                    return Ok(LoginStep::Answer(wait_response(seconds_left(p.next_poll, time))));
                }
                (
                    owned(p.device_code.as_str()),
                    PendingOf {
                        device_code: owned(p.device_code.as_str()),
                        expires_at: p.expires_at,
                        next_poll: p.next_poll,
                        interval: p.interval,
                        polling: true,
                    },
                )
            },
        };
        logins.update(handle, waiting_login);
        let pairs = [
            ("client_id", self.config.client_id.as_str()),
            ("device_code", device_code.as_str()),
            ("grant_type", "urn:ietf:params:oauth:grant-type:device_code"),
        ];
        assert(pair_views(pairs@) == token_pairs(self@.config.client_id, device_code@));
        Ok(LoginStep::Ask(github_form("https://github.com/login/oauth/access_token", &pairs)))
    }
}

fn read_redeemed(grant: Option<Json>, login_expires_at: u64, time: u64) -> (r: Result<
    GrantStep,
    CopilotError,
>)
    ensures
        grant_is(r, redeemed(json_in(grant), login_expires_at, time)),
{
    let grant = match grant {
        Some(grant) => grant,
        None => return Err(CopilotError::Upstream),
    };
    if grant.text_at("error").is_some() {
        return Ok(GrantStep::Answer(local_response(401, "authorization_denied_or_expired")));
    }
    let token = match grant.text_at("access_token") {
        Some(token) => owned(token),
        None => return Err(CopilotError::MissingAccessToken),
    };
    let lifetime = match grant.get("expires_in") {
        None => None,
        Some(_) => match read_number(&grant, "expires_in") {
            Some(seconds) => Some(seconds),
            None => return Err(CopilotError::UpstreamExpiry),
        },
    };
    let upstream_expires_at = match lifetime {
        None => None,
        Some(seconds) => match deadline(time, seconds) {
            Ok(t) => Some(t),
            Err(e) => return Err(e),
        },
    };
    Ok(
        GrantStep::Identify(
            RedeemedOf {
                token,
                lifetime,
                upstream_expires_at,
                login_expires_at,
                refresh_token_received: grant.text_at("refresh_token").is_some(),
            },
        ),
    )
}

fn read_still_pending(grant: &Option<Json>) -> (r: Option<bool>)
    ensures
        r == still_pending(json_in(*grant)),
{
    match grant {
        Some(g) => match g.text_at("error") {
            Some(error) => if same(error, "authorization_pending") {
                Some(false)
            } else if same(error, "slow_down") {
                Some(true)
            } else {
                None
            },
            None => None,
        },
        None => None,
    }
}

impl CopilotState {
    /// Goes on with a login once GitHub has answered a poll. Where a token came, the login is
    /// gone, and a place stays taken until [`CopilotState::login_identified`] is told whose token
    /// it is.
    pub fn login_polled(
        &self,
        logins: &mut Logins,
        handle: &str,
        grant: Option<Json>,
        clock: Result<u64, CopilotError>,
    ) -> (r: Result<GrantStep, CopilotError>)
        ensures
            ({
                let (after, due) = grant_taken(old(logins)@, handle@, json_in(grant), clock);
                final(logins)@ == after && grant_is(r, due)
            }),
    {
        let time: u64 = match clock {
            Ok(time) => time,
            Err(e) => return Err(e),
        };
        let mut login: Pending = match logins.get(handle) {
            None => return Ok(GrantStep::Answer(local_response(401, "login_expired"))),
            Some(p) => PendingOf {
                device_code: owned(p.device_code.as_str()),
                expires_at: p.expires_at,
                next_poll: p.next_poll,
                interval: p.interval,
                polling: p.polling,
            },
        };
        let expires_at: u64 = login.expires_at;
        if expires_at <= time {
            logins.remove(handle);
            return Ok(GrantStep::Answer(local_response(401, "login_expired")));
        }
        match read_still_pending(&grant) {
            Some(slow_down) => {
                let interval = login.defer(slow_down, time);
                logins.update(handle, login);
                match interval {
                    Ok(n) => Ok(GrantStep::Answer(wait_response(n))),
                    Err(e) => Err(e),
                }
            },
            None => {
                let ghost before = logins@;
                let room = logins.available();
                logins.remove(handle);
                proof {
                    crate::login::lemma_dropped_len(before.pending, handle@);
                }
                match read_redeemed(grant, expires_at, time) {
                    Ok(GrantStep::Identify(got)) => {
                        let taken = logins.reserve();
                        assert(taken);
                        Ok(GrantStep::Identify(got))
                    },
                    other => other,
                }
            },
        }
    }

    /// Makes the credential that comes of a login, once GitHub has said whose token it gave. The
    /// place that was taken for the login is free again.
    pub fn login_identified(
        &self,
        logins: &mut Logins,
        got: &Redeemed,
        identity: &Option<Json>,
        clock: Result<u64, CopilotError>,
        again: Result<u64, CopilotError>,
    ) -> (r: Result<IssueStep, CopilotError>)
        requires
            old(logins)@.reserved > 0,
        ensures
            match issue_of(self@, got@, json_in(*identity), clock, again) {
                Ok(Some(e)) => r matches Ok(IssueStep::Seal(made)) && made@ == e,
                Ok(None) => r matches Ok(IssueStep::Answer(answer)) && says(
                    answer,
                    403,
                    error_json("user_not_allowed"@),
                ),
                Err(e) => r is Err && r->Err_0 == e,
            },
            final(logins)@ == (LoginsView {
                reserved: (old(logins)@.reserved - 1) as nat,
                ..old(logins)@
            }),
    {
        logins.release();
        let identity = match identity {
            Some(identity) => identity,
            None => return Err(CopilotError::Upstream),
        };
        let user_id: u64 = match read_number(identity, "id") {
            Some(id) => id,
            None => return Err(CopilotError::MissingUserId),
        };
        if !self.admits(user_id) {
            return Ok(IssueStep::Answer(local_response(403, "user_not_allowed")));
        }
        match clock {
            Ok(time) => if time >= got.login_expires_at {
                return Err(CopilotError::LoginExpired);
            },
            Err(e) => return Err(e),
        }
        let time: u64 = match again {
            Ok(time) => time,
            Err(e) => return Err(e),
        };
        match self.envelope(user_id, got.token.as_str(), got.upstream_expires_at, time) {
            Ok(envelope) => Ok(IssueStep::Seal(envelope)),
            Err(e) => Err(e),
        }
    }

    /// What a client is told that gets a credential. `sealed` is the credential as it was sealed,
    /// where it was.
    pub fn login_issued(
        &self,
        envelope: &Envelope,
        sealed: Option<&[u8]>,
        identity: &Json,
        got: &Redeemed,
    ) -> (r: Result<LocalResponse, CopilotError>)
        ensures
            match sealed {
                Some(bytes) => if bytes@.len() <= usize::MAX / 4 {
                    r is Ok && says(
                        r->Ok_0,
                        200,
                        issued_json(envelope@, bytes@, identity@, got@),
                    )
                } else {
                    r is Err && r->Err_0 == CopilotError::SealFailed
                },
                None => r is Err && r->Err_0 == CopilotError::SealFailed,
            },
    {
        let sealed = match sealed {
            Some(sealed) => sealed,
            None => return Err(CopilotError::SealFailed),
        };
        if sealed.len() > usize::MAX / 4 {
            return Err(CopilotError::SealFailed);
        }
        let credential = frame(sealed);
        let expires_at = match envelope.expiration() {
            Some(t) => Some(t / NANOS_PER_SECOND),
            None => None,
        };
        let login = match identity.get("login") {
            Some(login) => login.copy(),
            None => Json::Null,
        };
        Ok(
            response(
                200,
                Json::object().with("credential", Json::text(credential.as_str())).with(
                    "expires_at",
                    seconds_to_json(expires_at),
                ).with("login", login).with(
                    "github_expires_in",
                    seconds_to_json(got.lifetime),
                ).with(
                    "refresh_token_received",
                    Json::Bool(got.refresh_token_received),
                ),
            ),
        )
    }
}

/// A login from which a token came is not there any more: polling it again finds none.
pub proof fn lemma_redeemed_once(
    l: LoginsView,
    handle: Seq<char>,
    grant: Option<JsonView>,
    clock: Result<u64, CopilotError>,
)
    ensures
        grant_taken(l, handle, grant, clock).1 matches Ok(GrantView::Identify(_)) ==> login_named(
            grant_taken(l, handle, grant, clock).0.pending,
            handle,
        ) is None,
{
    match clock {
        Ok(_) => match login_named(l.pending, handle) {
            Some(p) => {
                crate::login::lemma_placed_and_dropped(l.pending, handle, p);
            },
            None => {},
        },
        Err(_) => {},
    }
}

/// A login that GitHub is being asked about is not asked about a second time meanwhile: whoever
/// polls it is told to wait.
pub proof fn lemma_polled_one_at_a_time(l: LoginsView, handle: Seq<char>, time: u64, again: u64)
    ensures
        ({
            let (after, due) = poll_step(l, handle, time);
            due is Ok ==> poll_step(after, handle, again).1 is Err
        }),
{
    let kept = live(l.pending, time);
    match login_named(kept, handle) {
        Some(p) => {
            let busy = PendingOf { polling: true, ..p };
            crate::login::lemma_placed_and_dropped(kept, handle, busy);
            crate::login::lemma_dropped_has_none(kept, handle);
            let t = placed(kept, handle, busy);
            assert forall|i: int| 0 <= i < t.len() - 1 implies (#[trigger] t[i]).0 != handle by {
                assert(t[i] == dropped(kept, handle)[i]);
            }
            lemma_live_keeps(t, handle, again);
        },
        None => {},
    }
}

/// Of the logins that have not expired, the one with a handle is the one that had it, where only
/// one had it.
proof fn lemma_live_keeps(t: crate::login::Table, handle: Seq<char>, time: u64)
    requires
        t.len() > 0,
        t.last().0 == handle,
        forall|i: int| 0 <= i < t.len() - 1 ==> (#[trigger] t[i]).0 != handle,
    ensures
        login_named(live(t, time), handle) is None || login_named(live(t, time), handle) == Some(
            t.last().1,
        ),
{
    let rest = t.drop_last();
    lemma_live_has_none(rest, handle, time);
    let kept = live(rest, time);
    crate::login::lemma_not_found(kept, handle, 0);
    crate::login::lemma_found_last(kept, handle, t.last().1, 0);
}

proof fn lemma_live_has_none(t: crate::login::Table, handle: Seq<char>, time: u64)
    requires
        forall|i: int| 0 <= i < t.len() ==> (#[trigger] t[i]).0 != handle,
    ensures
        forall|i: int| 0 <= i < live(t, time).len() ==> (#[trigger] live(t, time)[i]).0 != handle,
    decreases t.len(),
{
    if t.len() > 0 {
        let rest = t.drop_last();
        assert forall|i: int| 0 <= i < rest.len() implies (#[trigger] rest[i]).0 != handle by {
            assert(rest[i] == t[i]);
        }
        lemma_live_has_none(rest, handle, time);
        assert forall|i: int| 0 <= i < live(t, time).len() implies (#[trigger] live(t, time)[i]).0
            != handle by {
            if i < live(rest, time).len() {
                assert(live(t, time)[i] == live(rest, time)[i]);
            } else {
                assert(live(t, time)[i] == t[t.len() - 1]);
            }
        }
    }
}

} // verus!
