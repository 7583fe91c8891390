//! Credentials of users: what they hold, when they are valid, and how they are written.
use std::time::{Duration, SystemTime};

use vstd::prelude::*;
use vstd::utf8::encode_utf8;

use crate::codec::{flat, json_text, parsed_once};
use crate::fault::CopilotError;
use crate::json::{distinct, entry_views, field, only, view_in, views, Json, JsonView, Object};
use crate::text::owned;

verus! {

broadcast use crate::json::lemma_array_view;

/// What every credential starts with.
pub const ENVELOPE_PREFIX: &'static str = "agw_cp1.";

/// What every handle of a login starts with.
pub const TRANSACTION_PREFIX: &'static str = "agw_cpl1.";

/// Who makes credentials.
pub const ISSUER: &'static str = "agentgateway";

/// What credentials are for.
pub const PURPOSE: &'static str = "agentgateway-copilot-user";

pub const NANOS_PER_SECOND: u64 = 1_000_000_000;

/// How long a credential may be, in bytes.
pub const MAX_CREDENTIAL: usize = 16384;

/// How long a token of the upstream may be, in bytes.
pub const MAX_TOKEN: usize = 4096;

/// A reading of the machine's clock.
#[verifier::external_type_specification]
#[verifier::external_body]
pub struct ExSystemTime(SystemTime);

/// `SystemTime::now`: the machine's clock. Nothing is promised of the reading.
#[verifier::external_body]
pub(crate) fn read_clock() -> (r: SystemTime) {
    SystemTime::now()
}

/// How long after the Unix epoch a time is, where it is not before it.
pub uninterp spec fn time_since_epoch(time: SystemTime) -> Option<Duration>;

/// How many nanoseconds a duration lasts.
pub uninterp spec fn total_nanos(d: Duration) -> u128;

/// `SystemTime::duration_since` the Unix epoch: the outcome is a function of the time, and an
/// error where the time is before the epoch.
#[verifier::external_body]
fn since_epoch(time: &SystemTime) -> (r: Option<Duration>)
    ensures
        r == time_since_epoch(*time),
{
    time.duration_since(std::time::UNIX_EPOCH).ok()
}

/// `Duration::as_nanos`: the number is a function of the duration.
pub assume_specification[ Duration::as_nanos ](d: &Duration) -> (r: u128)
    ensures
        r == total_nanos(*d),
;

/// How many nanoseconds after the Unix epoch a time is, where it is not before it.
pub open spec fn epoch_nanos(time: SystemTime) -> Option<u128> {
    match time_since_epoch(time) {
        Some(d) => Some(total_nanos(d)),
        None => None,
    }
}

/// The time that a number of nanoseconds since the epoch stands for, where it is one that can be
/// told.
pub open spec fn stamped(nanos: Option<u128>) -> Result<u64, CopilotError> {
    match nanos {
        Some(n) => if n <= u64::MAX {
            Ok(n as u64)
        } else {
            Err(CopilotError::UnsupportedClock)
        },
        None => Err(CopilotError::ClockBeforeEpoch),
    }
}

/// The time that a number of nanoseconds since the epoch stands for. None stands for a time
/// before the epoch.
pub fn stamp(nanos: Option<u128>) -> (r: Result<u64, CopilotError>)
    ensures
        r == stamped(nanos),
{
    match nanos {
        Some(n) => if n <= u64::MAX as u128 {
            Ok(n as u64)
        } else {
            Err(CopilotError::UnsupportedClock)
        },
        None => Err(CopilotError::ClockBeforeEpoch),
    }
}

/// How many nanoseconds after the Unix epoch a time is, where it is not before it.
pub(crate) fn nanos_at(time: &SystemTime) -> (r: Option<u128>)
    ensures
        r == epoch_nanos(*time),
{
    match since_epoch(time) {
        Some(d) => Some(d.as_nanos()),
        None => None,
    }
}

/// The time of a reading of the clock, in nanoseconds since the epoch.
pub fn timestamp(time: SystemTime) -> (r: Result<u64, CopilotError>)
    ensures
        r == stamped(epoch_nanos(time)),
{
    stamp(nanos_at(&time))
}

/// The time now, in nanoseconds since the epoch.
pub fn now() -> (r: Result<u64, CopilotError>)
    ensures
        exists|nanos: Option<u128>| r == #[trigger] stamped(nanos),
{
    timestamp(read_clock())
}

/// The time some seconds after another, where it can be told.
pub open spec fn later(time: u64, seconds: u64) -> Result<u64, CopilotError> {
    if time + seconds * NANOS_PER_SECOND <= u64::MAX {
        Ok((time + seconds * NANOS_PER_SECOND) as u64)
    } else {
        Err(CopilotError::LoginLifetime)
    }
}

/// The time some seconds after another.
pub fn deadline(time: u64, seconds: u64) -> (r: Result<u64, CopilotError>)
    ensures
        r == later(time, seconds),
{
    match seconds.checked_mul(NANOS_PER_SECOND) {
        Some(n) => match time.checked_add(n) {
            Some(t) => Ok(t),
            None => Err(CopilotError::LoginLifetime),
        },
        None => Err(CopilotError::LoginLifetime),
    }
}

/// Whether a deadline, where there is one, comes after the issuance and has not come.
pub open spec fn before(deadline: Option<u64>, issued_at: u64, time: u64) -> bool {
    match deadline {
        Some(t) => issued_at < t && time < t,
        None => true,
    }
}

/// What is wrong with the times of a credential, if anything is: it is from the future, past one
/// of its deadlines, or valid for longer than credentials may be.
pub open spec fn deadlines_fault(
    issued_at: u64,
    gateway_expires_at: Option<u64>,
    upstream_expires_at: Option<u64>,
    ttl: Option<u64>,
    time: u64,
) -> Option<CopilotError> {
    if issued_at > time {
        Some(CopilotError::IssuanceTime)
    } else if !before(gateway_expires_at, issued_at, time) || !before(
        upstream_expires_at,
        issued_at,
        time,
    ) {
        Some(CopilotError::Expired)
    } else if ttl matches Some(limit) && !(gateway_expires_at matches Some(t) && t - issued_at
        <= limit) {
        Some(CopilotError::Lifetime)
    } else {
        None
    }
}

/// Whether a credential is valid as far as its times go.
pub fn validate_deadlines(
    issued_at: u64,
    gateway_expires_at: Option<u64>,
    upstream_expires_at: Option<u64>,
    ttl: Option<u64>,
    time: u64,
) -> (r: Result<(), CopilotError>)
    ensures
        match deadlines_fault(issued_at, gateway_expires_at, upstream_expires_at, ttl, time) {
            Some(e) => r is Err && r->Err_0 == e,
            None => r is Ok,
        },
{
    if issued_at > time {
        return Err(CopilotError::IssuanceTime);
    }
    match gateway_expires_at {
        Some(t) => if t <= issued_at || time >= t {
            return Err(CopilotError::Expired);
        },
        None => {},
    }
    match upstream_expires_at {
        Some(t) => if t <= issued_at || time >= t {
            return Err(CopilotError::Expired);
        },
        None => {},
    }
    match (ttl, gateway_expires_at) {
        (Some(limit), Some(t)) => if t - issued_at > limit {
            return Err(CopilotError::Lifetime);
        },
        (Some(_), None) => return Err(CopilotError::Lifetime),
        (None, _) => {},
    }
    Ok(())
}

/// A credential that is valid at one time was so at every time between its issuance and then, and
/// is so until just before its first deadline. At a deadline and after it, it is not valid.
pub proof fn lemma_deadlines_are_exclusive(
    issued_at: u64,
    gateway_expires_at: Option<u64>,
    upstream_expires_at: Option<u64>,
    ttl: Option<u64>,
    time: u64,
    other: u64,
)
    requires
        deadlines_fault(issued_at, gateway_expires_at, upstream_expires_at, ttl, time) is None,
    ensures
        deadlines_fault(issued_at, gateway_expires_at, upstream_expires_at, ttl, other) is None <==>
            issued_at <= other && (gateway_expires_at matches Some(t) ==> other < t) && (
        upstream_expires_at matches Some(t) ==> other < t),
{
}

/// What a credential holds.
pub struct EnvelopeOf<S> {
    pub version: u8,
    pub issuer: S,
    pub purpose: S,
    pub audience: S,
    pub policy_id: S,
    pub user_id: u64,
    /// In nanoseconds since the epoch, as the deadlines are.
    pub issued_at: u64,
    pub gateway_expires_at: Option<u64>,
    pub upstream_expires_at: Option<u64>,
    pub upstream_token: S,
}

pub type Envelope = EnvelopeOf<String>;

pub type EnvelopeView = EnvelopeOf<Seq<char>>;

impl View for EnvelopeOf<String> {
    type V = EnvelopeOf<Seq<char>>;

    open spec fn view(&self) -> EnvelopeView {
        EnvelopeOf {
            version: self.version,
            issuer: self.issuer@,
            purpose: self.purpose@,
            audience: self.audience@,
            policy_id: self.policy_id@,
            user_id: self.user_id,
            issued_at: self.issued_at,
            gateway_expires_at: self.gateway_expires_at,
            upstream_expires_at: self.upstream_expires_at,
            upstream_token: self.upstream_token@,
        }
    }
}

/// The first deadline of a credential, where it has any.
pub open spec fn first_deadline(e: EnvelopeView) -> Option<u64> {
    match (e.gateway_expires_at, e.upstream_expires_at) {
        (Some(a), Some(b)) => if a <= b {
            Some(a)
        } else {
            Some(b)
        },
        (Some(a), None) => Some(a),
        (None, b) => b,
    }
}

/// A time, where there is one, as JSON.
pub open spec fn time_json(t: Option<u64>) -> JsonView {
    match t {
        Some(t) => JsonView::Unsigned(t),
        None => JsonView::Null,
    }
}

/// A credential as JSON.
pub open spec fn envelope_json(e: EnvelopeView) -> JsonView {
    JsonView::Object(
        seq![
            ("version"@, JsonView::Unsigned(e.version as u64)),
            ("issuer"@, JsonView::Text(e.issuer)),
            ("purpose"@, JsonView::Text(e.purpose)),
            ("audience"@, JsonView::Text(e.audience)),
            ("policy_id"@, JsonView::Text(e.policy_id)),
            ("user_id"@, JsonView::Unsigned(e.user_id)),
            ("issued_at"@, JsonView::Unsigned(e.issued_at)),
            ("gateway_expires_at"@, time_json(e.gateway_expires_at)),
            ("upstream_expires_at"@, time_json(e.upstream_expires_at)),
            ("upstream_token"@, JsonView::Text(e.upstream_token)),
        ],
    )
}

/// The fields of a credential.
pub open spec fn envelope_fields() -> Seq<&'static str> {
    seq![
        "version",
        "issuer",
        "purpose",
        "audience",
        "policy_id",
        "user_id",
        "issued_at",
        "gateway_expires_at",
        "upstream_expires_at",
        "upstream_token",
    ]
}

proof fn lemma_names_differ()
    ensures
        "version"@.len() == 7 && "version"@[0] == 'v',
        "issuer"@.len() == 6,
        "purpose"@.len() == 7 && "purpose"@[0] == 'p',
        "audience"@.len() == 8,
        "policy_id"@.len() == 9 && "policy_id"@[0] == 'p',
        "user_id"@.len() == 7 && "user_id"@[0] == 'u',
        "issued_at"@.len() == 9 && "issued_at"@[0] == 'i',
        "gateway_expires_at"@.len() == 18,
        "upstream_expires_at"@.len() == 19,
        "upstream_token"@.len() == 14,
{
    reveal_strlit("version");
    reveal_strlit("issuer");
    reveal_strlit("purpose");
    reveal_strlit("audience");
    reveal_strlit("policy_id");
    reveal_strlit("user_id");
    reveal_strlit("issued_at");
    reveal_strlit("gateway_expires_at");
    reveal_strlit("upstream_expires_at");
    reveal_strlit("upstream_token");
}

proof fn lemma_envelope_flat(e: EnvelopeView)
    ensures
        flat(envelope_json(e)),
{
    lemma_names_differ();
    let fields = envelope_json(e)->Object_0;
    assert(distinct(fields));
}

/// A string among values.
pub open spec fn as_text(v: Option<JsonView>) -> Option<Seq<char>> {
    match v {
        Some(JsonView::Text(s)) => Some(s),
        _ => None,
    }
}

/// A number among values.
pub open spec fn as_number(v: Option<JsonView>) -> Option<u64> {
    match v {
        Some(JsonView::Unsigned(n)) => Some(n),
        _ => None,
    }
}

/// A time among values, where one is told. The outer option is none where the value is neither a
/// time nor null.
pub open spec fn as_time(v: Option<JsonView>) -> Option<Option<u64>> {
    match v {
        None | Some(JsonView::Null) => Some(None),
        Some(JsonView::Unsigned(n)) => Some(Some(n)),
        Some(_) => None,
    }
}

/// The credential that values are, each in the place of its field; none where one is missing or
/// of another type.
pub open spec fn envelope_from(at: spec_fn(int) -> Option<JsonView>) -> Option<EnvelopeView> {
    let version = as_number(at(0));
    let gateway = as_time(at(7));
    let upstream = as_time(at(8));
    if version is Some && version->0 <= u8::MAX && as_text(at(1)) is Some && as_text(at(2)) is Some
        && as_text(at(3)) is Some && as_text(at(4)) is Some && as_number(at(5)) is Some
        && as_number(at(6)) is Some && gateway is Some && upstream is Some && as_text(
        at(9),
    ) is Some {
        Some(
            EnvelopeOf {
                version: version->0 as u8,
                issuer: as_text(at(1))->0,
                purpose: as_text(at(2))->0,
                audience: as_text(at(3))->0,
                policy_id: as_text(at(4))->0,
                user_id: as_number(at(5))->0,
                issued_at: as_number(at(6))->0,
                gateway_expires_at: gateway->0,
                upstream_expires_at: upstream->0,
                upstream_token: as_text(at(9))->0,
            },
        )
    } else {
        None
    }
}

/// The credential that a JSON value is: an object with no other fields than a credential has, or
/// a list of their values in order.
pub open spec fn envelope_in(v: JsonView) -> Option<EnvelopeView> {
    match v {
        JsonView::Object(o) => if only(o, envelope_fields()) {
            envelope_from(|i: int| field(o, envelope_fields()[i]@))
        } else {
            None
        },
        JsonView::Array(items) => if items.len() == 10 {
            envelope_from(|i: int| Some(items[i]))
        } else {
            None
        },
        _ => None,
    }
}

fn number_in(v: Option<&Json>) -> (r: Option<u64>)
    ensures
        r == as_number(view_in(v)),
{
    match v {
        Some(Json::Unsigned(n)) => Some(*n),
        Some(Json::Negative(n)) => if *n >= 0 {
            Some(*n as u64)
        } else {
            None
        },
        _ => None,
    }
}

fn time_in(v: Option<&Json>) -> (r: Option<Option<u64>>)
    ensures
        r == as_time(view_in(v)),
{
    match v {
        None | Some(Json::Null) => Some(None),
        Some(v) => match number_in(Some(v)) {
            Some(n) => Some(Some(n)),
            None => None,
        },
    }
}

fn text_among<'a>(v: Option<&'a Json>) -> (r: Option<&'a str>)
    ensures
        crate::text::text_of(r) == as_text(view_in(v)),
{
    match v {
        Some(Json::Text(s)) => Some(s.as_str()),
        _ => None,
    }
}

fn read_fields(v: [Option<&Json>; 10]) -> (r: Option<Envelope>)
    ensures
        (match r {
            Some(e) => Some(e@),
            None => None,
        }) == envelope_from(|i: int| view_in(v@[i])),
{
    match (
        number_in(v[0]),
        text_among(v[1]),
        text_among(v[2]),
        text_among(v[3]),
        text_among(v[4]),
        number_in(v[5]),
        number_in(v[6]),
        time_in(v[7]),
        time_in(v[8]),
        text_among(v[9]),
    ) {
        (
            Some(version),
            Some(issuer),
            Some(purpose),
            Some(audience),
            Some(policy_id),
            Some(user_id),
            Some(issued_at),
            Some(gateway_expires_at),
            Some(upstream_expires_at),
            Some(token),
        ) => if version <= u8::MAX as u64 {
            Some(
                EnvelopeOf {
                    version: version as u8,
                    issuer: owned(issuer),
                    purpose: owned(purpose),
                    audience: owned(audience),
                    policy_id: owned(policy_id),
                    user_id,
                    issued_at,
                    gateway_expires_at,
                    upstream_expires_at,
                    upstream_token: owned(token),
                },
            )
        } else {
            None
        },
        _ => None,
    }
}

/// The credential that a JSON value is.
pub fn read_envelope(v: &Json) -> (r: Option<Envelope>)
    ensures
        (match r {
            Some(e) => Some(e@),
            None => None,
        }) == envelope_in(v@),
{
    match v {
        Json::Object(o) => {
            let known = [
                "version",
                "issuer",
                "purpose",
                "audience",
                "policy_id",
                "user_id",
                "issued_at",
                "gateway_expires_at",
                "upstream_expires_at",
                "upstream_token",
            ];
            assert(known@ == envelope_fields());
            if o.has_unknown_field(&known) {
                return None;
            }
            let at = [
                o.get("version"),
                o.get("issuer"),
                o.get("purpose"),
                o.get("audience"),
                o.get("policy_id"),
                o.get("user_id"),
                o.get("issued_at"),
                o.get("gateway_expires_at"),
                o.get("upstream_expires_at"),
                o.get("upstream_token"),
            ];
            read_fields(at)
        },
        Json::Array(items) => if items.len() == 10 {
            let at = [
                Some(&items[0]),
                Some(&items[1]),
                Some(&items[2]),
                Some(&items[3]),
                Some(&items[4]),
                Some(&items[5]),
                Some(&items[6]),
                Some(&items[7]),
                Some(&items[8]),
                Some(&items[9]),
            ];
            assert(v@ == JsonView::Array(views(items@)));
            read_fields(at)
        } else {
            None
        },
        _ => None,
    }
}

fn time_to_json(t: Option<u64>) -> (r: Json)
    ensures
        r@ == time_json(t),
{
    match t {
        Some(t) => Json::Unsigned(t),
        None => Json::Null,
    }
}

impl EnvelopeOf<String> {
    /// The first deadline of the credential, where it has any.
    pub fn expiration(&self) -> (r: Option<u64>)
        ensures
            r == first_deadline(self@),
    {
        match (self.gateway_expires_at, self.upstream_expires_at) {
            (Some(a), Some(b)) => if a <= b {
                Some(a)
            } else {
                Some(b)
            },
            (Some(a), None) => Some(a),
            (None, b) => b,
        }
    }

    /// The credential as JSON.
    pub fn to_json(&self) -> (r: Json)
        ensures
            r@ == envelope_json(self@),
    {
        let entries = vec![
            (owned("version"), Json::Unsigned(self.version as u64)),
            (owned("issuer"), Json::text(self.issuer.as_str())),
            (owned("purpose"), Json::text(self.purpose.as_str())),
            (owned("audience"), Json::text(self.audience.as_str())),
            (owned("policy_id"), Json::text(self.policy_id.as_str())),
            (owned("user_id"), Json::Unsigned(self.user_id)),
            (owned("issued_at"), Json::Unsigned(self.issued_at)),
            (owned("gateway_expires_at"), time_to_json(self.gateway_expires_at)),
            (owned("upstream_expires_at"), time_to_json(self.upstream_expires_at)),
            (owned("upstream_token"), Json::text(self.upstream_token.as_str())),
        ];
        proof {
            assert(entry_views(entries@) == envelope_json(self@)->Object_0);
            lemma_envelope_flat(self@);
        }
        Json::Object(Object::from_entries(entries))
    }

    /// The credential as it is sealed: its JSON text, from which it can be read again.
    pub fn plaintext(&self) -> (r: Vec<u8>)
        ensures
            r@ == encode_utf8(json_text(envelope_json(self@))),
            envelope_written(r@) == Some(self@),
    {
        proof {
            lemma_envelope_flat(self@);
            lemma_envelope_read(self@);
        }
        self.to_json().to_bytes()
    }
}

/// The credential that a JSON text holds. A text that tells a field twice holds none.
pub open spec fn envelope_written(bytes: Seq<u8>) -> Option<EnvelopeView> {
    match parsed_once(bytes) {
        Some(v) => envelope_in(v),
        None => None,
    }
}

/// A credential is read from its JSON form as it was.
pub proof fn lemma_envelope_read(e: EnvelopeView)
    ensures
        envelope_in(envelope_json(e)) == Some(e),
{
    lemma_names_differ();
    let o = envelope_json(e)->Object_0;
    let names = envelope_fields();
    assert(distinct(o)) by {
        lemma_envelope_flat(e);
    }
    assert forall|i: int| 0 <= i < 10 implies field(o, #[trigger] names[i]@) == Some(o[i].1) by {
        crate::json::lemma_position(o, names[i]@, 0);
        assert(o[i].0 == names[i]@);
    }
    assert(only(o, names)) by {
        assert forall|i: int| 0 <= i < o.len() implies crate::text::named(
            names,
            (#[trigger] o[i]).0,
        ) by {
            assert(names[i]@ == o[i].0);
        }
    }
    let at = |i: int| field(o, names[i]@);
    assert(at(0) == Some(o[0].1));
    assert(at(1) == Some(o[1].1));
    assert(at(2) == Some(o[2].1));
    assert(at(3) == Some(o[3].1));
    assert(at(4) == Some(o[4].1));
    assert(at(5) == Some(o[5].1));
    assert(at(6) == Some(o[6].1));
    assert(at(7) == Some(o[7].1));
    assert(at(8) == Some(o[8].1));
    assert(at(9) == Some(o[9].1));
}

} // verus!
