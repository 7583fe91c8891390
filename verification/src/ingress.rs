//! Requests that come in: their credentials, where they come from, and who they are let in as.
use vstd::prelude::*;
use vstd::utf8::encode_utf8;

use crate::codec::json_text;
use crate::envelope::{
    now, stamped, Envelope, EnvelopeView, ENVELOPE_PREFIX, MAX_CREDENTIAL, TRANSACTION_PREFIX,
};
use crate::fault::CopilotError;
use crate::json::{Json, JsonView};
use crate::policy::{
    credential_fault, credential_opened, sealed_in, unframe, CopilotPolicy, CopilotState, StateView,
};
use crate::stream_state::{byte_len, bytes_of};
use crate::text::{after_prefix, blank, owned, same, strip_prefix, text_in};

verus! {

/// The address of a machine.
#[derive(Debug, Clone, Copy, PartialEq, Eq, Structural)]
pub enum IpAddress {
    /// An IPv4 address by its four bytes.
    V4(u8, u8, u8, u8),
    /// An IPv6 address as a number.
    V6(u128),
}

/// Whether an address is one by which a machine reaches itself.
pub open spec fn loopback(ip: IpAddress) -> bool {
    match ip {
        IpAddress::V4(a, _, _, _) => a == 127,
        IpAddress::V6(n) => n == 1,
    }
}

impl IpAddress {
    /// Whether the address is one by which a machine reaches itself.
    pub fn is_loopback(&self) -> (r: bool)
        ensures
            r == loopback(*self),
    {
        match self {
            IpAddress::V4(a, _, _, _) => *a == 127,
            IpAddress::V6(n) => *n == 1,
        }
    }
}

/// The connection that a request came by.
#[derive(Debug, Clone, Copy, PartialEq, Eq, Structural)]
pub struct TcpConnection {
    pub local: IpAddress,
    pub peer: IpAddress,
    /// Who made the connection, where the peer speaks for another.
    pub raw_peer: Option<IpAddress>,
}

/// A credential that was taken out of a request as it came in. None stands for one that is not
/// written as a credential must be.
pub struct IngressCredential {
    pub token: Option<String>,
}

/// Who a request was let in as, and by which policy.
pub struct Verified {
    pub state: CopilotState,
    pub envelope: Envelope,
}

impl Verified {
    /// What may be shown of it: nothing.
    pub fn describe(&self) -> (r: &'static str)
        ensures
            r@ == "VerifiedCopilotUser { .. }"@,
    {
        "VerifiedCopilotUser { .. }"
    }
}

impl IngressCredential {
    /// What may be shown of it: nothing.
    pub fn describe(&self) -> (r: &'static str)
        ensures
            r@ == "IngressCredential { .. }"@,
    {
        "IngressCredential { .. }"
    }
}

/// A request as far as its admission goes. The names of headers are in lower case.
pub struct Request {
    pub method: String,
    pub path: String,
    pub headers: Vec<(String, Vec<u8>)>,
    /// Whether the request came over TLS.
    pub tls: bool,
    pub tcp: Option<TcpConnection>,
    pub captured: Option<IngressCredential>,
    pub verified: Option<Verified>,
}

/// Headers, as mathematics.
pub type Headers = Seq<(Seq<char>, Seq<u8>)>;

/// Who a request was let in as, as mathematics.
pub struct VerifiedView {
    pub state: StateView,
    pub envelope: EnvelopeView,
}

/// A request, as mathematics.
pub struct RequestView {
    pub method: Seq<char>,
    pub path: Seq<char>,
    pub headers: Headers,
    pub tls: bool,
    pub tcp: Option<TcpConnection>,
    pub captured: Option<Option<Seq<char>>>,
    pub verified: Option<VerifiedView>,
}

pub open spec fn headers_of(headers: Seq<(String, Vec<u8>)>) -> Headers {
    headers.map_values(|h: (String, Vec<u8>)| (h.0@, h.1@))
}

impl View for Verified {
    type V = VerifiedView;

    open spec fn view(&self) -> VerifiedView {
        VerifiedView { state: self.state@, envelope: self.envelope@ }
    }
}

impl View for Request {
    type V = RequestView;

    open spec fn view(&self) -> RequestView {
        RequestView {
            method: self.method@,
            path: self.path@,
            headers: headers_of(self.headers@),
            tls: self.tls,
            tcp: self.tcp,
            captured: match self.captured {
                Some(c) => Some(text_in(c.token)),
                None => None,
            },
            verified: match self.verified {
                Some(v) => Some(v@),
                None => None,
            },
        }
    }
}

/// How many of the headers have a name.
pub open spec fn header_count(headers: Headers, name: Seq<char>) -> nat
    decreases headers.len(),
{
    if headers.len() == 0 {
        0
    } else {
        header_count(headers.drop_last(), name) + (if headers.last().0 == name {
            1nat
        } else {
            0nat
        })
    }
}

/// The value of the first header with a name, from the `n`th on.
pub open spec fn header_from(headers: Headers, name: Seq<char>, n: int) -> Option<Seq<u8>>
    decreases headers.len() - n,
{
    if n < 0 || n >= headers.len() {
        None
    } else if headers[n].0 == name {
        Some(headers[n].1)
    } else {
        header_from(headers, name, n + 1)
    }
}

/// The headers that do not have a name.
pub open spec fn without(headers: Headers, name: Seq<char>) -> Headers
    decreases headers.len(),
{
    if headers.len() == 0 {
        headers
    } else if headers.last().0 == name {
        without(headers.drop_last(), name)
    } else {
        without(headers.drop_last(), name).push(headers.last())
    }
}

fn count_headers(headers: &Vec<(String, Vec<u8>)>, name: &str) -> (r: usize)
    ensures
        r == header_count(headers_of(headers@), name@),
{
    let ghost all = headers_of(headers@);
    let mut n: usize = 0;
    let mut i: usize = 0;
    assert(all.take(0).len() == 0);
    while i < headers.len()
        invariant
            i <= headers.len(),
            n <= i,
            all == headers_of(headers@),
            n == header_count(all.take(i as int), name@),
        decreases headers.len() - i,
    {
        assert(all.take(i + 1).drop_last() == all.take(i as int));
        assert(all.take(i + 1).last() == all[i as int]);
        if same(headers[i].0.as_str(), name) {
            n = n + 1;
        }
        i = i + 1;
    }
    assert(all.take(i as int) == all);
    n
}

fn find_header<'a>(headers: &'a Vec<(String, Vec<u8>)>, name: &str) -> (r: Option<&'a Vec<u8>>)
    ensures
        (match r {
            Some(v) => Some(v@),
            None => None,
        }) == header_from(headers_of(headers@), name@, 0),
{
    let ghost all = headers_of(headers@);
    let mut i: usize = 0;
    while i < headers.len()
        invariant
            i <= headers.len(),
            all == headers_of(headers@),
            header_from(all, name@, 0) == header_from(all, name@, i as int),
        decreases headers.len() - i,
    {
        if same(headers[i].0.as_str(), name) {
            return Some(&headers[i].1);
        }
        i = i + 1;
    }
    None
}

/// Takes the headers with a name out.
pub fn remove_header(headers: &mut Vec<(String, Vec<u8>)>, name: &str)
    ensures
        headers_of(final(headers)@) == without(headers_of(old(headers)@), name@),
{
    let ghost all = headers_of(headers@);
    let mut rest: Vec<(String, Vec<u8>)> = Vec::new();
    std::mem::swap(&mut rest, headers);
    let ghost mut i: int = 0;
    assert(headers_of(headers@) == without(all.take(0), name@));
    assert(headers_of(rest@) == all);
    while rest.len() > 0
        invariant
            0 <= i,
            i + rest.len() == all.len(),
            headers_of(rest@) == all.skip(i),
            headers_of(headers@) == without(all.take(i), name@),
        decreases rest.len(),
    {
        assert(all.take(i + 1).drop_last() == all.take(i));
        assert(all.take(i + 1).last() == all[i]);
        assert(all.skip(i)[0] == all[i]);
        let ghost before = headers_of(headers@);
        let ghost held = rest@;
        let header = rest.remove(0);
        assert(headers_of(held)[0] == (header.0@, header.1@));
        assert(headers_of(rest@) == all.skip(i + 1)) by {
            assert(headers_of(rest@) == headers_of(held).skip(1));
        }
        if !same(header.0.as_str(), name) {
            let ghost one = (header.0@, header.1@);
            headers.push(header);
            assert(headers_of(headers@) == before.push(one));
        }
        proof {
            i = i + 1;
        }
    }
    assert(all.take(i) == all);
}

/// The headers with one set: no other of that name is left.
pub open spec fn with_header(headers: Headers, name: Seq<char>, value: Seq<u8>) -> Headers {
    without(headers, name).push((name, value))
}

/// Sets a header.
pub fn set_header(headers: &mut Vec<(String, Vec<u8>)>, name: &str, value: Vec<u8>)
    ensures
        headers_of(final(headers)@) == with_header(headers_of(old(headers)@), name@, value@),
{
    remove_header(headers, name);
    let ghost before = headers_of(headers@);
    headers.push((owned(name), value));
    assert(headers_of(headers@) == before.push((name@, value@)));
}

/// Whether a byte of a header is a visible character of ASCII, a space or a tab.
pub open spec fn visible(b: u8) -> bool {
    32 <= b < 127 || b == 9
}

/// `http::HeaderValue::to_str` of the value that `http::HeaderValue::from_bytes` makes: where every
/// byte is visible, a space or a tab, the string with these bytes, and else nothing.
#[verifier::external_body]
fn header_text(value: &[u8]) -> (r: Option<String>)
    ensures
        r is Some <==> forall|i: int| 0 <= i < value@.len() ==> visible(#[trigger] value@[i]),
        r is Some ==> r->0@ == ascii_text(value@),
{
    let value = http::HeaderValue::from_bytes(value).ok()?;
    value.to_str().ok().map(String::from)
}

/// The string whose characters are some bytes.
pub open spec fn ascii_text(bytes: Seq<u8>) -> Seq<char> {
    bytes.map_values(|b: u8| b as char)
}

/// The text of a header, where it is visible ASCII.
pub open spec fn visible_text(value: Seq<u8>) -> Option<Seq<char>> {
    if forall|i: int| 0 <= i < value.len() ==> visible(#[trigger] value[i]) {
        Some(ascii_text(value))
    } else {
        None
    }
}

/// The token of a request, where its one authorization header has one.
pub open spec fn bearer_in(headers: Headers) -> Option<Seq<char>> {
    if header_count(headers, "authorization"@) != 1 {
        None
    } else {
        match header_from(headers, "authorization"@, 0) {
            None => None,
            Some(value) => match visible_text(value) {
                None => None,
                Some(text) => match after_prefix(text, "Bearer "@) {
                    None => None,
                    Some(token) => if token.len() > 0 && bytes_of(token) <= MAX_CREDENTIAL {
                        Some(token)
                    } else {
                        None
                    },
                },
            },
        }
    }
}

/// The token of a request, where its one authorization header has one.
pub fn bearer(req: &Request) -> (r: Result<String, CopilotError>)
    ensures
        match bearer_in(req@.headers) {
            Some(token) => r is Ok && r->Ok_0@ == token,
            None => r is Err && r->Err_0 == CopilotError::InvalidCredential,
        },
{
    if count_headers(&req.headers, "authorization") != 1 {
        return Err(CopilotError::InvalidCredential);
    }
    let value = match find_header(&req.headers, "authorization") {
        Some(value) => value,
        None => return Err(CopilotError::InvalidCredential),
    };
    let text = match header_text(value.as_slice()) {
        Some(text) => text,
        None => return Err(CopilotError::InvalidCredential),
    };
    match strip_prefix(text.as_str(), "Bearer ") {
        Some(token) => if blank(token) || byte_len(token) > MAX_CREDENTIAL {
            Err(CopilotError::InvalidCredential)
        } else {
            Ok(owned(token))
        },
        None => Err(CopilotError::InvalidCredential),
    }
}

/// Whether bytes stand at a place in others.
pub open spec fn stands(bytes: Seq<u8>, part: Seq<u8>, i: int) -> bool {
    0 <= i && i + part.len() <= bytes.len() && bytes.subrange(i, i + part.len()) == part
}

/// Whether bytes occur in others.
pub open spec fn occurs(bytes: Seq<u8>, part: Seq<u8>) -> bool {
    exists|i: int| #[trigger] stands(bytes, part, i)
}

fn stands_here(bytes: &Vec<u8>, part: &Vec<u8>, i: usize) -> (r: bool)
    requires
        i + part@.len() <= bytes@.len(),
    ensures
        r == stands(bytes@, part@, i as int),
{
    let ghost here = bytes@.subrange(i as int, i + part@.len());
    let n: usize = bytes.len();
    let mut k: usize = 0;
    while k < part.len()
        invariant
            n == bytes@.len(),
            k <= part.len(),
            i + part@.len() <= bytes@.len(),
            here == bytes@.subrange(i as int, i + part@.len()),
            forall|j: int| 0 <= j < k ==> here[j] == part@[j],
        decreases part.len() - k,
    {
        if bytes[i + k] != part[k] {
            assert(here[k as int] != part@[k as int]);
            return false;
        }
        k = k + 1;
    }
    assert(here == part@);
    true
}

fn contains_bytes(bytes: &Vec<u8>, part: &Vec<u8>) -> (r: bool)
    ensures
        r == occurs(bytes@, part@),
{
    if part.len() > bytes.len() {
        return false;
    }
    let mut i: usize = 0;
    while i <= bytes.len() - part.len()
        invariant
            part@.len() <= bytes@.len(),
            i <= bytes@.len() - part@.len() + 1,
            forall|k: int| 0 <= k < i ==> !#[trigger] stands(bytes@, part@, k),
        decreases bytes@.len() - part@.len() + 1 - i,
    {
        if stands_here(bytes, part, i) {
            return true;
        }
        if i == bytes.len() - part.len() {
            assert(forall|k: int| !#[trigger] stands(bytes@, part@, k));
            return false;
        }
        i = i + 1;
    }
    false
}

/// Whether the value of a header holds what credentials or the handles of logins start with.
pub open spec fn holds_prefix(value: Seq<u8>) -> bool {
    occurs(value, encode_utf8(ENVELOPE_PREFIX@)) || occurs(value, encode_utf8(TRANSACTION_PREFIX@))
}

/// Whether an authorization header holds what credentials or the handles of logins start with,
/// wherever in it that stands.
pub open spec fn bears_credential(headers: Headers) -> bool {
    exists|i: int|
        0 <= i < headers.len() && (#[trigger] headers[i]).0 == "authorization"@ && holds_prefix(
            headers[i].1,
        )
}

/// Whether an authorization header holds what credentials or the handles of logins start with. A
/// header that is not written as it should be counts too: the token in it could still be used.
pub fn has_copilot_bearer(req: &Request) -> (r: bool)
    ensures
        r == bears_credential(req@.headers),
{
    let envelope = ENVELOPE_PREFIX.as_bytes_vec();
    let transaction = TRANSACTION_PREFIX.as_bytes_vec();
    let ghost all = req@.headers;
    let mut i: usize = 0;
    while i < req.headers.len()
        invariant
            i <= req.headers.len(),
            all == headers_of(req.headers@),
            envelope@ == encode_utf8(ENVELOPE_PREFIX@),
            transaction@ == encode_utf8(TRANSACTION_PREFIX@),
            forall|k: int|
                0 <= k < i ==> !((#[trigger] all[k]).0 == "authorization"@ && holds_prefix(
                    all[k].1,
                )),
        decreases req.headers.len() - i,
    {
        let header = &req.headers[i];
        assert(all[i as int] == (header.0@, header.1@));
        if same(header.0.as_str(), "authorization") && (contains_bytes(&header.1, &envelope)
            || contains_bytes(&header.1, &transaction)) {
            return true;
        }
        i = i + 1;
    }
    false
}

/// A request as it is once its credential, if it bears one, is out of sight.
pub open spec fn protected(req: RequestView) -> RequestView {
    if bears_credential(req.headers) {
        RequestView {
            headers: without(req.headers, "authorization"@),
            captured: Some(bearer_in(req.headers)),
            ..req
        }
    } else {
        req
    }
}

/// Takes the credential of a request out of its headers, before anything else can see it. One
/// that is not written as it should be, or is one of several, is kept as a refusal: none is
/// picked.
pub fn protect_ingress_credential(req: &mut Request)
    ensures
        final(req)@ == protected(old(req)@),
{
    if has_copilot_bearer(req) {
        let token = match bearer(req) {
            Ok(token) => Some(token),
            Err(_) => None,
        };
        remove_header(&mut req.headers, "authorization");
        req.captured = Some(IngressCredential { token });
    }
}

/// Whether a path is one of those for logging in.
pub open spec fn login_path(path: Seq<char>) -> bool {
    path == "/login/start"@ || path == "/login/poll"@
}

/// Whether a request is to log in or bears a credential.
pub open spec fn sensitive(req: RequestView) -> bool {
    login_path(req.path) || req.captured is Some || bears_credential(req.headers)
}

/// Whether a request is to log in or bears a credential.
pub fn is_sensitive_request(req: &Request) -> (r: bool)
    ensures
        r == sensitive(req@),
{
    same(req.path.as_str(), "/login/start") || same(req.path.as_str(), "/login/poll")
        || req.captured.is_some() || has_copilot_bearer(req)
}

/// Whether a request came by a way on which its credential could not be read: over TLS, or from
/// the machine itself with nobody in between. What its headers say of that does not count.
pub open spec fn secure(req: RequestView) -> bool {
    req.tls || (req.tcp matches Some(tcp) && loopback(tcp.local) && loopback(tcp.peer)
        && tcp.raw_peer is None)
}

/// Whether a request came by a way on which its credential could not be read.
pub fn secure_transport(req: &Request) -> (r: bool)
    ensures
        r == secure(req@),
{
    if req.tls {
        return true;
    }
    match &req.tcp {
        Some(tcp) => tcp.local.is_loopback() && tcp.peer.is_loopback() && tcp.raw_peer.is_none(),
        None => false,
    }
}

/// A response that is made here. What is in it is never logged, nor kept by anyone on the way.
#[derive(Debug)]
pub struct LocalResponse {
    pub status: u16,
    pub content_type: &'static str,
    pub cache_control: &'static str,
    pub body: Json,
    /// Whether the body may not be captured.
    pub sensitive: bool,
}

/// Whether a response has a status and a body, and is marked as sensitive.
pub open spec fn says(r: LocalResponse, status: u16, body: JsonView) -> bool {
    r.status == status && r.body@ == body && r.content_type@ == "application/json"@
        && r.cache_control@ == "no-store"@ && r.sensitive
}

/// A response that is made here.
pub fn response(status: u16, body: Json) -> (r: LocalResponse)
    ensures
        says(r, status, body@),
{
    LocalResponse {
        status,
        content_type: "application/json",
        cache_control: "no-store",
        body,
        sensitive: true,
    }
}

impl LocalResponse {
    /// The body as it is sent.
    pub fn bytes(&self) -> (r: Vec<u8>)
        ensures
            r@ == encode_utf8(json_text(self.body@)),
    {
        self.body.to_bytes()
    }
}

/// A body that names an error.
pub open spec fn error_json(error: Seq<char>) -> JsonView {
    JsonView::object().with("error"@, JsonView::Text(error))
}

/// A response that names an error.
pub fn local_response(status: u16, error: &str) -> (r: LocalResponse)
    ensures
        says(r, status, error_json(error@)),
{
    response(status, Json::object().with("error", Json::text(error)))
}

/// What is to be done with a request.
pub enum Admission {
    /// It is answered right away.
    Answer(LocalResponse),
    /// A login is to be started.
    StartLogin,
    /// The login with this handle is to be polled.
    PollLogin(String),
    /// These bytes are to be unsealed, and what comes out decides.
    Open(Vec<u8>),
}

/// What is to be done with a request, as mathematics.
pub enum AdmissionView {
    Answer(u16, Seq<char>),
    StartLogin,
    PollLogin(Seq<char>),
    Open(Seq<u8>),
}

/// Whether what is done with a request is what is to be done.
pub open spec fn admits_as(a: Admission, due: AdmissionView) -> bool {
    match (a, due) {
        (Admission::Answer(r), AdmissionView::Answer(status, error)) => says(
            r,
            status,
            error_json(error),
        ),
        (Admission::StartLogin, AdmissionView::StartLogin) => true,
        (Admission::PollLogin(handle), AdmissionView::PollLogin(due)) => handle@ == due,
        (Admission::Open(bytes), AdmissionView::Open(due)) => bytes@ == due,
        _ => false,
    }
}

/// The credential that a request has: the one that was taken out of it, or the one in its header,
/// but not both.
pub open spec fn credential_of(req: RequestView) -> Option<Seq<char>> {
    match req.captured {
        Some(token) => if header_count(req.headers, "authorization"@) > 0 {
            None
        } else {
            token
        },
        None => bearer_in(req.headers),
    }
}

/// What is to be done with a request under a policy.
pub open spec fn admission(has_policy: bool, req: RequestView) -> AdmissionView {
    if !has_policy {
        AdmissionView::Answer(500, "invalid_copilot_configuration"@)
    } else if !secure(req) {
        AdmissionView::Answer(403, "secure_transport_required"@)
    } else if login_path(req.path) {
        if req.method != "POST"@ {
            AdmissionView::Answer(405, "login_requires_post"@)
        } else if header_count(req.headers, "origin"@) > 0 {
            AdmissionView::Answer(403, "login_helper_required"@)
        } else if req.path == "/login/start"@ {
            if req.captured is Some || header_count(req.headers, "authorization"@) > 0 {
                AdmissionView::Answer(401, "unexpected_login_credential"@)
            } else {
                AdmissionView::StartLogin
            }
        } else {
            match credential_of(req) {
                Some(handle) => AdmissionView::PollLogin(handle),
                None => AdmissionView::Answer(401, "invalid_login_transaction"@),
            }
        }
    } else {
        match credential_of(req) {
            None => AdmissionView::Answer(401, "invalid_or_expired_gateway_credential"@),
            Some(credential) => match sealed_in(credential) {
                Some(bytes) => AdmissionView::Open(bytes),
                None => AdmissionView::Answer(401, "invalid_or_expired_gateway_credential"@),
            },
        }
    }
}

/// A request without any credential: neither one from before nor one of its own.
pub open spec fn stripped(req: RequestView) -> RequestView {
    RequestView {
        headers: without(req.headers, "authorization"@),
        captured: None,
        verified: None,
        ..req
    }
}

/// A request that was let in, or how it is answered.
pub open spec fn entered(
    state: StateView,
    req: RequestView,
    plaintext: Option<Seq<u8>>,
    clock: Result<u64, CopilotError>,
) -> Result<RequestView, (u16, Seq<char>)> {
    match clock {
        Err(_) => Err((401, "invalid_or_expired_gateway_credential"@)),
        Ok(time) => match credential_opened(state, plaintext, time) {
            Ok(envelope) => Ok(
                RequestView { verified: Some(VerifiedView { state, envelope }), ..req },
            ),
            Err(CopilotError::AdmissionDenied) => Err((403, "user_not_allowed"@)),
            Err(_) => Err((401, "invalid_or_expired_gateway_credential"@)),
        },
    }
}

impl CopilotPolicy {
    /// Decides what is to be done with a request, and takes every credential out of it, so that
    /// nothing after this sees one.
    pub fn authenticate(&self, req: &mut Request) -> (r: Admission)
        ensures
            admits_as(r, admission(self.state is Some, old(req)@)),
            final(req)@ == stripped(old(req)@),
    {
        let ghost before = req@;
        req.verified = None;
        let headers = count_headers(&req.headers, "authorization");
        let origins = count_headers(&req.headers, "origin");
        let found = bearer(req);
        let mut captured: Option<IngressCredential> = None;
        std::mem::swap(&mut captured, &mut req.captured);
        let had_authorization = captured.is_some() || headers > 0;
        let credential = match captured {
            Some(c) => if headers > 0 {
                None
            } else {
                c.token
            },
            None => match found {
                Ok(token) => Some(token),
                Err(_) => None,
            },
        };
        assert(text_in(credential) == credential_of(before));
        remove_header(&mut req.headers, "authorization");
        if self.state.is_none() {
            return Admission::Answer(local_response(500, "invalid_copilot_configuration"));
        }
        if !secure_transport(req) {
            return Admission::Answer(local_response(403, "secure_transport_required"));
        }
        let start = same(req.path.as_str(), "/login/start");
        if start || same(req.path.as_str(), "/login/poll") {
            if !same(req.method.as_str(), "POST") {
                return Admission::Answer(local_response(405, "login_requires_post"));
            }
            if origins > 0 {
                return Admission::Answer(local_response(403, "login_helper_required"));
            }
            if start {
                if had_authorization {
                    return Admission::Answer(local_response(401, "unexpected_login_credential"));
                }
                return Admission::StartLogin;
            }
            return match credential {
                Some(handle) => Admission::PollLogin(handle),
                None => Admission::Answer(local_response(401, "invalid_login_transaction")),
            };
        }
        match credential {
            Some(credential) => match unframe(credential.as_str()) {
                Ok(bytes) => Admission::Open(bytes),
                Err(_) => Admission::Answer(
                    local_response(401, "invalid_or_expired_gateway_credential"),
                ),
            },
            None => Admission::Answer(
                local_response(401, "invalid_or_expired_gateway_credential"),
            ),
        }
    }
}

impl CopilotState {
    /// Lets a request in as the user of its credential, or says how it is answered. `plaintext` is
    /// what came of unsealing the credential, and `clock` is the time now.
    pub fn enter(
        &self,
        req: &mut Request,
        plaintext: Option<&[u8]>,
        clock: Result<u64, CopilotError>,
    ) -> (r: Option<LocalResponse>)
        ensures
            match entered(
                self@,
                old(req)@,
                match plaintext {
                    Some(bytes) => Some(bytes@),
                    None => None,
                },
                clock,
            ) {
                Ok(after) => r is None && final(req)@ == after,
                Err((status, error)) => r is Some && says(r->0, status, error_json(error))
                    && *final(req) == *old(req),
            },
    {
        let time: u64 = match clock {
            Ok(time) => time,
            Err(_) => return Some(local_response(401, "invalid_or_expired_gateway_credential")),
        };
        match self.open(plaintext, time) {
            Ok(envelope) => {
                req.verified = Some(Verified { state: self.copy(), envelope });
                None
            },
            Err(CopilotError::AdmissionDenied) => Some(local_response(403, "user_not_allowed")),
            Err(_) => Some(local_response(401, "invalid_or_expired_gateway_credential")),
        }
    }
}

/// Whether a request was let in as someone.
pub fn has_verified(req: &Request) -> (r: bool)
    ensures
        r == (req@.verified is Some),
{
    req.verified.is_some()
}

/// The token by which a request goes on upstream at a time, or why it does not.
pub open spec fn dispatch_token(req: RequestView, time: u64) -> Result<Seq<char>, CopilotError> {
    match req.verified {
        None => Err(CopilotError::VerifiedRequired),
        Some(v) => match credential_fault(v.state, v.envelope, time) {
            Some(fault) => Err(fault),
            None => Ok(v.envelope.upstream_token),
        },
    }
}

/// The token by which a request goes on upstream, with the time told by a clock.
pub open spec fn clocked_token(req: RequestView, clock: Result<u64, CopilotError>) -> Result<
    Seq<char>,
    CopilotError,
> {
    match clock {
        Err(e) => Err(e),
        Ok(time) => dispatch_token(req, time),
    }
}

/// Whether a token is what is due.
pub open spec fn token_is(r: Result<&str, CopilotError>, due: Result<Seq<char>, CopilotError>) -> bool {
    match due {
        Ok(token) => r is Ok && r->Ok_0@ == token,
        Err(e) => r is Err && r->Err_0 == e,
    }
}

/// The token by which a request goes on upstream at a time. The policy and the deadlines are
/// looked at anew whenever it does.
pub fn request_token_at<'a>(req: &'a Request, time: u64) -> (r: Result<&'a str, CopilotError>)
    ensures
        token_is(r, dispatch_token(req@, time)),
{
    match &req.verified {
        None => Err(CopilotError::VerifiedRequired),
        Some(v) => match v.state.validate(&v.envelope, time) {
            Ok(_) => Ok(v.envelope.upstream_token.as_str()),
            Err(e) => Err(e),
        },
    }
}

/// The token by which a request goes on upstream now.
pub fn request_token<'a>(req: &'a Request) -> (r: Result<&'a str, CopilotError>)
    ensures
        exists|nanos: Option<u128>| token_is(r, clocked_token(req@, #[trigger] stamped(nanos))),
{
    let clock = now();
    match clock {
        Ok(time) => request_token_at(req, time),
        Err(e) => Err(e),
    }
}

proof fn lemma_without(headers: Headers, name: Seq<char>, other: Seq<char>)
    ensures
        header_count(without(headers, name), name) == 0,
        other != name ==> header_count(without(headers, name), other) == header_count(
            headers,
            other,
        ),
        forall|i: int|
            0 <= i < without(headers, name).len() ==> (#[trigger] without(headers, name)[i]).0
                != name,
    decreases headers.len(),
{
    if headers.len() > 0 {
        lemma_without(headers.drop_last(), name, other);
        let rest = without(headers.drop_last(), name);
        if headers.last().0 != name {
            assert(rest.push(headers.last()).drop_last() == rest);
        }
    }
}

proof fn lemma_some_header(headers: Headers, name: Seq<char>, i: int)
    requires
        0 <= i < headers.len(),
        headers[i].0 == name,
    ensures
        header_count(headers, name) > 0,
    decreases headers.len(),
{
    if i < headers.len() - 1 {
        lemma_some_header(headers.drop_last(), name, i);
    }
}

/// Taking the credential of a request out of sight as it comes in does not change what is done
/// with it: it is let in, or refused, as it would have been.
pub proof fn lemma_protection_keeps_admission(has_policy: bool, req: RequestView)
    requires
        req.captured is None,
    ensures
        admission(has_policy, protected(req)) == admission(has_policy, req),
        sensitive(protected(req)) == sensitive(req),
{
    let h = req.headers;
    lemma_without(h, "authorization"@, "origin"@);
    reveal_strlit("authorization");
    reveal_strlit("origin");
    assert("authorization"@.len() == 13);
    assert("origin"@.len() == 6);
    if bears_credential(h) {
        let i = choose|i: int|
            0 <= i < h.len() && (#[trigger] h[i]).0 == "authorization"@ && holds_prefix(h[i].1);
        lemma_some_header(h, "authorization"@, i);
    }
}

/// A request shows no authorization header once its credential was taken out of sight, nor once
/// it was decided what is to be done with it; and that decision leaves nobody it was let in as.
pub proof fn lemma_credentials_are_out_of_sight(req: RequestView)
    ensures
        header_count(stripped(req).headers, "authorization"@) == 0,
        stripped(req).verified is None,
        bears_credential(req.headers) ==> header_count(protected(req).headers, "authorization"@)
            == 0,
        !bears_credential(protected(req).headers),
{
    lemma_without(req.headers, "authorization"@, "authorization"@);
}

/// A token goes upstream only with a credential that the policy takes at that very time.
pub proof fn lemma_dispatch_needs_valid_credential(req: RequestView, time: u64)
    ensures
        dispatch_token(req, time) is Ok <==> req.verified is Some && credential_fault(
            req.verified->0.state,
            req.verified->0.envelope,
            time,
        ) is None,
{
}

/// A request that was let in goes out with the token of the credential it came with, and with no
/// other, for as long as it goes out at all.
pub proof fn lemma_request_keeps_its_own_token(
    state: StateView,
    req: RequestView,
    plaintext: Option<Seq<u8>>,
    time: u64,
    later: u64,
)
    ensures
        match (
            credential_opened(state, plaintext, time),
            entered(state, req, plaintext, Ok(time)),
        ) {
            (Ok(e), Ok(after)) => {
                &&& dispatch_token(after, time) == Ok::<Seq<char>, CopilotError>(e.upstream_token)
                &&& dispatch_token(after, later) matches Ok(token) ==> token == e.upstream_token
            },
            (Err(_), Err(_)) => true,
            _ => false,
        },
{
}

} // verus!
