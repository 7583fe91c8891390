//! What holds of every request that comes in: who is let in and who is not, and with which token
//! it goes on.
use vstd::prelude::*;
use vstd::utf8::encode_utf8;

use crate::envelope::{envelope_written, EnvelopeView};
use crate::fault::CopilotError;
use crate::ingress::{
    admission, ascii_text, bearer_in, credential_of, dispatch_token, entered, header_count,
    header_from, visible, AdmissionView, Headers, IpAddress, RequestView,
};
use crate::json::{Fields, JsonView};
use crate::outgoing::{json_host_token, json_token_from, source_list, SourceView};
use crate::policy::{
    base64url_bytes, credential_fault, credential_made, policy_ttl, sealed_in, ConfigView,
    StateView,
};
use crate::text::trimmed;

verus! {

proof fn lemma_paths()
    ensures
        "/login/start"@ != "/login/poll"@,
{
    reveal_strlit("/login/start");
    reveal_strlit("/login/poll");
    assert("/login/start"@.len() == 12);
    assert("/login/poll"@.len() == 11);
}


/// Whether one header of a request, and no other, carries a token.
pub open spec fn bears(headers: Headers, k: int, token: Seq<char>) -> bool {
    &&& 0 <= k < headers.len()
    &&& headers[k].0 == "authorization"@
    &&& forall|i: int| 0 <= i < headers.len() && i != k ==> (#[trigger] headers[i]).0
        != "authorization"@
    &&& forall|i: int| 0 <= i < headers[k].1.len() ==> visible(#[trigger] headers[k].1[i])
    &&& ascii_text(headers[k].1) == "Bearer "@ + token
    &&& token.len() > 0
    &&& encode_utf8(token).len() <= 16384
}

proof fn lemma_count_zero(headers: Headers, name: Seq<char>)
    ensures
        header_count(headers, name) == 0 <==> forall|i: int|
            0 <= i < headers.len() ==> (#[trigger] headers[i]).0 != name,
    decreases headers.len(),
{
    if headers.len() > 0 {
        let front = headers.drop_last();
        lemma_count_zero(front, name);
        assert forall|i: int| 0 <= i < front.len() implies front[i] == headers[i] by {}
        if header_count(headers, name) == 0 {
            assert forall|i: int| 0 <= i < headers.len() implies (#[trigger] headers[i]).0 != name by {
                if i < front.len() {
                    assert(front[i].0 != name);
                }
            }
        } else {
            if headers.last().0 != name {
                let i = choose|i: int| 0 <= i < front.len() && (#[trigger] front[i]).0 == name;
                assert(headers[i].0 == name);
            } else {
                assert(headers[headers.len() - 1].0 == name);
            }
        }
    }
}

proof fn lemma_count_one(headers: Headers, name: Seq<char>)
    ensures
        header_count(headers, name) == 1 <==> exists|k: int| #[trigger] sole_header(
            headers,
            name,
            k,
        ),
    decreases headers.len(),
{
    if headers.len() > 0 {
        let front = headers.drop_last();
        let last = headers.len() - 1;
        lemma_count_one(front, name);
        lemma_count_zero(front, name);
        assert forall|i: int| 0 <= i < front.len() implies front[i] == headers[i] by {}
        if header_count(headers, name) == 1 {
            if headers.last().0 == name {
                assert forall|i: int| 0 <= i < headers.len() && i != last implies (
                #[trigger] headers[i]).0 != name by {
                    assert(front[i].0 != name);
                }
                assert(sole_header(headers, name, last));
            } else {
                let k = choose|k: int| #[trigger] sole_header(front, name, k);
                assert forall|i: int| 0 <= i < headers.len() && i != k implies (
                #[trigger] headers[i]).0 != name by {
                    if i < front.len() {
                        assert(front[i].0 != name);
                    }
                }
                assert(sole_header(headers, name, k));
            }
        }
        if exists|k: int| #[trigger] sole_header(headers, name, k) {
            let k = choose|k: int| #[trigger] sole_header(headers, name, k);
            if k == last {
                assert forall|i: int| 0 <= i < front.len() implies (#[trigger] front[i]).0 != name by {
                    assert(headers[i].0 != name);
                }
            } else {
                assert(headers[last].0 != name);
                assert forall|i: int| 0 <= i < front.len() && i != k implies (
                #[trigger] front[i]).0 != name by {
                    assert(headers[i].0 != name);
                }
                assert(sole_header(front, name, k));
            }
        }
    }
}

/// Whether a header has a name that no other has.
pub open spec fn sole_header(headers: Headers, name: Seq<char>, k: int) -> bool {
    0 <= k < headers.len() && headers[k].0 == name && forall|i: int|
        0 <= i < headers.len() && i != k ==> (#[trigger] headers[i]).0 != name
}

proof fn lemma_first_header(headers: Headers, name: Seq<char>, n: int, k: int)
    requires
        0 <= n <= k,
        sole_header(headers, name, k),
    ensures
        header_from(headers, name, n) == Some(headers[k].1),
    decreases k - n,
{
    if n < k {
        assert(headers[n].0 != name);
        lemma_first_header(headers, name, n + 1, k);
    }
}

/// A request has a token just where one header, and only one, carries it in full, and it is then
/// that token.
pub proof fn lemma_bearer(headers: Headers, token: Seq<char>)
    ensures
        bearer_in(headers) == Some(token) <==> exists|k: int| #[trigger] bears(headers, k, token),
{
    let name = "authorization"@;
    let head = "Bearer "@;
    lemma_count_one(headers, name);
    if bearer_in(headers) == Some(token) {
        let k = choose|k: int| #[trigger] sole_header(headers, name, k);
        lemma_first_header(headers, name, 0, k);
        let text = ascii_text(headers[k].1);
        assert(text == head + text.skip(head.len() as int));
        assert(bears(headers, k, token));
    }
    if exists|k: int| #[trigger] bears(headers, k, token) {
        let k = choose|k: int| #[trigger] bears(headers, k, token);
        assert(sole_header(headers, name, k));
        lemma_first_header(headers, name, 0, k);
        let text = ascii_text(headers[k].1);
        assert(head.is_prefix_of(text));
        assert(text.skip(head.len() as int) == token);
    }
}

/// Whether a machine reaches itself at an address.
pub open spec fn own_address(ip: IpAddress) -> bool {
    match ip {
        IpAddress::V4(a, _, _, _) => a == 127,
        IpAddress::V6(n) => n == 1,
    }
}

/// Whether nobody between the client and this machine can read a request.
pub open spec fn unread_on_the_way(req: RequestView) -> bool {
    req.tls || (req.tcp is Some && own_address(req.tcp->0.local) && own_address(req.tcp->0.peer)
        && req.tcp->0.raw_peer is None)
}

/// Whether no header has a name.
pub open spec fn no_header(headers: Headers, name: Seq<char>) -> bool {
    forall|i: int| 0 <= i < headers.len() ==> (#[trigger] headers[i]).0 != name
}

/// Who is let in, and how everyone else is answered. Nobody is without a policy or over a way on
/// which the request could be read. A login starts by a POST that no browser sent and that bears
/// no credential; it is polled by such a POST with its handle. All else needs a credential.
pub proof fn lemma_admission(has_policy: bool, req: RequestView)
    ensures
        ({
            let due = admission(has_policy, req);
            let open = has_policy && unread_on_the_way(req);
            let login = req.path == "/login/start"@ || req.path == "/login/poll"@;
            let posted = req.method == "POST"@ && no_header(req.headers, "origin"@);
            let bare = req.captured is None && no_header(req.headers, "authorization"@);
            &&& !has_policy ==> due == AdmissionView::Answer(500, "invalid_copilot_configuration"@)
            &&& has_policy && !open ==> due == AdmissionView::Answer(
                403,
                "secure_transport_required"@,
            )
            &&& open && login && req.method != "POST"@ ==> due == AdmissionView::Answer(
                405,
                "login_requires_post"@,
            )
            &&& open && login && req.method == "POST"@ && !posted ==> due == AdmissionView::Answer(
                403,
                "login_helper_required"@,
            )
            &&& open && login && posted && req.path == "/login/start"@ ==> due == (if bare {
                AdmissionView::StartLogin
            } else {
                AdmissionView::Answer(401, "unexpected_login_credential"@)
            })
            &&& open && login && posted && req.path == "/login/poll"@ ==> due == (
            match credential_of(req) {
                Some(handle) => AdmissionView::PollLogin(handle),
                None => AdmissionView::Answer(401, "invalid_login_transaction"@),
            })
            &&& open && !login ==> due == (match credential_of(req) {
                Some(credential) => match sealed_in(credential) {
                    Some(bytes) => AdmissionView::Open(bytes),
                    None => AdmissionView::Answer(401, "invalid_or_expired_gateway_credential"@),
                },
                None => AdmissionView::Answer(401, "invalid_or_expired_gateway_credential"@),
            })
        }),
{
    lemma_paths();
    lemma_count_zero(req.headers, "origin"@);
    lemma_count_zero(req.headers, "authorization"@);
}

/// The credential of a request is the one that was taken out of its headers, where one was and
/// none is left in them; and else the token that its headers carry.
pub proof fn lemma_credential_of_request(req: RequestView, token: Seq<char>)
    ensures
        req.captured is None ==> (credential_of(req) == Some(token) <==> exists|k: int| #[trigger]
            bears(req.headers, k, token)),
        req.captured is Some ==> (credential_of(req) == Some(token) <==> req.captured->0 == Some(
            token,
        ) && no_header(req.headers, "authorization"@)),
{
    lemma_bearer(req.headers, token);
    lemma_count_zero(req.headers, "authorization"@);
}

/// A credential carries sealed bytes where it is not too long, begins with its mark and goes on
/// with them.
pub proof fn lemma_sealed(credential: Seq<char>, rest: Seq<char>)
    ensures
        credential == "agw_cp1."@ + rest && encode_utf8(credential).len() <= 16384
            ==> sealed_in(credential) == base64url_bytes(rest),
        encode_utf8(credential).len() > 16384 ==> sealed_in(credential) is None,
        !"agw_cp1."@.is_prefix_of(credential) ==> sealed_in(credential) is None,
{
    let head = "agw_cp1."@;
    if credential == head + rest {
        assert(head.is_prefix_of(credential));
        assert(credential.skip(head.len() as int) == rest);
    }
}

/// Whether a credential is one that a policy takes: made here, for this policy, with a token of
/// visible ASCII, issued, not expired, of no longer life than allowed, and of a user that is
/// allowed.
pub open spec fn good_credential(s: StateView, e: EnvelopeView, time: u64) -> bool {
    &&& e.version == 1
    &&& e.issuer == "agentgateway"@
    &&& e.purpose == "agentgateway-copilot-user"@
    &&& e.audience == s.config.audience
    &&& e.policy_id == s.config.policy_id
    &&& 0 < e.upstream_token.len()
    &&& encode_utf8(e.upstream_token).len() <= 4096
    &&& forall|i: int|
        0 <= i < e.upstream_token.len() ==> '!' <= (#[trigger] e.upstream_token[i])
            && e.upstream_token[i] <= '~'
    &&& e.issued_at <= time
    &&& e.gateway_expires_at is Some ==> e.issued_at < e.gateway_expires_at->0 && time
        < e.gateway_expires_at->0
    &&& e.upstream_expires_at is Some ==> e.issued_at < e.upstream_expires_at->0 && time
        < e.upstream_expires_at->0
    &&& s.ttl is Some ==> e.gateway_expires_at is Some && e.gateway_expires_at->0 - e.issued_at
        <= s.ttl->0
    &&& exists|k: int|
        0 <= k < s.config.allowed_user_ids.len() && (#[trigger] s.config.allowed_user_ids[k])
            == e.user_id
}

/// A policy takes just the credentials that are good; and only of one that is good but for its
/// user does it say that the user is not allowed.
pub proof fn lemma_credential_fault(s: StateView, e: EnvelopeView, time: u64, other: EnvelopeView)
    ensures
        credential_fault(s, e, time) is None <==> good_credential(s, e, time),
        credential_fault(s, e, time) == Some(CopilotError::AdmissionDenied)
            && s.config.allowed_user_ids.contains(other.user_id) ==> good_credential(
            s,
            (EnvelopeView { user_id: other.user_id, ..e }),
            time,
        ),
{
    let ids = s.config.allowed_user_ids;
    if credential_fault(s, e, time) is None {
        assert(ids.contains(e.user_id));
        let k = choose|k: int| 0 <= k < ids.len() && ids[k] == e.user_id;
        assert(ids[k] == e.user_id);
        assert forall|i: int| 0 <= i < e.upstream_token.len() implies '!' <= (
        #[trigger] e.upstream_token[i]) && e.upstream_token[i] <= '~' by {
            assert(crate::policy::graphic(e.upstream_token[i]));
        }
    }
    if good_credential(s, e, time) {
        assert(ids.contains(e.user_id));
        assert forall|i: int| 0 <= i < e.upstream_token.len() implies crate::policy::graphic(
            #[trigger] e.upstream_token[i],
        ) by {}
    }
    if credential_fault(s, e, time) == Some(CopilotError::AdmissionDenied) && ids.contains(
        other.user_id,
    ) {
        let changed = EnvelopeView { user_id: other.user_id, ..e };
        let k = choose|k: int| 0 <= k < ids.len() && ids[k] == other.user_id;
        assert(ids[k] == changed.user_id);
        assert forall|i: int| 0 <= i < e.upstream_token.len() implies '!' <= (
        #[trigger] e.upstream_token[i]) && e.upstream_token[i] <= '~' by {
            assert(crate::policy::graphic(e.upstream_token[i]));
        }
    }
}

/// A request is let in just where the clock can be read and its credential holds a good one, and
/// then as the user of that credential, with all else as it was. One whose user is not allowed is
/// answered 403, every other 401.
pub proof fn lemma_entered(
    state: StateView,
    req: RequestView,
    plaintext: Option<Seq<u8>>,
    clock: Result<u64, CopilotError>,
)
    ensures
        match entered(state, req, plaintext, clock) {
            Ok(after) => {
                &&& clock is Ok
                &&& plaintext is Some
                &&& envelope_written(plaintext->0) is Some
                &&& good_credential(state, envelope_written(plaintext->0)->0, clock->Ok_0)
                &&& after.verified is Some
                &&& after.verified->0.state == state
                &&& after.verified->0.envelope == envelope_written(plaintext->0)->0
                &&& after == (RequestView { verified: after.verified, ..req })
            },
            Err((status, error)) => {
                &&& !(clock is Ok && plaintext is Some && envelope_written(plaintext->0) is Some
                    && good_credential(state, envelope_written(plaintext->0)->0, clock->Ok_0))
                &&& status == 403 && error == "user_not_allowed"@ || status == 401 && error
                    == "invalid_or_expired_gateway_credential"@
                &&& status == 403 ==> clock is Ok && plaintext is Some && envelope_written(
                    plaintext->0,
                ) is Some && !state.config.allowed_user_ids.contains(
                    envelope_written(plaintext->0)->0.user_id,
                )
            },
        },
{
    if clock is Ok && plaintext is Some && envelope_written(plaintext->0) is Some {
        let e = envelope_written(plaintext->0)->0;
        lemma_credential_fault(state, e, clock->Ok_0, e);
    }
}

/// A credential that a policy makes is good when it is made, says who it is for, carries the token
/// and the deadline of the upstream, and expires as the policy says.
pub proof fn lemma_credential_made(
    s: StateView,
    user_id: u64,
    token: Seq<char>,
    upstream_expires_at: Option<u64>,
    time: u64,
)
    ensures
        credential_made(s, user_id, token, upstream_expires_at, time) matches Ok(e) ==> {
            &&& good_credential(s, e, time)
            &&& e.user_id == user_id
            &&& e.upstream_token == token
            &&& e.upstream_expires_at == upstream_expires_at
            &&& e.issued_at == time
            &&& s.ttl is None ==> e.gateway_expires_at is None
            &&& s.ttl is Some ==> e.gateway_expires_at is Some && e.gateway_expires_at->0 == time
                + s.ttl->0
        },
{
    match credential_made(s, user_id, token, upstream_expires_at, time) {
        Ok(e) => {
            lemma_credential_fault(s, e, time, e);
        },
        _ => {},
    }
}

/// A request that goes on does so with the token of the credential by which it was let in, and
/// only while that is good.
pub proof fn lemma_token_of_request(req: RequestView, time: u64)
    ensures
        match dispatch_token(req, time) {
            Ok(token) => req.verified is Some && good_credential(
                req.verified->0.state,
                req.verified->0.envelope,
                time,
            ) && token == req.verified->0.envelope.upstream_token,
            Err(e) => req.verified is None && e == CopilotError::VerifiedRequired
                || req.verified is Some && !good_credential(
                req.verified->0.state,
                req.verified->0.envelope,
                time,
            ),
        },
{
    if req.verified is Some {
        let e = req.verified->0.envelope;
        lemma_credential_fault(req.verified->0.state, e, time, e);
    }
}

/// A configuration is one of a policy where its names say something and are not too long, its
/// users are between 1 and 4096 and not 0, its credentials either have a life that the clock can
/// tell or are said not to expire, and its key has 32 bytes.
pub proof fn lemma_policy(config: ConfigView, key_length: nat, clock: Result<u64, CopilotError>)
    ensures
        policy_ttl(config, key_length, clock) is Ok <==> {
            &&& trimmed(config.client_id).len() > 0
            &&& encode_utf8(config.client_id).len() <= 1024
            &&& trimmed(config.audience).len() > 0
            &&& encode_utf8(config.audience).len() <= 2048
            &&& trimmed(config.policy_id).len() > 0
            &&& encode_utf8(config.policy_id).len() <= 2048
            &&& 1 <= config.allowed_user_ids.len() <= 4096
            &&& forall|i: int|
                0 <= i < config.allowed_user_ids.len() ==> (#[trigger] config.allowed_user_ids[i])
                    != 0
            &&& key_length == 32
            &&& {
                ||| config.credential_ttl is None && config.disable_expiry == Some(true)
                ||| config.credential_ttl is Some && config.disable_expiry is None
                    && config.credential_ttl->0 > 0 && clock is Ok && clock->Ok_0
                    + config.credential_ttl->0 <= u64::MAX
            }
        },
        policy_ttl(config, key_length, clock) matches Ok(ttl) ==> (ttl is Some <==>
            config.credential_ttl is Some) && (ttl is Some ==> ttl->0
            == config.credential_ttl->0),
{
}

/// The token that is found in a file is that of the first host of the domain that has one, without
/// the white space around it.
pub proof fn lemma_file_token(o: Fields, domain: Seq<char>, n: int)
    requires
        0 <= n <= o.len(),
    ensures
        match json_token_from(o, domain, n) {
            Some(token) => token.len() > 0 && exists|k: int|
                n <= k < o.len() && #[trigger] host_token(o, domain, k) == Some(token) && forall|
                    j: int,
                |
                    n <= j < k ==> (#[trigger] host_token(o, domain, j)) is None,
            None => forall|k: int|
                n <= k < o.len() ==> (#[trigger] host_token(o, domain, k)) is None,
        },
    decreases o.len() - n,
{
    if n < o.len() {
        lemma_file_token(o, domain, n + 1);
        if host_token(o, domain, n) is Some {
            assert(host_token(o, domain, n) == json_host_token(o[n].1));
        } else {
            match json_token_from(o, domain, n) {
                Some(token) => {
                    let k = choose|k: int|
                        n + 1 <= k < o.len() && #[trigger] host_token(o, domain, k) == Some(token)
                            && forall|j: int|
                            n + 1 <= j < k ==> (#[trigger] host_token(o, domain, j)) is None;
                    assert(host_token(o, domain, k) == Some(token));
                },
                None => {},
            }
        }
    }
}

/// The token of a host, where it is one of the domain and has one that is not blank.
pub open spec fn host_token(o: Fields, domain: Seq<char>, k: int) -> Option<Seq<char>> {
    match o[k].1.get("oauth_token"@) {
        Some(JsonView::Text(s)) => if domain.is_prefix_of(o[k].0) && trimmed(s).len() > 0 {
            Some(trimmed(s))
        } else {
            None
        },
        _ => None,
    }
}

/// A token is looked for in two variables, and then in three files where their place is known.
pub proof fn lemma_sources(config_known: bool)
    ensures
        source_list(config_known).len() == (if config_known {
            5int
        } else {
            2int
        }),
        source_list(config_known)[0] == SourceView::Variable("GH_COPILOT_TOKEN"@),
        source_list(config_known)[1] == SourceView::Variable("COPILOT_GITHUB_TOKEN"@),
        config_known ==> source_list(config_known)[2] == SourceView::Json(
            seq!["github-copilot", "hosts.json"],
        ) && source_list(config_known)[3] == SourceView::Json(
            seq!["github-copilot", "apps.json"],
        ) && source_list(config_known)[4] == SourceView::Yaml(seq!["gh", "hosts.yml"]),
{
}

} // verus!
