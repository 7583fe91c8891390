//! Requests that go out: the token they carry, and where it comes from.
use vstd::prelude::*;
use vstd::utf8::encode_utf8;

use crate::codec::parsed;
use crate::envelope::{now, stamped};
use crate::fault::CopilotError;
use crate::ingress::{
    clocked_token, request_token_at, set_header, with_header, without, Headers, Request,
    RequestView,
};
use crate::json::{Fields, Json, JsonView};
use crate::text::{begins_with, blank, join, owned, text_of, trim, trimmed};
use crate::yaml::{
    field_value, parse_yaml, plain, text_value, untagged, yaml_entries, yaml_get, yaml_parsed,
    yaml_text, yaml_view, YamlNode, YamlView,
};

verus! {

/// Why a request cannot go out.
#[derive(Debug, Clone, Copy, PartialEq, Eq, Structural)]
pub enum BackendAuthError {
    /// The client has no credential that is taken.
    ClientCredential(CopilotError),
    /// Something is amiss here.
    Local(CopilotError),
}

/// Whether a byte may stand in a header.
pub open spec fn header_byte(b: u8) -> bool {
    (b >= 32 && b != 127) || b == 9
}

/// Whether a string may be the value of a header.
pub open spec fn header_ok(text: Seq<char>) -> bool {
    forall|i: int| 0 <= i < encode_utf8(text).len() ==> header_byte(#[trigger] encode_utf8(text)[i])
}

/// `http::HeaderValue::from_str`, then `as_bytes` of the result: the bytes of the string, where
/// none of them is a control character other than a tab.
#[verifier::external_body]
fn header_value(text: &str) -> (r: Option<Vec<u8>>)
    ensures
        r is Some <==> header_ok(text@),
        r is Some ==> r->0@ == encode_utf8(text@),
{
    http::HeaderValue::from_str(text).ok().map(|v| v.as_bytes().to_vec())
}

/// The headers of a request that goes out with a token.
pub open spec fn outgoing_headers(h: Headers, token: Seq<char>, editor: Seq<char>) -> Headers {
    let h = with_header(h, "authorization"@, encode_utf8("Bearer "@ + token));
    let h = with_header(h, "content-type"@, encode_utf8("application/json"@));
    let h = with_header(h, "editor-version"@, encode_utf8(editor));
    let h = with_header(h, "x-github-api-version"@, encode_utf8("2025-10-01"@));
    let h = with_header(h, "x-initiator"@, encode_utf8("agent"@));
    let h = with_header(h, "x-interaction-type"@, encode_utf8("conversation-agent"@));
    with_header(h, "openai-intent"@, encode_utf8("conversation-agent"@))
}

/// Sets the headers by which a request goes out with a token. `editor` names the gateway and its
/// version. Where the token cannot stand in a header, nothing changes.
pub fn insert_token_headers(req: &mut Request, token: &str, editor: &str) -> (r: Result<
    (),
    CopilotError,
>)
    ensures
        if header_ok("Bearer "@ + token@) {
            r is Ok && final(req)@ == (RequestView {
                headers: outgoing_headers(old(req)@.headers, token@, editor@),
                ..old(req)@
            })
        } else {
            r is Err && r->Err_0 == CopilotError::HeaderValue && *final(req) == *old(req)
        },
{
    let auth = join("Bearer ", token);
    let auth = match header_value(auth.as_str()) {
        Some(auth) => auth,
        None => return Err(CopilotError::HeaderValue),
    };
    set_header(&mut req.headers, "authorization", auth);
    set_header(&mut req.headers, "content-type", "application/json".as_bytes_vec());
    set_header(&mut req.headers, "editor-version", editor.as_bytes_vec());
    set_header(&mut req.headers, "x-github-api-version", "2025-10-01".as_bytes_vec());
    set_header(&mut req.headers, "x-initiator", "agent".as_bytes_vec());
    set_header(&mut req.headers, "x-interaction-type", "conversation-agent".as_bytes_vec());
    set_header(&mut req.headers, "openai-intent", "conversation-agent".as_bytes_vec());
    Ok(())
}

/// The values of the headers with a name, in order.
pub open spec fn values_of(h: Headers, name: Seq<char>) -> Seq<Seq<u8>>
    decreases h.len(),
{
    if h.len() == 0 {
        Seq::empty()
    } else if h.last().0 == name {
        values_of(h.drop_last(), name).push(h.last().1)
    } else {
        values_of(h.drop_last(), name)
    }
}

proof fn lemma_values_without(h: Headers, name: Seq<char>, other: Seq<char>)
    ensures
        values_of(without(h, name), other) == (if other == name {
            Seq::empty()
        } else {
            values_of(h, other)
        }),
    decreases h.len(),
{
    if h.len() > 0 {
        lemma_values_without(h.drop_last(), name, other);
        let rest = without(h.drop_last(), name);
        assert(rest.push(h.last()).drop_last() == rest);
    }
}

proof fn lemma_values_with(h: Headers, name: Seq<char>, value: Seq<u8>, other: Seq<char>)
    ensures
        values_of(with_header(h, name, value), other) == (if other == name {
            seq![value]
        } else {
            values_of(h, other)
        }),
{
    lemma_values_without(h, name, other);
    let rest = without(h, name);
    assert(with_header(h, name, value) == rest.push((name, value)));
    assert(rest.push((name, value)).drop_last() == rest);
    assert(Seq::<Seq<u8>>::empty().push(value) == seq![value]);
}

proof fn lemma_header_names_differ()
    ensures
        "authorization"@.len() == 13,
        "content-type"@.len() == 12,
        "editor-version"@.len() == 14,
        "x-github-api-version"@.len() == 20,
        "x-initiator"@.len() == 11,
        "x-interaction-type"@.len() == 18,
        "openai-intent"@.len() == 13,
        "authorization"@ != "openai-intent"@,
{
    reveal_strlit("authorization");
    reveal_strlit("content-type");
    reveal_strlit("editor-version");
    reveal_strlit("x-github-api-version");
    reveal_strlit("x-initiator");
    reveal_strlit("x-interaction-type");
    reveal_strlit("openai-intent");
    assert("authorization"@[0] == 'a');
    assert("openai-intent"@[0] == 'o');
}

/// A request that goes out carries its token once, whatever it carried before, and says once what
/// it is; its other headers are as they were.
pub proof fn lemma_token_goes_out_once(
    h: Headers,
    token: Seq<char>,
    editor: Seq<char>,
    other: Seq<char>,
)
    ensures
        ({
            let out = outgoing_headers(h, token, editor);
            &&& values_of(out, "authorization"@) == seq![encode_utf8("Bearer "@ + token)]
            &&& values_of(out, "content-type"@) == seq![encode_utf8("application/json"@)]
            &&& values_of(out, "editor-version"@) == seq![encode_utf8(editor)]
            &&& values_of(out, "x-github-api-version"@) == seq![encode_utf8("2025-10-01"@)]
            &&& values_of(out, "x-initiator"@) == seq![encode_utf8("agent"@)]
            &&& values_of(out, "x-interaction-type"@) == seq![
                encode_utf8("conversation-agent"@),
            ]
            &&& values_of(out, "openai-intent"@) == seq![encode_utf8("conversation-agent"@)]
            &&& other != "authorization"@ && other != "content-type"@ && other != "editor-version"@
                && other != "x-github-api-version"@ && other != "x-initiator"@ && other
                != "x-interaction-type"@ && other != "openai-intent"@ ==> values_of(out, other)
                == values_of(h, other)
        }),
{
    lemma_header_names_differ();
    assert forall|g: Headers, name: Seq<char>, value: Seq<u8>, m: Seq<char>|
        #[trigger] values_of(with_header(g, name, value), m) == (if m == name {
            seq![value]
        } else {
            values_of(g, m)
        }) by {
        lemma_values_with(g, name, value, m);
    }
}

/// A request as it goes out for its user, or why it does not.
pub open spec fn sent_for_user(
    req: RequestView,
    clock: Result<u64, CopilotError>,
    editor: Seq<char>,
) -> Result<RequestView, BackendAuthError> {
    match clocked_token(req, clock) {
        Err(e) => Err(BackendAuthError::ClientCredential(e)),
        Ok(token) => if header_ok("Bearer "@ + token) {
            Ok(RequestView { headers: outgoing_headers(req.headers, token, editor), ..req })
        } else {
            Err(BackendAuthError::Local(CopilotError::HeaderValue))
        },
    }
}

/// Whether a request is as it goes out for its user, or else as it was.
pub open spec fn user_headers_set(
    before: Request,
    after: Request,
    clock: Result<u64, CopilotError>,
    editor: Seq<char>,
    r: Result<(), BackendAuthError>,
) -> bool {
    match sent_for_user(before@, clock, editor) {
        Ok(sent) => r is Ok && after@ == sent,
        Err(e) => r is Err && r->Err_0 == e && after == before,
    }
}

/// Sets the headers by which a request goes out with the token of the user it was let in as, at
/// a time that a clock tells.
pub fn insert_user_headers_at(
    req: &mut Request,
    clock: Result<u64, CopilotError>,
    editor: &str,
) -> (r: Result<(), BackendAuthError>)
    ensures
        user_headers_set(*old(req), *final(req), clock, editor@, r),
{
    let token = match clock {
        Ok(time) => match request_token_at(req, time) {
            Ok(token) => owned(token),
            Err(e) => return Err(BackendAuthError::ClientCredential(e)),
        },
        Err(e) => return Err(BackendAuthError::ClientCredential(e)),
    };
    match insert_token_headers(req, token.as_str(), editor) {
        Ok(_) => Ok(()),
        Err(e) => Err(BackendAuthError::Local(e)),
    }
}

/// Sets the headers by which a request goes out with the token of the user it was let in as, now.
pub fn insert_user_headers(req: &mut Request, editor: &str) -> (r: Result<(), BackendAuthError>)
    ensures
        exists|nanos: Option<u128>|
            user_headers_set(*old(req), *final(req), #[trigger] stamped(nanos), editor@, r),
{
    let clock = now();
    insert_user_headers_at(req, clock, editor)
}

/// A string without the white space around it, where anything is left of it.
pub open spec fn trimmed_token(s: Seq<char>) -> Option<Seq<char>> {
    if trimmed(s).len() > 0 {
        Some(trimmed(s))
    } else {
        None
    }
}

/// A string without the white space around it, where anything is left of it.
pub fn nonempty_trimmed<'a>(value: &'a str) -> (r: Option<&'a str>)
    ensures
        text_of(r) == trimmed_token(value@),
{
    let value = trim(value);
    if blank(value) {
        None
    } else {
        Some(value)
    }
}

/// The token of a host in a JSON file.
pub open spec fn json_host_token(v: JsonView) -> Option<Seq<char>> {
    match v.text_at("oauth_token"@) {
        Some(s) => trimmed_token(s),
        None => None,
    }
}

/// The token of the first host, from the `n`th on, whose name starts with a domain and that has
/// one.
pub open spec fn json_token_from(o: Fields, domain: Seq<char>, n: int) -> Option<Seq<char>>
    decreases o.len() - n,
{
    if n < 0 || n >= o.len() {
        None
    } else if domain.is_prefix_of(o[n].0) && json_host_token(o[n].1) is Some {
        json_host_token(o[n].1)
    } else {
        json_token_from(o, domain, n + 1)
    }
}

/// The token of a domain in a JSON file.
pub open spec fn json_token(contents: Seq<char>, domain: Seq<char>) -> Option<Seq<char>> {
    match parsed(encode_utf8(contents)) {
        Some(JsonView::Object(o)) => json_token_from(o, domain, 0),
        _ => None,
    }
}

/// The token of a domain in a JSON value.
pub fn find_json_token(v: &Json, domain: &str) -> (r: Option<String>)
    ensures
        (match r {
            Some(s) => Some(s@),
            None => None,
        }) == (match v@ {
            JsonView::Object(o) => json_token_from(o, domain@, 0),
            _ => None,
        }),
{
    let object = match v {
        Json::Object(object) => object,
        _ => return None,
    };
    let mut i: usize = 0;
    while i < object.len()
        invariant
            i <= object@.len(),
            v@ == JsonView::Object(object@),
            json_token_from(object@, domain@, 0) == json_token_from(object@, domain@, i as int),
        decreases object@.len() - i,
    {
        if begins_with(object.name(i), domain) {
            match object.value(i).text_at("oauth_token") {
                Some(s) => match nonempty_trimmed(s) {
                    Some(token) => return Some(owned(token)),
                    None => {},
                },
                None => {},
            }
        }
        i = i + 1;
    }
    None
}

/// The token of a domain in a JSON file.
pub fn extract_json_oauth_token(contents: &str, domain: &str) -> (r: Option<String>)
    ensures
        (match r {
            Some(s) => Some(s@),
            None => None,
        }) == json_token(contents@, domain@),
{
    match Json::parse(contents.as_bytes_vec().as_slice()) {
        Some(v) => find_json_token(&v, domain),
        None => None,
    }
}

/// The token of a host in a YAML file.
pub open spec fn yaml_host_token(v: YamlView) -> Option<Seq<char>> {
    match yaml_get(v, "oauth_token"@) {
        Some(token) => match yaml_text(token) {
            Some(s) => trimmed_token(s),
            None => None,
        },
        None => None,
    }
}

/// The token of the first host, from the `n`th on, whose name starts with a domain and that has
/// one.
pub open spec fn yaml_token_from(
    entries: Seq<(YamlView, YamlView)>,
    domain: Seq<char>,
    n: int,
) -> Option<Seq<char>>
    decreases entries.len() - n,
{
    if n < 0 || n >= entries.len() {
        None
    } else if yaml_text(entries[n].0) matches Some(key) && domain.is_prefix_of(key) && yaml_host_token(
        entries[n].1,
    ) is Some {
        yaml_host_token(entries[n].1)
    } else {
        yaml_token_from(entries, domain, n + 1)
    }
}

/// The token of a domain in a YAML value.
pub open spec fn yaml_token_in(v: YamlView, domain: Seq<char>) -> Option<Seq<char>> {
    match untagged(v) {
        YamlView::Mapping(entries) => yaml_token_from(entries, domain, 0),
        _ => None,
    }
}

/// The token of a domain in a YAML file.
pub open spec fn yaml_token(contents: Seq<char>, domain: Seq<char>) -> Option<Seq<char>> {
    match yaml_parsed(contents) {
        Some(v) => yaml_token_in(v, domain),
        None => None,
    }
}

fn host_token(v: serde_yaml::Value) -> (r: Option<String>)
    ensures
        (match r {
            Some(s) => Some(s@),
            None => None,
        }) == yaml_host_token(yaml_view(v)),
{
    match field_value(v, "oauth_token") {
        Some(token) => match text_value(token) {
            Some(s) => match nonempty_trimmed(s.as_str()) {
                Some(token) => Some(owned(token)),
                None => None,
            },
            None => None,
        },
        None => None,
    }
}

/// The token of a domain in a YAML value.
pub fn find_yaml_token(v: serde_yaml::Value, domain: &str) -> (r: Option<String>)
    ensures
        (match r {
            Some(s) => Some(s@),
            None => None,
        }) == yaml_token_in(yaml_view(v), domain@),
{
    let entries = match plain(v) {
        YamlNode::Mapping(entries) => entries,
        _ => return None,
    };
    let ghost all = yaml_entries(entries@);
    let mut rest = entries;
    let ghost mut i: int = 0;
    assert(all == all.skip(0));
    while rest.len() > 0
        invariant
            0 <= i,
            i + rest.len() == all.len(),
            yaml_entries(rest@) == all.skip(i),
            yaml_token_from(all, domain@, 0) == yaml_token_from(all, domain@, i),
            untagged(yaml_view(v)) == YamlView::Mapping(all),
        decreases rest.len(),
    {
        let ghost held = rest@;
        assert(yaml_entries(held)[0] == all.skip(i)[0]);
        let (key, value) = rest.remove(0);
        assert(all[i] == (yaml_view(key), yaml_view(value)));
        assert(yaml_entries(rest@) == all.skip(i + 1)) by {
            assert(yaml_entries(rest@) == yaml_entries(held).skip(1));
        }
        match text_value(key) {
            Some(key) => if begins_with(key.as_str(), domain) {
                match host_token(value) {
                    Some(token) => return Some(token),
                    None => {},
                }
            },
            None => {},
        }
        proof {
            i = i + 1;
        }
    }
    None
}

/// The token of a domain in a YAML file.
pub fn extract_yaml_oauth_token(contents: &str, domain: &str) -> (r: Option<String>)
    ensures
        (match r {
            Some(s) => Some(s@),
            None => None,
        }) == yaml_token(contents@, domain@),
{
    match parse_yaml(contents) {
        Some(v) => find_yaml_token(v, domain),
        None => None,
    }
}

/// The host whose token is looked for.
pub const DOMAIN: &'static str = "github.com";

/// Where a token may be found.
#[derive(Debug)]
pub enum TokenSource {
    /// In a variable of the environment.
    Variable(&'static str),
    /// In a JSON file, by its path below the directory for configurations.
    Json(Vec<&'static str>),
    /// In a YAML file, by its path below the directory for configurations.
    Yaml(Vec<&'static str>),
}

/// The directory for configurations: the one that the user names, or else the one of the
/// platform, or else the one in the user's home.
pub fn config_dir<P>(named: Option<P>, platform: Option<P>, in_home: Option<P>) -> (r: Option<P>)
    ensures
        r == (if named is Some {
            named
        } else if platform is Some {
            platform
        } else {
            in_home
        }),
{
    match named {
        Some(dir) => Some(dir),
        None => match platform {
            Some(dir) => Some(dir),
            None => in_home,
        },
    }
}

/// The directory for configurations that the platform names: Windows does, others do not.
pub fn platform_config_dir<P>(windows: bool, app_data: Option<P>) -> (r: Option<P>)
    ensures
        r == (if windows {
            app_data
        } else {
            None
        }),
{
    if windows {
        app_data
    } else {
        None
    }
}

pub open spec fn copilot_paths() -> Seq<Seq<&'static str>> {
    seq![seq!["github-copilot", "hosts.json"], seq!["github-copilot", "apps.json"]]
}

pub open spec fn gh_paths() -> Seq<Seq<&'static str>> {
    seq![seq!["gh", "hosts.yml"]]
}

pub open spec fn path_views(paths: Seq<Vec<&'static str>>) -> Seq<Seq<&'static str>> {
    paths.map_values(|p: Vec<&'static str>| p@)
}

/// The files of Copilot, by their paths below the directory for configurations, where that is
/// known.
pub fn copilot_config_paths(known: bool) -> (r: Vec<Vec<&'static str>>)
    ensures
        path_views(r@) == (if known {
            copilot_paths()
        } else {
            Seq::empty()
        }),
{
    let mut paths: Vec<Vec<&'static str>> = Vec::new();
    if known {
        let hosts = vec!["github-copilot", "hosts.json"];
        let apps = vec!["github-copilot", "apps.json"];
        assert(hosts@ == copilot_paths()[0]);
        assert(apps@ == copilot_paths()[1]);
        paths.push(hosts);
        paths.push(apps);
        assert(path_views(paths@) == copilot_paths());
    } else {
        assert(path_views(paths@) == Seq::<Seq<&'static str>>::empty());
    }
    paths
}

/// The files of the GitHub CLI, by their paths below the directory for configurations, where that
/// is known.
pub fn gh_config_paths(known: bool) -> (r: Vec<Vec<&'static str>>)
    ensures
        path_views(r@) == (if known {
            gh_paths()
        } else {
            Seq::empty()
        }),
{
    let mut paths: Vec<Vec<&'static str>> = Vec::new();
    if known {
        let hosts = vec!["gh", "hosts.yml"];
        assert(hosts@ == gh_paths()[0]);
        paths.push(hosts);
        assert(path_views(paths@) == gh_paths());
    } else {
        assert(path_views(paths@) == Seq::<Seq<&'static str>>::empty());
    }
    paths
}

/// Where a token may be found, as mathematics.
pub enum SourceView {
    Variable(Seq<char>),
    Json(Seq<&'static str>),
    Yaml(Seq<&'static str>),
}

impl View for TokenSource {
    type V = SourceView;

    open spec fn view(&self) -> SourceView {
        match self {
            TokenSource::Variable(name) => SourceView::Variable(name@),
            TokenSource::Json(path) => SourceView::Json(path@),
            TokenSource::Yaml(path) => SourceView::Yaml(path@),
        }
    }
}

pub open spec fn source_views(sources: Seq<TokenSource>) -> Seq<SourceView> {
    sources.map_values(|s: TokenSource| s@)
}

/// Where a token is looked for, in order: in the environment, then in the files of Copilot, then
/// in those of the GitHub CLI.
pub open spec fn source_list(config_known: bool) -> Seq<SourceView> {
    let variables = seq![
        SourceView::Variable("GH_COPILOT_TOKEN"@),
        SourceView::Variable("COPILOT_GITHUB_TOKEN"@),
    ];
    if config_known {
        variables + seq![
            SourceView::Json(copilot_paths()[0]),
            SourceView::Json(copilot_paths()[1]),
            SourceView::Yaml(gh_paths()[0]),
        ]
    } else {
        variables
    }
}

/// Where a token is looked for, in order.
pub fn token_sources(config_known: bool) -> (r: Vec<TokenSource>)
    ensures
        source_views(r@) == source_list(config_known),
{
    let mut sources: Vec<TokenSource> = Vec::new();
    sources.push(TokenSource::Variable("GH_COPILOT_TOKEN"));
    sources.push(TokenSource::Variable("COPILOT_GITHUB_TOKEN"));
    let ghost variables = source_views(sources@);
    let mut copilot = copilot_config_paths(config_known);
    let mut gh = gh_config_paths(config_known);
    assert(copilot@.len() == path_views(copilot@).len());
    assert(gh@.len() == path_views(gh@).len());
    if config_known {
        assert(path_views(copilot@)[0] == copilot@[0]@);
        assert(path_views(copilot@)[1] == copilot@[1]@);
        assert(path_views(gh@)[0] == gh@[0]@);
        let hosts = copilot.remove(0);
        let apps = copilot.remove(0);
        let cli = gh.remove(0);
        sources.push(TokenSource::Json(hosts));
        sources.push(TokenSource::Json(apps));
        sources.push(TokenSource::Yaml(cli));
    }
    assert(source_views(sources@) == source_list(config_known));
    sources
}

/// The token that a source holds. None stands for a source that could not be read.
pub open spec fn token_of(source: SourceView, contents: Option<Seq<char>>) -> Option<Seq<char>> {
    match (source, contents) {
        (_, None) => None,
        (SourceView::Variable(_), Some(text)) => trimmed_token(text),
        (SourceView::Json(_), Some(text)) => json_token(text, DOMAIN@),
        (SourceView::Yaml(_), Some(text)) => yaml_token(text, DOMAIN@),
    }
}

/// What comes next when a token is looked for.
pub enum TokenStep {
    /// The next source is to be read.
    Read,
    Found(String),
    NotFound(CopilotError),
}

/// Looks for a token in what the `at`th source holds, and says what comes next.
pub fn load_token(sources: &Vec<TokenSource>, at: usize, contents: Option<&str>) -> (r: TokenStep)
    requires
        at < sources@.len(),
    ensures
        match token_of(sources@[at as int]@, text_of(contents)) {
            Some(token) => r matches TokenStep::Found(s) && s@ == token,
            None => if at + 1 < sources@.len() {
                r is Read
            } else {
                r == TokenStep::NotFound(CopilotError::TokenNotFound)
            },
        },
{
    let found = match contents {
        Some(text) => match &sources[at] {
            TokenSource::Variable(_) => match nonempty_trimmed(text) {
                Some(token) => Some(owned(token)),
                None => None,
            },
            TokenSource::Json(_) => extract_json_oauth_token(text, DOMAIN),
            TokenSource::Yaml(_) => extract_yaml_oauth_token(text, DOMAIN),
        },
        None => None,
    };
    match found {
        Some(token) => TokenStep::Found(token),
        None => if at < sources.len() - 1 {
            TokenStep::Read
        } else {
            TokenStep::NotFound(CopilotError::TokenNotFound)
        },
    }
}

} // verus!
