//! Images and files in messages.
use vstd::prelude::*;
use vstd::utf8::{encode_utf8, valid_utf8};

use crate::error::{refuse, unsupported, AIError, Unsupported};
use crate::json::{field, only, text_field, Fields, Json, JsonView, Object};
use crate::request_types::{ContentBlock, ContentOf, ContentView};
use crate::text::{
    after_prefix, blank, named, is_named, owned, same, split_from, split_once, strip_prefix,
    text_in,
};

use base64::Engine;

verus! {

/// The bytes that a string stands for in the standard base64 alphabet with padding, where it
/// stands for any.
pub uninterp spec fn base64_bytes(s: Seq<char>) -> Option<Seq<u8>>;

/// `base64::engine::general_purpose::STANDARD.decode`: the outcome is a function of the string.
#[verifier::external_body]
fn decode_base64(s: &str) -> (r: Option<Vec<u8>>)
    ensures
        match r {
            Some(bytes) => base64_bytes(s@) == Some(bytes@),
            None => base64_bytes(s@) is None,
        },
{
    base64::engine::general_purpose::STANDARD.decode(s).ok()
}

/// `String::from_utf8` succeeds on valid UTF-8, and the string it gives is encoded as the bytes it
/// was given.
#[verifier::external_body]
fn utf8_text(bytes: Vec<u8>) -> (r: Option<String>)
    ensures
        r is Some <==> valid_utf8(bytes@),
        r is Some ==> encode_utf8(r->0@) == bytes@,
{
    String::from_utf8(bytes).ok()
}

/// The parts of a URI that matter: its scheme, whether it has an authority, and its host.
#[derive(Debug)]
pub struct UriPartsOf<S> {
    pub scheme: Option<S>,
    pub authority: bool,
    pub host: Option<S>,
}

pub type UriParts = UriPartsOf<String>;

impl View for UriPartsOf<String> {
    type V = UriPartsOf<Seq<char>>;

    open spec fn view(&self) -> UriPartsOf<Seq<char>> {
        UriPartsOf {
            scheme: text_in(self.scheme),
            authority: self.authority,
            host: text_in(self.host),
        }
    }
}

/// The parts of the URI that a string is, where it is one.
pub uninterp spec fn uri_parts(s: Seq<char>) -> Option<UriPartsOf<Seq<char>>>;

/// `<http::Uri as FromStr>::from_str`, then `Uri::scheme_str`, `Uri::authority` and `Uri::host` of
/// the result: the outcome is a function of the string.
#[verifier::external_body]
fn parse_uri(s: &str) -> (r: Option<UriParts>)
    ensures
        (match r {
            Some(parts) => Some(parts@),
            None => None,
        }) == uri_parts(s@),
{
    let uri = s.parse::<http::Uri>().ok()?;
    Some(
        UriPartsOf {
            scheme: uri.scheme_str().map(String::from),
            authority: uri.authority().is_some(),
            host: uri.host().map(String::from),
        },
    )
}

/// Whether a URI names a place on the web: by HTTP or HTTPS, with a host.
pub open spec fn on_web(parts: Option<UriPartsOf<Seq<char>>>) -> bool {
    match parts {
        Some(p) => (p.scheme == Some("http"@) || p.scheme == Some("https"@)) && p.authority
            && p.host is Some && p.host->0.len() > 0,
        None => false,
    }
}

/// Whether a URI names a place on the web.
pub fn names_web_place(parts: &Option<UriParts>) -> (r: bool)
    ensures
        r == on_web(
            match parts {
                Some(p) => Some(p@),
                None => None,
            },
        ),
{
    match parts {
        Some(p) => {
            let scheme_ok = match &p.scheme {
                Some(scheme) => same(scheme.as_str(), "http") || same(scheme.as_str(), "https"),
                None => false,
            };
            let host_ok = match &p.host {
                Some(host) => !blank(host.as_str()),
                None => false,
            };
            scheme_ok && p.authority && host_ok
        },
        None => false,
    }
}

/// Whether a string is the URL of a place on the web.
pub fn is_absolute_http_url(url: &str) -> (r: bool)
    ensures
        r == on_web(uri_parts(url@)),
{
    let parts = parse_uri(url);
    names_web_place(&parts)
}

/// The media type and the data of a data URL in base64.
pub open spec fn data_url_parts(url: Seq<char>) -> Option<(Seq<char>, Seq<char>)> {
    match after_prefix(url, "data:"@) {
        Some(rest) => split_from(rest, ";base64,"@, 0),
        None => None,
    }
}

/// The media type and the data of a data URL in base64.
pub fn parse_data_url<'a>(url: &'a str) -> (r: Option<(&'a str, &'a str)>)
    ensures
        (match r {
            Some((media_type, data)) => Some((media_type@, data@)),
            None => None,
        }) == data_url_parts(url@),
{
    match strip_prefix(url, "data:") {
        Some(rest) => split_once(rest, ";base64,"),
        None => None,
    }
}

/// The media type and the data of a data URL whose data is base64.
pub open spec fn base64_url_parts(url: Seq<char>) -> Option<(Seq<char>, Seq<char>)> {
    match data_url_parts(url) {
        Some((media_type, data)) => if base64_bytes(data) is Some {
            Some((media_type, data))
        } else {
            None
        },
        None => None,
    }
}

/// The media type and the data of a data URL whose data is base64.
pub fn parse_base64_data_url<'a>(url: &'a str) -> (r: Option<(&'a str, &'a str)>)
    ensures
        (match r {
            Some((media_type, data)) => Some((media_type@, data@)),
            None => None,
        }) == base64_url_parts(url@),
{
    match parse_data_url(url) {
        Some((media_type, data)) => match decode_base64(data) {
            Some(_) => Some((media_type, data)),
            None => None,
        },
        None => None,
    }
}

/// A source given in base64.
pub open spec fn base64_source(media_type: Seq<char>, data: Seq<char>) -> JsonView {
    JsonView::object().with("type"@, JsonView::Text("base64"@)).with(
        "media_type"@,
        JsonView::Text(media_type),
    ).with("data"@, JsonView::Text(data))
}

fn make_base64_source(media_type: &str, data: &str) -> (r: Json)
    ensures
        r@ == base64_source(media_type@, data@),
{
    Json::object().with("type", Json::text("base64")).with(
        "media_type",
        Json::text(media_type),
    ).with("data", Json::text(data))
}

/// A source on the web.
pub open spec fn url_source(url: Seq<char>) -> JsonView {
    JsonView::object().with("type"@, JsonView::Text("url"@)).with("url"@, JsonView::Text(url))
}

fn make_url_source(url: &str) -> (r: Json)
    ensures
        r@ == url_source(url@),
{
    Json::object().with("type", Json::text("url")).with("url", Json::text(url))
}

/// Whether the detail of an image is left to the model.
pub open spec fn image_detail_ok(v: Option<JsonView>) -> bool {
    v is None || v == Some(JsonView::Text("auto"@))
}

/// The source of an image, given what its URL is as a data URL and as a URI; or why it has none.
/// An image is one of four types, or on the web.
pub open spec fn image_source(
    url: Seq<char>,
    data_url: Option<(Seq<char>, Seq<char>)>,
    parts: Option<UriPartsOf<Seq<char>>>,
) -> Result<JsonView, AIError> {
    match data_url {
        Some((media_type, data)) => if named(
            seq!["image/jpeg", "image/png", "image/gif", "image/webp"],
            media_type,
        ) {
            Ok(base64_source(media_type, data))
        } else {
            Err(unsupported(Unsupported::ImageMediaType))
        },
        None => if on_web(parts) {
            Ok(url_source(url))
        } else {
            Err(unsupported(Unsupported::ImageUrl))
        },
    }
}

/// The source of an image, given what its URL is as a data URL and as a URI.
pub fn make_image_source(
    url: &str,
    data_url: Option<(&str, &str)>,
    parts: &Option<UriParts>,
) -> (r: Result<Json, AIError>)
    ensures
        match image_source(
            url@,
            match data_url {
                Some((media_type, data)) => Some((media_type@, data@)),
                None => None,
            },
            match parts {
                Some(p) => Some(p@),
                None => None,
            },
        ) {
            Ok(source) => r is Ok && r->Ok_0@ == source,
            Err(e) => r is Err && r->Err_0 == e,
        },
{
    match data_url {
        Some((media_type, data)) => {
            let known = ["image/jpeg", "image/png", "image/gif", "image/webp"];
            assert(known@ == seq!["image/jpeg", "image/png", "image/gif", "image/webp"]);
            if is_named(&known, media_type) {
                Ok(make_base64_source(media_type, data))
            } else {
                Err(refuse(Unsupported::ImageMediaType))
            }
        },
        None => if names_web_place(parts) {
            Ok(make_url_source(url))
        } else {
            Err(refuse(Unsupported::ImageUrl))
        },
    }
}

/// The source of the image that an object is, or why it has none.
pub open spec fn image_of(o: Fields) -> Result<JsonView, AIError> {
    if !only(o, seq!["type", "image_url", "file_id", "detail"]) || field(o, "file_id"@) is Some
        || !image_detail_ok(field(o, "detail"@)) {
        Err(unsupported(Unsupported::Image))
    } else {
        match text_field(o, "image_url"@) {
            None => Err(unsupported(Unsupported::ImageUrlRequired)),
            Some(url) => image_source(url, base64_url_parts(url), uri_parts(url)),
        }
    }
}

/// The source of the image that an object is.
pub fn input_image_source(object: &Object) -> (r: Result<Json, AIError>)
    ensures
        match image_of(object@) {
            Ok(source) => r is Ok && r->Ok_0@ == source,
            Err(e) => r is Err && r->Err_0 == e,
        },
{
    let detail_ok = match object.get("detail") {
        None => true,
        Some(Json::Text(detail)) => same(detail.as_str(), "auto"),
        Some(_) => false,
    };
    if object.has_unknown_field(&["type", "image_url", "file_id", "detail"]) || object.has(
        "file_id",
    ) || !detail_ok {
        return Err(refuse(Unsupported::Image));
    }
    let url = match object.text("image_url") {
        Some(url) => url,
        None => return Err(refuse(Unsupported::ImageUrlRequired)),
    };
    let parts = parse_uri(url);
    make_image_source(url, parse_base64_data_url(url), &parts)
}

/// The image block that an object is.
pub fn input_image_content(object: &Object) -> (r: Result<ContentBlock, AIError>)
    ensures
        match image_of(object@) {
            Ok(source) => r is Ok && r->Ok_0@ == (ContentView::Image { source }),
            Err(e) => r is Err && r->Err_0 == e,
        },
{
    match input_image_source(object) {
        Ok(source) => Ok(ContentOf::Image { source }),
        Err(e) => Err(e),
    }
}

/// The string that bytes are in UTF-8, where they are one.
pub open spec fn text_in_utf8(bytes: Seq<u8>) -> Option<Seq<char>> {
    if valid_utf8(bytes) {
        Some(vstd::utf8::decode_utf8(bytes))
    } else {
        None
    }
}

/// A source given as text.
pub open spec fn text_source(media_type: Seq<char>, text: Seq<char>) -> JsonView {
    JsonView::object().with("type"@, JsonView::Text("text"@)).with(
        "media_type"@,
        JsonView::Text(media_type),
    ).with("data"@, JsonView::Text(text))
}

/// The source of a file, given its data URL and the bytes in it; or why it has none. A PDF stays
/// as it is; plain text is taken out of its base64.
pub open spec fn file_source(
    data_url: Option<(Seq<char>, Seq<char>)>,
    bytes: Option<Seq<u8>>,
) -> Result<JsonView, AIError> {
    match (data_url, bytes) {
        (Some((media_type, data)), Some(bytes)) => if media_type == "application/pdf"@ {
            Ok(base64_source(media_type, data))
        } else if media_type == "text/plain"@ {
            match text_in_utf8(bytes) {
                Some(text) => Ok(text_source(media_type, text)),
                None => Err(unsupported(Unsupported::FileUtf8)),
            }
        } else {
            Err(unsupported(Unsupported::FileMediaType))
        },
        _ => Err(unsupported(Unsupported::FileData)),
    }
}

/// The source of a file, given its data URL and the bytes in it.
pub fn make_file_source(data_url: Option<(&str, &str)>, bytes: Option<Vec<u8>>) -> (r: Result<
    Json,
    AIError,
>)
    ensures
        match file_source(
            match data_url {
                Some((media_type, data)) => Some((media_type@, data@)),
                None => None,
            },
            match bytes {
                Some(bytes) => Some(bytes@),
                None => None,
            },
        ) {
            Ok(source) => r is Ok && r->Ok_0@ == source,
            Err(e) => r is Err && r->Err_0 == e,
        },
{
    match (data_url, bytes) {
        (Some((media_type, data)), Some(bytes)) => if same(media_type, "application/pdf") {
            Ok(make_base64_source(media_type, data))
        } else if same(media_type, "text/plain") {
            let ghost given = bytes@;
            match utf8_text(bytes) {
                Some(text) => {
                    proof {
                        vstd::utf8::encode_utf8_decode_utf8(text@);
                        assert(text_in_utf8(given) == Some(text@));
                    }
                    Ok(
                        Json::object().with("type", Json::text("text")).with(
                            "media_type",
                            Json::text(media_type),
                        ).with("data", Json::Text(text)),
                    )
                },
                None => Err(refuse(Unsupported::FileUtf8)),
            }
        } else {
            Err(refuse(Unsupported::FileMediaType))
        },
        _ => Err(refuse(Unsupported::FileData)),
    }
}

/// The bytes in a data URL, where its data is base64.
pub open spec fn bytes_in_url(url: Seq<char>) -> Option<Seq<u8>> {
    match data_url_parts(url) {
        Some((_, data)) => base64_bytes(data),
        None => None,
    }
}

/// The source of a file that is given as a data URL.
pub fn file_data_source(file_data: &str) -> (r: Result<Json, AIError>)
    ensures
        match file_source(base64_url_parts(file_data@), bytes_in_url(file_data@)) {
            Ok(source) => r is Ok && r->Ok_0@ == source,
            Err(e) => r is Err && r->Err_0 == e,
        },
{
    let parts = parse_base64_data_url(file_data);
    let bytes = match parts {
        Some((_, data)) => decode_base64(data),
        None => None,
    };
    make_file_source(parts, bytes)
}

/// Whether the detail of a file is one that it may have.
pub open spec fn file_detail_ok(v: Option<JsonView>) -> bool {
    v is None || v == Some(JsonView::Text("auto"@)) || v == Some(JsonView::Text("low"@))
}

/// The title of a file: its name, where that is given and not empty. None where the name is no
/// string.
pub open spec fn title_of(v: Option<JsonView>) -> Option<Option<Seq<char>>> {
    match v {
        None => Some(None),
        Some(JsonView::Text(name)) => if name.len() == 0 {
            Some(None)
        } else {
            Some(Some(name))
        },
        Some(_) => None,
    }
}

/// The source and the title of the file that an object is, or why it has none. A file is given
/// either as data or by a URL.
pub open spec fn file_of(o: Fields) -> Result<(JsonView, Option<Seq<char>>), AIError> {
    if !only(o, seq!["type", "file_data", "file_url", "file_id", "filename", "detail"]) || field(
        o,
        "file_id"@,
    ) is Some {
        Err(unsupported(Unsupported::File))
    } else if !file_detail_ok(field(o, "detail"@)) {
        Err(unsupported(Unsupported::FileDetail))
    } else {
        match title_of(field(o, "filename"@)) {
            None => Err(unsupported(Unsupported::FileName)),
            Some(title) => match (field(o, "file_data"@), field(o, "file_url"@)) {
                (Some(JsonView::Text(data)), None) => match file_source(
                    base64_url_parts(data),
                    bytes_in_url(data),
                ) {
                    Ok(source) => Ok((source, title)),
                    Err(e) => Err(e),
                },
                (None, Some(JsonView::Text(url))) => if on_web(uri_parts(url)) {
                    Ok((url_source(url), title))
                } else {
                    Err(unsupported(Unsupported::FileUrl))
                },
                _ => Err(unsupported(Unsupported::FileSource)),
            },
        }
    }
}

/// The source and the title of the file that an object is.
pub fn input_file_source(object: &Object) -> (r: Result<(Json, Option<String>), AIError>)
    ensures
        match file_of(object@) {
            Ok((source, title)) => r is Ok && r->Ok_0.0@ == source && text_in(r->Ok_0.1) == title,
            Err(e) => r is Err && r->Err_0 == e,
        },
{
    if object.has_unknown_field(
        &["type", "file_data", "file_url", "file_id", "filename", "detail"],
    ) || object.has("file_id") {
        return Err(refuse(Unsupported::File));
    }
    let detail_ok = match object.get("detail") {
        None => true,
        Some(Json::Text(detail)) => same(detail.as_str(), "auto") || same(detail.as_str(), "low"),
        Some(_) => false,
    };
    if !detail_ok {
        return Err(refuse(Unsupported::FileDetail));
    }
    let title = match object.get("filename") {
        None => None,
        Some(Json::Text(name)) => if blank(name.as_str()) {
            None
        } else {
            Some(owned(name.as_str()))
        },
        Some(_) => return Err(refuse(Unsupported::FileName)),
    };
    match (object.get("file_data"), object.get("file_url")) {
        (Some(Json::Text(data)), None) => match file_data_source(data.as_str()) {
            Ok(source) => Ok((source, title)),
            Err(e) => Err(e),
        },
        (None, Some(Json::Text(url))) => if is_absolute_http_url(url.as_str()) {
            Ok((make_url_source(url.as_str()), title))
        } else {
            Err(refuse(Unsupported::FileUrl))
        },
        _ => Err(refuse(Unsupported::FileSource)),
    }
}

/// The document block that an object is.
pub fn input_file_content(object: &Object) -> (r: Result<ContentBlock, AIError>)
    ensures
        match file_of(object@) {
            Ok((source, title)) => r is Ok && r->Ok_0@ == (ContentView::Document {
                source,
                title,
            }),
            Err(e) => r is Err && r->Err_0 == e,
        },
{
    match input_file_source(object) {
        Ok((source, title)) => Ok(ContentOf::Document { source, title }),
        Err(e) => Err(e),
    }
}

} // verus!
