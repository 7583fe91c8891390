//! What holds of every image and every file that goes upstream: it is the one that was given.
use vstd::prelude::*;

use crate::json::{field, only, Fields, JsonView};
use crate::lookups::group_lookups;
use crate::media::{base64_bytes, file_of, image_of, on_web, UriPartsOf};
use crate::text::{split_from, stands_at, trimmed};

verus! {

proof fn lemma_source_names()
    ensures
        "type"@ != "media_type"@,
        "type"@ != "data"@,
        "type"@ != "url"@,
        "media_type"@ != "data"@,
        "media_type"@ != "url"@,
        "data"@ != "url"@,
{
    reveal_strlit("type");
    reveal_strlit("media_type");
    reveal_strlit("data");
    reveal_strlit("url");
    assert("type"@.len() == 4);
    assert("media_type"@.len() == 10);
    assert("data"@.len() == 4);
    assert("url"@.len() == 3);
    assert("type"@[0] == 't');
    assert("data"@[0] == 'd');
}

proof fn lemma_media_types()
    ensures
        "application/pdf"@ != "text/plain"@,
        "application/pdf"@ != "image/jpeg"@,
        "application/pdf"@ != "image/png"@,
        "application/pdf"@ != "image/gif"@,
        "application/pdf"@ != "image/webp"@,
        "text/plain"@ != "image/jpeg"@,
        "text/plain"@ != "image/png"@,
        "text/plain"@ != "image/gif"@,
        "text/plain"@ != "image/webp"@,
        "image/jpeg"@ != "image/png"@,
        "image/jpeg"@ != "image/gif"@,
        "image/jpeg"@ != "image/webp"@,
        "image/png"@ != "image/gif"@,
        "image/png"@ != "image/webp"@,
        "image/gif"@ != "image/webp"@,
{
    reveal_strlit("application/pdf");
    reveal_strlit("text/plain");
    reveal_strlit("image/jpeg");
    reveal_strlit("image/png");
    reveal_strlit("image/gif");
    reveal_strlit("image/webp");
    assert("application/pdf"@.len() == 15);
    assert("text/plain"@.len() == 10);
    assert("image/jpeg"@.len() == 10);
    assert("image/png"@.len() == 9);
    assert("image/gif"@.len() == 9);
    assert("image/webp"@.len() == 10);
    assert("text/plain"@[0] == 't');
    assert("image/jpeg"@[0] == 'i');
    assert("image/webp"@[0] == 'i');
    assert("image/jpeg"@[6] == 'j');
    assert("image/webp"@[6] == 'w');
    assert("image/png"@[6] == 'p');
    assert("image/gif"@[6] == 'g');
}


/// A string is split at the first place where the separator stands, and only where it stands
/// somewhere.
pub proof fn lemma_split(s: Seq<char>, sep: Seq<char>, i: int)
    requires
        0 <= i,
    ensures
        match split_from(s, sep, i) {
            Some((before, after)) => s == before + sep + after && before.len() >= i
                && forall|j: int|
                i <= j < before.len() ==> !#[trigger] stands_at(s, sep, j),
            None => forall|j: int| i <= j ==> !#[trigger] stands_at(s, sep, j),
        },
    decreases s.len() - i + 1,
{
    if i + sep.len() <= s.len() {
        if stands_at(s, sep, i) {
            assert(s == s.take(i) + s.subrange(i, i + sep.len()) + s.skip(i + sep.len()));
        } else {
            lemma_split(s, sep, i + 1);
        }
    }
}

/// A string is trimmed to the part of it that neither begins nor ends with white space, and what
/// is cut off is white space.
pub proof fn lemma_trimmed(s: Seq<char>)
    ensures
        exists|a: int, b: int|
            0 <= a <= b <= s.len() && trimmed(s) == #[trigger] s.subrange(a, b) && (forall|i: int|
                0 <= i < a || b <= i < s.len() ==> crate::text::is_space(#[trigger] s[i])),
        trimmed(s).len() > 0 ==> !crate::text::is_space(trimmed(s)[0]) && !crate::text::is_space(
            trimmed(s).last(),
        ),
    decreases s.len(),
{
    if s.len() == 0 {
        assert(s == s.subrange(0, 0));
    } else if crate::text::is_space(s[0]) {
        let rest = s.skip(1);
        lemma_trimmed(rest);
        let (a, b) = choose|a: int, b: int|
            0 <= a <= b <= rest.len() && trimmed(rest) == #[trigger] rest.subrange(a, b) && (
            forall|i: int|
                0 <= i < a || b <= i < rest.len() ==> crate::text::is_space(#[trigger] rest[i]));
        assert(rest.subrange(a, b) == s.subrange(a + 1, b + 1));
        assert forall|i: int| 0 <= i < a + 1 || b + 1 <= i < s.len() implies crate::text::is_space(
            #[trigger] s[i],
        ) by {
            if i > 0 {
                assert(rest[i - 1] == s[i]);
            }
        }
    } else if crate::text::is_space(s.last()) {
        let rest = s.drop_last();
        lemma_trimmed(rest);
        let (a, b) = choose|a: int, b: int|
            0 <= a <= b <= rest.len() && trimmed(rest) == #[trigger] rest.subrange(a, b) && (
            forall|i: int|
                0 <= i < a || b <= i < rest.len() ==> crate::text::is_space(#[trigger] rest[i]));
        assert(rest.subrange(a, b) == s.subrange(a, b));
        assert forall|i: int| 0 <= i < a || b <= i < s.len() implies crate::text::is_space(
            #[trigger] s[i],
        ) by {
            if i < rest.len() {
                assert(rest[i] == s[i]);
            }
        }
    } else {
        assert(s == s.subrange(0, s.len() as int));
    }
}

/// Whether a string is the data URL of a type, with data in base64 after the first mark of it.
pub open spec fn data_url_of(url: Seq<char>, kind: Seq<char>, data: Seq<char>) -> bool {
    &&& url == "data:"@ + (kind + ";base64,"@ + data)
    &&& base64_bytes(data) is Some
    &&& forall|j: int| 0 <= j < kind.len() ==> !#[trigger] stands_at(
        kind + ";base64,"@ + data,
        ";base64,"@,
        j,
    )
}

proof fn lemma_data_url(url: Seq<char>)
    ensures
        match crate::media::base64_url_parts(url) {
            Some((kind, data)) => data_url_of(url, kind, data),
            None => forall|kind: Seq<char>, data: Seq<char>| !#[trigger] data_url_of(url, kind, data),
        },
{
    let mark = ";base64,"@;
    let head = "data:"@;
    if head.is_prefix_of(url) {
        let rest = url.skip(head.len() as int);
        assert(url == head + rest);
        lemma_split(rest, mark, 0);
    }
    assert forall|kind: Seq<char>, data: Seq<char>| #[trigger] data_url_of(
        url,
        kind,
        data,
    ) implies crate::media::base64_url_parts(url) is Some by {
        let rest = kind + mark + data;
        assert(head.is_prefix_of(url));
        assert(url.skip(head.len() as int) == rest);
        lemma_split(rest, mark, 0);
        assert(rest.subrange(kind.len() as int, (kind.len() + mark.len()) as int) == mark);
        assert(stands_at(rest, mark, kind.len() as int));
        match split_from(rest, mark, 0) {
            Some((k, d)) => {
                if k.len() < kind.len() {
                    assert(rest.subrange(k.len() as int, (k.len() + mark.len()) as int) == mark);
                    assert(stands_at(rest, mark, k.len() as int));
                    assert(false);
                }
                assert(!(kind.len() < k.len()));
                assert(k == rest.take(k.len() as int));
                assert(k == kind);
                assert(d == rest.skip((k.len() + mark.len()) as int));
                assert(d == data);
            },
            None => {},
        }
    }
}

/// An image that is taken goes upstream as it was given: one in a data URL by its type, which is
/// one of four, and its data; any other by its address on the web. Nothing else is taken.
#[verifier::rlimit(60)]
#[verifier::spinoff_prover]
pub proof fn lemma_image(o: Fields)
    ensures
        match image_of(o) {
            Ok(source) => {
                &&& field(o, "file_id"@) is None
                &&& field(o, "detail"@) is None || field(o, "detail"@) == Some(
                    JsonView::Text("auto"@),
                )
                &&& match field(o, "image_url"@) {
                    Some(JsonView::Text(url)) => {
                        ||| exists|kind: Seq<char>, data: Seq<char>|
                            {
                                &&& #[trigger] data_url_of(url, kind, data)
                                &&& kind == "image/jpeg"@ || kind == "image/png"@ || kind
                                    == "image/gif"@ || kind == "image/webp"@
                                &&& source.get("type"@) == Some(JsonView::Text("base64"@))
                                &&& source.get("media_type"@) == Some(JsonView::Text(kind))
                                &&& source.get("data"@) == Some(JsonView::Text(data))
                            }
                        ||| {
                            &&& forall|kind: Seq<char>, data: Seq<char>|
                                !#[trigger] data_url_of(url, kind, data)
                            &&& on_web(crate::media::uri_parts(url))
                            &&& source.get("type"@) == Some(JsonView::Text("url"@))
                            &&& source.get("url"@) == Some(JsonView::Text(url))
                        }
                    },
                    _ => false,
                }
            },
            Err(_) => true,
        },
{
    broadcast use group_lookups;

    lemma_source_names();
    match field(o, "image_url"@) {
        Some(JsonView::Text(url)) => {
            lemma_data_url(url);
            let list = seq!["image/jpeg", "image/png", "image/gif", "image/webp"];
            assert(list.len() == 4);
        },
        _ => {},
    }
}

/// An image of each of the four types in a data URL is taken.
#[verifier::rlimit(60)]
#[verifier::spinoff_prover]
pub proof fn lemma_image_is_taken(o: Fields, url: Seq<char>, kind: Seq<char>, data: Seq<char>)
    requires
        o.len() == 2,
        field(o, "type"@) is Some,
        field(o, "image_url"@) == Some(JsonView::Text(url)),
        data_url_of(url, kind, data),
        kind == "image/jpeg"@ || kind == "image/png"@ || kind == "image/gif"@ || kind
            == "image/webp"@,
    ensures
        image_of(o) is Ok,
{
    reveal_strlit("type");
    reveal_strlit("image_url");
    reveal_strlit("file_id");
    reveal_strlit("detail");
    let names = seq!["type", "image_url", "file_id", "detail"];
    assert(names[0]@ == "type"@ && names[1]@ == "image_url"@);
    crate::json::lemma_position(o, "type"@, 0);
    crate::json::lemma_position(o, "image_url"@, 0);
    crate::json::lemma_position(o, "file_id"@, 0);
    crate::json::lemma_position(o, "detail"@, 0);
    assert(only(o, names));
    lemma_data_url(url);
    let list = seq!["image/jpeg", "image/png", "image/gif", "image/webp"];
    assert(list[0]@ == "image/jpeg"@ && list[1]@ == "image/png"@ && list[2]@ == "image/gif"@
        && list[3]@ == "image/webp"@);
    let (k, d) = crate::media::base64_url_parts(url)->0;
    lemma_one_reading(url, k, d, kind, data);
}

proof fn lemma_one_reading(
    url: Seq<char>,
    a: Seq<char>,
    x: Seq<char>,
    b: Seq<char>,
    y: Seq<char>,
)
    requires
        data_url_of(url, a, x),
        data_url_of(url, b, y),
    ensures
        a == b,
        x == y,
{
    let mark = ";base64,"@;
    let head = "data:"@;
    let left = a + mark + x;
    let right = b + mark + y;
    assert(left == url.skip(head.len() as int));
    assert(right == url.skip(head.len() as int));
    assert(left == right);
    if a.len() < b.len() {
        assert(left.subrange(a.len() as int, (a.len() + mark.len()) as int) == mark);
        assert(stands_at(right, mark, a.len() as int));
    }
    if b.len() < a.len() {
        assert(right.subrange(b.len() as int, (b.len() + mark.len()) as int) == mark);
        assert(stands_at(left, mark, b.len() as int));
    }
    assert(a == left.take(a.len() as int));
    assert(b == right.take(b.len() as int));
    assert(x == left.skip((a.len() + mark.len()) as int));
    assert(y == right.skip((b.len() + mark.len()) as int));
}

/// A file that is taken goes upstream as it was given, under its name where it has one: a PDF by
/// its data, plain text as the text that its data holds, any other by its address on the web.
#[verifier::rlimit(60)]
#[verifier::spinoff_prover]
pub proof fn lemma_file(o: Fields)
    ensures
        match file_of(o) {
            Ok((source, title)) => {
                &&& field(o, "file_id"@) is None
                &&& title == (match field(o, "filename"@) {
                    Some(JsonView::Text(name)) => if name.len() > 0 {
                        Some(name)
                    } else {
                        None
                    },
                    _ => None,
                })
                &&& match (field(o, "file_data"@), field(o, "file_url"@)) {
                    (Some(JsonView::Text(url)), None) => exists|kind: Seq<char>, data: Seq<char>|
                        {
                            &&& #[trigger] data_url_of(url, kind, data)
                            &&& source.get("media_type"@) == Some(JsonView::Text(kind))
                            &&& {
                                ||| kind == "application/pdf"@ && source.get("type"@) == Some(
                                    JsonView::Text("base64"@),
                                ) && source.get("data"@) == Some(JsonView::Text(data))
                                ||| kind == "text/plain"@ && source.get("type"@) == Some(
                                    JsonView::Text("text"@),
                                ) && vstd::utf8::valid_utf8(base64_bytes(data)->0) && source.get(
                                    "data"@,
                                ) == Some(
                                    JsonView::Text(
                                        vstd::utf8::decode_utf8(base64_bytes(data)->0),
                                    ),
                                )
                            }
                        },
                    (None, Some(JsonView::Text(url))) => on_web(crate::media::uri_parts(url))
                        && source.get("type"@) == Some(JsonView::Text("url"@)) && source.get(
                        "url"@,
                    ) == Some(JsonView::Text(url)),
                    _ => false,
                }
            },
            Err(_) => true,
        },
{
    broadcast use group_lookups;

    lemma_source_names();
    lemma_media_types();
    match field(o, "file_data"@) {
        Some(JsonView::Text(url)) => {
            lemma_data_url(url);
        },
        _ => {},
    }
}

/// What is on the web is there by HTTP or HTTPS and has a host.
pub proof fn lemma_on_web(parts: Option<UriPartsOf<Seq<char>>>)
    ensures
        on_web(parts) <==> parts is Some && (parts->0.scheme == Some("http"@) || parts->0.scheme
            == Some("https"@)) && parts->0.authority && parts->0.host is Some
            && parts->0.host->0.len() > 0,
{
}

} // verus!
