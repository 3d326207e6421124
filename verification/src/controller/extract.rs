//! Extracting the JSON body of a request.

use vstd::prelude::*;

use crate::text::str_eq;

verus! {

/// A JSON body of a request or a response.
pub struct Json<T>(pub T);

/// The media type is JSON: `application/json`, or an `application` type with the `+json`
/// suffix.
pub open spec fn spec_is_json_mime(type_: Seq<char>, subtype: Seq<char>, suffix: Option<Seq<char>>) -> bool {
    type_ == "application"@ && (subtype == "json"@ || suffix == Some("json"@))
}

/// A media type is JSON only when its type is `application`: then it is JSON when its subtype
/// is `json`, whatever its suffix, or when its suffix is exactly `json`; a media type of
/// another subtype with another suffix (`application/xhtml+xml`) or no suffix is not JSON.
pub proof fn law_json_media_types(type_: Seq<char>, subtype: Seq<char>, suffix: Option<Seq<char>>)
    ensures
        type_ != "application"@ ==> !spec_is_json_mime(type_, subtype, suffix),
        spec_is_json_mime("application"@, "json"@, suffix),
        spec_is_json_mime("application"@, subtype, Some("json"@)),
        subtype != "json"@ && suffix != Some("json"@) ==> !spec_is_json_mime(
            type_,
            subtype,
            suffix,
        ),
        subtype != "json"@ ==> !spec_is_json_mime(type_, subtype, None),
{
}

/// Whether the media type, by its type, subtype and suffix, is JSON.
pub fn is_json_mime(type_: &str, subtype: &str, suffix: Option<&str>) -> (r: bool)
    ensures
        r == spec_is_json_mime(
            type_@,
            subtype@,
            match suffix {
                Some(s) => Some(s@),
                None => None,
            },
        ),
{
    str_eq(type_, "application") && (str_eq(subtype, "json") || match suffix {
        Some(name) => str_eq(name, "json"),
        None => false,
    })
}

/// Names what the `mime` crate parses of a media type: its type, subtype and `+suffix`,
/// in lower case; `None` when it is not a media type.
pub uninterp spec fn mime_parts(content_type: Seq<char>) -> Option<
    (Seq<char>, Seq<char>, Option<Seq<char>>),
>;

/// `content_type.parse::<mime::Mime>()`, with the `type_`, `subtype` and `suffix` of the media
/// type as strings. The result is named by [`mime_parts`].
#[verifier::external_body]
fn parse_mime(content_type: &str) -> (r: Option<(String, String, Option<String>)>)
    ensures
        match r {
            Some((type_, subtype, suffix)) => mime_parts(content_type@) == Some(
                (
                    type_@,
                    subtype@,
                    match suffix {
                        Some(s) => Some(s@),
                        None => None,
                    },
                ),
            ),
            None => mime_parts(content_type@) is None,
        },
{
    match content_type.parse::<mime::Mime>() {
        Ok(mime) => {
            let suffix = match mime.suffix() {
                Some(name) => Some(name.as_str().to_string()),
                None => None,
            };
            Some((mime.type_().as_str().to_string(), mime.subtype().as_str().to_string(), suffix))
        },
        Err(_) => None,
    }
}

/// Whether the `Content-Type` of a request is JSON: a media type that is JSON by its type,
/// subtype and suffix.
pub fn is_json_content_type(content_type: &str) -> (r: bool)
    ensures
        r == match mime_parts(content_type@) {
            Some((type_, subtype, suffix)) => spec_is_json_mime(type_, subtype, suffix),
            None => false,
        },
{
    match parse_mime(content_type) {
        Some((type_, subtype, suffix)) => {
            let suffix = match &suffix {
                Some(s) => Some(s.as_str()),
                None => None,
            };
            is_json_mime(type_.as_str(), subtype.as_str(), suffix)
        },
        None => false,
    }
}

} // verus!
