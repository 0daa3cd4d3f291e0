//! Form encoding and URL parsing, as the crates that do them define them.

use vstd::prelude::*;

verus! {

/// The error of `serde_html_form::to_string`. Nothing is read from it.
#[verifier::external_type_specification]
#[verifier::external_body]
pub struct ExFormError(serde_html_form::ser::Error);

/// The error of `url::Url::parse`. Nothing is read from it.
#[verifier::external_type_specification]
#[verifier::external_body]
pub struct ExParseError(url::ParseError);

/// The `application/x-www-form-urlencoded` form of a list of name and
/// value pairs, as `serde_html_form` writes it; nothing where it refuses
/// the list.
pub uninterp spec fn form_urlencoded(pairs: Seq<(Seq<char>, Seq<char>)>) -> Option<Seq<char>>;

/// The serialization of the URL that `url` parses from a text; nothing
/// where the text is no absolute URL.
pub uninterp spec fn url_normal_form(text: Seq<char>) -> Option<Seq<char>>;

/// The characters of each name and value of a list of pairs.
pub open spec fn pairs_of(pairs: Vec<(String, String)>) -> Seq<(Seq<char>, Seq<char>)> {
    Seq::new(pairs.len() as nat, |i: int| (pairs[i].0@, pairs[i].1@))
}

/// `serde_html_form::to_string` on a sequence of pairs of strings. The
/// result depends on the pairs alone, and is the text that the crate
/// writes for them.
#[verifier::external_body]
pub(crate) fn form_encode(pairs: &Vec<(String, String)>) -> (r: Result<
    String,
    serde_html_form::ser::Error,
>)
    ensures
        match r {
            Ok(text) => form_urlencoded(pairs_of(*pairs)) == Some(text@),
            Err(_) => form_urlencoded(pairs_of(*pairs)) is None,
        },
{
    serde_html_form::to_string(pairs)
}

/// `url::Url::parse`, and `Url::as_str` on what it returns. The result
/// depends on the text alone, and is the serialization of the parsed URL.
#[verifier::external_body]
pub(crate) fn parse_url(text: &str) -> (r: Result<String, url::ParseError>)
    ensures
        match r {
            Ok(url) => url_normal_form(text@) == Some(url@),
            Err(_) => url_normal_form(text@) is None,
        },
{
    match url::Url::parse(text) {
        Ok(url) => Ok(url.as_str().to_owned()),
        Err(e) => Err(e),
    }
}

} // verus!
