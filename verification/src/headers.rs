//! HTTP headers, as the `http` crate keeps them.
use vstd::prelude::*;

verus! {

/// `http::HeaderMap`, the multimap of header names to values of the `http` crate.
#[verifier::external_type_specification]
#[verifier::external_body]
#[verifier::reject_recursive_types(T)]
pub struct ExHeaderMap<T>(http::HeaderMap<T>);

/// `http::HeaderValue`, one header value of the `http` crate.
#[verifier::external_type_specification]
#[verifier::external_body]
pub struct ExHeaderValue(http::HeaderValue);

/// What a header map holds: under each header name, in lower case, the bytes of its values, one after
/// the other.
pub uninterp spec fn header_contents(headers: http::HeaderMap<http::HeaderValue>) -> Map<
    Seq<char>,
    Seq<Seq<u8>>,
>;

/// The values under a name; none where the name is not held.
pub open spec fn values_of(contents: Map<Seq<char>, Seq<Seq<u8>>>, name: Seq<char>) -> Seq<
    Seq<u8>,
> {
    if contents.contains_key(name) {
        contents[name]
    } else {
        Seq::empty()
    }
}

/// A letter, a digit or a hyphen.
pub open spec fn is_name_char(c: char) -> bool {
    ||| 'a' <= c <= 'z'
    ||| 'A' <= c <= 'Z'
    ||| '0' <= c <= '9'
    ||| c == '-'
}

/// A header name of ordinary shape: up to sixty-four letters, digits and hyphens.
pub open spec fn is_plain_name(name: Seq<char>) -> bool {
    &&& 0 < name.len() <= 64
    &&& forall|i: int| 0 <= i < name.len() ==> is_name_char(#[trigger] name[i])
}

/// An ASCII capital as a small letter; any other character as it is.
pub open spec fn lower_char(c: char) -> char {
    if 'A' <= c <= 'Z' {
        ((c as int) + 32) as char
    } else {
        c
    }
}

/// A text with its ASCII capitals as small letters.
pub open spec fn lower_text(text: Seq<char>) -> Seq<char> {
    text.map_values(|c: char| lower_char(c))
}

/// A capital turns into the small letter thirty-two places on; all else stays, and in its place.
pub proof fn lower_one_by_one(text: Seq<char>)
    ensures
        lower_text(text).len() == text.len(),
        forall|i: int|
            0 <= i < text.len() ==> #[trigger] lower_text(text)[i] == if 'A' <= text[i] <= 'Z' {
                ((text[i] as int) + 32) as char
            } else {
                text[i]
            },
{
}

/// A name that is held has its values, any other has none.
pub proof fn values_under_name(contents: Map<Seq<char>, Seq<Seq<u8>>>, name: Seq<char>)
    ensures
        contents.contains_key(name) ==> values_of(contents, name) == contents[name],
        !contents.contains_key(name) ==> values_of(contents, name).len() == 0,
{
}

/// A character that can be seen in print, or a space.
pub open spec fn is_printable(c: char) -> bool {
    ' ' <= c <= '~'
}

/// Calls `HeaderMap::new`: the map that it makes holds no header.
#[verifier::external_body]
pub(crate) fn no_headers() -> (headers: http::HeaderMap<http::HeaderValue>)
    ensures
        (header_contents(headers) == Map::<Seq<char>, Seq<Seq<u8>>>::empty()),
{
    http::HeaderMap::new()
}

/// Calls `HeaderMap::append`. The value comes behind those that the map holds under the name, whatever
/// the case of its letters; all else stays. The map has room for thousands of names, so that one with
/// fewer than a thousand can take another.
#[verifier::external_body]
pub(crate) fn append_header(
    headers: &mut http::HeaderMap<http::HeaderValue>,
    name: &str,
    value: &str,
)
    requires
        is_plain_name(name@),
        forall|i: int| 0 <= i < value@.len() ==> is_printable(#[trigger] value@[i]),
        header_contents(*old(headers)).dom().finite(),
        header_contents(*old(headers)).dom().len() < 1000,
    ensures
        header_contents(*final(headers)) == header_contents(*old(headers)).insert(
            lower_text(name@),
            values_of(header_contents(*old(headers)), lower_text(name@)).push(
                vstd::utf8::encode_utf8(value@),
            ),
        ),
{
    let key = http::HeaderName::from_bytes(name.as_bytes()).unwrap();
    headers.append(key, http::HeaderValue::from_str(value).unwrap());
}

/// Calls `HeaderMap::get`, which finds a name whatever the case of its letters and hands out the
/// first value under it. A name that is held has a value.
#[verifier::external_body]
pub(crate) fn first_header(
    headers: &http::HeaderMap<http::HeaderValue>,
    name: &str,
) -> (value: Option<Vec<u8>>)
    requires
        is_plain_name(name@),
    ensures
        value is Some <==> header_contents(*headers).contains_key(lower_text(name@)),
        value is Some ==> header_contents(*headers)[lower_text(name@)].len() > 0,
        value is Some ==> value->0@ == header_contents(*headers)[lower_text(name@)][0],
{
    headers.get(name).map(|value| value.as_bytes().to_vec())
}

} // verus!
