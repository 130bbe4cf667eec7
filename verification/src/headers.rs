//! Response headers: when a name and a value are fit for a header, and what
//! appending a header does to a response's header map.

use vstd::prelude::*;
use vstd::utf8::encode_utf8;
use actix_web::http::header::{
    HeaderMap, HeaderName, HeaderValue, InvalidHeaderName, InvalidHeaderValue,
};

verus! {

/// Actix Web's header map, a multimap from header names to values.
#[verifier::external_type_specification]
#[verifier::external_body]
pub struct ExHeaderMap(HeaderMap);

/// The error of `HeaderName::try_from`.
#[verifier::external_type_specification]
#[verifier::external_body]
pub struct ExInvalidHeaderName(InvalidHeaderName);

/// The error of `HeaderValue::from_str`.
#[verifier::external_type_specification]
#[verifier::external_body]
pub struct ExInvalidHeaderValue(InvalidHeaderValue);

/// What a header map holds: for each header name in it, the values under that
/// name, oldest first. A name stands in its normalized (lower-case) spelling,
/// a value as its bytes.
pub uninterp spec fn header_lines(headers: HeaderMap) -> Map<Seq<char>, Seq<Seq<u8>>>;

/// What parsing `text` as a header name gives: the normalized spelling of the
/// name, or `None` where `text` is not a header name.
pub uninterp spec fn parsed_header_name(text: Seq<char>) -> Option<Seq<char>>;

/// A character that may stand in a header value given as text: anything but
/// the control characters, of which only the tab is let through.
pub open spec fn is_header_value_char(c: char) -> bool {
    (c as u32 >= 32 && c as u32 != 127) || c as u32 == 9
}

/// `text` can be made into a header value.
pub open spec fn is_header_value(text: Seq<char>) -> bool {
    forall|i: int| 0 <= i < text.len() ==> is_header_value_char(#[trigger] text[i])
}

/// The lines of a header map after one more value has been appended under
/// `name`: earlier values under that name stay, in their order, before it.
pub open spec fn with_line(
    lines: Map<Seq<char>, Seq<Seq<u8>>>,
    name: Seq<char>,
    value: Seq<u8>,
) -> Map<Seq<char>, Seq<Seq<u8>>> {
    let earlier = if lines.contains_key(name) {
        lines[name]
    } else {
        Seq::empty()
    };
    lines.insert(name, earlier.push(value))
}

/// Appending keeps what was there: the new value comes last under its name,
/// the earlier values of that name stay before it in their order, and the
/// lines of every other name are untouched.
pub proof fn lemma_with_line_keeps_earlier(
    lines: Map<Seq<char>, Seq<Seq<u8>>>,
    name: Seq<char>,
    value: Seq<u8>,
)
    ensures
        with_line(lines, name, value).contains_key(name),
        with_line(lines, name, value)[name].last() == value,
        lines.contains_key(name) ==> with_line(lines, name, value)[name].drop_last()
            == lines[name],
        !lines.contains_key(name) ==> with_line(lines, name, value)[name] == seq![value],
        forall|other: Seq<char>|
            other != name ==> (lines.contains_key(other) <==> #[trigger] with_line(
                lines,
                name,
                value,
            ).contains_key(other)),
        forall|other: Seq<char>|
            other != name && lines.contains_key(other) ==> #[trigger] with_line(
                lines,
                name,
                value,
            )[other] == lines[other],
{
    if lines.contains_key(name) {
        assert(lines[name].push(value).drop_last() == lines[name]);
    }
}

/// `HeaderName::try_from` on text accepts exactly the header names; which
/// texts those are, and how the crate spells each afterwards, is what
/// `parsed_header_name` stands for.
#[verifier::external_body]
pub(crate) fn check_header_name(text: &str) -> (checked: Result<(), InvalidHeaderName>)
    ensures
        checked is Ok <==> parsed_header_name(text@) is Some,
{
    match HeaderName::try_from(text) {
        Ok(_) => Ok(()),
        Err(error) => Err(error),
    }
}

/// `HeaderValue::from_str` accepts a text exactly when none of its bytes is a
/// control character other than the tab. For a piece of text that is the same
/// as to say it of its characters.
#[verifier::external_body]
pub(crate) fn check_header_value(text: &str) -> (checked: Result<(), InvalidHeaderValue>)
    ensures
        checked is Ok <==> is_header_value(text@),
{
    match HeaderValue::from_str(text) {
        Ok(_) => Ok(()),
        Err(error) => Err(error),
    }
}

/// `HeaderMap::append` adds the value to the end of the list kept under the
/// name, starting a new list where the name was absent, and touches no other
/// name. The name goes in as `HeaderName::try_from` spells it, the value with
/// the bytes of the text.
#[verifier::external_body]
pub(crate) fn append_line(headers: &mut HeaderMap, name: &str, value: &str)
    requires
        parsed_header_name(name@) is Some,
        is_header_value(value@),
    ensures
        header_lines(*final(headers)) == with_line(
            header_lines(*old(headers)),
            parsed_header_name(name@)->0,
            encode_utf8(value@),
        ),
{
    headers.append(HeaderName::try_from(name).unwrap(), HeaderValue::from_str(value).unwrap());
}

/// Why a header could not be attached to a response.
#[derive(Clone, Copy, Debug, PartialEq, Eq, Structural)]
pub enum HeaderError {
    /// The configured header name is not a header name.
    InvalidName,
    /// The identifier holds a character that no header value may hold.
    InvalidValue,
}

/// What `append_header` returns for a name and a value.
pub open spec fn append_outcome(name: Seq<char>, value: Seq<char>) -> Result<(), HeaderError> {
    if parsed_header_name(name) is None {
        Err(HeaderError::InvalidName)
    } else if !is_header_value(value) {
        Err(HeaderError::InvalidValue)
    } else {
        Ok(())
    }
}

/// What `append_header` makes of a header map: with a fit name and a fit
/// value, the value's bytes are appended under the name as a header name
/// spells it; otherwise the map stays as it was.
pub open spec fn appends(
    before: HeaderMap,
    after: HeaderMap,
    name: Seq<char>,
    value: Seq<char>,
    outcome: Result<(), HeaderError>,
) -> bool {
    &&& outcome == append_outcome(name, value)
    &&& outcome is Ok ==> header_lines(after) == with_line(
        header_lines(before),
        parsed_header_name(name)->0,
        encode_utf8(value),
    )
    &&& outcome is Err ==> after == before
}

/// A header map to which a value could be appended carries that value as the
/// last one under the given name, whatever else it held.
pub proof fn lemma_appended_value_is_carried(
    before: HeaderMap,
    after: HeaderMap,
    name: Seq<char>,
    value: Seq<char>,
)
    requires
        appends(before, after, name, value, Ok(())),
    ensures
        parsed_header_name(name) is Some,
        is_header_value(value),
        header_lines(after).contains_key(parsed_header_name(name)->0),
        header_lines(after)[parsed_header_name(name)->0].last() == encode_utf8(value),
{
}

/// Appends the header `name: value` to `headers`. Values already present under
/// the same name are kept. With a name or a value that is unfit for a header
/// nothing is appended and the error says which of the two it was, the name
/// first.
pub fn append_header(headers: &mut HeaderMap, name: &str, value: &str) -> (outcome: Result<
    (),
    HeaderError,
>)
    ensures
        appends(*old(headers), *final(headers), name@, value@, outcome),
{
    if check_header_name(name).is_err() {
        return Err(HeaderError::InvalidName);
    }
    if check_header_value(value).is_err() {
        return Err(HeaderError::InvalidValue);
    }
    append_line(headers, name, value);
    Ok(())
}

} // verus!
