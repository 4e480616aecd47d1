//! The header set that requests start from, kept in a
//! `reqwest::header::HeaderMap`.
//!
//! Verus cannot look inside the map, so this module gives its contents a
//! name, [`header_entries`], and states for each map operation the library
//! uses what it does to them. Everything else in the crate reasons from these
//! statements.

use reqwest::header::{HeaderMap, HeaderValue};
use vstd::prelude::*;

verus! {

/// `reqwest::header::HeaderMap`: a set of headers. What one holds is
/// spoken of through [`header_entries`].
#[verifier::external_type_specification]
#[verifier::external_body]
#[verifier::reject_recursive_types(T)]
pub struct ExHeaderMap<T>(HeaderMap<T>);

/// `reqwest::header::HeaderValue`: the value of one header.
#[verifier::external_type_specification]
#[verifier::external_body]
pub struct ExHeaderValue(HeaderValue);

/// Header fields as the contracts see them: lower-case name to value text.
pub type HeaderFields = Map<Seq<char>, Seq<char>>;

/// A map takes a new name without complaint while it holds fewer names than
/// this. (It grows by doubling, up to 32768 slots, and asks for more only
/// when at least a fifth of them are taken.)
pub const HEADER_NAMES_MAX: usize = 4096;

/// The headers that a map holds: each name, in lower case, with the text of
/// the first value filed under it.
pub uninterp spec fn header_entries(map: HeaderMap<HeaderValue>) -> HeaderFields;

/// A character that may stand in a header value: anything but a control
/// character, with the tab allowed.
pub open spec fn is_value_char(c: char) -> bool {
    (c as u32 >= 32 && c as u32 != 127) || c == '\t'
}

/// Text that can be sent as a header value.
pub open spec fn valid_header_value(value: Seq<char>) -> bool {
    forall|i: int| 0 <= i < value.len() ==> is_value_char(#[trigger] value[i])
}

/// A character of an HTTP token: a letter, a digit, or one of
/// ``!#$%&'*+-.^_`|~``.
pub open spec fn is_name_char(c: char) -> bool {
    ||| 'a' <= c <= 'z'
    ||| 'A' <= c <= 'Z'
    ||| '0' <= c <= '9'
    ||| c == '!'
    ||| c == '#'
    ||| c == '$'
    ||| c == '%'
    ||| c == '&'
    ||| c == '\''
    ||| c == '*'
    ||| c == '+'
    ||| c == '-'
    ||| c == '.'
    ||| c == '^'
    ||| c == '_'
    ||| c == '`'
    ||| c == '|'
    ||| c == '~'
}

/// Text that can be used as a header name: a token of 1 to 65535 characters.
pub open spec fn valid_header_name(name: Seq<char>) -> bool {
    &&& 0 < name.len() <= 65535
    &&& forall|i: int| 0 <= i < name.len() ==> is_name_char(#[trigger] name[i])
}

/// An upper-case ASCII letter turned to lower case; any other character as
/// it is.
pub open spec fn lower_char(c: char) -> char {
    if 'A' <= c <= 'Z' {
        ((c as u8) + 32) as char
    } else {
        c
    }
}

/// The name under which a header is filed: header names do not distinguish
/// case, and the map keeps them in lower case.
pub open spec fn header_key(name: Seq<char>) -> Seq<char> {
    Seq::new(name.len(), |i: int| lower_char(name[i]))
}

/// Whether a lookup of `name` finds a header: the name is a token, and a
/// header is filed under it, in whatever case it is written.
pub open spec fn has_header(fields: HeaderFields, name: Seq<char>) -> bool {
    valid_header_name(name) && fields.contains_key(header_key(name))
}

/// Whether every name under which a header is filed is a token.
pub open spec fn all_names_valid(fields: HeaderFields) -> bool {
    forall|name: Seq<char>| #[trigger] fields.contains_key(name) ==> valid_header_name(name)
}

/// The text of an optional string.
pub open spec fn text_of(text: Option<String>) -> Option<Seq<char>> {
    match text {
        Some(s) => Some(s@),
        None => None,
    }
}

/// Whether `found` is what a lookup of `name` gives.
///
/// Under a token the lookup gives the value filed under it, in whatever
/// case the name is written, or nothing where there is none. Under a name
/// that is no token it gives nothing, as long as every header is filed under
/// a token; of other maps nothing is said.
pub open spec fn is_lookup(fields: HeaderFields, name: Seq<char>, found: Option<Seq<char>>)
    -> bool {
    if valid_header_name(name) {
        found == if fields.contains_key(header_key(name)) {
            Some(fields[header_key(name)])
        } else {
            None
        }
    } else {
        all_names_valid(fields) ==> found is None
    }
}

/// The name of the header that carries the project's API key.
pub open spec fn api_key_header() -> Seq<char> {
    "apikey"@
}

/// The name, as a map files it, of the header that carries the bearer token.
pub open spec fn authorization_header() -> Seq<char> {
    "authorization"@
}

/// The value of the authorization header for an access token: the word
/// `Bearer`, a space, and the token.
pub open spec fn bearer(token: Seq<char>) -> Seq<char> {
    "Bearer "@ + token
}

/// `apikey` and `Authorization` are header names, filed as `apikey` and
/// `authorization`, which differ.
pub proof fn lemma_default_header_names()
    ensures
        valid_header_name("apikey"@),
        valid_header_name("Authorization"@),
        header_key("apikey"@) == api_key_header(),
        header_key("Authorization"@) == authorization_header(),
        valid_header_name(api_key_header()),
        valid_header_name(authorization_header()),
        api_key_header() != authorization_header(),
{
    reveal_strlit("apikey");
    reveal_strlit("Authorization");
    reveal_strlit("authorization");
    assert(header_key("apikey"@) =~= "apikey"@);
    assert(header_key("Authorization"@) =~= "authorization"@);
    assert("apikey"@.len() != "authorization"@.len());
}

/// The name under which a header is filed is a token if the name it was
/// given under is one.
pub proof fn lemma_header_key_is_valid(name: Seq<char>)
    requires
        valid_header_name(name),
    ensures
        valid_header_name(header_key(name)),
{
    let key = header_key(name);
    assert forall|i: int| 0 <= i < key.len() implies is_name_char(#[trigger] key[i]) by {
        assert(is_name_char(name[i]));
    }
}

/// A token free of control characters gives a bearer value free of them.
pub proof fn lemma_bearer_is_valid(token: Seq<char>)
    requires
        valid_header_value(token),
    ensures
        valid_header_value(bearer(token)),
{
    reveal_strlit("Bearer ");
    let value = bearer(token);
    assert forall|i: int| 0 <= i < value.len() implies is_value_char(#[trigger] value[i]) by {
        if i >= 7 {
            assert(value[i] == token[i - 7]);
        }
    }
}

/// `HeaderMap::new` gives a map without headers.
#[verifier::external_body]
pub(crate) fn empty_headers() -> (headers: HeaderMap<HeaderValue>)
    ensures
        header_entries(headers) == HeaderFields::empty(),
{
    HeaderMap::new()
}

/// `HeaderMap::insert`, with the value made by `HeaderValue::from_str`.
///
/// The value takes the place of whatever was filed under the name, whatever
/// the case the name is written in; the other headers stay. The outside code
/// panics on a value with a control character, on a name that is no token,
/// and when the map cannot grow: the conditions leave those out.
#[verifier::external_body]
pub(crate) fn set_header(headers: &mut HeaderMap<HeaderValue>, name: &'static str, value: &str)
    requires
        valid_header_name(name@),
        valid_header_value(value@),
        header_entries(*old(headers)).dom().finite(),
        header_entries(*old(headers)).dom().len() < HEADER_NAMES_MAX,
    ensures
        header_entries(*final(headers)) == header_entries(*old(headers)).insert(
            header_key(name@),
            value@,
        ),
{
    headers.insert(name, HeaderValue::from_str(value).unwrap());
}

/// `HeaderMap::get`, with the value read as text.
///
/// Under a token the answer is the first value filed under the name,
/// whatever the case the name is written in, and `None` where there is
/// none. A name that is no token finds nothing in a map whose headers are
/// all filed under tokens. (A long name that is no token can be found again
/// in a map that holds it: the contract is silent there.)
#[verifier::external_body]
pub(crate) fn get_header(headers: &HeaderMap<HeaderValue>, name: &str) -> (found: Option<String>)
    ensures
        is_lookup(header_entries(*headers), name@, text_of(found)),
{
    match headers.get(name) {
        Some(found) => Some(String::from_utf8_lossy(found.as_bytes()).into_owned()),
        None => None,
    }
}

/// `HeaderMap::keys_len`: how many names the map holds.
#[verifier::external_body]
pub(crate) fn count_headers(headers: &HeaderMap<HeaderValue>) -> (count: usize)
    ensures
        count == header_entries(*headers).dom().len(),
{
    headers.keys_len()
}

/// `HeaderMap::clone`: a second map with the same headers.
#[verifier::external_body]
pub(crate) fn copy_headers(headers: &HeaderMap<HeaderValue>) -> (copy: HeaderMap<HeaderValue>)
    ensures
        header_entries(copy) == header_entries(*headers),
{
    headers.clone()
}

/// Whether `value` can be sent as a header value.
pub fn is_valid_header_value(value: &str) -> (ok: bool)
    ensures
        ok == valid_header_value(value@),
{
    let mut ok = true;
    for c in it: value.chars()
        invariant
            it.seq() == value@,
            ok == forall|i: int| 0 <= i < it.index() ==> is_value_char(#[trigger] value@[i]),
    {
        let code: u32 = c as u32;
        if !((code >= 32 && code != 127) || c == '\t') {
            ok = false;
        }
    }
    ok
}

/// Whether `name` can be used as a header name.
pub fn is_valid_header_name(name: &str) -> (ok: bool)
    ensures
        ok == valid_header_name(name@),
{
    let mut ok = true;
    let mut count: usize = 0;
    for c in it: name.chars()
        invariant
            it.seq() == name@,
            count == if it.index() <= 65536 {
                it.index()
            } else {
                65536
            },
            ok == forall|i: int| 0 <= i < it.index() ==> is_name_char(#[trigger] name@[i]),
    {
        if count < 65536 {
            count = count + 1;
        }
        let token_char = ('a' <= c && c <= 'z') || ('A' <= c && c <= 'Z') || ('0' <= c && c <= '9')
            || c == '!' || c == '#' || c == '$' || c == '%' || c == '&' || c == '\'' || c == '*'
            || c == '+' || c == '-' || c == '.' || c == '^' || c == '_' || c == '`' || c == '|'
            || c == '~';
        if !token_char {
            ok = false;
        }
    }
    ok && 0 < count && count <= 65535
}

} // verus!
