//! Percent-encoding of query text, as the `urlencoding` and `serde_urlencoded` crates do it.

use serde_urlencoded::ser::Error as FormError;
use vstd::prelude::*;
use vstd::utf8::encode_utf8;

verus! {

/// Declares `serde_urlencoded::ser::Error`, the reason why a value cannot be written as
/// form fields, as a type whose variants are not looked into.
#[verifier::external_type_specification]
#[verifier::external_body]
pub struct ExFormError(FormError);

/// The character for one hexadecimal digit, in upper case.
pub open spec fn hex_digit(n: nat) -> char
    recommends
        n < 16,
{
    if n < 10 {
        ('0' as nat + n) as char
    } else {
        ('A' as nat + n - 10) as char
    }
}

/// A percent sign and the two hexadecimal digits of `b`.
pub open spec fn percent_escape(b: u8) -> Seq<char> {
    seq!['%', hex_digit(b as nat / 16), hex_digit(b as nat % 16)]
}

/// Whether `b` is an ASCII letter or digit.
pub open spec fn is_alphanumeric(b: u8) -> bool {
    ||| '0' as u8 <= b <= '9' as u8
    ||| 'A' as u8 <= b <= 'Z' as u8
    ||| 'a' as u8 <= b <= 'z' as u8
}

/// Whether `b` is one of the bytes that a URL component may hold as it is: an ASCII letter
/// or digit, `-`, `_`, `.` or `~`.
pub open spec fn is_unreserved(b: u8) -> bool {
    is_alphanumeric(b) || b == '-' as u8 || b == '_' as u8 || b == '.' as u8 || b == '~' as u8
}

/// What stands for the byte `b` in a percent-encoded URL component.
pub open spec fn component_byte(b: u8) -> Seq<char> {
    if is_unreserved(b) {
        seq![b as char]
    } else {
        percent_escape(b)
    }
}

/// `text` as a URL component: its UTF-8 bytes, each unreserved one as it is and every other
/// one percent-escaped.
pub open spec fn percent_encoded(text: Seq<char>) -> Seq<char> {
    encode_utf8(text).map_values(|b: u8| component_byte(b)).flatten()
}

/// Whether `b` is one of the bytes that a form field may hold as it is: an ASCII letter or
/// digit, `*`, `-`, `.` or `_`.
pub open spec fn is_form_safe(b: u8) -> bool {
    is_alphanumeric(b) || b == '*' as u8 || b == '-' as u8 || b == '.' as u8 || b == '_' as u8
}

/// What stands for the byte `b` in a form field.
pub open spec fn form_byte(b: u8) -> Seq<char> {
    if is_form_safe(b) {
        seq![b as char]
    } else if b == ' ' as u8 {
        seq!['+']
    } else {
        percent_escape(b)
    }
}

/// `text` as the name or the value of a form field.
pub open spec fn form_component(text: Seq<char>) -> Seq<char> {
    encode_utf8(text).map_values(|b: u8| form_byte(b)).flatten()
}

/// One form field: its name, an equals sign and its value.
pub open spec fn form_pair(name: Seq<char>, value: Seq<char>) -> Seq<char> {
    form_component(name) + seq!['='] + form_component(value)
}

/// The fields in `application/x-www-form-urlencoded` syntax: each as `form_pair` writes it,
/// in order, with an ampersand between each two.
pub open spec fn form_encoded(pairs: Seq<(Seq<char>, Seq<char>)>) -> Seq<char>
    decreases pairs.len(),
{
    if pairs.len() == 0 {
        Seq::empty()
    } else if pairs.len() == 1 {
        form_pair(pairs[0].0, pairs[0].1)
    } else {
        form_encoded(pairs.drop_last()) + seq!['&'] + form_pair(pairs.last().0, pairs.last().1)
    }
}

/// The names and values that `pairs` holds.
pub open spec fn pair_texts(pairs: Seq<(&str, &str)>) -> Seq<(Seq<char>, Seq<char>)> {
    pairs.map_values(|pair: (&str, &str)| (pair.0@, pair.1@))
}

/// Calls `urlencoding::encode`, which percent-encodes every byte of the text's UTF-8 form but
/// ASCII letters and digits, `-`, `_`, `.` and `~`, with upper-case hexadecimal digits.
#[verifier::external_body]
pub(crate) fn percent_encode(text: &str) -> (r: String)
    ensures
        r@ == percent_encoded(text@),
{
    urlencoding::encode(text).into_owned()
}

/// Calls `serde_urlencoded::to_string` on a sequence of pairs of texts. It fails only on a
/// value that is no sequence of pairs, or on a name or a value that is no text, so on these
/// it succeeds; and it writes each pair as `name=value` in the form-urlencoded byte
/// serialization, with an ampersand between each two.
#[verifier::external_body]
pub(crate) fn form_encode(pairs: &Vec<(&str, &str)>) -> (r: Result<String, FormError>)
    ensures
        r is Ok,
        r matches Ok(text) ==> text@ == form_encoded(pair_texts(pairs@)),
{
    serde_urlencoded::to_string(pairs)
}

} // verus!
