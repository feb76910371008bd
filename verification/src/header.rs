//! The header by which a client identifies itself.

use crate::error::Error;
use crate::ident::IdentificationMethod;
use reqwest::header::HeaderValue;
use vstd::prelude::*;
use vstd::utf8::encode_utf8;

verus! {

/// One HTTP header.
#[derive(Clone, Debug, PartialEq, Eq)]
pub struct Header {
    pub name: &'static str,
    pub value: String,
}

/// Whether a header's value may hold the byte `b`: any byte but the control bytes, and
/// among the control bytes the tab.
pub open spec fn is_header_byte(b: u8) -> bool {
    (b >= 32 && b != 127) || b == 9
}

/// Whether `value` can be the value of a header: whether its UTF-8 form holds no other
/// bytes than those that `is_header_byte` admits.
pub open spec fn is_header_value(value: Seq<char>) -> bool {
    forall|i: int|
        0 <= i < encode_utf8(value).len() ==> is_header_byte(#[trigger] encode_utf8(value)[i])
}

/// Whether `ident` can be sent: whether its value can be the value of a header.
pub open spec fn is_sendable(ident: IdentificationMethod) -> bool {
    is_header_value(ident.header_value())
}

/// Calls `HeaderValue::from_str`, which makes a header value of a text exactly where each
/// byte of the text is at least 32 and not 127, or is 9.
#[verifier::external_body]
pub(crate) fn accepts(value: &str) -> (r: bool)
    ensures
        r == is_header_value(value@),
{
    HeaderValue::from_str(value).is_ok()
}

/// The headers that identify a client: one header, with the name and the value of `ident`.
/// Fails where the value cannot be the value of a header.
pub fn mk_headers(ident: &IdentificationMethod) -> (r: Result<Vec<Header>, Error>)
    ensures
        match r {
            Ok(headers) => {
                &&& is_sendable(*ident)
                &&& headers@.len() == 1
                &&& headers@[0].name@ == ident.header_name()
                &&& headers@[0].value@ == ident.header_value()
            },
            Err(e) => e == Error::InvalidHeader && !is_sendable(*ident),
        },
{
    let name = ident.header();
    let value = match ident {
        IdentificationMethod::Referer(value) => value.clone(),
        IdentificationMethod::UserAgent(value) => value.clone(),
    };
    if !accepts(value.as_str()) {
        return Err(Error::InvalidHeader);
    }
    let mut headers = Vec::new();
    headers.push(Header { name, value });
    Ok(headers)
}

} // verus!
