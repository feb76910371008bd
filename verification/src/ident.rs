//! How a client identifies itself to a Nominatim server.

use vstd::prelude::*;
use vstd::string::StringExecFns;

verus! {

/// The HTTP header by which a client identifies itself, with the header's value.
#[derive(Clone, Debug, PartialEq, Eq)]
pub enum IdentificationMethod {
    Referer(String),
    UserAgent(String),
}

impl IdentificationMethod {
    /// The name of the header that this method sets.
    pub open spec fn header_name(&self) -> Seq<char> {
        match self {
            IdentificationMethod::Referer(_) => "Referer"@,
            IdentificationMethod::UserAgent(_) => "User-Agent"@,
        }
    }

    /// The value that the header carries.
    pub open spec fn header_value(&self) -> Seq<char> {
        match self {
            IdentificationMethod::Referer(value) => value@,
            IdentificationMethod::UserAgent(value) => value@,
        }
    }

    /// The name of the header that this method sets.
    pub fn header(&self) -> (name: &'static str)
        ensures
            name@ == self.header_name(),
    {
        match self {
            IdentificationMethod::Referer(_) => "Referer",
            IdentificationMethod::UserAgent(_) => "User-Agent",
        }
    }

    /// The value that the header carries.
    pub fn value(self) -> (value: String)
        ensures
            value@ == self.header_value(),
    {
        match self {
            IdentificationMethod::Referer(value) => value,
            IdentificationMethod::UserAgent(value) => value,
        }
    }

    /// Identification by a `Referer` header with the value `s`.
    pub fn from_referer(s: &str) -> (ident: IdentificationMethod)
        ensures
            ident is Referer,
            ident.header_value() == s@,
    {
        IdentificationMethod::Referer(String::from_str(s))
    }

    /// Identification by a `User-Agent` header with the value `s`.
    pub fn from_user_agent(s: &str) -> (ident: IdentificationMethod)
        ensures
            ident is UserAgent,
            ident.header_value() == s@,
    {
        IdentificationMethod::UserAgent(String::from_str(s))
    }
}

} // verus!
