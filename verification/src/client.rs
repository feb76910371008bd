//! The client's configuration and the requests that it issues.

use crate::error::Error;
use crate::header::is_sendable;
use crate::header::mk_headers;
use crate::header::Header;
use crate::ident::IdentificationMethod;
use crate::model::StructuredSearch;
use crate::query::lookup_query;
use crate::query::lookup_query_text;
use crate::query::parts;
use crate::query::reverse_query;
use crate::query::reverse_query_text;
use crate::query::search_query;
use crate::query::search_query_text;
use crate::query::status_query;
use crate::query::status_query_text;
use crate::query::structured_query;
use crate::query::structured_query_text;
use crate::encoding::form_encoded;
use crate::text::texts;
use crate::uri::as_directory;
use crate::uri::directory;
use crate::uri::has_room;
use crate::uri::joined;
use crate::uri::parsed;
use crate::uri::room_for;
use crate::uri::url_text;
use crate::uri::with_query;
use url::Url;
use vstd::prelude::*;

verus! {

/// The server that a client asks unless it is given another.
pub const DEFAULT_BASE_URL: &'static str = "https://nominatim.openstreetmap.org/";

/// How long a request may take unless the client is told otherwise, in milliseconds.
pub const DEFAULT_TIMEOUT_MS: u64 = 10_000;

/// One HTTP GET request, ready to be sent.
#[derive(Clone, Debug, PartialEq, Eq)]
pub struct Request {
    pub url: String,
    pub headers: Vec<Header>,
    pub timeout_ms: u64,
}

/// The configuration with which a Nominatim server is asked.
#[derive(Clone, Debug)]
pub struct Client {
    ident: IdentificationMethod,
    base_url: Url,
    timeout_ms: u64,
}

impl Client {
    /// How the client identifies itself.
    pub closed spec fn identification(&self) -> IdentificationMethod {
        self.ident
    }

    /// The serialization of the URL of the server that the client asks.
    pub closed spec fn base(&self) -> Seq<char> {
        url_text(self.base_url)
    }

    /// How long a request may take, in milliseconds.
    pub closed spec fn timeout(&self) -> u64 {
        self.timeout_ms
    }

    /// Whether `request` carries the client's identification, and no other header, and the
    /// client's timeout.
    pub open spec fn configures(&self, request: Request) -> bool {
        &&& request.headers@.len() == 1
        &&& request.headers@[0].name@ == self.identification().header_name()
        &&& request.headers@[0].value@ == self.identification().header_value()
        &&& request.timeout_ms == self.timeout()
    }

    /// Whether `outcome` is what comes of asking for `query` at `endpoint`: a request for
    /// the endpoint with that query, with the client's header and timeout; `InvalidUrl`
    /// where there is no endpoint; else `TooLong` where the endpoint has no room for the
    /// query; else `InvalidHeader` where the identification cannot be sent.
    pub open spec fn issues(
        &self,
        endpoint: Option<Seq<char>>,
        query: Seq<char>,
        outcome: Result<Request, Error>,
    ) -> bool {
        match endpoint {
            Some(url) => if !has_room(url, query) {
                outcome == Err::<Request, Error>(Error::TooLong)
            } else if !is_sendable(self.identification()) {
                outcome == Err::<Request, Error>(Error::InvalidHeader)
            } else {
                &&& outcome matches Ok(request)
                &&& request.url@ == with_query(url, query)
                &&& self.configures(request)
            },
            None => outcome matches Err(Error::InvalidUrl(_)),
        }
    }

    /// Whether `outcome` is what comes of asking for `query` at the endpoint `name` of the
    /// server: what `issues` says of the endpoint that `name` resolves to against the base
    /// URL with its path closed by a slash, so that the endpoint stands below the whole
    /// path of the base; `TooLong` where the base has no room for the slash.
    pub open spec fn issues_below(
        &self,
        name: Seq<char>,
        query: Seq<char>,
        outcome: Result<Request, Error>,
    ) -> bool {
        match as_directory(self.base()) {
            Some(base) => self.issues(joined(base, name), query, outcome),
            None => outcome == Err::<Request, Error>(Error::TooLong),
        }
    }

    /// A client that asks the server at `base_url`, or at `DEFAULT_BASE_URL` where none is
    /// given, and lets a request take `DEFAULT_TIMEOUT_MS`. Fails where the base URL is no
    /// absolute URL.
    pub fn new(ident: IdentificationMethod, base_url: Option<&str>) -> (r: Result<Client, Error>)
        ensures
            match parsed(
                match base_url {
                    Some(url) => url@,
                    None => DEFAULT_BASE_URL@,
                },
            ) {
                Some(text) => {
                    &&& r matches Ok(client)
                    &&& client.base() == text
                    &&& client.identification() == ident
                    &&& client.timeout() == DEFAULT_TIMEOUT_MS
                },
                None => r matches Err(Error::InvalidUrl(_)),
            },
    {
        let text = match base_url {
            Some(url) => url,
            None => DEFAULT_BASE_URL,
        };
        match Url::parse(text) {
            Ok(base_url) => Ok(Client { ident, base_url, timeout_ms: DEFAULT_TIMEOUT_MS }),
            Err(e) => Err(Error::InvalidUrl(e)),
        }
    }

    /// Replaces the identification.
    pub fn set_ident(&mut self, ident: IdentificationMethod)
        ensures
            final(self).identification() == ident,
            final(self).base() == old(self).base(),
            final(self).timeout() == old(self).timeout(),
    {
        self.ident = ident;
    }

    /// Replaces the base URL where `url` is an absolute URL; fails, and changes nothing,
    /// where it is not.
    pub fn set_base_url(&mut self, url: &str) -> (r: Result<(), Error>)
        ensures
            match parsed(url@) {
                Some(text) => {
                    &&& r is Ok
                    &&& final(self).base() == text
                    &&& final(self).identification() == old(self).identification()
                    &&& final(self).timeout() == old(self).timeout()
                },
                None => r matches Err(Error::InvalidUrl(_)) && *final(self) == *old(self),
            },
    {
        match Url::parse(url) {
            Ok(base_url) => {
                self.base_url = base_url;
                Ok(())
            },
            Err(e) => Err(Error::InvalidUrl(e)),
        }
    }

    /// Replaces the time that a request may take.
    pub fn set_timeout(&mut self, timeout_ms: u64)
        ensures
            final(self).timeout() == timeout_ms,
            final(self).base() == old(self).base(),
            final(self).identification() == old(self).identification(),
    {
        self.timeout_ms = timeout_ms;
    }

    /// How the client identifies itself.
    pub fn ident(&self) -> (ident: &IdentificationMethod)
        ensures
            *ident == self.identification(),
    {
        &self.ident
    }

    /// The URL of the server that the client asks.
    pub fn base_url(&self) -> (url: &str)
        ensures
            url@ == self.base(),
    {
        self.base_url.as_str()
    }

    /// How long a request may take, in milliseconds.
    pub fn timeout_ms(&self) -> (timeout_ms: u64)
        ensures
            timeout_ms == self.timeout(),
    {
        self.timeout_ms
    }

    /// The request for `query` at the URL `url`.
    fn request(&self, url: Url, query: &str) -> (r: Result<Request, Error>)
        ensures
            self.issues(Some(url_text(url)), query@, r),
    {
        let mut url = url;
        if !room_for(url.as_str().as_bytes().len(), query.as_bytes().len()) {
            return Err(Error::TooLong);
        }
        url.set_query(Some(query));
        let headers = mk_headers(&self.ident)?;
        Ok(Request { url: url.as_str().to_owned(), headers, timeout_ms: self.timeout_ms })
    }

    /// The request for `query` at the endpoint `name` below the base URL.
    fn request_at(&self, name: &str, query: &str) -> (r: Result<Request, Error>)
        ensures
            self.issues_below(name@, query@, r),
    {
        match directory(&self.base_url) {
            Some(base) => match base.join(name) {
                Ok(url) => self.request(url, query),
                Err(e) => Err(Error::InvalidUrl(e)),
            },
            None => Err(Error::TooLong),
        }
    }

    /// The request that asks for the server's status, at `status.php` below the base URL.
    pub fn status(&self) -> (r: Result<Request, Error>)
        ensures
            self.issues_below("status.php"@, status_query_text(), r),
    {
        let query = status_query();
        self.request_at("status.php", query.as_str())
    }

    /// The request that searches for `query`, at the base URL itself.
    pub fn search(&self, query: &str) -> (r: Result<Request, Error>)
        ensures
            self.issues(Some(self.base()), search_query_text(query@), r),
    {
        let text = search_query(query);
        self.request(self.base_url.clone(), text.as_str())
    }

    /// The request that searches for the parts of an address that `params` asks for, at the
    /// base URL itself. Each part that is asked for is sent, and no other.
    pub fn search_structured(&self, params: StructuredSearch) -> (r: Result<Request, Error>)
        ensures
            self.issues(
                Some(self.base()),
                structured_query_text(form_encoded(parts(params))),
                r,
            ),
    {
        let text = structured_query(&params);
        self.request(self.base_url.clone(), text.as_str())
    }

    /// The request that looks up the place at the given coordinates, at `reverse` below the
    /// base URL.
    pub fn reverse(&self, latitude: &str, longitude: &str, zoom: Option<u8>) -> (r: Result<
        Request,
        Error,
    >)
        ensures
            self.issues_below("reverse"@, reverse_query_text(latitude@, longitude@, zoom), r),
    {
        let query = reverse_query(latitude, longitude, zoom);
        self.request_at("reverse", query.as_str())
    }

    /// The request that looks up the places with the given OSM ids, at `lookup` below the
    /// base URL.
    pub fn lookup(&self, queries: Vec<&str>) -> (r: Result<Request, Error>)
        ensures
            self.issues_below("lookup"@, lookup_query_text(texts(queries@)), r),
    {
        let query = lookup_query(&queries);
        self.request_at("lookup", query.as_str())
    }
}

} // verus!
