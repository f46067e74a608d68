//! The client value and the request shapes it produces.
//!
//! An `EsClient` holds the store's host, port and resolved protocol version.
//! Its methods assemble the URL and HTTP verb for each operation family as a
//! [`RequestPlan`]; performing the request over the network is the caller's
//! business.

use vstd::prelude::*;
use vstd::string::StringExecFns;

use crate::text::dec_rep;
use crate::text::dec_str;

verus! {

/// The major protocol versions of the store that the client recognises.
#[derive(Debug, PartialEq, Eq, Structural, Clone, Copy)]
pub enum Version {
    Es5,
    Es6,
    Es7,
}

/// The HTTP verb of a planned request.
#[derive(Debug, PartialEq, Eq, Structural, Clone, Copy)]
pub enum Method {
    Get,
    Put,
    Post,
    Delete,
}

/// One fully shaped HTTP request: a verb and a complete URL. The caller
/// performs it and hands the response's status code and body text back to
/// the response classifiers.
#[derive(Debug)]
pub struct RequestPlan {
    pub method: Method,
    pub url: String,
}

pub ghost struct RequestPlanV {
    pub method: Method,
    pub url: Seq<char>,
}

impl View for RequestPlan {
    type V = RequestPlanV;

    open spec fn view(&self) -> RequestPlanV {
        RequestPlanV { method: self.method, url: self.url@ }
    }
}

/// A connection to the store: host, port, and the protocol version resolved
/// from the store's info endpoint.
#[derive(Debug)]
pub struct EsClient {
    pub host: String,
    pub port: String,
    pub version: Version,
}

/// Whether operations address a bare index or an index together with a
/// legacy document type.
pub enum IndexPattern<'a> {
    Index(&'a str),
    IndexType(&'a str, &'a str),
}

/// An optional path segment appended after a `/`, or nothing.
pub open spec fn join_segment(base: Seq<char>, seg: Option<Seq<char>>) -> Seq<char> {
    match seg {
        Some(s) => base + "/"@ + s,
        None => base,
    }
}

/// The document-type segment: the caller's type, or the store's type-less
/// `_doc` placeholder.
pub open spec fn doc_type_segment(doc_type: Option<Seq<char>>) -> Seq<char> {
    match doc_type {
        Some(t) => t,
        None => "_doc"@,
    }
}

impl EsClient {
    /// The base `host:port` prefix of every URL this client produces.
    pub open spec fn base_url(&self) -> Seq<char> {
        self.host@ + ":"@ + self.port@
    }

    /// A client for the given host and port; the version field starts at the
    /// conventional default and is overwritten once it has been resolved
    /// against the store.
    pub fn new(host: &str, port: u16) -> (r: EsClient)
        ensures
            r.host@ == host@,
            r.port@ == dec_rep(port as nat),
            r.version == Version::Es6,
    {
        EsClient { host: String::from_str(host), port: dec_str(port as u64), version: Version::Es6 }
    }

    /// Records the protocol version resolved from the store.
    pub fn set_version(&mut self, version: Version)
        ensures
            final(self).host == old(self).host,
            final(self).port == old(self).port,
            final(self).version == version,
    {
        self.version = version;
    }

    /// The `host:port` base URL.
    pub fn get_url(&self) -> (r: String)
        ensures
            r@ == self.base_url(),
    {
        let mut url = self.host.clone();
        url.append(":");
        url.append(self.port.as_str());
        proof {
            assert(url@ =~= self.base_url());
        }
        url
    }

    /// A GET of the base URL, or of one endpoint below it.
    pub fn get(&self, endpoint: Option<&str>) -> (r: RequestPlan)
        ensures
            r.method == Method::Get,
            r.url@ == join_segment(self.base_url(), endpoint.deep_view()),
    {
        let mut url = self.get_url();
        if let Some(endpoint) = endpoint {
            url.append("/");
            url.append(endpoint);
        }
        proof {
            assert(url@ =~= join_segment(self.base_url(), endpoint.deep_view()));
        }
        RequestPlan { method: Method::Get, url }
    }

    /// A POST under an index, with optional document-type and action
    /// segments.
    pub fn post(&self, index: &str, doc_type: Option<&str>, action: Option<&str>) -> (r:
        RequestPlan)
        ensures
            r.method == Method::Post,
            r.url@ == join_segment(
                join_segment(self.base_url() + "/"@ + index@, doc_type.deep_view()),
                action.deep_view(),
            ),
    {
        let mut url = self.get_url();
        url.append("/");
        url.append(index);
        if let Some(doc_type) = doc_type {
            url.append("/");
            url.append(doc_type);
        }
        if let Some(action) = action {
            url.append("/");
            url.append(action);
        }
        proof {
            assert(url@ =~= join_segment(
                join_segment(self.base_url() + "/"@ + index@, doc_type.deep_view()),
                action.deep_view(),
            ));
        }
        RequestPlan { method: Method::Post, url }
    }

    /// A PUT of the base URL with optional index and document-type segments.
    pub fn put(&self, index: Option<&str>, doc_type: Option<&str>) -> (r: RequestPlan)
        ensures
            r.method == Method::Put,
            r.url@ == join_segment(
                join_segment(self.base_url(), index.deep_view()),
                doc_type.deep_view(),
            ),
    {
        let mut url = self.get_url();
        if let Some(index) = index {
            url.append("/");
            url.append(index);
        }
        if let Some(doc_type) = doc_type {
            url.append("/");
            url.append(doc_type);
        }
        proof {
            assert(url@ =~= join_segment(
                join_segment(self.base_url(), index.deep_view()),
                doc_type.deep_view(),
            ));
        }
        RequestPlan { method: Method::Put, url }
    }

    /// A PUT addressing one document by id, with an optional trailing
    /// operation segment.
    pub fn put_doc(&self, index: &str, doc_type: Option<&str>, id: &str, operation: Option<&str>)
        -> (r: RequestPlan)
        ensures
            r.method == Method::Put,
            r.url@ == join_segment(
                self.base_url() + "/"@ + index@ + "/"@ + doc_type_segment(doc_type.deep_view())
                    + "/"@ + id@,
                operation.deep_view(),
            ),
    {
        let mut url = self.get_url();
        url.append("/");
        url.append(index);
        url.append("/");
        match doc_type {
            Some(doc_type) => url.append(doc_type),
            None => url.append("_doc"),
        }
        url.append("/");
        url.append(id);
        if let Some(operation) = operation {
            url.append("/");
            url.append(operation);
        }
        proof {
            assert(url@ =~= join_segment(
                self.base_url() + "/"@ + index@ + "/"@ + doc_type_segment(doc_type.deep_view())
                    + "/"@ + id@,
                operation.deep_view(),
            ));
        }
        RequestPlan { method: Method::Put, url }
    }

    /// A POST addressing an index's documents, letting the store choose the
    /// new document's id.
    pub fn post_doc(&self, index: &str, doc_type: Option<&str>) -> (r: RequestPlan)
        ensures
            r.method == Method::Post,
            r.url@ == self.base_url() + "/"@ + index@ + "/"@ + doc_type_segment(
                doc_type.deep_view(),
            ),
    {
        let mut url = self.get_url();
        url.append("/");
        url.append(index);
        url.append("/");
        match doc_type {
            Some(doc_type) => url.append(doc_type),
            None => url.append("_doc"),
        }
        proof {
            assert(url@ =~= self.base_url() + "/"@ + index@ + "/"@ + doc_type_segment(
                doc_type.deep_view(),
            ));
        }
        RequestPlan { method: Method::Post, url }
    }

    /// A DELETE addressing one document by id.
    pub fn delete_doc_by_id(&self, index: &str, doc_type: Option<&str>, id: &str) -> (r:
        RequestPlan)
        ensures
            r.method == Method::Delete,
            r.url@ == self.base_url() + "/"@ + index@ + "/"@ + doc_type_segment(
                doc_type.deep_view(),
            ) + "/"@ + id@,
    {
        let mut url = self.get_url();
        url.append("/");
        url.append(index);
        url.append("/");
        match doc_type {
            Some(doc_type) => url.append(doc_type),
            None => url.append("_doc"),
        }
        url.append("/");
        url.append(id);
        proof {
            assert(url@ =~= self.base_url() + "/"@ + index@ + "/"@ + doc_type_segment(
                doc_type.deep_view(),
            ) + "/"@ + id@);
        }
        RequestPlan { method: Method::Delete, url }
    }
}

impl Default for EsClient {
    /// A client against the conventional local host and port, before version
    /// resolution.
    fn default() -> (r: EsClient)
        ensures
            r.host@ == "http://localhost"@,
            r.port@ == "9200"@,
            r.version == Version::Es6,
    {
        EsClient {
            host: String::from_str("http://localhost"),
            port: String::from_str("9200"),
            version: Version::Es6,
        }
    }
}

/// Whether `c` is a decimal digit.
pub open spec fn is_digit(c: char) -> bool {
    '0' <= c && c <= '9'
}

/// The first decimal digit of `s`, if any.
pub open spec fn first_digit_char(s: Seq<char>) -> Option<char>
    decreases s.len(),
{
    if s.len() == 0 {
        None
    } else if is_digit(s[0]) {
        Some(s[0])
    } else {
        first_digit_char(s.drop_first())
    }
}

/// The version named by a version string: its first decimal digit decides,
/// and only the three recognised majors are accepted.
pub open spec fn spec_version_of(s: Seq<char>) -> Option<Version> {
    match first_digit_char(s) {
        Some(c) => if c == '5' {
            Some(Version::Es5)
        } else if c == '6' {
            Some(Version::Es6)
        } else if c == '7' {
            Some(Version::Es7)
        } else {
            None
        },
        None => None,
    }
}

impl Version {
    /// Reads the major version out of the store's version string, e.g.
    /// `"6.8.6"`; `None` when the string names no recognised major version.
    pub fn from_version_string(s: &str) -> (r: Option<Version>)
        ensures
            r == spec_version_of(s@),
    {
        let n = s.unicode_len();
        let mut i: usize = 0;
        proof {
            assert(s@.subrange(0, n as int) =~= s@);
        }
        while i < n
            invariant
                n == s@.len(),
                0 <= i <= n,
                first_digit_char(s@) == first_digit_char(
                    s@.subrange(i as int, n as int),
                ),
            decreases n - i,
        {
            let c = s.get_char(i);
            let digit = '0' <= c && c <= '9';
            proof {
                let suffix = s@.subrange(i as int, n as int);
                assert(suffix[0] == c);
                assert(suffix.drop_first() =~= s@.subrange(i + 1 as int, n as int));
            }
            if digit {
                return if c == '5' {
                    Some(Version::Es5)
                } else if c == '6' {
                    Some(Version::Es6)
                } else if c == '7' {
                    Some(Version::Es7)
                } else {
                    None
                };
            }
            i += 1;
        }
        proof {
            assert(s@.subrange(n as int, n as int).len() == 0);
        }
        None
    }
}

} // verus!
