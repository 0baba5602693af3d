//! Request composition: method, assembled URL, optional body and headers
//! brought together into one value ready to hand to a transport.

use vstd::prelude::*;
use vstd::utf8::encode_utf8;
use crate::error::RestError;
use crate::form::{form_encoded_pairs, form_urlencode, pairs_bytes};
use crate::urls::{parse_url, spec_with_query, url_parse_of, with_query};

verus! {

/// The request methods this library issues.
#[derive(Clone, Copy, Debug, PartialEq, Eq, Structural)]
pub enum Method {
    Get,
    Post,
    Put,
    Patch,
    Delete,
}

impl Method {
    /// The method's name as it appears on the wire.
    pub open spec fn name_view(&self) -> Seq<char> {
        match self {
            Method::Get => "GET"@,
            Method::Post => "POST"@,
            Method::Put => "PUT"@,
            Method::Patch => "PATCH"@,
            Method::Delete => "DELETE"@,
        }
    }

    /// The method's name as it appears on the wire.
    pub fn name(&self) -> (r: String)
        ensures
            r@ == self.name_view(),
    {
        match self {
            Method::Get => String::from_str("GET"),
            Method::Post => String::from_str("POST"),
            Method::Put => String::from_str("PUT"),
            Method::Patch => String::from_str("PATCH"),
            Method::Delete => String::from_str("DELETE"),
        }
    }
}

/// A fully assembled outbound request: the URL has been parsed and the
/// parameters merged into its query, the declared content length is fixed,
/// and the content type is attached only when one was given.
pub struct ComposedRequest {
    pub method: Method,
    pub url: String,
    pub body: Option<String>,
    pub content_length: usize,
    pub content_type: Option<String>,
}

impl ComposedRequest {
    /// The declared content length is always set: to the byte length of the
    /// body when there is one, and to exactly zero when there is none, so
    /// that a transport never falls back to chunked transfer encoding.
    pub open spec fn well_formed(&self) -> bool {
        self.content_length == (match self.body {
            Some(b) => encode_utf8(b@).len(),
            None => 0,
        })
    }

    /// Whether the body-writing phase has anything to write.
    pub fn wants_body(&self) -> (r: bool)
        ensures
            r == (self.body is Some),
    {
        self.body.is_some()
    }
}

/// An optional borrowed string, as an optional character sequence.
pub open spec fn opt_str_view(o: Option<&str>) -> Option<Seq<char>> {
    match o {
        Some(s) => Some(s@),
        None => None,
    }
}

/// The URL a call with these inputs sends to, assuming `url_str` parses:
/// the parsed URL's serialization, with the query replaced by the encoded
/// pairs when parameters were given and untouched otherwise.
pub open spec fn assembled_url_view(
    url_str: Seq<char>,
    params: Option<Seq<(Seq<u8>, Seq<u8>)>>,
) -> Seq<char> {
    match params {
        None => url_parse_of(url_str).unwrap(),
        Some(ps) => spec_with_query(url_parse_of(url_str).unwrap(), form_encoded_pairs(ps)),
    }
}

/// Field-for-field description of a composed request: the given method, the
/// given URL text, body and content type exactly as handed in, and the
/// declared content length equal to the body's byte length, zero without a
/// body.
pub open spec fn composed_as(
    c: ComposedRequest,
    method: Method,
    url: Seq<char>,
    body: Option<Seq<char>>,
    content_type: Option<Seq<char>>,
) -> bool {
    &&& c.method == method
    &&& c.url@ == url
    &&& (match (c.body, body) {
        (Some(a), Some(b)) => a@ == b,
        (None, None) => true,
        _ => false,
    })
    &&& c.content_length == (match body {
        Some(b) => encode_utf8(b).len(),
        None => 0,
    })
    &&& (match (c.content_type, content_type) {
        (Some(a), Some(b)) => a@ == b,
        (None, None) => true,
        _ => false,
    })
}

/// The whole contract of a composition call: it fails exactly when the URL
/// string does not parse, the failure is the URL-parse error, and on success
/// the composed request is as [`composed_as`] describes.
pub open spec fn compose_result_ok(
    r: Result<ComposedRequest, RestError>,
    method: Method,
    url_str: Seq<char>,
    params: Option<Seq<(Seq<u8>, Seq<u8>)>>,
    body: Option<Seq<char>>,
    content_type: Option<Seq<char>>,
) -> bool {
    &&& (r is Ok <==> url_parse_of(url_str) is Some)
    &&& (r matches Err(e) ==> e is UrlParseError)
    &&& (r matches Ok(c) ==> composed_as(
        c,
        method,
        assembled_url_view(url_str, params),
        body,
        content_type,
    ))
    &&& (r matches Ok(c) ==> c.well_formed())
}

/// Law: with no parameters the assembled URL is the parsed input, untouched:
/// no query merge is applied and no empty query is forced onto it.
pub proof fn lemma_assembled_url_unchanged(url_str: Seq<char>)
    ensures
        assembled_url_view(url_str, None) == url_parse_of(url_str).unwrap(),
{
}

/// Law: assembling a URL with a parameter list yields a URL whose query
/// component is exactly the form-urlencoded serialization of the pairs —
/// one percent-encoded `key=value` entry per input pair, `&` between
/// entries, in input order, and pairs with equal keys kept as separate
/// entries rather than merged.
pub proof fn lemma_assembled_query_entries(url_str: Seq<char>, ps: Seq<(Seq<u8>, Seq<u8>)>)
    ensures
        crate::urls::query_of(assembled_url_view(url_str, Some(ps))) == Some(
            form_encoded_pairs(ps),
        ),
        form_encoded_pairs(ps) == crate::form::amp_joined(
            ps.map_values(|p: (Seq<u8>, Seq<u8>)| crate::form::form_encoded_pair(p.0, p.1)),
        ),
{
    crate::form::lemma_form_encoded_pairs_safe(ps);
    crate::urls::lemma_query_of_with_query(
        url_parse_of(url_str).unwrap(),
        form_encoded_pairs(ps),
    );
}

/// The entry points.  Each call composes one request; a transport then
/// carries it out and its outcome is normalized by
/// [`crate::exchange::normalize`].
pub struct RestClient;

impl RestClient {
    /// The generic composition step all entry points reduce to: parse the
    /// URL, merge parameters into its query when given, fix the declared
    /// content length, attach the content type only when given.
    pub fn new(
        method: Method,
        url_str: &str,
        url_params: Option<&[(&str, &str)]>,
        body: Option<&str>,
        content_type: Option<&str>,
    ) -> (r: Result<ComposedRequest, RestError>)
        ensures
            compose_result_ok(
                r,
                method,
                url_str@,
                match url_params {
                    Some(ps) => Some(pairs_bytes(ps@)),
                    None => None,
                },
                opt_str_view(body),
                opt_str_view(content_type),
            ),
    {
        let parsed = match parse_url(url_str) {
            Ok(u) => u,
            Err(detail) => {
                return Err(RestError::UrlParseError(detail));
            },
        };
        let url = match url_params {
            Some(ps) => {
                let encoded = form_urlencode(ps);
                with_query(parsed.as_str(), encoded.as_str())
            },
            None => parsed,
        };
        let content_length: usize = match body {
            Some(b) => b.as_bytes().len(),
            None => 0,
        };
        let body_owned = match body {
            Some(b) => Some(b.to_owned()),
            None => None,
        };
        let content_type_owned = match content_type {
            Some(t) => Some(t.to_owned()),
            None => None,
        };
        Ok(
            ComposedRequest {
                method,
                url,
                body: body_owned,
                content_length,
                content_type: content_type_owned,
            },
        )
    }

    pub fn get(url_str: &str) -> (r: Result<ComposedRequest, RestError>)
        ensures
            compose_result_ok(r, Method::Get, url_str@, None, None, None),
    {
        RestClient::new(Method::Get, url_str, None, None, None)
    }

    pub fn get_with_params(url_str: &str, params: &[(&str, &str)]) -> (r: Result<
        ComposedRequest,
        RestError,
    >)
        ensures
            compose_result_ok(r, Method::Get, url_str@, Some(pairs_bytes(params@)), None, None),
    {
        RestClient::new(Method::Get, url_str, Some(params), None, None)
    }

    pub fn post_with_params(url_str: &str, params: &[(&str, &str)]) -> (r: Result<
        ComposedRequest,
        RestError,
    >)
        ensures
            compose_result_ok(
                r,
                Method::Post,
                url_str@,
                None,
                Some(form_encoded_pairs(pairs_bytes(params@))),
                Some("application/x-www-form-urlencoded"@),
            ),
    {
        RestClient::pstar_with_params(Method::Post, url_str, params)
    }

    pub fn post(url_str: &str, body: &str, content_type: &str) -> (r: Result<
        ComposedRequest,
        RestError,
    >)
        ensures
            compose_result_ok(r, Method::Post, url_str@, None, Some(body@), Some(content_type@)),
    {
        RestClient::pstar(Method::Post, url_str, body, content_type)
    }

    pub fn patch_with_params(url_str: &str, params: &[(&str, &str)]) -> (r: Result<
        ComposedRequest,
        RestError,
    >)
        ensures
            compose_result_ok(
                r,
                Method::Patch,
                url_str@,
                None,
                Some(form_encoded_pairs(pairs_bytes(params@))),
                Some("application/x-www-form-urlencoded"@),
            ),
    {
        RestClient::pstar_with_params(Method::Patch, url_str, params)
    }

    pub fn patch(url_str: &str, body: &str, content_type: &str) -> (r: Result<
        ComposedRequest,
        RestError,
    >)
        ensures
            compose_result_ok(r, Method::Patch, url_str@, None, Some(body@), Some(content_type@)),
    {
        RestClient::pstar(Method::Patch, url_str, body, content_type)
    }

    pub fn put_with_params(url_str: &str, params: &[(&str, &str)]) -> (r: Result<
        ComposedRequest,
        RestError,
    >)
        ensures
            compose_result_ok(
                r,
                Method::Put,
                url_str@,
                None,
                Some(form_encoded_pairs(pairs_bytes(params@))),
                Some("application/x-www-form-urlencoded"@),
            ),
    {
        RestClient::pstar_with_params(Method::Put, url_str, params)
    }

    pub fn put(url_str: &str, body: &str, content_type: &str) -> (r: Result<
        ComposedRequest,
        RestError,
    >)
        ensures
            compose_result_ok(r, Method::Put, url_str@, None, Some(body@), Some(content_type@)),
    {
        RestClient::pstar(Method::Put, url_str, body, content_type)
    }

    pub fn delete(url_str: &str) -> (r: Result<ComposedRequest, RestError>)
        ensures
            compose_result_ok(r, Method::Delete, url_str@, None, None, None),
    {
        RestClient::new(Method::Delete, url_str, None, None, None)
    }

    pub fn delete_with_params(url_str: &str, params: &[(&str, &str)]) -> (r: Result<
        ComposedRequest,
        RestError,
    >)
        ensures
            compose_result_ok(r, Method::Delete, url_str@, Some(pairs_bytes(params@)), None, None),
    {
        RestClient::new(Method::Delete, url_str, Some(params), None, None)
    }

    /// The shared shape of the raw-body entry points: body and content type
    /// are taken as given, parameters play no part.
    fn pstar(method: Method, url_str: &str, body: &str, content_type: &str) -> (r: Result<
        ComposedRequest,
        RestError,
    >)
        ensures
            compose_result_ok(r, method, url_str@, None, Some(body@), Some(content_type@)),
    {
        RestClient::new(method, url_str, None, Some(body), Some(content_type))
    }

    /// The shared shape of the parameter-form entry points: the body is the
    /// form-urlencoded serialization of the pairs, and the content type is
    /// always `application/x-www-form-urlencoded`, whatever else the call
    /// chain carries.
    fn pstar_with_params(method: Method, url_str: &str, params: &[(&str, &str)]) -> (r: Result<
        ComposedRequest,
        RestError,
    >)
        ensures
            compose_result_ok(
                r,
                method,
                url_str@,
                None,
                Some(form_encoded_pairs(pairs_bytes(params@))),
                Some("application/x-www-form-urlencoded"@),
            ),
    {
        let encoded = form_urlencode(params);
        RestClient::pstar(method, url_str, encoded.as_str(), "application/x-www-form-urlencoded")
    }
}

} // verus!
