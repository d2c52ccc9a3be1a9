//! The translation endpoint's Cog: its typed request, how it becomes a
//! protocol request, and how a response body becomes the translated text.

use vstd::prelude::*;
use crate::cogs::Cog;
use crate::engine::Error as EngineError;
use crate::http::{HttpVersion, Method, Request, RequestView, Uri, UriView, fields_view};

verus! {

/// A Translation request.
#[derive(Clone, Copy, Debug)]
pub struct TranslateRequest<'a> {
    pub text: &'a str,
    pub from: Option<&'a str>,
    pub to: &'a str,
    pub content_type: Option<TranslateContentType>,
    pub category: Option<&'a str>,
}

/// Possible Content types for translation.
#[derive(Clone, Copy, PartialEq, Eq, Structural, Debug)]
pub enum TranslateContentType {
    Plain,
    Html,
}

/// The mathematical value of a [`TranslateRequest`].
#[verifier::ext_equal]
pub struct TranslateRequestView {
    pub text: Seq<char>,
    pub from: Option<Seq<char>>,
    pub to: Seq<char>,
    pub content_type: Option<TranslateContentType>,
    pub category: Option<Seq<char>>,
}

impl<'a> View for TranslateRequest<'a> {
    type V = TranslateRequestView;

    closed spec fn view(&self) -> TranslateRequestView {
        TranslateRequestView {
            text: self.text@,
            from: match self.from {
                Some(f) => Some(f@),
                None => None,
            },
            to: self.to@,
            content_type: self.content_type,
            category: match self.category {
                Some(c) => Some(c@),
                None => None,
            },
        }
    }
}

/// Translation error mapping.
#[derive(Debug, PartialEq, Eq)]
pub enum Error {
    /// The response body did not parse as XML.
    XMLParsingError,
    /// The engine failed before or while calling the endpoint.
    EngineError(EngineError),
    /// The request's query could not be combined into a URL.
    UrlParseError,
}

/// The translation endpoint's base address.
pub open spec fn spec_translate_base() -> Seq<char> {
    "https://api.microsofttranslator.com/v2/http.svc/Translate"@
}

/// The query pairs a translation request asks for, in order: `to` and
/// `text` always, then `from`, `contentType` and `category` when present.
pub open spec fn spec_translate_pairs(t: TranslateRequestView) -> Seq<(Seq<char>, Seq<char>)> {
    let base = seq![("to"@, t.to), ("text"@, t.text)];
    let with_from = match t.from {
        Some(f) => base.push(("from"@, f)),
        None => base,
    };
    let with_ct = match t.content_type {
        Some(TranslateContentType::Html) => with_from.push(("contentType"@, "text/html"@)),
        Some(TranslateContentType::Plain) => with_from.push(("contentType"@, "text/plain"@)),
        None => with_from,
    };
    match t.category {
        Some(c) => with_ct.push(("category"@, c)),
        None => with_ct,
    }
}

/// The serialization of `base` with `pairs` form-encoded onto its query,
/// split before the path; absent when `base` does not parse as a URL.
pub uninterp spec fn url_with_params(base: Seq<char>, pairs: Seq<(Seq<char>, Seq<char>)>) -> Option<
    UriView,
>;

/// Relies on `url::Url::parse_with_params`: it parses the base URL,
/// form-encodes the pairs onto its query and serializes the result, all a
/// function of its inputs alone; slicing at `Position::BeforePath` splits
/// the serialization into scheme-and-authority and origin form.
#[verifier::external_body]
fn build_url_with_params(base: &str, pairs: &Vec<(String, String)>) -> (r: Option<Uri>)
    ensures
        match r {
            Some(u) => url_with_params(base@, fields_view(pairs@)) == Some(u@),
            None => url_with_params(base@, fields_view(pairs@)) is None,
        },
{
    match url::Url::parse_with_params(base, pairs.iter().map(|p| (p.0.as_str(), p.1.as_str()))) {
        Ok(u) => {
            let scheme_authority = u[..url::Position::BeforePath].to_string();
            let origin = u[url::Position::BeforePath..].to_string();
            Some(Uri::new(scheme_authority, origin))
        },
        Err(_) => None,
    }
}

/// The protocol request a translation request maps to: a `GET` of the
/// endpoint with the request's query pairs, no headers and no body yet.
pub open spec fn spec_translate_request(t: TranslateRequestView) -> Option<RequestView> {
    match url_with_params(spec_translate_base(), spec_translate_pairs(t)) {
        Some(u) => Some(
            RequestView {
                method: Method::Get,
                uri: u,
                version: HttpVersion::Http11,
                headers: Seq::empty(),
                body: None,
                is_proxy: false,
            },
        ),
        None => None,
    }
}

impl<'a> TranslateRequest<'a> {
    /// The query pairs this request asks for, in order.
    pub fn query_pairs(&self) -> (pairs: Vec<(String, String)>)
        ensures
            fields_view(pairs@) == spec_translate_pairs(self@),
    {
        let mut pairs: Vec<(String, String)> = Vec::new();
        pairs.push(("to".to_owned(), self.to.to_owned()));
        pairs.push(("text".to_owned(), self.text.to_owned()));
        match self.from {
            Some(f) => pairs.push(("from".to_owned(), f.to_owned())),
            None => (),
        }
        match self.content_type {
            Some(TranslateContentType::Html) => pairs.push(
                ("contentType".to_owned(), "text/html".to_owned()),
            ),
            Some(TranslateContentType::Plain) => pairs.push(
                ("contentType".to_owned(), "text/plain".to_owned()),
            ),
            None => (),
        }
        match self.category {
            Some(c) => pairs.push(("category".to_owned(), c.to_owned())),
            None => (),
        }
        proof {
            assert(fields_view(pairs@) =~= spec_translate_pairs(self@));
        }
        pairs
    }

    /// Builds the protocol request, or nothing when the URL cannot be
    /// combined from the base address and the query pairs.
    pub fn try_to_request(self) -> (r: Option<Request>)
        ensures
            match r {
                Some(req) => Some(req@) == spec_translate_request(self@),
                None => spec_translate_request(self@) is None,
            },
    {
        let pairs = self.query_pairs();
        match build_url_with_params(
            "https://api.microsofttranslator.com/v2/http.svc/Translate",
            &pairs,
        ) {
            Some(uri) => Some(Request::new(Method::Get, uri)),
            None => None,
        }
    }
}

/// The text content of the root element of the XML document `bytes`,
/// absent when the bytes do not parse as XML.
pub uninterp spec fn xml_root_text(bytes: Seq<u8>) -> Option<Seq<char>>;

/// Relies on `elementtree::Element::from_reader` and `Element::text`: the
/// root element's text when the bytes parse as XML, absent otherwise, a
/// function of the bytes alone.
#[verifier::external_body]
fn parse_xml_root_text(body: &Vec<u8>) -> (r: Option<String>)
    ensures
        match r {
            Some(s) => xml_root_text(body@) == Some(s@),
            None => xml_root_text(body@) is None,
        },
{
    match elementtree::Element::from_reader(body.as_slice()) {
        Ok(root) => Some(root.text().to_string()),
        Err(_) => None,
    }
}

impl<'a> Cog for TranslateRequest<'a> {
    type Item = String;

    type Error = Error;

    open spec fn req_spec(self) -> Option<RequestView> {
        spec_translate_request(self@)
    }

    open spec fn output_matches(r: Result<Vec<u8>, EngineError>, out: Result<
        String,
        Error,
    >) -> bool {
        match r {
            Ok(body) => match xml_root_text(body@) {
                Some(t) => out matches Ok(s) && s@ == t,
                None => out == Err::<String, Error>(Error::XMLParsingError),
            },
            Err(e) => out == Err::<String, Error>(Error::EngineError(e)),
        }
    }

    fn to_request(self) -> (r: Result<Request, Error>) {
        match self.try_to_request() {
            Some(req) => Ok(req),
            None => Err(Error::UrlParseError),
        }
    }

    fn from_result(r: Result<Vec<u8>, EngineError>) -> (out: Result<String, Error>) {
        match r {
            Ok(body) => match parse_xml_root_text(&body) {
                Some(text) => Ok(text),
                None => Err(Error::XMLParsingError),
            },
            Err(e) => Err(Error::EngineError(e)),
        }
    }
}

} // verus!
