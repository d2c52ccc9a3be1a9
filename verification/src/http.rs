//! Protocol-level request modelling: methods, versions, URIs, header lists,
//! the client [`Request`] type, and body chunks.
//!
//! Values here are plain data; nothing in this module touches the network.

use vstd::prelude::*;

verus! {

/// An HTTP request method.
#[derive(Clone, Copy, PartialEq, Eq, Structural, Debug)]
pub enum Method {
    Options,
    Get,
    Head,
    Post,
    Put,
    Delete,
    Trace,
    Connect,
    Patch,
}

/// An HTTP protocol version.
#[derive(Clone, Copy, PartialEq, Eq, Structural, Debug)]
pub enum HttpVersion {
    Http09,
    Http10,
    Http11,
    H2,
    H2c,
}

impl Default for HttpVersion {
    /// The version requests are built with unless one is set explicitly.
    fn default() -> (v: HttpVersion)
        ensures
            v == HttpVersion::Http11,
    {
        HttpVersion::Http11
    }
}

/// The mathematical value of a [`Uri`]: the two halves of its text.
pub struct UriView {
    pub scheme_authority: Seq<char>,
    pub origin: Seq<char>,
}

impl UriView {
    /// The full text of the URI.
    pub open spec fn full(self) -> Seq<char> {
        self.scheme_authority + self.origin
    }
}

/// A request target, split into the part before the path (scheme and
/// authority) and the origin form (path and query).
///
/// The origin form is what goes on the request line when talking directly
/// to a server; the full text is used when talking to a proxy.
#[derive(Clone, Debug)]
pub struct Uri {
    scheme_authority: String,
    origin: String,
}

impl View for Uri {
    type V = UriView;

    closed spec fn view(&self) -> UriView {
        UriView { scheme_authority: self.scheme_authority@, origin: self.origin@ }
    }
}

impl Uri {
    /// Builds a URI from its part before the path and its origin form.
    pub fn new(scheme_authority: String, origin: String) -> (u: Uri)
        ensures
            u@ == (UriView { scheme_authority: scheme_authority@, origin: origin@ }),
    {
        Uri { scheme_authority, origin }
    }

    /// The part before the path: scheme and authority.
    pub fn scheme_authority(&self) -> (s: &String)
        ensures
            s@ == self@.scheme_authority,
    {
        &self.scheme_authority
    }

    /// The origin form: path and query.
    pub fn origin(&self) -> (s: &String)
        ensures
            s@ == self@.origin,
    {
        &self.origin
    }

    /// The full text of the URI.
    pub fn to_text(&self) -> (s: String)
        ensures
            s@ == self@.full(),
    {
        let mut s = self.scheme_authority.clone();
        s.append(self.origin.as_str());
        s
    }
}

/// Reduces a URI to its origin form, dropping scheme and authority.
pub fn origin_form(uri: &Uri) -> (r: Uri)
    ensures
        r@ == (UriView { scheme_authority: Seq::<char>::empty(), origin: uri@.origin }),
{
    Uri { scheme_authority: String::new(), origin: uri.origin.clone() }
}

/// What a header list holds: name/value pairs in order.
pub type HeadersView = Seq<(Seq<char>, Seq<char>)>;

/// `fields` with every pair named `name` removed, order otherwise kept.
pub open spec fn spec_remove_header(fields: HeadersView, name: Seq<char>) -> HeadersView
    decreases fields.len(),
{
    if fields.len() == 0 {
        Seq::empty()
    } else {
        let rest = spec_remove_header(fields.drop_first(), name);
        if fields.first().0 == name {
            rest
        } else {
            seq![fields.first()] + rest
        }
    }
}

/// The value of the first pair named `name`, if any.
pub open spec fn spec_header_lookup(fields: HeadersView, name: Seq<char>) -> Option<Seq<char>>
    decreases fields.len(),
{
    if fields.len() == 0 {
        None
    } else if fields.first().0 == name {
        Some(fields.first().1)
    } else {
        spec_header_lookup(fields.drop_first(), name)
    }
}

/// The views of a list of owned header fields.
pub open spec fn fields_view(fields: Seq<(String, String)>) -> HeadersView {
    fields.map_values(|f: (String, String)| (f.0@, f.1@))
}

/// An ordered list of header fields, each a name/value pair.
///
/// [`Headers::set`] keeps at most one field per name, as a header map would.
#[derive(Clone, Debug)]
pub struct Headers {
    fields: Vec<(String, String)>,
}

impl View for Headers {
    type V = HeadersView;

    closed spec fn view(&self) -> HeadersView {
        fields_view(self.fields@)
    }
}

impl Headers {
    /// An empty header list.
    pub fn new() -> (h: Headers)
        ensures
            h@ == Seq::<(Seq<char>, Seq<char>)>::empty(),
    {
        let fields: Vec<(String, String)> = Vec::new();
        proof {
            assert(fields_view(fields@) =~= Seq::<(Seq<char>, Seq<char>)>::empty());
        }
        Headers { fields }
    }

    /// How many fields the list holds.
    pub fn len(&self) -> (n: usize)
        ensures
            n == self@.len(),
    {
        self.fields.len()
    }

    /// Sets a field, replacing any previous field of the same name.
    pub fn set(&mut self, name: String, value: String)
        ensures
            final(self)@ == spec_remove_header(old(self)@, name@).push((name@, value@)),
    {
        let ghost orig = self@;
        let mut kept: Vec<(String, String)> = Vec::new();
        let n = self.fields.len();
        proof {
            assert(orig.skip(0) =~= orig);
            assert(fields_view(kept@) =~= Seq::empty());
        }
        for i in 0..n
            invariant
                n == self.fields.len(),
                orig == self@,
                spec_remove_header(orig, name@) =~= fields_view(kept@) + spec_remove_header(
                    orig.skip(i as int),
                    name@,
                ),
        {
            proof {
                assert(orig.skip(i as int).drop_first() =~= orig.skip(i + 1));
                assert(orig.skip(i as int).first() == orig[i as int]);
            }
            let ghost kept_before = kept@;
            let field = (self.fields[i].0.clone(), self.fields[i].1.clone());
            if !(field.0 == name) {
                kept.push(field);
                proof {
                    assert(fields_view(kept@) =~= fields_view(kept_before) + seq![
                        orig[i as int],
                    ]);
                    assert(fields_view(kept_before) + (seq![orig[i as int]]
                        + spec_remove_header(orig.skip(i + 1), name@)) =~= fields_view(kept@)
                        + spec_remove_header(orig.skip(i + 1), name@));
                }
            }
        }
        proof {
            assert(orig.skip(n as int) =~= Seq::<(Seq<char>, Seq<char>)>::empty());
        }
        kept.push((name, value));
        proof {
            assert(fields_view(kept@) =~= spec_remove_header(orig, name@).push(
                (name@, value@),
            ));
        }
        self.fields = kept;
    }

    /// The fields in order, as name/value pairs.
    pub fn items(&self) -> (v: &Vec<(String, String)>)
        ensures
            fields_view(v@) == self@,
    {
        &self.fields
    }

    /// Returns the value of the field named `name`, if one is present.
    pub fn get(&self, name: &String) -> (r: Option<&String>)
        ensures
            match r {
                Some(v) => spec_header_lookup(self@, name@) == Some(v@),
                None => spec_header_lookup(self@, name@) is None,
            },
    {
        let n = self.fields.len();
        proof {
            assert(self@.skip(0) =~= self@);
        }
        for i in 0..n
            invariant
                n == self.fields.len(),
                spec_header_lookup(self@, name@) == spec_header_lookup(
                    self@.skip(i as int),
                    name@,
                ),
        {
            proof {
                assert(self@.skip(i as int).drop_first() =~= self@.skip(i + 1));
                assert(self@.skip(i as int).first() == self@[i as int]);
                assert(self@[i as int] == (self.fields@[i as int].0@, self.fields@[i as int].1@));
            }
            if self.fields[i].0 == *name {
                return Some(&self.fields[i].1);
            }
        }
        proof {
            assert(self@.skip(n as int) =~= Seq::<(Seq<char>, Seq<char>)>::empty());
        }
        None
    }
}

/// The mathematical value of a [`Request`].
pub struct RequestView {
    pub method: Method,
    pub uri: UriView,
    pub version: HttpVersion,
    pub headers: HeadersView,
    pub body: Option<Seq<u8>>,
    pub is_proxy: bool,
}

/// A client request to a remote server.
#[derive(Debug)]
pub struct Request {
    method: Method,
    uri: Uri,
    version: HttpVersion,
    headers: Headers,
    body: Option<Vec<u8>>,
    is_proxy: bool,
}

impl View for Request {
    type V = RequestView;

    closed spec fn view(&self) -> RequestView {
        RequestView {
            method: self.method,
            uri: self.uri@,
            version: self.version,
            headers: self.headers@,
            body: match self.body {
                Some(b) => Some(b@),
                None => None,
            },
            is_proxy: self.is_proxy,
        }
    }
}

impl Request {
    /// Construct a new Request: no headers, no body, not proxied.
    pub fn new(method: Method, uri: Uri) -> (r: Request)
        ensures
            r@ == (RequestView {
                method,
                uri: uri@,
                version: HttpVersion::Http11,
                headers: Seq::empty(),
                body: None,
                is_proxy: false,
            }),
    {
        Request {
            method,
            uri,
            version: HttpVersion::default(),
            headers: Headers::new(),
            body: None,
            is_proxy: false,
        }
    }

    /// Read the Request Uri.
    pub fn uri(&self) -> (u: &Uri)
        ensures
            u@ == self@.uri,
    {
        &self.uri
    }

    /// Read the Request Version.
    pub fn version(&self) -> (v: HttpVersion)
        ensures
            v == self@.version,
    {
        self.version
    }

    /// Read the Request headers.
    pub fn headers(&self) -> (h: &Headers)
        ensures
            h@ == self@.headers,
    {
        &self.headers
    }

    /// Read the Request method.
    pub fn method(&self) -> (m: &Method)
        ensures
            *m == self@.method,
    {
        &self.method
    }

    /// Set the Method of this request.
    pub fn set_method(&mut self, method: Method)
        ensures
            final(self)@ == (RequestView { method, ..old(self)@ }),
    {
        self.method = method;
    }

    /// Get a mutable reference to the Request headers.
    pub fn headers_mut(&mut self) -> (h: &mut Headers)
        ensures
            (*h)@ == old(self)@.headers,
            final(self)@ == (RequestView { headers: final(h)@, ..old(self)@ }),
    {
        &mut self.headers
    }

    /// Set the `Uri` of this request.
    pub fn set_uri(&mut self, uri: Uri)
        ensures
            final(self)@ == (RequestView { uri: uri@, ..old(self)@ }),
    {
        self.uri = uri;
    }

    /// Set the `HttpVersion` of this request.
    pub fn set_version(&mut self, version: HttpVersion)
        ensures
            final(self)@ == (RequestView { version, ..old(self)@ }),
    {
        self.version = version;
    }

    /// Set the body of the request.
    pub fn set_body(&mut self, body: Vec<u8>)
        ensures
            final(self)@ == (RequestView { body: Some(body@), ..old(self)@ }),
    {
        self.body = Some(body);
    }

    /// Set that the URI should use the absolute form.
    ///
    /// This is only needed when talking to HTTP/1 proxies to URLs not
    /// protected by TLS.
    pub fn set_proxy(&mut self, is_proxy: bool)
        ensures
            final(self)@ == (RequestView { is_proxy, ..old(self)@ }),
    {
        self.is_proxy = is_proxy;
    }
}

/// The first line of a serialized request.
#[derive(Debug)]
pub struct RequestLine(pub Method, pub Uri);

/// Everything of a request but its body.
#[derive(Debug)]
pub struct RequestHead {
    pub subject: RequestLine,
    pub headers: Headers,
    pub version: HttpVersion,
}

/// Splits a request into its head and its body, reducing the target to
/// origin form unless the request is meant for a proxy.
pub fn split(req: Request) -> (r: (RequestHead, Option<Vec<u8>>))
    ensures
        r.0.subject.0 == req@.method,
        req@.is_proxy ==> r.0.subject.1@ == req@.uri,
        !req@.is_proxy ==> r.0.subject.1@ == (UriView {
            scheme_authority: Seq::<char>::empty(),
            origin: req@.uri.origin,
        }),
        r.0.headers@ == req@.headers,
        r.0.version == req@.version,
        match r.1 {
            Some(b) => req@.body == Some(b@),
            None => req@.body is None,
        },
{
    let uri = if req.is_proxy {
        req.uri
    } else {
        origin_form(&req.uri)
    };
    let head = RequestHead {
        subject: RequestLine(req.method, uri),
        headers: req.headers,
        version: req.version,
    };
    (head, req.body)
}

} // verus!

