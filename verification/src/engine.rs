//! The token lifecycle manager and the request-dispatch engine around it.
//!
//! A long-lived subscription key is exchanged for a short-lived bearer token
//! which is cached with a fixed time-to-live. Concurrent logical calls share
//! one credential store; at most one renewal request is ever in flight
//! (single-flight), and a failed renewal always clears the in-flight flag so
//! that a later call can try again.
//!
//! The engine is a state machine over plain values: deciding functions take
//! the current time and transport outcomes as arguments and say in their
//! contracts exactly how the store and the dispatch advance. A driver
//! performs the network calls the returned actions ask for and feeds the
//! outcomes back in.

use vstd::prelude::*;
use vstd::utf8::{decode_utf8, valid_utf8};
use crate::chunk::Chunk;
use crate::http::{
    HttpVersion, Method, Request, RequestView, Uri, UriView, spec_remove_header,
};

verus! {

/// Number of minutes a freshly issued token is cached for.
pub const TOKEN_EXPIRES_IN_MINS: i64 = 9;

/// The fixed time-to-live of a cached token, in seconds.
///
/// It is not derived from anything the token endpoint returns.
pub const TOKEN_TTL_SECS: i64 = TOKEN_EXPIRES_IN_MINS * 60;

/// What can go wrong while obtaining a token or dispatching a call.
#[derive(Debug, PartialEq, Eq)]
pub enum Error {
    /// No token could be obtained.
    CouldNotRetrieveToken,
    /// A response body was not valid text.
    FromUtf8Error,
    /// A lock holder panicked, leaving shared state undefined; fatal for the
    /// current call.
    LockPoisonedError,
    /// The underlying transport failed; carries its message.
    TransportError(String),
}

impl Clone for Error {
    fn clone(&self) -> (e: Self)
        ensures
            e == *self,
    {
        match self {
            Error::CouldNotRetrieveToken => Error::CouldNotRetrieveToken,
            Error::FromUtf8Error => Error::FromUtf8Error,
            Error::LockPoisonedError => Error::LockPoisonedError,
            Error::TransportError(msg) => Error::TransportError(msg.clone()),
        }
    }
}

/// Wraps a subscription key.
#[derive(Debug)]
pub struct SubscriptionKey(String);

impl View for SubscriptionKey {
    type V = Seq<char>;

    closed spec fn view(&self) -> Seq<char> {
        self.0@
    }
}

impl SubscriptionKey {
    /// Returns a new Subscription key.
    pub fn new(key: &str) -> (k: SubscriptionKey)
        ensures
            k@ == key@,
    {
        SubscriptionKey(key.to_owned())
    }

    /// Returns the string value of a SubscriptionKey.
    pub fn value(&self) -> (v: &str)
        ensures
            v@ == self@,
    {
        self.0.as_str()
    }
}

/// The mathematical value of an [`AccessToken`].
#[verifier::ext_equal]
pub struct AccessTokenView {
    pub token: Seq<char>,
    pub expires_at: int,
}

/// Holds an Access Token: the token text and the moment it expires,
/// as seconds on the driver's clock.
///
/// Created only by a successful renewal, and replaced whole — never mutated
/// in place — by the next one.
#[derive(Debug)]
pub struct AccessToken {
    pub token: String,
    pub expires_at: i64,
}

impl View for AccessToken {
    type V = AccessTokenView;

    closed spec fn view(&self) -> AccessTokenView {
        AccessTokenView { token: self.token@, expires_at: self.expires_at as int }
    }
}

impl Clone for AccessToken {
    fn clone(&self) -> (t: Self)
        ensures
            t == *self,
    {
        AccessToken { token: self.token.clone(), expires_at: self.expires_at }
    }
}

/// The mathematical value of a [`Credentials`] store.
#[verifier::ext_equal]
pub struct CredentialsView {
    pub subscription_key: Seq<char>,
    pub access_token: Option<AccessTokenView>,
    pub renewing: bool,
}

impl CredentialsView {
    /// Whether the cached token exists and is still valid at time `now`.
    pub open spec fn valid_at(self, now: int) -> bool {
        match self.access_token {
            Some(t) => now < t.expires_at,
            None => false,
        }
    }
}

/// What the read path yields: the cached token exactly while it is valid.
pub open spec fn spec_read_if_valid(c: CredentialsView, now: int) -> Option<AccessTokenView> {
    if c.valid_at(now) {
        c.access_token
    } else {
        None
    }
}

/// The store after a renewal attempt finishes: the in-flight flag is cleared
/// unconditionally, and on success the token is replaced whole.
pub open spec fn spec_complete_renewal(
    c: CredentialsView,
    result: Result<AccessTokenView, ()>,
) -> CredentialsView {
    CredentialsView {
        subscription_key: c.subscription_key,
        access_token: match result {
            Ok(t) => Some(t),
            Err(_) => c.access_token,
        },
        renewing: false,
    }
}

/// Outcome of asking the store for leave to renew.
#[derive(Debug)]
pub enum RenewalDecision {
    /// The caller holds the single renewal slot and must perform the call.
    ProceedAsOwner,
    /// Another caller is already renewing; wait for it.
    AlreadyInFlight,
    /// The token turned out to be valid after all; use it.
    StillValid(AccessToken),
}

/// The mathematical value of a [`RenewalDecision`].
pub enum RenewalDecisionView {
    ProceedAsOwner,
    AlreadyInFlight,
    StillValid(AccessTokenView),
}

impl View for RenewalDecision {
    type V = RenewalDecisionView;

    closed spec fn view(&self) -> RenewalDecisionView {
        match self {
            RenewalDecision::ProceedAsOwner => RenewalDecisionView::ProceedAsOwner,
            RenewalDecision::AlreadyInFlight => RenewalDecisionView::AlreadyInFlight,
            RenewalDecision::StillValid(t) => RenewalDecisionView::StillValid(t@),
        }
    }
}

/// The decision and the store after asking for leave to renew at `now`:
/// a still-valid token is returned, an in-flight renewal is waited for, and
/// otherwise the caller becomes the owner and the in-flight flag is set.
pub open spec fn spec_begin_renewal(c: CredentialsView, now: int) -> (
    CredentialsView,
    RenewalDecisionView,
) {
    if c.valid_at(now) {
        (
            c,
            match c.access_token {
                Some(t) => RenewalDecisionView::StillValid(t),
                None => RenewalDecisionView::ProceedAsOwner,
            },
        )
    } else if c.renewing {
        (c, RenewalDecisionView::AlreadyInFlight)
    } else {
        (CredentialsView { renewing: true, ..c }, RenewalDecisionView::ProceedAsOwner)
    }
}

/// Holds credential information for accessing the remote services: the
/// subscription key, the cached token, and the renewal-in-flight flag.
///
/// This is the one shared mutable structure of the system; every logical
/// call goes through one store.
#[derive(Debug)]
pub struct Credentials {
    pub subscription_key: SubscriptionKey,
    access_token: Option<AccessToken>,
    renewing_token: bool,
}

impl View for Credentials {
    type V = CredentialsView;

    closed spec fn view(&self) -> CredentialsView {
        CredentialsView {
            subscription_key: self.subscription_key@,
            access_token: match self.access_token {
                Some(t) => Some(t@),
                None => None,
            },
            renewing: self.renewing_token,
        }
    }
}

impl Credentials {
    /// Returns a new, uninitiated set of credentials.
    pub fn new(key: SubscriptionKey) -> (c: Credentials)
        ensures
            c@ == (CredentialsView { subscription_key: key@, access_token: None, renewing: false }),
    {
        Credentials { subscription_key: key, access_token: None, renewing_token: false }
    }

    /// Returns the cached token only while it is valid at time `now`.
    pub fn read_if_valid(&self, now: i64) -> (r: Option<AccessToken>)
        ensures
            match r {
                Some(t) => spec_read_if_valid(self@, now as int) == Some(t@),
                None => spec_read_if_valid(self@, now as int) is None,
            },
    {
        match &self.access_token {
            Some(t) => {
                if now < t.expires_at {
                    Some(t.clone())
                } else {
                    None
                }
            },
            None => None,
        }
    }

    /// Convenience method for determining whether the token must be renewed
    /// at time `now`.
    pub fn should_renew_token(&self, now: i64) -> (r: bool)
        ensures
            r == !self@.valid_at(now as int),
    {
        match self.token_expires_at() {
            Some(expires) => now >= expires,
            None => true,
        }
    }

    /// When the cached token expires, if one is cached.
    fn token_expires_at(&self) -> (r: Option<i64>)
        ensures
            match r {
                Some(e) => self@.access_token matches Some(t) && t.expires_at == e as int,
                None => self@.access_token is None,
            },
    {
        match &self.access_token {
            Some(t) => Some(t.expires_at),
            None => None,
        }
    }

    /// Updates the access token when needed.
    fn update_token(&mut self, token: AccessToken)
        ensures
            final(self)@ == (CredentialsView { access_token: Some(token@), ..old(self)@ }),
    {
        self.access_token = Some(token);
    }

    /// Whether a renewal is in flight right now.
    pub fn renewing(&self) -> (r: bool)
        ensures
            r == self@.renewing,
    {
        self.renewing_token
    }

    /// Re-checks validity and either hands out the still-valid token, reports
    /// a renewal already in flight, or makes the caller the owner of a new
    /// renewal attempt, setting the in-flight flag.
    pub fn begin_renewal_or_wait(&mut self, now: i64) -> (d: RenewalDecision)
        ensures
            (final(self)@, d@) == spec_begin_renewal(old(self)@, now as int),
    {
        match self.read_if_valid(now) {
            Some(t) => RenewalDecision::StillValid(t),
            None => {
                if self.renewing_token {
                    RenewalDecision::AlreadyInFlight
                } else {
                    self.renewing_token = true;
                    RenewalDecision::ProceedAsOwner
                }
            },
        }
    }

    /// Records the outcome of a renewal attempt: clears the in-flight flag
    /// unconditionally — also on failure, so later calls can try again — and
    /// on success replaces the cached token whole.
    pub fn complete_renewal(&mut self, result: Result<AccessToken, Error>)
        ensures
            final(self)@ == spec_complete_renewal(old(self)@, spec_result_token(result)),
    {
        self.renewing_token = false;
        match result {
            Ok(token) => self.update_token(token),
            Err(_) => (),
        }
    }
}

/// Forgets the error payload of a renewal outcome, keeping the token view.
pub open spec fn spec_result_token(r: Result<AccessToken, Error>) -> Result<AccessTokenView, ()> {
    match r {
        Ok(t) => Ok(t@),
        Err(_) => Err(()),
    }
}

/// Relies on `String::from_utf8`: it decodes exactly the valid UTF-8 byte
/// sequences, to the characters they encode.
#[verifier::external_body]
fn decode_utf8_vec(bytes: Vec<u8>) -> (r: Option<String>)
    ensures
        match r {
            Some(s) => valid_utf8(bytes@) && s@ == decode_utf8(bytes@),
            None => !valid_utf8(bytes@),
        },
{
    String::from_utf8(bytes).ok()
}

/// The URI of the token-issuing endpoint.
pub open spec fn spec_issue_token_uri() -> UriView {
    UriView {
        scheme_authority: "https://api.cognitive.microsoft.com"@,
        origin: "/sts/v1.0/issueToken"@,
    }
}

/// Builds the URI of the token-issuing endpoint.
pub fn issue_token_uri() -> (u: Uri)
    ensures
        u@ == spec_issue_token_uri(),
{
    Uri::new("https://api.cognitive.microsoft.com".to_owned(), "/sts/v1.0/issueToken".to_owned())
}

/// The one request a renewal owner sends: a `POST` to the token endpoint
/// with the subscription key as a header and an empty body.
pub open spec fn spec_token_request(key: Seq<char>) -> RequestView {
    RequestView {
        method: Method::Post,
        uri: spec_issue_token_uri(),
        version: HttpVersion::Http11,
        headers: seq![("Ocp-Apim-Subscription-Key"@, key), ("Content-Length"@, "0"@)],
        body: None,
        is_proxy: false,
    }
}

/// Builds the renewal request for the given subscription key.
pub fn build_token_request(key: &SubscriptionKey) -> (r: Request)
    ensures
        r@ == spec_token_request(key@),
{
    let mut req = Request::new(Method::Post, issue_token_uri());
    let headers = req.headers_mut();
    headers.set("Ocp-Apim-Subscription-Key".to_owned(), key.value().to_owned());
    headers.set("Content-Length".to_owned(), "0".to_owned());
    proof {
        reveal_strlit("Ocp-Apim-Subscription-Key");
        reveal_strlit("Content-Length");
        assert("Ocp-Apim-Subscription-Key"@.len() == 25);
        assert("Content-Length"@.len() == 14);
        let one = spec_remove_header(Seq::empty(), "Ocp-Apim-Subscription-Key"@).push(
            ("Ocp-Apim-Subscription-Key"@, key@),
        );
        assert(one.first() == ("Ocp-Apim-Subscription-Key"@, key@));
        assert(one.first().0 != "Content-Length"@);
        assert(one.drop_first() =~= Seq::<(Seq<char>, Seq<char>)>::empty());
        assert(spec_remove_header(Seq::<(Seq<char>, Seq<char>)>::empty(), "Content-Length"@)
            =~= Seq::<(Seq<char>, Seq<char>)>::empty());
        assert(spec_remove_header(one, "Content-Length"@) =~= seq![one.first()]
            + spec_remove_header(one.drop_first(), "Content-Length"@));
        assert(spec_remove_header(one, "Content-Length"@) =~= one);
        assert(req@.headers =~= spec_token_request(key@).headers);
        assert(req@ =~= spec_token_request(key@));
    }
    req
}

/// The token the store gains from a renewal whose response body was `body`,
/// completed at time `done`: the body text, expiring one TTL later.
pub open spec fn spec_renewed_token(body: Seq<u8>, done: int) -> AccessTokenView {
    AccessTokenView { token: decode_utf8(body), expires_at: done + TOKEN_TTL_SECS }
}

/// The body handed back by the token endpoint, when the transport succeeded.
pub open spec fn spec_outcome_body(o: Result<Vec<u8>, Error>) -> Option<Seq<u8>> {
    match o {
        Ok(b) => Some(b@),
        Err(_) => None,
    }
}

/// The store after the owner finishes a renewal attempt at time `done`
/// whose transport outcome carried `body` (absent on transport failure):
/// the in-flight flag is cleared either way, and only a body that decodes
/// as text installs a new token.
pub open spec fn spec_complete_outcome(
    c: CredentialsView,
    body: Option<Seq<u8>>,
    done: int,
) -> CredentialsView {
    match body {
        Some(b) => if valid_utf8(b) {
            spec_complete_renewal(c, Ok(spec_renewed_token(b, done)))
        } else {
            spec_complete_renewal(c, Err(()))
        },
        None => spec_complete_renewal(c, Err(())),
    }
}

/// What one "ensure valid token" operation decides next.
#[derive(Debug)]
pub enum TokenAction {
    /// A valid token is available; use it.
    UseToken(AccessToken),
    /// The caller owns the renewal slot and must send this request to the
    /// token endpoint, then report the outcome.
    SendTokenRequest(Request),
    /// Another operation owns the in-flight renewal; yield and retry later.
    WaitForOwner,
}

/// The mathematical value of a [`TokenAction`].
pub enum TokenActionView {
    UseToken(AccessTokenView),
    SendTokenRequest(RequestView),
    WaitForOwner,
}

impl View for TokenAction {
    type V = TokenActionView;

    closed spec fn view(&self) -> TokenActionView {
        match self {
            TokenAction::UseToken(t) => TokenActionView::UseToken(t@),
            TokenAction::SendTokenRequest(r) => TokenActionView::SendTokenRequest(r@),
            TokenAction::WaitForOwner => TokenActionView::WaitForOwner,
        }
    }
}

/// One step of the "ensure valid token" state machine at time `now`:
/// a valid cached token is used as is; an in-flight renewal is waited for;
/// otherwise the operation becomes the owner, the in-flight flag goes up,
/// and the renewal request goes out.
pub open spec fn spec_token_step(c: CredentialsView, now: int) -> (
    CredentialsView,
    TokenActionView,
) {
    if c.valid_at(now) {
        (
            c,
            match c.access_token {
                Some(t) => TokenActionView::UseToken(t),
                None => TokenActionView::WaitForOwner,
            },
        )
    } else if c.renewing {
        (c, TokenActionView::WaitForOwner)
    } else {
        (
            CredentialsView { renewing: true, ..c },
            TokenActionView::SendTokenRequest(spec_token_request(c.subscription_key)),
        )
    }
}

/// Struct for holding Engine data.
///
/// Instantiate one using Engine::new.
#[derive(Debug)]
pub struct Engine {
    credentials: Credentials,
}

impl View for Engine {
    type V = CredentialsView;

    closed spec fn view(&self) -> CredentialsView {
        self.credentials@
    }
}

impl Engine {
    /// Returns a new Engine over the given credentials.
    pub fn new(credentials: Credentials) -> (e: Engine)
        ensures
            e@ == credentials@,
    {
        Engine { credentials }
    }

    /// Read access to the engine's credential store.
    pub fn credentials(&self) -> (c: &Credentials)
        ensures
            c@ == self@,
    {
        &self.credentials
    }

    /// Advances one "ensure valid token" operation at time `now`.
    ///
    /// The fast path is a plain read of the cache; only when that misses is
    /// the store asked for leave to renew.
    pub fn ensure_token_step(&mut self, now: i64) -> (a: TokenAction)
        ensures
            (final(self)@, a@) == spec_token_step(old(self)@, now as int),
    {
        match self.credentials.read_if_valid(now) {
            Some(t) => TokenAction::UseToken(t),
            None => {
                match self.credentials.begin_renewal_or_wait(now) {
                    RenewalDecision::StillValid(t) => TokenAction::UseToken(t),
                    RenewalDecision::AlreadyInFlight => TokenAction::WaitForOwner,
                    RenewalDecision::ProceedAsOwner => TokenAction::SendTokenRequest(
                        build_token_request(&self.credentials.subscription_key),
                    ),
                }
            },
        }
    }

    /// Starts one dispatched call: converts the endpoint descriptor into its
    /// protocol request; the returned [`Dispatch`] is then advanced with
    /// [`Engine::step`].
    pub fn run<C: crate::cogs::Cog>(&self, cog: C) -> (r: Result<Dispatch, C::Error>)
        ensures
            r matches Ok(d) ==> Some(d@.request) == cog.req_spec() && d@.phase
                == DispatchPhase::EnsuringToken,
            r is Err ==> cog.req_spec() is None,
    {
        match cog.to_request() {
            Ok(request) => Ok(Dispatch { request, phase: DispatchPhase::EnsuringToken }),
            Err(e) => Err(e),
        }
    }

    /// Advances one dispatched call at time `now` by one event, and says
    /// what the driver must do next.
    ///
    /// While the token is being ensured, a `Poll` either reuses the valid
    /// cached token (the request gains its bearer header and goes out), waits
    /// for an in-flight renewal, or sends the renewal request as owner. The
    /// owner's transport outcome comes back as `TokenEndpointReplied`: on a
    /// decodable body the call proceeds to the target, otherwise the error is
    /// delivered — with the in-flight flag cleared either way. The target's
    /// outcome is delivered as is.
    pub fn step(&mut self, d: &mut Dispatch, event: DispatchEvent, now: i64) -> (a: DispatchAction)
        requires
            spec_dispatch_accepts(old(d)@.phase, event),
            event is TokenEndpointReplied ==> old(self)@.renewing && now <= i64::MAX
                - TOKEN_TTL_SECS,
        ensures
            event is Poll ==> final(self)@ == spec_token_step(old(self)@, now as int).0,
            event is Poll ==> match spec_token_step(old(self)@, now as int).1 {
                TokenActionView::UseToken(t) => final(d)@.phase == DispatchPhase::AwaitingTarget
                    && final(d)@.request == spec_with_bearer(old(d)@.request, t.token) && a
                    == DispatchAction::CallTarget,
                TokenActionView::SendTokenRequest(req) => final(d)@ == old(d)@ && (
                a matches DispatchAction::CallTokenEndpoint(r) && r@ == req),
                TokenActionView::WaitForOwner => final(d)@ == old(d)@ && a
                    == DispatchAction::WaitForRenewal,
            },
            event matches DispatchEvent::TokenEndpointReplied(outcome) ==> final(self)@
                == spec_complete_outcome(old(self)@, spec_outcome_body(outcome), now as int),
            event matches DispatchEvent::TokenEndpointReplied(outcome) ==> match outcome {
                Ok(body) => if valid_utf8(body@) {
                    final(d)@.phase == DispatchPhase::AwaitingTarget && final(d)@.request
                        == spec_with_bearer(old(d)@.request, decode_utf8(body@)) && a
                        == DispatchAction::CallTarget
                } else {
                    final(d)@.phase == DispatchPhase::Finished && final(d)@.request == old(
                        d,
                    )@.request && a == DispatchAction::Deliver(
                        Err::<Vec<u8>, Error>(Error::FromUtf8Error),
                    )
                },
                Err(e) => final(d)@.phase == DispatchPhase::Finished && final(d)@.request == old(
                    d,
                )@.request && (a matches DispatchAction::Deliver(res) && res == Err::<
                    Vec<u8>,
                    Error,
                >(e)),
            },
            event matches DispatchEvent::TargetReplied(resp) ==> final(self)@ == old(self)@
                && final(d)@.phase == DispatchPhase::Finished && final(d)@.request == old(
                d,
            )@.request && (a matches DispatchAction::Deliver(res) && res == resp),
    {
        match event {
            DispatchEvent::Poll => {
                match self.ensure_token_step(now) {
                    TokenAction::UseToken(t) => {
                        attach_bearer(&mut d.request, &t);
                        d.phase = DispatchPhase::AwaitingTarget;
                        DispatchAction::CallTarget
                    },
                    TokenAction::SendTokenRequest(req) => DispatchAction::CallTokenEndpoint(req),
                    TokenAction::WaitForOwner => DispatchAction::WaitForRenewal,
                }
            },
            DispatchEvent::TokenEndpointReplied(outcome) => {
                match self.complete_renewal_outcome(outcome, now) {
                    Ok(t) => {
                        attach_bearer(&mut d.request, &t);
                        d.phase = DispatchPhase::AwaitingTarget;
                        DispatchAction::CallTarget
                    },
                    Err(e) => {
                        d.phase = DispatchPhase::Finished;
                        DispatchAction::Deliver(Err(e))
                    },
                }
            },
            DispatchEvent::TargetReplied(resp) => {
                d.phase = DispatchPhase::Finished;
                DispatchAction::Deliver(resp)
            },
        }
    }

    /// Records at time `now` the outcome the renewal owner got from the
    /// token endpoint, and returns the fresh token or the error.
    ///
    /// The in-flight flag is cleared on every path; a failed attempt is not
    /// retried here but surfaced to the caller.
    pub fn complete_renewal_outcome(&mut self, outcome: Result<Vec<u8>, Error>, now: i64) -> (r:
        Result<AccessToken, Error>)
        requires
            now <= i64::MAX - TOKEN_TTL_SECS,
        ensures
            final(self)@ == spec_complete_outcome(old(self)@, spec_outcome_body(outcome), now as int),
            final(self)@.renewing == false,
            outcome matches Ok(body) ==> valid_utf8(body@) ==> (r matches Ok(t) && t@
                == spec_renewed_token(body@, now as int)),
            outcome matches Ok(body) ==> (!valid_utf8(body@) ==> r == Err::<AccessToken, Error>(
                Error::FromUtf8Error,
            )),
            outcome matches Err(e) ==> r == Err::<AccessToken, Error>(e),
    {
        match outcome {
            Ok(body) => {
                match decode_utf8_vec(body) {
                    Some(text) => {
                        let token = AccessToken { token: text, expires_at: now + TOKEN_TTL_SECS };
                        self.credentials.complete_renewal(Ok(token.clone()));
                        Ok(token)
                    },
                    None => {
                        self.credentials.complete_renewal(Err(Error::FromUtf8Error));
                        Err(Error::FromUtf8Error)
                    },
                }
            },
            Err(e) => {
                self.credentials.complete_renewal(Err(e.clone()));
                Err(e)
            },
        }
    }
}

/// A request's headers after the bearer token is attached.
pub open spec fn spec_with_bearer(r: RequestView, token: Seq<char>) -> RequestView {
    RequestView {
        headers: spec_remove_header(r.headers, "Authorization"@).push(
            ("Authorization"@, "Bearer "@ + token),
        ),
        ..r
    }
}

/// Attaches `token` to `req` as a bearer authorization header.
pub fn attach_bearer(req: &mut Request, token: &AccessToken)
    ensures
        final(req)@ == spec_with_bearer(old(req)@, token@.token),
{
    let mut value = "Bearer ".to_owned();
    value.append(token.token.as_str());
    let headers = req.headers_mut();
    headers.set("Authorization".to_owned(), value);
}

/// Where one dispatched call stands.
#[derive(Clone, Copy, PartialEq, Eq, Structural, Debug)]
pub enum DispatchPhase {
    /// A valid token is still being ensured; the target request has not
    /// gone out.
    EnsuringToken,
    /// The target request has gone out with its bearer header; its outcome
    /// is awaited.
    AwaitingTarget,
    /// The typed outcome has been delivered.
    Finished,
}

/// The mathematical value of a [`Dispatch`].
#[verifier::ext_equal]
pub struct DispatchView {
    pub request: RequestView,
    pub phase: DispatchPhase,
}

/// One dispatched call: the protocol request being readied and sent, and
/// the phase it is in. Advanced by [`Engine::step`].
#[derive(Debug)]
pub struct Dispatch {
    request: Request,
    phase: DispatchPhase,
}

impl View for Dispatch {
    type V = DispatchView;

    closed spec fn view(&self) -> DispatchView {
        DispatchView { request: self.request@, phase: self.phase }
    }
}

impl Dispatch {
    /// The protocol request as it currently stands.
    pub fn request(&self) -> (r: &Request)
        ensures
            r@ == self@.request,
    {
        &self.request
    }

    /// The phase the call is in.
    pub fn phase(&self) -> (p: DispatchPhase)
        ensures
            p == self@.phase,
    {
        self.phase
    }
}

/// What the driver reports back into a dispatched call.
#[derive(Debug)]
pub enum DispatchEvent {
    /// Nothing happened yet, or the call yielded and is being resumed.
    Poll,
    /// The renewal request this call owns came back with this outcome.
    TokenEndpointReplied(Result<Vec<u8>, Error>),
    /// The target request came back with this outcome.
    TargetReplied(Result<Vec<u8>, Error>),
}

/// What the driver must do next for a dispatched call.
#[derive(Debug)]
pub enum DispatchAction {
    /// Send this request to the token endpoint and report the outcome as
    /// `TokenEndpointReplied`.
    CallTokenEndpoint(Request),
    /// Yield to the scheduler, then `Poll` again: another call owns the
    /// in-flight renewal.
    WaitForRenewal,
    /// Send the call's own request (see [`Dispatch::request`]) to the target
    /// and report the outcome as `TargetReplied`.
    CallTarget,
    /// The call is over; feed this outcome through the endpoint descriptor.
    Deliver(Result<Vec<u8>, Error>),
}

/// Which events a call in a given phase can take.
pub open spec fn spec_dispatch_accepts(phase: DispatchPhase, event: DispatchEvent) -> bool {
    match (phase, event) {
        (DispatchPhase::EnsuringToken, DispatchEvent::Poll) => true,
        (DispatchPhase::EnsuringToken, DispatchEvent::TokenEndpointReplied(_)) => true,
        (DispatchPhase::AwaitingTarget, DispatchEvent::TargetReplied(_)) => true,
        _ => false,
    }
}

/// The bytes of a body, as the concatenation of its chunks.
pub open spec fn spec_concat_chunks(chunks: Seq<Chunk>) -> Seq<u8>
    decreases chunks.len(),
{
    if chunks.len() == 0 {
        Seq::empty()
    } else {
        chunks.first()@ + spec_concat_chunks(chunks.drop_first())
    }
}

/// Consumes a body's chunks, returning them as one vector of bytes.
pub fn read_to_bytes(chunks: &Vec<Chunk>) -> (r: Vec<u8>)
    ensures
        r@ == spec_concat_chunks(chunks@),
{
    let mut acc: Vec<u8> = Vec::new();
    let n = chunks.len();
    proof {
        assert(chunks@.skip(0) =~= chunks@);
    }
    for i in 0..n
        invariant
            n == chunks@.len(),
            spec_concat_chunks(chunks@) =~= acc@ + spec_concat_chunks(chunks@.skip(i as int)),
    {
        proof {
            assert(chunks@.skip(i as int).drop_first() =~= chunks@.skip(i + 1));
            assert(chunks@.skip(i as int).first() == chunks@[i as int]);
        }
        let s = chunks[i].as_slice();
        let m = s.len();
        let ghost acc_before = acc@;
        proof {
            assert(acc_before + s@.take(0) =~= acc_before);
        }
        for j in 0..m
            invariant
                m == s@.len(),
                acc@ == acc_before + s@.take(j as int),
        {
            acc.push(s[j]);
            proof {
                assert((acc_before + s@.take(j as int)).push(s@[j as int]) =~= acc_before
                    + s@.take(j + 1));
            }
        }
        proof {
            assert(s@.take(m as int) =~= s@);
            assert(acc@ + spec_concat_chunks(chunks@.skip(i + 1)) =~= acc_before
                + spec_concat_chunks(chunks@.skip(i as int)));
        }
    }
    proof {
        assert(chunks@.skip(n as int) =~= Seq::<Chunk>::empty());
    }
    acc
}

/// Consumes a body's chunks and reads them into a String.
pub fn read_to_string(chunks: &Vec<Chunk>) -> (r: Result<String, Error>)
    ensures
        valid_utf8(spec_concat_chunks(chunks@)) ==> (r matches Ok(s) && s@ == decode_utf8(
            spec_concat_chunks(chunks@),
        )),
        !valid_utf8(spec_concat_chunks(chunks@)) ==> r == Err::<String, Error>(
            Error::FromUtf8Error,
        ),
{
    match decode_utf8_vec(read_to_bytes(chunks)) {
        Some(s) => Ok(s),
        None => Err(Error::FromUtf8Error),
    }
}

/// Cache validity: a token issued at time `issued` carries expiry
/// `issued + TOKEN_TTL_SECS`, and the read path returns it at exactly the
/// query times before that expiry; from the expiry on it is absent.
pub proof fn law_cache_validity(c: CredentialsView, t: AccessTokenView, issued: int, q: int)
    requires
        c.access_token == Some(t),
        t.expires_at == issued + TOKEN_TTL_SECS,
    ensures
        q < issued + TOKEN_TTL_SECS ==> spec_read_if_valid(c, q) == Some(t),
        q >= issued + TOKEN_TTL_SECS ==> spec_read_if_valid(c, q) is None,
{
}

/// Threads one "ensure valid token" step per query time through the store,
/// collecting the actions in order.
pub open spec fn spec_run_token_ops(c: CredentialsView, times: Seq<int>) -> (
    CredentialsView,
    Seq<TokenActionView>,
)
    decreases times.len(),
{
    if times.len() == 0 {
        (c, Seq::empty())
    } else {
        let first = spec_token_step(c, times.first());
        let rest = spec_run_token_ops(first.0, times.drop_first());
        (rest.0, seq![first.1] + rest.1)
    }
}

/// Single-flight, the waiters: while a renewal is in flight and no token is
/// cached, any number of operations may step, in any order and at any
/// times; every one of them waits — none sends a second renewal request,
/// none changes the store.
pub proof fn law_single_flight_waiters(c: CredentialsView, times: Seq<int>)
    requires
        c.renewing,
        c.access_token is None,
    ensures
        spec_run_token_ops(c, times).0 == c,
        forall|i: int|
            0 <= i < spec_run_token_ops(c, times).1.len() ==> #[trigger] spec_run_token_ops(
                c,
                times,
            ).1[i] == TokenActionView::WaitForOwner,
    decreases times.len(),
{
    if times.len() > 0 {
        let step0 = spec_token_step(c, times.first());
        assert(step0 == (c, TokenActionView::WaitForOwner));
        law_single_flight_waiters(c, times.drop_first());
        let rest = spec_run_token_ops(c, times.drop_first());
        assert forall|i: int|
            0 <= i < spec_run_token_ops(c, times).1.len() implies #[trigger] spec_run_token_ops(
            c,
            times,
        ).1[i] == TokenActionView::WaitForOwner by {
            if i == 0 {
                assert(spec_run_token_ops(c, times).1[0] == step0.1);
            } else {
                assert(spec_run_token_ops(c, times).1[i] == rest.1[i - 1]);
            }
        }
    }
}

/// Single-flight, end to end: with no token cached and no renewal in
/// flight, any number of "ensure valid token" operations, interleaved in
/// any order, make exactly one renewal request: the first operation becomes
/// the owner and sends it, and every later operation waits.
pub proof fn law_single_flight(c: CredentialsView, times: Seq<int>)
    requires
        c.access_token is None,
        !c.renewing,
        times.len() > 0,
    ensures
        spec_run_token_ops(c, times).1[0] == TokenActionView::SendTokenRequest(
            spec_token_request(c.subscription_key),
        ),
        forall|i: int|
            1 <= i < spec_run_token_ops(c, times).1.len() ==> #[trigger] spec_run_token_ops(
                c,
                times,
            ).1[i] == TokenActionView::WaitForOwner,
{
    let step0 = spec_token_step(c, times.first());
    let c1 = CredentialsView { renewing: true, ..c };
    assert(step0 == (c1, TokenActionView::SendTokenRequest(spec_token_request(c.subscription_key))));
    law_single_flight_waiters(c1, times.drop_first());
    let rest = spec_run_token_ops(c1, times.drop_first());
    assert forall|i: int|
        1 <= i < spec_run_token_ops(c, times).1.len() implies #[trigger] spec_run_token_ops(
        c,
        times,
    ).1[i] == TokenActionView::WaitForOwner by {
        assert(spec_run_token_ops(c, times).1[i] == rest.1[i - 1]);
    }
}

/// Single-flight, the resolution: when the owner completes at time `done`
/// with a body that decodes as text, every operation that steps before the
/// new expiry — however many — resolves to that same token and leaves the
/// store alone.
pub proof fn law_single_flight_resolution(
    c: CredentialsView,
    body: Seq<u8>,
    done: int,
    times: Seq<int>,
)
    requires
        valid_utf8(body),
        forall|i: int| 0 <= i < times.len() ==> #[trigger] times[i] < done + TOKEN_TTL_SECS,
    ensures
        forall|i: int|
            0 <= i < times.len() ==> spec_token_step(
                spec_complete_outcome(c, Some(body), done),
                #[trigger] times[i],
            ) == (
                spec_complete_outcome(c, Some(body), done),
                TokenActionView::UseToken(spec_renewed_token(body, done)),
            ),
{
}

/// No redundant renewal: while the cached token is valid at every query
/// time, any number of operations use it as is — the store never changes
/// and no renewal request is ever sent.
pub proof fn law_no_redundant_renewal(c: CredentialsView, times: Seq<int>)
    requires
        forall|i: int| 0 <= i < times.len() ==> c.valid_at(#[trigger] times[i]),
    ensures
        spec_run_token_ops(c, times).0 == c,
        forall|i: int|
            0 <= i < spec_run_token_ops(c, times).1.len() ==> !(#[trigger] spec_run_token_ops(
                c,
                times,
            ).1[i] is SendTokenRequest),
    decreases times.len(),
{
    if times.len() > 0 {
        let t0 = times.first();
        assert(c.valid_at(times[0]));
        let step0 = spec_token_step(c, t0);
        assert(step0.0 == c);
        assert(!(step0.1 is SendTokenRequest));
        assert forall|i: int| 0 <= i < times.drop_first().len() implies c.valid_at(
            #[trigger] times.drop_first()[i],
        ) by {
            assert(times.drop_first()[i] == times[i + 1]);
        }
        law_no_redundant_renewal(c, times.drop_first());
        let rest = spec_run_token_ops(c, times.drop_first());
        assert forall|i: int|
            0 <= i < spec_run_token_ops(c, times).1.len() implies !(
        #[trigger] spec_run_token_ops(c, times).1[i] is SendTokenRequest) by {
            if i == 0 {
                assert(spec_run_token_ops(c, times).1[0] == step0.1);
            } else {
                assert(spec_run_token_ops(c, times).1[i] == rest.1[i - 1]);
            }
        }
    }
}

/// Failure resets the flag: after a renewal attempt fails — the transport
/// erred, or the body was not text — the in-flight flag is down and the
/// cached token is unchanged; an operation that then still finds no valid
/// token starts a fresh renewal rather than deadlocking.
pub proof fn law_failure_resets_flag(c: CredentialsView, body: Option<Seq<u8>>, done: int, q: int)
    requires
        body matches Some(b) ==> !valid_utf8(b),
    ensures
        spec_complete_outcome(c, body, done).renewing == false,
        spec_complete_outcome(c, body, done).access_token == c.access_token,
        !spec_complete_outcome(c, body, done).valid_at(q) ==> spec_token_step(
            spec_complete_outcome(c, body, done),
            q,
        ).1 is SendTokenRequest,
{
}

/// Replacement atomicity: a reader only ever sees a stored token whole —
/// what the read path returns is the stored pair of text and expiry — and a
/// successful renewal installs text and expiry together, as one value.
pub proof fn law_replacement_atomicity(c: CredentialsView, q: int, body: Seq<u8>, done: int)
    requires
        valid_utf8(body),
    ensures
        spec_read_if_valid(c, q) matches Some(t) ==> c.access_token == Some(t),
        spec_complete_outcome(c, Some(body), done).access_token == Some(
            spec_renewed_token(body, done),
        ),
{
}

} // verus!
