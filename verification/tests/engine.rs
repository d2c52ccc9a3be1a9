use cogs::engine::{
    AccessToken, Credentials, DispatchAction, DispatchEvent, DispatchPhase, Engine, Error,
    RenewalDecision, SubscriptionKey, TokenAction, TOKEN_TTL_SECS,
};
use cogs::http::Method;

const MIN: i64 = 60;

fn fresh_engine(key: &str) -> Engine {
    Engine::new(Credentials::new(SubscriptionKey::new(key)))
}

#[test]
fn ttl_is_nine_minutes() {
    assert_eq!(TOKEN_TTL_SECS, 9 * MIN);
}

#[test]
fn subscription_key_value_round_trip() {
    let key = SubscriptionKey::new("abc123");
    assert_eq!(key.value(), "abc123");
}

#[test]
fn read_if_valid_honors_expiry() {
    let mut creds = Credentials::new(SubscriptionKey::new("k"));
    assert!(creds.read_if_valid(0).is_none());
    creds.complete_renewal(Ok(AccessToken { token: String::from("tok"), expires_at: 1000 }));
    let t = creds.read_if_valid(999).expect("valid before expiry");
    assert_eq!(t.token, "tok");
    assert_eq!(t.expires_at, 1000);
    assert!(creds.read_if_valid(1000).is_none());
    assert!(creds.read_if_valid(5000).is_none());
}

#[test]
fn should_renew_token_tracks_validity() {
    let mut creds = Credentials::new(SubscriptionKey::new("k"));
    assert!(creds.should_renew_token(0));
    creds.complete_renewal(Ok(AccessToken { token: String::from("tok"), expires_at: 50 }));
    assert!(!creds.should_renew_token(49));
    assert!(creds.should_renew_token(50));
}

#[test]
fn begin_renewal_decisions() {
    let mut creds = Credentials::new(SubscriptionKey::new("k"));
    assert!(matches!(creds.begin_renewal_or_wait(0), RenewalDecision::ProceedAsOwner));
    assert!(creds.renewing());
    assert!(matches!(creds.begin_renewal_or_wait(0), RenewalDecision::AlreadyInFlight));
    creds.complete_renewal(Ok(AccessToken { token: String::from("tok"), expires_at: 100 }));
    assert!(!creds.renewing());
    match creds.begin_renewal_or_wait(10) {
        RenewalDecision::StillValid(t) => assert_eq!(t.token, "tok"),
        _ => panic!("token should still be valid"),
    }
}

#[test]
fn token_request_shape() {
    let mut engine = fresh_engine("abc123");
    let req = match engine.ensure_token_step(0) {
        TokenAction::SendTokenRequest(req) => req,
        _ => panic!("an empty cache must start a renewal"),
    };
    assert_eq!(*req.method(), Method::Post);
    assert_eq!(
        req.uri().to_text(),
        "https://api.cognitive.microsoft.com/sts/v1.0/issueToken"
    );
    let name = String::from("Ocp-Apim-Subscription-Key");
    assert_eq!(req.headers().get(&name), Some(&String::from("abc123")));
    let cl = String::from("Content-Length");
    assert_eq!(req.headers().get(&cl), Some(&String::from("0")));
}

#[test]
fn single_flight_two_concurrent_operations() {
    // Two logical operations share one engine; neither finds a cached token.
    let mut engine = fresh_engine("k");
    let first = engine.ensure_token_step(100);
    assert!(matches!(first, TokenAction::SendTokenRequest(_)), "first operation owns the renewal");
    let second = engine.ensure_token_step(100);
    assert!(matches!(second, TokenAction::WaitForOwner), "second operation must not send again");
    let third = engine.ensure_token_step(120);
    assert!(matches!(third, TokenAction::WaitForOwner));
    // The owner completes; exactly one network call happened, and every
    // operation now resolves to the same token.
    let tok = engine
        .complete_renewal_outcome(Ok(b"tok-shared".to_vec()), 100)
        .expect("renewal succeeded");
    assert_eq!(tok.token, "tok-shared");
    for now in [101, 150, 100 + TOKEN_TTL_SECS - 1] {
        match engine.ensure_token_step(now) {
            TokenAction::UseToken(t) => assert_eq!(t.token, "tok-shared"),
            _ => panic!("every waiter resolves to the shared token"),
        }
    }
}

#[test]
fn no_redundant_renewal_while_valid() {
    let mut engine = fresh_engine("k");
    engine.ensure_token_step(0);
    engine.complete_renewal_outcome(Ok(b"tok".to_vec()), 0).unwrap();
    for now in [0, 1, 60, TOKEN_TTL_SECS - 1] {
        match engine.ensure_token_step(now) {
            TokenAction::UseToken(t) => assert_eq!(t.token, "tok"),
            _ => panic!("a valid cached token must be used as is"),
        }
    }
    assert!(!engine.credentials().renewing());
}

#[test]
fn failure_resets_flag_and_allows_retry() {
    let mut engine = fresh_engine("k");
    assert!(matches!(engine.ensure_token_step(0), TokenAction::SendTokenRequest(_)));
    let err = engine
        .complete_renewal_outcome(Err(Error::TransportError(String::from("boom"))), 0)
        .expect_err("transport failure surfaces");
    assert_eq!(err, Error::TransportError(String::from("boom")));
    assert!(!engine.credentials().renewing(), "flag is down right after the failure");
    // A subsequent call can start a new renewal attempt: no deadlock.
    assert!(matches!(engine.ensure_token_step(1), TokenAction::SendTokenRequest(_)));
}

#[test]
fn non_text_body_is_an_encoding_error() {
    let mut engine = fresh_engine("k");
    engine.ensure_token_step(0);
    let err = engine
        .complete_renewal_outcome(Ok(vec![0xff, 0xfe, 0xfd]), 0)
        .expect_err("an invalid body fails the renewal");
    assert_eq!(err, Error::FromUtf8Error);
    assert!(!engine.credentials().renewing());
    assert!(engine.credentials().read_if_valid(0).is_none(), "no token was installed");
}

#[test]
fn renewed_token_replaces_old_one_whole() {
    let mut engine = fresh_engine("k");
    engine.ensure_token_step(0);
    engine.complete_renewal_outcome(Ok(b"tok-1".to_vec()), 0).unwrap();
    let t1 = engine.credentials().read_if_valid(1).unwrap();
    assert_eq!((t1.token.as_str(), t1.expires_at), ("tok-1", TOKEN_TTL_SECS));
    engine.ensure_token_step(TOKEN_TTL_SECS + 1);
    engine
        .complete_renewal_outcome(Ok(b"tok-2".to_vec()), TOKEN_TTL_SECS + 1)
        .unwrap();
    // Both fields of the observed token come from the second renewal.
    let t2 = engine.credentials().read_if_valid(TOKEN_TTL_SECS + 2).unwrap();
    assert_eq!((t2.token.as_str(), t2.expires_at), ("tok-2", 2 * TOKEN_TTL_SECS + 1));
}

#[test]
fn token_lifecycle_scenario() {
    // Subscription key "abc123"; the endpoint hands out "tok-1" at T0.
    let t0: i64 = 1_000_000;
    let mut engine = fresh_engine("abc123");
    match engine.ensure_token_step(t0) {
        TokenAction::SendTokenRequest(req) => {
            let name = String::from("Ocp-Apim-Subscription-Key");
            assert_eq!(req.headers().get(&name), Some(&String::from("abc123")));
        },
        _ => panic!("first call renews"),
    }
    let tok = engine.complete_renewal_outcome(Ok(b"tok-1".to_vec()), t0).unwrap();
    assert_eq!(tok.token, "tok-1");
    assert_eq!(tok.expires_at, t0 + 9 * MIN);
    // A call at T0 + 8min returns "tok-1" without a network call.
    match engine.ensure_token_step(t0 + 8 * MIN) {
        TokenAction::UseToken(t) => assert_eq!(t.token, "tok-1"),
        _ => panic!("the cached token is still valid"),
    }
    // A call at T0 + 10min triggers one renewal; the endpoint returns "tok-2".
    match engine.ensure_token_step(t0 + 10 * MIN) {
        TokenAction::SendTokenRequest(_) => (),
        _ => panic!("the cached token expired"),
    }
    assert!(matches!(engine.ensure_token_step(t0 + 10 * MIN), TokenAction::WaitForOwner));
    engine
        .complete_renewal_outcome(Ok(b"tok-2".to_vec()), t0 + 10 * MIN)
        .unwrap();
    // Subsequent calls before T0 + 19min return "tok-2".
    for now in [t0 + 10 * MIN + 1, t0 + 15 * MIN, t0 + 19 * MIN - 1] {
        match engine.ensure_token_step(now) {
            TokenAction::UseToken(t) => assert_eq!(t.token, "tok-2"),
            _ => panic!("tok-2 is valid until T0 + 19min"),
        }
    }
    assert!(matches!(engine.ensure_token_step(t0 + 19 * MIN), TokenAction::SendTokenRequest(_)));
}

#[test]
fn dispatch_attaches_bearer_and_delivers() {
    let mut engine = fresh_engine("k");
    let mut d = engine
        .run(cogs::cogs::translation::TranslateRequest {
            text: "Hello",
            from: Some("en"),
            to: "de",
            content_type: None,
            category: None,
        })
        .expect("the request builds");
    assert_eq!(d.phase(), DispatchPhase::EnsuringToken);
    let req = match engine.step(&mut d, DispatchEvent::Poll, 0) {
        DispatchAction::CallTokenEndpoint(req) => req,
        _ => panic!("no token yet: the dispatch renews first"),
    };
    assert_eq!(*req.method(), Method::Post);
    let a = engine.step(&mut d, DispatchEvent::TokenEndpointReplied(Ok(b"tok-9".to_vec())), 0);
    assert!(matches!(a, DispatchAction::CallTarget));
    assert_eq!(d.phase(), DispatchPhase::AwaitingTarget);
    let auth = String::from("Authorization");
    assert_eq!(d.request().headers().get(&auth), Some(&String::from("Bearer tok-9")));
    let a = engine.step(&mut d, DispatchEvent::TargetReplied(Ok(b"<r>Hallo</r>".to_vec())), 1);
    match a {
        DispatchAction::Deliver(Ok(body)) => assert_eq!(body, b"<r>Hallo</r>".to_vec()),
        _ => panic!("the target outcome is delivered as is"),
    }
    assert_eq!(d.phase(), DispatchPhase::Finished);
}

#[test]
fn dispatch_reuses_valid_token_without_renewal() {
    let mut engine = fresh_engine("k");
    engine.ensure_token_step(0);
    engine.complete_renewal_outcome(Ok(b"tok-5".to_vec()), 0).unwrap();
    let mut d = engine
        .run(cogs::cogs::translation::TranslateRequest {
            text: "hi",
            from: None,
            to: "fr",
            content_type: None,
            category: None,
        })
        .unwrap();
    let a = engine.step(&mut d, DispatchEvent::Poll, 10);
    assert!(matches!(a, DispatchAction::CallTarget), "zero token calls for a valid cache");
    let auth = String::from("Authorization");
    assert_eq!(d.request().headers().get(&auth), Some(&String::from("Bearer tok-5")));
}
