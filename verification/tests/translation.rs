use cogs::Cog;
use cogs::cogs::translation::{Error, TranslateContentType, TranslateRequest};
use cogs::engine::{DispatchAction, DispatchEvent, Engine, Credentials, SubscriptionKey};
use cogs::engine::Error as EngineError;
use cogs::http::Method;

#[test]
fn translate_request_builds_query() {
    let t = TranslateRequest {
        text: "Hello world",
        from: Some("en"),
        to: "de",
        content_type: Some(TranslateContentType::Html),
        category: Some("general"),
    };
    let req = t.try_to_request().expect("a plain request builds");
    assert_eq!(*req.method(), Method::Get);
    assert_eq!(req.uri().scheme_authority().as_str(), "https://api.microsofttranslator.com");
    assert_eq!(
        req.uri().origin().as_str(),
        "/v2/http.svc/Translate?to=de&text=Hello+world&from=en&contentType=text%2Fhtml&category=general"
    );
    assert_eq!(req.headers().len(), 0);
}

#[test]
fn translate_request_optional_parts_absent() {
    let t = TranslateRequest {
        text: "Hi",
        from: None,
        to: "ja",
        content_type: None,
        category: None,
    };
    let req = t.try_to_request().unwrap();
    assert_eq!(req.uri().origin().as_str(), "/v2/http.svc/Translate?to=ja&text=Hi");
}

#[test]
fn translate_request_plain_content_type() {
    let t = TranslateRequest {
        text: "x",
        from: None,
        to: "es",
        content_type: Some(TranslateContentType::Plain),
        category: None,
    };
    let req = t.try_to_request().unwrap();
    assert_eq!(
        req.uri().origin().as_str(),
        "/v2/http.svc/Translate?to=es&text=x&contentType=text%2Fplain"
    );
}

#[test]
fn response_root_text_is_the_result() {
    let body = b"<string xmlns=\"http://schemas.microsoft.com/2003/10/Serialization/\">Hallo</string>";
    let out = <TranslateRequest<'_> as Cog>::from_result(Ok(body.to_vec()));
    assert_eq!(out.unwrap(), "Hallo");
}

#[test]
fn malformed_response_is_a_parsing_error() {
    let out = <TranslateRequest<'_> as Cog>::from_result(Ok(b"no xml here".to_vec()));
    assert!(matches!(out, Err(Error::XMLParsingError)));
}

#[test]
fn engine_error_is_wrapped() {
    let out = <TranslateRequest<'_> as Cog>::from_result(Err(EngineError::CouldNotRetrieveToken));
    assert!(matches!(out, Err(Error::EngineError(EngineError::CouldNotRetrieveToken))));
}

#[test]
fn full_dispatch_round() {
    let mut engine = Engine::new(Credentials::new(SubscriptionKey::new("abc123")));
    let t = TranslateRequest {
        text: "Hello",
        from: Some("en"),
        to: "de",
        content_type: None,
        category: None,
    };
    let mut d = engine.run(t).unwrap();
    let token_req = match engine.step(&mut d, DispatchEvent::Poll, 100) {
        DispatchAction::CallTokenEndpoint(r) => r,
        _ => panic!("empty cache: the renewal goes out first"),
    };
    assert_eq!(token_req.uri().origin().as_str(), "/sts/v1.0/issueToken");
    let a = engine.step(&mut d, DispatchEvent::TokenEndpointReplied(Ok(b"tok-a".to_vec())), 100);
    assert!(matches!(a, DispatchAction::CallTarget));
    assert!(
        d.request()
            .uri()
            .origin()
            .as_str()
            .starts_with("/v2/http.svc/Translate?to=de&text=Hello")
    );
    let a = engine.step(&mut d, DispatchEvent::TargetReplied(Ok(b"<r>Hallo</r>".to_vec())), 101);
    let delivered = match a {
        DispatchAction::Deliver(r) => r,
        _ => panic!("the target's outcome ends the call"),
    };
    let out = <TranslateRequest<'_> as Cog>::from_result(delivered);
    assert_eq!(out.unwrap(), "Hallo");
}

#[test]
fn transport_failure_scenario() {
    // The token endpoint fails with a transport error: the dispatcher's run
    // delivers an error derived from it, and no renewal stays in flight.
    let mut engine = Engine::new(Credentials::new(SubscriptionKey::new("abc123")));
    let t = TranslateRequest {
        text: "Hello",
        from: Some("en"),
        to: "de",
        content_type: None,
        category: None,
    };
    let mut d = engine.run(t).unwrap();
    assert!(matches!(
        engine.step(&mut d, DispatchEvent::Poll, 0),
        DispatchAction::CallTokenEndpoint(_)
    ));
    let failure = EngineError::TransportError(String::from("connection refused"));
    let a = engine.step(&mut d, DispatchEvent::TokenEndpointReplied(Err(failure)), 0);
    let delivered = match a {
        DispatchAction::Deliver(r) => r,
        _ => panic!("a failed renewal ends the call"),
    };
    let out = <TranslateRequest<'_> as Cog>::from_result(delivered);
    match out {
        Err(Error::EngineError(EngineError::TransportError(msg))) => {
            assert_eq!(msg, "connection refused")
        },
        _ => panic!("the typed error derives from the transport error"),
    }
    assert!(!engine.credentials().renewing(), "the in-flight flag is down afterwards");
}
