use acme2::nonce::nonce_from_new_nonce;
use acme2::{AcmeError, Error, Exchange, NonceCache, ResponseMeta, Step};

fn problem(typ: &str) -> AcmeError {
    AcmeError { typ: Some(typ.to_string()), title: None, status: Some(400), detail: Some("bad".to_string()) }
}

fn response(status: u16, nonce: Option<&str>, problem_type: Option<&str>) -> ResponseMeta {
    ResponseMeta {
        status,
        content_type: problem_type.map(|_| "application/problem+json".to_string()),
        replay_nonce: nonce.map(|n| n.to_string()),
        problem: problem_type.map(problem),
    }
}

const BAD_NONCE: &str = "urn:ietf:params:acme:error:badNonce";

#[test]
fn consume_then_offer_keeps_one_nonce() {
    let mut cache = NonceCache::new();
    assert_eq!(cache.len(), 0);
    cache.offer(Some("n1".to_string()));
    assert_eq!(cache.len(), 1);
    let n = cache.consume();
    assert_eq!(n, Some("n1".to_string()));
    assert_eq!(cache.len(), 0);
    cache.offer(n);
    assert_eq!(cache.len(), 1);
    assert_eq!(cache.consume(), Some("n1".to_string()));
}

#[test]
fn offer_displaces_and_absent_header_keeps() {
    let mut cache = NonceCache::new();
    cache.offer(Some("a".to_string()));
    cache.offer(Some("b".to_string()));
    assert_eq!(cache.len(), 1);
    cache.offer(None);
    assert_eq!(cache.consume(), Some("b".to_string()));
    assert_eq!(cache.consume(), None);
}

#[test]
fn error_response_still_refills_cache() {
    let mut cache = NonceCache::new();
    let mut ex = Exchange::new();
    let step = ex.on_response(&mut cache, response(403, Some("fresh"), Some("urn:ietf:params:acme:error:unauthorized")), false);
    match step {
        Step::Failure(Error::Server(p)) => assert_eq!(p.typ.as_deref(), Some("urn:ietf:params:acme:error:unauthorized")),
        _ => panic!("expected a server error"),
    }
    assert_eq!(cache.consume(), Some("fresh".to_string()));
}

#[test]
fn success_statuses() {
    for status in [200u16, 201, 204] {
        let mut cache = NonceCache::new();
        assert!(matches!(Exchange::new().on_response(&mut cache, response(status, None, None), false), Step::Success));
    }
    for status in [200u16, 202] {
        let mut cache = NonceCache::new();
        assert!(matches!(Exchange::new().on_response(&mut cache, response(status, None, None), true), Step::Success));
    }
    for status in [201u16, 204] {
        let mut cache = NonceCache::new();
        assert!(matches!(Exchange::new().on_response(&mut cache, response(status, None, None), true), Step::Failure(Error::Protocol(_))));
    }
    let mut cache = NonceCache::new();
    let accepted_with_problem = response(202, None, Some("urn:ietf:params:acme:error:malformed"));
    match Exchange::new().on_response(&mut cache, accepted_with_problem, false) {
        Step::Failure(Error::Server(p)) => assert_eq!(p.typ.as_deref(), Some("urn:ietf:params:acme:error:malformed")),
        _ => panic!("202 is not a success for an ordinary request"),
    }
    let mut cache = NonceCache::new();
    assert!(matches!(Exchange::new().on_response(&mut cache, response(500, None, None), false), Step::Failure(Error::Protocol(_))));
}

#[test]
fn new_nonce_without_header_is_a_protocol_error() {
    assert!(matches!(nonce_from_new_nonce(None), Err(Error::Protocol(_))));
    assert_eq!(nonce_from_new_nonce(Some("x".to_string())).ok(), Some("x".to_string()));
}

#[test]
fn bad_nonce_retries_are_capped() {
    let mut cache = NonceCache::new();
    let mut ex = Exchange::new();
    assert!(matches!(ex.on_response(&mut cache, response(400, None, Some(BAD_NONCE)), false), Step::Retry));
    assert!(matches!(ex.on_response(&mut cache, response(400, None, Some(BAD_NONCE)), false), Step::Retry));
    assert!(matches!(ex.on_response(&mut cache, response(400, None, Some(BAD_NONCE)), false), Step::Failure(Error::Server(_))));
}

#[test]
fn bad_nonce_needs_problem_content_type() {
    let mut cache = NonceCache::new();
    let mut resp = response(400, None, Some(BAD_NONCE));
    resp.content_type = Some("text/plain".to_string());
    assert!(matches!(Exchange::new().on_response(&mut cache, resp, false), Step::Failure(Error::Server(_))));
    let mut resp = response(400, None, Some(BAD_NONCE));
    resp.content_type = Some("application/problem+json; charset=utf-8".to_string());
    assert!(matches!(Exchange::new().on_response(&mut cache, resp, false), Step::Retry));
}

/// A server that rejects the first nonce it sees, then accepts.
struct MockServer {
    posts: usize,
    new_nonce_fetches: usize,
    rejected_once: bool,
    counter: usize,
}

impl MockServer {
    fn new_nonce(&mut self) -> Option<String> {
        self.new_nonce_fetches += 1;
        self.counter += 1;
        Some(format!("nonce-{}", self.counter))
    }

    fn post(&mut self, _nonce: &str) -> ResponseMeta {
        self.posts += 1;
        if !self.rejected_once {
            self.rejected_once = true;
            ResponseMeta {
                status: 400,
                content_type: Some("application/problem+json".to_string()),
                replay_nonce: None,
                problem: Some(problem(BAD_NONCE)),
            }
        } else {
            self.counter += 1;
            ResponseMeta { status: 200, content_type: None, replay_nonce: Some(format!("nonce-{}", self.counter)), problem: None }
        }
    }
}

#[test]
fn bad_nonce_recovery_takes_two_posts_and_one_extra_nonce() {
    let mut server = MockServer { posts: 0, new_nonce_fetches: 0, rejected_once: false, counter: 0 };
    let mut cache = NonceCache::new();
    cache.offer(Some("from-earlier-response".to_string()));
    let mut ex = Exchange::new();
    let mut used = vec![];
    let outcome = loop {
        let nonce = match ex.next_nonce(&mut cache) {
            Some(n) => n,
            None => nonce_from_new_nonce(server.new_nonce()).ok().unwrap(),
        };
        used.push(nonce.clone());
        match ex.on_response(&mut cache, server.post(&nonce), false) {
            Step::Retry => continue,
            other => break other,
        }
    };
    assert!(matches!(outcome, Step::Success));
    assert_eq!(server.posts, 2);
    assert_eq!(server.new_nonce_fetches, 1);
    assert_eq!(used, vec!["from-earlier-response".to_string(), "nonce-1".to_string()]);
    assert_eq!(cache.consume(), Some("nonce-2".to_string()));
}

#[test]
fn problem_message_formats_fields() {
    let p = AcmeError {
        typ: Some("urn:x".to_string()),
        title: Some("T".to_string()),
        status: None,
        detail: None,
    };
    assert_eq!(p.message(), "AcmeError(urn:x): T: ");
    assert!(p.has_type("urn:x"));
    assert!(!p.has_type("urn:y"));
}
