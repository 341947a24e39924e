use acme2::authorization::{dns_txt_value, HTTP01_PREFIX};
use acme2::{
    AccountBuilder, AccountKey, AccountStatus, AcmeError, AcmeResult, Authorization, AuthorizationStatus,
    Challenge, ChallengeStatus, CheckResponse, Directory, DirectoryMeta, Error, Identifier, Jwk, Observation,
    Order, OrderBuilder, OrderStatus, Poll,
};
use openssl::ec::{EcGroup, EcKey};
use openssl::nid::Nid;
use openssl::pkey::{PKey, Private};
use std::sync::Arc;

fn directory() -> Directory {
    Directory {
        new_nonce_url: "https://example/nonce".to_string(),
        new_account_url: "https://example/acct".to_string(),
        new_order_url: "https://example/order".to_string(),
        revoke_cert_url: "https://example/revoke".to_string(),
        key_change_url: "https://example/key".to_string(),
        new_authz_url: None,
        meta: Some(DirectoryMeta {
            terms_of_service: None,
            website: Some("https://example/".to_string()),
            caa_identities: None,
            external_account_required: None,
        }),
    }
}

fn p256_key() -> PKey<Private> {
    let group = EcGroup::from_curve_name(Nid::X9_62_PRIME256V1).unwrap();
    PKey::from_ec_key(EcKey::generate(&group).unwrap()).unwrap()
}

fn account(key: PKey<Private>, kid: &str) -> acme2::Account {
    let dir = Arc::new(directory());
    let mut builder = AccountBuilder::new(dir);
    builder.private_key(key);
    let k = builder.signing_key().ok().unwrap();
    builder
        .finish(k, AccountStatus::Valid, None, Some(true), Some(kid.to_string()))
        .ok()
        .unwrap()
}

fn challenge(typ: &str, status: ChallengeStatus, token: Option<&str>) -> Challenge {
    Challenge {
        typ: typ.to_string(),
        url: "https://example/chall/1".to_string(),
        status,
        validated: None,
        token: token.map(|t| t.to_string()),
        domain: Some("test.example.invalid".to_string()),
        error: None,
    }
}

fn order(status: OrderStatus) -> Order {
    Order {
        status,
        expires: None,
        identifiers: vec![Identifier::dns("test.example.invalid".to_string()), Identifier::dns("www.example.invalid".to_string())],
        not_before: None,
        not_after: None,
        authorization_urls: vec!["https://example/authz/1".to_string()],
        finalize_url: "https://example/order/1/finalize".to_string(),
        certificate_url: Some("https://example/cert/1".to_string()),
        error: None,
    }
}

#[test]
fn directory_discovery_requires_endpoints() {
    let dir = directory().checked().ok().unwrap();
    assert!(!dir.new_nonce_url.is_empty());
    assert!(!dir.new_account_url.is_empty());
    assert!(!dir.new_order_url.is_empty());
    assert_eq!(dir.meta.as_ref().unwrap().website.as_deref(), Some("https://example/"));
    let mut broken = directory();
    broken.new_order_url = String::new();
    assert!(matches!(broken.checked(), Err(Error::Protocol(_))));
}

#[test]
fn account_creation_payload_and_kid() {
    let dir = Arc::new(directory());
    let mut builder = AccountBuilder::new(dir);
    builder
        .contact(vec!["mailto:hello@example.test".to_string()])
        .terms_of_service_agreed(true);
    assert_eq!(
        builder.payload(),
        "{\"contact\":[\"mailto:hello@example.test\"],\"termsOfServiceAgreed\":true,\"onlyReturnExisting\":null}"
    );
    builder.private_key(p256_key());
    let key = builder.signing_key().ok().unwrap();
    let request = builder.new_account_request(&key, "n".to_string()).ok().unwrap();
    let v: serde_json::Value = serde_json::from_str(&request).unwrap();
    let protected = v.get("protected").unwrap().as_str().unwrap();
    let header: serde_json::Value =
        serde_json::from_slice(&base64::decode_config(protected, base64::URL_SAFE_NO_PAD).unwrap()).unwrap();
    assert!(header.get("jwk").is_some());
    assert_eq!(header.get("url").unwrap().as_str().unwrap(), "https://example/acct");
    let acct = builder
        .finish(key, AccountStatus::Valid, Some(vec!["mailto:hello@example.test".to_string()]), Some(true), Some("https://example/acct/1".to_string()))
        .ok()
        .unwrap();
    assert_eq!(acct.status, AccountStatus::Valid);
    assert_eq!(acct.kid(), "https://example/acct/1");
}

#[test]
fn account_without_location_is_a_protocol_error() {
    let mut builder = AccountBuilder::new(Arc::new(directory()));
    builder.private_key(p256_key());
    let key = builder.signing_key().ok().unwrap();
    let r = builder.finish(key, AccountStatus::Valid, None, None, None);
    assert!(matches!(r, Err(Error::Protocol(_))));
    let key = builder.signing_key().ok().unwrap();
    let r = builder.finish(key, AccountStatus::Valid, None, None, Some(String::new()));
    assert!(matches!(r, Err(Error::Protocol(_))));
}

#[test]
fn account_lookup_with_same_key_names_same_signer() {
    let pkey = p256_key();
    let mut builder = AccountBuilder::new(Arc::new(directory()));
    builder.private_key(pkey.clone()).only_return_existing(true);
    assert_eq!(builder.payload(), "{\"contact\":null,\"termsOfServiceAgreed\":null,\"onlyReturnExisting\":true}");
    let first = AccountKey::new(pkey.clone()).ok().unwrap();
    let second = builder.signing_key().ok().unwrap();
    assert_eq!(first.jwk().thumbprint().ok(), second.jwk().thumbprint().ok());
    let a = account(pkey.clone(), "https://example/acct/9");
    let b = account(pkey, "https://example/acct/9");
    assert_eq!(a.kid(), b.kid());
}

#[test]
fn http01_key_authorization() {
    let pkey = p256_key();
    let acct = account(pkey.clone(), "https://example/acct/1");
    let ch = challenge("http-01", ChallengeStatus::Pending, Some("tok"));
    let thumb = Jwk::new(&pkey).ok().unwrap().thumbprint().ok().unwrap();
    let ka = ch.key_authorization(&acct).ok().unwrap().unwrap();
    assert_eq!(ka, format!("tok.{}", thumb));
    assert_eq!(ch.key_authorization_with("THUMB"), Some("tok.THUMB".to_string()));
    assert_eq!(ch.http01_path(), Some(format!("{}tok", HTTP01_PREFIX)));
    assert_eq!(ch.http01_path().unwrap(), "/.well-known/acme-challenge/tok");
    assert_eq!(ch.ctype(), "http-01");
    assert_eq!(ch.token(), Some("tok".to_string()));
    assert_eq!(ch.domain(), Some("test.example.invalid".to_string()));
    let no_token = challenge("http-01", ChallengeStatus::Pending, None);
    assert_eq!(no_token.key_authorization(&acct).ok().unwrap(), None);
}

#[test]
fn dns01_record_value() {
    // SHA-256("abc"), base64url.
    assert_eq!(dns_txt_value("abc").ok().unwrap(), "ungWv48Bz-pBQUDeXa4iI7ADYaOWF3qctBD_YfIAFa0");
    let pkey = p256_key();
    let acct = account(pkey, "https://example/acct/1");
    let ch = challenge("dns-01", ChallengeStatus::Pending, Some("tok"));
    let ka = ch.key_authorization(&acct).ok().unwrap().unwrap();
    assert_eq!(ch.signature(&acct).ok().unwrap(), Some(dns_txt_value(&ka).ok().unwrap()));
}

#[test]
fn polling_decisions() {
    assert_eq!(challenge("http-01", ChallengeStatus::Pending, None).poll_step(), Poll::Wait);
    assert_eq!(challenge("http-01", ChallengeStatus::Processing, None).poll_step(), Poll::Wait);
    assert_eq!(challenge("http-01", ChallengeStatus::Valid, None).poll_step(), Poll::Done);
    assert_eq!(challenge("http-01", ChallengeStatus::Invalid, None).poll_step(), Poll::Failed);
    assert_eq!(AuthorizationStatus::Pending.poll(), Poll::Wait);
    assert_eq!(AuthorizationStatus::Valid.poll(), Poll::Done);
    for s in [AuthorizationStatus::Invalid, AuthorizationStatus::Expired, AuthorizationStatus::Revoked, AuthorizationStatus::Deactivated] {
        assert_eq!(s.poll(), Poll::Failed);
    }
    assert_eq!(order(OrderStatus::Pending).poll_step(), Poll::Wait);
    assert_eq!(order(OrderStatus::Processing).poll_step(), Poll::Wait);
    assert_eq!(order(OrderStatus::Ready).poll_step(), Poll::Done);
    assert_eq!(order(OrderStatus::Valid).poll_step(), Poll::Done);
    assert_eq!(order(OrderStatus::Invalid).poll_step(), Poll::Failed);
}

#[test]
fn authorization_finds_challenge_by_type() {
    let auth = Authorization {
        identifier: Identifier::dns("test.example.invalid".to_string()),
        status: AuthorizationStatus::Pending,
        expires: None,
        challenges: vec![
            challenge("dns-01", ChallengeStatus::Pending, Some("a")),
            challenge("http-01", ChallengeStatus::Pending, Some("b")),
        ],
        wildcard: None,
    };
    assert_eq!(auth.challenge("http-01").unwrap().token(), Some("b".to_string()));
    assert!(auth.challenge("tls-alpn-01").is_none());
    assert_eq!(auth.poll_step(), Poll::Wait);
}

#[test]
fn check_response_status_names() {
    let mut c = CheckResponse {
        status: "valid".to_string(),
        expires: String::new(),
        identifier: Identifier::dns("x".to_string()),
        challenges: vec![],
    };
    assert_eq!(c.authorization_status(), Some(AuthorizationStatus::Valid));
    c.status = "revoked".to_string();
    assert_eq!(c.authorization_status(), Some(AuthorizationStatus::Revoked));
    c.status = "bogus".to_string();
    assert_eq!(c.authorization_status(), None);
}

#[test]
fn new_order_payload() {
    let acct = Arc::new(account(p256_key(), "https://example/acct/1"));
    let mut b = OrderBuilder::new(acct);
    b.add_dns_identifier("test.example.invalid".to_string());
    assert_eq!(b.payload(), "{\"identifiers\":[{\"type\":\"dns\",\"value\":\"test.example.invalid\"}]}");
    b.set_identifiers(vec![]);
    assert_eq!(b.payload(), "{\"identifiers\":[]}");
    assert!(b.request("n".to_string()).is_ok());
}

#[test]
fn finalize_only_when_ready() {
    let der = [0x30u8, 0x03, 0x02, 0x01, 0x05];
    assert_eq!(order(OrderStatus::Ready).finalize_payload(&der).ok().unwrap(), "{\"csr\":\"MAMCAQU\"}");
    assert!(matches!(order(OrderStatus::Pending).finalize_payload(&der), Err(Error::InvalidState(_))));
    let acct = account(p256_key(), "https://example/acct/1");
    assert!(order(OrderStatus::Ready).finalize_request(&acct, "n".to_string(), &der).is_ok());
    assert!(matches!(order(OrderStatus::Valid).finalize_request(&acct, "n".to_string(), &der), Err(Error::InvalidState(_))));
}

#[test]
fn certificate_only_when_valid() {
    assert_eq!(order(OrderStatus::Valid).certificate_location().ok().unwrap(), "https://example/cert/1");
    assert!(matches!(order(OrderStatus::Processing).certificate_location(), Err(Error::InvalidState(_))));
    let mut o = order(OrderStatus::Valid);
    o.certificate_url = None;
    assert!(matches!(o.certificate_location(), Err(Error::InvalidState(_))));
}

#[test]
fn csr_names_from_identifiers() {
    let (cn, sans) = order(OrderStatus::Ready).csr_names().ok().unwrap();
    assert_eq!(cn, "test.example.invalid");
    assert_eq!(sans, vec!["test.example.invalid".to_string(), "www.example.invalid".to_string()]);
    let mut o = order(OrderStatus::Ready);
    o.identifiers = vec![];
    assert!(matches!(o.csr_names(), Err(Error::InvalidState(_))));
}

#[test]
fn problem_lifts_into_server_error() {
    let ok: AcmeResult<u8> = AcmeResult::Success(7);
    assert_eq!(ok.into_result().ok(), Some(7));
    let err: AcmeResult<u8> = AcmeResult::Problem(AcmeError { typ: None, title: None, status: Some(404), detail: None });
    assert!(matches!(err.into_result(), Err(Error::Server(AcmeError { status: Some(404), .. }))));
}

#[test]
fn registration_becomes_account_request() {
    let reg = acme2::AccountRegistration::new(Arc::new(directory()))
        .contact(&["tel:+1-555"])
        .email("hello@example.test")
        .agreement("https://example/terms");
    let builder = reg.into_builder();
    assert_eq!(
        builder.payload(),
        "{\"contact\":[\"tel:+1-555\",\"mailto:hello@example.test\"],\"termsOfServiceAgreed\":true,\"onlyReturnExisting\":null}"
    );
    let plain = acme2::AccountRegistration::new(Arc::new(directory())).into_builder();
    assert_eq!(plain.payload(), "{\"contact\":[],\"termsOfServiceAgreed\":null,\"onlyReturnExisting\":null}");
}

fn problem(detail: &str) -> AcmeError {
    AcmeError { typ: Some("urn:ietf:params:acme:error:incorrectResponse".to_string()), title: None, status: Some(403), detail: Some(detail.to_string()) }
}

#[test]
fn invalid_challenge_fails_with_server_problem() {
    let mut ch = challenge("http-01", ChallengeStatus::Invalid, Some("t"));
    ch.error = Some(problem("wrong content"));
    match ch.observe() {
        Observation::Failed(Error::TerminalFailure(Some(p))) => assert_eq!(p.detail.as_deref(), Some("wrong content")),
        _ => panic!("expected a terminal failure"),
    }
    assert!(matches!(challenge("http-01", ChallengeStatus::Processing, None).observe(), Observation::Wait(_)));
    assert!(matches!(challenge("http-01", ChallengeStatus::Valid, None).observe(), Observation::Done(_)));
}

#[test]
fn invalid_authorization_reports_first_challenge_problem() {
    let mut bad = challenge("dns-01", ChallengeStatus::Invalid, Some("b"));
    bad.error = Some(problem("no TXT record"));
    let auth = Authorization {
        identifier: Identifier::dns("test.example.invalid".to_string()),
        status: AuthorizationStatus::Invalid,
        expires: None,
        challenges: vec![challenge("http-01", ChallengeStatus::Pending, Some("a")), bad],
        wildcard: None,
    };
    match auth.observe() {
        Observation::Failed(Error::TerminalFailure(Some(p))) => assert_eq!(p.detail.as_deref(), Some("no TXT record")),
        _ => panic!("expected a terminal failure"),
    }
}

#[test]
fn invalid_order_fails_and_ready_order_is_done() {
    let mut o = order(OrderStatus::Invalid);
    o.error = Some(problem("rejected"));
    assert!(matches!(o.observe(), Observation::Failed(Error::TerminalFailure(Some(_)))));
    assert!(matches!(order(OrderStatus::Ready).observe(), Observation::Done(_)));
    assert!(matches!(order(OrderStatus::Processing).observe(), Observation::Wait(_)));
}

#[test]
fn observed_transitions() {
    assert!(OrderStatus::Pending.may_become(&OrderStatus::Ready));
    assert!(OrderStatus::Ready.may_become(&OrderStatus::Valid));
    assert!(OrderStatus::Processing.may_become(&OrderStatus::Invalid));
    assert!(!OrderStatus::Valid.may_become(&OrderStatus::Invalid));
    assert!(!OrderStatus::Ready.may_become(&OrderStatus::Pending));
    assert!(!OrderStatus::Invalid.may_become(&OrderStatus::Ready));
    assert!(ChallengeStatus::Pending.may_become(&ChallengeStatus::Valid));
    assert!(!ChallengeStatus::Valid.may_become(&ChallengeStatus::Pending));
    assert!(!ChallengeStatus::Processing.may_become(&ChallengeStatus::Pending));
    assert!(AuthorizationStatus::Pending.may_become(&AuthorizationStatus::Expired));
    assert!(!AuthorizationStatus::Valid.may_become(&AuthorizationStatus::Revoked));
    assert!(AuthorizationStatus::Valid.may_become(&AuthorizationStatus::Valid));
}
