use base64::engine::general_purpose::STANDARD;
use base64::Engine;
use rsa::pkcs1::EncodeRsaPrivateKey;
use rsa::pkcs8::{EncodePrivateKey, LineEnding};
use rsa::pss::{Signature, VerifyingKey};
use rsa::signature::Verifier;
use rsa::RsaPrivateKey;
use sha2::Sha256;
use tradebot::kalshi::auth::{headers_from, signing_message, KalshiAuth};
use tradebot::kalshi::error::KalshiError;

const MOMENT: i64 = 1_750_000_000_123;

fn key() -> RsaPrivateKey {
    let mut rng = rsa::rand_core::OsRng;
    RsaPrivateKey::new(&mut rng, 2048).expect("keygen failed")
}

fn pkcs8() -> (String, RsaPrivateKey) {
    let key = key();
    let pem = key.to_pkcs8_pem(LineEnding::LF).expect("pem encode failed");
    (pem.to_string(), key)
}

fn pkcs1() -> String {
    key().to_pkcs1_pem(LineEnding::LF).expect("pem encode failed").to_string()
}

fn reason(r: Result<KalshiAuth, KalshiError>) -> String {
    match r {
        Ok(_) => panic!("the key was taken"),
        Err(KalshiError::SigningError(s)) => s,
        Err(e) => panic!("{:?}", e),
    }
}

#[test]
fn load_pkcs8_key() {
    let (pem, _) = pkcs8();
    let auth = KalshiAuth::new("my-api-key".into(), "key.pem", Ok(pem));
    assert!(auth.is_ok());
    assert_eq!(auth.ok().unwrap().api_key(), "my-api-key");
}

#[test]
fn load_pkcs1_key() {
    let auth = KalshiAuth::new("my-api-key".into(), "key.pem", Ok(pkcs1()));
    assert!(auth.is_ok());
    let headers = auth.ok().unwrap().sign_request("GET", "/x", MOMENT).unwrap();
    assert!(!STANDARD.decode(&headers.signature).unwrap().is_empty());
}

#[test]
fn invalid_key_path_returns_error() {
    let result = KalshiAuth::new("key".into(), "/nonexistent/path.pem", Err("No such file".into()));
    assert!(result.is_err());
    assert!(matches!(result, Err(KalshiError::SigningError(_))));
    assert!(reason(result).contains("/nonexistent/path.pem"));
}

#[test]
fn invalid_pem_content_returns_error() {
    let result = KalshiAuth::new("key".into(), "key.pem", Ok("not a real PEM file".to_string()));
    assert!(result.is_err());
}

#[test]
fn sign_request_produces_valid_output() {
    let (pem, _) = pkcs8();
    let auth = KalshiAuth::new("test-key".into(), "key.pem", Ok(pem)).ok().unwrap();

    let headers = auth.sign_request("GET", "/trade-api/v2/markets", MOMENT).unwrap();

    assert_eq!(headers.api_key, "test-key");

    let ts: i64 = headers.timestamp.parse().expect("timestamp should be numeric");
    assert!(ts > 1_700_000_000_000);
    assert_eq!(ts, MOMENT);

    let decoded = STANDARD.decode(&headers.signature);
    assert!(decoded.is_ok(), "signature must be valid base64");
    assert!(!decoded.unwrap().is_empty(), "signature must not be empty");
}

#[test]
fn sign_request_different_methods_produce_different_signatures() {
    let (pem, _) = pkcs8();
    let auth = KalshiAuth::new("key".into(), "key.pem", Ok(pem)).ok().unwrap();

    let h1 = auth.sign_request("GET", "/path", MOMENT).unwrap();
    let h2 = auth.sign_request("POST", "/path", MOMENT).unwrap();

    assert_ne!(h1.signature, h2.signature);
}

#[test]
fn sign_request_different_paths_produce_different_signatures() {
    let (pem, _) = pkcs8();
    let auth = KalshiAuth::new("key".into(), "key.pem", Ok(pem)).ok().unwrap();

    let h1 = auth.sign_request("GET", "/path1", MOMENT).unwrap();
    let h2 = auth.sign_request("GET", "/path2", MOMENT).unwrap();

    assert_ne!(h1.signature, h2.signature);
}

#[test]
fn sign_request_verifies_with_public_key() {
    let (pem, private_key) = pkcs8();
    let auth = KalshiAuth::new("key".into(), "key.pem", Ok(pem)).ok().unwrap();

    let headers = auth.sign_request("GET", "/test", MOMENT).unwrap();

    let message = format!("{}GET/test", headers.timestamp);
    let sig_bytes = STANDARD.decode(&headers.signature).unwrap();
    let signature = Signature::try_from(sig_bytes.as_slice()).unwrap();

    let verifying_key = VerifyingKey::<Sha256>::new(private_key.to_public_key());
    assert!(verifying_key.verify(message.as_bytes(), &signature).is_ok());
    assert!(verifying_key.verify(b"something else", &signature).is_err());
}

#[test]
fn debug_redacts_api_key() {
    let (pem, _) = pkcs8();
    let auth = KalshiAuth::new("super-secret-key".into(), "key.pem", Ok(pem)).ok().unwrap();
    let debug = auth.debug_text();
    assert!(debug.contains("[redacted]"));
    assert!(!debug.contains("super-secret-key"));
}

#[test]
fn messages_join_moment_method_and_path() {
    assert_eq!(signing_message(1234, "POST", "/a/b"), "1234POST/a/b");
    assert_eq!(signing_message(-5, "", ""), "-5");
}

#[test]
fn headers_tell_what_was_signed() {
    let sign = |bytes: &[u8]| headers_from("k", -12, Some(bytes.to_vec())).unwrap();
    assert_eq!(sign(b"foobar").signature, "Zm9vYmFy");
    assert_eq!(sign(b"fooba").signature, "Zm9vYmE=");
    assert_eq!(sign(b"foob").signature, "Zm9vYg==");
    assert_eq!(sign(&[0xfb, 0xff, 0xfe]).signature, "+//+");
    let headers = sign(b"");
    assert_eq!((headers.api_key.as_str(), headers.timestamp.as_str(), headers.signature.as_str()), ("k", "-12", ""));
    match headers_from("k", 1, None) {
        Err(KalshiError::SigningError(m)) => assert_eq!(m, "signature operation failed"),
        _ => panic!("there is no signature"),
    }
}

#[test]
fn a_key_that_is_too_short_signs_nothing() {
    let key = RsaPrivateKey::new(&mut rsa::rand_core::OsRng, 512).expect("keygen failed");
    let pem = key.to_pkcs8_pem(LineEnding::LF).expect("pem encode failed").to_string();
    let auth = KalshiAuth::new("k".into(), "key.pem", Ok(pem)).ok().unwrap();
    match auth.sign_request("GET", "/x", MOMENT) {
        Err(KalshiError::SigningError(m)) => assert_eq!(m, "signature operation failed"),
        _ => panic!("the key signed"),
    }
}
