//! Signing of requests.
use base64::Engine;
use rsa::pkcs1::DecodeRsaPrivateKey;
use rsa::pkcs8::DecodePrivateKey;
use rsa::signature::{RandomizedSigner, SignatureEncoding};
use vstd::prelude::*;
use vstd::string::*;
use vstd::utf8::encode_utf8;

use crate::kalshi::error::KalshiError;
use crate::text::{decimal, i64_text, joined};

verus! {

/// Why a text is no private key in the PKCS#8 format; `None` where it is one.
pub uninterp spec fn pkcs8_refusal(pem: Seq<char>) -> Option<Seq<char>>;

/// Why a text is no private key in the PKCS#1 format; `None` where it is one.
pub uninterp spec fn pkcs1_refusal(pem: Seq<char>) -> Option<Seq<char>>;

/// Whether a signature of a message is accepted under the public half of a private key, which is
/// given by its text: what `rsa::pss::VerifyingKey::<Sha256>::verify` says.
pub uninterp spec fn pss_accepts(pem: Seq<char>, message: Seq<u8>, signature: Seq<u8>) -> bool;

/// Whether the private key that a text holds signs every message, whatever the random numbers:
/// what `BlindedSigningKey::<Sha256>::try_sign_with_rng` of the `rsa` crate never refuses. A key
/// that is too short for the hash is none of them.
pub uninterp spec fn signable(pem: Seq<char>) -> bool;

/// The digit of a number below 64 in the standard base64 alphabet.
pub open spec fn base64_digit(d: int) -> char {
    if d < 26 {
        (0x41 + d) as char
    } else if d < 52 {
        (0x61 + d - 26) as char
    } else if d < 62 {
        (0x30 + d - 52) as char
    } else if d == 62 {
        '+'
    } else {
        '/'
    }
}

/// Bytes in the standard base64 alphabet, with padding: four digits for every three bytes, the
/// most significant first.
pub open spec fn base64_text(bytes: Seq<u8>) -> Seq<char>
    decreases bytes.len(),
{
    if bytes.len() == 0 {
        Seq::empty()
    } else if bytes.len() == 1 {
        let n = bytes[0] * 16;
        seq![base64_digit(n / 64), base64_digit(n % 64), '=', '=']
    } else if bytes.len() == 2 {
        let n = (bytes[0] * 256 + bytes[1]) * 4;
        seq![base64_digit(n / 4096), base64_digit(n / 64 % 64), base64_digit(n % 64), '=']
    } else {
        let n = bytes[0] * 65536 + bytes[1] * 256 + bytes[2];
        seq![
            base64_digit(n / 262144),
            base64_digit(n / 4096 % 64),
            base64_digit(n / 64 % 64),
            base64_digit(n % 64),
        ] + base64_text(bytes.skip(3))
    }
}

/// `DecodePrivateKey::from_pkcs8_pem` of `rsa::RsaPrivateKey`: whether the text is read, and
/// the message of the error if it is not, are functions of the text.
#[verifier::external_body]
fn pkcs8_error(pem: &str) -> (r: Option<String>)
    ensures
        match r {
            Some(e) => pkcs8_refusal(pem@) == Some(e@),
            None => pkcs8_refusal(pem@) is None,
        },
{
    rsa::RsaPrivateKey::from_pkcs8_pem(pem).err().map(|e| e.to_string())
}

/// `DecodeRsaPrivateKey::from_pkcs1_pem` of `rsa::RsaPrivateKey`: whether the text is read, and
/// the message of the error if it is not, are functions of the text.
#[verifier::external_body]
fn pkcs1_error(pem: &str) -> (r: Option<String>)
    ensures
        match r {
            Some(e) => pkcs1_refusal(pem@) == Some(e@),
            None => pkcs1_refusal(pem@) is None,
        },
{
    rsa::RsaPrivateKey::from_pkcs1_pem(pem).err().map(|e| e.to_string())
}

/// `BlindedSigningKey::<Sha256>::try_sign_with_rng` of the `rsa` crate, with the random numbers
/// of the system, on a key in the PKCS#8 format: a signature of the message that is accepted
/// under the key, and one for certain where the key signs every message. Signatures of one
/// message differ. Want of random numbers ends the program.
#[verifier::external_body]
fn sign_pkcs8(pem: &str, message: &[u8]) -> (r: Option<Vec<u8>>)
    requires
        pkcs8_refusal(pem@) is None,
    ensures
        r matches Some(s) ==> pss_accepts(pem@, message@, s@),
        signable(pem@) ==> r is Some,
{
    let key = rsa::RsaPrivateKey::from_pkcs8_pem(pem).ok()?;
    let signing_key = rsa::pss::BlindedSigningKey::<sha2::Sha256>::new(key);
    let signature = signing_key.try_sign_with_rng(&mut rsa::rand_core::OsRng, message).ok()?;
    Some(signature.to_vec())
}

/// The same on a key in the PKCS#1 format.
#[verifier::external_body]
fn sign_pkcs1(pem: &str, message: &[u8]) -> (r: Option<Vec<u8>>)
    requires
        pkcs1_refusal(pem@) is None,
    ensures
        r matches Some(s) ==> pss_accepts(pem@, message@, s@),
        signable(pem@) ==> r is Some,
{
    let key = rsa::RsaPrivateKey::from_pkcs1_pem(pem).ok()?;
    let signing_key = rsa::pss::BlindedSigningKey::<sha2::Sha256>::new(key);
    let signature = signing_key.try_sign_with_rng(&mut rsa::rand_core::OsRng, message).ok()?;
    Some(signature.to_vec())
}

/// `Engine::encode` of base64's `STANDARD`: the bytes in that alphabet, with padding.
#[verifier::external_body]
fn encode_base64(bytes: &Vec<u8>) -> (r: String)
    ensures
        r@ == base64_text(bytes@),
{
    base64::engine::general_purpose::STANDARD.encode(bytes)
}

/// The three headers of a signed request.
pub struct AuthHeaders {
    pub api_key: String,
    pub signature: String,
    pub timestamp: String,
}

/// The API key and the text of a private key that can be read, with its format.
pub struct KalshiAuth {
    api_key: String,
    private_key: String,
    is_pkcs8: bool,
}

/// Why a private key is not accepted: what was said when it was read as PKCS#1, after it could
/// not be read as PKCS#8; `None` where one of the two succeeds.
pub open spec fn key_refusal(pem: Seq<char>) -> Option<Seq<char>> {
    if pkcs8_refusal(pem) is None { None } else { pkcs1_refusal(pem) }
}

/// What is signed: moment, method and path.
pub open spec fn signed_message(timestamp_ms: i64, method: Seq<char>, path: Seq<char>) -> Seq<char> {
    decimal(timestamp_ms as int) + method + path
}

/// What is signed: moment, method and path.
pub fn signing_message(timestamp_ms: i64, method: &str, path: &str) -> (r: String)
    ensures
        r@ == signed_message(timestamp_ms, method@, path@),
{
    let mut out: String = i64_text(timestamp_ms);
    out.append(method);
    out.append(path);
    out
}

/// The headers of a request of this moment, given its signature or that there is none.
pub fn headers_from(api_key: &str, timestamp_ms: i64, signature: Option<Vec<u8>>) -> (r: Result<AuthHeaders, KalshiError>)
    ensures
        match signature {
            Some(s) => r matches Ok(h) && h.api_key@ == api_key@ && h.timestamp@ == decimal(timestamp_ms as int)
                && h.signature@ == base64_text(s@),
            None => r matches Err(KalshiError::SigningError(m)) && m@ == "signature operation failed"@,
        },
{
    match signature {
        Some(s) => Ok(
            AuthHeaders {
                api_key: api_key.to_owned(),
                signature: encode_base64(&s),
                timestamp: i64_text(timestamp_ms),
            },
        ),
        None => Err(KalshiError::SigningError("signature operation failed".to_owned())),
    }
}

impl KalshiAuth {
    /// The key can be read in the format that it is said to have.
    #[verifier::type_invariant]
    spec fn readable(self) -> bool {
        if self.is_pkcs8 { pkcs8_refusal(self.private_key@) is None } else { pkcs1_refusal(self.private_key@) is None }
    }

    pub closed spec fn key(&self) -> Seq<char> {
        self.api_key@
    }

    pub closed spec fn pem(&self) -> Seq<char> {
        self.private_key@
    }

    /// Credentials from an API key and from what reading the file at `private_key_path` gave:
    /// its text, or the message of the error.
    pub fn new(api_key: String, private_key_path: &str, read: Result<String, String>) -> (r: Result<Self, KalshiError>)
        ensures
            match read {
                Err(e) => r matches Err(KalshiError::SigningError(m)) && m@ == "failed to read private key at "@
                    + private_key_path@ + ": "@ + e@,
                Ok(pem) => match key_refusal(pem@) {
                    Some(e) => r matches Err(KalshiError::SigningError(m)) && m@
                        == "failed to parse PEM private key: "@ + e,
                    None => r matches Ok(auth) && auth.key() == api_key@ && auth.pem() == pem@,
                },
            },
    {
        let pem: String = match read {
            Ok(p) => p,
            Err(e) => {
                let mut m: String = joined("failed to read private key at ", private_key_path);
                m.append(": ");
                m.append(e.as_str());
                return Err(KalshiError::SigningError(m));
            },
        };
        let is_pkcs8: bool = pkcs8_error(pem.as_str()).is_none();
        if !is_pkcs8 {
            if let Some(e) = pkcs1_error(pem.as_str()) {
                return Err(KalshiError::SigningError(joined("failed to parse PEM private key: ", e.as_str())));
            }
        }
        Ok(KalshiAuth { api_key, private_key: pem, is_pkcs8 })
    }

    /// The API key.
    pub fn api_key(&self) -> (r: &str)
        ensures
            r@ == self.key(),
    {
        self.api_key.as_str()
    }

    /// The headers of a request with this method and path, signed at this moment. A key that
    /// signs every message never fails.
    pub fn sign_request(&self, method: &str, path: &str, timestamp_ms: i64) -> (r: Result<AuthHeaders, KalshiError>)
        ensures
            signable(self.pem()) ==> r is Ok,
            match r {
                Ok(h) => {
                    &&& h.api_key@ == self.key()
                    &&& h.timestamp@ == decimal(timestamp_ms as int)
                    &&& exists|s: Seq<u8>| #[trigger] pss_accepts(
                        self.pem(),
                        encode_utf8(signed_message(timestamp_ms, method@, path@)),
                        s,
                    ) && h.signature@ == base64_text(s)
                },
                Err(e) => e matches KalshiError::SigningError(m) && m@ == "signature operation failed"@,
            },
    {
        proof {
            use_type_invariant(self);
        }
        let message: String = signing_message(timestamp_ms, method, path);
        let bytes: &[u8] = message.as_str().as_bytes();
        assert(bytes@ == encode_utf8(signed_message(timestamp_ms, method@, path@)));
        let signature: Option<Vec<u8>> = if self.is_pkcs8 {
            sign_pkcs8(self.private_key.as_str(), bytes)
        } else {
            sign_pkcs1(self.private_key.as_str(), bytes)
        };
        proof {
            assert(signature is Some ==> pss_accepts(self.pem(), bytes@, signature->0@));
        }
        headers_from(self.api_key.as_str(), timestamp_ms, signature)
    }

    /// The credentials for debugging output, without anything secret.
    pub fn debug_text(&self) -> (r: &'static str)
        ensures
            r@ == "KalshiAuth { api_key: \"[redacted]\" }"@,
    {
        "KalshiAuth { api_key: \"[redacted]\" }"
    }
}

/// A key is refused exactly if it can be read in neither format, and then for what was said of the
/// second.
pub proof fn keys_are_read_in_either_format(pem: Seq<char>)
    ensures
        key_refusal(pem) is None <==> pkcs8_refusal(pem) is None || pkcs1_refusal(pem) is None,
        key_refusal(pem) is Some ==> key_refusal(pem) == pkcs1_refusal(pem),
{
}

/// What is signed is the moment, the method and the path in this order, with nothing between them.
pub proof fn signed_messages_hold_moment_method_and_path(timestamp_ms: i64, method: Seq<char>, path: Seq<char>)
    ensures
        ({
            let m = signed_message(timestamp_ms, method, path);
            let t = decimal(timestamp_ms as int);
            &&& m.len() == t.len() + method.len() + path.len()
            &&& m.take(t.len() as int) == t
            &&& m.skip(t.len() as int).take(method.len() as int) == method
            &&& m.skip((t.len() + method.len()) as int) == path
        }),
{
    let m = signed_message(timestamp_ms, method, path);
    let t = decimal(timestamp_ms as int);
    assert(m.take(t.len() as int) =~= t);
    assert(m.skip(t.len() as int).take(method.len() as int) =~= method);
    assert(m.skip((t.len() + method.len()) as int) =~= path);
}

} // verus!
