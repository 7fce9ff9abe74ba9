//! HMAC-SHA256 authentication of an inbound webhook request.
//!
//! A request is authentic when the signature that its headers carry is the
//! HMAC-SHA256 tag, under the shared secret, of the message id, the timestamp
//! and the raw body written one after the other.

use axum::http::{HeaderMap, HeaderValue};
use hmac::digest::MacError;
use hmac::{Hmac, Mac};
use sha2::Sha256;
use vstd::prelude::*;
use vstd::string::*;
use vstd::utf8::encode_utf8;

verus! {

/// `digest::MacError`, the value with which the MAC crate reports a
/// mismatch. It is carried through unread.
#[verifier::external_type_specification]
#[verifier::external_body]
pub struct ExMacError(MacError);

/// `http::HeaderValue`, the value of one header. Nothing is claimed of it.
#[verifier::external_type_specification]
#[verifier::external_body]
pub struct ExHeaderValue(HeaderValue);

/// `http::HeaderMap`, the headers of a request. What it holds is spoken of
/// through [`header_fields`] alone.
#[verifier::external_type_specification]
#[verifier::external_body]
#[verifier::reject_recursive_types(T)]
pub struct ExHeaderMap<T>(HeaderMap<T>);

/// The tag that HMAC-SHA256 gives to `message` under `key`.
pub uninterp spec fn hmac_sha256(key: Seq<u8>, message: Seq<u8>) -> Seq<u8>;

/// The headers of a request as a lookup table: each name under which
/// `HeaderMap::get` finds a value, mapped to the bytes of the first such
/// value. Names are matched without regard to letter case, so a header is
/// found under every spelling of its name.
pub uninterp spec fn header_fields(headers: HeaderMap) -> Map<Seq<char>, Seq<u8>>;

/// `HeaderMap::get` followed by `HeaderValue::as_bytes`: the bytes of the first
/// value held under `name`, or `None` where the map holds no such header.
#[verifier::external_body]
pub(crate) fn header_bytes(headers: &HeaderMap, name: &str) -> (value: Option<Vec<u8>>)
    ensures
        value matches Some(v) ==> header_fields(*headers).contains_key(name@) && v@
            == header_fields(*headers)[name@],
        value is None ==> !header_fields(*headers).contains_key(name@),
{
    headers.get(name).map(|v| v.as_bytes().to_vec())
}

/// `Hmac::<Sha256>::new_from_slice`, `update` and `verify_slice`: keys the MAC
/// with `secret`, feeds it `message` and compares the tag with `signature` in
/// constant time. The comparison succeeds exactly when `signature` is the
/// 32-byte tag of `message` under `secret`. A key of any length is accepted.
#[verifier::external_body]
pub(crate) fn hmac_sha256_verify(secret: &[u8], message: &[u8], signature: &[u8]) -> (outcome:
    Result<(), MacError>)
    ensures
        outcome is Ok <==> signature@ == hmac_sha256(secret@, message@),
        outcome is Ok ==> signature@.len() == 32,
{
    let mut mac = Hmac::<Sha256>::new_from_slice(secret).unwrap();
    mac.update(message);
    mac.verify_slice(signature)
}

/// `MacError`'s `Display`: the fixed text with which the MAC crate reports a
/// mismatch.
#[verifier::external_body]
pub(crate) fn mac_error_text(err: &MacError) -> (text: String)
    ensures
        text@ == "MAC tag mismatch"@,
{
    err.to_string()
}

/// The header that carries the message id.
pub const MESSAGE_ID: &'static str = "twitch-eventsub-message-id";

/// The header that carries the time at which the message was sent.
pub const MESSAGE_TIMESTAMP: &'static str = "twitch-eventsub-message-timestamp";

/// The header that carries the signature.
pub const MESSAGE_SIGNATURE: &'static str = "twitch-eventsub-message-signature";

/// The number of leading bytes of a signature header that name the algorithm
/// (`sha256=`); the hexadecimal digits follow them.
pub const SIGNATURE_PREFIX_LEN: usize = 7;

/// Why a request was not authenticated, over plain values.
pub enum VerificationFailure {
    /// The named header is absent.
    MissingHeader(Seq<char>),
    /// The signature is not the tag of the message.
    MacMismatch,
    /// The signature header is too short, of odd length or not hexadecimal.
    InvalidSignature,
}

/// Why a request was not authenticated.
#[derive(Debug)]
pub enum HmacVerificationError {
    MissingHeader(String),
    MacError(MacError),
    InvalidSignature,
}

impl View for HmacVerificationError {
    type V = VerificationFailure;

    open spec fn view(&self) -> VerificationFailure {
        match self {
            HmacVerificationError::MissingHeader(name) => VerificationFailure::MissingHeader(
                name@,
            ),
            HmacVerificationError::MacError(_) => VerificationFailure::MacMismatch,
            HmacVerificationError::InvalidSignature => VerificationFailure::InvalidSignature,
        }
    }
}

/// The text that describes a failure.
pub open spec fn failure_text(failure: VerificationFailure) -> Seq<char> {
    match failure {
        VerificationFailure::MissingHeader(name) => "header "@ + name + " missing"@,
        VerificationFailure::MacMismatch => "macerror: "@ + "MAC tag mismatch"@,
        VerificationFailure::InvalidSignature => "invalid signature in header"@,
    }
}

impl HmacVerificationError {
    /// Describes the failure in words.
    pub fn to_text(&self) -> (text: String)
        ensures
            text@ == failure_text(self@),
    {
        match self {
            HmacVerificationError::MissingHeader(name) => {
                let mut text = "header ".to_owned();
                text.append(name.as_str());
                text.append(" missing");
                text
            },
            HmacVerificationError::MacError(err) => {
                let mut text = "macerror: ".to_owned();
                let detail = mac_error_text(err);
                text.append(detail.as_str());
                text
            },
            HmacVerificationError::InvalidSignature => "invalid signature in header".to_owned(),
        }
    }
}

/// The value of a hexadecimal digit in either letter case; `None` for every
/// other byte.
pub open spec fn hex_value(digit: u8) -> Option<u8> {
    if 0x30 <= digit <= 0x39 {
        Some((digit - 0x30) as u8)
    } else if 0x61 <= digit <= 0x66 {
        Some((digit - 0x61 + 10) as u8)
    } else if 0x41 <= digit <= 0x46 {
        Some((digit - 0x41 + 10) as u8)
    } else {
        None
    }
}

/// A signature header is well formed when it holds the algorithm prefix and
/// after it an even number of hexadecimal digits.
pub open spec fn is_signature_header(value: Seq<u8>) -> bool {
    &&& value.len() >= SIGNATURE_PREFIX_LEN
    &&& (value.len() - SIGNATURE_PREFIX_LEN) % 2 == 0
    &&& forall|i: int| SIGNATURE_PREFIX_LEN <= i < value.len() ==> hex_value(value[i]) is Some
}

/// The byte that two hexadecimal digits spell, the high one first.
pub open spec fn hex_pair(high: u8, low: u8) -> u8 {
    (16 * hex_value(high).unwrap() + hex_value(low).unwrap()) as u8
}

/// The bytes that the digits of a well-formed signature header spell.
pub open spec fn signature_bytes(value: Seq<u8>) -> Seq<u8> {
    Seq::new(
        ((value.len() - SIGNATURE_PREFIX_LEN) / 2) as nat,
        |i: int|
            hex_pair(value[SIGNATURE_PREFIX_LEN + 2 * i], value[SIGNATURE_PREFIX_LEN + 2 * i + 1]),
    )
}

/// The value of one hexadecimal digit.
pub fn hex_digit(digit: u8) -> (value: Option<u8>)
    ensures
        value == hex_value(digit),
        value matches Some(v) ==> v < 16,
{
    if 0x30 <= digit && digit <= 0x39 {
        Some(digit - 0x30)
    } else if 0x61 <= digit && digit <= 0x66 {
        Some(digit - 0x61 + 10)
    } else if 0x41 <= digit && digit <= 0x46 {
        Some(digit - 0x41 + 10)
    } else {
        None
    }
}

/// Decodes a signature header into the bytes of the signature. The first
/// seven bytes, which name the algorithm, are skipped unread; what follows
/// must be an even number of hexadecimal digits. Nothing is decoded from a
/// header that breaks one of these rules.
pub fn signature_to_hex(signature: &[u8]) -> (decoded: Result<Vec<u8>, HmacVerificationError>)
    ensures
        match decoded {
            Ok(bytes) => is_signature_header(signature@) && bytes@ == signature_bytes(signature@),
            Err(err) => !is_signature_header(signature@) && err@
                == VerificationFailure::InvalidSignature,
        },
{
    if signature.len() < SIGNATURE_PREFIX_LEN {
        return Err(HmacVerificationError::InvalidSignature);
    }
    if (signature.len() - SIGNATURE_PREFIX_LEN) % 2 != 0 {
        return Err(HmacVerificationError::InvalidSignature);
    }
    let count: usize = (signature.len() - SIGNATURE_PREFIX_LEN) / 2;
    let mut bytes: Vec<u8> = Vec::new();
    let mut i: usize = 0;
    while i < count
        invariant
            i <= count,
            signature@.len() == SIGNATURE_PREFIX_LEN + 2 * count,
            signature@.len() <= usize::MAX,
            bytes@.len() == i,
            forall|k: int|
                SIGNATURE_PREFIX_LEN <= k < SIGNATURE_PREFIX_LEN + 2 * i ==> hex_value(
                    signature@[k],
                ) is Some,
            forall|k: int| 0 <= k < i ==> bytes@[k] == signature_bytes(signature@)[k],
        decreases count - i,
    {
        let high = hex_digit(signature[SIGNATURE_PREFIX_LEN + 2 * i]);
        let low = hex_digit(signature[SIGNATURE_PREFIX_LEN + 2 * i + 1]);
        match (high, low) {
            (Some(h), Some(l)) => {
                bytes.push(16 * h + l);
            },
            _ => {
                return Err(HmacVerificationError::InvalidSignature);
            },
        }
        i += 1;
    }
    assert(bytes@ =~= signature_bytes(signature@));
    Ok(bytes)
}

/// The bytes that the sender signed: the message id, the timestamp and the
/// raw body, in this order and with nothing between them.
pub open spec fn canonical_message(id: Seq<u8>, timestamp: Seq<u8>, body: Seq<u8>) -> Seq<u8> {
    id + timestamp + body
}

/// Builds the bytes that the sender signed.
pub fn build_message(id: &[u8], timestamp: &[u8], body: &[u8]) -> (message: Vec<u8>)
    ensures
        message@ == canonical_message(id@, timestamp@, body@),
{
    let mut message: Vec<u8> = Vec::new();
    message.extend_from_slice(id);
    message.extend_from_slice(timestamp);
    message.extend_from_slice(body);
    assert(message@ =~= id@ + timestamp@ + body@);
    message
}

/// The signed message of a request with the given headers and body, or the
/// first of the two headers that it lacks.
pub open spec fn hmac_message(fields: Map<Seq<char>, Seq<u8>>, body: Seq<u8>) -> Result<
    Seq<u8>,
    VerificationFailure,
> {
    if !fields.contains_key(MESSAGE_ID@) {
        Err(VerificationFailure::MissingHeader(MESSAGE_ID@))
    } else if !fields.contains_key(MESSAGE_TIMESTAMP@) {
        Err(VerificationFailure::MissingHeader(MESSAGE_TIMESTAMP@))
    } else {
        Ok(canonical_message(fields[MESSAGE_ID@], fields[MESSAGE_TIMESTAMP@], body))
    }
}

/// Reads the message id and the timestamp from the headers and builds the
/// signed message from them and the body.
pub fn get_hmac_message(headers: &HeaderMap, body: &String) -> (message: Result<
    Vec<u8>,
    HmacVerificationError,
>)
    ensures
        match message {
            Ok(bytes) => hmac_message(header_fields(*headers), encode_utf8(body@)) == Ok::<
                Seq<u8>,
                VerificationFailure,
            >(bytes@),
            Err(err) => hmac_message(header_fields(*headers), encode_utf8(body@)) == Err::<
                Seq<u8>,
                VerificationFailure,
            >(err@),
        },
{
    let id = match header_bytes(headers, MESSAGE_ID) {
        Some(id) => id,
        None => {
            return Err(HmacVerificationError::MissingHeader(MESSAGE_ID.to_owned()));
        },
    };
    let timestamp = match header_bytes(headers, MESSAGE_TIMESTAMP) {
        Some(timestamp) => timestamp,
        None => {
            return Err(HmacVerificationError::MissingHeader(MESSAGE_TIMESTAMP.to_owned()));
        },
    };
    Ok(build_message(id.as_slice(), timestamp.as_slice(), body.as_str().as_bytes()))
}

/// A signature is accepted for a message when it is the message's tag under
/// the secret.
pub open spec fn mac_accepts(message: Seq<u8>, signature: Seq<u8>, secret: Seq<u8>) -> bool {
    signature == hmac_sha256(secret, message)
}

/// Turns the answer of the MAC comparison into the library's own result.
pub fn mac_verdict(outcome: Result<(), MacError>) -> (verdict: Result<(), HmacVerificationError>)
    ensures
        verdict is Ok <==> outcome is Ok,
        verdict matches Err(err) ==> err@ == VerificationFailure::MacMismatch,
{
    match outcome {
        Ok(()) => Ok(()),
        Err(err) => Err(HmacVerificationError::MacError(err)),
    }
}

/// Checks a signature against the tag of `message` under `secret`. The
/// comparison takes the same time wherever the first difference lies. A
/// signature that is not 32 bytes long is a mismatch like any other.
pub fn verify_mac(message: &[u8], signature: &[u8], secret: &[u8]) -> (verdict: Result<
    (),
    HmacVerificationError,
>)
    ensures
        verdict is Ok <==> mac_accepts(message@, signature@, secret@),
        verdict matches Err(err) ==> err@ == VerificationFailure::MacMismatch,
        signature@.len() != 32 ==> verdict is Err,
{
    mac_verdict(hmac_sha256_verify(secret, message, signature))
}

/// What the authentication of a request with the given headers, body and
/// secret comes to. The checks run in a fixed order: the message id, the
/// timestamp and the signature must be present, the signature must be well
/// formed, and it must be the tag of the signed message.
pub open spec fn verification(fields: Map<Seq<char>, Seq<u8>>, body: Seq<u8>, secret: Seq<u8>)
    -> Result<(), VerificationFailure> {
    match hmac_message(fields, body) {
        Err(failure) => Err(failure),
        Ok(message) => if !fields.contains_key(MESSAGE_SIGNATURE@) {
            Err(VerificationFailure::MissingHeader(MESSAGE_SIGNATURE@))
        } else if !is_signature_header(fields[MESSAGE_SIGNATURE@]) {
            Err(VerificationFailure::InvalidSignature)
        } else if !mac_accepts(message, signature_bytes(fields[MESSAGE_SIGNATURE@]), secret) {
            Err(VerificationFailure::MacMismatch)
        } else {
            Ok(())
        },
    }
}

/// Authenticates a request: succeeds exactly when its signature header
/// spells the HMAC-SHA256 tag, under `secret`, of its message id, timestamp
/// and body.
pub fn verify_message(headers: &HeaderMap, body: &String, secret: &String) -> (verdict: Result<
    (),
    HmacVerificationError,
>)
    ensures
        match verdict {
            Ok(_) => verification(header_fields(*headers), encode_utf8(body@), encode_utf8(secret@))
                is Ok,
            Err(err) => verification(
                header_fields(*headers),
                encode_utf8(body@),
                encode_utf8(secret@),
            ) == Err::<(), VerificationFailure>(err@),
        },
{
    let message = match get_hmac_message(headers, body) {
        Ok(message) => message,
        Err(err) => {
            return Err(err);
        },
    };
    let header = match header_bytes(headers, MESSAGE_SIGNATURE) {
        Some(header) => header,
        None => {
            return Err(HmacVerificationError::MissingHeader(MESSAGE_SIGNATURE.to_owned()));
        },
    };
    let signature = match signature_to_hex(header.as_slice()) {
        Ok(signature) => signature,
        Err(err) => {
            return Err(err);
        },
    };
    verify_mac(message.as_slice(), signature.as_slice(), secret.as_str().as_bytes())
}

/// The algorithm prefix that the sender writes before the digits.
pub open spec fn signature_prefix() -> Seq<u8> {
    "sha256=".spec_bytes()
}

/// All bytes of `digits` are hexadecimal digits.
pub open spec fn is_hex(digits: Seq<u8>) -> bool {
    forall|i: int| 0 <= i < digits.len() ==> hex_value(#[trigger] digits[i]) is Some
}

/// The sender's prefix is as long as the prefix that decoding skips.
pub proof fn lemma_signature_prefix_len()
    ensures
        signature_prefix().len() == SIGNATURE_PREFIX_LEN,
{
    broadcast use is_ascii_spec_bytes;

    reveal_strlit("sha256=");
    assert(is_ascii("sha256="));
}

/// A prefix followed by digits is a well-formed signature header exactly
/// when the digits are hexadecimal and even in number; it then decodes to
/// half as many bytes, each spelled by its pair of digits. Digits of odd
/// number, or with one byte among them that is no hexadecimal digit, are
/// never well formed.
pub proof fn lemma_prefixed_hex_decodes(prefix: Seq<u8>, digits: Seq<u8>)
    requires
        prefix.len() == SIGNATURE_PREFIX_LEN,
    ensures
        is_signature_header(prefix + digits) <==> digits.len() % 2 == 0 && is_hex(digits),
        is_signature_header(prefix + digits) ==> signature_bytes(prefix + digits).len()
            == digits.len() / 2,
        is_signature_header(prefix + digits) ==> forall|i: int|
            0 <= i < digits.len() / 2 ==> #[trigger] signature_bytes(prefix + digits)[i]
                == hex_pair(digits[2 * i], digits[2 * i + 1]),
{
    let header = prefix + digits;
    assert(header.len() == SIGNATURE_PREFIX_LEN + digits.len());
    if is_signature_header(header) {
        assert forall|i: int| 0 <= i < digits.len() implies hex_value(
            #[trigger] digits[i],
        ) is Some by {
            assert(header[SIGNATURE_PREFIX_LEN + i] == digits[i]);
        }
        assert forall|i: int| 0 <= i < digits.len() / 2 implies #[trigger] signature_bytes(
            header,
        )[i] == hex_pair(digits[2 * i], digits[2 * i + 1]) by {
            assert(header[SIGNATURE_PREFIX_LEN + 2 * i] == digits[2 * i]);
            assert(header[SIGNATURE_PREFIX_LEN + 2 * i + 1] == digits[2 * i + 1]);
        }
    }
    if digits.len() % 2 == 0 && is_hex(digits) {
        assert forall|i: int| SIGNATURE_PREFIX_LEN <= i < header.len() implies hex_value(
            header[i],
        ) is Some by {
            assert(header[i] == digits[i - SIGNATURE_PREFIX_LEN]);
        }
    }
}

/// What the sender writes, `sha256=` and then the digits, is a well-formed
/// signature header exactly when the digits are hexadecimal and even in
/// number, and then decodes to half as many bytes.
pub proof fn lemma_sha256_hex_decodes(digits: Seq<u8>)
    ensures
        is_signature_header(signature_prefix() + digits) <==> digits.len() % 2 == 0 && is_hex(
            digits,
        ),
        is_signature_header(signature_prefix() + digits) ==> signature_bytes(
            signature_prefix() + digits,
        ).len() == digits.len() / 2,
{
    lemma_signature_prefix_len();
    lemma_prefixed_hex_decodes(signature_prefix(), digits);
}

/// The tag of a signed message is accepted as its signature: a correctly
/// computed signature always verifies.
pub proof fn lemma_correct_signature_verifies(
    id: Seq<u8>,
    timestamp: Seq<u8>,
    body: Seq<u8>,
    secret: Seq<u8>,
)
    ensures
        mac_accepts(
            canonical_message(id, timestamp, body),
            hmac_sha256(secret, canonical_message(id, timestamp, body)),
            secret,
        ),
{
}

/// A request that carries its id, its timestamp and a well-formed signature
/// header which spells the tag of the signed message is authenticated.
pub proof fn lemma_signed_request_verifies(
    fields: Map<Seq<char>, Seq<u8>>,
    body: Seq<u8>,
    secret: Seq<u8>,
)
    requires
        fields.contains_key(MESSAGE_ID@),
        fields.contains_key(MESSAGE_TIMESTAMP@),
        fields.contains_key(MESSAGE_SIGNATURE@),
        is_signature_header(fields[MESSAGE_SIGNATURE@]),
        signature_bytes(fields[MESSAGE_SIGNATURE@]) == hmac_sha256(
            secret,
            canonical_message(fields[MESSAGE_ID@], fields[MESSAGE_TIMESTAMP@], body),
        ),
    ensures
        verification(fields, body, secret) is Ok,
{
}

/// An accepted signature with any one byte changed is no longer accepted.
pub proof fn lemma_altered_signature_fails(
    message: Seq<u8>,
    signature: Seq<u8>,
    secret: Seq<u8>,
    at: int,
    byte: u8,
)
    requires
        mac_accepts(message, signature, secret),
        0 <= at < signature.len(),
        byte != signature[at],
    ensures
        !mac_accepts(message, signature.update(at, byte), secret),
{
    assert(signature.update(at, byte)[at] != signature[at]);
}

/// A signature of any length other than that of the tag is never accepted.
pub proof fn lemma_wrong_length_fails(message: Seq<u8>, signature: Seq<u8>, secret: Seq<u8>)
    requires
        signature.len() != hmac_sha256(secret, message).len(),
    ensures
        !mac_accepts(message, signature, secret),
{
}

} // verus!
