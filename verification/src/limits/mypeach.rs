//! The HTTP interface of the `mypeach` limits provider.
//!
//! ```text
//! POST {base}/limits/v1/evaluate
//! POST {base}/limits/v1/settle
//! GET  {base}/limits/v1/has-limits?customer_ref=...
//! ```
//!
//! Every request is signed: the signature is the HMAC-SHA256 of
//! `body.timestamp.nonce`, in hexadecimal. It is carried in a header, as are the
//! timestamp and the nonce, so that the provider can authenticate the request
//! and reject a replay.

use vstd::prelude::*;
use vstd::string::*;
use vstd::utf8::*;

use crate::clock;
use crate::limits::types::LimitsProviderError;
use crate::secret::Secret;
use crate::text;

verus! {

/// The header with the signature.
pub const HEADER_SIGNATURE: &'static str = "X-Limits-Signature";

/// The header with the timestamp, in seconds of the Unix epoch.
pub const HEADER_TIMESTAMP: &'static str = "X-Limits-Timestamp";

/// The header with the nonce.
pub const HEADER_NONCE: &'static str = "X-Limits-Nonce";

/// The path that evaluates a charge.
pub const EVALUATE_PATH: &'static str = "/limits/v1/evaluate";

/// The path that settles a reservation.
pub const SETTLE_PATH: &'static str = "/limits/v1/settle";

/// The path that tells whether there are limits.
pub const HAS_LIMITS_PATH: &'static str = "/limits/v1/has-limits";

/// The longest secret, and the longest message, that can be signed, in bytes.
pub const MAX_SIGNED_BYTES: u64 = 0x0fff_ffff_ffff_ffff;

/// The HMAC-SHA256 of a message under a key, as `ring::hmac` computes it.
pub uninterp spec fn hmac_sha256(key: Seq<u8>, message: Seq<u8>) -> Seq<u8>;

/// The lower-case hexadecimal digit of a value below sixteen.
pub open spec fn hex_digit(d: int) -> char {
    if d < 10 {
        text::digit_char(d)
    } else if d == 10 {
        'a'
    } else if d == 11 {
        'b'
    } else if d == 12 {
        'c'
    } else if d == 13 {
        'd'
    } else if d == 14 {
        'e'
    } else {
        'f'
    }
}

/// The bytes in hexadecimal, two digits each, the higher one first.
pub open spec fn hex_text(bytes: Seq<u8>) -> Seq<char> {
    Seq::new(
        2 * bytes.len(),
        |i: int|
            hex_digit(
                if i % 2 == 0 {
                    bytes[i / 2] as int / 16
                } else {
                    bytes[i / 2] as int % 16
                },
            ),
    )
}

/// Whether `c` is a lower-case hexadecimal digit.
pub open spec fn is_hex_digit(c: char) -> bool {
    text::is_digit(c) || ('a' <= c && c <= 'f')
}

/// Whether `s` is a random UUID in its hyphenated, lower-case form.
pub open spec fn is_uuid_text(s: Seq<char>) -> bool {
    &&& s.len() == 36
    &&& s[8] == '-' && s[13] == '-' && s[18] == '-' && s[23] == '-'
    &&& s[14] == '4'
    &&& forall|i: int|
        0 <= i < 36 && i != 8 && i != 13 && i != 18 && i != 23 ==> is_hex_digit(#[trigger] s[i])
}

/// The message that is signed for a request.
pub open spec fn signing_text(body: Seq<char>, timestamp: int, nonce: Seq<char>) -> Seq<char> {
    body + "."@ + text::int_text(timestamp) + "."@ + nonce
}

/// The signature of a request.
pub open spec fn signature_text(
    secret: Seq<char>,
    body: Seq<char>,
    timestamp: int,
    nonce: Seq<char>,
) -> Seq<char> {
    hex_text(hmac_sha256(encode_utf8(secret), encode_utf8(signing_text(body, timestamp, nonce))))
}

/// `ring::hmac::sign` under an HMAC-SHA256 key: the code of the message, of 32
/// bytes. The lengths leave out inputs of more than 2^61 bytes, which `ring`
/// refuses.
#[verifier::external_body]
fn hmac_sign(key: &[u8], message: &[u8]) -> (r: Vec<u8>)
    requires
        key@.len() <= MAX_SIGNED_BYTES,
        message@.len() <= MAX_SIGNED_BYTES,
    ensures
        r@ == hmac_sha256(key@, message@),
        r@.len() == 32,
{
    let key = ring::hmac::Key::new(ring::hmac::HMAC_SHA256, key);
    ring::hmac::sign(&key, message).as_ref().to_vec()
}

/// `hex::encode`: the bytes in lower-case hexadecimal. Twice the length must be
/// one that a string can have.
#[verifier::external_body]
fn hex_encode(bytes: &Vec<u8>) -> (r: String)
    requires
        2 * bytes@.len() <= isize::MAX,
    ensures
        r@ == hex_text(bytes@),
{
    hex::encode(bytes)
}

/// `uuid::Uuid::new_v4` as text. Which UUID it is rests on chance; its form does
/// not.
#[verifier::external_body]
fn fresh_nonce() -> (r: String)
    ensures
        is_uuid_text(r@),
{
    uuid::Uuid::new_v4().to_string()
}

/// The message that is signed for a request: body, timestamp and nonce, with
/// dots between them.
pub fn signing_input(body: &str, timestamp: i64, nonce: &str) -> (r: String)
    ensures
        r@ == signing_text(body@, timestamp as int, nonce@),
{
    let mut input = body.to_owned();
    input.append(".");
    input.append(text::i64_text(timestamp).as_str());
    input.append(".");
    input.append(nonce);
    input
}

/// Whether a request under a secret can be signed: neither the secret nor the
/// message is too long.
pub open spec fn can_be_signed(
    secret: Seq<char>,
    body: Seq<char>,
    timestamp: int,
    nonce: Seq<char>,
) -> bool {
    &&& encode_utf8(secret).len() <= MAX_SIGNED_BYTES
    &&& encode_utf8(signing_text(body, timestamp, nonce)).len() <= MAX_SIGNED_BYTES
}

/// Whether `s` has the form of a signature: 64 hexadecimal digits.
pub open spec fn is_signature_text(s: Seq<char>) -> bool {
    &&& s.len() == 64
    &&& forall|i: int| 0 <= i < 64 ==> is_hex_digit(#[trigger] s[i])
}

/// Whether `r` is what signing a request gives: headers with the signature, the
/// timestamp and the nonce, if the request can be signed.
pub open spec fn signed(
    secret: Seq<char>,
    body: Seq<char>,
    timestamp: int,
    nonce: Seq<char>,
    r: Result<SignedHeaders, LimitsProviderError>,
) -> bool {
    match r {
        Ok(headers) => {
            &&& can_be_signed(secret, body, timestamp, nonce)
            &&& headers.signature@ == signature_text(secret, body, timestamp, nonce)
            &&& is_signature_text(headers.signature@)
            &&& headers.timestamp@ == text::int_text(timestamp)
            &&& headers.nonce@ == nonce
        },
        Err(error) => {
            &&& !can_be_signed(secret, body, timestamp, nonce)
            &&& error matches LimitsProviderError::Unavailable(detail) && detail@
                == "message too long to sign"@
        },
    }
}

/// The headers that authenticate a request.
#[derive(Debug)]
pub struct SignedHeaders {
    pub signature: String,
    pub timestamp: String,
    pub nonce: String,
}

impl SignedHeaders {
    /// The headers by name.
    pub fn into_pairs(self) -> (r: Vec<(&'static str, String)>)
        ensures
            r@.len() == 3,
            r@[0].0@ == HEADER_SIGNATURE@ && r@[0].1 == self.signature,
            r@[1].0@ == HEADER_TIMESTAMP@ && r@[1].1 == self.timestamp,
            r@[2].0@ == HEADER_NONCE@ && r@[2].1 == self.nonce,
    {
        let mut pairs: Vec<(&'static str, String)> = Vec::new();
        pairs.push((HEADER_SIGNATURE, self.signature));
        pairs.push((HEADER_TIMESTAMP, self.timestamp));
        pairs.push((HEADER_NONCE, self.nonce));
        pairs
    }
}

/// A request that is ready to be sent.
#[derive(Debug)]
pub struct SignedRequest {
    /// The address, without a query.
    pub url: String,
    pub headers: SignedHeaders,
    pub body: String,
}

/// Whether `r` is a request with `body` to a path, signed for exactly that body,
/// if it can be signed.
pub open spec fn request_signed(
    base: Seq<char>,
    secret: Seq<char>,
    path: Seq<char>,
    body: Seq<char>,
    timestamp: int,
    nonce: Seq<char>,
    r: Result<SignedRequest, LimitsProviderError>,
) -> bool {
    match r {
        Ok(request) => {
            &&& request.url@ == text::without_trailing_slashes(base) + path
            &&& request.body@ == body
            &&& signed(secret, body, timestamp, nonce, Ok(request.headers))
        },
        Err(error) => signed(secret, body, timestamp, nonce, Err(error)),
    }
}

/// The limits provider behind an HTTP client of type `C`.
pub struct MypeachLimitsProvider<C> {
    client: C,
    base_url: String,
    hmac_secret: Secret,
}

impl<C> MypeachLimitsProvider<C> {
    pub closed spec fn spec_client(self) -> C {
        self.client
    }

    pub closed spec fn base(self) -> Seq<char> {
        self.base_url@
    }

    pub closed spec fn secret(self) -> Seq<char> {
        self.hmac_secret@
    }

    /// The provider at `base_url`, whose requests are signed with
    /// `hmac_secret`. `client` is what building the HTTP client gave: the client,
    /// with its time limit, or why there is none.
    pub fn new(base_url: String, hmac_secret: Secret, client: Result<C, String>) -> (r: Result<
        MypeachLimitsProvider<C>,
        LimitsProviderError,
    >)
        ensures
            match client {
                Ok(client) => {
                    &&& r is Ok
                    &&& r->Ok_0.spec_client() == client
                    &&& r->Ok_0.base() == base_url@
                    &&& r->Ok_0.secret() == hmac_secret@
                },
                Err(detail) => r == Err::<MypeachLimitsProvider<C>, LimitsProviderError>(
                    LimitsProviderError::Unavailable(detail),
                ),
            },
    {
        match client {
            Ok(client) => Ok(MypeachLimitsProvider { client, base_url, hmac_secret }),
            Err(detail) => Err(LimitsProviderError::Unavailable(detail)),
        }
    }

    /// The HTTP client.
    pub fn client(&self) -> (r: &C)
        ensures
            *r == self.spec_client(),
    {
        &self.client
    }

    /// The address of `path`: the base address without the slashes it ends in,
    /// and the path.
    pub fn url(&self, path: &str) -> (r: String)
        ensures
            r@ == text::without_trailing_slashes(self.base()) + path@,
    {
        let mut url = text::trim_end_slashes(self.base_url.as_str());
        url.append(path);
        url
    }

    /// The headers of a request with `body`, made now with a nonce of its own.
    pub fn sign(&self, body: &str) -> (r: Result<SignedHeaders, LimitsProviderError>)
        ensures
            exists|timestamp: i64, nonce: Seq<char>|
                is_uuid_text(nonce) && #[trigger] signed(
                    self.secret(),
                    body@,
                    timestamp as int,
                    nonce,
                    r,
                ),
    {
        let timestamp: i64 = clock::current_unix_seconds();
        let nonce = fresh_nonce();
        let ghost text = nonce@;
        let r = self.sign_with(body, timestamp, nonce);
        assert(signed(self.secret(), body@, timestamp as int, text, r));
        r
    }

    /// The headers of a request with `body`, for a given timestamp and nonce. A
    /// secret or a message that is too long cannot be signed.
    pub fn sign_with(&self, body: &str, timestamp: i64, nonce: String) -> (r: Result<
        SignedHeaders,
        LimitsProviderError,
    >)
        ensures
            signed(self.secret(), body@, timestamp as int, nonce@, r),
    {
        let input = signing_input(body, timestamp, nonce.as_str());
        let key = self.hmac_secret.peek().as_bytes();
        let message = input.as_str().as_bytes();
        if key.len() as u64 > MAX_SIGNED_BYTES || message.len() as u64 > MAX_SIGNED_BYTES {
            return Err(LimitsProviderError::Unavailable("message too long to sign".to_owned()));
        }
        let code = hmac_sign(key, message);
        proof {
            lemma_hex_text_is_hexadecimal(code@);
        }
        Ok(
            SignedHeaders {
                signature: hex_encode(&code),
                timestamp: text::i64_text(timestamp),
                nonce,
            },
        )
    }

    /// The request with `body` to `path`, signed now with a nonce of its own.
    pub fn signed_request(&self, path: &str, body: String) -> (r: Result<
        SignedRequest,
        LimitsProviderError,
    >)
        ensures
            exists|timestamp: i64, nonce: Seq<char>|
                is_uuid_text(nonce) && #[trigger] request_signed(
                    self.base(),
                    self.secret(),
                    path@,
                    body@,
                    timestamp as int,
                    nonce,
                    r,
                ),
    {
        let timestamp: i64 = clock::current_unix_seconds();
        let nonce = fresh_nonce();
        let ghost text = nonce@;
        let r = self.signed_request_with(path, body, timestamp, nonce);
        assert(request_signed(
            self.base(),
            self.secret(),
            path@,
            body@,
            timestamp as int,
            text,
            r,
        ));
        r
    }

    /// The request with `body` to `path`, for a given timestamp and nonce.
    pub fn signed_request_with(
        &self,
        path: &str,
        body: String,
        timestamp: i64,
        nonce: String,
    ) -> (r: Result<SignedRequest, LimitsProviderError>)
        ensures
            request_signed(
                self.base(),
                self.secret(),
                path@,
                body@,
                timestamp as int,
                nonce@,
                r,
            ),
    {
        match self.sign_with(body.as_str(), timestamp, nonce) {
            Ok(headers) => Ok(SignedRequest { url: self.url(path), headers, body }),
            Err(error) => Err(error),
        }
    }

    /// The request that asks whether there are limits. It has no body, and is
    /// signed all the same: the timestamp and the nonce keep it from being
    /// replayed.
    pub fn has_limits_request(&self) -> (r: Result<SignedRequest, LimitsProviderError>)
        ensures
            exists|timestamp: i64, nonce: Seq<char>|
                is_uuid_text(nonce) && #[trigger] request_signed(
                    self.base(),
                    self.secret(),
                    HAS_LIMITS_PATH@,
                    Seq::empty(),
                    timestamp as int,
                    nonce,
                    r,
                ),
    {
        self.signed_request(HAS_LIMITS_PATH, String::new())
    }
}

/// Why a request that got no answer failed: for taking too long, or because the
/// provider could not be reached.
pub fn map_reqwest_error(timed_out: bool, detail: String) -> (r: LimitsProviderError)
    ensures
        r == if timed_out {
            LimitsProviderError::Timeout
        } else {
            LimitsProviderError::Unavailable(detail)
        },
{
    if timed_out {
        LimitsProviderError::Timeout
    } else {
        LimitsProviderError::Unavailable(detail)
    }
}

/// Whether an answer has a status of success: one from 200 to 299.
pub fn check_status(status: u16) -> (r: Result<(), LimitsProviderError>)
    ensures
        r == if 200 <= status < 300 {
            Ok::<(), LimitsProviderError>(())
        } else {
            Err::<(), LimitsProviderError>(LimitsProviderError::Http { status })
        },
{
    if 200 <= status && status < 300 {
        Ok(())
    } else {
        Err(LimitsProviderError::Http { status })
    }
}

/// What an answer of success holds, or why it could not be read. `parsed` is
/// what reading and parsing the body gave.
pub fn parse_response<T>(status: u16, parsed: Result<T, String>) -> (r: Result<
    T,
    LimitsProviderError,
>)
    ensures
        !(200 <= status < 300) ==> r == Err::<T, LimitsProviderError>(
            LimitsProviderError::Http { status },
        ),
        200 <= status < 300 ==> r == match parsed {
            Ok(value) => Ok::<T, LimitsProviderError>(value),
            Err(detail) => Err::<T, LimitsProviderError>(LimitsProviderError::Decode(detail)),
        },
{
    match check_status(status) {
        Ok(()) => match parsed {
            Ok(value) => Ok(value),
            Err(detail) => Err(LimitsProviderError::Decode(detail)),
        },
        Err(error) => Err(error),
    }
}

proof fn lemma_hex_text_is_hexadecimal(bytes: Seq<u8>)
    ensures
        hex_text(bytes).len() == 2 * bytes.len(),
        forall|i: int| 0 <= i < hex_text(bytes).len() ==> is_hex_digit(#[trigger] hex_text(bytes)[i]),
{
    assert forall|i: int| 0 <= i < hex_text(bytes).len() implies is_hex_digit(
        #[trigger] hex_text(bytes)[i],
    ) by {
        let byte = bytes[i / 2];
        assert(0 <= byte as int / 16 < 16);
        assert(0 <= byte as int % 16 < 16);
    }
}

proof fn lemma_last_dot(p: Seq<char>, n: Seq<char>, q: Seq<char>, m: Seq<char>)
    requires
        p + "."@ + n == q + "."@ + m,
        forall|i: int| 0 <= i < n.len() ==> n[i] != '.',
        forall|i: int| 0 <= i < m.len() ==> m[i] != '.',
    ensures
        p == q,
        n == m,
{
    reveal_strlit(".");
    let s = p + "."@ + n;
    let t = q + "."@ + m;
    assert("."@.len() == 1);
    assert(s.len() == p.len() + 1 + n.len());
    assert(t.len() == q.len() + 1 + m.len());
    assert(s == t);
    assert(s[p.len() as int] == '.');
    assert(t[q.len() as int] == '.');
    if p.len() < q.len() {
        assert(s[q.len() as int] == n[q.len() - p.len() - 1]);
    }
    if q.len() < p.len() {
        assert(t[p.len() as int] == m[p.len() - q.len() - 1]);
    }
    assert(p =~= s.take(p.len() as int));
    assert(q =~= s.take(q.len() as int));
    assert(n =~= s.skip(p.len() as int + 1));
    assert(m =~= s.skip(q.len() as int + 1));
}

/// No two requests have the same signed message: where the nonces have no dots,
/// as those of [`MypeachLimitsProvider::sign`], the message determines the body,
/// the timestamp and the nonce.
pub proof fn law_signed_message_is_unambiguous(
    body1: Seq<char>,
    timestamp1: int,
    nonce1: Seq<char>,
    body2: Seq<char>,
    timestamp2: int,
    nonce2: Seq<char>,
)
    requires
        signing_text(body1, timestamp1, nonce1) == signing_text(body2, timestamp2, nonce2),
        forall|i: int| 0 <= i < nonce1.len() ==> nonce1[i] != '.',
        forall|i: int| 0 <= i < nonce2.len() ==> nonce2[i] != '.',
    ensures
        body1 == body2,
        timestamp1 == timestamp2,
        nonce1 == nonce2,
{
    let t1 = text::int_text(timestamp1);
    let t2 = text::int_text(timestamp2);
    lemma_last_dot(body1 + "."@ + t1, nonce1, body2 + "."@ + t2, nonce2);
    text::lemma_int_text_chars(timestamp1);
    text::lemma_int_text_chars(timestamp2);
    lemma_last_dot(body1, t1, body2, t2);
    text::lemma_int_text_injective(timestamp1, timestamp2);
}

/// A UUID has no dots.
pub proof fn law_uuid_has_no_dots(nonce: Seq<char>)
    requires
        is_uuid_text(nonce),
    ensures
        forall|i: int| 0 <= i < nonce.len() ==> nonce[i] != '.',
{
    assert forall|i: int| 0 <= i < nonce.len() implies nonce[i] != '.' by {
        if i != 8 && i != 13 && i != 18 && i != 23 {
            assert(is_hex_digit(nonce[i]));
        }
    }
}

/// The headers of a signed request agree with what was signed: the signature is that
/// of exactly this body, this timestamp and this nonce under the secret, and the
/// other headers say which these are. Any request is signed unless its secret or its
/// message is too long.
pub proof fn law_headers_agree_with_what_was_signed(
    secret: Seq<char>,
    body: Seq<char>,
    timestamp: int,
    nonce: Seq<char>,
    r: Result<SignedHeaders, LimitsProviderError>,
)
    requires
        signed(secret, body, timestamp, nonce, r),
    ensures
        ({
            let message = body + "."@ + text::int_text(timestamp) + "."@ + nonce;
            &&& r is Ok <==> encode_utf8(secret).len() <= 0x0fff_ffff_ffff_ffff && encode_utf8(
                message,
            ).len() <= 0x0fff_ffff_ffff_ffff
            &&& r matches Ok(headers) ==> {
                &&& headers.signature@ == hex_text(
                    hmac_sha256(encode_utf8(secret), encode_utf8(message)),
                )
                &&& headers.signature@.len() == 64
                &&& headers.timestamp@ == text::int_text(timestamp)
                &&& headers.nonce@ == nonce
            }
            &&& r matches Err(error) ==> {
                &&& error is Unavailable
                &&& error->Unavailable_0@ == "message too long to sign"@
            }
        }),
{
}

/// A signed request goes to its path below the base address, carries its body
/// unchanged, and its headers are those of exactly that body.
pub proof fn law_request_carries_what_was_signed(
    base: Seq<char>,
    secret: Seq<char>,
    path: Seq<char>,
    body: Seq<char>,
    timestamp: int,
    nonce: Seq<char>,
    r: Result<SignedRequest, LimitsProviderError>,
)
    requires
        request_signed(base, secret, path, body, timestamp, nonce, r),
    ensures
        r matches Ok(request) ==> {
            &&& request.body@ == body
            &&& request.url@ == text::without_trailing_slashes(base) + path
            &&& request.headers.timestamp@ == text::int_text(timestamp)
            &&& request.headers.nonce@ == nonce
            &&& request.headers.signature@ == hex_text(
                hmac_sha256(
                    encode_utf8(secret),
                    encode_utf8(
                        request.body@ + "."@ + request.headers.timestamp@ + "."@
                            + request.headers.nonce@,
                    ),
                ),
            )
        },
        r matches Err(error) ==> signed(secret, body, timestamp, nonce, Err(error)),
{
}

/// Hexadecimal text has two digits for each byte, the higher one first: from zero to
/// nine, and from `a` to `f`.
pub proof fn law_hexadecimal_stands_for_its_bytes(bytes: Seq<u8>, i: int)
    requires
        0 <= i < bytes.len(),
    ensures
        ({
            let (high, low) = (bytes[i] as int / 16, bytes[i] as int % 16);
            let t = hex_text(bytes);
            &&& t.len() == 2 * bytes.len()
            &&& high < 10 ==> t[2 * i] as int == '0' as int + high
            &&& high >= 10 ==> t[2 * i] as int == 'a' as int + high - 10
            &&& low < 10 ==> t[2 * i + 1] as int == '0' as int + low
            &&& low >= 10 ==> t[2 * i + 1] as int == 'a' as int + low - 10
        }),
{
    assert((2 * i) / 2 == i && (2 * i) % 2 == 0);
    assert((2 * i + 1) / 2 == i && (2 * i + 1) % 2 == 1);
}

} // verus!
