//! The digest handshake that gates every inbound request: a fresh nonce is
//! sent to the caller, who must return the hex spelling of SHA-1 over
//! `secret ++ ":" ++ nonce`; the verdict over the caller's response is
//! specified exactly.

use vstd::prelude::*;
use vstd::string::StrSliceExecFns;
use vstd::string::StringExecFns;
use vstd::string::StringSliceAdditionalSpecFns;
use vstd::utf8::encode_utf8;

use sha1::Digest;

use crate::hexcode::hex_bytes_of;
use crate::hexcode::hex_chars_of;
use crate::hexcode::hex_decode;
use crate::hexcode::hex_decode_bytes;
use crate::hexcode::hex_encode;
use crate::hexcode::is_lower_hex_byte;
use crate::hexcode::lemma_hex_encode_of_decode;
use crate::hexcode::lemma_hex_round_trip;
use crate::hexcode::valid_hex_bytes;

verus! {

/// What SHA-1 returns for a byte string. The digest depends on the input
/// alone; its value is not modelled here.
pub uninterp spec fn sha1_of(data: Seq<u8>) -> Seq<u8>;

/// Relies on sha1::Sha1 (via the Digest trait): the result is the 20-byte
/// SHA-1 digest of the input, a function of the input bytes alone.
#[verifier::external_body]
fn sha1_digest(data: &[u8]) -> (r: Vec<u8>)
    ensures
        r@ == sha1_of(data@),
        r@.len() == 20,
{
    sha1::Sha1::digest(data).to_vec()
}

/// The byte string whose SHA-1 digest the caller must return:
/// `secret ++ ":" ++ nonce`.
pub open spec fn digest_message(secret: Seq<u8>, nonce_hex: Seq<u8>) -> Seq<u8> {
    secret + seq![58u8] + nonce_hex
}

/// Build the digest message for a secret and a nonce.
fn digest_message_bytes(secret: &str, nonce_hex: &str) -> (r: Vec<u8>)
    ensures
        r@ == digest_message(secret.spec_bytes(), nonce_hex.spec_bytes()),
{
    let mut msg: Vec<u8> = secret.as_bytes_vec();
    msg.push(58);
    let mut tail: Vec<u8> = nonce_hex.as_bytes_vec();
    msg.append(&mut tail);
    proof {
        assert(msg@ =~= digest_message(secret.spec_bytes(), nonce_hex.spec_bytes()));
    }
    msg
}

/// The digest the caller is expected to return, as raw bytes.
pub fn expected_digest(secret: &str, nonce_hex: &str) -> (r: Vec<u8>)
    ensures
        r@ == sha1_of(digest_message(secret.spec_bytes(), nonce_hex.spec_bytes())),
        r@.len() == 20,
{
    let msg = digest_message_bytes(secret, nonce_hex);
    sha1_digest(msg.as_slice())
}

/// Why an authentication attempt was rejected.
#[derive(PartialEq, Eq, Structural, Clone, Copy, Debug)]
pub enum AuthError {
    /// The returned digest could not be decoded as hex bytes.
    DigestDecode,
    /// The returned digest decodes, but is not the expected one.
    WrongDigest,
    /// The caller returned no value: its secret variable was never set.
    MissingSecret,
}

/// The diagnostic for a rejected authentication attempt.
pub open spec fn auth_error_chars(e: AuthError) -> Seq<char> {
    match e {
        AuthError::DigestDecode => "The returned digest was not decodable as u8"@,
        AuthError::WrongDigest => "The returned digest is false"@,
        AuthError::MissingSecret => "Expected BLAZING_AGI_DIGEST_SECRET to be set, but it is not"@,
    }
}

impl AuthError {
    /// The diagnostic reported for this rejection.
    pub fn message(&self) -> (r: String)
        ensures
            r@ == auth_error_chars(*self),
    {
        match self {
            AuthError::DigestDecode => String::from_str(
                "The returned digest was not decodable as u8",
            ),
            AuthError::WrongDigest => String::from_str("The returned digest is false"),
            AuthError::MissingSecret => String::from_str(
                "Expected BLAZING_AGI_DIGEST_SECRET to be set, but it is not",
            ),
        }
    }
}

/// The verdict over a caller's response (its UTF-8 bytes, or `None` where the
/// caller returned nothing) to the challenge built from `secret` and
/// `nonce_hex`.
pub open spec fn auth_verdict(
    secret: Seq<u8>,
    nonce_hex: Seq<u8>,
    response: Option<Seq<u8>>,
) -> Result<(), AuthError> {
    match response {
        None => Err(AuthError::MissingSecret),
        Some(s) => if !valid_hex_bytes(s) {
            Err(AuthError::DigestDecode)
        } else if hex_decode_bytes(s) == sha1_of(digest_message(secret, nonce_hex)) {
            Ok(())
        } else {
            Err(AuthError::WrongDigest)
        },
    }
}

/// The spelling of the challenge expression the caller must evaluate: its
/// protocol-side SHA-1 call over the caller's own copy of the secret and the
/// nonce.
pub open spec fn challenge_chars(nonce_hex: Seq<char>) -> Seq<char> {
    "${SHA1(${BLAZING_AGI_DIGEST_SECRET}:"@ + nonce_hex + ")}"@
}

/// Build the challenge expression around a nonce.
pub fn challenge_expression(nonce_hex: &str) -> (r: String)
    ensures
        r@ == challenge_chars(nonce_hex@),
{
    let mut s = String::from_str("${SHA1(${BLAZING_AGI_DIGEST_SECRET}:");
    s.append(nonce_hex);
    s.append(")}");
    proof {
        assert(s@ =~= challenge_chars(nonce_hex@));
    }
    s
}

/// The digest authenticator: holds the shared secret and judges the caller's
/// response to one challenge. It runs before any actuation logic.
#[derive(Clone, Debug)]
pub struct SHA1DigestOverAGI {
    pub secret: String,
}

impl SHA1DigestOverAGI {
    /// An authenticator for the given shared secret.
    pub fn new(secret: &str) -> (r: Self)
        ensures
            r.secret@ == secret@,
    {
        SHA1DigestOverAGI { secret: secret.to_owned() }
    }

    /// Judge the caller's response to the challenge carrying `nonce_hex`:
    /// accept exactly a hex spelling of SHA-1 over `secret ++ ":" ++ nonce`;
    /// reject undecodable strings, wrong digests, and an absent response,
    /// each with its own error.
    pub fn verify_response(&self, nonce_hex: &str, response: Option<&String>) -> (r: Result<
        (),
        AuthError,
    >)
        ensures
            r == auth_verdict(
                encode_utf8(self.secret@),
                nonce_hex.spec_bytes(),
                match response {
                    Some(s) => Some(encode_utf8(s@)),
                    None => None,
                },
            ),
    {
        match response {
            None => Err(AuthError::MissingSecret),
            Some(s) => {
                let expected = expected_digest(self.secret.as_str(), nonce_hex);
                match hex_decode(s.as_str()) {
                    Err(_) => Err(AuthError::DigestDecode),
                    Ok(d) => {
                        if d == expected {
                            proof {
                                assert(d@ =~= expected@);
                            }
                            Ok(())
                        } else {
                            proof {
                                if d@ == expected@ {
                                    assert(forall|i: int|
                                        0 <= i < d@.len() ==> d@[i] == expected@[i]);
                                    assert(false);
                                }
                            }
                            Err(AuthError::WrongDigest)
                        }
                    },
                }
            },
        }
    }
}

/// The authenticator accepts exactly the hex spellings of the expected
/// digest: the canonical lowercase spelling is accepted; any other
/// lowercase-hex string is a wrong digest; a string that does not spell hex
/// bytes cannot be decoded; an absent response is a missing secret.
pub proof fn lemma_auth_verdict(secret: Seq<u8>, nonce_hex: Seq<u8>, response: Option<Seq<u8>>)
    ensures
        auth_verdict(secret, nonce_hex, None) == Err::<(), AuthError>(AuthError::MissingSecret),
        auth_verdict(
            secret,
            nonce_hex,
            Some(hex_bytes_of(sha1_of(digest_message(secret, nonce_hex)))),
        ) == Ok::<(), AuthError>(()),
        response is Some && !valid_hex_bytes(response->Some_0) ==> auth_verdict(
            secret,
            nonce_hex,
            response,
        ) == Err::<(), AuthError>(AuthError::DigestDecode),
        response is Some && valid_hex_bytes(response->Some_0) && (forall|i: int|
            0 <= i < response->Some_0.len() ==> is_lower_hex_byte(#[trigger] response->Some_0[i]))
            && response->Some_0 != hex_bytes_of(sha1_of(digest_message(secret, nonce_hex)))
            ==> auth_verdict(secret, nonce_hex, response) == Err::<(), AuthError>(
            AuthError::WrongDigest,
        ),
{
    let expected = sha1_of(digest_message(secret, nonce_hex));
    lemma_hex_round_trip(expected);
    if response is Some {
        let s = response->Some_0;
        if valid_hex_bytes(s) && (forall|i: int|
            0 <= i < s.len() ==> is_lower_hex_byte(#[trigger] s[i])) && s != hex_bytes_of(
            expected,
        ) {
            if hex_decode_bytes(s) == expected {
                lemma_hex_encode_of_decode(s);
                assert(s =~= hex_bytes_of(expected));
                assert(false);
            }
        }
    }
}

/// A caller that returns exactly the lowercase hex spelling of the expected
/// digest, as a string of characters, is accepted.
pub proof fn lemma_canonical_response_accepted(
    secret: Seq<u8>,
    nonce_hex: Seq<u8>,
    response: Seq<char>,
)
    requires
        response == hex_chars_of(sha1_of(digest_message(secret, nonce_hex))),
    ensures
        auth_verdict(secret, nonce_hex, Some(encode_utf8(response))) == Ok::<(), AuthError>(()),
{
    crate::hexcode::lemma_hex_utf8(sha1_of(digest_message(secret, nonce_hex)));
    lemma_auth_verdict(secret, nonce_hex, Some(encode_utf8(response)));
}

/// Byte `i` of the little-endian spelling of a 64-bit value.
pub open spec fn u64_le_byte(x: u64, i: int) -> u8
    recommends
        0 <= i < 8,
{
    ((x >> ((8 * i) as u64)) & 0xff) as u8
}

/// Byte `i` of the little-endian spelling of a 32-bit value.
pub open spec fn u32_le_byte(x: u32, i: int) -> u8
    recommends
        0 <= i < 4,
{
    ((x >> ((8 * i) as u32)) & 0xff) as u8
}

/// The 20-byte nonce layout: eight little-endian bytes of the epoch seconds,
/// four little-endian bytes of the sub-second milliseconds, eight bytes of
/// random fill.
pub open spec fn nonce_layout(secs: u64, millis: u32, rnd: Seq<u8>) -> Seq<u8>
    recommends
        rnd.len() == 8,
{
    Seq::new(
        20,
        |i: int|
            if i < 8 {
                u64_le_byte(secs, i)
            } else if i < 12 {
                u32_le_byte(millis, i - 8)
            } else {
                rnd[i - 12]
            },
    )
}

/// Lay a nonce's 20 bytes out from the time parts and the random fill.
pub fn nonce_bytes(secs: u64, millis: u32, rnd: &[u8]) -> (r: Vec<u8>)
    requires
        rnd@.len() == 8,
    ensures
        r@ == nonce_layout(secs, millis, rnd@),
{
    let mut v: Vec<u8> = Vec::new();
    v.push(#[verifier::truncate] (secs as u8));
    v.push(#[verifier::truncate] ((secs >> 8u64) as u8));
    v.push(#[verifier::truncate] ((secs >> 16u64) as u8));
    v.push(#[verifier::truncate] ((secs >> 24u64) as u8));
    v.push(#[verifier::truncate] ((secs >> 32u64) as u8));
    v.push(#[verifier::truncate] ((secs >> 40u64) as u8));
    v.push(#[verifier::truncate] ((secs >> 48u64) as u8));
    v.push(#[verifier::truncate] ((secs >> 56u64) as u8));
    v.push(#[verifier::truncate] (millis as u8));
    v.push(#[verifier::truncate] ((millis >> 8u32) as u8));
    v.push(#[verifier::truncate] ((millis >> 16u32) as u8));
    v.push(#[verifier::truncate] ((millis >> 24u32) as u8));
    proof {
        assert(secs as u8 == ((secs >> 0u64) & 0xff) as u8) by (bit_vector);
        assert((secs >> 8u64) as u8 == ((secs >> 8u64) & 0xff) as u8) by (bit_vector);
        assert((secs >> 16u64) as u8 == ((secs >> 16u64) & 0xff) as u8) by (bit_vector);
        assert((secs >> 24u64) as u8 == ((secs >> 24u64) & 0xff) as u8) by (bit_vector);
        assert((secs >> 32u64) as u8 == ((secs >> 32u64) & 0xff) as u8) by (bit_vector);
        assert((secs >> 40u64) as u8 == ((secs >> 40u64) & 0xff) as u8) by (bit_vector);
        assert((secs >> 48u64) as u8 == ((secs >> 48u64) & 0xff) as u8) by (bit_vector);
        assert((secs >> 56u64) as u8 == ((secs >> 56u64) & 0xff) as u8) by (bit_vector);
        assert(millis as u8 == ((millis >> 0u32) & 0xff) as u8) by (bit_vector);
        assert((millis >> 8u32) as u8 == ((millis >> 8u32) & 0xff) as u8) by (bit_vector);
        assert((millis >> 16u32) as u8 == ((millis >> 16u32) & 0xff) as u8) by (bit_vector);
        assert((millis >> 24u32) as u8 == ((millis >> 24u32) & 0xff) as u8) by (bit_vector);
        let n = nonce_layout(secs, millis, rnd@);
        assert(v@[0] == n[0] && v@[1] == n[1] && v@[2] == n[2] && v@[3] == n[3]);
        assert(v@[4] == n[4] && v@[5] == n[5] && v@[6] == n[6] && v@[7] == n[7]);
        assert(v@[8] == n[8] && v@[9] == n[9] && v@[10] == n[10] && v@[11] == n[11]);
    }
    let mut j: usize = 0;
    while j < 8
        invariant
            j <= 8,
            rnd@.len() == 8,
            v@.len() == 12 + j as int,
            forall|k: int| 0 <= k < 12 + j ==> v@[k] == nonce_layout(secs, millis, rnd@)[k],
        decreases 8 - j,
    {
        v.push(rnd[j]);
        j = j + 1;
    }
    proof {
        assert(v@ =~= nonce_layout(secs, millis, rnd@));
    }
    v
}

/// Relies on std::time::SystemTime::now and its duration_since(UNIX_EPOCH):
/// the whole seconds and the sub-second milliseconds since the epoch (zero
/// for a clock before the epoch); subsec_millis is documented below 1000.
#[verifier::external_body]
fn current_time_parts() -> (r: (u64, u32))
    ensures
        r.1 < 1000,
{
    let d = std::time::SystemTime::now().duration_since(std::time::UNIX_EPOCH).unwrap_or(
        std::time::Duration::ZERO,
    );
    (d.as_secs(), d.subsec_millis())
}

/// Relies on rand::fill over the thread RNG: the eight bytes are filled with
/// random data; nothing is promised of the values.
#[verifier::external_body]
fn random_bytes() -> (r: Vec<u8>)
    ensures
        r@.len() == 8,
{
    let mut buf = [0u8; 8];
    rand::fill(&mut buf[..]);
    buf.to_vec()
}

/// Create a fresh 20-byte nonce — epoch seconds and milliseconds against
/// reuse, eight random bytes against predictability — encoded as 40 lowercase
/// hex characters.
pub fn create_nonce() -> (r: String)
    ensures
        exists|secs: u64, millis: u32, rnd: Seq<u8>|
            millis < 1000 && rnd.len() == 8 && r@ == hex_chars_of(
                #[trigger] nonce_layout(secs, millis, rnd),
            ),
        r@.len() == 40,
{
    let (secs, millis) = current_time_parts();
    let rnd = random_bytes();
    let bytes = nonce_bytes(secs, millis, rnd.as_slice());
    let s = hex_encode(bytes.as_slice());
    proof {
        assert(millis < 1000 && rnd@.len() == 8 && s@ == hex_chars_of(
            nonce_layout(secs, millis, rnd@),
        ));
    }
    s
}

/// A 64-bit value is determined by its eight little-endian bytes.
proof fn lemma_u64_le_bytes_injective(x: u64, y: u64)
    requires
        forall|i: int| 0 <= i < 8 ==> u64_le_byte(x, i) == u64_le_byte(y, i),
    ensures
        x == y,
{
    assert(((x >> 0u64) & 0xff < 256) && ((x >> 8u64) & 0xff < 256) && ((x >> 16u64) & 0xff < 256)
        && ((x >> 24u64) & 0xff < 256) && ((x >> 32u64) & 0xff < 256) && ((x >> 40u64) & 0xff
        < 256) && ((x >> 48u64) & 0xff < 256) && ((x >> 56u64) & 0xff < 256)) by (bit_vector);
    assert(((y >> 0u64) & 0xff < 256) && ((y >> 8u64) & 0xff < 256) && ((y >> 16u64) & 0xff < 256)
        && ((y >> 24u64) & 0xff < 256) && ((y >> 32u64) & 0xff < 256) && ((y >> 40u64) & 0xff
        < 256) && ((y >> 48u64) & 0xff < 256) && ((y >> 56u64) & 0xff < 256)) by (bit_vector);
    assert(u64_le_byte(x, 0) == u64_le_byte(y, 0));
    assert(u64_le_byte(x, 1) == u64_le_byte(y, 1));
    assert(u64_le_byte(x, 2) == u64_le_byte(y, 2));
    assert(u64_le_byte(x, 3) == u64_le_byte(y, 3));
    assert(u64_le_byte(x, 4) == u64_le_byte(y, 4));
    assert(u64_le_byte(x, 5) == u64_le_byte(y, 5));
    assert(u64_le_byte(x, 6) == u64_le_byte(y, 6));
    assert(u64_le_byte(x, 7) == u64_le_byte(y, 7));
    assert(x == y) by (bit_vector)
        requires
            (x >> 0u64) & 0xff == (y >> 0u64) & 0xff,
            (x >> 8u64) & 0xff == (y >> 8u64) & 0xff,
            (x >> 16u64) & 0xff == (y >> 16u64) & 0xff,
            (x >> 24u64) & 0xff == (y >> 24u64) & 0xff,
            (x >> 32u64) & 0xff == (y >> 32u64) & 0xff,
            (x >> 40u64) & 0xff == (y >> 40u64) & 0xff,
            (x >> 48u64) & 0xff == (y >> 48u64) & 0xff,
            (x >> 56u64) & 0xff == (y >> 56u64) & 0xff,
    ;
}

/// A 32-bit value is determined by its four little-endian bytes.
proof fn lemma_u32_le_bytes_injective(x: u32, y: u32)
    requires
        forall|i: int| 0 <= i < 4 ==> u32_le_byte(x, i) == u32_le_byte(y, i),
    ensures
        x == y,
{
    assert(((x >> 0u32) & 0xff < 256) && ((x >> 8u32) & 0xff < 256) && ((x >> 16u32) & 0xff < 256)
        && ((x >> 24u32) & 0xff < 256)) by (bit_vector);
    assert(((y >> 0u32) & 0xff < 256) && ((y >> 8u32) & 0xff < 256) && ((y >> 16u32) & 0xff < 256)
        && ((y >> 24u32) & 0xff < 256)) by (bit_vector);
    assert(u32_le_byte(x, 0) == u32_le_byte(y, 0));
    assert(u32_le_byte(x, 1) == u32_le_byte(y, 1));
    assert(u32_le_byte(x, 2) == u32_le_byte(y, 2));
    assert(u32_le_byte(x, 3) == u32_le_byte(y, 3));
    assert(x == y) by (bit_vector)
        requires
            (x >> 0u32) & 0xff == (y >> 0u32) & 0xff,
            (x >> 8u32) & 0xff == (y >> 8u32) & 0xff,
            (x >> 16u32) & 0xff == (y >> 16u32) & 0xff,
            (x >> 24u32) & 0xff == (y >> 24u32) & 0xff,
    ;
}

/// Nonces built from different time parts or different random fills differ:
/// the layout loses nothing. A nonce is always exactly 20 bytes.
pub proof fn lemma_nonce_injective(
    s1: u64,
    m1: u32,
    r1: Seq<u8>,
    s2: u64,
    m2: u32,
    r2: Seq<u8>,
)
    requires
        r1.len() == 8,
        r2.len() == 8,
        s1 != s2 || m1 != m2 || r1 != r2,
    ensures
        nonce_layout(s1, m1, r1) != nonce_layout(s2, m2, r2),
        nonce_layout(s1, m1, r1).len() == 20,
{
    let n1 = nonce_layout(s1, m1, r1);
    let n2 = nonce_layout(s2, m2, r2);
    if n1 == n2 {
        assert(forall|i: int| 0 <= i < 20 ==> n1[i] == n2[i]);
        assert forall|i: int| 0 <= i < 8 implies u64_le_byte(s1, i) == u64_le_byte(s2, i) by {
            assert(n1[i] == n2[i]);
        }
        lemma_u64_le_bytes_injective(s1, s2);
        assert forall|i: int| 0 <= i < 4 implies u32_le_byte(m1, i) == u32_le_byte(m2, i) by {
            assert(n1[i + 8] == n2[i + 8]);
        }
        lemma_u32_le_bytes_injective(m1, m2);
        assert forall|i: int| 0 <= i < 8 implies r1[i] == r2[i] by {
            assert(n1[i + 12] == n2[i + 12]);
        }
        assert(r1 =~= r2);
        assert(false);
    }
}

} // verus!
