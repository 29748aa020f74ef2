//! Credential store: PIN validation, hashing and verification.
use sha2::{Digest, Sha256};
use vstd::prelude::*;
use vstd::utf8::{encode_utf8, is_ascii_chars};

verus! {

broadcast use vstd::string::group_string_axioms;

/// Fewest digits a PIN may have.
pub const PIN_MIN_LEN: usize = 4;

/// Most digits a PIN may have.
pub const PIN_MAX_LEN: usize = 8;

/// An ASCII decimal digit.
pub open spec fn is_pin_digit(c: char) -> bool {
    '0' <= c && c <= '9'
}

/// A PIN is four to eight ASCII decimal digits.
pub open spec fn is_valid_pin(s: Seq<char>) -> bool {
    &&& PIN_MIN_LEN <= s.len() <= PIN_MAX_LEN
    &&& forall|i: int| 0 <= i < s.len() ==> is_pin_digit(#[trigger] s[i])
}

/// The lowercase hexadecimal digit for a value below sixteen.
pub open spec fn hex_digit(n: int) -> char {
    seq!['0', '1', '2', '3', '4', '5', '6', '7', '8', '9', 'a', 'b', 'c', 'd', 'e', 'f'][n]
}

/// Lowercase hexadecimal text of a byte string: two digits per byte, high nibble first.
pub open spec fn hex_of(b: Seq<u8>) -> Seq<char>
    decreases b.len(),
{
    if b.len() == 0 {
        Seq::empty()
    } else {
        hex_of(b.drop_last()) + seq![hex_digit(b.last() as int / 16), hex_digit(b.last() as int % 16)]
    }
}

/// SHA-256 digest of a byte string.
pub uninterp spec fn sha256_of(data: Seq<u8>) -> Seq<u8>;

/// The stored form of a PIN: the hex text of the SHA-256 digest of its UTF-8 bytes.
pub open spec fn digest_text(pin: Seq<char>) -> Seq<char> {
    hex_of(sha256_of(encode_utf8(pin)))
}

/// Whether a stored digest text accepts `pin`.
pub open spec fn verifies(stored: Seq<char>, pin: Seq<char>) -> bool {
    stored == digest_text(pin)
}

/// What verification against a possibly missing or unreadable store gives.
pub open spec fn store_verifies(stored: Option<AuthConfig>, pin: Seq<char>) -> bool {
    match stored {
        Some(c) => verifies(c.pin_hash@, pin),
        None => false,
    }
}

/// Relies on sha2's `Sha256` (new, update, finalize): the digest of the
/// bytes fed in, 32 bytes long.
#[verifier::external_body]
fn sha256(data: &[u8]) -> (r: Vec<u8>)
    ensures
        r@ == sha256_of(data@),
        r@.len() == 32,
{
    let mut hasher = Sha256::new();
    hasher.update(data);
    hasher.finalize().to_vec()
}

/// Relies on `hex::encode`: each byte becomes two lowercase hex digits,
/// high nibble first, in order.
#[verifier::external_body]
fn hex_encode(data: &[u8]) -> (r: String)
    ensures
        r@ == hex_of(data@),
{
    hex::encode(data)
}

/// Hex text has two characters per byte.
pub proof fn lemma_hex_len(b: Seq<u8>)
    ensures
        hex_of(b).len() == 2 * b.len(),
    decreases b.len(),
{
    if b.len() > 0 {
        lemma_hex_len(b.drop_last());
    }
}

/// Different byte strings have different hex text.
pub proof fn lemma_hex_injective(a: Seq<u8>, b: Seq<u8>)
    requires
        hex_of(a) == hex_of(b),
    ensures
        a == b,
    decreases a.len(),
{
    lemma_hex_len(a);
    lemma_hex_len(b);
    if a.len() > 0 {
        let ha = hex_of(a.drop_last());
        let hb = hex_of(b.drop_last());
        lemma_hex_len(a.drop_last());
        lemma_hex_len(b.drop_last());
        let n = ha.len() as int;
        let x = a.last();
        let y = b.last();
        assert(hex_of(a)[n] == hex_digit(x as int / 16));
        assert(hex_of(b)[n] == hex_digit(y as int / 16));
        assert(hex_of(a)[n + 1] == hex_digit(x as int % 16));
        assert(hex_of(b)[n + 1] == hex_digit(y as int % 16));
        assert(ha =~= hex_of(a).subrange(0, n));
        assert(hb =~= hex_of(b).subrange(0, n));
        lemma_hex_injective(a.drop_last(), b.drop_last());
        lemma_hex_digit_injective(x as int / 16, y as int / 16);
        lemma_hex_digit_injective(x as int % 16, y as int % 16);
        assert(x == y);
        assert(a =~= a.drop_last().push(x));
        assert(b =~= b.drop_last().push(y));
    }
}

/// An ASCII character is a digit exactly when its byte lies in `b'0'..=b'9'`.
proof fn lemma_ascii_digit(c: char, b: u8)
    requires
        '\0' <= c <= '\u{7f}',
        c as u8 == b,
    ensures
        is_pin_digit(c) <==> 48 <= b <= 57,
{
}

/// Distinct values below sixteen have distinct hex digits.
proof fn lemma_hex_digit_injective(x: int, y: int)
    requires
        0 <= x < 16,
        0 <= y < 16,
        hex_digit(x) == hex_digit(y),
    ensures
        x == y,
{
    let t = seq!['0', '1', '2', '3', '4', '5', '6', '7', '8', '9', 'a', 'b', 'c', 'd', 'e', 'f'];
    assert(t[0] == '0' && t[1] == '1' && t[2] == '2' && t[3] == '3');
    assert(t[4] == '4' && t[5] == '5' && t[6] == '6' && t[7] == '7');
    assert(t[8] == '8' && t[9] == '9' && t[10] == 'a' && t[11] == 'b');
    assert(t[12] == 'c' && t[13] == 'd' && t[14] == 'e' && t[15] == 'f');
}

/// Why a PIN was refused.
#[derive(Debug, Clone, Copy, PartialEq, Eq, Structural)]
pub enum ValidationError {
    /// Not four to eight ASCII digits.
    BadFormat,
    /// The confirmation differs from the PIN.
    Mismatch,
}

/// The persisted credential: the digest of the PIN, never the PIN itself.
pub struct AuthConfig {
    pub pin_hash: String,
}

impl AuthConfig {
    /// The credential for `pin`.
    pub fn new(pin: &str) -> (r: Self)
        ensures
            r.pin_hash@ == digest_text(pin@),
    {
        AuthConfig { pin_hash: Self::hash_pin(pin) }
    }

    /// The stored form of `pin`.
    pub fn hash_pin(pin: &str) -> (r: String)
        ensures
            r@ == digest_text(pin@),
    {
        let digest = sha256(pin.as_bytes());
        hex_encode(digest.as_slice())
    }

    /// Whether `pin` hashes to the stored digest.
    pub fn verify(&self, pin: &str) -> (r: bool)
        ensures
            r == verifies(self.pin_hash@, pin@),
    {
        self.pin_hash == Self::hash_pin(pin)
    }
}

/// Checks that `pin` is four to eight ASCII digits.
pub fn validate_pin(pin: &str) -> (r: Result<(), ValidationError>)
    ensures
        r is Ok <==> is_valid_pin(pin@),
        r is Err ==> r == Err::<(), ValidationError>(ValidationError::BadFormat),
{
    if !pin.is_ascii() {
        proof {
            assert(exists|i: int| 0 <= i < pin@.len() && !('\0' <= #[trigger] pin@[i] <= '\u{7f}'));
        }
        return Err(ValidationError::BadFormat);
    }
    let bytes = pin.as_bytes();
    proof {
        vstd::utf8::is_ascii_chars_encode_utf8(pin@);
    }
    let n = bytes.len();
    if n < PIN_MIN_LEN || n > PIN_MAX_LEN {
        return Err(ValidationError::BadFormat);
    }
    let mut i: usize = 0;
    while i < n
        invariant
            n == bytes@.len(),
            n == pin@.len(),
            bytes@ == encode_utf8(pin@),
            is_ascii_chars(pin@),
            forall|k: int| 0 <= k < pin@.len() ==> (#[trigger] pin@[k]) as u8 == bytes@[k],
            i <= n,
            forall|k: int| 0 <= k < i ==> is_pin_digit(#[trigger] pin@[k]),
        decreases n - i,
    {
        let b = bytes[i];
        proof {
            lemma_ascii_digit(pin@[i as int], b);
        }
        if b < 48 || b > 57 {
            return Err(ValidationError::BadFormat);
        }
        i = i + 1;
    }
    Ok(())
}

/// Builds the credential for `pin` once it is well formed and confirmed.
pub fn set_credential(pin: &str, confirm: &str) -> (r: Result<AuthConfig, ValidationError>)
    ensures
        !is_valid_pin(pin@) ==> r matches Err(ValidationError::BadFormat),
        is_valid_pin(pin@) && pin@ != confirm@ ==> r matches Err(ValidationError::Mismatch),
        is_valid_pin(pin@) && pin@ == confirm@ ==> (r matches Ok(c) && c.pin_hash@ == digest_text(pin@)),
{
    match validate_pin(pin) {
        Err(e) => Err(e),
        Ok(()) => {
            let a = pin.to_owned();
            let b = confirm.to_owned();
            if a != b {
                Err(ValidationError::Mismatch)
            } else {
                Ok(AuthConfig::new(pin))
            }
        },
    }
}

/// Verifies `pin` against the credential that was loaded from the store;
/// `None` stands for a store that is missing, unreadable or corrupt, which
/// accepts no PIN.
pub fn verify_pin_internal(stored: &Option<AuthConfig>, pin: &str) -> (r: bool)
    ensures
        r == store_verifies(*stored, pin@),
{
    match stored {
        Some(config) => config.verify(pin),
        None => false,
    }
}

/// A credential made from a PIN accepts that PIN.
pub proof fn lemma_own_pin_verifies(pin: Seq<char>)
    requires
        is_valid_pin(pin),
    ensures
        verifies(digest_text(pin), pin),
{
}

/// A credential made from one PIN accepts another PIN only when the two
/// PINs' SHA-256 digests collide.
pub proof fn lemma_other_pin_needs_collision(p1: Seq<char>, p2: Seq<char>)
    requires
        is_valid_pin(p1),
        is_valid_pin(p2),
        p1 != p2,
    ensures
        verifies(digest_text(p1), p2) <==> sha256_of(encode_utf8(p1)) == sha256_of(encode_utf8(p2)),
{
    if verifies(digest_text(p1), p2) {
        lemma_hex_injective(sha256_of(encode_utf8(p1)), sha256_of(encode_utf8(p2)));
    }
}

} // verus!
