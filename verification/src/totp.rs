//! The code generator: from a shared secret and the wall-clock time to the
//! decimal code that is valid in the current time step.

use vstd::prelude::*;
use crate::views::bytes_view;

verus! {

/// Hash family of the keyed hash behind a code.
#[derive(Clone, Copy, Debug, PartialEq, Eq, Hash, Structural)]
pub enum Algorithm {
    SHA1,
    SHA256,
    SHA512,
}

/// Number of hash families.
pub const ALGORITHMS: usize = 3;

impl Algorithm {
    /// Position of the hash family in a list of all of them.
    pub open spec fn spec_index(self) -> usize {
        match self {
            Algorithm::SHA1 => 0,
            Algorithm::SHA256 => 1,
            Algorithm::SHA512 => 2,
        }
    }

    /// Position of the hash family in a list of all of them.
    pub fn index(self) -> (i: usize)
        ensures
            i == self.spec_index(),
            i < ALGORITHMS,
    {
        match self {
            Algorithm::SHA1 => 0,
            Algorithm::SHA256 => 1,
            Algorithm::SHA512 => 2,
        }
    }

    /// The hash family at a position of the list, if the list is that long.
    pub fn from_index(i: usize) -> (algorithm: Option<Algorithm>)
        ensures
            i < ALGORITHMS <==> algorithm is Some,
            algorithm matches Some(a) ==> a.spec_index() == i,
    {
        if i == 0 {
            Some(Algorithm::SHA1)
        } else if i == 1 {
            Some(Algorithm::SHA256)
        } else if i == 2 {
            Some(Algorithm::SHA512)
        } else {
            None
        }
    }
}

/// Why a secret typed by the user was not accepted.
#[derive(Clone, Copy, Debug, PartialEq, Eq, Structural)]
pub enum SecretDecodeError {
    /// The text is not base-32.
    Malformed,
    /// The text decodes to no bytes at all.
    Empty,
}

/// Largest digit count for which a code can be computed: the truncated hash
/// is reduced modulo `10^digits` in 32 bits.
pub const MAX_DIGITS: usize = 9;

/// Length of a decoded secret that is padded with zeros.
pub const SHORT_SECRET_LEN: usize = 10;

/// Length that a short secret is padded to.
pub const PADDED_SECRET_LEN: usize = 16;

/// The decimal code of the HMAC-based one-time-password algorithm for a
/// secret, a hash family, a digit count and a counter, as `totp_rs` computes
/// it. The library does not define this value; it only names it.
pub uninterp spec fn hotp_code(secret: Seq<u8>, algorithm: Algorithm, digits: nat, counter: nat) -> Seq<char>;

/// What `base32::decode` with the RFC 4648 alphabet without padding, reached
/// through `totp_rs::Secret::Encoded`, makes of a text: the decoded bytes, or
/// `None` where the text is not valid base-32.
pub uninterp spec fn base32_decoded(text: Seq<char>) -> Option<Seq<u8>>;

/// Number of the time step that `unix_time` falls into.
pub open spec fn counter(unix_time: u64, step: u64) -> nat
    recommends
        step > 0,
{
    (unix_time as nat) / (step as nat)
}

/// The code that is valid at `unix_time`.
pub open spec fn code_at(
    secret: Seq<u8>,
    algorithm: Algorithm,
    digits: usize,
    step: u64,
    unix_time: u64,
) -> Seq<char>
    recommends
        step > 0,
{
    hotp_code(secret, algorithm, digits as nat, counter(unix_time, step))
}

/// Number of characters of a code with `digits` digits. A code is never
/// empty: with zero digits it is the single character `0`.
pub open spec fn code_len(digits: usize) -> nat {
    if digits == 0 {
        1
    } else {
        digits as nat
    }
}

/// Whether a character is one of the ten decimal digits.
pub open spec fn is_decimal_digit(c: char) -> bool {
    '0' <= c <= '9'
}

/// Seconds until the code changes, counting the current second.
pub open spec fn spec_remaining_seconds(unix_time: u64, step: u64) -> int
    recommends
        step > 0,
{
    step - unix_time % step
}

/// A run of `n` zero bytes.
pub open spec fn zeros(n: nat) -> Seq<u8> {
    Seq::new(n, |i: int| 0u8)
}

/// A decoded secret as it is used for generation: one of exactly ten bytes
/// is extended with six zero bytes, any other is taken as it is.
pub open spec fn padded_secret(decoded: Seq<u8>) -> Seq<u8> {
    if decoded.len() == SHORT_SECRET_LEN {
        decoded + zeros((PADDED_SECRET_LEN - SHORT_SECRET_LEN) as nat)
    } else {
        decoded
    }
}

/// The secret that results from a decoding attempt.
pub open spec fn secret_of(decoded: Option<Seq<u8>>) -> Result<Seq<u8>, SecretDecodeError> {
    match decoded {
        None => Err(SecretDecodeError::Malformed),
        Some(bytes) => if bytes.len() == 0 {
            Err(SecretDecodeError::Empty)
        } else {
            Ok(padded_secret(bytes))
        },
    }
}

/// Mathematical value of the outcome of decoding a secret.
pub open spec fn secret_view(r: Result<Vec<u8>, SecretDecodeError>) -> Result<Seq<u8>, SecretDecodeError> {
    match r {
        Ok(b) => Ok(b@),
        Err(e) => Err(e),
    }
}

/// Calls `totp_rs::TOTP::generate` on a generator built by
/// `TOTP::new_unchecked`. The outside function hashes the big-endian counter
/// `time / step` under the secret, truncates dynamically and prints the
/// value modulo `10^digits`, zero-padded to `digits` characters. Trusted:
/// that the result is the named code of the counter, has `code_len(digits)`
/// characters and holds decimal digits only. The `requires` leaves out the
/// inputs on which the outside function divides by zero or overflows.
#[verifier::external_body]
fn totp_generate(secret: &[u8], algorithm: Algorithm, digits: usize, step: u64, time: u64) -> (code: String)
    requires
        step > 0,
        digits <= MAX_DIGITS,
    ensures
        code@ == hotp_code(secret@, algorithm, digits as nat, counter(time, step)),
        code@.len() == code_len(digits),
        forall|i: int| 0 <= i < code@.len() ==> is_decimal_digit(#[trigger] code@[i]),
{
    let algorithm = match algorithm {
        Algorithm::SHA1 => totp_rs::Algorithm::SHA1,
        Algorithm::SHA256 => totp_rs::Algorithm::SHA256,
        Algorithm::SHA512 => totp_rs::Algorithm::SHA512,
    };
    totp_rs::TOTP::new_unchecked(algorithm, digits, 0, step, secret.to_vec()).generate(time)
}

/// Calls `totp_rs::Secret::to_bytes` on `Secret::Encoded(text)`, which
/// decodes base-32. Trusted: that the result is the named decoding of the
/// text.
#[verifier::external_body]
fn base32_decode(text: &str) -> (decoded: Option<Vec<u8>>)
    ensures
        bytes_view(decoded) == base32_decoded(text@),
{
    totp_rs::Secret::Encoded(text.to_string()).to_bytes().ok()
}

/// The code for `secret` that is valid at `unix_time`, `digits` characters
/// long. The code depends on the time only through the number of the time
/// step, so equal arguments give equal codes.
pub fn generate(secret: &[u8], algorithm: Algorithm, digits: usize, step: u64, unix_time: u64) -> (code: String)
    requires
        secret@.len() > 0,
        step > 0,
        digits <= MAX_DIGITS,
    ensures
        code@ == code_at(secret@, algorithm, digits, step, unix_time),
        code@.len() == code_len(digits),
        forall|i: int| 0 <= i < code@.len() ==> is_decimal_digit(#[trigger] code@[i]),
{
    totp_generate(secret, algorithm, digits, step, unix_time)
}

/// Seconds for which the code of `unix_time` stays valid, the current second
/// included: `step` at a boundary, 1 in the last second of a step.
pub fn remaining_seconds(unix_time: u64, step: u64) -> (r: u64)
    requires
        step > 0,
    ensures
        r == spec_remaining_seconds(unix_time, step),
        1 <= r <= step,
        unix_time % step == 0 ==> r == step,
        (unix_time + r) % (step as int) == 0,
        counter(unix_time, step) == (unix_time + r) / (step as int) - 1,
{
    let r = step - unix_time % step;
    proof {
        lemma_next_boundary(unix_time as int, step as int);
    }
    r
}

/// The instant `t + (step - t mod step)` is the start of the next time step.
pub proof fn lemma_next_boundary(t: int, step: int)
    requires
        0 <= t,
        0 < step,
    ensures
        (t + (step - t % step)) % step == 0,
        (t + (step - t % step)) / step == t / step + 1,
{
    let q = t / step;
    let m = t % step;
    assert(t == step * q + m) by {
        vstd::arithmetic::div_mod::lemma_fundamental_div_mod(t, step);
    }
    assert(t + (step - m) == step * (q + 1)) by (nonlinear_arith)
        requires
            t == step * q + m,
    ;
    vstd::arithmetic::div_mod::lemma_fundamental_div_mod_converse(t + (step - m), step, q + 1, 0);
}

/// Two instants of one time step have the same code.
pub proof fn lemma_code_constant_within_step(
    secret: Seq<u8>,
    algorithm: Algorithm,
    digits: usize,
    step: u64,
    t1: u64,
    t2: u64,
)
    requires
        step > 0,
        counter(t1, step) == counter(t2, step),
    ensures
        code_at(secret, algorithm, digits, step, t1) == code_at(secret, algorithm, digits, step, t2),
{
}

/// Turns the outcome of a decoding attempt into a secret: a failed attempt
/// and an empty result are errors, a result of exactly ten bytes is padded
/// with zeros to sixteen, any other is returned unchanged.
pub fn normalize_secret(decoded: Option<Vec<u8>>) -> (r: Result<Vec<u8>, SecretDecodeError>)
    ensures
        secret_view(r) == secret_of(bytes_view(decoded)),
{
    match decoded {
        None => Err(SecretDecodeError::Malformed),
        Some(bytes) => {
            if bytes.len() == 0 {
                Err(SecretDecodeError::Empty)
            } else if bytes.len() == SHORT_SECRET_LEN {
                let ghost before = bytes@;
                let mut padded = bytes;
                let mut n: usize = SHORT_SECRET_LEN;
                while n < PADDED_SECRET_LEN
                    invariant
                        SHORT_SECRET_LEN <= n <= PADDED_SECRET_LEN,
                        padded@ == before + zeros((n - SHORT_SECRET_LEN) as nat),
                    decreases PADDED_SECRET_LEN - n,
                {
                    padded.push(0u8);
                    n = n + 1;
                }
                Ok(padded)
            } else {
                Ok(bytes)
            }
        },
    }
}

/// Decodes the base-32 text of a secret as the user typed it.
pub fn decode_secret(text: &str) -> (r: Result<Vec<u8>, SecretDecodeError>)
    ensures
        secret_view(r) == secret_of(base32_decoded(text@)),
{
    normalize_secret(base32_decode(text))
}

impl SecretDecodeError {
    /// The text shown to the user for this error.
    pub fn message(&self) -> (text: String)
        ensures
            text@ == self.spec_message(),
    {
        match self {
            SecretDecodeError::Malformed => String::from_str("Invalid secret: Could not decode base32 secret."),
            SecretDecodeError::Empty => String::from_str("Invalid secret: The secret is empty."),
        }
    }

    pub open spec fn spec_message(&self) -> Seq<char> {
        match self {
            SecretDecodeError::Malformed => "Invalid secret: Could not decode base32 secret."@,
            SecretDecodeError::Empty => "Invalid secret: The secret is empty."@,
        }
    }
}

} // verus!
