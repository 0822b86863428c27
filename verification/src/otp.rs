//! Time-based one-time codes: SHA-1, six digits, thirty-second steps.
//!
//! The secret is decoded and the code is computed by the `totp_rs` crate.
//! What this module proves rests on the contracts given here to those calls.
//! The text of an error is the one that the failing call gave.

use std::time::SystemTimeError;
use totp_rs::{Algorithm, Secret, SecretParseError, TotpUrlError, TOTP};
use vstd::prelude::*;

verus! {

/// Number of digits of a code.
pub const DIGITS: usize = 6;

/// Number of neighbouring steps that a verifier would tolerate. It has no
/// part in generating a code.
pub const SKEW: u8 = 1;

/// Length of a time step in seconds.
pub const STEP: u64 = 30;

/// Least number of bytes that a decoded secret must have.
pub const MIN_SECRET_BYTES: usize = 16;

/// The error of `totp_rs` for text that is not base32.
#[verifier::external_type_specification]
#[verifier::external_body]
pub struct ExSecretParseError(totp_rs::SecretParseError);

/// The error of `totp_rs` for parameters that it does not accept.
#[verifier::external_type_specification]
#[verifier::external_body]
pub struct ExTotpUrlError(totp_rs::TotpUrlError);

/// The error of std for a clock that stands before the Unix epoch.
#[verifier::external_type_specification]
#[verifier::external_body]
pub struct ExSystemTimeError(std::time::SystemTimeError);

/// The bytes that `totp_rs` decodes a base32 text to (RFC 4648 alphabet,
/// unpadded), or `None` where it rejects the text.
pub uninterp spec fn base32_decoded(encoded: Seq<char>) -> Option<Seq<u8>>;

/// The code that `totp_rs` computes with HMAC-SHA-1 from these parameters,
/// this secret and this Unix time.
pub uninterp spec fn totp_code(digits: usize, skew: u8, step: u64, secret: Seq<u8>, time: u64) -> Seq<char>;

/// A character of the base32 alphabet: an upper-case letter or a digit from
/// 2 to 7.
pub open spec fn is_base32_char(c: char) -> bool {
    ('A' <= c && c <= 'Z') || ('2' <= c && c <= '7')
}

/// Text made of base32 characters only.
pub open spec fn is_base32(text: Seq<char>) -> bool {
    forall|i: int| 0 <= i < text.len() ==> is_base32_char(#[trigger] text[i])
}

/// Text of exactly `digits` decimal digits.
pub open spec fn is_decimal(text: Seq<char>, digits: usize) -> bool {
    &&& text.len() == digits
    &&& forall|i: int| 0 <= i < text.len() ==> '0' <= #[trigger] text[i] && text[i] <= '9'
}

/// The parameters that `totp_rs` accepts: 6 to 8 digits and a secret of at
/// least 16 bytes.
pub open spec fn acceptable(digits: usize, secret: Seq<u8>) -> bool {
    6 <= digits && digits <= 8 && secret.len() >= 16
}

/// Number of bytes that a base32 text of `chars` characters decodes to.
pub open spec fn decoded_len(chars: nat) -> nat {
    chars * 5 / 8
}

/// Calls `Secret::Encoded(..).to_bytes()` of `totp_rs`, which decodes with
/// `base32::decode` and the unpadded RFC 4648 alphabet. Claimed of it: the
/// result is a function of the text; it succeeds exactly on text made of the
/// letters A to Z and the digits 2 to 7; and it yields five bytes for every
/// eight characters, rounded down.
#[verifier::external_body]
fn secret_to_bytes(encoded: &str) -> (r: Result<Vec<u8>, SecretParseError>)
    ensures
        r is Ok <==> is_base32(encoded@),
        match r {
            Ok(bytes) => base32_decoded(encoded@) == Some(bytes@),
            Err(_) => base32_decoded(encoded@) is None,
        },
        r matches Ok(bytes) ==> bytes@.len() == decoded_len(encoded@.len()),
{
    Secret::Encoded(encoded.to_string()).to_bytes()
}

/// Calls `TOTP::new` of `totp_rs` with SHA-1 and then `TOTP::generate`.
/// Claimed of them: `new` accepts exactly 6 to 8 digits with a secret of at
/// least 16 bytes; the code is a function of the arguments, has `digits`
/// decimal digits, and is the same for all times of one step.
#[verifier::external_body]
fn totp_generate(digits: usize, skew: u8, step: u64, secret: &Vec<u8>, time: u64) -> (r: Result<String, TotpUrlError>)
    requires
        step > 0,
    ensures
        r is Ok <==> acceptable(digits, secret@),
        r matches Ok(code) ==> code@ == totp_code(digits, skew, step, secret@, time),
        r matches Ok(code) ==> is_decimal(code@, digits),
        r matches Ok(code) ==> forall|t: u64|
            t / step == time / step ==> #[trigger] totp_code(digits, skew, step, secret@, t)
                == code@,
{
    TOTP::new(Algorithm::SHA1, digits, skew, step, secret.clone()).map(|totp| totp.generate(time))
}

/// Calls `TOTP::new` of `totp_rs` with SHA-1 and then
/// `TOTP::generate_current`, which reads the system clock. Claimed of them:
/// `new` accepts exactly 6 to 8 digits with a secret of at least 16 bytes;
/// a code that comes back is what `TOTP::generate` gives at some Unix time,
/// the one that the clock showed, and has `digits` decimal digits.
#[verifier::external_body]
fn totp_generate_current(digits: usize, skew: u8, step: u64, secret: &Vec<u8>) -> (r: Result<Result<String, SystemTimeError>, TotpUrlError>)
    requires
        step > 0,
    ensures
        r is Ok <==> acceptable(digits, secret@),
        r matches Ok(Ok(code)) ==> exists|t: u64|
            code@ == #[trigger] totp_code(digits, skew, step, secret@, t),
        r matches Ok(Ok(code)) ==> is_decimal(code@, digits),
{
    TOTP::new(Algorithm::SHA1, digits, skew, step, secret.clone()).map(
        |totp| totp.generate_current(),
    )
}

/// The ways in which no code comes about.
#[derive(Debug, Clone, Copy, PartialEq, Eq, Structural)]
pub enum CodeFault {
    /// The secret holds a character outside the base32 alphabet.
    MalformedSecret,
    /// The decoded secret has fewer than 128 bits.
    SecretTooShort,
    /// The system clock stands before the Unix epoch.
    Clock,
}

/// Why no code could be generated: the fault, and what the call that
/// failed said of it.
#[derive(Debug, PartialEq, Eq)]
pub struct CodeError {
    pub fault: CodeFault,
    pub cause: String,
}

impl CodeError {
    /// The text shown for this error: the cause as it was given.
    pub fn message(&self) -> (text: String)
        ensures
            text@ == self.cause@,
    {
        self.cause.clone()
    }
}

/// The code of a decoded secret at a Unix time.
pub open spec fn code_at(secret: Seq<u8>, time: u64) -> Seq<char> {
    totp_code(DIGITS, SKEW, STEP, secret, time)
}

/// The fault of an encoded secret, if it has one: a character outside the
/// alphabet comes before too short a length.
pub open spec fn secret_fault(encoded: Seq<char>) -> Option<CodeFault> {
    if !is_base32(encoded) {
        Some(CodeFault::MalformedSecret)
    } else if decoded_len(encoded.len()) < MIN_SECRET_BYTES {
        Some(CodeFault::SecretTooShort)
    } else {
        None
    }
}

/// The code of an encoded secret at a Unix time, or why there is none.
pub open spec fn expected_code(encoded: Seq<char>, time: u64) -> Result<Seq<char>, CodeFault> {
    match secret_fault(encoded) {
        Some(e) => Err(e),
        None => Ok(code_at(base32_decoded(encoded)->0, time)),
    }
}

/// Decodes a base32 secret. It succeeds exactly on text of the base32
/// alphabet.
pub fn decode_secret(encoded: &str) -> (r: Result<Vec<u8>, CodeError>)
    ensures
        r is Ok <==> is_base32(encoded@),
        match r {
            Ok(bytes) => base32_decoded(encoded@) == Some(bytes@) && bytes@.len() == decoded_len(
                encoded@.len(),
            ),
            Err(e) => e.fault == CodeFault::MalformedSecret,
        },
{
    match secret_to_bytes(encoded) {
        Ok(bytes) => Ok(bytes),
        Err(e) => Err(CodeError { fault: CodeFault::MalformedSecret, cause: e.to_string() }),
    }
}

/// The code of a decoded secret at a Unix time. It succeeds exactly on a
/// secret of at least 16 bytes. The code has six decimal digits and is the
/// same at every time of the same thirty-second step.
pub fn code_for(secret: &Vec<u8>, time: u64) -> (r: Result<String, CodeError>)
    ensures
        r is Ok <==> secret@.len() >= MIN_SECRET_BYTES,
        match r {
            Ok(code) => {
                &&& code@ == code_at(secret@, time)
                &&& is_decimal(code@, DIGITS)
                &&& forall|t: u64|
                    t / STEP == time / STEP ==> #[trigger] code_at(secret@, t) == code@
            },
            Err(e) => e.fault == CodeFault::SecretTooShort,
        },
{
    match totp_generate(DIGITS, SKEW, STEP, secret, time) {
        Ok(code) => Ok(code),
        Err(e) => Err(CodeError { fault: CodeFault::SecretTooShort, cause: e.to_string() }),
    }
}

/// The code of a base32 secret at a Unix time: the secret is decoded, then
/// the code is computed. The code has six decimal digits and is the same at
/// every time of the same thirty-second step.
pub fn generate_code(encoded: &str, time: u64) -> (r: Result<String, CodeError>)
    ensures
        match r {
            Ok(code) => {
                &&& expected_code(encoded@, time) == Ok::<Seq<char>, CodeFault>(code@)
                &&& is_decimal(code@, DIGITS)
                &&& forall|t: u64|
                    t / STEP == time / STEP ==> #[trigger] expected_code(encoded@, t) == Ok::<
                        Seq<char>,
                        CodeFault,
                    >(code@)
            },
            Err(e) => expected_code(encoded@, time) == Err::<Seq<char>, CodeFault>(e.fault),
        },
{
    let secret = decode_secret(encoded)?;
    code_for(&secret, time)
}

/// The code of a base32 secret at the time that the system clock shows. The
/// secret's faults are reported as by [`generate_code`]. With a sound secret
/// the outcome is the code of that secret at some Unix time, the one that
/// the clock showed, or `Clock`.
pub fn generate_current_code(encoded: &str) -> (r: Result<String, CodeError>)
    ensures
        match r {
            Ok(code) => {
                &&& secret_fault(encoded@) is None
                &&& is_decimal(code@, DIGITS)
                &&& exists|t: u64| #[trigger]
                    expected_code(encoded@, t) == Ok::<Seq<char>, CodeFault>(code@)
            },
            Err(e) => secret_fault(encoded@) == Some(e.fault) || (secret_fault(encoded@) is None
                && e.fault == CodeFault::Clock),
        },
{
    let secret = decode_secret(encoded)?;
    match totp_generate_current(DIGITS, SKEW, STEP, &secret) {
        Ok(Ok(code)) => {
            proof {
                let t = choose|t: u64|
                    code@ == #[trigger] totp_code(DIGITS, SKEW, STEP, secret@, t);
                assert(expected_code(encoded@, t) == Ok::<Seq<char>, CodeFault>(code@));
            }
            Ok(code)
        },
        Ok(Err(e)) => Err(CodeError { fault: CodeFault::Clock, cause: e.to_string() }),
        Err(e) => Err(CodeError { fault: CodeFault::SecretTooShort, cause: e.to_string() }),
    }
}

} // verus!
