//! One-time passwords: the generator that each account keeps, and what the service asks of the
//! `totp-rs` crate about it.

use vstd::prelude::*;

verus! {

#[verifier::external_type_specification]
#[verifier::external_body]
pub struct ExTotpUrlError(totp_rs::TotpUrlError);

#[verifier::external_type_specification]
#[verifier::external_body]
pub struct ExSystemTimeError(std::time::SystemTimeError);

/// The hash functions that a one-time password can be built on.
#[derive(Clone, Copy, Debug, PartialEq, Eq, Structural)]
pub enum OtpAlgorithm {
    Sha1,
    Sha256,
    Sha512,
}

/// A generator as plain values.
pub struct OtpModel {
    pub algorithm: OtpAlgorithm,
    pub digits: usize,
    pub skew: u8,
    pub step: u64,
    pub secret: Seq<u8>,
    pub issuer: Option<Seq<char>>,
    pub account_name: Seq<char>,
}

/// A time-based one-time password generator: the hash, the number of digits of a code, how many
/// steps a code stays good before and after its own, the length of a step in seconds, the 160-bit
/// secret, and the issuer and account name that authenticator apps show.
#[derive(Debug)]
pub struct OtpGenerator {
    pub algorithm: OtpAlgorithm,
    pub digits: usize,
    pub skew: u8,
    pub step: u64,
    pub secret: [u8; 20],
    pub issuer: Option<String>,
    pub account_name: String,
}

/// The text of an optional string.
pub open spec fn optional_text(s: Option<String>) -> Option<Seq<char>> {
    match s {
        Some(t) => Some(t@),
        None => None,
    }
}

impl View for OtpGenerator {
    type V = OtpModel;

    open spec fn view(&self) -> OtpModel {
        OtpModel {
            algorithm: self.algorithm,
            digits: self.digits,
            skew: self.skew,
            step: self.step,
            secret: self.secret@,
            issuer: optional_text(self.issuer),
            account_name: self.account_name@,
        }
    }
}

impl Clone for OtpGenerator {
    fn clone(&self) -> (r: Self)
        ensures
            r == *self,
    {
        let issuer = match &self.issuer {
            Some(i) => Some(i.clone()),
            None => None,
        };
        OtpGenerator {
            algorithm: self.algorithm,
            digits: self.digits,
            skew: self.skew,
            step: self.step,
            secret: self.secret,
            issuer,
            account_name: self.account_name.clone(),
        }
    }
}

impl OtpModel {
    /// Checking a code against this generator cannot fail on its arithmetic: a step is not empty,
    /// a code has at most nine digits, and the window of accepted steps spans at most 10^9 seconds.
    pub open spec fn checkable(self) -> bool {
        &&& 0 < self.step
        &&& self.digits <= 9
        &&& self.skew * self.step <= 1_000_000_000
    }
}

/// Whether `totp-rs` accepts `token` at `time` (seconds since the Unix epoch) for a generator: it is
/// the code of the step of `time` or of one within the skew around it.
pub uninterp spec fn code_accepted(generator: OtpModel, token: Seq<char>, time: u64) -> bool;

/// The PNG image that `totp-rs` draws of the QR code of a generator's `otpauth://` URL, or the
/// message of its failure.
pub uninterp spec fn qr_png_of(generator: OtpModel) -> Result<Seq<u8>, Seq<char>>;

/// The outcome of drawing an image as plain values: its bytes, or the message of the failure.
pub open spec fn drawing(outcome: Result<Vec<u8>, String>) -> Result<Seq<u8>, Seq<char>> {
    match outcome {
        Ok(png) => Ok(png@),
        Err(message) => Err(message@),
    }
}

/// Calls `TOTP::new` and keeps the arguments as the generator. As its source shows, it succeeds
/// exactly when `digits` lies in 6..=8 and neither the issuer nor the account name contains `:`
/// (the secret always has 20 bytes, above the 16 that it asks for), and the generator it builds
/// holds the arguments unchanged.
#[verifier::external_body]
pub(crate) fn new_totp(
    algorithm: OtpAlgorithm,
    digits: usize,
    skew: u8,
    step: u64,
    secret: [u8; 20],
    issuer: Option<String>,
    account_name: String,
) -> (r: Result<OtpGenerator, totp_rs::TotpUrlError>)
    ensures
        r is Ok <==> {
            &&& 6 <= digits <= 8
            &&& (issuer matches Some(i) ==> !i@.contains(':'))
            &&& !account_name@.contains(':')
        },
        r matches Ok(g) ==> g == (OtpGenerator { algorithm, digits, skew, step, secret, issuer, account_name }),
{
    let hash = match algorithm {
        OtpAlgorithm::Sha1 => totp_rs::Algorithm::SHA1,
        OtpAlgorithm::Sha256 => totp_rs::Algorithm::SHA256,
        OtpAlgorithm::Sha512 => totp_rs::Algorithm::SHA512,
    };
    match totp_rs::TOTP::new(hash, digits, skew, step, secret.to_vec(), issuer.clone(), account_name.clone()) {
        Ok(_) => Ok(OtpGenerator { algorithm, digits, skew, step, secret, issuer, account_name }),
        Err(e) => Err(e),
    }
}

/// Calls `Secret::generate_secret` and takes its bytes (`to_bytes`). As the source shows, the
/// secret is 20 random bytes held raw, so taking them as an array of 20 does not fail. Which bytes
/// come is left open: they are random.
#[verifier::external_body]
pub(crate) fn random_secret() -> (r: [u8; 20]) {
    totp_rs::Secret::generate_secret().to_bytes().unwrap().try_into().unwrap()
}

/// Calls `TOTP::check_current` on a `TOTP` holding the generator's fields: it reads the clock and
/// tells whether `token` is accepted at that time, which `code_accepted` names. Which time is read
/// is left open. The `requires` keeps out the generators on which the check panics whatever the
/// time (an empty step, more than nine digits); the check also panics when the clock reads fewer
/// than `skew * step` seconds after the epoch, which no argument can rule out.
#[verifier::external_body]
pub(crate) fn check_current(g: &OtpGenerator, token: &str) -> (r: Result<bool, std::time::SystemTimeError>)
    requires
        g@.checkable(),
    ensures
        r matches Ok(b) ==> exists|time: u64| b == #[trigger] code_accepted(g@, token@, time),
{
    let hash = match g.algorithm {
        OtpAlgorithm::Sha1 => totp_rs::Algorithm::SHA1,
        OtpAlgorithm::Sha256 => totp_rs::Algorithm::SHA256,
        OtpAlgorithm::Sha512 => totp_rs::Algorithm::SHA512,
    };
    let issuer = g.issuer.clone();
    let totp = totp_rs::TOTP::new_unchecked(hash, g.digits, g.skew, g.step, g.secret.to_vec(), issuer, g.account_name.clone());
    totp.check_current(token)
}

/// Calls `TOTP::get_qr_png` on a `TOTP` holding the generator's fields: the outcome is
/// `qr_png_of` the generator, the image or the message of the failure. When it fails is left
/// unsaid: the source fails on a URL too long for a QR code and on an image that cannot be encoded.
#[verifier::external_body]
pub(crate) fn qr_png(g: &OtpGenerator) -> (r: Result<Vec<u8>, String>)
    ensures
        drawing(r) == qr_png_of(g@),
{
    let hash = match g.algorithm {
        OtpAlgorithm::Sha1 => totp_rs::Algorithm::SHA1,
        OtpAlgorithm::Sha256 => totp_rs::Algorithm::SHA256,
        OtpAlgorithm::Sha512 => totp_rs::Algorithm::SHA512,
    };
    let issuer = g.issuer.clone();
    let totp = totp_rs::TOTP::new_unchecked(hash, g.digits, g.skew, g.step, g.secret.to_vec(), issuer, g.account_name.clone());
    totp.get_qr_png()
}

} // verus!
