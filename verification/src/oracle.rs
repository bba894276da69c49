//! The two external collaborators, behind trusted declarations: the hashing
//! oracle (bcrypt) and the entropy estimator (zxcvbn). Everything the rest of
//! the library knows about them is stated here; nothing else is assumed.

use vstd::prelude::*;

use crate::errors::PasswordError;
use crate::pattern::is_hash_text;

verus! {

/// The error type of the hashing oracle; it is carried through opaquely.
#[verifier::external_type_specification]
#[verifier::external_body]
pub struct ExBcryptError(bcrypt::BcryptError);

/// The outcome of the hashing oracle's verification of a candidate against
/// hash text. It is a function of the two texts alone: the salt and the cost
/// are read back out of the hash text. `None` stands for the error outcome,
/// which the oracle reserves for hash text it cannot parse.
pub uninterp spec fn bcrypt_verify_outcome(candidate: Seq<char>, hash_text: Seq<char>) -> Option<
    bool,
>;

/// Hash text that the hashing oracle produced for the given raw password:
/// it has the hash-text shape, and verifying the pair must succeed with an
/// accepting outcome.
pub open spec fn encrypted_from(hash_text: Seq<char>, raw: Seq<char>) -> bool {
    &&& is_hash_text(hash_text)
    &&& bcrypt_verify_outcome(raw, hash_text) == Some(true)
}

/// Relies on zxcvbn::zxcvbn and zxcvbn::Entropy::score: a blank candidate is
/// rejected up front, the only other failure is an internal clock fault
/// (reported here as PasswordEntropy), and a success carries a score of at
/// most 4. Nothing more is promised of the score: the estimator reads the
/// machine's clock for a reference year that flows into its verdict on
/// date-shaped substrings, so the score is not a function of the candidate
/// alone and gets no name. One residual risk cannot be fenced off here: the
/// estimator times itself by subtracting two clock readings, so a clock
/// that steps backwards during the call makes it panic, on any input.
#[verifier::external_body]
pub(crate) fn estimate_score(candidate: &str) -> (r: Result<u8, PasswordError>)
    ensures
        r matches Ok(score) ==> score <= 4,
        r matches Err(e) ==> e == PasswordError::BlankPassword || e
            == PasswordError::PasswordEntropy,
        (r == Err::<u8, PasswordError>(PasswordError::BlankPassword)) <==> candidate@.len() == 0,
{
    match zxcvbn::zxcvbn(candidate, &[]) {
        Ok(entropy) => Ok(entropy.score()),
        Err(zxcvbn::ZxcvbnError::BlankPassword) => Err(PasswordError::BlankPassword),
        Err(zxcvbn::ZxcvbnError::DurationOutOfRange) => Err(PasswordError::PasswordEntropy),
    }
}

/// Relies on bcrypt::hash: a cost outside the allowed 4 to 31 range is
/// rejected; a successful call returns the oracle's 60-character
/// `$2b$<cost>$<salt-and-digest>` text, whose algorithm and cost fields are
/// lower-case letters and digits, and which bcrypt::verify accepts for the
/// password that was hashed (the salt it recomputes from is embedded in the
/// text). The salt is drawn fresh, so nothing beyond that is promised.
#[verifier::external_body]
pub(crate) fn hash_password(password: &str, cost: u32) -> (r: Result<String, bcrypt::BcryptError>)
    ensures
        r matches Ok(h) ==> is_hash_text(h@) && bcrypt_verify_outcome(password@, h@) == Some(true),
        cost < 4 || cost > 31 ==> r is Err,
{
    bcrypt::hash(password, cost)
}

/// Relies on bcrypt::verify: it parses the hash text, recomputes the hash of
/// the candidate under the salt and cost it read, and compares digests; the
/// whole outcome is deterministic in the two texts, and the error outcome
/// comes exactly from hash text the parse rejects.
#[verifier::external_body]
pub(crate) fn verify_password(candidate: &str, hash_text: &str) -> (r: Result<
    bool,
    bcrypt::BcryptError,
>)
    ensures
        r matches Ok(b) ==> bcrypt_verify_outcome(candidate@, hash_text@) == Some(b),
        r is Err ==> bcrypt_verify_outcome(candidate@, hash_text@) is None,
{
    bcrypt::verify(candidate, hash_text)
}

/// Relies on bcrypt::DEFAULT_COST, which is 12.
#[verifier::external_body]
pub(crate) fn default_cost() -> (c: u32)
    ensures
        c == 12,
{
    bcrypt::DEFAULT_COST
}

} // verus!
