//! The password type-state machine. `Password<Raw>` holds untrusted
//! plaintext and is the only state that can be strength-checked or
//! encrypted; `Password<Encrypt>` holds hash text and is the only state that
//! can be verified against, rendered, or persisted. Encrypting consumes the
//! raw value, so the plaintext binding does not outlive the transition.

use core::marker::PhantomData;

use vstd::prelude::*;
use vstd::string::StringExecFns;

use crate::errors::PasswordError;
use crate::oracle::bcrypt_verify_outcome;
use crate::oracle::default_cost;
use crate::oracle::encrypted_from;
use crate::oracle::hash_password;
use crate::oracle::verify_password;
use crate::pattern::is_hash_text;
use crate::typed::password_checker::PasswordStrength;
use crate::typed::password_checker::PasswordStrengthChecker;

verus! {

/// State tag: the value is plaintext, not yet checked or encrypted.
#[derive(Clone, Eq, PartialEq)]
pub struct Raw;

/// State tag: the value is hash text, safe to persist.
#[derive(Clone, Eq, PartialEq)]
pub struct Encrypt;

/// The debug rendering of a password value: only what stands between the
/// quotes varies, so the rendering reveals nothing but that text.
pub open spec fn password_debug_render(value: Seq<char>) -> Seq<char> {
    "Password(\""@ + value + "\")"@
}

/// Safe-access password abstraction; its view is the held text.
#[derive(Eq, PartialEq)]
pub struct Password<State = Encrypt> {
    value: String,
    state: PhantomData<State>,
}

impl<State> Clone for Password<State> {
    /// The clone holds the same text in the same state.
    fn clone(&self) -> (r: Self)
        ensures
            r@ == self@,
    {
        Password { value: self.value.clone(), state: PhantomData }
    }
}

impl<State> View for Password<State> {
    type V = Seq<char>;

    closed spec fn view(&self) -> Seq<char> {
        self.value@
    }
}

impl Password {
    /// Wraps untrusted plaintext; nothing is validated until `check`.
    pub fn new(raw_password: &str) -> (r: Password<Raw>)
        ensures
            r@ == raw_password@,
    {
        Password { value: raw_password.to_owned(), state: PhantomData }
    }

    /// Creates a non-encrypted password.
    pub fn from_raw(raw_password: &str) -> (r: Password<Raw>)
        ensures
            r@ == raw_password@,
    {
        Self::new(raw_password)
    }

    /// Creates an encrypted password from stored text, accepting exactly the
    /// texts that have the hash-text shape.
    pub fn from_encrypt(encrypted_password: &str) -> (r: Result<Password<Encrypt>, PasswordError>)
        ensures
            r matches Ok(p) ==> p@ == encrypted_password@,
            r is Ok <==> is_hash_text(encrypted_password@),
            r is Err <==> (r == Err::<Password<Encrypt>, PasswordError>(
                PasswordError::PasswordNotEncrypted,
            ) && !is_hash_text(encrypted_password@)),
    {
        if !crate::pattern::check_hash_text(encrypted_password) {
            return Err(PasswordError::PasswordNotEncrypted);
        }
        Ok(Password { value: encrypted_password.to_owned(), state: PhantomData })
    }

    /// Verifies a raw candidate against this hash text through the hashing
    /// oracle. A wrong candidate is `Ok(false)`, not an error; the error
    /// outcome comes exactly from hash text the oracle cannot parse, so hash
    /// text produced for the candidate verifies as `Ok(true)`.
    pub fn verify(&self, raw_password: &Password<Raw>) -> (r: Result<bool, bcrypt::BcryptError>)
        ensures
            r matches Ok(b) ==> bcrypt_verify_outcome(raw_password@, self@) == Some(b),
            r is Err ==> bcrypt_verify_outcome(raw_password@, self@) is None,
            encrypted_from(self@, raw_password@) ==> r == Ok::<bool, bcrypt::BcryptError>(true),
    {
        verify_password(raw_password.value.as_str(), self.value.as_str())
    }

    /// Verifies a raw candidate given as plain text, as `verify` does.
    pub fn verify_from_raw(&self, raw: &str) -> (r: Result<bool, bcrypt::BcryptError>)
        ensures
            r matches Ok(b) ==> bcrypt_verify_outcome(raw@, self@) == Some(b),
            r is Err ==> bcrypt_verify_outcome(raw@, self@) is None,
            encrypted_from(self@, raw@) ==> r == Ok::<bool, bcrypt::BcryptError>(true),
    {
        verify_password(raw, self.value.as_str())
    }

    /// The hash text held by an encrypted password.
    pub fn as_str(&self) -> (r: &str)
        ensures
            r@ == self@,
    {
        self.value.as_str()
    }

    /// The debug rendering: the hash text in quotes behind the type's name.
    /// A raw password has no rendering at all, so plaintext cannot leak here.
    pub fn debug_string(&self) -> (r: String)
        ensures
            r@ == password_debug_render(self@),
    {
        let mut r = "Password(\"".to_owned();
        r.append(self.value.as_str());
        r.append("\")");
        r
    }
}

impl Password<Raw> {
    /// Gates this raw password through the default strength policy (at least
    /// 8 characters, at least the Default tier): on success the password is
    /// returned unchanged, on failure the policy's error passes through.
    pub fn check(self) -> (r: Result<Password<Raw>, PasswordError>)
        ensures
            r matches Ok(p) ==> {
                &&& p@ == self@
                &&& self@.len() >= 8
            },
            r == Err::<Password<Raw>, PasswordError>(PasswordError::InvalidLength(8)) <==> self@.len()
                < 8,
            r matches Err(PasswordError::UnsafePassword(t)) ==> {
                &&& t == PasswordStrength::Default
                &&& self@.len() >= 8
            },
            r matches Err(e) ==> {
                ||| e == PasswordError::InvalidLength(8)
                ||| e == PasswordError::PasswordEntropy
                ||| e matches PasswordError::UnsafePassword(_)
            },
    {
        match PasswordStrengthChecker::new().check(self.value.as_str()) {
            Ok(_) => Ok(self),
            Err(e) => Err(e),
        }
    }

    /// Gates this raw password through a caller-supplied strength policy.
    pub fn custom_check(self, checker: PasswordStrengthChecker) -> (r: Result<
        Password<Raw>,
        PasswordError,
    >)
        ensures
            r matches Ok(p) ==> {
                &&& p@ == self@
                &&& self@.len() >= checker.spec_min_len()
            },
            r == Err::<Password<Raw>, PasswordError>(
                PasswordError::InvalidLength(checker.reported_min_len()),
            ) <==> self@.len() < checker.spec_min_len(),
            r matches Err(PasswordError::UnsafePassword(t)) ==> {
                &&& t == checker.spec_strong()
                &&& self@.len() >= checker.spec_min_len()
            },
            r == Err::<Password<Raw>, PasswordError>(PasswordError::BlankPassword) <==> (self@.len()
                == 0 && checker.spec_min_len() == 0),
            r matches Err(e) ==> {
                ||| e matches PasswordError::InvalidLength(_)
                ||| e == PasswordError::BlankPassword
                ||| e == PasswordError::PasswordEntropy
                ||| e matches PasswordError::UnsafePassword(_)
            },
    {
        match checker.check(self.value.as_str()) {
            Ok(_) => Ok(self),
            Err(e) => Err(e),
        }
    }

    /// Encrypts this raw password with the given work-factor cost, consuming
    /// it. No strength check happens here: callers chain `check()?` first
    /// when they want one. A cost outside the oracle's 4 to 31 range is
    /// refused; a success carries hash text produced for this password.
    pub fn to_encrypt(self, cost: u32) -> (r: Result<Password<Encrypt>, bcrypt::BcryptError>)
        ensures
            r matches Ok(p) ==> encrypted_from(p@, self@),
            cost < 4 || cost > 31 ==> r is Err,
    {
        match hash_password(self.value.as_str(), cost) {
            Ok(hash_text) => Ok(Password { value: hash_text, state: PhantomData }),
            Err(e) => Err(e),
        }
    }

    /// Encrypts this raw password with the oracle's default cost.
    pub fn to_encrypt_default(self) -> (r: Result<Password<Encrypt>, bcrypt::BcryptError>)
        ensures
            r matches Ok(p) ==> encrypted_from(p@, self@),
    {
        let cost = default_cost();
        self.to_encrypt(cost)
    }

    /// Encrypts this raw password with the given cost, as `to_encrypt` does.
    #[inline]
    pub fn to_encrypt_with_cost(self, cost: u32) -> (r: Result<
        Password<Encrypt>,
        bcrypt::BcryptError,
    >)
        ensures
            r matches Ok(p) ==> encrypted_from(p@, self@),
            cost < 4 || cost > 31 ==> r is Err,
    {
        Self::to_encrypt(self, cost)
    }
}

/// Law (encrypt then verify): hash text produced for a raw password has the
/// hash-text shape — so storing and re-reading it through `from_encrypt`
/// succeeds — and carries the accepting verification outcome for that
/// password, so `verify` on the pair returns true: neither false nor an
/// error.
pub proof fn lemma_encrypt_verify_round_trip(raw: Seq<char>, hash_text: Seq<char>)
    requires
        encrypted_from(hash_text, raw),
    ensures
        is_hash_text(hash_text),
        bcrypt_verify_outcome(raw, hash_text) == Some(true),
{
}

} // verus!
