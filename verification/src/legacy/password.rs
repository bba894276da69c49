//! The legacy password: one runtime-checked type that carries an optional
//! raw part and an optional encrypted part. Constructing through `new`
//! encrypts at once and drops the raw part, so a successfully built value
//! never holds plaintext.

use vstd::prelude::*;
use vstd::string::StrSliceExecFns;
use vstd::string::StringExecFns;

use crate::errors::PasswordError;
use crate::oracle::bcrypt_verify_outcome;
use crate::oracle::default_cost;
use crate::oracle::encrypted_from;
use crate::oracle::estimate_score;
use crate::oracle::hash_password;
use crate::oracle::verify_password;
use crate::typed::password::password_debug_render;

verus! {

/// A password in the legacy model: raw text, encrypted text, or both.
#[derive(Eq, PartialEq)]
pub struct Password {
    raw: Option<String>,
    encrypt: Option<String>,
}

impl Password {
    /// The characters of the raw part, if one is held.
    pub closed spec fn spec_raw(self) -> Option<Seq<char>> {
        match self.raw {
            Some(s) => Some(s@),
            None => None,
        }
    }

    /// The characters of the encrypted part, if one is held.
    pub closed spec fn spec_encrypt(self) -> Option<Seq<char>> {
        match self.encrypt {
            Some(s) => Some(s@),
            None => None,
        }
    }

    /// What the debug rendering shows: the encrypted part, or nothing,
    /// between the quotes. The raw part does not occur in it.
    pub open spec fn spec_debug_render(self) -> Seq<char> {
        password_debug_render(
            match self.spec_encrypt() {
                Some(h) => h,
                None => Seq::empty(),
            },
        )
    }

    /// Creates a password from raw text and encrypts it at once: the raw
    /// text must have at least 8 characters and the estimator must grant it
    /// the top entropy score; the result keeps only the encrypted part.
    pub fn new(raw_password: String) -> (r: Result<Self, PasswordError>)
        ensures
            r matches Ok(p) ==> {
                &&& raw_password@.len() >= 8
                &&& p.spec_raw() is None
                &&& p.spec_encrypt() matches Some(h) && encrypted_from(h, raw_password@)
            },
            r == Err::<Self, PasswordError>(PasswordError::InvalidLength(8)) <==> raw_password@.len()
                < 8,
            r == Err::<Self, PasswordError>(PasswordError::NotEnoughStrongPassword) ==> raw_password@.len()
                >= 8,
            r == Err::<Self, PasswordError>(PasswordError::PasswordEntropy) ==> raw_password@.len()
                >= 8,
            r == Err::<Self, PasswordError>(PasswordError::PasswordEncryption) ==> raw_password@.len()
                >= 8,
            r matches Err(e) ==> {
                ||| e == PasswordError::InvalidLength(8)
                ||| e == PasswordError::PasswordEntropy
                ||| e == PasswordError::NotEnoughStrongPassword
                ||| e == PasswordError::PasswordEncryption
            },
    {
        let mut password = Self { raw: Some(raw_password), encrypt: None };
        password.encrypt_password()?;
        password.raw = None;
        Ok(password)
    }

    /// Creates a password that holds only raw text; nothing is validated.
    pub fn from_raw(raw_password: String) -> (r: Self)
        ensures
            r.spec_raw() == Some(raw_password@),
            r.spec_encrypt() is None,
    {
        Self { raw: Some(raw_password), encrypt: None }
    }

    /// Creates a password that holds only encrypted text; the text is taken
    /// as trusted and nothing is validated.
    pub fn from_encrypt(encrypt_password: String) -> (r: Self)
        ensures
            r.spec_raw() is None,
            r.spec_encrypt() == Some(encrypt_password@),
    {
        Self { raw: None, encrypt: Some(encrypt_password) }
    }

    /// Encrypts the raw part in place: it must be held, have at least 8
    /// characters, and the estimator must grant it the top entropy score;
    /// then the hashing oracle runs with one above its default cost and the
    /// hash text becomes the encrypted part. The raw part stays as it was,
    /// on every path.
    pub fn encrypt_password(&mut self) -> (r: Result<(), PasswordError>)
        ensures
            final(self).spec_raw() == old(self).spec_raw(),
            r is Err ==> final(self).spec_encrypt() == old(self).spec_encrypt(),
            r == Err::<(), PasswordError>(PasswordError::InvalidLength(8)) <==> (old(
                self,
            ).spec_raw() is None || (old(self).spec_raw() matches Some(rv) && rv.len() < 8)),
            r is Ok ==> (old(self).spec_raw() matches Some(rv) && rv.len() >= 8
                && (final(self).spec_encrypt() matches Some(h) && encrypted_from(h, rv))),
            r == Err::<(), PasswordError>(PasswordError::NotEnoughStrongPassword) ==> (old(
                self,
            ).spec_raw() matches Some(rv) && rv.len() >= 8),
            r == Err::<(), PasswordError>(PasswordError::PasswordEntropy) ==> (old(
                self,
            ).spec_raw() matches Some(rv) && rv.len() >= 8),
            r == Err::<(), PasswordError>(PasswordError::PasswordEncryption) ==> (old(
                self,
            ).spec_raw() matches Some(rv) && rv.len() >= 8),
            r matches Err(e) ==> {
                ||| e == PasswordError::InvalidLength(8)
                ||| e == PasswordError::PasswordEntropy
                ||| e == PasswordError::NotEnoughStrongPassword
                ||| e == PasswordError::PasswordEncryption
            },
    {
        if self.raw.is_none() {
            return Err(PasswordError::InvalidLength(8));
        }
        let raw_password: &str = self.raw.as_ref().unwrap().as_str();
        if raw_password.unicode_len() < 8 {
            return Err(PasswordError::InvalidLength(8));
        }
        let score = match estimate_score(raw_password) {
            Ok(score) => score,
            Err(e) => {
                return Err(e);
            },
        };
        if score < 4 {
            return Err(PasswordError::NotEnoughStrongPassword);
        }
        let cost = default_cost() + 1;
        let encrypt_password = match hash_password(raw_password, cost) {
            Ok(hash_text) => hash_text,
            Err(_) => {
                return Err(PasswordError::PasswordEncryption);
            },
        };
        self.encrypt = Some(encrypt_password);
        Ok(())
    }

    /// Verifies raw text against the encrypted part: no encrypted part is an
    /// error of its own, a candidate the oracle rejects is `WrongPassword`,
    /// and hash text the oracle cannot parse is `PasswordVerification`.
    pub fn check(&self, raw_password: String) -> (r: Result<(), PasswordError>)
        ensures
            r == Err::<(), PasswordError>(PasswordError::PasswordNotEncrypted)
                <==> self.spec_encrypt() is None,
            r is Ok <==> (self.spec_encrypt() matches Some(h) && bcrypt_verify_outcome(
                raw_password@,
                h,
            ) == Some(true)),
            r == Err::<(), PasswordError>(PasswordError::WrongPassword) <==> (
            self.spec_encrypt() matches Some(h) && bcrypt_verify_outcome(raw_password@, h) == Some(
                false,
            )),
            r == Err::<(), PasswordError>(PasswordError::PasswordVerification) <==> (
            self.spec_encrypt() matches Some(h) && bcrypt_verify_outcome(raw_password@, h) is None),
    {
        if self.encrypt.is_none() {
            return Err(PasswordError::PasswordNotEncrypted);
        }
        let verified = match verify_password(
            raw_password.as_str(),
            self.encrypt.as_ref().unwrap().as_str(),
        ) {
            Ok(b) => b,
            Err(_) => {
                return Err(PasswordError::PasswordVerification);
            },
        };
        if !verified {
            return Err(PasswordError::WrongPassword);
        }
        Ok(())
    }

    /// The encrypted part as an owned string, if one is held.
    pub fn maybe_string(&self) -> (r: Option<String>)
        ensures
            r matches Some(s) ==> self.spec_encrypt() == Some(s@),
            r is Some <==> self.spec_encrypt() is Some,
    {
        match &self.encrypt {
            Some(p) => Some(p.clone()),
            None => None,
        }
    }

    /// A reference to the encrypted part, if one is held.
    pub fn try_to_str(&self) -> (r: Result<&String, PasswordError>)
        ensures
            r matches Ok(s) ==> self.spec_encrypt() == Some(s@),
            r is Ok <==> self.spec_encrypt() is Some,
            r is Err ==> r == Err::<&String, PasswordError>(PasswordError::PasswordNotEncrypted),
    {
        match &self.encrypt {
            Some(p) => Ok(p),
            None => Err(PasswordError::PasswordNotEncrypted),
        }
    }

    /// The encrypted part as an owned string, if one is held; cloning it.
    pub fn try_to_string(&self) -> (r: Result<String, PasswordError>)
        ensures
            r matches Ok(s) ==> self.spec_encrypt() == Some(s@),
            r is Ok <==> self.spec_encrypt() is Some,
            r is Err ==> r == Err::<String, PasswordError>(PasswordError::PasswordNotEncrypted),
    {
        match &self.encrypt {
            Some(p) => Ok(p.clone()),
            None => Err(PasswordError::PasswordNotEncrypted),
        }
    }

    /// The debug rendering: the encrypted part, or nothing, in quotes behind
    /// the type's name. The raw part never reaches the rendering.
    pub fn debug_string(&self) -> (r: String)
        ensures
            r@ == self.spec_debug_render(),
    {
        let mut r = "Password(\"".to_owned();
        match &self.encrypt {
            Some(p) => r.append(p.as_str()),
            None => (),
        }
        r.append("\")");
        proof {
            assert(r@ =~= self.spec_debug_render());
        }
        r
    }
}

impl Clone for Password {
    /// The clone holds the same parts.
    fn clone(&self) -> (r: Self)
        ensures
            r.spec_raw() == self.spec_raw(),
            r.spec_encrypt() == self.spec_encrypt(),
    {
        let raw = match &self.raw {
            Some(p) => Some(p.clone()),
            None => None,
        };
        let encrypt = match &self.encrypt {
            Some(p) => Some(p.clone()),
            None => None,
        };
        Password { raw, encrypt }
    }
}

/// Law (no plaintext in the rendering): the debug rendering is a function of
/// the encrypted part alone, so two passwords with the same encrypted part
/// render identically, whatever raw text either of them holds.
pub proof fn lemma_debug_render_ignores_raw(a: Password, b: Password)
    requires
        a.spec_encrypt() == b.spec_encrypt(),
    ensures
        a.spec_debug_render() == b.spec_debug_render(),
{
}

} // verus!
