//! Error taxonomy: one closed enum per validated type, each variant carrying
//! only the data a caller needs to render a message.

use vstd::prelude::*;

use crate::typed::password_checker::PasswordStrength;

verus! {

/// Why an email address was rejected.
#[derive(Debug, Copy, Clone, PartialEq, Eq, Structural)]
pub enum EmailError {
    /// The text does not have the `local@domain` shape.
    Format,
    /// The combined length lies outside the 6 to 254 range.
    Length,
    /// The domain part does not match the domain format.
    Domain,
    /// The username part does not match the username format.
    Username,
}

/// Why a password was rejected.
#[derive(Debug, Copy, Clone, PartialEq, Eq, Structural)]
pub enum PasswordError {
    /// The password is shorter than the required minimum length carried here.
    InvalidLength(u8),
    /// A blank password cannot be evaluated.
    BlankPassword,
    /// The entropy estimator failed on an internal clock computation.
    PasswordEntropy,
    /// The entropy score fell below the required strength tier carried here.
    UnsafePassword(PasswordStrength),
    /// The entropy score fell below the fixed threshold of the legacy check.
    NotEnoughStrongPassword,
    /// The text handed in as an encrypted password is not hash text.
    PasswordNotEncrypted,
    /// The hashing oracle failed while encrypting.
    PasswordEncryption,
    /// The hashing oracle failed while verifying.
    PasswordVerification,
    /// The candidate does not match the stored encrypted password.
    WrongPassword,
}

} // verus!
