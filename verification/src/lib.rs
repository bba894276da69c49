//! Validated value types for user identity data: an email address that can
//! only be constructed in a well-formed state, and a password whose type
//! distinguishes raw plaintext from encrypted hash text, so that plaintext is
//! never stored or shown by mistake.

pub mod errors;
pub mod legacy;
pub mod oracle;
pub mod pattern;
pub mod typed;

pub use errors::EmailError;
pub use errors::PasswordError;
pub use typed::email::Email;
pub use typed::password::Encrypt;
pub use typed::password::Password;
pub use typed::password::Raw;
pub use typed::password_checker::Entropy;
pub use typed::password_checker::PasswordStrength;
pub use typed::password_checker::PasswordStrengthChecker;
