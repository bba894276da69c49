//! The typed edition: an email value built from validated parts, and a
//! password whose Raw and Encrypt states are distinct types.

pub mod email;
pub mod password;
pub mod password_checker;
