//! The legacy edition: a single-string email and a password that carries its
//! raw and encrypted forms as optional fields behind one runtime-checked type.

pub mod email;
pub mod password;
