//! The legacy email value: the whole address held as one string, validated
//! at construction against the same length and format rules the typed
//! edition enforces.

use vstd::prelude::*;
use vstd::string::StrSliceExecFns;

use crate::errors::EmailError;
use crate::pattern::check_email_text;
use crate::pattern::valid_email;

verus! {

/// A validated email address, held as its full `local@domain` text; its view
/// is that text.
#[derive(Debug, Eq, PartialEq)]
pub struct Email(String);

impl View for Email {
    type V = Seq<char>;

    closed spec fn view(&self) -> Seq<char> {
        self.0@
    }
}

impl Email {
    /// Every legacy email that exists is a valid address of accepted length.
    #[verifier::type_invariant]
    spec fn type_wf(self) -> bool {
        &&& 6 <= self.0@.len() <= 254
        &&& valid_email(self.0@)
    }

    /// Validates and wraps a full address: the length must lie in 6..=254 and
    /// the text must split at `@` into a valid username and a valid domain.
    pub fn new(email: &str) -> (r: Result<Self, EmailError>)
        ensures
            r matches Ok(e) ==> e@ == email@,
            r is Ok <==> 6 <= email@.len() <= 254 && valid_email(email@),
            r == Err::<Self, EmailError>(EmailError::Length) <==> !(6 <= email@.len() <= 254),
            r == Err::<Self, EmailError>(EmailError::Format) <==> (6 <= email@.len() <= 254
                && !valid_email(email@)),
    {
        let n = email.unicode_len();
        if n < 6 || n > 254 {
            return Err(EmailError::Length);
        }
        if !check_email_text(email) {
            return Err(EmailError::Format);
        }
        Ok(Email(email.to_owned()))
    }

    /// The full address text.
    pub fn as_str(&self) -> (r: &str)
        ensures
            r@ == self@,
    {
        self.0.as_str()
    }
}

impl Clone for Email {
    /// The clone holds the same address.
    fn clone(&self) -> (r: Self)
        ensures
            r@ == self@,
    {
        proof {
            use_type_invariant(self);
        }
        Email(self.0.clone())
    }
}

} // verus!
