//! An immutable email value built from a validated username and domain.
//! No value of the type exists without having passed the format checks, and
//! every mutation re-validates before it takes effect.

use vstd::prelude::*;
use vstd::string::StrSliceExecFns;
use vstd::string::StringExecFns;

use crate::errors::EmailError;
use crate::pattern::email_split;
use crate::pattern::check_domain_text;
use crate::pattern::check_username_text;
use crate::pattern::split_email_text;
use crate::pattern::valid_domain;
use crate::pattern::valid_email;
use crate::pattern::valid_username;

verus! {

/// A validated email address, held as its two parts.
#[derive(Debug, Eq)]
pub struct Email {
    local: String,
    domain: String,
}

impl Clone for Email {
    fn clone(&self) -> (r: Self)
        ensures
            r == *self,
    {
        proof {
            use_type_invariant(self);
        }
        Email { local: self.local.clone(), domain: self.domain.clone() }
    }
}

impl Email {
    /// Every email that exists has a valid username and a valid domain. The
    /// part-building path bounds the combined part length to 6..=254; the
    /// parsing path bounds the rendered length to 6..=254, which admits a
    /// combined part length one below the building path's lower bound.
    #[verifier::type_invariant]
    spec fn type_wf(self) -> bool {
        &&& valid_username(self.local@)
        &&& valid_domain(self.domain@)
        &&& 5 <= self.local@.len() + self.domain@.len() <= 254
    }

    /// The characters of the username (local) part.
    pub closed spec fn spec_local(self) -> Seq<char> {
        self.local@
    }

    /// The characters of the domain part.
    pub closed spec fn spec_domain(self) -> Seq<char> {
        self.domain@
    }

    fn check_len(len: usize) -> (r: Result<(), EmailError>)
        ensures
            r is Ok <==> 6 <= len <= 254,
            r is Err ==> r == Err::<(), EmailError>(EmailError::Length),
    {
        if len < 6 || len > 254 {
            Err(EmailError::Length)
        } else {
            Ok(())
        }
    }

    fn check_username(username: &str) -> (r: Result<(), EmailError>)
        ensures
            r is Ok <==> valid_username(username@),
            r is Err ==> r == Err::<(), EmailError>(EmailError::Username),
    {
        if check_username_text(username) {
            Ok(())
        } else {
            Err(EmailError::Username)
        }
    }

    fn check_domain(domain: &str) -> (r: Result<(), EmailError>)
        ensures
            r is Ok <==> valid_domain(domain@),
            r is Err ==> r == Err::<(), EmailError>(EmailError::Domain),
    {
        if check_domain_text(domain) {
            Ok(())
        } else {
            Err(EmailError::Domain)
        }
    }

    /// Builds an email from its two parts. The combined length is checked
    /// first, then the username format, then the domain format; the first
    /// failing check names the error.
    pub fn build(username: &str, domain: &str) -> (r: Result<Self, EmailError>)
        ensures
            r matches Ok(e) ==> e.spec_local() == username@ && e.spec_domain() == domain@,
            r is Ok <==> {
                &&& 6 <= username@.len() + domain@.len() <= 254
                &&& valid_username(username@)
                &&& valid_domain(domain@)
            },
            r == Err::<Self, EmailError>(EmailError::Length) <==> !(6 <= username@.len()
                + domain@.len() <= 254),
            r == Err::<Self, EmailError>(EmailError::Username) <==> (6 <= username@.len()
                + domain@.len() <= 254 && !valid_username(username@)),
            r == Err::<Self, EmailError>(EmailError::Domain) <==> {
                &&& 6 <= username@.len() + domain@.len() <= 254
                &&& valid_username(username@)
                &&& !valid_domain(domain@)
            },
    {
        let ulen = username.unicode_len();
        let dlen = domain.unicode_len();
        if ulen > 254 || dlen > 254 {
            return Err(EmailError::Length);
        }
        Self::check_len(ulen + dlen)?;
        Self::check_username(username)?;
        Self::check_domain(domain)?;
        Ok(Email { local: username.to_owned(), domain: domain.to_owned() })
    }

    /// Parses a full `local@domain` text: the rendered length must lie in
    /// 6..=254, and the text must split at its `@` into a valid username and
    /// a valid domain; the parts of the result are the parts of that split.
    pub fn from_str(email: &str) -> (r: Result<Self, EmailError>)
        ensures
            r matches Ok(e) ==> email_split(email@, e.spec_local(), e.spec_domain()),
            r is Ok <==> 6 <= email@.len() <= 254 && valid_email(email@),
            r == Err::<Self, EmailError>(EmailError::Length) <==> !(6 <= email@.len() <= 254),
            r == Err::<Self, EmailError>(EmailError::Format) <==> (6 <= email@.len() <= 254
                && !valid_email(email@)),
    {
        let n = email.unicode_len();
        Self::check_len(n)?;
        match split_email_text(email) {
            None => Err(EmailError::Format),
            Some((local, domain)) => {
                proof {
                    assert(email@.len() == local@.len() + 1 + domain@.len());
                }
                Ok(Email { local, domain })
            },
        }
    }

    /// The username part.
    pub fn username(&self) -> (r: &str)
        ensures
            r@ == self.spec_local(),
    {
        self.local.as_str()
    }

    /// The username part, under its other traditional name.
    pub fn local(&self) -> (r: &str)
        ensures
            r@ == self.spec_local(),
    {
        self.local.as_str()
    }

    /// The domain part.
    pub fn domain(&self) -> (r: &str)
        ensures
            r@ == self.spec_domain(),
    {
        self.domain.as_str()
    }

    /// Replaces the username part. The new part must be a valid username and
    /// must keep the combined length of the parts in 6..=254; on any error
    /// the email is left unchanged.
    pub fn set_username(&mut self, username: &str) -> (r: Result<(), EmailError>)
        ensures
            r is Ok <==> valid_username(username@) && 6 <= username@.len() + old(
                self,
            ).spec_domain().len() <= 254,
            r == Err::<(), EmailError>(EmailError::Username) <==> !valid_username(username@),
            r == Err::<(), EmailError>(EmailError::Length) <==> (valid_username(username@) && !(6
                <= username@.len() + old(self).spec_domain().len() <= 254)),
            r is Err ==> *final(self) == *old(self),
            r is Ok ==> final(self).spec_local() == username@ && final(self).spec_domain() == old(
                self,
            ).spec_domain(),
    {
        proof {
            use_type_invariant(&*self);
        }
        if !check_username_text(username) {
            return Err(EmailError::Username);
        }
        let ulen = username.unicode_len();
        let dlen = self.domain.as_str().unicode_len();
        if ulen > 254 {
            return Err(EmailError::Length);
        }
        if Self::check_len(ulen + dlen).is_err() {
            return Err(EmailError::Length);
        }
        self.local = username.to_owned();
        Ok(())
    }

    /// Replaces the domain part. The new part must be a valid domain and
    /// must keep the combined length of the parts in 6..=254; on any error
    /// the email is left unchanged.
    pub fn set_domain(&mut self, domain: &str) -> (r: Result<(), EmailError>)
        ensures
            r is Ok <==> valid_domain(domain@) && 6 <= old(self).spec_local().len()
                + domain@.len() <= 254,
            r == Err::<(), EmailError>(EmailError::Domain) <==> !valid_domain(domain@),
            r == Err::<(), EmailError>(EmailError::Length) <==> (valid_domain(domain@) && !(6
                <= old(self).spec_local().len() + domain@.len() <= 254)),
            r is Err ==> *final(self) == *old(self),
            r is Ok ==> final(self).spec_domain() == domain@ && final(self).spec_local() == old(
                self,
            ).spec_local(),
    {
        proof {
            use_type_invariant(&*self);
        }
        if !check_domain_text(domain) {
            return Err(EmailError::Domain);
        }
        let ulen = self.local.as_str().unicode_len();
        let dlen = domain.unicode_len();
        if dlen > 254 {
            return Err(EmailError::Length);
        }
        if Self::check_len(ulen + dlen).is_err() {
            return Err(EmailError::Length);
        }
        self.domain = domain.to_owned();
        Ok(())
    }

    /// Renders the address as `local@domain`.
    pub fn to_string(&self) -> (r: String)
        ensures
            r@ == self.spec_local() + seq!['@'] + self.spec_domain(),
    {
        let mut r = self.local.clone();
        r.append("@");
        r.append(self.domain.as_str());
        proof {
            reveal_strlit("@");
            assert(r@ =~= self.spec_local() + seq!['@'] + self.spec_domain());
        }
        r
    }
}

impl PartialEq for Email {
    fn eq(&self, other: &Self) -> bool {
        self.local == other.local && self.domain == other.domain
    }
}

impl vstd::std_specs::cmp::PartialEqSpecImpl for Email {
    open spec fn obeys_eq_spec() -> bool {
        true
    }

    open spec fn eq_spec(&self, other: &Self) -> bool {
        self.spec_local() == other.spec_local() && self.spec_domain() == other.spec_domain()
    }
}

/// Law (round trip): for a valid username and a valid domain whose combined
/// length leaves room for the separator, the rendered text `local@domain`
/// has a length that parsing accepts, is a valid address, and its one and
/// only email split returns exactly the given parts — so parsing the
/// rendered form of a built email yields an equal email. A combined length
/// of exactly 254 builds but renders to 255 characters, which parsing
/// rejects; such pairs are left out here.
pub proof fn lemma_email_round_trip(local: Seq<char>, domain: Seq<char>)
    requires
        valid_username(local),
        valid_domain(domain),
        6 <= local.len() + domain.len() <= 253,
    ensures
        6 <= (local + seq!['@'] + domain).len() <= 254,
        valid_email(local + seq!['@'] + domain),
        forall|l: Seq<char>, d: Seq<char>|
            email_split(local + seq!['@'] + domain, l, d) ==> l == local && d == domain,
{
    crate::pattern::lemma_email_split_unique(local, domain);
}

} // verus!
