//! The strength policy: a configurable minimum length and a minimum entropy
//! score tier, evaluated against the external entropy estimator.

use vstd::prelude::*;
use vstd::string::StrSliceExecFns;

use crate::errors::PasswordError;
use crate::oracle::estimate_score;

verus! {

/// The strength tiers a policy can demand, each standing for a minimum
/// entropy score.
#[derive(Debug, Copy, Clone, Eq, PartialEq, Structural)]
pub enum PasswordStrength {
    /// Requires an entropy score of at least 2.
    Low,
    /// Requires an entropy score of at least 3.
    Default,
    /// Requires an entropy score of at least 4.
    Hard,
}

impl PasswordStrength {
    /// The numeric threshold of each tier: Low is 2, Default is 3, Hard is 4.
    pub open spec fn spec_score(self) -> u8 {
        match self {
            PasswordStrength::Low => 2,
            PasswordStrength::Default => 3,
            PasswordStrength::Hard => 4,
        }
    }

    /// The minimum entropy score (0 to 4) a candidate must reach for this tier.
    pub fn as_u8(&self) -> (score: u8)
        ensures
            score == self.spec_score(),
    {
        match self {
            PasswordStrength::Low => 2,
            PasswordStrength::Default => 3,
            PasswordStrength::Hard => 4,
        }
    }
}

/// The estimator's verdict on a candidate that passed a check: its entropy
/// score, 0 to 4, kept for optional inspection by the caller.
pub struct Entropy {
    score: u8,
}

impl Entropy {
    /// The entropy score this estimate carries.
    pub closed spec fn spec_score(self) -> u8 {
        self.score
    }

    /// The entropy score this estimate carries.
    pub fn score(&self) -> (score: u8)
        ensures
            score == self.spec_score(),
    {
        self.score
    }
}

/// A reusable strength policy: a minimum length and a minimum strength tier,
/// both fixed when the policy is built.
#[derive(Copy, Clone)]
pub struct PasswordStrengthChecker {
    min_len: usize,
    strong: PasswordStrength,
}

impl PasswordStrengthChecker {
    /// The minimum length this policy demands.
    pub closed spec fn spec_min_len(self) -> usize {
        self.min_len
    }

    /// The strength tier this policy demands.
    pub closed spec fn spec_strong(self) -> PasswordStrength {
        self.strong
    }

    /// The minimum length as the error report carries it: its low byte.
    pub open spec fn reported_min_len(self) -> u8 {
        (self.spec_min_len() % 256) as u8
    }

    /// The default policy: at least 8 characters, at least the Default tier.
    pub fn new() -> (r: Self)
        ensures
            r.spec_min_len() == 8,
            r.spec_strong() == PasswordStrength::Default,
    {
        Self { min_len: 8, strong: PasswordStrength::Default }
    }

    /// Returns the policy with its minimum length replaced.
    pub fn min_len(self, min_len: usize) -> (r: Self)
        ensures
            r.spec_min_len() == min_len,
            r.spec_strong() == self.spec_strong(),
    {
        Self { min_len, strong: self.strong }
    }

    /// Returns the policy with its strength tier replaced.
    pub fn strong(self, strong: PasswordStrength) -> (r: Self)
        ensures
            r.spec_min_len() == self.spec_min_len(),
            r.spec_strong() == strong,
    {
        Self { min_len: self.min_len, strong }
    }

    /// Checks a candidate against this policy: too short fails fast with the
    /// required minimum, then the entropy estimator decides. A success
    /// carries the estimator's score, which reached the demanded tier; a
    /// candidate the estimator scored below the tier is refused with the
    /// tier that was demanded. The estimator's own failures pass through:
    /// blank input (possible only when the policy's minimum length is zero)
    /// and its internal clock fault.
    pub fn check(&self, raw_password: &str) -> (r: Result<Entropy, PasswordError>)
        ensures
            r matches Ok(e) ==> {
                &&& raw_password@.len() >= self.spec_min_len()
                &&& e.spec_score() <= 4
                &&& e.spec_score() >= self.spec_strong().spec_score()
            },
            r == Err::<Entropy, PasswordError>(PasswordError::InvalidLength(self.reported_min_len()))
                <==> raw_password@.len() < self.spec_min_len(),
            r matches Err(e) ==> (e matches PasswordError::InvalidLength(m) ==> m
                == self.reported_min_len()),
            r matches Err(PasswordError::UnsafePassword(t)) ==> {
                &&& t == self.spec_strong()
                &&& raw_password@.len() >= self.spec_min_len()
            },
            r == Err::<Entropy, PasswordError>(PasswordError::BlankPassword) <==> (
            raw_password@.len() == 0 && self.spec_min_len() == 0),
            r == Err::<Entropy, PasswordError>(PasswordError::PasswordEntropy) ==> (
            raw_password@.len() >= self.spec_min_len() && raw_password@.len() > 0),
            r matches Err(e) ==> {
                ||| e matches PasswordError::InvalidLength(_)
                ||| e == PasswordError::BlankPassword
                ||| e == PasswordError::PasswordEntropy
                ||| e matches PasswordError::UnsafePassword(_)
            },
    {
        if raw_password.unicode_len() < self.min_len {
            let reported: u8 = (self.min_len % 256) as u8;
            return Err(PasswordError::InvalidLength(reported));
        }
        let score = match estimate_score(raw_password) {
            Ok(score) => score,
            Err(e) => {
                return Err(e);
            },
        };
        if score < self.strong.as_u8() {
            return Err(PasswordError::UnsafePassword(self.strong));
        }
        Ok(Entropy { score })
    }
}

impl Default for PasswordStrengthChecker {
    /// The default policy equals the freshly built one.
    fn default() -> (r: Self)
        ensures
            r.spec_min_len() == 8,
            r.spec_strong() == PasswordStrength::Default,
    {
        Self::new()
    }
}

} // verus!
