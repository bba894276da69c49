use email_pass::legacy;
use email_pass::Password;
use email_pass::PasswordError;
use email_pass::PasswordStrength;
use email_pass::PasswordStrengthChecker;

const SECURE_PASSWORD_VALUE: &str = "ThisIsAPassPhrase.And.Secure.Password";

#[test]
fn password_state_gating() {
    let too_short = Password::new("01234").check();
    assert_eq!(too_short.err().unwrap(), PasswordError::InvalidLength(8));

    let strong_enough = Password::new(SECURE_PASSWORD_VALUE).check();
    assert!(strong_enough.is_ok());
}

#[test]
fn encrypt_verify_round_trip() {
    let raw = Password::new(SECURE_PASSWORD_VALUE);
    let encrypted = raw.clone().check().unwrap().to_encrypt(4).unwrap();
    assert_eq!(encrypted.verify(&raw).unwrap(), true);

    // a different raw password is a plain false, not an error
    let other = Password::new("a.completely.different.passphrase");
    assert_eq!(encrypted.verify(&other).unwrap(), false);
    assert_eq!(encrypted.verify_from_raw(SECURE_PASSWORD_VALUE).unwrap(), true);
    assert_eq!(encrypted.verify_from_raw("not.the.password").unwrap(), false);
}

#[test]
fn encrypt_default_cost_round_trip() {
    let encrypted = Password::new(SECURE_PASSWORD_VALUE)
        .to_encrypt_default()
        .unwrap();
    assert!(encrypted.as_str().starts_with("$2b$12$"));
    assert_eq!(encrypted.verify_from_raw(SECURE_PASSWORD_VALUE).unwrap(), true);
}

#[test]
fn encrypt_rejects_bad_cost() {
    assert!(Password::new(SECURE_PASSWORD_VALUE).to_encrypt(3).is_err());
    assert!(Password::new(SECURE_PASSWORD_VALUE).to_encrypt(99).is_err());
    assert!(Password::new(SECURE_PASSWORD_VALUE)
        .to_encrypt_with_cost(4)
        .is_ok());
}

#[test]
fn from_encrypt_validates_shape() {
    // plain text has no $..$..$ shape
    assert_eq!(
        Password::from_encrypt("ThisIsAPassPhrase.And.Secure.Password").err().unwrap(),
        PasswordError::PasswordNotEncrypted
    );
    // real oracle output is accepted
    let encrypted = Password::new(SECURE_PASSWORD_VALUE).to_encrypt(4).unwrap();
    let reloaded = Password::from_encrypt(encrypted.as_str()).unwrap();
    assert_eq!(reloaded.as_str(), encrypted.as_str());
    // the shape check alone decides: a structurally valid text is accepted
    assert!(Password::from_encrypt("$2b$04$abcdefghijk").is_ok());
    // a dollar-less prefix, an empty field, or an upper-case field is not
    assert!(Password::from_encrypt("x$2b$04$abc").is_err());
    assert!(Password::from_encrypt("$$04$abc").is_err());
    assert!(Password::from_encrypt("$2B$04$abc").is_err());
}

#[test]
fn debug_rendering_hides_plaintext() {
    let encrypted = Password::new(SECURE_PASSWORD_VALUE)
        .check()
        .unwrap()
        .to_encrypt(4)
        .unwrap();
    assert!(!encrypted.debug_string().contains("ThisIs"));
    assert!(!encrypted.as_str().contains("ThisIs"));
    assert!(encrypted.debug_string().starts_with("Password(\"$2b$04$"));

    let legacy_password = legacy::password::Password::from_raw(SECURE_PASSWORD_VALUE.to_string());
    assert_eq!(legacy_password.debug_string(), "Password(\"\")");
}

#[test]
fn strength_policy_scenarios() {
    let hard_checker = PasswordStrengthChecker::new()
        .min_len(20)
        .strong(PasswordStrength::Hard);
    assert!(hard_checker.check("my.passphrase.0-9").is_err());
    let password_err = Password::new("my.passphrase.0-9").custom_check(hard_checker);
    assert!(password_err.is_err());

    let low_checker = PasswordStrengthChecker::new()
        .min_len(8)
        .strong(PasswordStrength::Low);
    assert!(low_checker.check("1234567azhc").is_ok());
    let raw_password = Password::new("1234567azhc").custom_check(low_checker);
    assert!(raw_password.is_ok());
}

#[test]
fn strength_policy_reports() {
    // the length gate reports the policy's own minimum
    let checker = PasswordStrengthChecker::new().min_len(20);
    assert_eq!(
        checker.check("short").err().unwrap(),
        PasswordError::InvalidLength(20)
    );
    // the tier gate reports the demanded tier
    let hard = PasswordStrengthChecker::new().strong(PasswordStrength::Hard);
    assert_eq!(
        hard.check("password12345678").err().unwrap(),
        PasswordError::UnsafePassword(PasswordStrength::Hard)
    );
    // a blank candidate can reach the estimator only with a zero minimum
    let lax = PasswordStrengthChecker::new().min_len(0);
    assert_eq!(lax.check("").err().unwrap(), PasswordError::BlankPassword);
    // a success carries the estimator's score, at or above the tier
    let entropy = PasswordStrengthChecker::new().check(SECURE_PASSWORD_VALUE).unwrap();
    assert!(entropy.score() >= 3);
    assert!(entropy.score() <= 4);
}

#[test]
fn strength_tier_thresholds() {
    assert_eq!(PasswordStrength::Low.as_u8(), 2);
    assert_eq!(PasswordStrength::Default.as_u8(), 3);
    assert_eq!(PasswordStrength::Hard.as_u8(), 4);
    assert_eq!(PasswordStrengthChecker::default().check("0123").err().unwrap(),
        PasswordError::InvalidLength(8));
}

#[test]
fn legacy_password_accessors() {
    let encrypted = legacy::password::Password::new(SECURE_PASSWORD_VALUE.to_string()).unwrap();
    let hash_text = encrypted.try_to_string().unwrap();
    assert!(hash_text.starts_with("$2b$13$"));
    assert_eq!(encrypted.try_to_str().unwrap(), &hash_text);
    assert_eq!(encrypted.maybe_string().unwrap(), hash_text);
    assert!(encrypted.debug_string().contains(hash_text.as_str()));

    let raw_only = legacy::password::Password::from_raw("0123456789".to_string());
    assert_eq!(raw_only.maybe_string(), None);
    assert_eq!(
        raw_only.try_to_string().err().unwrap(),
        PasswordError::PasswordNotEncrypted
    );
    assert_eq!(
        raw_only.try_to_str().err().unwrap(),
        PasswordError::PasswordNotEncrypted
    );
}

#[test]
fn legacy_password_check_paths() {
    let encrypted = legacy::password::Password::new(SECURE_PASSWORD_VALUE.to_string()).unwrap();
    assert!(encrypted.check(SECURE_PASSWORD_VALUE.to_string()).is_ok());
    assert_eq!(
        encrypted.check("wrong.candidate.text".to_string()).err().unwrap(),
        PasswordError::WrongPassword
    );

    let raw_only = legacy::password::Password::from_raw(SECURE_PASSWORD_VALUE.to_string());
    assert_eq!(
        raw_only.check(SECURE_PASSWORD_VALUE.to_string()).err().unwrap(),
        PasswordError::PasswordNotEncrypted
    );

    let garbage = legacy::password::Password::from_encrypt("not a real hash".to_string());
    assert_eq!(
        garbage.check(SECURE_PASSWORD_VALUE.to_string()).err().unwrap(),
        PasswordError::PasswordVerification
    );
}

#[test]
fn legacy_password_error_variants() {
    assert_eq!(
        legacy::password::Password::new("0123456".to_string()).err().unwrap(),
        PasswordError::InvalidLength(8)
    );
    assert_eq!(
        legacy::password::Password::new("password12345678".to_string()).err().unwrap(),
        PasswordError::NotEnoughStrongPassword
    );
}

#[test]
fn legacy_password_clone_works() {
    let encrypted = legacy::password::Password::new(SECURE_PASSWORD_VALUE.to_string()).unwrap();
    let cloned = encrypted.clone();
    assert_eq!(cloned.try_to_string().unwrap(), encrypted.try_to_string().unwrap());
    assert!(cloned == encrypted);
}
