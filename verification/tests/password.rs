use bcrypt::DEFAULT_COST;

use email_pass::legacy;
use email_pass::Password;

const SECURE_PASSWORD_VALUE: &str = "ThisIsAPassPhrase.And.Secure.Password";

#[test]
fn legacy_password_constructor_works() {
    let unsafe_password = legacy::password::Password::new("01234".to_string());
    let safe_password = legacy::password::Password::new(SECURE_PASSWORD_VALUE.to_string());

    assert!(unsafe_password.is_err());
    assert!(safe_password.is_ok());
}

#[test]
fn tests_legacy_password_constructor_works() {
    let unsafe_password = legacy::password::Password::new("01234".to_string());
    let safe_password = legacy::password::Password::new(SECURE_PASSWORD_VALUE.to_string());

    assert!(unsafe_password.is_err());
    assert!(safe_password.is_ok());
}

#[test]
fn legacy_password_safe_debug_works() {
    let safe_password = legacy::password::Password::from_raw(SECURE_PASSWORD_VALUE.to_string());
    let str_password = safe_password.debug_string();
    assert!(!str_password.contains("ThisIs"))
}

#[test]
fn tests_legacy_password_safe_debug_works() {
    let safe_password = legacy::password::Password::from_raw(SECURE_PASSWORD_VALUE.to_string());
    let str_password = safe_password.debug_string();
    assert!(!str_password.contains("ThisIs"))
}

#[test]
fn safe_password_works() {
    let encrypt_password = Password::new(SECURE_PASSWORD_VALUE)
        .check()
        .expect("error with password strength")
        .to_encrypt(DEFAULT_COST)
        .expect("error encrypting password");

    let password = Password::from_encrypt(encrypt_password.as_str());
    assert!(password.is_ok());
    println!("{}", password.unwrap().as_str());
}

#[test]
fn tests_safe_password_works() {
    let encrypt_password = Password::new(SECURE_PASSWORD_VALUE)
        .check()
        .expect("error with password strength")
        .to_encrypt(DEFAULT_COST)
        .expect("error encrypting password");

    let password = Password::from_encrypt(encrypt_password.as_str());
    assert!(password.is_ok());
    println!("{}", password.unwrap().as_str());
}

#[test]
fn safe_password_constructor_works() {
    let password = Password::from_encrypt(SECURE_PASSWORD_VALUE);
    assert!(password.is_err())
}

#[test]
fn tests_safe_password_constructor_works() {
    let password = Password::from_encrypt(SECURE_PASSWORD_VALUE);
    assert!(password.is_err())
}

#[test]
fn password_hash_works() {
    let raw_password = Password::from_raw(SECURE_PASSWORD_VALUE);
    let encrypt_password = raw_password
        .clone()
        .check()
        .unwrap()
        .to_encrypt(DEFAULT_COST)
        .unwrap();
    assert!(encrypt_password.verify(&raw_password).unwrap())
}

#[test]
fn tests_password_hash_works() {
    let raw_password = Password::from_raw(SECURE_PASSWORD_VALUE);
    let encrypt_password = raw_password
        .clone()
        .check()
        .unwrap()
        .to_encrypt(DEFAULT_COST)
        .unwrap();
    assert!(encrypt_password.verify(&raw_password).unwrap())
}
