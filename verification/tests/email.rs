use email_pass::legacy;
use email_pass::Email;
use email_pass::EmailError;

#[test]
fn email_constructor_works() {
    let correct_email = legacy::email::Email::new("example@example.com");
    let incorrect_email = legacy::email::Email::new("example.com");
    assert!(correct_email.is_ok());
    assert!(incorrect_email.is_err());
}

#[test]
fn tests_email_constructor_works() {
    let correct_email = legacy::email::Email::new("example@example.com");
    let incorrect_email = legacy::email::Email::new("example.com");
    assert!(correct_email.is_ok());
    assert!(incorrect_email.is_err());
}

#[test]
fn typed_email_constructor_works() {
    let email = Email::build("john", "example.com").expect("Error creating a email");
    assert_eq!(email.username(), "john");
    assert_eq!(email.domain(), "example.com");

    let str_email = "john@example.com";
    let new_email = Email::from_str(str_email).expect("Error with string email");

    assert_eq!(&email, &new_email);
    assert_eq!(email.to_string().as_str(), str_email);
}

#[test]
fn email_round_trip() {
    let built = Email::build("example", "example.com").unwrap();
    let parsed = Email::from_str(built.to_string().as_str()).unwrap();
    assert_eq!(&built, &parsed);
    assert_eq!(parsed.username(), "example");
    assert_eq!(parsed.local(), "example");
    assert_eq!(parsed.domain(), "example.com");

    let full = Email::from_str("john.doe+tag@mail.example.org").unwrap();
    assert_eq!(full.username(), "john.doe+tag");
    assert_eq!(full.domain(), "mail.example.org");
}

#[test]
fn email_rejects_short_and_long() {
    assert_eq!(Email::build("a", "b"), Err(EmailError::Length));

    let long_username: String = "a".repeat(250);
    assert_eq!(
        Email::build(long_username.as_str(), "example.com"),
        Err(EmailError::Length)
    );
}

#[test]
fn email_length_boundaries() {
    // combined length exactly 254 still builds...
    let username: String = "a".repeat(243);
    let email = Email::build(username.as_str(), "example.com").unwrap();
    // ...but renders to 255 characters, which parsing rejects.
    let rendered = email.to_string();
    assert_eq!(rendered.len(), 255);
    assert_eq!(Email::from_str(rendered.as_str()), Err(EmailError::Length));

    // combined length 253 renders to 254 characters and round-trips.
    let username: String = "a".repeat(242);
    let email = Email::build(username.as_str(), "example.com").unwrap();
    let parsed = Email::from_str(email.to_string().as_str()).unwrap();
    assert_eq!(&email, &parsed);

    // a parsed address of full length 6 is accepted.
    assert!(Email::from_str("a@b.co").is_ok());
    assert_eq!(Email::from_str("a@b.c"), Err(EmailError::Length));
}

#[test]
fn email_error_variants() {
    assert_eq!(Email::build("jo hn", "example.com"), Err(EmailError::Username));
    assert_eq!(Email::build("", "example.com"), Err(EmailError::Username));
    assert_eq!(Email::build("john", "examplecom"), Err(EmailError::Domain));
    assert_eq!(Email::build("john", ".example.com"), Err(EmailError::Domain));
    assert_eq!(Email::build("john", "example."), Err(EmailError::Domain));
    assert_eq!(Email::from_str("example.com"), Err(EmailError::Format));
    assert_eq!(Email::from_str("jo hn@example.com"), Err(EmailError::Format));
    assert_eq!(legacy::email::Email::new("bad"), Err(EmailError::Length));
    assert_eq!(
        legacy::email::Email::new("no.separator.example.com"),
        Err(EmailError::Format)
    );
}

#[test]
fn email_mutators_revalidate() {
    let mut email = Email::build("john", "example.com").unwrap();

    assert_eq!(email.set_username("jo hn"), Err(EmailError::Username));
    assert_eq!(email.username(), "john");

    let long_username: String = "a".repeat(250);
    assert_eq!(email.set_username(long_username.as_str()), Err(EmailError::Length));
    assert_eq!(email.username(), "john");

    assert!(email.set_username("jane_doe+tag").is_ok());
    assert_eq!(email.username(), "jane_doe+tag");

    assert_eq!(email.set_domain("nodot"), Err(EmailError::Domain));
    assert_eq!(email.domain(), "example.com");

    assert!(email.set_domain("mail.example.org").is_ok());
    assert_eq!(email.domain(), "mail.example.org");

    // shrinking a part below the combined minimum is refused
    let mut small = Email::build("abc", "d.e").unwrap();
    assert_eq!(small.set_username("a"), Err(EmailError::Length));
    assert_eq!(small.username(), "abc");
}

#[test]
fn legacy_email_accessor_works() {
    let email = legacy::email::Email::new("example@example.com").unwrap();
    assert_eq!(email.as_str(), "example@example.com");
    assert_eq!(email.clone().as_str(), "example@example.com");
}
