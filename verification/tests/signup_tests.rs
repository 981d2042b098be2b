use xcode_build::signup::{signup_outcome, user_lookup, AuthError, Email, Signup, Username, ValidationError};

#[test]
fn valid_signup() {
    let s = Signup::new("ada".to_string(), "secret".to_string(), "ada@example.org".to_string()).unwrap();
    assert_eq!(s.username.as_str(), "ada");
    assert_eq!(s.password.as_str(), "secret");
    assert_eq!(s.email.as_str(), "ada@example.org");
}

#[test]
fn first_refused_field_is_reported() {
    let e = |u: &str, p: &str, m: &str| Signup::new(u.to_string(), p.to_string(), m.to_string()).err();
    assert_eq!(e("", "", "nope"), Some(ValidationError::Username));
    assert_eq!(e("ada", "", "nope"), Some(ValidationError::Password));
    assert_eq!(e("ada", "pw", "nope"), Some(ValidationError::Email));
}

#[test]
fn fields_alone() {
    assert!(Username::try_new("x".to_string()).is_ok());
    assert_eq!(Email::try_new("@".to_string()).unwrap().as_str(), "@");
    assert!(Email::try_new(String::new()).is_err());
}

#[test]
fn signup_needs_the_new_user() {
    assert_eq!(signup_outcome(Some(5)).unwrap(), 5);
    match signup_outcome::<u8>(None) {
        Err(AuthError::InternalInvariantBroken(m)) => assert_eq!(m, "Couldn't find user after signup"),
        Ok(_) => panic!("a missing user must be an error"),
    }
}

#[test]
fn lookup_of_the_new_user() {
    let s = Signup::new("ada".to_string(), "secret".to_string(), "ada@example.org".to_string()).unwrap();
    let lookup = user_lookup(&s, "users");
    assert_eq!(lookup.query, "SELECT * FROM type::table($table) WHERE email = $email");
    assert_eq!(
        lookup.bindings,
        vec![("email".to_string(), "ada@example.org".to_string()), ("table".to_string(), "users".to_string())]
    );
}
