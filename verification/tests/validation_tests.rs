use rs_gate_server::user::{Date, Gender, LoginParams, UserParams};
use rs_gate_server::errors::ApiError;
use rs_gate_server::validation::{login_violations, user_violations, validation_refusal, Field};

fn login(account: &str, password: &str) -> LoginParams {
    LoginParams { account: account.to_string(), password: password.to_string() }
}

fn user(name: &str, account: &str, password: &str) -> UserParams {
    UserParams {
        name: name.to_string(),
        gender: Gender::Female,
        account: account.to_string(),
        password: password.to_string(),
        mobile_phone: "13800000000".to_string(),
        birthday: Date { year: 2000, month: 1, day: 1 },
        enabled: false,
    }
}

#[test]
fn good_login_body_passes() {
    assert!(login_violations(&login("abc", "123456")).is_empty());
    assert!(login_violations(&login("abcdefghijklmnop", "1234567890123456")).is_empty());
}

#[test]
fn login_lengths_are_checked() {
    let v = login_violations(&login("ab", "12345"));
    assert_eq!(v.len(), 2);
    assert_eq!(v[0].field, Field::Account);
    assert_eq!(v[0].message, "Account length must be between 3 and 16 characters");
    assert_eq!(v[1].field, Field::Password);
    assert_eq!(v[1].message, "Password length must be between 6 and 16 characters");
    let long = login_violations(&login("abcdefghijklmnopq", "123456"));
    assert_eq!(long.len(), 1);
    assert_eq!(long[0].field, Field::Account);
}

#[test]
fn lengths_count_characters_not_bytes() {
    // Three characters, nine bytes.
    assert!(login_violations(&login("\u{4e2d}\u{6587}\u{540d}", "\u{5bc6}\u{7801}\u{5bc6}\u{7801}\u{5bc6}\u{7801}")).is_empty());
    let v = login_violations(&login("\u{4e2d}\u{6587}", "123456"));
    assert_eq!(v.len(), 1);
}

#[test]
fn user_body_rules() {
    assert!(user_violations(&user("Bob", "bob", "")).is_empty());
    let v = user_violations(&user("", "", "12345678901234567"));
    assert_eq!(v.len(), 3);
    assert_eq!(v[0].field, Field::Name);
    assert_eq!(v[0].message, "Name length must be between 1 and 16");
    assert_eq!(v[1].field, Field::Account);
    assert_eq!(v[1].message, "Account length must be between 1 and 16");
    assert_eq!(v[2].field, Field::Password);
    assert_eq!(v[2].message, "Password length must be between 6 and 16");
    assert!(user_violations(&user("Bob", "bob", "123")).is_empty());
}

#[test]
fn field_names() {
    assert_eq!(Field::Name.name(), "name");
    assert_eq!(Field::Account.name(), "account");
    assert_eq!(Field::Password.name(), "password");
}

#[test]
fn refusal_text_for_one_field() {
    assert!(validation_refusal(login_violations(&login("abc", "123456"))).is_none());
    match validation_refusal(login_violations(&login("ab", "123456"))) {
        Some(ApiError::Validation(m)) => {
            assert_eq!(m, "account: Account length must be between 3 and 16 characters")
        }
        other => panic!("unexpected {:?}", other),
    }
}

#[test]
fn refusal_text_for_two_fields() {
    match validation_refusal(login_violations(&login("ab", "12345"))) {
        Some(ApiError::Validation(m)) => {
            let mut lines: Vec<&str> = m.lines().collect();
            lines.sort();
            assert_eq!(
                lines,
                vec![
                    "account: Account length must be between 3 and 16 characters",
                    "password: Password length must be between 6 and 16 characters"
                ]
            );
        }
        other => panic!("unexpected {:?}", other),
    }
}

#[test]
fn refusal_text_for_three_fields() {
    match validation_refusal(user_violations(&user("", "", "12345678901234567"))) {
        Some(ApiError::Validation(m)) => {
            assert_eq!(m.matches('\n').count(), 2);
            let mut lines: Vec<&str> = m.split('\n').collect();
            lines.sort();
            assert_eq!(
                lines,
                vec![
                    "account: Account length must be between 1 and 16",
                    "name: Name length must be between 1 and 16",
                    "password: Password length must be between 6 and 16"
                ]
            );
        }
        other => panic!("unexpected {:?}", other),
    }
}
