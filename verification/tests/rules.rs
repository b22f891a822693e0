use naro_back::config::{get_options, parse_port};
use naro_back::error::{AppError, BAD_REQUEST, INTERNAL_SERVER_ERROR};
use naro_back::password::{hash_password, verify_password};
use naro_back::session::{new_login_session, session_cookie, session_user};
use naro_back::validation::{
    is_valid_password, rejection_text, FieldErrors, SignInUserRequest, SignUpUserRequest,
    Validate, ValidatedJson, ValidationError, ValidationErrors,
};
use naro_back::model::new_user;

fn s(x: &str) -> String {
    x.to_string()
}

#[test]
fn port_plain_number() {
    assert_eq!(parse_port("3306"), Some(3306));
    assert_eq!(parse_port("0"), Some(0));
    assert_eq!(parse_port("65535"), Some(65535));
    assert_eq!(parse_port("0008080"), Some(8080));
}

#[test]
fn port_with_plus_sign() {
    assert_eq!(parse_port("+80"), Some(80));
    assert_eq!(parse_port("+"), None);
    assert_eq!(parse_port("++80"), None);
}

#[test]
fn port_refused_texts() {
    assert_eq!(parse_port(""), None);
    assert_eq!(parse_port("65536"), None);
    assert_eq!(parse_port("99999999999"), None);
    assert_eq!(parse_port("-1"), None);
    assert_eq!(parse_port(" 80"), None);
    assert_eq!(parse_port("80a"), None);
    assert_eq!(parse_port("８０"), None);
}

#[test]
fn port_parse_agrees_with_std() {
    for text in ["1", "+1", "65535", "65536", "", "+", "-0", "00", "12x", "4294967296"] {
        assert_eq!(parse_port(text), text.parse::<u16>().ok(), "{text}");
    }
}

#[test]
fn options_defaults() {
    let c = get_options(None, None, None, None, None).ok().unwrap();
    assert_eq!(c.hostname, "localhost");
    assert_eq!(c.port, 3306);
    assert_eq!(c.username, "root");
    assert_eq!(c.password, "password");
    assert_eq!(c.database, "world");
}

#[test]
fn options_given_values() {
    let c = get_options(Some(s("db")), Some(s("3307")), Some(s("u")), Some(s("p")), Some(s("w")))
        .ok()
        .unwrap();
    assert_eq!(c.hostname, "db");
    assert_eq!(c.port, 3307);
    assert_eq!(c.username, "u");
    assert_eq!(c.password, "p");
    assert_eq!(c.database, "w");
}

#[test]
fn options_bad_port() {
    let e = get_options(None, Some(s("port")), None, None, None).err().unwrap();
    assert_eq!(e, "DB_PORT must be a number");
}

#[test]
fn password_rule_accepts_good_password() {
    assert!(is_valid_password("Passw0rd").is_ok());
    assert!(is_valid_password("aB3aaaaaaaaa").is_ok());
}

#[test]
fn password_rule_refusals() {
    let e = is_valid_password("Pass0rd").err().unwrap();
    assert_eq!(e.code, "");
    assert!(e.message.is_none());
    assert!(is_valid_password("password0").is_err());
    assert!(is_valid_password("PASSWORD0").is_err());
    assert!(is_valid_password("Password").is_err());
    assert!(is_valid_password("").is_err());
}

#[test]
fn password_rule_counts_bytes_and_unicode_digits() {
    // 7 characters, 8 bytes: long enough.
    assert!(is_valid_password("Aa1aaaé").is_ok());
    // An Arabic-Indic digit is numeric.
    assert!(is_valid_password("Aaaaaaa٣").is_ok());
}

fn sign_up(d: &str, u: &str, p: &str) -> SignUpUserRequest {
    SignUpUserRequest { display_id: s(d), username: s(u), password: s(p) }
}

#[test]
fn sign_up_form_rules() {
    assert!(sign_up("alice", "Alice", "Passw0rd").validate().is_ok());
    let e = sign_up("", "", "bad").validate().err().unwrap();
    assert_eq!(e.fields.len(), 3);
    assert_eq!(e.fields[0].field, "display_id");
    assert_eq!(e.fields[0].errors[0].code, "length");
    assert_eq!(e.fields[0].errors[0].message.as_deref(), Some("Display ID is empty"));
    assert_eq!(e.fields[1].field, "username");
    assert_eq!(e.fields[1].errors[0].message.as_deref(), Some("Username is empty"));
    assert_eq!(e.fields[2].field, "password");
    assert_eq!(e.fields[2].errors[0].code, "");
    assert_eq!(e.fields[2].errors[0].message.as_deref(), Some("Password is invalid"));
}

#[test]
fn sign_in_form_rules() {
    let ok = SignInUserRequest { display_id: s("a"), password: s("x") };
    assert!(ok.validate().is_ok());
    let bad = SignInUserRequest { display_id: s("a"), password: s("") };
    let e = bad.validate().err().unwrap();
    assert_eq!(e.fields.len(), 1);
    assert_eq!(e.fields[0].field, "password");
    assert_eq!(e.fields[0].errors[0].message.as_deref(), Some("Password is empty"));
}

#[test]
fn rejection_takes_first_message() {
    let errors = ValidationErrors {
        fields: vec![
            FieldErrors {
                field: s("a"),
                errors: vec![ValidationError { code: s("x"), message: None }],
            },
            FieldErrors {
                field: s("b"),
                errors: vec![
                    ValidationError { code: s("y"), message: None },
                    ValidationError { code: s("z"), message: Some(s("second")) },
                    ValidationError { code: s("w"), message: Some(s("third")) },
                ],
            },
        ],
    };
    assert_eq!(rejection_text(&errors), "second");
    let none = ValidationErrors {
        fields: vec![FieldErrors {
            field: s("a"),
            errors: vec![ValidationError { code: s("x"), message: None }],
        }],
    };
    assert_eq!(rejection_text(&none), "");
    assert_eq!(rejection_text(&ValidationErrors { fields: vec![] }), "");
}

#[test]
fn validated_json_outcomes() {
    let e = ValidatedJson::<SignUpUserRequest>::from_json(None).err().unwrap();
    assert_eq!(e.status, BAD_REQUEST);
    assert_eq!(e.response, "Bad Request");
    let e = ValidatedJson::from_json(Some(sign_up("alice", "", "Passw0rd"))).err().unwrap();
    assert_eq!(e.status, 400);
    assert_eq!(e.response, "Username is empty");
    let ok = ValidatedJson::from_json(Some(sign_up("alice", "Alice", "Passw0rd"))).ok().unwrap();
    assert_eq!(ok.0.display_id, "alice");
}

#[test]
fn app_error_from_message() {
    let e: AppError = AppError::from(s("boom"));
    assert_eq!(e.status, INTERNAL_SERVER_ERROR);
    assert_eq!(e.response, "boom");
    let e = AppError::new(404, "city does not exist");
    assert_eq!(e.status, 404);
    assert_eq!(e.response, "city does not exist");
}

#[test]
fn app_error_body_is_json() {
    let e = AppError::new(400, "say \"hi\"");
    assert_eq!(e.body(), "{\"error\":\"say \\\"hi\\\"\"}");
    let v: serde_json::Value = serde_json::from_str(&e.body()).unwrap();
    assert_eq!(v["error"], "say \"hi\"");
}

#[test]
fn cookie_text() {
    assert_eq!(session_cookie("abc"), "session_id=abc; HttpOnly; SameSite=Strict");
}

#[test]
fn login_session_names_user() {
    let session = new_login_session(s("user-1")).ok().unwrap();
    assert_eq!(session_user(&session), Some(s("user-1")));
    let raw: Option<String> = session.get_raw("user");
    assert_eq!(raw, Some(s("\"user-1\"")));
}

#[test]
fn session_without_user() {
    let session = async_session::Session::new();
    assert_eq!(session_user(&session), None);
    let mut other = async_session::Session::new();
    other.insert_raw("user", s("not json"));
    assert_eq!(session_user(&other), None);
}

#[test]
fn password_hash_round_trip() {
    let h = hash_password("Passw0rd", 4).ok().unwrap();
    assert!(h.starts_with("$2b$04$"));
    assert_eq!(verify_password("Passw0rd", &h).ok(), Some(true));
    assert_eq!(verify_password("Passw0rx", &h).ok(), Some(false));
    assert!(verify_password("Passw0rd", "not a hash").is_err());
}

#[test]
fn password_hash_bad_cost() {
    assert!(hash_password("Passw0rd", 3).is_err());
    assert!(hash_password("Passw0rd", 32).is_err());
}

#[test]
fn new_user_has_uuid() {
    let u = new_user(s("alice"), s("Alice"));
    assert_eq!(u.display_id, "alice");
    assert_eq!(u.username, "Alice");
    assert_eq!(u.id.len(), 36);
    assert_eq!(u.id.as_bytes()[14], b'4');
    assert!(uuid::Uuid::parse_str(&u.id).is_ok());
    assert_ne!(new_user(s("a"), s("b")).id, u.id);
}

#[test]
fn password_hash_shape_at_cost() {
    let h = hash_password("Passw0rd", 5).ok().unwrap();
    assert_eq!(h.len(), 60);
    assert!(h.starts_with("$2b$05$"));
    assert!(h[7..]
        .chars()
        .all(|c| c == '.' || c == '/' || c.is_ascii_alphanumeric()));
    assert_ne!(h, "Passw0rd");
}

#[test]
fn password_rule_monotone_examples() {
    assert!(is_valid_password("Abcdefg1").is_ok());
    assert!(is_valid_password("Abcdefgh").is_err());
    assert!(is_valid_password("abcdefg1").is_err());
    assert!(is_valid_password("ABCDEFG1").is_err());
    assert!(is_valid_password("Abcdef1").is_err());
    assert!(is_valid_password("Ab1ééé").is_ok());
    for extra in ["", "x", "   ", "é藏"] {
        assert!(is_valid_password(&format!("Abcdefg1{extra}")).is_ok());
        assert!(is_valid_password(&format!("{extra}Abcdefg1")).is_ok());
    }
}

#[test]
fn app_error_from_str() {
    let e: AppError = AppError::from("boom");
    assert_eq!(e.status, INTERNAL_SERVER_ERROR);
    assert_eq!(e.response, "boom");
}
