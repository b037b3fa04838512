//! Tests of tokens, hashing, validation and the auth decisions.

use flex_forum::ctx::Ctx;
use flex_forum::errors::RouteError;
use flex_forum::hash_scheme::HashScheme;
use flex_forum::hashers::{Argon2V02, Hasher};
use flex_forum::jwt::JWT;
use flex_forum::middleware::auth_mw::{resolve_ctx, should_remove_cookie, AUTH_TOKEN};
use flex_forum::routes::auth_route::{
    build_create_user, check_credentials, normalize_sign_up, validate_login, validate_sign_up,
    HashModel, LoginModel, SignUpModel,
};
use flex_forum::services::auth::check_username;
use flex_forum::services::hash_services;

fn sign_up_body() -> SignUpModel {
    SignUpModel {
        username: "Fit_Person".to_string(),
        email: "fit@example.com".to_string(),
        first_name: "Fit".to_string(),
        last_name: "Person".to_string(),
        password: "a-long-password".to_string(),
    }
}

#[test]
fn sign_up_validation_accepts_and_rejects() {
    assert!(validate_sign_up(&sign_up_body()).is_ok());
    let mut bad = sign_up_body();
    bad.email = "not-an-email".to_string();
    assert!(matches!(
        validate_sign_up(&bad),
        Err(RouteError::Validation(_))
    ));
    let mut bad = sign_up_body();
    bad.username = String::new();
    assert!(validate_sign_up(&bad).is_err());
    let mut bad = sign_up_body();
    bad.password = "x".repeat(65);
    assert!(validate_sign_up(&bad).is_err());
}

#[test]
fn sign_up_normalization_lowercases_and_trims() {
    let mut body = sign_up_body();
    body.username = "  Fit_Person ".to_string();
    body.password = " secret ".to_string();
    let n = normalize_sign_up(body);
    assert_eq!(n.username, "fit_person");
    assert_eq!(n.password, "secret");
    assert_eq!(n.email, "fit@example.com");
}

#[test]
fn create_user_model_carries_all_fields() {
    let m = build_create_user(
        sign_up_body(),
        "hash".to_string(),
        "salt".to_string(),
        HashScheme::Argon2V01,
    );
    assert_eq!(m.username, "Fit_Person");
    assert_eq!(m.email, "fit@example.com");
    assert_eq!(m.pwd_hash, "hash");
    assert_eq!(m.pwd_salt, "salt");
    assert_eq!(m.hash_scheme, HashScheme::Argon2V01);
}

#[test]
fn login_validation_bounds() {
    let good = LoginModel {
        username: "someuser".to_string(),
        password: "longenough".to_string(),
    };
    assert!(validate_login(&good).is_ok());
    let short = LoginModel {
        username: "abc".to_string(),
        password: "longenough".to_string(),
    };
    assert!(validate_login(&short).is_err());
    let weak = LoginModel {
        username: "someuser".to_string(),
        password: "short".to_string(),
    };
    assert!(validate_login(&weak).is_err());
}

#[test]
fn service_hash_round_trip() {
    let (hash, salt) = hash_services::hash("swordfish", &HashScheme::Argon2V01).expect("hashing");
    assert_eq!(hash_services::verify("swordfish", &salt, &hash), Ok(true));
    assert_eq!(hash_services::verify("wrong", &salt, &hash), Ok(false));
    assert!(hash_services::verify("swordfish", &salt, "garbage").is_err());
}

#[test]
fn hash_with_salt_is_deterministic() {
    let (_, salt) = hash_services::hash("pw", &HashScheme::Argon2V01).expect("hashing");
    let h1 = hash_services::hash_with_salt("pw", &salt, &HashScheme::Argon2V01).expect("hash");
    let h2 = hash_services::hash_with_salt("pw", &salt, &HashScheme::Argon2V01).expect("hash");
    assert_eq!(h1, h2);
}

#[test]
fn scheme_credentials_check() {
    let hasher = Argon2V02;
    let (hash, salt) = hasher.hash("open sesame").expect("hashing");
    let stored = HashModel {
        username: "ali".to_string(),
        hash_scheme: HashScheme::Argon2V02,
        pwd_hash: hash,
        pwd_salt: salt,
    };
    assert!(check_credentials(&stored, "open sesame").is_ok());
    assert_eq!(
        check_credentials(&stored, "open says me"),
        Err(RouteError::InvalidAuth)
    );
}

#[test]
fn jwt_round_trip() {
    let hasher = Argon2V02;
    let now = 1_700_000_000i64;
    let jwt = JWT::new_at("casey".to_string(), "abcdefghijklmnop", &hasher, now)
        .expect("signable");
    assert_eq!(jwt.username(), "casey");
    assert_eq!(jwt.expires(), now + 3600);
    let wire = jwt.to_string();
    let parsed = JWT::parse_token(wire).expect("well-formed token");
    assert_eq!(parsed.username(), "casey");
    assert_eq!(parsed.expires(), now + 3600);
    assert_eq!(parsed.signature(), jwt.signature());
}

#[test]
fn jwt_validation_decides_by_time_and_signature() {
    let hasher = Argon2V02;
    let salt = "abcdefghijklmnop";
    let now = 1_700_000_000i64;
    let jwt = JWT::new_at("casey".to_string(), salt, &hasher, now).expect("signable");
    assert!(jwt.validate_token_at(salt, &hasher, now + 10).is_ok());
    assert_eq!(
        jwt.validate_token_at(salt, &hasher, now + 3600),
        Err(RouteError::ExpiredAuthToken)
    );
    // a token signed for another name fails verification
    let other = JWT::new_at("kasey".to_string(), salt, &hasher, now).expect("signable");
    let mut wire = other.to_string();
    wire.replace_range(0..5, "casey"); // lie about the username
    let forged = JWT::parse_token(wire).expect("parses");
    assert_eq!(
        forged.validate_token_at(salt, &hasher, now + 10),
        Err(RouteError::InvalidAuth)
    );
}

#[test]
fn token_parsing_rejects_malformed_text() {
    assert!(matches!(
        JWT::parse_token("no-dots-here".to_string()),
        Err(RouteError::InvalidAuth)
    ));
    assert!(matches!(
        JWT::parse_token("one.dot".to_string()),
        Err(RouteError::InvalidAuth)
    ));
    assert!(matches!(
        JWT::parse_token("user.not-a-date.sig".to_string()),
        Err(RouteError::ChronoParseError)
    ));
}

#[test]
fn context_resolution() {
    assert_eq!(AUTH_TOKEN, "auth_token");
    let missing = resolve_ctx(None);
    assert!(matches!(missing, Err(RouteError::MissingAuthCookie)));
    assert!(!should_remove_cookie(&missing));
    let invalid = resolve_ctx(Some("garbage".to_string()));
    assert!(matches!(invalid, Err(RouteError::InvalidAuth)));
    assert!(should_remove_cookie(&invalid));
    let hasher = Argon2V02;
    let jwt = JWT::new_at("dana".to_string(), "abcdefghijklmnop", &hasher, 1_700_000_000)
        .expect("signable");
    let ctx = resolve_ctx(Some(jwt.to_string())).expect("resolves");
    assert_eq!(ctx.jwt().username(), "dana");
    assert!(!should_remove_cookie(&Ok::<Ctx, RouteError>(ctx)));
}

#[test]
fn username_check_guards_other_accounts() {
    let hasher = Argon2V02;
    let jwt = JWT::new_at("erin".to_string(), "abcdefghijklmnop", &hasher, 1_700_000_000)
        .expect("signable");
    assert!(check_username("erin", &jwt).is_ok());
    assert_eq!(
        check_username("frank", &jwt),
        Err(RouteError::Unauthorized)
    );
}
