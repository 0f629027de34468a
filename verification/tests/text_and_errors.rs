use devtester::auth::{
    authenticated_user, bearer_credential, token, token_claims, TOKEN_LIFETIME_SECONDS,
};
use devtester::error::{map_db, AppError, DbFailure};
use devtester::password::{hash_password, hash_password_with_salt, verify_password};
use devtester::text::{contains_char, has_prefix, normalize_email, trim, white_space};

#[test]
fn white_space_agrees_with_std() {
    for code in 0u32..=0x10ffff {
        if let Some(c) = char::from_u32(code) {
            assert_eq!(white_space(c), c.is_whitespace(), "at {:#x}", code);
        }
    }
}

#[test]
fn trim_agrees_with_std() {
    let samples = [
        "",
        "   ",
        "abc",
        "  abc  ",
        "\u{3000}x y\u{2029}",
        "\u{85}\u{a0}é\t",
        "\n\n a b \r\n",
        "no\u{200b}trim\u{200b}",
    ];
    for s in samples {
        assert_eq!(trim(s), s.trim(), "on {:?}", s);
    }
}

#[test]
fn prefix_and_contains() {
    assert!(has_prefix("https://x", "https://"));
    assert!(!has_prefix("http:/", "http://"));
    assert!(has_prefix("abc", ""));
    assert!(contains_char("a@b", '@'));
    assert!(!contains_char("ab", '@'));
}

#[test]
fn emails_are_trimmed_and_lowercased() {
    assert_eq!(normalize_email("  Tester@Example.COM \n"), "tester@example.com");
    assert_eq!(normalize_email("ÄB@X"), "äb@x");
}

#[test]
fn errors_answer_with_status_and_public_message() {
    let cases = [
        (AppError::BadRequest("bad".into()), 400, "bad", "bad request: bad"),
        (AppError::Unauthorized, 401, "unauthorized", "unauthorized"),
        (AppError::NotFound, 404, "not found", "not found"),
        (AppError::Conflict("taken".into()), 409, "taken", "conflict: taken"),
        (AppError::Internal("db down".into()), 500, "internal server error", "internal error: db down"),
    ];
    for (error, status, message, description) in cases {
        assert_eq!(error.status(), status);
        assert_eq!(error.public_message(), message);
        assert_eq!(error.describe(), description);
    }
}

#[test]
fn database_failures_become_errors() {
    match map_db(DbFailure { unique_violation: true, detail: "dup key".into() }) {
        AppError::Conflict(m) => assert_eq!(m, "resource already exists"),
        other => panic!("unexpected {:?}", other),
    }
    match map_db(DbFailure { unique_violation: false, detail: "connection reset".into() }) {
        AppError::Internal(m) => assert_eq!(m, "connection reset"),
        other => panic!("unexpected {:?}", other),
    }
}

#[test]
fn tokens_expire_after_seven_days() {
    let claims = token_claims(42, 1_700_000_000);
    assert_eq!(claims.sub, 42);
    assert_eq!(claims.exp, 1_700_604_800);
    assert_eq!(TOKEN_LIFETIME_SECONDS, 7 * 24 * 60 * 60);
}

#[test]
fn bearer_credentials() {
    assert!(matches!(bearer_credential(None), Err(AppError::Unauthorized)));
    assert!(matches!(bearer_credential(Some("Basic abc")), Err(AppError::Unauthorized)));
    assert!(matches!(bearer_credential(Some("bearer abc")), Err(AppError::Unauthorized)));
    assert_eq!(bearer_credential(Some("Bearer abc.def")).unwrap(), "abc.def");
    assert_eq!(bearer_credential(Some("Bearer ")).unwrap(), "");
}

#[test]
fn stored_hash_verifies_its_password() {
    let hash = hash_password("correct horse").unwrap();
    assert_ne!(hash, "correct horse");
    assert!(hash.starts_with("$argon2id$"));
    assert_eq!(verify_password("correct horse", &hash).unwrap(), true);
    assert_eq!(verify_password("wrong horse", &hash).unwrap(), false);
}

#[test]
fn unparsable_hash_is_internal() {
    assert!(matches!(verify_password("pw", "not a hash"), Err(AppError::Internal(_))));
}

#[test]
fn two_hashes_of_one_password_differ() {
    let first = hash_password("same password").unwrap();
    let second = hash_password("same password").unwrap();
    assert_ne!(first, second);
}

fn now() -> i64 {
    std::time::SystemTime::now()
        .duration_since(std::time::UNIX_EPOCH)
        .unwrap()
        .as_secs() as i64
}

#[test]
fn issued_token_authenticates_its_user() {
    let user = uuid::Uuid::new_v4().as_u128();
    let signed = token(user, now(), "s3cret").unwrap();
    assert_eq!(signed.split('.').count(), 3);
    let header = format!("Bearer {}", signed);
    assert_eq!(authenticated_user(Some(&header), "s3cret", now() as u64).unwrap(), user);
}

#[test]
fn token_from_another_secret_is_unauthorized() {
    let signed = token(5, now(), "one secret").unwrap();
    let header = format!("Bearer {}", signed);
    assert!(matches!(authenticated_user(Some(&header), "another", now() as u64), Err(AppError::Unauthorized)));
    assert!(matches!(authenticated_user(Some(&signed), "one secret", now() as u64), Err(AppError::Unauthorized)));
    assert!(matches!(authenticated_user(None, "one secret", now() as u64), Err(AppError::Unauthorized)));
}

#[test]
fn expired_token_is_unauthorized() {
    let signed = token(5, now() - 8 * 24 * 60 * 60, "k").unwrap();
    let header = format!("Bearer {}", signed);
    assert!(matches!(authenticated_user(Some(&header), "k", now() as u64), Err(AppError::Unauthorized)));
}

#[test]
fn token_claims_name_the_user_then_the_expiry() {
    let user = uuid::Uuid::new_v4();
    let issued = 1_900_000_000;
    let signed = token(user.as_u128(), issued, "k").unwrap();
    let mut validation = jsonwebtoken::Validation::default();
    validation.validate_exp = false;
    let data = jsonwebtoken::decode::<serde_json::Value>(
        &signed,
        &jsonwebtoken::DecodingKey::from_secret(b"k"),
        &validation,
    )
    .unwrap();
    assert_eq!(
        data.claims.to_string(),
        format!("{{\"sub\":\"{}\",\"exp\":{}}}", user, issued + TOKEN_LIFETIME_SECONDS)
    );
}

#[test]
fn expiry_has_a_minute_of_leeway() {
    let issued = 1_800_000_000;
    let signed = token(7, issued, "k").unwrap();
    let header = format!("Bearer {}", signed);
    let expiry = (issued + TOKEN_LIFETIME_SECONDS) as u64;
    assert_eq!(authenticated_user(Some(&header), "k", issued as u64).unwrap(), 7);
    assert_eq!(authenticated_user(Some(&header), "k", expiry + 60).unwrap(), 7);
    assert!(matches!(authenticated_user(Some(&header), "k", expiry + 61), Err(AppError::Unauthorized)));
}

#[test]
fn hash_is_determined_by_password_and_salt() {
    let first = hash_password_with_salt("password123", "c2FsdHNhbHRzYWx0c2E").unwrap();
    let again = hash_password_with_salt("password123", "c2FsdHNhbHRzYWx0c2E").unwrap();
    let other = hash_password_with_salt("password123", "b3RoZXJzYWx0b3RoZXI").unwrap();
    assert_eq!(first, again);
    assert_ne!(first, other);
    assert!(first.contains("c2FsdHNhbHRzYWx0c2E"));
    assert_eq!(verify_password("password123", &first).unwrap(), true);
    assert!(matches!(hash_password_with_salt("password123", "!"), Err(AppError::Internal(_))));
}
