use jsonwebtoken::{decode, encode, Algorithm, DecodingKey, EncodingKey, Header, Validation};
use svc_telemetry::error::GatewayError;
use svc_telemetry::jwt::{
    auth, auth_at, get_token_from_cookie_jar, login, login_at, strip_bearer, AuthorizationHeader,
    Claim, JWT_EXPIRE_SECONDS,
};

const SECRET: &str = "test";

fn bearer(token: &str) -> AuthorizationHeader {
    AuthorizationHeader::Value(format!("Bearer {token}"))
}

#[test]
fn middleware_runs() {
    let token = Claim::create("test".to_string(), Some(SECRET)).unwrap();
    let header = AuthorizationHeader::from_bytes(Some(format!("Bearer {token}").as_bytes()));
    let claim = auth(&header, None, SECRET).unwrap();
    assert_eq!(claim.sub, "test");
    assert_eq!(claim.exp - claim.iat, 360);
}

#[test]
fn token_lifetime_is_six_minutes() {
    assert_eq!(JWT_EXPIRE_SECONDS, 360);
}

#[test]
fn issued_token_verifies_to_its_claim() {
    let token = Claim::create_at("N12345".to_string(), 1_700_000_000, Some(SECRET)).unwrap();
    let claim = Claim::decode_at(&token, SECRET, 1_700_000_000).unwrap();
    assert_eq!(claim.sub, "N12345");
    assert_eq!(claim.iat, 1_700_000_000);
    assert_eq!(claim.exp, 1_700_000_360);
}

#[test]
fn issued_token_is_a_signed_three_part_token() {
    let token = Claim::create_at("N12345".to_string(), 1_700_000_000, Some(SECRET)).unwrap();
    assert_ne!(token, "N12345");
    assert_eq!(token.split('.').count(), 3);
    assert!(token.split('.').all(|part| !part.is_empty()));
}

#[test]
fn issuing_is_a_function_of_its_inputs() {
    let one = Claim::create_at("a".to_string(), 5, Some(SECRET)).unwrap();
    let two = Claim::create_at("a".to_string(), 5, Some(SECRET)).unwrap();
    let other_time = Claim::create_at("a".to_string(), 6, Some(SECRET)).unwrap();
    let other_subject = Claim::create_at("b".to_string(), 5, Some(SECRET)).unwrap();
    let other_secret = Claim::create_at("a".to_string(), 5, Some("another")).unwrap();
    assert_eq!(one, two);
    assert_ne!(one, other_time);
    assert_ne!(one, other_subject);
    assert_ne!(one, other_secret);
}

#[test]
fn subject_survives_the_round_trip_whatever_its_characters() {
    let subject = "dr\u{f6}ne \"7\"\\\n\u{1F681}";
    let token = Claim::create_at(subject.to_string(), 10, Some(SECRET)).unwrap();
    let claim = Claim::decode_at(&token, SECRET, 10).unwrap();
    assert_eq!(claim.sub, subject);
}

#[test]
fn token_is_accepted_up_to_its_expiry_and_not_after() {
    let token = Claim::create_at("N12345".to_string(), 1000, Some(SECRET)).unwrap();
    assert!(Claim::decode_at(&token, SECRET, 0).is_ok());
    assert!(Claim::decode_at(&token, SECRET, 1359).is_ok());
    assert!(Claim::decode_at(&token, SECRET, 1360).is_ok());
    assert_eq!(
        Claim::decode_at(&token, SECRET, 1361).unwrap_err(),
        GatewayError::Unauthorized
    );
    assert_eq!(
        Claim::decode_at(&token, SECRET, i64::MAX).unwrap_err(),
        GatewayError::Unauthorized
    );
}

#[test]
fn token_with_an_altered_signature_is_refused() {
    let token = Claim::create_at("N12345".to_string(), 1000, Some(SECRET)).unwrap();
    let dot = token.rfind('.').unwrap();
    for place in [dot + 1, dot + 5, token.len() - 1] {
        let mut bytes = token.clone().into_bytes();
        bytes[place] = if bytes[place] == b'A' { b'B' } else { b'A' };
        let altered = String::from_utf8(bytes).unwrap();
        assert_ne!(altered, token);
        assert_eq!(
            Claim::decode_at(&altered, SECRET, 1000).unwrap_err(),
            GatewayError::Unauthorized
        );
    }
}

#[test]
fn token_with_altered_claims_is_refused() {
    let token = Claim::create_at("N12345".to_string(), 1000, Some(SECRET)).unwrap();
    let other = Claim::create_at("N99999".to_string(), 1000, Some(SECRET)).unwrap();
    let parts: Vec<&str> = token.split('.').collect();
    let other_parts: Vec<&str> = other.split('.').collect();
    let forged = format!("{}.{}.{}", parts[0], other_parts[1], parts[2]);
    assert_eq!(
        Claim::decode_at(&forged, SECRET, 1000).unwrap_err(),
        GatewayError::Unauthorized
    );
}

#[test]
fn token_under_another_secret_is_refused() {
    let token = Claim::create_at("N12345".to_string(), 1000, Some(SECRET)).unwrap();
    assert_eq!(
        Claim::decode_at(&token, "another", 1000).unwrap_err(),
        GatewayError::Unauthorized
    );
}

#[test]
fn malformed_tokens_are_refused() {
    for token in ["", "a.jwt.token", "onlyonepart", "two.parts", "....", "Bearer x"] {
        assert_eq!(
            Claim::decode_at(token, SECRET, 0).unwrap_err(),
            GatewayError::Unauthorized
        );
        assert_eq!(
            Claim::decode(token.to_string(), SECRET).unwrap_err(),
            GatewayError::Unauthorized
        );
    }
}

#[test]
fn create_without_a_secret_is_a_config_error() {
    assert_eq!(
        Claim::create("N12345".to_string(), None).unwrap_err(),
        GatewayError::ConfigError
    );
    assert_eq!(
        Claim::create_at("N12345".to_string(), -1, None).unwrap_err(),
        GatewayError::ConfigError
    );
}

#[test]
fn create_at_a_time_out_of_range_is_a_clock_error() {
    assert_eq!(
        Claim::create_at("N12345".to_string(), -1, Some(SECRET)).unwrap_err(),
        GatewayError::ClockError
    );
    assert_eq!(
        Claim::create_at("N12345".to_string(), i64::MIN, Some(SECRET)).unwrap_err(),
        GatewayError::ClockError
    );
    assert!(Claim::create_at("N12345".to_string(), 0, Some(SECRET)).is_ok());
}

#[test]
fn create_reads_the_clock() {
    let token = Claim::create("N12345".to_string(), Some(SECRET)).unwrap();
    let claim = Claim::decode(token, SECRET).unwrap();
    assert!(claim.iat > 1_600_000_000);
    assert_eq!(claim.exp, claim.iat + 360);
}

#[test]
fn validate_checks_expiry_and_range() {
    let claim = Claim::validate(Some(("abc".to_string(), 10, 370)), 370).unwrap();
    assert_eq!((claim.sub.as_str(), claim.iat, claim.exp), ("abc", 10, 370));
    assert_eq!(
        Claim::validate(Some(("abc".to_string(), 10, 370)), 371).unwrap_err(),
        GatewayError::Unauthorized
    );
    assert_eq!(Claim::validate(None, 0).unwrap_err(), GatewayError::Unauthorized);
    assert!(Claim::validate(Some(("abc".to_string(), 10, 370)), -5).is_ok());
    assert!(Claim::validate(Some(("abc".to_string(), 500, 370)), 0).is_ok());
}

#[test]
fn claim_clone_is_equal() {
    let claim = Claim { sub: "abc".to_string(), iat: 1, exp: 361 };
    let copy = claim.clone();
    assert_eq!((copy.sub, copy.iat, copy.exp), (claim.sub, claim.iat, claim.exp));
}

#[test]
fn cookie_comes_before_the_header() {
    let header = bearer("from-header");
    assert_eq!(get_token_from_cookie_jar(&header, Some("from-cookie")).unwrap(), "from-cookie");
    assert_eq!(get_token_from_cookie_jar(&header, None).unwrap(), "from-header");
    assert_eq!(
        get_token_from_cookie_jar(&AuthorizationHeader::Unreadable, Some("c")).unwrap(),
        "c"
    );
}

#[test]
fn missing_header_is_unauthorized() {
    let (error, body) = get_token_from_cookie_jar(&AuthorizationHeader::Missing, None).unwrap_err();
    assert_eq!(error, GatewayError::Unauthorized);
    assert_eq!(error.status_code(), 401);
    assert_eq!(body.status(), "fail");
    assert_eq!(body.message(), "could not get authorization header.");
}

#[test]
fn unreadable_header_is_unauthorized() {
    let (error, body) =
        get_token_from_cookie_jar(&AuthorizationHeader::Unreadable, None).unwrap_err();
    assert_eq!(error, GatewayError::Unauthorized);
    assert_eq!(body.status(), "fail");
    assert_eq!(body.message(), "could not parse authorization header.");
}

#[test]
fn header_without_bearer_is_unauthorized() {
    for value in ["", "Bearer", "bearer abc", "Basic abc", " Bearer abc", "Bearerabc"] {
        let header = AuthorizationHeader::Value(value.to_string());
        let (error, body) = get_token_from_cookie_jar(&header, None).unwrap_err();
        assert_eq!(error, GatewayError::Unauthorized);
        assert_eq!(body.status(), "fail");
        assert_eq!(body.message(), "You are not logged in, please provide token.");
    }
}

#[test]
fn strip_bearer_takes_the_rest_of_the_value() {
    assert_eq!(strip_bearer("Bearer abc.def.ghi").unwrap(), "abc.def.ghi");
    assert_eq!(strip_bearer("Bearer ").unwrap(), "");
    assert_eq!(strip_bearer("Bearer  x").unwrap(), " x");
    assert_eq!(strip_bearer("Bearer \u{e9}\u{1F681}").unwrap(), "\u{e9}\u{1F681}");
    assert_eq!(strip_bearer("Bearer"), None);
    assert_eq!(strip_bearer("BEARER abc"), None);
    assert_eq!(strip_bearer(""), None);
}

#[test]
fn header_bytes_are_read_as_visible_ascii() {
    assert!(matches!(AuthorizationHeader::from_bytes(None), AuthorizationHeader::Missing));
    match AuthorizationHeader::from_bytes(Some(b"Bearer a\tb~")) {
        AuthorizationHeader::Value(text) => assert_eq!(text, "Bearer a\tb~"),
        other => panic!("{other:?}"),
    }
    match AuthorizationHeader::from_bytes(Some(b"")) {
        AuthorizationHeader::Value(text) => assert_eq!(text, ""),
        other => panic!("{other:?}"),
    }
    for raw in [&b"Bearer \x7f"[..], b"Bearer \xc3\xa9", b"a\nb", b"\x00", b"\x1f", b"\xff"] {
        assert!(matches!(
            AuthorizationHeader::from_bytes(Some(raw)),
            AuthorizationHeader::Unreadable
        ));
    }
}

#[test]
fn auth_accepts_a_fresh_token_and_refuses_an_expired_one() {
    let token = Claim::create_at("N12345".to_string(), 1000, Some(SECRET)).unwrap();
    let claim = auth_at(&bearer(&token), None, SECRET, 1200).unwrap();
    assert_eq!((claim.sub.as_str(), claim.iat, claim.exp), ("N12345", 1000, 1360));
    let claim = auth_at(&AuthorizationHeader::Missing, Some(&token), SECRET, 1200).unwrap();
    assert_eq!(claim.sub, "N12345");
    let (error, body) = auth_at(&bearer(&token), None, SECRET, 1361).unwrap_err();
    assert_eq!(error, GatewayError::Unauthorized);
    assert_eq!(body.status(), "fail");
    assert_eq!(body.message(), "Invalid token");
}

#[test]
fn auth_refuses_a_request_without_a_token() {
    let (error, body) = auth(&AuthorizationHeader::Missing, None, SECRET).unwrap_err();
    assert_eq!(error, GatewayError::Unauthorized);
    assert_eq!(body.message(), "could not get authorization header.");
    let (error, body) = auth(&bearer("not.a.token"), None, SECRET).unwrap_err();
    assert_eq!(error, GatewayError::Unauthorized);
    assert_eq!(body.message(), "Invalid token");
}

#[test]
fn login_returns_a_token_for_the_identifier() {
    let token = login_at(b"N12345".to_vec(), 1000, Some(SECRET)).unwrap();
    assert_eq!(token, Claim::create_at("N12345".to_string(), 1000, Some(SECRET)).unwrap());
    let token = login(b"N12345".to_vec(), Some(SECRET)).unwrap();
    assert_eq!(Claim::decode(token, SECRET).unwrap().sub, "N12345");
    let token = login_at("dr\u{f6}ne".as_bytes().to_vec(), 1000, Some(SECRET)).unwrap();
    assert_eq!(Claim::decode_at(&token, SECRET, 1000).unwrap().sub, "dr\u{f6}ne");
}

#[test]
fn login_refuses_an_empty_or_non_text_identifier() {
    assert_eq!(login(Vec::new(), Some(SECRET)).unwrap_err(), GatewayError::BadRequest);
    assert_eq!(login_at(Vec::new(), 1000, None).unwrap_err(), GatewayError::BadRequest);
    for raw in [vec![0xff], vec![0x82], vec![b'a', 0xc3], vec![0xed, 0xa0, 0x80], vec![0xc0, 0x80]] {
        assert_eq!(login_at(raw.clone(), 1000, Some(SECRET)).unwrap_err(), GatewayError::BadRequest);
        assert_eq!(login(raw, Some(SECRET)).unwrap_err(), GatewayError::BadRequest);
    }
    assert_eq!(GatewayError::BadRequest.status_code(), 400);
}

#[test]
fn login_without_a_secret_is_a_config_error() {
    assert_eq!(login(b"N12345".to_vec(), None).unwrap_err(), GatewayError::ConfigError);
    assert_eq!(GatewayError::ConfigError.status_code(), 500);
}

#[test]
fn claim_expires_six_minutes_after_it_was_issued() {
    let claim = Claim::issued_at("N12345".to_string(), 1_700_000_000).unwrap();
    assert_eq!((claim.sub.as_str(), claim.iat, claim.exp), ("N12345", 1_700_000_000, 1_700_000_360));
    let claim = Claim::issued_at(String::new(), 0).unwrap();
    assert_eq!((claim.sub.as_str(), claim.iat, claim.exp), ("", 0, 360));
    assert_eq!(Claim::issued_at("a".to_string(), -1).unwrap_err(), GatewayError::ClockError);
    assert_eq!(Claim::issued_at("a".to_string(), i64::MIN).unwrap_err(), GatewayError::ClockError);
    assert!(Claim::issued_at("a".to_string(), i64::MAX).is_ok());
}

#[test]
fn token_is_confirmed_only_by_the_claims_it_was_signed_for() {
    let claim = Claim { sub: "abc".to_string(), iat: 10, exp: 370 };
    let token = "some.signed.token".to_string();
    assert_eq!(claim.confirm(token.clone(), Some(("abc".to_string(), 10, 370))).unwrap(), token);
    for read_back in [
        None,
        Some(("abd".to_string(), 10, 370)),
        Some(("abc".to_string(), 11, 370)),
        Some(("abc".to_string(), 10, 371)),
        Some((String::new(), 0, 0)),
    ] {
        assert_eq!(claim.confirm(token.clone(), read_back).unwrap_err(), GatewayError::SigningError);
    }
    assert_eq!(GatewayError::SigningError.status_code(), 500);
}

fn signed_elsewhere(algorithm: Algorithm, claims: &[(&str, serde_json::Value)]) -> String {
    let mut object = serde_json::Map::new();
    for (name, value) in claims {
        object.insert(name.to_string(), value.clone());
    }
    encode(&Header::new(algorithm), &object, &EncodingKey::from_secret(SECRET.as_bytes())).unwrap()
}

#[test]
fn issued_token_reads_as_sub_iat_exp_to_another_reader() {
    let token = Claim::create_at("N12345".to_string(), 1_700_000_000, Some(SECRET)).unwrap();
    let mut rules = Validation::new(Algorithm::HS256);
    rules.validate_exp = false;
    let data =
        decode::<serde_json::Value>(&token, &DecodingKey::from_secret(SECRET.as_bytes()), &rules)
            .unwrap();
    assert_eq!(data.header.alg, Algorithm::HS256);
    assert_eq!(data.header.typ.as_deref(), Some("JWT"));
    let claims = data.claims.as_object().unwrap();
    assert_eq!(claims.len(), 3);
    assert_eq!(claims.get("sub").and_then(|value| value.as_str()), Some("N12345"));
    assert_eq!(claims.get("iat").and_then(|value| value.as_u64()), Some(1_700_000_000));
    assert_eq!(claims.get("exp").and_then(|value| value.as_u64()), Some(1_700_000_360));
}

#[test]
fn token_issued_now_passes_the_default_validation_of_another_reader() {
    let token = Claim::create("N12345".to_string(), Some(SECRET)).unwrap();
    let data = decode::<serde_json::Value>(
        &token,
        &DecodingKey::from_secret(SECRET.as_bytes()),
        &Validation::default(),
    )
    .unwrap();
    let iat = data.claims.get("iat").and_then(|value| value.as_u64()).unwrap();
    let exp = data.claims.get("exp").and_then(|value| value.as_u64()).unwrap();
    assert_eq!(data.claims.get("sub").and_then(|value| value.as_str()), Some("N12345"));
    assert_eq!(exp - iat, 360);
    assert!(iat > 1_600_000_000);
}

#[test]
fn token_signed_elsewhere_is_read_by_its_sub_iat_and_exp() {
    let token = signed_elsewhere(
        Algorithm::HS256,
        &[
            ("exp", serde_json::Value::from(2000u64)),
            ("iat", serde_json::Value::from(1000u64)),
            ("sub", serde_json::Value::from("N12345")),
            ("extra", serde_json::Value::from(true)),
        ],
    );
    let claim = Claim::decode_at(&token, SECRET, 2000).unwrap();
    assert_eq!((claim.sub.as_str(), claim.iat, claim.exp), ("N12345", 1000, 2000));
    assert_eq!(Claim::decode_at(&token, SECRET, 2001).unwrap_err(), GatewayError::Unauthorized);
    let claim = auth_at(&bearer(&token), None, SECRET, 1500).unwrap();
    assert_eq!((claim.sub.as_str(), claim.iat, claim.exp), ("N12345", 1000, 2000));
}

#[test]
fn token_signed_elsewhere_without_the_three_claims_is_refused() {
    let sub = ("sub", serde_json::Value::from("N12345"));
    let iat = ("iat", serde_json::Value::from(1000u64));
    let exp = ("exp", serde_json::Value::from(2000u64));
    let refused = [
        vec![iat.clone(), exp.clone()],
        vec![sub.clone(), exp.clone()],
        vec![sub.clone(), iat.clone()],
        vec![("subject", serde_json::Value::from("N12345")), iat.clone(), exp.clone()],
        vec![("sub", serde_json::Value::from(7u64)), iat.clone(), exp.clone()],
        vec![sub.clone(), ("iat", serde_json::Value::from("1000")), exp.clone()],
        vec![sub.clone(), iat.clone(), ("exp", serde_json::Value::from(-1i64))],
        vec![sub.clone(), ("iat", serde_json::Value::from(-1i64)), exp.clone()],
    ];
    for claims in refused {
        let token = signed_elsewhere(Algorithm::HS256, &claims);
        assert_eq!(Claim::decode_at(&token, SECRET, 0).unwrap_err(), GatewayError::Unauthorized);
    }
    let token = signed_elsewhere(Algorithm::HS256, &[sub.clone(), iat.clone(), exp.clone()]);
    assert!(Claim::decode_at(&token, SECRET, 0).is_ok());
}

#[test]
fn token_signed_by_another_algorithm_is_refused() {
    let claims = [
        ("sub", serde_json::Value::from("N12345")),
        ("iat", serde_json::Value::from(1000u64)),
        ("exp", serde_json::Value::from(2000u64)),
    ];
    for algorithm in [Algorithm::HS384, Algorithm::HS512] {
        let token = signed_elsewhere(algorithm, &claims);
        assert_eq!(Claim::decode_at(&token, SECRET, 0).unwrap_err(), GatewayError::Unauthorized);
    }
}

#[test]
fn clock_reads_a_time_of_this_age() {
    let before = std::time::SystemTime::now()
        .duration_since(std::time::UNIX_EPOCH)
        .unwrap()
        .as_secs() as usize;
    let token = Claim::create("N12345".to_string(), Some(SECRET)).unwrap();
    let after = std::time::SystemTime::now()
        .duration_since(std::time::UNIX_EPOCH)
        .unwrap()
        .as_secs() as usize;
    let claim = Claim::decode(token, SECRET).unwrap();
    assert!(before <= claim.iat && claim.iat <= after);
    assert_eq!(claim.exp, claim.iat + 360);
}
