use laraxum::controller::auth::{
    auth_secret, exp_duration, token_credentials, AuthToken, AuthTokenExp, Authenticate, Duration,
};
use laraxum::controller::extract::is_json_content_type;
use laraxum::env::EnvVar;
use laraxum::error::AuthError;

fn now() -> Duration {
    let d = std::time::SystemTime::now().duration_since(std::time::UNIX_EPOCH).unwrap();
    Duration { secs: d.as_secs(), nanos: d.subsec_nanos() }
}

#[test]
fn expiry_adds_duration_to_now() {
    let exp = AuthTokenExp::new(
        "{}".to_string(),
        Duration { secs: 10, nanos: 600_000_000 },
        Duration { secs: 100, nanos: 500_000_000 },
    );
    assert_eq!(exp.exp, 111);
    let exp = AuthTokenExp::new(
        "{}".to_string(),
        Duration { secs: u64::MAX, nanos: 0 },
        Duration { secs: 1, nanos: 0 },
    );
    assert_eq!(exp.exp, usize::MAX);
    assert_eq!(exp_duration(), Duration { secs: 14400, nanos: 0 });
}

#[test]
fn claims_json() {
    let exp = AuthTokenExp::new_with_secs("{\"admin\":true}".to_string(), 42);
    assert_eq!(exp.claims(), "{\"exp\":42,\"token\":{\"admin\":true}}");
}

#[test]
fn token_round_trip() {
    let secret = b"secret";
    let token = AuthToken("{\"admin\":true}".to_string())
        .encode(secret, exp_duration(), now())
        .ok()
        .unwrap();
    assert_eq!(token.split('.').count(), 3);
    assert!(!token.contains("admin"));
    let decoded = AuthToken::decode(&token, secret, now()).ok().unwrap();
    assert_eq!(decoded.0, "{\"admin\":true}");
}

#[test]
fn wrong_secret_or_expired_is_unauthenticated() {
    let token = AuthToken("1".to_string()).encode(b"secret", exp_duration(), now()).ok().unwrap();
    assert!(matches!(AuthToken::decode(&token, b"other", now()), Err(AuthError::Unauthenticated)));
    let expired = AuthToken("1".to_string())
        .encode(b"secret", Duration { secs: 0, nanos: 0 }, Duration { secs: 1000, nanos: 0 })
        .ok()
        .unwrap();
    assert!(matches!(AuthToken::decode(&expired, b"secret", Duration { secs: 1061, nanos: 0 }), Err(AuthError::Unauthenticated)));
    assert!(matches!(AuthToken::decode("not a token", b"secret", now()), Err(AuthError::Unauthenticated)));
}

#[test]
fn invalid_credentials_json_is_unauthenticated() {
    let r = AuthToken("{not json".to_string()).encode(b"secret", exp_duration(), now());
    assert!(matches!(r, Err(AuthError::Unauthenticated)));
}

#[test]
fn secret_from_environment() {
    assert_eq!(auth_secret(EnvVar::Present("s3cr3t".to_string())), "s3cr3t");
}

#[test]
fn json_content_types() {
    assert!(is_json_content_type("application/json"));
    assert!(is_json_content_type("application/json; charset=utf-8"));
    assert!(is_json_content_type("application/ld+json"));
    assert!(is_json_content_type("APPLICATION/JSON"));
    assert!(!is_json_content_type("text/html"));
    assert!(!is_json_content_type("application/xml"));
    assert!(!is_json_content_type("not a media type"));
}

#[test]
fn decoded_credentials() {
    let now = Duration { secs: 100, nanos: 0 };
    let r = AuthToken::from_decoded(Ok("{\"exp\":100,\"token\":{\"id\":1}}".to_string()), now);
    assert_eq!(r.ok().unwrap().0, "{\"id\":1}");
    let late = Duration { secs: 161, nanos: 0 };
    let r = AuthToken::from_decoded(Ok("{\"exp\":100,\"token\":{\"id\":1}}".to_string()), late);
    assert!(matches!(r, Err(AuthError::Unauthenticated)));
    let edge = Duration { secs: 160, nanos: 0 };
    let r = AuthToken::from_decoded(Ok("{\"exp\":100,\"token\":7}".to_string()), edge);
    assert_eq!(r.ok().unwrap().0, "7");
    let r = AuthToken::from_decoded(Ok("{\"token\":7,\"exp\":100}".to_string()), now);
    assert!(matches!(r, Err(AuthError::Unauthenticated)));
    let e: jsonwebtoken::errors::Error = jsonwebtoken::errors::ErrorKind::InvalidToken.into();
    assert!(matches!(AuthToken::from_decoded(Err(e), now), Err(AuthError::Unauthenticated)));
}

#[test]
fn token_credentials_of_claims() {
    let now = Duration { secs: 0, nanos: 0 };
    assert_eq!(token_credentials("{\"exp\":5,\"token\":\"a,b\"}", now), Some("\"a,b\"".to_string()));
    assert_eq!(token_credentials("{\"exp\":,\"token\":1}", now), None);
    assert_eq!(token_credentials("{\"exp\":5x,\"token\":1}", now), None);
    let far = "{\"exp\":99999999999999999999999,\"token\":1}";
    assert_eq!(token_credentials(far, Duration { secs: u64::MAX, nanos: 0 }), Some("1".to_string()));
}

#[test]
fn token_round_trip_until_leeway() {
    let secret = b"secret";
    let made = Duration { secs: 1000, nanos: 0 };
    let token = AuthToken("{\"id\":3}".to_string())
        .encode(secret, Duration { secs: 10, nanos: 0 }, made)
        .ok()
        .unwrap();
    let at = |secs: u64| AuthToken::decode(&token, secret, Duration { secs, nanos: 0 });
    assert_eq!(at(1000).ok().unwrap().0, "{\"id\":3}");
    assert_eq!(at(1070).ok().unwrap().0, "{\"id\":3}");
    assert!(matches!(at(1071), Err(AuthError::Unauthenticated)));
    let mut changed = token.clone();
    changed.push('x');
    assert!(matches!(
        AuthToken::decode(&changed, secret, made),
        Err(AuthError::Unauthenticated)
    ));
}

struct Anyone;

impl Authenticate for Anyone {
    type State = ();
}

#[test]
fn default_authentication_accepts() {
    assert!(Anyone.authenticate(&std::sync::Arc::new(())).is_ok());
}

fn base64url_decode(text: &str) -> Vec<u8> {
    let alphabet = b"ABCDEFGHIJKLMNOPQRSTUVWXYZabcdefghijklmnopqrstuvwxyz0123456789-_";
    let mut bits: u32 = 0;
    let mut count = 0;
    let mut out = Vec::new();
    for c in text.bytes() {
        let v = alphabet.iter().position(|&a| a == c).unwrap() as u32;
        bits = (bits << 6) | v;
        count += 6;
        if count >= 8 {
            count -= 8;
            out.push((bits >> count) as u8);
            bits &= (1 << count) - 1;
        }
    }
    out
}

#[test]
fn claims_are_signed_as_written() {
    let token = AuthToken("{\"z\":1,\"a\":2}".to_string())
        .encode(b"secret", exp_duration(), Duration { secs: 100, nanos: 0 })
        .ok()
        .unwrap();
    let payload = token.split('.').nth(1).unwrap();
    let claims = String::from_utf8(base64url_decode(payload)).unwrap();
    assert_eq!(claims, "{\"exp\":14500,\"token\":{\"z\":1,\"a\":2}}");
}
