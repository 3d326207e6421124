//! Authentication and authorization for the controller.
//!
//! Implement [Authenticate] for credentials to authenticate them, and [Authorize] to authorize
//! the authenticated credentials. The credentials travel in a JSON Web Token signed with a
//! secret: its claims are the credentials, as JSON, with the time the token expires.

use vstd::prelude::*;

use crate::db::stage4::{decimal, spec_decimal, spec_digit};
use crate::text::str_eq;
use crate::env::EnvVar;
use crate::error::AuthError;
use jsonwebtoken::errors::Error as JwtError;

verus! {

/// Authenticate the user credentials, independently of how they are carried.
pub trait Authenticate {
    type State;

    /// Extra authentication of the credentials, for example whether the user was banned;
    /// none by default.
    fn authenticate(&self, state: &std::sync::Arc<Self::State>) -> (r: Result<(), AuthError>)
        default_ensures
            r == Ok::<(), AuthError>(()),
    {
        Ok(())
    }
}

/// Authorize the user credentials, after the type they delegate authentication to has
/// authenticated them.
pub trait Authorize: Sized {
    /// The type to delegate authentication to, before authorization.
    type Authenticate: Authenticate;

    /// Authorize the user, for example whether the user is an admin.
    fn authorize(authorize: Self::Authenticate) -> Result<Self, AuthError>;
}

/// Authenticated credentials are authorized as they are.
impl<T: Authenticate> Authorize for T {
    type Authenticate = T;

    fn authorize(authenticate: T) -> (r: Result<T, AuthError>)
        ensures
            r == Ok::<T, AuthError>(authenticate),
    {
        Ok(authenticate)
    }
}

/// The secret that signs the tokens, from the `AUTH_SECRET` environment variable, which must
/// be set.
pub fn auth_secret(var: EnvVar) -> (r: String)
    requires
        var is Present,
    ensures
        var == EnvVar::Present(r),
{
    match var {
        EnvVar::Present(s) => s,
        _ => {
            assert(false);
            String::new()
        },
    }
}

/// A span of time: whole seconds and the nanoseconds of the last second.
#[derive(PartialEq, Eq, Structural, Clone, Copy, Debug)]
pub struct Duration {
    pub secs: u64,
    pub nanos: u32,
}

/// How long a token stays valid by default: four hours.
pub fn exp_duration() -> (r: Duration)
    ensures
        r == (Duration { secs: 14400, nanos: 0 }),
{
    Duration { secs: 60 * 60 * 4, nanos: 0 }
}

/// The second at which a token made at `now` that is valid for `duration` expires:
/// the whole seconds of their sum, at most the largest number of seconds and of a `usize`.
pub open spec fn spec_exp(now: Duration, duration: Duration) -> int {
    let carry: int = if now.nanos + duration.nanos >= 1_000_000_000 {
        1
    } else {
        0
    };
    let secs = now.secs + duration.secs + carry;
    let secs = if secs > u64::MAX {
        u64::MAX as int
    } else {
        secs
    };
    if secs > usize::MAX {
        usize::MAX as int
    } else {
        secs
    }
}

/// The claims of a token: the second it expires, and the credentials.
pub struct AuthTokenExp {
    pub exp: usize,
    /// the credentials, as JSON
    pub token: String,
}

/// The claims of a token as JSON: `{"exp":<exp>,"token":<token>}`.
pub open spec fn spec_claims(exp: usize, token: Seq<char>) -> Seq<char> {
    "{\"exp\":"@ + spec_decimal(exp as nat) + ",\"token\":"@ + token + "}"@
}

/// The error of the `jsonwebtoken` crate.
#[verifier::external_type_specification]
#[verifier::external_body]
pub struct ExJwtError(JwtError);

/// Names what `jsonwebtoken::encode` makes of the claims, given as JSON, with the default
/// header (HS256) and the key of the secret: the token, or `None` when it fails.
pub uninterp spec fn jwt_token(claims: Seq<char>, secret: Seq<u8>) -> Option<Seq<char>>;

/// `jsonwebtoken::encode` of the claims, given as JSON and signed as written (a
/// `serde_json` raw value), with the default header (HS256) and the key
/// `EncodingKey::from_secret` of the secret. Its result is named by [`jwt_token`]:
/// signing with HMAC is a function of the claims and the secret alone.
#[verifier::external_body]
fn jwt_encode(claims: &str, secret: &[u8]) -> (r: Result<String, JwtError>)
    ensures
        match r {
            Ok(token) => jwt_token(claims@, secret@) == Some(token@),
            Err(_) => jwt_token(claims@, secret@) is None,
        },
        r matches Ok(token) ==> (claims@.len() > 0 && claims@[0] == '{' && claims@.last() == '}'
            && jwt_claims(token@, secret@) is Some ==> jwt_claims(token@, secret@) == Some(
            claims@,
        )),
{
    let claims = match serde_json::value::RawValue::from_string(claims.to_string()) {
        Ok(claims) => claims,
        Err(e) => return Err(JwtError::from(e)),
    };
    let key = jsonwebtoken::EncodingKey::from_secret(secret);
    jsonwebtoken::encode(&jsonwebtoken::Header::default(), &claims, &key)
}

/// Names what `jsonwebtoken::decode` gives of a token with the key of the secret and the
/// default validation but for the expiry (an HS256 signature that verifies with the secret,
/// claims that carry a numeric `exp` and no audience): the claims as JSON, as they were signed;
/// `None` when the token fails.
pub uninterp spec fn jwt_claims(token: Seq<char>, secret: Seq<u8>) -> Option<Seq<char>>;

/// `jsonwebtoken::decode` of a token with the key `DecodingKey::from_secret` of the secret and
/// the default validation with the expiry left unchecked (so the clock is not read), the
/// claims read as a `serde_json` raw value: the claims as JSON, as they were signed. Its result
/// is named by [`jwt_claims`]. The expiry is checked by [`token_credentials`].
#[verifier::external_body]
fn jwt_decode(token: &str, secret: &[u8]) -> (r: Result<String, JwtError>)
    ensures
        match r {
            Ok(claims) => jwt_claims(token@, secret@) == Some(claims@),
            Err(_) => jwt_claims(token@, secret@) is None,
        },
{
    let key = jsonwebtoken::DecodingKey::from_secret(secret);
    let mut validation = jsonwebtoken::Validation::default();
    validation.validate_exp = false;
    match jsonwebtoken::decode::<Box<serde_json::value::RawValue>>(token, &key, &validation) {
        Ok(data) => Ok(data.claims.get().to_string()),
        Err(e) => Err(e),
    }
}

/// The character is a decimal digit.
pub open spec fn spec_is_digit(c: char) -> bool {
    48 <= (c as u32) <= 57
}

/// Every character is a decimal digit.
pub open spec fn spec_all_digits(s: Seq<char>) -> bool {
    forall|i: int| 0 <= i < s.len() ==> spec_is_digit(#[trigger] s[i])
}

/// The number that decimal digits write.
pub open spec fn spec_digits_value(s: Seq<char>) -> nat
    decreases s.len(),
{
    if s.len() == 0 {
        0
    } else {
        spec_digits_value(s.drop_last()) * 10 + ((s.last() as u32) - 48) as nat
    }
}

/// The position of the first comma, if any.
pub open spec fn spec_first_comma(s: Seq<char>) -> Option<int>
    decreases s.len(),
{
    if s.len() == 0 {
        None
    } else if s[0] == ',' {
        Some(0)
    } else {
        match spec_first_comma(s.skip(1)) {
            Some(k) => Some(k + 1),
            None => None,
        }
    }
}

/// The second a token expires and its credentials, read from claims written as
/// [`spec_claims`] writes them: `{"exp":<digits>,"token":<credentials>}`.
pub open spec fn spec_parse_claims(claims: Seq<char>) -> Option<(nat, Seq<char>)> {
    if claims.len() >= 8 && claims.take(7) == "{\"exp\":"@ && claims.last() == '}' {
        let body = claims.subrange(7, claims.len() - 1);
        match spec_first_comma(body) {
            Some(k) => {
                let digits = body.take(k);
                let rest = body.skip(k);
                if digits.len() > 0 && spec_all_digits(digits) && rest.len() >= 9 && rest.take(9)
                    == ",\"token\":"@ {
                    Some((spec_digits_value(digits), rest.skip(9)))
                } else {
                    None
                }
            },
            None => None,
        }
    } else {
        None
    }
}

/// How many seconds past its expiry a token is still accepted, as `jsonwebtoken` allows by
/// default.
pub const LEEWAY: u64 = 60;

/// The credentials of a token's claims at `now`: those the claims carry, unless the token
/// expired more than [`LEEWAY`] seconds before `now`.
pub open spec fn spec_token_credentials(claims: Seq<char>, now: Duration) -> Option<Seq<char>> {
    match spec_parse_claims(claims) {
        Some((exp, credentials)) => if now.secs <= exp + LEEWAY {
            Some(credentials)
        } else {
            None
        },
        None => None,
    }
}

proof fn lemma_digit_value(d: nat)
    requires
        d < 10,
    ensures
        spec_is_digit(spec_digit(d)),
        (spec_digit(d) as u32) - 48 == d,
{
}

proof fn lemma_decimal_digits(n: nat)
    ensures
        spec_decimal(n).len() > 0,
        spec_all_digits(spec_decimal(n)),
        spec_digits_value(spec_decimal(n)) == n,
    decreases n,
{
    if n < 10 {
        lemma_digit_value(n);
        assert(spec_decimal(n).drop_last() =~= Seq::<char>::empty());
        assert(spec_digits_value(Seq::<char>::empty()) == 0);
    } else {
        lemma_decimal_digits(n / 10);
        lemma_digit_value(n % 10);
        let s = spec_decimal(n);
        assert(s.drop_last() =~= spec_decimal(n / 10));
        assert(s.last() == spec_digit(n % 10));
        assert(spec_digits_value(s) == (n / 10) * 10 + n % 10);
        assert forall|i: int| 0 <= i < s.len() implies spec_is_digit(#[trigger] s[i]) by {
            if i < s.len() - 1 {
                assert(s[i] == spec_decimal(n / 10)[i]);
            }
        }
    }
}

proof fn lemma_first_comma_after_digits(digits: Seq<char>, rest: Seq<char>)
    requires
        spec_all_digits(digits),
        rest.len() > 0,
        rest[0] == ',',
    ensures
        spec_first_comma(digits + rest) == Some(digits.len() as int),
    decreases digits.len(),
{
    if digits.len() == 0 {
        assert(digits + rest =~= rest);
    } else {
        assert(spec_is_digit(digits[0]));
        assert((digits + rest).skip(1) =~= digits.skip(1) + rest);
        assert forall|i: int| 0 <= i < digits.skip(1).len() implies spec_is_digit(
            #[trigger] digits.skip(1)[i],
        ) by {
            assert(digits.skip(1)[i] == digits[i + 1]);
        }
        lemma_first_comma_after_digits(digits.skip(1), rest);
    }
}

/// The claims that a token is made of give back the second it expires and the credentials it
/// carries: so a token decodes, until [`LEEWAY`] seconds after it expires, to its credentials.
pub proof fn law_claims_round_trip(exp: usize, credentials: Seq<char>, now: Duration)
    ensures
        spec_parse_claims(spec_claims(exp, credentials)) == Some((exp as nat, credentials)),
        spec_token_credentials(spec_claims(exp, credentials), now) == (if now.secs <= exp
            + LEEWAY {
            Some(credentials)
        } else {
            None
        }),
{
    reveal_strlit("{\"exp\":");
    reveal_strlit(",\"token\":");
    reveal_strlit("}");
    let d = spec_decimal(exp as nat);
    lemma_decimal_digits(exp as nat);
    let claims = spec_claims(exp, credentials);
    let mid = ",\"token\":"@ + credentials;
    assert(claims =~= "{\"exp\":"@ + (d + mid) + "}"@);
    assert(claims.take(7) =~= "{\"exp\":"@);
    let body = claims.subrange(7, claims.len() - 1);
    assert(body =~= d + mid);
    lemma_first_comma_after_digits(d, mid);
    assert(body.take(d.len() as int) =~= d);
    assert(body.skip(d.len() as int) =~= mid);
    assert(mid.take(9) =~= ",\"token\":"@);
    assert(mid.skip(9) =~= credentials);
}

proof fn lemma_digits_value_prefix(s: Seq<char>, i: int)
    requires
        0 <= i <= s.len(),
    ensures
        spec_digits_value(s.take(i)) <= spec_digits_value(s),
    decreases s.len(),
{
    if i < s.len() {
        assert(s.drop_last().take(i) =~= s.take(i));
        lemma_digits_value_prefix(s.drop_last(), i);
    } else {
        assert(s.take(i) =~= s);
    }
}

/// The first comma of `s` is at `k` when `s[k]` is the first comma.
proof fn lemma_first_comma_at(s: Seq<char>, k: int)
    requires
        0 <= k <= s.len(),
        forall|j: int| 0 <= j < k ==> s[j] != ',',
    ensures
        k < s.len() && s[k] == ',' ==> spec_first_comma(s) == Some(k),
        k == s.len() ==> spec_first_comma(s) is None,
    decreases k,
{
    if k > 0 {
        assert forall|j: int| 0 <= j < k - 1 implies s.skip(1)[j] != ',' by {
            assert(s.skip(1)[j] == s[j + 1]);
        }
        lemma_first_comma_at(s.skip(1), k - 1);
        if k < s.len() {
            assert(s.skip(1)[k - 1] == s[k]);
        }
    } else if s.len() > 0 {
    }
}

/// The credentials of a token's claims at `now`: those the claims carry, unless the token
/// expired more than [`LEEWAY`] seconds before `now`.
pub fn token_credentials(claims: &str, now: Duration) -> (r: Option<String>)
    ensures
        match spec_token_credentials(claims@, now) {
            Some(credentials) => r matches Some(s) && s@ == credentials,
            None => r is None,
        },
{
    proof {
        reveal_strlit("{\"exp\":");
        reveal_strlit(",\"token\":");
    }
    let n = claims.unicode_len();
    if n < 8 {
        return None;
    }
    if !str_eq(claims.substring_char(0, 7), "{\"exp\":") || claims.get_char(n - 1) != '}' {
        return None;
    }
    assert(claims@.take(7) =~= claims@.subrange(0, 7));
    assert(claims@.take(7) == "{\"exp\":"@);
    assert(claims@.last() == '}');
    let body = claims.substring_char(7, n - 1);
    assert(body@ == claims@.subrange(7, claims@.len() - 1));
    let m = body.unicode_len();
    let mut k: usize = 0;
    while k < m && body.get_char(k) != ','
        invariant
            m == body@.len(),
            k <= m,
            forall|j: int| 0 <= j < k ==> body@[j] != ',',
        decreases m - k,
    {
        k = k + 1;
    }
    proof {
        lemma_first_comma_at(body@, k as int);
    }
    if k == m || k == 0 {
        return None;
    }
    assert(spec_first_comma(body@) == Some(k as int));
    let ghost digits = body@.take(k as int);
    let mut value: u64 = 0;
    let mut overflow = false;
    let mut i: usize = 0;
    while i < k
        invariant
            k < m,
            m == body@.len(),
            digits == body@.take(k as int),
            claims@.len() >= 8,
            claims@.take(7) == "{\"exp\":"@,
            claims@.last() == '}',
            body@ == claims@.subrange(7, claims@.len() - 1),
            spec_first_comma(body@) == Some(k as int),
            i <= k,
            spec_all_digits(body@.take(i as int)),
            !overflow ==> value == spec_digits_value(body@.take(i as int)),
            overflow ==> spec_digits_value(body@.take(i as int)) > u64::MAX,
        decreases k - i,
    {
        let c = body.get_char(i);
        let code = c as u32;
        if code < 48 || code > 57 {
            assert(digits[i as int] == c);
            assert(!spec_is_digit(digits[i as int]));
            assert(!spec_all_digits(digits));
            return None;
        }
        let d = (code - 48) as u64;
        proof {
            let next = body@.take(i + 1);
            assert(next.drop_last() =~= body@.take(i as int));
            assert forall|j: int| 0 <= j < next.len() implies spec_is_digit(#[trigger] next[j]) by {
                if j < i {
                    assert(next[j] == body@.take(i as int)[j]);
                }
            }
        }
        if !overflow {
            match value.checked_mul(10) {
                Some(v) => match v.checked_add(d) {
                    Some(v) => {
                        value = v;
                    },
                    None => {
                        overflow = true;
                    },
                },
                None => {
                    overflow = true;
                },
            }
        }
        i = i + 1;
    }
    proof {
        if overflow {
            lemma_digits_value_prefix(digits, k as int);
            assert(digits.take(k as int) =~= digits);
        }
    }
    let rest = body.substring_char(k, m);
    let len = rest.unicode_len();
    if len < 9 || !str_eq(rest.substring_char(0, 9), ",\"token\":") {
        return None;
    }
    let credentials = rest.substring_char(9, len);
    assert(credentials@ == body@.skip(k as int).skip(9));
    let fresh = overflow || now.secs <= LEEWAY || now.secs - LEEWAY <= value;
    if fresh {
        Some(String::from_str(credentials))
    } else {
        None
    }
}

impl AuthTokenExp {
    /// The claims of a token made at `now` that is valid for `duration`.
    pub fn new(token: String, duration: Duration, now: Duration) -> (r: AuthTokenExp)
        requires
            now.nanos < 1_000_000_000,
            duration.nanos < 1_000_000_000,
        ensures
            r.exp == spec_exp(now, duration),
            r.token == token,
    {
        let carry: u64 = if now.nanos + duration.nanos >= 1_000_000_000 {
            1
        } else {
            0
        };
        let secs = match now.secs.checked_add(duration.secs) {
            Some(s) => match s.checked_add(carry) {
                Some(s) => s,
                None => u64::MAX,
            },
            None => u64::MAX,
        };
        let exp: usize = if secs as u128 > usize::MAX as u128 {
            usize::MAX
        } else {
            secs as usize
        };
        AuthTokenExp { exp, token }
    }

    /// The claims of a token that expires at the given second.
    pub fn new_with_secs(token: String, secs: usize) -> (r: AuthTokenExp)
        ensures
            r.exp == secs,
            r.token == token,
    {
        AuthTokenExp { exp: secs, token }
    }

    /// The claims as JSON.
    pub fn claims(&self) -> (r: String)
        ensures
            r@ == spec_claims(self.exp, self.token@),
    {
        let mut r = String::from_str("{\"exp\":");
        r.append(decimal(self.exp as u64).as_str());
        r.append(",\"token\":");
        r.append(self.token.as_str());
        r.append("}");
        r
    }

    /// The token of the claims, signed with the secret.
    pub fn encode(&self, secret: &[u8]) -> (r: Result<String, JwtError>)
        ensures
            match r {
                Ok(token) => jwt_token(spec_claims(self.exp, self.token@), secret@) == Some(
                    token@,
                ),
                Err(_) => jwt_token(spec_claims(self.exp, self.token@), secret@) is None,
            },
            r matches Ok(token) ==> (jwt_claims(token@, secret@) is Some ==> jwt_claims(
                token@,
                secret@,
            ) == Some(spec_claims(self.exp, self.token@))),
    {
        proof {
            reveal_strlit("{\"exp\":");
            reveal_strlit("}");
        }
        let claims = self.claims();
        assert(claims@[0] == '{');
        jwt_encode(claims.as_str(), secret)
    }
}

/// Authenticate and authorize the user with the credentials of a token.
pub struct AuthToken<T>(pub T);

impl AuthToken<String> {
    /// The token of the credentials, given as JSON, made at `now` and valid for `duration`,
    /// signed with the secret; an error that the user is unauthenticated when signing fails.
    pub fn encode(self, secret: &[u8], duration: Duration, now: Duration) -> (r: Result<
        String,
        AuthError,
    >)
        requires
            now.nanos < 1_000_000_000,
            duration.nanos < 1_000_000_000,
        ensures
            ({
                let claims = spec_claims(spec_exp(now, duration) as usize, self.0@);
                match jwt_token(claims, secret@) {
                    Some(token) => r matches Ok(t) && t@ == token,
                    None => r == Err::<String, AuthError>(AuthError::Unauthenticated),
                }
            }),
            r matches Ok(t) ==> (jwt_claims(t@, secret@) is Some ==> jwt_claims(t@, secret@)
                == Some(spec_claims(spec_exp(now, duration) as usize, self.0@))),
    {
        let claims = AuthTokenExp::new(self.0, duration, now);
        match claims.encode(secret) {
            Ok(token) => Ok(token),
            Err(_) => Err(AuthError::Unauthenticated),
        }
    }

    /// The credentials, as JSON, of a token signed with the secret, at `now`; an error that
    /// the user is unauthenticated when the token is not valid, carries no credentials, or
    /// expired more than [`LEEWAY`] seconds before `now`.
    pub fn decode(token: &str, secret: &[u8], now: Duration) -> (r: Result<
        AuthToken<String>,
        AuthError,
    >)
        ensures
            match jwt_claims(token@, secret@) {
                Some(claims) => match spec_token_credentials(claims, now) {
                    Some(credentials) => r matches Ok(t) && t.0@ == credentials,
                    None => r == Err::<AuthToken<String>, AuthError>(AuthError::Unauthenticated),
                },
                None => r == Err::<AuthToken<String>, AuthError>(AuthError::Unauthenticated),
            },
    {
        Self::from_decoded(jwt_decode(token, secret), now)
    }

    /// The credentials of what decoding a token gave, at `now`: the credentials, as JSON, of
    /// valid claims that carry them and have not expired more than [`LEEWAY`] seconds before
    /// `now`; otherwise an error that the user is unauthenticated.
    pub fn from_decoded(decoded: Result<String, JwtError>, now: Duration) -> (r: Result<
        AuthToken<String>,
        AuthError,
    >)
        ensures
            match decoded {
                Ok(claims) => match spec_token_credentials(claims@, now) {
                    Some(credentials) => r matches Ok(t) && t.0@ == credentials,
                    None => r == Err::<AuthToken<String>, AuthError>(AuthError::Unauthenticated),
                },
                Err(_) => r == Err::<AuthToken<String>, AuthError>(AuthError::Unauthenticated),
            },
    {
        match decoded {
            Ok(claims) => match token_credentials(claims.as_str(), now) {
                Some(credentials) => Ok(AuthToken(credentials)),
                None => Err(AuthError::Unauthenticated),
            },
            Err(_) => Err(AuthError::Unauthenticated),
        }
    }
}

} // verus!
