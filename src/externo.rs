//! The calls into outside crates that the library relies on, each behind a
//! small trusted item whose contract states what the crate's source shows.
use vstd::prelude::*;

verus! {

#[verifier::external_type_specification]
#[verifier::external_body]
pub struct ExBcryptError(bcrypt::BcryptError);

#[verifier::external_type_specification]
#[verifier::external_body]
pub struct ExJwtError(jsonwebtoken::errors::Error);

/// What bcrypt's `verify` answers for a plaintext and a stored hash: `None`
/// where the hash is malformed, else whether the plaintext matches it.
pub uninterp spec fn bcrypt_verifica(clave: Seq<char>, hash: Seq<char>) -> Option<bool>;

/// The lower-case form of a string, as `str::to_lowercase` gives it.
pub uninterp spec fn minusculas_de(s: Seq<char>) -> Seq<char>;

/// Whether validator's email check accepts a string.
pub uninterp spec fn es_email(s: Seq<char>) -> bool;

/// The subject and expiry that jsonwebtoken's `decode` reads from a token
/// signed with HS256 under a key, or `None` where it rejects the token or the
/// token lacks a string subject or an integer expiry.
pub uninterp spec fn jwt_contenido(token: Seq<char>, clave: Seq<char>) -> Option<(Seq<char>, int)>;

pub open spec fn es_alfanumerico(c: char) -> bool {
    ('a' <= c && c <= 'z') || ('A' <= c && c <= 'Z') || ('0' <= c && c <= '9')
}

pub open spec fn es_digito_hex(c: char) -> bool {
    ('a' <= c && c <= 'f') || ('A' <= c && c <= 'F') || ('0' <= c && c <= '9')
}

/// The text of an object id: 24 hexadecimal digits, in either case.
pub open spec fn es_object_id(s: Seq<char>) -> bool {
    s.len() == 24 && forall|i: int| 0 <= i < s.len() ==> #[trigger] es_digito_hex(s[i])
}

pub open spec fn digito_minuscula(c: char) -> char {
    if 'A' <= c && c <= 'F' {
        ((c as u32) + 32) as char
    } else {
        c
    }
}

/// The canonical text of an object id: its hexadecimal digits in lower case.
pub open spec fn object_id_canonico(s: Seq<char>) -> Seq<char> {
    s.map_values(|c: char| digito_minuscula(c))
}

pub open spec fn es_object_id_canonico(s: Seq<char>) -> bool {
    es_object_id(s) && object_id_canonico(s) == s
}

/// Relies on bcrypt::hash at the default cost: with a valid cost it fails only
/// where the system's randomness fails, and `verify` accepts the plaintext
/// against what it returns.
#[verifier::external_body]
pub(crate) fn hashear_bcrypt(clave: &str) -> (r: Result<String, bcrypt::BcryptError>)
    ensures
        r matches Ok(h) ==> bcrypt_verifica(clave@, h@) == Some(true),
{
    bcrypt::hash(clave, bcrypt::DEFAULT_COST)
}

/// Relies on bcrypt::verify: an error for a malformed hash, else whether the
/// plaintext matches.
#[verifier::external_body]
pub(crate) fn verificar_bcrypt(clave: &str, hash: &str) -> (r: Result<bool, bcrypt::BcryptError>)
    ensures
        r is Ok <==> bcrypt_verifica(clave@, hash@) is Some,
        r matches Ok(b) ==> bcrypt_verifica(clave@, hash@) == Some(b),
{
    bcrypt::verify(clave, hash)
}

/// Relies on str::to_lowercase: the result depends on the characters alone.
#[verifier::external_body]
pub(crate) fn minusculas(s: &str) -> (r: String)
    ensures
        r@ == minusculas_de(s@),
{
    s.to_lowercase()
}

/// Relies on validator::validate_email, the check of email syntax.
#[verifier::external_body]
pub(crate) fn validar_email(s: &str) -> (r: bool)
    ensures
        r == es_email(s@),
{
    validator::validate_email(s)
}

/// Relies on rand's thread generator and its `Alphanumeric` distribution:
/// 32 characters, each an ASCII letter or digit.
#[verifier::external_body]
pub(crate) fn cadena_aleatoria_32() -> (r: String)
    ensures
        r@.len() == 32,
        forall|i: int| 0 <= i < r@.len() ==> #[trigger] es_alfanumerico(r@[i]),
{
    rand::Rng::sample_iter(rand::thread_rng(), &rand::distributions::Alphanumeric)
        .take(32)
        .map(char::from)
        .collect()
}

/// Relies on chrono's `Utc::now` and `timestamp_millis`: the current time in
/// milliseconds since the epoch. `Utc::now` panics on a clock before the
/// epoch, and chrono's dates end within the year 262143.
#[verifier::external_body]
pub(crate) fn ahora_ms() -> (r: i64)
    ensures
        0 <= r <= 8_300_000_000_000_000,
{
    chrono::Utc::now().timestamp_millis()
}

/// Relies on chrono's `Utc::now` and `timestamp`: the current time in seconds
/// since the epoch, bounded as in `ahora_ms`.
#[verifier::external_body]
pub(crate) fn ahora_segundos() -> (r: i64)
    ensures
        0 <= r <= 8_300_000_000_000,
{
    chrono::Utc::now().timestamp()
}

/// Relies on bson's `ObjectId::parse_str`, which takes 24 hexadecimal digits
/// of either case, and on `ObjectId::to_hex`, which writes them in lower case.
#[verifier::external_body]
pub(crate) fn canonizar_object_id(s: &str) -> (r: Option<String>)
    ensures
        r is Some <==> es_object_id(s@),
        r matches Some(c) ==> c@ == object_id_canonico(s@),
{
    match bson::oid::ObjectId::parse_str(s) {
        Ok(o) => Some(o.to_hex()),
        Err(_) => None,
    }
}

/// Relies on bson's `ObjectId::new` (time, process and counter) and
/// `ObjectId::to_hex`: 24 lower-case hexadecimal digits.
#[verifier::external_body]
pub(crate) fn nuevo_object_id() -> (r: String)
    ensures
        es_object_id_canonico(r@),
{
    bson::oid::ObjectId::new().to_hex()
}

/// Relies on jsonwebtoken::encode with the default HS256 header, on claims
/// `{"sub": sub, "exp": exp}`: an HMAC key matches the header, the header and
/// a JSON map always serialise and HS256 signing cannot fail, so it succeeds;
/// `decode` under the same key, with the expiry left to the caller, gives the
/// same subject and a non-negative expiry back.
#[verifier::external_body]
pub(crate) fn codificar_jwt(sub: &str, exp: i64, clave: &str) -> (r: Result<String, jsonwebtoken::errors::Error>)
    ensures
        r is Ok,
        r matches Ok(t) ==> (exp >= 0 ==> jwt_contenido(t@, clave@) == Some((sub@, exp as int))),
{
    let mut claims = serde_json::Map::new();
    claims.insert("sub".to_string(), serde_json::Value::from(sub));
    claims.insert("exp".to_string(), serde_json::Value::from(exp));
    let llave = jsonwebtoken::EncodingKey::from_secret(clave.as_bytes());
    jsonwebtoken::encode(&jsonwebtoken::Header::default(), &serde_json::Value::Object(claims), &llave)
}

/// Relies on jsonwebtoken::decode with the default validation but for the
/// expiry, which the caller checks: the subject and expiry of a token signed
/// under the key, or `None`.
#[verifier::external_body]
pub(crate) fn decodificar_jwt(token: &str, clave: &str) -> (r: Option<(String, i64)>)
    ensures
        r is Some <==> jwt_contenido(token@, clave@) is Some,
        r matches Some(c) ==> jwt_contenido(token@, clave@) == Some((c.0@, c.1 as int)),
{
    let mut validacion = jsonwebtoken::Validation::default();
    validacion.validate_exp = false;
    let llave = jsonwebtoken::DecodingKey::from_secret(clave.as_bytes());
    let datos = jsonwebtoken::decode::<serde_json::Value>(token, &llave, &validacion).ok()?;
    let exp = datos.claims.get("exp").and_then(serde_json::Value::as_i64)?;
    match datos.claims.get("sub") {
        Some(serde_json::Value::String(sub)) => Some((sub.clone(), exp)),
        _ => None,
    }
}

} // verus!
