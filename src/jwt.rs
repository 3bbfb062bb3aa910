//! Issuing and checking the signed bearer tokens that prove a user's identity.
use vstd::prelude::*;
use crate::externo::{ahora_segundos, codificar_jwt, decodificar_jwt, jwt_contenido};

verus! {

/// The default signing key of the process; the `_con_clave` functions take
/// the key as an argument instead.
pub const JWT_SECRET: &'static str = "tu_clave_secreta_super_segura_cambiar_en_produccion";

/// How long a token stays valid after it is issued: seven days, in seconds.
pub const VIGENCIA_TOKEN_SEGUNDOS: i64 = 604800;

/// What a token says: the subject (a user id) and its expiry in seconds.
#[derive(Debug)]
pub struct Claims {
    pub sub: String,
    pub exp: i64,
}

#[derive(PartialEq, Eq, Structural, Clone, Copy, Debug)]
pub enum ErrorToken {
    /// The token could not be signed, or its expiry could not be computed.
    Emision,
    /// The signature is wrong or the token is malformed.
    Invalido,
    /// The token's expiry lies in the past.
    Expirado,
}

/// What checking a token signed under `clave` at time `ahora` yields: its
/// subject and expiry, or why it is refused.
pub open spec fn verificacion_con(token: Seq<char>, clave: Seq<char>, ahora: int) -> Result<(Seq<char>, int), ErrorToken> {
    match jwt_contenido(token, clave) {
        None => Err(ErrorToken::Invalido),
        Some(c) => if ahora > c.1 {
            Err(ErrorToken::Expirado)
        } else {
            Ok(c)
        },
    }
}

/// Checking under the process-wide key.
pub open spec fn verificacion(token: Seq<char>, ahora: int) -> Result<(Seq<char>, int), ErrorToken> {
    verificacion_con(token, JWT_SECRET@, ahora)
}

/// Whether an expiry seven days after `ahora` is a non-negative `i64`.
pub open spec fn emision_posible(ahora: int) -> bool {
    0 <= ahora <= i64::MAX - VIGENCIA_TOKEN_SEGUNDOS
}

/// Issues a token for `user_id`, signed under `clave`, as at time `ahora`
/// (seconds), valid for seven days: it is issued exactly when that expiry is
/// representable, and checked at any time up to the expiry it gives `user_id`
/// back, after that it is refused as expired.
pub fn generar_token_con_clave(user_id: &str, clave: &str, ahora: i64) -> (r: Result<String, ErrorToken>)
    ensures
        r is Ok <==> emision_posible(ahora as int),
        r is Err ==> r == Err::<String, ErrorToken>(ErrorToken::Emision),
        r matches Ok(t) ==> forall|momento: int| #[trigger] verificacion_con(t@, clave@, momento) == (
            if momento > ahora + VIGENCIA_TOKEN_SEGUNDOS {
                Err(ErrorToken::Expirado)
            } else {
                Ok((user_id@, ahora + VIGENCIA_TOKEN_SEGUNDOS))
            }),
{
    if ahora < 0 || ahora > i64::MAX - VIGENCIA_TOKEN_SEGUNDOS {
        return Err(ErrorToken::Emision);
    }
    let exp: i64 = ahora + VIGENCIA_TOKEN_SEGUNDOS;
    match codificar_jwt(user_id, exp, clave) {
        Ok(t) => Ok(t),
        Err(_) => Err(ErrorToken::Emision),
    }
}

/// Issues a token under the process-wide key, as at time `ahora`.
pub fn generar_token_en(user_id: &str, ahora: i64) -> (r: Result<String, ErrorToken>)
    ensures
        r is Ok <==> emision_posible(ahora as int),
        r is Err ==> r == Err::<String, ErrorToken>(ErrorToken::Emision),
        r matches Ok(t) ==> forall|momento: int| #[trigger] verificacion(t@, momento) == (
            if momento > ahora + VIGENCIA_TOKEN_SEGUNDOS {
                Err(ErrorToken::Expirado)
            } else {
                Ok((user_id@, ahora + VIGENCIA_TOKEN_SEGUNDOS))
            }),
{
    let r = generar_token_con_clave(user_id, JWT_SECRET, ahora);
    proof {
        if let Ok(t) = &r {
            assert forall|momento: int| #[trigger] verificacion(t@, momento) == (
                if momento > ahora + VIGENCIA_TOKEN_SEGUNDOS {
                    Err(ErrorToken::Expirado)
                } else {
                    Ok((user_id@, ahora + VIGENCIA_TOKEN_SEGUNDOS))
                }) by {
                assert(verificacion_con(t@, JWT_SECRET@, momento) == verificacion(t@, momento));
            }
        }
    }
    r
}

/// Issues a token under the process-wide key, valid for seven days from now.
pub fn generar_token(user_id: &str) -> (r: Result<String, ErrorToken>)
    ensures
        r matches Ok(t) && exists|exp: int| #[trigger] jwt_contenido(t@, JWT_SECRET@) == Some((user_id@, exp)),
{
    let ahora = ahora_segundos();
    let r = generar_token_en(user_id, ahora);
    if let Ok(t) = &r {
        assert(verificacion(t@, ahora as int) == Ok::<(Seq<char>, int), ErrorToken>((user_id@, ahora + VIGENCIA_TOKEN_SEGUNDOS)));
    }
    r
}

/// Checks a token signed under `clave` at time `ahora` (seconds): its claims
/// where the signature holds and the expiry has not passed.
pub fn verificar_token_con_clave(token: &str, clave: &str, ahora: i64) -> (r: Result<Claims, ErrorToken>)
    ensures
        r matches Ok(c) ==> verificacion_con(token@, clave@, ahora as int) == Ok::<(Seq<char>, int), ErrorToken>((c.sub@, c.exp as int)),
        r matches Err(e) ==> verificacion_con(token@, clave@, ahora as int) == Err::<(Seq<char>, int), ErrorToken>(e),
{
    match decodificar_jwt(token, clave) {
        None => Err(ErrorToken::Invalido),
        Some((sub, exp)) => {
            if ahora > exp {
                Err(ErrorToken::Expirado)
            } else {
                Ok(Claims { sub, exp })
            }
        },
    }
}

/// Checks a token under the process-wide key at time `ahora`.
pub fn verificar_token_en(token: &str, ahora: i64) -> (r: Result<Claims, ErrorToken>)
    ensures
        r matches Ok(c) ==> verificacion(token@, ahora as int) == Ok::<(Seq<char>, int), ErrorToken>((c.sub@, c.exp as int)),
        r matches Err(e) ==> verificacion(token@, ahora as int) == Err::<(Seq<char>, int), ErrorToken>(e),
{
    verificar_token_con_clave(token, JWT_SECRET, ahora)
}

/// Checks a token under the process-wide key now.
pub fn verificar_token(token: &str) -> (r: Result<Claims, ErrorToken>)
    ensures
        r matches Ok(c) ==> jwt_contenido(token@, JWT_SECRET@) == Some((c.sub@, c.exp as int)),
        jwt_contenido(token@, JWT_SECRET@) is None ==> r == Err::<Claims, ErrorToken>(ErrorToken::Invalido),
{
    verificar_token_en(token, ahora_segundos())
}

/// A token that carries a subject and an expiry under a key is accepted, with
/// that subject, at any time up to the expiry, and refused as expired after it.
pub proof fn ley_token_vigencia(token: Seq<char>, clave: Seq<char>, sub: Seq<char>, exp: int, momento: int)
    requires
        jwt_contenido(token, clave) == Some((sub, exp)),
    ensures
        momento <= exp ==> verificacion_con(token, clave, momento) == Ok::<(Seq<char>, int), ErrorToken>((sub, exp)),
        momento > exp ==> verificacion_con(token, clave, momento) == Err::<(Seq<char>, int), ErrorToken>(ErrorToken::Expirado),
{
}

} // verus!
