//! Password-reset tokens: issuing one with its expiry, checking one, and
//! consuming it together with the password change.
use vstd::prelude::*;
use crate::externo::{cadena_aleatoria_32, es_alfanumerico};
use crate::usuario::Usuario;

verus! {

/// How long a reset token stays valid: 24 hours, in milliseconds.
pub const VIGENCIA_RESET_MS: i64 = 86400000;

/// A reset token as issued: 32 ASCII letters and digits.
pub open spec fn es_token_reset(t: Seq<char>) -> bool {
    t.len() == 32 && forall|i: int| 0 <= i < t.len() ==> #[trigger] es_alfanumerico(t[i])
}

pub open spec fn tiene_reset(u: Usuario, token: Seq<char>) -> bool {
    (u.reset_token matches Some(t) && t@ == token)
}

/// The user with a reset token issued.
pub open spec fn con_reset(u: Usuario, token: String, expira: i64) -> Usuario {
    Usuario {
        id: u.id,
        name: u.name,
        email: u.email,
        password: u.password,
        created_at: u.created_at,
        reset_token: Some(token),
        reset_token_expire: Some(expira),
    }
}

/// The user with a new password hash and the reset token consumed.
pub open spec fn con_clave_nueva(u: Usuario, hash: String) -> Usuario {
    Usuario {
        id: u.id,
        name: u.name,
        email: u.email,
        password: hash,
        created_at: u.created_at,
        reset_token: None,
        reset_token_expire: None,
    }
}

/// A fresh random reset token.
pub fn generar_token_reset() -> (r: String)
    ensures
        es_token_reset(r@),
{
    cadena_aleatoria_32()
}

/// The expiry of a token issued at `ahora`: 24 hours later, where that fits.
pub fn expiracion_reset(ahora: i64) -> (r: Option<i64>)
    ensures
        r == (if ahora <= i64::MAX - VIGENCIA_RESET_MS {
            Some((ahora + VIGENCIA_RESET_MS) as i64)
        } else {
            None::<i64>
        }),
{
    if ahora > i64::MAX - VIGENCIA_RESET_MS {
        None
    } else {
        Some(ahora + VIGENCIA_RESET_MS)
    }
}

/// Whether the user holds `token` and its expiry has not passed at `ahora`.
pub fn reset_valido(u: &Usuario, token: &String, ahora: i64) -> (r: bool)
    ensures
        r == (tiene_reset(*u, token@) && (u.reset_token_expire matches Some(e) && ahora <= e)),
{
    let coincide = match &u.reset_token {
        Some(t) => *t == *token,
        None => false,
    };
    coincide && match u.reset_token_expire {
        Some(e) => ahora <= e,
        None => false,
    }
}

/// Stores a reset token and its expiry in the user.
pub fn emitir_reset(u: &Usuario, token: String, expira: i64) -> (r: Usuario)
    ensures
        r == con_reset(*u, token, expira),
{
    let id = match &u.id {
        Some(x) => Some(x.clone()),
        None => None,
    };
    Usuario {
        id,
        name: u.name.clone(),
        email: u.email.clone(),
        password: u.password.clone(),
        created_at: u.created_at,
        reset_token: Some(token),
        reset_token_expire: Some(expira),
    }
}

/// Sets the new password hash and clears the token and its expiry, in one
/// record.
pub fn consumir_reset(u: &Usuario, hash: String) -> (r: Usuario)
    ensures
        r == con_clave_nueva(*u, hash),
{
    let id = match &u.id {
        Some(x) => Some(x.clone()),
        None => None,
    };
    Usuario {
        id,
        name: u.name.clone(),
        email: u.email.clone(),
        password: hash,
        created_at: u.created_at,
        reset_token: None,
        reset_token_expire: None,
    }
}

} // verus!
