//! One-way hashing of passwords, and checking a password against a hash.
use vstd::prelude::*;
use crate::externo::{bcrypt_verifica, hashear_bcrypt, verificar_bcrypt};

verus! {

#[derive(PartialEq, Eq, Structural, Clone, Copy, Debug)]
pub enum ErrorHash {
    /// Hashing failed, or the stored hash is malformed.
    Hashing,
}

/// Hashes a plaintext with a fresh salt. Whatever hash comes back, checking
/// the same plaintext against it succeeds.
pub fn hashear_clave(clave: &str) -> (r: Result<String, ErrorHash>)
    ensures
        r matches Ok(h) ==> bcrypt_verifica(clave@, h@) == Some(true),
        r is Err ==> r == Err::<String, ErrorHash>(ErrorHash::Hashing),
{
    match hashear_bcrypt(clave) {
        Ok(h) => Ok(h),
        Err(_) => Err(ErrorHash::Hashing),
    }
}

/// Whether a plaintext matches a hash; an error only for a malformed hash.
pub fn verificar_clave(clave: &str, hash: &str) -> (r: Result<bool, ErrorHash>)
    ensures
        r matches Ok(b) ==> bcrypt_verifica(clave@, hash@) == Some(b),
        r is Err <==> bcrypt_verifica(clave@, hash@) is None,
        r is Err ==> r == Err::<bool, ErrorHash>(ErrorHash::Hashing),
{
    match verificar_bcrypt(clave, hash) {
        Ok(b) => Ok(b),
        Err(_) => Err(ErrorHash::Hashing),
    }
}

} // verus!
