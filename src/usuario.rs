//! User records, their public view, and the shapes of the auth requests.
use vstd::prelude::*;
use crate::externo::{ahora_ms, es_email, minusculas, minusculas_de, validar_email};

verus! {

/// A user. `password` holds the bcrypt hash, never the plaintext; times are in
/// milliseconds since the epoch. The reset token and its expiry are present
/// together or not at all.
#[derive(Debug)]
pub struct Usuario {
    pub id: Option<String>,
    pub name: String,
    pub email: String,
    pub password: String,
    pub created_at: i64,
    pub reset_token: Option<String>,
    pub reset_token_expire: Option<i64>,
}

#[derive(Debug)]
pub struct RegistroRequest {
    pub name: String,
    pub email: String,
    pub password: String,
}

#[derive(Debug)]
pub struct LoginRequest {
    pub email: String,
    pub password: String,
}

#[derive(Debug)]
pub struct ForgotPasswordRequest {
    pub email: String,
}

#[derive(Debug)]
pub struct ResetPasswordRequest {
    pub token: String,
    pub new_password: String,
}

#[derive(Debug)]
pub struct AuthResponse {
    pub success: bool,
    pub token: Option<String>,
    pub user: Option<UsuarioPublico>,
    pub message: String,
}

/// What a client may see of a user: no hash, no reset token.
#[derive(Debug)]
pub struct UsuarioPublico {
    pub id: String,
    pub name: String,
    pub email: String,
}

pub const MIN_NOMBRE: usize = 2;

pub const MIN_CLAVE: usize = 6;

pub open spec fn registro_valido(p: RegistroRequest) -> bool {
    p.name@.len() >= MIN_NOMBRE && es_email(p.email@) && p.password@.len() >= MIN_CLAVE
}

pub open spec fn es_publico_de(v: UsuarioPublico, u: Usuario) -> bool {
    &&& v.id@ == (match u.id {
        Some(i) => i@,
        None => Seq::<char>::empty(),
    })
    &&& v.name@ == u.name@
    &&& v.email@ == u.email@
}

impl RegistroRequest {
    pub fn es_valida(&self) -> (r: bool)
        ensures
            r == registro_valido(*self),
    {
        self.name.as_str().unicode_len() >= MIN_NOMBRE && validar_email(self.email.as_str())
            && self.password.as_str().unicode_len() >= MIN_CLAVE
    }
}

impl LoginRequest {
    pub fn es_valida(&self) -> (r: bool)
        ensures
            r == es_email(self.email@),
    {
        validar_email(self.email.as_str())
    }
}

impl ForgotPasswordRequest {
    pub fn es_valida(&self) -> (r: bool)
        ensures
            r == es_email(self.email@),
    {
        validar_email(self.email.as_str())
    }
}

impl ResetPasswordRequest {
    pub fn es_valida(&self) -> (r: bool)
        ensures
            r == (self.new_password@.len() >= MIN_CLAVE),
    {
        self.new_password.as_str().unicode_len() >= MIN_CLAVE
    }
}

impl Usuario {
    /// A user not yet stored, created at `ahora` (milliseconds), with the
    /// email in lower case and no reset token.
    pub fn nuevo_en(name: String, email: String, password_hash: String, ahora: i64) -> (r: Usuario)
        ensures
            r.id is None,
            r.name == name,
            r.email@ == minusculas_de(email@),
            r.password == password_hash,
            r.created_at == ahora,
            r.reset_token is None,
            r.reset_token_expire is None,
    {
        Usuario {
            id: None,
            name,
            email: minusculas(email.as_str()),
            password: password_hash,
            created_at: ahora,
            reset_token: None,
            reset_token_expire: None,
        }
    }

    /// A user not yet stored, created now, with the email in lower case and
    /// no reset token.
    pub fn nuevo(name: String, email: String, password_hash: String) -> (r: Usuario)
        ensures
            r.id is None,
            r.name == name,
            r.email@ == minusculas_de(email@),
            r.password == password_hash,
            r.created_at >= 0,
            r.reset_token is None,
            r.reset_token_expire is None,
    {
        Usuario::nuevo_en(name, email, password_hash, ahora_ms())
    }

    /// The public view: id (empty where the user has none), name and email.
    pub fn to_publico(&self) -> (r: UsuarioPublico)
        ensures
            es_publico_de(r, *self),
    {
        let id = match &self.id {
            Some(i) => i.clone(),
            None => String::new(),
        };
        UsuarioPublico { id, name: self.name.clone(), email: self.email.clone() }
    }
}

} // verus!
