//! The account lifecycle over the stored users: register, login, and the
//! forgot / reset password flow.
use vstd::prelude::*;
use crate::externo::{
    ahora_ms, bcrypt_verifica, es_email, es_object_id_canonico,
    jwt_contenido, minusculas, minusculas_de, nuevo_object_id,
};
use crate::credenciales::{hashear_clave, verificar_clave};
use crate::jwt::{generar_token, JWT_SECRET};
use crate::reset::{
    con_clave_nueva, con_reset, consumir_reset, emitir_reset, es_token_reset, expiracion_reset, generar_token_reset,
    tiene_reset, VIGENCIA_RESET_MS,
};
use crate::usuario::{
    es_publico_de, registro_valido, AuthResponse, ForgotPasswordRequest, LoginRequest, RegistroRequest,
    ResetPasswordRequest, Usuario, MIN_CLAVE,
};

verus! {

#[derive(PartialEq, Eq, Structural, Clone, Copy, Debug)]
pub enum AuthError {
    /// The request's fields do not have the required shape.
    Validacion,
    /// A user with that email already exists.
    EmailDuplicado,
    /// No user with that email, or the wrong password.
    CredencialesInvalidas,
    /// No user with that email or reset token.
    NoEncontrado,
    /// The user's reset token carries no expiry.
    TokenInvalido,
    /// The reset token's expiry has passed.
    TokenExpirado,
    /// Hashing, signing or the store failed.
    Interno,
}

impl AuthError {
    /// The HTTP status that answers the error.
    pub fn codigo_http(&self) -> (r: u16)
        ensures
            r == match *self {
                AuthError::Validacion => 400u16,
                AuthError::EmailDuplicado => 400u16,
                AuthError::CredencialesInvalidas => 401u16,
                AuthError::NoEncontrado => 404u16,
                AuthError::TokenInvalido => 400u16,
                AuthError::TokenExpirado => 400u16,
                AuthError::Interno => 500u16,
            },
    {
        match self {
            AuthError::Validacion => 400,
            AuthError::EmailDuplicado => 400,
            AuthError::CredencialesInvalidas => 401,
            AuthError::NoEncontrado => 404,
            AuthError::TokenInvalido => 400,
            AuthError::TokenExpirado => 400,
            AuthError::Interno => 500,
        }
    }
}

/// `i` is the first user whose email is `email`.
pub open spec fn primero_con_email(s: Seq<Usuario>, i: int, email: Seq<char>) -> bool {
    &&& 0 <= i < s.len()
    &&& s[i].email@ == email
    &&& forall|k: int| 0 <= k < i ==> (#[trigger] s[k]).email@ != email
}

/// `i` is a user whose email is `email`.
pub open spec fn con_email(s: Seq<Usuario>, i: int, email: Seq<char>) -> bool {
    0 <= i < s.len() && s[i].email@ == email
}

pub open spec fn tiene_id(u: Usuario, id: Seq<char>) -> bool {
    (u.id matches Some(x) && x@ == id)
}

/// `i` is a user whose reset token is `token`.
pub open spec fn posee_reset(s: Seq<Usuario>, i: int, token: Seq<char>) -> bool {
    0 <= i < s.len() && tiene_reset(s[i], token)
}

/// `i` is the first user whose reset token is `token`.
pub open spec fn primero_con_reset(s: Seq<Usuario>, i: int, token: Seq<char>) -> bool {
    &&& 0 <= i < s.len()
    &&& tiene_reset(s[i], token)
    &&& forall|k: int| 0 <= k < i ==> !tiene_reset(#[trigger] s[k], token)
}

/// A successful answer that carries a token for the user and its public view.
pub open spec fn respuesta_de(resp: AuthResponse, u: Usuario) -> bool {
    &&& resp.success
    &&& (resp.user matches Some(v) && es_publico_de(v, u))
    &&& (resp.token matches Some(t) && (u.id matches Some(id)
        && exists|exp: int| #[trigger] jwt_contenido(t@, JWT_SECRET@) == Some((id@, exp))))
}

/// The stored users, in the order the store keeps them.
#[derive(Debug)]
pub struct ColeccionUsuarios {
    pub usuarios: Vec<Usuario>,
}

impl ColeccionUsuarios {
    /// Every stored user has a canonical id, no two share an id, an email or a
    /// reset token, and each holds a reset token exactly when it holds its expiry.
    pub open spec fn bien_formada(&self) -> bool {
        &&& forall|i: int| 0 <= i < self.usuarios@.len() ==>
            ((#[trigger] self.usuarios@[i]).id matches Some(id) && es_object_id_canonico(id@))
        &&& forall|i: int, j: int| 0 <= i < self.usuarios@.len() && 0 <= j < self.usuarios@.len() && i != j
            ==> (#[trigger] self.usuarios@[i]).id->0@ != (#[trigger] self.usuarios@[j]).id->0@
        &&& forall|i: int, j: int| 0 <= i < self.usuarios@.len() && 0 <= j < self.usuarios@.len() && i != j
            ==> (#[trigger] self.usuarios@[i]).email@ != (#[trigger] self.usuarios@[j]).email@
        &&& forall|i: int, j: int| 0 <= i < self.usuarios@.len() && 0 <= j < self.usuarios@.len() && i != j
            && (#[trigger] self.usuarios@[i]).reset_token is Some && (#[trigger] self.usuarios@[j]).reset_token is Some
            ==> self.usuarios@[i].reset_token->0@ != self.usuarios@[j].reset_token->0@
        &&& forall|i: int| 0 <= i < self.usuarios@.len() ==>
            ((#[trigger] self.usuarios@[i]).reset_token is Some <==> self.usuarios@[i].reset_token_expire is Some)
    }

    pub open spec fn contiene_email(&self, email: Seq<char>) -> bool {
        exists|i: int| 0 <= i < self.usuarios@.len() && (#[trigger] self.usuarios@[i]).email@ == email
    }

    pub open spec fn contiene_id(&self, id: Seq<char>) -> bool {
        exists|i: int| 0 <= i < self.usuarios@.len() && tiene_id(#[trigger] self.usuarios@[i], id)
    }

    pub open spec fn contiene_reset(&self, token: Seq<char>) -> bool {
        exists|i: int| 0 <= i < self.usuarios@.len() && tiene_reset(#[trigger] self.usuarios@[i], token)
    }

    pub fn new() -> (r: ColeccionUsuarios)
        ensures
            r.bien_formada(),
            r.usuarios@.len() == 0,
    {
        ColeccionUsuarios { usuarios: Vec::new() }
    }

    /// The position of the first user with the given email.
    pub fn buscar_email(&self, email: &String) -> (r: Option<usize>)
        ensures
            r matches Some(i) ==> primero_con_email(self.usuarios@, i as int, email@),
            r is None ==> !self.contiene_email(email@),
    {
        let mut i: usize = 0;
        while i < self.usuarios.len()
            invariant
                i <= self.usuarios@.len(),
                forall|k: int| 0 <= k < i ==> (#[trigger] self.usuarios@[k]).email@ != email@,
            decreases self.usuarios@.len() - i,
        {
            if self.usuarios[i].email == *email {
                return Some(i);
            }
            i = i + 1;
        }
        None
    }

    /// The position of the user with the given id.
    pub fn buscar_id(&self, id: &String) -> (r: Option<usize>)
        ensures
            r matches Some(i) ==> i < self.usuarios@.len() && tiene_id(self.usuarios@[i as int], id@),
            r is None ==> !self.contiene_id(id@),
    {
        let mut i: usize = 0;
        while i < self.usuarios.len()
            invariant
                i <= self.usuarios@.len(),
                forall|k: int| 0 <= k < i ==> !tiene_id(#[trigger] self.usuarios@[k], id@),
            decreases self.usuarios@.len() - i,
        {
            let coincide = match &self.usuarios[i].id {
                Some(x) => *x == *id,
                None => false,
            };
            if coincide {
                return Some(i);
            }
            i = i + 1;
        }
        None
    }

    /// The position of the first user holding the given reset token.
    pub fn buscar_reset(&self, token: &String) -> (r: Option<usize>)
        ensures
            r matches Some(i) ==> primero_con_reset(self.usuarios@, i as int, token@),
            r is None ==> !self.contiene_reset(token@),
    {
        let mut i: usize = 0;
        while i < self.usuarios.len()
            invariant
                i <= self.usuarios@.len(),
                forall|k: int| 0 <= k < i ==> !tiene_reset(#[trigger] self.usuarios@[k], token@),
            decreases self.usuarios@.len() - i,
        {
            let coincide = match &self.usuarios[i].reset_token {
                Some(t) => *t == *token,
                None => false,
            };
            if coincide {
                return Some(i);
            }
            i = i + 1;
        }
        None
    }
}

/// Stores a new user under `id`, with an email already in lower case and not
/// yet held, a password hash, and the creation time `ahora`; answers with
/// `token` and the public view. Fails exactly when the id is already taken.
pub fn registrar_con(
    coleccion: &mut ColeccionUsuarios,
    name: String,
    email: String,
    hash: String,
    id: String,
    token: String,
    ahora: i64,
) -> (r: Result<AuthResponse, AuthError>)
    requires
        old(coleccion).bien_formada(),
        es_object_id_canonico(id@),
        !old(coleccion).contiene_email(email@),
    ensures
        final(coleccion).bien_formada(),
        r is Err <==> old(coleccion).contiene_id(id@),
        r is Err ==> r == Err::<AuthResponse, AuthError>(AuthError::Interno) && *final(coleccion) == *old(coleccion),
        r matches Ok(resp) ==> {
            let u = Usuario {
                id: Some(id),
                name,
                email,
                password: hash,
                created_at: ahora,
                reset_token: None,
                reset_token_expire: None,
            };
            &&& final(coleccion).usuarios@ == old(coleccion).usuarios@.push(u)
            &&& resp.success
            &&& resp.token == Some(token)
            &&& (resp.user matches Some(v) && es_publico_de(v, u))
        },
{
    if coleccion.buscar_id(&id).is_some() {
        return Err(AuthError::Interno);
    }
    let usuario = Usuario {
        id: Some(id),
        name,
        email,
        password: hash,
        created_at: ahora,
        reset_token: None,
        reset_token_expire: None,
    };
    let publico = usuario.to_publico();
    coleccion.usuarios.push(usuario);
    proof {
        let s = coleccion.usuarios@;
        let o = old(coleccion).usuarios@;
        assert(s.last() == usuario);
        assert forall|i: int, j: int| 0 <= i < s.len() && 0 <= j < s.len() && i != j
            implies (#[trigger] s[i]).id->0@ != (#[trigger] s[j]).id->0@ by {
            if i == s.len() - 1 {
                assert(!tiene_id(o[j], id@));
            } else if j == s.len() - 1 {
                assert(!tiene_id(o[i], id@));
            }
        }
        assert forall|i: int, j: int| 0 <= i < s.len() && 0 <= j < s.len() && i != j
            implies (#[trigger] s[i]).email@ != (#[trigger] s[j]).email@ by {
            if i == s.len() - 1 {
                assert(o[j].email@ != email@);
            } else if j == s.len() - 1 {
                assert(o[i].email@ != email@);
            }
        }
    }
    Ok(AuthResponse {
        success: true,
        token: Some(token),
        user: Some(publico),
        message: "Usuario registrado exitosamente".to_owned(),
    })
}

/// Registers a user: the request must be valid and its email, in lower case,
/// new. The user is stored with the password hashed and no reset token, and
/// the answer carries a token for the new id and the public view.
pub fn registro(coleccion: &mut ColeccionUsuarios, payload: RegistroRequest) -> (r: Result<AuthResponse, AuthError>)
    requires
        old(coleccion).bien_formada(),
    ensures
        final(coleccion).bien_formada(),
        !registro_valido(payload) ==> r == Err::<AuthResponse, AuthError>(AuthError::Validacion),
        registro_valido(payload) && old(coleccion).contiene_email(minusculas_de(payload.email@))
            ==> r == Err::<AuthResponse, AuthError>(AuthError::EmailDuplicado),
        registro_valido(payload) && !old(coleccion).contiene_email(minusculas_de(payload.email@))
            ==> r is Ok || r == Err::<AuthResponse, AuthError>(AuthError::Interno),
        r is Err ==> *final(coleccion) == *old(coleccion),
        r matches Ok(resp) ==> {
            let u = final(coleccion).usuarios@.last();
            &&& final(coleccion).usuarios@ == old(coleccion).usuarios@.push(u)
            &&& u.name == payload.name
            &&& u.email@ == minusculas_de(payload.email@)
            &&& bcrypt_verifica(payload.password@, u.password@) == Some(true)
            &&& u.reset_token is None
            &&& u.reset_token_expire is None
            &&& respuesta_de(resp, u)
        },
{
    if !payload.es_valida() {
        return Err(AuthError::Validacion);
    }
    let email = minusculas(payload.email.as_str());
    if coleccion.buscar_email(&email).is_some() {
        return Err(AuthError::EmailDuplicado);
    }
    let hash = match hashear_clave(payload.password.as_str()) {
        Ok(h) => h,
        Err(_) => return Err(AuthError::Interno),
    };
    let id = nuevo_object_id();
    let token = match generar_token(id.as_str()) {
        Ok(t) => t,
        Err(_) => return Err(AuthError::Interno),
    };
    registrar_con(coleccion, payload.name, email, hash, id, token, ahora_ms())
}

/// Logs a user in by email (compared in lower case) and password. An unknown
/// email and a wrong password give the same error.
pub fn login(coleccion: &ColeccionUsuarios, payload: LoginRequest) -> (r: Result<AuthResponse, AuthError>)
    requires
        coleccion.bien_formada(),
    ensures
        !es_email(payload.email@) ==> r == Err::<AuthResponse, AuthError>(AuthError::Validacion),
        es_email(payload.email@) && !coleccion.contiene_email(minusculas_de(payload.email@))
            ==> r == Err::<AuthResponse, AuthError>(AuthError::CredencialesInvalidas),
        forall|i: int| es_email(payload.email@)
            && #[trigger] con_email(coleccion.usuarios@, i, minusculas_de(payload.email@)) ==> {
                let u = coleccion.usuarios@[i];
                &&& bcrypt_verifica(payload.password@, u.password@) == Some(false)
                    ==> r == Err::<AuthResponse, AuthError>(AuthError::CredencialesInvalidas)
                &&& bcrypt_verifica(payload.password@, u.password@) is None
                    ==> r == Err::<AuthResponse, AuthError>(AuthError::Interno)
                &&& bcrypt_verifica(payload.password@, u.password@) == Some(true) ==> r is Ok
                &&& r matches Ok(resp) ==> respuesta_de(resp, u)
            },
{
    if !payload.es_valida() {
        return Err(AuthError::Validacion);
    }
    let email = minusculas(payload.email.as_str());
    let i = match coleccion.buscar_email(&email) {
        Some(i) => i,
        None => return Err(AuthError::CredencialesInvalidas),
    };
    let usuario = &coleccion.usuarios[i];
    proof {
        assert forall|k: int| #[trigger] con_email(coleccion.usuarios@, k, email@) implies k == i by {
            if k != i {
                assert(coleccion.usuarios@[k].email@ != coleccion.usuarios@[i as int].email@);
            }
        }
    }
    match verificar_clave(payload.password.as_str(), usuario.password.as_str()) {
        Ok(true) => {
            let id = match &usuario.id {
                Some(id) => id,
                None => return Err(AuthError::Interno),
            };
            let token = match generar_token(id.as_str()) {
                Ok(t) => t,
                Err(_) => return Err(AuthError::Interno),
            };
            Ok(AuthResponse {
                success: true,
                token: Some(token),
                user: Some(usuario.to_publico()),
                message: "Inicio de sesión exitoso".to_owned(),
            })
        },
        Ok(false) => Err(AuthError::CredencialesInvalidas),
        Err(_) => Err(AuthError::Interno),
    }
}

/// Issues a reset token to the user with the given email (in lower case), as
/// at time `ahora` (milliseconds): 32 random letters and digits, stored with
/// an expiry 24 hours later and returned.
pub fn forgot_password_en(coleccion: &mut ColeccionUsuarios, payload: ForgotPasswordRequest, ahora: i64) -> (r: Result<String, AuthError>)
    requires
        old(coleccion).bien_formada(),
    ensures
        final(coleccion).bien_formada(),
        !es_email(payload.email@) ==> r == Err::<String, AuthError>(AuthError::Validacion),
        es_email(payload.email@) && !old(coleccion).contiene_email(minusculas_de(payload.email@))
            ==> r == Err::<String, AuthError>(AuthError::NoEncontrado),
        r is Err ==> *final(coleccion) == *old(coleccion),
        forall|i: int| es_email(payload.email@)
            && #[trigger] con_email(old(coleccion).usuarios@, i, minusculas_de(payload.email@)) ==> {
                &&& ahora <= i64::MAX - VIGENCIA_RESET_MS
                    && (forall|k: int| 0 <= k < old(coleccion).usuarios@.len() && k != i
                        ==> (#[trigger] old(coleccion).usuarios@[k]).reset_token is None)
                    ==> r is Ok
                &&& r is Err ==> r == Err::<String, AuthError>(AuthError::Interno)
                &&& ahora > i64::MAX - VIGENCIA_RESET_MS ==> r == Err::<String, AuthError>(AuthError::Interno)
                &&& r matches Ok(t) ==> {
                    &&& es_token_reset(t@)
                    &&& final(coleccion).usuarios@ == old(coleccion).usuarios@.update(
                        i, con_reset(old(coleccion).usuarios@[i], t, (ahora + VIGENCIA_RESET_MS) as i64))
                }
            },
{
    if !payload.es_valida() {
        return Err(AuthError::Validacion);
    }
    let email = minusculas(payload.email.as_str());
    let i = match coleccion.buscar_email(&email) {
        Some(i) => i,
        None => return Err(AuthError::NoEncontrado),
    };
    proof {
        assert forall|k: int| #[trigger] con_email(old(coleccion).usuarios@, k, email@) implies k == i by {
            if k != i {
                assert(old(coleccion).usuarios@[k].email@ != old(coleccion).usuarios@[i as int].email@);
            }
        }
    }
    let expira = match expiracion_reset(ahora) {
        Some(e) => e,
        None => return Err(AuthError::Interno),
    };
    let token = generar_token_reset();
    let en_uso = coleccion.buscar_reset(&token);
    if let Some(k) = en_uso {
        if k != i {
            return Err(AuthError::Interno);
        }
    }
    let actualizado = emitir_reset(&coleccion.usuarios[i], token.clone(), expira);
    coleccion.usuarios.set(i, actualizado);
    proof {
        let s = coleccion.usuarios@;
        let o = old(coleccion).usuarios@;
        assert forall|b: int| 0 <= b < o.len() && b != i implies !tiene_reset(#[trigger] o[b], token@) by {
            if tiene_reset(o[b], token@) {
                let k = en_uso->0 as int;
                assert(primero_con_reset(o, k, token@));
                assert(k == i);
                assert(o[b].reset_token->0@ != o[k].reset_token->0@);
            }
        }
        assert forall|a: int, b: int| 0 <= a < s.len() && 0 <= b < s.len() && a != b
            && (#[trigger] s[a]).reset_token is Some && (#[trigger] s[b]).reset_token is Some
            implies s[a].reset_token->0@ != s[b].reset_token->0@ by {
            if a == i {
                assert(!tiene_reset(o[b], token@));
            } else if b == i {
                assert(!tiene_reset(o[a], token@));
            } else {
                assert(o[a].reset_token->0@ != o[b].reset_token->0@);
            }
        }
        assert forall|a: int| 0 <= a < s.len() implies (#[trigger] s[a]).id == o[a].id && s[a].email == o[a].email by {}
        assert forall|a: int, b: int| 0 <= a < s.len() && 0 <= b < s.len() && a != b
            implies (#[trigger] s[a]).id->0@ != (#[trigger] s[b]).id->0@ by {
            assert(o[a].id->0@ != o[b].id->0@);
        }
        assert forall|a: int, b: int| 0 <= a < s.len() && 0 <= b < s.len() && a != b
            implies (#[trigger] s[a]).email@ != (#[trigger] s[b]).email@ by {
            assert(o[a].email@ != o[b].email@);
        }
    }
    Ok(token)
}

/// Issues a reset token to the user with the given email (in lower case),
/// with an expiry 24 hours from now.
pub fn forgot_password(coleccion: &mut ColeccionUsuarios, payload: ForgotPasswordRequest) -> (r: Result<String, AuthError>)
    requires
        old(coleccion).bien_formada(),
    ensures
        final(coleccion).bien_formada(),
        !es_email(payload.email@) ==> r == Err::<String, AuthError>(AuthError::Validacion),
        es_email(payload.email@) && !old(coleccion).contiene_email(minusculas_de(payload.email@))
            ==> r == Err::<String, AuthError>(AuthError::NoEncontrado),
        r is Err ==> *final(coleccion) == *old(coleccion),
        forall|i: int| es_email(payload.email@)
            && #[trigger] con_email(old(coleccion).usuarios@, i, minusculas_de(payload.email@)) ==> {
                &&& (forall|k: int| 0 <= k < old(coleccion).usuarios@.len() && k != i
                    ==> (#[trigger] old(coleccion).usuarios@[k]).reset_token is None) ==> r is Ok
                &&& r is Err ==> r == Err::<String, AuthError>(AuthError::Interno)
                &&& r matches Ok(t) ==> {
                    &&& es_token_reset(t@)
                    &&& final(coleccion).usuarios@ == old(coleccion).usuarios@.update(
                        i, con_reset(old(coleccion).usuarios@[i], t, final(coleccion).usuarios@[i].reset_token_expire->0))
                }
            },
{
    let ahora = ahora_ms();
    forgot_password_en(coleccion, payload, ahora)
}

/// Sets a new password with a reset token, as at time `ahora` (milliseconds):
/// the user holding the token must have an expiry not yet passed. The
/// password hash changes and the token and its expiry are cleared together.
pub fn reset_password_en(coleccion: &mut ColeccionUsuarios, payload: ResetPasswordRequest, ahora: i64) -> (r: Result<(), AuthError>)
    requires
        old(coleccion).bien_formada(),
    ensures
        final(coleccion).bien_formada(),
        payload.new_password@.len() < MIN_CLAVE ==> r == Err::<(), AuthError>(AuthError::Validacion),
        payload.new_password@.len() >= MIN_CLAVE && !old(coleccion).contiene_reset(payload.token@)
            ==> r == Err::<(), AuthError>(AuthError::NoEncontrado),
        r is Err ==> *final(coleccion) == *old(coleccion),
        forall|i: int| payload.new_password@.len() >= MIN_CLAVE
            && #[trigger] posee_reset(old(coleccion).usuarios@, i, payload.token@) ==> {
                let u = old(coleccion).usuarios@[i];
                &&& u.reset_token_expire is None ==> r == Err::<(), AuthError>(AuthError::TokenInvalido)
                &&& (u.reset_token_expire matches Some(e) && ahora > e)
                    ==> r == Err::<(), AuthError>(AuthError::TokenExpirado)
                &&& (u.reset_token_expire matches Some(e) && ahora <= e)
                    ==> r is Ok || r == Err::<(), AuthError>(AuthError::Interno)
                &&& r is Ok ==> {
                    let n = final(coleccion).usuarios@[i];
                    &&& final(coleccion).usuarios@ == old(coleccion).usuarios@.update(i, con_clave_nueva(u, n.password))
                    &&& bcrypt_verifica(payload.new_password@, n.password@) == Some(true)
                }
            },
{
    if !payload.es_valida() {
        return Err(AuthError::Validacion);
    }
    let i = match coleccion.buscar_reset(&payload.token) {
        Some(i) => i,
        None => return Err(AuthError::NoEncontrado),
    };
    proof {
        let o = old(coleccion).usuarios@;
        assert forall|k: int| #[trigger] posee_reset(o, k, payload.token@) implies k == i by {
            if k != i {
                assert(o[k].reset_token->0@ != o[i as int].reset_token->0@);
            }
        }
    }
    match coleccion.usuarios[i].reset_token_expire {
        Some(expira) => {
            if ahora > expira {
                return Err(AuthError::TokenExpirado);
            }
        },
        None => return Err(AuthError::TokenInvalido),
    }
    let hash = match hashear_clave(payload.new_password.as_str()) {
        Ok(h) => h,
        Err(_) => return Err(AuthError::Interno),
    };
    let actualizado = consumir_reset(&coleccion.usuarios[i], hash);
    coleccion.usuarios.set(i, actualizado);
    proof {
        let s = coleccion.usuarios@;
        let o = old(coleccion).usuarios@;
        assert forall|a: int| 0 <= a < s.len() implies (#[trigger] s[a]).id == o[a].id && s[a].email == o[a].email by {}
        assert forall|a: int, b: int| 0 <= a < s.len() && 0 <= b < s.len() && a != b
            implies (#[trigger] s[a]).id->0@ != (#[trigger] s[b]).id->0@ by {
            assert(o[a].id->0@ != o[b].id->0@);
        }
        assert forall|a: int, b: int| 0 <= a < s.len() && 0 <= b < s.len() && a != b
            implies (#[trigger] s[a]).email@ != (#[trigger] s[b]).email@ by {
            assert(o[a].email@ != o[b].email@);
        }
    }
    Ok(())
}

/// Sets a new password with a reset token, now.
pub fn reset_password(coleccion: &mut ColeccionUsuarios, payload: ResetPasswordRequest) -> (r: Result<(), AuthError>)
    requires
        old(coleccion).bien_formada(),
    ensures
        final(coleccion).bien_formada(),
        payload.new_password@.len() < MIN_CLAVE ==> r == Err::<(), AuthError>(AuthError::Validacion),
        payload.new_password@.len() >= MIN_CLAVE && !old(coleccion).contiene_reset(payload.token@)
            ==> r == Err::<(), AuthError>(AuthError::NoEncontrado),
        r is Err ==> *final(coleccion) == *old(coleccion),
        forall|i: int| payload.new_password@.len() >= MIN_CLAVE
            && #[trigger] posee_reset(old(coleccion).usuarios@, i, payload.token@) ==> {
                let u = old(coleccion).usuarios@[i];
                &&& u.reset_token_expire is None ==> r == Err::<(), AuthError>(AuthError::TokenInvalido)
                &&& r is Ok ==> {
                    let n = final(coleccion).usuarios@[i];
                    &&& final(coleccion).usuarios@ == old(coleccion).usuarios@.update(i, con_clave_nueva(u, n.password))
                    &&& bcrypt_verifica(payload.new_password@, n.password@) == Some(true)
                }
            },
{
    let ahora = ahora_ms();
    reset_password_en(coleccion, payload, ahora)
}

} // verus!
