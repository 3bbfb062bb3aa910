use todo_api::auth::{
    forgot_password, login, registro, reset_password, reset_password_en, AuthError, ColeccionUsuarios,
};
use todo_api::credenciales::{hashear_clave, verificar_clave, ErrorHash};
use todo_api::jwt::verificar_token;
use todo_api::usuario::{
    ForgotPasswordRequest, LoginRequest, RegistroRequest, ResetPasswordRequest, Usuario,
};

fn reg(name: &str, email: &str, password: &str) -> RegistroRequest {
    RegistroRequest { name: name.to_string(), email: email.to_string(), password: password.to_string() }
}

fn log(email: &str, password: &str) -> LoginRequest {
    LoginRequest { email: email.to_string(), password: password.to_string() }
}

#[test]
fn escenario_registro_y_login() {
    let mut c = ColeccionUsuarios::new();
    let r = registro(&mut c, reg("Al", "A@X.com", "secret1")).unwrap();
    assert!(r.success);
    assert_eq!(c.usuarios.len(), 1);
    assert_eq!(c.usuarios[0].email, "a@x.com");
    assert_ne!(c.usuarios[0].password, "secret1");
    let user = r.user.unwrap();
    assert_eq!(user.email, "a@x.com");
    assert_eq!(user.name, "Al");
    assert_eq!(Some(user.id.clone()), c.usuarios[0].id);
    let claims = verificar_token(&r.token.unwrap()).unwrap();
    assert_eq!(claims.sub, user.id);

    let ok = login(&c, log("a@X.COM", "secret1")).unwrap();
    assert!(ok.success);
    assert!(ok.token.is_some());
    assert_eq!(ok.user.unwrap().id, user.id);

    let e = login(&c, log("a@x.com", "wrong12")).unwrap_err();
    assert_eq!(e, AuthError::CredencialesInvalidas);
    assert_eq!(e.codigo_http(), 401);
}

#[test]
fn email_duplicado_falla_sin_importar_mayusculas() {
    let mut c = ColeccionUsuarios::new();
    registro(&mut c, reg("Al", "a@x.com", "secret1")).unwrap();
    let e = registro(&mut c, reg("Otro", "A@X.COM", "otra-clave")).unwrap_err();
    assert_eq!(e, AuthError::EmailDuplicado);
    assert_eq!(e.codigo_http(), 400);
    assert_eq!(c.usuarios.len(), 1);
}

#[test]
fn registro_invalido_da_400() {
    let mut c = ColeccionUsuarios::new();
    for p in [reg("A", "a@x.com", "secret1"), reg("Al", "no-es-email", "secret1"), reg("Al", "a@x.com", "12345")] {
        let e = registro(&mut c, p).unwrap_err();
        assert_eq!(e, AuthError::Validacion);
        assert_eq!(e.codigo_http(), 400);
    }
    assert!(c.usuarios.is_empty());
    assert!(reg("Al", "a@x.com", "123456").es_valida());
    assert!(reg("Añ", "a@x.com", "ññññññ").es_valida());
}

#[test]
fn login_con_email_desconocido_o_invalido() {
    let c = ColeccionUsuarios::new();
    assert_eq!(login(&c, log("nadie@x.com", "secret1")).unwrap_err(), AuthError::CredencialesInvalidas);
    assert_eq!(login(&c, log("nadie", "secret1")).unwrap_err(), AuthError::Validacion);
}

#[test]
fn escenario_olvido_y_reseteo() {
    let mut c = ColeccionUsuarios::new();
    let e = forgot_password(&mut c, ForgotPasswordRequest { email: "nadie@x.com".to_string() }).unwrap_err();
    assert_eq!(e, AuthError::NoEncontrado);
    assert_eq!(e.codigo_http(), 404);

    registro(&mut c, reg("Al", "a@x.com", "secret1")).unwrap();
    let token = forgot_password(&mut c, ForgotPasswordRequest { email: "A@x.com".to_string() }).unwrap();
    assert_eq!(token.len(), 32);
    assert!(token.chars().all(|ch| ch.is_ascii_alphanumeric()));
    assert_eq!(c.usuarios[0].reset_token, Some(token.clone()));
    assert!(c.usuarios[0].reset_token_expire.is_some());

    reset_password(&mut c, ResetPasswordRequest { token: token.clone(), new_password: "newpass1".to_string() }).unwrap();
    assert!(c.usuarios[0].reset_token.is_none());
    assert!(c.usuarios[0].reset_token_expire.is_none());

    assert_eq!(login(&c, log("a@x.com", "secret1")).unwrap_err(), AuthError::CredencialesInvalidas);
    assert!(login(&c, log("a@x.com", "newpass1")).unwrap().success);
}

fn con_token(token: Option<&str>, expira: Option<i64>) -> ColeccionUsuarios {
    let mut c = ColeccionUsuarios::new();
    c.usuarios.push(Usuario {
        id: Some("0123456789abcdef01234567".to_string()),
        name: "Al".to_string(),
        email: "a@x.com".to_string(),
        password: "$2b$04$invalido".to_string(),
        created_at: 0,
        reset_token: token.map(|t| t.to_string()),
        reset_token_expire: expira,
    });
    c
}

fn rp(token: &str, clave: &str) -> ResetPasswordRequest {
    ResetPasswordRequest { token: token.to_string(), new_password: clave.to_string() }
}

#[test]
fn reseteo_con_token_desconocido_da_404() {
    let mut c = con_token(Some("abc"), Some(1000));
    assert_eq!(reset_password_en(&mut c, rp("otro", "newpass1"), 0), Err(AuthError::NoEncontrado));
    assert_eq!(c.usuarios[0].reset_token.as_deref(), Some("abc"));
}

#[test]
fn reseteo_con_token_vencido_falla() {
    let mut c = con_token(Some("abc"), Some(1000));
    let e = reset_password_en(&mut c, rp("abc", "newpass1"), 1001).unwrap_err();
    assert_eq!(e, AuthError::TokenExpirado);
    assert_eq!(e.codigo_http(), 400);
    assert_eq!(c.usuarios[0].reset_token.as_deref(), Some("abc"));
}

#[test]
fn reseteo_sin_expiracion_es_invalido() {
    let mut c = con_token(Some("abc"), None);
    assert_eq!(reset_password_en(&mut c, rp("abc", "newpass1"), 0), Err(AuthError::TokenInvalido));
}

#[test]
fn reseteo_con_clave_corta_da_400() {
    let mut c = con_token(Some("abc"), Some(1000));
    assert_eq!(reset_password_en(&mut c, rp("abc", "12345"), 0), Err(AuthError::Validacion));
}

#[test]
fn reseteo_vigente_limpia_el_token() {
    let mut c = con_token(Some("abc"), Some(1000));
    assert_eq!(reset_password_en(&mut c, rp("abc", "newpass1"), 1000), Ok(()));
    let u = &c.usuarios[0];
    assert!(u.reset_token.is_none());
    assert!(u.reset_token_expire.is_none());
    assert_eq!(verificar_clave("newpass1", &u.password), Ok(true));
}

#[test]
fn hash_y_verificacion() {
    let h = hashear_clave("clave123").unwrap();
    assert_ne!(h, "clave123");
    assert_eq!(verificar_clave("clave123", &h), Ok(true));
    assert_eq!(verificar_clave("otra", &h), Ok(false));
    assert_eq!(verificar_clave("clave123", "no-es-hash"), Err(ErrorHash::Hashing));
}

#[test]
fn login_con_hash_malformado_es_error_interno() {
    let c = con_token(None, None);
    let e = login(&c, log("a@x.com", "secret1")).unwrap_err();
    assert_eq!(e, AuthError::Interno);
    assert_eq!(e.codigo_http(), 500);
}

#[test]
fn usuario_nuevo_y_vista_publica() {
    let u = Usuario::nuevo("Al".to_string(), "A@X.com".to_string(), "h".to_string());
    assert_eq!(u.email, "a@x.com");
    assert!(u.reset_token.is_none() && u.reset_token_expire.is_none());
    let p = u.to_publico();
    assert_eq!(p.id, "");
    assert_eq!(p.name, "Al");
    assert_eq!(p.email, "a@x.com");
}
