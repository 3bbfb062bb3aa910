use todo_api::jwt::{generar_token, generar_token_en, verificar_token, verificar_token_en, ErrorToken, VIGENCIA_TOKEN_SEGUNDOS};

#[test]
fn token_recien_emitido_da_el_mismo_sujeto() {
    let ahora: i64 = 1_700_000_000;
    let t = generar_token_en("65a1b2c3d4e5f60718293a4b", ahora).unwrap();
    let c = verificar_token_en(&t, ahora).unwrap();
    assert_eq!(c.sub, "65a1b2c3d4e5f60718293a4b");
    assert_eq!(c.exp, ahora + 604800);
    assert_eq!(VIGENCIA_TOKEN_SEGUNDOS, 7 * 24 * 3600);
}

#[test]
fn token_vence_tras_siete_dias() {
    let ahora: i64 = 1_700_000_000;
    let t = generar_token_en("u", ahora).unwrap();
    assert!(verificar_token_en(&t, ahora + 604800).is_ok());
    assert_eq!(verificar_token_en(&t, ahora + 604801).unwrap_err(), ErrorToken::Expirado);
}

#[test]
fn token_alterado_es_invalido() {
    let t = generar_token_en("u", 1_700_000_000).unwrap();
    let mut alterado = t.clone();
    alterado.push('x');
    assert_eq!(verificar_token_en(&alterado, 1_700_000_000).unwrap_err(), ErrorToken::Invalido);
    assert_eq!(verificar_token_en("no.es.token", 0).unwrap_err(), ErrorToken::Invalido);
    assert_eq!(verificar_token("").unwrap_err(), ErrorToken::Invalido);
}

#[test]
fn token_con_fecha_fuera_de_rango_no_se_emite() {
    assert_eq!(generar_token_en("u", -1), Err(ErrorToken::Emision));
    assert_eq!(generar_token_en("u", i64::MAX), Err(ErrorToken::Emision));
}

#[test]
fn token_emitido_ahora_vale_ahora() {
    let t = generar_token("abc").unwrap();
    let c = verificar_token(&t).unwrap();
    assert_eq!(c.sub, "abc");
}
