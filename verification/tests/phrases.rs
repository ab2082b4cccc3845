use arduino_client::phrases::is_alguien_despacho_text;

#[test]
fn matches_exact_phrase() {
    assert!(is_alguien_despacho_text("alguien despacho".to_owned()));
}

#[test]
fn matches_phrase_inside_longer_text() {
    assert!(is_alguien_despacho_text("hola, alguien despacho ahora mismo?".to_owned()));
}

#[test]
fn matches_case_insensitively() {
    assert!(is_alguien_despacho_text("ALGUIEN DESPACHO?".to_owned()));
    assert!(is_alguien_despacho_text("Alguien Despacho".to_owned()));
}

#[test]
fn rejects_unrelated_text() {
    assert!(!is_alguien_despacho_text("hola".to_owned()));
    assert!(!is_alguien_despacho_text("alguiendespacho".to_owned()));
    assert!(!is_alguien_despacho_text(String::new()));
}
