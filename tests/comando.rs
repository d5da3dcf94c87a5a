use alglobo::comando::Comando;
use alglobo::error::ErrorApp;

#[test]
fn comando_reintentar() {
    assert_eq!(Comando::decodificar("R 42").ok(), Some(Comando::Reintentar { id: 42 }));
}

#[test]
fn comando_finalizar() {
    assert_eq!(Comando::decodificar("F").ok(), Some(Comando::Finalizar));
}

#[test]
fn comando_desconocido() {
    match Comando::decodificar("X") {
        Err(ErrorApp::Interno(e)) => assert_eq!(e.mensaje(), "Mensaje erroneo: X"),
        _ => panic!("se esperaba un error"),
    }
}

#[test]
fn comando_reintentar_sin_id() {
    assert!(matches!(Comando::decodificar("R"), Err(ErrorApp::ErrorParseoInt)));
    assert!(matches!(Comando::decodificar("R abc"), Err(ErrorApp::ErrorParseoInt)));
}

#[test]
fn comando_vacio() {
    assert!(matches!(Comando::decodificar(""), Err(ErrorApp::Interno(_))));
}
