use alglobo::error::ErrorApp;
use alglobo::protocolo_lider::{CodigoLider, MensajeLider};
use alglobo::protocolo_transaccion::{CodigoTransaccion, MensajeTransaccion};

#[test]
fn lider_codifica_cada_codigo() {
    assert_eq!(MensajeLider::new(CodigoLider::OK, 3).codificar(), "OK 3");
    assert_eq!(MensajeLider::new(CodigoLider::ELECCION, 0).codificar(), "ELECTION 0");
    assert_eq!(MensajeLider::new(CodigoLider::COORDINADOR, 4).codificar(), "COORDINADOR 4");
    assert_eq!(MensajeLider::new(CodigoLider::VERIFICAR, 12).codificar(), "VERIFICAR 12");
}

#[test]
fn lider_ida_y_vuelta() {
    for codigo in [CodigoLider::OK, CodigoLider::ELECCION, CodigoLider::COORDINADOR, CodigoLider::VERIFICAR] {
        let m = MensajeLider::new(codigo, 42);
        let d = MensajeLider::decodificar(&m.codificar()).ok().unwrap();
        assert_eq!(d, m);
    }
}

#[test]
fn lider_codigo_desconocido() {
    match MensajeLider::decodificar(&"HOLA 3".to_string()) {
        Err(ErrorApp::Interno(e)) => assert_eq!(e.mensaje(), "Mensaje erroneo: HOLA"),
        _ => panic!("se esperaba un error de codigo"),
    }
}

#[test]
fn lider_emisor_invalido() {
    assert!(matches!(MensajeLider::decodificar(&"OK x".to_string()), Err(ErrorApp::ErrorParseoInt)));
    assert!(matches!(MensajeLider::decodificar(&"OK".to_string()), Err(ErrorApp::ErrorParseoInt)));
    assert!(matches!(
        MensajeLider::decodificar(&"OK 99999999999999999999999".to_string()),
        Err(ErrorApp::ErrorParseoInt)
    ));
}

#[test]
fn lider_campos_de_mas_no_se_leen() {
    let m = MensajeLider::decodificar(&"VERIFICAR 2 extra".to_string()).ok().unwrap();
    assert_eq!(m, MensajeLider::new(CodigoLider::VERIFICAR, 2));
}

#[test]
fn transaccion_codifica_prepare_con_monto() {
    let m = MensajeTransaccion::new(CodigoTransaccion::PREPARE { monto: 15000 }, 1, 7);
    assert_eq!(m.codificar(), "PREPARE 1 7 150");
    let m = MensajeTransaccion::new(CodigoTransaccion::PREPARE { monto: 10050 }, 1, 7);
    assert_eq!(m.codificar(), "PREPARE 1 7 100.5");
    let m = MensajeTransaccion::new(CodigoTransaccion::PREPARE { monto: 10005 }, 1, 7);
    assert_eq!(m.codificar(), "PREPARE 1 7 100.05");
    let m = MensajeTransaccion::new(CodigoTransaccion::PREPARE { monto: 7 }, 0, 0);
    assert_eq!(m.codificar(), "PREPARE 0 0 0.07");
}

#[test]
fn transaccion_codifica_sin_monto() {
    assert_eq!(MensajeTransaccion::new(CodigoTransaccion::READY, 2, 9).codificar(), "READY 2 9");
    assert_eq!(MensajeTransaccion::new(CodigoTransaccion::COMMIT, 0, 10).codificar(), "COMMIT 0 10");
    assert_eq!(MensajeTransaccion::new(CodigoTransaccion::ABORT, 1, 3).codificar(), "ABORT 1 3");
}

#[test]
fn transaccion_decodifica() {
    let m = MensajeTransaccion::decodificar(&"PREPARE 1 7 100.5".to_string()).ok().unwrap();
    assert_eq!(m.codigo, CodigoTransaccion::PREPARE { monto: 10050 });
    assert_eq!(m.id_emisor, 1);
    assert_eq!(m.id_op, 7);
    let m = MensajeTransaccion::decodificar(&"PREPARE 1 7 3".to_string()).ok().unwrap();
    assert_eq!(m.codigo, CodigoTransaccion::PREPARE { monto: 300 });
    let m = MensajeTransaccion::decodificar(&"READY 2 9".to_string()).ok().unwrap();
    assert_eq!(m.codigo, CodigoTransaccion::READY);
    assert_eq!(m.id_emisor, 2);
    assert_eq!(m.id_op, 9);
}

#[test]
fn transaccion_errores() {
    match MensajeTransaccion::decodificar(&"FOO 1 2".to_string()) {
        Err(ErrorApp::Interno(e)) => assert_eq!(e.mensaje(), "Mensaje erroneo: FOO"),
        _ => panic!("se esperaba un error de codigo"),
    }
    assert!(matches!(MensajeTransaccion::decodificar(&"PREPARE 1 2".to_string()), Err(ErrorApp::ErrorParseoMonto)));
    assert!(matches!(MensajeTransaccion::decodificar(&"PREPARE 1 2 1.234".to_string()), Err(ErrorApp::ErrorParseoMonto)));
    assert!(matches!(MensajeTransaccion::decodificar(&"PREPARE x 2 1.5".to_string()), Err(ErrorApp::ErrorParseoInt)));
    assert!(matches!(MensajeTransaccion::decodificar(&"COMMIT 1".to_string()), Err(ErrorApp::ErrorParseoInt)));
    assert!(matches!(MensajeTransaccion::decodificar(&"".to_string()), Err(ErrorApp::Interno(_))));
}

#[test]
fn igualdad_por_codigo_y_operacion() {
    let a = MensajeTransaccion::new(CodigoTransaccion::READY, 0, 5);
    let b = MensajeTransaccion::new(CodigoTransaccion::READY, 2, 5);
    let c = MensajeTransaccion::new(CodigoTransaccion::READY, 0, 6);
    let d = MensajeTransaccion::new(CodigoTransaccion::COMMIT, 0, 5);
    assert!(a == b);
    assert!(a != c);
    assert!(a != d);
}
