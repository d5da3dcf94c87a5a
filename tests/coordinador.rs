use alglobo::coordinador::{
    registrar_respuesta, respuestas_completas, respuestas_vacias, Accion, CoordinadorTransaccion, Evento,
};
use alglobo::error::ErrorApp;
use alglobo::log::{EstadoTransaccion, Log, Transaccion};
use alglobo::pago::Pago;
use alglobo::protocolo_transaccion::{CodigoTransaccion, MensajeTransaccion};

fn respuestas(codigo: CodigoTransaccion, op: usize) -> Vec<MensajeTransaccion> {
    (0..3).map(|i| MensajeTransaccion::new(codigo, i, op)).collect()
}

fn estado(log: &Log, id: usize) -> EstadoTransaccion {
    log.obtener(&id).unwrap().estado
}

fn con_pago(mut t: Transaccion, aerolinea: u64, hotel: u64) -> Transaccion {
    t.pago = Some(Pago::new(t.id_pago, aerolinea, hotel));
    t
}

#[test]
fn prepare_reparte_los_montos() {
    let mut log = Log::new(&Vec::new());
    let mut c = CoordinadorTransaccion::new(1);
    let t = con_pago(log.nueva_transaccion(7, 8), 10000, 5000);
    match c.submit(&mut log, &t) {
        Accion::Enviar { lineas, mensajes } => {
            assert_eq!(lineas, vec!["1,7,8,PREPARE".to_string()]);
            assert_eq!(mensajes.len(), 3);
            assert_eq!(mensajes[0].codigo, CodigoTransaccion::PREPARE { monto: 10000 });
            assert_eq!(mensajes[1].codigo, CodigoTransaccion::PREPARE { monto: 5000 });
            assert_eq!(mensajes[2].codigo, CodigoTransaccion::PREPARE { monto: 15000 });
            assert_eq!(mensajes[0].codificar(), "PREPARE 1 1 100");
            assert_eq!(mensajes[1].codificar(), "PREPARE 1 1 50");
            assert_eq!(mensajes[2].codificar(), "PREPARE 1 1 150");
        }
        _ => panic!("se esperaba un envio"),
    }
}

#[test]
fn protocolo_completo_con_exito() {
    let mut log = Log::new(&Vec::new());
    let mut c = CoordinadorTransaccion::new(0);
    let t = con_pago(log.nueva_transaccion(1, 2), 100, 200);
    assert!(matches!(c.submit(&mut log, &t), Accion::Enviar { .. }));
    assert!(matches!(c.recibir(&mut log, Evento::Timeout), Accion::Enviar { ref lineas, .. } if lineas.is_empty()));
    match c.recibir(&mut log, Evento::Respuestas(respuestas(CodigoTransaccion::READY, 1))) {
        Accion::Enviar { lineas, mensajes } => {
            assert_eq!(lineas, vec!["1,1,2,COMMIT".to_string()]);
            assert!(mensajes.iter().all(|m| m.codigo == CodigoTransaccion::COMMIT && m.id_op == 1));
        }
        _ => panic!("se esperaba el commit"),
    }
    assert_eq!(estado(&log, 1), EstadoTransaccion::Commit);
    match c.recibir(&mut log, Evento::Respuestas(respuestas(CodigoTransaccion::COMMIT, 1))) {
        Accion::Terminar { lineas, resultado } => {
            assert_eq!(lineas, vec!["1,1,2,FINALIZE".to_string()]);
            assert!(resultado.is_ok());
        }
        _ => panic!("se esperaba el final"),
    }
    assert_eq!(estado(&log, 1), EstadoTransaccion::Finalize);
}

#[test]
fn prepare_rechazado_aborta() {
    let mut log = Log::new(&Vec::new());
    let mut c = CoordinadorTransaccion::new(0);
    let t = con_pago(log.nueva_transaccion(1, 2), 100, 200);
    c.submit(&mut log, &t);
    let mut rs = respuestas(CodigoTransaccion::READY, 1);
    rs[2] = MensajeTransaccion::new(CodigoTransaccion::ABORT, 2, 1);
    match c.recibir(&mut log, Evento::Respuestas(rs)) {
        Accion::Enviar { lineas, mensajes } => {
            assert_eq!(lineas, vec!["1,1,2,ABORT".to_string()]);
            assert!(mensajes.iter().all(|m| m.codigo == CodigoTransaccion::ABORT));
        }
        _ => panic!("se esperaba el abort"),
    }
    // a wrong reply to a decided ABORT is sent again
    assert!(matches!(
        c.recibir(&mut log, Evento::Respuestas(respuestas(CodigoTransaccion::COMMIT, 1))),
        Accion::Enviar { ref lineas, .. } if lineas.is_empty()
    ));
    match c.recibir(&mut log, Evento::Respuestas(respuestas(CodigoTransaccion::ABORT, 1))) {
        Accion::Terminar { lineas, resultado } => {
            assert_eq!(lineas, vec!["1,1,2,FINALIZE".to_string()]);
            match resultado {
                Err(ErrorApp::Interno(e)) => assert_eq!(e.mensaje(), "Respuesta no esperada"),
                _ => panic!("se esperaba el error de respuesta"),
            }
        }
        _ => panic!("se esperaba el final"),
    }
}

#[test]
fn abortada_reenviada_falla_y_reenvia_abort() {
    let mut log = Log::new(&vec!["4,9,10,PREPARE".to_string(), "4,9,10,ABORT".to_string()]);
    let mut c = CoordinadorTransaccion::new(1);
    let t = con_pago(Transaccion::new(4, 9, 10, EstadoTransaccion::Prepare), 100, 100);
    match c.submit(&mut log, &t) {
        Accion::Enviar { lineas, mensajes } => {
            assert!(lineas.is_empty());
            assert_eq!(mensajes.len(), 3);
            assert!(mensajes.iter().all(|m| m.codigo == CodigoTransaccion::ABORT && m.id_op == 4 && m.id_emisor == 1));
        }
        _ => panic!("se esperaba el abort"),
    }
    assert_eq!(estado(&log, 4), EstadoTransaccion::Abort);
    match c.recibir(&mut log, Evento::Respuestas(respuestas(CodigoTransaccion::ABORT, 4))) {
        Accion::Terminar { resultado, .. } => match resultado {
            Err(ErrorApp::Interno(e)) => assert_eq!(e.mensaje(), "Transaccion abortada"),
            _ => panic!("se esperaba el error de transaccion abortada"),
        },
        _ => panic!("se esperaba el final"),
    }
    assert_ne!(estado(&log, 4), EstadoTransaccion::Commit);
}

#[test]
fn commit_se_reanuda() {
    let mut log = Log::new(&vec!["2,3,4,COMMIT".to_string()]);
    let mut c = CoordinadorTransaccion::new(1);
    let t = con_pago(Transaccion::new(2, 3, 4, EstadoTransaccion::Prepare), 1, 1);
    match c.submit(&mut log, &t) {
        Accion::Enviar { lineas, mensajes } => {
            assert!(lineas.is_empty());
            assert!(mensajes.iter().all(|m| m.codigo == CodigoTransaccion::COMMIT));
        }
        _ => panic!("se esperaba el commit"),
    }
    let r = c.recibir(&mut log, Evento::ErrorEnvio(ErrorApp::ErrorUtf8));
    match r {
        Accion::Terminar { lineas, resultado } => {
            assert!(lineas.is_empty());
            assert!(matches!(resultado, Err(ErrorApp::ErrorUtf8)));
        }
        _ => panic!("se esperaba el final"),
    }
    assert_eq!(estado(&log, 2), EstadoTransaccion::Commit);
    // a later submission resumes the COMMIT broadcast
    assert!(matches!(c.submit(&mut log, &t), Accion::Enviar { ref lineas, .. } if lineas.is_empty()));
    match c.recibir(&mut log, Evento::Respuestas(respuestas(CodigoTransaccion::COMMIT, 2))) {
        Accion::Terminar { lineas, resultado } => {
            assert_eq!(lineas, vec!["2,3,4,FINALIZE".to_string()]);
            assert!(resultado.is_ok());
        }
        _ => panic!("se esperaba el final"),
    }
}

#[test]
fn abort_con_envio_fallido_no_finaliza() {
    let mut log = Log::new(&vec!["4,9,10,ABORT".to_string()]);
    let mut c = CoordinadorTransaccion::new(1);
    let t = con_pago(Transaccion::new(4, 9, 10, EstadoTransaccion::Prepare), 100, 100);
    c.submit(&mut log, &t);
    match c.recibir(&mut log, Evento::ErrorEnvio(ErrorApp::ErrorUtf8)) {
        Accion::Terminar { lineas, resultado } => {
            assert!(lineas.is_empty());
            match resultado {
                Err(ErrorApp::Interno(e)) => assert_eq!(e.mensaje(), "Transaccion abortada"),
                _ => panic!("se esperaba el error de transaccion abortada"),
            }
        }
        _ => panic!("se esperaba el final"),
    }
    assert_eq!(estado(&log, 4), EstadoTransaccion::Abort);
}

#[test]
fn abort_tras_prepare_fallido_informa_el_error_del_prepare() {
    let mut log = Log::new(&Vec::new());
    let mut c = CoordinadorTransaccion::new(0);
    let t = con_pago(log.nueva_transaccion(1, 2), 5, 5);
    c.submit(&mut log, &t);
    assert!(matches!(c.recibir(&mut log, Evento::ErrorEnvio(ErrorApp::ErrorParseoInt)), Accion::Enviar { .. }));
    match c.recibir(&mut log, Evento::ErrorEnvio(ErrorApp::ErrorUtf8)) {
        Accion::Terminar { lineas, resultado } => {
            assert!(lineas.is_empty());
            assert!(matches!(resultado, Err(ErrorApp::ErrorParseoInt)));
        }
        _ => panic!("se esperaba el final"),
    }
    assert_eq!(estado(&log, 1), EstadoTransaccion::Abort);
}

#[test]
fn finalizada_no_hace_nada() {
    let mut log = Log::new(&vec!["2,3,4,FINALIZE".to_string()]);
    let mut c = CoordinadorTransaccion::new(1);
    let t = con_pago(Transaccion::new(2, 3, 4, EstadoTransaccion::Prepare), 1, 1);
    match c.submit(&mut log, &t) {
        Accion::Terminar { lineas, resultado } => {
            assert!(lineas.is_empty());
            assert!(resultado.is_ok());
        }
        _ => panic!("se esperaba el final"),
    }
}

#[test]
fn error_de_envio_en_prepare_aborta() {
    let mut log = Log::new(&Vec::new());
    let mut c = CoordinadorTransaccion::new(0);
    let t = con_pago(log.nueva_transaccion(1, 2), 5, 5);
    c.submit(&mut log, &t);
    match c.recibir(&mut log, Evento::ErrorEnvio(ErrorApp::ErrorParseoInt)) {
        Accion::Enviar { lineas, .. } => assert_eq!(lineas, vec!["1,1,2,ABORT".to_string()]),
        _ => panic!("se esperaba el abort"),
    }
    let r = c.recibir(&mut log, Evento::Respuestas(respuestas(CodigoTransaccion::ABORT, 1)));
    assert!(matches!(r, Accion::Terminar { resultado: Err(ErrorApp::ErrorParseoInt), .. }));
}

#[test]
fn ranuras_de_respuesta() {
    let mut rs = respuestas_vacias();
    assert!(respuestas_completas(&rs).is_none());
    assert!(!registrar_respuesta(&mut rs, MensajeTransaccion::new(CodigoTransaccion::PREPARE { monto: 1 }, 0, 1)));
    assert!(!registrar_respuesta(&mut rs, MensajeTransaccion::new(CodigoTransaccion::READY, 7, 1)));
    for i in 0..3 {
        assert!(registrar_respuesta(&mut rs, MensajeTransaccion::new(CodigoTransaccion::READY, i, 1)));
    }
    let v = respuestas_completas(&rs).unwrap();
    assert_eq!(v.len(), 3);
    assert_eq!(v[2].id_emisor, 2);
}
