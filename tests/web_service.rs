use alglobo::protocolo_transaccion::{CodigoTransaccion, MensajeTransaccion};
use alglobo::web_service::WebService;

fn m(codigo: CodigoTransaccion) -> MensajeTransaccion {
    MensajeTransaccion::new(codigo, 1, 8)
}

#[test]
fn prepare_nuevo_segun_el_resultado() {
    let mut w = WebService::new(0);
    let r = w.responder(m(CodigoTransaccion::PREPARE { monto: 5 }), true);
    assert!(r.trabajar);
    let resp = r.mensaje.unwrap();
    assert_eq!(resp.codigo, CodigoTransaccion::READY);
    assert_eq!(resp.id_emisor, 0);
    assert_eq!(resp.id_op, 8);
    let mut w = WebService::new(2);
    let r = w.responder(m(CodigoTransaccion::PREPARE { monto: 5 }), false);
    assert_eq!(r.mensaje.unwrap().codigo, CodigoTransaccion::ABORT);
}

#[test]
fn prepare_repetido_contesta_lo_alcanzado() {
    let mut w = WebService::new(1);
    w.responder(m(CodigoTransaccion::PREPARE { monto: 5 }), true);
    let r = w.responder(m(CodigoTransaccion::PREPARE { monto: 5 }), false);
    assert!(!r.trabajar);
    assert_eq!(r.mensaje.unwrap().codigo, CodigoTransaccion::READY);
    let r = w.responder(m(CodigoTransaccion::COMMIT), true);
    assert!(r.trabajar);
    assert_eq!(r.mensaje.unwrap().codigo, CodigoTransaccion::COMMIT);
    let r = w.responder(m(CodigoTransaccion::COMMIT), true);
    assert!(!r.trabajar);
    assert_eq!(r.mensaje.unwrap().codigo, CodigoTransaccion::COMMIT);
    assert!(w.responder(m(CodigoTransaccion::ABORT), true).mensaje.is_none());
}

#[test]
fn abort_sin_estado_se_contesta() {
    let mut w = WebService::new(1);
    let r = w.responder(m(CodigoTransaccion::ABORT), true);
    assert_eq!(r.mensaje.unwrap().codigo, CodigoTransaccion::ABORT);
    assert!(w.responder(m(CodigoTransaccion::COMMIT), true).mensaje.is_none());
    assert!(w.responder(m(CodigoTransaccion::READY), true).mensaje.is_none());
}
