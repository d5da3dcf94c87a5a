use alglobo::aplicacion::{completar_tarea, pago_fallido, EstadoApp, Paso, ProcesoLider, Tarea};
use alglobo::error::ErrorApp;
use alglobo::log::Transaccion;
use alglobo::pago::Pago;
use alglobo::comando::Comando;
use alglobo::log::{EstadoTransaccion, Log};

#[test]
fn sin_log_empieza_por_el_primer_pago() {
    let log = Log::new(&Vec::new());
    let (mut p, ultima) = ProcesoLider::reanudar(&log);
    assert!(ultima.is_none());
    match p.siguiente(&log, None) {
        Tarea::Pago(t) => {
            assert_eq!((t.id, t.id_pago, t.id_pago_prox, t.estado), (1, 1, 2, EstadoTransaccion::Prepare));
        }
        _ => panic!("se esperaba un pago"),
    }
    match p.siguiente(&log, None) {
        Tarea::Pago(t) => assert_eq!(t.id_pago, 2),
        _ => panic!("se esperaba un pago"),
    }
}

#[test]
fn reanuda_desde_la_ultima_transaccion() {
    let log = Log::new(&vec!["6,4,5,COMMIT".to_string()]);
    let (mut p, ultima) = ProcesoLider::reanudar(&log);
    assert_eq!(ultima.unwrap().id, 6);
    match p.siguiente(&log, Some(Comando::Reintentar { id: 2 })) {
        Tarea::Reintento(t) => assert_eq!((t.id, t.id_pago, t.id_pago_prox), (7, 2, 5)),
        _ => panic!("se esperaba un reintento"),
    }
    match p.siguiente(&log, None) {
        Tarea::Pago(t) => assert_eq!((t.id, t.id_pago, t.id_pago_prox), (7, 5, 6)),
        _ => panic!("se esperaba un pago"),
    }
    assert!(matches!(p.siguiente(&log, Some(Comando::Finalizar)), Tarea::Cambiar(EstadoApp::Finalizar)));
}

#[test]
fn completar_con_y_sin_pago() {
    let t = Transaccion::new(3, 5, 6, EstadoTransaccion::Prepare);
    match completar_tarea(Tarea::Pago(t), Some(Pago::new(5, 100, 200))) {
        Paso::Liquidar(x) => {
            assert_eq!(x.id, 3);
            assert_eq!(x.pago.unwrap().get_monto_total(), 300);
        }
        _ => panic!("se esperaba liquidar"),
    }
    assert!(matches!(completar_tarea(Tarea::Pago(t), None), Paso::Cambiar(EstadoApp::FinEntrada)));
    assert!(matches!(completar_tarea(Tarea::Reintento(t), None), Paso::Omitir));
    assert!(matches!(completar_tarea(Tarea::Reintento(t), Some(Pago::new(5, 1, 1))), Paso::Liquidar(_)));
    assert!(matches!(
        completar_tarea(Tarea::Cambiar(EstadoApp::Finalizar), None),
        Paso::Cambiar(EstadoApp::Finalizar)
    ));
}

#[test]
fn solo_el_fallido_se_registra() {
    let mut t = Transaccion::new(3, 5, 6, EstadoTransaccion::Prepare);
    t.pago = Some(Pago::new(5, 100, 200));
    assert_eq!(pago_fallido(&t, &Err(ErrorApp::ErrorUtf8)).unwrap().get_id(), 5);
    assert!(pago_fallido(&t, &Ok(())).is_none());
}
