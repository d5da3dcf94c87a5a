use alglobo::log::{formatear_transaccion, parsear_transaccion, EstadoTransaccion, Log, Transaccion};
use alglobo::pago::Pago;

fn lineas(v: &[&str]) -> Vec<String> {
    v.iter().map(|s| s.to_string()).collect()
}

fn registro(t: &Transaccion) -> (usize, usize, usize, EstadoTransaccion) {
    (t.id, t.id_pago, t.id_pago_prox, t.estado)
}

#[test]
fn linea_de_log_se_parsea() {
    let t = parsear_transaccion(&"3,5,6,COMMIT".to_string()).unwrap();
    assert_eq!(registro(&t), (3, 5, 6, EstadoTransaccion::Commit));
    assert!(t.pago.is_none());
}

#[test]
fn lineas_fuera_de_la_gramatica() {
    assert!(parsear_transaccion(&"3,5,6,COMIT".to_string()).is_none());
    assert!(parsear_transaccion(&"3,5,COMMIT".to_string()).is_none());
    assert!(parsear_transaccion(&"3,5,6,COMMIT,1".to_string()).is_none());
    assert!(parsear_transaccion(&"3,5,6,".to_string()).is_none());
    assert!(parsear_transaccion(&"a,5,6,ABORT".to_string()).is_none());
    assert!(parsear_transaccion(&"".to_string()).is_none());
    assert!(parsear_transaccion(&"99999999999999999999999,1,2,ABORT".to_string()).is_none());
}

#[test]
fn formato_de_linea() {
    let t = Transaccion::new(12, 7, 8, EstadoTransaccion::Finalize);
    assert_eq!(formatear_transaccion(&t), "12,7,8,FINALIZE");
    let t = Transaccion::new(1, 1, 2, EstadoTransaccion::Prepare);
    assert_eq!(formatear_transaccion(&t), "1,1,2,PREPARE");
}

#[test]
fn log_vacio() {
    let log = Log::new(&Vec::new());
    assert!(log.ultima_transaccion().is_none());
    assert!(log.obtener(&1).is_none());
    let t = log.nueva_transaccion(1, 2);
    assert_eq!(registro(&t), (1, 1, 2, EstadoTransaccion::Prepare));
}

#[test]
fn reproduce_el_archivo() {
    let log = Log::new(&lineas(&["1,1,2,PREPARE", "basura", "1,1,2,COMMIT", "2,2,3,PREPARE", "1,1,2,FINALIZE", "2,2,3,ABO"]));
    assert_eq!(registro(&log.obtener(&1).unwrap()), (1, 1, 2, EstadoTransaccion::Finalize));
    assert_eq!(registro(&log.obtener(&2).unwrap()), (2, 2, 3, EstadoTransaccion::Prepare));
    assert_eq!(registro(&log.ultima_transaccion().unwrap()), (2, 2, 3, EstadoTransaccion::Prepare));
    assert_eq!(log.nueva_transaccion(3, 4).id, 3);
}

#[test]
fn la_ultima_es_la_de_mayor_id() {
    let log = Log::new(&lineas(&["5,5,6,COMMIT", "2,2,3,ABORT"]));
    assert_eq!(registro(&log.ultima_transaccion().unwrap()), (5, 5, 6, EstadoTransaccion::Commit));
}

#[test]
fn insertar_dos_veces_es_insertar_una() {
    let mut log = Log::new(&Vec::new());
    let mut t = log.nueva_transaccion(4, 5);
    t.pago = Some(Pago::new(4, 100, 200));
    let primera = log.insertar(&t);
    assert_eq!(primera, Some("1,4,5,PREPARE".to_string()));
    let segunda = log.insertar(&t);
    assert_eq!(segunda, None);
    assert_eq!(registro(&log.ultima_transaccion().unwrap()), (1, 4, 5, EstadoTransaccion::Prepare));
    t.commit();
    assert_eq!(log.insertar(&t), Some("1,4,5,COMMIT".to_string()));
    assert_eq!(log.insertar(&t), None);
    assert_eq!(registro(&log.obtener(&1).unwrap()), (1, 4, 5, EstadoTransaccion::Commit));
}

#[test]
fn recuperacion_tras_reiniciar() {
    let mut archivo: Vec<String> = Vec::new();
    let mut log = Log::new(&archivo);
    let mut t1 = log.nueva_transaccion(1, 2);
    t1.pago = Some(Pago::new(1, 1000, 2000));
    for estado in [EstadoTransaccion::Prepare, EstadoTransaccion::Commit, EstadoTransaccion::Finalize] {
        t1.estado = estado;
        if let Some(l) = log.insertar(&t1) {
            archivo.push(l);
        }
    }
    let mut t2 = log.nueva_transaccion(2, 3);
    t2.pago = Some(Pago::new(2, 1, 1));
    for estado in [EstadoTransaccion::Prepare, EstadoTransaccion::Prepare, EstadoTransaccion::Abort] {
        t2.estado = estado;
        if let Some(l) = log.insertar(&t2) {
            archivo.push(l);
        }
    }
    assert_eq!(archivo.len(), 5);
    let reabierto = Log::new(&archivo);
    for id in [1usize, 2, 3] {
        assert_eq!(reabierto.obtener(&id).map(|t| registro(&t)), log.obtener(&id).map(|t| registro(&t)));
    }
    assert_eq!(
        reabierto.ultima_transaccion().map(|t| registro(&t)),
        log.ultima_transaccion().map(|t| registro(&t))
    );
    assert_eq!(registro(&reabierto.ultima_transaccion().unwrap()), (2, 2, 3, EstadoTransaccion::Abort));
}

#[test]
fn cambios_de_estado() {
    let mut t = Transaccion::new(1, 2, 3, EstadoTransaccion::Prepare);
    t.commit();
    assert_eq!(t.estado, EstadoTransaccion::Commit);
    t.abort();
    assert_eq!(t.estado, EstadoTransaccion::Abort);
    t.finalize();
    assert_eq!(t.estado, EstadoTransaccion::Finalize);
    t.prepare();
    assert_eq!(t.estado, EstadoTransaccion::Prepare);
    assert!(t.get_pago().is_none());
}

#[test]
fn ids_nuevos_tras_insertar_uno_menor() {
    let mut log = Log::new(&lineas(&["5,5,6,COMMIT"]));
    let t = Transaccion::new(2, 2, 3, EstadoTransaccion::Abort);
    assert_eq!(log.insertar(&t), Some("2,2,3,ABORT".to_string()));
    assert_eq!(registro(&log.ultima_transaccion().unwrap()), (2, 2, 3, EstadoTransaccion::Abort));
    assert_eq!(log.id_mayor(), Some(5));
    assert_eq!(log.nueva_transaccion(7, 8).id, 6);
}
