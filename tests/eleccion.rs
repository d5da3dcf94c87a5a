use alglobo::eleccion_lider::{mensaje_de, EleccionLider, Envio};
use alglobo::protocolo_lider::{CodigoLider, MensajeLider};

fn destinos(v: &[Envio]) -> Vec<usize> {
    v.iter().map(|e| e.destino).collect()
}

#[test]
fn al_iniciar_verifica_a_los_demas() {
    let e = EleccionLider::new(2);
    let v = e.inicializar();
    assert_eq!(destinos(&v), vec![0, 1, 3, 4]);
    assert!(v.iter().all(|x| x.codigo == CodigoLider::VERIFICAR));
    assert_eq!(e.get_id_lider(), Some(0));
    assert!(!e.soy_lider());
}

#[test]
fn eleccion_sin_ok_me_hace_lider() {
    let mut e = EleccionLider::new(2);
    let v = e.buscar_nuevo_lider();
    assert_eq!(destinos(&v), vec![3, 4]);
    assert!(v.iter().all(|x| x.codigo == CodigoLider::ELECCION));
    assert_eq!(e.get_id_lider(), None);
    // an election already running starts nothing
    assert!(e.buscar_nuevo_lider().is_empty());
    let v = e.resolver_eleccion();
    assert_eq!(destinos(&v), vec![0, 1, 3, 4]);
    assert!(v.iter().all(|x| x.codigo == CodigoLider::COORDINADOR));
    assert!(e.soy_lider());
    assert!(!e.sin_noticias());
}

#[test]
fn eleccion_con_ok_espera_al_coordinador() {
    let mut e = EleccionLider::new(1);
    e.buscar_nuevo_lider();
    let r = e.recibir(MensajeLider::new(CodigoLider::OK, 4));
    assert!(r.envios.is_empty());
    assert!(e.obtuvo_ok());
    assert!(e.resolver_eleccion().is_empty());
    assert_eq!(e.get_id_lider(), None);
    e.recibir(MensajeLider::new(CodigoLider::COORDINADOR, 4));
    assert_eq!(e.get_id_lider(), Some(4));
    assert_eq!(e.destino_verificar(), Some(4));
}

#[test]
fn eleccion_recibida_se_contesta_con_ok() {
    let mut e = EleccionLider::new(3);
    let r = e.recibir(MensajeLider::new(CodigoLider::ELECCION, 1));
    assert_eq!(r.envios, vec![Envio { codigo: CodigoLider::OK, destino: 1 }]);
    assert!(r.nueva_eleccion);
    e.buscar_nuevo_lider();
    let r = e.recibir(MensajeLider::new(CodigoLider::ELECCION, 0));
    assert_eq!(r.envios.len(), 1);
    assert!(!r.nueva_eleccion);
}

#[test]
fn verificar_lo_contesta_el_lider() {
    let mut e = EleccionLider::new(0);
    assert!(e.soy_lider());
    let r = e.recibir(MensajeLider::new(CodigoLider::VERIFICAR, 3));
    assert_eq!(r.envios, vec![Envio { codigo: CodigoLider::COORDINADOR, destino: 3 }]);
    assert_eq!(e.destino_verificar(), None);
    let mut f = EleccionLider::new(1);
    assert!(f.recibir(MensajeLider::new(CodigoLider::VERIFICAR, 3)).envios.is_empty());
    assert!(f.sin_noticias());
}

#[test]
fn finalizar_detiene_las_elecciones() {
    let mut e = EleccionLider::new(4);
    let v = e.finalizar();
    assert_eq!(destinos(&v), vec![0, 1, 2, 3]);
    assert!(v.iter().all(|x| x.codigo == CodigoLider::ELECCION));
    assert!(e.detenida());
    assert!(e.buscar_nuevo_lider().is_empty());
    assert_eq!(e.destino_verificar(), None);
    assert_eq!(e.notificar_finalizacion().len(), 4);
    assert_eq!(mensaje_de(&v[0], 4), MensajeLider::new(CodigoLider::ELECCION, 4));
}
