use alglobo::pago::{extraer_fallido, formatear_pago, parsear_pago, seleccionar_pago, Pago};

fn valores(p: &Pago) -> (usize, u64, u64) {
    (p.get_id(), p.get_monto_aerolinea(), p.get_monto_hotel())
}

#[test]
fn registro_de_pago() {
    let p = parsear_pago("7,100.00,50.00").unwrap();
    assert_eq!(valores(&p), (7, 10000, 5000));
    assert_eq!(p.get_monto_total(), 15000);
    assert!(parsear_pago("7,100.0,50.00").is_none());
    assert!(parsear_pago("7,100,50.00").is_none());
    assert!(parsear_pago("7,100.00").is_none());
    assert!(parsear_pago("x,1.00,2.00").is_none());
    assert!(parsear_pago("").is_none());
}

#[test]
fn formato_de_pago_fallido() {
    assert_eq!(formatear_pago(&Pago::new(3, 1205, 7)), "3,12.05,0.07");
    let p = Pago::new(11, 99999, 100);
    assert_eq!(valores(&parsear_pago(&formatear_pago(&p)).unwrap()), valores(&p));
}

#[test]
fn seleccion_desde_un_id() {
    assert!(seleccionar_pago("2,1.00,1.00", Some(3)).is_none());
    assert_eq!(seleccionar_pago("3,1.00,1.00", Some(3)).unwrap().get_id(), 3);
    assert_eq!(seleccionar_pago("5,1.00,1.00", Some(3)).unwrap().get_id(), 5);
    assert_eq!(seleccionar_pago("1,1.00,1.00", None).unwrap().get_id(), 1);
    assert!(seleccionar_pago("basura", None).is_none());
}

#[test]
fn extraer_un_fallido() {
    let lineas: Vec<String> = ["1,1.00,2.00", "basura", "2,3.00,4.00", "3,5.00,6.00"].iter().map(|s| s.to_string()).collect();
    let (p, quedan) = extraer_fallido(&lineas, 2);
    assert_eq!(valores(&p.unwrap()), (2, 300, 400));
    assert_eq!(quedan, vec!["1,1.00,2.00".to_string(), "3,5.00,6.00".to_string()]);
    let (p, _) = extraer_fallido(&lineas, 9);
    assert!(p.is_none());
}
