use ecosistema::azar::Azar;

#[test]
fn guion_se_reproduce_en_orden() {
    let mut a = Azar::desde_guion(vec![7, 1500, 3]);
    assert_eq!(a.siguiente(), 7);
    assert_eq!(a.por_mil(), 500);
    assert_eq!(a.bajo(2), 1);
}

#[test]
fn guion_agotado_sigue_con_el_generador() {
    let mut a = Azar::desde_guion(vec![9]);
    assert_eq!(a.siguiente(), 9);
    // After the script the generator still produces values in range.
    for _ in 0..100 {
        assert!(a.bajo(10) < 10);
        assert!(a.por_mil() < 1000);
    }
}

#[test]
fn misma_semilla_misma_secuencia() {
    let mut a = Azar::desde_semilla(12345);
    let mut b = Azar::desde_semilla(12345);
    for _ in 0..100 {
        assert_eq!(a.siguiente(), b.siguiente());
    }
}

#[test]
fn semillas_distintas_divergen() {
    let mut a = Azar::desde_semilla(1);
    let mut b = Azar::desde_semilla(2);
    assert_ne!(a.siguiente(), b.siguiente());
}

#[test]
fn generador_del_sistema_respeta_cotas() {
    let mut a = Azar::nuevo();
    for _ in 0..100 {
        assert!(a.bajo(7) < 7);
        assert!(a.por_mil() < 1000);
    }
}
