use ecosistema::cabra::{INFLEXION_CABRA, PESO_MAX_CABRA, TASA_CABRA};
use ecosistema::conejo::{INFLEXION_CONEJO, PESO_MAX_CONEJO, TASA_CONEJO};
use ecosistema::lobo::{INFLEXION_LOBO, PESO_MAX_LOBO, TASA_LOBO};
use ecosistema::modelo::gompertz;

fn cabra(t: u32) -> u64 {
    gompertz(t, PESO_MAX_CABRA, TASA_CABRA, INFLEXION_CABRA)
}

fn conejo(t: u32) -> u64 {
    gompertz(t, PESO_MAX_CONEJO, TASA_CONEJO, INFLEXION_CONEJO)
}

fn lobo(t: u32) -> u64 {
    gompertz(t, PESO_MAX_LOBO, TASA_LOBO, INFLEXION_LOBO)
}

#[test]
fn gompertz_valores_cabra() {
    assert_eq!(cabra(0), 736);
    assert_eq!(cabra(50), 4382);
    assert_eq!(cabra(100), 12588);
    assert_eq!(cabra(365), 53414);
}

#[test]
fn gompertz_valores_conejo() {
    assert_eq!(conejo(0), 0);
    assert_eq!(conejo(50), 735);
    assert_eq!(conejo(100), 1837);
    // An old rabbit reaches the asymptotic weight exactly.
    assert_eq!(conejo(365), 2000);
}

#[test]
fn gompertz_valores_lobo() {
    assert_eq!(lobo(0), 1);
    assert_eq!(lobo(100), 469);
}

#[test]
fn gompertz_no_decrece_con_la_edad() {
    for t in 0..800u32 {
        assert!(cabra(t) <= cabra(t + 1), "cabra en t={}", t);
        assert!(conejo(t) <= conejo(t + 1), "conejo en t={}", t);
        assert!(lobo(t) <= lobo(t + 1), "lobo en t={}", t);
    }
}

#[test]
fn gompertz_acotado_por_peso_maximo() {
    for t in [0u32, 1, 10, 100, 1000, 10000, 1000000] {
        assert!(cabra(t) <= PESO_MAX_CABRA);
        assert!(conejo(t) <= PESO_MAX_CONEJO);
        assert!(lobo(t) <= PESO_MAX_LOBO);
    }
}
