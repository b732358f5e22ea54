use ecosistema::azar::Azar;
use ecosistema::cabra::Cabra;
use ecosistema::conejo::Conejo;
use ecosistema::lobo::Lobo;
use ecosistema::organismo::{Especie, Organismo, Sexo};

fn cabra_con(edad: u32, sexo: Sexo, viva: bool) -> Cabra {
    Cabra { edad, peso: 0, sexo, viva }
}

fn conejo_con(edad: u32, sexo: Sexo, viva: bool) -> Conejo {
    Conejo { edad, peso: 0, sexo, viva }
}

#[test]
fn nacimientos_con_sexo_fijo() {
    let c = Cabra::new_con_sexo(Sexo::Hembra);
    assert_eq!(c.edad, 0);
    assert_eq!(c.peso, 0);
    assert_eq!(c.sexo, Sexo::Hembra);
    assert!(c.viva);
    let r = Conejo::new_con_sexo(Sexo::Macho);
    assert_eq!(r.edad, 0);
    assert_eq!(r.sexo, Sexo::Macho);
    assert!(r.viva);
}

// The head of the script decides a newborn's sex: even is male, odd female.
#[test]
fn sexo_de_nacimiento_sigue_al_guion() {
    let mut azar = Azar::desde_guion(vec![0, 1]);
    assert_eq!(Cabra::new_random(&mut azar).sexo, Sexo::Macho);
    assert_eq!(Cabra::new_random(&mut azar).sexo, Sexo::Hembra);
    let mut otra = Azar::desde_guion(vec![2, 3]);
    assert_eq!(Conejo::new_random(&mut otra).sexo, Sexo::Macho);
    assert_eq!(Conejo::new_random(&mut otra).sexo, Sexo::Hembra);
}

#[test]
fn nacimiento_aleatorio_empieza_en_cero() {
    let mut azar = Azar::desde_semilla(99);
    let c = Cabra::new_random(&mut azar);
    assert_eq!(c.edad, 0);
    assert_eq!(c.peso, 0);
    assert!(c.viva);
    let r = Conejo::new_random(&mut azar);
    assert_eq!(r.edad, 0);
    assert!(r.viva);
}

// While alive, one tick raises the age by exactly one.
#[test]
fn envejecer_suma_un_dia_mientras_vive() {
    let mut c = cabra_con(5, Sexo::Macho, true);
    let mut azar = Azar::desde_guion(vec![999]);
    c.envejecer(&mut azar);
    assert!(c.viva);
    assert_eq!(c.edad, 6);
    assert_eq!(c.peso, 921); // the modelled weight at age 6
}

// Once dead, no tick changes the organism again.
#[test]
fn envejecer_no_toca_al_muerto() {
    let mut c = cabra_con(120, Sexo::Hembra, false);
    c.peso = 4444;
    let copia = c;
    let mut azar = Azar::desde_guion(vec![0, 0, 0]);
    c.envejecer(&mut azar);
    assert_eq!(c, copia);
}

#[test]
fn muerte_por_vejez_en_el_corte() {
    let mut c = cabra_con(364, Sexo::Hembra, true);
    // No draw is consumed: the age cutoff decides first.
    let mut azar = Azar::desde_guion(vec![]);
    c.envejecer(&mut azar);
    assert!(!c.viva);
    assert_eq!(c.edad, 365);
}

#[test]
fn muerte_por_sorteo_diario() {
    let mut c = cabra_con(100, Sexo::Macho, true);
    let mut azar = Azar::desde_guion(vec![0]); // 0 < 5 per mille: the trial kills
    c.envejecer(&mut azar);
    assert!(!c.viva);
    assert_eq!(c.edad, 101); // death this tick still happened after aging
}

#[test]
fn conejo_envejece_y_sobrevive() {
    let mut r = conejo_con(100, Sexo::Hembra, true);
    let mut azar = Azar::desde_guion(vec![999]);
    r.envejecer(&mut azar);
    assert!(r.viva);
    assert_eq!(r.edad, 101);
    assert_eq!(r.peso, 1843);
}

// Reproduction never returns offspring when the eligibility gate fails.
#[test]
fn sin_crias_si_no_es_elegible() {
    let mut azar = Azar::desde_guion(vec![0, 0, 0, 0]);
    // Male: never reproduces, whatever the draws.
    let macho = cabra_con(400, Sexo::Macho, true);
    assert_eq!(macho.reproducirse(&mut azar).len(), 0);
    // Too young.
    let joven = cabra_con(365, Sexo::Hembra, true);
    assert_eq!(joven.reproducirse(&mut azar).len(), 0);
    // Dead.
    let muerta = cabra_con(400, Sexo::Hembra, false);
    assert_eq!(muerta.reproducirse(&mut azar).len(), 0);
    // Rabbit, too young.
    let cria = conejo_con(90, Sexo::Hembra, true);
    assert_eq!(cria.reproducirse(&mut azar).len(), 0);
}

#[test]
fn sin_crias_si_falla_el_sorteo() {
    let hembra = cabra_con(400, Sexo::Hembra, true);
    let mut azar = Azar::desde_guion(vec![999]); // 999 >= 10 per mille
    assert_eq!(hembra.reproducirse(&mut azar).len(), 0);
}

// Offspring are always newborn: age zero, alive.
#[test]
fn crias_de_cabra_nacen_en_cero() {
    let hembra = cabra_con(400, Sexo::Hembra, true);
    // Trial passes (0 < 10), litter draw 1 gives 1 + 1 % 2 = 2 kids,
    // then one sex draw per kid.
    let mut azar = Azar::desde_guion(vec![0, 1, 0, 1]);
    let crias = hembra.reproducirse(&mut azar);
    assert_eq!(crias.len(), 2);
    let mut sexos = Vec::new();
    for cria in &crias {
        match cria {
            Organismo::Cabra(c) => {
                assert_eq!(c.edad, 0);
                assert_eq!(c.peso, 0);
                assert!(c.viva);
                sexos.push(c.sexo);
            }
            _ => panic!("la cria no es una cabra"),
        }
    }
    assert_eq!(sexos, vec![Sexo::Macho, Sexo::Hembra]);
}

#[test]
fn crias_de_conejo_nacen_en_cero() {
    let hembra = conejo_con(100, Sexo::Hembra, true);
    // Trial passes (0 < 100), litter draw 3 gives 1 + 3 % 4 = 4 kids.
    let mut azar = Azar::desde_guion(vec![0, 3, 0, 0, 1, 1]);
    let crias = hembra.reproducirse(&mut azar);
    assert_eq!(crias.len(), 4);
    for cria in &crias {
        match cria {
            Organismo::Conejo(c) => {
                assert_eq!(c.edad, 0);
                assert!(c.viva);
            }
            _ => panic!("la cria no es un conejo"),
        }
    }
}

#[test]
fn lobo_reproduce_solo_en_edad() {
    let mut azar = Azar::desde_guion(vec![0, 0]);
    let mut viejo = Lobo::new();
    viejo.edad = 501;
    let crias = viejo.reproducirse(&mut azar);
    assert_eq!(crias.len(), 1);
    match &crias[0] {
        Organismo::Lobo(l) => assert_eq!(*l, Lobo::new()),
        _ => panic!("la cria no es un lobo"),
    }
    let mut joven = Lobo::new();
    joven.edad = 400;
    assert_eq!(joven.reproducirse(&mut azar).len(), 0);
}

// A predator whose reserve cannot cover the daily minimum starves on its
// next feeding step.
#[test]
fn lobo_muere_de_hambre_sin_reserva() {
    let mut l = Lobo::new();
    l.reserva = 0;
    assert_eq!(l.nivel_minimo, 5_000);
    let mut azar = Azar::desde_guion(vec![]);
    l.alimentarse(&mut azar);
    assert!(!l.vivo);
    assert_eq!(l.reserva, 0);
}

#[test]
fn lobo_muere_de_hambre_al_envejecer() {
    let mut l = Lobo::new();
    l.reserva = 0;
    let mut azar = Azar::desde_guion(vec![]);
    l.envejecer(&mut azar);
    assert!(!l.vivo);
    assert_eq!(l.edad, 1);
    assert_eq!(l.reserva, 0);
}

#[test]
fn lobo_consume_entre_minimo_y_optimo() {
    let mut l = Lobo::new();
    l.reserva = 100_000;
    // Draw 0 gives the minimum daily consumption.
    let mut azar = Azar::desde_guion(vec![0]);
    l.envejecer(&mut azar);
    assert!(l.vivo);
    assert_eq!(l.edad, 1);
    assert_eq!(l.peso, 1); // modelled weight at age 1
    assert_eq!(l.reserva, 95_000);
}

#[test]
fn lobo_almacena_comida_exacta() {
    let mut l = Lobo::new();
    l.reserva = 0;
    l.agregar_comida(12_500);
    assert_eq!(l.reserva, 12_500);
    let mut muerto = Lobo::new();
    muerto.vivo = false;
    muerto.reserva = 3;
    muerto.agregar_comida(10);
    assert_eq!(muerto.reserva, 3);
}

#[test]
fn umbrales_de_caza_del_lobo() {
    let mut l = Lobo::new();
    l.reserva = 49_999;
    assert!(l.necesita_cazar());
    assert!(!l.tiene_reserva_llena());
    l.reserva = 50_000;
    assert!(!l.necesita_cazar());
    l.reserva = 200_000;
    assert!(l.tiene_reserva_llena());
}

#[test]
fn organismo_expone_su_especie() {
    let o = Organismo::Cabra(cabra_con(10, Sexo::Macho, true));
    assert!(o.is(Especie::Cabra));
    assert!(!o.is(Especie::Lobo));
    assert_eq!(o.cual_especie(), Especie::Cabra);
    assert_eq!(o.nombre(), "Cabra");
    assert_eq!(o.edad(), 10);
    assert!(o.esta_vivo());
    assert!(o.como_lobo().is_none());
    let l = Organismo::Lobo(Lobo::new());
    assert_eq!(l.nombre(), "Lobo");
    assert!(l.como_lobo().is_some());
    let r = Organismo::Conejo(conejo_con(3, Sexo::Hembra, true));
    assert_eq!(r.nombre(), "Conejo");
    assert_eq!(r.peso(), 0);
}
