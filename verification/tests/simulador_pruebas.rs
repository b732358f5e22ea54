use ecosistema::azar::Azar;
use ecosistema::cabra::Cabra;
use ecosistema::conejo::Conejo;
use ecosistema::lobo::Lobo;
use ecosistema::organismo::{Especie, Organismo, Sexo};
use ecosistema::simulador::{elegir_presa, poblar, presas_de, Simulador};

fn cabra(edad: u32, peso: u64) -> Organismo {
    Organismo::Cabra(Cabra { edad, peso, sexo: Sexo::Macho, viva: true })
}

fn conejo_hembra(edad: u32) -> Organismo {
    Organismo::Conejo(Conejo { edad, peso: 0, sexo: Sexo::Hembra, viva: true })
}

fn lobo_hambriento() -> Organismo {
    let mut l = Lobo::new();
    l.reserva = 0;
    l.nivel_minimo = 0;
    Organismo::Lobo(l)
}

fn reserva_del_lobo(sim: &Simulador) -> u64 {
    for o in &sim.poblacion {
        if let Organismo::Lobo(l) = o {
            return l.reserva;
        }
    }
    panic!("no hay lobo en la poblacion");
}

#[test]
fn simulador_nuevo_esta_vacio() {
    let sim = Simulador::new();
    assert_eq!(sim.poblacion.len(), 0);
    assert_eq!(sim.eventos.len(), 0);
    assert_eq!(sim.contar(Especie::Cabra), 0);
}

#[test]
fn agregar_y_contar_por_especie() {
    let mut sim = Simulador::new();
    sim.agregar(cabra(10, 0));
    sim.agregar(cabra(20, 0));
    sim.agregar(conejo_hembra(5));
    sim.agregar(Organismo::Lobo(Lobo::new()));
    assert_eq!(sim.contar(Especie::Cabra), 2);
    assert_eq!(sim.contar(Especie::Conejo), 1);
    assert_eq!(sim.contar(Especie::Lobo), 1);
    assert_eq!(sim.poblacion.len(), 4);
}

// The event log never exceeds its capacity: after 31 insertions the
// first entry is gone and the 31st is present.
#[test]
fn eventos_acotados_a_treinta() {
    let mut sim = Simulador::new();
    for i in 0..31 {
        sim.registrar_evento(format!("evento {}", i));
        assert!(sim.eventos.len() <= 30);
    }
    assert_eq!(sim.eventos.len(), 30);
    assert_eq!(sim.eventos[0], "evento 1");
    assert_eq!(sim.eventos[29], "evento 30");
    assert!(!sim.eventos.iter().any(|e| e == "evento 0"));
}

#[test]
fn poblar_siembra_la_poblacion_inicial() {
    let mut sim = Simulador::new();
    let mut azar = Azar::desde_semilla(7);
    poblar(&mut sim, &mut azar);
    assert_eq!(sim.poblacion.len(), 201);
    assert_eq!(sim.contar(Especie::Cabra), 100);
    assert_eq!(sim.contar(Especie::Conejo), 100);
    assert_eq!(sim.contar(Especie::Lobo), 1);
}

#[test]
fn presas_cubren_solo_a_los_maduros() {
    let poblacion = vec![
        cabra(49, 100),
        cabra(50, 111),
        conejo_hembra(60),
        Organismo::Lobo(Lobo::new()),
    ];
    let cabras = presas_de(&poblacion, Especie::Cabra);
    assert_eq!(cabras, vec![(1, 111)]);
    let conejos = presas_de(&poblacion, Especie::Conejo);
    assert_eq!(conejos, vec![(2, 0)]);
    let lobos = presas_de(&poblacion, Especie::Lobo);
    assert!(lobos.is_empty());
}

#[test]
fn presa_elegida_es_la_de_mayor_peso() {
    let presas = vec![(0usize, 100u64), (1, 200), (2, 150)];
    let mut azar = Azar::desde_guion(vec![0]);
    assert_eq!(elegir_presa(&presas, &mut azar), (1, 200));
}

// A tie among candidates of equal maximum weight is settled by the draw,
// and either tied candidate can come out.
#[test]
fn empate_se_resuelve_por_sorteo() {
    let presas = vec![(0usize, 500u64), (3, 500), (5, 400)];
    let mut primera = Azar::desde_guion(vec![0]);
    assert_eq!(elegir_presa(&presas, &mut primera), (0, 500));
    let mut segunda = Azar::desde_guion(vec![1]);
    assert_eq!(elegir_presa(&presas, &mut segunda), (3, 500));
}

// Ten fertile females whose trials are forced to succeed with litters of
// two grow the population by exactly twenty in one day.
#[test]
fn reproduccion_forzada_crece_en_veinte() {
    let mut sim = Simulador::new();
    for _ in 0..10 {
        sim.agregar(conejo_hembra(100));
    }
    let mut guion: Vec<u64> = Vec::new();
    for _ in 0..10 {
        // survive the daily trial, pass the litter trial, litter of two,
        // and one sex draw per kit
        guion.extend([999, 0, 1, 0, 0]);
    }
    let mut azar = Azar::desde_guion(guion);
    let reporte = sim.simular_dia(1, &mut azar);
    assert_eq!(reporte.muertos, 0);
    assert_eq!(reporte.nacidos, 20);
    assert!(reporte.caza.is_none());
    assert_eq!(sim.contar(Especie::Conejo), 30);
    assert_eq!(sim.poblacion.len(), 30);
}

// One hungry predator and one eligible prey: after one day the prey is
// gone, the wolf's reserve grew by exactly the prey's weight, and the
// event log gained exactly one notice.
#[test]
fn caza_transfiere_el_peso_de_la_presa() {
    let mut sim = Simulador::new();
    sim.agregar(cabra(99, 0));
    sim.agregar(lobo_hambriento());
    // goat survives its trial; wolf consumption draw; tie draw over the
    // single candidate
    let mut azar = Azar::desde_guion(vec![999, 0, 7]);
    let reporte = sim.simular_dia(1, &mut azar);
    assert_eq!(reporte.muertos, 0);
    assert_eq!(reporte.nacidos, 0);
    let caza = reporte.caza.expect("el lobo tuvo que cazar");
    assert_eq!(caza.especie, Especie::Cabra);
    assert_eq!(caza.peso, 12_588); // the goat's weight at age 100
    assert_eq!(sim.contar(Especie::Cabra), 0);
    assert_eq!(sim.contar(Especie::Lobo), 1);
    assert_eq!(reserva_del_lobo(&sim), 12_588);
    assert_eq!(sim.eventos.len(), 1);
    assert_eq!(sim.eventos[0], "El lobo cazo un Cabra de 12.588 kg");
}

#[test]
fn caza_elige_entre_especies_disponibles() {
    let mut sim = Simulador::new();
    sim.agregar(cabra(59, 0));
    sim.agregar(conejo_hembra(59));
    sim.agregar(lobo_hambriento());
    // two survival trials, the wolf's consumption, the species draw
    // (0 picks the goat), the tie draw
    let mut azar = Azar::desde_guion(vec![999, 999, 0, 0, 0]);
    let reporte = sim.simular_dia(1, &mut azar);
    let caza = reporte.caza.expect("el lobo tuvo que cazar");
    assert_eq!(caza.especie, Especie::Cabra);
    assert_eq!(sim.contar(Especie::Cabra), 0);
    assert_eq!(sim.contar(Especie::Conejo), 1);
}

#[test]
fn lobo_sin_reserva_muere_en_el_dia() {
    let mut sim = Simulador::new();
    let mut l = Lobo::new();
    l.reserva = 0; // below the default daily minimum of 5.0 kg
    sim.agregar(Organismo::Lobo(l));
    let mut azar = Azar::desde_guion(vec![]);
    let reporte = sim.simular_dia(1, &mut azar);
    assert_eq!(reporte.muertos, 1);
    assert!(reporte.caza.is_none());
    assert_eq!(sim.contar(Especie::Lobo), 0);
    assert_eq!(sim.eventos.len(), 0);
}

#[test]
fn lobo_saciado_no_caza() {
    let mut sim = Simulador::new();
    sim.agregar(cabra(99, 0));
    sim.agregar(Organismo::Lobo(Lobo::new())); // reserve far above the hunt threshold
    let mut azar = Azar::desde_guion(vec![999, 0]);
    let reporte = sim.simular_dia(1, &mut azar);
    assert!(reporte.caza.is_none());
    assert_eq!(sim.contar(Especie::Cabra), 1);
    assert_eq!(sim.eventos.len(), 0);
}

#[test]
fn el_reporte_refleja_la_poblacion() {
    let mut sim = Simulador::new();
    sim.agregar(cabra(5, 0));
    let mut azar = Azar::desde_guion(vec![999]);
    let reporte = sim.simular_dia(3, &mut azar);
    assert_eq!(reporte.dia, 3);
    assert_eq!(reporte.fichas.len(), 1);
    assert_eq!(reporte.fichas[0].especie, Especie::Cabra);
    assert_eq!(reporte.fichas[0].edad, 6);
    assert_eq!(reporte.fichas[0].peso, 921);
}

// A longer run preserves the engine's invariants day after day.
#[test]
fn corrida_larga_mantiene_invariantes() {
    let mut sim = Simulador::new();
    let mut azar = Azar::desde_semilla(42);
    poblar(&mut sim, &mut azar);
    for dia in 1..=60 {
        let de_antes = sim.poblacion.len();
        let reporte = sim.simular_dia(dia, &mut azar);
        assert!(sim.eventos.len() <= 30);
        assert!(sim.poblacion.iter().all(|o| o.esta_vivo()));
        let cazados = if reporte.caza.is_some() { 1 } else { 0 };
        assert_eq!(
            sim.poblacion.len() + reporte.muertos + cazados,
            de_antes + reporte.nacidos
        );
        assert_eq!(reporte.fichas.len(), sim.poblacion.len());
    }
}
