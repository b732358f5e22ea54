//! The simulation engine: one call of `simular_dia` runs a full day over
//! the shared population, in the fixed order aging-and-reproduction,
//! merge of offspring, predation, report.
//!
//! The predation pass is the delicate part: positional removal from the
//! population invalidates later indices, so the prey index is taken from
//! a freshly built candidate list and the wolf is looked up again after
//! the removal.

use crate::azar::Azar;
use crate::lobo::Lobo;
use crate::modelo::gompertz_spec;
use crate::organismo::{
    inflexion_de, nombre_de, nombre_especie, peso_max_de, tasa_de, Especie, Organismo,
};
use std::collections::VecDeque;
use vstd::prelude::*;

verus! {

/// The event log keeps at most this many entries.
pub const CAPACIDAD_EVENTOS: usize = 30;
/// An organism of a prey species at or past this age can be hunted.
pub const EDAD_MADUREZ: u32 = 50;

/// How many organisms of a species a sequence holds.
pub open spec fn cuenta_especie(s: Seq<Organismo>, especie: Especie) -> nat
    decreases s.len(),
{
    if s.len() == 0 {
        0
    } else {
        cuenta_especie(s.drop_last(), especie) + if s.last().especie() == especie {
            1nat
        } else {
            0nat
        }
    }
}

/// Appending one organism raises exactly its own species' count.
pub proof fn lemma_cuenta_push(s: Seq<Organismo>, o: Organismo, especie: Especie)
    ensures
        cuenta_especie(s.push(o), especie) == cuenta_especie(s, especie) + if o.especie()
            == especie {
            1nat
        } else {
            0nat
        },
{
    assert(s.push(o).drop_last() =~= s);
    assert(s.push(o).last() == o);
}

/// Whether `o` is eligible prey of species `especie` this tick.
pub open spec fn es_presa(o: Organismo, especie: Especie) -> bool {
    &&& (especie == Especie::Cabra || especie == Especie::Conejo)
    &&& o.especie() == especie
    &&& o.edad_spec() >= EDAD_MADUREZ
}

/// Whether the sequence holds eligible prey of species `especie`.
pub open spec fn hay_presa(s: Seq<Organismo>, especie: Especie) -> bool {
    exists|j: int| 0 <= j < s.len() && es_presa(s[j], especie)
}

/// Whether `o` is a living wolf.
pub open spec fn es_lobo_vivo(o: Organismo) -> bool {
    o matches Organismo::Lobo(l) && l.vivo
}

/// Whether position `fl` holds the first living wolf of the sequence.
pub open spec fn es_primer_lobo(s: Seq<Organismo>, fl: int) -> bool {
    &&& 0 <= fl < s.len()
    &&& es_lobo_vivo(s[fl])
    &&& forall|k: int| 0 <= k < fl ==> !es_lobo_vivo(#[trigger] s[k])
}

/// Whether a hunt happens on this population: its first living wolf both
/// needs to hunt and has room in its reserve, and eligible prey exists.
pub open spec fn caza_posible(s: Seq<Organismo>) -> bool {
    exists|fl: int|
        {
            &&& #[trigger] es_primer_lobo(s, fl)
            &&& s[fl]->Lobo_0.reserva < s[fl]->Lobo_0.reserva_minima
            &&& s[fl]->Lobo_0.reserva < s[fl]->Lobo_0.reserva_maxima
            &&& (hay_presa(s, Especie::Cabra) || hay_presa(s, Especie::Conejo))
        }
}

/// Whether `o` is a pre-tick inhabitant of `antes` that survived its
/// day: some living organism of `antes` has its species, and `o` is
/// alive, aged by exactly one day, with its weight refreshed from the
/// growth model.
pub open spec fn es_superviviente(antes: Seq<Organismo>, o: Organismo) -> bool {
    exists|j: int|
        {
            &&& 0 <= j < antes.len()
            &&& (#[trigger] antes[j]).vivo_spec()
            &&& o.vivo_spec()
            &&& o.especie() == antes[j].especie()
            &&& (antes[j].edad_spec() < u32::MAX ==> o.edad_spec() == antes[j].edad_spec() + 1)
            &&& o.peso_spec() as int == gompertz_spec(
                o.edad_spec() as int,
                peso_max_de(o.especie()) as int,
                tasa_de(o.especie()) as int,
                inflexion_de(o.especie()) as int,
            )
        }
}

/// Whether `s` is a population that the aging-and-reproduction pass can
/// leave behind `antes`: first the aged survivors, then this tick's
/// newborns, with the deaths and births accounted for.
pub open spec fn paso_de_envejecimiento(
    antes: Seq<Organismo>,
    s: Seq<Organismo>,
    muertos: int,
    nacidos: int,
) -> bool {
    &&& 0 <= muertos <= antes.len()
    &&& 0 <= nacidos
    &&& s.len() == antes.len() - muertos + nacidos
    &&& forall|k: int|
        0 <= k < antes.len() - muertos ==> es_superviviente(antes, #[trigger] s[k])
    &&& forall|k: int|
        antes.len() - muertos <= k < s.len() ==> (#[trigger] s[k]).recien_nacido() && s[
            k
        ].peso_spec() == 0
}

/// The wolf after food from a hunt is added to its reserve.
pub open spec fn lobo_alimentado(l: Lobo, cantidad: u64) -> Lobo {
    Lobo {
        reserva: if cantidad <= u64::MAX - l.reserva {
            (l.reserva + cantidad) as u64
        } else {
            u64::MAX
        },
        ..l
    }
}

/// What a completed hunt guarantees, relating the population before the
/// predation pass (`paso`) to the one after it (`despues`): the hunt was
/// possible, the selected prey is a maximum-weight eligible candidate of
/// the chosen species (never outweighed by any other), a species without
/// candidates is never chosen, and `despues` is exactly `paso` with that
/// prey removed and the feeding wolf's reserve grown by its weight.
pub open spec fn caza_correcta(paso: Seq<Organismo>, despues: Seq<Organismo>, c: Caza) -> bool {
    &&& caza_posible(paso)
    &&& hay_presa(paso, c.especie)
    &&& (forall|j: int|
        0 <= j < paso.len() && es_presa(#[trigger] paso[j], c.especie) ==> paso[
            j
        ].peso_spec() <= c.peso)
    &&& (!hay_presa(paso, Especie::Conejo) ==> c.especie == Especie::Cabra)
    &&& (!hay_presa(paso, Especie::Cabra) ==> c.especie == Especie::Conejo)
    &&& exists|ip: int, il: int|
        #![trigger paso.remove(ip)[il]]
        {
            let sin_presa = paso.remove(ip);
            &&& 0 <= ip < paso.len()
            &&& es_presa(paso[ip], c.especie)
            &&& paso[ip].peso_spec() == c.peso
            &&& 0 <= il < sin_presa.len()
            &&& sin_presa[il] matches Organismo::Lobo(l1) && l1.vivo && despues
                == sin_presa.update(il, Organismo::Lobo(lobo_alimentado(l1, c.peso)))
        }
}

/// What one whole day guarantees: some mid-tick population `paso` is the
/// outcome of the aging-and-reproduction pass over `antes`, and the
/// predation pass either found no possible hunt and left it alone, or
/// performed a correct hunt on it.
pub open spec fn dia_correcto(
    antes: Seq<Organismo>,
    paso: Seq<Organismo>,
    despues: Seq<Organismo>,
    caza: Option<Caza>,
    muertos: int,
    nacidos: int,
) -> bool {
    &&& paso_de_envejecimiento(antes, paso, muertos, nacidos)
    &&& (caza is None ==> despues == paso && !caza_posible(paso))
    &&& (caza matches Some(c) ==> caza_correcta(paso, despues, c))
}

/// What the hunt notice says: a pure function of the species name and
/// the two components of the prey's weight.
pub uninterp spec fn texto_evento_de(nombre: Seq<char>, kilos: u64, milesimas: u64) -> Seq<char>;

/// Relies on std's format macro: the notice is built from the species
/// name and the weight, and depends on nothing else.
#[verifier::external_body]
fn texto_evento(nombre: &str, kilos: u64, milesimas: u64) -> (r: String)
    ensures
        r@ == texto_evento_de(nombre@, kilos, milesimas),
{
    format!("El lobo cazo un {} de {}.{:03} kg", nombre, kilos, milesimas)
}

/// One snapshot line of the end-of-day report.
#[derive(Clone, Copy, PartialEq, Eq, Structural, Debug)]
pub struct Ficha {
    pub especie: Especie,
    pub edad: u32,
    pub peso: u64,
}

/// The report line of an organism.
pub open spec fn ficha_de(o: Organismo) -> Ficha {
    Ficha { especie: o.especie(), edad: o.edad_spec(), peso: o.peso_spec() }
}

/// The outcome of a successful hunt.
#[derive(Clone, Copy, PartialEq, Eq, Structural, Debug)]
pub struct Caza {
    pub especie: Especie,
    pub peso: u64,
}

/// The structured result of one simulated day.
pub struct ReporteDia {
    pub dia: u32,
    pub muertos: usize,
    pub nacidos: usize,
    pub caza: Option<Caza>,
    pub fichas: Vec<Ficha>,
    /// The population between the aging-and-reproduction pass and the
    /// predation pass, kept for specification only.
    pub paso: Ghost<Seq<Organismo>>,
}

/// The ecosystem: the shared population and the bounded event log.
pub struct Simulador {
    pub poblacion: Vec<Organismo>,
    pub eventos: VecDeque<String>,
}

/// The eligible prey of one species: for every candidate its current
/// position and weight, covering every eligible organism.
pub fn presas_de(poblacion: &Vec<Organismo>, especie: Especie) -> (r: Vec<(usize, u64)>)
    ensures
        forall|k: int|
            0 <= k < r@.len() ==> {
                &&& (#[trigger] r@[k]).0 < poblacion@.len()
                &&& es_presa(poblacion@[r@[k].0 as int], especie)
                &&& r@[k].1 == poblacion@[r@[k].0 as int].peso_spec()
            },
        forall|j: int|
            0 <= j < poblacion@.len() && es_presa(#[trigger] poblacion@[j], especie)
                ==> exists|k: int| 0 <= k < r@.len() && (#[trigger] r@[k]).0 == j,
{
    let mut r: Vec<(usize, u64)> = Vec::new();
    let mut i: usize = 0;
    while i < poblacion.len()
        invariant
            i <= poblacion@.len(),
            forall|k: int|
                0 <= k < r@.len() ==> {
                    &&& (#[trigger] r@[k]).0 < i
                    &&& es_presa(poblacion@[r@[k].0 as int], especie)
                    &&& r@[k].1 == poblacion@[r@[k].0 as int].peso_spec()
                },
            forall|j: int|
                0 <= j < i && es_presa(#[trigger] poblacion@[j], especie)
                    ==> exists|k: int| 0 <= k < r@.len() && (#[trigger] r@[k]).0 == j,
        decreases poblacion@.len() - i,
    {
        let ghost r_previa = r@;
        let o = &poblacion[i];
        if o.is(especie) && o.edad() >= EDAD_MADUREZ && (matches!(especie, Especie::Cabra)
            || matches!(especie, Especie::Conejo)) {
            let peso = o.peso();
            r.push((i, peso));
        }
        proof {
            assert forall|j: int|
                0 <= j < i + 1 && es_presa(#[trigger] poblacion@[j], especie) implies exists|
                k: int,
            | 0 <= k < r@.len() && (#[trigger] r@[k]).0 == j by {
                if j < i {
                    let k = choose|k: int|
                        0 <= k < r_previa.len() && (#[trigger] r_previa[k]).0 == j;
                    assert(r@[k] == r_previa[k]);
                } else {
                    assert(r@[r@.len() - 1].0 == i);
                }
            }
        }
        i = i + 1;
    }
    r
}

/// Among a non-empty candidate list, pick one of maximum weight; exact
/// ties are broken by a uniform draw among the tied candidates.
pub fn elegir_presa(presas: &Vec<(usize, u64)>, azar: &mut Azar) -> (r: (usize, u64))
    requires
        presas@.len() > 0,
    ensures
        exists|k: int| 0 <= k < presas@.len() && #[trigger] presas@[k] == r,
        forall|k: int| 0 <= k < presas@.len() ==> (#[trigger] presas@[k]).1 <= r.1,
{
    let mut max_peso: u64 = presas[0].1;
    let mut i: usize = 1;
    while i < presas.len()
        invariant
            1 <= i <= presas@.len(),
            exists|k: int| 0 <= k < i && (#[trigger] presas@[k]).1 == max_peso,
            forall|k: int| 0 <= k < i ==> (#[trigger] presas@[k]).1 <= max_peso,
        decreases presas@.len() - i,
    {
        if presas[i].1 > max_peso {
            max_peso = presas[i].1;
        }
        i = i + 1;
    }
    let mut empatadas: Vec<(usize, u64)> = Vec::new();
    let mut j: usize = 0;
    while j < presas.len()
        invariant
            j <= presas@.len(),
            forall|k: int|
                0 <= k < empatadas@.len() ==> {
                    &&& (#[trigger] empatadas@[k]).1 == max_peso
                    &&& exists|m: int| 0 <= m < presas@.len() && #[trigger] presas@[m]
                        == empatadas@[k]
                },
            (exists|k: int| 0 <= k < j && (#[trigger] presas@[k]).1 == max_peso)
                ==> empatadas@.len() > 0,
        decreases presas@.len() - j,
    {
        if presas[j].1 == max_peso {
            empatadas.push(presas[j]);
        }
        j = j + 1;
    }
    let cual = azar.bajo(empatadas.len() as u64);
    empatadas[cual as usize]
}

/// The first living wolf of the population, with its position.
fn buscar_primer_lobo(poblacion: &Vec<Organismo>) -> (r: Option<(usize, Lobo)>)
    ensures
        r is None ==> forall|k: int|
            0 <= k < poblacion@.len() ==> !es_lobo_vivo(#[trigger] poblacion@[k]),
        r matches Some(p) ==> {
            &&& p.0 < poblacion@.len()
            &&& poblacion@[p.0 as int] == Organismo::Lobo(p.1)
            &&& p.1.vivo
            &&& forall|k: int| 0 <= k < p.0 ==> !es_lobo_vivo(#[trigger] poblacion@[k])
        },
{
    let mut i: usize = 0;
    while i < poblacion.len()
        invariant
            i <= poblacion@.len(),
            forall|k: int| 0 <= k < i ==> !es_lobo_vivo(#[trigger] poblacion@[k]),
        decreases poblacion@.len() - i,
    {
        match &poblacion[i] {
            Organismo::Lobo(l) => {
                if l.vivo {
                    return Some((i, *l));
                }
            },
            _ => {},
        }
        i = i + 1;
    }
    None
}

impl Simulador {
    /// A well-formed simulator: the event log within its capacity and
    /// every stored organism well formed.
    pub open spec fn bien_formado(self) -> bool {
        &&& self.eventos@.len() <= CAPACIDAD_EVENTOS
        &&& forall|i: int|
            0 <= i < self.poblacion@.len() ==> (#[trigger] self.poblacion@[i]).bien_formado()
    }

    /// An empty ecosystem.
    pub fn new() -> (s: Simulador)
        ensures
            s.poblacion@ == Seq::<Organismo>::empty(),
            s.eventos@ == Seq::<String>::empty(),
            s.bien_formado(),
    {
        Simulador { poblacion: Vec::new(), eventos: VecDeque::with_capacity(CAPACIDAD_EVENTOS) }
    }

    /// Append a notification, evicting the oldest entry when the log is
    /// at capacity, so the log never grows past its bound.
    pub fn registrar_evento(&mut self, mensaje: String)
        ensures
            final(self).poblacion == old(self).poblacion,
            old(self).eventos@.len() < CAPACIDAD_EVENTOS ==> final(self).eventos@ == old(self).eventos@.push(mensaje),
            old(self).eventos@.len() == CAPACIDAD_EVENTOS ==> final(self).eventos@ == old(self).eventos@.subrange(1, old(self).eventos@.len() as int).push(mensaje),
            old(self).eventos@.len() <= CAPACIDAD_EVENTOS ==> final(self).eventos@.len()
                <= CAPACIDAD_EVENTOS,
            old(self).eventos@.len() > CAPACIDAD_EVENTOS ==> final(self).eventos@ == old(self).eventos@.push(mensaje),
    {
        if self.eventos.len() == CAPACIDAD_EVENTOS {
            let _viejo = self.eventos.pop_front();
        }
        self.eventos.push_back(mensaje);
    }

    /// Add one organism to the population.
    pub fn agregar(&mut self, organismo: Organismo)
        requires
            organismo.bien_formado(),
        ensures
            final(self).poblacion@ == old(self).poblacion@.push(organismo),
            final(self).eventos == old(self).eventos,
            old(self).bien_formado() ==> final(self).bien_formado(),
    {
        self.poblacion.push(organismo);
    }

    /// How many organisms of the given species the population holds.
    pub fn contar(&self, especie: Especie) -> (n: usize)
        ensures
            n == cuenta_especie(self.poblacion@, especie),
            n <= self.poblacion@.len(),
    {
        let mut n: usize = 0;
        let mut i: usize = 0;
        while i < self.poblacion.len()
            invariant
                i <= self.poblacion@.len(),
                n <= i,
                n == cuenta_especie(self.poblacion@.take(i as int), especie),
            decreases self.poblacion@.len() - i,
        {
            proof {
                assert(self.poblacion@.take(i + 1).drop_last() =~= self.poblacion@.take(i as int));
                assert(self.poblacion@.take(i + 1).last() == self.poblacion@[i as int]);
            }
            if self.poblacion[i].is(especie) {
                n = n + 1;
            }
            i = i + 1;
        }
        proof {
            assert(self.poblacion@.take(self.poblacion@.len() as int) =~= self.poblacion@);
        }
        n
    }

    /// The end-of-day snapshot: species, age and weight of every stored
    /// organism, in population order.
    pub fn fichas(&self) -> (r: Vec<Ficha>)
        ensures
            r@.len() == self.poblacion@.len(),
            forall|i: int|
                0 <= i < r@.len() ==> #[trigger] r@[i] == ficha_de(self.poblacion@[i]),
    {
        let mut r: Vec<Ficha> = Vec::new();
        let mut i: usize = 0;
        while i < self.poblacion.len()
            invariant
                i <= self.poblacion@.len(),
                r@.len() == i,
                forall|k: int|
                    0 <= k < r@.len() ==> #[trigger] r@[k] == ficha_de(self.poblacion@[k]),
            decreases self.poblacion@.len() - i,
        {
            let o = &self.poblacion[i];
            r.push(Ficha { especie: o.cual_especie(), edad: o.edad(), peso: o.peso() });
            i = i + 1;
        }
        r
    }

    /// The predation pass.  The hunt happens exactly when the first
    /// living wolf needs food and has room, and some eligible prey
    /// exists; the selected prey is a maximum-weight eligible candidate
    /// of the chosen species, it leaves the population, its weight goes
    /// into the wolf's reserve, and one notice enters the event log.
    pub fn cazar(&mut self, azar: &mut Azar) -> (r: Option<Caza>)
        requires
            old(self).eventos@.len() <= CAPACIDAD_EVENTOS,
        ensures
            r is Some <==> caza_posible(old(self).poblacion@),
            r is None ==> *final(self) == *old(self),
            r matches Some(c) ==> {
                &&& caza_correcta(old(self).poblacion@, final(self).poblacion@, c)
                &&& final(self).poblacion@.len() + 1 == old(self).poblacion@.len()
                &&& final(self).eventos@.len() == (if old(self).eventos@.len()
                    < CAPACIDAD_EVENTOS {
                    old(self).eventos@.len() + 1
                } else {
                    CAPACIDAD_EVENTOS as nat
                })
                &&& final(self).eventos@.last()@ == texto_evento_de(
                    nombre_especie(c.especie),
                    c.peso / 1000,
                    c.peso % 1000,
                )
            },
            r matches Some(c) ==> exists|m: String|
                {
                    &&& (#[trigger] m@) == texto_evento_de(
                        nombre_especie(c.especie),
                        c.peso / 1000,
                        c.peso % 1000,
                    )
                    &&& final(self).eventos@ == (if old(self).eventos@.len()
                        < CAPACIDAD_EVENTOS {
                        old(self).eventos@
                    } else {
                        old(self).eventos@.skip(1)
                    }).push(m)
                },
            r is Some ==> ((forall|k: int|
                0 <= k < old(self).poblacion@.len() ==> (#[trigger] old(self).poblacion@[k]).vivo_spec()) ==> (forall|k: int|
                0 <= k < final(self).poblacion@.len() ==> (#[trigger] final(self).poblacion@[k]).vivo_spec())),
            r is Some ==> ((forall|k: int|
                0 <= k < old(self).poblacion@.len() ==> (#[trigger] old(self).poblacion@[k]).bien_formado()) ==> (forall|k: int|
                0 <= k < final(self).poblacion@.len() ==> (#[trigger] final(self).poblacion@[k]).bien_formado())),
    {
        let buscado = buscar_primer_lobo(&self.poblacion);
        let (fl, lobo) = match buscado {
            Some(p) => p,
            None => {
                proof {
                    assert(!caza_posible(self.poblacion@)) by {
                        if caza_posible(self.poblacion@) {
                            let fl = choose|fl: int|
                                es_primer_lobo(self.poblacion@, fl) && self.poblacion@[fl]
                                    ->Lobo_0.reserva < self.poblacion@[fl]->Lobo_0.reserva_minima
                                    && self.poblacion@[fl]->Lobo_0.reserva < self.poblacion@[fl]
                                    ->Lobo_0.reserva_maxima && (hay_presa(
                                    self.poblacion@,
                                    Especie::Cabra,
                                ) || hay_presa(self.poblacion@, Especie::Conejo));
                            assert(es_lobo_vivo(self.poblacion@[fl]));
                        }
                    }
                }
                return None;
            },
        };
        proof {
            // The first living wolf is unique.
            assert forall|fl2: int| es_primer_lobo(self.poblacion@, fl2) implies fl2 == fl as int by {
                if fl2 < fl {
                    assert(es_lobo_vivo(self.poblacion@[fl2]));
                } else if fl2 > fl {
                    assert(!es_lobo_vivo(self.poblacion@[fl as int]));
                }
            }
            assert(es_primer_lobo(self.poblacion@, fl as int));
        }
        if !(lobo.necesita_cazar() && !lobo.tiene_reserva_llena()) {
            proof {
                assert(!caza_posible(self.poblacion@)) by {
                    if caza_posible(self.poblacion@) {
                        let fl2 = choose|fl2: int|
                            {
                                &&& #[trigger] es_primer_lobo(self.poblacion@, fl2)
                                &&& self.poblacion@[fl2]->Lobo_0.reserva < self.poblacion@[fl2]
                                    ->Lobo_0.reserva_minima
                                &&& self.poblacion@[fl2]->Lobo_0.reserva < self.poblacion@[fl2]
                                    ->Lobo_0.reserva_maxima
                                &&& (hay_presa(self.poblacion@, Especie::Cabra) || hay_presa(
                                    self.poblacion@,
                                    Especie::Conejo,
                                ))
                            };
                        assert(fl2 == fl as int);
                        assert(self.poblacion@[fl as int]->Lobo_0 == lobo);
                    }
                }
            }
            return None;
        }
        let presas_cabras = presas_de(&self.poblacion, Especie::Cabra);
        let presas_conejos = presas_de(&self.poblacion, Especie::Conejo);
        proof {
            if presas_cabras@.len() == 0 {
                assert(!hay_presa(self.poblacion@, Especie::Cabra)) by {
                    if hay_presa(self.poblacion@, Especie::Cabra) {
                        let j = choose|j: int|
                            0 <= j < self.poblacion@.len() && es_presa(
                                #[trigger] self.poblacion@[j],
                                Especie::Cabra,
                            );
                        assert(exists|k: int|
                            0 <= k < presas_cabras@.len() && (#[trigger] presas_cabras@[k]).0
                                == j);
                    }
                }
            }
            if presas_conejos@.len() == 0 {
                assert(!hay_presa(self.poblacion@, Especie::Conejo)) by {
                    if hay_presa(self.poblacion@, Especie::Conejo) {
                        let j = choose|j: int|
                            0 <= j < self.poblacion@.len() && es_presa(
                                #[trigger] self.poblacion@[j],
                                Especie::Conejo,
                            );
                        assert(exists|k: int|
                            0 <= k < presas_conejos@.len() && (#[trigger] presas_conejos@[k]).0
                                == j);
                    }
                }
            }
        }
        let objetivo: Especie;
        if presas_cabras.len() > 0 && presas_conejos.len() > 0 {
            objetivo = if azar.bajo(2) == 0 {
                Especie::Cabra
            } else {
                Especie::Conejo
            };
        } else if presas_cabras.len() > 0 {
            objetivo = Especie::Cabra;
        } else if presas_conejos.len() > 0 {
            objetivo = Especie::Conejo;
        } else {
            proof {
                assert(!caza_posible(self.poblacion@)) by {
                    if caza_posible(self.poblacion@) {
                        let fl2 = choose|fl2: int|
                            {
                                &&& #[trigger] es_primer_lobo(self.poblacion@, fl2)
                                &&& self.poblacion@[fl2]->Lobo_0.reserva < self.poblacion@[fl2]
                                    ->Lobo_0.reserva_minima
                                &&& self.poblacion@[fl2]->Lobo_0.reserva < self.poblacion@[fl2]
                                    ->Lobo_0.reserva_maxima
                                &&& (hay_presa(self.poblacion@, Especie::Cabra) || hay_presa(
                                    self.poblacion@,
                                    Especie::Conejo,
                                ))
                            };
                    }
                }
            }
            return None;
        }
        let presas = if matches!(objetivo, Especie::Cabra) {
            presas_cabras
        } else {
            presas_conejos
        };
        let escogida = elegir_presa(&presas, azar);
        let ip = escogida.0;
        let peso_presa = escogida.1;
        let ghost antes = self.poblacion@;
        proof {
            let k0 = choose|k0: int| 0 <= k0 < presas@.len() && #[trigger] presas@[k0] == escogida;
            assert(es_presa(antes[ip as int], objetivo));
            assert(antes[ip as int].peso_spec() == peso_presa);
            // Every eligible candidate of the chosen species is covered by
            // the candidate list, so none outweighs the selected prey.
            assert forall|j: int|
                0 <= j < antes.len() && es_presa(#[trigger] antes[j], objetivo) implies antes[
                j
            ].peso_spec() <= peso_presa by {
                let k = choose|k: int| 0 <= k < presas@.len() && (#[trigger] presas@[k]).0 == j;
                assert(presas@[k].1 <= peso_presa);
            }
        }
        let presa = self.poblacion.remove(ip);
        proof {
            // The prey is no wolf, so the first living wolf survives the
            // removal, shifted down by at most one position.
            assert(ip != fl);
            let viejo = if (fl as int) < ip as int {
                fl as int
            } else {
                fl as int - 1
            };
            assert(self.poblacion@[viejo] == antes[fl as int]);
        }
        let buscado2 = buscar_primer_lobo(&self.poblacion);
        let (il, mut lobo2) = match buscado2 {
            Some(p) => p,
            None => {
                proof {
                    assert(false);
                }
                return None;
            },
        };
        let ghost lobo_antes = lobo2;
        let ghost sin_presa = self.poblacion@;
        lobo2.agregar_comida(peso_presa);
        proof {
            assert(lobo2 == lobo_alimentado(lobo_antes, peso_presa));
        }
        self.poblacion[il] = Organismo::Lobo(lobo2);
        let kilos = peso_presa / 1000;
        let milesimas = peso_presa % 1000;
        let nombre = nombre_de(objetivo);
        let mensaje = texto_evento(nombre, kilos, milesimas);
        let ghost mensaje_vista = mensaje;
        self.registrar_evento(mensaje);
        let c = Caza { especie: objetivo, peso: peso_presa };
        proof {
            assert(mensaje_vista@ == texto_evento_de(
                nombre_especie(c.especie),
                c.peso / 1000,
                c.peso % 1000,
            ));
            assert(self.eventos@ == (if old(self).eventos@.len() < CAPACIDAD_EVENTOS {
                old(self).eventos@
            } else {
                old(self).eventos@.skip(1)
            }).push(mensaje_vista));
            assert(caza_posible(antes)) by {
                assert(es_primer_lobo(antes, fl as int));
                assert(antes[fl as int]->Lobo_0 == lobo);
                assert(hay_presa(antes, objetivo));
            }
            // Witnesses for the reconstruction clause.
            assert({
                let sp = antes.remove(ip as int);
                &&& 0 <= (ip as int) < antes.len()
                &&& es_presa(antes[ip as int], c.especie)
                &&& antes[ip as int].peso_spec() == c.peso
                &&& 0 <= (il as int) < sp.len()
                &&& sp[il as int] matches Organismo::Lobo(l1) && l1.vivo && self.poblacion@
                    == sp.update(il as int, Organismo::Lobo(lobo_alimentado(l1, c.peso)))
            });
            assert(caza_correcta(antes, self.poblacion@, c));
            // Liveness and well-formedness carry over element by element.
            assert forall|k: int|
                0 <= k < sin_presa.len() implies sin_presa[k] == (if k < ip as int {
                antes[k]
            } else {
                antes[k + 1]
            }) by {}
            if forall|k: int| 0 <= k < antes.len() ==> (#[trigger] antes[k]).vivo_spec() {
                assert forall|k: int|
                    0 <= k < self.poblacion@.len() implies (#[trigger] self.poblacion@[
                    k
                ]).vivo_spec() by {
                    if k == il as int {
                        assert(self.poblacion@[k] == Organismo::Lobo(lobo2));
                    } else {
                        assert(self.poblacion@[k] == sin_presa[k]);
                    }
                }
            }
            if forall|k: int| 0 <= k < antes.len() ==> (#[trigger] antes[k]).bien_formado() {
                assert forall|k: int|
                    0 <= k < self.poblacion@.len() implies (#[trigger] self.poblacion@[
                    k
                ]).bien_formado() by {
                    if k == il as int {
                        assert(sin_presa[il as int].bien_formado());
                        assert(self.poblacion@[k] == Organismo::Lobo(lobo2));
                    } else {
                        assert(self.poblacion@[k] == sin_presa[k]);
                    }
                }
            }
        }
        Some(c)
    }

    /// One full simulated day: every organism ages (wolves also feed)
    /// and may reproduce from its pre-tick state, the dead are pruned,
    /// offspring join the population, the wolf may hunt, and the day's
    /// numbers are reported.  Afterwards every stored organism is alive,
    /// and the population change is exactly births minus deaths minus
    /// the hunted prey.
    pub fn simular_dia(&mut self, dia: u32, azar: &mut Azar) -> (r: ReporteDia)
        requires
            old(self).bien_formado(),
        ensures
            final(self).bien_formado(),
            forall|i: int|
                0 <= i < final(self).poblacion@.len() ==> (#[trigger] final(self).poblacion@[i]).vivo_spec(),
            r.dia == dia,
            r.nacidos <= 4 * old(self).poblacion@.len(),
            final(self).poblacion@.len() + r.muertos + (if r.caza is Some {
                1int
            } else {
                0int
            }) == old(self).poblacion@.len() + r.nacidos,
            r.fichas@.len() == final(self).poblacion@.len(),
            forall|i: int|
                0 <= i < r.fichas@.len() ==> #[trigger] r.fichas@[i] == ficha_de(
                    final(self).poblacion@[i],
                ),
            r.caza is None ==> final(self).eventos@ == old(self).eventos@,
            r.caza matches Some(c) ==> {
                &&& final(self).eventos@.len() == (if old(self).eventos@.len()
                    < CAPACIDAD_EVENTOS {
                    old(self).eventos@.len() + 1
                } else {
                    CAPACIDAD_EVENTOS as nat
                })
                &&& final(self).eventos@.last()@ == texto_evento_de(
                    nombre_especie(c.especie),
                    c.peso / 1000,
                    c.peso % 1000,
                )
            },
            r.caza matches Some(c) ==> exists|m: String|
                {
                    &&& (#[trigger] m@) == texto_evento_de(
                        nombre_especie(c.especie),
                        c.peso / 1000,
                        c.peso % 1000,
                    )
                    &&& final(self).eventos@ == (if old(self).eventos@.len()
                        < CAPACIDAD_EVENTOS {
                        old(self).eventos@
                    } else {
                        old(self).eventos@.skip(1)
                    }).push(m)
                },
            dia_correcto(
                old(self).poblacion@,
                r.paso@,
                final(self).poblacion@,
                r.caza,
                r.muertos as int,
                r.nacidos as int,
            ),
    {
        let n = self.poblacion.len();
        let ghost antes = self.poblacion@;
        let ghost eventos_antes = self.eventos@;
        let mut vivos: Vec<Organismo> = Vec::new();
        let mut nacidos: Vec<Organismo> = Vec::new();
        let mut muertos: usize = 0;
        let mut i: usize = 0;
        while i < n
            invariant
                i <= n,
                n == antes.len(),
                self.poblacion@ == antes,
                self.eventos@ == eventos_antes,
                old(self).bien_formado(),
                antes == old(self).poblacion@,
                eventos_antes == old(self).eventos@,
                vivos@.len() + muertos == i,
                nacidos@.len() <= 4 * i,
                forall|k: int|
                    0 <= k < vivos@.len() ==> es_superviviente(antes, #[trigger] vivos@[k])
                        && vivos@[k].vivo_spec() && vivos@[k].bien_formado(),
                forall|k: int|
                    0 <= k < nacidos@.len() ==> (#[trigger] nacidos@[k]).recien_nacido()
                        && nacidos@[k].peso_spec() == 0 && nacidos@[k].bien_formado(),
            decreases n - i,
        {
            let antes_org = self.poblacion[i];
            let mut org = antes_org;
            org.envejecer(azar);
            // Reproduction is evaluated from the pre-tick state: an
            // organism that dies this very day may still have bred.
            let mut camada = antes_org.reproducirse(azar);
            let ghost camada_vista = camada@;
            let ghost nacidos_previos = nacidos@;
            nacidos.append(&mut camada);
            proof {
                assert forall|k: int|
                    0 <= k < nacidos@.len() implies (#[trigger] nacidos@[k]).recien_nacido()
                    && nacidos@[k].peso_spec() == 0 && nacidos@[k].bien_formado() by {
                    if k < nacidos_previos.len() {
                        assert(nacidos@[k] == nacidos_previos[k]);
                    } else {
                        assert(nacidos@[k] == camada_vista[k - nacidos_previos.len()]);
                        assert(camada_vista[k - nacidos_previos.len()].recien_nacido());
                    }
                }
            }
            proof {
                if org.vivo_spec() {
                    assert(antes[i as int].vivo_spec());
                    assert(es_superviviente(antes, org));
                }
            }
            if org.esta_vivo() {
                vivos.push(org);
            } else {
                muertos = muertos + 1;
            }
            i = i + 1;
        }
        let cuantos_nacidos = nacidos.len();
        let ghost vivos_vista = vivos@;
        let ghost nacidos_vista = nacidos@;
        vivos.append(&mut nacidos);
        self.poblacion = vivos;
        let ghost fusionada = self.poblacion@;
        proof {
            assert forall|k: int|
                0 <= k < antes.len() - muertos implies es_superviviente(
                antes,
                #[trigger] fusionada[k],
            ) by {
                assert(fusionada[k] == vivos_vista[k]);
            }
            assert forall|k: int|
                antes.len() - muertos <= k < fusionada.len() implies (#[trigger] fusionada[
                k
            ]).recien_nacido() && fusionada[k].peso_spec() == 0 by {
                assert(fusionada[k] == nacidos_vista[k - vivos_vista.len()]);
            }
            assert(paso_de_envejecimiento(
                antes,
                fusionada,
                muertos as int,
                cuantos_nacidos as int,
            ));
        }
        let caza = self.cazar(azar);
        proof {
            assert(dia_correcto(
                antes,
                fusionada,
                self.poblacion@,
                caza,
                muertos as int,
                cuantos_nacidos as int,
            ));
        }
        let fichas = self.fichas();
        ReporteDia { dia, muertos, nacidos: cuantos_nacidos, caza, fichas, paso: Ghost(fusionada) }
    }
}

/// Seed the standard starting population: one hundred goats, one
/// hundred rabbits and a single wolf.
pub fn poblar(sim: &mut Simulador, azar: &mut Azar)
    requires
        old(sim).bien_formado(),
    ensures
        final(sim).bien_formado(),
        final(sim).poblacion@.len() == old(sim).poblacion@.len() + 201,
        final(sim).eventos == old(sim).eventos,
        cuenta_especie(final(sim).poblacion@, Especie::Cabra) == cuenta_especie(
            old(sim).poblacion@,
            Especie::Cabra,
        ) + 100,
        cuenta_especie(final(sim).poblacion@, Especie::Conejo) == cuenta_especie(
            old(sim).poblacion@,
            Especie::Conejo,
        ) + 100,
        cuenta_especie(final(sim).poblacion@, Especie::Lobo) == cuenta_especie(
            old(sim).poblacion@,
            Especie::Lobo,
        ) + 1,
        final(sim).poblacion@.subrange(0, old(sim).poblacion@.len() as int) == old(sim).poblacion@,
        forall|i: int|
            old(sim).poblacion@.len() <= i < final(sim).poblacion@.len() ==> (#[trigger] final(sim).poblacion@[i]).recien_nacido() && final(sim).poblacion@[i].peso_spec() == 0,
        final(sim).poblacion@.last() == Organismo::Lobo(Lobo::inicial()),
{
    let mut i: usize = 0;
    while i < 100
        invariant
            i <= 100,
            sim.bien_formado(),
            sim.poblacion@.len() == old(sim).poblacion@.len() + i,
            sim.eventos == old(sim).eventos,
            sim.poblacion@.subrange(0, old(sim).poblacion@.len() as int) == old(sim).poblacion@,
            forall|k: int|
                old(sim).poblacion@.len() <= k < sim.poblacion@.len() ==> (#[trigger] sim.poblacion@[
                    k
                ]).recien_nacido() && sim.poblacion@[k].peso_spec() == 0,
            cuenta_especie(sim.poblacion@, Especie::Cabra) == cuenta_especie(
                old(sim).poblacion@,
                Especie::Cabra,
            ) + i,
            cuenta_especie(sim.poblacion@, Especie::Conejo) == cuenta_especie(
                old(sim).poblacion@,
                Especie::Conejo,
            ),
            cuenta_especie(sim.poblacion@, Especie::Lobo) == cuenta_especie(
                old(sim).poblacion@,
                Especie::Lobo,
            ),
        decreases 100 - i,
    {
        let ghost previa = sim.poblacion@;
        let cria = Organismo::Cabra(crate::cabra::Cabra::new_random(azar));
        proof {
            lemma_cuenta_push(previa, cria, Especie::Cabra);
            lemma_cuenta_push(previa, cria, Especie::Conejo);
            lemma_cuenta_push(previa, cria, Especie::Lobo);
        }
        sim.agregar(cria);
        proof {
            assert(sim.poblacion@.subrange(0, old(sim).poblacion@.len() as int) =~= previa.subrange(
                0,
                old(sim).poblacion@.len() as int,
            ));
            assert(sim.poblacion@[sim.poblacion@.len() - 1] == cria);
            assert(cria.recien_nacido());
        }
        i = i + 1;
    }
    let mut j: usize = 0;
    while j < 100
        invariant
            j <= 100,
            sim.bien_formado(),
            sim.poblacion@.len() == old(sim).poblacion@.len() + 100 + j,
            sim.eventos == old(sim).eventos,
            sim.poblacion@.subrange(0, old(sim).poblacion@.len() as int) == old(sim).poblacion@,
            forall|k: int|
                old(sim).poblacion@.len() <= k < sim.poblacion@.len() ==> (#[trigger] sim.poblacion@[
                    k
                ]).recien_nacido() && sim.poblacion@[k].peso_spec() == 0,
            cuenta_especie(sim.poblacion@, Especie::Cabra) == cuenta_especie(
                old(sim).poblacion@,
                Especie::Cabra,
            ) + 100,
            cuenta_especie(sim.poblacion@, Especie::Conejo) == cuenta_especie(
                old(sim).poblacion@,
                Especie::Conejo,
            ) + j,
            cuenta_especie(sim.poblacion@, Especie::Lobo) == cuenta_especie(
                old(sim).poblacion@,
                Especie::Lobo,
            ),
        decreases 100 - j,
    {
        let ghost previa = sim.poblacion@;
        let cria = Organismo::Conejo(crate::conejo::Conejo::new_random(azar));
        proof {
            lemma_cuenta_push(previa, cria, Especie::Cabra);
            lemma_cuenta_push(previa, cria, Especie::Conejo);
            lemma_cuenta_push(previa, cria, Especie::Lobo);
        }
        sim.agregar(cria);
        proof {
            assert(sim.poblacion@.subrange(0, old(sim).poblacion@.len() as int) =~= previa.subrange(
                0,
                old(sim).poblacion@.len() as int,
            ));
            assert(sim.poblacion@[sim.poblacion@.len() - 1] == cria);
            assert(cria.recien_nacido());
        }
        j = j + 1;
    }
    let ghost previa = sim.poblacion@;
    let cachorro = Organismo::Lobo(Lobo::new());
    proof {
        lemma_cuenta_push(previa, cachorro, Especie::Cabra);
        lemma_cuenta_push(previa, cachorro, Especie::Conejo);
        lemma_cuenta_push(previa, cachorro, Especie::Lobo);
    }
    sim.agregar(cachorro);
    proof {
        assert(sim.poblacion@.subrange(0, old(sim).poblacion@.len() as int) =~= previa.subrange(
            0,
            old(sim).poblacion@.len() as int,
        ));
        assert(sim.poblacion@.last() == cachorro);
    }
}

} // verus!
