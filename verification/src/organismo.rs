//! The common shape of every inhabitant of the ecosystem.  The species
//! set is closed, so organisms are a tagged union over the three species
//! rather than an open trait object, with an explicit accessor for the
//! predator-only state.

use crate::azar::Azar;
use crate::cabra::{
    Cabra, CAMADA_MAX_CABRA, INFLEXION_CABRA, MORTALIDAD_CABRA, PESO_MAX_CABRA, PROB_CRIA_CABRA,
    TASA_CABRA, VIDA_MAX_CABRA,
};
use crate::conejo::{
    Conejo, CAMADA_MAX_CONEJO, INFLEXION_CONEJO, MORTALIDAD_CONEJO, PESO_MAX_CONEJO,
    PROB_CRIA_CONEJO, TASA_CONEJO, VIDA_MAX_CONEJO,
};
use crate::lobo::{Lobo, INFLEXION_LOBO, PESO_MAX_LOBO, PROB_CRIA_LOBO, TASA_LOBO};
use crate::modelo::gompertz_spec;
use vstd::prelude::*;

verus! {

/// The sex of a prey organism, fixed at creation.
#[derive(Clone, Copy, PartialEq, Eq, Structural, Debug)]
pub enum Sexo {
    Macho,
    Hembra,
}

/// The three species of the ecosystem.
#[derive(Clone, Copy, PartialEq, Eq, Structural, Debug)]
pub enum Especie {
    Cabra,
    Conejo,
    Lobo,
}

/// The display name of a species.
pub open spec fn nombre_especie(e: Especie) -> Seq<char> {
    match e {
        Especie::Cabra => "Cabra"@,
        Especie::Conejo => "Conejo"@,
        Especie::Lobo => "Lobo"@,
    }
}

/// The asymptotic weight of a species, in thousandths of a kilogram.
pub open spec fn peso_max_de(e: Especie) -> u64 {
    match e {
        Especie::Cabra => PESO_MAX_CABRA,
        Especie::Conejo => PESO_MAX_CONEJO,
        Especie::Lobo => PESO_MAX_LOBO,
    }
}

/// The growth rate of a species, scaled by `modelo::FP`.
pub open spec fn tasa_de(e: Especie) -> u64 {
    match e {
        Especie::Cabra => TASA_CABRA,
        Especie::Conejo => TASA_CONEJO,
        Especie::Lobo => TASA_LOBO,
    }
}

/// The per-mille daily probability of a litter for an eligible parent.
pub open spec fn prob_cria_de(e: Especie) -> u32 {
    match e {
        Especie::Cabra => PROB_CRIA_CABRA,
        Especie::Conejo => PROB_CRIA_CONEJO,
        Especie::Lobo => PROB_CRIA_LOBO,
    }
}

/// The largest litter of a species.
pub open spec fn camada_max_de(e: Especie) -> u64 {
    match e {
        Especie::Cabra => CAMADA_MAX_CABRA,
        Especie::Conejo => CAMADA_MAX_CONEJO,
        Especie::Lobo => 1,
    }
}

/// The growth inflexion age of a species, in days.
pub open spec fn inflexion_de(e: Especie) -> u32 {
    match e {
        Especie::Cabra => INFLEXION_CABRA,
        Especie::Conejo => INFLEXION_CONEJO,
        Especie::Lobo => INFLEXION_LOBO,
    }
}

/// The display name of a species.
pub fn nombre_de(e: Especie) -> (r: &'static str)
    ensures
        r@ == nombre_especie(e),
{
    match e {
        Especie::Cabra => "Cabra",
        Especie::Conejo => "Conejo",
        Especie::Lobo => "Lobo",
    }
}

/// One inhabitant of the ecosystem.
#[derive(Clone, Copy, PartialEq, Eq, Structural, Debug)]
pub enum Organismo {
    Cabra(Cabra),
    Conejo(Conejo),
    Lobo(Lobo),
}

impl Organismo {
    /// The species of this organism.
    pub open spec fn especie(self) -> Especie {
        match self {
            Organismo::Cabra(_) => Especie::Cabra,
            Organismo::Conejo(_) => Especie::Conejo,
            Organismo::Lobo(_) => Especie::Lobo,
        }
    }

    /// The age in days.
    pub open spec fn edad_spec(self) -> u32 {
        match self {
            Organismo::Cabra(c) => c.edad,
            Organismo::Conejo(c) => c.edad,
            Organismo::Lobo(l) => l.edad,
        }
    }

    /// The body weight in thousandths of a kilogram.
    pub open spec fn peso_spec(self) -> u64 {
        match self {
            Organismo::Cabra(c) => c.peso,
            Organismo::Conejo(c) => c.peso,
            Organismo::Lobo(l) => l.peso,
        }
    }

    /// Whether the organism is alive.
    pub open spec fn vivo_spec(self) -> bool {
        match self {
            Organismo::Cabra(c) => c.viva,
            Organismo::Conejo(c) => c.viva,
            Organismo::Lobo(l) => l.vivo,
        }
    }

    /// Well-formedness: only the wolf carries levels that must be sane.
    pub open spec fn bien_formado(self) -> bool {
        match self {
            Organismo::Lobo(l) => l.bien_formado(),
            _ => true,
        }
    }

    /// Whether this organism may produce offspring this tick, before the
    /// probability draw.
    pub open spec fn puede_reproducirse(self) -> bool {
        match self {
            Organismo::Cabra(c) => c.puede_reproducirse(),
            Organismo::Conejo(c) => c.puede_reproducirse(),
            Organismo::Lobo(l) => l.puede_reproducirse(),
        }
    }

    /// A freshly created organism: alive, at age zero.
    pub open spec fn recien_nacido(self) -> bool {
        self.vivo_spec() && self.edad_spec() == 0
    }

    /// The age in days.
    pub fn edad(&self) -> (r: u32)
        ensures
            r == self.edad_spec(),
    {
        match self {
            Organismo::Cabra(c) => c.edad,
            Organismo::Conejo(c) => c.edad,
            Organismo::Lobo(l) => l.edad,
        }
    }

    /// The body weight in thousandths of a kilogram.
    pub fn peso(&self) -> (r: u64)
        ensures
            r == self.peso_spec(),
    {
        match self {
            Organismo::Cabra(c) => c.peso,
            Organismo::Conejo(c) => c.peso,
            Organismo::Lobo(l) => l.peso,
        }
    }

    /// Whether the organism is alive.
    pub fn esta_vivo(&self) -> (r: bool)
        ensures
            r == self.vivo_spec(),
    {
        match self {
            Organismo::Cabra(c) => c.viva,
            Organismo::Conejo(c) => c.viva,
            Organismo::Lobo(l) => l.vivo,
        }
    }

    /// The display name of the species.
    pub fn nombre(&self) -> (r: &'static str)
        ensures
            r@ == nombre_especie(self.especie()),
    {
        match self {
            Organismo::Cabra(_) => "Cabra",
            Organismo::Conejo(_) => "Conejo",
            Organismo::Lobo(_) => "Lobo",
        }
    }

    /// The species of this organism.
    pub fn cual_especie(&self) -> (e: Especie)
        ensures
            e == self.especie(),
    {
        match self {
            Organismo::Cabra(_) => Especie::Cabra,
            Organismo::Conejo(_) => Especie::Conejo,
            Organismo::Lobo(_) => Especie::Lobo,
        }
    }

    /// Whether this organism belongs to the given species.
    pub fn is(&self, especie: Especie) -> (r: bool)
        ensures
            r == (self.especie() == especie),
    {
        match self {
            Organismo::Cabra(_) => especie == Especie::Cabra,
            Organismo::Conejo(_) => especie == Especie::Conejo,
            Organismo::Lobo(_) => especie == Especie::Lobo,
        }
    }

    /// The predator-only state, where there is one.
    pub fn como_lobo(&self) -> (r: Option<&Lobo>)
        ensures
            self.especie() == Especie::Lobo <==> r is Some,
            r matches Some(l) ==> *self == Organismo::Lobo(*l),
    {
        match self {
            Organismo::Lobo(l) => Some(l),
            _ => None,
        }
    }

    /// One day of life, dispatched to the species' own rule.  Whatever
    /// the random draws produce: a dead organism never changes, death is
    /// never undone, a survivor has aged by exactly one day, and a living
    /// organism's weight is refreshed from the growth model.
    pub fn envejecer(&mut self, azar: &mut Azar)
        requires
            old(self).bien_formado(),
        ensures
            final(self).bien_formado(),
            final(self).especie() == old(self).especie(),
            !old(self).vivo_spec() ==> *final(self) == *old(self),
            final(self).vivo_spec() ==> old(self).vivo_spec(),
            old(self).vivo_spec() && old(self).edad_spec() < u32::MAX ==> final(self).edad_spec()
                == old(self).edad_spec() + 1,
            old(self).vivo_spec() && old(self).edad_spec() == u32::MAX ==> final(self).edad_spec()
                == u32::MAX,
            old(self).vivo_spec() ==> final(self).peso_spec() as int == gompertz_spec(
                final(self).edad_spec() as int,
                peso_max_de(old(self).especie()) as int,
                tasa_de(old(self).especie()) as int,
                inflexion_de(old(self).especie()) as int,
            ),
            (*old(self)) matches Organismo::Cabra(c) && c.viva && c.edad < VIDA_MAX_CABRA - 1
                && old(azar).guion_restante().len() >= 1 ==> (final(self).vivo_spec()
                <==> old(azar).guion_restante()[0] % 1000 >= MORTALIDAD_CABRA as u64),
            (*old(self)) matches Organismo::Conejo(c) && c.viva && c.edad < VIDA_MAX_CONEJO - 1
                && old(azar).guion_restante().len() >= 1 ==> (final(self).vivo_spec()
                <==> old(azar).guion_restante()[0] % 1000 >= MORTALIDAD_CONEJO as u64),
            (*old(self)) matches Organismo::Lobo(l) && l.vivo && l.reserva < l.nivel_minimo
                ==> !final(self).vivo_spec(),
            (*old(self)) matches Organismo::Lobo(l) && l.vivo && l.reserva >= l.nivel_minimo
                ==> final(self).vivo_spec(),
    {
        match self {
            Organismo::Cabra(c) => c.envejecer(azar),
            Organismo::Conejo(c) => c.envejecer(azar),
            Organismo::Lobo(l) => l.envejecer(azar),
        }
    }

    /// The offspring of this tick, dispatched to the species' own rule.
    /// Offspring are always newborn members of the parent's species, and
    /// an ineligible parent never produces any.
    pub fn reproducirse(&self, azar: &mut Azar) -> (crias: Vec<Organismo>)
        ensures
            !self.puede_reproducirse() ==> crias@.len() == 0,
            crias@.len() <= 4,
            self.puede_reproducirse() && old(azar).guion_restante().len() >= 1 && old(azar).guion_restante()[0] % 1000 >= prob_cria_de(self.especie()) as u64
                ==> crias@.len() == 0,
            self.puede_reproducirse() && old(azar).guion_restante().len() >= 2 && old(azar).guion_restante()[0] % 1000 < prob_cria_de(self.especie()) as u64
                ==> crias@.len() as int == 1 + (old(azar).guion_restante()[1] % camada_max_de(self.especie())) as int,
            forall|i: int|
                0 <= i < crias@.len() ==> {
                    &&& #[trigger] crias@[i].recien_nacido()
                    &&& crias@[i].especie() == self.especie()
                    &&& crias@[i].bien_formado()
                    &&& crias@[i].peso_spec() == 0
                },
    {
        match self {
            Organismo::Cabra(c) => c.reproducirse(azar),
            Organismo::Conejo(c) => c.reproducirse(azar),
            Organismo::Lobo(l) => l.reproducirse(azar),
        }
    }
}

} // verus!
