//! Rabbits: the smaller prey species.  A rabbit ages once per day, grows
//! along the Gompertz curve, dies of old age at two years or by a daily
//! random trial, and a mature female may bear a litter of up to four.

use crate::azar::Azar;
use crate::modelo::{gompertz, gompertz_spec};
use crate::organismo::{Organismo, Sexo};
use vstd::prelude::*;

verus! {

/// Asymptotic weight, in thousandths of a kilogram.
pub const PESO_MAX_CONEJO: u64 = 2_000;
/// Growth rate, scaled by `modelo::FP` (0.05 per day).
pub const TASA_CONEJO: u64 = 50_000;
/// Inflexion age of growth, in days.
pub const INFLEXION_CONEJO: u32 = 50;
/// Deterministic death from old age at this age, in days.
pub const VIDA_MAX_CONEJO: u32 = 730;
/// Daily probability of random death, per mille (1%).
pub const MORTALIDAD_CONEJO: u32 = 10;
/// A female below or at this age does not reproduce.
pub const EDAD_FERTIL_CONEJO: u32 = 90;
/// Daily probability of a litter for an eligible female, per mille (10%).
pub const PROB_CRIA_CONEJO: u32 = 100;
/// Largest litter.
pub const CAMADA_MAX_CONEJO: u64 = 4;

#[derive(Clone, Copy, PartialEq, Eq, Structural, Debug)]
pub struct Conejo {
    pub edad: u32,
    pub peso: u64,
    pub sexo: Sexo,
    pub viva: bool,
}

impl Conejo {
    /// Whether this rabbit may produce a litter this tick, before the
    /// probability draw: alive, female, and past the fertile age.
    pub open spec fn puede_reproducirse(self) -> bool {
        self.viva && self.edad > EDAD_FERTIL_CONEJO && self.sexo == Sexo::Hembra
    }

    /// A newborn rabbit of random sex.
    pub fn new_random(azar: &mut Azar) -> (c: Conejo)
        ensures
            c.edad == 0,
            c.peso == 0,
            c.viva,
            old(azar).guion_restante().len() >= 1 ==> c.sexo == (if old(azar).guion_restante()[0] % 2 == 0 {
                Sexo::Macho
            } else {
                Sexo::Hembra
            }),
    {
        let sexo = if azar.bajo(2) == 0 {
            Sexo::Macho
        } else {
            Sexo::Hembra
        };
        Conejo { edad: 0, peso: 0, sexo, viva: true }
    }

    /// A newborn rabbit of the given sex.
    pub fn new_con_sexo(sexo: Sexo) -> (c: Conejo)
        ensures
            c == (Conejo { edad: 0, peso: 0, sexo, viva: true }),
    {
        Conejo { edad: 0, peso: 0, sexo, viva: true }
    }

    /// One day of life: age by one, refresh the weight from the growth
    /// model, then die of old age at the cutoff or by the random trial.
    /// A dead rabbit is left untouched.
    pub fn envejecer(&mut self, azar: &mut Azar)
        ensures
            !old(self).viva ==> *final(self) == *old(self),
            final(self).viva ==> old(self).viva && final(self).edad < VIDA_MAX_CONEJO,
            old(self).viva && old(self).edad < VIDA_MAX_CONEJO - 1 && old(azar).guion_restante().len() >= 1
                ==> (final(self).viva <==> old(azar).guion_restante()[0] % 1000 >= MORTALIDAD_CONEJO as u64),
            old(self).viva ==> {
                &&& final(self).sexo == old(self).sexo
                &&& (old(self).edad < u32::MAX ==> final(self).edad == old(self).edad + 1)
                &&& (old(self).edad == u32::MAX ==> final(self).edad == u32::MAX)
                &&& final(self).peso as int == gompertz_spec(
                    final(self).edad as int,
                    PESO_MAX_CONEJO as int,
                    TASA_CONEJO as int,
                    INFLEXION_CONEJO as int,
                )
            },
    {
        if !self.viva {
            return ;
        }
        if self.edad < u32::MAX {
            self.edad = self.edad + 1;
        }
        self.peso = gompertz(self.edad, PESO_MAX_CONEJO, TASA_CONEJO, INFLEXION_CONEJO);
        if self.edad >= VIDA_MAX_CONEJO {
            self.viva = false;
            return ;
        }
        if azar.por_mil() < MORTALIDAD_CONEJO {
            self.viva = false;
        }
    }

    /// The litter of this tick: empty unless the rabbit is an eligible
    /// female whose daily trial succeeds, and then one to four newborn
    /// rabbits of random sex.
    pub fn reproducirse(&self, azar: &mut Azar) -> (crias: Vec<Organismo>)
        ensures
            !self.puede_reproducirse() ==> crias@.len() == 0,
            crias@.len() <= CAMADA_MAX_CONEJO,
            self.puede_reproducirse() && old(azar).guion_restante().len() >= 1 && old(azar).guion_restante()[0] % 1000 >= PROB_CRIA_CONEJO as u64 ==> crias@.len() == 0,
            self.puede_reproducirse() && old(azar).guion_restante().len() >= 2 && old(azar).guion_restante()[0] % 1000 < PROB_CRIA_CONEJO as u64 ==> crias@.len() as int == 1 + (old(azar).guion_restante()[1] % CAMADA_MAX_CONEJO) as int,
            forall|i: int|
                0 <= i < crias@.len() ==> {
                    &&& #[trigger] crias@[i] matches Organismo::Conejo(c)
                    &&& c.edad == 0
                    &&& c.peso == 0
                    &&& c.viva
                },
    {
        let mut crias: Vec<Organismo> = Vec::new();
        if !self.viva {
            return crias;
        }
        if self.edad > EDAD_FERTIL_CONEJO && self.sexo == Sexo::Hembra {
            if azar.por_mil() < PROB_CRIA_CONEJO {
                let cantidad: u64 = 1 + azar.bajo(CAMADA_MAX_CONEJO);
                let mut j: u64 = 0;
                while j < cantidad
                    invariant
                        j <= cantidad,
                        cantidad <= CAMADA_MAX_CONEJO,
                        crias@.len() == j,
                        forall|i: int|
                            0 <= i < crias@.len() ==> {
                                &&& #[trigger] crias@[i] matches Organismo::Conejo(c)
                                &&& c.edad == 0
                                &&& c.peso == 0
                                &&& c.viva
                            },
                    decreases cantidad - j,
                {
                    crias.push(Organismo::Conejo(Conejo::new_random(azar)));
                    j = j + 1;
                }
            }
        }
        crias
    }
}

} // verus!
