//! Goats: the larger prey species.  A goat ages once per day, grows along
//! the Gompertz curve, dies of old age at one year or by a small daily
//! random trial, and a mature female may bear a litter of one or two.

use crate::azar::Azar;
use crate::modelo::{gompertz, gompertz_spec};
use crate::organismo::{Organismo, Sexo};
use vstd::prelude::*;

verus! {

/// Asymptotic weight, in thousandths of a kilogram.
pub const PESO_MAX_CABRA: u64 = 60_000;
/// Growth rate, scaled by `modelo::FP` (0.01 per day).
pub const TASA_CABRA: u64 = 10_000;
/// Inflexion age of growth, in days.
pub const INFLEXION_CABRA: u32 = 150;
/// Deterministic death from old age at this age, in days.
pub const VIDA_MAX_CABRA: u32 = 365;
/// Daily probability of random death, per mille (0.5%).
pub const MORTALIDAD_CABRA: u32 = 5;
/// A female below or at this age does not reproduce.
pub const EDAD_FERTIL_CABRA: u32 = 365;
/// Daily probability of a litter for an eligible female, per mille (1%).
pub const PROB_CRIA_CABRA: u32 = 10;
/// Largest litter.
pub const CAMADA_MAX_CABRA: u64 = 2;

#[derive(Clone, Copy, PartialEq, Eq, Structural, Debug)]
pub struct Cabra {
    pub edad: u32,
    pub peso: u64,
    pub sexo: Sexo,
    pub viva: bool,
}

impl Cabra {
    /// Whether this goat may produce a litter this tick, before the
    /// probability draw: alive, female, and past the fertile age.
    pub open spec fn puede_reproducirse(self) -> bool {
        self.viva && self.edad > EDAD_FERTIL_CABRA && self.sexo == Sexo::Hembra
    }

    /// A newborn goat of random sex.
    pub fn new_random(azar: &mut Azar) -> (c: Cabra)
        ensures
            c.edad == 0,
            c.peso == 0,
            c.viva,
            old(azar).guion_restante().len() >= 1 ==> c.sexo == (if old(azar).guion_restante()[0] % 2 == 0 {
                Sexo::Macho
            } else {
                Sexo::Hembra
            }),
    {
        let sexo = if azar.bajo(2) == 0 {
            Sexo::Macho
        } else {
            Sexo::Hembra
        };
        Cabra { edad: 0, peso: 0, sexo, viva: true }
    }

    /// A newborn goat of the given sex.
    pub fn new_con_sexo(sexo: Sexo) -> (c: Cabra)
        ensures
            c == (Cabra { edad: 0, peso: 0, sexo, viva: true }),
    {
        Cabra { edad: 0, peso: 0, sexo, viva: true }
    }

    /// One day of life: age by one, refresh the weight from the growth
    /// model, then die of old age at the cutoff or by the random trial.
    /// A dead goat is left untouched.
    pub fn envejecer(&mut self, azar: &mut Azar)
        ensures
            !old(self).viva ==> *final(self) == *old(self),
            final(self).viva ==> old(self).viva && final(self).edad < VIDA_MAX_CABRA,
            old(self).viva && old(self).edad < VIDA_MAX_CABRA - 1 && old(azar).guion_restante().len() >= 1
                ==> (final(self).viva <==> old(azar).guion_restante()[0] % 1000 >= MORTALIDAD_CABRA as u64),
            old(self).viva ==> {
                &&& final(self).sexo == old(self).sexo
                &&& (old(self).edad < u32::MAX ==> final(self).edad == old(self).edad + 1)
                &&& (old(self).edad == u32::MAX ==> final(self).edad == u32::MAX)
                &&& final(self).peso as int == gompertz_spec(
                    final(self).edad as int,
                    PESO_MAX_CABRA as int,
                    TASA_CABRA as int,
                    INFLEXION_CABRA as int,
                )
            },
    {
        if !self.viva {
            return ;
        }
        if self.edad < u32::MAX {
            self.edad = self.edad + 1;
        }
        self.peso = gompertz(self.edad, PESO_MAX_CABRA, TASA_CABRA, INFLEXION_CABRA);
        if self.edad >= VIDA_MAX_CABRA {
            self.viva = false;
            return ;
        }
        if azar.por_mil() < MORTALIDAD_CABRA {
            self.viva = false;
        }
    }

    /// The litter of this tick: empty unless the goat is an eligible
    /// female whose daily trial succeeds, and then one or two newborn
    /// goats of random sex.
    pub fn reproducirse(&self, azar: &mut Azar) -> (crias: Vec<Organismo>)
        ensures
            !self.puede_reproducirse() ==> crias@.len() == 0,
            crias@.len() <= CAMADA_MAX_CABRA,
            self.puede_reproducirse() && old(azar).guion_restante().len() >= 1 && old(azar).guion_restante()[0] % 1000 >= PROB_CRIA_CABRA as u64 ==> crias@.len() == 0,
            self.puede_reproducirse() && old(azar).guion_restante().len() >= 2 && old(azar).guion_restante()[0] % 1000 < PROB_CRIA_CABRA as u64 ==> crias@.len() as int == 1 + (old(azar).guion_restante()[1] % CAMADA_MAX_CABRA) as int,
            forall|i: int|
                0 <= i < crias@.len() ==> {
                    &&& #[trigger] crias@[i] matches Organismo::Cabra(c)
                    &&& c.edad == 0
                    &&& c.peso == 0
                    &&& c.viva
                },
    {
        let mut crias: Vec<Organismo> = Vec::new();
        if !self.viva {
            return crias;
        }
        if self.edad > EDAD_FERTIL_CABRA && self.sexo == Sexo::Hembra {
            if azar.por_mil() < PROB_CRIA_CABRA {
                let cantidad: u64 = 1 + azar.bajo(CAMADA_MAX_CABRA);
                let mut j: u64 = 0;
                while j < cantidad
                    invariant
                        j <= cantidad,
                        cantidad <= CAMADA_MAX_CABRA,
                        crias@.len() == j,
                        forall|i: int|
                            0 <= i < crias@.len() ==> {
                                &&& #[trigger] crias@[i] matches Organismo::Cabra(c)
                                &&& c.edad == 0
                                &&& c.peso == 0
                                &&& c.viva
                            },
                    decreases cantidad - j,
                {
                    crias.push(Organismo::Cabra(Cabra::new_random(azar)));
                    j = j + 1;
                }
            }
        }
        crias
    }
}

} // verus!
