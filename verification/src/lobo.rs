//! The wolf: the predator.  A wolf ages and grows like the prey, but in
//! place of random mortality it lives off a food reserve: every day it
//! consumes a random amount between its minimum and its desired daily
//! intake, and it starves the moment the reserve cannot cover the
//! minimum.  Successful hunts refill the reserve.

use crate::azar::Azar;
use crate::modelo::{gompertz, gompertz_spec};
use crate::organismo::Organismo;
use vstd::prelude::*;

verus! {

/// Asymptotic weight, in thousandths of a kilogram.
pub const PESO_MAX_LOBO: u64 = 50_000;
/// Growth rate, scaled by `modelo::FP` (0.008 per day).
pub const TASA_LOBO: u64 = 8_000;
/// Inflexion age of growth, in days.
pub const INFLEXION_LOBO: u32 = 300;
/// Food reserve at birth, in thousandths of a kilogram.
pub const RESERVA_INICIAL_LOBO: u64 = 1_000_000;
/// Minimum daily consumption before starvation.
pub const NIVEL_MINIMO_LOBO: u64 = 5_000;
/// Desired daily consumption.
pub const NIVEL_OPTIMO_LOBO: u64 = 10_000;
/// A wolf at or above this reserve does not hunt.
pub const RESERVA_MAXIMA_LOBO: u64 = 200_000;
/// A wolf below this reserve needs to hunt.
pub const RESERVA_MINIMA_LOBO: u64 = 50_000;
/// A wolf below or at this age does not reproduce.
pub const EDAD_FERTIL_LOBO: u32 = 500;
/// Daily probability of one cub for an eligible wolf, per mille (0.5%).
pub const PROB_CRIA_LOBO: u32 = 5;

#[derive(Clone, Copy, PartialEq, Eq, Structural, Debug)]
pub struct Lobo {
    pub edad: u32,
    pub peso: u64,
    pub reserva: u64,
    pub vivo: bool,
    pub nivel_minimo: u64,
    pub nivel_optimo: u64,
    pub reserva_maxima: u64,
    pub reserva_minima: u64,
}

impl Lobo {
    /// Sane consumption levels: the minimum does not exceed the desired
    /// intake, and the desired intake leaves room for the draw below it.
    pub open spec fn bien_formado(self) -> bool {
        self.nivel_minimo <= self.nivel_optimo && self.nivel_optimo < u64::MAX
    }

    /// Whether this wolf may produce a cub this tick, before the
    /// probability draw: alive and past the fertile age.
    pub open spec fn puede_reproducirse(self) -> bool {
        self.vivo && self.edad > EDAD_FERTIL_LOBO
    }

    /// The newborn wolf: a high starting reserve lets it reach
    /// reproductive age without hunting pressure from day one.
    pub open spec fn inicial() -> Lobo {
        Lobo {
            edad: 0,
            peso: 0,
            reserva: RESERVA_INICIAL_LOBO,
            vivo: true,
            nivel_minimo: NIVEL_MINIMO_LOBO,
            nivel_optimo: NIVEL_OPTIMO_LOBO,
            reserva_maxima: RESERVA_MAXIMA_LOBO,
            reserva_minima: RESERVA_MINIMA_LOBO,
        }
    }

    /// A newborn wolf with the species' default levels.
    pub fn new() -> (l: Lobo)
        ensures
            l == Lobo::inicial(),
            l.bien_formado(),
    {
        Lobo {
            edad: 0,
            peso: 0,
            reserva: RESERVA_INICIAL_LOBO,
            vivo: true,
            nivel_minimo: NIVEL_MINIMO_LOBO,
            nivel_optimo: NIVEL_OPTIMO_LOBO,
            reserva_maxima: RESERVA_MAXIMA_LOBO,
            reserva_minima: RESERVA_MINIMA_LOBO,
        }
    }

    /// Whether the reserve has fallen low enough to hunt.
    pub fn necesita_cazar(&self) -> (r: bool)
        ensures
            r == (self.reserva < self.reserva_minima),
    {
        self.reserva < self.reserva_minima
    }

    /// Whether the reserve is full enough to skip hunting.
    pub fn tiene_reserva_llena(&self) -> (r: bool)
        ensures
            r == (self.reserva >= self.reserva_maxima),
    {
        self.reserva >= self.reserva_maxima
    }

    /// One feeding step: a wolf whose reserve cannot cover the daily
    /// minimum starves; otherwise it consumes a random amount between
    /// the minimum and the desired intake, capped at the reserve.
    pub fn alimentarse(&mut self, azar: &mut Azar)
        requires
            old(self).bien_formado(),
        ensures
            final(self).bien_formado(),
            final(self).edad == old(self).edad,
            final(self).peso == old(self).peso,
            final(self).nivel_minimo == old(self).nivel_minimo,
            final(self).nivel_optimo == old(self).nivel_optimo,
            final(self).reserva_maxima == old(self).reserva_maxima,
            final(self).reserva_minima == old(self).reserva_minima,
            !old(self).vivo ==> *final(self) == *old(self),
            old(self).vivo && old(self).reserva < old(self).nivel_minimo ==> {
                &&& !final(self).vivo
                &&& final(self).reserva == old(self).reserva
            },
            old(self).vivo && old(self).reserva >= old(self).nivel_minimo ==> {
                &&& final(self).vivo
                &&& final(self).reserva <= old(self).reserva - old(self).nivel_minimo
                &&& old(self).reserva - final(self).reserva <= old(self).nivel_optimo
            },
    {
        if !self.vivo {
            return ;
        }
        if self.reserva < self.nivel_minimo {
            self.vivo = false;
        } else {
            let alcance: u64 = self.nivel_optimo - self.nivel_minimo + 1;
            let deseado: u64 = self.nivel_minimo + azar.bajo(alcance);
            let consumo: u64 = if deseado <= self.reserva {
                deseado
            } else {
                self.reserva
            };
            self.reserva = self.reserva - consumo;
        }
    }

    /// Food from a successful hunt.  The reserve grows by the given
    /// amount, saturating at the machine limit; a dead wolf is left
    /// untouched.
    pub fn agregar_comida(&mut self, cantidad: u64)
        ensures
            final(self).edad == old(self).edad,
            final(self).peso == old(self).peso,
            final(self).vivo == old(self).vivo,
            final(self).nivel_minimo == old(self).nivel_minimo,
            final(self).nivel_optimo == old(self).nivel_optimo,
            final(self).reserva_maxima == old(self).reserva_maxima,
            final(self).reserva_minima == old(self).reserva_minima,
            !old(self).vivo ==> *final(self) == *old(self),
            old(self).vivo && cantidad <= u64::MAX - old(self).reserva ==> final(self).reserva
                == old(self).reserva + cantidad,
            old(self).vivo && cantidad > u64::MAX - old(self).reserva ==> final(self).reserva
                == u64::MAX,
    {
        if !self.vivo {
            return ;
        }
        if cantidad <= u64::MAX - self.reserva {
            self.reserva = self.reserva + cantidad;
        } else {
            self.reserva = u64::MAX;
        }
    }

    /// One day of life: age by one, refresh the weight from the growth
    /// model, then feed from the reserve (which is where starvation can
    /// strike).  A dead wolf is left untouched.
    pub fn envejecer(&mut self, azar: &mut Azar)
        requires
            old(self).bien_formado(),
        ensures
            final(self).bien_formado(),
            final(self).nivel_minimo == old(self).nivel_minimo,
            final(self).nivel_optimo == old(self).nivel_optimo,
            final(self).reserva_maxima == old(self).reserva_maxima,
            final(self).reserva_minima == old(self).reserva_minima,
            !old(self).vivo ==> *final(self) == *old(self),
            final(self).vivo ==> old(self).vivo,
            old(self).vivo ==> {
                &&& (old(self).edad < u32::MAX ==> final(self).edad == old(self).edad + 1)
                &&& (old(self).edad == u32::MAX ==> final(self).edad == u32::MAX)
                &&& final(self).peso as int == gompertz_spec(
                    final(self).edad as int,
                    PESO_MAX_LOBO as int,
                    TASA_LOBO as int,
                    INFLEXION_LOBO as int,
                )
            },
            old(self).vivo && old(self).reserva < old(self).nivel_minimo ==> {
                &&& !final(self).vivo
                &&& final(self).reserva == old(self).reserva
            },
            old(self).vivo && old(self).reserva >= old(self).nivel_minimo ==> {
                &&& final(self).vivo
                &&& final(self).reserva <= old(self).reserva - old(self).nivel_minimo
                &&& old(self).reserva - final(self).reserva <= old(self).nivel_optimo
            },
    {
        if !self.vivo {
            return ;
        }
        if self.edad < u32::MAX {
            self.edad = self.edad + 1;
        }
        self.peso = gompertz(self.edad, PESO_MAX_LOBO, TASA_LOBO, INFLEXION_LOBO);
        self.alimentarse(azar);
    }

    /// The litter of this tick: at most one cub, born only to a living
    /// wolf past the fertile age whose daily trial succeeds.
    pub fn reproducirse(&self, azar: &mut Azar) -> (crias: Vec<Organismo>)
        ensures
            !self.puede_reproducirse() ==> crias@.len() == 0,
            crias@.len() <= 1,
            self.puede_reproducirse() && old(azar).guion_restante().len() >= 1 && old(azar).guion_restante()[0] % 1000 >= PROB_CRIA_LOBO as u64 ==> crias@.len() == 0,
            self.puede_reproducirse() && old(azar).guion_restante().len() >= 1 && old(azar).guion_restante()[0] % 1000 < PROB_CRIA_LOBO as u64 ==> crias@.len() == 1,
            forall|i: int|
                0 <= i < crias@.len() ==> #[trigger] crias@[i] == Organismo::Lobo(Lobo::inicial()),
    {
        let mut crias: Vec<Organismo> = Vec::new();
        if self.vivo && self.edad > EDAD_FERTIL_LOBO {
            if azar.por_mil() < PROB_CRIA_LOBO {
                crias.push(Organismo::Lobo(Lobo::new()));
            }
        }
        crias
    }
}

} // verus!
