//! The random source that every stochastic step of the simulation draws
//! from.  It is an explicit dependency: callers hand one `Azar` to the
//! simulation instead of the simulation reaching for ambient randomness,
//! which keeps every tick replayable.
//!
//! An `Azar` either replays a scripted sequence of values (for exact
//! replay in tests) or steps a linear congruential generator from a seed.
//! Only the seed of a fresh generator comes from the outside world.

use vstd::prelude::*;

verus! {

/// Multiplier of the linear congruential step (Knuth's MMIX constants).
const LCG_MULTIPLICADOR: u64 = 6364136223846793005;
/// Increment of the linear congruential step.
const LCG_INCREMENTO: u64 = 1442695040888963407;

/// Relies on rand::random: draws one machine word from the thread-local
/// generator.  Nothing is promised of the value; it only seeds an `Azar`.
#[verifier::external_body]
fn semilla_del_sistema() -> u64 {
    rand::random::<u64>()
}

/// A deterministic source of random values.  While scripted values remain,
/// they are returned in order; afterwards the generator state is stepped.
pub struct Azar {
    estado: u64,
    guion: Vec<u64>,
    posicion: usize,
}

impl Azar {
    /// The scripted values not yet consumed.
    pub closed spec fn guion_restante(self) -> Seq<u64> {
        if self.posicion <= self.guion@.len() {
            self.guion@.skip(self.posicion as int)
        } else {
            Seq::empty()
        }
    }

    /// A generator seeded from the outside world.
    pub fn nuevo() -> (a: Azar)
        ensures
            a.guion_restante() == Seq::<u64>::empty(),
    {
        Azar::desde_semilla(semilla_del_sistema())
    }

    /// A generator whose whole future is fixed by the seed.
    pub fn desde_semilla(semilla: u64) -> (a: Azar)
        ensures
            a.guion_restante() == Seq::<u64>::empty(),
    {
        let a = Azar { estado: semilla, guion: Vec::new(), posicion: 0 };
        proof {
            assert(a.guion_restante() =~= Seq::<u64>::empty());
        }
        a
    }

    /// A generator that first replays the given values in order.
    pub fn desde_guion(valores: Vec<u64>) -> (a: Azar)
        ensures
            a.guion_restante() == valores@,
    {
        let a = Azar { estado: 0, guion: valores, posicion: 0 };
        proof {
            assert(a.guion_restante() =~= a.guion@);
        }
        a
    }

    /// The next raw value: the head of the script while one remains,
    /// otherwise a generator step.
    pub fn siguiente(&mut self) -> (v: u64)
        ensures
            old(self).guion_restante().len() > 0 ==> {
                &&& v == old(self).guion_restante()[0]
                &&& final(self).guion_restante() == old(self).guion_restante().skip(1)
            },
            old(self).guion_restante().len() == 0 ==>
                final(self).guion_restante() == old(self).guion_restante(),
    {
        if self.posicion < self.guion.len() {
            let v = self.guion[self.posicion];
            self.posicion = self.posicion + 1;
            proof {
                assert(old(self).guion_restante().len() > 0);
                assert(v == old(self).guion_restante()[0]);
                assert(final(self).guion_restante() =~= old(self).guion_restante().skip(1));
            }
            v
        } else {
            let ancho: u128 = 0x1_0000_0000_0000_0000;
            proof {
                assert((self.estado as u128) * (LCG_MULTIPLICADOR as u128)
                    <= (u64::MAX as u128) * (u64::MAX as u128)) by (nonlinear_arith)
                    requires
                        self.estado <= u64::MAX,
                        LCG_MULTIPLICADOR <= u64::MAX,
                ;
            }
            let producto: u128 = (self.estado as u128) * (LCG_MULTIPLICADOR as u128)
                + (LCG_INCREMENTO as u128);
            let reducido: u128 = producto % ancho;
            self.estado = reducido as u64;
            proof {
                assert(final(self).guion_restante() =~= old(self).guion_restante());
            }
            self.estado
        }
    }

    /// A value below `cota`.  A scripted head `v` yields `v % cota`.
    pub fn bajo(&mut self, cota: u64) -> (v: u64)
        requires
            cota > 0,
        ensures
            v < cota,
            old(self).guion_restante().len() > 0 ==> {
                &&& v == old(self).guion_restante()[0] % cota
                &&& final(self).guion_restante() == old(self).guion_restante().skip(1)
            },
            old(self).guion_restante().len() == 0 ==>
                final(self).guion_restante() == old(self).guion_restante(),
    {
        let crudo = self.siguiente();
        crudo % cota
    }

    /// A value below 1000, used for per-mille probability draws.
    pub fn por_mil(&mut self) -> (v: u32)
        ensures
            v < 1000,
            old(self).guion_restante().len() > 0 ==> {
                &&& v == old(self).guion_restante()[0] % 1000
                &&& final(self).guion_restante() == old(self).guion_restante().skip(1)
            },
            old(self).guion_restante().len() == 0 ==>
                final(self).guion_restante() == old(self).guion_restante(),
    {
        let v = self.bajo(1000);
        v as u32
    }
}

} // verus!
