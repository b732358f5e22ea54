//! The growth model: a Gompertz curve `peso_max * exp(-exp(tasa * (inflexion - edad)))`
//! evaluated in fixed-point arithmetic.
//!
//! Weights are thousandths of a kilogram; dimensionless fractions are
//! scaled by `FP`.  `exp(-x)` is computed as a truncated Taylor piece on
//! the fractional part followed by one multiplication by `1/e` per whole
//! unit, and `exp(x)` dually with `e`; both are monotone by construction,
//! which yields the headline fact of this module: the modelled weight
//! never decreases with age (`lemma_gompertz_no_decrece`).

use vstd::prelude::*;
use vstd::arithmetic::div_mod::{
    lemma_div_is_ordered, lemma_div_multiples_vanish, lemma_div_multiples_vanish_fancy,
    lemma_div_pos_is_pos, lemma_fundamental_div_mod, lemma_fundamental_div_mod_converse_div,
    lemma_fundamental_div_mod_converse_mod, lemma_hoist_over_denominator,
};
use vstd::arithmetic::mul::{lemma_mul_inequality, lemma_mul_upper_bound};

verus! {

/// Fixed-point scale: a dimensionless 1.0 is `FP`.
pub const FP: u64 = 1_000_000;
/// `floor(FP / e)`.
pub const INV_E: u64 = 367_879;
/// `floor(FP * e)`.
pub const E_FP: u64 = 2_718_281;
/// Arguments at least this large make the falling exponential zero.
pub const CORTE_NEG: u64 = 32_000_000;
/// The rising exponential clamps its argument here (4.0 in scale).
pub const CORTE_POS: u64 = 4_000_000;
/// The rising exponential never exceeds this value (200.0 in scale).
pub const TOPE_POS: u64 = 200_000_000;

/// Truncated Taylor piece of `FP * exp(-r/FP)` for `0 <= r < FP`:
/// `FP - r + r^2/(2 FP)`, rounded down.
pub open spec fn taylor_neg(r: int) -> int {
    FP as int - r + (r * r) / (2 * FP as int)
}

/// `q` multiplications by `1/e`, each rounded down.
pub open spec fn pasos_neg(v: int, q: nat) -> int
    decreases q,
{
    if q == 0 {
        v
    } else {
        pasos_neg((v * INV_E as int) / (FP as int), (q - 1) as nat)
    }
}

/// `FP * exp(-x/FP)`, rounded down piecewise.
pub open spec fn exp_neg_spec(x: int) -> int {
    if x >= CORTE_NEG as int {
        0
    } else {
        pasos_neg(taylor_neg(x % FP as int), (x / FP as int) as nat)
    }
}

/// Truncated Taylor piece of `FP * exp(r/FP)` for `0 <= r < FP`:
/// `FP + r + r^2/(2 FP)`, rounded down.
pub open spec fn taylor_pos(r: int) -> int {
    FP as int + r + (r * r) / (2 * FP as int)
}

/// `q` multiplications by `e`, each rounded down and capped at `TOPE_POS`.
pub open spec fn pasos_pos(v: int, q: nat) -> int
    decreases q,
{
    if q == 0 {
        v
    } else {
        let w = (v * E_FP as int) / (FP as int);
        pasos_pos(if w <= TOPE_POS as int { w } else { TOPE_POS as int }, (q - 1) as nat)
    }
}

/// `FP * exp(x/FP)` with the argument clamped at `CORTE_POS`.
pub open spec fn exp_pos_spec(x: int) -> int {
    let y = if x <= CORTE_POS as int { x } else { CORTE_POS as int };
    pasos_pos(taylor_pos(y % FP as int), (y / FP as int) as nat)
}

/// The inner exponential `FP * exp(tasa * (inflexion - edad) / FP)`.
pub open spec fn interno_spec(edad: int, tasa: int, inflexion: int) -> int {
    if edad >= inflexion {
        exp_neg_spec(tasa * (edad - inflexion))
    } else {
        exp_pos_spec(tasa * (inflexion - edad))
    }
}

/// The modelled weight at a given age, in thousandths of a kilogram.
pub open spec fn gompertz_spec(edad: int, peso_max: int, tasa: int, inflexion: int) -> int {
    (peso_max * exp_neg_spec(interno_spec(edad, tasa, inflexion))) / (FP as int)
}

/// The quadratic Taylor term is at most `r/2`.
proof fn lemma_cuad_medio(r: int)
    requires
        0 <= r < FP,
    ensures
        0 <= (r * r) / (2 * FP as int) <= r / 2,
{
    let d = 2 * FP as int;
    lemma_div_pos_is_pos(r * r, d);
    assert(r * r <= FP as int * r) by {
        lemma_mul_inequality(r, FP as int, r);
    }
    lemma_div_is_ordered(r * r, FP as int * r, d);
    // FP * r == d * (r / 2) + FP * (r % 2), so its quotient by d is r / 2.
    lemma_fundamental_div_mod(r, 2);
    assert(FP as int * r == d * (r / 2) + FP as int * (r % 2)) by (nonlinear_arith)
        requires
            r == 2 * (r / 2) + r % 2,
            d == 2 * FP as int,
    ;
    assert(0 <= FP as int * (r % 2) < d);
    lemma_div_multiples_vanish_fancy(r / 2, FP as int * (r % 2), d);
    assert((FP as int * r) / d == r / 2);
}

/// Bounds of the falling Taylor piece.
proof fn lemma_taylor_neg_cotas(r: int)
    requires
        0 <= r < FP,
    ensures
        0 < taylor_neg(r) <= FP,
{
    lemma_cuad_medio(r);
}

/// The falling Taylor piece does not increase with `r`.
proof fn lemma_taylor_neg_antitona(r1: int, r2: int)
    requires
        0 <= r1 <= r2 < FP,
    ensures
        taylor_neg(r2) <= taylor_neg(r1),
{
    let d = 2 * FP as int;
    let k = r2 - r1;
    assert(r2 * r2 <= r1 * r1 + d * k) by (nonlinear_arith)
        requires
            0 <= r1 <= r2 < FP,
            k == r2 - r1,
            d == 2 * FP as int,
    ;
    lemma_div_is_ordered(r2 * r2, r1 * r1 + d * k, d);
    lemma_div_multiples_vanish_fancy(k, 0, d);
    assert((r1 * r1 + d * k) / d == k + (r1 * r1) / d) by {
        lemma_hoist_over_denominator(r1 * r1, k, d as nat);
        assert(r1 * r1 + k * d == r1 * r1 + d * k) by (nonlinear_arith);
    }
    assert((r2 * r2) / d <= (r1 * r1) / d + k);
}

/// One falling multiplication step stays within `[0, v]`.
proof fn lemma_paso_neg_cotas(v: int)
    requires
        0 <= v,
    ensures
        0 <= (v * INV_E as int) / (FP as int) <= v,
{
    lemma_mul_inequality(INV_E as int, FP as int, v);
    assert(v * INV_E as int == INV_E as int * v) by (nonlinear_arith);
    lemma_div_is_ordered(v * INV_E as int, FP as int * v, FP as int);
    lemma_div_multiples_vanish(v, FP as int);
    lemma_div_pos_is_pos(v * INV_E as int, FP as int);
    assert(v * INV_E as int >= 0) by (nonlinear_arith)
        requires
            v >= 0,
    ;
}

/// The falling steps stay within `[0, v]`.
proof fn lemma_pasos_neg_cotas(v: int, q: nat)
    requires
        0 <= v,
    ensures
        0 <= pasos_neg(v, q) <= v,
    decreases q,
{
    if q > 0 {
        lemma_paso_neg_cotas(v);
        lemma_pasos_neg_cotas((v * INV_E as int) / (FP as int), (q - 1) as nat);
    }
}

/// The falling steps respect order on their start value.
proof fn lemma_pasos_neg_mono(v1: int, v2: int, q: nat)
    requires
        0 <= v1 <= v2,
    ensures
        pasos_neg(v1, q) <= pasos_neg(v2, q),
    decreases q,
{
    if q > 0 {
        lemma_mul_inequality(v1, v2, INV_E as int);
        lemma_div_is_ordered(v1 * INV_E as int, v2 * INV_E as int, FP as int);
        lemma_paso_neg_cotas(v1);
        lemma_pasos_neg_mono(
            (v1 * INV_E as int) / (FP as int),
            (v2 * INV_E as int) / (FP as int),
            (q - 1) as nat,
        );
    }
}

/// The falling exponential lies in `[0, FP]`.
proof fn lemma_exp_neg_cotas(x: int)
    requires
        0 <= x,
    ensures
        0 <= exp_neg_spec(x) <= FP,
{
    if x < CORTE_NEG {
        let r = x % FP as int;
        lemma_taylor_neg_cotas(r);
        lemma_pasos_neg_cotas(taylor_neg(r), (x / FP as int) as nat);
    }
}

/// Moving the falling argument up by one unit cannot raise the result.
proof fn lemma_exp_neg_paso(x: int)
    requires
        0 <= x,
    ensures
        exp_neg_spec(x + 1) <= exp_neg_spec(x),
{
    lemma_exp_neg_cotas(x);
    if x + 1 < CORTE_NEG {
        let q = x / FP as int;
        let r = x % FP as int;
        lemma_fundamental_div_mod(x, FP as int);
        assert(0 <= q) by {
            lemma_div_pos_is_pos(x, FP as int);
        }
        if r < FP as int - 1 {
            // Same whole part, fractional part one higher.
            lemma_fundamental_div_mod_converse_div(x + 1, FP as int, q, r + 1);
            lemma_fundamental_div_mod_converse_mod(x + 1, FP as int, q, r + 1);
            lemma_taylor_neg_antitona(r, r + 1);
            lemma_taylor_neg_cotas(r + 1);
            lemma_pasos_neg_mono(taylor_neg(r + 1), taylor_neg(r), q as nat);
        } else {
            // Crossing a whole unit: x + 1 == (q + 1) * FP.
            assert(x + 1 == (q + 1) * FP as int) by (nonlinear_arith)
                requires
                    x == FP as int * q + r,
                    r == FP as int - 1,
            ;
            lemma_fundamental_div_mod_converse_div(x + 1, FP as int, q + 1, 0);
            lemma_fundamental_div_mod_converse_mod(x + 1, FP as int, q + 1, 0);
            assert(taylor_neg(0) == FP as int);
            assert(exp_neg_spec(x + 1) == pasos_neg(FP as int, (q + 1) as nat));
            assert((FP as int * INV_E as int) / (FP as int) == INV_E as int) by {
                lemma_div_multiples_vanish(INV_E as int, FP as int);
                assert(FP as int * INV_E as int == INV_E as int * FP as int)
                    by (nonlinear_arith);
            }
            assert(pasos_neg(FP as int, (q + 1) as nat) == pasos_neg(INV_E as int, q as nat));
            // The Taylor piece at FP - 1 is exactly 500000, which is above 1/e.
            assert((999999 as int * 999999 as int) == 999998000001) by (nonlinear_arith);
            assert(taylor_neg(FP as int - 1) == 500000);
            lemma_pasos_neg_mono(INV_E as int, taylor_neg(r), q as nat);
        }
    }
}

/// The falling exponential does not increase with its argument.
proof fn lemma_exp_neg_antitona(x1: int, x2: int)
    requires
        0 <= x1 <= x2,
    ensures
        exp_neg_spec(x2) <= exp_neg_spec(x1),
    decreases x2 - x1,
{
    if x1 < x2 {
        lemma_exp_neg_antitona(x1, x2 - 1);
        lemma_exp_neg_paso(x2 - 1);
    }
}

/// Bounds of the rising Taylor piece.
proof fn lemma_taylor_pos_cotas(r: int)
    requires
        0 <= r < FP,
    ensures
        FP <= taylor_pos(r) <= E_FP,
{
    lemma_cuad_medio(r);
    assert(r / 2 <= 499999) by {
        lemma_div_is_ordered(r, FP as int - 1, 2);
    }
}

/// The rising Taylor piece does not decrease with `r`.
proof fn lemma_taylor_pos_mono(r1: int, r2: int)
    requires
        0 <= r1 <= r2 < FP,
    ensures
        taylor_pos(r1) <= taylor_pos(r2),
{
    assert(r1 * r1 <= r2 * r2) by (nonlinear_arith)
        requires
            0 <= r1 <= r2,
    ;
    lemma_div_is_ordered(r1 * r1, r2 * r2, 2 * FP as int);
}

/// One rising step keeps the value within `[v, TOPE_POS]` when `v >= FP`.
proof fn lemma_paso_pos_cotas(v: int)
    requires
        FP <= v <= TOPE_POS,
    ensures
        ({
            let w = (v * E_FP as int) / (FP as int);
            let paso = if w <= TOPE_POS as int { w } else { TOPE_POS as int };
            FP <= paso <= TOPE_POS && v <= paso
        }),
{
    let w = (v * E_FP as int) / (FP as int);
    assert(FP as int * v <= v * E_FP as int) by {
        lemma_mul_inequality(FP as int, E_FP as int, v);
        assert(FP as int * v == v * FP as int) by (nonlinear_arith);
        assert(E_FP as int * v == v * E_FP as int) by (nonlinear_arith);
    }
    lemma_div_is_ordered(FP as int * v, v * E_FP as int, FP as int);
    lemma_div_multiples_vanish(v, FP as int);
    assert(v <= w);
}

/// The rising steps keep the value within `[v, TOPE_POS]`.
proof fn lemma_pasos_pos_cotas(v: int, q: nat)
    requires
        FP <= v <= TOPE_POS,
    ensures
        v <= pasos_pos(v, q) <= TOPE_POS,
    decreases q,
{
    if q > 0 {
        lemma_paso_pos_cotas(v);
        let w = (v * E_FP as int) / (FP as int);
        let paso = if w <= TOPE_POS as int { w } else { TOPE_POS as int };
        lemma_pasos_pos_cotas(paso, (q - 1) as nat);
    }
}

/// The rising steps respect order on their start value.
proof fn lemma_pasos_pos_mono(v1: int, v2: int, q: nat)
    requires
        0 <= v1 <= v2,
    ensures
        pasos_pos(v1, q) <= pasos_pos(v2, q),
    decreases q,
{
    if q > 0 {
        lemma_mul_inequality(v1, v2, E_FP as int);
        lemma_div_is_ordered(v1 * E_FP as int, v2 * E_FP as int, FP as int);
        let w1 = (v1 * E_FP as int) / (FP as int);
        let w2 = (v2 * E_FP as int) / (FP as int);
        let p1 = if w1 <= TOPE_POS as int { w1 } else { TOPE_POS as int };
        let p2 = if w2 <= TOPE_POS as int { w2 } else { TOPE_POS as int };
        assert(0 <= w1) by {
            lemma_div_pos_is_pos(v1 * E_FP as int, FP as int);
            assert(v1 * E_FP as int >= 0) by (nonlinear_arith)
                requires
                    v1 >= 0,
            ;
        }
        lemma_pasos_pos_mono(p1, p2, (q - 1) as nat);
    }
}

/// The rising exponential lies in `[FP, TOPE_POS]`.
proof fn lemma_exp_pos_cotas(x: int)
    requires
        0 <= x,
    ensures
        FP <= exp_pos_spec(x) <= TOPE_POS,
{
    let y = if x <= CORTE_POS as int { x } else { CORTE_POS as int };
    let r = y % FP as int;
    lemma_taylor_pos_cotas(r);
    lemma_pasos_pos_cotas(taylor_pos(r), (y / FP as int) as nat);
}

/// Moving the rising argument up by one unit cannot lower the result.
proof fn lemma_exp_pos_paso(x: int)
    requires
        0 <= x,
    ensures
        exp_pos_spec(x) <= exp_pos_spec(x + 1),
{
    if x < CORTE_POS {
        let q = x / FP as int;
        let r = x % FP as int;
        lemma_fundamental_div_mod(x, FP as int);
        assert(0 <= q) by {
            lemma_div_pos_is_pos(x, FP as int);
        }
        if r < FP as int - 1 {
            lemma_fundamental_div_mod_converse_div(x + 1, FP as int, q, r + 1);
            lemma_fundamental_div_mod_converse_mod(x + 1, FP as int, q, r + 1);
            lemma_taylor_pos_mono(r, r + 1);
            lemma_pasos_pos_mono(taylor_pos(r), taylor_pos(r + 1), q as nat);
        } else {
            assert(x + 1 == (q + 1) * FP as int) by (nonlinear_arith)
                requires
                    x == FP as int * q + r,
                    r == FP as int - 1,
            ;
            lemma_fundamental_div_mod_converse_div(x + 1, FP as int, q + 1, 0);
            lemma_fundamental_div_mod_converse_mod(x + 1, FP as int, q + 1, 0);
            assert(taylor_pos(0) == FP as int);
            assert((FP as int * E_FP as int) / (FP as int) == E_FP as int) by {
                lemma_div_multiples_vanish(E_FP as int, FP as int);
                assert(FP as int * E_FP as int == E_FP as int * FP as int)
                    by (nonlinear_arith);
            }
            assert(exp_pos_spec(x + 1) == pasos_pos(E_FP as int, q as nat));
            // The Taylor piece at FP - 1 is exactly 2499998, which is below e.
            assert((999999 as int * 999999 as int) == 999998000001) by (nonlinear_arith);
            assert(taylor_pos(FP as int - 1) == 2499998);
            lemma_pasos_pos_mono(taylor_pos(r), E_FP as int, q as nat);
        }
    }
}

/// The rising exponential does not decrease with its argument.
proof fn lemma_exp_pos_mono(x1: int, x2: int)
    requires
        0 <= x1 <= x2,
    ensures
        exp_pos_spec(x1) <= exp_pos_spec(x2),
    decreases x2 - x1,
{
    if x1 < x2 {
        lemma_exp_pos_mono(x1, x2 - 1);
        lemma_exp_pos_paso(x2 - 1);
    }
}

/// The inner exponential does not increase with age.
proof fn lemma_interno_antitono(e1: int, e2: int, tasa: int, inflexion: int)
    requires
        0 <= e1 <= e2,
        0 <= tasa,
        0 <= inflexion,
    ensures
        0 <= interno_spec(e2, tasa, inflexion) <= interno_spec(e1, tasa, inflexion),
{
    if e1 >= inflexion {
        lemma_mul_inequality(e1 - inflexion, e2 - inflexion, tasa);
        assert((e1 - inflexion) * tasa == tasa * (e1 - inflexion)) by (nonlinear_arith);
        assert((e2 - inflexion) * tasa == tasa * (e2 - inflexion)) by (nonlinear_arith);
        assert(tasa * (e1 - inflexion) >= 0) by (nonlinear_arith)
            requires
                tasa >= 0,
                e1 >= inflexion,
        ;
        lemma_exp_neg_antitona(tasa * (e1 - inflexion), tasa * (e2 - inflexion));
        lemma_exp_neg_cotas(tasa * (e2 - inflexion));
    } else if e2 < inflexion {
        lemma_mul_inequality(inflexion - e2, inflexion - e1, tasa);
        assert((inflexion - e2) * tasa == tasa * (inflexion - e2)) by (nonlinear_arith);
        assert((inflexion - e1) * tasa == tasa * (inflexion - e1)) by (nonlinear_arith);
        assert(tasa * (inflexion - e2) >= 0) by (nonlinear_arith)
            requires
                tasa >= 0,
                e2 < inflexion,
        ;
        lemma_exp_pos_mono(tasa * (inflexion - e2), tasa * (inflexion - e1));
        lemma_exp_pos_cotas(tasa * (inflexion - e2));
    } else {
        // e1 below the inflexion, e2 at or above it: the rising side is at
        // least FP and the falling side at most FP.
        assert(tasa * (e2 - inflexion) >= 0) by (nonlinear_arith)
            requires
                tasa >= 0,
                e2 >= inflexion,
        ;
        assert(tasa * (inflexion - e1) >= 0) by (nonlinear_arith)
            requires
                tasa >= 0,
                e1 < inflexion,
        ;
        lemma_exp_neg_cotas(tasa * (e2 - inflexion));
        lemma_exp_pos_cotas(tasa * (inflexion - e1));
    }
}

/// The modelled weight never exceeds the asymptotic weight.
pub proof fn lemma_gompertz_cota(edad: int, peso_max: int, tasa: int, inflexion: int)
    requires
        0 <= edad,
        0 <= peso_max,
        0 <= tasa,
        0 <= inflexion,
    ensures
        0 <= gompertz_spec(edad, peso_max, tasa, inflexion) <= peso_max,
{
    let w = exp_neg_spec(interno_spec(edad, tasa, inflexion));
    lemma_interno_antitono(edad, edad, tasa, inflexion);
    lemma_exp_neg_cotas(interno_spec(edad, tasa, inflexion));
    lemma_mul_inequality(w, FP as int, peso_max);
    assert(w * peso_max == peso_max * w) by (nonlinear_arith);
    assert(FP as int * peso_max == peso_max * FP as int) by (nonlinear_arith);
    lemma_div_is_ordered(peso_max * w, peso_max * FP as int, FP as int);
    assert((peso_max * FP as int) / (FP as int) == peso_max) by {
        lemma_div_multiples_vanish(peso_max, FP as int);
        assert(FP as int * peso_max == peso_max * FP as int) by (nonlinear_arith);
    }
    lemma_div_pos_is_pos(peso_max * w, FP as int);
    assert(peso_max * w >= 0) by (nonlinear_arith)
        requires
            peso_max >= 0,
            w >= 0,
    ;
}

/// Growth-model monotonicity: for fixed species parameters the modelled
/// weight is non-decreasing in age.
pub proof fn lemma_gompertz_no_decrece(e1: int, e2: int, peso_max: int, tasa: int, inflexion: int)
    requires
        0 <= e1 <= e2,
        0 <= peso_max,
        0 <= tasa,
        0 <= inflexion,
    ensures
        gompertz_spec(e1, peso_max, tasa, inflexion) <= gompertz_spec(e2, peso_max, tasa, inflexion),
{
    let i1 = interno_spec(e1, tasa, inflexion);
    let i2 = interno_spec(e2, tasa, inflexion);
    lemma_interno_antitono(e1, e2, tasa, inflexion);
    lemma_exp_neg_antitona(i2, i1);
    let w1 = exp_neg_spec(i1);
    let w2 = exp_neg_spec(i2);
    lemma_exp_neg_cotas(i1);
    lemma_mul_inequality(w1, w2, peso_max);
    assert(w1 * peso_max == peso_max * w1) by (nonlinear_arith);
    assert(w2 * peso_max == peso_max * w2) by (nonlinear_arith);
    lemma_div_is_ordered(peso_max * w1, peso_max * w2, FP as int);
}

/// The falling exponential, computed in machine integers.
fn exp_neg(x: u64) -> (r: u64)
    ensures
        r as int == exp_neg_spec(x as int),
        r <= FP,
{
    if x >= CORTE_NEG {
        return 0;
    }
    let q: u64 = x / FP;
    let resto: u64 = x % FP;
    proof {
        assert(resto * resto < 2_000_000_000_000) by (nonlinear_arith)
            requires
                resto < 1_000_000,
        ;
        lemma_taylor_neg_cotas(resto as int);
    }
    let mut v: u64 = FP - resto + (resto * resto) / (2 * FP);
    let mut i: u64 = 0;
    while i < q
        invariant
            i <= q,
            q < 32,
            v <= FP,
            pasos_neg(v as int, (q - i) as nat) == exp_neg_spec(x as int),
        decreases q - i,
    {
        proof {
            lemma_paso_neg_cotas(v as int);
            assert(v * INV_E <= 1_000_000 * 367_879) by (nonlinear_arith)
                requires
                    v <= 1_000_000,
                    INV_E == 367_879,
            ;
        }
        v = (v * INV_E) / FP;
        i = i + 1;
    }
    v
}

/// The rising exponential, computed in machine integers.
fn exp_pos(x: u64) -> (r: u64)
    ensures
        r as int == exp_pos_spec(x as int),
        FP <= r <= TOPE_POS,
{
    let y: u64 = if x <= CORTE_POS { x } else { CORTE_POS };
    let q: u64 = y / FP;
    let resto: u64 = y % FP;
    proof {
        assert(resto * resto < 2_000_000_000_000) by (nonlinear_arith)
            requires
                resto < 1_000_000,
        ;
        lemma_taylor_pos_cotas(resto as int);
    }
    let mut v: u64 = FP + resto + (resto * resto) / (2 * FP);
    let mut i: u64 = 0;
    while i < q
        invariant
            i <= q,
            q <= 4,
            FP <= v <= TOPE_POS,
            pasos_pos(v as int, (q - i) as nat) == exp_pos_spec(x as int),
        decreases q - i,
    {
        proof {
            lemma_paso_pos_cotas(v as int);
            assert(v * E_FP <= 200_000_000 * 2_718_281) by (nonlinear_arith)
                requires
                    v <= 200_000_000,
                    E_FP == 2_718_281,
            ;
        }
        let w: u64 = (v * E_FP) / FP;
        v = if w <= TOPE_POS {
            w
        } else {
            TOPE_POS
        };
        i = i + 1;
    }
    v
}

/// The weight of an organism of the given age under the Gompertz model,
/// in thousandths of a kilogram.  `tasa` is the growth rate scaled by
/// `FP`; `inflexion` is the inflexion age in days.
pub fn gompertz(edad: u32, peso_max: u64, tasa: u64, inflexion: u32) -> (r: u64)
    requires
        tasa <= FP,
        peso_max <= 1_000_000_000_000,
    ensures
        r as int == gompertz_spec(edad as int, peso_max as int, tasa as int, inflexion as int),
        r <= peso_max,
{
    proof {
        assert(tasa * 0xffff_ffffu64 <= 1_000_000 * 0xffff_ffffu64) by (nonlinear_arith)
            requires
                tasa <= 1_000_000,
        ;
    }
    let interno: u64 = if edad >= inflexion {
        proof {
            assert(tasa * ((edad - inflexion) as u64) <= tasa * 0xffff_ffffu64)
                by (nonlinear_arith)
                requires
                    ((edad - inflexion) as u64) <= 0xffff_ffffu64,
                    tasa >= 0,
            ;
        }
        let x: u64 = tasa * ((edad - inflexion) as u64);
        exp_neg(x)
    } else {
        proof {
            assert(tasa * ((inflexion - edad) as u64) <= tasa * 0xffff_ffffu64)
                by (nonlinear_arith)
                requires
                    ((inflexion - edad) as u64) <= 0xffff_ffffu64,
                    tasa >= 0,
            ;
        }
        let x: u64 = tasa * ((inflexion - edad) as u64);
        exp_pos(x)
    };
    let w: u64 = exp_neg(interno);
    proof {
        assert(peso_max * w <= 1_000_000_000_000 * 1_000_000u64) by (nonlinear_arith)
            requires
                peso_max <= 1_000_000_000_000,
                w <= 1_000_000,
        ;
        lemma_gompertz_cota(edad as int, peso_max as int, tasa as int, inflexion as int);
    }
    (peso_max * w) / FP
}

} // verus!
