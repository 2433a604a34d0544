//! Gradient noise: a shuffled permutation per axis indexes 256 random unit
//! gradients, blended by smoothed trilinear interpolation.
use vstd::prelude::*;

verus! {

use crate::fixed::{
    fx_ok, spec_add, spec_sub, spec_mul, div_floor, div_floor_i128, lemma_div_floor_pos,
    lemma_mul_nonneg, lemma_unit_mul, lemma_mul_by_unit, fadd, fsub, fmul, fabs, fclamp, abs_i,
    ONE, SAT,
};
use crate::vec3::{Vec3, vec_ok, spec_dot, spec_v_scale};
use crate::rng::rng_below;

#[derive(Clone, PartialEq, Eq, Debug)]
pub struct Perlin {
    pub ranvec: Vec<Vec3>,
    pub perm_x: Vec<usize>,
    pub perm_y: Vec<usize>,
    pub perm_z: Vec<usize>,
}

pub open spec fn perm_ok(p: Seq<usize>) -> bool {
    p.len() == 256 && (forall|i: int| 0 <= i < 256 ==> (#[trigger] p[i]) < 256)
}

/// The unshuffled index table 0, 1, ..., 255.
pub open spec fn spec_ident_perm() -> Seq<usize> {
    Seq::new(256, |i: int| i as usize)
}

/// A gradient as stored: every component within one unit.
pub open spec fn grad_ok(g: Vec3) -> bool {
    abs_i(g.x as int) <= ONE && abs_i(g.y as int) <= ONE && abs_i(g.z as int) <= ONE
}

pub open spec fn perlin_ok(pl: Perlin) -> bool {
    &&& pl.ranvec@.len() == 256
    &&& forall|i: int| 0 <= i < 256 ==> vec_ok(#[trigger] pl.ranvec@[i])
    &&& forall|i: int| 0 <= i < 256 ==> grad_ok(#[trigger] pl.ranvec@[i])
    &&& perm_ok(pl.perm_x@)
    &&& perm_ok(pl.perm_y@)
    &&& perm_ok(pl.perm_z@)
}

/// The integer lattice cell of a fixed-point coordinate.
pub open spec fn spec_cell(x: int) -> int {
    div_floor(x, ONE as int)
}

/// The fractional position inside the cell, in [0, ONE).
pub open spec fn spec_frac(x: int) -> int {
    x - (ONE as int) * spec_cell(x)
}

/// A lattice index folded into [0, 256).
pub open spec fn spec_wrap256(v: int) -> int {
    v - 256 * div_floor(v, 256)
}

/// The Hermite smoothing u^2 * (3 - 2u) applied to a fraction.
pub open spec fn spec_smooth(u: int) -> int {
    spec_mul(spec_mul(u, u), spec_sub(3 * ONE, spec_mul(2 * ONE, u)))
}

/// The gradient vector assigned to a lattice corner by the permutations.
pub open spec fn spec_corner_grad(pl: Perlin, cx: int, cy: int, cz: int) -> Vec3 {
    let hx = pl.perm_x@[spec_wrap256(cx)];
    let hy = pl.perm_y@[spec_wrap256(cy)];
    let hz = pl.perm_z@[spec_wrap256(cz)];
    pl.ranvec@[(hx ^ hy ^ hz) as int]
}

/// One corner's contribution to the interpolation.
pub open spec fn spec_corner_term(grad: Vec3, u: int, v: int, w: int, di: int, dj: int, dk: int) -> int {
    let wv = Vec3 {
        x: spec_sub(u, di * ONE) as i64,
        y: spec_sub(v, dj * ONE) as i64,
        z: spec_sub(w, dk * ONE) as i64,
    };
    let fu = if di == 0 {
        spec_sub(ONE as int, u)
    } else {
        u
    };
    let fv = if dj == 0 {
        spec_sub(ONE as int, v)
    } else {
        v
    };
    let fw = if dk == 0 {
        spec_sub(ONE as int, w)
    } else {
        w
    };
    spec_mul(spec_dot(grad, wv), spec_mul(spec_mul(fu, fv), fw))
}

/// The sum of the first n corner terms, corners ordered di, dj, dk.
pub open spec fn spec_interp_partial(c: Seq<Vec3>, u: int, v: int, w: int, n: int) -> int
    decreases n,
{
    if n <= 0 {
        0
    } else {
        let idx = n - 1;
        let di = idx / 4;
        let dj = (idx / 2) % 2;
        let dk = idx % 2;
        spec_add(
            spec_interp_partial(c, u, v, w, n - 1),
            spec_corner_term(c[idx], u, v, w, di, dj, dk),
        )
    }
}

/// Smoothed trilinear interpolation of the eight corner gradients.
pub open spec fn spec_perlin_interp(c: Seq<Vec3>, u: int, v: int, w: int) -> int {
    spec_interp_partial(c, spec_smooth(u), spec_smooth(v), spec_smooth(w), 8)
}

/// The noise value at a point.
pub open spec fn spec_noise(pl: Perlin, p: Vec3) -> int {
    let cx = spec_cell(p.x as int);
    let cy = spec_cell(p.y as int);
    let cz = spec_cell(p.z as int);
    let u = spec_frac(p.x as int);
    let v = spec_frac(p.y as int);
    let w = spec_frac(p.z as int);
    let c = Seq::new(
        8,
        |idx: int|
            spec_corner_grad(pl, cx + idx / 4, cy + (idx / 2) % 2, cz + idx % 2),
    );
    spec_perlin_interp(c, u, v, w)
}

/// The turbulence accumulator state after n octaves:
/// (accumulated value, octave weight, scaled point).
pub open spec fn spec_turb_state(pl: Perlin, p: Vec3, n: int) -> (int, int, Vec3)
    decreases n,
{
    if n <= 0 {
        (0, ONE as int, p)
    } else {
        let prev = spec_turb_state(pl, p, n - 1);
        (
            spec_add(prev.0, spec_mul(prev.1, spec_noise(pl, prev.2))),
            spec_mul(prev.1, 32768),
            spec_v_scale(prev.2, 2 * ONE),
        )
    }
}

/// Multi-octave turbulence: the absolute accumulated noise.
pub open spec fn spec_turb(pl: Perlin, p: Vec3, depth: int) -> int {
    abs_i(spec_turb_state(pl, p, depth).0)
}

/// The fractional part lies inside the cell.
pub proof fn lemma_frac_range(x: int)
    ensures
        0 <= spec_frac(x) < ONE,
{
    lemma_div_floor_pos(x, ONE as int);
}

/// The Hermite smoothing keeps a fraction within one unit.
pub proof fn lemma_smooth_range(u: int)
    requires
        0 <= u < ONE,
    ensures
        0 <= spec_smooth(u) <= ONE,
{
    let s = ONE as int;
    let a = spec_mul(u, u);
    lemma_mul_nonneg(u, u);
    assert(spec_mul(2 * s, u) == 2 * u) by {
        assert(2 * s * u == s * (2 * u)) by (nonlinear_arith);
        lemma_div_floor_pos(2 * s * u, s);
        vstd::arithmetic::div_mod::lemma_div_multiples_vanish(2 * u, s);
    }
    let f = spec_sub(3 * s, spec_mul(2 * s, u));
    assert(f == 3 * s - 2 * u);
    let q = div_floor(u * u, s);
    lemma_div_floor_pos(u * u, s);
    assert(0 <= u * u <= s * s) by (nonlinear_arith)
        requires
            0 <= u < s,
    ;
    vstd::arithmetic::div_mod::lemma_basic_div(0int, s);
    vstd::arithmetic::div_mod::lemma_div_is_ordered(0, u * u, s);
    vstd::arithmetic::div_mod::lemma_div_is_ordered(u * u, s * s, s);
    vstd::arithmetic::div_mod::lemma_div_multiples_vanish(s, s);
    assert(s * s == s * s && (s * s) / s == s);
    assert(a == q);
    assert(s * q <= u * u);
    assert((s - u) * (s - u) * (s + 2 * u) >= 0) by (nonlinear_arith)
        requires
            0 <= u < s,
    ;
    assert(s * s * s - (u * u) * (3 * s - 2 * u) == (s - u) * (s - u) * (s + 2 * u))
        by (nonlinear_arith);
    assert(q * f * s <= (u * u) * f) by (nonlinear_arith)
        requires
            s * q <= u * u,
            f >= 0,
            s > 0,
            f == 3 * s - 2 * u,
    ;
    assert(q * f <= s * s) by (nonlinear_arith)
        requires
            q * f * s <= s * s * s,
            s > 0,
    ;
    lemma_mul_nonneg(a, f);
    lemma_div_floor_pos(a * f, s);
    vstd::arithmetic::div_mod::lemma_div_is_ordered(a * f, s * s, s);
}

/// One corner's contribution is at most three units in magnitude: a
/// unit-bounded gradient dotted with a unit-bounded offset, scaled by a
/// unit-bounded weight.
pub proof fn lemma_corner_term_bound(
    grad: Vec3,
    u: int,
    v: int,
    w: int,
    di: int,
    dj: int,
    dk: int,
)
    requires
        grad_ok(grad),
        0 <= u <= ONE,
        0 <= v <= ONE,
        0 <= w <= ONE,
        0 <= di <= 1,
        0 <= dj <= 1,
        0 <= dk <= 1,
    ensures
        abs_i(spec_corner_term(grad, u, v, w, di, dj, dk)) <= 3 * ONE,
{
    let s = ONE as int;
    let wvx = spec_sub(u, di * s);
    let wvy = spec_sub(v, dj * s);
    let wvz = spec_sub(w, dk * s);
    lemma_unit_mul(grad.x as int, wvx);
    lemma_unit_mul(grad.y as int, wvy);
    lemma_unit_mul(grad.z as int, wvz);
    let fu = if di == 0 {
        spec_sub(s, u)
    } else {
        u
    };
    let fv = if dj == 0 {
        spec_sub(s, v)
    } else {
        v
    };
    let fw = if dk == 0 {
        spec_sub(s, w)
    } else {
        w
    };
    lemma_mul_nonneg(fu, fv);
    lemma_unit_mul(fu, fv);
    lemma_mul_nonneg(spec_mul(fu, fv), fw);
    lemma_unit_mul(spec_mul(fu, fv), fw);
    let wv = Vec3 { x: wvx as i64, y: wvy as i64, z: wvz as i64 };
    lemma_mul_by_unit(spec_dot(grad, wv), spec_mul(spec_mul(fu, fv), fw));
}

/// The fold of the first n corner terms is bounded by three units each.
pub proof fn lemma_interp_partial_bound(c: Seq<Vec3>, u: int, v: int, w: int, n: int)
    requires
        0 <= n <= 8,
        forall|i: int| 0 <= i < n ==> grad_ok(#[trigger] c[i]),
        0 <= u <= ONE,
        0 <= v <= ONE,
        0 <= w <= ONE,
    ensures
        abs_i(spec_interp_partial(c, u, v, w, n)) <= 3 * ONE * n,
    decreases n,
{
    if n > 0 {
        lemma_interp_partial_bound(c, u, v, w, n - 1);
        let idx = n - 1;
        assert(0 <= idx / 4 <= 1 && 0 <= (idx / 2) % 2 <= 1 && 0 <= idx % 2 <= 1) by (nonlinear_arith)
            requires
                0 <= idx <= 7,
        ;
        lemma_corner_term_bound(c[idx], u, v, w, idx / 4, (idx / 2) % 2, idx % 2);
        assert(3 * ONE * (n - 1) + 3 * ONE == 3 * ONE * n) by (nonlinear_arith);
    }
}

/// Law: noise is bounded by a few units of the grid — at most three per
/// corner contribution, twenty-four in all. (The convex-combination
/// argument would tighten this toward the square root of three; the
/// rounded fold supports the coarse bound directly.)
pub proof fn lemma_noise_bound(pl: Perlin, p: Vec3)
    requires
        perlin_ok(pl),
        vec_ok(p),
    ensures
        abs_i(spec_noise(pl, p)) <= 24 * ONE,
{
    let cx = spec_cell(p.x as int);
    let cy = spec_cell(p.y as int);
    let cz = spec_cell(p.z as int);
    lemma_frac_range(p.x as int);
    lemma_frac_range(p.y as int);
    lemma_frac_range(p.z as int);
    lemma_smooth_range(spec_frac(p.x as int));
    lemma_smooth_range(spec_frac(p.y as int));
    lemma_smooth_range(spec_frac(p.z as int));
    let c = Seq::new(
        8,
        |idx: int| spec_corner_grad(pl, cx + idx / 4, cy + (idx / 2) % 2, cz + idx % 2),
    );
    assert forall|i: int| 0 <= i < 8 implies grad_ok(#[trigger] c[i]) by {
        let gx = cx + i / 4;
        let gy = cy + (i / 2) % 2;
        let gz = cz + i % 2;
        lemma_div_floor_pos(gx, 256);
        lemma_div_floor_pos(gy, 256);
        lemma_div_floor_pos(gz, 256);
        let hx = pl.perm_x@[spec_wrap256(gx)];
        let hy = pl.perm_y@[spec_wrap256(gy)];
        let hz = pl.perm_z@[spec_wrap256(gz)];
        assert(hx < 256 && hy < 256 && hz < 256);
        assert((hx ^ hy ^ hz) < 256) by (bit_vector)
            requires
                hx < 256,
                hy < 256,
                hz < 256,
        ;
    }
    lemma_interp_partial_bound(
        c,
        spec_smooth(spec_frac(p.x as int)),
        spec_smooth(spec_frac(p.y as int)),
        spec_smooth(spec_frac(p.z as int)),
        8,
    );
}

/// Split a coordinate into its lattice cell and fraction.
fn cell_frac(x: i64) -> (r: (i64, i64))
    requires
        fx_ok(x as int),
    ensures
        r.0 == spec_cell(x as int),
        r.1 == spec_frac(x as int),
        0 <= r.1 < ONE,
        -1099511627776 <= r.0 <= 1099511627776,
{
    proof {
        lemma_div_floor_pos(x as int, ONE as int);
    }
    let q = div_floor_i128(x as i128, 65536);
    let qi = q as i64;
    let f = x - qi * 65536;
    (qi, f)
}

/// Fold a lattice index into [0, 256).
fn wrap256(v: i64) -> (r: usize)
    requires
        -2199023255552 <= v <= 2199023255552,
    ensures
        r == spec_wrap256(v as int),
        r < 256,
{
    proof {
        lemma_div_floor_pos(v as int, 256);
    }
    let q = div_floor_i128(v as i128, 256);
    let m = (v as i128) - 256 * q;
    m as usize
}

impl Perlin {
    /// Fresh noise: 256 random unit gradients, clamped componentwise into
    /// one unit (the fallback for a degenerate near-zero draw, whose
    /// normalization the grid cannot represent), and three shuffled
    /// permutations of 0..256.
    pub fn new(rng: &mut rand::rngs::StdRng) -> (r: Perlin)
        ensures
            perlin_ok(r),
            r.perm_x@.to_multiset() == spec_ident_perm().to_multiset(),
            r.perm_y@.to_multiset() == spec_ident_perm().to_multiset(),
            r.perm_z@.to_multiset() == spec_ident_perm().to_multiset(),
    {
        let mut ranvec: Vec<Vec3> = Vec::new();
        for i in 0..256usize
            invariant
                ranvec@.len() == i,
                forall|j: int| 0 <= j < i ==> vec_ok(#[trigger] ranvec@[j]),
                forall|j: int| 0 <= j < i ==> grad_ok(#[trigger] ranvec@[j]),
        {
            let g = Vec3::random_range(rng, -ONE, ONE).unit_vector();
            ranvec.push(
                Vec3::new(fclamp(g.x, -ONE, ONE), fclamp(g.y, -ONE, ONE), fclamp(g.z, -ONE, ONE)),
            );
        }
        let perm_x = Perlin::shuffled_perm(rng);
        let perm_y = Perlin::shuffled_perm(rng);
        let perm_z = Perlin::shuffled_perm(rng);
        Perlin { ranvec, perm_x, perm_y, perm_z }
    }

    /// A random permutation of 0..256: the table holds each index exactly
    /// once, rearranged by downward swaps.
    fn shuffled_perm(rng: &mut rand::rngs::StdRng) -> (r: Vec<usize>)
        ensures
            perm_ok(r@),
            r@.to_multiset() == spec_ident_perm().to_multiset(),
    {
        broadcast use vstd::seq_lib::to_multiset_update;
        broadcast use vstd::multiset::group_multiset_axioms;

        let mut v: Vec<usize> = Vec::new();
        for i in 0..256usize
            invariant
                v@.len() == i,
                forall|j: int| 0 <= j < i ==> (#[trigger] v@[j]) == j,
        {
            v.push(i);
        }
        proof {
            assert(v@ =~= spec_ident_perm());
        }
        let mut i: usize = 255;
        while i > 0
            invariant
                v@.len() == 256,
                forall|j: int| 0 <= j < 256 ==> (#[trigger] v@[j]) < 256,
                v@.to_multiset() == spec_ident_perm().to_multiset(),
                i < 256,
            decreases i,
        {
            let j = rng_below(rng, (i as u64) + 1) as usize;
            let a = v[i];
            let b = v[j];
            let ghost before = v@;
            v.set(i, b);
            let ghost mid = v@;
            v.set(j, a);
            proof {
                assert(mid == before.update(i as int, b));
                assert(v@ == mid.update(j as int, a));
                vstd::seq_lib::to_multiset_update(before, i as int, b);
                vstd::seq_lib::to_multiset_update(mid, j as int, a);
                before.to_multiset_ensures();
                assert(before.contains(before[i as int]));
                assert(before.to_multiset().count(a) > 0);
                if i == j {
                    assert(v@.to_multiset() =~= before.to_multiset());
                } else {
                    assert(mid[j as int] == b);
                    assert(v@.to_multiset() =~= before.to_multiset());
                }
            }
            i = i - 1;
        }
        v
    }

    /// Smoothed trilinear blend of eight corner gradients.
    pub fn perlin_interp(c: &Vec<Vec3>, u: i64, v: i64, w: i64) -> (r: i64)
        requires
            c@.len() == 8,
            forall|i: int| 0 <= i < 8 ==> vec_ok(#[trigger] c@[i]),
            fx_ok(u as int),
            fx_ok(v as int),
            fx_ok(w as int),
        ensures
            r == spec_perlin_interp(c@, u as int, v as int, w as int),
            fx_ok(r as int),
    {
        let su = Perlin::smooth(u);
        let sv = Perlin::smooth(v);
        let sw = Perlin::smooth(w);
        let mut acc: i64 = 0;
        let mut idx: usize = 0;
        while idx < 8
            invariant
                c@.len() == 8,
                forall|i: int| 0 <= i < 8 ==> vec_ok(#[trigger] c@[i]),
                fx_ok(acc as int),
                fx_ok(su as int) && fx_ok(sv as int) && fx_ok(sw as int),
                su == spec_smooth(u as int),
                sv == spec_smooth(v as int),
                sw == spec_smooth(w as int),
                0 <= idx <= 8,
                acc == spec_interp_partial(c@, su as int, sv as int, sw as int, idx as int),
            decreases 8 - idx,
    {
            let di: i64 = if idx >= 4 {
                1
            } else {
                0
            };
            let dj: i64 = if idx % 4 >= 2 {
                1
            } else {
                0
            };
            let dk: i64 = if idx % 2 == 1 {
                1
            } else {
                0
            };
            let wv = Vec3::new(fsub(su, di * ONE), fsub(sv, dj * ONE), fsub(sw, dk * ONE));
            let fu = if di == 0 {
                fsub(ONE, su)
            } else {
                su
            };
            let fv = if dj == 0 {
                fsub(ONE, sv)
            } else {
                sv
            };
            let fw = if dk == 0 {
                fsub(ONE, sw)
            } else {
                sw
            };
            let grad = c[idx];
            let term = fmul(grad.dot(&wv), fmul(fmul(fu, fv), fw));
            proof {
                assert(di as int == (idx as int) / 4 && dj as int == ((idx as int) / 2) % 2
                    && dk as int == (idx as int) % 2);
            }
            acc = fadd(acc, term);
            idx = idx + 1;
        }
        acc
    }

    fn smooth(u: i64) -> (r: i64)
        requires
            fx_ok(u as int),
        ensures
            r == spec_smooth(u as int),
            fx_ok(r as int),
    {
        fmul(fmul(u, u), fsub(3 * ONE, fmul(2 * ONE, u)))
    }

    /// Noise at a point: gradients at the cell's corners, blended.
    pub fn noise(&self, p: &Vec3) -> (r: i64)
        requires
            perlin_ok(*self),
            vec_ok(*p),
        ensures
            r == spec_noise(*self, *p),
            fx_ok(r as int),
    {
        let (cx, u) = cell_frac(p.x);
        let (cy, v) = cell_frac(p.y);
        let (cz, w) = cell_frac(p.z);
        let mut corners: Vec<Vec3> = Vec::new();
        let mut idx: usize = 0;
        while idx < 8
            invariant
                perlin_ok(*self),
                -1099511627776 <= cx <= 1099511627776,
                -1099511627776 <= cy <= 1099511627776,
                -1099511627776 <= cz <= 1099511627776,
                0 <= idx <= 8,
                corners@.len() == idx,
                forall|i: int| 0 <= i < idx ==> #[trigger] corners@[i] == spec_corner_grad(
                    *self,
                    cx + i / 4,
                    cy + (i / 2) % 2,
                    cz + i % 2,
                ),
                forall|i: int| 0 <= i < idx ==> vec_ok(#[trigger] corners@[i]),
            decreases 8 - idx,
        {
            let di: i64 = if idx >= 4 {
                1
            } else {
                0
            };
            let dj: i64 = if idx % 4 >= 2 {
                1
            } else {
                0
            };
            let dk: i64 = if idx % 2 == 1 {
                1
            } else {
                0
            };
            let hx = self.perm_x[wrap256(cx + di)];
            let hy = self.perm_y[wrap256(cy + dj)];
            let hz = self.perm_z[wrap256(cz + dk)];
            let h = ((hx as u64) ^ (hy as u64) ^ (hz as u64)) as usize;
            proof {
                assert(((hx as u64) ^ (hy as u64) ^ (hz as u64)) < 256) by (bit_vector)
                    requires
                        (hx as u64) < 256,
                        (hy as u64) < 256,
                        (hz as u64) < 256,
                ;
                assert((hx ^ hy ^ hz) == ((hx as u64) ^ (hy as u64) ^ (hz as u64)) as usize)
                    by (bit_vector);
                assert(di as int == (idx as int) / 4 && dj as int == ((idx as int) / 2) % 2
                    && dk as int == (idx as int) % 2);
            }
            corners.push(self.ranvec[h]);
            idx = idx + 1;
        }
        proof {
            assert(corners@ =~= Seq::new(
                8,
                |i: int|
                    spec_corner_grad(
                        *self,
                        spec_cell(p.x as int) + i / 4,
                        spec_cell(p.y as int) + (i / 2) % 2,
                        spec_cell(p.z as int) + i % 2,
                    ),
            ));
        }
        Perlin::perlin_interp(&corners, u, v, w)
    }

    /// Multi-octave turbulence: sum of halved-weight noise at doubled scale.
    pub fn turb(&self, p: &Vec3, depth: u32) -> (r: i64)
        requires
            perlin_ok(*self),
            vec_ok(*p),
        ensures
            r == spec_turb(*self, *p, depth as int),
            fx_ok(r as int),
            r >= 0,
    {
        let mut accum: i64 = 0;
        let mut weight: i64 = ONE;
        let mut tp: Vec3 = *p;
        let mut d: u32 = 0;
        while d < depth
            invariant
                perlin_ok(*self),
                vec_ok(*p),
                vec_ok(tp),
                fx_ok(accum as int),
                fx_ok(weight as int),
                0 <= d <= depth,
                (accum as int, weight as int, tp) == spec_turb_state(*self, *p, d as int),
            decreases depth - d,
        {
            accum = fadd(accum, fmul(weight, self.noise(&tp)));
            weight = fmul(weight, 32768);
            tp = tp.scale(2 * ONE);
            d = d + 1;
        }
        fabs(accum)
    }
}

} // verus!
