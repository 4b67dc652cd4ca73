//! The 4-by-4 matrix and the affine transform built on it.
//!
//! `Matrix4` carries sixteen scalars in row-major order and inverts
//! itself by Gauss-Jordan elimination with full pivoting: each round
//! searches the whole unpivoted submatrix for the entry of largest
//! magnitude, swaps it onto the diagonal, scales its row and eliminates
//! its column, and the final pass undoes the column permutation.  A
//! revisited pivot or an exactly zero pivot marks the matrix as
//! singular, a recoverable condition reported through [`InvError`].
//!
//! `Transform` pairs a matrix with its precomputed inverse and keeps the
//! pair in step: named constructors derive both sides from closed
//! formulas, composition multiplies the inverses in reverse order, and
//! `inverse` merely swaps the two.

use vstd::prelude::*;
use crate::scalar::{Scalar, s_le, radians};
use crate::traits::Vector;
use crate::vector::{Vector3, lemma_normalize_wf};
use crate::normal::Normal3;
use crate::point::Point3;

verus! {

/// The recoverable failure of matrix inversion: the matrix is singular.
#[derive(Debug)]
pub struct InvError;

/// A 4-by-4 matrix of scalars, row-major.
#[derive(Clone, Copy, Debug)]
pub struct Matrix4<S: Scalar> {
    pub m00: S,
    pub m01: S,
    pub m02: S,
    pub m03: S,
    pub m10: S,
    pub m11: S,
    pub m12: S,
    pub m13: S,
    pub m20: S,
    pub m21: S,
    pub m22: S,
    pub m23: S,
    pub m30: S,
    pub m31: S,
    pub m32: S,
    pub m33: S,
}

/// The matrix whose entry at row `i`, column `j` is `f(i, j)`.
pub open spec fn mk_mat<S: Scalar>(f: spec_fn(int, int) -> S) -> Matrix4<S> {
    Matrix4 {
        m00: f(0, 0),
        m01: f(0, 1),
        m02: f(0, 2),
        m03: f(0, 3),
        m10: f(1, 0),
        m11: f(1, 1),
        m12: f(1, 2),
        m13: f(1, 3),
        m20: f(2, 0),
        m21: f(2, 1),
        m22: f(2, 2),
        m23: f(2, 3),
        m30: f(3, 0),
        m31: f(3, 1),
        m32: f(3, 2),
        m33: f(3, 3),
    }
}

/// The entry of a quadruple under an index.
pub open spec fn qget(q: (u8, u8, u8, u8), i: int) -> u8 {
    if i == 0 {
        q.0
    } else if i == 1 {
        q.1
    } else if i == 2 {
        q.2
    } else {
        q.3
    }
}

/// The quadruple with the entry under `i` replaced by `v`.
pub open spec fn qset(q: (u8, u8, u8, u8), i: int, v: u8) -> (u8, u8, u8, u8) {
    (
        if i == 0 {
            v
        } else {
            q.0
        },
        if i == 1 {
            v
        } else {
            q.1
        },
        if i == 2 {
            v
        } else {
            q.2
        },
        if i == 3 {
            v
        } else {
            q.3
        },
    )
}

/// The entry of a quadruple under an index.
fn qget_exec(q: (u8, u8, u8, u8), i: usize) -> (r: u8)
    requires
        i < 4,
    ensures
        r == qget(q, i as int),
{
    if i == 0 {
        q.0
    } else if i == 1 {
        q.1
    } else if i == 2 {
        q.2
    } else {
        q.3
    }
}

/// The quadruple with the entry under `i` replaced by `v`.
fn qset_exec(q: (u8, u8, u8, u8), i: usize, v: u8) -> (r: (u8, u8, u8, u8))
    requires
        i < 4,
    ensures
        r == qset(q, i as int, v),
{
    if i == 0 {
        (v, q.1, q.2, q.3)
    } else if i == 1 {
        (q.0, v, q.2, q.3)
    } else if i == 2 {
        (q.0, q.1, v, q.3)
    } else {
        (q.0, q.1, q.2, v)
    }
}

impl<S: Scalar> Matrix4<S> {
    /// The entry at row `i`, column `j`.
    pub open spec fn entry(self, i: int, j: int) -> S {
        if i == 0 {
            if j == 0 {
                self.m00
            } else if j == 1 {
                self.m01
            } else if j == 2 {
                self.m02
            } else {
                self.m03
            }
        } else if i == 1 {
            if j == 0 {
                self.m10
            } else if j == 1 {
                self.m11
            } else if j == 2 {
                self.m12
            } else {
                self.m13
            }
        } else if i == 2 {
            if j == 0 {
                self.m20
            } else if j == 1 {
                self.m21
            } else if j == 2 {
                self.m22
            } else {
                self.m23
            }
        } else {
            if j == 0 {
                self.m30
            } else if j == 1 {
                self.m31
            } else if j == 2 {
                self.m32
            } else {
                self.m33
            }
        }
    }

    /// The identity matrix.
    pub open spec fn spec_identity() -> Matrix4<S> {
        mk_mat(
            |i: int, j: int|
                if i == j {
                    S::spec_one()
                } else {
                    S::spec_zero()
                },
        )
    }

    /// The matrix reflected across its main diagonal.
    pub open spec fn spec_transpose(self) -> Matrix4<S> {
        mk_mat(|i: int, j: int| self.entry(j, i))
    }

    /// The entry of the matrix product at row `i`, column `j`.
    pub open spec fn spec_prod_entry(self, rhs: Matrix4<S>, i: int, j: int) -> S {
        self.entry(i, 0).spec_mul(rhs.entry(0, j)).spec_add(
            self.entry(i, 1).spec_mul(rhs.entry(1, j)),
        ).spec_add(self.entry(i, 2).spec_mul(rhs.entry(2, j))).spec_add(
            self.entry(i, 3).spec_mul(rhs.entry(3, j)),
        )
    }

    /// The matrix product of the two operands.
    pub open spec fn spec_matmul(self, rhs: Matrix4<S>) -> Matrix4<S> {
        mk_mat(|i: int, j: int| self.spec_prod_entry(rhs, i, j))
    }

    /// The entry at row `i`, column `j`.
    pub fn get(&self, i: usize, j: usize) -> (r: S)
        requires
            i < 4,
            j < 4,
        ensures
            r == self.entry(i as int, j as int),
    {
        if i == 0 {
            if j == 0 {
                self.m00
            } else if j == 1 {
                self.m01
            } else if j == 2 {
                self.m02
            } else {
                self.m03
            }
        } else if i == 1 {
            if j == 0 {
                self.m10
            } else if j == 1 {
                self.m11
            } else if j == 2 {
                self.m12
            } else {
                self.m13
            }
        } else if i == 2 {
            if j == 0 {
                self.m20
            } else if j == 1 {
                self.m21
            } else if j == 2 {
                self.m22
            } else {
                self.m23
            }
        } else {
            if j == 0 {
                self.m30
            } else if j == 1 {
                self.m31
            } else if j == 2 {
                self.m32
            } else {
                self.m33
            }
        }
    }

    /// Replaces the entry at row `i`, column `j`.
    fn set(&mut self, i: usize, j: usize, v: S)
        requires
            i < 4,
            j < 4,
        ensures
            forall|a: int, b: int|
                0 <= a < 4 && 0 <= b < 4 ==> #[trigger] final(self).entry(a, b) == (
                if a == i && b == j {
                    v
                } else {
                    old(self).entry(a, b)
                }),
    {
        if i == 0 {
            if j == 0 {
                self.m00 = v;
            } else if j == 1 {
                self.m01 = v;
            } else if j == 2 {
                self.m02 = v;
            } else {
                self.m03 = v;
            }
        } else if i == 1 {
            if j == 0 {
                self.m10 = v;
            } else if j == 1 {
                self.m11 = v;
            } else if j == 2 {
                self.m12 = v;
            } else {
                self.m13 = v;
            }
        } else if i == 2 {
            if j == 0 {
                self.m20 = v;
            } else if j == 1 {
                self.m21 = v;
            } else if j == 2 {
                self.m22 = v;
            } else {
                self.m23 = v;
            }
        } else {
            if j == 0 {
                self.m30 = v;
            } else if j == 1 {
                self.m31 = v;
            } else if j == 2 {
                self.m32 = v;
            } else {
                self.m33 = v;
            }
        }
    }

    /// The identity matrix.
    pub fn new() -> (r: Self)
        ensures
            r == Self::spec_identity(),
    {
        Matrix4::from_values(
            S::one(),
            S::zero(),
            S::zero(),
            S::zero(),
            S::zero(),
            S::one(),
            S::zero(),
            S::zero(),
            S::zero(),
            S::zero(),
            S::one(),
            S::zero(),
            S::zero(),
            S::zero(),
            S::zero(),
            S::one(),
        )
    }

    /// The matrix with the sixteen given entries, row by row.
    pub fn from_values(
        m00: S,
        m01: S,
        m02: S,
        m03: S,
        m10: S,
        m11: S,
        m12: S,
        m13: S,
        m20: S,
        m21: S,
        m22: S,
        m23: S,
        m30: S,
        m31: S,
        m32: S,
        m33: S,
    ) -> (r: Self)
        ensures
            r == (Matrix4 {
                m00,
                m01,
                m02,
                m03,
                m10,
                m11,
                m12,
                m13,
                m20,
                m21,
                m22,
                m23,
                m30,
                m31,
                m32,
                m33,
            }),
    {
        Matrix4 {
            m00,
            m01,
            m02,
            m03,
            m10,
            m11,
            m12,
            m13,
            m20,
            m21,
            m22,
            m23,
            m30,
            m31,
            m32,
            m33,
        }
    }

    /// The matrix reflected across its main diagonal.
    pub fn transpose(&self) -> (r: Self)
        ensures
            r == self.spec_transpose(),
    {
        Matrix4::from_values(
            self.m00,
            self.m10,
            self.m20,
            self.m30,
            self.m01,
            self.m11,
            self.m21,
            self.m31,
            self.m02,
            self.m12,
            self.m22,
            self.m32,
            self.m03,
            self.m13,
            self.m23,
            self.m33,
        )
    }

    /// One entry of the matrix product.
    fn prod_entry(&self, rhs: &Matrix4<S>, i: usize, j: usize) -> (r: S)
        requires
            i < 4,
            j < 4,
        ensures
            r == self.spec_prod_entry(*rhs, i as int, j as int),
    {
        self.get(i, 0).mul(rhs.get(0, j)).add(self.get(i, 1).mul(rhs.get(1, j))).add(
            self.get(i, 2).mul(rhs.get(2, j)),
        ).add(self.get(i, 3).mul(rhs.get(3, j)))
    }

    /// The matrix product of the two operands.
    pub fn mul(&self, rhs: &Matrix4<S>) -> (r: Self)
        ensures
            r == self.spec_matmul(*rhs),
    {
        Matrix4::from_values(
            self.prod_entry(rhs, 0, 0),
            self.prod_entry(rhs, 0, 1),
            self.prod_entry(rhs, 0, 2),
            self.prod_entry(rhs, 0, 3),
            self.prod_entry(rhs, 1, 0),
            self.prod_entry(rhs, 1, 1),
            self.prod_entry(rhs, 1, 2),
            self.prod_entry(rhs, 1, 3),
            self.prod_entry(rhs, 2, 0),
            self.prod_entry(rhs, 2, 1),
            self.prod_entry(rhs, 2, 2),
            self.prod_entry(rhs, 2, 3),
            self.prod_entry(rhs, 3, 0),
            self.prod_entry(rhs, 3, 1),
            self.prod_entry(rhs, 3, 2),
            self.prod_entry(rhs, 3, 3),
        )
    }
}

/// The pivot search of one elimination round, walking the sixteen cells
/// in row-major order from cell `t`.  A cell counts when its row has not
/// been pivoted and its column never; among those the last cell whose
/// magnitude is at least the best seen wins.  Meeting a column pivoted
/// more than once marks the matrix singular.
pub open spec fn spec_pivot_scan<S: Scalar>(
    m: Matrix4<S>,
    ipiv: (u8, u8, u8, u8),
    t: int,
    big: S,
    irow: int,
    icol: int,
) -> Option<(S, int, int)>
    decreases 16 - t,
{
    if t >= 16 {
        Some((big, irow, icol))
    } else {
        let j = t / 4;
        let k = t % 4;
        if qget(ipiv, j) != 1 {
            if qget(ipiv, k) == 0 {
                if s_le(big, m.entry(j, k).spec_abs()) {
                    spec_pivot_scan(m, ipiv, t + 1, m.entry(j, k).spec_abs(), j, k)
                } else {
                    spec_pivot_scan(m, ipiv, t + 1, big, irow, icol)
                }
            } else if qget(ipiv, k) > 1 {
                None
            } else {
                spec_pivot_scan(m, ipiv, t + 1, big, irow, icol)
            }
        } else {
            spec_pivot_scan(m, ipiv, t + 1, big, irow, icol)
        }
    }
}

/// The matrix with rows `r1` and `r2` exchanged.
pub open spec fn spec_swap_rows<S: Scalar>(m: Matrix4<S>, r1: int, r2: int) -> Matrix4<S> {
    mk_mat(
        |i: int, j: int|
            if i == r1 {
                m.entry(r2, j)
            } else if i == r2 {
                m.entry(r1, j)
            } else {
                m.entry(i, j)
            },
    )
}

/// The matrix with columns `c1` and `c2` exchanged.
pub open spec fn spec_swap_cols<S: Scalar>(m: Matrix4<S>, c1: int, c2: int) -> Matrix4<S> {
    mk_mat(
        |i: int, j: int|
            if j == c1 {
                m.entry(i, c2)
            } else if j == c2 {
                m.entry(i, c1)
            } else {
                m.entry(i, j)
            },
    )
}

/// The pivot row scaled by the reciprocal of the pivot, the pivot cell
/// replaced by one beforehand.
pub open spec fn spec_norm_row<S: Scalar>(m: Matrix4<S>, icol: int, pivinv: S) -> Matrix4<S> {
    mk_mat(
        |i: int, j: int|
            if i == icol {
                (if j == icol {
                    S::spec_one()
                } else {
                    m.entry(i, j)
                }).spec_mul(pivinv)
            } else {
                m.entry(i, j)
            },
    )
}

/// Row `j` reduced by the pivot row: its cell in the pivot column is
/// zeroed first, then the scaled pivot row is subtracted throughout.
pub open spec fn spec_elim_row<S: Scalar>(m: Matrix4<S>, j: int, icol: int) -> Matrix4<S> {
    mk_mat(
        |a: int, b: int|
            if a == j {
                (if b == icol {
                    S::spec_zero()
                } else {
                    m.entry(a, b)
                }).spec_sub(m.entry(icol, b).spec_mul(m.entry(j, icol)))
            } else {
                m.entry(a, b)
            },
    )
}

/// The rows before `j`, the pivot row excepted, reduced in order.
pub open spec fn spec_elim_upto<S: Scalar>(m: Matrix4<S>, icol: int, j: int) -> Matrix4<S>
    decreases j,
{
    if j <= 0 {
        m
    } else {
        let prev = spec_elim_upto(m, icol, j - 1);
        if j - 1 == icol {
            prev
        } else {
            spec_elim_row(prev, j - 1, icol)
        }
    }
}

/// One round of the elimination: find the pivot, mark its column, swap
/// it onto the diagonal, refuse an exactly zero pivot, scale its row and
/// reduce the other rows.
pub open spec fn spec_gj_step<S: Scalar>(m: Matrix4<S>, ipiv: (u8, u8, u8, u8)) -> Option<
    (Matrix4<S>, (u8, u8, u8, u8), int, int),
> {
    match spec_pivot_scan(m, ipiv, 0, S::spec_zero(), 0, 0) {
        None => None,
        Some(bic) => {
            let irow = bic.1;
            let icol = bic.2;
            let ipiv2 = qset(ipiv, icol, (qget(ipiv, icol) + 1) as u8);
            let m1 = if irow != icol {
                spec_swap_rows(m, irow, icol)
            } else {
                m
            };
            if m1.entry(icol, icol) == S::spec_zero() {
                None
            } else {
                let pivinv = S::spec_one().spec_div(m1.entry(icol, icol));
                let m2 = spec_norm_row(m1, icol, pivinv);
                Some((spec_elim_upto(m2, icol, 4), ipiv2, irow, icol))
            }
        },
    }
}

/// The column permutation of the rounds undone, from round `j` back to
/// the first.
pub open spec fn spec_unswap<S: Scalar>(
    m: Matrix4<S>,
    indxr: (u8, u8, u8, u8),
    indxc: (u8, u8, u8, u8),
    j: int,
) -> Matrix4<S>
    decreases j + 1,
{
    if j < 0 {
        m
    } else {
        let m1 = if qget(indxr, j) != qget(indxc, j) {
            spec_swap_cols(m, qget(indxr, j) as int, qget(indxc, j) as int)
        } else {
            m
        };
        spec_unswap(m1, indxr, indxc, j - 1)
    }
}

/// Two matrices agreeing on every entry are the same matrix.
proof fn lemma_mat_eq<S: Scalar>(a: Matrix4<S>, b: Matrix4<S>)
    requires
        forall|i: int, j: int|
            0 <= i < 4 && 0 <= j < 4 ==> #[trigger] a.entry(i, j) == b.entry(i, j),
    ensures
        a == b,
{
    assert(a.entry(0, 0) == b.entry(0, 0));
    assert(a.entry(0, 1) == b.entry(0, 1));
    assert(a.entry(0, 2) == b.entry(0, 2));
    assert(a.entry(0, 3) == b.entry(0, 3));
    assert(a.entry(1, 0) == b.entry(1, 0));
    assert(a.entry(1, 1) == b.entry(1, 1));
    assert(a.entry(1, 2) == b.entry(1, 2));
    assert(a.entry(1, 3) == b.entry(1, 3));
    assert(a.entry(2, 0) == b.entry(2, 0));
    assert(a.entry(2, 1) == b.entry(2, 1));
    assert(a.entry(2, 2) == b.entry(2, 2));
    assert(a.entry(2, 3) == b.entry(2, 3));
    assert(a.entry(3, 0) == b.entry(3, 0));
    assert(a.entry(3, 1) == b.entry(3, 1));
    assert(a.entry(3, 2) == b.entry(3, 2));
    assert(a.entry(3, 3) == b.entry(3, 3));
}

/// The pivot search of one elimination round.
fn pivot_scan_exec<S: Scalar>(
    m: &Matrix4<S>,
    ipiv: (u8, u8, u8, u8),
    t: usize,
    big: S,
    irow: usize,
    icol: usize,
) -> (r: Option<(S, usize, usize)>)
    requires
        t <= 16,
        irow < 4,
        icol < 4,
    ensures
        match r {
            Some(v) => spec_pivot_scan(*m, ipiv, t as int, big, irow as int, icol as int) == Some(
                (v.0, v.1 as int, v.2 as int),
            ) && v.1 < 4 && v.2 < 4,
            None => spec_pivot_scan(*m, ipiv, t as int, big, irow as int, icol as int) is None,
        },
    decreases 16 - t,
{
    if t >= 16 {
        Some((big, irow, icol))
    } else {
        let j = t / 4;
        let k = t % 4;
        let pj = qget_exec(ipiv, j);
        if pj != 1 {
            let pk = qget_exec(ipiv, k);
            if pk == 0 {
                let a = m.get(j, k).abs();
                if big.le(a) {
                    pivot_scan_exec(m, ipiv, t + 1, a, j, k)
                } else {
                    pivot_scan_exec(m, ipiv, t + 1, big, irow, icol)
                }
            } else if pk > 1 {
                None
            } else {
                pivot_scan_exec(m, ipiv, t + 1, big, irow, icol)
            }
        } else {
            pivot_scan_exec(m, ipiv, t + 1, big, irow, icol)
        }
    }
}

/// The matrix with rows `r1` and `r2` exchanged.
fn swap_rows_exec<S: Scalar>(m: Matrix4<S>, r1: usize, r2: usize) -> (r: Matrix4<S>)
    requires
        r1 < 4,
        r2 < 4,
    ensures
        r == spec_swap_rows(m, r1 as int, r2 as int),
{
    let mut out = m;
    out.set(r1, 0, m.get(r2, 0));
    out.set(r1, 1, m.get(r2, 1));
    out.set(r1, 2, m.get(r2, 2));
    out.set(r1, 3, m.get(r2, 3));
    out.set(r2, 0, m.get(r1, 0));
    out.set(r2, 1, m.get(r1, 1));
    out.set(r2, 2, m.get(r1, 2));
    out.set(r2, 3, m.get(r1, 3));
    proof {
        let target = spec_swap_rows(m, r1 as int, r2 as int);
        assert forall|i: int, j: int|
            0 <= i < 4 && 0 <= j < 4 implies #[trigger] out.entry(i, j) == target.entry(i, j) by {
        };
        lemma_mat_eq(out, target);
    }
    out
}

/// The matrix with columns `c1` and `c2` exchanged.
fn swap_cols_exec<S: Scalar>(m: Matrix4<S>, c1: usize, c2: usize) -> (r: Matrix4<S>)
    requires
        c1 < 4,
        c2 < 4,
    ensures
        r == spec_swap_cols(m, c1 as int, c2 as int),
{
    let mut out = m;
    out.set(0, c1, m.get(0, c2));
    out.set(1, c1, m.get(1, c2));
    out.set(2, c1, m.get(2, c2));
    out.set(3, c1, m.get(3, c2));
    out.set(0, c2, m.get(0, c1));
    out.set(1, c2, m.get(1, c1));
    out.set(2, c2, m.get(2, c1));
    out.set(3, c2, m.get(3, c1));
    proof {
        let target = spec_swap_cols(m, c1 as int, c2 as int);
        assert forall|i: int, j: int|
            0 <= i < 4 && 0 <= j < 4 implies #[trigger] out.entry(i, j) == target.entry(i, j) by {
        };
        lemma_mat_eq(out, target);
    }
    out
}

/// The pivot row scaled by the reciprocal of the pivot.
fn norm_row_exec<S: Scalar>(m: Matrix4<S>, icol: usize, pivinv: S) -> (r: Matrix4<S>)
    requires
        icol < 4,
    ensures
        r == spec_norm_row(m, icol as int, pivinv),
{
    let mut out = m;
    let b0 = if icol == 0 {
        S::one()
    } else {
        m.get(icol, 0)
    };
    out.set(icol, 0, b0.mul(pivinv));
    let b1 = if icol == 1 {
        S::one()
    } else {
        m.get(icol, 1)
    };
    out.set(icol, 1, b1.mul(pivinv));
    let b2 = if icol == 2 {
        S::one()
    } else {
        m.get(icol, 2)
    };
    out.set(icol, 2, b2.mul(pivinv));
    let b3 = if icol == 3 {
        S::one()
    } else {
        m.get(icol, 3)
    };
    out.set(icol, 3, b3.mul(pivinv));
    proof {
        let target = spec_norm_row(m, icol as int, pivinv);
        assert forall|i: int, j: int|
            0 <= i < 4 && 0 <= j < 4 implies #[trigger] out.entry(i, j) == target.entry(i, j) by {
        };
        lemma_mat_eq(out, target);
    }
    out
}

/// Row `j` reduced by the pivot row.
fn elim_row_exec<S: Scalar>(m: Matrix4<S>, j: usize, icol: usize) -> (r: Matrix4<S>)
    requires
        j < 4,
        icol < 4,
    ensures
        r == spec_elim_row(m, j as int, icol as int),
{
    let save = m.get(j, icol);
    let mut out = m;
    let b0 = if icol == 0 {
        S::zero()
    } else {
        m.get(j, 0)
    };
    out.set(j, 0, b0.sub(m.get(icol, 0).mul(save)));
    let b1 = if icol == 1 {
        S::zero()
    } else {
        m.get(j, 1)
    };
    out.set(j, 1, b1.sub(m.get(icol, 1).mul(save)));
    let b2 = if icol == 2 {
        S::zero()
    } else {
        m.get(j, 2)
    };
    out.set(j, 2, b2.sub(m.get(icol, 2).mul(save)));
    let b3 = if icol == 3 {
        S::zero()
    } else {
        m.get(j, 3)
    };
    out.set(j, 3, b3.sub(m.get(icol, 3).mul(save)));
    proof {
        let target = spec_elim_row(m, j as int, icol as int);
        assert forall|i: int, j: int|
            0 <= i < 4 && 0 <= j < 4 implies #[trigger] out.entry(i, j) == target.entry(i, j) by {
        };
        lemma_mat_eq(out, target);
    }
    out
}

/// Every row but the pivot row reduced, in row order.
fn elim_all_exec<S: Scalar>(m: Matrix4<S>, icol: usize) -> (r: Matrix4<S>)
    requires
        icol < 4,
    ensures
        r == spec_elim_upto(m, icol as int, 4),
{
    proof {
        reveal_with_fuel(spec_elim_upto, 5);
    }
    let mut cur = m;
    if icol != 0 {
        cur = elim_row_exec(cur, 0, icol);
    }
    if icol != 1 {
        cur = elim_row_exec(cur, 1, icol);
    }
    if icol != 2 {
        cur = elim_row_exec(cur, 2, icol);
    }
    if icol != 3 {
        cur = elim_row_exec(cur, 3, icol);
    }
    cur
}

/// One round of the elimination.
fn gj_step_exec<S: Scalar>(m: Matrix4<S>, ipiv: (u8, u8, u8, u8)) -> (r: Option<
    (Matrix4<S>, (u8, u8, u8, u8), usize, usize),
>)
    requires
        qget(ipiv, 0) < 100,
        qget(ipiv, 1) < 100,
        qget(ipiv, 2) < 100,
        qget(ipiv, 3) < 100,
    ensures
        match r {
            Some(v) => spec_gj_step(m, ipiv) == Some((v.0, v.1, v.2 as int, v.3 as int)) && v.2 < 4
                && v.3 < 4 && qget(v.1, 0) <= qget(ipiv, 0) + 1 && qget(v.1, 1) <= qget(ipiv, 1)
                + 1 && qget(v.1, 2) <= qget(ipiv, 2) + 1 && qget(v.1, 3) <= qget(ipiv, 3) + 1,
            None => spec_gj_step(m, ipiv) is None,
        },
{
    match pivot_scan_exec(&m, ipiv, 0, S::zero(), 0, 0) {
        None => None,
        Some(bic) => {
            let irow = bic.1;
            let icol = bic.2;
            let cur = qget_exec(ipiv, icol);
            let ipiv2 = qset_exec(ipiv, icol, cur + 1);
            let m1 = if irow != icol {
                swap_rows_exec(m, irow, icol)
            } else {
                m
            };
            let piv = m1.get(icol, icol);
            if piv.eq_val(S::zero()) {
                None
            } else {
                let pivinv = S::one().div(piv);
                let m2 = norm_row_exec(m1, icol, pivinv);
                let m3 = elim_all_exec(m2, icol);
                Some((m3, ipiv2, irow, icol))
            }
        },
    }
}

/// The column permutation of the four rounds undone, last round first.
fn unswap_exec<S: Scalar>(
    m: Matrix4<S>,
    indxr: (u8, u8, u8, u8),
    indxc: (u8, u8, u8, u8),
) -> (r: Matrix4<S>)
    requires
        qget(indxr, 0) < 4,
        qget(indxr, 1) < 4,
        qget(indxr, 2) < 4,
        qget(indxr, 3) < 4,
        qget(indxc, 0) < 4,
        qget(indxc, 1) < 4,
        qget(indxc, 2) < 4,
        qget(indxc, 3) < 4,
    ensures
        r == spec_unswap(m, indxr, indxc, 3),
{
    proof {
        reveal_with_fuel(spec_unswap, 6);
    }
    let mut cur = m;
    let r3 = qget_exec(indxr, 3);
    let c3 = qget_exec(indxc, 3);
    if r3 != c3 {
        cur = swap_cols_exec(cur, r3 as usize, c3 as usize);
    }
    let r2 = qget_exec(indxr, 2);
    let c2 = qget_exec(indxc, 2);
    if r2 != c2 {
        cur = swap_cols_exec(cur, r2 as usize, c2 as usize);
    }
    let r1 = qget_exec(indxr, 1);
    let c1 = qget_exec(indxc, 1);
    if r1 != c1 {
        cur = swap_cols_exec(cur, r1 as usize, c1 as usize);
    }
    let r0 = qget_exec(indxr, 0);
    let c0 = qget_exec(indxc, 0);
    if r0 != c0 {
        cur = swap_cols_exec(cur, r0 as usize, c0 as usize);
    }
    cur
}

impl<S: Scalar> Matrix4<S> {
    /// The outcome of the Gauss-Jordan elimination: the inverse matrix,
    /// or nothing when a round finds the matrix singular.
    pub open spec fn spec_inverse(self) -> Option<Matrix4<S>> {
        match spec_gj_step(self, (0u8, 0u8, 0u8, 0u8)) {
            None => None,
            Some(s1) => match spec_gj_step(s1.0, s1.1) {
                None => None,
                Some(s2) => match spec_gj_step(s2.0, s2.1) {
                    None => None,
                    Some(s3) => match spec_gj_step(s3.0, s3.1) {
                        None => None,
                        Some(s4) => Some(
                            spec_unswap(
                                s4.0,
                                (s1.2 as u8, s2.2 as u8, s3.2 as u8, s4.2 as u8),
                                (s1.3 as u8, s2.3 as u8, s3.3 as u8, s4.3 as u8),
                                3,
                            ),
                        ),
                    },
                },
            },
        }
    }

    /// Inverts the matrix by Gauss-Jordan elimination with full
    /// pivoting; a singular matrix is a recoverable failure.
    pub fn inverse(&self) -> (r: Result<Matrix4<S>, InvError>)
        ensures
            match r {
                Ok(mi) => self.spec_inverse() == Some(mi),
                Err(_) => self.spec_inverse() is None,
            },
    {
        let s1 = match gj_step_exec(*self, (0u8, 0u8, 0u8, 0u8)) {
            Some(v) => v,
            None => {
                return Err(InvError);
            },
        };
        let s2 = match gj_step_exec(s1.0, s1.1) {
            Some(v) => v,
            None => {
                return Err(InvError);
            },
        };
        let s3 = match gj_step_exec(s2.0, s2.1) {
            Some(v) => v,
            None => {
                return Err(InvError);
            },
        };
        let s4 = match gj_step_exec(s3.0, s3.1) {
            Some(v) => v,
            None => {
                return Err(InvError);
            },
        };
        let indxr = (s1.2 as u8, s2.2 as u8, s3.2 as u8, s4.2 as u8);
        let indxc = (s1.3 as u8, s2.3 as u8, s3.3 as u8, s4.3 as u8);
        Ok(unswap_exec(s4.0, indxr, indxc))
    }
}

/// An affine transform: a matrix and its precomputed inverse, kept in
/// step by every constructor.
#[derive(Clone, Copy, Debug)]
pub struct Transform<S: Scalar> {
    pub m: Matrix4<S>,
    pub m_inv: Matrix4<S>,
}

impl<S: Scalar> Transform<S> {
    /// The transform with the two matrices exchanged.
    pub open spec fn spec_inverse(self) -> Transform<S> {
        Transform { m: self.m_inv, m_inv: self.m }
    }

    /// The translation matrix moving every point by `d`.
    pub open spec fn spec_translate_mat(d: Vector3<S>) -> Matrix4<S> {
        Matrix4 {
            m00: S::spec_one(),
            m01: S::spec_zero(),
            m02: S::spec_zero(),
            m03: d.x,
            m10: S::spec_zero(),
            m11: S::spec_one(),
            m12: S::spec_zero(),
            m13: d.y,
            m20: S::spec_zero(),
            m21: S::spec_zero(),
            m22: S::spec_one(),
            m23: d.z,
            m30: S::spec_zero(),
            m31: S::spec_zero(),
            m32: S::spec_zero(),
            m33: S::spec_one(),
        }
    }

    /// The scale matrix with the three given diagonal factors.
    pub open spec fn spec_scale_mat(x: S, y: S, z: S) -> Matrix4<S> {
        Matrix4 {
            m00: x,
            m01: S::spec_zero(),
            m02: S::spec_zero(),
            m03: S::spec_zero(),
            m10: S::spec_zero(),
            m11: y,
            m12: S::spec_zero(),
            m13: S::spec_zero(),
            m20: S::spec_zero(),
            m21: S::spec_zero(),
            m22: z,
            m23: S::spec_zero(),
            m30: S::spec_zero(),
            m31: S::spec_zero(),
            m32: S::spec_zero(),
            m33: S::spec_one(),
        }
    }

    /// The rotation matrix about the x axis by `theta` degrees.
    pub open spec fn spec_rotate_x_mat(theta: S) -> Matrix4<S> {
        let st = theta.spec_to_radians().spec_sin();
        let ct = theta.spec_to_radians().spec_cos();
        Matrix4 {
            m00: S::spec_one(),
            m01: S::spec_zero(),
            m02: S::spec_zero(),
            m03: S::spec_zero(),
            m10: S::spec_zero(),
            m11: ct,
            m12: st.spec_neg(),
            m13: S::spec_zero(),
            m20: S::spec_zero(),
            m21: st,
            m22: ct,
            m23: S::spec_zero(),
            m30: S::spec_zero(),
            m31: S::spec_zero(),
            m32: S::spec_zero(),
            m33: S::spec_one(),
        }
    }

    /// The rotation matrix about the y axis by `theta` degrees.
    pub open spec fn spec_rotate_y_mat(theta: S) -> Matrix4<S> {
        let st = theta.spec_to_radians().spec_sin();
        let ct = theta.spec_to_radians().spec_cos();
        Matrix4 {
            m00: ct,
            m01: S::spec_zero(),
            m02: st,
            m03: S::spec_zero(),
            m10: S::spec_zero(),
            m11: S::spec_one(),
            m12: S::spec_zero(),
            m13: S::spec_zero(),
            m20: st.spec_neg(),
            m21: S::spec_zero(),
            m22: ct,
            m23: S::spec_zero(),
            m30: S::spec_zero(),
            m31: S::spec_zero(),
            m32: S::spec_zero(),
            m33: S::spec_one(),
        }
    }

    /// The rotation matrix about the z axis by `theta` degrees.
    pub open spec fn spec_rotate_z_mat(theta: S) -> Matrix4<S> {
        let st = theta.spec_to_radians().spec_sin();
        let ct = theta.spec_to_radians().spec_cos();
        Matrix4 {
            m00: ct,
            m01: st.spec_neg(),
            m02: S::spec_zero(),
            m03: S::spec_zero(),
            m10: st,
            m11: ct,
            m12: S::spec_zero(),
            m13: S::spec_zero(),
            m20: S::spec_zero(),
            m21: S::spec_zero(),
            m22: S::spec_one(),
            m23: S::spec_zero(),
            m30: S::spec_zero(),
            m31: S::spec_zero(),
            m32: S::spec_zero(),
            m33: S::spec_one(),
        }
    }

    /// The axis-angle rotation matrix by `theta` degrees about the
    /// normalized `axis`.
    pub open spec fn spec_rotate_mat(theta: S, axis: Vector3<S>) -> Matrix4<S> {
        let a = axis.spec_normalize();
        let st = theta.spec_to_radians().spec_sin();
        let ct = theta.spec_to_radians().spec_cos();
        let omc = S::spec_one().spec_sub(ct);
        Matrix4 {
            m00: a.x.spec_mul(a.x).spec_add(
                S::spec_one().spec_sub(a.x.spec_mul(a.x)).spec_mul(ct),
            ),
            m01: a.x.spec_mul(a.y).spec_mul(omc).spec_sub(a.z.spec_mul(st)),
            m02: a.x.spec_mul(a.z).spec_mul(omc).spec_add(a.y.spec_mul(st)),
            m03: S::spec_zero(),
            m10: a.x.spec_mul(a.y).spec_mul(omc).spec_add(a.z.spec_mul(st)),
            m11: a.y.spec_mul(a.y).spec_add(
                S::spec_one().spec_sub(a.y.spec_mul(a.y)).spec_mul(ct),
            ),
            m12: a.y.spec_mul(a.z).spec_mul(omc).spec_sub(a.x.spec_mul(st)),
            m13: S::spec_zero(),
            m20: a.x.spec_mul(a.z).spec_mul(omc).spec_sub(a.y.spec_mul(st)),
            m21: a.y.spec_mul(a.z).spec_mul(omc).spec_add(a.x.spec_mul(st)),
            m22: a.z.spec_mul(a.z).spec_add(
                S::spec_one().spec_sub(a.z.spec_mul(a.z)).spec_mul(ct),
            ),
            m23: S::spec_zero(),
            m30: S::spec_zero(),
            m31: S::spec_zero(),
            m32: S::spec_zero(),
            m33: S::spec_one(),
        }
    }

    /// The camera-to-world matrix of a look-at basis: columns are the
    /// left vector, the recomputed up vector, the view direction and the
    /// camera position.
    pub open spec fn spec_look_at_cam(pos: Point3<S>, look: Point3<S>, up: Vector3<S>) -> Matrix4<
        S,
    > {
        let dir = look.spec_sub(pos).spec_normalize();
        let left = up.spec_normalize().spec_cross(dir).spec_normalize();
        let new_up = dir.spec_cross(left);
        Matrix4 {
            m00: left.x,
            m01: new_up.x,
            m02: dir.x,
            m03: pos.x,
            m10: left.y,
            m11: new_up.y,
            m12: dir.y,
            m13: pos.y,
            m20: left.z,
            m21: new_up.z,
            m22: dir.z,
            m23: pos.z,
            m30: S::spec_zero(),
            m31: S::spec_zero(),
            m32: S::spec_zero(),
            m33: S::spec_one(),
        }
    }

    /// When the look-at basis can be formed: every normalization along
    /// the way divides by a nonzero numeric length.
    pub open spec fn look_at_req(pos: Point3<S>, look: Point3<S>, up: Vector3<S>) -> bool {
        pos.wf() && look.wf() && up.wf() && look.spec_sub(pos).normalize_req()
            && up.normalize_req() && up.spec_normalize().spec_cross(
            look.spec_sub(pos).spec_normalize(),
        ).normalize_req()
    }

    /// The scalar in row `i` of the homogeneous application to a point.
    pub open spec fn spec_point_row(self, p: Point3<S>, i: int) -> S {
        self.m.entry(i, 0).spec_mul(p.x).spec_add(self.m.entry(i, 1).spec_mul(p.y)).spec_add(
            self.m.entry(i, 2).spec_mul(p.z),
        ).spec_add(self.m.entry(i, 3))
    }

    /// The transformed point: the homogeneous image, perspective-divided
    /// when its weight is not one.
    pub open spec fn spec_apply_point(self, p: Point3<S>) -> Point3<S> {
        let q = Point3 {
            x: self.spec_point_row(p, 0),
            y: self.spec_point_row(p, 1),
            z: self.spec_point_row(p, 2),
        };
        let wp = self.spec_point_row(p, 3);
        if wp == S::spec_one() {
            q
        } else {
            q.spec_div(wp)
        }
    }

    /// When a point can be transformed: the image coordinates are
    /// numbers, and a weight other than one is a nonzero number.
    pub open spec fn apply_point_req(self, p: Point3<S>) -> bool {
        !self.spec_point_row(p, 0).spec_is_nan() && !self.spec_point_row(p, 1).spec_is_nan()
            && !self.spec_point_row(p, 2).spec_is_nan() && (self.spec_point_row(p, 3)
            == S::spec_one() || (!self.spec_point_row(p, 3).spec_is_nan() && self.spec_point_row(
            p,
            3,
        ) != S::spec_zero()))
    }

    /// The scalar in row `i` of the linear application to a vector.
    pub open spec fn spec_vector_row(self, v: Vector3<S>, i: int) -> S {
        self.m.entry(i, 0).spec_mul(v.x).spec_add(self.m.entry(i, 1).spec_mul(v.y)).spec_add(
            self.m.entry(i, 2).spec_mul(v.z),
        )
    }

    /// The transformed vector: the linear part alone, no translation
    /// and no perspective divide.
    pub open spec fn spec_apply_vector(self, v: Vector3<S>) -> Vector3<S> {
        Vector3 {
            x: self.spec_vector_row(v, 0),
            y: self.spec_vector_row(v, 1),
            z: self.spec_vector_row(v, 2),
        }
    }

    /// When a vector can be transformed: the image coordinates are
    /// numbers.
    pub open spec fn apply_vector_req(self, v: Vector3<S>) -> bool {
        !self.spec_vector_row(v, 0).spec_is_nan() && !self.spec_vector_row(v, 1).spec_is_nan()
            && !self.spec_vector_row(v, 2).spec_is_nan()
    }

    /// The scalar in column `i` of the inverse-transpose application to
    /// a normal.
    pub open spec fn spec_normal_row(self, n: Normal3<S>, i: int) -> S {
        self.m_inv.entry(0, i).spec_mul(n.x).spec_add(
            self.m_inv.entry(1, i).spec_mul(n.y),
        ).spec_add(self.m_inv.entry(2, i).spec_mul(n.z))
    }

    /// The transformed normal, by the inverse matrix applied with its
    /// indices swapped, so that normals stay perpendicular to
    /// transformed surfaces.
    pub open spec fn spec_apply_normal(self, n: Normal3<S>) -> Normal3<S> {
        Normal3 {
            x: self.spec_normal_row(n, 0),
            y: self.spec_normal_row(n, 1),
            z: self.spec_normal_row(n, 2),
        }
    }

    /// When a normal can be transformed: the image coordinates are
    /// numbers.
    pub open spec fn apply_normal_req(self, n: Normal3<S>) -> bool {
        !self.spec_normal_row(n, 0).spec_is_nan() && !self.spec_normal_row(n, 1).spec_is_nan()
            && !self.spec_normal_row(n, 2).spec_is_nan()
    }

    /// Builds a transform from an arbitrary matrix, inverting it by
    /// elimination; a singular matrix is a recoverable failure.
    pub fn new(m: Matrix4<S>) -> (r: Result<Transform<S>, InvError>)
        ensures
            match r {
                Ok(t) => t.m == m && m.spec_inverse() == Some(t.m_inv),
                Err(_) => m.spec_inverse() is None,
            },
    {
        let m_inv = match m.inverse() {
            Ok(mi) => mi,
            Err(e) => {
                return Err(e);
            },
        };
        Ok(Transform { m, m_inv })
    }

    /// Builds a transform from a matrix and its already known inverse,
    /// taken on the caller's word.
    pub fn from(m: &Matrix4<S>, m_inv: &Matrix4<S>) -> (r: Self)
        ensures
            r.m == *m,
            r.m_inv == *m_inv,
    {
        Transform { m: *m, m_inv: *m_inv }
    }

    /// The inverse transform: the two matrices exchanged, nothing
    /// recomputed.
    pub fn inverse(&self) -> (r: Self)
        ensures
            r == self.spec_inverse(),
    {
        Transform { m: self.m_inv, m_inv: self.m }
    }

    /// The translation by `delta`; its inverse translates back.
    pub fn translate(delta: &Vector3<S>) -> (r: Self)
        ensures
            r.m == Self::spec_translate_mat(*delta),
            r.m_inv == Self::spec_translate_mat(delta.spec_neg()),
    {
        let m = Matrix4::from_values(
            S::one(),
            S::zero(),
            S::zero(),
            delta.x,
            S::zero(),
            S::one(),
            S::zero(),
            delta.y,
            S::zero(),
            S::zero(),
            S::one(),
            delta.z,
            S::zero(),
            S::zero(),
            S::zero(),
            S::one(),
        );
        let m_inv = Matrix4::from_values(
            S::one(),
            S::zero(),
            S::zero(),
            delta.x.neg(),
            S::zero(),
            S::one(),
            S::zero(),
            delta.y.neg(),
            S::zero(),
            S::zero(),
            S::one(),
            delta.z.neg(),
            S::zero(),
            S::zero(),
            S::zero(),
            S::one(),
        );
        Transform { m, m_inv }
    }

    /// The scale by the three factors; its inverse scales by their
    /// reciprocals.
    pub fn scale(x: S, y: S, z: S) -> (r: Self)
        ensures
            r.m == Self::spec_scale_mat(x, y, z),
            r.m_inv == Self::spec_scale_mat(x.spec_recip(), y.spec_recip(), z.spec_recip()),
    {
        let m = Matrix4::from_values(
            x,
            S::zero(),
            S::zero(),
            S::zero(),
            S::zero(),
            y,
            S::zero(),
            S::zero(),
            S::zero(),
            S::zero(),
            z,
            S::zero(),
            S::zero(),
            S::zero(),
            S::zero(),
            S::one(),
        );
        let m_inv = Matrix4::from_values(
            x.recip(),
            S::zero(),
            S::zero(),
            S::zero(),
            S::zero(),
            y.recip(),
            S::zero(),
            S::zero(),
            S::zero(),
            S::zero(),
            z.recip(),
            S::zero(),
            S::zero(),
            S::zero(),
            S::zero(),
            S::one(),
        );
        Transform { m, m_inv }
    }

    /// The rotation about the x axis by `theta` degrees; rotations are
    /// orthonormal, so the inverse is the transpose.
    pub fn rotate_x(theta: S) -> (r: Self)
        ensures
            r.m == Self::spec_rotate_x_mat(theta),
            r.m_inv == Self::spec_rotate_x_mat(theta).spec_transpose(),
    {
        let sin_theta = radians(theta).sin();
        let cos_theta = radians(theta).cos();
        let m = Matrix4::from_values(
            S::one(),
            S::zero(),
            S::zero(),
            S::zero(),
            S::zero(),
            cos_theta,
            sin_theta.neg(),
            S::zero(),
            S::zero(),
            sin_theta,
            cos_theta,
            S::zero(),
            S::zero(),
            S::zero(),
            S::zero(),
            S::one(),
        );
        let m_inv = m.transpose();
        Transform { m, m_inv }
    }

    /// The rotation about the y axis by `theta` degrees.
    pub fn rotate_y(theta: S) -> (r: Self)
        ensures
            r.m == Self::spec_rotate_y_mat(theta),
            r.m_inv == Self::spec_rotate_y_mat(theta).spec_transpose(),
    {
        let sin_theta = radians(theta).sin();
        let cos_theta = radians(theta).cos();
        let m = Matrix4::from_values(
            cos_theta,
            S::zero(),
            sin_theta,
            S::zero(),
            S::zero(),
            S::one(),
            S::zero(),
            S::zero(),
            sin_theta.neg(),
            S::zero(),
            cos_theta,
            S::zero(),
            S::zero(),
            S::zero(),
            S::zero(),
            S::one(),
        );
        let m_inv = m.transpose();
        Transform { m, m_inv }
    }

    /// The rotation about the z axis by `theta` degrees.
    pub fn rotate_z(theta: S) -> (r: Self)
        ensures
            r.m == Self::spec_rotate_z_mat(theta),
            r.m_inv == Self::spec_rotate_z_mat(theta).spec_transpose(),
    {
        let sin_theta = radians(theta).sin();
        let cos_theta = radians(theta).cos();
        let m = Matrix4::from_values(
            cos_theta,
            sin_theta.neg(),
            S::zero(),
            S::zero(),
            sin_theta,
            cos_theta,
            S::zero(),
            S::zero(),
            S::zero(),
            S::zero(),
            S::one(),
            S::zero(),
            S::zero(),
            S::zero(),
            S::zero(),
            S::one(),
        );
        let m_inv = m.transpose();
        Transform { m, m_inv }
    }

    /// The axis-angle rotation by `theta` degrees about `axis`, which is
    /// normalized first; the inverse is the transpose.
    pub fn rotate(theta: S, axis: &Vector3<S>) -> (r: Self)
        requires
            axis.normalize_req(),
        ensures
            r.m == Self::spec_rotate_mat(theta, *axis),
            r.m_inv == Self::spec_rotate_mat(theta, *axis).spec_transpose(),
    {
        proof {
            lemma_normalize_wf(*axis);
        }
        let a = Vector::normalize(axis);
        let sin_theta = radians(theta).sin();
        let cos_theta = radians(theta).cos();
        let omc = S::one().sub(cos_theta);
        let m = Matrix4::from_values(
            a.x.mul(a.x).add(S::one().sub(a.x.mul(a.x)).mul(cos_theta)),
            a.x.mul(a.y).mul(omc).sub(a.z.mul(sin_theta)),
            a.x.mul(a.z).mul(omc).add(a.y.mul(sin_theta)),
            S::zero(),
            a.x.mul(a.y).mul(omc).add(a.z.mul(sin_theta)),
            a.y.mul(a.y).add(S::one().sub(a.y.mul(a.y)).mul(cos_theta)),
            a.y.mul(a.z).mul(omc).sub(a.x.mul(sin_theta)),
            S::zero(),
            a.x.mul(a.z).mul(omc).sub(a.y.mul(sin_theta)),
            a.y.mul(a.z).mul(omc).add(a.x.mul(sin_theta)),
            a.z.mul(a.z).add(S::one().sub(a.z.mul(a.z)).mul(cos_theta)),
            S::zero(),
            S::zero(),
            S::zero(),
            S::zero(),
            S::one(),
        );
        let m_inv = m.transpose();
        Transform { m, m_inv }
    }

    /// Builds the world-to-camera transform of a camera standing at
    /// `pos` and looking toward `look` with `up` overhead: the
    /// camera-to-world basis is assembled column by column and inverted
    /// by elimination, a failure of which is reported to the caller.
    pub fn look_at(pos: &Point3<S>, look: &Point3<S>, up: &Vector3<S>) -> (r: Result<
        Transform<S>,
        InvError,
    >)
        requires
            Self::look_at_req(*pos, *look, *up),
        ensures
            match r {
                Ok(t) => t.m_inv == Self::spec_look_at_cam(*pos, *look, *up)
                    && Self::spec_look_at_cam(*pos, *look, *up).spec_inverse() == Some(t.m),
                Err(_) => Self::spec_look_at_cam(*pos, *look, *up).spec_inverse() is None,
            },
    {
        proof {
            lemma_normalize_wf((*look).spec_sub(*pos));
            lemma_normalize_wf(*up);
            lemma_normalize_wf(
                up.spec_normalize().spec_cross((*look).spec_sub(*pos).spec_normalize()),
            );
        }
        let dir = Vector::normalize(&(*look).sub(*pos));
        let normed_up = Vector::normalize(up);
        let left = Vector::normalize(&normed_up.cross(&dir));
        let new_up = dir.cross(&left);
        let c_t_w = Matrix4::from_values(
            left.x,
            new_up.x,
            dir.x,
            pos.x,
            left.y,
            new_up.y,
            dir.y,
            pos.y,
            left.z,
            new_up.z,
            dir.z,
            pos.z,
            S::zero(),
            S::zero(),
            S::zero(),
            S::one(),
        );
        let w_t_c = match c_t_w.inverse() {
            Ok(mi) => mi,
            Err(e) => {
                return Err(e);
            },
        };
        Ok(Transform { m: w_t_c, m_inv: c_t_w })
    }

    /// The composition applying `rhs` first and `self` second on the
    /// forward side; the inverses multiply in the reverse order, so the
    /// pair stays in step without recomputation.
    pub fn mul(&self, rhs: &Transform<S>) -> (r: Transform<S>)
        ensures
            r.m == self.m.spec_matmul(rhs.m),
            r.m_inv == rhs.m_inv.spec_matmul(self.m_inv),
    {
        let m = self.m.mul(&rhs.m);
        let m_inv = rhs.m_inv.mul(&self.m_inv);
        Transform { m, m_inv }
    }

    /// Applies the transform to a point, with the perspective divide
    /// when the homogeneous weight is not one.
    pub fn apply_point(&self, p: &Point3<S>) -> (r: Point3<S>)
        requires
            self.apply_point_req(*p),
        ensures
            r == self.spec_apply_point(*p),
    {
        let x = self.m.get(0, 0).mul(p.x).add(self.m.get(0, 1).mul(p.y)).add(
            self.m.get(0, 2).mul(p.z),
        ).add(self.m.get(0, 3));
        let y = self.m.get(1, 0).mul(p.x).add(self.m.get(1, 1).mul(p.y)).add(
            self.m.get(1, 2).mul(p.z),
        ).add(self.m.get(1, 3));
        let z = self.m.get(2, 0).mul(p.x).add(self.m.get(2, 1).mul(p.y)).add(
            self.m.get(2, 2).mul(p.z),
        ).add(self.m.get(2, 3));
        let wp = self.m.get(3, 0).mul(p.x).add(self.m.get(3, 1).mul(p.y)).add(
            self.m.get(3, 2).mul(p.z),
        ).add(self.m.get(3, 3));
        let q = Point3::new(x, y, z);
        if wp.eq_val(S::one()) {
            q
        } else {
            q.div(wp)
        }
    }

    /// Applies the linear part of the transform to a vector.
    pub fn apply_vector(&self, v: &Vector3<S>) -> (r: Vector3<S>)
        requires
            self.apply_vector_req(*v),
        ensures
            r == self.spec_apply_vector(*v),
    {
        let x = self.m.get(0, 0).mul(v.x).add(self.m.get(0, 1).mul(v.y)).add(
            self.m.get(0, 2).mul(v.z),
        );
        let y = self.m.get(1, 0).mul(v.x).add(self.m.get(1, 1).mul(v.y)).add(
            self.m.get(1, 2).mul(v.z),
        );
        let z = self.m.get(2, 0).mul(v.x).add(self.m.get(2, 1).mul(v.y)).add(
            self.m.get(2, 2).mul(v.z),
        );
        Vector3::new(x, y, z)
    }

    /// Applies the transform to a surface normal by the inverse matrix
    /// with its indices swapped, the inverse-transpose rule.
    pub fn apply_normal(&self, n: &Normal3<S>) -> (r: Normal3<S>)
        requires
            self.apply_normal_req(*n),
        ensures
            r == self.spec_apply_normal(*n),
    {
        let x = self.m_inv.get(0, 0).mul(n.x).add(self.m_inv.get(1, 0).mul(n.y)).add(
            self.m_inv.get(2, 0).mul(n.z),
        );
        let y = self.m_inv.get(0, 1).mul(n.x).add(self.m_inv.get(1, 1).mul(n.y)).add(
            self.m_inv.get(2, 1).mul(n.z),
        );
        let z = self.m_inv.get(0, 2).mul(n.x).add(self.m_inv.get(1, 2).mul(n.y)).add(
            self.m_inv.get(2, 2).mul(n.z),
        );
        Normal3::new(x, y, z)
    }
}

/// Taking the inverse of a transform twice gives back the very pair of
/// matrices it started with: the exchange is an involution.
pub proof fn lemma_transform_inverse_involution<S: Scalar>(t: Transform<S>)
    ensures
        t.spec_inverse().spec_inverse() == t,
{
}

} // verus!
