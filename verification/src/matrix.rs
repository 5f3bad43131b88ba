//! The dense, row-major rectangular container of double-precision scalars
//! (carried as 64-bit patterns, see `scalar`) and its algebra. Every
//! operation returns a new matrix; shape rules are stated exactly, and each
//! result cell is pinned, up to NaN normalization, to a formula over the
//! named scalar operations.

use vstd::prelude::*;
use vstd::pervasive::unreached;
use vstd::string::StringExecFns;

use crate::error::NnError;
use crate::scalar::{
    add_bits, bits_of_usize, div_bits, exp_bits, is_finite_bits, le_bits, lt_bits, mag_bits,
    mul_bits, neg_bits, norm_bits, scalar_text, sign_bits, sqrt_bits, sub_bits, usize_text,
    fp_add, fp_div, fp_exp, fp_mul, fp_of_usize, fp_sample_normal, fp_sample_uniform, fp_sqrt,
    fp_sub, fmt_scalar, fmt_usize, BOUNDED_MAG_BITS, ONE_BITS, SIGN_MASK, SIX_BITS, TWO_BITS,
    ZERO_BITS,
};

verus! {

broadcast use crate::scalar::lemma_norm_bits_idempotent, crate::scalar::lemma_norm_neg;

/// A row with every NaN collapsed to the canonical quiet pattern.
pub open spec fn norm_row(s: Seq<u64>) -> Seq<u64> {
    Seq::new(s.len(), |j: int| norm_bits(s[j]))
}

/// A grid with every NaN collapsed to the canonical quiet pattern: the
/// view the arithmetic contracts speak of, since a NaN cell's exact bits
/// are machine-chosen.
pub open spec fn canon(s: Seq<Seq<u64>>) -> Seq<Seq<u64>> {
    Seq::new(s.len(), |i: int| norm_row(s[i]))
}

/// A `rows` by `cols` grid of scalars. The backing storage holds one inner
/// vector per row, each of length `cols`; `wf` states that shape invariant.
#[derive(Debug, PartialEq)]
pub struct Matrix {
    pub rows: usize,
    pub cols: usize,
    pub data: Vec<Vec<u64>>,
}

impl View for Matrix {
    type V = Seq<Seq<u64>>;

    open spec fn view(&self) -> Seq<Seq<u64>> {
        Seq::new(self.data@.len(), |i: int| self.data@[i]@)
    }
}

/// The grid whose cell `(i, j)` is `f(i, j)`.
pub open spec fn cellwise(rows: nat, cols: nat, f: spec_fn(int, int) -> u64) -> Seq<Seq<u64>> {
    Seq::new(rows, |i: int| Seq::new(cols, |j: int| f(i, j)))
}

/// A rectangular grid of the given shape.
pub open spec fn grid_wf(a: Seq<Seq<u64>>, rows: nat, cols: nat) -> bool {
    a.len() == rows && forall|i: int| 0 <= i < a.len() ==> (#[trigger] a[i]).len() == cols
}

/// The element-wise combinations two equal-shaped matrices admit.
#[derive(Clone, Copy, Debug, PartialEq, Eq, Structural)]
pub enum EwOp {
    Add,
    Sub,
    Mul,
    Div,
}

/// What one cell of an element-wise combination holds.
pub open spec fn ew2_apply(op: EwOp, x: u64, y: u64) -> u64 {
    match op {
        EwOp::Add => add_bits(x, y),
        EwOp::Sub => sub_bits(x, y),
        EwOp::Mul => mul_bits(x, y),
        EwOp::Div => div_bits(x, y),
    }
}

/// The cell-by-cell combination of two grids, shaped like the first.
pub open spec fn ew2_grid(op: EwOp, a: Seq<Seq<u64>>, b: Seq<Seq<u64>>) -> Seq<Seq<u64>> {
    Seq::new(a.len(), |i: int| Seq::new(a[i].len(), |j: int| ew2_apply(op, a[i][j], b[i][j])))
}

/// The grid with `op` applied between every cell of `a` and the scalar `s`.
pub open spec fn sc_grid(op: EwOp, a: Seq<Seq<u64>>, s: u64) -> Seq<Seq<u64>> {
    Seq::new(a.len(), |i: int| Seq::new(a[i].len(), |j: int| ew2_apply(op, a[i][j], s)))
}

/// The grid with `op` applied between the scalar `s` and every cell of `a`,
/// in that operand order.
pub open spec fn scl_grid(op: EwOp, s: u64, a: Seq<Seq<u64>>) -> Seq<Seq<u64>> {
    Seq::new(a.len(), |i: int| Seq::new(a[i].len(), |j: int| ew2_apply(op, s, a[i][j])))
}

/// The cell-by-cell maps a matrix admits.
#[derive(Clone, Copy, Debug, PartialEq, Eq, Structural)]
pub enum UnOp {
    /// The base-e exponential of the cell.
    Exp,
    /// The square root of the cell.
    Sqrt,
    /// The logistic function `1 / (1 + e^-x)` of the cell.
    Sigmoid,
    /// `s * (1 - s)` for `s` the logistic function of the cell.
    SigmoidDerivative,
    /// `x * (1 - x)` of the cell itself, for cells that already hold a
    /// logistic output.
    SigmoidDerivativeFromOutput,
}

/// The logistic function of one scalar, as the library computes it.
pub open spec fn sig_cell(x: u64) -> u64 {
    div_bits(ONE_BITS, add_bits(ONE_BITS, exp_bits(neg_bits(x))))
}

/// `s * (1 - s)` of one scalar `s`.
pub open spec fn self_times_one_minus(s: u64) -> u64 {
    mul_bits(s, sub_bits(ONE_BITS, s))
}

/// What one cell of a cell-by-cell map holds.
pub open spec fn un_apply(op: UnOp, x: u64) -> u64 {
    match op {
        UnOp::Exp => exp_bits(x),
        UnOp::Sqrt => sqrt_bits(x),
        UnOp::Sigmoid => sig_cell(x),
        UnOp::SigmoidDerivative => self_times_one_minus(sig_cell(x)),
        UnOp::SigmoidDerivativeFromOutput => self_times_one_minus(x),
    }
}

/// The cell-by-cell map of a grid.
pub open spec fn un_grid(op: UnOp, a: Seq<Seq<u64>>) -> Seq<Seq<u64>> {
    Seq::new(a.len(), |i: int| Seq::new(a[i].len(), |j: int| un_apply(op, a[i][j])))
}

/// The transpose of a `rows` by `cols` grid.
pub open spec fn transpose_grid(a: Seq<Seq<u64>>, rows: nat, cols: nat) -> Seq<Seq<u64>> {
    cellwise(cols, rows, |i: int, j: int| a[j][i])
}

/// Transposing twice gives back the original grid, for every rectangular
/// grid of every shape.
pub proof fn lemma_transpose_involution(a: Seq<Seq<u64>>, rows: nat, cols: nat)
    requires
        grid_wf(a, rows, cols),
    ensures
        transpose_grid(transpose_grid(a, rows, cols), cols, rows) == a,
{
    assert(transpose_grid(transpose_grid(a, rows, cols), cols, rows) =~~= a);
}

/// The sum a matrix-product cell accumulates: `k` products added left to
/// right onto an initial zero, in index order.
pub open spec fn dot_cell(a: Seq<Seq<u64>>, b: Seq<Seq<u64>>, i: int, j: int, k: int) -> u64
    decreases k,
{
    if k <= 0 {
        ZERO_BITS
    } else {
        add_bits(dot_cell(a, b, i, j, k - 1), mul_bits(a[i][k - 1], b[k - 1][j]))
    }
}

/// The true matrix product of a `rows` by `inner` grid with an `inner` by
/// `cols` grid.
pub open spec fn dot_grid(a: Seq<Seq<u64>>, b: Seq<Seq<u64>>, rows: nat, inner: nat, cols: nat) -> Seq<Seq<u64>> {
    cellwise(rows, cols, |i: int, j: int| dot_cell(a, b, i, j, inner as int))
}

/// The sum of the first `k` cells of column `j`, added top to bottom onto an
/// initial zero.
pub open spec fn col_sum(a: Seq<Seq<u64>>, j: int, k: int) -> u64
    decreases k,
{
    if k <= 0 {
        ZERO_BITS
    } else {
        add_bits(col_sum(a, j, k - 1), a[k - 1][j])
    }
}

/// The sum of the first `k` cells of row `i`, added left to right onto an
/// initial zero.
pub open spec fn row_sum(a: Seq<Seq<u64>>, i: int, k: int) -> u64
    decreases k,
{
    if k <= 0 {
        ZERO_BITS
    } else {
        add_bits(row_sum(a, i, k - 1), a[i][k - 1])
    }
}

/// A product cell only reads the right grid's cells through `norm_bits`,
/// so grids that agree up to NaN normalization give the same fold.
pub proof fn lemma_dot_cell_norm_right(a: Seq<Seq<u64>>, b1: Seq<Seq<u64>>, b2: Seq<Seq<u64>>, i: int, j: int, k: int)
    requires
        forall|p: int| 0 <= p < k ==> norm_bits(#[trigger] b1[p][j]) == norm_bits(b2[p][j]),
    ensures
        dot_cell(a, b1, i, j, k) == dot_cell(a, b2, i, j, k),
    decreases k,
{
    if k > 0 {
        lemma_dot_cell_norm_right(a, b1, b2, i, j, k - 1);
    }
}

/// As `lemma_dot_cell_norm_right`, for the left grid.
pub proof fn lemma_dot_cell_norm_left(a1: Seq<Seq<u64>>, a2: Seq<Seq<u64>>, b: Seq<Seq<u64>>, i: int, j: int, k: int)
    requires
        forall|p: int| 0 <= p < k ==> norm_bits(#[trigger] a1[i][p]) == norm_bits(a2[i][p]),
    ensures
        dot_cell(a1, b, i, j, k) == dot_cell(a2, b, i, j, k),
    decreases k,
{
    if k > 0 {
        lemma_dot_cell_norm_left(a1, a2, b, i, j, k - 1);
    }
}

/// A column sum only reads its cells through `norm_bits`.
pub proof fn lemma_col_sum_norm(a1: Seq<Seq<u64>>, a2: Seq<Seq<u64>>, j: int, k: int)
    requires
        forall|p: int| 0 <= p < k ==> norm_bits(#[trigger] a1[p][j]) == norm_bits(a2[p][j]),
    ensures
        col_sum(a1, j, k) == col_sum(a2, j, k),
    decreases k,
{
    if k > 0 {
        lemma_col_sum_norm(a1, a2, j, k - 1);
    }
}

/// The two dimensions a reduction can collapse.
#[derive(Clone, Copy, Debug, PartialEq, Eq, Structural)]
pub enum Axis {
    /// Collapse the row dimension: each column is summed, giving one row.
    Rows,
    /// Collapse the column dimension: each row is summed, giving one column.
    Cols,
}

/// The index a repeated source dimension of extent `d` contributes.
pub open spec fn bidx(d: nat, i: int) -> int {
    if d == 1 {
        0
    } else {
        i
    }
}

/// The `rows` by `cols` grid read off a source of shape `srows` by `scols`
/// whose unit dimensions repeat.
pub open spec fn broadcast_grid(a: Seq<Seq<u64>>, srows: nat, scols: nat, rows: nat, cols: nat) -> Seq<Seq<u64>> {
    cellwise(rows, cols, |i: int, j: int| a[bidx(srows, i)][bidx(scols, j)])
}

/// Column `j` of a grid with `rows` rows, as a flat sequence.
pub open spec fn column_of(a: Seq<Seq<u64>>, rows: nat, j: int) -> Seq<u64> {
    Seq::new(rows, |i: int| a[i][j])
}

/// The grid of shape `rows` by `cols` holding `v` everywhere.
pub open spec fn const_grid(rows: nat, cols: nat, v: u64) -> Seq<Seq<u64>> {
    cellwise(rows, cols, |i: int, j: int| v)
}

/// The heading line of a rendered matrix.
pub open spec fn header_text(rows: usize, cols: usize) -> Seq<char> {
    "Matrix "@ + usize_text(rows) + "x"@ + usize_text(cols) + ":\n"@
}

/// The first `k` cells of row `i` rendered, each followed by a tab.
pub open spec fn row_text(a: Seq<Seq<u64>>, i: int, k: int) -> Seq<char>
    decreases k,
{
    if k <= 0 {
        Seq::empty()
    } else {
        row_text(a, i, k - 1) + scalar_text(a[i][k - 1]) + "\t"@
    }
}

/// The first `r` rows rendered, each followed by a line break.
pub open spec fn body_text(a: Seq<Seq<u64>>, r: int, cols: int) -> Seq<char>
    decreases r,
{
    if r <= 0 {
        Seq::empty()
    } else {
        body_text(a, r - 1, cols) + row_text(a, r - 1, cols) + "\n"@
    }
}

/// The identity grid: one on the diagonal, zero elsewhere.
pub open spec fn identity_grid(n: nat) -> Seq<Seq<u64>> {
    cellwise(n, n, |i: int, j: int| if i == j { ONE_BITS } else { ZERO_BITS })
}

impl Matrix {
    /// The backing storage is rectangular and agrees with the recorded shape.
    pub open spec fn wf(&self) -> bool {
        grid_wf(self@, self.rows as nat, self.cols as nat)
    }

    /// Returns the shape of the matrix.
    pub fn shape(&self) -> (r: (usize, usize))
        ensures
            r == (self.rows, self.cols),
    {
        (self.rows, self.cols)
    }

    /// Creates a matrix where all the cells hold the value `elem`.
    pub fn constant_matrix(nrows: usize, ncols: usize, elem: u64) -> (r: Matrix)
        ensures
            r.wf(),
            r.rows == nrows,
            r.cols == ncols,
            r@ == const_grid(nrows as nat, ncols as nat, elem),
    {
        let mut data: Vec<Vec<u64>> = Vec::new();
        let mut i: usize = 0;
        while i < nrows
            invariant
                i <= nrows,
                data@.len() == i,
                forall|p: int| 0 <= p < i ==> #[trigger] data@[p]@ == Seq::new(ncols as nat, |q: int| elem),
            decreases nrows - i,
        {
            let mut row: Vec<u64> = Vec::new();
            let mut j: usize = 0;
            while j < ncols
                invariant
                    j <= ncols,
                    row@.len() == j,
                    forall|q: int| 0 <= q < j ==> row@[q] == elem,
                decreases ncols - j,
            {
                row.push(elem);
                j += 1;
            }
            proof {
                assert(row@ =~= Seq::new(ncols as nat, |q: int| elem));
            }
            data.push(row);
            i += 1;
        }
        let m = Matrix { rows: nrows, cols: ncols, data };
        proof {
            assert(m@ =~~= const_grid(nrows as nat, ncols as nat, elem));
        }
        m
    }

    /// Creates a matrix filled with zeros.
    pub fn zeros(nrows: usize, ncols: usize) -> (r: Matrix)
        ensures
            r.wf(),
            r.rows == nrows,
            r.cols == ncols,
            r@ == const_grid(nrows as nat, ncols as nat, ZERO_BITS),
    {
        Matrix::constant_matrix(nrows, ncols, ZERO_BITS)
    }

    /// Creates a matrix where all the cells hold one.
    pub fn ones(nrows: usize, ncols: usize) -> (r: Matrix)
        ensures
            r.wf(),
            r.rows == nrows,
            r.cols == ncols,
            r@ == const_grid(nrows as nat, ncols as nat, ONE_BITS),
    {
        Matrix::constant_matrix(nrows, ncols, ONE_BITS)
    }

    /// Creates the `n` by `n` identity matrix: one on the diagonal and zero
    /// elsewhere; for `n == 0` it is the empty matrix.
    pub fn identity(n: usize) -> (r: Matrix)
        ensures
            r.wf(),
            r.rows == n,
            r.cols == n,
            r@ == identity_grid(n as nat),
    {
        let mut data: Vec<Vec<u64>> = Vec::new();
        let mut i: usize = 0;
        while i < n
            invariant
                i <= n,
                data@.len() == i,
                forall|p: int| 0 <= p < i ==> #[trigger] data@[p]@ == identity_grid(n as nat)[p],
            decreases n - i,
        {
            let mut row: Vec<u64> = Vec::new();
            let mut j: usize = 0;
            while j < n
                invariant
                    j <= n,
                    i < n,
                    row@.len() == j,
                    forall|q: int| 0 <= q < j ==> row@[q] == (if i == q { ONE_BITS } else { ZERO_BITS }),
                decreases n - j,
            {
                if j == i {
                    row.push(ONE_BITS);
                } else {
                    row.push(ZERO_BITS);
                }
                j += 1;
            }
            proof {
                assert(row@ =~= identity_grid(n as nat)[i as int]);
            }
            data.push(row);
            i += 1;
        }
        let m = Matrix { rows: n, cols: n, data };
        proof {
            assert(m@ =~~= identity_grid(n as nat));
        }
        m
    }
}

/// One scalar of an element-wise combination.
fn apply2(op: EwOp, x: u64, y: u64) -> (r: u64)
    ensures
        norm_bits(r) == ew2_apply(op, x, y),
{
    match op {
        EwOp::Add => fp_add(x, y),
        EwOp::Sub => fp_sub(x, y),
        EwOp::Mul => fp_mul(x, y),
        EwOp::Div => fp_div(x, y),
    }
}

/// One scalar of a cell-by-cell map.
fn apply_un(op: UnOp, x: u64) -> (r: u64)
    ensures
        norm_bits(r) == un_apply(op, x),
{
    match op {
        UnOp::Exp => fp_exp(x),
        UnOp::Sqrt => fp_sqrt(x),
        UnOp::Sigmoid => fp_div(ONE_BITS, fp_add(ONE_BITS, fp_exp(x ^ SIGN_MASK))),
        UnOp::SigmoidDerivative => {
            let s = fp_div(ONE_BITS, fp_add(ONE_BITS, fp_exp(x ^ SIGN_MASK)));
            fp_mul(s, fp_sub(ONE_BITS, s))
        },
        UnOp::SigmoidDerivativeFromOutput => fp_mul(x, fp_sub(ONE_BITS, x)),
    }
}

impl Matrix {
    /// The shared loop behind the four element-wise combinations: succeeds
    /// exactly on equal shapes.
    fn ew2(&self, other: &Matrix, op: EwOp) -> (r: Result<Matrix, NnError>)
        requires
            self.wf(),
            other.wf(),
        ensures
            match r {
                Ok(m) => self.rows == other.rows && self.cols == other.cols && m.wf()
                    && m.rows == self.rows && m.cols == self.cols
                    && canon(m@) == ew2_grid(op, self@, other@),
                Err(e) => e == NnError::ShapeMismatch
                    && !(self.rows == other.rows && self.cols == other.cols),
            },
    {
        if self.rows != other.rows || self.cols != other.cols {
            return Err(NnError::ShapeMismatch);
        }
        let mut data: Vec<Vec<u64>> = Vec::new();
        let mut i: usize = 0;
        while i < self.rows
            invariant
                self.wf(),
                other.wf(),
                self.rows == other.rows,
                self.cols == other.cols,
                i <= self.rows,
                data@.len() == i,
                forall|p: int| 0 <= p < i ==> (#[trigger] data@[p]@).len() == self.cols,
                forall|p: int| 0 <= p < i ==> #[trigger] norm_row(data@[p]@) == ew2_grid(op, self@, other@)[p],
            decreases self.rows - i,
        {
            let mut row: Vec<u64> = Vec::new();
            let mut j: usize = 0;
            while j < self.cols
                invariant
                    self.wf(),
                    other.wf(),
                    self.rows == other.rows,
                    self.cols == other.cols,
                    i < self.rows,
                    j <= self.cols,
                    row@.len() == j,
                    forall|q: int| 0 <= q < j ==> norm_bits(row@[q]) == ew2_apply(op, self@[i as int][q], other@[i as int][q]),
                decreases self.cols - j,
            {
                proof {
                    assert(self@[i as int].len() == self.cols);
                    assert(other@[i as int].len() == other.cols);
                }
                row.push(apply2(op, self.data[i][j], other.data[i][j]));
                j += 1;
            }
            proof {
                assert(norm_row(row@) =~= ew2_grid(op, self@, other@)[i as int]);
            }
            data.push(row);
            i += 1;
        }
        let m = Matrix { rows: self.rows, cols: self.cols, data };
        proof {
            assert(canon(m@) =~~= ew2_grid(op, self@, other@));
        }
        Ok(m)
    }

    /// The shared loop behind the scalar operations; always succeeds.
    fn sc(&self, s: u64, op: EwOp) -> (r: Matrix)
        requires
            self.wf(),
        ensures
            r.wf(),
            r.rows == self.rows,
            r.cols == self.cols,
            canon(r@) == sc_grid(op, self@, s),
    {
        let mut data: Vec<Vec<u64>> = Vec::new();
        let mut i: usize = 0;
        while i < self.rows
            invariant
                self.wf(),
                i <= self.rows,
                data@.len() == i,
                forall|p: int| 0 <= p < i ==> (#[trigger] data@[p]@).len() == self.cols,
                forall|p: int| 0 <= p < i ==> #[trigger] norm_row(data@[p]@) == sc_grid(op, self@, s)[p],
            decreases self.rows - i,
        {
            let mut row: Vec<u64> = Vec::new();
            let mut j: usize = 0;
            while j < self.cols
                invariant
                    self.wf(),
                    i < self.rows,
                    j <= self.cols,
                    row@.len() == j,
                    forall|q: int| 0 <= q < j ==> norm_bits(row@[q]) == ew2_apply(op, self@[i as int][q], s),
                decreases self.cols - j,
            {
                proof {
                    assert(self@[i as int].len() == self.cols);
                }
                row.push(apply2(op, self.data[i][j], s));
                j += 1;
            }
            proof {
                assert(norm_row(row@) =~= sc_grid(op, self@, s)[i as int]);
            }
            data.push(row);
            i += 1;
        }
        let m = Matrix { rows: self.rows, cols: self.cols, data };
        proof {
            assert(canon(m@) =~~= sc_grid(op, self@, s));
        }
        m
    }

    /// As `sc`, but with the scalar as the left operand of each cell.
    pub(crate) fn sc_left(&self, s: u64, op: EwOp) -> (r: Matrix)
        requires
            self.wf(),
        ensures
            r.wf(),
            r.rows == self.rows,
            r.cols == self.cols,
            canon(r@) == scl_grid(op, s, self@),
    {
        let mut data: Vec<Vec<u64>> = Vec::new();
        let mut i: usize = 0;
        while i < self.rows
            invariant
                self.wf(),
                i <= self.rows,
                data@.len() == i,
                forall|p: int| 0 <= p < i ==> (#[trigger] data@[p]@).len() == self.cols,
                forall|p: int| 0 <= p < i ==> #[trigger] norm_row(data@[p]@) == scl_grid(op, s, self@)[p],
            decreases self.rows - i,
        {
            let mut row: Vec<u64> = Vec::new();
            let mut j: usize = 0;
            while j < self.cols
                invariant
                    self.wf(),
                    i < self.rows,
                    j <= self.cols,
                    row@.len() == j,
                    forall|q: int| 0 <= q < j ==> norm_bits(row@[q]) == ew2_apply(op, s, self@[i as int][q]),
                decreases self.cols - j,
            {
                proof {
                    assert(self@[i as int].len() == self.cols);
                }
                row.push(apply2(op, s, self.data[i][j]));
                j += 1;
            }
            proof {
                assert(norm_row(row@) =~= scl_grid(op, s, self@)[i as int]);
            }
            data.push(row);
            i += 1;
        }
        let m = Matrix { rows: self.rows, cols: self.cols, data };
        proof {
            assert(canon(m@) =~~= scl_grid(op, s, self@));
        }
        m
    }

    /// The shared loop behind the cell-by-cell maps; always succeeds.
    fn un(&self, op: UnOp) -> (r: Matrix)
        requires
            self.wf(),
        ensures
            r.wf(),
            r.rows == self.rows,
            r.cols == self.cols,
            canon(r@) == un_grid(op, self@),
    {
        let mut data: Vec<Vec<u64>> = Vec::new();
        let mut i: usize = 0;
        while i < self.rows
            invariant
                self.wf(),
                i <= self.rows,
                data@.len() == i,
                forall|p: int| 0 <= p < i ==> (#[trigger] data@[p]@).len() == self.cols,
                forall|p: int| 0 <= p < i ==> #[trigger] norm_row(data@[p]@) == un_grid(op, self@)[p],
            decreases self.rows - i,
        {
            let mut row: Vec<u64> = Vec::new();
            let mut j: usize = 0;
            while j < self.cols
                invariant
                    self.wf(),
                    i < self.rows,
                    j <= self.cols,
                    row@.len() == j,
                    forall|q: int| 0 <= q < j ==> norm_bits(row@[q]) == un_apply(op, self@[i as int][q]),
                decreases self.cols - j,
            {
                proof {
                    assert(self@[i as int].len() == self.cols);
                }
                row.push(apply_un(op, self.data[i][j]));
                j += 1;
            }
            proof {
                assert(norm_row(row@) =~= un_grid(op, self@)[i as int]);
            }
            data.push(row);
            i += 1;
        }
        let m = Matrix { rows: self.rows, cols: self.cols, data };
        proof {
            assert(canon(m@) =~~= un_grid(op, self@));
        }
        m
    }

    /// The Hadamard (cell-by-cell) product; requires equal shapes.
    pub fn component_mul(&self, other: &Matrix) -> (r: Result<Matrix, NnError>)
        requires
            self.wf(),
            other.wf(),
        ensures
            match r {
                Ok(m) => self.rows == other.rows && self.cols == other.cols && m.wf()
                    && m.rows == self.rows && m.cols == self.cols
                    && canon(m@) == ew2_grid(EwOp::Mul, self@, other@),
                Err(e) => e == NnError::ShapeMismatch
                    && !(self.rows == other.rows && self.cols == other.cols),
            },
    {
        self.ew2(other, EwOp::Mul)
    }

    /// The cell-by-cell sum; requires equal shapes.
    pub fn component_add(&self, other: &Matrix) -> (r: Result<Matrix, NnError>)
        requires
            self.wf(),
            other.wf(),
        ensures
            match r {
                Ok(m) => self.rows == other.rows && self.cols == other.cols && m.wf()
                    && m.rows == self.rows && m.cols == self.cols
                    && canon(m@) == ew2_grid(EwOp::Add, self@, other@),
                Err(e) => e == NnError::ShapeMismatch
                    && !(self.rows == other.rows && self.cols == other.cols),
            },
    {
        self.ew2(other, EwOp::Add)
    }

    /// The cell-by-cell difference; requires equal shapes.
    pub fn component_sub(&self, other: &Matrix) -> (r: Result<Matrix, NnError>)
        requires
            self.wf(),
            other.wf(),
        ensures
            match r {
                Ok(m) => self.rows == other.rows && self.cols == other.cols && m.wf()
                    && m.rows == self.rows && m.cols == self.cols
                    && canon(m@) == ew2_grid(EwOp::Sub, self@, other@),
                Err(e) => e == NnError::ShapeMismatch
                    && !(self.rows == other.rows && self.cols == other.cols),
            },
    {
        self.ew2(other, EwOp::Sub)
    }

    /// The cell-by-cell quotient; requires equal shapes.
    pub fn component_div(&self, other: &Matrix) -> (r: Result<Matrix, NnError>)
        requires
            self.wf(),
            other.wf(),
        ensures
            match r {
                Ok(m) => self.rows == other.rows && self.cols == other.cols && m.wf()
                    && m.rows == self.rows && m.cols == self.cols
                    && canon(m@) == ew2_grid(EwOp::Div, self@, other@),
                Err(e) => e == NnError::ShapeMismatch
                    && !(self.rows == other.rows && self.cols == other.cols),
            },
    {
        self.ew2(other, EwOp::Div)
    }

    /// Multiplies every cell by the scalar `value`.
    pub fn float_mul(&self, value: u64) -> (r: Matrix)
        requires
            self.wf(),
        ensures
            r.wf(),
            r.rows == self.rows,
            r.cols == self.cols,
            canon(r@) == sc_grid(EwOp::Mul, self@, value),
    {
        self.sc(value, EwOp::Mul)
    }

    /// Multiplies every cell by the scalar.
    pub fn scalar_mul(&self, scalar: u64) -> (r: Matrix)
        requires
            self.wf(),
        ensures
            r.wf(),
            r.rows == self.rows,
            r.cols == self.cols,
            canon(r@) == sc_grid(EwOp::Mul, self@, scalar),
    {
        self.float_mul(scalar)
    }

    /// Divides every cell by the scalar.
    pub fn scalar_div(&self, scalar: u64) -> (r: Matrix)
        requires
            self.wf(),
        ensures
            r.wf(),
            r.rows == self.rows,
            r.cols == self.cols,
            canon(r@) == sc_grid(EwOp::Div, self@, scalar),
    {
        self.sc(scalar, EwOp::Div)
    }

    /// Adds the scalar to every cell.
    pub fn scalar_add(&self, scalar: u64) -> (r: Matrix)
        requires
            self.wf(),
        ensures
            r.wf(),
            r.rows == self.rows,
            r.cols == self.cols,
            canon(r@) == sc_grid(EwOp::Add, self@, scalar),
    {
        self.sc(scalar, EwOp::Add)
    }

    /// Subtracts the scalar from every cell.
    pub fn scalar_sub(&self, scalar: u64) -> (r: Matrix)
        requires
            self.wf(),
        ensures
            r.wf(),
            r.rows == self.rows,
            r.cols == self.cols,
            canon(r@) == sc_grid(EwOp::Sub, self@, scalar),
    {
        self.sc(scalar, EwOp::Sub)
    }

    /// The base-e exponential of every cell.
    pub fn exp(&self) -> (r: Matrix)
        requires
            self.wf(),
        ensures
            r.wf(),
            r.rows == self.rows,
            r.cols == self.cols,
            canon(r@) == un_grid(UnOp::Exp, self@),
    {
        self.un(UnOp::Exp)
    }

    /// The square root of every cell.
    pub fn sqrt(&self) -> (r: Matrix)
        requires
            self.wf(),
        ensures
            r.wf(),
            r.rows == self.rows,
            r.cols == self.cols,
            canon(r@) == un_grid(UnOp::Sqrt, self@),
    {
        self.un(UnOp::Sqrt)
    }

    /// The logistic function `1 / (1 + e^-x)` of every cell.
    pub fn sigmoid(&self) -> (r: Matrix)
        requires
            self.wf(),
        ensures
            r.wf(),
            r.rows == self.rows,
            r.cols == self.cols,
            canon(r@) == un_grid(UnOp::Sigmoid, self@),
    {
        self.un(UnOp::Sigmoid)
    }

    /// The derivative of the logistic function at every cell, computed as
    /// `s * (1 - s)` from the freshly computed logistic value `s`.
    pub fn sigmoid_derivative(&self) -> (r: Matrix)
        requires
            self.wf(),
        ensures
            r.wf(),
            r.rows == self.rows,
            r.cols == self.cols,
            canon(r@) == un_grid(UnOp::SigmoidDerivative, self@),
    {
        self.un(UnOp::SigmoidDerivative)
    }

    /// The derivative of the logistic function read off cells that already
    /// hold its output: `x * (1 - x)` of every cell.
    pub fn sigmoid_derivative_from_output(&self) -> (r: Matrix)
        requires
            self.wf(),
        ensures
            r.wf(),
            r.rows == self.rows,
            r.cols == self.cols,
            canon(r@) == un_grid(UnOp::SigmoidDerivativeFromOutput, self@),
    {
        self.un(UnOp::SigmoidDerivativeFromOutput)
    }

    /// Swaps rows and columns.
    pub fn transpose(&self) -> (r: Matrix)
        requires
            self.wf(),
        ensures
            r.wf(),
            r.rows == self.cols,
            r.cols == self.rows,
            r@ == transpose_grid(self@, self.rows as nat, self.cols as nat),
    {
        let mut data: Vec<Vec<u64>> = Vec::new();
        let mut i: usize = 0;
        while i < self.cols
            invariant
                self.wf(),
                i <= self.cols,
                data@.len() == i,
                forall|p: int| 0 <= p < i
                    ==> #[trigger] data@[p]@ == transpose_grid(self@, self.rows as nat, self.cols as nat)[p],
            decreases self.cols - i,
        {
            let mut row: Vec<u64> = Vec::new();
            let mut j: usize = 0;
            while j < self.rows
                invariant
                    self.wf(),
                    i < self.cols,
                    j <= self.rows,
                    row@.len() == j,
                    forall|q: int| 0 <= q < j ==> row@[q] == self@[q][i as int],
                decreases self.rows - j,
            {
                proof {
                    assert(self@[j as int].len() == self.cols);
                }
                row.push(self.data[j][i]);
                j += 1;
            }
            proof {
                assert(row@ =~= transpose_grid(self@, self.rows as nat, self.cols as nat)[i as int]);
            }
            data.push(row);
            i += 1;
        }
        let m = Matrix { rows: self.cols, cols: self.rows, data };
        proof {
            assert(m@ =~~= transpose_grid(self@, self.rows as nat, self.cols as nat));
        }
        m
    }
}

impl Matrix {
    /// The true matrix product; the operands' inner dimensions must agree.
    pub fn dot(&self, other: &Matrix) -> (r: Result<Matrix, NnError>)
        requires
            self.wf(),
            other.wf(),
        ensures
            match r {
                Ok(m) => self.cols == other.rows && m.wf() && m.rows == self.rows
                    && m.cols == other.cols
                    && canon(m@) == dot_grid(self@, other@, self.rows as nat, self.cols as nat, other.cols as nat),
                Err(e) => e == NnError::ShapeMismatch && self.cols != other.rows,
            },
    {
        if self.cols != other.rows {
            return Err(NnError::ShapeMismatch);
        }
        let inner: usize = self.cols;
        let mut data: Vec<Vec<u64>> = Vec::new();
        let mut i: usize = 0;
        while i < self.rows
            invariant
                self.wf(),
                other.wf(),
                self.cols == other.rows,
                inner == self.cols,
                i <= self.rows,
                data@.len() == i,
                forall|p: int| 0 <= p < i ==> (#[trigger] data@[p]@).len() == other.cols,
                forall|p: int| 0 <= p < i
                    ==> #[trigger] norm_row(data@[p]@) == dot_grid(self@, other@, self.rows as nat, inner as nat, other.cols as nat)[p],
            decreases self.rows - i,
        {
            let mut row: Vec<u64> = Vec::new();
            let mut j: usize = 0;
            while j < other.cols
                invariant
                    self.wf(),
                    other.wf(),
                    self.cols == other.rows,
                    inner == self.cols,
                    i < self.rows,
                    j <= other.cols,
                    row@.len() == j,
                    forall|q: int| 0 <= q < j ==> norm_bits(row@[q]) == dot_cell(self@, other@, i as int, q, inner as int),
                decreases other.cols - j,
            {
                let mut acc: u64 = ZERO_BITS;
                let mut k: usize = 0;
                while k < inner
                    invariant
                        self.wf(),
                        other.wf(),
                        self.cols == other.rows,
                        inner == self.cols,
                        i < self.rows,
                        j < other.cols,
                        k <= inner,
                        norm_bits(acc) == dot_cell(self@, other@, i as int, j as int, k as int),
                    decreases inner - k,
                {
                    proof {
                        assert(self@[i as int].len() == self.cols);
                        assert(other@[k as int].len() == other.cols);
                    }
                    let term = fp_mul(self.data[i][k], other.data[k][j]);
                    acc = fp_add(acc, term);
                    k += 1;
                }
                row.push(acc);
                j += 1;
            }
            proof {
                assert(norm_row(row@) =~= dot_grid(self@, other@, self.rows as nat, inner as nat, other.cols as nat)[i as int]);
            }
            data.push(row);
            i += 1;
        }
        let m = Matrix { rows: self.rows, cols: other.cols, data };
        proof {
            assert(canon(m@) =~~= dot_grid(self@, other@, self.rows as nat, inner as nat, other.cols as nat));
        }
        Ok(m)
    }

    /// The true matrix product, under the name the layers use.
    pub fn matrix_mul(&self, other: &Matrix) -> (r: Result<Matrix, NnError>)
        requires
            self.wf(),
            other.wf(),
        ensures
            match r {
                Ok(m) => self.cols == other.rows && m.wf() && m.rows == self.rows
                    && m.cols == other.cols
                    && canon(m@) == dot_grid(self@, other@, self.rows as nat, self.cols as nat, other.cols as nat),
                Err(e) => e == NnError::ShapeMismatch && self.cols != other.rows,
            },
    {
        self.dot(other)
    }

    /// Repeats the unit dimensions of the matrix out to the target shape;
    /// each source dimension must already match the target or be one.
    pub fn broadcast(&self, dim: (usize, usize)) -> (r: Result<Matrix, NnError>)
        requires
            self.wf(),
        ensures
            match r {
                Ok(m) => (self.rows == dim.0 || self.rows == 1) && (self.cols == dim.1 || self.cols == 1)
                    && m.wf() && m.rows == dim.0 && m.cols == dim.1
                    && m@ == broadcast_grid(self@, self.rows as nat, self.cols as nat, dim.0 as nat, dim.1 as nat),
                Err(e) => e == NnError::ShapeMismatch
                    && !((self.rows == dim.0 || self.rows == 1) && (self.cols == dim.1 || self.cols == 1)),
            },
    {
        if !((self.rows == dim.0 || self.rows == 1) && (self.cols == dim.1 || self.cols == 1)) {
            return Err(NnError::ShapeMismatch);
        }
        let mut data: Vec<Vec<u64>> = Vec::new();
        let mut i: usize = 0;
        while i < dim.0
            invariant
                self.wf(),
                self.rows == dim.0 || self.rows == 1,
                self.cols == dim.1 || self.cols == 1,
                i <= dim.0,
                data@.len() == i,
                forall|p: int| 0 <= p < i
                    ==> #[trigger] data@[p]@ == broadcast_grid(self@, self.rows as nat, self.cols as nat, dim.0 as nat, dim.1 as nat)[p],
            decreases dim.0 - i,
        {
            let src_i: usize = if self.rows == 1 { 0 } else { i };
            let mut row: Vec<u64> = Vec::new();
            let mut j: usize = 0;
            while j < dim.1
                invariant
                    self.wf(),
                    self.rows == dim.0 || self.rows == 1,
                    self.cols == dim.1 || self.cols == 1,
                    i < dim.0,
                    src_i == bidx(self.rows as nat, i as int),
                    src_i < self.rows,
                    j <= dim.1,
                    row@.len() == j,
                    forall|q: int| 0 <= q < j
                        ==> row@[q] == self@[bidx(self.rows as nat, i as int)][bidx(self.cols as nat, q)],
                decreases dim.1 - j,
            {
                proof {
                    assert(self@[src_i as int].len() == self.cols);
                }
                let src_j: usize = if self.cols == 1 { 0 } else { j };
                row.push(self.data[src_i][src_j]);
                j += 1;
            }
            proof {
                assert(row@ =~= broadcast_grid(self@, self.rows as nat, self.cols as nat, dim.0 as nat, dim.1 as nat)[i as int]);
            }
            data.push(row);
            i += 1;
        }
        let m = Matrix { rows: dim.0, cols: dim.1, data };
        proof {
            assert(m@ =~~= broadcast_grid(self@, self.rows as nat, self.cols as nat, dim.0 as nat, dim.1 as nat));
        }
        Ok(m)
    }

    /// Collapses one dimension to extent one by summing along it: collapsing
    /// the rows leaves one row of column sums, collapsing the columns leaves
    /// one column of row sums.
    pub fn sum_axis(&self, axis: Axis) -> (r: Matrix)
        requires
            self.wf(),
        ensures
            r.wf(),
            axis == Axis::Rows ==> r.rows == 1 && r.cols == self.cols
                && canon(r@) == cellwise(1, self.cols as nat, |i: int, j: int| col_sum(self@, j, self.rows as int)),
            axis == Axis::Cols ==> r.rows == self.rows && r.cols == 1
                && canon(r@) == cellwise(self.rows as nat, 1, |i: int, j: int| row_sum(self@, i, self.cols as int)),
    {
        match axis {
            Axis::Rows => {
                let mut row: Vec<u64> = Vec::new();
                let mut j: usize = 0;
                while j < self.cols
                    invariant
                        self.wf(),
                        j <= self.cols,
                        row@.len() == j,
                        forall|q: int| 0 <= q < j ==> norm_bits(row@[q]) == col_sum(self@, q, self.rows as int),
                    decreases self.cols - j,
                {
                    let mut acc: u64 = ZERO_BITS;
                    let mut k: usize = 0;
                    while k < self.rows
                        invariant
                            self.wf(),
                            j < self.cols,
                            k <= self.rows,
                            norm_bits(acc) == col_sum(self@, j as int, k as int),
                        decreases self.rows - k,
                    {
                        proof {
                            assert(self@[k as int].len() == self.cols);
                        }
                        acc = fp_add(acc, self.data[k][j]);
                        k += 1;
                    }
                    row.push(acc);
                    j += 1;
                }
                let mut data: Vec<Vec<u64>> = Vec::new();
                data.push(row);
                let m = Matrix { rows: 1, cols: self.cols, data };
                proof {
                    assert(canon(m@) =~~= cellwise(1, self.cols as nat, |i: int, j: int| col_sum(self@, j, self.rows as int)));
                }
                m
            },
            Axis::Cols => {
                let mut data: Vec<Vec<u64>> = Vec::new();
                let mut i: usize = 0;
                while i < self.rows
                    invariant
                        self.wf(),
                        i <= self.rows,
                        data@.len() == i,
                        forall|p: int| 0 <= p < i
                            ==> (#[trigger] data@[p]@).len() == 1,
                        forall|p: int| 0 <= p < i
                            ==> #[trigger] norm_row(data@[p]@) == seq![row_sum(self@, p, self.cols as int)],
                    decreases self.rows - i,
                {
                    let mut acc: u64 = ZERO_BITS;
                    let mut k: usize = 0;
                    while k < self.cols
                        invariant
                            self.wf(),
                            i < self.rows,
                            k <= self.cols,
                            norm_bits(acc) == row_sum(self@, i as int, k as int),
                        decreases self.cols - k,
                    {
                        proof {
                            assert(self@[i as int].len() == self.cols);
                        }
                        acc = fp_add(acc, self.data[i][k]);
                        k += 1;
                    }
                    let mut row: Vec<u64> = Vec::new();
                    row.push(acc);
                    proof {
                        assert(norm_row(row@) =~= seq![row_sum(self@, i as int, self.cols as int)]);
                    }
                    data.push(row);
                    i += 1;
                }
                let m = Matrix { rows: self.rows, cols: 1, data };
                proof {
                    assert(canon(m@) =~~= cellwise(self.rows as nat, 1, |i: int, j: int| row_sum(self@, i, self.cols as int)));
                }
                m
            },
        }
    }

    /// Extracts column `idx` as a flat vector.
    pub fn get_column(&self, idx: usize) -> (r: Vec<u64>)
        requires
            self.wf(),
            idx < self.cols,
        ensures
            r@ == column_of(self@, self.rows as nat, idx as int),
    {
        let mut col: Vec<u64> = Vec::new();
        let mut i: usize = 0;
        while i < self.rows
            invariant
                self.wf(),
                idx < self.cols,
                i <= self.rows,
                col@.len() == i,
                forall|p: int| 0 <= p < i ==> col@[p] == self@[p][idx as int],
            decreases self.rows - i,
        {
            proof {
                assert(self@[i as int].len() == self.cols);
            }
            col.push(self.data[i][idx]);
            i += 1;
        }
        proof {
            assert(col@ =~= column_of(self@, self.rows as nat, idx as int));
        }
        col
    }

    /// The whole matrix as a sequence of its columns, leading with column
    /// zero; the boundary form the parameter contract uses.
    pub fn get_data_col_leading(&self) -> (r: Vec<Vec<u64>>)
        requires
            self.wf(),
        ensures
            r@.len() == self.cols,
            forall|j: int| 0 <= j < self.cols
                ==> #[trigger] r@[j]@ == column_of(self@, self.rows as nat, j),
    {
        let mut cols: Vec<Vec<u64>> = Vec::new();
        let mut j: usize = 0;
        while j < self.cols
            invariant
                self.wf(),
                j <= self.cols,
                cols@.len() == j,
                forall|q: int| 0 <= q < j
                    ==> #[trigger] cols@[q]@ == column_of(self@, self.rows as nat, q),
            decreases self.cols - j,
        {
            let c = self.get_column(j);
            cols.push(c);
            j += 1;
        }
        cols
    }

    /// Rebuilds a matrix from its columns: entry `(i, j)` of the result is
    /// element `i` of column `j`. The columns must be non-empty in number and
    /// all of one length.
    pub fn from_column_leading_vector2(m: &Vec<Vec<u64>>) -> (r: Matrix)
        requires
            m@.len() > 0,
            forall|j: int| 0 <= j < m@.len() ==> (#[trigger] m@[j]@).len() == m@[0]@.len(),
        ensures
            r.wf(),
            r.rows == m@[0]@.len(),
            r.cols == m@.len(),
            r@ == cellwise(m@[0]@.len(), m@.len() as nat, |i: int, j: int| m@[j]@[i]),
    {
        let ncols: usize = m.len();
        let nrows: usize = m[0].len();
        let mut data: Vec<Vec<u64>> = Vec::new();
        let mut i: usize = 0;
        while i < nrows
            invariant
                m@.len() == ncols,
                ncols > 0,
                forall|j: int| 0 <= j < m@.len() ==> (#[trigger] m@[j]@).len() == nrows,
                i <= nrows,
                data@.len() == i,
                forall|p: int| 0 <= p < i
                    ==> #[trigger] data@[p]@ == Seq::new(ncols as nat, |q: int| m@[q]@[p]),
            decreases nrows - i,
        {
            let mut row: Vec<u64> = Vec::new();
            let mut j: usize = 0;
            while j < ncols
                invariant
                    m@.len() == ncols,
                    forall|q: int| 0 <= q < m@.len() ==> (#[trigger] m@[q]@).len() == nrows,
                    i < nrows,
                    j <= ncols,
                    row@.len() == j,
                    forall|q: int| 0 <= q < j ==> row@[q] == m@[q]@[i as int],
                decreases ncols - j,
            {
                row.push(m[j][i]);
                j += 1;
            }
            proof {
                assert(row@ =~= Seq::new(ncols as nat, |q: int| m@[q]@[i as int]));
            }
            data.push(row);
            i += 1;
        }
        let r = Matrix { rows: nrows, cols: ncols, data };
        proof {
            assert(r@ =~~= cellwise(nrows as nat, ncols as nat, |i: int, j: int| m@[j]@[i]));
        }
        r
    }

    /// Renders the matrix as a heading line followed by one tab-separated
    /// line per row, pinned character by character to the named scalar and
    /// integer renderings.
    pub fn to_display_string(&self) -> (r: String)
        requires
            self.wf(),
        ensures
            r@ == header_text(self.rows, self.cols) + body_text(
                self@,
                self.rows as int,
                self.cols as int,
            ),
    {
        let mut s = String::new();
        s.append("Matrix ");
        let rows_text = fmt_usize(self.rows);
        s.append(rows_text.as_str());
        s.append("x");
        let cols_text = fmt_usize(self.cols);
        s.append(cols_text.as_str());
        s.append(":\n");
        proof {
            assert(s@ =~= header_text(self.rows, self.cols));
        }
        let ghost header = s@;
        let mut i: usize = 0;
        while i < self.rows
            invariant
                self.wf(),
                i <= self.rows,
                header == header_text(self.rows, self.cols),
                s@ == header + body_text(self@, i as int, self.cols as int),
            decreases self.rows - i,
        {
            let mut j: usize = 0;
            while j < self.cols
                invariant
                    self.wf(),
                    i < self.rows,
                    j <= self.cols,
                    header == header_text(self.rows, self.cols),
                    s@ == header + body_text(self@, i as int, self.cols as int) + row_text(
                        self@,
                        i as int,
                        j as int,
                    ),
                decreases self.cols - j,
            {
                proof {
                    assert(self@[i as int].len() == self.cols);
                }
                let cell = fmt_scalar(self.data[i][j]);
                s.append(cell.as_str());
                s.append("\t");
                j += 1;
                proof {
                    assert(s@ =~= header + body_text(self@, i as int, self.cols as int)
                        + row_text(self@, i as int, j as int));
                }
            }
            s.append("\n");
            i += 1;
            proof {
                assert(s@ =~= header + body_text(self@, i as int, self.cols as int));
            }
        }
        s
    }

    /// A flat vector as a single-column matrix.
    pub fn from_column_vector(v: &Vec<u64>) -> (r: Matrix)
        ensures
            r.wf(),
            r.rows == v@.len(),
            r.cols == 1,
            r@ == cellwise(v@.len(), 1, |i: int, j: int| v@[i]),
    {
        let n: usize = v.len();
        let mut data: Vec<Vec<u64>> = Vec::new();
        let mut i: usize = 0;
        while i < n
            invariant
                v@.len() == n,
                i <= n,
                data@.len() == i,
                forall|p: int| 0 <= p < i ==> #[trigger] data@[p]@ == seq![v@[p]],
            decreases n - i,
        {
            let mut row: Vec<u64> = Vec::new();
            row.push(v[i]);
            proof {
                assert(row@ =~= seq![v@[i as int]]);
            }
            data.push(row);
            i += 1;
        }
        let r = Matrix { rows: n, cols: 1, data };
        proof {
            assert(r@ =~~= cellwise(n as nat, 1, |i: int, j: int| v@[i]));
        }
        r
    }
}

/// The Glorot uniform limit `sqrt(6 / (nrows + ncols))`, over the named
/// scalar operations.
pub open spec fn glorot_uniform_limit(nrows: usize, ncols: usize) -> u64 {
    sqrt_bits(div_bits(SIX_BITS, bits_of_usize((nrows + ncols) as usize)))
}

/// The Glorot normal deviation `sqrt(2 / (nrows + ncols))`, over the named
/// scalar operations.
pub open spec fn glorot_normal_std(nrows: usize, ncols: usize) -> u64 {
    sqrt_bits(div_bits(TWO_BITS, bits_of_usize((nrows + ncols) as usize)))
}

/// A bound usable for symmetric uniform sampling: positive, and of a
/// magnitude the sampler is owed to accept on both sides.
pub open spec fn usable_bound(x: u64) -> bool {
    sign_bits(x) == 0 && 0 < mag_bits(x) && mag_bits(x) <= BOUNDED_MAG_BITS
}

/// A usable bound and its sign-flip form an accepted symmetric range.
proof fn lemma_usable_bound_range(x: u64)
    requires
        usable_bound(x),
    ensures
        lt_bits(x ^ SIGN_MASK, x),
        mag_bits(x ^ SIGN_MASK) <= BOUNDED_MAG_BITS,
{
    assert(x < 0x8000_0000_0000_0000u64 ==> (x ^ 0x8000_0000_0000_0000u64) == x
        + 0x8000_0000_0000_0000u64) by (bit_vector);
}

/// Tests `usable_bound` on the bits.
fn check_usable_bound(x: u64) -> (r: bool)
    ensures
        r == usable_bound(x),
{
    0 < x && x <= BOUNDED_MAG_BITS
}

/// Tests `is_finite_bits` on the bits.
fn check_finite(x: u64) -> (r: bool)
    ensures
        r == is_finite_bits(x),
{
    x % 0x8000_0000_0000_0000 < 0x7FF0_0000_0000_0000
}

/// The two scalar distributions random construction can draw from.
#[derive(Clone, Copy, Debug, PartialEq, Eq, Structural)]
pub enum DistributionKind {
    /// Uniform over `[low, high)`.
    Uniform { low: u64, high: u64 },
    /// Normal with the given mean and standard deviation.
    Normal { mean: u64, std_dev: u64 },
}

/// When the sampler accepts a distribution's parameters: a uniform range
/// needs `low < high` with a finite width, a normal draw a finite standard
/// deviation.
pub open spec fn dist_accepts(d: DistributionKind) -> bool {
    match d {
        DistributionKind::Uniform { low, high } => lt_bits(low, high) && is_finite_bits(
            sub_bits(high, low),
        ),
        DistributionKind::Normal { std_dev, .. } => is_finite_bits(std_dev),
    }
}

/// A bit-level condition under which acceptance is owed: an ordered pair
/// of bounds whose magnitudes stay at or below `2^1022` cannot have an
/// overflowing width, and a finite standard deviation is accepted as is.
pub open spec fn dist_owed(d: DistributionKind) -> bool {
    match d {
        DistributionKind::Uniform { low, high } => lt_bits(low, high) && mag_bits(low)
            <= BOUNDED_MAG_BITS && mag_bits(high) <= BOUNDED_MAG_BITS,
        DistributionKind::Normal { std_dev, .. } => is_finite_bits(std_dev),
    }
}

/// Every cell of the grid lies between the two bounds.
pub open spec fn cells_bounded(a: Seq<Seq<u64>>, low: u64, high: u64) -> bool {
    forall|i: int, j: int|
        0 <= i < a.len() && 0 <= j < a[i].len() ==> le_bits(low, #[trigger] a[i][j]) && le_bits(
            a[i][j],
            high,
        )
}

/// One draw from the given distribution, or nothing exactly when the
/// sampler rejects its parameters; a uniform draw stays within its bounds.
fn sample_cell(distribution: DistributionKind) -> (r: Option<u64>)
    ensures
        r is Some <==> dist_accepts(distribution),
        dist_owed(distribution) ==> r is Some,
        r is Some ==> (distribution matches DistributionKind::Uniform { low, high } ==> le_bits(
            low,
            r.unwrap(),
        ) && le_bits(r.unwrap(), high)),
{
    match distribution {
        DistributionKind::Uniform { low, high } => fp_sample_uniform(low, high),
        DistributionKind::Normal { mean, std_dev } => fp_sample_normal(mean, std_dev),
    }
}

impl Matrix {
    /// Creates a matrix of independent draws from the given distribution.
    /// Succeeds exactly when the sampler accepts the distribution's
    /// parameters (or no cell needs drawing); success is owed outright for
    /// bit-bounded parameters, and uniform draws stay within their bounds.
    pub fn random_matrix_from_distribution(nrows: usize, ncols: usize, distribution: DistributionKind) -> (r: Result<
        Matrix,
        NnError,
    >)
        ensures
            r is Ok <==> nrows == 0 || ncols == 0 || dist_accepts(distribution),
            nrows == 0 || ncols == 0 || dist_owed(distribution) ==> r is Ok,
            match r {
                Ok(m) => m.wf() && m.rows == nrows && m.cols == ncols && (distribution matches
                    DistributionKind::Uniform { low, high } ==> cells_bounded(m@, low, high)),
                Err(e) => e == NnError::InvalidConfiguration,
            },
    {
        let mut data: Vec<Vec<u64>> = Vec::new();
        let mut i: usize = 0;
        while i < nrows
            invariant
                i <= nrows,
                data@.len() == i,
                i > 0 && ncols > 0 ==> dist_accepts(distribution),
                forall|p: int| 0 <= p < i ==> (#[trigger] data@[p]@).len() == ncols,
                forall|p: int, q: int|
                    0 <= p < i && 0 <= q < ncols ==> (distribution matches DistributionKind::Uniform {
                        low,
                        high,
                    } ==> le_bits(low, #[trigger] data@[p]@[q]) && le_bits(data@[p]@[q], high)),
            decreases nrows - i,
        {
            let mut row: Vec<u64> = Vec::new();
            let mut j: usize = 0;
            while j < ncols
                invariant
                    i < nrows,
                    j <= ncols,
                    row@.len() == j,
                    j > 0 ==> dist_accepts(distribution),
                    forall|q: int|
                        0 <= q < j ==> (distribution matches DistributionKind::Uniform {
                            low,
                            high,
                        } ==> le_bits(low, #[trigger] row@[q]) && le_bits(row@[q], high)),
                decreases ncols - j,
            {
                match sample_cell(distribution) {
                    Some(x) => row.push(x),
                    None => {
                        return Err(NnError::InvalidConfiguration);
                    },
                }
                j += 1;
            }
            data.push(row);
            i += 1;
        }
        let m = Matrix { rows: nrows, cols: ncols, data };
        Ok(m)
    }

    /// Creates a matrix of draws from the normal distribution with the
    /// given mean and standard deviation; succeeds exactly when the
    /// standard deviation is finite or no cell needs drawing.
    pub fn random_normal(nrows: usize, ncols: usize, mean: u64, std: u64) -> (r: Result<Matrix, NnError>)
        ensures
            r is Ok <==> nrows == 0 || ncols == 0 || is_finite_bits(std),
            match r {
                Ok(m) => m.wf() && m.rows == nrows && m.cols == ncols,
                Err(e) => e == NnError::InvalidConfiguration,
            },
    {
        Matrix::random_matrix_from_distribution(
            nrows,
            ncols,
            DistributionKind::Normal { mean, std_dev: std },
        )
    }

    /// Creates a matrix of draws from the uniform distribution on
    /// `[low, high)`: success exactly when the sampler accepts the range,
    /// owed outright when the ordered bounds are magnitude-bounded, and
    /// every cell between the bounds.
    pub fn random_uniform(nrows: usize, ncols: usize, low: u64, high: u64) -> (r: Result<Matrix, NnError>)
        ensures
            r is Ok <==> nrows == 0 || ncols == 0 || dist_accepts(
                DistributionKind::Uniform { low, high },
            ),
            nrows == 0 || ncols == 0 || (lt_bits(low, high) && mag_bits(low) <= BOUNDED_MAG_BITS
                && mag_bits(high) <= BOUNDED_MAG_BITS) ==> r is Ok,
            match r {
                Ok(m) => m.wf() && m.rows == nrows && m.cols == ncols && cells_bounded(
                    m@,
                    low,
                    high,
                ),
                Err(e) => e == NnError::InvalidConfiguration,
            },
    {
        Matrix::random_matrix_from_distribution(
            nrows,
            ncols,
            DistributionKind::Uniform { low, high },
        )
    }

    /// Glorot initialization from the uniform distribution on
    /// `[-limit, limit)` with `limit = sqrt(6 / (nrows + ncols))`. The
    /// computed limit is checked to be a usable positive bound before
    /// sampling, so success is exact: it fails (with
    /// `InvalidConfiguration`) only if that check fails while cells need
    /// drawing, which no real shape produces.
    pub fn xavier_uniform(nrows: usize, ncols: usize) -> (r: Result<Matrix, NnError>)
        requires
            nrows + ncols <= usize::MAX,
        ensures
            r is Ok <==> nrows == 0 || ncols == 0 || usable_bound(
                glorot_uniform_limit(nrows, ncols),
            ),
            match r {
                Ok(m) => m.wf() && m.rows == nrows && m.cols == ncols && cells_bounded(
                    m@,
                    neg_bits(glorot_uniform_limit(nrows, ncols)),
                    glorot_uniform_limit(nrows, ncols),
                ),
                Err(e) => e == NnError::InvalidConfiguration,
            },
    {
        let denom = fp_of_usize(nrows + ncols);
        let limit = fp_sqrt(fp_div(SIX_BITS, denom));
        proof {
            assert(norm_bits(limit) == glorot_uniform_limit(nrows, ncols));
        }
        if check_usable_bound(limit) || nrows == 0 || ncols == 0 {
            proof {
                if usable_bound(limit) {
                    lemma_usable_bound_range(limit);
                }
            }
            match Matrix::random_uniform(nrows, ncols, limit ^ SIGN_MASK, limit) {
                Ok(m) => Ok(m),
                Err(_) => unreached(),
            }
        } else {
            Err(NnError::InvalidConfiguration)
        }
    }

    /// Glorot initialization from the normal distribution with mean zero
    /// and `std_dev = sqrt(2 / (nrows + ncols))`. The computed deviation
    /// is checked to be finite before sampling, so success is exact; no
    /// real shape fails the check.
    pub fn xavier_normal(nrows: usize, ncols: usize) -> (r: Result<Matrix, NnError>)
        requires
            nrows + ncols <= usize::MAX,
        ensures
            r is Ok <==> nrows == 0 || ncols == 0 || is_finite_bits(
                glorot_normal_std(nrows, ncols),
            ),
            match r {
                Ok(m) => m.wf() && m.rows == nrows && m.cols == ncols,
                Err(e) => e == NnError::InvalidConfiguration,
            },
    {
        let denom = fp_of_usize(nrows + ncols);
        let std_dev = fp_sqrt(fp_div(TWO_BITS, denom));
        proof {
            assert(norm_bits(std_dev) == glorot_normal_std(nrows, ncols));
        }
        if check_finite(std_dev) || nrows == 0 || ncols == 0 {
            match Matrix::random_normal(nrows, ncols, ZERO_BITS, std_dev) {
                Ok(m) => Ok(m),
                Err(_) => unreached(),
            }
        } else {
            Err(NnError::InvalidConfiguration)
        }
    }
}

impl Clone for Matrix {
    /// A clone has the same shape and the same cells as the original.
    fn clone(&self) -> (r: Self)
        ensures
            r.rows == self.rows,
            r.cols == self.cols,
            r@ == self@,
    {
        let r = Matrix { rows: self.rows, cols: self.cols, data: self.data.clone() };
        proof {
            assert(r@ =~~= self@);
        }
        r
    }
}

} // verus!
