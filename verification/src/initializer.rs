//! The parameter-initializer collaborator: a closed set of named strategies
//! that produce a freshly drawn matrix or column vector of a given shape.

use vstd::prelude::*;

use crate::error::NnError;
use crate::matrix::{
    cells_bounded, const_grid, glorot_normal_std, glorot_uniform_limit, usable_bound, Matrix,
};
use crate::scalar::{
    is_finite_bits, neg_bits, ONE_BITS, NEG_ONE_BITS, ZERO_BITS,
};

verus! {

/// The closed set of initialization strategies.
#[derive(Clone, Copy, Debug, PartialEq, Eq, Structural)]
pub enum Initializers {
    /// Every cell zero.
    Zeros,
    /// Uniform draws from `[0, 1)`.
    Uniform,
    /// Uniform draws from `[-1, 1)`.
    UniformSigned,
    /// Normal draws with mean zero and unit standard deviation.
    Normal,
    /// Glorot-scaled uniform draws.
    XavierUniform,
    /// Glorot-scaled normal draws.
    XavierNormal,
}

impl Initializers {
    /// When generation is owed success for a shape: always, except for the
    /// Glorot strategies on shapes whose computed scale fails the bit
    /// check, which no real shape produces.
    pub open spec fn gen_accepts(&self, nrows: usize, ncols: usize) -> bool {
        nrows == 0 || ncols == 0 || match self {
            Initializers::Zeros => true,
            Initializers::Uniform => true,
            Initializers::UniformSigned => true,
            Initializers::Normal => true,
            Initializers::XavierUniform => usable_bound(glorot_uniform_limit(nrows, ncols)),
            Initializers::XavierNormal => is_finite_bits(glorot_normal_std(nrows, ncols)),
        }
    }

    /// The bounds every drawn cell respects for the bounded strategies.
    pub open spec fn cells_ok(&self, nrows: usize, ncols: usize, a: Seq<Seq<u64>>) -> bool {
        match self {
            Initializers::Zeros => a == const_grid(nrows as nat, ncols as nat, ZERO_BITS),
            Initializers::Uniform => cells_bounded(a, ZERO_BITS, ONE_BITS),
            Initializers::UniformSigned => cells_bounded(a, NEG_ONE_BITS, ONE_BITS),
            Initializers::Normal => true,
            Initializers::XavierUniform => cells_bounded(
                a,
                neg_bits(glorot_uniform_limit(nrows, ncols)),
                glorot_uniform_limit(nrows, ncols),
            ),
            Initializers::XavierNormal => true,
        }
    }

    /// The shared factory: a `nrows` by `ncols` matrix drawn by this
    /// strategy. Succeeds exactly on accepted shapes; the zero strategy's
    /// cells are all zero and the uniform strategies' cells stay within
    /// their ranges.
    fn gen_matrix_internal(&self, nrows: usize, ncols: usize) -> (r: Result<Matrix, NnError>)
        requires
            nrows + ncols <= usize::MAX,
        ensures
            r is Ok <==> self.gen_accepts(nrows, ncols),
            match r {
                Ok(m) => m.wf() && m.rows == nrows && m.cols == ncols && self.cells_ok(
                    nrows,
                    ncols,
                    m@,
                ),
                Err(e) => e == NnError::InvalidConfiguration,
            },
    {
        match self {
            Initializers::Zeros => Ok(Matrix::zeros(nrows, ncols)),
            Initializers::Uniform => Matrix::random_uniform(nrows, ncols, ZERO_BITS, ONE_BITS),
            Initializers::UniformSigned => Matrix::random_uniform(
                nrows,
                ncols,
                NEG_ONE_BITS,
                ONE_BITS,
            ),
            Initializers::Normal => Matrix::random_normal(nrows, ncols, ZERO_BITS, ONE_BITS),
            Initializers::XavierUniform => Matrix::xavier_uniform(nrows, ncols),
            Initializers::XavierNormal => Matrix::xavier_normal(nrows, ncols),
        }
    }

    /// Generates a matrix of size `(nrows, 1)`: a column vector.
    pub fn gen_vector(&self, nrows: usize) -> (r: Result<Matrix, NnError>)
        requires
            nrows < usize::MAX,
        ensures
            r is Ok <==> self.gen_accepts(nrows, 1),
            match r {
                Ok(m) => m.wf() && m.rows == nrows && m.cols == 1 && self.cells_ok(nrows, 1, m@),
                Err(e) => e == NnError::InvalidConfiguration,
            },
    {
        self.gen_matrix_internal(nrows, 1)
    }

    /// Generates a matrix of size `(nrows, ncols)`.
    pub fn gen_matrix(&self, nrows: usize, ncols: usize) -> (r: Result<Matrix, NnError>)
        requires
            nrows + ncols <= usize::MAX,
        ensures
            r is Ok <==> self.gen_accepts(nrows, ncols),
            match r {
                Ok(m) => m.wf() && m.rows == nrows && m.cols == ncols && self.cells_ok(
                    nrows,
                    ncols,
                    m@,
                ),
                Err(e) => e == NnError::InvalidConfiguration,
            },
    {
        self.gen_matrix_internal(nrows, ncols)
    }
}

} // verus!
