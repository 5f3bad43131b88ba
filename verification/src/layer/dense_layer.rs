//! The dense affine transform: `output = input . weights + bias`, with the
//! weights shaped `(in, out)` and the bias a single `(1, out)` row that is
//! broadcast across the batch. Backward differentiates that convention
//! exactly: the weight gradient is `input^T . g`, the bias gradient the
//! column sums of `g`, and the returned gradient `g . weights^T`; each
//! learnable tensor is then stepped by its own optimizer.

use vstd::prelude::*;
use vstd::pervasive::unreached;

use crate::error::NnError;
use crate::initializer::Initializers;
use crate::layer::{vecs_view, Layer, LearnableLayer};
use crate::matrix::{
    broadcast_grid, canon, cellwise, col_sum, column_of, const_grid, dot_cell, dot_grid, ew2_grid,
    lemma_col_sum_norm, lemma_dot_cell_norm_left, lemma_dot_cell_norm_right, transpose_grid,
    Axis, EwOp, Matrix,
};
use crate::optimizer::adam::{lemma_step_grids_canon, step_grids_ok};
use crate::scalar::norm_bits;
use crate::optimizer::Optimizers;

verus! {

broadcast use crate::scalar::lemma_norm_bits_idempotent;

/// An affine layer: learnable weights and bias, the cached last forward
/// input, and one optimizer dedicated to each learnable tensor.
pub struct DenseLayer {
    /// The last forward input, absent until the first forward pass.
    pub input: Option<Matrix>,
    /// The weight matrix, shaped `(in, out)`.
    pub weights: Matrix,
    /// The bias row, shaped `(1, out)`.
    pub bias: Matrix,
    /// The optimizer owning the weights' moment history.
    pub weights_optimizer: Optimizers,
    /// The optimizer owning the bias' moment history.
    pub bias_optimizer: Optimizers,
}

/// The state a forward pass leaves: the input cached, everything learnable
/// untouched.
pub open spec fn dense_forward_state(pre: DenseLayer, post: DenseLayer, xv: Seq<Seq<u64>>, xrows: nat, xcols: nat) -> bool {
    post.weights == pre.weights && post.bias == pre.bias && post.weights_optimizer
        == pre.weights_optimizer && post.bias_optimizer == pre.bias_optimizer && post.input
        is Some && post.input.unwrap()@ == xv && post.input.unwrap().rows == xrows
        && post.input.unwrap().cols == xcols
}

/// The weight-gradient grid: `input^T . g`.
pub open spec fn wgrad_grid(pre: DenseLayer, g: Seq<Seq<u64>>, gcols: nat) -> Seq<Seq<u64>> {
    let x = pre.input.unwrap();
    dot_grid(
        transpose_grid(x@, x.rows as nat, x.cols as nat),
        g,
        x.cols as nat,
        x.rows as nat,
        gcols,
    )
}

/// The bias-gradient grid: the column sums of `g`, one row.
pub open spec fn bgrad_grid(g: Seq<Seq<u64>>, grows: nat, gcols: nat) -> Seq<Seq<u64>> {
    cellwise(1, gcols, |i: int, j: int| col_sum(g, j, grows as int))
}

/// The returned gradient grid: `g . weights^T`, over the weights as they
/// stood before their update.
pub open spec fn ingrad_grid(pre: DenseLayer, g: Seq<Seq<u64>>, grows: nat, gcols: nat) -> Seq<Seq<u64>> {
    dot_grid(
        g,
        transpose_grid(pre.weights@, pre.weights.rows as nat, pre.weights.cols as nat),
        grows,
        gcols,
        pre.weights.rows as nat,
    )
}

impl DenseLayer {
    /// The layer's matrices and optimizers are well formed.
    pub open spec fn dwf(&self) -> bool {
        self.weights.wf() && self.bias.wf() && (self.input is Some
            ==> self.input.unwrap().wf()) && self.weights_optimizer.wf()
            && self.bias_optimizer.wf()
    }

    /// The input shapes a forward pass is owed to accept: the inner
    /// dimensions of the product agree and the bias reaches the output
    /// shape by broadcast.
    pub open spec fn forward_accepts(&self, xrows: nat, xcols: nat) -> bool {
        xcols == self.weights.rows && (self.bias.rows == xrows || self.bias.rows == 1) && (
        self.bias.cols == self.weights.cols || self.bias.cols == 1)
    }

    /// The affine output grid: `x . weights`, plus the bias broadcast over
    /// it.
    pub open spec fn affine_grid(&self, x: Seq<Seq<u64>>, xrows: nat) -> Seq<Seq<u64>> {
        let z = dot_grid(
            x,
            self.weights@,
            xrows,
            self.weights.rows as nat,
            self.weights.cols as nat,
        );
        let b = broadcast_grid(
            self.bias@,
            self.bias.rows as nat,
            self.bias.cols as nat,
            xrows,
            self.weights.cols as nat,
        );
        ew2_grid(EwOp::Add, z, b)
    }

    /// The gradient geometry a backward pass is owed to accept: a forward
    /// ran, and the upstream gradient matches the cached input and the
    /// current parameter shapes.
    pub open spec fn geometry_ok(&self, grows: nat, gcols: nat) -> bool {
        self.input is Some && grows == self.input.unwrap().rows && self.weights.rows
            == self.input.unwrap().cols && gcols == self.weights.cols && self.bias.rows == 1
            && self.bias.cols == gcols
    }

    /// Any moment state the two optimizers carry matches the tensors they
    /// are about to step.
    pub open spec fn moments_fit(&self, gcols: nat) -> bool {
        (self.weights_optimizer.inner().m is Some ==> self.weights_optimizer.inner().m.unwrap().rows
            == self.weights.rows && self.weights_optimizer.inner().m.unwrap().cols
            == self.weights.cols) && (self.bias_optimizer.inner().m is Some
            ==> self.bias_optimizer.inner().m.unwrap().rows == 1
                && self.bias_optimizer.inner().m.unwrap().cols == gcols)
    }

    /// When a backward pass is owed success.
    pub open spec fn backward_accepts(&self, grows: nat, gcols: nat) -> bool {
        self.geometry_ok(grows, gcols) && self.moments_fit(gcols)
    }

    /// The whole backward relation, over the gradient's view and shape, so
    /// that a composed layer can reuse it for the gradient it hands down.
    pub open spec fn backward_rel(pre: DenseLayer, post: DenseLayer, epoch: usize, gv: Seq<Seq<u64>>, grows: nat, gcols: nat, r: Result<
        Matrix,
        NnError,
    >) -> bool {
        match r {
            Ok(out) => pre.backward_accepts(grows, gcols) && post.input == pre.input
                && post.weights.wf() && post.weights.rows == pre.weights.rows && post.weights.cols
                == pre.weights.cols && post.bias.wf() && post.bias.rows == 1 && post.bias.cols
                == gcols && step_grids_ok(
                pre.weights_optimizer.inner(),
                post.weights_optimizer.inner(),
                pre.weights@,
                wgrad_grid(pre, gv, gcols),
                pre.weights.rows as nat,
                pre.weights.cols as nat,
                epoch,
                post.weights@,
            ) && step_grids_ok(
                pre.bias_optimizer.inner(),
                post.bias_optimizer.inner(),
                pre.bias@,
                bgrad_grid(gv, grows, gcols),
                1,
                gcols,
                epoch,
                post.bias@,
            ) && out.wf() && out.rows == grows && out.cols == pre.weights.rows && canon(out@)
                == ingrad_grid(pre, gv, grows, gcols),
            Err(e) => post == pre && !pre.backward_accepts(grows, gcols) && (e
                == NnError::UninitializedState <==> (pre.input is None || (pre.geometry_ok(
                grows,
                gcols,
            ) && !pre.moments_fit(gcols)))) && (e == NnError::ShapeMismatch <==> (pre.input
                is Some && !pre.geometry_ok(grows, gcols))),
        }
    }

    /// A fresh dense transform with `nrows` inputs and `ncols` outputs: the
    /// weights drawn `(nrows, ncols)` by the weight initializer, the bias
    /// drawn as a column of `ncols` values and laid out as the `(1, ncols)`
    /// row the forward convention broadcasts. Succeeds exactly when both
    /// initializers accept their shapes; the zero strategy yields the
    /// all-zero tensor.
    pub fn new(nrows: usize, ncols: usize, weights_optimizer: Optimizers, bias_optimizer: Optimizers, weight_initializer: Initializers, bias_initializer: Initializers) -> (r: Result<
        DenseLayer,
        NnError,
    >)
        requires
            nrows + ncols <= usize::MAX,
            ncols < usize::MAX,
            weights_optimizer.wf(),
            bias_optimizer.wf(),
        ensures
            r is Ok <==> weight_initializer.gen_accepts(nrows, ncols)
                && bias_initializer.gen_accepts(ncols, 1),
            match r {
                Ok(l) => l.dwf() && l.input is None && l.weights.rows == nrows && l.weights.cols
                    == ncols && l.bias.rows == 1 && l.bias.cols == ncols && l.weights_optimizer
                    == weights_optimizer && l.bias_optimizer == bias_optimizer
                    && (weight_initializer == Initializers::Zeros ==> l.weights@ == const_grid(
                    nrows as nat,
                    ncols as nat,
                    crate::scalar::ZERO_BITS,
                )) && (bias_initializer == Initializers::Zeros ==> l.bias@ == const_grid(
                    1,
                    ncols as nat,
                    crate::scalar::ZERO_BITS,
                )),
                Err(e) => e == NnError::InvalidConfiguration,
            },
    {
        let weights = match weight_initializer.gen_matrix(nrows, ncols) {
            Ok(w) => w,
            Err(e) => {
                return Err(e);
            },
        };
        let bias_column = match bias_initializer.gen_vector(ncols) {
            Ok(b) => b,
            Err(e) => {
                return Err(e);
            },
        };
        let bias = bias_column.transpose();
        proof {
            if bias_initializer == Initializers::Zeros {
                assert(bias@ =~~= const_grid(1, ncols as nat, crate::scalar::ZERO_BITS));
            }
        }
        Ok(
            DenseLayer {
                input: None,
                weights,
                bias,
                weights_optimizer,
                bias_optimizer,
            },
        )
    }
}

/// Forward enables backward: after a successful forward pass on a layer
/// whose bias is the one-row tensor the constructor builds and whose
/// optimizers' moment state fits its tensors, a backward pass with a
/// gradient shaped like the forward output is owed success.
pub proof fn lemma_forward_enables_backward(pre: DenseLayer, post: DenseLayer, input: Matrix, out: Matrix)
    requires
        DenseLayer::forward_post(pre, post, input, Ok(out)),
        pre.bias.rows == 1,
        pre.bias.cols == pre.weights.cols,
        pre.moments_fit(pre.weights.cols as nat),
    ensures
        post.backward_accepts(out.rows as nat, out.cols as nat),
{
}

/// The backward relation reads the gradient's cells only through
/// `norm_bits` (inside its product and sum folds), so gradients that agree
/// up to NaN normalization satisfy it together.
pub proof fn lemma_backward_rel_canon(pre: DenseLayer, post: DenseLayer, epoch: usize, g1: Seq<Seq<u64>>, g2: Seq<Seq<u64>>, grows: nat, gcols: nat, r: Result<
    Matrix,
    NnError,
>)
    requires
        DenseLayer::backward_rel(pre, post, epoch, g1, grows, gcols, r),
        forall|i: int, j: int|
            0 <= i < grows && 0 <= j < gcols ==> norm_bits(#[trigger] g1[i][j]) == norm_bits(
                g2[i][j],
            ),
    ensures
        DenseLayer::backward_rel(pre, post, epoch, g2, grows, gcols, r),
{
    if r is Ok {
        let x = pre.input.unwrap();
        let xt = transpose_grid(x@, x.rows as nat, x.cols as nat);
        let wt = transpose_grid(pre.weights@, pre.weights.rows as nat, pre.weights.cols as nat);
        assert forall|i: int, j: int| 0 <= i < x.cols && 0 <= j < gcols implies dot_cell(
            xt,
            g1,
            i,
            j,
            x.rows as int,
        ) == dot_cell(xt, g2, i, j, x.rows as int) by {
            lemma_dot_cell_norm_right(xt, g1, g2, i, j, x.rows as int);
        }
        assert(wgrad_grid(pre, g1, gcols) =~~= wgrad_grid(pre, g2, gcols));
        assert forall|j: int| 0 <= j < gcols implies col_sum(g1, j, grows as int) == col_sum(
            g2,
            j,
            grows as int,
        ) by {
            lemma_col_sum_norm(g1, g2, j, grows as int);
        }
        assert(bgrad_grid(g1, grows, gcols) =~~= bgrad_grid(g2, grows, gcols));
        assert forall|i: int, j: int| 0 <= i < grows && 0 <= j < pre.weights.rows implies
            dot_cell(g1, wt, i, j, gcols as int) == dot_cell(g2, wt, i, j, gcols as int) by {
            lemma_dot_cell_norm_left(g1, g2, wt, i, j, gcols as int);
        }
        assert(ingrad_grid(pre, g1, grows, gcols) =~~= ingrad_grid(pre, g2, grows, gcols));
    }
}

impl Layer for DenseLayer {
    open spec fn layer_wf(&self) -> bool {
        self.dwf()
    }

    /// Both step counters must still have room to advance.
    open spec fn backward_req(&self, epoch: usize) -> bool {
        self.weights_optimizer.inner().t < usize::MAX && self.bias_optimizer.inner().t
            < usize::MAX
    }

    /// Forward succeeds exactly on the accepted shapes, caches the input,
    /// and returns the affine output; on refusal nothing changes.
    open spec fn forward_post(pre: Self, post: Self, input: Matrix, r: Result<Matrix, NnError>) -> bool {
        match r {
            Ok(out) => pre.forward_accepts(input.rows as nat, input.cols as nat)
                && dense_forward_state(pre, post, input@, input.rows as nat, input.cols as nat)
                && out.wf() && out.rows == input.rows && out.cols == pre.weights.cols && canon(out@)
                == pre.affine_grid(input@, input.rows as nat),
            Err(e) => post == pre && e == NnError::ShapeMismatch && !pre.forward_accepts(
                input.rows as nat,
                input.cols as nat,
            ),
        }
    }

    /// Backward succeeds exactly on the accepted geometry, steps both
    /// learnable tensors through their optimizers, and returns the gradient
    /// for the layer below; a missing forward surfaces as
    /// `UninitializedState`.
    open spec fn backward_post(pre: Self, post: Self, epoch: usize, g: Matrix, r: Result<Matrix, NnError>) -> bool {
        DenseLayer::backward_rel(pre, post, epoch, g@, g.rows as nat, g.cols as nat, r)
    }

    fn forward(&mut self, input: Matrix) -> (r: Result<Matrix, NnError>) {
        if input.cols != self.weights.rows || !(self.bias.rows == input.rows || self.bias.rows
            == 1) || !(self.bias.cols == self.weights.cols || self.bias.cols == 1) {
            return Err(NnError::ShapeMismatch);
        }
        let weighted_input = match input.matrix_mul(&self.weights) {
            Ok(z) => z,
            Err(_) => unreached(),
        };
        let weighted_shape = weighted_input.shape();
        let spread = match self.bias.broadcast(weighted_shape) {
            Ok(b) => b,
            Err(_) => unreached(),
        };
        let res = match weighted_input.component_add(&spread) {
            Ok(x) => x,
            Err(_) => unreached(),
        };
        proof {
            let aff = self.affine_grid(input@, input.rows as nat);
            assert forall|ii: int, jj: int|
                0 <= ii < res@.len() && 0 <= jj < res@[ii].len() implies norm_bits(
                #[trigger] res@[ii][jj],
            ) == aff[ii][jj] by {
                assert(canon(res@)[ii][jj] == norm_bits(res@[ii][jj]));
                assert(canon(weighted_input@)[ii][jj] == norm_bits(weighted_input@[ii][jj]));
            }
            assert(canon(res@) =~~= aff);
        }
        self.input = Some(input);
        Ok(res)
    }

    fn backward(&mut self, epoch: usize, output_gradient: Matrix) -> (r: Result<Matrix, NnError>) {
        let x = match &self.input {
            Some(x) => x,
            None => {
                return Err(NnError::UninitializedState);
            },
        };
        if output_gradient.rows != x.rows || self.weights.rows != x.cols || output_gradient.cols
            != self.weights.cols || self.bias.rows != 1 || self.bias.cols
            != output_gradient.cols {
            return Err(NnError::ShapeMismatch);
        }
        if !self.weights_optimizer.moments_fit(self.weights.rows, self.weights.cols)
            || !self.bias_optimizer.moments_fit(1, output_gradient.cols) {
            return Err(NnError::UninitializedState);
        }
        let ghost gv = output_gradient@;
        let ghost grows = output_gradient.rows as nat;
        let ghost gcols = output_gradient.cols as nat;
        let weights_gradient = match x.transpose().dot(&output_gradient) {
            Ok(w) => w,
            Err(_) => unreached(),
        };
        let biases_gradient = output_gradient.sum_axis(Axis::Rows);
        let input_gradient = match output_gradient.dot(&self.weights.transpose()) {
            Ok(m) => m,
            Err(_) => unreached(),
        };
        proof {
            assert(canon(weights_gradient@) =~~= wgrad_grid(*old(self), gv, gcols));
            assert(canon(biases_gradient@) =~~= bgrad_grid(gv, grows, gcols));
            assert(canon(input_gradient@) =~~= ingrad_grid(*old(self), gv, grows, gcols));
        }
        let new_weights = match self.weights_optimizer.update(
            &self.weights,
            &weights_gradient,
            epoch,
        ) {
            Ok(w) => w,
            Err(_) => unreached(),
        };
        proof {
            assert forall|ii: int, jj: int|
                0 <= ii < old(self).weights.rows && 0 <= jj < old(self).weights.cols implies
                norm_bits(#[trigger] weights_gradient@[ii][jj]) == norm_bits(
                wgrad_grid(*old(self), gv, gcols)[ii][jj],
            ) by {
                assert(canon(weights_gradient@)[ii][jj] == norm_bits(weights_gradient@[ii][jj]));
            }
            lemma_step_grids_canon(
                old(self).weights_optimizer.inner(),
                self.weights_optimizer.inner(),
                old(self).weights@,
                weights_gradient@,
                wgrad_grid(*old(self), gv, gcols),
                old(self).weights.rows as nat,
                old(self).weights.cols as nat,
                epoch,
                new_weights@,
            );
        }
        self.weights = new_weights;
        let new_bias = match self.bias_optimizer.update(&self.bias, &biases_gradient, epoch) {
            Ok(b) => b,
            Err(_) => unreached(),
        };
        proof {
            assert forall|ii: int, jj: int|
                0 <= ii < 1 && 0 <= jj < gcols implies norm_bits(
                #[trigger] biases_gradient@[ii][jj],
            ) == norm_bits(bgrad_grid(gv, grows, gcols)[ii][jj]) by {
                assert(canon(biases_gradient@)[ii][jj] == norm_bits(biases_gradient@[ii][jj]));
            }
            lemma_step_grids_canon(
                old(self).bias_optimizer.inner(),
                self.bias_optimizer.inner(),
                old(self).bias@,
                biases_gradient@,
                bgrad_grid(gv, grows, gcols),
                1,
                gcols,
                epoch,
                new_bias@,
            );
        }
        self.bias = new_bias;
        Ok(input_gradient)
    }
}

impl LearnableLayer for DenseLayer {
    open spec fn ll_wf(&self) -> bool {
        self.dwf() && self.bias.rows == 1
    }

    /// The weight columns in order, then the bias as one flat column.
    open spec fn params_view(&self) -> Seq<Seq<u64>> {
        Seq::new(
            (self.weights.cols + 1) as nat,
            |j: int|
                if j < self.weights.cols {
                    column_of(self.weights@, self.weights.rows as nat, j)
                } else {
                    Seq::new(self.bias.cols as nat, |i: int| self.bias@[0][i])
                },
        )
    }

    /// At least one weight column, and all weight columns of one length.
    open spec fn accepts_params(&self, params: Seq<Seq<u64>>) -> bool {
        params.len() >= 2 && forall|j: int|
            0 <= j < params.len() - 1 ==> (#[trigger] params[j]).len() == params[0].len()
    }

    /// The weights are rebuilt from all columns but the last, the bias from
    /// the last; caches and optimizers stay as they were.
    open spec fn after_set(pre: Self, post: Self, params: Seq<Seq<u64>>) -> bool {
        let wcols = (params.len() - 1) as nat;
        let wrows = params[0].len();
        post.input == pre.input && post.weights_optimizer == pre.weights_optimizer
            && post.bias_optimizer == pre.bias_optimizer && post.weights.wf()
            && post.weights.rows == wrows && post.weights.cols == wcols && post.weights@
            == cellwise(wrows, wcols, |i: int, j: int| params[j][i]) && post.bias.wf()
            && post.bias.rows == 1 && post.bias.cols == params[params.len() - 1].len()
            && post.bias@ == cellwise(
            1,
            params[params.len() - 1].len(),
            |i: int, j: int| params[params.len() - 1][j],
        )
    }

    fn get_learnable_parameters(&self) -> (r: Vec<Vec<u64>>) {
        let mut params = self.weights.get_data_col_leading();
        let bias_column = self.bias.transpose().get_column(0);
        params.push(bias_column);
        proof {
            assert forall|i: int| 0 <= i < params@.len() implies #[trigger] params@[i]@
                == self.params_view()[i] by {
                if i < self.weights.cols {
                    assert(params@[i]@ == column_of(self.weights@, self.weights.rows as nat, i));
                } else {
                    assert(params@[i]@ =~= Seq::new(
                        self.bias.cols as nat,
                        |k: int| self.bias@[0][k],
                    ));
                }
            }
        }
        params
    }

    fn set_learnable_parameters(&mut self, params_matrix: &Vec<Vec<u64>>) {
        let n = params_matrix.len();
        let mut weight_columns: Vec<Vec<u64>> = Vec::new();
        let mut j: usize = 0;
        while j < n - 1
            invariant
                n == params_matrix@.len(),
                n >= 2,
                j <= n - 1,
                weight_columns@.len() == j,
                forall|q: int| 0 <= q < j ==> #[trigger] weight_columns@[q]@ == params_matrix@[q]@,
            decreases n - 1 - j,
        {
            let column = params_matrix[j].clone();
            proof {
                assert(column@ =~= params_matrix@[j as int]@);
            }
            weight_columns.push(column);
            j += 1;
        }
        proof {
            let params = vecs_view(*params_matrix);
            assert forall|q: int| 0 <= q < weight_columns@.len() implies (
            #[trigger] weight_columns@[q]@).len() == weight_columns@[0]@.len() by {
                assert(params[q].len() == params[0].len());
            }
        }
        self.weights = Matrix::from_column_leading_vector2(&weight_columns);
        self.bias = Matrix::from_column_vector(&params_matrix[n - 1]).transpose();
        proof {
            let params = vecs_view(*params_matrix);
            assert(self.weights@ =~~= cellwise(
                params[0].len(),
                (params.len() - 1) as nat,
                |i: int, j: int| params[j][i],
            ));
            assert(self.bias@ =~~= cellwise(
                1,
                params[params.len() - 1].len(),
                |i: int, j: int| params[params.len() - 1][j],
            ));
        }
    }
}

} // verus!
