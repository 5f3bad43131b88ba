//! The composed layer: one dense transform, one activation, and optional
//! inverted-dropout masking between them. The mask is resampled on every
//! forward pass with dropout enabled, retained for the matching backward
//! pass, and scaled by `1 / (1 - rate)` so the expected activation
//! magnitude is preserved; a rate of one leaves every cell dropped.

use vstd::prelude::*;
use vstd::pervasive::unreached;

use crate::activation::{act_rel, ActivationLayer};
use crate::error::NnError;
use crate::layer::{vecs_view, DropoutLayer, Layer, LearnableLayer};
use crate::matrix::{canon, ew2_grid, EwOp, Matrix};
use crate::layer::dense_layer::{dense_forward_state, lemma_backward_rel_canon, DenseLayer};
use crate::scalar::{
    div_bits, le_bits, lt_bits, mag_bits, mul_bits, norm_bits, sub_bits, fp_div, fp_le, fp_lt,
    fp_sample_uniform, fp_sub, BOUNDED_MAG_BITS, ONE_BITS, ZERO_BITS,
};

verus! {

broadcast use crate::scalar::lemma_norm_bits_idempotent;

/// The factor a kept cell is scaled by: `1 / (1 - rate)`.
pub open spec fn mask_scale(rate: u64) -> u64 {
    div_bits(ONE_BITS, sub_bits(ONE_BITS, rate))
}

/// The rate a layer masks with: its configured rate, or zero when none is
/// set.
pub open spec fn rate_or_zero(rate: Option<u64>) -> u64 {
    match rate {
        Option::Some(r) => r,
        Option::None => ZERO_BITS,
    }
}

/// A dropout mask grid holds only the kept scale (up to NaN normalization)
/// and the exact zero.
pub open spec fn mask_cells_ok(m: Seq<Seq<u64>>, rate: u64) -> bool {
    forall|i: int, j: int|
        0 <= i < m.len() && 0 <= j < m[i].len() ==> norm_bits(#[trigger] m[i][j]) == mask_scale(
            rate,
        ) || m[i][j] == ZERO_BITS
}

/// A full layer: dense transform, activation, and the dropout switch, rate
/// and last sampled mask.
pub struct FullLayer {
    /// The affine transform and its learnable state.
    pub dense: DenseLayer,
    /// The activation pass run on the (possibly masked) dense output.
    pub activation: ActivationLayer,
    /// Whether forward masks the dense output.
    pub dropout_enabled: bool,
    /// The configured dropout rate, within `[0, 1]` when present.
    pub dropout_rate: Option<u64>,
    /// The mask sampled by the last dropout-enabled forward pass.
    pub mask: Option<Matrix>,
}

impl FullLayer {
    /// Builds the composed layer; a dropout rate outside `[0, 1]` is
    /// rejected with `InvalidConfiguration` before any pass can run, and
    /// dropout starts enabled exactly when a rate was given.
    pub fn new(dense: DenseLayer, activation: ActivationLayer, dropout_rate: Option<u64>) -> (r: Result<
        FullLayer,
        NnError,
    >)
        ensures
            match r {
                Ok(l) => l.dense == dense && l.activation == activation && l.dropout_enabled
                    == (dropout_rate is Some) && l.dropout_rate == dropout_rate && l.mask is None
                    && (dropout_rate is Some ==> le_bits(ZERO_BITS, dropout_rate.unwrap())
                    && le_bits(dropout_rate.unwrap(), ONE_BITS)),
                Err(e) => e == NnError::InvalidConfiguration && dropout_rate is Some && !(le_bits(
                    ZERO_BITS,
                    dropout_rate.unwrap(),
                ) && le_bits(dropout_rate.unwrap(), ONE_BITS)),
            },
    {
        if let Some(rate) = dropout_rate {
            if !(fp_le(ZERO_BITS, rate) && fp_le(rate, ONE_BITS)) {
                return Err(NnError::InvalidConfiguration);
            }
        }
        Ok(
            FullLayer {
                dense,
                activation,
                dropout_enabled: dropout_rate.is_some(),
                dropout_rate,
                mask: None,
            },
        )
    }

    /// Samples a fresh inverted-dropout mask of the given shape: each cell
    /// keeps (holding `1 / (1 - rate)`) when its uniform draw from `[0, 1)`
    /// falls below `1 - rate`, and drops (holding zero) otherwise. The unit
    /// range is always accepted by the sampler, so this cannot fail.
    fn generate_dropout_mask(&self, output_shape: (usize, usize)) -> (m: Matrix)
        ensures
            m.wf(),
            m.rows == output_shape.0,
            m.cols == output_shape.1,
            mask_cells_ok(m@, rate_or_zero(self.dropout_rate)),
    {
        let rate = match self.dropout_rate {
            Some(r) => r,
            None => ZERO_BITS,
        };
        let threshold = fp_sub(ONE_BITS, rate);
        let keep_scale = fp_div(ONE_BITS, threshold);
        proof {
            assert(lt_bits(ZERO_BITS, ONE_BITS));
            assert(mag_bits(ZERO_BITS) <= BOUNDED_MAG_BITS);
            assert(mag_bits(ONE_BITS) <= BOUNDED_MAG_BITS);
        }
        let mut data: Vec<Vec<u64>> = Vec::new();
        let mut i: usize = 0;
        while i < output_shape.0
            invariant
                i <= output_shape.0,
                data@.len() == i,
                norm_bits(threshold) == sub_bits(ONE_BITS, rate),
                norm_bits(keep_scale) == mask_scale(rate),
                rate == rate_or_zero(self.dropout_rate),
                forall|p: int| 0 <= p < i ==> (#[trigger] data@[p]@).len() == output_shape.1,
                forall|p: int, q: int|
                    0 <= p < i && 0 <= q < output_shape.1 ==> norm_bits(#[trigger] data@[p]@[q])
                        == mask_scale(rate) || data@[p]@[q] == ZERO_BITS,
            decreases output_shape.0 - i,
        {
            let mut row: Vec<u64> = Vec::new();
            let mut j: usize = 0;
            while j < output_shape.1
                invariant
                    j <= output_shape.1,
                    row@.len() == j,
                    norm_bits(threshold) == sub_bits(ONE_BITS, rate),
                    norm_bits(keep_scale) == mask_scale(rate),
                    forall|q: int|
                        0 <= q < j ==> norm_bits(#[trigger] row@[q]) == mask_scale(rate) || row@[q]
                            == ZERO_BITS,
                decreases output_shape.1 - j,
            {
                let draw = match fp_sample_uniform(ZERO_BITS, ONE_BITS) {
                    Some(u) => u,
                    None => {
                        proof {
                            assert(lt_bits(ZERO_BITS, ONE_BITS));
                        }
                        unreached()
                    },
                };
                if fp_lt(draw, threshold) {
                    row.push(keep_scale);
                } else {
                    row.push(ZERO_BITS);
                }
                j += 1;
            }
            data.push(row);
            i += 1;
        }
        Matrix { rows: output_shape.0, cols: output_shape.1, data }
    }
}

/// Forward enables backward: after a successful forward pass on a layer
/// whose dense bias is the one-row tensor the constructor builds and whose
/// optimizers' moment state fits its tensors, every stage of a backward
/// pass with a gradient shaped like the forward output is owed success:
/// the activation accepts it, any mask in use matches it, and the dense
/// transform accepts what comes through.
pub proof fn lemma_forward_enables_backward(pre: FullLayer, post: FullLayer, input: Matrix, out: Matrix)
    requires
        FullLayer::forward_post(pre, post, input, Ok(out)),
        pre.dense.bias.rows == 1,
        pre.dense.bias.cols == pre.dense.weights.cols,
        pre.dense.moments_fit(pre.dense.weights.cols as nat),
    ensures
        post.activation.backward_accepts(out.rows as nat, out.cols as nat),
        post.dropout_enabled && post.mask is Some ==> post.mask.unwrap().rows == out.rows
            && post.mask.unwrap().cols == out.cols,
        post.dense.backward_accepts(out.rows as nat, out.cols as nat),
{
}

impl Layer for FullLayer {
    open spec fn layer_wf(&self) -> bool {
        self.dense.layer_wf() && self.activation.layer_wf() && (self.mask is Some
            ==> self.mask.unwrap().wf())
    }

    open spec fn backward_req(&self, epoch: usize) -> bool {
        self.dense.backward_req(epoch)
    }

    /// Forward runs the dense transform, masks its output when dropout is
    /// enabled (retaining the freshly sampled mask), then runs the
    /// activation; it caches the masked grid as the activation's input. It
    /// succeeds exactly on the input shapes the dense transform accepts.
    open spec fn forward_post(pre: Self, post: Self, input: Matrix, r: Result<Matrix, NnError>) -> bool {
        let z = pre.dense.affine_grid(input@, input.rows as nat);
        match r {
            Ok(out) => {
                let masked = if pre.dropout_enabled {
                    ew2_grid(EwOp::Mul, z, post.mask.unwrap()@)
                } else {
                    z
                };
                pre.dense.forward_accepts(input.rows as nat, input.cols as nat)
                    && dense_forward_state(
                    pre.dense,
                    post.dense,
                    input@,
                    input.rows as nat,
                    input.cols as nat,
                ) && post.dropout_enabled == pre.dropout_enabled && post.dropout_rate
                    == pre.dropout_rate && (pre.dropout_enabled ==> post.mask is Some
                    && post.mask.unwrap().wf() && post.mask.unwrap().rows == input.rows
                    && post.mask.unwrap().cols == pre.dense.weights.cols && mask_cells_ok(
                    post.mask.unwrap()@,
                    rate_or_zero(pre.dropout_rate),
                )) && (!pre.dropout_enabled ==> post.mask == pre.mask) && out.wf() && out.rows
                    == input.rows && out.cols == pre.dense.weights.cols
                    && post.activation.activation == pre.activation.activation
                    && post.activation.derivative == pre.activation.derivative
                    && post.activation.input is Some && canon(post.activation.input.unwrap()@)
                    == masked && post.activation.input.unwrap().rows == input.rows
                    && post.activation.input.unwrap().cols == pre.dense.weights.cols && act_rel(
                    pre.activation.activation,
                    post.activation.input.unwrap()@,
                    out@,
                ) && post.activation.output is Some && post.activation.output.unwrap()@ == out@
                    && post.activation.output.unwrap().rows == out.rows
                    && post.activation.output.unwrap().cols == out.cols
            },
            Err(e) => post == pre && e == NnError::ShapeMismatch && !pre.dense.forward_accepts(
                input.rows as nat,
                input.cols as nat,
            ),
        }
    }

    /// Backward runs the activation's backward, multiplies the retained
    /// mask into the resulting gradient when dropout applied, and hands the
    /// product to the dense transform's backward.
    open spec fn backward_post(pre: Self, post: Self, epoch: usize, g: Matrix, r: Result<Matrix, NnError>) -> bool {
        let grows = g.rows as nat;
        let gcols = g.cols as nat;
        let ag = pre.activation.abwd_grid(g@);
        let used = pre.dropout_enabled && pre.mask is Some;
        let dg = if used {
            ew2_grid(EwOp::Mul, ag, pre.mask.unwrap()@)
        } else {
            ag
        };
        post.activation == pre.activation && post.dropout_enabled == pre.dropout_enabled
            && post.dropout_rate == pre.dropout_rate && post.mask == pre.mask && if !pre.activation.backward_accepts(
            grows,
            gcols,
        ) {
            post == pre && match r {
                Ok(_) => false,
                Err(e) => (e == NnError::UninitializedState <==> pre.activation.cache() is None)
                    && (e == NnError::ShapeMismatch <==> pre.activation.cache() is Some),
            }
        } else if used && !(pre.mask.unwrap().rows == g.rows && pre.mask.unwrap().cols
            == g.cols) {
            post == pre && (r matches Err(e) && e == NnError::ShapeMismatch)
        } else {
            DenseLayer::backward_rel(pre.dense, post.dense, epoch, dg, grows, gcols, r)
        }
    }

    fn forward(&mut self, input: Matrix) -> (r: Result<Matrix, NnError>) {
        if input.cols != self.dense.weights.rows || !(self.dense.bias.rows == input.rows
            || self.dense.bias.rows == 1) || !(self.dense.bias.cols == self.dense.weights.cols
            || self.dense.bias.cols == 1) {
            return Err(NnError::ShapeMismatch);
        }
        let out_rows = input.rows;
        let out_cols = self.dense.weights.cols;
        let ghost z = self.dense.affine_grid(input@, input.rows as nat);
        if self.dropout_enabled {
            let mask = self.generate_dropout_mask((out_rows, out_cols));
            let dense_output = match self.dense.forward(input) {
                Ok(x) => x,
                Err(_) => unreached(),
            };
            let masked = match dense_output.component_mul(&mask) {
                Ok(x) => x,
                Err(_) => unreached(),
            };
            proof {
                assert forall|ii: int, jj: int|
                    0 <= ii < dense_output@.len() && 0 <= jj
                        < dense_output@[ii].len() implies mul_bits(
                    dense_output@[ii][jj],
                    mask@[ii][jj],
                ) == mul_bits(z[ii][jj], mask@[ii][jj]) by {
                    assert(canon(dense_output@)[ii][jj] == norm_bits(dense_output@[ii][jj]));
                }
                assert(ew2_grid(EwOp::Mul, dense_output@, mask@) =~~= ew2_grid(
                    EwOp::Mul,
                    z,
                    mask@,
                ));
            }
            self.mask = Some(mask);
            let out = match self.activation.forward(masked) {
                Ok(o) => o,
                Err(_) => unreached(),
            };
            Ok(out)
        } else {
            let dense_output = match self.dense.forward(input) {
                Ok(x) => x,
                Err(_) => unreached(),
            };
            let out = match self.activation.forward(dense_output) {
                Ok(o) => o,
                Err(_) => unreached(),
            };
            Ok(out)
        }
    }

    fn backward(&mut self, epoch: usize, output_gradient: Matrix) -> (r: Result<Matrix, NnError>) {
        let ghost g = output_gradient;
        let ghost ag = self.activation.abwd_grid(output_gradient@);
        let activation_input_gradient = match self.activation.backward(epoch, output_gradient) {
            Ok(a) => a,
            Err(e) => {
                return Err(e);
            },
        };
        if self.dropout_enabled {
            match &self.mask {
                Some(mask) => {
                    let masked_gradient = match activation_input_gradient.component_mul(mask) {
                        Ok(x) => x,
                        Err(_) => {
                            return Err(NnError::ShapeMismatch);
                        },
                    };
                    let ghost dg = ew2_grid(EwOp::Mul, ag, self.mask.unwrap()@);
                    proof {
                        assert forall|ii: int, jj: int|
                            0 <= ii < g.rows && 0 <= jj < g.cols implies norm_bits(
                            #[trigger] masked_gradient@[ii][jj],
                        ) == norm_bits(dg[ii][jj]) by {
                            assert(canon(masked_gradient@)[ii][jj] == norm_bits(
                                masked_gradient@[ii][jj],
                            ));
                            assert(canon(activation_input_gradient@)[ii][jj] == norm_bits(
                                activation_input_gradient@[ii][jj],
                            ));
                        }
                    }
                    let r = self.dense.backward(epoch, masked_gradient);
                    proof {
                        lemma_backward_rel_canon(
                            old(self).dense,
                            self.dense,
                            epoch,
                            masked_gradient@,
                            dg,
                            g.rows as nat,
                            g.cols as nat,
                            r,
                        );
                    }
                    r
                },
                None => {
                    let r = self.dense.backward(epoch, activation_input_gradient);
                    proof {
                        assert forall|ii: int, jj: int|
                            0 <= ii < g.rows && 0 <= jj < g.cols implies norm_bits(
                            #[trigger] activation_input_gradient@[ii][jj],
                        ) == norm_bits(ag[ii][jj]) by {
                            assert(canon(activation_input_gradient@)[ii][jj] == norm_bits(
                                activation_input_gradient@[ii][jj],
                            ));
                            assert(canon(g@)[ii][jj] == norm_bits(g@[ii][jj]));
                        }
                        lemma_backward_rel_canon(
                            old(self).dense,
                            self.dense,
                            epoch,
                            activation_input_gradient@,
                            ag,
                            g.rows as nat,
                            g.cols as nat,
                            r,
                        );
                    }
                    r
                },
            }
        } else {
            let r = self.dense.backward(epoch, activation_input_gradient);
            proof {
                assert forall|ii: int, jj: int|
                    0 <= ii < g.rows && 0 <= jj < g.cols implies norm_bits(
                    #[trigger] activation_input_gradient@[ii][jj],
                ) == norm_bits(ag[ii][jj]) by {
                    assert(canon(activation_input_gradient@)[ii][jj] == norm_bits(
                        activation_input_gradient@[ii][jj],
                    ));
                    assert(canon(g@)[ii][jj] == norm_bits(g@[ii][jj]));
                }
                lemma_backward_rel_canon(
                    old(self).dense,
                    self.dense,
                    epoch,
                    activation_input_gradient@,
                    ag,
                    g.rows as nat,
                    g.cols as nat,
                    r,
                );
            }
            r
        }
    }
}

impl LearnableLayer for FullLayer {
    open spec fn ll_wf(&self) -> bool {
        self.dense.ll_wf()
    }

    open spec fn params_view(&self) -> Seq<Seq<u64>> {
        self.dense.params_view()
    }

    open spec fn accepts_params(&self, params: Seq<Seq<u64>>) -> bool {
        self.dense.accepts_params(params)
    }

    /// Delegates to the dense transform; everything else stays.
    open spec fn after_set(pre: Self, post: Self, params: Seq<Seq<u64>>) -> bool {
        post.activation == pre.activation && post.dropout_enabled == pre.dropout_enabled
            && post.dropout_rate == pre.dropout_rate && post.mask == pre.mask
            && DenseLayer::after_set(pre.dense, post.dense, params)
    }

    /// Returns the dense transform's weight columns and bias column.
    fn get_learnable_parameters(&self) -> (r: Vec<Vec<u64>>) {
        self.dense.get_learnable_parameters()
    }

    /// Restores the dense transform's weights and bias.
    fn set_learnable_parameters(&mut self, params_matrix: &Vec<Vec<u64>>) {
        self.dense.set_learnable_parameters(params_matrix)
    }
}

impl DropoutLayer for FullLayer {
    /// Turns masking on; the configured rate (or zero) applies again.
    fn enable_dropout(&mut self)
        ensures
            *final(self) == (FullLayer { dropout_enabled: true, ..*old(self) }),
    {
        self.dropout_enabled = true;
    }

    /// Turns masking off for inference.
    fn disable_dropout(&mut self)
        ensures
            *final(self) == (FullLayer { dropout_enabled: false, ..*old(self) }),
    {
        self.dropout_enabled = false;
    }
}

} // verus!
