//! The Adam optimizer: per-tensor first and second moment estimates, a step
//! counter, and the bias-corrected adaptive update rule. One instance must
//! serve exactly one parameter tensor for its lifetime; its moments take the
//! shape of the first gradient they observe and never change it afterwards.
//!
//! Two update entry points exist, mirroring two styles of computing the same
//! rule; their operand orders differ cell by cell, so each carries its own
//! exact formula.

use vstd::prelude::*;
use vstd::pervasive::unreached;

use crate::error::NnError;
use crate::learning_rate::{default_learning_rate, LearningRateSchedule, DEFAULT_RATE_BITS};
use crate::matrix::{canon, cellwise, const_grid, Matrix, EwOp};
use crate::scalar::{
    add_bits, div_bits, mul_bits, norm_bits, pow_bits, sqrt_bits, sub_bits, fp_powi, fp_sub,
    ONE_BITS, ZERO_BITS,
};

verus! {

broadcast use crate::scalar::lemma_norm_bits_idempotent;

/// The bit pattern of the double `0.9`, the default first-moment decay.
pub const DEFAULT_BETA1_BITS: u64 = 0x3FEC_CCCC_CCCC_CCCD;

/// The bit pattern of the double `0.999`, the default second-moment decay.
pub const DEFAULT_BETA2_BITS: u64 = 0x3FEF_F7CE_D916_872B;

/// The bit pattern of the double `1e-8`, the default division guard.
pub const DEFAULT_EPSILON_BITS: u64 = 0x3E45_798E_E230_8C3A;

/// The Adam optimizer's hyperparameters and per-tensor state.
#[derive(Debug)]
pub struct AdamOptimizer {
    /// The epoch-to-rate rule consulted on every update.
    pub learning_rate_schedule: LearningRateSchedule,
    /// Exponential decay rate for the first moment estimate.
    pub beta1: u64,
    /// Exponential decay rate for the second moment estimate.
    pub beta2: u64,
    /// Small constant that keeps the denominator away from zero.
    pub epsilon: u64,
    /// First moment estimate, lazily shaped like the first gradient seen.
    pub m: Option<Matrix>,
    /// Second moment estimate, lazily shaped like the first gradient seen.
    pub v: Option<Matrix>,
    /// Step counter: the number of updates performed so far.
    pub t: usize,
}

/// The recorded moment grid, or the all-zero grid a fresh optimizer starts
/// from.
pub open spec fn moment_grid(m: Option<Matrix>, rows: nat, cols: nat) -> Seq<Seq<u64>> {
    match m {
        Option::Some(mm) => mm@,
        Option::None => const_grid(rows, cols, ZERO_BITS),
    }
}

/// One cell of the first-moment update of `update`:
/// `beta1 * m + (1 - beta1) * g`.
pub open spec fn adam_m_cell(b1: u64, m0: u64, g: u64) -> u64 {
    add_bits(mul_bits(b1, m0), mul_bits(sub_bits(ONE_BITS, b1), g))
}

/// One cell of the second-moment update of `update`:
/// `beta2 * v + (1 - beta2) * g * g`.
pub open spec fn adam_v_cell(b2: u64, v0: u64, g: u64) -> u64 {
    add_bits(mul_bits(b2, v0), mul_bits(sub_bits(ONE_BITS, b2), mul_bits(g, g)))
}

/// One cell of the parameter step of `update`: with the bias-corrected
/// moments `m^ = m' / (1 - beta1^t)` and `v^ = v' / (1 - beta2^t)`, the new
/// parameter is `p - lr * m^ / (sqrt(v^) + epsilon)`.
pub open spec fn adam_step_cell(p: u64, lr: u64, b1: u64, b2: u64, eps: u64, t: nat, m0: u64, v0: u64, g: u64) -> u64 {
    let m1 = adam_m_cell(b1, m0, g);
    let v1 = adam_v_cell(b2, v0, g);
    let mh = div_bits(m1, sub_bits(ONE_BITS, pow_bits(b1, t)));
    let vh = div_bits(v1, sub_bits(ONE_BITS, pow_bits(b2, t)));
    sub_bits(p, div_bits(mul_bits(lr, mh), add_bits(sqrt_bits(vh), eps)))
}

/// One cell of the first-moment update of `update_parameters`:
/// `m * beta1 + g * (1 - beta1)`.
pub open spec fn par_m_cell(b1: u64, m0: u64, g: u64) -> u64 {
    add_bits(mul_bits(m0, b1), mul_bits(g, sub_bits(ONE_BITS, b1)))
}

/// One cell of the second-moment update of `update_parameters`:
/// `v * beta2 + (g * g) * (1 - beta2)`.
pub open spec fn par_v_cell(b2: u64, v0: u64, g: u64) -> u64 {
    add_bits(mul_bits(v0, b2), mul_bits(mul_bits(g, g), sub_bits(ONE_BITS, b2)))
}

/// One cell of the parameter step of `update_parameters`: as
/// `adam_step_cell`, but the numerator multiplies the corrected moment by
/// the rate in the other order.
pub open spec fn par_step_cell(p: u64, alpha: u64, b1: u64, b2: u64, eps: u64, t: nat, m0: u64, v0: u64, g: u64) -> u64 {
    let m1 = par_m_cell(b1, m0, g);
    let v1 = par_v_cell(b2, v0, g);
    let mh = div_bits(m1, sub_bits(ONE_BITS, pow_bits(b1, t)));
    let vh = div_bits(v1, sub_bits(ONE_BITS, pow_bits(b2, t)));
    sub_bits(p, div_bits(mul_bits(mh, alpha), add_bits(sqrt_bits(vh), eps)))
}

/// The shapes on which an update is owed success: parameters and gradient
/// agree, and any recorded moment agrees with the gradient.
pub open spec fn update_accepts(pre: AdamOptimizer, params: Matrix, grads: Matrix) -> bool {
    params.rows == grads.rows && params.cols == grads.cols && (pre.m is Some
        ==> pre.m.unwrap().rows == grads.rows && pre.m.unwrap().cols == grads.cols)
}

/// What failure means for both update styles: the state is untouched and
/// the error tells which check refused the gradient.
pub open spec fn update_refused(pre: AdamOptimizer, post: AdamOptimizer, params: Matrix, grads: Matrix, e: NnError) -> bool {
    post == pre && !update_accepts(pre, params, grads) && (e == NnError::ShapeMismatch || e
        == NnError::UninitializedState) && (e == NnError::ShapeMismatch <==> !(params.rows
        == grads.rows && params.cols == grads.cols))
}

/// The grid-level story of one successful step in the cell-at-a-time style,
/// over the views of the parameter and gradient tensors: the counter
/// advances by one, the hyperparameters stay, both moments take the
/// gradient's shape and hold their exact folds, and the output holds the
/// exact stepped cells.
pub open spec fn step_grids_ok(pre: AdamOptimizer, post: AdamOptimizer, p: Seq<Seq<u64>>, g: Seq<Seq<u64>>, rows: nat, cols: nat, epoch: usize, out: Seq<Seq<u64>>) -> bool {
    let m0 = moment_grid(pre.m, rows, cols);
    let v0 = moment_grid(pre.v, rows, cols);
    let lr = pre.learning_rate_schedule.spec_rate(epoch);
    let t1 = (pre.t + 1) as nat;
    post.learning_rate_schedule == pre.learning_rate_schedule && post.beta1 == pre.beta1
        && post.beta2 == pre.beta2 && post.epsilon == pre.epsilon && post.t == pre.t + 1
        && post.m is Some && post.v is Some && post.m.unwrap().wf() && post.v.unwrap().wf()
        && post.m.unwrap().rows == rows && post.m.unwrap().cols == cols
        && post.v.unwrap().rows == rows && post.v.unwrap().cols == cols && canon(post.m.unwrap()@)
        == cellwise(rows, cols, |i: int, j: int| adam_m_cell(pre.beta1, m0[i][j], g[i][j]))
        && canon(post.v.unwrap()@) == cellwise(
        rows,
        cols,
        |i: int, j: int| adam_v_cell(pre.beta2, v0[i][j], g[i][j]),
    ) && canon(out) == cellwise(
        rows,
        cols,
        |i: int, j: int|
            adam_step_cell(p[i][j], lr, pre.beta1, pre.beta2, pre.epsilon, t1, m0[i][j], v0[i][j], g[i][j]),
    )
}

/// The exact cell-level contract of `update`.
pub open spec fn update_post(pre: AdamOptimizer, post: AdamOptimizer, params: Matrix, grads: Matrix, epoch: usize, r: Result<
    Matrix,
    NnError,
>) -> bool {
    match r {
        Ok(p2) => update_accepts(pre, params, grads) && p2.wf() && p2.rows == params.rows
            && p2.cols == params.cols && step_grids_ok(
            pre,
            post,
            params@,
            grads@,
            grads.rows as nat,
            grads.cols as nat,
            epoch,
            p2@,
        ),
        Err(e) => update_refused(pre, post, params, grads, e),
    }
}

/// As `step_grids_ok`, for the whole-matrix style's operand orders.
pub open spec fn par_step_grids_ok(pre: AdamOptimizer, post: AdamOptimizer, p: Seq<Seq<u64>>, g: Seq<Seq<u64>>, rows: nat, cols: nat, epoch: usize, out: Seq<Seq<u64>>) -> bool {
    let m0 = moment_grid(pre.m, rows, cols);
    let v0 = moment_grid(pre.v, rows, cols);
    let alpha = pre.learning_rate_schedule.spec_rate(epoch);
    let t1 = (pre.t + 1) as nat;
    post.learning_rate_schedule == pre.learning_rate_schedule && post.beta1 == pre.beta1
        && post.beta2 == pre.beta2 && post.epsilon == pre.epsilon && post.t == pre.t + 1
        && post.m is Some && post.v is Some && post.m.unwrap().wf() && post.v.unwrap().wf()
        && post.m.unwrap().rows == rows && post.m.unwrap().cols == cols
        && post.v.unwrap().rows == rows && post.v.unwrap().cols == cols && canon(post.m.unwrap()@)
        == cellwise(rows, cols, |i: int, j: int| par_m_cell(pre.beta1, m0[i][j], g[i][j]))
        && canon(post.v.unwrap()@) == cellwise(
        rows,
        cols,
        |i: int, j: int| par_v_cell(pre.beta2, v0[i][j], g[i][j]),
    ) && canon(out) == cellwise(
        rows,
        cols,
        |i: int, j: int|
            par_step_cell(p[i][j], alpha, pre.beta1, pre.beta2, pre.epsilon, t1, m0[i][j], v0[i][j], g[i][j]),
    )
}

/// The exact cell-level contract of `update_parameters`.
pub open spec fn update_parameters_post(pre: AdamOptimizer, post: AdamOptimizer, params: Matrix, grads: Matrix, epoch: usize, r: Result<
    Matrix,
    NnError,
>) -> bool {
    match r {
        Ok(p2) => update_accepts(pre, params, grads) && p2.wf() && p2.rows == params.rows
            && p2.cols == params.cols && par_step_grids_ok(
            pre,
            post,
            params@,
            grads@,
            grads.rows as nat,
            grads.cols as nat,
            epoch,
            p2@,
        ),
        Err(e) => update_refused(pre, post, params, grads, e),
    }
}

/// The step relation reads the gradient's cells only through `norm_bits`,
/// so gradients that agree up to NaN normalization satisfy it together.
pub proof fn lemma_step_grids_canon(pre: AdamOptimizer, post: AdamOptimizer, p: Seq<Seq<u64>>, g1: Seq<Seq<u64>>, g2: Seq<Seq<u64>>, rows: nat, cols: nat, epoch: usize, out: Seq<Seq<u64>>)
    requires
        step_grids_ok(pre, post, p, g1, rows, cols, epoch, out),
        forall|i: int, j: int|
            0 <= i < rows && 0 <= j < cols ==> norm_bits(#[trigger] g1[i][j]) == norm_bits(
                g2[i][j],
            ),
    ensures
        step_grids_ok(pre, post, p, g2, rows, cols, epoch, out),
{
    broadcast use crate::scalar::lemma_norm_bits_idempotent;

    let m0 = moment_grid(pre.m, rows, cols);
    let v0 = moment_grid(pre.v, rows, cols);
    let lr = pre.learning_rate_schedule.spec_rate(epoch);
    let t1 = (pre.t + 1) as nat;
    assert forall|i: int, j: int| 0 <= i < rows && 0 <= j < cols implies adam_m_cell(
        pre.beta1,
        m0[i][j],
        #[trigger] g1[i][j],
    ) == adam_m_cell(pre.beta1, m0[i][j], g2[i][j]) && adam_v_cell(pre.beta2, v0[i][j], g1[i][j])
        == adam_v_cell(pre.beta2, v0[i][j], g2[i][j]) && adam_step_cell(
        p[i][j],
        lr,
        pre.beta1,
        pre.beta2,
        pre.epsilon,
        t1,
        m0[i][j],
        v0[i][j],
        g1[i][j],
    ) == adam_step_cell(
        p[i][j],
        lr,
        pre.beta1,
        pre.beta2,
        pre.epsilon,
        t1,
        m0[i][j],
        v0[i][j],
        g2[i][j],
    ) by {
        assert(norm_bits(g1[i][j]) == norm_bits(g2[i][j]));
        assert(mul_bits(g1[i][j], g1[i][j]) == mul_bits(g2[i][j], g2[i][j]));
    }
    assert(cellwise(rows, cols, |i: int, j: int| adam_m_cell(pre.beta1, m0[i][j], g1[i][j]))
        =~~= cellwise(rows, cols, |i: int, j: int| adam_m_cell(pre.beta1, m0[i][j], g2[i][j])));
    assert(cellwise(rows, cols, |i: int, j: int| adam_v_cell(pre.beta2, v0[i][j], g1[i][j]))
        =~~= cellwise(rows, cols, |i: int, j: int| adam_v_cell(pre.beta2, v0[i][j], g2[i][j])));
    assert(cellwise(
        rows,
        cols,
        |i: int, j: int|
            adam_step_cell(p[i][j], lr, pre.beta1, pre.beta2, pre.epsilon, t1, m0[i][j], v0[i][j], g1[i][j]),
    ) =~~= cellwise(
        rows,
        cols,
        |i: int, j: int|
            adam_step_cell(p[i][j], lr, pre.beta1, pre.beta2, pre.epsilon, t1, m0[i][j], v0[i][j], g2[i][j]),
    ));
}

/// Starting from a fresh optimizer (no moments, step counter zero), one
/// successful update leaves the counter at exactly one.
pub proof fn lemma_first_update_counts_one(pre: AdamOptimizer, post: AdamOptimizer, params: Matrix, grads: Matrix, epoch: usize, p2: Matrix)
    requires
        pre.t == 0,
        update_post(pre, post, params, grads, epoch, Ok(p2)),
    ensures
        post.t == 1,
{
}

/// After any successful update both moment tensors exist and their shape
/// equals the gradient's shape, whatever that shape is.
pub proof fn lemma_update_moment_shapes(pre: AdamOptimizer, post: AdamOptimizer, params: Matrix, grads: Matrix, epoch: usize, p2: Matrix)
    requires
        update_post(pre, post, params, grads, epoch, Ok(p2)),
    ensures
        post.m is Some,
        post.m.unwrap().rows == grads.rows,
        post.m.unwrap().cols == grads.cols,
        post.v is Some,
        post.v.unwrap().rows == grads.rows,
        post.v.unwrap().cols == grads.cols,
{
}

impl AdamOptimizer {
    /// The moments are either both absent or both present, well formed and
    /// of one shape.
    pub open spec fn moments_wf(&self) -> bool {
        match (self.m, self.v) {
            (Option::None, Option::None) => true,
            (Option::Some(m), Option::Some(v)) => m.wf() && v.wf() && m.rows == v.rows && m.cols
                == v.cols,
            _ => false,
        }
    }

    /// A fresh optimizer with the given hyperparameters: no moments yet and
    /// a step counter of zero.
    pub fn new(learning_rate_schedule: LearningRateSchedule, beta1: u64, beta2: u64, epsilon: u64) -> (r: AdamOptimizer)
        ensures
            r.learning_rate_schedule == learning_rate_schedule,
            r.beta1 == beta1,
            r.beta2 == beta2,
            r.epsilon == epsilon,
            r.m is None,
            r.v is None,
            r.t == 0,
            r.moments_wf(),
    {
        AdamOptimizer { learning_rate_schedule, beta1, beta2, epsilon, m: None, v: None, t: 0 }
    }

    /// Shapes both moments ahead of time as all-zero grids.
    pub fn init(&mut self, nrows: usize, ncols: usize)
        ensures
            final(self).learning_rate_schedule == old(self).learning_rate_schedule,
            final(self).beta1 == old(self).beta1,
            final(self).beta2 == old(self).beta2,
            final(self).epsilon == old(self).epsilon,
            final(self).t == old(self).t,
            final(self).m is Some,
            final(self).v is Some,
            final(self).m.unwrap().wf(),
            final(self).m.unwrap().rows == nrows,
            final(self).m.unwrap().cols == ncols,
            final(self).m.unwrap()@ == const_grid(nrows as nat, ncols as nat, ZERO_BITS),
            final(self).v.unwrap().wf(),
            final(self).v.unwrap().rows == nrows,
            final(self).v.unwrap().cols == ncols,
            final(self).v.unwrap()@ == const_grid(nrows as nat, ncols as nat, ZERO_BITS),
            final(self).moments_wf(),
    {
        let zeros = Matrix::zeros(nrows, ncols);
        self.m = Some(zeros.clone());
        self.v = Some(zeros);
    }

    /// The optimizer with the default hyperparameters: rate `0.001`,
    /// decays `0.9` and `0.999`, guard `1e-8`.
    pub fn default() -> (r: AdamOptimizer)
        ensures
            r.learning_rate_schedule == LearningRateSchedule::Constant(DEFAULT_RATE_BITS),
            r.beta1 == DEFAULT_BETA1_BITS,
            r.beta2 == DEFAULT_BETA2_BITS,
            r.epsilon == DEFAULT_EPSILON_BITS,
            r.m is None,
            r.v is None,
            r.t == 0,
            r.moments_wf(),
    {
        AdamOptimizer {
            v: None,
            m: None,
            beta1: DEFAULT_BETA1_BITS,
            beta2: DEFAULT_BETA2_BITS,
            learning_rate_schedule: default_learning_rate(),
            epsilon: DEFAULT_EPSILON_BITS,
            t: 0,
        }
    }

    /// One Adam step in the cell-at-a-time style: advances the counter,
    /// folds the gradient into both moments, bias-corrects them, and
    /// returns the stepped parameters without touching the caller's copy.
    pub fn update(&mut self, params: &Matrix, grads: &Matrix, epoch: usize) -> (r: Result<Matrix, NnError>)
        requires
            old(self).moments_wf(),
            params.wf(),
            grads.wf(),
            old(self).t < usize::MAX,
        ensures
            update_post(*old(self), *final(self), *params, *grads, epoch, r),
            final(self).moments_wf(),
    {
        if params.rows != grads.rows || params.cols != grads.cols {
            return Err(NnError::ShapeMismatch);
        }
        let mismatch = match &self.m {
            Some(m0) => m0.rows != grads.rows || m0.cols != grads.cols,
            None => false,
        };
        if mismatch {
            return Err(NnError::UninitializedState);
        }
        self.t = self.t + 1;
        let ghost rows = grads.rows as nat;
        let ghost cols = grads.cols as nat;
        let ghost m0 = moment_grid(old(self).m, rows, cols);
        let ghost v0 = moment_grid(old(self).v, rows, cols);
        let m_cur = match &self.m {
            Some(mm) => mm.clone(),
            None => Matrix::zeros(grads.rows, grads.cols),
        };
        let v_cur = match &self.v {
            Some(vv) => vv.clone(),
            None => Matrix::zeros(grads.rows, grads.cols),
        };
        let one_minus_b1 = fp_sub(ONE_BITS, self.beta1);
        let one_minus_b2 = fp_sub(ONE_BITS, self.beta2);
        let t1 = m_cur.sc_left(self.beta1, EwOp::Mul);
        let t2 = grads.sc_left(one_minus_b1, EwOp::Mul);
        let m_new = match t1.component_add(&t2) {
            Ok(x) => x,
            Err(_) => unreached(),
        };
        let gg = match grads.component_mul(grads) {
            Ok(x) => x,
            Err(_) => unreached(),
        };
        let t3 = v_cur.sc_left(self.beta2, EwOp::Mul);
        let t4 = gg.sc_left(one_minus_b2, EwOp::Mul);
        let v_new = match t3.component_add(&t4) {
            Ok(x) => x,
            Err(_) => unreached(),
        };
        self.m = Some(m_new.clone());
        self.v = Some(v_new.clone());
        let corr1 = fp_sub(ONE_BITS, fp_powi(self.beta1, self.t));
        let corr2 = fp_sub(ONE_BITS, fp_powi(self.beta2, self.t));
        let m_hat = m_new.scalar_div(corr1);
        let v_hat = v_new.scalar_div(corr2);
        let lr = self.learning_rate_schedule.get_learning_rate(epoch);
        let num = m_hat.sc_left(lr, EwOp::Mul);
        let rooted = v_hat.sqrt();
        let den = rooted.scalar_add(self.epsilon);
        let frac = match num.component_div(&den) {
            Ok(x) => x,
            Err(_) => unreached(),
        };
        let out = match params.component_sub(&frac) {
            Ok(x) => x,
            Err(_) => unreached(),
        };
        proof {
            let b1 = old(self).beta1;
            let b2 = old(self).beta2;
            let eps = old(self).epsilon;
            let lrs = old(self).learning_rate_schedule.spec_rate(epoch);
            let tn = (old(self).t + 1) as nat;
            assert forall|i: int, j: int| 0 <= i < rows && 0 <= j < cols implies norm_bits(
                #[trigger] m_new@[i][j],
            ) == adam_m_cell(b1, m0[i][j], grads@[i][j]) by {
                assert(canon(t1@)[i][j] == norm_bits(t1@[i][j]));
                assert(canon(t2@)[i][j] == norm_bits(t2@[i][j]));
                assert(canon(m_new@)[i][j] == norm_bits(m_new@[i][j]));
            }
            assert forall|i: int, j: int| 0 <= i < rows && 0 <= j < cols implies norm_bits(
                #[trigger] v_new@[i][j],
            ) == adam_v_cell(b2, v0[i][j], grads@[i][j]) by {
                assert(canon(gg@)[i][j] == norm_bits(gg@[i][j]));
                assert(canon(t3@)[i][j] == norm_bits(t3@[i][j]));
                assert(canon(t4@)[i][j] == norm_bits(t4@[i][j]));
                assert(canon(v_new@)[i][j] == norm_bits(v_new@[i][j]));
            }
            assert forall|i: int, j: int| 0 <= i < rows && 0 <= j < cols implies norm_bits(
                #[trigger] out@[i][j],
            ) == adam_step_cell(
                params@[i][j],
                lrs,
                b1,
                b2,
                eps,
                tn,
                m0[i][j],
                v0[i][j],
                grads@[i][j],
            ) by {
                assert(norm_bits(m_new@[i][j]) == adam_m_cell(b1, m0[i][j], grads@[i][j]));
                assert(norm_bits(v_new@[i][j]) == adam_v_cell(b2, v0[i][j], grads@[i][j]));
                assert(canon(m_hat@)[i][j] == norm_bits(m_hat@[i][j]));
                assert(canon(v_hat@)[i][j] == norm_bits(v_hat@[i][j]));
                assert(canon(num@)[i][j] == norm_bits(num@[i][j]));
                assert(canon(rooted@)[i][j] == norm_bits(rooted@[i][j]));
                assert(canon(den@)[i][j] == norm_bits(den@[i][j]));
                assert(canon(frac@)[i][j] == norm_bits(frac@[i][j]));
                assert(canon(out@)[i][j] == norm_bits(out@[i][j]));
            }
            assert(canon(m_new@) =~~= cellwise(
                rows,
                cols,
                |i: int, j: int| adam_m_cell(old(self).beta1, m0[i][j], grads@[i][j]),
            ));
            assert(canon(v_new@) =~~= cellwise(
                rows,
                cols,
                |i: int, j: int| adam_v_cell(old(self).beta2, v0[i][j], grads@[i][j]),
            ));
            assert(canon(out@) =~~= cellwise(
                rows,
                cols,
                |i: int, j: int|
                    adam_step_cell(
                        params@[i][j],
                        old(self).learning_rate_schedule.spec_rate(epoch),
                        old(self).beta1,
                        old(self).beta2,
                        old(self).epsilon,
                        (old(self).t + 1) as nat,
                        m0[i][j],
                        v0[i][j],
                        grads@[i][j],
                    ),
            ));
        }
        Ok(out)
    }

    /// One Adam step in the whole-matrix style; the rule is the same, the
    /// cell-level operand orders differ as `par_step_cell` records.
    pub fn update_parameters(&mut self, epoch: usize, parameters: &Matrix, parameters_gradient: &Matrix) -> (r: Result<
        Matrix,
        NnError,
    >)
        requires
            old(self).moments_wf(),
            parameters.wf(),
            parameters_gradient.wf(),
            old(self).t < usize::MAX,
        ensures
            update_parameters_post(
                *old(self),
                *final(self),
                *parameters,
                *parameters_gradient,
                epoch,
                r,
            ),
            final(self).moments_wf(),
    {
        let params = parameters;
        let grads = parameters_gradient;
        if params.rows != grads.rows || params.cols != grads.cols {
            return Err(NnError::ShapeMismatch);
        }
        let mismatch = match &self.m {
            Some(m0) => m0.rows != grads.rows || m0.cols != grads.cols,
            None => false,
        };
        if mismatch {
            return Err(NnError::UninitializedState);
        }
        self.t = self.t + 1;
        let ghost rows = grads.rows as nat;
        let ghost cols = grads.cols as nat;
        let ghost m0 = moment_grid(old(self).m, rows, cols);
        let ghost v0 = moment_grid(old(self).v, rows, cols);
        let alpha = self.learning_rate_schedule.get_learning_rate(epoch);
        let m_cur = match &self.m {
            Some(mm) => mm.clone(),
            None => Matrix::zeros(grads.rows, grads.cols),
        };
        let v_cur = match &self.v {
            Some(vv) => vv.clone(),
            None => Matrix::zeros(grads.rows, grads.cols),
        };
        let one_minus_b1 = fp_sub(ONE_BITS, self.beta1);
        let one_minus_b2 = fp_sub(ONE_BITS, self.beta2);
        let t1 = m_cur.scalar_mul(self.beta1);
        let t2 = grads.scalar_mul(one_minus_b1);
        let m_updated = match t1.component_add(&t2) {
            Ok(x) => x,
            Err(_) => unreached(),
        };
        let gg = match grads.component_mul(grads) {
            Ok(x) => x,
            Err(_) => unreached(),
        };
        let t3 = v_cur.scalar_mul(self.beta2);
        let t4 = gg.scalar_mul(one_minus_b2);
        let v_updated = match t3.component_add(&t4) {
            Ok(x) => x,
            Err(_) => unreached(),
        };
        let corr1 = fp_sub(ONE_BITS, fp_powi(self.beta1, self.t));
        let corr2 = fp_sub(ONE_BITS, fp_powi(self.beta2, self.t));
        let m_bias_corrected = m_updated.scalar_div(corr1);
        let v_bias_corrected = v_updated.scalar_div(corr2);
        let v_sqrt = v_bias_corrected.sqrt();
        self.m = Some(m_updated.clone());
        self.v = Some(v_updated.clone());
        let num = m_bias_corrected.scalar_mul(alpha);
        let den = v_sqrt.scalar_add(self.epsilon);
        let frac = match num.component_div(&den) {
            Ok(x) => x,
            Err(_) => unreached(),
        };
        let out = match params.component_sub(&frac) {
            Ok(x) => x,
            Err(_) => unreached(),
        };
        proof {
            let b1 = old(self).beta1;
            let b2 = old(self).beta2;
            let eps = old(self).epsilon;
            let al = old(self).learning_rate_schedule.spec_rate(epoch);
            let tn = (old(self).t + 1) as nat;
            assert forall|i: int, j: int| 0 <= i < rows && 0 <= j < cols implies norm_bits(
                #[trigger] m_updated@[i][j],
            ) == par_m_cell(b1, m0[i][j], grads@[i][j]) by {
                assert(canon(t1@)[i][j] == norm_bits(t1@[i][j]));
                assert(canon(t2@)[i][j] == norm_bits(t2@[i][j]));
                assert(canon(m_updated@)[i][j] == norm_bits(m_updated@[i][j]));
            }
            assert forall|i: int, j: int| 0 <= i < rows && 0 <= j < cols implies norm_bits(
                #[trigger] v_updated@[i][j],
            ) == par_v_cell(b2, v0[i][j], grads@[i][j]) by {
                assert(canon(gg@)[i][j] == norm_bits(gg@[i][j]));
                assert(canon(t3@)[i][j] == norm_bits(t3@[i][j]));
                assert(canon(t4@)[i][j] == norm_bits(t4@[i][j]));
                assert(canon(v_updated@)[i][j] == norm_bits(v_updated@[i][j]));
            }
            assert forall|i: int, j: int| 0 <= i < rows && 0 <= j < cols implies norm_bits(
                #[trigger] out@[i][j],
            ) == par_step_cell(
                params@[i][j],
                al,
                b1,
                b2,
                eps,
                tn,
                m0[i][j],
                v0[i][j],
                grads@[i][j],
            ) by {
                assert(norm_bits(m_updated@[i][j]) == par_m_cell(b1, m0[i][j], grads@[i][j]));
                assert(norm_bits(v_updated@[i][j]) == par_v_cell(b2, v0[i][j], grads@[i][j]));
                assert(canon(m_bias_corrected@)[i][j] == norm_bits(m_bias_corrected@[i][j]));
                assert(canon(v_bias_corrected@)[i][j] == norm_bits(v_bias_corrected@[i][j]));
                assert(canon(v_sqrt@)[i][j] == norm_bits(v_sqrt@[i][j]));
                assert(canon(num@)[i][j] == norm_bits(num@[i][j]));
                assert(canon(den@)[i][j] == norm_bits(den@[i][j]));
                assert(canon(frac@)[i][j] == norm_bits(frac@[i][j]));
                assert(canon(out@)[i][j] == norm_bits(out@[i][j]));
            }
            assert(canon(m_updated@) =~~= cellwise(
                rows,
                cols,
                |i: int, j: int| par_m_cell(old(self).beta1, m0[i][j], grads@[i][j]),
            ));
            assert(canon(v_updated@) =~~= cellwise(
                rows,
                cols,
                |i: int, j: int| par_v_cell(old(self).beta2, v0[i][j], grads@[i][j]),
            ));
            assert(canon(out@) =~~= cellwise(
                rows,
                cols,
                |i: int, j: int|
                    par_step_cell(
                        params@[i][j],
                        old(self).learning_rate_schedule.spec_rate(epoch),
                        old(self).beta1,
                        old(self).beta2,
                        old(self).epsilon,
                        (old(self).t + 1) as nat,
                        m0[i][j],
                        v0[i][j],
                        grads@[i][j],
                    ),
            ));
        }
        Ok(out)
    }
}

} // verus!
