//! Scalars are IEEE-754 double-precision values carried as their 64-bit
//! patterns. Verus refuses floating-point code, so each arithmetic
//! primitive is a trusted wrapper over an uninterpreted name for what the
//! operation returns. Rust leaves the exact bits of a NaN result to the
//! machine, so the wrappers promise the named result only up to NaN
//! normalization: `norm_bits` collapses every NaN to one quiet pattern,
//! which NaN or not is a deterministic function of the operand values, and
//! the library's model (`add_bits` and friends) works on normalized values
//! throughout. Whenever a result is a number it is pinned exactly.
//! Comparisons, NaN-ness and finiteness are plain bit predicates written
//! out here and trusted only to agree with the hardware; negation and the
//! integer power are derived in verified code; the random draws promise
//! their acceptance conditions and, for the uniform case, their bounds,
//! but nothing else of the drawn values.

use vstd::prelude::*;

verus! {

/// The bit pattern of the double `1.0`.
pub const ONE_BITS: u64 = 0x3FF0_0000_0000_0000;

/// The bit pattern of the double `0.0`.
pub const ZERO_BITS: u64 = 0;

/// The sign bit of a double; flipping it negates the value exactly.
pub const SIGN_MASK: u64 = 0x8000_0000_0000_0000;

/// The bit pattern of the double `-1.0`.
pub const NEG_ONE_BITS: u64 = 0xBFF0_0000_0000_0000;

/// The bit pattern of the double `2.0`.
pub const TWO_BITS: u64 = 0x4000_0000_0000_0000;

/// The bit pattern of the double `6.0`.
pub const SIX_BITS: u64 = 0x4018_0000_0000_0000;

/// The magnitude bits of an infinity: all exponent ones, zero mantissa.
pub const INF_MAG_BITS: u64 = 0x7FF0_0000_0000_0000;

/// The canonical quiet NaN every NaN is normalized to.
pub const QNAN_BITS: u64 = 0x7FF8_0000_0000_0000;

/// The magnitude bits of `2^1022`. Two doubles whose magnitudes stay at or
/// below it have a difference of at most `2^1023`, which is finite.
pub const BOUNDED_MAG_BITS: u64 = 0x7FD0_0000_0000_0000;

/// The magnitude (sign-stripped) bits of a double.
pub open spec fn mag_bits(x: u64) -> u64 {
    x % 0x8000_0000_0000_0000
}

/// The sign bit of a double, as zero or one.
pub open spec fn sign_bits(x: u64) -> u64 {
    x / 0x8000_0000_0000_0000
}

/// A NaN: exponent all ones with a non-zero mantissa.
pub open spec fn is_nan_bits(x: u64) -> bool {
    mag_bits(x) > INF_MAG_BITS
}

/// A finite double: magnitude strictly below an infinity's.
pub open spec fn is_finite_bits(x: u64) -> bool {
    mag_bits(x) < INF_MAG_BITS
}

/// NaN normalization: every NaN becomes the one canonical quiet NaN, every
/// number stays itself.
pub open spec fn norm_bits(x: u64) -> u64 {
    if is_nan_bits(x) {
        QNAN_BITS
    } else {
        x
    }
}

/// Normalizing twice is normalizing once.
pub broadcast proof fn lemma_norm_bits_idempotent(x: u64)
    ensures
        #[trigger] norm_bits(norm_bits(x)) == norm_bits(x),
{
}

/// The IEEE-754 `<` written on the bits: false whenever an operand is NaN,
/// the two zeros equal, and otherwise the sign-magnitude order.
pub open spec fn lt_bits(a: u64, b: u64) -> bool {
    if is_nan_bits(a) || is_nan_bits(b) {
        false
    } else if sign_bits(a) == 1 && sign_bits(b) == 0 {
        mag_bits(a) != 0 || mag_bits(b) != 0
    } else if sign_bits(a) == 0 && sign_bits(b) == 1 {
        false
    } else if sign_bits(a) == 0 {
        mag_bits(a) < mag_bits(b)
    } else {
        mag_bits(a) > mag_bits(b)
    }
}

/// The IEEE-754 `==` written on the bits: NaN equals nothing, the two
/// zeros equal each other, everything else equals exactly itself.
pub open spec fn eq_bits(a: u64, b: u64) -> bool {
    !is_nan_bits(a) && !is_nan_bits(b) && (a == b || (mag_bits(a) == 0 && mag_bits(b) == 0))
}

/// The IEEE-754 `<=` written on the bits.
pub open spec fn le_bits(a: u64, b: u64) -> bool {
    lt_bits(a, b) || eq_bits(a, b)
}

/// What IEEE-754 double addition returns, as bit patterns. Where the sum
/// is NaN only its NaN-ness is meaningful: the wrappers constrain the name
/// only through `norm_bits`, since Rust leaves NaN payload bits to the
/// machine.
pub uninterp spec fn add_ieee(a: u64, b: u64) -> u64;

/// What IEEE-754 double subtraction returns; NaN caveat as `add_ieee`.
pub uninterp spec fn sub_ieee(a: u64, b: u64) -> u64;

/// What IEEE-754 double multiplication returns; NaN caveat as `add_ieee`.
pub uninterp spec fn mul_ieee(a: u64, b: u64) -> u64;

/// What IEEE-754 double division returns; NaN caveat as `add_ieee`.
pub uninterp spec fn div_ieee(a: u64, b: u64) -> u64;

/// What the IEEE-754 double square root returns; NaN caveat as `add_ieee`.
pub uninterp spec fn sqrt_ieee(a: u64) -> u64;

/// What `libm::exp` returns; NaN caveat as `add_ieee`.
pub uninterp spec fn exp_ieee(a: u64) -> u64;

/// The library's model of double addition: the normalized sum of the
/// normalized operands. Equal to the machine result whenever that result
/// is a number.
pub open spec fn add_bits(a: u64, b: u64) -> u64 {
    norm_bits(add_ieee(norm_bits(a), norm_bits(b)))
}

/// The library's model of double subtraction; see `add_bits`.
pub open spec fn sub_bits(a: u64, b: u64) -> u64 {
    norm_bits(sub_ieee(norm_bits(a), norm_bits(b)))
}

/// The library's model of double multiplication; see `add_bits`.
pub open spec fn mul_bits(a: u64, b: u64) -> u64 {
    norm_bits(mul_ieee(norm_bits(a), norm_bits(b)))
}

/// The library's model of double division; see `add_bits`.
pub open spec fn div_bits(a: u64, b: u64) -> u64 {
    norm_bits(div_ieee(norm_bits(a), norm_bits(b)))
}

/// The library's model of the double square root; see `add_bits`.
pub open spec fn sqrt_bits(a: u64) -> u64 {
    norm_bits(sqrt_ieee(norm_bits(a)))
}

/// The library's model of the base-e exponential; see `add_bits`.
pub open spec fn exp_bits(a: u64) -> u64 {
    norm_bits(exp_ieee(norm_bits(a)))
}

/// The bit pattern of the double nearest to the integer `n`; the cast is
/// fully specified, so the name is exact.
pub uninterp spec fn bits_of_usize(n: usize) -> u64;

/// Negation as the exact sign-bit flip that IEEE-754 defines.
pub open spec fn neg_bits(a: u64) -> u64 {
    a ^ SIGN_MASK
}

/// Flipping the sign bit keeps the magnitude, so it keeps NaN-ness, and
/// normalizing before or after negating a normalized value agree.
pub broadcast proof fn lemma_norm_neg(x: u64)
    ensures
        #[trigger] norm_bits(neg_bits(norm_bits(x))) == norm_bits(neg_bits(x)),
{
    assert((x ^ 0x8000_0000_0000_0000u64) % 0x8000_0000_0000_0000u64 == x
        % 0x8000_0000_0000_0000u64) by (bit_vector);
    assert((0x7FF8_0000_0000_0000u64 ^ 0x8000_0000_0000_0000u64) % 0x8000_0000_0000_0000u64
        == 0x7FF8_0000_0000_0000u64) by (bit_vector);
}

/// Relies on the IEEE-754 `+` of two doubles: exact up to NaN
/// normalization, since the bits of a NaN result are machine-chosen while
/// its NaN-ness is determined by the operand values. `libm::copysign` of a
/// value with itself returns it unchanged and only pins the operand type;
/// `bytemuck::cast` moves between a double and its bit pattern.
#[verifier::external_body]
pub(crate) fn fp_add(a: u64, b: u64) -> (r: u64)
    ensures
        norm_bits(r) == norm_bits(add_ieee(norm_bits(a), norm_bits(b))),
{
    let x = libm::copysign(bytemuck::cast(a), bytemuck::cast(a));
    let y = libm::copysign(bytemuck::cast(b), bytemuck::cast(b));
    bytemuck::cast(x + y)
}

/// Relies on the IEEE-754 `-` of two doubles; scope and conversions as in
/// `fp_add`.
#[verifier::external_body]
pub(crate) fn fp_sub(a: u64, b: u64) -> (r: u64)
    ensures
        norm_bits(r) == norm_bits(sub_ieee(norm_bits(a), norm_bits(b))),
{
    let x = libm::copysign(bytemuck::cast(a), bytemuck::cast(a));
    let y = libm::copysign(bytemuck::cast(b), bytemuck::cast(b));
    bytemuck::cast(x - y)
}

/// Relies on the IEEE-754 `*` of two doubles; scope and conversions as in
/// `fp_add`.
#[verifier::external_body]
pub(crate) fn fp_mul(a: u64, b: u64) -> (r: u64)
    ensures
        norm_bits(r) == norm_bits(mul_ieee(norm_bits(a), norm_bits(b))),
{
    let x = libm::copysign(bytemuck::cast(a), bytemuck::cast(a));
    let y = libm::copysign(bytemuck::cast(b), bytemuck::cast(b));
    bytemuck::cast(x * y)
}

/// Relies on the IEEE-754 `/` of two doubles (division by zero yields an
/// infinity, never a panic); scope and conversions as in `fp_add`.
#[verifier::external_body]
pub(crate) fn fp_div(a: u64, b: u64) -> (r: u64)
    ensures
        norm_bits(r) == norm_bits(div_ieee(norm_bits(a), norm_bits(b))),
{
    let x = libm::copysign(bytemuck::cast(a), bytemuck::cast(a));
    let y = libm::copysign(bytemuck::cast(b), bytemuck::cast(b));
    bytemuck::cast(x / y)
}

/// Relies on `libm::sqrt`, the correctly rounded IEEE-754 square root;
/// scope as in `fp_add` (a negative operand's NaN result is machine-wide).
#[verifier::external_body]
pub(crate) fn fp_sqrt(a: u64) -> (r: u64)
    ensures
        norm_bits(r) == norm_bits(sqrt_ieee(norm_bits(a))),
{
    bytemuck::cast(libm::sqrt(bytemuck::cast(a)))
}

/// Relies on `libm::exp`, the base-e exponential of a double; scope as in
/// `fp_add` (only a NaN operand yields a NaN).
#[verifier::external_body]
pub(crate) fn fp_exp(a: u64) -> (r: u64)
    ensures
        norm_bits(r) == norm_bits(exp_ieee(norm_bits(a))),
{
    bytemuck::cast(libm::exp(bytemuck::cast(a)))
}

/// Relies on the IEEE-754 `<` of two doubles agreeing with the
/// sign-magnitude order written out in `lt_bits`; conversions as in
/// `fp_add`.
#[verifier::external_body]
pub(crate) fn fp_lt(a: u64, b: u64) -> (r: bool)
    ensures
        r == lt_bits(a, b),
{
    let x = libm::copysign(bytemuck::cast(a), bytemuck::cast(a));
    let y = libm::copysign(bytemuck::cast(b), bytemuck::cast(b));
    x < y
}

/// Relies on the IEEE-754 `<=` of two doubles agreeing with `le_bits`;
/// conversions as in `fp_add`.
#[verifier::external_body]
pub(crate) fn fp_le(a: u64, b: u64) -> (r: bool)
    ensures
        r == le_bits(a, b),
{
    let x = libm::copysign(bytemuck::cast(a), bytemuck::cast(a));
    let y = libm::copysign(bytemuck::cast(b), bytemuck::cast(b));
    x <= y
}

/// Relies on the `usize`-to-double conversion, which is fully specified
/// (round to nearest, no overflow for 64-bit integers); `libm::trunc`
/// leaves the already integral value unchanged and only pins the type.
#[verifier::external_body]
pub(crate) fn fp_of_usize(n: usize) -> (r: u64)
    ensures
        r == bits_of_usize(n),
{
    bytemuck::cast(libm::trunc(n as _))
}

/// The text that `{}` renders an unsigned machine integer as.
pub uninterp spec fn usize_text(n: usize) -> Seq<char>;

/// The text that `{:?}` renders a double as.
pub uninterp spec fn scalar_text(x: u64) -> Seq<char>;

/// Relies on the standard `Display` of `usize`, through `format!`.
#[verifier::external_body]
pub(crate) fn fmt_usize(n: usize) -> (r: String)
    ensures
        r@ == usize_text(n),
{
    format!("{}", n)
}

/// Relies on the standard `Debug` of a double, through `format!`;
/// conversions as in `fp_add`.
#[verifier::external_body]
pub(crate) fn fmt_scalar(x: u64) -> (r: String)
    ensures
        r@ == scalar_text(x),
{
    format!("{:?}", libm::copysign(bytemuck::cast(x), bytemuck::cast(x)))
}

/// `b` multiplied onto one, `n` times over: the library's integer power.
pub open spec fn pow_bits(b: u64, n: nat) -> u64
    decreases n,
{
    if n == 0 {
        ONE_BITS
    } else {
        mul_bits(pow_bits(b, (n - 1) as nat), b)
    }
}

/// Computes the integer power by repeated multiplication, left to right.
pub fn fp_powi(b: u64, n: usize) -> (r: u64)
    ensures
        norm_bits(r) == pow_bits(b, n as nat),
{
    broadcast use lemma_norm_bits_idempotent;

    let mut acc: u64 = ONE_BITS;
    let mut k: usize = 0;
    while k < n
        invariant
            k <= n,
            norm_bits(acc) == pow_bits(b, k as nat),
        decreases n - k,
    {
        acc = fp_mul(acc, b);
        k += 1;
    }
    acc
}

/// Relies on rand's `Uniform::new` and `Distribution::sample`: one double
/// drawn from `[low, high]` (`high` itself only by rounding at the top of
/// the range). `Uniform::new` accepts exactly a range with `low < high`
/// and a finite width `high - low`; when both bounds' magnitudes stay at
/// or below `2^1022` the width cannot overflow, so such a range is always
/// accepted. The draw depends on the thread's generator, so beyond its
/// bounds nothing is promised of the value.
#[verifier::external_body]
pub(crate) fn fp_sample_uniform(low: u64, high: u64) -> (r: Option<u64>)
    ensures
        r.is_some() == (lt_bits(low, high) && is_finite_bits(norm_bits(sub_ieee(norm_bits(high), norm_bits(low))))),
        r.is_some() <== lt_bits(low, high) && mag_bits(low) <= BOUNDED_MAG_BITS && mag_bits(high) <= BOUNDED_MAG_BITS,
        r.is_some() ==> le_bits(low, r.unwrap()) && le_bits(r.unwrap(), high),
{
    let lo = libm::copysign(bytemuck::cast(low), bytemuck::cast(low));
    let hi = libm::copysign(bytemuck::cast(high), bytemuck::cast(high));
    match rand::distr::Uniform::new(lo, hi) {
        Ok(d) => Some(bytemuck::cast(rand::distr::Distribution::sample(&d, &mut rand::rng()))),
        Err(_) => None,
    }
}

/// Relies on rand_distr's `Normal::new` and `Distribution::sample`: one
/// double drawn from the normal distribution with the given mean and
/// standard deviation. `Normal::new` rejects exactly a non-finite standard
/// deviation. The draw depends on the thread's generator, so nothing is
/// promised of the value.
#[verifier::external_body]
pub(crate) fn fp_sample_normal(mean: u64, std_dev: u64) -> (r: Option<u64>)
    ensures
        r.is_some() == is_finite_bits(std_dev),
{
    let me = libm::copysign(bytemuck::cast(mean), bytemuck::cast(mean));
    let sd = libm::copysign(bytemuck::cast(std_dev), bytemuck::cast(std_dev));
    match rand_distr::Normal::new(me, sd) {
        Ok(d) => Some(bytemuck::cast(rand::distr::Distribution::sample(&d, &mut rand::rng()))),
        Err(_) => None,
    }
}

} // verus!
