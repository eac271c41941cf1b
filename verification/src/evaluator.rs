//! The five families of transfer functions, and the computation of one
//! sample of a pixel.

use crate::arithmetic::Arithmetic;
use crate::number::Number;
use crate::number::HALF_BITS;
use crate::number::ONE_BITS;
use crate::number::SAMPLE_MAX_BITS;
use crate::transfer::FeFunc;
use crate::transfer::FeFuncView;
use crate::transfer::FunctionParameters;
use crate::transfer::FunctionType;
use vstd::prelude::*;

verus! {

/// Whether `result` is `slope * value + intercept`.
pub open spec fn linear_of<M: Arithmetic>(
    arithmetic: &M,
    slope: Number,
    intercept: Number,
    value: Number,
    result: Number,
) -> bool {
    exists|scaled: Number|
        {
            &&& #[trigger] call_ensures(M::product, (arithmetic, slope, value), scaled)
            &&& call_ensures(M::sum, (arithmetic, scaled, intercept), result)
        }
}

/// Whether `result` is `amplitude * value^exponent + offset`.
pub open spec fn gamma_of<M: Arithmetic>(
    arithmetic: &M,
    amplitude: Number,
    exponent: Number,
    offset: Number,
    value: Number,
    result: Number,
) -> bool {
    exists|raised: Number, scaled: Number|
        {
            &&& #[trigger] call_ensures(M::power, (arithmetic, value, exponent), raised)
            &&& #[trigger] call_ensures(M::product, (arithmetic, amplitude, raised), scaled)
            &&& call_ensures(M::sum, (arithmetic, scaled, offset), result)
        }
}

/// Whether `step` is the whole part of `value * count`.
pub open spec fn step_of<M: Arithmetic>(
    arithmetic: &M,
    value: Number,
    count: usize,
    step: usize,
) -> bool {
    exists|scale: Number, scaled: Number|
        {
            &&& #[trigger] call_ensures(M::from_index, (arithmetic, count), scale)
            &&& #[trigger] call_ensures(M::product, (arithmetic, value, scale), scaled)
            &&& call_ensures(M::floor_index, (arithmetic, scaled), step)
        }
}

/// Whether `result` is `lower + (value - k / n) * n * (upper - lower)`: the
/// point at `value` on the line from `lower` at `k / n` to `upper` at
/// `(k + 1) / n`.
pub open spec fn interpolation_of<M: Arithmetic>(
    arithmetic: &M,
    lower: Number,
    upper: Number,
    value: Number,
    k: usize,
    n: usize,
    result: Number,
) -> bool {
    exists|
        at: Number,
        count: Number,
        start: Number,
        along: Number,
        run: Number,
        rise: Number,
        gain: Number,
    |
        {
            &&& #[trigger] call_ensures(M::from_index, (arithmetic, k), at)
            &&& #[trigger] call_ensures(M::from_index, (arithmetic, n), count)
            &&& #[trigger] call_ensures(M::quotient, (arithmetic, at, count), start)
            &&& #[trigger] call_ensures(M::difference, (arithmetic, value, start), along)
            &&& #[trigger] call_ensures(M::product, (arithmetic, along, count), run)
            &&& #[trigger] call_ensures(M::difference, (arithmetic, upper, lower), rise)
            &&& #[trigger] call_ensures(M::product, (arithmetic, run, rise), gain)
            &&& call_ensures(M::sum, (arithmetic, lower, gain), result)
        }
}

/// Whether `result` is the table function of `value`. With `n` the index of
/// the last entry and `k` the whole part of `value * n`: the last entry where
/// `k` is `n` or beyond, and else the interpolation between the entries `k`
/// and `k + 1`.
pub open spec fn table_of<M: Arithmetic>(
    arithmetic: &M,
    values: Seq<Number>,
    value: Number,
    result: Number,
) -> bool
    recommends
        values.len() > 0,
{
    let n = values.len() - 1;
    exists|k: usize|
        {
            &&& #[trigger] step_of(arithmetic, value, n as usize, k)
            &&& if k >= n {
                result == values[n]
            } else {
                interpolation_of(
                    arithmetic,
                    values[k as int],
                    values[k + 1],
                    value,
                    k,
                    n as usize,
                    result,
                )
            }
        }
}

/// Whether `result` is the discrete function of `value`. With `n` the number
/// of entries and `k` the whole part of `value * n`: the entry `k`, and the
/// last entry where `k` is beyond it.
pub open spec fn discrete_of<M: Arithmetic>(
    arithmetic: &M,
    values: Seq<Number>,
    value: Number,
    result: Number,
) -> bool
    recommends
        values.len() > 0,
{
    let n = values.len();
    exists|k: usize|
        {
            &&& #[trigger] step_of(arithmetic, value, n as usize, k)
            &&& if k < n - 1 {
                result == values[k as int]
            } else {
                result == values[n - 1]
            }
        }
}

/// Whether `result` is what the transfer function makes of `value`. The
/// identity makes `value` itself.
pub open spec fn evaluation_of<M: Arithmetic>(
    arithmetic: &M,
    func: FeFuncView,
    value: Number,
    result: Number,
) -> bool {
    match func.function_type {
        FunctionType::Identity => result == value,
        FunctionType::Table => table_of(arithmetic, func.table_values, value, result),
        FunctionType::Discrete => discrete_of(arithmetic, func.table_values, value, result),
        FunctionType::Linear => linear_of(arithmetic, func.slope, func.intercept, value, result),
        FunctionType::Gamma => gamma_of(
            arithmetic,
            func.amplitude,
            func.exponent,
            func.offset,
            value,
            result,
        ),
    }
}

/// Whether `result` is `value` brought into the range from `low` to `high`:
/// `low` where `value < low`, else `high` where `high < value`, else `value`.
pub open spec fn clamped_of<M: Arithmetic>(
    arithmetic: &M,
    value: Number,
    low: Number,
    high: Number,
    result: Number,
) -> bool {
    ||| call_ensures(M::less, (arithmetic, value, low), true) && result == low
    ||| {
        &&& call_ensures(M::less, (arithmetic, value, low), false)
        &&& call_ensures(M::less, (arithmetic, high, value), true)
        &&& result == high
    }
    ||| {
        &&& call_ensures(M::less, (arithmetic, value, low), false)
        &&& call_ensures(M::less, (arithmetic, high, value), false)
        &&& result == value
    }
}

/// Whether `result` is `sample / 255`: the sample as a part of one.
pub open spec fn unit_of<M: Arithmetic>(arithmetic: &M, sample: u8, result: Number) -> bool {
    exists|wide: Number|
        {
            &&& #[trigger] call_ensures(M::from_sample, (arithmetic, sample), wide)
            &&& call_ensures(
                M::quotient,
                (arithmetic, wide, Number { bits: SAMPLE_MAX_BITS }),
                result,
            )
        }
}

/// Whether `result` is the whole part of `value * 255 + 0.5`: the part of
/// one as a sample, halves rounded up.
pub open spec fn sample_of<M: Arithmetic>(arithmetic: &M, value: Number, result: u8) -> bool {
    exists|scaled: Number, rounded: Number|
        {
            &&& #[trigger] call_ensures(
                M::product,
                (arithmetic, value, Number { bits: SAMPLE_MAX_BITS }),
                scaled,
            )
            &&& #[trigger] call_ensures(
                M::sum,
                (arithmetic, scaled, Number { bits: HALF_BITS }),
                rounded,
            )
            &&& call_ensures(M::to_sample, (arithmetic, rounded), result)
        }
}

/// Whether `result` is the new sample of a colour channel.
///
/// The sample is taken as a part of one and divided by `alpha`, the alpha of
/// the pixel as a part of one; under an alpha of zero it counts as zero. The
/// transfer function is applied, and its result is brought into the range
/// from zero to one. The new sample is that number times `new_alpha`, as a
/// sample.
pub open spec fn computation_of<M: Arithmetic>(
    arithmetic: &M,
    func: FeFuncView,
    sample: u8,
    alpha: Number,
    new_alpha: Number,
    result: u8,
) -> bool {
    exists|
        value: Number,
        unpremultiplied: Number,
        new_value: Number,
        clamped: Number,
        weighted: Number,
    |
        {
            &&& #[trigger] unit_of(arithmetic, sample, value)
            &&& if alpha.is_zero() {
                unpremultiplied == (Number { bits: 0 })
            } else {
                call_ensures(M::quotient, (arithmetic, value, alpha), unpremultiplied)
            }
            &&& #[trigger] evaluation_of(arithmetic, func, unpremultiplied, new_value)
            &&& #[trigger] clamped_of(
                arithmetic,
                new_value,
                Number { bits: 0 },
                Number { bits: ONE_BITS },
                clamped,
            )
            &&& #[trigger] call_ensures(M::product, (arithmetic, clamped, new_alpha), weighted)
            &&& sample_of(arithmetic, weighted, result)
        }
}

/// The identity returns its argument, under every arithmetic.
pub proof fn lemma_identity_returns_its_argument<M: Arithmetic>(
    arithmetic: &M,
    func: FeFuncView,
    value: Number,
    result: Number,
)
    requires
        func.function_type is Identity,
        evaluation_of(arithmetic, func, value, result),
    ensures
        result == value,
{
}

/// A table function of a single entry returns that entry for every value,
/// under every arithmetic, and so does a discrete function of a single
/// entry.
pub proof fn lemma_single_entry_is_constant<M: Arithmetic>(
    arithmetic: &M,
    func: FeFuncView,
    value: Number,
    result: Number,
)
    requires
        func.function_type is Table || func.function_type is Discrete,
        func.table_values.len() == 1,
        evaluation_of(arithmetic, func, value, result),
    ensures
        result == func.table_values[0],
{
}

/// The identity component transfer function.
pub fn identity(_parameters: &FunctionParameters, value: Number) -> (result: Number)
    ensures
        result == value,
{
    value
}

/// The whole part of `value * count`, as an index.
fn step<M: Arithmetic>(value: Number, count: usize, arithmetic: &M) -> (k: usize)
    ensures
        step_of(arithmetic, value, count, k),
{
    let scale = arithmetic.from_index(count);
    let scaled = arithmetic.product(value, scale);
    arithmetic.floor_index(scaled)
}

/// The point at `value` on the line from `lower` at `k / n` to `upper` at
/// `(k + 1) / n`.
fn interpolate<M: Arithmetic>(
    lower: Number,
    upper: Number,
    value: Number,
    k: usize,
    n: usize,
    arithmetic: &M,
) -> (result: Number)
    ensures
        interpolation_of(arithmetic, lower, upper, value, k, n, result),
{
    let at = arithmetic.from_index(k);
    let count = arithmetic.from_index(n);
    let start = arithmetic.quotient(at, count);
    let along = arithmetic.difference(value, start);
    let run = arithmetic.product(along, count);
    let rise = arithmetic.difference(upper, lower);
    let gain = arithmetic.product(run, rise);
    arithmetic.sum(lower, gain)
}

/// The table component transfer function.
///
/// A table of one entry gives that entry for every value.
pub fn table<M: Arithmetic>(
    parameters: &FunctionParameters,
    value: Number,
    arithmetic: &M,
) -> (result: Number)
    requires
        parameters.table_values@.len() > 0,
    ensures
        table_of(arithmetic, parameters.table_values@, value, result),
        parameters.table_values@.len() == 1 ==> result == parameters.table_values@[0],
{
    let n: usize = parameters.table_values.len() - 1;
    let k: usize = step(value, n, arithmetic);

    if k >= n {
        return parameters.table_values[n];
    }
    let vk = parameters.table_values[k];
    let vk1 = parameters.table_values[k + 1];

    interpolate(vk, vk1, value, k, n, arithmetic)
}

/// The discrete component transfer function.
pub fn discrete<M: Arithmetic>(
    parameters: &FunctionParameters,
    value: Number,
    arithmetic: &M,
) -> (result: Number)
    requires
        parameters.table_values@.len() > 0,
    ensures
        discrete_of(arithmetic, parameters.table_values@, value, result),
        parameters.table_values@.len() == 1 ==> result == parameters.table_values@[0],
{
    let n: usize = parameters.table_values.len();
    let k: usize = step(value, n, arithmetic);

    assert(step_of(arithmetic, value, parameters.table_values@.len() as usize, k));
    parameters.table_values[if k < n - 1 {
        k
    } else {
        n - 1
    }]
}

/// The linear component transfer function.
pub fn linear<M: Arithmetic>(
    parameters: &FunctionParameters,
    value: Number,
    arithmetic: &M,
) -> (result: Number)
    ensures
        linear_of(arithmetic, parameters.slope, parameters.intercept, value, result),
{
    let scaled = arithmetic.product(parameters.slope, value);
    arithmetic.sum(scaled, parameters.intercept)
}

/// The gamma component transfer function.
pub fn gamma<M: Arithmetic>(
    parameters: &FunctionParameters,
    value: Number,
    arithmetic: &M,
) -> (result: Number)
    ensures
        gamma_of(
            arithmetic,
            parameters.amplitude,
            parameters.exponent,
            parameters.offset,
            value,
            result,
        ),
{
    let raised = arithmetic.power(value, parameters.exponent);
    let scaled = arithmetic.product(parameters.amplitude, raised);
    arithmetic.sum(scaled, parameters.offset)
}

/// Applies the transfer function of an element to a value. The result is not
/// clamped.
///
/// The identity returns the value, and so does every function that stands
/// for it. A table of one entry returns that entry.
pub fn evaluate<M: Arithmetic>(func: &FeFunc, value: Number, arithmetic: &M) -> (result: Number)
    ensures
        evaluation_of(arithmetic, func@, value, result),
        func@.function_type is Identity ==> result == value,
        (func@.function_type is Table || func@.function_type is Discrete)
            && func@.table_values.len() == 1 ==> result == func@.table_values[0],
{
    let parameters = func.parameters();
    match func.function_type() {
        FunctionType::Identity => identity(parameters, value),
        FunctionType::Table => table(parameters, value, arithmetic),
        FunctionType::Discrete => discrete(parameters, value, arithmetic),
        FunctionType::Linear => linear(parameters, value, arithmetic),
        FunctionType::Gamma => gamma(parameters, value, arithmetic),
    }
}

/// A value brought into the range from `low` to `high`.
pub fn clamp<M: Arithmetic>(value: Number, low: Number, high: Number, arithmetic: &M) -> (result:
    Number)
    ensures
        clamped_of(arithmetic, value, low, high, result),
{
    if arithmetic.less(value, low) {
        low
    } else if arithmetic.less(high, value) {
        high
    } else {
        value
    }
}

/// A sample as a part of one.
pub fn unit<M: Arithmetic>(sample: u8, arithmetic: &M) -> (result: Number)
    ensures
        unit_of(arithmetic, sample, result),
{
    let wide = arithmetic.from_sample(sample);
    arithmetic.quotient(wide, Number::sample_max())
}

/// A part of one as a sample, halves rounded up.
pub fn quantize<M: Arithmetic>(value: Number, arithmetic: &M) -> (result: u8)
    ensures
        sample_of(arithmetic, value, result),
{
    let scaled = arithmetic.product(value, Number::sample_max());
    let rounded = arithmetic.sum(scaled, Number::half());
    arithmetic.to_sample(rounded)
}

/// The new sample of a colour channel, from the sample and the alpha of the
/// pixel as they were and from the new alpha.
///
/// The alpha is taken out of the sample, the transfer function of the
/// channel is applied and its result clamped, and the new alpha is put in.
/// The new alpha itself is taken as it is, clamped or not.
///
/// Under an alpha of zero the colour counts as zero, whatever the sample
/// holds: what colour such a pixel had is lost.
pub fn compute<M: Arithmetic>(
    func: &FeFunc,
    sample: u8,
    alpha: Number,
    new_alpha: Number,
    arithmetic: &M,
) -> (result: u8)
    ensures
        computation_of(arithmetic, func@, sample, alpha, new_alpha, result),
{
    let value = unit(sample, arithmetic);

    let unpremultiplied = if alpha.is_zero() {
        Number::zero()
    } else {
        arithmetic.quotient(value, alpha)
    };

    let new_value = evaluate(func, unpremultiplied, arithmetic);
    let clamped = clamp(new_value, Number::zero(), Number::one(), arithmetic);

    let weighted = arithmetic.product(clamped, new_alpha);
    let result = quantize(weighted, arithmetic);
    assert(clamped_of(
        arithmetic,
        new_value,
        Number { bits: 0 },
        Number { bits: ONE_BITS },
        clamped,
    ));
    result
}

} // verus!
