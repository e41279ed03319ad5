//! What holds of every scheme, every shape and every arithmetic.
use vstd::prelude::*;
use crate::fans::{Fan, MissingFan};
use crate::initializer::{selected_fan, Initializer};
use crate::quantity::{Outcomes, Quantity};
use crate::request::{Distribution, Filling};

verus! {

/// In an arithmetic whose operations have one result each, a formula has one
/// value: computing it again gives the same scalar.
pub proof fn lemma_value_is_unique<S: Copy>(q: Quantity<S>, outcomes: Outcomes<S>, r: S, t: S)
    requires
        outcomes.functional(),
        q.yields(outcomes, r),
        q.yields(outcomes, t),
    ensures
        r == t,
    decreases q,
{
    match q {
        Quantity::Given(_) => {},
        Quantity::Count(_) => {},
        Quantity::Neg(a) => {
            let x = choose|x: S| a.yields(outcomes, x) && #[trigger] (outcomes.neg)(x, r);
            let y = choose|y: S| a.yields(outcomes, y) && #[trigger] (outcomes.neg)(y, t);
            lemma_value_is_unique(*a, outcomes, x, y);
        },
        Quantity::Product(a, b) => {
            let (x, u) = choose|x: S, u: S|
                a.yields(outcomes, x) && b.yields(outcomes, u) && #[trigger] (outcomes.mul)(
                    x,
                    u,
                    r,
                );
            let (y, v) = choose|y: S, v: S|
                a.yields(outcomes, y) && b.yields(outcomes, v) && #[trigger] (outcomes.mul)(
                    y,
                    v,
                    t,
                );
            lemma_value_is_unique(*a, outcomes, x, y);
            lemma_value_is_unique(*b, outcomes, u, v);
        },
        Quantity::Quotient(a, b) => {
            let (x, u) = choose|x: S, u: S|
                a.yields(outcomes, x) && b.yields(outcomes, u) && #[trigger] (outcomes.div)(
                    x,
                    u,
                    r,
                );
            let (y, v) = choose|y: S, v: S|
                a.yields(outcomes, y) && b.yields(outcomes, v) && #[trigger] (outcomes.div)(
                    y,
                    v,
                    t,
                );
            lemma_value_is_unique(*a, outcomes, x, y);
            lemma_value_is_unique(*b, outcomes, u, v);
        },
        Quantity::Root(a) => {
            let x = choose|x: S| a.yields(outcomes, x) && #[trigger] (outcomes.sqrt)(x, r);
            let y = choose|y: S| a.yields(outcomes, y) && #[trigger] (outcomes.sqrt)(y, t);
            lemma_value_is_unique(*a, outcomes, x, y);
        },
    }
}

/// In an arithmetic whose operations have one result each, the parameters of
/// a filling are the same whenever they are computed.
pub proof fn lemma_filling_is_unique<S: Copy>(
    filling: Filling<Quantity<S>>,
    outcomes: Outcomes<S>,
    r: Filling<S>,
    t: Filling<S>,
)
    requires
        outcomes.functional(),
        filling.resolves_to(outcomes, r),
        filling.resolves_to(outcomes, t),
    ensures
        r == t,
{
    match filling {
        Filling::Full(value) => {
            lemma_value_is_unique(value, outcomes, r->Full_0, t->Full_0);
        },
        Filling::Ones => {},
        Filling::Zeros => {},
        Filling::Random(Distribution::Uniform { low, high }) => {
            lemma_value_is_unique(low, outcomes, r->Random_0->low, t->Random_0->low);
            lemma_value_is_unique(high, outcomes, r->Random_0->high, t->Random_0->high);
        },
        Filling::Random(Distribution::Normal { mean, std }) => {
            lemma_value_is_unique(mean, outcomes, r->Random_0->mean, t->Random_0->mean);
            lemma_value_is_unique(std, outcomes, r->Random_0->std, t->Random_0->std);
        },
    }
}

/// A scheme without a fan in its formula never lacks one, and prescribes the
/// same filling whatever fans come with the call.
pub proof fn lemma_plain_schemes_ignore_fans<S: Copy>(
    scheme: Initializer<S>,
    fan_in: Option<usize>,
    fan_out: Option<usize>,
)
    requires
        scheme.scheme() is None,
    ensures
        scheme.lacks(fan_in, fan_out) is None,
        scheme.filling(fan_in, fan_out) == scheme.filling(None, None),
{
}

/// A constant scheme fills with its value, in every arithmetic and for all
/// fans.
pub proof fn lemma_constant_fills_with_value<S: Copy>(
    value: S,
    fan_in: Option<usize>,
    fan_out: Option<usize>,
    outcomes: Outcomes<S>,
    r: Filling<S>,
)
    requires
        (Initializer::Constant { value }).filling(fan_in, fan_out).resolves_to(outcomes, r),
    ensures
        r == Filling::Full(value),
{
}

/// The schemes of ones and of zeros fill with ones and with zeros, in every
/// arithmetic and for all fans.
pub proof fn lemma_ones_and_zeros<S: Copy>(
    fan_in: Option<usize>,
    fan_out: Option<usize>,
    outcomes: Outcomes<S>,
    r: Filling<S>,
)
    ensures
        Initializer::<S>::Ones.filling(fan_in, fan_out).resolves_to(outcomes, r) ==> r is Ones,
        Initializer::<S>::Zeros.filling(fan_in, fan_out).resolves_to(outcomes, r) ==> r is Zeros,
{
}

/// The uniform and the normal scheme hand their own scalars to the
/// distribution, in every arithmetic and for all fans.
pub proof fn lemma_given_parameters_pass_through<S: Copy>(
    first: S,
    second: S,
    fan_in: Option<usize>,
    fan_out: Option<usize>,
    outcomes: Outcomes<S>,
    r: Filling<S>,
)
    ensures
        (Initializer::Uniform { min: first, max: second }).filling(fan_in, fan_out).resolves_to(
            outcomes,
            r,
        ) ==> r == Filling::Random(Distribution::Uniform { low: first, high: second }),
        (Initializer::Normal { mean: first, std: second }).filling(fan_in, fan_out).resolves_to(
            outcomes,
            r,
        ) ==> r == Filling::Random(Distribution::Normal { mean: first, std: second }),
{
}

/// A scheme with a fan in its formula lacks one when no fan is given: fan in,
/// but for a Kaiming scheme that takes fan out.
pub proof fn lemma_fan_schemes_need_a_fan<S: Copy>(scheme: Initializer<S>)
    requires
        scheme.scheme() is Some,
    ensures
        scheme.lacks(None, None) == Some(
            MissingFan {
                scheme: scheme.scheme().unwrap(),
                fan: match scheme {
                    Initializer::KaimingUniform { fan_out_only, .. }
                    | Initializer::KaimingNormal { fan_out_only, .. } => selected_fan(
                        fan_out_only,
                    ),
                    _ => Fan::In,
                },
            },
        ),
{
}

/// A Kaiming scheme looks at the fan it takes and at no other: with fan out
/// alone it prescribes what its fan-in twin prescribes for the same number
/// given as fan in.
pub proof fn lemma_kaiming_takes_one_fan<S: Copy>(
    gain: S,
    fan: usize,
    other: Option<usize>,
    another: Option<usize>,
)
    ensures
        (Initializer::KaimingUniform { gain, fan_out_only: true }).lacks(other, Some(fan)) is None,
        (Initializer::KaimingNormal { gain, fan_out_only: true }).lacks(other, Some(fan)) is None,
        (Initializer::KaimingUniform { gain, fan_out_only: true }).filling(other, Some(fan)) == (
        Initializer::KaimingUniform { gain, fan_out_only: false }).filling(Some(fan), another),
        (Initializer::KaimingNormal { gain, fan_out_only: true }).filling(other, Some(fan)) == (
        Initializer::KaimingNormal { gain, fan_out_only: false }).filling(Some(fan), another),
{
}

/// The uniform Kaiming and Xavier schemes draw between a bound and its
/// negation: the lower bound that comes out is the negation of a value of the
/// formula of the upper one.
pub proof fn lemma_fan_uniform_is_symmetric<S: Copy>(
    scheme: Initializer<S>,
    fan_in: Option<usize>,
    fan_out: Option<usize>,
    outcomes: Outcomes<S>,
    r: Filling<S>,
)
    requires
        scheme is KaimingUniform || scheme is XavierUniform,
        outcomes.functional(),
        scheme.filling(fan_in, fan_out).resolves_to(outcomes, r),
    ensures
        r is Random,
        r->Random_0 is Uniform,
        (outcomes.neg)(r->Random_0->high, r->Random_0->low),
{
    let plan = scheme.filling(fan_in, fan_out)->Random_0;
    let bound = plan->high;
    let low = r->Random_0->low;
    let x = choose|x: S| bound.yields(outcomes, x) && #[trigger] (outcomes.neg)(x, low);
    lemma_value_is_unique(bound, outcomes, x, r->Random_0->high);
}

} // verus!
