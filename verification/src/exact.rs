//! The formulas in exact arithmetic.
use vstd::prelude::*;
use crate::initializer::{
    bound_of, kaiming_std_of, scaled, selected_fan, symmetric, xavier_std_of, Initializer,
};
use crate::laws::lemma_value_is_unique;
use crate::quantity::{Outcomes, Quantity};
use crate::request::{Distribution, Filling};

verus! {

/// The arithmetic of the real numbers: every operation is exact, division by
/// zero and the root of a negative number have no result.
pub open spec fn exact() -> Outcomes<real> {
    Outcomes {
        count: |n: u128, r: real| r == n as real,
        neg: |a: real, r: real| r == -a,
        mul: |a: real, b: real, r: real| r == a * b,
        div: |a: real, b: real, r: real| b != 0real && r == a / b,
        sqrt: |a: real, r: real| r >= 0real && r * r == a,
    }
}

/// A non-negative real number has one non-negative square root at most.
pub proof fn lemma_root_is_unique(r: real, t: real)
    requires
        r >= 0real,
        t >= 0real,
        r * r == t * t,
    ensures
        r == t,
{
    assert((r - t) * (r + t) == r * r - t * t) by (nonlinear_arith);
    assert((r - t) * (r + t) == 0real ==> r - t == 0real || r + t == 0real) by (nonlinear_arith);
}

/// In exact arithmetic every operation has one result at most.
pub proof fn lemma_exact_is_functional()
    ensures
        exact().functional(),
{
    assert forall|a: real, r: real, t: real|
        #[trigger] (exact().sqrt)(a, r) && #[trigger] (exact().sqrt)(a, t) implies r == t by {
        lemma_root_is_unique(r, t);
    }
}

/// The values of the two factors of a product that has the value `r`.
proof fn factors(a: Quantity<real>, b: Quantity<real>, r: real) -> (p: (real, real))
    requires
        Quantity::Product(Box::new(a), Box::new(b)).yields(exact(), r),
    ensures
        a.yields(exact(), p.0),
        b.yields(exact(), p.1),
        r == p.0 * p.1,
{
    choose|x: real, y: real|
        a.yields(exact(), x) && b.yields(exact(), y) && #[trigger] (exact().mul)(x, y, r)
}

/// The values of the two parts of a quotient that has the value `r`.
proof fn parts(a: Quantity<real>, b: Quantity<real>, r: real) -> (p: (real, real))
    requires
        Quantity::Quotient(Box::new(a), Box::new(b)).yields(exact(), r),
    ensures
        a.yields(exact(), p.0),
        b.yields(exact(), p.1),
        p.1 != 0real,
        r == p.0 / p.1,
{
    choose|x: real, y: real|
        a.yields(exact(), x) && b.yields(exact(), y) && #[trigger] (exact().div)(x, y, r)
}

/// The value of the quantity under a root that has the value `r`.
proof fn radicand(a: Quantity<real>, r: real) -> (x: real)
    requires
        Quantity::Root(Box::new(a)).yields(exact(), r),
    ensures
        a.yields(exact(), x),
        r >= 0real,
        r * r == x,
{
    choose|x: real| a.yields(exact(), x) && #[trigger] (exact().sqrt)(x, r)
}

/// In exact arithmetic the standard deviation that Kaiming initialization
/// starts from is the positive number whose square is `1 / fan`.
pub proof fn lemma_kaiming_std_exact(fan: usize, s: real)
    requires
        fan > 0,
        kaiming_std_of::<real>(fan).yields(exact(), s),
    ensures
        s > 0real,
        s * s * (fan as real) == 1real,
{
    let root = Quantity::Root(Box::new(Quantity::Count(fan as u128)));
    let (one, y) = parts(Quantity::Count(1), root, s);
    let f = radicand(Quantity::Count(fan as u128), y);
    assert(one == 1real);
    assert(f == fan as real);
    assert(s * y == 1real) by (nonlinear_arith)
        requires
            y != 0real,
            s == 1real / y,
    ;
    assert(s * s * (y * y) == 1real) by (nonlinear_arith)
        requires
            s * y == 1real,
    ;
    assert(s > 0real) by (nonlinear_arith)
        requires
            y >= 0real,
            s * y == 1real,
    ;
}

/// In exact arithmetic the standard deviation that Xavier Glorot
/// initialization starts from is the positive number whose square is
/// `2 / (fan_in + fan_out)`.
pub proof fn lemma_xavier_std_exact(fan_in: usize, fan_out: usize, s: real)
    requires
        fan_in + fan_out > 0,
        xavier_std_of::<real>(fan_in, fan_out).yields(exact(), s),
    ensures
        s > 0real,
        s * s * ((fan_in + fan_out) as real) == 2real,
{
    let sum = (fan_in + fan_out) as u128;
    let ratio = Quantity::Quotient(Box::new(Quantity::Count(2)), Box::new(Quantity::Count(sum)));
    let w = radicand(ratio, s);
    let (two, n) = parts(Quantity::Count(2), Quantity::Count(sum), w);
    assert(two == 2real);
    assert(n == (fan_in + fan_out) as real);
    assert(w * n == 2real) by (nonlinear_arith)
        requires
            n != 0real,
            w == 2real / n,
    ;
    assert(s != 0real) by (nonlinear_arith)
        requires
            s * s == w,
            w * n == 2real,
    ;
}

/// In exact arithmetic the bound `a` of a uniform scheme is `sqrt(3)` times
/// the gain times the standard deviation `s` that the scheme starts from.
proof fn bound_exact(gain: real, std: Quantity<real>, a: real) -> (s: real)
    requires
        bound_of(gain, std).yields(exact(), a),
    ensures
        std.yields(exact(), s),
        a * a == 3real * (gain * s) * (gain * s),
        gain * s >= 0real ==> a >= 0real,
{
    let scale = Quantity::Product(
        Box::new(Quantity::Root(Box::new(Quantity::Count(3)))),
        Box::new(Quantity::Given(gain)),
    );
    let (c, s) = factors(scale, std, a);
    let (root, g) = factors(Quantity::Root(Box::new(Quantity::Count(3))), Quantity::Given(gain), c);
    let three = radicand(Quantity::Count(3), root);
    assert(three == 3real);
    assert(g == gain);
    assert(a * a == 3real * (gain * s) * (gain * s)) by (nonlinear_arith)
        requires
            a == (root * gain) * s,
            root * root == 3real,
    ;
    assert(gain * s >= 0real ==> a >= 0real) by (nonlinear_arith)
        requires
            a == (root * gain) * s,
            root >= 0real,
    ;
    s
}

/// In exact arithmetic the standard deviation `d` of a normal scheme is the
/// gain times the standard deviation `s` that the scheme starts from.
proof fn scaled_exact(gain: real, std: Quantity<real>, d: real) -> (s: real)
    requires
        scaled(gain, std).yields(exact(), d),
    ensures
        std.yields(exact(), s),
        d == gain * s,
{
    let (g, s) = factors(Quantity::Given(gain), std, d);
    s
}

/// In exact arithmetic the lower bound of the uniform distribution between
/// `-bound` and `bound` is the negation of the upper one.
proof fn opposite_bounds(bound: Quantity<real>, r: Distribution<real>)
    requires
        symmetric(bound).resolves_to(exact(), r),
    ensures
        r is Uniform,
        r->low == -r->high,
{
    let x = choose|x: real| bound.yields(exact(), x) && #[trigger] (exact().neg)(x, r->low);
    lemma_exact_is_functional();
    lemma_value_is_unique(bound, exact(), x, r->high);
}

/// Kaiming initialization, uniform, in exact arithmetic: the draws are between
/// `-a` and `a` with `a * a == 3 * gain * gain / fan`, and `a` is not negative
/// where the gain is not.
pub proof fn lemma_kaiming_uniform_exact(
    gain: real,
    fan_out_only: bool,
    fan_in: Option<usize>,
    fan_out: Option<usize>,
    r: Filling<real>,
)
    requires
        selected_fan(fan_out_only).of(fan_in, fan_out) is Some,
        selected_fan(fan_out_only).of(fan_in, fan_out).unwrap() > 0,
        (Initializer::KaimingUniform { gain, fan_out_only }).filling(fan_in, fan_out).resolves_to(
            exact(),
            r,
        ),
    ensures
        r is Random,
        r->Random_0 is Uniform,
        r->Random_0->low == -r->Random_0->high,
        r->Random_0->high * r->Random_0->high * (selected_fan(fan_out_only).of(
            fan_in,
            fan_out,
        ).unwrap() as real) == 3real * gain * gain,
        gain >= 0real ==> r->Random_0->high >= 0real,
{
    let fan = selected_fan(fan_out_only).of(fan_in, fan_out).unwrap();
    let high = r->Random_0->high;
    let s = bound_exact(gain, kaiming_std_of(fan), high);
    lemma_kaiming_std_exact(fan, s);
    opposite_bounds(bound_of(gain, kaiming_std_of(fan)), r->Random_0);
    let f = fan as real;
    assert(high * high * f == 3real * gain * gain) by (nonlinear_arith)
        requires
            high * high == 3real * (gain * s) * (gain * s),
            s * s * f == 1real,
    ;
    assert(gain >= 0real ==> gain * s >= 0real) by (nonlinear_arith)
        requires
            s > 0real,
    ;
}

/// Kaiming initialization, normal, in exact arithmetic: the mean is zero and
/// the variance is `gain * gain / fan`.
pub proof fn lemma_kaiming_normal_exact(
    gain: real,
    fan_out_only: bool,
    fan_in: Option<usize>,
    fan_out: Option<usize>,
    r: Filling<real>,
)
    requires
        selected_fan(fan_out_only).of(fan_in, fan_out) is Some,
        selected_fan(fan_out_only).of(fan_in, fan_out).unwrap() > 0,
        (Initializer::KaimingNormal { gain, fan_out_only }).filling(fan_in, fan_out).resolves_to(
            exact(),
            r,
        ),
    ensures
        r is Random,
        r->Random_0 is Normal,
        r->Random_0->mean == 0real,
        r->Random_0->std * r->Random_0->std * (selected_fan(fan_out_only).of(
            fan_in,
            fan_out,
        ).unwrap() as real) == gain * gain,
        gain >= 0real ==> r->Random_0->std >= 0real,
{
    let fan = selected_fan(fan_out_only).of(fan_in, fan_out).unwrap();
    let d = r->Random_0->std;
    let s = scaled_exact(gain, kaiming_std_of(fan), d);
    lemma_kaiming_std_exact(fan, s);
    let f = fan as real;
    assert(d * d * f == gain * gain) by (nonlinear_arith)
        requires
            d == gain * s,
            s * s * f == 1real,
    ;
    assert(gain >= 0real ==> d >= 0real) by (nonlinear_arith)
        requires
            d == gain * s,
            s > 0real,
    ;
}

/// Xavier Glorot initialization, uniform, in exact arithmetic: the draws are
/// between `-a` and `a` with `a * a == 6 * gain * gain / (fan_in + fan_out)`,
/// and `a` is not negative where the gain is not.
pub proof fn lemma_xavier_uniform_exact(gain: real, fan_in: usize, fan_out: usize, r: Filling<real>)
    requires
        fan_in + fan_out > 0,
        (Initializer::XavierUniform { gain }).filling(Some(fan_in), Some(fan_out)).resolves_to(
            exact(),
            r,
        ),
    ensures
        r is Random,
        r->Random_0 is Uniform,
        r->Random_0->low == -r->Random_0->high,
        r->Random_0->high * r->Random_0->high * ((fan_in + fan_out) as real) == 6real * gain
            * gain,
        gain >= 0real ==> r->Random_0->high >= 0real,
{
    let high = r->Random_0->high;
    let s = bound_exact(gain, xavier_std_of(fan_in, fan_out), high);
    lemma_xavier_std_exact(fan_in, fan_out, s);
    opposite_bounds(bound_of(gain, xavier_std_of(fan_in, fan_out)), r->Random_0);
    let f = (fan_in + fan_out) as real;
    assert(high * high * f == 6real * gain * gain) by (nonlinear_arith)
        requires
            high * high == 3real * (gain * s) * (gain * s),
            s * s * f == 2real,
    ;
    assert(gain >= 0real ==> gain * s >= 0real) by (nonlinear_arith)
        requires
            s > 0real,
    ;
}

/// Xavier Glorot initialization, normal, in exact arithmetic: the mean is zero
/// and the variance is `2 * gain * gain / (fan_in + fan_out)`.
pub proof fn lemma_xavier_normal_exact(gain: real, fan_in: usize, fan_out: usize, r: Filling<real>)
    requires
        fan_in + fan_out > 0,
        (Initializer::XavierNormal { gain }).filling(Some(fan_in), Some(fan_out)).resolves_to(
            exact(),
            r,
        ),
    ensures
        r is Random,
        r->Random_0 is Normal,
        r->Random_0->mean == 0real,
        r->Random_0->std * r->Random_0->std * ((fan_in + fan_out) as real) == 2real * gain * gain,
        gain >= 0real ==> r->Random_0->std >= 0real,
{
    let d = r->Random_0->std;
    let s = scaled_exact(gain, xavier_std_of(fan_in, fan_out), d);
    lemma_xavier_std_exact(fan_in, fan_out, s);
    let f = (fan_in + fan_out) as real;
    assert(d * d * f == 2real * gain * gain) by (nonlinear_arith)
        requires
            d == gain * s,
            s * s * f == 2real,
    ;
    assert(gain >= 0real ==> d >= 0real) by (nonlinear_arith)
        requires
            d == gain * s,
            s > 0real,
    ;
}

} // verus!
