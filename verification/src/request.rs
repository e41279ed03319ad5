//! What a tensor backend is asked for.
use vstd::prelude::*;
use crate::quantity::{Arithmetic, Outcomes, Quantity};

verus! {

/// A distribution to draw each element from, with parameters of type `T`.
#[derive(Debug, PartialEq)]
pub enum Distribution<T> {
    /// Uniform between `low` and `high`.
    Uniform {
        /// The least value to draw.
        low: T,
        /// The greatest value to draw.
        high: T,
    },
    /// Normal with the given mean and standard deviation.
    Normal {
        /// The mean.
        mean: T,
        /// The standard deviation.
        std: T,
    },
}

/// How the elements of a tensor get their values.
#[derive(Debug, PartialEq)]
pub enum Filling<T> {
    /// Every element is the given value.
    Full(T),
    /// Every element is one.
    Ones,
    /// Every element is zero.
    Zeros,
    /// Every element is drawn afresh from the distribution.
    Random(Distribution<T>),
}

/// A tensor to be made: its shape, and how to fill it.
#[derive(Debug, PartialEq)]
pub struct Request<T, const D: usize> {
    /// The extent of each of the `D` dimensions.
    pub shape: [usize; D],
    /// The values of the elements.
    pub filling: Filling<T>,
}

impl<S: Copy> Distribution<Quantity<S>> {
    /// Whether `r` may come out when the parameters are computed in an
    /// arithmetic with the given outcomes.
    pub open spec fn resolves_to(self, outcomes: Outcomes<S>, r: Distribution<S>) -> bool {
        match self {
            Distribution::Uniform { low, high } => {
                &&& r is Uniform
                &&& low.yields(outcomes, r->low)
                &&& high.yields(outcomes, r->high)
            },
            Distribution::Normal { mean, std } => {
                &&& r is Normal
                &&& mean.yields(outcomes, r->mean)
                &&& std.yields(outcomes, r->std)
            },
        }
    }

    /// Computes the parameters with the operations of `ops`: of a uniform
    /// distribution first the lower bound, of a normal one first the mean.
    pub fn resolve<
        C: Fn(u128) -> S,
        N: Fn(S) -> S,
        M: Fn(S, S) -> S,
        D: Fn(S, S) -> S,
        R: Fn(S) -> S,
    >(&self, ops: &Arithmetic<C, N, M, D, R>) -> (r: Distribution<S>)
        requires
            ops.total(),
        ensures
            self.resolves_to(ops.outcomes(), r),
    {
        match self {
            Distribution::Uniform { low, high } => {
                let low = low.evaluate(ops);
                let high = high.evaluate(ops);
                Distribution::Uniform { low, high }
            },
            Distribution::Normal { mean, std } => {
                let mean = mean.evaluate(ops);
                let std = std.evaluate(ops);
                Distribution::Normal { mean, std }
            },
        }
    }
}

impl<S: Copy> Filling<Quantity<S>> {
    /// Whether `r` may come out when the parameters are computed in an
    /// arithmetic with the given outcomes.
    pub open spec fn resolves_to(self, outcomes: Outcomes<S>, r: Filling<S>) -> bool {
        match self {
            Filling::Full(value) => r is Full && value.yields(outcomes, r->Full_0),
            Filling::Ones => r is Ones,
            Filling::Zeros => r is Zeros,
            Filling::Random(distribution) => {
                &&& r is Random
                &&& distribution.resolves_to(outcomes, r->Random_0)
            },
        }
    }

    /// Computes the parameters with the operations of `ops`.
    pub fn resolve<
        C: Fn(u128) -> S,
        N: Fn(S) -> S,
        M: Fn(S, S) -> S,
        D: Fn(S, S) -> S,
        R: Fn(S) -> S,
    >(&self, ops: &Arithmetic<C, N, M, D, R>) -> (r: Filling<S>)
        requires
            ops.total(),
        ensures
            self.resolves_to(ops.outcomes(), r),
    {
        match self {
            Filling::Full(value) => Filling::Full(value.evaluate(ops)),
            Filling::Ones => Filling::Ones,
            Filling::Zeros => Filling::Zeros,
            Filling::Random(distribution) => Filling::Random(distribution.resolve(ops)),
        }
    }
}

impl<S: Copy, const K: usize> Request<Quantity<S>, K> {
    /// Computes the parameters with the operations of `ops` and keeps the shape.
    pub fn resolve<
        C: Fn(u128) -> S,
        N: Fn(S) -> S,
        M: Fn(S, S) -> S,
        D: Fn(S, S) -> S,
        R: Fn(S) -> S,
    >(&self, ops: &Arithmetic<C, N, M, D, R>) -> (r: Request<S, K>)
        requires
            ops.total(),
        ensures
            r.shape == self.shape,
            self.filling.resolves_to(ops.outcomes(), r.filling),
    {
        Request { shape: self.shape, filling: self.filling.resolve(ops) }
    }
}

} // verus!
