//! Formulas over scalars and whole numbers.
use vstd::prelude::*;

verus! {

/// A number, given by the formula that computes it.
///
/// The scalar type `S` is whatever the caller computes in, binary64 for most.
/// A quantity holds scalars and never looks into them.
#[derive(Debug, PartialEq)]
pub enum Quantity<S> {
    /// A scalar that the caller supplied.
    Given(S),
    /// A whole number.
    Count(u128),
    /// The negation of a quantity.
    Neg(Box<Quantity<S>>),
    /// The product of two quantities, in this order.
    Product(Box<Quantity<S>>, Box<Quantity<S>>),
    /// The first quantity divided by the second.
    Quotient(Box<Quantity<S>>, Box<Quantity<S>>),
    /// The square root of a quantity.
    Root(Box<Quantity<S>>),
}

impl<S: Copy> Quantity<S> {
    /// `-self`.
    pub fn negated(self) -> (r: Self)
        ensures
            r == Quantity::Neg(Box::new(self)),
    {
        Quantity::Neg(Box::new(self))
    }

    /// `self * other`.
    pub fn times(self, other: Self) -> (r: Self)
        ensures
            r == Quantity::Product(Box::new(self), Box::new(other)),
    {
        Quantity::Product(Box::new(self), Box::new(other))
    }

    /// `self / other`.
    pub fn over(self, other: Self) -> (r: Self)
        ensures
            r == Quantity::Quotient(Box::new(self), Box::new(other)),
    {
        Quantity::Quotient(Box::new(self), Box::new(other))
    }

    /// The square root of `self`.
    pub fn root(self) -> (r: Self)
        ensures
            r == Quantity::Root(Box::new(self)),
    {
        Quantity::Root(Box::new(self))
    }
}

/// The operations of an arithmetic on the scalars `S`, as the caller has them.
pub struct Arithmetic<C, N, M, D, R> {
    /// A whole number as a scalar.
    pub count: C,
    /// The negation of a scalar.
    pub neg: N,
    /// The product of two scalars.
    pub mul: M,
    /// The first scalar divided by the second.
    pub div: D,
    /// The square root of a scalar.
    pub sqrt: R,
}

/// What the operations of an arithmetic may return: for each operation, which
/// result (the last argument) may come of which arguments.
#[verifier::reject_recursive_types(S)]
pub struct Outcomes<S> {
    /// A whole number and the scalar for it.
    pub count: spec_fn(u128, S) -> bool,
    /// A scalar and its negation.
    pub neg: spec_fn(S, S) -> bool,
    /// Two scalars and their product.
    pub mul: spec_fn(S, S, S) -> bool,
    /// Two scalars and the first divided by the second.
    pub div: spec_fn(S, S, S) -> bool,
    /// A scalar and its square root.
    pub sqrt: spec_fn(S, S) -> bool,
}

impl<S> Outcomes<S> {
    /// Every operation has at most one result for each argument.
    pub open spec fn functional(self) -> bool {
        &&& forall|n: u128, r: S, t: S|
            #[trigger] (self.count)(n, r) && #[trigger] (self.count)(n, t) ==> r == t
        &&& forall|a: S, r: S, t: S|
            #[trigger] (self.neg)(a, r) && #[trigger] (self.neg)(a, t) ==> r == t
        &&& forall|a: S, b: S, r: S, t: S|
            #[trigger] (self.mul)(a, b, r) && #[trigger] (self.mul)(a, b, t) ==> r == t
        &&& forall|a: S, b: S, r: S, t: S|
            #[trigger] (self.div)(a, b, r) && #[trigger] (self.div)(a, b, t) ==> r == t
        &&& forall|a: S, r: S, t: S|
            #[trigger] (self.sqrt)(a, r) && #[trigger] (self.sqrt)(a, t) ==> r == t
    }
}

impl<S, C, N, M, D, R> Arithmetic<C, N, M, D, R> where
    C: Fn(u128) -> S,
    N: Fn(S) -> S,
    M: Fn(S, S) -> S,
    D: Fn(S, S) -> S,
    R: Fn(S) -> S,
 {
    /// Every operation accepts every argument.
    pub open spec fn total(self) -> bool {
        &&& forall|n: u128| self.count.requires((n,))
        &&& forall|a: S| self.neg.requires((a,))
        &&& forall|a: S, b: S| self.mul.requires((a, b))
        &&& forall|a: S, b: S| self.div.requires((a, b))
        &&& forall|a: S| self.sqrt.requires((a,))
    }

    /// What the operations may return, as their own contracts say.
    pub open spec fn outcomes(self) -> Outcomes<S> {
        Outcomes {
            count: |n: u128, r: S| self.count.ensures((n,), r),
            neg: |a: S, r: S| self.neg.ensures((a,), r),
            mul: |a: S, b: S, r: S| self.mul.ensures((a, b), r),
            div: |a: S, b: S, r: S| self.div.ensures((a, b), r),
            sqrt: |a: S, r: S| self.sqrt.ensures((a,), r),
        }
    }
}

impl<S: Copy> Quantity<S> {
    /// Whether `r` may come out when the formula is computed in an arithmetic
    /// with the given outcomes, inner quantities first.
    pub open spec fn yields(self, outcomes: Outcomes<S>, r: S) -> bool
        decreases self,
    {
        match self {
            Quantity::Given(s) => r == s,
            Quantity::Count(n) => (outcomes.count)(n, r),
            Quantity::Neg(a) => exists|x: S|
                a.yields(outcomes, x) && #[trigger] (outcomes.neg)(x, r),
            Quantity::Product(a, b) => exists|x: S, y: S|
                {
                    &&& a.yields(outcomes, x)
                    &&& b.yields(outcomes, y)
                    &&& #[trigger] (outcomes.mul)(x, y, r)
                },
            Quantity::Quotient(a, b) => exists|x: S, y: S|
                {
                    &&& a.yields(outcomes, x)
                    &&& b.yields(outcomes, y)
                    &&& #[trigger] (outcomes.div)(x, y, r)
                },
            Quantity::Root(a) => exists|x: S|
                a.yields(outcomes, x) && #[trigger] (outcomes.sqrt)(x, r),
        }
    }

    /// Computes the formula with the operations of `ops`, inner quantities
    /// first and the left one before the right one.
    pub fn evaluate<
        C: Fn(u128) -> S,
        N: Fn(S) -> S,
        M: Fn(S, S) -> S,
        D: Fn(S, S) -> S,
        R: Fn(S) -> S,
    >(&self, ops: &Arithmetic<C, N, M, D, R>) -> (r: S)
        requires
            ops.total(),
        ensures
            self.yields(ops.outcomes(), r),
        decreases *self,
    {
        match self {
            Quantity::Given(s) => *s,
            Quantity::Count(n) => (ops.count)(*n),
            Quantity::Neg(a) => {
                let x = a.evaluate(ops);
                let r = (ops.neg)(x);
                assert((ops.outcomes().neg)(x, r));
                r
            },
            Quantity::Product(a, b) => {
                let x = a.evaluate(ops);
                let y = b.evaluate(ops);
                let r = (ops.mul)(x, y);
                assert((ops.outcomes().mul)(x, y, r));
                r
            },
            Quantity::Quotient(a, b) => {
                let x = a.evaluate(ops);
                let y = b.evaluate(ops);
                let r = (ops.div)(x, y);
                assert((ops.outcomes().div)(x, y, r));
                r
            },
            Quantity::Root(a) => {
                let x = a.evaluate(ops);
                let r = (ops.sqrt)(x);
                assert((ops.outcomes().sqrt)(x, r));
                r
            },
        }
    }
}

impl<S: Copy> Clone for Quantity<S> {
    /// The same formula once more.
    fn clone(&self) -> (r: Self)
        ensures
            r == *self,
        decreases *self,
    {
        match self {
            Quantity::Given(s) => Quantity::Given(*s),
            Quantity::Count(n) => Quantity::Count(*n),
            Quantity::Neg(a) => Quantity::Neg(Box::new((&**a).clone())),
            Quantity::Product(a, b) => Quantity::Product(
                Box::new((&**a).clone()),
                Box::new((&**b).clone()),
            ),
            Quantity::Quotient(a, b) => Quantity::Quotient(
                Box::new((&**a).clone()),
                Box::new((&**b).clone()),
            ),
            Quantity::Root(a) => Quantity::Root(Box::new((&**a).clone())),
        }
    }
}

} // verus!
