//! The initialization schemes and what each of them asks for.
use vstd::prelude::*;
use crate::fans::{Fan, MissingFan, Scheme};
use crate::quantity::Quantity;
use crate::request::{Distribution, Filling, Request};

verus! {

/// With what values a tensor is initialized.
///
/// A scheme holds only its own scalars. The shape and the fans come with each
/// call, so one value serves tensors of any shape.
#[derive(Debug, PartialEq)]
pub enum Initializer<S> {
    /// The given value everywhere.
    Constant {
        /// The value to fill the tensor with.
        value: S,
    },
    /// One everywhere.
    Ones,
    /// Zero everywhere.
    Zeros,
    /// Values drawn uniformly between the given bounds.
    Uniform {
        /// The least value to draw.
        min: S,
        /// The greatest value to draw.
        max: S,
    },
    /// Values drawn from the normal distribution with the given mean and
    /// standard deviation.
    Normal {
        /// The mean of the distribution.
        mean: S,
        /// The standard deviation of the distribution.
        std: S,
    },
    /// Kaiming initialization, uniform: values drawn uniformly between `-a` and
    /// `a`, where `a = sqrt(3) * gain / sqrt(fan)`.
    KaimingUniform {
        /// The gain of the formula.
        gain: S,
        /// Whether the formula takes fan out. It takes fan in otherwise.
        fan_out_only: bool,
    },
    /// Kaiming initialization, normal: values drawn from the normal
    /// distribution with mean zero and standard deviation `gain / sqrt(fan)`.
    KaimingNormal {
        /// The gain of the formula.
        gain: S,
        /// Whether the formula takes fan out. It takes fan in otherwise.
        fan_out_only: bool,
    },
    /// Xavier Glorot initialization, uniform: values drawn uniformly between
    /// `-a` and `a`, where `a = sqrt(3) * gain * sqrt(2 / (fan_in + fan_out))`.
    XavierUniform {
        /// The gain of the formula.
        gain: S,
    },
    /// Xavier Glorot initialization, normal: values drawn from the normal
    /// distribution with mean zero and standard deviation
    /// `gain * sqrt(2 / (fan_in + fan_out))`.
    XavierNormal {
        /// The gain of the formula.
        gain: S,
    },
}

impl<S: Copy> Clone for Initializer<S> {
    /// The same scheme once more.
    fn clone(&self) -> (r: Self)
        ensures
            r == *self,
    {
        *self
    }
}

impl<S: Copy> Copy for Initializer<S> {

}

/// The fan that a Kaiming scheme scales by.
pub open spec fn selected_fan(fan_out_only: bool) -> Fan {
    if fan_out_only {
        Fan::Out
    } else {
        Fan::In
    }
}

/// `1 / sqrt(fan)`.
pub open spec fn kaiming_std_of<S>(fan: usize) -> Quantity<S> {
    Quantity::Quotient(
        Box::new(Quantity::Count(1)),
        Box::new(Quantity::Root(Box::new(Quantity::Count(fan as u128)))),
    )
}

/// `sqrt(2 / (fan_in + fan_out))`, the sum taken of the whole numbers.
pub open spec fn xavier_std_of<S>(fan_in: usize, fan_out: usize) -> Quantity<S> {
    Quantity::Root(
        Box::new(
            Quantity::Quotient(
                Box::new(Quantity::Count(2)),
                Box::new(Quantity::Count((fan_in + fan_out) as u128)),
            ),
        ),
    )
}

/// `(sqrt(3) * gain) * std`, the bound of a uniform distribution with
/// standard deviation `gain * std`.
pub open spec fn bound_of<S>(gain: S, std: Quantity<S>) -> Quantity<S> {
    Quantity::Product(
        Box::new(
            Quantity::Product(
                Box::new(Quantity::Root(Box::new(Quantity::Count(3)))),
                Box::new(Quantity::Given(gain)),
            ),
        ),
        Box::new(std),
    )
}

/// `gain * std`.
pub open spec fn scaled<S>(gain: S, std: Quantity<S>) -> Quantity<S> {
    Quantity::Product(Box::new(Quantity::Given(gain)), Box::new(std))
}

/// The uniform distribution between `-bound` and `bound`.
pub open spec fn symmetric<S>(bound: Quantity<S>) -> Distribution<Quantity<S>> {
    Distribution::Uniform { low: Quantity::Neg(Box::new(bound)), high: bound }
}

/// The normal distribution with mean zero and the given standard deviation.
pub open spec fn centred<S>(std: Quantity<S>) -> Distribution<Quantity<S>> {
    Distribution::Normal { mean: Quantity::Count(0), std }
}

impl<S: Copy> Initializer<S> {
    /// The scheme's family, where its formula takes a fan.
    pub open spec fn scheme(self) -> Option<Scheme> {
        match self {
            Initializer::KaimingUniform { .. } | Initializer::KaimingNormal { .. } => Some(
                Scheme::Kaiming,
            ),
            Initializer::XavierUniform { .. } | Initializer::XavierNormal { .. } => Some(
                Scheme::Xavier,
            ),
            _ => None,
        }
    }

    /// The fan that the formula needs and the caller did not give, if there is
    /// one; of two, fan in.
    pub open spec fn lacks(self, fan_in: Option<usize>, fan_out: Option<usize>) -> Option<
        MissingFan,
    > {
        match self {
            Initializer::KaimingUniform { fan_out_only, .. }
            | Initializer::KaimingNormal { fan_out_only, .. } => {
                let fan = selected_fan(fan_out_only);
                if fan.of(fan_in, fan_out) is None {
                    Some(MissingFan { scheme: Scheme::Kaiming, fan })
                } else {
                    None
                }
            },
            Initializer::XavierUniform { .. } | Initializer::XavierNormal { .. } => {
                if fan_in is None {
                    Some(MissingFan { scheme: Scheme::Xavier, fan: Fan::In })
                } else if fan_out is None {
                    Some(MissingFan { scheme: Scheme::Xavier, fan: Fan::Out })
                } else {
                    None
                }
            },
            _ => None,
        }
    }

    /// The filling that the scheme prescribes for a layer with the given fans.
    /// It is meant where `self.lacks(fan_in, fan_out)` is `None`.
    pub open spec fn filling(self, fan_in: Option<usize>, fan_out: Option<usize>) -> Filling<
        Quantity<S>,
    > {
        match self {
            Initializer::Constant { value } => Filling::Full(Quantity::Given(value)),
            Initializer::Ones => Filling::Ones,
            Initializer::Zeros => Filling::Zeros,
            Initializer::Uniform { min, max } => Filling::Random(
                Distribution::Uniform { low: Quantity::Given(min), high: Quantity::Given(max) },
            ),
            Initializer::Normal { mean, std } => Filling::Random(
                Distribution::Normal { mean: Quantity::Given(mean), std: Quantity::Given(std) },
            ),
            Initializer::KaimingUniform { gain, fan_out_only } => Filling::Random(
                symmetric(
                    bound_of(
                        gain,
                        kaiming_std_of(selected_fan(fan_out_only).of(fan_in, fan_out).unwrap()),
                    ),
                ),
            ),
            Initializer::KaimingNormal { gain, fan_out_only } => Filling::Random(
                centred(
                    scaled(
                        gain,
                        kaiming_std_of(selected_fan(fan_out_only).of(fan_in, fan_out).unwrap()),
                    ),
                ),
            ),
            Initializer::XavierUniform { gain } => Filling::Random(
                symmetric(bound_of(gain, xavier_std_of(fan_in.unwrap(), fan_out.unwrap()))),
            ),
            Initializer::XavierNormal { gain } => Filling::Random(
                centred(scaled(gain, xavier_std_of(fan_in.unwrap(), fan_out.unwrap()))),
            ),
        }
    }

    /// Tells whether the caller gave every fan that the formula needs, and
    /// which one is missing where they did not.
    pub fn check_fans(&self, fan_in: Option<usize>, fan_out: Option<usize>) -> (r: Result<
        (),
        MissingFan,
    >)
        ensures
            r == (match self.lacks(fan_in, fan_out) {
                Some(missing) => Err::<(), MissingFan>(missing),
                None => Ok(()),
            }),
    {
        match self {
            Initializer::KaimingUniform { fan_out_only, .. }
            | Initializer::KaimingNormal { fan_out_only, .. } => {
                let fan = if *fan_out_only {
                    Fan::Out
                } else {
                    Fan::In
                };
                if fan.pick(fan_in, fan_out).is_none() {
                    Err(MissingFan { scheme: Scheme::Kaiming, fan })
                } else {
                    Ok(())
                }
            },
            Initializer::XavierUniform { .. } | Initializer::XavierNormal { .. } => {
                if fan_in.is_none() {
                    Err(MissingFan { scheme: Scheme::Xavier, fan: Fan::In })
                } else if fan_out.is_none() {
                    Err(MissingFan { scheme: Scheme::Xavier, fan: Fan::Out })
                } else {
                    Ok(())
                }
            },
            _ => Ok(()),
        }
    }

    /// The request for a tensor of the given shape, filled as the scheme
    /// prescribes without any fan.
    pub fn init<const D: usize>(&self, shape: [usize; D]) -> (r: Request<Quantity<S>, D>)
        requires
            self.lacks(None, None) is None,
        ensures
            r.shape == shape,
            r.filling == self.filling(None, None),
    {
        self.init_with(shape, None, None)
    }

    /// The request for a tensor of the given shape, filled as the scheme
    /// prescribes for a layer with the given fans.
    pub fn init_with<const D: usize>(
        &self,
        shape: [usize; D],
        fan_in: Option<usize>,
        fan_out: Option<usize>,
    ) -> (r: Request<Quantity<S>, D>)
        requires
            self.lacks(fan_in, fan_out) is None,
        ensures
            r.shape == shape,
            r.filling == self.filling(fan_in, fan_out),
    {
        match self {
            Initializer::Constant { value } => Request {
                shape,
                filling: Filling::Full(Quantity::Given(*value)),
            },
            Initializer::Ones => Request { shape, filling: Filling::Ones },
            Initializer::Zeros => Request { shape, filling: Filling::Zeros },
            Initializer::Uniform { min, max } => uniform_draw(
                shape,
                Quantity::Given(*min),
                Quantity::Given(*max),
            ),
            Initializer::Normal { mean, std } => normal_draw(
                shape,
                Quantity::Given(*mean),
                Quantity::Given(*std),
            ),
            Initializer::KaimingUniform { gain, fan_out_only } => {
                let a = Quantity::Count(3).root().times(Quantity::Given(*gain)).times(
                    self.kaiming_std(*fan_out_only, fan_in, fan_out),
                );
                uniform_draw(shape, a.clone().negated(), a)
            },
            Initializer::KaimingNormal { gain, fan_out_only } => {
                let std = Quantity::Given(*gain).times(
                    self.kaiming_std(*fan_out_only, fan_in, fan_out),
                );
                normal_draw(shape, Quantity::Count(0), std)
            },
            Initializer::XavierUniform { gain } => {
                let a = Quantity::Count(3).root().times(Quantity::Given(*gain)).times(
                    self.xavier_std(fan_in, fan_out),
                );
                uniform_draw(shape, a.clone().negated(), a)
            },
            Initializer::XavierNormal { gain } => {
                let std = Quantity::Given(*gain).times(self.xavier_std(fan_in, fan_out));
                normal_draw(shape, Quantity::Count(0), std)
            },
        }
    }

    /// As [`Initializer::init_with`] where no fan is missing, and else the
    /// report of the missing fan.
    pub fn try_init_with<const D: usize>(
        &self,
        shape: [usize; D],
        fan_in: Option<usize>,
        fan_out: Option<usize>,
    ) -> (r: Result<Request<Quantity<S>, D>, MissingFan>)
        ensures
            match self.lacks(fan_in, fan_out) {
                Some(missing) => r == Err::<Request<Quantity<S>, D>, MissingFan>(missing),
                None => r is Ok && r->Ok_0.shape == shape && r->Ok_0.filling == self.filling(
                    fan_in,
                    fan_out,
                ),
            },
    {
        match self.check_fans(fan_in, fan_out) {
            Ok(()) => Ok(self.init_with(shape, fan_in, fan_out)),
            Err(missing) => Err(missing),
        }
    }

    /// The standard deviation that Kaiming initialization starts from:
    /// `1 / sqrt(fan)`, of fan out where `fan_out_only`, else of fan in.
    pub fn kaiming_std(
        &self,
        fan_out_only: bool,
        fan_in: Option<usize>,
        fan_out: Option<usize>,
    ) -> (r: Quantity<S>)
        requires
            selected_fan(fan_out_only).of(fan_in, fan_out) is Some,
        ensures
            r == kaiming_std_of::<S>(selected_fan(fan_out_only).of(fan_in, fan_out).unwrap()),
    {
        let fan = if fan_out_only {
            fan_out
        } else {
            fan_in
        };
        let fan = fan.unwrap();
        Quantity::Count(1).over(Quantity::Count(fan as u128).root())
    }

    /// The standard deviation that Xavier Glorot initialization starts from:
    /// `sqrt(2 / (fan_in + fan_out))`.
    pub fn xavier_std(&self, fan_in: Option<usize>, fan_out: Option<usize>) -> (r: Quantity<S>)
        requires
            fan_in is Some,
            fan_out is Some,
        ensures
            r == xavier_std_of::<S>(fan_in.unwrap(), fan_out.unwrap()),
    {
        let fan_in = fan_in.unwrap();
        let fan_out = fan_out.unwrap();
        Quantity::Root(Box::new(Quantity::Count(2).over(
            Quantity::Count(fan_in as u128 + fan_out as u128),
        )))
    }
}

/// Asks for draws from the uniform distribution between `low` and `high`.
pub fn uniform_draw<S: Copy, const D: usize>(
    shape: [usize; D],
    low: Quantity<S>,
    high: Quantity<S>,
) -> (r: Request<Quantity<S>, D>)
    ensures
        r == (Request { shape, filling: Filling::Random(Distribution::Uniform { low, high }) }),
{
    let distribution = Distribution::Uniform { low, high };
    Request { shape, filling: Filling::Random(distribution) }
}

/// Asks for draws from the normal distribution with the given mean and
/// standard deviation.
pub fn normal_draw<S: Copy, const D: usize>(
    shape: [usize; D],
    mean: Quantity<S>,
    std: Quantity<S>,
) -> (r: Request<Quantity<S>, D>)
    ensures
        r == (Request { shape, filling: Filling::Random(Distribution::Normal { mean, std }) }),
{
    let distribution = Distribution::Normal { mean, std };
    Request { shape, filling: Filling::Random(distribution) }
}

} // verus!
