//! The fans of a layer, and the report of a fan that a scheme lacks.
use vstd::prelude::*;

verus! {

/// One of the two fans of a layer.
#[derive(Debug, Clone, Copy, PartialEq, Eq)]
pub enum Fan {
    /// The number of incoming connections.
    In,
    /// The number of outgoing connections.
    Out,
}

/// A family of schemes that scale their spread by the fans.
#[derive(Debug, Clone, Copy, PartialEq, Eq)]
pub enum Scheme {
    /// Scales by one fan, `1 / fan`.
    Kaiming,
    /// Scales by both fans, `2 / (fan_in + fan_out)`.
    Xavier,
}

/// A scheme was asked to initialize without a fan that its formula needs.
#[derive(Debug, Clone, Copy, PartialEq, Eq)]
pub struct MissingFan {
    /// The scheme that was used.
    pub scheme: Scheme,
    /// The fan that it needed and did not get.
    pub fan: Fan,
}

impl Fan {
    /// The fan that `self` names, out of the two a caller may supply.
    pub open spec fn of(self, fan_in: Option<usize>, fan_out: Option<usize>) -> Option<usize> {
        match self {
            Fan::In => fan_in,
            Fan::Out => fan_out,
        }
    }

    /// Picks the fan that `self` names.
    pub fn pick(self, fan_in: Option<usize>, fan_out: Option<usize>) -> (r: Option<usize>)
        ensures
            r == self.of(fan_in, fan_out),
    {
        match self {
            Fan::In => fan_in,
            Fan::Out => fan_out,
        }
    }
}

impl MissingFan {
    /// The text of the report: which scheme lacks which fan, and how to supply
    /// it.
    pub open spec fn text(self) -> Seq<char> {
        match (self.scheme, self.fan) {
            (Scheme::Kaiming, Fan::In) =>
                "Can't use Kaiming initialization without specifying fan in. Use init_with method and provide fan_in."@,
            (Scheme::Kaiming, Fan::Out) =>
                "Can't use Kaiming initialization without specifying fan out. Use init_with method and provide fan_out."@,
            (Scheme::Xavier, Fan::In) =>
                "Can't use Xavier initialization without specifying fan in. Use init_with method and provide fan_in."@,
            (Scheme::Xavier, Fan::Out) =>
                "Can't use Xavier initialization without specifying fan out. Use init_with method and provide fan_out."@,
        }
    }

    /// The report as a string.
    pub fn message(&self) -> (r: String)
        ensures
            r@ == self.text(),
    {
        match (self.scheme, self.fan) {
            (Scheme::Kaiming, Fan::In) =>
                "Can't use Kaiming initialization without specifying fan in. Use init_with method and provide fan_in.".to_owned(),
            (Scheme::Kaiming, Fan::Out) =>
                "Can't use Kaiming initialization without specifying fan out. Use init_with method and provide fan_out.".to_owned(),
            (Scheme::Xavier, Fan::In) =>
                "Can't use Xavier initialization without specifying fan in. Use init_with method and provide fan_in.".to_owned(),
            (Scheme::Xavier, Fan::Out) =>
                "Can't use Xavier initialization without specifying fan out. Use init_with method and provide fan_out.".to_owned(),
        }
    }
}

} // verus!
