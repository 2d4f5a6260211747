//! Exact quantities for describing scenes: a rational number, and a triple of
//! them that serves as a point, a direction or a linear RGB color.
use vstd::prelude::*;

verus! {

/// The rational number `num / den`.
#[derive(Clone, Copy, Debug, PartialEq, Eq, Structural)]
pub struct Ratio {
    pub num: i64,
    pub den: i64,
}

/// Three rational coordinates (or red, green and blue).
#[derive(Clone, Copy, Debug, PartialEq, Eq, Structural)]
pub struct Triple {
    pub x: Ratio,
    pub y: Ratio,
    pub z: Ratio,
}

/// `num / den` in specifications.
pub open spec fn frac(num: int, den: int) -> Ratio {
    Ratio { num: num as i64, den: den as i64 }
}

/// The triple of whole numbers `(x, y, z)` in specifications.
pub open spec fn whole3(x: int, y: int, z: int) -> Triple {
    Triple { x: frac(x, 1), y: frac(y, 1), z: frac(z, 1) }
}

impl Ratio {
    /// A well-formed ratio has a positive denominator.
    pub open spec fn wf(self) -> bool {
        self.den > 0
    }

    /// `num / den`.
    pub fn new(num: i64, den: i64) -> (r: Ratio)
        requires
            den > 0,
        ensures
            r == (Ratio { num, den }),
            r.wf(),
    {
        Ratio { num, den }
    }

    /// The whole number `n`.
    pub fn whole(n: i64) -> (r: Ratio)
        ensures
            r == frac(n as int, 1),
            r.wf(),
    {
        Ratio { num: n, den: 1 }
    }

    /// Whether the number is greater than zero.
    pub fn is_positive(&self) -> (b: bool)
        requires
            self.wf(),
        ensures
            b == (self.num > 0),
    {
        self.num > 0
    }
}

impl Triple {
    /// All three components are well formed.
    pub open spec fn wf(self) -> bool {
        self.x.wf() && self.y.wf() && self.z.wf()
    }

    /// `(x, y, z)`.
    pub fn new(x: Ratio, y: Ratio, z: Ratio) -> (t: Triple)
        ensures
            t == (Triple { x, y, z }),
    {
        Triple { x, y, z }
    }

    /// `(x, y, z)` for whole numbers.
    pub fn whole(x: i64, y: i64, z: i64) -> (t: Triple)
        ensures
            t == whole3(x as int, y as int, z as int),
            t.wf(),
    {
        Triple { x: Ratio::whole(x), y: Ratio::whole(y), z: Ratio::whole(z) }
    }
}

} // verus!
