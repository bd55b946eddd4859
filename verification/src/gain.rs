use vstd::prelude::*;
use vstd::arithmetic::power::pow;

use crate::bindings::Scale;

verus! {

/// A top speed held as the number of 10% increases (`up`) and 10% decreases
/// (`down`) applied to its starting value. Its value is the starting value
/// times `1.1^up · 0.9^down`, that is times `numer() / denom()`.
#[derive(Clone, Copy, Debug, PartialEq, Eq, Structural)]
pub struct Gain {
    pub up: u64,
    pub down: u64,
}

impl Gain {
    /// The gain after one step of `s`.
    pub open spec fn scaled(self, s: Scale) -> Gain {
        match s {
            Scale::Up => Gain { up: (self.up + 1) as u64, down: self.down },
            Scale::Down => Gain { up: self.up, down: (self.down + 1) as u64 },
            Scale::Keep => self,
        }
    }

    /// The counters can record one more step of `s`.
    pub open spec fn can_take(self, s: Scale) -> bool {
        match s {
            Scale::Up => self.up < u64::MAX,
            Scale::Down => self.down < u64::MAX,
            Scale::Keep => true,
        }
    }

    /// Numerator of the factor `1.1^up · 0.9^down = 11^up · 9^down / 10^(up + down)`.
    pub open spec fn numer(self) -> int {
        pow(11, self.up as nat) * pow(9, self.down as nat)
    }

    /// Denominator of the factor `1.1^up · 0.9^down`.
    pub open spec fn denom(self) -> int {
        pow(10, (self.up + self.down) as nat)
    }

    /// The gain of a top speed that has not been changed: factor 1.
    pub fn initial() -> (g: Gain)
        ensures
            g.up == 0,
            g.down == 0,
    {
        Gain { up: 0, down: 0 }
    }

    /// Whether the counters can record one more step of `s`.
    pub fn has_room(&self, s: Scale) -> (r: bool)
        ensures
            r == self.can_take(s),
            s == Scale::Up ==> (r <==> self.up < u64::MAX),
            s == Scale::Down ==> (r <==> self.down < u64::MAX),
            s == Scale::Keep ==> r,
    {
        match s {
            Scale::Up => self.up < u64::MAX,
            Scale::Down => self.down < u64::MAX,
            Scale::Keep => true,
        }
    }

    /// Applies one step of `s`: records a 10% increase, a 10% decrease, or
    /// nothing.
    pub fn scale(&self, s: Scale) -> (g: Gain)
        requires
            self.can_take(s),
        ensures
            g == self.scaled(s),
    {
        match s {
            Scale::Up => Gain { up: self.up + 1, down: self.down },
            Scale::Down => Gain { up: self.up, down: self.down + 1 },
            Scale::Keep => *self,
        }
    }
}

/// An unchanged gain has the factor 1.
pub proof fn lemma_initial_factor(g: Gain)
    requires
        g.up == 0,
        g.down == 0,
    ensures
        g.numer() == 1,
        g.denom() == 1,
{
    reveal(pow);
}

/// A step up multiplies the factor by 1.1 = 11/10, a step down by
/// 0.9 = 9/10, and a kept gain keeps its factor.
pub proof fn lemma_scale_factor(g: Gain, s: Scale)
    requires
        g.can_take(s),
    ensures
        s == Scale::Up ==> g.scaled(s).numer() == 11 * g.numer() && g.scaled(s).denom() == 10
            * g.denom(),
        s == Scale::Down ==> g.scaled(s).numer() == 9 * g.numer() && g.scaled(s).denom() == 10
            * g.denom(),
        s == Scale::Keep ==> g.scaled(s) == g,
{
    reveal(pow);
    let a = pow(11, g.up as nat);
    let b = pow(9, g.down as nat);
    match s {
        Scale::Up => {
            assert(pow(11, (g.up + 1) as nat) == 11 * a);
            assert(pow(10, (g.up + 1 + g.down) as nat) == 10 * pow(10, (g.up + g.down) as nat));
            assert((11 * a) * b == 11 * (a * b)) by (nonlinear_arith);
        },
        Scale::Down => {
            assert(pow(9, (g.down + 1) as nat) == 9 * b);
            assert(pow(10, (g.up + g.down + 1) as nat) == 10 * pow(10, (g.up + g.down) as nat));
            assert(a * (9 * b) == 9 * (a * b)) by (nonlinear_arith);
        },
        Scale::Keep => {},
    }
}

} // verus!
