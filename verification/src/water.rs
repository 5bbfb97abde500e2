//! The water carrier: an immutable-per-instant value with a mass and a
//! temperature, and the exact mixing and splitting arithmetic that every
//! thermal entity shares.

use vstd::prelude::*;

use crate::units::{MASS_CAP, TEMP_MAX};

verus! {

/// An amount of water at one instant: a well-mixed bulk at a single
/// temperature.  Pure value semantics; no identity beyond the two fields.
#[derive(Clone, Copy, PartialEq, Eq, Structural, Debug)]
pub struct Water {
    /// Current temperature, scaled kelvin.
    pub temp: u64,
    /// Mass of this unit of water, scaled kilograms.
    pub mass: u64,
}

impl Water {
    /// A water value is well formed when both fields are under the range
    /// caps; the type already keeps the mass nonnegative.
    pub open spec fn wf(self) -> bool {
        &&& self.mass <= MASS_CAP
        &&& self.temp <= TEMP_MAX
    }

    /// Mass-weighted average temperature of two water bodies, rounded down.
    pub open spec fn mixed_temp(a: Water, b: Water) -> int {
        (a.mass * a.temp + b.mass * b.temp) / (a.mass + b.mass)
    }

    /// The single body obtained by pouring `b` into `a`: masses add, the
    /// temperature is their mass-weighted average.
    pub open spec fn mixed(a: Water, b: Water) -> Water {
        Water { mass: (a.mass + b.mass) as u64, temp: Water::mixed_temp(a, b) as u64 }
    }

    /// How much mass a request for `mass` actually removes: the request,
    /// saturating at what is there.
    pub open spec fn take_amount(self, mass: u64) -> u64 {
        if mass > self.mass {
            self.mass
        } else {
            mass
        }
    }

    /// What remains after a request for `mass` is served: the saturated
    /// amount leaves, the temperature of the remainder is unchanged.
    pub open spec fn drained(self, mass: u64) -> Water {
        Water { mass: (self.mass - self.take_amount(mass)) as u64, temp: self.temp }
    }

    /// What a request for `mass` carries away: the saturated amount, at the
    /// pre-removal temperature.
    pub open spec fn taken(self, mass: u64) -> Water {
        Water { mass: self.take_amount(mass), temp: self.temp }
    }
}

/// Pours `b` into `a` and returns the mixture.  The new mass is the sum;
/// the new temperature is the mass-weighted average of the two, rounded
/// down, and stays between the two input temperatures.
pub fn mix_water(a: Water, b: Water) -> (r: Water)
    requires
        a.wf(),
        b.wf(),
        a.mass + b.mass >= 1,
        a.mass + b.mass <= MASS_CAP,
    ensures
        r == Water::mixed(a, b),
        r.mass == a.mass + b.mass,
        r.temp == Water::mixed_temp(a, b),
        r.temp <= a.temp || r.temp <= b.temp,
        r.temp >= a.temp || r.temp >= b.temp,
        r.wf(),
{
    proof {
        lemma_mixed_temp_between(a, b);
        assert(a.mass * a.temp <= MASS_CAP * TEMP_MAX && b.mass * b.temp <= MASS_CAP * TEMP_MAX)
            by (nonlinear_arith)
            requires
                a.mass <= MASS_CAP,
                a.temp <= TEMP_MAX,
                b.mass <= MASS_CAP,
                b.temp <= TEMP_MAX,
        ;
    }
    let msum: u64 = a.mass + b.mass;
    let num: u128 = (a.mass as u128) * (a.temp as u128) + (b.mass as u128) * (b.temp as u128);
    let t: u64 = (num / (msum as u128)) as u64;
    Water { temp: t, mass: msum }
}

/// The mass-weighted average temperature lies between the two input
/// temperatures.
proof fn lemma_mixed_temp_between(a: Water, b: Water)
    requires
        a.mass + b.mass >= 1,
    ensures
        Water::mixed_temp(a, b) <= a.temp || Water::mixed_temp(a, b) <= b.temp,
        Water::mixed_temp(a, b) >= a.temp || Water::mixed_temp(a, b) >= b.temp,
{
    let hi: int = if a.temp >= b.temp {
        a.temp as int
    } else {
        b.temp as int
    };
    let lo: int = if a.temp >= b.temp {
        b.temp as int
    } else {
        a.temp as int
    };
    let num: int = a.mass * a.temp + b.mass * b.temp;
    let msum: int = a.mass + b.mass;
    assert(num <= msum * hi && num >= msum * lo) by (nonlinear_arith)
        requires
            lo <= a.temp <= hi,
            lo <= b.temp <= hi,
            a.mass >= 0,
            b.mass >= 0,
            num == a.mass * a.temp + b.mass * b.temp,
            msum == a.mass + b.mass,
    ;
    vstd::arithmetic::div_mod::lemma_div_is_ordered(num, msum * hi, msum);
    vstd::arithmetic::div_mod::lemma_div_is_ordered(msum * lo, num, msum);
    vstd::arithmetic::div_mod::lemma_div_multiples_vanish(hi, msum);
    vstd::arithmetic::div_mod::lemma_div_multiples_vanish(lo, msum);
    assert(msum * hi == hi * msum) by (nonlinear_arith);
    assert(msum * lo == lo * msum) by (nonlinear_arith);
}

/// Mixing two well-formed bodies whose combined mass is in range gives a
/// well-formed body: the masses add exactly and the temperature lies
/// between the two input temperatures.
pub proof fn lemma_mixed_wf(a: Water, b: Water)
    requires
        a.wf(),
        b.wf(),
        1 <= a.mass + b.mass <= MASS_CAP,
    ensures
        Water::mixed(a, b).wf(),
        Water::mixed(a, b).mass == a.mass + b.mass,
        Water::mixed(a, b).temp == Water::mixed_temp(a, b),
{
    lemma_mixed_temp_between(a, b);
}

/// Mass conservation of one transfer: taking a quantum out of one body and
/// mixing exactly that quantum into another preserves the total mass, also
/// when the request saturates and less than asked for moves.
pub proof fn lemma_take_then_add_conserves_mass(src: Water, dst: Water, mass: u64)
    requires
        dst.mass + src.take_amount(mass) <= u64::MAX,
    ensures
        src.drained(mass).mass + Water::mixed(dst, src.taken(mass)).mass == src.mass + dst.mass,
{
}

} // verus!
