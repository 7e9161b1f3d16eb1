//! The resource ledger: a three-axis quantity with saturating arithmetic.
use vstd::prelude::*;

verus! {

/// One deposit of a single resource.
#[derive(Clone, Copy, Debug, PartialEq, Eq, Structural)]
pub enum ResourceType {
    Minerals(u32),
    Gas(u32),
    Energy(u32),
}

/// Minerals, gas and energy held, asked for or produced.
#[derive(Clone, Copy, Debug, PartialEq, Eq, Structural)]
pub struct Resources {
    pub minerals: u32,
    pub gas: u32,
    pub energy: u32,
}

/// `a + b`, clamped at the largest `u32`.
pub open spec fn sat_add(a: u32, b: u32) -> u32 {
    if a + b > u32::MAX {
        u32::MAX
    } else {
        (a + b) as u32
    }
}

/// `a - b`, clamped at zero.
pub open spec fn sat_sub(a: u32, b: u32) -> u32 {
    if a >= b {
        (a - b) as u32
    } else {
        0
    }
}

/// The smaller of `a` and `b`.
pub open spec fn min_u32(a: u32, b: u32) -> u32 {
    if a <= b {
        a
    } else {
        b
    }
}

impl Resources {
    /// Whether every axis of `self` covers the same axis of `cost`.
    pub open spec fn covers(self, cost: Resources) -> bool {
        self.minerals >= cost.minerals && self.gas >= cost.gas && self.energy >= cost.energy
    }

    /// Axis-wise saturating sum.
    pub open spec fn plus(self, other: Resources) -> Resources {
        Resources {
            minerals: sat_add(self.minerals, other.minerals),
            gas: sat_add(self.gas, other.gas),
            energy: sat_add(self.energy, other.energy),
        }
    }

    /// Axis-wise saturating difference.
    pub open spec fn minus(self, other: Resources) -> Resources {
        Resources {
            minerals: sat_sub(self.minerals, other.minerals),
            gas: sat_sub(self.gas, other.gas),
            energy: sat_sub(self.energy, other.energy),
        }
    }

    /// Axis-wise minimum.
    pub open spec fn capped(self, cap: Resources) -> Resources {
        Resources {
            minerals: min_u32(self.minerals, cap.minerals),
            gas: min_u32(self.gas, cap.gas),
            energy: min_u32(self.energy, cap.energy),
        }
    }

    /// The ledger with nothing on any axis.
    pub open spec fn nothing() -> Resources {
        Resources { minerals: 0, gas: 0, energy: 0 }
    }

    pub fn new(minerals: u32, gas: u32, energy: u32) -> (r: Self)
        ensures
            r == (Resources { minerals, gas, energy }),
    {
        Resources { minerals, gas, energy }
    }

    pub fn zero() -> (r: Self)
        ensures
            r == Resources::nothing(),
    {
        Resources { minerals: 0, gas: 0, energy: 0 }
    }

    pub fn can_afford(&self, cost: &Resources) -> (b: bool)
        ensures
            b == self.covers(*cost),
    {
        self.minerals >= cost.minerals && self.gas >= cost.gas && self.energy >= cost.energy
    }

    pub fn has_enough(&self, cost: &Resources) -> (b: bool)
        ensures
            b == self.covers(*cost),
    {
        self.can_afford(cost)
    }

    /// Adds `other` axis by axis; an axis that would pass the largest `u32` stays there.
    pub fn add(&self, other: &Resources) -> (r: Self)
        ensures
            r == self.plus(*other),
    {
        Resources {
            minerals: self.minerals.saturating_add(other.minerals),
            gas: self.gas.saturating_add(other.gas),
            energy: self.energy.saturating_add(other.energy),
        }
    }

    /// Takes `cost` away axis by axis; an axis that would pass zero stays
    /// there. It never fails: whether `self` covers `cost` is what
    /// `can_afford` says.
    pub fn subtract(&self, cost: &Resources) -> (r: Option<Self>)
        ensures
            r == Some(self.minus(*cost)),
    {
        Some(
            Resources {
                minerals: self.minerals.saturating_sub(cost.minerals),
                gas: self.gas.saturating_sub(cost.gas),
                energy: self.energy.saturating_sub(cost.energy),
            },
        )
    }

    /// Takes `other` away axis by axis; an axis that would pass zero stays there.
    pub fn sub(&self, other: &Resources) -> (r: Self)
        ensures
            r == self.minus(*other),
    {
        Resources {
            minerals: self.minerals.saturating_sub(other.minerals),
            gas: self.gas.saturating_sub(other.gas),
            energy: self.energy.saturating_sub(other.energy),
        }
    }

    /// In-place form of [`Resources::add`].
    pub fn add_assign(&mut self, other: &Resources)
        ensures
            *final(self) == old(self).plus(*other),
    {
        let sum = self.add(other);
        *self = sum;
    }

    /// In-place form of [`Resources::sub`].
    pub fn sub_assign(&mut self, other: &Resources)
        ensures
            *final(self) == old(self).minus(*other),
    {
        let rest = self.sub(other);
        *self = rest;
    }

    /// Each axis brought down to the same axis of `cap` where it is above it.
    pub fn capped_at(&self, cap: &Resources) -> (r: Self)
        ensures
            r == self.capped(*cap),
    {
        Resources {
            minerals: if self.minerals <= cap.minerals { self.minerals } else { cap.minerals },
            gas: if self.gas <= cap.gas { self.gas } else { cap.gas },
            energy: if self.energy <= cap.energy { self.energy } else { cap.energy },
        }
    }
}

impl Default for Resources {
    fn default() -> (r: Self)
        ensures
            r == Resources::nothing(),
    {
        Resources { minerals: 0, gas: 0, energy: 0 }
    }
}

} // verus!
