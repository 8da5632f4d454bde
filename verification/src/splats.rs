//! Bookkeeping of a Gaussian-splat model that needs no tensor.

use vstd::prelude::*;

verus! {

/// The spherical-harmonic degree in use and the highest degree training
/// raises it to. Both are kept as they were given.
#[derive(Clone, Copy, Debug, PartialEq, Eq)]
pub struct ShDegree {
    active: u32,
    max: u32,
}

impl ShDegree {
    /// The degree in use.
    pub closed spec fn active_degree(self) -> u32 {
        self.active
    }

    /// The highest degree training raises the degree in use to.
    pub closed spec fn max_degree(self) -> u32 {
        self.max
    }

    /// Starts at `active` with `max` as the highest degree.
    pub fn new(max: u32, active: u32) -> (degree: ShDegree)
        ensures
            degree.active_degree() == active,
            degree.max_degree() == max,
    {
        ShDegree { active, max }
    }

    /// The degree in use.
    pub fn active(&self) -> (active: u32)
        ensures
            active == self.active_degree(),
    {
        self.active
    }

    /// The highest degree training raises the degree in use to.
    pub fn max(&self) -> (max: u32)
        ensures
            max == self.max_degree(),
    {
        self.max
    }

    /// Raises the degree in use by one while it lies below the highest
    /// degree, and leaves it as it is otherwise.
    pub fn oneup_sh_degree(&mut self)
        ensures
            final(self).max_degree() == old(self).max_degree(),
            final(self).active_degree() == if old(self).active_degree() < old(self).max_degree() {
                (old(self).active_degree() + 1) as u32
            } else {
                old(self).active_degree()
            },
    {
        if self.active < self.max {
            self.active = self.active + 1;
        }
    }
}

} // verus!
