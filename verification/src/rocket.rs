//! The stage-tagged rocket.
//!
//! The phases form a two-state machine: `Grounded` is initial, `Launched` is
//! terminal, and `launch` is the only transition. Each phase is a marker type
//! of its own, and every operation is defined on exactly the phases in which
//! it is legal.

use std::marker::PhantomData;
use vstd::prelude::*;

verus! {

/// Marker of a rocket that still stands on the pad.
pub struct Grounded;

/// Marker of a rocket that has left the pad.
pub struct Launched;

/// The phase of a rocket as contracts see it.
pub enum Phase {
    Grounded,
    Launched,
}

/// A rocket in the phase `Stage`. It holds no data: the phase lives in the
/// type alone.
pub struct Rocket<Stage> {
    stage: PhantomData<Stage>,
}

impl View for Rocket<Grounded> {
    type V = Phase;

    open spec fn view(&self) -> Phase {
        Phase::Grounded
    }
}

impl View for Rocket<Launched> {
    type V = Phase;

    open spec fn view(&self) -> Phase {
        Phase::Launched
    }
}

impl<Stage> Rocket<Stage> {
    /// The weight of a rocket: one thousand, in every phase.
    pub open spec fn spec_weight(&self) -> int {
        1000
    }

    /// The colour of a rocket: the empty text, in every phase.
    pub open spec fn spec_colour(&self) -> Seq<char> {
        Seq::empty()
    }

    /// The colour, which is the empty string whatever the phase.
    pub fn colour(&self) -> (c: String)
        ensures
            c@ == self.spec_colour(),
            c@ == Seq::<char>::empty(),
    {
        String::new()
    }

    /// The weight, which is 1000 whatever the phase.
    pub fn weight(&self) -> (w: i32)
        ensures
            w == self.spec_weight(),
            w == 1000,
    {
        1000
    }
}

impl Default for Rocket<Grounded> {
    /// A fresh rocket, on the ground.
    fn default() -> (r: Self)
        ensures
            r@ == Phase::Grounded,
            r.spec_weight() == 1000,
            r.spec_colour() == Seq::<char>::empty(),
    {
        Rocket { stage: PhantomData }
    }
}

impl Rocket<Grounded> {
    /// Launches the rocket. The grounded value is used up, so no rocket is
    /// launched twice; weight and colour stay as they were.
    pub fn launch(self) -> (r: Rocket<Launched>)
        ensures
            r@ == Phase::Launched,
            r.spec_weight() == self.spec_weight(),
            r.spec_colour() == self.spec_colour(),
    {
        Rocket { stage: PhantomData }
    }
}

impl Rocket<Launched> {
    /// Speeds the rocket up. Nothing that can be observed changes.
    pub fn accelerate(&mut self)
        ensures
            *final(self) == *old(self),
            final(self)@ == Phase::Launched,
            final(self).spec_weight() == old(self).spec_weight(),
            final(self).spec_colour() == old(self).spec_colour(),
    {
    }

    /// Slows the rocket down. Nothing that can be observed changes.
    pub fn decelerate(&mut self)
        ensures
            *final(self) == *old(self),
            final(self)@ == Phase::Launched,
            final(self).spec_weight() == old(self).spec_weight(),
            final(self).spec_colour() == old(self).spec_colour(),
    {
    }
}

/// Weight and colour do not depend on the phase: two rockets, each in
/// whatever phase, agree on both, and the values are 1000 and the empty text.
pub proof fn lemma_queries_ignore_phase<A, B>(a: Rocket<A>, b: Rocket<B>)
    ensures
        a.spec_weight() == b.spec_weight(),
        a.spec_colour() == b.spec_colour(),
        a.spec_weight() == 1000,
        a.spec_colour() == Seq::<char>::empty(),
{
}

} // verus!
