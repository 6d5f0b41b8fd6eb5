//! The amplitude source that does nothing.

use vstd::prelude::*;
use crate::envelope::{Level, Motion};

verus! {

/// A source whose level is always full scale.
#[derive(Clone, Copy, Debug, PartialEq, Eq, Structural)]
pub struct NoopEnvelope;

impl NoopEnvelope {
    /// A note starts: nothing changes.
    pub fn note_on(&mut self)
        ensures
            *final(self) == *old(self),
    {
    }

    /// A note ends: nothing changes.
    pub fn note_off(&mut self)
        ensures
            *final(self) == *old(self),
    {
    }

    /// The level keeps its value.
    pub fn motion(&self) -> (motion: Motion)
        ensures
            motion == Motion::Hold,
    {
        Motion::Hold
    }

    /// The level of the source.
    pub fn get_level(&self) -> (level: Level)
        ensures
            level == Level::One,
    {
        Level::One
    }
}

} // verus!
