//! The discrete part of the filter: its type, its envelope, and whether its
//! coefficients are out of date.

use vstd::prelude::*;
use crate::envelope::{
    after_arrival, clamp_knob, time_of_knob, Envelope, EnvelopeModel, EnvelopeState, EnvelopeTime,
    Level, Motion,
};

verus! {

/// Which band the filter lets pass.
#[derive(Clone, Copy, Debug, PartialEq, Eq, Structural)]
pub enum FilterType {
    LowPass,
    HighPass,
}

/// The filter type that a number selects: one is the high pass, every other
/// number the low pass.
pub open spec fn filter_type_of(ty: usize) -> FilterType {
    if ty == 1 {
        FilterType::HighPass
    } else {
        FilterType::LowPass
    }
}

impl FilterType {
    /// Reads the number of a filter type.
    pub fn from_index(ty: usize) -> (filter_type: FilterType)
        ensures
            filter_type == filter_type_of(ty),
    {
        if ty == 1 {
            FilterType::HighPass
        } else {
            FilterType::LowPass
        }
    }
}

/// Mathematical content of a filter's control state.
pub struct FilterModel {
    pub ty: FilterType,
    pub envelope: EnvelopeModel,
    pub coeffs_dirty: bool,
}

/// Control state of one channel of the filter.
#[derive(Clone, Copy, Debug)]
pub struct Filter {
    ty: FilterType,
    envelope: Envelope,
    coeffs_dirty: bool,
}

impl View for Filter {
    type V = FilterModel;

    closed spec fn view(&self) -> FilterModel {
        FilterModel { ty: self.ty, envelope: self.envelope@, coeffs_dirty: self.coeffs_dirty }
    }
}

/// The first state of a filter: a low pass with an idle envelope and
/// coefficients that are up to date.
pub open spec fn fresh_filter() -> FilterModel {
    FilterModel {
        ty: FilterType::LowPass,
        envelope: Envelope::default_amp_model(),
        coeffs_dirty: false,
    }
}

impl FilterModel {
    /// The settings of the envelope are valid.
    pub open spec fn wf(self) -> bool {
        self.envelope.wf()
    }

    /// The filter after a note has triggered its envelope.
    pub open spec fn triggered(self) -> FilterModel {
        FilterModel {
            envelope: self.envelope.with_state(self.envelope.triggered_state()),
            coeffs_dirty: true,
            ..self
        }
    }

    /// The filter after the last note has ended.
    pub open spec fn released(self) -> FilterModel {
        FilterModel { envelope: self.envelope.with_state(EnvelopeState::Release), ..self }
    }

    /// The filter after the level of its envelope has arrived at the target
    /// of its segment.
    pub open spec fn arrived(self) -> FilterModel {
        FilterModel {
            envelope: self.envelope.with_state(after_arrival(self.envelope.state)),
            ..self
        }
    }

    /// The filter after a setting that its coefficients depend on has
    /// changed.
    pub open spec fn marked_dirty(self) -> FilterModel {
        FilterModel { coeffs_dirty: true, ..self }
    }

    /// Whether the coefficients have to be computed anew: they have if a
    /// setting has changed or if the level of the envelope has moved.
    pub open spec fn needs_refresh(self, level_moved: bool) -> bool {
        self.coeffs_dirty || level_moved
    }

    /// The filter once the need to compute has been looked at: the
    /// coefficients count as up to date.
    pub open spec fn refreshed(self) -> FilterModel {
        FilterModel { coeffs_dirty: false, ..self }
    }

    /// The filter with other settings of its envelope. The state of the
    /// envelope stays.
    pub open spec fn with_envelope_settings(
        self,
        attack: EnvelopeTime,
        decay: EnvelopeTime,
        sustain: u8,
        release: EnvelopeTime,
    ) -> FilterModel {
        FilterModel {
            envelope: EnvelopeModel { attack, decay, sustain, release, state: self.envelope.state },
            ..self
        }
    }

    /// The filter with another type; its coefficients are out of date.
    pub open spec fn with_type(self, ty: FilterType) -> FilterModel {
        FilterModel { ty, coeffs_dirty: true, ..self }
    }
}

impl Filter {
    /// Validity of the settings.
    pub open spec fn wf(&self) -> bool {
        self@.wf()
    }

    /// A filter in its first state.
    pub fn new() -> (filter: Filter)
        ensures
            filter.wf(),
            filter@ == fresh_filter(),
    {
        Filter {
            ty: FilterType::LowPass,
            envelope: Envelope::from_digitone(1, 13, 127, 25),
            coeffs_dirty: false,
        }
    }

    /// The filter type.
    pub fn filter_type(&self) -> (ty: FilterType)
        ensures
            ty == self@.ty,
    {
        self.ty
    }

    /// The envelope.
    pub fn envelope(&self) -> (envelope: &Envelope)
        ensures
            envelope@ == self@.envelope,
    {
        &self.envelope
    }

    /// Whether a setting has changed since the coefficients were computed.
    pub fn is_dirty(&self) -> (dirty: bool)
        ensures
            dirty == self@.coeffs_dirty,
    {
        self.coeffs_dirty
    }

    /// Sets the filter type. The coefficients are out of date then.
    pub fn set_type(&mut self, t: FilterType)
        ensures
            old(self).wf() ==> final(self).wf(),
            final(self)@ == old(self)@.with_type(t),
    {
        self.ty = t;
        self.coeffs_dirty = true;
    }

    /// Sets the attack time of the envelope from a knob.
    pub fn set_attack(&mut self, knob: u8)
        ensures
            old(self).wf() ==> final(self).wf(),
            final(self)@ == old(self)@.with_envelope_settings(
                time_of_knob(knob as nat),
                old(self)@.envelope.decay,
                old(self)@.envelope.sustain,
                old(self)@.envelope.release,
            ),
    {
        self.envelope.set_attack(knob);
    }

    /// Sets the decay time of the envelope from a knob.
    pub fn set_decay(&mut self, knob: u8)
        ensures
            old(self).wf() ==> final(self).wf(),
            final(self)@ == old(self)@.with_envelope_settings(
                old(self)@.envelope.attack,
                time_of_knob(knob as nat),
                old(self)@.envelope.sustain,
                old(self)@.envelope.release,
            ),
    {
        self.envelope.set_decay(knob);
    }

    /// Sets the sustain level of the envelope from a knob.
    pub fn set_sustain(&mut self, knob: u8)
        ensures
            old(self).wf() ==> final(self).wf(),
            final(self)@ == old(self)@.with_envelope_settings(
                old(self)@.envelope.attack,
                old(self)@.envelope.decay,
                clamp_knob(knob as nat),
                old(self)@.envelope.release,
            ),
    {
        self.envelope.set_sustain(knob);
    }

    /// Sets the release time of the envelope from a knob.
    pub fn set_release(&mut self, knob: u8)
        ensures
            old(self).wf() ==> final(self).wf(),
            final(self)@ == old(self)@.with_envelope_settings(
                old(self)@.envelope.attack,
                old(self)@.envelope.decay,
                old(self)@.envelope.sustain,
                time_of_knob(knob as nat),
            ),
    {
        self.envelope.set_release(knob);
    }

    /// A setting that the coefficients depend on has changed.
    pub fn mark_dirty(&mut self)
        ensures
            old(self).wf() ==> final(self).wf(),
            final(self)@ == old(self)@.marked_dirty(),
    {
        self.coeffs_dirty = true;
    }

    /// A note starts: the envelope is triggered and the coefficients are out
    /// of date. The result is the level from which the envelope starts.
    pub fn note_on(&mut self) -> (level: Level)
        ensures
            old(self).wf() ==> final(self).wf(),
            final(self)@ == old(self)@.triggered(),
            level == old(self)@.envelope.triggered_level(),
    {
        self.coeffs_dirty = true;
        self.envelope.note_on()
    }

    /// The last note has ended: the envelope releases.
    pub fn note_off(&mut self)
        ensures
            old(self).wf() ==> final(self).wf(),
            final(self)@ == old(self)@.released(),
    {
        self.envelope.note_off();
    }

    /// What the level of the envelope does during the next tick.
    pub fn motion(&self) -> (motion: Motion)
        ensures
            motion == self@.envelope.motion(),
    {
        self.envelope.motion()
    }

    /// The level of the envelope has arrived at the target of its segment.
    pub fn arrive(&mut self)
        ensures
            old(self).wf() ==> final(self).wf(),
            final(self)@ == old(self)@.arrived(),
    {
        self.envelope.arrive();
    }

    /// Decides, once per sample, whether the coefficients have to be
    /// computed anew: they have if a setting has changed or if the level of
    /// the envelope has moved. They count as up to date afterwards.
    pub fn refresh(&mut self, level_moved: bool) -> (recompute: bool)
        ensures
            old(self).wf() ==> final(self).wf(),
            recompute == old(self)@.needs_refresh(level_moved),
            final(self)@ == old(self)@.refreshed(),
    {
        if self.coeffs_dirty || level_moved {
            self.coeffs_dirty = false;
            true
        } else {
            false
        }
    }
}

} // verus!
