//! The one-shot envelope that shapes the modulation depth of a group.

use vstd::prelude::*;
use crate::envelope::{
    clamp_knob, limit_knob, make_ramp, ramp, time_of_knob, EnvelopeTime, Level, Motion, KNOB_MAX,
};

verus! {

/// State of a modulation envelope.
#[derive(Clone, Copy, Debug, PartialEq, Eq, Structural)]
pub enum ModEnvelopeState {
    Idle,
    Attack,
    Decay,
    /// Holds the end level.
    Sustain,
}

/// The state that follows when the level has arrived at the target of the
/// current segment.
pub open spec fn mod_after_arrival(state: ModEnvelopeState) -> ModEnvelopeState {
    match state {
        ModEnvelopeState::Idle => ModEnvelopeState::Idle,
        ModEnvelopeState::Attack => ModEnvelopeState::Decay,
        ModEnvelopeState::Decay => ModEnvelopeState::Sustain,
        ModEnvelopeState::Sustain => ModEnvelopeState::Sustain,
    }
}

/// Mathematical content of a modulation envelope.
pub struct ModEnvelopeModel {
    pub attack: EnvelopeTime,
    pub decay: EnvelopeTime,
    pub end: u8,
    pub state: ModEnvelopeState,
}

impl ModEnvelopeModel {
    /// The times are valid and the end setting does not exceed the largest
    /// knob setting.
    pub open spec fn wf(self) -> bool {
        &&& self.attack.wf()
        &&& self.decay.wf()
        &&& self.end <= KNOB_MAX
    }

    /// What the level does in the current state.
    pub open spec fn motion(self) -> Motion {
        match self.state {
            ModEnvelopeState::Idle => Motion::Silent,
            ModEnvelopeState::Attack => ramp(true, self.attack, Level::One),
            ModEnvelopeState::Decay => ramp(false, self.decay, Level::Knob(self.end)),
            ModEnvelopeState::Sustain => Motion::Hold,
        }
    }

    /// The envelope with another state and the same settings.
    pub open spec fn with_state(self, state: ModEnvelopeState) -> ModEnvelopeModel {
        ModEnvelopeModel { state, ..self }
    }
}

/// An envelope that rises to full level, falls to its end level and stays
/// there. It has no release: the end of the note silences it at once.
#[derive(Clone, Copy, Debug)]
pub struct ModEnvelope {
    attack: EnvelopeTime,
    decay: EnvelopeTime,
    end: u8,
    state: ModEnvelopeState,
}

impl View for ModEnvelope {
    type V = ModEnvelopeModel;

    closed spec fn view(&self) -> ModEnvelopeModel {
        ModEnvelopeModel {
            attack: self.attack,
            decay: self.decay,
            end: self.end,
            state: self.state,
        }
    }
}

impl ModEnvelope {
    /// Validity of the settings.
    pub open spec fn wf(&self) -> bool {
        self@.wf()
    }

    /// Reads a time knob.
    pub fn map_time(knob: u32) -> (time: EnvelopeTime)
        ensures
            time == time_of_knob(knob as nat),
            time.wf(),
    {
        EnvelopeTime::from_knob(knob)
    }

    /// An idle envelope with the given knob settings.
    pub fn new_from_values(attack_val: u32, decay_val: u32, end_val: u32) -> (envelope: ModEnvelope)
        ensures
            envelope.wf(),
            envelope@ == (ModEnvelopeModel {
                attack: time_of_knob(attack_val as nat),
                decay: time_of_knob(decay_val as nat),
                end: clamp_knob(end_val as nat),
                state: ModEnvelopeState::Idle,
            }),
    {
        ModEnvelope {
            attack: ModEnvelope::map_time(attack_val),
            decay: ModEnvelope::map_time(decay_val),
            end: limit_knob(end_val),
            state: ModEnvelopeState::Idle,
        }
    }

    /// The settings of the modulation envelopes of a fresh voice: they
    /// reach full level at once and stay there.
    pub open spec fn default_model() -> ModEnvelopeModel {
        ModEnvelopeModel {
            attack: EnvelopeTime::Instant,
            decay: EnvelopeTime::Instant,
            end: KNOB_MAX,
            state: ModEnvelopeState::Idle,
        }
    }

    /// A modulation envelope of a fresh voice.
    pub fn default_open() -> (envelope: ModEnvelope)
        ensures
            envelope.wf(),
            envelope@ == ModEnvelope::default_model(),
    {
        ModEnvelope::new_from_values(0, 0, 127)
    }

    /// The current state.
    pub fn state(&self) -> (state: ModEnvelopeState)
        ensures
            state == self@.state,
    {
        self.state
    }

    /// The attack time.
    pub fn attack(&self) -> (time: EnvelopeTime)
        ensures
            time == self@.attack,
    {
        self.attack
    }

    /// The decay time.
    pub fn decay(&self) -> (time: EnvelopeTime)
        ensures
            time == self@.decay,
    {
        self.decay
    }

    /// The knob setting of the end level.
    pub fn end(&self) -> (knob: u8)
        ensures
            knob == self@.end,
    {
        self.end
    }

    /// Replaces the settings and keeps the state.
    pub fn set_values(&mut self, attack_val: u32, decay_val: u32, end_val: u32)
        ensures
            final(self).wf(),
            final(self)@ == (ModEnvelopeModel {
                attack: time_of_knob(attack_val as nat),
                decay: time_of_knob(decay_val as nat),
                end: clamp_knob(end_val as nat),
                state: old(self)@.state,
            }),
    {
        self.attack = ModEnvelope::map_time(attack_val);
        self.decay = ModEnvelope::map_time(decay_val);
        self.end = limit_knob(end_val);
    }

    /// Starts the attack. The level goes on from where it is.
    pub fn note_on(&mut self)
        ensures
            old(self).wf() ==> final(self).wf(),
            final(self)@ == old(self)@.with_state(ModEnvelopeState::Attack),
    {
        self.state = ModEnvelopeState::Attack;
    }

    /// Ends the note: the envelope is idle and its level is zero at once.
    pub fn note_off(&mut self)
        ensures
            old(self).wf() ==> final(self).wf(),
            final(self)@ == old(self)@.with_state(ModEnvelopeState::Idle),
    {
        self.state = ModEnvelopeState::Idle;
    }

    /// What the level does during the next tick.
    pub fn motion(&self) -> (motion: Motion)
        ensures
            motion == self@.motion(),
    {
        match self.state {
            ModEnvelopeState::Idle => Motion::Silent,
            ModEnvelopeState::Attack => make_ramp(true, self.attack, Level::One),
            ModEnvelopeState::Decay => make_ramp(false, self.decay, Level::Knob(self.end)),
            ModEnvelopeState::Sustain => Motion::Hold,
        }
    }

    /// The level has arrived at the target of the current segment: the
    /// attack gives way to the decay, and the decay to the hold at the end
    /// level.
    pub fn arrive(&mut self)
        ensures
            old(self).wf() ==> final(self).wf(),
            final(self)@ == old(self)@.with_state(mod_after_arrival(old(self)@.state)),
    {
        self.state = match self.state {
            ModEnvelopeState::Idle => ModEnvelopeState::Idle,
            ModEnvelopeState::Attack => ModEnvelopeState::Decay,
            ModEnvelopeState::Decay => ModEnvelopeState::Sustain,
            ModEnvelopeState::Sustain => ModEnvelopeState::Sustain,
        };
    }
}

} // verus!
