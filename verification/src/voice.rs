//! One voice: four operators, a routing, an amplitude envelope and two
//! modulation envelopes, and the note it sounds.
//!
//! A voice is idle until a note starts on it, held while the note lasts,
//! releasing once the note has ended, and idle again when the amplitude
//! envelope has come to rest.

use vstd::prelude::*;
use crate::algorithm::{AlgorithmModel, FMAlgorithm, NUM_OPERATORS};
use crate::envelope::{
    after_arrival, clamp_knob, time_of_knob, Envelope, EnvelopeModel, EnvelopeState, Level, Motion,
};
use crate::mod_envelope::{mod_after_arrival, ModEnvelope, ModEnvelopeModel, ModEnvelopeState};
use crate::noop_envelope::NoopEnvelope;
use crate::operator::{AmpSource, AmpSourceModel, FMOperator, OperatorModel};
use crate::oscillator::{wave_of_id, WaveType};
use crate::schedule::{group_of, ModGroup};

verus! {

/// Where a voice stands in its life.
#[derive(Clone, Copy, Debug, PartialEq, Eq, Structural)]
pub enum VoicePhase {
    /// Silent and free.
    Idle,
    /// Sounding a note that has not ended.
    Held,
    /// Fading out after its note has ended.
    Releasing,
}

/// Mathematical content of a voice.
pub struct VoiceModel {
    pub operators: Seq<OperatorModel>,
    pub algorithm: AlgorithmModel,
    pub amp: EnvelopeModel,
    pub mod_a: ModEnvelopeModel,
    pub mod_b: ModEnvelopeModel,
    pub active: bool,
    pub note_id: Option<u32>,
    pub octave_shift: i32,
}

impl VoiceModel {
    /// The phase that the flags of the voice stand for.
    pub open spec fn phase(self) -> VoicePhase {
        if !self.active {
            VoicePhase::Idle
        } else if self.note_id is Some {
            VoicePhase::Held
        } else {
            VoicePhase::Releasing
        }
    }

    /// The voice sounds the note `note_id`.
    pub open spec fn holds(self, note_id: u32) -> bool {
        self.note_id == Some(note_id)
    }

    /// The flags and the amplitude envelope agree: an idle voice holds no
    /// note and its envelope is idle, a held voice is in its attack, decay
    /// or sustain, and a releasing voice is in its release.
    pub open spec fn lifecycle_ok(self) -> bool {
        match self.phase() {
            VoicePhase::Idle => self.note_id is None && self.amp.state is Idle,
            VoicePhase::Held => self.amp.state is Attack || self.amp.state is Decay
                || self.amp.state is Sustain,
            VoicePhase::Releasing => self.amp.state is Release,
        }
    }

    /// Every operator knows its role in the routing.
    pub open spec fn roles_ok(self) -> bool {
        forall|slot: int|
            0 <= slot < NUM_OPERATORS ==> (#[trigger] self.operators[slot]).is_modulator
                == self.algorithm.is_modulator(slot as usize)
    }

    /// Validity of a voice.
    pub open spec fn wf(self) -> bool {
        &&& self.operators.len() == NUM_OPERATORS
        &&& self.algorithm.wf()
        &&& self.amp.wf()
        &&& self.mod_a.wf()
        &&& self.mod_b.wf()
        &&& self.lifecycle_ok()
        &&& self.roles_ok()
    }

    /// The modulation envelope of a group.
    pub open spec fn mod_envelope(self, group: ModGroup) -> ModEnvelopeModel {
        match group {
            ModGroup::A => self.mod_a,
            ModGroup::B => self.mod_b,
        }
    }

    /// The voice with another modulation envelope for a group.
    pub open spec fn with_mod_envelope(self, group: ModGroup, envelope: ModEnvelopeModel) -> VoiceModel {
        match group {
            ModGroup::A => VoiceModel { mod_a: envelope, ..self },
            ModGroup::B => VoiceModel { mod_b: envelope, ..self },
        }
    }

    /// An idle voice with the given routing: sine operators at constant
    /// full level, the amplitude and modulation envelopes at their first
    /// settings, no octave shift.
    pub open spec fn fresh(algorithm: AlgorithmModel) -> VoiceModel {
        VoiceModel {
            operators: Seq::new(
                NUM_OPERATORS as nat,
                |slot: int|
                    OperatorModel {
                        wave_type: WaveType::Sine,
                        is_modulator: algorithm.is_modulator(slot as usize),
                        envelope: AmpSourceModel::Noop,
                    },
            ),
            algorithm,
            amp: Envelope::default_amp_model(),
            mod_a: ModEnvelope::default_model(),
            mod_b: ModEnvelope::default_model(),
            active: false,
            note_id: None,
            octave_shift: 0,
        }
    }

    /// The voice with another octave shift.
    pub open spec fn with_octave_shift(self, shift: i32) -> VoiceModel {
        VoiceModel { octave_shift: shift, ..self }
    }

    /// The voice with other settings of its amplitude envelope, read from
    /// four knobs. The state of the envelope stays.
    pub open spec fn with_amp_knobs(self, attack: u8, decay: u8, sustain: u8, release: u8) -> VoiceModel {
        VoiceModel {
            amp: EnvelopeModel {
                attack: time_of_knob(attack as nat),
                decay: time_of_knob(decay as nat),
                sustain: clamp_knob(sustain as nat),
                release: time_of_knob(release as nat),
                state: self.amp.state,
            },
            ..self
        }
    }

    /// The voice with other settings of the modulation envelope that shapes
    /// the group of the operator in `op_index`, read from three knobs. A
    /// slot that does not exist changes nothing.
    pub open spec fn with_mod_knobs(self, op_index: usize, attack: u32, decay: u32, end: u32) -> VoiceModel {
        if op_index < NUM_OPERATORS {
            self.with_mod_envelope(
                group_of(op_index),
                ModEnvelopeModel {
                    attack: time_of_knob(attack as nat),
                    decay: time_of_knob(decay as nat),
                    end: clamp_knob(end as nat),
                    state: self.mod_envelope(group_of(op_index)).state,
                },
            )
        } else {
            self
        }
    }

    /// The voice with another waveform for the operator in `op_index`. A
    /// slot that does not exist changes nothing.
    pub open spec fn with_waveform(self, op_index: usize, wave_type: WaveType) -> VoiceModel {
        if op_index < NUM_OPERATORS {
            VoiceModel {
                operators: self.operators.update(
                    op_index as int,
                    OperatorModel { wave_type, ..self.operators[op_index as int] },
                ),
                ..self
            }
        } else {
            self
        }
    }

    /// The voice with another amplitude source for the operator in
    /// `op_index`. A slot that does not exist changes nothing.
    pub open spec fn with_operator_envelope(self, op_index: usize, envelope: AmpSourceModel) -> VoiceModel {
        if op_index < NUM_OPERATORS {
            VoiceModel {
                operators: self.operators.update(
                    op_index as int,
                    OperatorModel { envelope, ..self.operators[op_index as int] },
                ),
                ..self
            }
        } else {
            self
        }
    }

    /// The voice after the level of the modulation envelope of a group has
    /// arrived at the target of its segment.
    pub open spec fn mod_arrived(self, group: ModGroup) -> VoiceModel {
        self.with_mod_envelope(
            group,
            self.mod_envelope(group).with_state(mod_after_arrival(self.mod_envelope(group).state)),
        )
    }

    /// The voice after the level of the amplitude source of the operator in
    /// `slot` has arrived at the target of its segment. A slot that does
    /// not exist changes nothing.
    pub open spec fn operator_arrived(self, slot: usize) -> VoiceModel {
        if slot < NUM_OPERATORS {
            VoiceModel {
                operators: self.operators.update(slot as int, self.operators[slot as int].arrived()),
                ..self
            }
        } else {
            self
        }
    }

    /// The voice after the note `note_id` has started on it: every envelope
    /// is triggered, and the voice is held.
    pub open spec fn triggered(self, note_id: u32) -> VoiceModel {
        VoiceModel {
            operators: self.operators.map_values(|operator: OperatorModel| operator.triggered()),
            amp: self.amp.with_state(self.amp.triggered_state()),
            mod_a: self.mod_a.with_state(ModEnvelopeState::Attack),
            mod_b: self.mod_b.with_state(ModEnvelopeState::Attack),
            active: true,
            note_id: Some(note_id),
            ..self
        }
    }

    /// The voice after its note has ended: the amplitude envelope releases,
    /// the modulation envelopes are idle, and the voice holds no note.
    pub open spec fn released(self) -> VoiceModel {
        VoiceModel {
            operators: self.operators.map_values(|operator: OperatorModel| operator.released()),
            amp: self.amp.with_state(EnvelopeState::Release),
            mod_a: self.mod_a.with_state(ModEnvelopeState::Idle),
            mod_b: self.mod_b.with_state(ModEnvelopeState::Idle),
            note_id: None,
            ..self
        }
    }

    /// The voice at the end of a tick. Where the level of the amplitude
    /// envelope has arrived at its target, the envelope moves on. A voice
    /// whose envelope is idle then is free again.
    pub open spec fn finished(self, amp_arrived: bool) -> VoiceModel {
        let state = if amp_arrived {
            after_arrival(self.amp.state)
        } else {
            self.amp.state
        };
        if state is Idle {
            VoiceModel { amp: self.amp.with_state(state), active: false, note_id: None, ..self }
        } else {
            VoiceModel { amp: self.amp.with_state(state), ..self }
        }
    }

    /// The voice with another routing, and with the roles that follow from
    /// it.
    pub open spec fn routed(self, algorithm: AlgorithmModel) -> VoiceModel {
        VoiceModel {
            operators: Seq::new(
                self.operators.len(),
                |slot: int|
                    OperatorModel {
                        is_modulator: algorithm.is_modulator(slot as usize),
                        ..self.operators[slot]
                    },
            ),
            algorithm,
            ..self
        }
    }
}

/// One voice of the instrument.
#[derive(Clone, Debug)]
pub struct FMVoice {
    operators: Vec<FMOperator>,
    algorithm: FMAlgorithm,
    amp_envelope: Envelope,
    mod_env_a: ModEnvelope,
    mod_env_b: ModEnvelope,
    active: bool,
    note_id: Option<u32>,
    octave_shift: i32,
}

impl View for FMVoice {
    type V = VoiceModel;

    closed spec fn view(&self) -> VoiceModel {
        VoiceModel {
            operators: self.operators@.map_values(|operator: FMOperator| operator@),
            algorithm: self.algorithm@,
            amp: self.amp_envelope@,
            mod_a: self.mod_env_a@,
            mod_b: self.mod_env_b@,
            active: self.active,
            note_id: self.note_id,
            octave_shift: self.octave_shift,
        }
    }
}

impl FMVoice {
    /// Validity of a voice.
    pub open spec fn wf(&self) -> bool {
        self@.wf()
    }

    /// An idle voice with the given routing. Its operators produce sines at
    /// constant full level.
    pub fn new(default_algo: FMAlgorithm) -> (voice: FMVoice)
        requires
            default_algo.wf(),
        ensures
            voice.wf(),
            voice@ == VoiceModel::fresh(default_algo@),
    {
        let mut operators: Vec<FMOperator> = Vec::new();
        let mut slot: usize = 0;
        while slot < NUM_OPERATORS
            invariant
                slot <= NUM_OPERATORS,
                operators@.len() == slot,
                forall|k: int|
                    0 <= k < slot ==> (#[trigger] operators@[k])@ == (OperatorModel {
                        wave_type: WaveType::Sine,
                        is_modulator: default_algo@.is_modulator(k as usize),
                        envelope: AmpSourceModel::Noop,
                    }),
            decreases NUM_OPERATORS - slot,
        {
            let mut operator = FMOperator::new(WaveType::Sine, AmpSource::Noop(NoopEnvelope));
            operator.set_modulator(default_algo.is_modulator(slot));
            operators.push(operator);
            slot += 1;
        }
        let voice = FMVoice {
            operators,
            algorithm: default_algo,
            amp_envelope: Envelope::default_amp(),
            mod_env_a: ModEnvelope::default_open(),
            mod_env_b: ModEnvelope::default_open(),
            active: false,
            note_id: None,
            octave_shift: 0,
        };
        assert(voice@.operators =~= VoiceModel::fresh(default_algo@).operators);
        voice
    }

    /// Whether the voice is sounding, held or releasing.
    pub fn is_active(&self) -> (active: bool)
        ensures
            active == self@.active,
    {
        self.active
    }

    /// Whether the voice sounds a note that has not ended.
    pub fn is_held(&self) -> (held: bool)
        ensures
            held == (self@.note_id is Some),
    {
        self.note_id.is_some()
    }

    /// The note that the voice holds, if any.
    pub fn get_note_id(&self) -> (note_id: Option<u32>)
        ensures
            note_id == self@.note_id,
    {
        self.note_id
    }

    /// Whether the voice holds the note `note_id`.
    pub fn holds(&self, note_id: u32) -> (held: bool)
        ensures
            held == self@.holds(note_id),
    {
        match self.note_id {
            Some(held) => held == note_id,
            None => false,
        }
    }

    /// Where the voice stands in its life.
    pub fn phase(&self) -> (phase: VoicePhase)
        ensures
            phase == self@.phase(),
    {
        if !self.active {
            VoicePhase::Idle
        } else if self.note_id.is_some() {
            VoicePhase::Held
        } else {
            VoicePhase::Releasing
        }
    }

    /// The routing of the voice.
    pub fn algorithm(&self) -> (algorithm: &FMAlgorithm)
        ensures
            algorithm@ == self@.algorithm,
    {
        &self.algorithm
    }

    /// The amplitude envelope.
    pub fn amp_envelope(&self) -> (envelope: &Envelope)
        ensures
            envelope@ == self@.amp,
    {
        &self.amp_envelope
    }

    /// The modulation envelope of a group.
    pub fn mod_envelope(&self, group: ModGroup) -> (envelope: &ModEnvelope)
        ensures
            envelope@ == self@.mod_envelope(group),
    {
        match group {
            ModGroup::A => &self.mod_env_a,
            ModGroup::B => &self.mod_env_b,
        }
    }

    /// The operator in `slot`.
    pub fn operator(&self, slot: usize) -> (operator: &FMOperator)
        requires
            self.wf(),
            slot < NUM_OPERATORS,
        ensures
            operator@ == self@.operators[slot as int],
    {
        &self.operators[slot]
    }

    /// The octave shift.
    pub fn octave_shift(&self) -> (shift: i32)
        ensures
            shift == self@.octave_shift,
    {
        self.octave_shift
    }

    /// Starts the note `note_id` on this voice, whatever it did before:
    /// every envelope is triggered and the voice is held. The result is the
    /// level from which the amplitude envelope starts.
    pub fn note_on(&mut self, note_id: u32) -> (level: Level)
        requires
            old(self).wf(),
        ensures
            final(self).wf(),
            final(self)@ == old(self)@.triggered(note_id),
            level == old(self)@.amp.triggered_level(),
    {
        let mut slot: usize = 0;
        while slot < NUM_OPERATORS
            invariant
                slot <= NUM_OPERATORS,
                self.operators@.len() == NUM_OPERATORS,
                forall|k: int|
                    0 <= k < slot ==> (#[trigger] self.operators@[k])@ == old(
                        self,
                    ).operators@[k]@.triggered(),
                forall|k: int|
                    slot <= k < NUM_OPERATORS ==> #[trigger] self.operators@[k] == old(
                        self,
                    ).operators@[k],
                self.algorithm == old(self).algorithm,
                self.amp_envelope == old(self).amp_envelope,
                self.mod_env_a == old(self).mod_env_a,
                self.mod_env_b == old(self).mod_env_b,
                self.octave_shift == old(self).octave_shift,
            decreases NUM_OPERATORS - slot,
        {
            let mut operator = self.operators[slot];
            let _ = operator.note_on();
            self.operators.set(slot, operator);
            slot += 1;
        }
        let level = self.amp_envelope.note_on();
        self.mod_env_a.note_on();
        self.mod_env_b.note_on();
        self.active = true;
        self.note_id = Some(note_id);
        assert(self@.operators =~= old(self)@.triggered(note_id).operators);
        level
    }

    /// Ends the note `note_id` if this voice holds it: the amplitude
    /// envelope releases, the modulation envelopes fall silent, and the
    /// voice holds no note any more. A voice that holds another note, or
    /// none, is left alone. The result tells whether the note was held.
    pub fn note_off(&mut self, note_id: u32) -> (released: bool)
        requires
            old(self).wf(),
        ensures
            final(self).wf(),
            released == old(self)@.holds(note_id),
            released ==> final(self)@ == old(self)@.released(),
            !released ==> final(self)@ == old(self)@,
    {
        if !self.holds(note_id) {
            return false;
        }
        let mut slot: usize = 0;
        while slot < NUM_OPERATORS
            invariant
                slot <= NUM_OPERATORS,
                self.operators@.len() == NUM_OPERATORS,
                forall|k: int|
                    0 <= k < slot ==> (#[trigger] self.operators@[k])@ == old(
                        self,
                    ).operators@[k]@.released(),
                forall|k: int|
                    slot <= k < NUM_OPERATORS ==> #[trigger] self.operators@[k] == old(
                        self,
                    ).operators@[k],
                self.algorithm == old(self).algorithm,
                self.amp_envelope == old(self).amp_envelope,
                self.mod_env_a == old(self).mod_env_a,
                self.mod_env_b == old(self).mod_env_b,
                self.octave_shift == old(self).octave_shift,
                self.active == old(self).active,
                self.note_id == old(self).note_id,
            decreases NUM_OPERATORS - slot,
        {
            let mut operator = self.operators[slot];
            operator.note_off();
            self.operators.set(slot, operator);
            slot += 1;
        }
        self.amp_envelope.note_off();
        self.mod_env_a.note_off();
        self.mod_env_b.note_off();
        self.note_id = None;
        assert(self@.operators =~= old(self)@.released().operators);
        true
    }

    /// Ends a tick. `amp_arrived` tells whether the level of the amplitude
    /// envelope has arrived at the target of its segment on this tick. A
    /// voice whose envelope has come to rest is free again and holds no
    /// note. The result tells whether the voice still sounds.
    pub fn finish_tick(&mut self, amp_arrived: bool) -> (sounding: bool)
        requires
            old(self).wf(),
        ensures
            final(self).wf(),
            final(self)@ == old(self)@.finished(amp_arrived),
            sounding == final(self)@.active,
    {
        if amp_arrived {
            self.amp_envelope.arrive();
        }
        if self.amp_envelope.is_idle() {
            self.active = false;
            self.note_id = None;
        }
        self.active
    }

    /// What the level of the amplitude envelope does during the next tick.
    pub fn amp_motion(&self) -> (motion: Motion)
        ensures
            motion == self@.amp.motion(),
    {
        self.amp_envelope.motion()
    }

    /// What the level of the modulation envelope of a group does during the
    /// next tick.
    pub fn mod_motion(&self, group: ModGroup) -> (motion: Motion)
        ensures
            motion == self@.mod_envelope(group).motion(),
    {
        match group {
            ModGroup::A => self.mod_env_a.motion(),
            ModGroup::B => self.mod_env_b.motion(),
        }
    }

    /// The level of the modulation envelope of a group has arrived at the
    /// target of its segment.
    pub fn mod_arrived(&mut self, group: ModGroup)
        requires
            old(self).wf(),
        ensures
            final(self).wf(),
            final(self)@ == old(self)@.mod_arrived(group),
    {
        match group {
            ModGroup::A => self.mod_env_a.arrive(),
            ModGroup::B => self.mod_env_b.arrive(),
        }
    }

    /// The level of the amplitude source of the operator in `slot` has
    /// arrived at the target of its segment. A slot that does not exist is
    /// ignored.
    pub fn operator_arrived(&mut self, slot: usize)
        requires
            old(self).wf(),
        ensures
            final(self).wf(),
            final(self)@ == old(self)@.operator_arrived(slot),
    {
        if slot < NUM_OPERATORS {
            let mut operator = self.operators[slot];
            operator.arrive();
            self.operators.set(slot, operator);
            assert(self@.operators =~= old(self)@.operators.update(
                slot as int,
                old(self)@.operators[slot as int].arrived(),
            ));
        }
    }

    /// Installs another routing. Every operator learns its role in it anew.
    pub fn set_algorithm(&mut self, new_algo: FMAlgorithm)
        requires
            old(self).wf(),
            new_algo.wf(),
        ensures
            final(self).wf(),
            final(self)@ == old(self)@.routed(new_algo@),
    {
        let mut slot: usize = 0;
        while slot < NUM_OPERATORS
            invariant
                slot <= NUM_OPERATORS,
                self.operators@.len() == NUM_OPERATORS,
                forall|k: int|
                    0 <= k < slot ==> (#[trigger] self.operators@[k])@ == (OperatorModel {
                        is_modulator: new_algo@.is_modulator(k as usize),
                        ..old(self).operators@[k]@
                    }),
                forall|k: int|
                    slot <= k < NUM_OPERATORS ==> #[trigger] self.operators@[k] == old(
                        self,
                    ).operators@[k],
                self.algorithm == old(self).algorithm,
                self.amp_envelope == old(self).amp_envelope,
                self.mod_env_a == old(self).mod_env_a,
                self.mod_env_b == old(self).mod_env_b,
                self.octave_shift == old(self).octave_shift,
                self.active == old(self).active,
                self.note_id == old(self).note_id,
            decreases NUM_OPERATORS - slot,
        {
            let mut operator = self.operators[slot];
            operator.set_modulator(new_algo.is_modulator(slot));
            self.operators.set(slot, operator);
            slot += 1;
        }
        self.algorithm = new_algo;
        assert(self@.operators =~= old(self)@.routed(new_algo@).operators);
    }

    /// Sets the octave shift.
    pub fn set_octave_shift(&mut self, shift: i32)
        ensures
            old(self).wf() ==> final(self).wf(),
            final(self)@ == old(self)@.with_octave_shift(shift),
    {
        self.octave_shift = shift;
    }

    /// Replaces the settings of the amplitude envelope, read from four
    /// knobs. The state of the envelope, and with it the level, stays.
    pub fn set_amp_env(&mut self, attack: u8, decay: u8, sustain: u8, release: u8)
        ensures
            old(self).wf() ==> final(self).wf(),
            final(self)@ == old(self)@.with_amp_knobs(attack, decay, sustain, release),
    {
        self.amp_envelope.set_attack(attack);
        self.amp_envelope.set_decay(decay);
        self.amp_envelope.set_sustain(sustain);
        self.amp_envelope.set_release(release);
    }

    /// Replaces the settings of the modulation envelope that shapes the
    /// group of the operator in `op_index`. A slot that does not exist is
    /// ignored.
    pub fn set_operator_mod_env(&mut self, op_index: usize, attack: u32, decay: u32, end: u32)
        ensures
            old(self).wf() ==> final(self).wf(),
            final(self)@ == old(self)@.with_mod_knobs(op_index, attack, decay, end),
    {
        if op_index < NUM_OPERATORS {
            match ModGroup::of_slot(op_index) {
                ModGroup::A => self.mod_env_a.set_values(attack, decay, end),
                ModGroup::B => self.mod_env_b.set_values(attack, decay, end),
            }
        }
    }

    /// Replaces the amplitude source of the operator in `op_index`. A slot
    /// that does not exist is ignored.
    pub fn set_operator_envelope(&mut self, op_index: usize, envelope: AmpSource)
        requires
            old(self).wf(),
        ensures
            final(self).wf(),
            final(self)@ == old(self)@.with_operator_envelope(op_index, envelope@),
    {
        if op_index < NUM_OPERATORS {
            let mut operator = self.operators[op_index];
            operator.set_envelope(envelope);
            self.operators.set(op_index, operator);
            assert(self@.operators =~= old(self)@.with_operator_envelope(
                op_index,
                envelope@,
            ).operators);
        }
    }

    /// Sets the waveform of the operator in `op_index` by its number. A slot
    /// that does not exist is ignored.
    pub fn set_operator_waveform(&mut self, op_index: usize, wave_type_id: u8)
        requires
            old(self).wf(),
        ensures
            final(self).wf(),
            final(self)@ == old(self)@.with_waveform(op_index, wave_of_id(wave_type_id)),
    {
        if op_index < NUM_OPERATORS {
            let mut operator = self.operators[op_index];
            operator.set_wave_type(WaveType::from_id(wave_type_id));
            self.operators.set(op_index, operator);
            assert(self@.operators =~= old(self)@.operators.update(
                op_index as int,
                OperatorModel {
                    wave_type: wave_of_id(wave_type_id),
                    ..old(self)@.operators[op_index as int]
                },
            ));
        }
    }
}

} // verus!
