//! The discrete part of an operator: its waveform, its role in the routing,
//! and the source that shapes its amplitude.

use vstd::prelude::*;
use vstd::string::StringSliceAdditionalSpecFns;
use crate::envelope::{after_arrival, Envelope, EnvelopeModel, EnvelopeState, Level, Motion};
use crate::noop_envelope::NoopEnvelope;
use crate::oscillator::WaveType;

verus! {

/// The source that shapes the amplitude of an operator.
#[derive(Clone, Copy, Debug)]
pub enum AmpSource {
    /// An attack, decay, sustain and release envelope.
    Adsr(Envelope),
    /// Constant full scale.
    Noop(NoopEnvelope),
}

/// Mathematical content of an amplitude source.
pub enum AmpSourceModel {
    Adsr(EnvelopeModel),
    Noop,
}

impl AmpSourceModel {
    /// What the level does in the current state.
    pub open spec fn motion(self) -> Motion {
        match self {
            AmpSourceModel::Adsr(envelope) => envelope.motion(),
            AmpSourceModel::Noop => Motion::Hold,
        }
    }

    /// The source after a note has started.
    pub open spec fn triggered(self) -> AmpSourceModel {
        match self {
            AmpSourceModel::Adsr(envelope) => AmpSourceModel::Adsr(
                envelope.with_state(envelope.triggered_state()),
            ),
            AmpSourceModel::Noop => AmpSourceModel::Noop,
        }
    }

    /// The level from which a note starts.
    pub open spec fn triggered_level(self) -> Level {
        match self {
            AmpSourceModel::Adsr(envelope) => envelope.triggered_level(),
            AmpSourceModel::Noop => Level::One,
        }
    }

    /// The source after a note has ended.
    pub open spec fn released(self) -> AmpSourceModel {
        match self {
            AmpSourceModel::Adsr(envelope) => AmpSourceModel::Adsr(
                envelope.with_state(EnvelopeState::Release),
            ),
            AmpSourceModel::Noop => AmpSourceModel::Noop,
        }
    }

    /// The source after its level has arrived at the target of the current
    /// segment.
    pub open spec fn arrived(self) -> AmpSourceModel {
        match self {
            AmpSourceModel::Adsr(envelope) => AmpSourceModel::Adsr(
                envelope.with_state(after_arrival(envelope.state)),
            ),
            AmpSourceModel::Noop => AmpSourceModel::Noop,
        }
    }
}

impl View for AmpSource {
    type V = AmpSourceModel;

    open spec fn view(&self) -> AmpSourceModel {
        match self {
            AmpSource::Adsr(envelope) => AmpSourceModel::Adsr(envelope@),
            AmpSource::Noop(_) => AmpSourceModel::Noop,
        }
    }
}

impl AmpSource {
    /// The level from which the next note starts.
    pub fn trigger_level(&self) -> (level: Level)
        ensures
            level == self@.triggered_level(),
    {
        match self {
            AmpSource::Adsr(envelope) => envelope.trigger_level(),
            AmpSource::Noop(source) => source.get_level(),
        }
    }

    /// Starts a note and tells the level from which it starts.
    pub fn note_on(&mut self) -> (level: Level)
        ensures
            final(self)@ == old(self)@.triggered(),
            level == old(self)@.triggered_level(),
    {
        match self {
            AmpSource::Adsr(envelope) => envelope.note_on(),
            AmpSource::Noop(source) => {
                source.note_on();
                source.get_level()
            },
        }
    }

    /// Ends a note.
    pub fn note_off(&mut self)
        ensures
            final(self)@ == old(self)@.released(),
    {
        match self {
            AmpSource::Adsr(envelope) => envelope.note_off(),
            AmpSource::Noop(source) => source.note_off(),
        }
    }

    /// What the level does during the next tick.
    pub fn motion(&self) -> (motion: Motion)
        ensures
            motion == self@.motion(),
    {
        match self {
            AmpSource::Adsr(envelope) => envelope.motion(),
            AmpSource::Noop(source) => source.motion(),
        }
    }

    /// The level has arrived at the target of the current segment.
    pub fn arrive(&mut self)
        ensures
            final(self)@ == old(self)@.arrived(),
    {
        match self {
            AmpSource::Adsr(envelope) => envelope.arrive(),
            AmpSource::Noop(_) => {},
        }
    }
}

/// Mathematical content of an operator.
pub struct OperatorModel {
    pub wave_type: WaveType,
    pub is_modulator: bool,
    pub envelope: AmpSourceModel,
}

impl OperatorModel {
    /// The operator after a note has started.
    pub open spec fn triggered(self) -> OperatorModel {
        OperatorModel { envelope: self.envelope.triggered(), ..self }
    }

    /// The operator after a note has ended.
    pub open spec fn released(self) -> OperatorModel {
        OperatorModel { envelope: self.envelope.released(), ..self }
    }

    /// The operator after the level of its amplitude source has arrived at
    /// the target of the current segment.
    pub open spec fn arrived(self) -> OperatorModel {
        OperatorModel { envelope: self.envelope.arrived(), ..self }
    }
}

/// One of the four operators of a voice.
#[derive(Clone, Copy, Debug)]
pub struct FMOperator {
    wave_type: WaveType,
    is_modulator: bool,
    envelope: AmpSource,
}

impl View for FMOperator {
    type V = OperatorModel;

    closed spec fn view(&self) -> OperatorModel {
        OperatorModel {
            wave_type: self.wave_type,
            is_modulator: self.is_modulator,
            envelope: self.envelope@,
        }
    }
}

impl FMOperator {
    /// An operator with the given waveform and amplitude source. It is no
    /// modulator until a routing makes it one.
    pub fn new(wave_type: WaveType, envelope: AmpSource) -> (operator: FMOperator)
        ensures
            operator@ == (OperatorModel { wave_type, is_modulator: false, envelope: envelope@ }),
    {
        FMOperator { wave_type, is_modulator: false, envelope }
    }

    /// The waveform.
    pub fn wave_type(&self) -> (wave_type: WaveType)
        ensures
            wave_type == self@.wave_type,
    {
        self.wave_type
    }

    /// Whether the operator is a modulator in the routing of its voice.
    pub fn is_modulator(&self) -> (flag: bool)
        ensures
            flag == self@.is_modulator,
    {
        self.is_modulator
    }

    /// The amplitude source.
    pub fn get_envelope(&self) -> (envelope: &AmpSource)
        ensures
            envelope@ == self@.envelope,
    {
        &self.envelope
    }

    /// Sets the waveform.
    pub fn set_wave_type(&mut self, wave_type: WaveType)
        ensures
            final(self)@ == (OperatorModel { wave_type, ..old(self)@ }),
    {
        self.wave_type = wave_type;
    }

    /// Replaces the amplitude source.
    pub fn set_envelope(&mut self, envelope: AmpSource)
        ensures
            final(self)@ == (OperatorModel { envelope: envelope@, ..old(self)@ }),
    {
        self.envelope = envelope;
    }

    /// Records the role of the operator in the routing of its voice.
    pub fn set_modulator(&mut self, is_modulator: bool)
        ensures
            final(self)@ == (OperatorModel { is_modulator, ..old(self)@ }),
    {
        self.is_modulator = is_modulator;
    }

    /// The level from which the amplitude source starts the next note.
    pub fn trigger_level(&self) -> (level: Level)
        ensures
            level == self@.envelope.triggered_level(),
    {
        self.envelope.trigger_level()
    }

    /// Starts a note on the amplitude source and tells the level from which
    /// it starts.
    pub fn note_on(&mut self) -> (level: Level)
        ensures
            final(self)@ == old(self)@.triggered(),
            level == old(self)@.envelope.triggered_level(),
    {
        self.envelope.note_on()
    }

    /// Ends a note on the amplitude source.
    pub fn note_off(&mut self)
        ensures
            final(self)@ == old(self)@.released(),
    {
        self.envelope.note_off()
    }

    /// What the level of the amplitude source does during the next tick.
    pub fn motion(&self) -> (motion: Motion)
        ensures
            motion == self@.envelope.motion(),
    {
        self.envelope.motion()
    }

    /// The level of the amplitude source has arrived at the target of the
    /// current segment.
    pub fn arrive(&mut self)
        ensures
            final(self)@ == old(self)@.arrived(),
    {
        self.envelope.arrive()
    }
}

/// The groups by which the frequency ratios of the operators are set.
#[derive(Clone, Copy, Debug, PartialEq, Eq, Structural)]
pub enum OperatorGroup {
    /// The carrier, in slot 0.
    C,
    /// The modulator in slot 2.
    A,
    /// The pair of modulators in slots 1 and 3.
    B,
}

/// The group that a name stands for, the name given by its bytes: the
/// single letters C, A and B name the groups, nothing else does.
pub open spec fn group_of_name(name: Seq<u8>) -> Option<OperatorGroup> {
    if name == seq![0x43u8] {
        Some(OperatorGroup::C)
    } else if name == seq![0x41u8] {
        Some(OperatorGroup::A)
    } else if name == seq![0x42u8] {
        Some(OperatorGroup::B)
    } else {
        None
    }
}

/// The slots of the operators in a group.
pub open spec fn slots_of_group(group: OperatorGroup) -> Seq<usize> {
    match group {
        OperatorGroup::C => seq![0usize],
        OperatorGroup::A => seq![2usize],
        OperatorGroup::B => seq![1usize, 3usize],
    }
}

impl OperatorGroup {
    /// Reads the name of a group.
    pub fn from_name(name: &str) -> (group: Option<OperatorGroup>)
        ensures
            group == group_of_name(name.spec_bytes()),
    {
        let bytes = name.as_bytes();
        if bytes.len() != 1 {
            return None;
        }
        let letter: u8 = bytes[0];
        assert(bytes@ =~= seq![letter]);
        if letter == 0x43 {
            Some(OperatorGroup::C)
        } else if letter == 0x41 {
            Some(OperatorGroup::A)
        } else if letter == 0x42 {
            Some(OperatorGroup::B)
        } else {
            None
        }
    }

    /// The slots of the operators in the group.
    pub fn slots(self) -> (slots: Vec<usize>)
        ensures
            slots@ == slots_of_group(self),
    {
        let slots: Vec<usize> = match self {
            OperatorGroup::C => vec![0],
            OperatorGroup::A => vec![2],
            OperatorGroup::B => vec![1, 3],
        };
        assert(slots@ =~= slots_of_group(self));
        slots
    }
}

} // verus!
