//! The amplitude envelope of a voice as a state machine.
//!
//! The machine decides which segment the level is in and where it heads. The
//! caller moves the level and reports when it has arrived.

use vstd::prelude::*;

verus! {

/// Largest setting of a knob.
pub const KNOB_MAX: u8 = 127;

/// Number of equal steps between an instant segment and the longest finite
/// one.
pub const TIME_STEPS: u8 = 126;

/// Duration, in seconds, of the longest finite segment.
pub const MAX_TIME_SECONDS: u8 = 10;

/// A quantity as the quotient of two whole numbers.
#[derive(Clone, Copy, Debug, PartialEq, Eq, Structural)]
pub struct Ratio {
    pub numerator: u64,
    pub denominator: u64,
}

/// Duration of an envelope segment.
#[derive(Clone, Copy, Debug, PartialEq, Eq, Structural)]
pub enum EnvelopeTime {
    /// The segment takes no time.
    Instant,
    /// The segment takes this many steps, each the longest finite duration
    /// divided by `TIME_STEPS`.
    Steps(u8),
    /// The segment never ends: the level stays where it is.
    Forever,
}

/// A level between silence and full scale.
#[derive(Clone, Copy, Debug, PartialEq, Eq, Structural)]
pub enum Level {
    /// Silence.
    Zero,
    /// Full scale.
    One,
    /// The fraction of full scale that a knob at this setting stands for:
    /// the setting divided by `KNOB_MAX`.
    Knob(u8),
}

/// What the level does during one tick.
#[derive(Clone, Copy, Debug, PartialEq, Eq, Structural)]
pub enum Motion {
    /// The level is zero.
    Silent,
    /// The level keeps its value.
    Hold,
    /// The level moves toward `target` by the length of the tick divided by
    /// `time` and stops there. When it has reached the target, the machine
    /// is told that it arrived.
    Ramp { rising: bool, time: EnvelopeTime, target: Level },
}

/// State of an amplitude envelope.
#[derive(Clone, Copy, Debug, PartialEq, Eq, Structural)]
pub enum EnvelopeState {
    Idle,
    Attack,
    Decay,
    Sustain,
    Release,
}

/// A setting of an envelope.
#[derive(Clone, Copy, Debug, PartialEq, Eq, Structural)]
pub enum EnvelopeParam {
    Attack,
    Decay,
    Sustain,
    Release,
}

/// The settings that act on an envelope in the state it is in.
#[derive(Clone, Copy, Debug, PartialEq, Eq, Structural)]
pub struct ActiveParams {
    /// The setting that gives the duration of the segment, if the level
    /// moves.
    pub time: Option<EnvelopeParam>,
    /// The setting that gives the target of the segment, if it is no fixed
    /// level.
    pub target: Option<EnvelopeParam>,
}

/// The settings that act in a state: the attack time in the attack, the
/// decay time and the sustain level in the decay, the release time in the
/// release, and none where the level rests.
pub open spec fn params_of(state: EnvelopeState) -> ActiveParams {
    match state {
        EnvelopeState::Attack => ActiveParams { time: Some(EnvelopeParam::Attack), target: None },
        EnvelopeState::Decay => ActiveParams {
            time: Some(EnvelopeParam::Decay),
            target: Some(EnvelopeParam::Sustain),
        },
        EnvelopeState::Release => ActiveParams {
            time: Some(EnvelopeParam::Release),
            target: None,
        },
        _ => ActiveParams { time: None, target: None },
    }
}

impl EnvelopeState {
    /// The settings that act on an envelope in this state.
    pub fn active_params(self) -> (params: ActiveParams)
        ensures
            params == params_of(self),
    {
        match self {
            EnvelopeState::Attack => ActiveParams {
                time: Some(EnvelopeParam::Attack),
                target: None,
            },
            EnvelopeState::Decay => ActiveParams {
                time: Some(EnvelopeParam::Decay),
                target: Some(EnvelopeParam::Sustain),
            },
            EnvelopeState::Release => ActiveParams {
                time: Some(EnvelopeParam::Release),
                target: None,
            },
            _ => ActiveParams { time: None, target: None },
        }
    }
}

/// The duration that a knob setting stands for: zero is instant, the largest
/// setting holds forever, and the settings between them are linear. A
/// number above the largest setting stands for as many steps as the largest
/// setting.
pub open spec fn time_of_knob(knob: nat) -> EnvelopeTime {
    if knob == 0 {
        EnvelopeTime::Instant
    } else if knob == KNOB_MAX {
        EnvelopeTime::Forever
    } else if knob < KNOB_MAX {
        EnvelopeTime::Steps(knob as u8)
    } else {
        EnvelopeTime::Steps(KNOB_MAX)
    }
}

/// The knob setting limited to the largest one.
pub open spec fn clamp_knob(knob: nat) -> u8 {
    if knob < KNOB_MAX {
        knob as u8
    } else {
        KNOB_MAX
    }
}

/// A ramp over `time` toward `target`; a segment that lasts forever holds
/// the level instead.
pub open spec fn ramp(rising: bool, time: EnvelopeTime, target: Level) -> Motion {
    if time is Forever {
        Motion::Hold
    } else {
        Motion::Ramp { rising, time, target }
    }
}

/// The state that follows when the level has arrived at the target of the
/// current segment.
pub open spec fn after_arrival(state: EnvelopeState) -> EnvelopeState {
    match state {
        EnvelopeState::Idle => EnvelopeState::Idle,
        EnvelopeState::Attack => EnvelopeState::Decay,
        EnvelopeState::Decay => EnvelopeState::Sustain,
        EnvelopeState::Sustain => EnvelopeState::Sustain,
        EnvelopeState::Release => EnvelopeState::Idle,
    }
}

impl EnvelopeTime {
    /// A number of steps is at least one and at most the largest knob
    /// setting.
    pub open spec fn wf(self) -> bool {
        self matches EnvelopeTime::Steps(steps) ==> 1 <= steps <= KNOB_MAX
    }

    /// The duration in seconds: nothing for an instant segment, for every
    /// step the longest finite duration divided by the number of steps, and
    /// no duration at all for a segment that never ends.
    pub open spec fn seconds(self) -> Option<Ratio> {
        match self {
            EnvelopeTime::Instant => Some(Ratio { numerator: 0, denominator: TIME_STEPS as u64 }),
            EnvelopeTime::Steps(steps) => Some(
                Ratio {
                    numerator: (steps * MAX_TIME_SECONDS) as u64,
                    denominator: TIME_STEPS as u64,
                },
            ),
            EnvelopeTime::Forever => None,
        }
    }

    /// The duration in seconds, if the segment ends.
    pub fn duration(&self) -> (seconds: Option<Ratio>)
        ensures
            seconds == self.seconds(),
    {
        match self {
            EnvelopeTime::Instant => Some(Ratio { numerator: 0, denominator: TIME_STEPS as u64 }),
            EnvelopeTime::Steps(steps) => {
                let count: u64 = *steps as u64;
                let longest: u64 = MAX_TIME_SECONDS as u64;
                assert(count * longest <= 255 * 10) by (nonlinear_arith)
                    requires
                        count <= 255,
                        longest == 10,
                ;
                Some(Ratio { numerator: count * longest, denominator: TIME_STEPS as u64 })
            },
            EnvelopeTime::Forever => None,
        }
    }

    /// Reads a knob.
    pub fn from_knob(knob: u32) -> (time: EnvelopeTime)
        ensures
            time == time_of_knob(knob as nat),
            time.wf(),
    {
        if knob == 0 {
            EnvelopeTime::Instant
        } else if knob == 127 {
            EnvelopeTime::Forever
        } else if knob < 127 {
            EnvelopeTime::Steps(knob as u8)
        } else {
            EnvelopeTime::Steps(KNOB_MAX)
        }
    }
}

impl Level {
    /// The level as a fraction of full scale.
    pub open spec fn share(self) -> Ratio {
        match self {
            Level::Zero => Ratio { numerator: 0, denominator: KNOB_MAX as u64 },
            Level::One => Ratio { numerator: KNOB_MAX as u64, denominator: KNOB_MAX as u64 },
            Level::Knob(knob) => Ratio { numerator: knob as u64, denominator: KNOB_MAX as u64 },
        }
    }

    /// The level as a fraction of full scale.
    pub fn fraction(&self) -> (share: Ratio)
        ensures
            share == self.share(),
    {
        match self {
            Level::Zero => Ratio { numerator: 0, denominator: KNOB_MAX as u64 },
            Level::One => Ratio { numerator: KNOB_MAX as u64, denominator: KNOB_MAX as u64 },
            Level::Knob(knob) => Ratio { numerator: *knob as u64, denominator: KNOB_MAX as u64 },
        }
    }
}

/// Limits a knob setting to the largest one.
pub fn limit_knob(knob: u32) -> (limited: u8)
    ensures
        limited == clamp_knob(knob as nat),
{
    if knob < 127 {
        knob as u8
    } else {
        KNOB_MAX
    }
}

/// Mathematical content of an amplitude envelope.
pub struct EnvelopeModel {
    pub attack: EnvelopeTime,
    pub decay: EnvelopeTime,
    pub sustain: u8,
    pub release: EnvelopeTime,
    pub state: EnvelopeState,
}

impl EnvelopeModel {
    /// The times are valid and the sustain setting does not exceed the
    /// largest knob setting.
    pub open spec fn wf(self) -> bool {
        &&& self.attack.wf()
        &&& self.decay.wf()
        &&& self.release.wf()
        &&& self.sustain <= KNOB_MAX
    }

    /// What the level does in the current state.
    pub open spec fn motion(self) -> Motion {
        match self.state {
            EnvelopeState::Idle => Motion::Silent,
            EnvelopeState::Attack => ramp(true, self.attack, Level::One),
            EnvelopeState::Decay => ramp(false, self.decay, Level::Knob(self.sustain)),
            EnvelopeState::Sustain => Motion::Hold,
            EnvelopeState::Release => ramp(false, self.release, Level::Zero),
        }
    }

    /// The envelope with another state and the same settings.
    pub open spec fn with_state(self, state: EnvelopeState) -> EnvelopeModel {
        EnvelopeModel { state, ..self }
    }

    /// The state in which a new note starts: an instant attack is skipped.
    pub open spec fn triggered_state(self) -> EnvelopeState {
        if self.attack is Instant {
            EnvelopeState::Decay
        } else {
            EnvelopeState::Attack
        }
    }

    /// The level at which a new note starts.
    pub open spec fn triggered_level(self) -> Level {
        if self.attack is Instant {
            Level::One
        } else {
            Level::Zero
        }
    }
}

/// An attack, decay, sustain and release envelope.
#[derive(Clone, Copy, Debug)]
pub struct Envelope {
    attack: EnvelopeTime,
    decay: EnvelopeTime,
    sustain: u8,
    release: EnvelopeTime,
    state: EnvelopeState,
}

impl View for Envelope {
    type V = EnvelopeModel;

    closed spec fn view(&self) -> EnvelopeModel {
        EnvelopeModel {
            attack: self.attack,
            decay: self.decay,
            sustain: self.sustain,
            release: self.release,
            state: self.state,
        }
    }
}

impl Envelope {
    /// Validity of the settings.
    pub open spec fn wf(&self) -> bool {
        self@.wf()
    }

    /// Reads a time knob.
    pub fn map_time(knob: u8) -> (time: EnvelopeTime)
        ensures
            time == time_of_knob(knob as nat),
            time.wf(),
    {
        EnvelopeTime::from_knob(knob as u32)
    }

    /// An idle envelope with the given knob settings.
    pub fn from_digitone(attack: u8, decay: u8, sustain: u8, release: u8) -> (envelope: Envelope)
        ensures
            envelope.wf(),
            envelope@ == (EnvelopeModel {
                attack: time_of_knob(attack as nat),
                decay: time_of_knob(decay as nat),
                sustain: clamp_knob(sustain as nat),
                release: time_of_knob(release as nat),
                state: EnvelopeState::Idle,
            }),
    {
        Envelope {
            attack: Envelope::map_time(attack),
            decay: Envelope::map_time(decay),
            sustain: limit_knob(sustain as u32),
            release: Envelope::map_time(release),
            state: EnvelopeState::Idle,
        }
    }

    /// The settings of the amplitude envelope of a fresh voice: a short
    /// attack, a moderate decay, full sustain and a longer release.
    pub open spec fn default_amp_model() -> EnvelopeModel {
        EnvelopeModel {
            attack: EnvelopeTime::Steps(1),
            decay: EnvelopeTime::Steps(13),
            sustain: KNOB_MAX,
            release: EnvelopeTime::Steps(25),
            state: EnvelopeState::Idle,
        }
    }

    /// The amplitude envelope of a fresh voice.
    pub fn default_amp() -> (envelope: Envelope)
        ensures
            envelope.wf(),
            envelope@ == Envelope::default_amp_model(),
    {
        Envelope::from_digitone(1, 13, 127, 25)
    }

    /// The current state.
    pub fn state(&self) -> (state: EnvelopeState)
        ensures
            state == self@.state,
    {
        self.state
    }

    /// Whether the envelope is idle.
    pub fn is_idle(&self) -> (idle: bool)
        ensures
            idle == (self@.state is Idle),
    {
        match self.state {
            EnvelopeState::Idle => true,
            _ => false,
        }
    }

    /// The attack time.
    pub fn attack(&self) -> (time: EnvelopeTime)
        ensures
            time == self@.attack,
    {
        self.attack
    }

    /// The decay time.
    pub fn decay(&self) -> (time: EnvelopeTime)
        ensures
            time == self@.decay,
    {
        self.decay
    }

    /// The sustain knob setting.
    pub fn sustain(&self) -> (knob: u8)
        ensures
            knob == self@.sustain,
    {
        self.sustain
    }

    /// The release time.
    pub fn release(&self) -> (time: EnvelopeTime)
        ensures
            time == self@.release,
    {
        self.release
    }

    /// Sets the attack time from a knob. State and level are left alone.
    pub fn set_attack(&mut self, knob: u8)
        ensures
            final(self)@ == (EnvelopeModel { attack: time_of_knob(knob as nat), ..old(self)@ }),
            old(self).wf() ==> final(self).wf(),
    {
        self.attack = Envelope::map_time(knob);
    }

    /// Sets the decay time from a knob. State and level are left alone.
    pub fn set_decay(&mut self, knob: u8)
        ensures
            final(self)@ == (EnvelopeModel { decay: time_of_knob(knob as nat), ..old(self)@ }),
            old(self).wf() ==> final(self).wf(),
    {
        self.decay = Envelope::map_time(knob);
    }

    /// Sets the sustain level from a knob. State and level are left alone.
    pub fn set_sustain(&mut self, knob: u8)
        ensures
            final(self)@ == (EnvelopeModel { sustain: clamp_knob(knob as nat), ..old(self)@ }),
            old(self).wf() ==> final(self).wf(),
    {
        self.sustain = limit_knob(knob as u32);
    }

    /// Sets the release time from a knob. State and level are left alone.
    pub fn set_release(&mut self, knob: u8)
        ensures
            final(self)@ == (EnvelopeModel { release: time_of_knob(knob as nat), ..old(self)@ }),
            old(self).wf() ==> final(self).wf(),
    {
        self.release = Envelope::map_time(knob);
    }

    /// The level from which the next note starts.
    pub fn trigger_level(&self) -> (level: Level)
        ensures
            level == self@.triggered_level(),
    {
        match self.attack {
            EnvelopeTime::Instant => Level::One,
            _ => Level::Zero,
        }
    }

    /// Starts a note. With an instant attack the envelope starts in its
    /// decay at full level, otherwise in its attack at zero. The result is
    /// the level from which the note starts.
    pub fn note_on(&mut self) -> (level: Level)
        ensures
            old(self).wf() ==> final(self).wf(),
            final(self)@ == old(self)@.with_state(old(self)@.triggered_state()),
            level == old(self)@.triggered_level(),
    {
        match self.attack {
            EnvelopeTime::Instant => {
                self.state = EnvelopeState::Decay;
                Level::One
            },
            _ => {
                self.state = EnvelopeState::Attack;
                Level::Zero
            },
        }
    }

    /// Ends a note: the envelope releases from whatever level it has.
    pub fn note_off(&mut self)
        ensures
            old(self).wf() ==> final(self).wf(),
            final(self)@ == old(self)@.with_state(EnvelopeState::Release),
    {
        self.state = EnvelopeState::Release;
    }

    /// What the level does during the next tick.
    pub fn motion(&self) -> (motion: Motion)
        ensures
            motion == self@.motion(),
    {
        match self.state {
            EnvelopeState::Idle => Motion::Silent,
            EnvelopeState::Attack => make_ramp(true, self.attack, Level::One),
            EnvelopeState::Decay => make_ramp(false, self.decay, Level::Knob(self.sustain)),
            EnvelopeState::Sustain => Motion::Hold,
            EnvelopeState::Release => make_ramp(false, self.release, Level::Zero),
        }
    }

    /// The level has arrived at the target of the current segment: the
    /// attack gives way to the decay, the decay to the sustain, and the
    /// release to idleness.
    pub fn arrive(&mut self)
        ensures
            old(self).wf() ==> final(self).wf(),
            final(self)@ == old(self)@.with_state(after_arrival(old(self)@.state)),
    {
        self.state = match self.state {
            EnvelopeState::Idle => EnvelopeState::Idle,
            EnvelopeState::Attack => EnvelopeState::Decay,
            EnvelopeState::Decay => EnvelopeState::Sustain,
            EnvelopeState::Sustain => EnvelopeState::Sustain,
            EnvelopeState::Release => EnvelopeState::Idle,
        };
    }
}

/// A ramp, or a hold where the segment lasts forever.
pub fn make_ramp(rising: bool, time: EnvelopeTime, target: Level) -> (motion: Motion)
    ensures
        motion == ramp(rising, time, target),
{
    match time {
        EnvelopeTime::Forever => Motion::Hold,
        _ => Motion::Ramp { rising, time, target },
    }
}

/// The state after `n` arrivals in a row.
pub open spec fn after_arrivals(state: EnvelopeState, n: nat) -> EnvelopeState
    decreases n,
{
    if n == 0 {
        state
    } else {
        after_arrival(after_arrivals(state, (n - 1) as nat))
    }
}

/// Only a new note starts an attack: however often the level arrives at a
/// target, the envelope never enters its attack again.
pub proof fn lemma_no_attack_without_note(state: EnvelopeState, n: nat)
    requires
        n > 0,
    ensures
        !(after_arrivals(state, n) is Attack),
    decreases n,
{
    if n > 1 {
        lemma_no_attack_without_note(state, (n - 1) as nat);
    }
}

/// The course of a note. The note starts the attack, or the decay where the
/// attack is instant. From the attack the envelope passes through the decay
/// into the sustain and stays there, however often the level arrives. The
/// end of the note starts the release from any state, and the release ends
/// idle and stays idle.
pub proof fn lemma_course_of_a_note(envelope: EnvelopeModel, n: nat)
    ensures
        envelope.triggered_state() == if envelope.attack is Instant {
            EnvelopeState::Decay
        } else {
            EnvelopeState::Attack
        },
        after_arrivals(EnvelopeState::Attack, 1) == EnvelopeState::Decay,
        after_arrivals(EnvelopeState::Attack, n + 2) == EnvelopeState::Sustain,
        after_arrivals(EnvelopeState::Decay, n + 1) == EnvelopeState::Sustain,
        after_arrivals(EnvelopeState::Release, n + 1) == EnvelopeState::Idle,
    decreases n,
{
    reveal_with_fuel(after_arrivals, 3);
    if n > 0 {
        lemma_course_of_a_note(envelope, (n - 1) as nat);
    }
}

/// The level moves only on a ramp, and a ramp never lasts forever: a
/// segment whose time is infinite holds the level. The attack rises toward
/// full level, the decay falls toward the sustain level, and the release
/// falls toward silence.
pub proof fn lemma_motion_table(envelope: EnvelopeModel)
    ensures
        envelope.state is Idle <==> envelope.motion() is Silent,
        envelope.motion() matches Motion::Ramp { rising, time, target } ==> {
            &&& !(time is Forever)
            &&& envelope.state is Attack ==> rising && time == envelope.attack && target
                == Level::One
            &&& envelope.state is Decay ==> !rising && time == envelope.decay && target
                == Level::Knob(envelope.sustain)
            &&& envelope.state is Release ==> !rising && time == envelope.release && target
                == Level::Zero
            &&& !(envelope.state is Sustain)
        },
        envelope.state is Attack && envelope.attack is Forever ==> envelope.motion() is Hold,
        envelope.state is Decay && envelope.decay is Forever ==> envelope.motion() is Hold,
        envelope.state is Release && envelope.release is Forever ==> envelope.motion() is Hold,
        envelope.state is Sustain ==> envelope.motion() is Hold,
{
}

} // verus!
