//! The settings of a low-frequency oscillator and the parameter it moves.

use vstd::prelude::*;
use crate::envelope::{EnvelopeParam, Level, Ratio};
use crate::operator::OperatorGroup;

verus! {

/// The parameter that a low-frequency oscillator moves.
#[derive(Clone, Copy, Debug, PartialEq, Eq, Structural)]
pub enum LfoDestination {
    ModDepthA,
    ModDepthB,
    RatioC,
    RatioA,
    RatioB,
    Feedback,
    Harm,
    CarrierMix,
    AmpAttack,
    AmpDecay,
    AmpSustain,
    AmpRelease,
    Overdrive,
    Pan,
    Volume,
    FilterAttack,
    FilterDecay,
    FilterSustain,
    FilterRelease,
    FilterCutoff,
    FilterResonance,
    FilterEnvAmount,
}

/// Shape of the wave of a low-frequency oscillator.
#[derive(Clone, Copy, Debug, PartialEq, Eq, Structural)]
pub enum Waveform {
    Triangle,
    Sine,
    Square,
    Sawtooth,
    Exponential,
    Ramp,
    Random,
}

/// How a low-frequency oscillator reacts to notes.
#[derive(Clone, Copy, Debug, PartialEq, Eq, Structural)]
pub enum LfoMode {
    /// Runs on, whatever is played.
    Free,
    /// Starts its cycle anew with every note.
    Trigger,
    Hold,
    /// Starts anew with every note and falls silent after one cycle.
    One,
    /// Starts anew with every note and falls silent after half a cycle.
    Half,
}

/// A parameter of the whole instrument.
#[derive(Clone, Copy, Debug, PartialEq, Eq, Structural)]
pub enum EngineParam {
    ModDepthA,
    ModDepthB,
    Feedback,
    Harm,
    CarrierMix,
    Overdrive,
    Pan,
    Volume,
}

/// A parameter of the stereo filter.
#[derive(Clone, Copy, Debug, PartialEq, Eq, Structural)]
pub enum FilterParam {
    Cutoff,
    Resonance,
    EnvAmount,
    Attack,
    Decay,
    Sustain,
    Release,
}

/// A parameter that every voice has for itself.
#[derive(Clone, Copy, Debug, PartialEq, Eq, Structural)]
pub enum VoiceParam {
    RatioA,
    RatioB,
    RatioC,
    AmpAttack,
    AmpDecay,
    AmpSustain,
    AmpRelease,
}

/// Where the value of a low-frequency oscillator is added.
#[derive(Clone, Copy, Debug, PartialEq, Eq, Structural)]
pub enum LfoTarget {
    /// To a parameter of the instrument.
    Engine(EngineParam),
    /// To a parameter of both channels of the filter.
    Filter(FilterParam),
    /// To a parameter of every voice.
    Voice(VoiceParam),
}

/// The setting of the amplitude envelope that a parameter of the voices
/// names, if it names one.
pub open spec fn voice_envelope_param(param: VoiceParam) -> Option<EnvelopeParam> {
    match param {
        VoiceParam::AmpAttack => Some(EnvelopeParam::Attack),
        VoiceParam::AmpDecay => Some(EnvelopeParam::Decay),
        VoiceParam::AmpSustain => Some(EnvelopeParam::Sustain),
        VoiceParam::AmpRelease => Some(EnvelopeParam::Release),
        _ => None,
    }
}

/// The setting of the envelope of the filter that a parameter of the filter
/// names, if it names one.
pub open spec fn filter_envelope_param(param: FilterParam) -> Option<EnvelopeParam> {
    match param {
        FilterParam::Attack => Some(EnvelopeParam::Attack),
        FilterParam::Decay => Some(EnvelopeParam::Decay),
        FilterParam::Sustain => Some(EnvelopeParam::Sustain),
        FilterParam::Release => Some(EnvelopeParam::Release),
        _ => None,
    }
}

/// The operators whose frequency ratio a parameter of the voices names, if
/// it names any.
pub open spec fn voice_ratio_group(param: VoiceParam) -> Option<OperatorGroup> {
    match param {
        VoiceParam::RatioC => Some(OperatorGroup::C),
        VoiceParam::RatioA => Some(OperatorGroup::A),
        VoiceParam::RatioB => Some(OperatorGroup::B),
        _ => None,
    }
}

impl VoiceParam {
    /// The setting of the amplitude envelope that the parameter names, if
    /// it names one.
    pub fn envelope_param(self) -> (param: Option<EnvelopeParam>)
        ensures
            param == voice_envelope_param(self),
    {
        match self {
            VoiceParam::AmpAttack => Some(EnvelopeParam::Attack),
            VoiceParam::AmpDecay => Some(EnvelopeParam::Decay),
            VoiceParam::AmpSustain => Some(EnvelopeParam::Sustain),
            VoiceParam::AmpRelease => Some(EnvelopeParam::Release),
            _ => None,
        }
    }

    /// The operators whose frequency ratio the parameter names, if it names
    /// any.
    pub fn ratio_group(self) -> (group: Option<OperatorGroup>)
        ensures
            group == voice_ratio_group(self),
    {
        match self {
            VoiceParam::RatioC => Some(OperatorGroup::C),
            VoiceParam::RatioA => Some(OperatorGroup::A),
            VoiceParam::RatioB => Some(OperatorGroup::B),
            _ => None,
        }
    }
}

impl FilterParam {
    /// The setting of the envelope of the filter that the parameter names,
    /// if it names one.
    pub fn envelope_param(self) -> (param: Option<EnvelopeParam>)
        ensures
            param == filter_envelope_param(self),
    {
        match self {
            FilterParam::Attack => Some(EnvelopeParam::Attack),
            FilterParam::Decay => Some(EnvelopeParam::Decay),
            FilterParam::Sustain => Some(EnvelopeParam::Sustain),
            FilterParam::Release => Some(EnvelopeParam::Release),
            _ => None,
        }
    }
}

/// The destination that a number selects. A number that selects none stands
/// for the depth of modulation group A.
pub open spec fn destination_of_code(code: u32) -> LfoDestination {
    match code {
        0 => LfoDestination::ModDepthA,
        1 => LfoDestination::ModDepthB,
        2 => LfoDestination::RatioC,
        3 => LfoDestination::RatioA,
        4 => LfoDestination::RatioB,
        5 => LfoDestination::Feedback,
        6 => LfoDestination::Harm,
        7 => LfoDestination::CarrierMix,
        8 => LfoDestination::AmpAttack,
        9 => LfoDestination::AmpDecay,
        10 => LfoDestination::AmpSustain,
        11 => LfoDestination::AmpRelease,
        12 => LfoDestination::Overdrive,
        13 => LfoDestination::Pan,
        14 => LfoDestination::Volume,
        15 => LfoDestination::FilterAttack,
        16 => LfoDestination::FilterDecay,
        17 => LfoDestination::FilterSustain,
        18 => LfoDestination::FilterRelease,
        19 => LfoDestination::FilterCutoff,
        20 => LfoDestination::FilterResonance,
        21 => LfoDestination::FilterEnvAmount,
        _ => LfoDestination::ModDepthA,
    }
}

/// The waveform that a number selects. A number that selects none stands for
/// the triangle.
pub open spec fn waveform_of_code(code: u32) -> Waveform {
    match code {
        0 => Waveform::Triangle,
        1 => Waveform::Sine,
        2 => Waveform::Square,
        3 => Waveform::Sawtooth,
        4 => Waveform::Exponential,
        5 => Waveform::Ramp,
        6 => Waveform::Random,
        _ => Waveform::Triangle,
    }
}

/// The mode that a number selects. A number that selects none stands for the
/// free-running mode.
pub open spec fn mode_of_code(code: u32) -> LfoMode {
    match code {
        0 => LfoMode::Free,
        1 => LfoMode::Trigger,
        2 => LfoMode::Hold,
        3 => LfoMode::One,
        4 => LfoMode::Half,
        _ => LfoMode::Free,
    }
}

/// Where the value of an oscillator with this destination is added.
pub open spec fn target_of(destination: LfoDestination) -> LfoTarget {
    match destination {
        LfoDestination::ModDepthA => LfoTarget::Engine(EngineParam::ModDepthA),
        LfoDestination::ModDepthB => LfoTarget::Engine(EngineParam::ModDepthB),
        LfoDestination::Feedback => LfoTarget::Engine(EngineParam::Feedback),
        LfoDestination::Harm => LfoTarget::Engine(EngineParam::Harm),
        LfoDestination::CarrierMix => LfoTarget::Engine(EngineParam::CarrierMix),
        LfoDestination::Overdrive => LfoTarget::Engine(EngineParam::Overdrive),
        LfoDestination::Pan => LfoTarget::Engine(EngineParam::Pan),
        LfoDestination::Volume => LfoTarget::Engine(EngineParam::Volume),
        LfoDestination::FilterCutoff => LfoTarget::Filter(FilterParam::Cutoff),
        LfoDestination::FilterResonance => LfoTarget::Filter(FilterParam::Resonance),
        LfoDestination::FilterEnvAmount => LfoTarget::Filter(FilterParam::EnvAmount),
        LfoDestination::FilterAttack => LfoTarget::Filter(FilterParam::Attack),
        LfoDestination::FilterDecay => LfoTarget::Filter(FilterParam::Decay),
        LfoDestination::FilterSustain => LfoTarget::Filter(FilterParam::Sustain),
        LfoDestination::FilterRelease => LfoTarget::Filter(FilterParam::Release),
        LfoDestination::RatioA => LfoTarget::Voice(VoiceParam::RatioA),
        LfoDestination::RatioB => LfoTarget::Voice(VoiceParam::RatioB),
        LfoDestination::RatioC => LfoTarget::Voice(VoiceParam::RatioC),
        LfoDestination::AmpAttack => LfoTarget::Voice(VoiceParam::AmpAttack),
        LfoDestination::AmpDecay => LfoTarget::Voice(VoiceParam::AmpDecay),
        LfoDestination::AmpSustain => LfoTarget::Voice(VoiceParam::AmpSustain),
        LfoDestination::AmpRelease => LfoTarget::Voice(VoiceParam::AmpRelease),
    }
}

impl LfoDestination {
    /// Reads the number of a destination.
    pub fn from_code(code: u32) -> (destination: LfoDestination)
        ensures
            destination == destination_of_code(code),
    {
        match code {
            0 => LfoDestination::ModDepthA,
            1 => LfoDestination::ModDepthB,
            2 => LfoDestination::RatioC,
            3 => LfoDestination::RatioA,
            4 => LfoDestination::RatioB,
            5 => LfoDestination::Feedback,
            6 => LfoDestination::Harm,
            7 => LfoDestination::CarrierMix,
            8 => LfoDestination::AmpAttack,
            9 => LfoDestination::AmpDecay,
            10 => LfoDestination::AmpSustain,
            11 => LfoDestination::AmpRelease,
            12 => LfoDestination::Overdrive,
            13 => LfoDestination::Pan,
            14 => LfoDestination::Volume,
            15 => LfoDestination::FilterAttack,
            16 => LfoDestination::FilterDecay,
            17 => LfoDestination::FilterSustain,
            18 => LfoDestination::FilterRelease,
            19 => LfoDestination::FilterCutoff,
            20 => LfoDestination::FilterResonance,
            21 => LfoDestination::FilterEnvAmount,
            _ => LfoDestination::ModDepthA,
        }
    }

    /// Where the value of an oscillator with this destination is added: to
    /// a parameter of the instrument, of the filter, or of every voice.
    pub fn target(self) -> (target: LfoTarget)
        ensures
            target == target_of(self),
    {
        match self {
            LfoDestination::ModDepthA => LfoTarget::Engine(EngineParam::ModDepthA),
            LfoDestination::ModDepthB => LfoTarget::Engine(EngineParam::ModDepthB),
            LfoDestination::Feedback => LfoTarget::Engine(EngineParam::Feedback),
            LfoDestination::Harm => LfoTarget::Engine(EngineParam::Harm),
            LfoDestination::CarrierMix => LfoTarget::Engine(EngineParam::CarrierMix),
            LfoDestination::Overdrive => LfoTarget::Engine(EngineParam::Overdrive),
            LfoDestination::Pan => LfoTarget::Engine(EngineParam::Pan),
            LfoDestination::Volume => LfoTarget::Engine(EngineParam::Volume),
            LfoDestination::FilterCutoff => LfoTarget::Filter(FilterParam::Cutoff),
            LfoDestination::FilterResonance => LfoTarget::Filter(FilterParam::Resonance),
            LfoDestination::FilterEnvAmount => LfoTarget::Filter(FilterParam::EnvAmount),
            LfoDestination::FilterAttack => LfoTarget::Filter(FilterParam::Attack),
            LfoDestination::FilterDecay => LfoTarget::Filter(FilterParam::Decay),
            LfoDestination::FilterSustain => LfoTarget::Filter(FilterParam::Sustain),
            LfoDestination::FilterRelease => LfoTarget::Filter(FilterParam::Release),
            LfoDestination::RatioA => LfoTarget::Voice(VoiceParam::RatioA),
            LfoDestination::RatioB => LfoTarget::Voice(VoiceParam::RatioB),
            LfoDestination::RatioC => LfoTarget::Voice(VoiceParam::RatioC),
            LfoDestination::AmpAttack => LfoTarget::Voice(VoiceParam::AmpAttack),
            LfoDestination::AmpDecay => LfoTarget::Voice(VoiceParam::AmpDecay),
            LfoDestination::AmpSustain => LfoTarget::Voice(VoiceParam::AmpSustain),
            LfoDestination::AmpRelease => LfoTarget::Voice(VoiceParam::AmpRelease),
        }
    }
}

impl Waveform {
    /// Reads the number of a waveform.
    pub fn from_code(code: u32) -> (waveform: Waveform)
        ensures
            waveform == waveform_of_code(code),
    {
        match code {
            0 => Waveform::Triangle,
            1 => Waveform::Sine,
            2 => Waveform::Square,
            3 => Waveform::Sawtooth,
            4 => Waveform::Exponential,
            5 => Waveform::Ramp,
            6 => Waveform::Random,
            _ => Waveform::Triangle,
        }
    }
}

impl LfoMode {
    /// Reads the number of a mode.
    pub fn from_code(code: u32) -> (mode: LfoMode)
        ensures
            mode == mode_of_code(code),
    {
        match code {
            0 => LfoMode::Free,
            1 => LfoMode::Trigger,
            2 => LfoMode::Hold,
            3 => LfoMode::One,
            4 => LfoMode::Half,
            _ => LfoMode::Free,
        }
    }

    /// Whether a note sets the oscillator back to its start phase.
    pub open spec fn restarts(self) -> bool {
        self is Trigger || self is One || self is Half
    }
}

/// How the output of an oscillator fades.
#[derive(Clone, Copy, Debug, PartialEq, Eq, Structural)]
pub enum Fade {
    /// The output is not faded.
    Off,
    /// The output fades in over `steps` steps.
    In { steps: u32 },
    /// The output fades out over `steps` steps.
    Out { steps: u32 },
}

/// Number of fade steps that make up the longest fade.
pub const FADE_STEPS: u8 = 63;

/// Duration, in seconds, of the longest fade.
pub const MAX_FADE_SECONDS: u8 = 5;

impl Fade {
    /// The duration of the fade in seconds, if there is a fade: for every
    /// step the longest fade divided by the number of steps.
    pub open spec fn seconds(self) -> Option<Ratio> {
        match self {
            Fade::Off => None,
            Fade::In { steps } => Some(
                Ratio {
                    numerator: (steps * MAX_FADE_SECONDS) as u64,
                    denominator: FADE_STEPS as u64,
                },
            ),
            Fade::Out { steps } => Some(
                Ratio {
                    numerator: (steps * MAX_FADE_SECONDS) as u64,
                    denominator: FADE_STEPS as u64,
                },
            ),
        }
    }

    /// The duration of the fade in seconds, if there is a fade.
    pub fn duration(&self) -> (seconds: Option<Ratio>)
        ensures
            seconds == self.seconds(),
    {
        let steps: u32 = match self {
            Fade::Off => {
                return None;
            },
            Fade::In { steps } => *steps,
            Fade::Out { steps } => *steps,
        };
        let count: u64 = steps as u64;
        let longest: u64 = MAX_FADE_SECONDS as u64;
        assert(count * longest <= 0xffff_ffff * 5) by (nonlinear_arith)
            requires
                count <= 0xffff_ffff,
                longest == 5,
        ;
        Some(Ratio { numerator: count * longest, denominator: FADE_STEPS as u64 })
    }
}

/// What a note does to an oscillator.
#[derive(Clone, Copy, Debug, PartialEq, Eq, Structural)]
pub struct LfoStart {
    /// The phase goes back to the start phase.
    pub restart: bool,
    /// The level from which the fade starts.
    pub fade_level: Level,
}

/// What the end of a cycle does to the output of an oscillator.
#[derive(Clone, Copy, Debug, PartialEq, Eq, Structural)]
pub enum Mute {
    /// Nothing.
    Never,
    /// The depth drops to zero.
    Always,
    /// The depth drops to zero if the phase is more than half a cycle away
    /// from the start phase.
    PastHalf,
}

/// What happens when the phase of an oscillator wraps around.
#[derive(Clone, Copy, Debug, PartialEq, Eq, Structural)]
pub struct Wrap {
    /// The random waveform draws its next value.
    pub draw: bool,
    /// Whether the output is muted from now on.
    pub mute: Mute,
}

/// The fade that a fade setting stands for: none at zero, a fade in below,
/// a fade out above.
pub open spec fn fade_of(fade: i32) -> Fade {
    if fade == 0 {
        Fade::Off
    } else if fade < 0 {
        Fade::In { steps: (0 - fade) as u32 }
    } else {
        Fade::Out { steps: fade as u32 }
    }
}

/// The muting that a mode asks for at the end of a cycle.
pub open spec fn mute_of(mode: LfoMode) -> Mute {
    match mode {
        LfoMode::One => Mute::Always,
        LfoMode::Half => Mute::PastHalf,
        _ => Mute::Never,
    }
}

/// The settings of a low-frequency oscillator.
#[derive(Clone, Copy, Debug, PartialEq, Eq, Structural)]
pub struct Lfo {
    /// Factor on the speed; values below one count as one.
    pub multiplier: i32,
    /// Fade setting: negative fades in, positive fades out.
    pub fade: i32,
    pub destination: LfoDestination,
    pub waveform: Waveform,
    pub mode: LfoMode,
    /// A note is down.
    pub triggered: bool,
}

/// The first settings of an oscillator: a free-running triangle on the depth
/// of modulation group A, without fade.
pub open spec fn fresh_lfo() -> Lfo {
    Lfo {
        multiplier: 1,
        fade: 0,
        destination: LfoDestination::ModDepthA,
        waveform: Waveform::Triangle,
        mode: LfoMode::Free,
        triggered: false,
    }
}

impl Lfo {
    /// An oscillator with its first settings.
    pub fn new() -> (lfo: Lfo)
        ensures
            lfo == fresh_lfo(),
    {
        Lfo {
            multiplier: 1,
            fade: 0,
            destination: LfoDestination::ModDepthA,
            waveform: Waveform::Triangle,
            mode: LfoMode::Free,
            triggered: false,
        }
    }

    /// Sets the factor on the speed.
    pub fn set_multiplier(&mut self, m: i32)
        ensures
            *final(self) == (Lfo { multiplier: m, ..*old(self) }),
    {
        self.multiplier = m;
    }

    /// Sets the fade.
    pub fn set_fade(&mut self, f: i32)
        ensures
            *final(self) == (Lfo { fade: f, ..*old(self) }),
    {
        self.fade = f;
    }

    /// Sets the destination.
    pub fn set_destination(&mut self, d: LfoDestination)
        ensures
            *final(self) == (Lfo { destination: d, ..*old(self) }),
    {
        self.destination = d;
    }

    /// Sets the waveform.
    pub fn set_waveform(&mut self, w: Waveform)
        ensures
            *final(self) == (Lfo { waveform: w, ..*old(self) }),
    {
        self.waveform = w;
    }

    /// Sets the mode.
    pub fn set_mode(&mut self, m: LfoMode)
        ensures
            *final(self) == (Lfo { mode: m, ..*old(self) }),
    {
        self.mode = m;
    }

    /// The factor on the speed.
    pub fn multiplier(&self) -> (m: i32)
        ensures
            m == self.multiplier,
    {
        self.multiplier
    }

    /// The fade setting.
    pub fn fade(&self) -> (f: i32)
        ensures
            f == self.fade,
    {
        self.fade
    }

    /// The destination.
    pub fn destination(&self) -> (d: LfoDestination)
        ensures
            d == self.destination,
    {
        self.destination
    }

    /// The waveform.
    pub fn waveform(&self) -> (w: Waveform)
        ensures
            w == self.waveform,
    {
        self.waveform
    }

    /// The mode.
    pub fn mode(&self) -> (m: LfoMode)
        ensures
            m == self.mode,
    {
        self.mode
    }

    /// The factor that the speed is multiplied with: the multiplier, and at
    /// least one.
    pub fn speed_factor(&self) -> (factor: i32)
        ensures
            factor == if self.multiplier < 1 {
                1
            } else {
                self.multiplier as int
            },
    {
        if self.multiplier < 1 {
            1
        } else {
            self.multiplier
        }
    }

    /// How the output fades.
    pub fn fade_motion(&self) -> (motion: Fade)
        ensures
            motion == fade_of(self.fade),
    {
        if self.fade == 0 {
            Fade::Off
        } else if self.fade < 0 {
            let wide: i64 = self.fade as i64;
            Fade::In { steps: (0 - wide) as u32 }
        } else {
            Fade::Out { steps: self.fade as u32 }
        }
    }

    /// A note starts. In the modes that follow the notes the phase goes back
    /// to the start phase. A fade in starts from silence, every other
    /// setting from full level.
    pub fn note_on(&mut self) -> (start: LfoStart)
        ensures
            *final(self) == (Lfo { triggered: true, ..*old(self) }),
            start.restart == old(self).mode.restarts(),
            start.fade_level == if old(self).fade < 0 {
                Level::Zero
            } else {
                Level::One
            },
    {
        self.triggered = true;
        let restart = match self.mode {
            LfoMode::Trigger => true,
            LfoMode::One => true,
            LfoMode::Half => true,
            _ => false,
        };
        let fade_level = if self.fade < 0 {
            Level::Zero
        } else {
            Level::One
        };
        LfoStart { restart, fade_level }
    }

    /// A note ends.
    pub fn note_off(&mut self)
        ensures
            *final(self) == (Lfo { triggered: false, ..*old(self) }),
    {
        self.triggered = false;
    }

    /// The phase has wrapped around: the random waveform draws a new value,
    /// and the one-shot modes mute the output.
    pub fn wrap(&self) -> (wrap: Wrap)
        ensures
            wrap.draw == (self.waveform is Random),
            wrap.mute == mute_of(self.mode),
    {
        let draw = match self.waveform {
            Waveform::Random => true,
            _ => false,
        };
        let mute = match self.mode {
            LfoMode::One => Mute::Always,
            LfoMode::Half => Mute::PastHalf,
            _ => Mute::Never,
        };
        Wrap { draw, mute }
    }
}

} // verus!
