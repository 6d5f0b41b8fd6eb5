//! The instrument: the pool of voices, the presets, the settings of the
//! oscillators, the filter and the effects, and what notes do to them.

use vstd::prelude::*;
use vstd::arithmetic::power2::{lemma2_to64, pow2};
use crate::algorithm::{
    custom_model, get_algorithms, preset, AlgorithmModel, Channel, FMAlgorithm, NUM_ALGORITHMS,
};
use crate::effects::{enabled_stages, EffectStage};
use crate::envelope::{clamp_knob, time_of_knob, Level, Ratio};
use crate::filter::{filter_type_of, fresh_filter, Filter, FilterModel, FilterType};
use crate::lfo::{
    destination_of_code, fresh_lfo, mode_of_code, target_of, waveform_of_code, Lfo, LfoDestination,
    LfoMode, LfoTarget, Waveform,
};
use crate::operator::AmpSource;
use crate::oscillator::wave_of_id;
use crate::pool::{
    all_amp_knobs, all_mod_knobs, all_operator_envelope, all_routed, all_shifted, all_waveform,
    allocated, any_active, any_held, distinct_notes, find_holding, find_idle, find_lowest,
    find_unheld, first_holding, none_holding, pool_view, route_all, set_amp_all, set_envelope_all,
    set_mod_all, set_waveform_all, shift_all, voices_wf, NUM_VOICES,
};
use crate::schedule::ModGroup;
use crate::voice::{FMVoice, VoiceModel};

verus! {

/// Number of stereo frames rendered at a time.
pub const BLOCK: usize = 128;

/// The octave shift limited to four octaves either way.
pub open spec fn clamp_octave(shift: i32) -> i32 {
    if shift < -4 {
        -4i32
    } else if shift > 4 {
        4i32
    } else {
        shift
    }
}

/// Mathematical content of the instrument.
pub struct SynthModel {
    pub voices: Seq<VoiceModel>,
    pub algorithms: Seq<AlgorithmModel>,
    pub current_algo: usize,
    pub octave_shift: i32,
    pub lfo1: Lfo,
    pub lfo2: Lfo,
    pub chorus_enabled: bool,
    pub delay_enabled: bool,
    pub reverb_enabled: bool,
    pub filter_l: FilterModel,
    pub filter_r: FilterModel,
}

/// The factor on the frequency that an octave shift stands for: two to the
/// power of the shift.
pub open spec fn octave_ratio(shift: i32) -> Ratio {
    if shift >= 0 {
        Ratio { numerator: pow2(shift as nat) as u64, denominator: 1 }
    } else {
        Ratio { numerator: 1, denominator: pow2((-shift) as nat) as u64 }
    }
}

/// The pairs of slots that a flat list of numbers holds: the first two
/// numbers are the first pair, the next two the second, and so on. A last
/// number without a partner is left out.
pub open spec fn pairs_of(flat: Seq<u32>) -> Seq<(usize, usize)> {
    Seq::new((flat.len() / 2) as nat, |k: int| (flat[2 * k] as usize, flat[2 * k + 1] as usize))
}

/// The slots that a list of numbers holds.
pub open spec fn slots_of(flat: Seq<u32>) -> Seq<usize> {
    Seq::new(flat.len(), |k: int| flat[k] as usize)
}

impl SynthModel {
    /// The instrument as it is built: every voice idle and routed by the
    /// first preset, the effects switched on, everything else at its first
    /// setting.
    pub open spec fn fresh() -> SynthModel {
        SynthModel {
            voices: Seq::new(NUM_VOICES as nat, |i: int| VoiceModel::fresh(preset(0))),
            algorithms: Seq::new(NUM_ALGORITHMS as nat, |i: int| preset(i)),
            current_algo: 0,
            octave_shift: 0,
            lfo1: fresh_lfo(),
            lfo2: fresh_lfo(),
            chorus_enabled: true,
            delay_enabled: true,
            reverb_enabled: true,
            filter_l: fresh_filter(),
            filter_r: fresh_filter(),
        }
    }

    /// The stages of the effects chain that are switched on, in the order
    /// in which the signal passes them.
    pub open spec fn effects_chain(self) -> Seq<EffectStage> {
        enabled_stages(self.delay_enabled, self.chorus_enabled, self.reverb_enabled)
    }

    /// The instrument with other voices.
    pub open spec fn with_voices(self, voices: Seq<VoiceModel>) -> SynthModel {
        SynthModel { voices, ..self }
    }

    /// The instrument with another voice at position `i`. A position
    /// outside the pool changes nothing.
    pub open spec fn with_voice(self, i: usize, voice: VoiceModel) -> SynthModel {
        if i < self.voices.len() {
            SynthModel { voices: self.voices.update(i as int, voice), ..self }
        } else {
            self
        }
    }

    /// Validity of the instrument: the pool is complete, every voice is
    /// valid and has the octave shift of the instrument, no two voices hold
    /// the same note, and the presets are in place.
    pub open spec fn wf(self) -> bool {
        &&& self.voices.len() == NUM_VOICES
        &&& voices_wf(self.voices)
        &&& distinct_notes(self.voices)
        &&& forall|i: int|
            0 <= i < self.voices.len() ==> (#[trigger] self.voices[i]).octave_shift
                == self.octave_shift
        &&& self.algorithms.len() == NUM_ALGORITHMS
        &&& forall|i: int| 0 <= i < NUM_ALGORITHMS ==> #[trigger] self.algorithms[i] == preset(i)
        &&& self.current_algo < NUM_ALGORITHMS
        &&& -4 <= self.octave_shift <= 4
        &&& self.filter_l.wf()
        &&& self.filter_r.wf()
    }
}

/// What became of a new note.
#[derive(Clone, Copy, Debug, PartialEq, Eq, Structural)]
pub struct NoteOn {
    /// The voice that sounds the note.
    pub voice: usize,
    /// Some voice was sounding already when the note arrived: the pitch
    /// glides from the previous note.
    pub legato: bool,
    /// The level from which the amplitude envelope of the voice starts.
    pub level: Level,
    /// The level from which the envelope of the filter starts, if the note
    /// triggered it.
    pub filter_level: Option<Level>,
}

/// What became of the end of a note.
#[derive(Clone, Copy, Debug, PartialEq, Eq, Structural)]
pub struct NoteOff {
    /// The voice that held the note, if any did.
    pub voice: Option<usize>,
    /// No voice holds a note any more: the envelope of the filter releases.
    pub filter_released: bool,
}

/// The instrument.
#[derive(Clone, Debug)]
pub struct Synth {
    voices: Vec<FMVoice>,
    algorithms: Vec<FMAlgorithm>,
    current_algo: usize,
    octave_shift: i32,
    lfo1: Lfo,
    lfo2: Lfo,
    chorus_enabled: bool,
    delay_enabled: bool,
    reverb_enabled: bool,
    filter_l: Filter,
    filter_r: Filter,
}

impl View for Synth {
    type V = SynthModel;

    closed spec fn view(&self) -> SynthModel {
        SynthModel {
            voices: pool_view(self.voices@),
            algorithms: self.algorithms@.map_values(|algorithm: FMAlgorithm| algorithm@),
            current_algo: self.current_algo,
            octave_shift: self.octave_shift,
            lfo1: self.lfo1,
            lfo2: self.lfo2,
            chorus_enabled: self.chorus_enabled,
            delay_enabled: self.delay_enabled,
            reverb_enabled: self.reverb_enabled,
            filter_l: self.filter_l@,
            filter_r: self.filter_r@,
        }
    }
}

impl Synth {
    /// Validity of the instrument.
    pub open spec fn wf(&self) -> bool {
        self@.wf()
    }

    /// Starts the note `note_id`.
    ///
    /// The note goes to the voice that holds it already, else to the first
    /// idle voice, else to the first releasing voice, else to the voice that
    /// holds the smallest note id, which loses its note. The envelope of the
    /// filter is triggered only if no voice was sounding.
    pub fn note_on(&mut self, note_id: u32) -> (outcome: NoteOn)
        requires
            old(self).wf(),
        ensures
            final(self).wf(),
            allocated(old(self)@.voices, note_id, outcome.voice as int),
            outcome.legato == any_active(old(self)@.voices),
            outcome.level == old(self)@.voices[outcome.voice as int].amp.triggered_level(),
            outcome.filter_level == if outcome.legato {
                None
            } else {
                Some(old(self)@.filter_l.envelope.triggered_level())
            },
            final(self)@ == (SynthModel {
                voices: old(self)@.voices.update(
                    outcome.voice as int,
                    old(self)@.voices[outcome.voice as int].triggered(note_id),
                ),
                filter_l: if outcome.legato {
                    old(self)@.filter_l
                } else {
                    old(self)@.filter_l.triggered()
                },
                filter_r: if outcome.legato {
                    old(self)@.filter_r
                } else {
                    old(self)@.filter_r.triggered()
                },
                ..old(self)@
            }),
    {
        let voice = match find_holding(&self.voices, note_id) {
            Some(i) => i,
            None => match find_idle(&self.voices) {
                Some(i) => i,
                None => match find_unheld(&self.voices) {
                    Some(i) => i,
                    None => find_lowest(&self.voices),
                },
            },
        };
        let legato = self.any_active();
        let level = self.voices[voice].note_on(note_id);
        let filter_level = if legato {
            None
        } else {
            let left = self.filter_l.note_on();
            let _ = self.filter_r.note_on();
            Some(left)
        };
        assert(self@.voices =~= old(self)@.voices.update(
            voice as int,
            old(self)@.voices[voice as int].triggered(note_id),
        ));
        NoteOn { voice, legato, level, filter_level }
    }

    /// Whether some voice sounds.
    pub fn any_active(&self) -> (found: bool)
        ensures
            found == any_active(self@.voices),
    {
        let mut i: usize = 0;
        while i < self.voices.len()
            invariant
                i <= self.voices@.len(),
                forall|j: int| 0 <= j < i ==> !(#[trigger] self@.voices[j]).active,
            decreases self.voices@.len() - i,
        {
            if self.voices[i].is_active() {
                assert(self@.voices[i as int].active);
                return true;
            }
            i += 1;
        }
        false
    }

    /// Whether some voice holds a note.
    pub fn any_held(&self) -> (found: bool)
        ensures
            found == any_held(self@.voices),
    {
        let mut i: usize = 0;
        while i < self.voices.len()
            invariant
                i <= self.voices@.len(),
                forall|j: int| 0 <= j < i ==> (#[trigger] self@.voices[j]).note_id is None,
            decreases self.voices@.len() - i,
        {
            if self.voices[i].is_held() {
                assert(self@.voices[i as int].note_id is Some);
                return true;
            }
            i += 1;
        }
        false
    }

    /// The instrument with all voices idle.
    pub fn new() -> (synth: Synth)
        ensures
            synth.wf(),
            synth@ == SynthModel::fresh(),
    {
        let algorithms = get_algorithms();
        let mut voices: Vec<FMVoice> = Vec::new();
        let mut i: usize = 0;
        while i < NUM_VOICES
            invariant
                i <= NUM_VOICES,
                voices@.len() == i,
                algorithms@.len() == NUM_ALGORITHMS,
                algorithms@[0].wf(),
                algorithms@[0]@ == preset(0),
                forall|j: int|
                    0 <= j < i ==> (#[trigger] voices@[j])@ == VoiceModel::fresh(preset(0))
                        && voices@[j].wf(),
            decreases NUM_VOICES - i,
        {
            voices.push(FMVoice::new(algorithms[0].duplicate()));
            i += 1;
        }
        let synth = Synth {
            voices,
            algorithms,
            current_algo: 0,
            octave_shift: 0,
            lfo1: Lfo::new(),
            lfo2: Lfo::new(),
            chorus_enabled: true,
            delay_enabled: true,
            reverb_enabled: true,
            filter_l: Filter::new(),
            filter_r: Filter::new(),
        };
        assert(synth@.voices =~= SynthModel::fresh().voices);
        assert(synth@.algorithms =~= SynthModel::fresh().algorithms);
        synth
    }

    /// Ends the note `note_id`. Only the voice that holds this very note
    /// reacts; where the note has lost its voice, nothing happens to the
    /// voices. When no voice holds a note afterwards, the envelope of the
    /// filter releases.
    pub fn note_off(&mut self, note_id: u32) -> (outcome: NoteOff)
        requires
            old(self).wf(),
        ensures
            final(self).wf(),
            match outcome.voice {
                Some(i) => first_holding(old(self)@.voices, note_id, i as int),
                None => none_holding(old(self)@.voices, note_id),
            },
            outcome.filter_released == !any_held(final(self)@.voices),
            final(self)@ == (SynthModel {
                voices: match outcome.voice {
                    Some(i) => old(self)@.voices.update(
                        i as int,
                        old(self)@.voices[i as int].released(),
                    ),
                    None => old(self)@.voices,
                },
                filter_l: if outcome.filter_released {
                    old(self)@.filter_l.released()
                } else {
                    old(self)@.filter_l
                },
                filter_r: if outcome.filter_released {
                    old(self)@.filter_r.released()
                } else {
                    old(self)@.filter_r
                },
                ..old(self)@
            }),
    {
        let voice = find_holding(&self.voices, note_id);
        match voice {
            Some(i) => {
                let _ = self.voices[i].note_off(note_id);
                assert(self@.voices =~= old(self)@.voices.update(
                    i as int,
                    old(self)@.voices[i as int].released(),
                ));
            },
            None => {
                assert(self@.voices =~= old(self)@.voices);
            },
        }
        let filter_released = !self.any_held();
        if filter_released {
            self.filter_l.note_off();
            self.filter_r.note_off();
        }
        NoteOff { voice, filter_released }
    }

    /// Installs the preset with the given index on every voice. An index
    /// that names no preset is ignored.
    pub fn set_algorithm(&mut self, idx: usize)
        requires
            old(self).wf(),
        ensures
            final(self).wf(),
            final(self)@ == if idx < NUM_ALGORITHMS {
                SynthModel {
                    voices: all_routed(old(self)@.voices, preset(idx as int)),
                    current_algo: idx,
                    ..old(self)@
                }
            } else {
                old(self)@
            },
    {
        if idx >= self.algorithms.len() {
            return;
        }
        assert(self@.algorithms[idx as int] == preset(idx as int));
        let algorithm = self.algorithms[idx].duplicate();
        route_all(&mut self.voices, &algorithm);
        self.current_algo = idx;
    }

    /// Installs a routing drawn by the user on every voice. `mod_flat`
    /// holds the edges as pairs of source and destination, `carrier_flat`
    /// the carriers. Whatever names a slot that does not exist is ignored.
    /// The presets and the index of the current preset stay as they are.
    pub fn set_custom_routing(&mut self, mod_flat: &[u32], carrier_flat: &[u32])
        requires
            old(self).wf(),
        ensures
            final(self).wf(),
            final(self)@ == old(self)@.with_voices(
                all_routed(
                    old(self)@.voices,
                    custom_model(pairs_of(mod_flat@), slots_of(carrier_flat@)),
                ),
            ),
    {
        let mut modulations: Vec<(usize, usize)> = Vec::new();
        let pairs = mod_flat.len() / 2;
        let mut k: usize = 0;
        while k < pairs
            invariant
                k <= pairs,
                pairs == mod_flat@.len() / 2,
                2 * pairs <= mod_flat@.len() <= usize::MAX,
                modulations@.len() == k,
                forall|j: int| 0 <= j < k ==> #[trigger] modulations@[j] == pairs_of(mod_flat@)[j],
            decreases pairs - k,
        {
            modulations.push((mod_flat[2 * k] as usize, mod_flat[2 * k + 1] as usize));
            k += 1;
        }
        assert(modulations@ =~= pairs_of(mod_flat@));
        let mut carriers: Vec<usize> = Vec::new();
        let mut k: usize = 0;
        while k < carrier_flat.len()
            invariant
                k <= carrier_flat@.len(),
                carriers@.len() == k,
                forall|j: int| 0 <= j < k ==> #[trigger] carriers@[j] == slots_of(carrier_flat@)[j],
            decreases carrier_flat@.len() - k,
        {
            carriers.push(carrier_flat[k] as usize);
            k += 1;
        }
        assert(carriers@ =~= slots_of(carrier_flat@));
        let algorithm = FMAlgorithm::custom(modulations, carriers);
        route_all(&mut self.voices, &algorithm);
    }

    /// Sets the octave shift of every voice, limited to four octaves either
    /// way.
    pub fn set_octave(&mut self, shift: i32)
        requires
            old(self).wf(),
        ensures
            final(self).wf(),
            final(self)@ == (SynthModel {
                voices: all_shifted(old(self)@.voices, clamp_octave(shift)),
                octave_shift: clamp_octave(shift),
                ..old(self)@
            }),
    {
        let s: i32 = if shift < -4 {
            -4
        } else if shift > 4 {
            4
        } else {
            shift
        };
        self.octave_shift = s;
        shift_all(&mut self.voices, s);
    }

    /// Replaces, on every voice, the settings of the modulation envelope
    /// that shapes the group of the operator in `op_index`. A slot that
    /// does not exist is ignored.
    pub fn set_operator_mod_env(&mut self, op_index: usize, attack: u32, decay: u32, end: u32)
        requires
            old(self).wf(),
        ensures
            final(self).wf(),
            final(self)@ == old(self)@.with_voices(
                all_mod_knobs(old(self)@.voices, op_index, attack, decay, end),
            ),
    {
        set_mod_all(&mut self.voices, op_index, attack, decay, end);
    }

    /// Replaces the settings of the amplitude envelope of every voice. The
    /// envelopes keep their state and their level.
    pub fn set_amp_env(&mut self, attack: u8, decay: u8, sustain: u8, release: u8)
        requires
            old(self).wf(),
        ensures
            final(self).wf(),
            final(self)@ == old(self)@.with_voices(
                all_amp_knobs(old(self)@.voices, attack, decay, sustain, release),
            ),
    {
        set_amp_all(&mut self.voices, attack, decay, sustain, release);
    }

    /// Sets the waveform of the operator in `op_index` on every voice. A
    /// slot that does not exist is ignored.
    pub fn set_operator_waveform(&mut self, op_index: usize, wave_type_id: u8)
        requires
            old(self).wf(),
        ensures
            final(self).wf(),
            final(self)@ == old(self)@.with_voices(
                all_waveform(old(self)@.voices, op_index, wave_of_id(wave_type_id)),
            ),
    {
        set_waveform_all(&mut self.voices, op_index, wave_type_id);
    }

    /// Replaces the amplitude source of the operator in `op_index` on every
    /// voice. A slot that does not exist is ignored.
    pub fn set_operator_envelope(&mut self, op_index: usize, envelope: AmpSource)
        requires
            old(self).wf(),
        ensures
            final(self).wf(),
            final(self)@ == old(self)@.with_voices(
                all_operator_envelope(old(self)@.voices, op_index, envelope@),
            ),
    {
        set_envelope_all(&mut self.voices, op_index, envelope);
    }

    /// Sets the type of both channels of the filter.
    pub fn set_filter_type(&mut self, ty: usize)
        ensures
            old(self).wf() ==> final(self).wf(),
            final(self)@ == (SynthModel {
                filter_l: old(self)@.filter_l.with_type(filter_type_of(ty)),
                filter_r: old(self)@.filter_r.with_type(filter_type_of(ty)),
                ..old(self)@
            }),
    {
        let ft = FilterType::from_index(ty);
        self.filter_l.set_type(ft);
        self.filter_r.set_type(ft);
    }

    /// Sets the attack time of the envelope of both channels of the filter
    /// from a knob.
    pub fn set_filter_attack(&mut self, knob: u8)
        ensures
            old(self).wf() ==> final(self).wf(),
            final(self)@ == (SynthModel {
                filter_l: old(self)@.filter_l.with_envelope_settings(
                    time_of_knob(knob as nat),
                    old(self)@.filter_l.envelope.decay,
                    old(self)@.filter_l.envelope.sustain,
                    old(self)@.filter_l.envelope.release,
                ),
                filter_r: old(self)@.filter_r.with_envelope_settings(
                    time_of_knob(knob as nat),
                    old(self)@.filter_r.envelope.decay,
                    old(self)@.filter_r.envelope.sustain,
                    old(self)@.filter_r.envelope.release,
                ),
                ..old(self)@
            }),
    {
        self.filter_l.set_attack(knob);
        self.filter_r.set_attack(knob);
    }

    /// Sets the decay time of the envelope of both channels of the filter
    /// from a knob.
    pub fn set_filter_decay(&mut self, knob: u8)
        ensures
            old(self).wf() ==> final(self).wf(),
            final(self)@ == (SynthModel {
                filter_l: old(self)@.filter_l.with_envelope_settings(
                    old(self)@.filter_l.envelope.attack,
                    time_of_knob(knob as nat),
                    old(self)@.filter_l.envelope.sustain,
                    old(self)@.filter_l.envelope.release,
                ),
                filter_r: old(self)@.filter_r.with_envelope_settings(
                    old(self)@.filter_r.envelope.attack,
                    time_of_knob(knob as nat),
                    old(self)@.filter_r.envelope.sustain,
                    old(self)@.filter_r.envelope.release,
                ),
                ..old(self)@
            }),
    {
        self.filter_l.set_decay(knob);
        self.filter_r.set_decay(knob);
    }

    /// Sets the sustain level of the envelope of both channels of the
    /// filter from a knob.
    pub fn set_filter_sustain(&mut self, knob: u8)
        ensures
            old(self).wf() ==> final(self).wf(),
            final(self)@ == (SynthModel {
                filter_l: old(self)@.filter_l.with_envelope_settings(
                    old(self)@.filter_l.envelope.attack,
                    old(self)@.filter_l.envelope.decay,
                    clamp_knob(knob as nat),
                    old(self)@.filter_l.envelope.release,
                ),
                filter_r: old(self)@.filter_r.with_envelope_settings(
                    old(self)@.filter_r.envelope.attack,
                    old(self)@.filter_r.envelope.decay,
                    clamp_knob(knob as nat),
                    old(self)@.filter_r.envelope.release,
                ),
                ..old(self)@
            }),
    {
        self.filter_l.set_sustain(knob);
        self.filter_r.set_sustain(knob);
    }

    /// Sets the release time of the envelope of both channels of the filter
    /// from a knob.
    pub fn set_filter_release(&mut self, knob: u8)
        ensures
            old(self).wf() ==> final(self).wf(),
            final(self)@ == (SynthModel {
                filter_l: old(self)@.filter_l.with_envelope_settings(
                    old(self)@.filter_l.envelope.attack,
                    old(self)@.filter_l.envelope.decay,
                    old(self)@.filter_l.envelope.sustain,
                    time_of_knob(knob as nat),
                ),
                filter_r: old(self)@.filter_r.with_envelope_settings(
                    old(self)@.filter_r.envelope.attack,
                    old(self)@.filter_r.envelope.decay,
                    old(self)@.filter_r.envelope.sustain,
                    time_of_knob(knob as nat),
                ),
                ..old(self)@
            }),
    {
        self.filter_l.set_release(knob);
        self.filter_r.set_release(knob);
    }

    /// A setting that the coefficients of the filter depend on has changed.
    pub fn mark_filter_dirty(&mut self)
        ensures
            old(self).wf() ==> final(self).wf(),
            final(self)@ == (SynthModel {
                filter_l: old(self)@.filter_l.marked_dirty(),
                filter_r: old(self)@.filter_r.marked_dirty(),
                ..old(self)@
            }),
    {
        self.filter_l.mark_dirty();
        self.filter_r.mark_dirty();
    }

    /// Decides, once per sample and channel, whether the coefficients of
    /// the filter have to be computed anew: they have if a setting has
    /// changed or if the level of the envelope has moved. They count as up
    /// to date afterwards.
    pub fn refresh_filter(&mut self, channel: Channel, level_moved: bool) -> (recompute: bool)
        ensures
            old(self).wf() ==> final(self).wf(),
            recompute == match channel {
                Channel::Left => old(self)@.filter_l.needs_refresh(level_moved),
                Channel::Right => old(self)@.filter_r.needs_refresh(level_moved),
            },
            final(self)@ == match channel {
                Channel::Left => SynthModel {
                    filter_l: old(self)@.filter_l.refreshed(),
                    ..old(self)@
                },
                Channel::Right => SynthModel {
                    filter_r: old(self)@.filter_r.refreshed(),
                    ..old(self)@
                },
            },
    {
        match channel {
            Channel::Left => self.filter_l.refresh(level_moved),
            Channel::Right => self.filter_r.refresh(level_moved),
        }
    }

    /// Switches the chorus on or off.
    pub fn set_chorus_enabled(&mut self, on: bool)
        ensures
            old(self).wf() ==> final(self).wf(),
            final(self)@ == (SynthModel { chorus_enabled: on, ..old(self)@ }),
    {
        self.chorus_enabled = on;
    }

    /// Switches the delay on or off.
    pub fn set_delay_enabled(&mut self, on: bool)
        ensures
            old(self).wf() ==> final(self).wf(),
            final(self)@ == (SynthModel { delay_enabled: on, ..old(self)@ }),
    {
        self.delay_enabled = on;
    }

    /// Switches the reverb on or off.
    pub fn set_reverb_enabled(&mut self, on: bool)
        ensures
            old(self).wf() ==> final(self).wf(),
            final(self)@ == (SynthModel { reverb_enabled: on, ..old(self)@ }),
    {
        self.reverb_enabled = on;
    }

    /// The stages of the effects chain that are switched on, in the order
    /// in which the signal passes them: delay, chorus, reverb.
    pub fn effects_chain(&self) -> (chain: Vec<EffectStage>)
        ensures
            chain@ == self@.effects_chain(),
    {
        let mut chain: Vec<EffectStage> = Vec::new();
        if self.delay_enabled {
            chain.push(EffectStage::Delay);
        }
        if self.chorus_enabled {
            chain.push(EffectStage::Chorus);
        }
        if self.reverb_enabled {
            chain.push(EffectStage::Reverb);
        }
        assert(chain@ =~= self@.effects_chain());
        chain
    }

    /// Sets the speed factor of the first oscillator.
    pub fn set_lfo1_multiplier(&mut self, m: i32)
        ensures
            old(self).wf() ==> final(self).wf(),
            final(self)@ == (SynthModel {
                lfo1: Lfo { multiplier: m, ..old(self)@.lfo1 },
                ..old(self)@
            }),
    {
        self.lfo1.set_multiplier(m);
    }

    /// Sets the fade of the first oscillator.
    pub fn set_lfo1_fade(&mut self, f: i32)
        ensures
            old(self).wf() ==> final(self).wf(),
            final(self)@ == (SynthModel { lfo1: Lfo { fade: f, ..old(self)@.lfo1 }, ..old(self)@ }),
    {
        self.lfo1.set_fade(f);
    }

    /// Sets the waveform of the first oscillator by its number.
    pub fn set_lfo1_waveform(&mut self, w: u32)
        ensures
            old(self).wf() ==> final(self).wf(),
            final(self)@ == (SynthModel {
                lfo1: Lfo { waveform: waveform_of_code(w), ..old(self)@.lfo1 },
                ..old(self)@
            }),
    {
        self.lfo1.set_waveform(Waveform::from_code(w));
    }

    /// Sets the destination of the first oscillator by its number.
    pub fn set_lfo1_destination(&mut self, d: u32)
        ensures
            old(self).wf() ==> final(self).wf(),
            final(self)@ == (SynthModel {
                lfo1: Lfo { destination: destination_of_code(d), ..old(self)@.lfo1 },
                ..old(self)@
            }),
    {
        self.lfo1.set_destination(LfoDestination::from_code(d));
    }

    /// Sets the mode of the first oscillator by its number.
    pub fn set_lfo1_mode(&mut self, m: u32)
        ensures
            old(self).wf() ==> final(self).wf(),
            final(self)@ == (SynthModel {
                lfo1: Lfo { mode: mode_of_code(m), ..old(self)@.lfo1 },
                ..old(self)@
            }),
    {
        self.lfo1.set_mode(LfoMode::from_code(m));
    }

    /// Sets the speed factor of the second oscillator.
    pub fn set_lfo2_multiplier(&mut self, m: i32)
        ensures
            old(self).wf() ==> final(self).wf(),
            final(self)@ == (SynthModel {
                lfo2: Lfo { multiplier: m, ..old(self)@.lfo2 },
                ..old(self)@
            }),
    {
        self.lfo2.set_multiplier(m);
    }

    /// Sets the fade of the second oscillator.
    pub fn set_lfo2_fade(&mut self, f: i32)
        ensures
            old(self).wf() ==> final(self).wf(),
            final(self)@ == (SynthModel { lfo2: Lfo { fade: f, ..old(self)@.lfo2 }, ..old(self)@ }),
    {
        self.lfo2.set_fade(f);
    }

    /// Sets the waveform of the second oscillator by its number.
    pub fn set_lfo2_waveform(&mut self, w: u32)
        ensures
            old(self).wf() ==> final(self).wf(),
            final(self)@ == (SynthModel {
                lfo2: Lfo { waveform: waveform_of_code(w), ..old(self)@.lfo2 },
                ..old(self)@
            }),
    {
        self.lfo2.set_waveform(Waveform::from_code(w));
    }

    /// Sets the destination of the second oscillator by its number.
    pub fn set_lfo2_destination(&mut self, d: u32)
        ensures
            old(self).wf() ==> final(self).wf(),
            final(self)@ == (SynthModel {
                lfo2: Lfo { destination: destination_of_code(d), ..old(self)@.lfo2 },
                ..old(self)@
            }),
    {
        self.lfo2.set_destination(LfoDestination::from_code(d));
    }

    /// Sets the mode of the second oscillator by its number.
    pub fn set_lfo2_mode(&mut self, m: u32)
        ensures
            old(self).wf() ==> final(self).wf(),
            final(self)@ == (SynthModel {
                lfo2: Lfo { mode: mode_of_code(m), ..old(self)@.lfo2 },
                ..old(self)@
            }),
    {
        self.lfo2.set_mode(LfoMode::from_code(m));
    }

    /// Where the values of the two oscillators are added on the next block.
    pub fn lfo_targets(&self) -> (targets: (LfoTarget, LfoTarget))
        ensures
            targets.0 == target_of(self@.lfo1.destination),
            targets.1 == target_of(self@.lfo2.destination),
    {
        (self.lfo1.destination().target(), self.lfo2.destination().target())
    }

    /// Ends a tick of the voice at position `voice`. `amp_arrived` tells
    /// whether the level of its amplitude envelope has arrived at the
    /// target of its segment. A voice whose envelope has come to rest is
    /// free again. The result tells whether the voice still sounds. A
    /// position outside the pool is ignored and does not sound.
    pub fn finish_tick(&mut self, voice: usize, amp_arrived: bool) -> (sounding: bool)
        requires
            old(self).wf(),
        ensures
            final(self).wf(),
            final(self)@ == old(self)@.with_voice(
                voice,
                old(self)@.voices[voice as int].finished(amp_arrived),
            ),
            sounding == (voice < NUM_VOICES && final(self)@.voices[voice as int].active),
    {
        if voice >= self.voices.len() {
            return false;
        }
        assert(self@.voices[voice as int].wf());
        let sounding = self.voices[voice].finish_tick(amp_arrived);
        assert(self@.voices =~= old(self)@.voices.update(
            voice as int,
            old(self)@.voices[voice as int].finished(amp_arrived),
        ));
        sounding
    }

    /// The level of the modulation envelope of a group has arrived at the
    /// target of its segment on the voice at position `voice`. A position
    /// outside the pool is ignored.
    pub fn mod_arrived(&mut self, voice: usize, group: ModGroup)
        requires
            old(self).wf(),
        ensures
            final(self).wf(),
            final(self)@ == old(self)@.with_voice(
                voice,
                old(self)@.voices[voice as int].mod_arrived(group),
            ),
    {
        if voice < self.voices.len() {
            assert(self@.voices[voice as int].wf());
            self.voices[voice].mod_arrived(group);
            assert(self@.voices =~= old(self)@.voices.update(
                voice as int,
                old(self)@.voices[voice as int].mod_arrived(group),
            ));
        }
    }

    /// The level of the amplitude source of the operator in `slot` has
    /// arrived at the target of its segment on the voice at position
    /// `voice`. A position outside the pool is ignored, and so is a slot
    /// that does not exist.
    pub fn operator_arrived(&mut self, voice: usize, slot: usize)
        requires
            old(self).wf(),
        ensures
            final(self).wf(),
            final(self)@ == old(self)@.with_voice(
                voice,
                old(self)@.voices[voice as int].operator_arrived(slot),
            ),
    {
        if voice < self.voices.len() {
            assert(self@.voices[voice as int].wf());
            self.voices[voice].operator_arrived(slot);
            assert(self@.voices =~= old(self)@.voices.update(
                voice as int,
                old(self)@.voices[voice as int].operator_arrived(slot),
            ));
        }
    }

    /// The level of the envelope of one channel of the filter has arrived
    /// at the target of its segment.
    pub fn filter_arrived(&mut self, channel: Channel)
        ensures
            old(self).wf() ==> final(self).wf(),
            final(self)@ == match channel {
                Channel::Left => SynthModel {
                    filter_l: old(self)@.filter_l.arrived(),
                    ..old(self)@
                },
                Channel::Right => SynthModel {
                    filter_r: old(self)@.filter_r.arrived(),
                    ..old(self)@
                },
            },
    {
        match channel {
            Channel::Left => self.filter_l.arrive(),
            Channel::Right => self.filter_r.arrive(),
        }
    }

    /// The voices of the pool.
    pub fn voices(&self) -> (voices: &Vec<FMVoice>)
        ensures
            pool_view(voices@) == self@.voices,
    {
        &self.voices
    }

    /// The preset algorithms.
    pub fn algorithms(&self) -> (algorithms: &Vec<FMAlgorithm>)
        ensures
            algorithms@.len() == self@.algorithms.len(),
            forall|i: int|
                0 <= i < algorithms@.len() ==> (#[trigger] algorithms@[i])@ == self@.algorithms[i],
    {
        &self.algorithms
    }

    /// The index of the preset that was installed last.
    pub fn current_algorithm(&self) -> (idx: usize)
        ensures
            idx == self@.current_algo,
    {
        self.current_algo
    }

    /// The octave shift.
    pub fn octave_shift(&self) -> (shift: i32)
        ensures
            shift == self@.octave_shift,
    {
        self.octave_shift
    }

    /// The factor on the frequency of every note that the octave shift
    /// stands for.
    pub fn octave_factor(&self) -> (factor: Ratio)
        requires
            self.wf(),
        ensures
            factor == octave_ratio(self@.octave_shift),
    {
        proof {
            lemma2_to64();
        }
        let shift: i32 = self.octave_shift;
        let distance: i32 = if shift < 0 {
            0 - shift
        } else {
            shift
        };
        let power: u64 = if distance == 0 {
            1
        } else if distance == 1 {
            2
        } else if distance == 2 {
            4
        } else if distance == 3 {
            8
        } else {
            16
        };
        if shift >= 0 {
            Ratio { numerator: power, denominator: 1 }
        } else {
            Ratio { numerator: 1, denominator: power }
        }
    }

    /// The settings of the first oscillator.
    pub fn lfo1(&self) -> (lfo: &Lfo)
        ensures
            *lfo == self@.lfo1,
    {
        &self.lfo1
    }

    /// The settings of the second oscillator.
    pub fn lfo2(&self) -> (lfo: &Lfo)
        ensures
            *lfo == self@.lfo2,
    {
        &self.lfo2
    }

    /// The control state of one channel of the filter.
    pub fn filter(&self, channel: Channel) -> (filter: &Filter)
        ensures
            filter@ == match channel {
                Channel::Left => self@.filter_l,
                Channel::Right => self@.filter_r,
            },
    {
        match channel {
            Channel::Left => &self.filter_l,
            Channel::Right => &self.filter_r,
        }
    }
}

} // verus!
