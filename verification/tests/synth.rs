use synth_engine::algorithm::Channel;
use synth_engine::effects::EffectStage;
use synth_engine::envelope::{EnvelopeParam, EnvelopeState, EnvelopeTime, Level, Ratio};
use synth_engine::operator::OperatorGroup;
use synth_engine::filter::{Filter, FilterType};
use synth_engine::lfo::{
    EngineParam, Fade, FilterParam, Lfo, LfoDestination, LfoMode, LfoStart, LfoTarget, Mute,
    VoiceParam, Waveform, Wrap,
};
use synth_engine::mod_envelope::ModEnvelopeState;
use synth_engine::oscillator::WaveType;
use synth_engine::schedule::ModGroup;
use synth_engine::pool::NUM_VOICES;
use synth_engine::synth::{NoteOff, NoteOn, Synth, BLOCK};
use synth_engine::voice::VoicePhase;

fn held_ids(synth: &Synth) -> Vec<u32> {
    let mut ids: Vec<u32> = synth
        .voices()
        .iter()
        .filter_map(|voice| voice.get_note_id())
        .collect();
    ids.sort();
    ids
}

fn holders(synth: &Synth, note_id: u32) -> Vec<usize> {
    synth
        .voices()
        .iter()
        .enumerate()
        .filter(|(_, voice)| voice.holds(note_id))
        .map(|(i, _)| i)
        .collect()
}

#[test]
fn a_fresh_instrument() {
    let synth = Synth::new();
    assert_eq!(NUM_VOICES, 8);
    assert_eq!(BLOCK, 128);
    assert_eq!(synth.voices().len(), 8);
    assert_eq!(synth.algorithms().len(), 8);
    assert_eq!(synth.current_algorithm(), 0);
    assert_eq!(synth.octave_shift(), 0);
    assert!(!synth.any_active());
    assert!(!synth.any_held());
    for voice in synth.voices().iter() {
        assert_eq!(voice.phase(), VoicePhase::Idle);
        assert_eq!(voice.algorithm().modulations(), &vec![(2, 0), (1, 0), (1, 3)]);
    }
    assert_eq!(
        synth.effects_chain(),
        vec![EffectStage::Delay, EffectStage::Chorus, EffectStage::Reverb]
    );
    assert_eq!(synth.filter(Channel::Left).filter_type(), FilterType::LowPass);
    assert_eq!(synth.filter(Channel::Right).filter_type(), FilterType::LowPass);
    assert_eq!(*synth.lfo1(), Lfo::new());
    assert_eq!(*synth.lfo2(), Lfo::new());
}

#[test]
fn the_first_note_goes_to_the_first_voice() {
    let mut synth = Synth::new();
    let outcome = synth.note_on(60);
    assert_eq!(
        outcome,
        NoteOn { voice: 0, legato: false, level: Level::Zero, filter_level: Some(Level::Zero) }
    );
    assert_eq!(holders(&synth, 60), vec![0]);
    assert!(synth.any_active());
    assert!(synth.any_held());
    assert_eq!(
        synth.filter(Channel::Left).envelope().state(),
        EnvelopeState::Attack
    );
    assert_eq!(
        synth.filter(Channel::Right).envelope().state(),
        EnvelopeState::Attack
    );
    assert!(synth.filter(Channel::Left).is_dirty());
}

#[test]
fn a_second_note_is_legato_and_leaves_the_filter_alone() {
    let mut synth = Synth::new();
    synth.note_on(60);
    synth.filter_arrived(Channel::Left);
    synth.filter_arrived(Channel::Right);
    let outcome = synth.note_on(64);
    assert_eq!(
        outcome,
        NoteOn { voice: 1, legato: true, level: Level::Zero, filter_level: None }
    );
    assert_eq!(
        synth.filter(Channel::Left).envelope().state(),
        EnvelopeState::Decay
    );
    assert_eq!(
        synth.filter(Channel::Right).envelope().state(),
        EnvelopeState::Decay
    );
}

#[test]
fn the_same_note_is_retriggered_in_place() {
    let mut synth = Synth::new();
    synth.note_on(60);
    synth.note_on(64);
    synth.note_on(67);
    synth.finish_tick(1, true);
    assert_eq!(
        synth.voices()[1].amp_envelope().state(),
        EnvelopeState::Decay
    );
    let outcome = synth.note_on(64);
    assert_eq!(outcome.voice, 1);
    assert!(outcome.legato);
    assert_eq!(
        synth.voices()[1].amp_envelope().state(),
        EnvelopeState::Attack
    );
    assert_eq!(held_ids(&synth), vec![60, 64, 67]);
    assert_eq!(holders(&synth, 64), vec![1]);
}

#[test]
fn an_idle_voice_is_preferred_to_a_releasing_one() {
    let mut synth = Synth::new();
    synth.note_on(60);
    synth.note_on(64);
    synth.note_off(60);
    assert_eq!(synth.voices()[0].phase(), VoicePhase::Releasing);
    let outcome = synth.note_on(67);
    assert_eq!(outcome.voice, 2);
    assert_eq!(synth.voices()[0].phase(), VoicePhase::Releasing);
}

#[test]
fn a_releasing_voice_is_preferred_to_a_held_one() {
    let mut synth = Synth::new();
    for id in 0..8 {
        assert_eq!(synth.note_on(10 + id).voice, id as usize);
    }
    synth.note_off(15);
    assert_eq!(synth.voices()[5].phase(), VoicePhase::Releasing);
    let outcome = synth.note_on(99);
    assert_eq!(outcome.voice, 5);
    assert_eq!(held_ids(&synth), vec![10, 11, 12, 13, 14, 16, 17, 99]);
}

#[test]
fn nine_notes_on_eight_voices() {
    let mut synth = Synth::new();
    for id in 60..68 {
        let outcome = synth.note_on(id);
        assert_eq!(outcome.voice, (id - 60) as usize);
    }
    assert_eq!(held_ids(&synth), vec![60, 61, 62, 63, 64, 65, 66, 67]);
    let outcome = synth.note_on(68);
    // The voice with the smallest note id is stolen.
    assert_eq!(outcome.voice, 0);
    assert!(outcome.legato);
    let ids = held_ids(&synth);
    assert_eq!(ids, vec![61, 62, 63, 64, 65, 66, 67, 68]);
    let mut unique = ids.clone();
    unique.dedup();
    assert_eq!(unique.len(), 8);
    assert!(!synth.voices()[0].holds(60));
    assert!(synth.voices()[0].holds(68));
    assert!(holders(&synth, 60).is_empty());
    // The end of the stolen note reaches no voice.
    let off = synth.note_off(60);
    assert_eq!(off, NoteOff { voice: None, filter_released: false });
    assert_eq!(held_ids(&synth), vec![61, 62, 63, 64, 65, 66, 67, 68]);
}

#[test]
fn the_smallest_note_id_is_stolen_wherever_it_is() {
    let mut synth = Synth::new();
    let ids = [50u32, 40, 70, 30, 90, 35, 80, 60];
    for (i, id) in ids.iter().enumerate() {
        assert_eq!(synth.note_on(*id).voice, i);
    }
    assert_eq!(synth.note_on(20).voice, 3);
    assert_eq!(held_ids(&synth), vec![20, 35, 40, 50, 60, 70, 80, 90]);
    // Now 20 itself is the smallest.
    assert_eq!(synth.note_on(100).voice, 3);
    assert_eq!(synth.note_on(101).voice, 5);
    assert_eq!(held_ids(&synth), vec![40, 50, 60, 70, 80, 90, 100, 101]);
}

#[test]
fn note_on_then_note_off_returns_the_voice() {
    let mut synth = Synth::new();
    synth.set_amp_env(0, 0, 127, 0);
    let on = synth.note_on(60);
    assert_eq!(on.voice, 0);
    assert_eq!(on.level, Level::One);
    let off = synth.note_off(60);
    assert_eq!(off, NoteOff { voice: Some(0), filter_released: true });
    assert_eq!(synth.voices()[0].phase(), VoicePhase::Releasing);
    assert!(holders(&synth, 60).is_empty());
    // The release takes no time: the level arrives on the first tick.
    assert!(!synth.finish_tick(0, true));
    assert_eq!(synth.voices()[0].phase(), VoicePhase::Idle);
    assert!(!synth.any_active());
    // Idle, the voice cannot be released as the same note again.
    let again = synth.note_off(60);
    assert_eq!(again.voice, None);
    assert_eq!(synth.voices()[0].phase(), VoicePhase::Idle);
    assert_eq!(synth.voices()[0].amp_envelope().state(), EnvelopeState::Idle);
    // A new note starts it again.
    assert_eq!(synth.note_on(60).voice, 0);
    assert_eq!(synth.voices()[0].phase(), VoicePhase::Held);
}

#[test]
fn the_filter_releases_with_the_last_held_note() {
    let mut synth = Synth::new();
    synth.note_on(60);
    synth.note_on(64);
    assert_eq!(
        synth.note_off(60),
        NoteOff { voice: Some(0), filter_released: false }
    );
    assert_eq!(
        synth.filter(Channel::Left).envelope().state(),
        EnvelopeState::Attack
    );
    assert_eq!(
        synth.note_off(64),
        NoteOff { voice: Some(1), filter_released: true }
    );
    assert_eq!(
        synth.filter(Channel::Left).envelope().state(),
        EnvelopeState::Release
    );
    assert_eq!(
        synth.filter(Channel::Right).envelope().state(),
        EnvelopeState::Release
    );
    synth.filter_arrived(Channel::Left);
    assert_eq!(
        synth.filter(Channel::Left).envelope().state(),
        EnvelopeState::Idle
    );
    assert_eq!(
        synth.filter(Channel::Right).envelope().state(),
        EnvelopeState::Release
    );
}

#[test]
fn a_note_after_silence_triggers_the_filter_again() {
    let mut synth = Synth::new();
    synth.set_amp_env(0, 0, 127, 0);
    synth.note_on(60);
    synth.note_off(60);
    // While the voice fades the next note is still legato.
    assert_eq!(synth.note_on(61).filter_level, None);
    synth.note_off(61);
    synth.finish_tick(0, true);
    synth.finish_tick(1, true);
    assert!(!synth.any_active());
    assert_eq!(synth.note_on(62).filter_level, Some(Level::Zero));
}

#[test]
fn presets_by_index() {
    let mut synth = Synth::new();
    synth.set_algorithm(4);
    assert_eq!(synth.current_algorithm(), 4);
    for voice in synth.voices().iter() {
        assert_eq!(voice.algorithm().modulations(), &vec![(3, 0), (2, 1), (1, 2)]);
        assert_eq!(voice.algorithm().carriers(), &vec![0]);
        assert!(!voice.operator(0).is_modulator());
        assert!(voice.operator(1).is_modulator());
        assert!(voice.operator(2).is_modulator());
        assert!(voice.operator(3).is_modulator());
    }
    synth.set_algorithm(8);
    assert_eq!(synth.current_algorithm(), 4);
    synth.set_algorithm(usize::MAX);
    assert_eq!(synth.current_algorithm(), 4);
    for voice in synth.voices().iter() {
        assert_eq!(voice.algorithm().modulations(), &vec![(3, 0), (2, 1), (1, 2)]);
    }
    synth.set_algorithm(7);
    assert_eq!(synth.current_algorithm(), 7);
    assert_eq!(
        synth.voices()[7].algorithm().carriers(),
        &vec![0, 1]
    );
}

#[test]
fn custom_routing_from_flat_lists() {
    let mut synth = Synth::new();
    synth.set_algorithm(3);
    synth.set_custom_routing(&[3, 2, 2, 2, 9, 0, 2, 4, 1, 0, 3], &[0, 5, 2]);
    for voice in synth.voices().iter() {
        assert_eq!(voice.algorithm().modulations(), &vec![(3, 2), (2, 2), (1, 0)]);
        assert_eq!(voice.algorithm().carriers(), &vec![0, 2]);
        assert_eq!(
            voice.algorithm().output_routing(),
            &vec![(0, Channel::Left), (2, Channel::Right)]
        );
        assert!(voice.operator(1).is_modulator());
        assert!(voice.operator(3).is_modulator());
        assert!(!voice.operator(2).is_modulator());
    }
    assert_eq!(synth.current_algorithm(), 3);
    assert_eq!(synth.algorithms().len(), 8);
    synth.set_custom_routing(&[], &[]);
    assert!(synth.voices()[0].algorithm().modulations().is_empty());
    assert!(synth.voices()[0].algorithm().carriers().is_empty());
}

#[test]
fn routing_changes_leave_the_notes_alone() {
    let mut synth = Synth::new();
    synth.note_on(60);
    synth.note_on(64);
    synth.note_off(60);
    synth.set_algorithm(2);
    synth.set_custom_routing(&[0, 1], &[1]);
    assert_eq!(synth.voices()[0].phase(), VoicePhase::Releasing);
    assert_eq!(synth.voices()[1].get_note_id(), Some(64));
    assert_eq!(held_ids(&synth), vec![64]);
}

#[test]
fn octave_is_limited_to_four_either_way() {
    let mut synth = Synth::new();
    synth.set_octave(3);
    assert_eq!(synth.octave_shift(), 3);
    synth.set_octave(5);
    assert_eq!(synth.octave_shift(), 4);
    for voice in synth.voices().iter() {
        assert_eq!(voice.octave_shift(), 4);
    }
    synth.set_octave(-4);
    assert_eq!(synth.octave_shift(), -4);
    synth.set_octave(i32::MIN);
    assert_eq!(synth.octave_shift(), -4);
    synth.set_octave(i32::MAX);
    assert_eq!(synth.octave_shift(), 4);
    synth.set_octave(0);
    assert_eq!(synth.voices()[7].octave_shift(), 0);
}

#[test]
fn octave_factors() {
    let mut synth = Synth::new();
    let expected: [(i32, u64, u64); 9] = [
        (-4, 1, 16),
        (-3, 1, 8),
        (-2, 1, 4),
        (-1, 1, 2),
        (0, 1, 1),
        (1, 2, 1),
        (2, 4, 1),
        (3, 8, 1),
        (4, 16, 1),
    ];
    for (shift, numerator, denominator) in expected {
        synth.set_octave(shift);
        assert_eq!(synth.octave_factor(), Ratio { numerator, denominator });
    }
    synth.set_octave(9);
    assert_eq!(synth.octave_factor(), Ratio { numerator: 16, denominator: 1 });
    synth.set_octave(-9);
    assert_eq!(synth.octave_factor(), Ratio { numerator: 1, denominator: 16 });
}

#[test]
fn envelope_settings_reach_every_voice() {
    let mut synth = Synth::new();
    synth.note_on(60);
    synth.set_amp_env(0, 63, 255, 127);
    synth.set_operator_mod_env(3, 127, 1, 64);
    synth.set_operator_mod_env(4, 5, 5, 5);
    synth.set_operator_waveform(2, 1);
    synth.set_operator_waveform(6, 2);
    for voice in synth.voices().iter() {
        assert_eq!(voice.amp_envelope().attack(), EnvelopeTime::Instant);
        assert_eq!(voice.amp_envelope().decay(), EnvelopeTime::Steps(63));
        assert_eq!(voice.amp_envelope().sustain(), 127);
        assert_eq!(voice.amp_envelope().release(), EnvelopeTime::Forever);
        assert_eq!(voice.mod_envelope(ModGroup::B).attack(), EnvelopeTime::Forever);
        assert_eq!(voice.mod_envelope(ModGroup::B).decay(), EnvelopeTime::Steps(1));
        assert_eq!(voice.mod_envelope(ModGroup::B).end(), 64);
        assert_eq!(voice.mod_envelope(ModGroup::A).attack(), EnvelopeTime::Instant);
        assert_eq!(voice.operator(2).wave_type(), WaveType::Square);
        assert_eq!(voice.operator(0).wave_type(), WaveType::Sine);
    }
    assert_eq!(
        synth.voices()[0].amp_envelope().state(),
        EnvelopeState::Attack
    );
    assert_eq!(
        synth.voices()[0].mod_envelope(ModGroup::B).state(),
        ModEnvelopeState::Attack
    );
}

#[test]
fn events_for_voices_outside_the_pool_are_ignored() {
    let mut synth = Synth::new();
    synth.note_on(60);
    assert!(!synth.finish_tick(8, true));
    synth.mod_arrived(8, ModGroup::A);
    synth.operator_arrived(100, 0);
    synth.operator_arrived(0, 100);
    assert_eq!(held_ids(&synth), vec![60]);
    assert!(synth.finish_tick(0, false));
    synth.mod_arrived(0, ModGroup::B);
    assert_eq!(
        synth.voices()[0].mod_envelope(ModGroup::B).state(),
        ModEnvelopeState::Decay
    );
    assert_eq!(
        synth.voices()[0].mod_envelope(ModGroup::A).state(),
        ModEnvelopeState::Attack
    );
}

#[test]
fn effects_switches() {
    let mut synth = Synth::new();
    synth.set_chorus_enabled(false);
    assert_eq!(
        synth.effects_chain(),
        vec![EffectStage::Delay, EffectStage::Reverb]
    );
    synth.set_delay_enabled(false);
    assert_eq!(synth.effects_chain(), vec![EffectStage::Reverb]);
    synth.set_reverb_enabled(false);
    assert!(synth.effects_chain().is_empty());
    synth.set_chorus_enabled(true);
    assert_eq!(synth.effects_chain(), vec![EffectStage::Chorus]);
}

#[test]
fn filter_type_by_number() {
    let mut synth = Synth::new();
    synth.set_filter_type(1);
    assert_eq!(synth.filter(Channel::Left).filter_type(), FilterType::HighPass);
    assert_eq!(synth.filter(Channel::Right).filter_type(), FilterType::HighPass);
    assert!(synth.filter(Channel::Left).is_dirty());
    synth.set_filter_type(0);
    assert_eq!(synth.filter(Channel::Left).filter_type(), FilterType::LowPass);
    synth.set_filter_type(1);
    synth.set_filter_type(2);
    assert_eq!(synth.filter(Channel::Right).filter_type(), FilterType::LowPass);
    assert_eq!(FilterType::from_index(1), FilterType::HighPass);
    assert_eq!(FilterType::from_index(usize::MAX), FilterType::LowPass);
}

#[test]
fn filter_envelope_knobs() {
    let mut synth = Synth::new();
    synth.note_on(60);
    synth.set_filter_attack(0);
    synth.set_filter_decay(127);
    synth.set_filter_sustain(200);
    synth.set_filter_release(126);
    for channel in [Channel::Left, Channel::Right] {
        let envelope = synth.filter(channel).envelope();
        assert_eq!(envelope.attack(), EnvelopeTime::Instant);
        assert_eq!(envelope.decay(), EnvelopeTime::Forever);
        assert_eq!(envelope.sustain(), 127);
        assert_eq!(envelope.release(), EnvelopeTime::Steps(126));
        assert_eq!(envelope.state(), EnvelopeState::Attack);
    }
    // With an instant attack the next first note starts the filter at full
    // level.
    synth.note_off(60);
    synth.set_amp_env(0, 0, 127, 0);
    synth.finish_tick(0, true);
    assert_eq!(synth.note_on(61).filter_level, Some(Level::One));
    assert_eq!(
        synth.filter(Channel::Left).envelope().state(),
        EnvelopeState::Decay
    );
}

#[test]
fn filter_refresh_of_the_instrument() {
    let mut synth = Synth::new();
    assert!(!synth.refresh_filter(Channel::Left, false));
    synth.mark_filter_dirty();
    assert!(synth.filter(Channel::Left).is_dirty());
    assert!(synth.filter(Channel::Right).is_dirty());
    assert!(synth.refresh_filter(Channel::Left, false));
    assert!(!synth.filter(Channel::Left).is_dirty());
    assert!(synth.filter(Channel::Right).is_dirty());
    assert!(synth.refresh_filter(Channel::Right, false));
    assert!(!synth.refresh_filter(Channel::Right, false));
    assert!(synth.refresh_filter(Channel::Right, true));
}

#[test]
fn operator_envelopes_of_the_instrument() {
    let mut synth = Synth::new();
    let envelope = synth_engine::envelope::Envelope::from_digitone(0, 5, 50, 5);
    synth.set_operator_envelope(1, synth_engine::operator::AmpSource::Adsr(envelope));
    synth.set_operator_envelope(4, synth_engine::operator::AmpSource::Adsr(envelope));
    for voice in synth.voices().iter() {
        assert_eq!(voice.operator(1).trigger_level(), Level::One);
        assert_eq!(voice.operator(0).trigger_level(), Level::One);
        assert_eq!(
            voice.operator(1).motion(),
            synth_engine::envelope::Motion::Silent
        );
        assert_eq!(
            voice.operator(0).motion(),
            synth_engine::envelope::Motion::Hold
        );
    }
    let voice = synth.note_on(60).voice;
    assert_eq!(
        synth.voices()[voice].operator(1).motion(),
        synth_engine::envelope::Motion::Ramp {
            rising: false,
            time: EnvelopeTime::Steps(5),
            target: Level::Knob(50),
        }
    );
    synth.operator_arrived(voice, 1);
    assert_eq!(
        synth.voices()[voice].operator(1).motion(),
        synth_engine::envelope::Motion::Hold
    );
    synth.note_off(60);
    assert_eq!(
        synth.voices()[voice].operator(1).motion(),
        synth_engine::envelope::Motion::Ramp {
            rising: false,
            time: EnvelopeTime::Steps(5),
            target: Level::Zero,
        }
    );
}

#[test]
fn filter_coefficients_are_refreshed_when_needed() {
    let mut filter = Filter::new();
    assert!(!filter.is_dirty());
    assert!(!filter.refresh(false));
    assert!(filter.refresh(true));
    assert!(!filter.is_dirty());
    filter.mark_dirty();
    assert!(filter.is_dirty());
    assert!(filter.refresh(false));
    assert!(!filter.is_dirty());
    assert!(!filter.refresh(false));
    filter.set_type(FilterType::HighPass);
    assert!(filter.refresh(false));
    assert_eq!(filter.note_on(), Level::Zero);
    assert!(filter.is_dirty());
    assert_eq!(filter.envelope().state(), EnvelopeState::Attack);
    filter.arrive();
    assert_eq!(filter.envelope().state(), EnvelopeState::Decay);
    assert_eq!(
        filter.motion(),
        synth_engine::envelope::Motion::Ramp {
            rising: false,
            time: EnvelopeTime::Steps(13),
            target: Level::Knob(127),
        }
    );
    filter.note_off();
    assert_eq!(filter.envelope().state(), EnvelopeState::Release);
    filter.set_attack(0);
    filter.set_decay(1);
    filter.set_sustain(128);
    filter.set_release(127);
    assert_eq!(filter.envelope().attack(), EnvelopeTime::Instant);
    assert_eq!(filter.envelope().decay(), EnvelopeTime::Steps(1));
    assert_eq!(filter.envelope().sustain(), 127);
    assert_eq!(filter.envelope().release(), EnvelopeTime::Forever);
    assert_eq!(filter.envelope().state(), EnvelopeState::Release);
    assert_eq!(filter.note_on(), Level::One);
}

#[test]
fn lfo_codes() {
    let destinations = [
        LfoDestination::ModDepthA,
        LfoDestination::ModDepthB,
        LfoDestination::RatioC,
        LfoDestination::RatioA,
        LfoDestination::RatioB,
        LfoDestination::Feedback,
        LfoDestination::Harm,
        LfoDestination::CarrierMix,
        LfoDestination::AmpAttack,
        LfoDestination::AmpDecay,
        LfoDestination::AmpSustain,
        LfoDestination::AmpRelease,
        LfoDestination::Overdrive,
        LfoDestination::Pan,
        LfoDestination::Volume,
        LfoDestination::FilterAttack,
        LfoDestination::FilterDecay,
        LfoDestination::FilterSustain,
        LfoDestination::FilterRelease,
        LfoDestination::FilterCutoff,
        LfoDestination::FilterResonance,
        LfoDestination::FilterEnvAmount,
    ];
    for (code, destination) in destinations.iter().enumerate() {
        assert_eq!(LfoDestination::from_code(code as u32), *destination);
    }
    assert_eq!(LfoDestination::from_code(22), LfoDestination::ModDepthA);
    assert_eq!(LfoDestination::from_code(u32::MAX), LfoDestination::ModDepthA);
    let waveforms = [
        Waveform::Triangle,
        Waveform::Sine,
        Waveform::Square,
        Waveform::Sawtooth,
        Waveform::Exponential,
        Waveform::Ramp,
        Waveform::Random,
    ];
    for (code, waveform) in waveforms.iter().enumerate() {
        assert_eq!(Waveform::from_code(code as u32), *waveform);
    }
    assert_eq!(Waveform::from_code(7), Waveform::Triangle);
    let modes = [
        LfoMode::Free,
        LfoMode::Trigger,
        LfoMode::Hold,
        LfoMode::One,
        LfoMode::Half,
    ];
    for (code, mode) in modes.iter().enumerate() {
        assert_eq!(LfoMode::from_code(code as u32), *mode);
    }
    assert_eq!(LfoMode::from_code(5), LfoMode::Free);
}

#[test]
fn lfo_targets() {
    assert_eq!(
        LfoDestination::ModDepthA.target(),
        LfoTarget::Engine(EngineParam::ModDepthA)
    );
    assert_eq!(
        LfoDestination::ModDepthB.target(),
        LfoTarget::Engine(EngineParam::ModDepthB)
    );
    assert_eq!(
        LfoDestination::Feedback.target(),
        LfoTarget::Engine(EngineParam::Feedback)
    );
    assert_eq!(LfoDestination::Harm.target(), LfoTarget::Engine(EngineParam::Harm));
    assert_eq!(
        LfoDestination::CarrierMix.target(),
        LfoTarget::Engine(EngineParam::CarrierMix)
    );
    assert_eq!(
        LfoDestination::Overdrive.target(),
        LfoTarget::Engine(EngineParam::Overdrive)
    );
    assert_eq!(LfoDestination::Pan.target(), LfoTarget::Engine(EngineParam::Pan));
    assert_eq!(
        LfoDestination::Volume.target(),
        LfoTarget::Engine(EngineParam::Volume)
    );
    assert_eq!(
        LfoDestination::FilterCutoff.target(),
        LfoTarget::Filter(FilterParam::Cutoff)
    );
    assert_eq!(
        LfoDestination::FilterResonance.target(),
        LfoTarget::Filter(FilterParam::Resonance)
    );
    assert_eq!(
        LfoDestination::FilterEnvAmount.target(),
        LfoTarget::Filter(FilterParam::EnvAmount)
    );
    assert_eq!(
        LfoDestination::FilterAttack.target(),
        LfoTarget::Filter(FilterParam::Attack)
    );
    assert_eq!(
        LfoDestination::FilterDecay.target(),
        LfoTarget::Filter(FilterParam::Decay)
    );
    assert_eq!(
        LfoDestination::FilterSustain.target(),
        LfoTarget::Filter(FilterParam::Sustain)
    );
    assert_eq!(
        LfoDestination::FilterRelease.target(),
        LfoTarget::Filter(FilterParam::Release)
    );
    assert_eq!(
        LfoDestination::RatioA.target(),
        LfoTarget::Voice(VoiceParam::RatioA)
    );
    assert_eq!(
        LfoDestination::RatioB.target(),
        LfoTarget::Voice(VoiceParam::RatioB)
    );
    assert_eq!(
        LfoDestination::RatioC.target(),
        LfoTarget::Voice(VoiceParam::RatioC)
    );
    assert_eq!(
        LfoDestination::AmpAttack.target(),
        LfoTarget::Voice(VoiceParam::AmpAttack)
    );
    assert_eq!(
        LfoDestination::AmpDecay.target(),
        LfoTarget::Voice(VoiceParam::AmpDecay)
    );
    assert_eq!(
        LfoDestination::AmpSustain.target(),
        LfoTarget::Voice(VoiceParam::AmpSustain)
    );
    assert_eq!(
        LfoDestination::AmpRelease.target(),
        LfoTarget::Voice(VoiceParam::AmpRelease)
    );
}

#[test]
fn lfo_parameters_of_envelopes_and_ratios() {
    assert_eq!(VoiceParam::AmpAttack.envelope_param(), Some(EnvelopeParam::Attack));
    assert_eq!(VoiceParam::AmpDecay.envelope_param(), Some(EnvelopeParam::Decay));
    assert_eq!(VoiceParam::AmpSustain.envelope_param(), Some(EnvelopeParam::Sustain));
    assert_eq!(VoiceParam::AmpRelease.envelope_param(), Some(EnvelopeParam::Release));
    assert_eq!(VoiceParam::RatioA.envelope_param(), None);
    assert_eq!(VoiceParam::RatioB.envelope_param(), None);
    assert_eq!(VoiceParam::RatioC.envelope_param(), None);
    assert_eq!(VoiceParam::RatioA.ratio_group(), Some(OperatorGroup::A));
    assert_eq!(VoiceParam::RatioB.ratio_group(), Some(OperatorGroup::B));
    assert_eq!(VoiceParam::RatioC.ratio_group(), Some(OperatorGroup::C));
    assert_eq!(VoiceParam::AmpAttack.ratio_group(), None);
    assert_eq!(VoiceParam::AmpSustain.ratio_group(), None);
    assert_eq!(FilterParam::Attack.envelope_param(), Some(EnvelopeParam::Attack));
    assert_eq!(FilterParam::Decay.envelope_param(), Some(EnvelopeParam::Decay));
    assert_eq!(FilterParam::Sustain.envelope_param(), Some(EnvelopeParam::Sustain));
    assert_eq!(FilterParam::Release.envelope_param(), Some(EnvelopeParam::Release));
    assert_eq!(FilterParam::Cutoff.envelope_param(), None);
    assert_eq!(FilterParam::Resonance.envelope_param(), None);
    assert_eq!(FilterParam::EnvAmount.envelope_param(), None);
}

#[test]
fn lfo_settings_of_the_instrument() {
    let mut synth = Synth::new();
    synth.set_lfo1_multiplier(4);
    synth.set_lfo1_fade(-20);
    synth.set_lfo1_waveform(6);
    synth.set_lfo1_destination(19);
    synth.set_lfo1_mode(3);
    synth.set_lfo2_multiplier(-2);
    synth.set_lfo2_fade(63);
    synth.set_lfo2_waveform(1);
    synth.set_lfo2_destination(2);
    synth.set_lfo2_mode(4);
    assert_eq!(
        *synth.lfo1(),
        Lfo {
            multiplier: 4,
            fade: -20,
            destination: LfoDestination::FilterCutoff,
            waveform: Waveform::Random,
            mode: LfoMode::One,
            triggered: false,
        }
    );
    assert_eq!(
        *synth.lfo2(),
        Lfo {
            multiplier: -2,
            fade: 63,
            destination: LfoDestination::RatioC,
            waveform: Waveform::Sine,
            mode: LfoMode::Half,
            triggered: false,
        }
    );
    assert_eq!(
        synth.lfo_targets(),
        (
            LfoTarget::Filter(FilterParam::Cutoff),
            LfoTarget::Voice(VoiceParam::RatioC)
        )
    );
}

#[test]
fn lfo_reacts_to_notes() {
    let mut lfo = Lfo::new();
    assert_eq!(lfo.multiplier(), 1);
    assert_eq!(lfo.fade(), 0);
    assert_eq!(lfo.destination(), LfoDestination::ModDepthA);
    assert_eq!(lfo.waveform(), Waveform::Triangle);
    assert_eq!(lfo.mode(), LfoMode::Free);
    assert_eq!(
        lfo.note_on(),
        LfoStart { restart: false, fade_level: Level::One }
    );
    assert!(lfo.triggered);
    lfo.note_off();
    assert!(!lfo.triggered);
    lfo.set_mode(LfoMode::Trigger);
    lfo.set_fade(-1);
    assert_eq!(
        lfo.note_on(),
        LfoStart { restart: true, fade_level: Level::Zero }
    );
    lfo.set_mode(LfoMode::Hold);
    lfo.set_fade(1);
    assert_eq!(
        lfo.note_on(),
        LfoStart { restart: false, fade_level: Level::One }
    );
    lfo.set_mode(LfoMode::One);
    assert!(lfo.note_on().restart);
    lfo.set_mode(LfoMode::Half);
    assert!(lfo.note_on().restart);
}

#[test]
fn lfo_fade_and_speed() {
    let mut lfo = Lfo::new();
    assert_eq!(lfo.fade_motion(), Fade::Off);
    lfo.set_fade(-64);
    assert_eq!(lfo.fade_motion(), Fade::In { steps: 64 });
    lfo.set_fade(63);
    assert_eq!(lfo.fade_motion(), Fade::Out { steps: 63 });
    lfo.set_fade(i32::MIN);
    assert_eq!(lfo.fade_motion(), Fade::In { steps: 2147483648 });
    lfo.set_fade(i32::MAX);
    assert_eq!(lfo.fade_motion(), Fade::Out { steps: 2147483647 });
    assert_eq!(Fade::Off.duration(), None);
    // The longest fade of the knob is five seconds.
    assert_eq!(
        Fade::Out { steps: 63 }.duration(),
        Some(Ratio { numerator: 315, denominator: 63 })
    );
    assert_eq!(
        Fade::In { steps: 1 }.duration(),
        Some(Ratio { numerator: 5, denominator: 63 })
    );
    assert_eq!(
        Fade::In { steps: u32::MAX }.duration(),
        Some(Ratio { numerator: 21474836475, denominator: 63 })
    );
    assert_eq!(lfo.speed_factor(), 1);
    lfo.set_multiplier(0);
    assert_eq!(lfo.speed_factor(), 1);
    lfo.set_multiplier(-7);
    assert_eq!(lfo.speed_factor(), 1);
    lfo.set_multiplier(16);
    assert_eq!(lfo.speed_factor(), 16);
}

#[test]
fn lfo_wrap() {
    let mut lfo = Lfo::new();
    assert_eq!(lfo.wrap(), Wrap { draw: false, mute: Mute::Never });
    lfo.set_waveform(Waveform::Random);
    lfo.set_mode(LfoMode::One);
    assert_eq!(lfo.wrap(), Wrap { draw: true, mute: Mute::Always });
    lfo.set_waveform(Waveform::Sine);
    lfo.set_mode(LfoMode::Half);
    assert_eq!(lfo.wrap(), Wrap { draw: false, mute: Mute::PastHalf });
    lfo.set_mode(LfoMode::Trigger);
    assert_eq!(lfo.wrap(), Wrap { draw: false, mute: Mute::Never });
    lfo.set_destination(LfoDestination::Pan);
    assert_eq!(lfo.destination(), LfoDestination::Pan);
}
