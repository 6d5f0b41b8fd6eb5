use synth_engine::algorithm::{get_algorithms, FMAlgorithm};
use synth_engine::envelope::{EnvelopeState, EnvelopeTime, Level, Motion};
use synth_engine::mod_envelope::ModEnvelopeState;
use synth_engine::operator::{AmpSource, FMOperator, OperatorGroup};
use synth_engine::noop_envelope::NoopEnvelope;
use synth_engine::oscillator::WaveType;
use synth_engine::schedule::ModGroup;
use synth_engine::voice::{FMVoice, VoicePhase};

fn fresh() -> FMVoice {
    FMVoice::new(get_algorithms()[0].duplicate())
}

#[test]
fn a_fresh_voice_is_idle() {
    let voice = fresh();
    assert!(!voice.is_active());
    assert!(!voice.is_held());
    assert_eq!(voice.get_note_id(), None);
    assert_eq!(voice.phase(), VoicePhase::Idle);
    assert_eq!(voice.octave_shift(), 0);
    assert_eq!(voice.amp_envelope().state(), EnvelopeState::Idle);
    assert_eq!(voice.mod_envelope(ModGroup::A).state(), ModEnvelopeState::Idle);
    assert_eq!(voice.mod_envelope(ModGroup::B).state(), ModEnvelopeState::Idle);
    assert_eq!(voice.algorithm().modulations(), &vec![(2, 0), (1, 0), (1, 3)]);
    for slot in 0..4 {
        assert_eq!(voice.operator(slot).wave_type(), WaveType::Sine);
        assert_eq!(voice.operator(slot).motion(), Motion::Hold);
    }
    // In the first preset slots 1 and 2 modulate and slots 0 and 3 are heard.
    assert!(!voice.operator(0).is_modulator());
    assert!(voice.operator(1).is_modulator());
    assert!(voice.operator(2).is_modulator());
    assert!(!voice.operator(3).is_modulator());
}

#[test]
fn a_voice_lives_from_idle_to_held_to_releasing_to_idle() {
    let mut voice = fresh();
    assert_eq!(voice.note_on(60), Level::Zero);
    assert_eq!(voice.phase(), VoicePhase::Held);
    assert!(voice.is_active());
    assert!(voice.holds(60));
    assert!(!voice.holds(61));
    assert_eq!(voice.amp_envelope().state(), EnvelopeState::Attack);
    assert_eq!(voice.mod_envelope(ModGroup::A).state(), ModEnvelopeState::Attack);
    assert_eq!(voice.mod_envelope(ModGroup::B).state(), ModEnvelopeState::Attack);

    assert!(voice.finish_tick(false));
    assert!(voice.finish_tick(true));
    assert_eq!(voice.amp_envelope().state(), EnvelopeState::Decay);
    assert!(voice.finish_tick(true));
    assert_eq!(voice.amp_envelope().state(), EnvelopeState::Sustain);
    assert!(voice.finish_tick(true));
    assert_eq!(voice.phase(), VoicePhase::Held);

    assert!(voice.note_off(60));
    assert_eq!(voice.phase(), VoicePhase::Releasing);
    assert!(voice.is_active());
    assert!(!voice.is_held());
    assert_eq!(voice.get_note_id(), None);
    assert_eq!(voice.amp_envelope().state(), EnvelopeState::Release);
    assert_eq!(voice.mod_envelope(ModGroup::A).state(), ModEnvelopeState::Idle);
    assert_eq!(voice.mod_envelope(ModGroup::B).state(), ModEnvelopeState::Idle);

    assert!(voice.finish_tick(false));
    assert_eq!(voice.phase(), VoicePhase::Releasing);
    assert!(!voice.finish_tick(true));
    assert_eq!(voice.phase(), VoicePhase::Idle);
    assert!(!voice.is_active());
    assert_eq!(voice.amp_envelope().state(), EnvelopeState::Idle);
    assert!(!voice.finish_tick(true));
    assert_eq!(voice.phase(), VoicePhase::Idle);
}

#[test]
fn note_off_for_another_note_changes_nothing() {
    let mut voice = fresh();
    voice.note_on(60);
    assert!(!voice.note_off(61));
    assert_eq!(voice.phase(), VoicePhase::Held);
    assert_eq!(voice.get_note_id(), Some(60));
    assert_eq!(voice.amp_envelope().state(), EnvelopeState::Attack);
}

#[test]
fn note_off_on_a_released_voice_changes_nothing() {
    let mut voice = fresh();
    voice.note_on(60);
    assert!(voice.note_off(60));
    assert!(!voice.note_off(60));
    assert_eq!(voice.phase(), VoicePhase::Releasing);
    voice.finish_tick(true);
    assert!(!voice.note_off(60));
    assert_eq!(voice.phase(), VoicePhase::Idle);
}

#[test]
fn a_releasing_voice_takes_a_new_note() {
    let mut voice = fresh();
    voice.note_on(60);
    voice.note_off(60);
    voice.note_on(72);
    assert_eq!(voice.phase(), VoicePhase::Held);
    assert_eq!(voice.get_note_id(), Some(72));
    assert_eq!(voice.amp_envelope().state(), EnvelopeState::Attack);
}

#[test]
fn instant_attack_starts_the_voice_at_full_level() {
    let mut voice = fresh();
    voice.set_amp_env(0, 10, 100, 10);
    assert_eq!(voice.note_on(60), Level::One);
    assert_eq!(voice.amp_envelope().state(), EnvelopeState::Decay);
    assert_eq!(
        voice.amp_motion(),
        Motion::Ramp { rising: false, time: EnvelopeTime::Steps(10), target: Level::Knob(100) }
    );
}

#[test]
fn amp_settings_keep_the_state() {
    let mut voice = fresh();
    voice.note_on(60);
    voice.set_amp_env(5, 127, 200, 0);
    assert_eq!(voice.amp_envelope().state(), EnvelopeState::Attack);
    assert_eq!(voice.amp_envelope().attack(), EnvelopeTime::Steps(5));
    assert_eq!(voice.amp_envelope().decay(), EnvelopeTime::Forever);
    assert_eq!(voice.amp_envelope().sustain(), 127);
    assert_eq!(voice.amp_envelope().release(), EnvelopeTime::Instant);
    assert_eq!(voice.phase(), VoicePhase::Held);
}

#[test]
fn mod_envelopes_belong_to_groups() {
    let mut voice = fresh();
    voice.set_operator_mod_env(1, 10, 20, 30);
    assert_eq!(voice.mod_envelope(ModGroup::A).attack(), EnvelopeTime::Steps(10));
    assert_eq!(voice.mod_envelope(ModGroup::A).decay(), EnvelopeTime::Steps(20));
    assert_eq!(voice.mod_envelope(ModGroup::A).end(), 30);
    assert_eq!(voice.mod_envelope(ModGroup::B).attack(), EnvelopeTime::Instant);
    voice.set_operator_mod_env(2, 40, 50, 60);
    assert_eq!(voice.mod_envelope(ModGroup::B).attack(), EnvelopeTime::Steps(40));
    assert_eq!(voice.mod_envelope(ModGroup::B).end(), 60);
    assert_eq!(voice.mod_envelope(ModGroup::A).end(), 30);
    voice.set_operator_mod_env(4, 1, 1, 1);
    assert_eq!(voice.mod_envelope(ModGroup::A).end(), 30);
    assert_eq!(voice.mod_envelope(ModGroup::B).end(), 60);
}

#[test]
fn mod_envelope_events() {
    let mut voice = fresh();
    voice.note_on(60);
    assert_eq!(
        voice.mod_motion(ModGroup::A),
        Motion::Ramp { rising: true, time: EnvelopeTime::Instant, target: Level::One }
    );
    voice.mod_arrived(ModGroup::A);
    assert_eq!(voice.mod_envelope(ModGroup::A).state(), ModEnvelopeState::Decay);
    assert_eq!(voice.mod_envelope(ModGroup::B).state(), ModEnvelopeState::Attack);
    voice.mod_arrived(ModGroup::A);
    assert_eq!(voice.mod_envelope(ModGroup::A).state(), ModEnvelopeState::Sustain);
    assert_eq!(voice.mod_motion(ModGroup::A), Motion::Hold);
    voice.mod_arrived(ModGroup::B);
    assert_eq!(voice.mod_envelope(ModGroup::B).state(), ModEnvelopeState::Decay);
}

#[test]
fn a_new_routing_gives_new_roles() {
    let mut voice = fresh();
    voice.set_algorithm(FMAlgorithm::custom(vec![(0, 1), (3, 3), (2, 2)], vec![1, 2]));
    assert_eq!(voice.algorithm().modulations(), &vec![(0, 1), (3, 3), (2, 2)]);
    assert!(voice.operator(0).is_modulator());
    assert!(!voice.operator(1).is_modulator());
    assert!(!voice.operator(2).is_modulator());
    assert!(voice.operator(3).is_modulator());
}

#[test]
fn a_new_routing_leaves_the_note_alone() {
    let mut voice = fresh();
    voice.note_on(60);
    voice.set_algorithm(get_algorithms()[4].duplicate());
    assert_eq!(voice.phase(), VoicePhase::Held);
    assert_eq!(voice.get_note_id(), Some(60));
    assert_eq!(voice.amp_envelope().state(), EnvelopeState::Attack);
}

#[test]
fn waveform_by_number() {
    let mut voice = fresh();
    voice.set_operator_waveform(0, 1);
    voice.set_operator_waveform(1, 2);
    voice.set_operator_waveform(2, 3);
    voice.set_operator_waveform(3, 77);
    voice.set_operator_waveform(4, 1);
    assert_eq!(voice.operator(0).wave_type(), WaveType::Square);
    assert_eq!(voice.operator(1).wave_type(), WaveType::Sawtooth);
    assert_eq!(voice.operator(2).wave_type(), WaveType::Triangle);
    assert_eq!(voice.operator(3).wave_type(), WaveType::Sine);
    assert_eq!(WaveType::from_id(0), WaveType::Sine);
}

#[test]
fn octave_shift_is_stored() {
    let mut voice = fresh();
    voice.set_octave_shift(-3);
    assert_eq!(voice.octave_shift(), -3);
}

#[test]
fn operator_events_of_a_voice() {
    let mut voice = fresh();
    voice.note_on(60);
    voice.operator_arrived(2);
    voice.operator_arrived(9);
    assert_eq!(voice.operator(2).motion(), Motion::Hold);
    assert_eq!(voice.phase(), VoicePhase::Held);
}

#[test]
fn operator_with_an_envelope_of_its_own() {
    let envelope = synth_engine::envelope::Envelope::from_digitone(0, 5, 50, 5);
    let mut operator = FMOperator::new(WaveType::Triangle, AmpSource::Adsr(envelope));
    assert_eq!(operator.wave_type(), WaveType::Triangle);
    assert!(!operator.is_modulator());
    assert_eq!(operator.motion(), Motion::Silent);
    assert_eq!(operator.note_on(), Level::One);
    assert_eq!(
        operator.motion(),
        Motion::Ramp { rising: false, time: EnvelopeTime::Steps(5), target: Level::Knob(50) }
    );
    operator.arrive();
    assert_eq!(operator.motion(), Motion::Hold);
    operator.note_off();
    operator.arrive();
    assert_eq!(operator.motion(), Motion::Silent);
    operator.set_envelope(AmpSource::Noop(NoopEnvelope));
    assert_eq!(operator.motion(), Motion::Hold);
    assert_eq!(operator.get_envelope().motion(), Motion::Hold);
    operator.set_modulator(true);
    assert!(operator.is_modulator());
    operator.set_wave_type(WaveType::Square);
    assert_eq!(operator.wave_type(), WaveType::Square);
}

#[test]
fn operator_groups_by_name() {
    assert_eq!(OperatorGroup::from_name("C"), Some(OperatorGroup::C));
    assert_eq!(OperatorGroup::from_name("A"), Some(OperatorGroup::A));
    assert_eq!(OperatorGroup::from_name("B"), Some(OperatorGroup::B));
    assert_eq!(OperatorGroup::from_name("D"), None);
    assert_eq!(OperatorGroup::from_name("c"), None);
    assert_eq!(OperatorGroup::from_name(""), None);
    assert_eq!(OperatorGroup::from_name("CA"), None);
    assert_eq!(OperatorGroup::C.slots(), vec![0]);
    assert_eq!(OperatorGroup::A.slots(), vec![2]);
    assert_eq!(OperatorGroup::B.slots(), vec![1, 3]);
}
