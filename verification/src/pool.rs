//! The pool of voices and the policy that hands notes to them.
//!
//! A new note goes to the voice that holds it already, else to an idle
//! voice, else to a voice that is fading out, and only if every voice holds
//! a note does one of them lose its own: the one with the smallest note id.

use vstd::prelude::*;
use crate::algorithm::{AlgorithmModel, FMAlgorithm};
use crate::operator::{AmpSource, AmpSourceModel};
use crate::oscillator::{wave_of_id, WaveType};
use crate::voice::{FMVoice, VoiceModel};

verus! {

/// Number of voices in the pool.
pub const NUM_VOICES: usize = 8;

/// The models of the voices of a pool.
pub open spec fn pool_view(voices: Seq<FMVoice>) -> Seq<VoiceModel> {
    voices.map_values(|voice: FMVoice| voice@)
}

/// The voice at position `i` holds the note, and no voice before it does.
pub open spec fn first_holding(voices: Seq<VoiceModel>, note_id: u32, i: int) -> bool {
    &&& 0 <= i < voices.len()
    &&& voices[i].holds(note_id)
    &&& forall|j: int| 0 <= j < i ==> !(#[trigger] voices[j]).holds(note_id)
}

/// No voice holds the note.
pub open spec fn none_holding(voices: Seq<VoiceModel>, note_id: u32) -> bool {
    forall|j: int| 0 <= j < voices.len() ==> !(#[trigger] voices[j]).holds(note_id)
}

/// The voice at position `i` is idle, and no voice before it is.
pub open spec fn first_idle(voices: Seq<VoiceModel>, i: int) -> bool {
    &&& 0 <= i < voices.len()
    &&& !voices[i].active
    &&& forall|j: int| 0 <= j < i ==> (#[trigger] voices[j]).active
}

/// Every voice sounds.
pub open spec fn all_active(voices: Seq<VoiceModel>) -> bool {
    forall|j: int| 0 <= j < voices.len() ==> (#[trigger] voices[j]).active
}

/// Some voice sounds.
pub open spec fn any_active(voices: Seq<VoiceModel>) -> bool {
    exists|j: int| 0 <= j < voices.len() && (#[trigger] voices[j]).active
}

/// The voice at position `i` holds no note, and every voice before it holds
/// one.
pub open spec fn first_unheld(voices: Seq<VoiceModel>, i: int) -> bool {
    &&& 0 <= i < voices.len()
    &&& voices[i].note_id is None
    &&& forall|j: int| 0 <= j < i ==> (#[trigger] voices[j]).note_id is Some
}

/// Every voice holds a note.
pub open spec fn all_held(voices: Seq<VoiceModel>) -> bool {
    forall|j: int| 0 <= j < voices.len() ==> (#[trigger] voices[j]).note_id is Some
}

/// Some voice holds a note.
pub open spec fn any_held(voices: Seq<VoiceModel>) -> bool {
    exists|j: int| 0 <= j < voices.len() && (#[trigger] voices[j]).note_id is Some
}

/// The number by which the voices are compared when one of them has to
/// give way: the id of the note it holds, and the largest number there is
/// for a voice that holds none.
pub open spec fn steal_key(voice: VoiceModel) -> u32 {
    match voice.note_id {
        Some(note_id) => note_id,
        None => u32::MAX,
    }
}

/// The voice at position `i` has the smallest key of all, and the voices
/// before it have larger ones.
pub open spec fn first_lowest(voices: Seq<VoiceModel>, i: int) -> bool {
    &&& 0 <= i < voices.len()
    &&& forall|j: int| 0 <= j < voices.len() ==> steal_key(voices[i]) <= steal_key(#[trigger] voices[j])
    &&& forall|j: int| 0 <= j < i ==> steal_key(voices[i]) < steal_key(#[trigger] voices[j])
}

/// The voice that a new note goes to. In this order of preference: the
/// first voice that holds the same note already; the first idle voice; the
/// first releasing voice; the voice that holds the smallest note id.
pub open spec fn allocated(voices: Seq<VoiceModel>, note_id: u32, i: int) -> bool {
    if !none_holding(voices, note_id) {
        first_holding(voices, note_id, i)
    } else if !all_active(voices) {
        first_idle(voices, i)
    } else if !all_held(voices) {
        first_unheld(voices, i)
    } else {
        first_lowest(voices, i)
    }
}

/// No two voices hold the same note.
pub open spec fn distinct_notes(voices: Seq<VoiceModel>) -> bool {
    forall|i: int, j: int|
        0 <= i < voices.len() && 0 <= j < voices.len() && i != j && (
        #[trigger] voices[i]).note_id is Some ==> voices[i].note_id != (
        #[trigger] voices[j]).note_id
}

/// Every voice of the pool is valid.
pub open spec fn voices_wf(voices: Seq<VoiceModel>) -> bool {
    forall|i: int| 0 <= i < voices.len() ==> (#[trigger] voices[i]).wf()
}

/// Finds the first voice that holds the note.
pub(crate) fn find_holding(voices: &Vec<FMVoice>, note_id: u32) -> (found: Option<usize>)
    ensures
        match found {
            Some(i) => first_holding(pool_view(voices@), note_id, i as int),
            None => none_holding(pool_view(voices@), note_id),
        },
{
    let mut i: usize = 0;
    while i < voices.len()
        invariant
            i <= voices@.len(),
            forall|j: int| 0 <= j < i ==> !(#[trigger] pool_view(voices@)[j]).holds(note_id),
        decreases voices@.len() - i,
    {
        if voices[i].holds(note_id) {
            return Some(i);
        }
        i += 1;
    }
    None
}

/// Finds the first idle voice.
pub(crate) fn find_idle(voices: &Vec<FMVoice>) -> (found: Option<usize>)
    ensures
        match found {
            Some(i) => first_idle(pool_view(voices@), i as int),
            None => all_active(pool_view(voices@)),
        },
{
    let mut i: usize = 0;
    while i < voices.len()
        invariant
            i <= voices@.len(),
            forall|j: int| 0 <= j < i ==> (#[trigger] pool_view(voices@)[j]).active,
        decreases voices@.len() - i,
    {
        if !voices[i].is_active() {
            return Some(i);
        }
        i += 1;
    }
    None
}

/// Finds the first voice that holds no note.
pub(crate) fn find_unheld(voices: &Vec<FMVoice>) -> (found: Option<usize>)
    ensures
        match found {
            Some(i) => first_unheld(pool_view(voices@), i as int),
            None => all_held(pool_view(voices@)),
        },
{
    let mut i: usize = 0;
    while i < voices.len()
        invariant
            i <= voices@.len(),
            forall|j: int| 0 <= j < i ==> (#[trigger] pool_view(voices@)[j]).note_id is Some,
        decreases voices@.len() - i,
    {
        if !voices[i].is_held() {
            return Some(i);
        }
        i += 1;
    }
    None
}

/// The key by which a voice is compared when one has to give way.
fn key_of(voice: &FMVoice) -> (key: u32)
    ensures
        key == steal_key(voice@),
{
    match voice.get_note_id() {
        Some(note_id) => note_id,
        None => u32::MAX,
    }
}

/// Finds the first voice among those with the smallest key.
pub(crate) fn find_lowest(voices: &Vec<FMVoice>) -> (lowest: usize)
    requires
        voices@.len() > 0,
    ensures
        first_lowest(pool_view(voices@), lowest as int),
{
    let ghost pool = pool_view(voices@);
    let mut lowest: usize = 0;
    let mut lowest_key: u32 = key_of(&voices[0]);
    let mut i: usize = 1;
    while i < voices.len()
        invariant
            1 <= i <= voices@.len(),
            pool == pool_view(voices@),
            lowest < i,
            steal_key(pool[lowest as int]) == lowest_key,
            forall|j: int| 0 <= j < i ==> lowest_key <= steal_key(#[trigger] pool[j]),
            forall|j: int| 0 <= j < lowest ==> lowest_key < steal_key(#[trigger] pool[j]),
        decreases voices@.len() - i,
    {
        let key: u32 = key_of(&voices[i]);
        if key < lowest_key {
            lowest = i;
            lowest_key = key;
        }
        i += 1;
    }
    lowest
}

/// Every voice of the pool with another routing.
pub open spec fn all_routed(voices: Seq<VoiceModel>, algorithm: AlgorithmModel) -> Seq<VoiceModel> {
    voices.map_values(|voice: VoiceModel| voice.routed(algorithm))
}

/// Every voice of the pool with another octave shift.
pub open spec fn all_shifted(voices: Seq<VoiceModel>, shift: i32) -> Seq<VoiceModel> {
    voices.map_values(|voice: VoiceModel| voice.with_octave_shift(shift))
}

/// Every voice of the pool with other settings of its amplitude envelope.
pub open spec fn all_amp_knobs(
    voices: Seq<VoiceModel>,
    attack: u8,
    decay: u8,
    sustain: u8,
    release: u8,
) -> Seq<VoiceModel> {
    voices.map_values(|voice: VoiceModel| voice.with_amp_knobs(attack, decay, sustain, release))
}

/// Every voice of the pool with other settings of one of its modulation
/// envelopes.
pub open spec fn all_mod_knobs(
    voices: Seq<VoiceModel>,
    op_index: usize,
    attack: u32,
    decay: u32,
    end: u32,
) -> Seq<VoiceModel> {
    voices.map_values(|voice: VoiceModel| voice.with_mod_knobs(op_index, attack, decay, end))
}

/// Every voice of the pool with another waveform for one operator.
pub open spec fn all_waveform(voices: Seq<VoiceModel>, op_index: usize, wave_type: WaveType) -> Seq<
    VoiceModel,
> {
    voices.map_values(|voice: VoiceModel| voice.with_waveform(op_index, wave_type))
}

/// Every voice of the pool with another amplitude source for one operator.
pub open spec fn all_operator_envelope(
    voices: Seq<VoiceModel>,
    op_index: usize,
    envelope: AmpSourceModel,
) -> Seq<VoiceModel> {
    voices.map_values(|voice: VoiceModel| voice.with_operator_envelope(op_index, envelope))
}

pub(crate) fn route_all(voices: &mut Vec<FMVoice>, algorithm: &FMAlgorithm)
    requires
        voices_wf(pool_view(old(voices)@)),
        algorithm.wf(),
    ensures
        pool_view(final(voices)@) == all_routed(pool_view(old(voices)@), algorithm@),
        voices_wf(pool_view(final(voices)@)),
{
    assert forall|j: int| 0 <= j < voices@.len() implies (#[trigger] voices@[j]).wf() by {
        assert(pool_view(voices@)[j].wf());
    }
    let mut i: usize = 0;
    while i < voices.len()
        invariant
            i <= voices@.len(),
            voices@.len() == old(voices)@.len(),
            algorithm.wf(),
            forall|j: int| 0 <= j < i ==> (#[trigger] voices@[j])@ == old(voices)@[j]@.routed(algorithm@),
            forall|j: int| i <= j < voices@.len() ==> #[trigger] voices@[j] == old(voices)@[j],
            forall|j: int| 0 <= j < voices@.len() ==> (#[trigger] voices@[j]).wf(),
        decreases voices@.len() - i,
    {
        voices[i].set_algorithm(algorithm.duplicate());
        i += 1;
    }
    assert(pool_view(voices@) =~= all_routed(pool_view(old(voices)@), algorithm@));
}

pub(crate) fn shift_all(voices: &mut Vec<FMVoice>, shift: i32)
    ensures
        pool_view(final(voices)@) == all_shifted(pool_view(old(voices)@), shift),
{
    let mut i: usize = 0;
    while i < voices.len()
        invariant
            i <= voices@.len(),
            voices@.len() == old(voices)@.len(),
            forall|j: int|
                0 <= j < i ==> (#[trigger] voices@[j])@ == old(voices)@[j]@.with_octave_shift(shift),
            forall|j: int| i <= j < voices@.len() ==> #[trigger] voices@[j] == old(voices)@[j],
        decreases voices@.len() - i,
    {
        voices[i].set_octave_shift(shift);
        i += 1;
    }
    assert(pool_view(voices@) =~= all_shifted(pool_view(old(voices)@), shift));
}

pub(crate) fn set_amp_all(voices: &mut Vec<FMVoice>, attack: u8, decay: u8, sustain: u8, release: u8)
    ensures
        pool_view(final(voices)@) == all_amp_knobs(
            pool_view(old(voices)@),
            attack,
            decay,
            sustain,
            release,
        ),
{
    let mut i: usize = 0;
    while i < voices.len()
        invariant
            i <= voices@.len(),
            voices@.len() == old(voices)@.len(),
            forall|j: int|
                0 <= j < i ==> (#[trigger] voices@[j])@ == old(voices)@[j]@.with_amp_knobs(
                    attack,
                    decay,
                    sustain,
                    release,
                ),
            forall|j: int| i <= j < voices@.len() ==> #[trigger] voices@[j] == old(voices)@[j],
        decreases voices@.len() - i,
    {
        voices[i].set_amp_env(attack, decay, sustain, release);
        i += 1;
    }
    assert(pool_view(voices@) =~= all_amp_knobs(
        pool_view(old(voices)@),
        attack,
        decay,
        sustain,
        release,
    ));
}

pub(crate) fn set_mod_all(voices: &mut Vec<FMVoice>, op_index: usize, attack: u32, decay: u32, end: u32)
    ensures
        pool_view(final(voices)@) == all_mod_knobs(
            pool_view(old(voices)@),
            op_index,
            attack,
            decay,
            end,
        ),
{
    let mut i: usize = 0;
    while i < voices.len()
        invariant
            i <= voices@.len(),
            voices@.len() == old(voices)@.len(),
            forall|j: int|
                0 <= j < i ==> (#[trigger] voices@[j])@ == old(voices)@[j]@.with_mod_knobs(
                    op_index,
                    attack,
                    decay,
                    end,
                ),
            forall|j: int| i <= j < voices@.len() ==> #[trigger] voices@[j] == old(voices)@[j],
        decreases voices@.len() - i,
    {
        voices[i].set_operator_mod_env(op_index, attack, decay, end);
        i += 1;
    }
    assert(pool_view(voices@) =~= all_mod_knobs(
        pool_view(old(voices)@),
        op_index,
        attack,
        decay,
        end,
    ));
}

pub(crate) fn set_envelope_all(voices: &mut Vec<FMVoice>, op_index: usize, envelope: AmpSource)
    requires
        voices_wf(pool_view(old(voices)@)),
    ensures
        pool_view(final(voices)@) == all_operator_envelope(
            pool_view(old(voices)@),
            op_index,
            envelope@,
        ),
        voices_wf(pool_view(final(voices)@)),
{
    assert forall|j: int| 0 <= j < voices@.len() implies (#[trigger] voices@[j]).wf() by {
        assert(pool_view(voices@)[j].wf());
    }
    let mut i: usize = 0;
    while i < voices.len()
        invariant
            i <= voices@.len(),
            voices@.len() == old(voices)@.len(),
            forall|j: int|
                0 <= j < i ==> (#[trigger] voices@[j])@ == old(voices)@[j]@.with_operator_envelope(
                    op_index,
                    envelope@,
                ),
            forall|j: int| i <= j < voices@.len() ==> #[trigger] voices@[j] == old(voices)@[j],
            forall|j: int| 0 <= j < voices@.len() ==> (#[trigger] voices@[j]).wf(),
        decreases voices@.len() - i,
    {
        voices[i].set_operator_envelope(op_index, envelope);
        i += 1;
    }
    assert(pool_view(voices@) =~= all_operator_envelope(
        pool_view(old(voices)@),
        op_index,
        envelope@,
    ));
}

pub(crate) fn set_waveform_all(voices: &mut Vec<FMVoice>, op_index: usize, wave_type_id: u8)
    requires
        voices_wf(pool_view(old(voices)@)),
    ensures
        pool_view(final(voices)@) == all_waveform(
            pool_view(old(voices)@),
            op_index,
            wave_of_id(wave_type_id),
        ),
        voices_wf(pool_view(final(voices)@)),
{
    assert forall|j: int| 0 <= j < voices@.len() implies (#[trigger] voices@[j]).wf() by {
        assert(pool_view(voices@)[j].wf());
    }
    let mut i: usize = 0;
    while i < voices.len()
        invariant
            i <= voices@.len(),
            voices@.len() == old(voices)@.len(),
            forall|j: int|
                0 <= j < i ==> (#[trigger] voices@[j])@ == old(voices)@[j]@.with_waveform(
                    op_index,
                    wave_of_id(wave_type_id),
                ),
            forall|j: int| i <= j < voices@.len() ==> #[trigger] voices@[j] == old(voices)@[j],
            forall|j: int| 0 <= j < voices@.len() ==> (#[trigger] voices@[j]).wf(),
        decreases voices@.len() - i,
    {
        voices[i].set_operator_waveform(op_index, wave_type_id);
        i += 1;
    }
    assert(pool_view(voices@) =~= all_waveform(
        pool_view(old(voices)@),
        op_index,
        wave_of_id(wave_type_id),
    ));
}

} // verus!
