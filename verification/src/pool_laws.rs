//! What holds of the voice pool, whatever notes are played.

use vstd::prelude::*;
use crate::envelope::{after_arrival, EnvelopeState};
use crate::pool::{
    all_active, all_held, allocated, distinct_notes, first_holding, first_lowest, none_holding,
    steal_key, voices_wf,
};
use crate::voice::{VoiceModel, VoicePhase};

verus! {

/// The pool after the note `note_id` has started on the voice at `i`.
pub open spec fn after_note_on(voices: Seq<VoiceModel>, note_id: u32, i: int) -> Seq<VoiceModel> {
    voices.update(i, voices[i].triggered(note_id))
}

/// The pool after the voice at `i` has been told that its note has ended.
pub open spec fn after_note_off(voices: Seq<VoiceModel>, i: int) -> Seq<VoiceModel> {
    voices.update(i, voices[i].released())
}

/// The allocation policy names one voice and no other.
pub proof fn lemma_allocation_is_unique(voices: Seq<VoiceModel>, note_id: u32, i: int, j: int)
    requires
        allocated(voices, note_id, i),
        allocated(voices, note_id, j),
    ensures
        i == j,
{
    if i < j {
        assert(voices[i].holds(note_id) || !voices[i].active || voices[i].note_id is None
            || steal_key(voices[j]) < steal_key(voices[i]));
    } else if j < i {
        assert(voices[j].holds(note_id) || !voices[j].active || voices[j].note_id is None
            || steal_key(voices[i]) < steal_key(voices[j]));
    }
}

/// The first position below `upto` at which `pred` holds, if there is one.
proof fn lemma_first(pred: spec_fn(int) -> bool, upto: int) -> (first: int)
    requires
        0 <= upto,
        exists|k: int| 0 <= k < upto && #[trigger] pred(k),
    ensures
        0 <= first < upto,
        pred(first),
        forall|k: int| 0 <= k < first ==> !#[trigger] pred(k),
    decreases upto,
{
    if exists|k: int| 0 <= k < upto - 1 && #[trigger] pred(k) {
        lemma_first(pred, upto - 1)
    } else {
        upto - 1
    }
}

/// Among the first `upto` voices, one that has the smallest key and comes
/// before every other that has the same.
proof fn lemma_lowest(voices: Seq<VoiceModel>, upto: int) -> (lowest: int)
    requires
        0 < upto <= voices.len(),
    ensures
        0 <= lowest < upto,
        forall|k: int| 0 <= k < upto ==> steal_key(voices[lowest]) <= steal_key(#[trigger] voices[k]),
        forall|k: int| 0 <= k < lowest ==> steal_key(voices[lowest]) < steal_key(#[trigger] voices[k]),
    decreases upto,
{
    if upto == 1 {
        0
    } else {
        let before = lemma_lowest(voices, upto - 1);
        if steal_key(voices[upto - 1]) < steal_key(voices[before]) {
            upto - 1
        } else {
            before
        }
    }
}

/// In a pool that is not empty every note finds a voice.
pub proof fn lemma_allocation_exists(voices: Seq<VoiceModel>, note_id: u32) -> (i: int)
    requires
        voices.len() > 0,
    ensures
        allocated(voices, note_id, i),
{
    let n = voices.len() as int;
    if !none_holding(voices, note_id) {
        let pred = |k: int| voices[k].holds(note_id);
        let witness = choose|k: int| 0 <= k < n && (#[trigger] voices[k]).holds(note_id);
        assert(pred(witness));
        let i = lemma_first(pred, n);
        assert forall|j: int| 0 <= j < i implies !(#[trigger] voices[j]).holds(note_id) by {
            assert(!pred(j));
        }
        i
    } else if !all_active(voices) {
        let pred = |k: int| !voices[k].active;
        let witness = choose|k: int| 0 <= k < n && !(#[trigger] voices[k]).active;
        assert(pred(witness));
        let i = lemma_first(pred, n);
        assert forall|j: int| 0 <= j < i implies (#[trigger] voices[j]).active by {
            assert(!pred(j));
        }
        i
    } else if !all_held(voices) {
        let pred = |k: int| voices[k].note_id is None;
        let witness = choose|k: int| 0 <= k < n && (#[trigger] voices[k]).note_id is None;
        assert(pred(witness));
        let i = lemma_first(pred, n);
        assert forall|j: int| 0 <= j < i implies (#[trigger] voices[j]).note_id is Some by {
            assert(!pred(j));
        }
        i
    } else {
        lemma_lowest(voices, n)
    }
}

/// After a note has started, exactly one voice holds it: the one that the
/// policy chose. No two voices hold the same note afterwards, and every
/// voice is valid.
pub proof fn lemma_note_on_holds_once(voices: Seq<VoiceModel>, note_id: u32, i: int)
    requires
        voices_wf(voices),
        distinct_notes(voices),
        allocated(voices, note_id, i),
    ensures
        after_note_on(voices, note_id, i)[i].holds(note_id),
        after_note_on(voices, note_id, i)[i].phase() == VoicePhase::Held,
        forall|j: int|
            0 <= j < voices.len() && j != i ==> !(#[trigger] after_note_on(
                voices,
                note_id,
                i,
            )[j]).holds(note_id),
        distinct_notes(after_note_on(voices, note_id, i)),
        voices_wf(after_note_on(voices, note_id, i)),
{
    let after = after_note_on(voices, note_id, i);
    assert forall|j: int| 0 <= j < voices.len() && j != i implies !(#[trigger] after[j]).holds(
        note_id,
    ) by {
        if voices[j].holds(note_id) {
            assert(!none_holding(voices, note_id));
            assert(voices[i].holds(note_id));
        }
    }
    assert(voices[i].wf());
    assert(after[i].operators.len() == voices[i].operators.len());
    assert(after[i].wf());
}

/// A note that is held already is started anew on its own voice: no other
/// voice is touched, and nothing is stolen.
pub proof fn lemma_retrigger_in_place(voices: Seq<VoiceModel>, note_id: u32, i: int, holder: int)
    requires
        distinct_notes(voices),
        0 <= holder < voices.len(),
        voices[holder].holds(note_id),
        allocated(voices, note_id, i),
    ensures
        i == holder,
{
    assert(!none_holding(voices, note_id));
}

/// While a voice is free or fading out, no held note loses its voice: every
/// note that was held before a new note started is still held by the same
/// voice.
pub proof fn lemma_no_theft_while_room(voices: Seq<VoiceModel>, note_id: u32, i: int, j: int)
    requires
        voices_wf(voices),
        allocated(voices, note_id, i),
        !all_held(voices),
        0 <= j < voices.len(),
        voices[j].note_id is Some,
        !voices[j].holds(note_id),
    ensures
        after_note_on(voices, note_id, i)[j].note_id == voices[j].note_id,
{
    if !none_holding(voices, note_id) {
        assert(voices[i].holds(note_id));
    } else if !all_active(voices) {
        assert(!voices[i].active);
        assert(voices[j].wf());
    } else {
        assert(voices[i].note_id is None);
    }
}

/// In a pool whose voices all hold notes, a note that is not among them
/// takes the voice with the smallest note id. Afterwards that id is held by
/// no voice, the new id by exactly the stolen voice, every other voice
/// holds what it held, and all voices hold notes still, no two the same.
pub proof fn lemma_full_pool_steals_lowest(voices: Seq<VoiceModel>, note_id: u32, i: int)
    requires
        voices_wf(voices),
        distinct_notes(voices),
        all_held(voices),
        none_holding(voices, note_id),
        allocated(voices, note_id, i),
    ensures
        0 <= i < voices.len(),
        voices[i].note_id is Some,
        forall|j: int|
            0 <= j < voices.len() ==> voices[i].note_id->0 <= (#[trigger] voices[j]).note_id->0,
        none_holding(after_note_on(voices, note_id, i), voices[i].note_id->0),
        after_note_on(voices, note_id, i)[i].holds(note_id),
        forall|j: int|
            0 <= j < voices.len() && j != i ==> (#[trigger] after_note_on(
                voices,
                note_id,
                i,
            )[j]).note_id == voices[j].note_id,
        all_held(after_note_on(voices, note_id, i)),
        distinct_notes(after_note_on(voices, note_id, i)),
{
    let after = after_note_on(voices, note_id, i);
    let stolen = voices[i].note_id->0;
    assert(voices[i].active) by {
        assert(voices[i].wf());
    }
    assert(all_active(voices)) by {
        assert forall|j: int| 0 <= j < voices.len() implies (#[trigger] voices[j]).active by {
            assert(voices[j].wf());
            assert(voices[j].note_id is Some);
        }
    }
    assert(first_lowest(voices, i));
    assert(voices[i].note_id is Some);
    assert forall|j: int| 0 <= j < voices.len() implies voices[i].note_id->0 <= (
    #[trigger] voices[j]).note_id->0 by {
        assert(voices[j].note_id is Some);
        assert(steal_key(voices[i]) <= steal_key(voices[j]));
    }
    assert(stolen != note_id) by {
        assert(!voices[i].holds(note_id));
    }
    assert forall|j: int| 0 <= j < after.len() implies !(#[trigger] after[j]).holds(stolen) by {
        if j != i {
            assert(voices[j].note_id != voices[i].note_id);
        }
    }
    assert forall|j: int| 0 <= j < after.len() implies (#[trigger] after[j]).note_id is Some by {
        if j != i {
            assert(voices[j].note_id is Some);
        }
    }
    lemma_note_on_holds_once(voices, note_id, i);
}

/// The end of a note reaches one voice only: no other voice holds the note,
/// and once that voice has let go, no voice holds it.
pub proof fn lemma_note_off_needs_holder(voices: Seq<VoiceModel>, note_id: u32, i: int)
    requires
        distinct_notes(voices),
        first_holding(voices, note_id, i),
    ensures
        forall|j: int|
            0 <= j < voices.len() && j != i ==> !(#[trigger] voices[j]).holds(note_id),
        none_holding(after_note_off(voices, i), note_id),
{
    assert forall|j: int| 0 <= j < voices.len() && j != i implies !(#[trigger] voices[j]).holds(
        note_id,
    ) by {
        if voices[j].holds(note_id) {
            assert(voices[i].note_id == voices[j].note_id);
        }
    }
    let after = after_note_off(voices, i);
    assert forall|j: int| 0 <= j < after.len() implies !(#[trigger] after[j]).holds(note_id) by {
        if j != i {
            assert(!voices[j].holds(note_id));
        }
    }
}

/// A note that starts and ends at once. The end of the note reaches the very
/// voice that the note went to. That voice is fading out afterwards, no
/// voice holds the note any more, and the tick on which the amplitude
/// envelope comes to rest frees the voice.
pub proof fn lemma_round_trip(voices: Seq<VoiceModel>, note_id: u32, i: int)
    requires
        voices_wf(voices),
        distinct_notes(voices),
        allocated(voices, note_id, i),
    ensures
        first_holding(after_note_on(voices, note_id, i), note_id, i),
        none_holding(after_note_off(after_note_on(voices, note_id, i), i), note_id),
        after_note_off(after_note_on(voices, note_id, i), i)[i].phase() == VoicePhase::Releasing,
        after_note_off(after_note_on(voices, note_id, i), i)[i].finished(true).phase()
            == VoicePhase::Idle,
        !after_note_off(after_note_on(voices, note_id, i), i)[i].finished(true).holds(note_id),
{
    let started = after_note_on(voices, note_id, i);
    lemma_note_on_holds_once(voices, note_id, i);
    assert forall|j: int| 0 <= j < i implies !(#[trigger] started[j]).holds(note_id) by {}
    lemma_note_off_needs_holder(started, note_id, i);
    assert(voices[i].wf());
    lemma_voice_life(voices[i], note_id, true);
}

/// The life of a voice. A note makes any valid voice held. The end of the
/// note makes it releasing, and it holds the note no more. While it is
/// held, the end of a tick never frees it. Once releasing, it is freed by
/// the tick on which its amplitude envelope comes to rest and by no other.
/// Freed, it holds no note: the same note cannot end on it a second time.
pub proof fn lemma_voice_life(voice: VoiceModel, note_id: u32, amp_arrived: bool)
    requires
        voice.wf(),
    ensures
        voice.triggered(note_id).wf(),
        voice.triggered(note_id).phase() == VoicePhase::Held,
        voice.triggered(note_id).holds(note_id),
        voice.triggered(note_id).finished(amp_arrived).phase() == VoicePhase::Held,
        voice.triggered(note_id).finished(amp_arrived).holds(note_id),
        voice.triggered(note_id).released().wf(),
        voice.triggered(note_id).released().phase() == VoicePhase::Releasing,
        !voice.triggered(note_id).released().holds(note_id),
        voice.triggered(note_id).released().finished(false).phase() == VoicePhase::Releasing,
        voice.triggered(note_id).released().finished(true).wf(),
        voice.triggered(note_id).released().finished(true).phase() == VoicePhase::Idle,
        !voice.triggered(note_id).released().finished(true).holds(note_id),
{
    let held = voice.triggered(note_id);
    assert(held.operators.len() == voice.operators.len());
    let fading = held.released();
    assert(fading.operators.len() == voice.operators.len());
}

/// Every step in the life of a voice keeps it valid, and the end of a tick
/// leaves an idle voice idle.
pub proof fn lemma_voice_steps_keep_validity(voice: VoiceModel, note_id: u32, amp_arrived: bool)
    requires
        voice.wf(),
    ensures
        voice.triggered(note_id).wf(),
        voice.holds(note_id) ==> voice.released().wf(),
        voice.finished(amp_arrived).wf(),
        voice.phase() == VoicePhase::Idle ==> voice.finished(amp_arrived) == voice,
{
    assert(voice.triggered(note_id).operators.len() == voice.operators.len());
    assert(voice.released().operators.len() == voice.operators.len());
    if voice.phase() == VoicePhase::Idle {
        assert(voice.amp.state is Idle);
        assert(after_arrival(voice.amp.state) is Idle);
        assert(voice.amp.with_state(EnvelopeState::Idle) == voice.amp);
    }
}

} // verus!
