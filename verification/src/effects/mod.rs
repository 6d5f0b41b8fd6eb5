//! The effects behind the voices: which stages there are, and the
//! bookkeeping of the delay line.

pub mod delay;

use vstd::prelude::*;

verus! {

/// A stage of the effects chain.
#[derive(Clone, Copy, Debug, PartialEq, Eq, Structural)]
pub enum EffectStage {
    Delay,
    Chorus,
    Reverb,
}

/// The stage alone if it is switched on, nothing otherwise.
pub open spec fn stage_if(enabled: bool, stage: EffectStage) -> Seq<EffectStage> {
    if enabled {
        seq![stage]
    } else {
        Seq::empty()
    }
}

/// The stages that are switched on, in the order in which the signal passes
/// them: delay, chorus, reverb.
pub open spec fn enabled_stages(delay: bool, chorus: bool, reverb: bool) -> Seq<EffectStage> {
    stage_if(delay, EffectStage::Delay) + stage_if(chorus, EffectStage::Chorus) + stage_if(
        reverb,
        EffectStage::Reverb,
    )
}

} // verus!
