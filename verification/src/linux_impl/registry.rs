//! The force-feedback effects that the kernel has uploaded to the device.

use std::collections::HashMap;
use vstd::prelude::*;
use vstd::std_specs::hash::group_hash_axioms;
use crate::api::Output;
use crate::linux_impl::types::{VgpDeviceForceFeedback, VgpDeviceForceFeedbackType};

verus! {

broadcast use group_hash_axioms;

/// What playing the effect `id` gives a consumer, for the effects `effects`:
/// the magnitudes of a rumble effect, and nothing for an effect that is
/// unknown or of another type.
pub open spec fn play_output(effects: Map<i64, VgpDeviceForceFeedback>, id: i64) -> Output {
    if effects.contains_key(id) {
        match effects[id].type_ {
            VgpDeviceForceFeedbackType::Rumble { strong_magnitude, weak_magnitude } => Output::Rumble {
                large_motor: strong_magnitude,
                small_motor: weak_magnitude,
            },
            VgpDeviceForceFeedbackType::Unsupported => Output::Nothing,
        }
    } else {
        Output::Nothing
    }
}

/// The effects of one device, each under the number the kernel gave it.
/// A number names at most one effect.
pub struct Registry {
    effects: HashMap<i64, VgpDeviceForceFeedback>,
}

impl View for Registry {
    type V = Map<i64, VgpDeviceForceFeedback>;

    closed spec fn view(&self) -> Map<i64, VgpDeviceForceFeedback> {
        self.effects@
    }
}

impl Registry {
    /// A registry without effects.
    pub fn new() -> (registry: Registry)
        ensures
            registry@ == Map::<i64, VgpDeviceForceFeedback>::empty(),
    {
        Registry { effects: HashMap::new() }
    }

    /// Keeps `effect` under its number, in place of what was kept under
    /// that number before.
    pub fn store(&mut self, effect: VgpDeviceForceFeedback)
        ensures
            final(self)@ == old(self)@.insert(effect.id as i64, effect),
    {
        self.effects.insert(effect.id as i64, effect);
    }

    /// Forgets the effect `id`. That there is none is no fault.
    pub fn erase(&mut self, id: i64)
        ensures
            final(self)@ == old(self)@.remove(id),
    {
        self.effects.remove(&id);
    }

    /// The effect kept under `id`, if there is one.
    pub fn get(&self, id: i64) -> (effect: Option<VgpDeviceForceFeedback>)
        ensures
            effect == if self@.contains_key(id) {
                Some(self@[id])
            } else {
                None
            },
    {
        match self.effects.get(&id) {
            Some(effect) => Some(*effect),
            None => None,
        }
    }

    /// What playing the effect `id` gives a consumer.
    pub fn play(&self, id: i64) -> (output: Output)
        ensures
            output == play_output(self@, id),
    {
        match self.effects.get(&id) {
            Some(effect) => match effect.type_ {
                VgpDeviceForceFeedbackType::Rumble { strong_magnitude, weak_magnitude } => Output::Rumble {
                    large_motor: strong_magnitude,
                    small_motor: weak_magnitude,
                },
                VgpDeviceForceFeedbackType::Unsupported => Output::Nothing,
            },
            None => Output::Nothing,
        }
    }
}

/// An effect that was stored plays with the magnitudes it was stored with,
/// whatever the registry held before; one of another type plays as nothing.
pub proof fn lemma_play_after_store(
    effects: Map<i64, VgpDeviceForceFeedback>,
    effect: VgpDeviceForceFeedback,
)
    ensures
        play_output(effects.insert(effect.id as i64, effect), effect.id as i64) == match effect.type_ {
            VgpDeviceForceFeedbackType::Rumble { strong_magnitude, weak_magnitude } => Output::Rumble {
                large_motor: strong_magnitude,
                small_motor: weak_magnitude,
            },
            VgpDeviceForceFeedbackType::Unsupported => Output::Nothing,
        },
{
}

/// An effect that was erased plays as nothing: no magnitude outlives its
/// effect.
pub proof fn lemma_play_after_erase(effects: Map<i64, VgpDeviceForceFeedback>, id: i64)
    ensures
        play_output(effects.remove(id), id) == Output::Nothing,
{
}

/// Storing or erasing one effect leaves every other effect as it plays.
pub proof fn lemma_play_other(
    effects: Map<i64, VgpDeviceForceFeedback>,
    effect: VgpDeviceForceFeedback,
    id: i64,
    other: i64,
)
    requires
        other != id,
        other != effect.id as i64,
    ensures
        play_output(effects.insert(effect.id as i64, effect), other) == play_output(effects, other),
        play_output(effects.remove(id), other) == play_output(effects, other),
{
}

} // verus!
