//! What happens to an animated sprite in the course of a tick.
use crate::animation::component_types::{AnimationState, ParameterizedSpriteAnimationSet};
use vstd::prelude::*;

verus! {

/// The frame that a sprite in `state` shows, if its animation shows one.
pub open spec fn frame_shown(set: ParameterizedSpriteAnimationSet, state: AnimationState) -> Option<
    nat,
> {
    match set.named(state.animation@) {
        Some(animation) => animation.sampled(0, state.elapsed as nat, state.looping),
        None => None,
    }
}

/// Puts the frame that the animation shows now into `sprite_index`. A sprite
/// whose animation shows nothing, or is not in the set, keeps its frame.
pub fn direction_parameter_animation_system(
    animation_state: &AnimationState,
    sprite_index: &mut usize,
    animation_set: &ParameterizedSpriteAnimationSet,
)
    ensures
        *final(sprite_index) == match frame_shown(*animation_set, *animation_state) {
            Some(frame) => frame,
            None => *old(sprite_index) as nat,
        },
{
    match animation_set.get_animation(animation_state.get_animation()) {
        Some(animation) => {
            proof {
                animation.lemma_base_frames_fit(
                    0,
                    animation_state.elapsed as nat,
                    animation_state.looping,
                );
            }
            match animation.sample_with_parameter(
                0,
                animation_state.elapsed,
                animation_state.looping,
            ) {
                Some(new_index) => {
                    *sprite_index = new_index;
                },
                None => {},
            }
        },
        None => {},
    }
}

} // verus!
