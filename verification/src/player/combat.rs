//! How the player gets over a hit.
use crate::player::PlayerState;
use crate::terrain::grounded::GroundedState;
use vstd::prelude::*;

verus! {

/// Ends the hit stun of a player that stands on the ground again. Any
/// other player stays in its state.
pub fn player_hit_stun_recovery_system(grounded_state: &GroundedState, player_state: &mut PlayerState)
    ensures
        *final(player_state) == old(player_state).recovered(grounded_state.grounded()),
{
    player_state.recover(grounded_state.on_the_ground());
}

} // verus!
