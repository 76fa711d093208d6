//! Properties that relate the per-frame steps across calls.

use vstd::prelude::*;
use crate::geometry::{spec_clamp, Translation, WindowSize, SUBPIXELS_PER_PIXEL};
use crate::player::{
    spec_animation_range, spec_direction_x, spec_direction_y, spec_move_delta_x,
    spec_move_delta_y, spec_next_frame, KeyboardState, PlayerRotation, PLAYER_HALF_SIZE_SUBPIX,
    PLAYER_SIZE, PLAYER_SPEED,
};

verus! {

/// After confinement, each axis of the position lies within the window
/// rectangle shrunk by half the player sprite, whenever the window is at
/// least one player sprite wide and tall.
pub proof fn lemma_confinement_bounds(t: Translation, window: WindowSize)
    requires
        window.wf(),
        window.width >= PLAYER_SIZE * SUBPIXELS_PER_PIXEL,
        window.height >= PLAYER_SIZE * SUBPIXELS_PER_PIXEL,
    ensures
        PLAYER_HALF_SIZE_SUBPIX <= spec_clamp(
            t.x as int,
            PLAYER_HALF_SIZE_SUBPIX as int,
            window.width - PLAYER_HALF_SIZE_SUBPIX,
        ) <= window.width - PLAYER_HALF_SIZE_SUBPIX,
        PLAYER_HALF_SIZE_SUBPIX <= spec_clamp(
            t.y as int,
            PLAYER_HALF_SIZE_SUBPIX as int,
            window.height - PLAYER_HALF_SIZE_SUBPIX,
        ) <= window.height - PLAYER_HALF_SIZE_SUBPIX,
{
}

/// After any animation advance, the sprite index lies within the current
/// facing's frame range, wherever it stood before.
pub proof fn lemma_frame_index_in_range(index: int, rotation: PlayerRotation)
    ensures
        spec_animation_range(rotation).first <= spec_next_frame(
            index,
            spec_animation_range(rotation),
        ) <= spec_animation_range(rotation).last,
{
}

/// When the facing has changed, the next animation advance restarts the
/// sprite index at the new facing's first frame: the facings' frame
/// ranges are disjoint, so an index from the old range falls outside the
/// new one.
pub proof fn lemma_facing_change_resets_frame(
    index: int,
    old_rotation: PlayerRotation,
    new_rotation: PlayerRotation,
)
    requires
        old_rotation != new_rotation,
        spec_animation_range(old_rotation).first <= index <= spec_animation_range(
            old_rotation,
        ).last,
    ensures
        spec_next_frame(index, spec_animation_range(new_rotation)) == spec_animation_range(
            new_rotation,
        ).first,
{
}

/// Where the player stands after a run of identical frames: each frame
/// adds the same displacement to each axis.
pub open spec fn spec_position_after_frames(
    x: int,
    y: int,
    keys: KeyboardState,
    delta_micros: int,
    frames: nat,
) -> (int, int)
    decreases frames,
{
    if frames == 0 {
        (x, y)
    } else {
        let prev = spec_position_after_frames(x, y, keys, delta_micros, (frames - 1) as nat);
        (
            prev.0 + spec_move_delta_x(keys, delta_micros),
            prev.1 + spec_move_delta_y(keys, delta_micros),
        )
    }
}

/// Holding only the "right" key, with no modifier, for a run of frames
/// moves the player by the frame count times the frame time times
/// `PLAYER_SPEED` along the x axis, and leaves y unchanged.
pub proof fn lemma_hold_right_moves_right(
    x: int,
    y: int,
    keys: KeyboardState,
    delta_micros: int,
    frames: nat,
)
    requires
        keys.right,
        !keys.left,
        !keys.up,
        !keys.down,
        !keys.shift,
    ensures
        spec_position_after_frames(x, y, keys, delta_micros, frames) == (
            x + frames * (PLAYER_SPEED * delta_micros),
            y,
        ),
    decreases frames,
{
    if frames == 0 {
    } else {
        let prev_frames: nat = (frames - 1) as nat;
        let step: int = PLAYER_SPEED * delta_micros;
        lemma_hold_right_moves_right(x, y, keys, delta_micros, prev_frames);
        assert(spec_direction_x(keys) == 1);
        assert(spec_direction_y(keys) == 0);
        assert(spec_move_delta_x(keys, delta_micros) == step);
        assert(spec_move_delta_y(keys, delta_micros) == 0);
        assert(prev_frames * step + step == frames * step) by (nonlinear_arith)
            requires
                prev_frames == frames - 1,
        ;
    }
}

/// Holding no direction key leaves the position unchanged, over any run of
/// frames (the modifier alone moves nothing).
pub proof fn lemma_no_keys_held_stays_put(
    x: int,
    y: int,
    keys: KeyboardState,
    delta_micros: int,
    frames: nat,
)
    requires
        keys.spec_none_held(),
    ensures
        spec_position_after_frames(x, y, keys, delta_micros, frames) == (x, y),
    decreases frames,
{
    if frames > 0 {
        lemma_no_keys_held_stays_put(x, y, keys, delta_micros, (frames - 1) as nat);
    }
}

} // verus!
