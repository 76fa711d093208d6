//! The player: facing, animation state and the three per-frame steps.

use vstd::prelude::*;
use crate::geometry::{
    spec_clamp, spec_window_center, Translation, WindowSize, MAX_COORD, MAX_FRAME_MICROS,
    SUBPIXELS_PER_PIXEL,
};

verus! {

/// Player speed in pixels per second.
pub const PLAYER_SPEED: i64 = 100;

/// Player sprite extent in pixels (the sprite is square).
pub const PLAYER_SIZE: i64 = 64;

/// Half the player sprite extent (32 pixels), in subpixels.
pub const PLAYER_HALF_SIZE_SUBPIX: i64 = 32 * SUBPIXELS_PER_PIXEL;

/// The cardinal direction the player currently faces.
#[derive(Clone, Copy, PartialEq, Eq, Structural, Debug)]
pub enum PlayerRotation {
    Up,
    Down,
    Left,
    Right,
}

/// The player entity's own state.
#[derive(Clone, Copy, PartialEq, Eq, Structural, Debug)]
pub struct Player {
    pub rotation: PlayerRotation,
}

/// A contiguous span of sprite-sheet frame indices.
#[derive(Clone, Copy, PartialEq, Eq, Structural, Debug)]
pub struct AnimationIndices {
    pub first: usize,
    pub last: usize,
}

/// Longest duration an animation timer may be built with, in microseconds
/// (one hour): keeps timer arithmetic far from `u64` overflow.
pub const MAX_TIMER_MICROS: u64 = 3_600_000_000;

/// A repeating timer: `elapsed_micros` accumulates frame time and wraps
/// each time it reaches `duration_micros`.
#[derive(Clone, Copy, PartialEq, Eq, Structural, Debug)]
pub struct AnimationTimer {
    pub elapsed_micros: u64,
    pub duration_micros: u64,
}

impl AnimationTimer {
    /// A usable timer has a positive, bounded period and has not yet
    /// reached it.
    pub open spec fn wf(self) -> bool {
        0 < self.duration_micros <= MAX_TIMER_MICROS
            && self.elapsed_micros < self.duration_micros
    }

    /// Whether advancing the timer by `delta_micros` makes it finish.
    pub open spec fn spec_fires(self, delta_micros: int) -> bool {
        self.elapsed_micros + delta_micros >= self.duration_micros
    }

    /// Advances the timer by `delta_micros`; returns whether it finished
    /// (once or more) during this tick. The time beyond full periods is
    /// carried into the next period.
    pub fn tick(&mut self, delta_micros: u64) -> (finished: bool)
        requires
            old(self).wf(),
            delta_micros <= MAX_FRAME_MICROS,
        ensures
            final(self).wf(),
            final(self).duration_micros == old(self).duration_micros,
            final(self).elapsed_micros
                == (old(self).elapsed_micros + delta_micros) % (old(self).duration_micros as int),
            finished == old(self).spec_fires(delta_micros as int),
    {
        let total: u64 = self.elapsed_micros + delta_micros;
        let finished: bool = total >= self.duration_micros;
        self.elapsed_micros = total % self.duration_micros;
        finished
    }
}

/// The set of keys held during one frame: the four direction keys and the
/// speed modifier.
#[derive(Clone, Copy, PartialEq, Eq, Structural, Debug)]
pub struct KeyboardState {
    pub left: bool,
    pub right: bool,
    pub up: bool,
    pub down: bool,
    pub shift: bool,
}

impl KeyboardState {
    /// No key held at all.
    pub open spec fn spec_none_held(self) -> bool {
        !self.left && !self.right && !self.up && !self.down
    }
}

/// Per-axis contribution magnitude: the modifier key doubles it.
pub open spec fn spec_speed_multiplier(keys: KeyboardState) -> int {
    if keys.shift {
        2
    } else {
        1
    }
}

/// Horizontal direction units accumulated from the held keys. Opposite
/// keys cancel; the modifier scales each contribution, so a diagonal is
/// not renormalized and is faster than an axis-aligned move.
pub open spec fn spec_direction_x(keys: KeyboardState) -> int {
    (if keys.right {
        spec_speed_multiplier(keys)
    } else {
        0
    }) - (if keys.left {
        spec_speed_multiplier(keys)
    } else {
        0
    })
}

/// Vertical direction units accumulated from the held keys.
pub open spec fn spec_direction_y(keys: KeyboardState) -> int {
    (if keys.up {
        spec_speed_multiplier(keys)
    } else {
        0
    }) - (if keys.down {
        spec_speed_multiplier(keys)
    } else {
        0
    })
}

/// Horizontal displacement of one frame, in subpixels. `PLAYER_SPEED` is
/// in pixels per second, which is exactly subpixels per microsecond.
pub open spec fn spec_move_delta_x(keys: KeyboardState, delta_micros: int) -> int {
    spec_direction_x(keys) * (PLAYER_SPEED * delta_micros)
}

/// Vertical displacement of one frame, in subpixels.
pub open spec fn spec_move_delta_y(keys: KeyboardState, delta_micros: int) -> int {
    spec_direction_y(keys) * (PLAYER_SPEED * delta_micros)
}

/// The facing after one movement step. The direction keys are evaluated
/// left, right, up, down, each held one overwriting the facing, so the
/// last-evaluated held key wins; with no direction key held the facing
/// stays.
pub open spec fn spec_new_rotation(keys: KeyboardState, rotation: PlayerRotation) -> PlayerRotation {
    if keys.down {
        PlayerRotation::Down
    } else if keys.up {
        PlayerRotation::Up
    } else if keys.right {
        PlayerRotation::Right
    } else if keys.left {
        PlayerRotation::Left
    } else {
        rotation
    }
}

/// One movement step: adds to the position the held keys' direction times
/// `PLAYER_SPEED` times the frame time, and turns the player toward the
/// last-evaluated held direction key. The depth layer is untouched.
pub fn player_movement(
    keys: &KeyboardState,
    transform: &mut Translation,
    player: &mut Player,
    delta_micros: u64,
)
    requires
        -MAX_COORD <= old(transform).x <= MAX_COORD,
        -MAX_COORD <= old(transform).y <= MAX_COORD,
        delta_micros <= MAX_FRAME_MICROS,
    ensures
        final(transform).x == old(transform).x + spec_move_delta_x(*keys, delta_micros as int),
        final(transform).y == old(transform).y + spec_move_delta_y(*keys, delta_micros as int),
        final(transform).z == old(transform).z,
        final(player).rotation == spec_new_rotation(*keys, old(player).rotation),
{
    let speed: i64 = if keys.shift {
        2
    } else {
        1
    };
    let mut dir_x: i64 = 0;
    let mut dir_y: i64 = 0;

    if keys.left {
        player.rotation = PlayerRotation::Left;
        dir_x = dir_x - speed;
    }
    if keys.right {
        player.rotation = PlayerRotation::Right;
        dir_x = dir_x + speed;
    }
    if keys.up {
        player.rotation = PlayerRotation::Up;
        dir_y = dir_y + speed;
    }
    if keys.down {
        player.rotation = PlayerRotation::Down;
        dir_y = dir_y - speed;
    }

    let step: i64 = PLAYER_SPEED * (delta_micros as i64);
    proof {
        assert(-2_000_000_000 <= dir_x * step <= 2_000_000_000) by (nonlinear_arith)
            requires
                -2 <= dir_x <= 2,
                0 <= step <= 1_000_000_000,
        ;
        assert(-2_000_000_000 <= dir_y * step <= 2_000_000_000) by (nonlinear_arith)
            requires
                -2 <= dir_y <= 2,
                0 <= step <= 1_000_000_000,
        ;
    }
    transform.x = transform.x + dir_x * step;
    transform.y = transform.y + dir_y * step;
}

/// The walk-cycle frame span of each facing: one six-tile row of the
/// sprite sheet, in the order down, left, up, right from the top.
pub open spec fn spec_animation_range(rotation: PlayerRotation) -> AnimationIndices {
    match rotation {
        PlayerRotation::Down => AnimationIndices { first: 0, last: 5 },
        PlayerRotation::Up => AnimationIndices { first: 12, last: 17 },
        PlayerRotation::Left => AnimationIndices { first: 6, last: 11 },
        PlayerRotation::Right => AnimationIndices { first: 18, last: 23 },
    }
}

/// The walk-cycle frame span of the given facing.
pub fn animation_range(rotation: &PlayerRotation) -> (range: AnimationIndices)
    ensures
        range == spec_animation_range(*rotation),
{
    match rotation {
        PlayerRotation::Down => AnimationIndices { first: 0, last: 5 },
        PlayerRotation::Up => AnimationIndices { first: 12, last: 17 },
        PlayerRotation::Left => AnimationIndices { first: 6, last: 11 },
        PlayerRotation::Right => AnimationIndices { first: 18, last: 23 },
    }
}

/// The frame shown after one animation advance: the next frame of the
/// range, restarting at its first frame when the index is at the range's
/// end or outside the range altogether (as after a facing change).
pub open spec fn spec_next_frame(index: int, range: AnimationIndices) -> int {
    if index >= range.last || index < range.first {
        range.first as int
    } else {
        index + 1
    }
}

/// One animation step: advances the timer by the frame time and, each time
/// the timer finishes, moves the sprite index one frame forward within the
/// current facing's range, restarting at the range's first frame when the
/// index is at the range's end or outside the range.
pub fn animate_sprite(
    player: &Player,
    timer: &mut AnimationTimer,
    sprite_index: &mut usize,
    delta_micros: u64,
)
    requires
        old(timer).wf(),
        delta_micros <= MAX_FRAME_MICROS,
    ensures
        final(timer).wf(),
        final(timer).duration_micros == old(timer).duration_micros,
        final(timer).elapsed_micros
            == (old(timer).elapsed_micros + delta_micros) % (old(timer).duration_micros as int),
        old(timer).spec_fires(delta_micros as int) ==> *final(sprite_index) as int
            == spec_next_frame(*old(sprite_index) as int, spec_animation_range(player.rotation)),
        !old(timer).spec_fires(delta_micros as int) ==> *final(sprite_index) == *old(
            sprite_index,
        ),
{
    let range: AnimationIndices = animation_range(&player.rotation);
    let finished: bool = timer.tick(delta_micros);

    if finished {
        if *sprite_index >= range.last || *sprite_index < range.first {
            *sprite_index = range.first;
        } else {
            *sprite_index = *sprite_index + 1;
        }
    }
}

/// Animation period: the timer finishes every tenth of a second.
pub const ANIMATION_PERIOD_MICROS: u64 = 100_000;

/// Side of one square sprite-sheet tile, in pixels.
pub const SHEET_TILE_PIXELS: i64 = 96;

/// Tiles per sprite-sheet row.
pub const SHEET_COLUMNS: usize = 6;

/// Rows on the sprite sheet.
pub const SHEET_ROWS: usize = 8;

/// Everything the player entity starts with.
#[derive(Clone, Copy, PartialEq, Eq, Structural, Debug)]
pub struct PlayerBundle {
    pub transform: Translation,
    pub sprite_index: usize,
    pub animation_indices: AnimationIndices,
    pub timer: AnimationTimer,
    pub player: Player,
}

/// The player's starting state: at the centre of the window on the sprite
/// plane, facing down, showing the run animation's first frame, with a
/// fresh repeating animation timer.
pub fn spawn_player(window: &WindowSize) -> (bundle: PlayerBundle)
    requires
        window.wf(),
    ensures
        bundle.transform == spec_window_center(*window, 0),
        bundle.animation_indices == (AnimationIndices { first: 1, last: 47 }),
        bundle.sprite_index == bundle.animation_indices.first,
        bundle.timer == (AnimationTimer { elapsed_micros: 0, duration_micros: ANIMATION_PERIOD_MICROS }),
        bundle.timer.wf(),
        bundle.player.rotation == PlayerRotation::Down,
{
    let transform: Translation = crate::geometry::window_center(window, 0);
    // The run animation uses the sheet's tiles from the second onward.
    let animation_indices = AnimationIndices { first: 1, last: 47 };

    PlayerBundle {
        transform,
        sprite_index: animation_indices.first,
        animation_indices,
        timer: AnimationTimer { elapsed_micros: 0, duration_micros: ANIMATION_PERIOD_MICROS },
        player: Player { rotation: PlayerRotation::Down },
    }
}

/// Clamps each axis of the position into the window rectangle, leaving a
/// margin of half the player sprite on every side so the sprite stays fully
/// visible. The depth layer is untouched.
pub fn confine_player_movement(transform: &mut Translation, window: &WindowSize)
    requires
        window.wf(),
    ensures
        final(transform).x == spec_clamp(
            old(transform).x as int,
            PLAYER_HALF_SIZE_SUBPIX as int,
            window.width - PLAYER_HALF_SIZE_SUBPIX,
        ),
        final(transform).y == spec_clamp(
            old(transform).y as int,
            PLAYER_HALF_SIZE_SUBPIX as int,
            window.height - PLAYER_HALF_SIZE_SUBPIX,
        ),
        final(transform).z == old(transform).z,
{
    let x_min: i64 = PLAYER_HALF_SIZE_SUBPIX;
    let x_max: i64 = window.width - PLAYER_HALF_SIZE_SUBPIX;
    let y_min: i64 = PLAYER_HALF_SIZE_SUBPIX;
    let y_max: i64 = window.height - PLAYER_HALF_SIZE_SUBPIX;

    if transform.x < x_min {
        transform.x = x_min;
    } else if transform.x > x_max {
        transform.x = x_max;
    }

    if transform.y < y_min {
        transform.y = y_min;
    } else if transform.y > y_max {
        transform.y = y_max;
    }
}

} // verus!
