//! The player entity: per-frame input handling, direction computation,
//! animation-state selection and position integration.
//!
//! Directions are fixed-point vectors in thousandths of a unit: a unit axis
//! vector is `(±1000, 0)` or `(0, ±1000)`, a unit diagonal `(±707, ±707)`.
//! Positions are in milli-pixels; speeds in pixels per second; times in
//! milliseconds.

use vstd::prelude::*;
use crate::animation::{Animation, Animator, FrameDraw, next_elapsed, next_frame};
use crate::game_object::BaseGameObject;
use crate::geometry::Vec2i;

verus! {

/// One thousandth steps: the fixed-point scale of direction vectors.
pub const DIR_UNIT: i64 = 1000;

/// The length of a unit diagonal's components in thousandths: `√2/2`,
/// rounded.
pub const DIR_DIAG: i64 = 707;

/// Player speeds stay within this bound (in pixels per second) so that the
/// integration arithmetic cannot overflow.
pub const MAX_SPEED: i64 = 0x100000;

/// A single frame's time step stays within this bound (in milliseconds) so
/// that the integration arithmetic cannot overflow.
pub const MAX_DELTA_MS: u64 = 0x100000;

/// Player positions stay within this bound (in milli-pixels) so that the
/// integration arithmetic cannot overflow.
pub const MAX_PLAYER_POS: i64 = 0x1000_0000_0000_0000;

/// A snapshot of the four movement keys: whether each is currently held.
#[derive(Clone, Copy, Debug, PartialEq, Eq, Structural)]
pub struct InputState {
    pub up: bool,
    pub down: bool,
    pub left: bool,
    pub right: bool,
}

/// The raw x component summed from the held keys: right adds one, left
/// subtracts one.
pub open spec fn spec_raw_x(input: InputState) -> int {
    (if input.right {
        1int
    } else {
        0int
    }) - (if input.left {
        1int
    } else {
        0int
    })
}

/// The raw y component summed from the held keys: down adds one, up
/// subtracts one (the y axis points down).
pub open spec fn spec_raw_y(input: InputState) -> int {
    (if input.down {
        1int
    } else {
        0int
    }) - (if input.up {
        1int
    } else {
        0int
    })
}

/// The fixed-point normalization of a raw direction with components in
/// `{-1, 0, 1}`: zero stays zero, an axis vector becomes a thousandth-scale
/// unit vector, a diagonal becomes the rounded unit diagonal.
pub open spec fn spec_norm(dx: int, dy: int) -> (int, int) {
    if dx == 0 && dy == 0 {
        (0int, 0int)
    } else if dy == 0 {
        ((if dx > 0 {
            DIR_UNIT as int
        } else {
            -DIR_UNIT as int
        }), 0int)
    } else if dx == 0 {
        (0int, (if dy > 0 {
            DIR_UNIT as int
        } else {
            -DIR_UNIT as int
        }))
    } else {
        ((if dx > 0 {
            DIR_DIAG as int
        } else {
            -DIR_DIAG as int
        }), (if dy > 0 {
            DIR_DIAG as int
        } else {
            -DIR_DIAG as int
        }))
    }
}

/// The position change along one axis over one frame: the fixed-point
/// direction component times the speed (pixels per second) times the time
/// step (milliseconds), scaled back to milli-pixels, rounded toward zero.
pub open spec fn displacement(dir_milli: int, speed: int, delta_ms: int) -> int {
    if dir_milli >= 0 {
        dir_milli * speed * delta_ms / 1000
    } else {
        -((-dir_milli) * speed * delta_ms / 1000)
    }
}

/// Sums the held keys into a raw direction vector, each component in
/// `{-1, 0, 1}`; opposite keys cancel.
pub fn raw_direction(input: InputState) -> (d: (i64, i64))
    ensures
        d.0 == spec_raw_x(input),
        d.1 == spec_raw_y(input),
{
    let mut dx: i64 = 0;
    let mut dy: i64 = 0;
    if input.right {
        dx = dx + 1;
    }
    if input.left {
        dx = dx - 1;
    }
    if input.down {
        dy = dy + 1;
    }
    if input.up {
        dy = dy - 1;
    }
    (dx, dy)
}

/// Normalizes a raw direction vector to fixed-point unit length (or zero).
pub fn normalize_direction(dx: i64, dy: i64) -> (n: (i64, i64))
    requires
        -1 <= dx <= 1,
        -1 <= dy <= 1,
    ensures
        n.0 == spec_norm(dx as int, dy as int).0,
        n.1 == spec_norm(dx as int, dy as int).1,
{
    if dx == 0 && dy == 0 {
        (0, 0)
    } else if dy == 0 {
        (
            if dx > 0 {
                DIR_UNIT
            } else {
                -DIR_UNIT
            },
            0,
        )
    } else if dx == 0 {
        (
            0,
            if dy > 0 {
                DIR_UNIT
            } else {
                -DIR_UNIT
            },
        )
    } else {
        (
            if dx > 0 {
                DIR_DIAG
            } else {
                -DIR_DIAG
            },
            if dy > 0 {
                DIR_DIAG
            } else {
                -DIR_DIAG
            },
        )
    }
}

/// Law: for every key combination the direction is zero exactly when the
/// keys cancel (none held, or opposite keys held together), and otherwise it
/// has unit length in the fixed-point scale to within rounding — its squared
/// length is at most `1000²` and no less than `2 · 707²` — never the length
/// of an unnormalized diagonal. The raw vector's squared length never
/// exceeds 2.
pub proof fn lemma_direction_magnitude(input: InputState)
    ensures
        ({
            let dx = spec_raw_x(input);
            let dy = spec_raw_y(input);
            let n = spec_norm(dx, dy);
            &&& dx * dx + dy * dy <= 2
            &&& ((n == (0int, 0int)) <==> (input.left == input.right && input.up == input.down))
            &&& n.0 * n.0 + n.1 * n.1 <= 1000 * 1000
            &&& (n != (0int, 0int)) ==> n.0 * n.0 + n.1 * n.1 >= 999698
        }),
{
    let dx = spec_raw_x(input);
    let dy = spec_raw_y(input);
    let n = spec_norm(dx, dy);
    assert(dx * dx + dy * dy <= 2) by (nonlinear_arith)
        requires
            -1 <= dx <= 1,
            -1 <= dy <= 1,
    ;
    if dx != 0 || dy != 0 {
        if dy == 0 {
            assert(n.0 * n.0 + n.1 * n.1 == 1000000) by (nonlinear_arith)
                requires
                    n.0 == 1000 || n.0 == -1000,
                    n.1 == 0,
            ;
        } else if dx == 0 {
            assert(n.0 * n.0 + n.1 * n.1 == 1000000) by (nonlinear_arith)
                requires
                    n.1 == 1000 || n.1 == -1000,
                    n.0 == 0,
            ;
        } else {
            assert(n.0 * n.0 + n.1 * n.1 == 999698) by (nonlinear_arith)
                requires
                    n.0 == 707 || n.0 == -707,
                    n.1 == 707 || n.1 == -707,
            ;
        }
    }
}

/// The player: spatial state, health and speed, the looping animator with
/// its two clips, the sprite-sheet cell size, and the facing direction
/// recomputed every frame.
pub struct Player {
    pub game_object: BaseGameObject,
    pub hp: i64,
    /// Movement speed in pixels per second.
    pub speed: i64,
    pub animator: Animator,
    pub sprite_width: u32,
    pub sprite_height: u32,
    /// The fixed-point direction of the last update.
    pub direction: Vec2i,
}

impl Player {
    /// Well-formedness: the animator is well-formed, registers the idle and
    /// walk clips, plays one of them, and the speed is within bounds.
    pub open spec fn wf(self) -> bool {
        &&& self.animator.wf()
        &&& self.animator.has_name("idle"@)
        &&& self.animator.has_name("walk"@)
        &&& (self.animator.current() == "idle"@ || self.animator.current() == "walk"@)
        &&& 0 <= self.speed <= MAX_SPEED
    }

    /// A player at the given spatial state, with a four-frame idle clip and
    /// a six-frame walk clip (one fifth of a second per frame) registered,
    /// idling, facing nowhere. The caller owns the sprite sheet the clip
    /// coordinates refer to.
    pub fn new(
        game_object: BaseGameObject,
        hp: i64,
        speed: i64,
        sprite_width: u32,
        sprite_height: u32,
    ) -> (p: Player)
        requires
            0 <= speed <= MAX_SPEED,
            sprite_width <= crate::animation::MAX_SPRITE_DIM,
            sprite_height <= crate::animation::MAX_SPRITE_DIM,
        ensures
            p.wf(),
            p.game_object == game_object,
            p.hp == hp,
            p.speed == speed,
            p.sprite_width == sprite_width,
            p.sprite_height == sprite_height,
            p.direction == (Vec2i { x: 0, y: 0 }),
            p.animator.current() == "idle"@,
            p.animator.frame() == 0,
            p.animator.elapsed() == 0,
            p.animator.spec_anim("idle"@) == (Animation {
                frame_count: 4,
                frame_duration: 200,
                sprite_x: 0,
                sprite_y: 0,
                sprite_width,
                sprite_height,
            }),
            p.animator.spec_anim("walk"@) == (Animation {
                frame_count: 6,
                frame_duration: 200,
                sprite_x: 0,
                sprite_y: 39,
                sprite_width,
                sprite_height,
            }),
    {
        proof {
            reveal_strlit("idle");
            reveal_strlit("walk");
            assert("idle"@[0] == 'i' && "walk"@[0] == 'w');
            assert("idle"@ != "walk"@);
        }
        let mut animator = Animator::new();
        animator.add_animation(
            "idle",
            Animation {
                frame_count: 4,
                frame_duration: 200,
                sprite_x: 0,
                sprite_y: 0,
                sprite_width,
                sprite_height,
            },
        );
        animator.add_animation(
            "walk",
            Animation {
                frame_count: 6,
                frame_duration: 200,
                sprite_x: 0,
                sprite_y: 39,
                sprite_width,
                sprite_height,
            },
        );
        proof {
            assert(animator.has_name("idle"@) && animator.has_name("walk"@));
            assert(animator.spec_anim("idle"@) == (Animation {
                frame_count: 4,
                frame_duration: 200,
                sprite_x: 0,
                sprite_y: 0,
                sprite_width,
                sprite_height,
            }));
        }
        animator.set_animation("idle");
        Player {
            game_object,
            hp,
            speed,
            animator,
            sprite_width,
            sprite_height,
            direction: Vec2i::new(0, 0),
        }
    }

    /// One simulation step: sums the held keys into a direction, selects the
    /// walk clip when moving and the idle clip when not, normalizes the
    /// direction, integrates the position by `direction · speed · dt`, and
    /// advances the animation clock.
    pub fn update(&mut self, input: InputState, delta_ms: u64)
        requires
            old(self).wf(),
            old(self).animator.elapsed() + delta_ms <= u64::MAX,
            delta_ms <= MAX_DELTA_MS,
            -MAX_PLAYER_POS <= old(self).game_object.position.x <= MAX_PLAYER_POS,
            -MAX_PLAYER_POS <= old(self).game_object.position.y <= MAX_PLAYER_POS,
        ensures
            final(self).wf(),
            final(self).hp == old(self).hp,
            final(self).speed == old(self).speed,
            final(self).sprite_width == old(self).sprite_width,
            final(self).sprite_height == old(self).sprite_height,
            final(self).animator.table() == old(self).animator.table(),
            ({
                let dx = spec_raw_x(input);
                let dy = spec_raw_y(input);
                let walking = !(dx == 0 && dy == 0);
                let target: Seq<char> = if walking {
                    "walk"@
                } else {
                    "idle"@
                };
                let n = spec_norm(dx, dy);
                let frame0: nat = if target == old(self).animator.current() {
                    old(self).animator.frame()
                } else {
                    0nat
                };
                let elapsed0: nat = if target == old(self).animator.current() {
                    old(self).animator.elapsed()
                } else {
                    0nat
                };
                let a = old(self).animator.spec_anim(target);
                &&& final(self).direction.x == n.0
                &&& final(self).direction.y == n.1
                &&& final(self).animator.current() == target
                &&& final(self).animator.frame() == next_frame(
                    frame0,
                    elapsed0,
                    delta_ms as nat,
                    a.frame_duration as nat,
                    a.frame_count as nat,
                )
                &&& final(self).animator.elapsed() == next_elapsed(
                    elapsed0,
                    delta_ms as nat,
                    a.frame_duration as nat,
                )
                &&& final(self).game_object.position.x == old(self).game_object.position.x
                    + displacement(n.0, old(self).speed as int, delta_ms as int)
                &&& final(self).game_object.position.y == old(self).game_object.position.y
                    + displacement(n.1, old(self).speed as int, delta_ms as int)
            }),
    {
        proof {
            reveal_strlit("idle");
            reveal_strlit("walk");
        }
        let raw = raw_direction(input);
        if raw.0 != 0 || raw.1 != 0 {
            self.animator.set_animation("walk");
        } else {
            self.animator.set_animation("idle");
        }
        let n = normalize_direction(raw.0, raw.1);
        self.direction = Vec2i::new(n.0, n.1);
        let sp = self.speed;
        let ax: u64 = if n.0 >= 0 {
            n.0 as u64
        } else {
            (-n.0) as u64
        };
        proof {
            assert(ax as int * sp as int <= 1000 * MAX_SPEED as int) by (nonlinear_arith)
                requires
                    0 <= ax <= 1000,
                    0 <= sp <= MAX_SPEED as int,
            ;
            assert((ax as int * sp as int) * (delta_ms as int) <= (1000 * MAX_SPEED as int) * (
            MAX_DELTA_MS as int)) by (nonlinear_arith)
                requires
                    0 <= ax as int * sp as int <= 1000 * MAX_SPEED as int,
                    0 <= delta_ms <= MAX_DELTA_MS as int,
            ;
        }
        let mag_x: u64 = ax * (sp as u64) * delta_ms / 1000;
        if n.0 >= 0 {
            self.game_object.position.x = self.game_object.position.x + (mag_x as i64);
        } else {
            self.game_object.position.x = self.game_object.position.x - (mag_x as i64);
        }
        let ay: u64 = if n.1 >= 0 {
            n.1 as u64
        } else {
            (-n.1) as u64
        };
        proof {
            assert(ay as int * sp as int <= 1000 * MAX_SPEED as int) by (nonlinear_arith)
                requires
                    0 <= ay <= 1000,
                    0 <= sp <= MAX_SPEED as int,
            ;
            assert((ay as int * sp as int) * (delta_ms as int) <= (1000 * MAX_SPEED as int) * (
            MAX_DELTA_MS as int)) by (nonlinear_arith)
                requires
                    0 <= ay as int * sp as int <= 1000 * MAX_SPEED as int,
                    0 <= delta_ms <= MAX_DELTA_MS as int,
            ;
        }
        let mag_y: u64 = ay * (sp as u64) * delta_ms / 1000;
        if n.1 >= 0 {
            self.game_object.position.y = self.game_object.position.y + (mag_y as i64);
        } else {
            self.game_object.position.y = self.game_object.position.y - (mag_y as i64);
        }
        self.animator.update(delta_ms);
    }

    /// The draw data for the player's current animation frame at its
    /// position, mirrored horizontally when facing left.
    pub fn draw(&self) -> (r: (Vec2i, Option<FrameDraw>))
        requires
            self.wf(),
        ensures
            r.0 == self.game_object.position,
            ({
                let a = self.animator.spec_anim(self.animator.current());
                r.1 == Some(
                    FrameDraw {
                        source_x: (self.animator.frame() * a.sprite_width) as u64,
                        source_y: a.sprite_y,
                        source_width: a.sprite_width,
                        source_height: a.sprite_height,
                        dest_width: (2 * a.sprite_width) as u32,
                        dest_height: (2 * a.sprite_height) as u32,
                        flip_x: self.direction.x < 0,
                    },
                )
            }),
    {
        (self.game_object.position, self.animator.animate(self.direction.x < 0))
    }
}

} // verus!
