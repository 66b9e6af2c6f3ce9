//! The rules of the avatar's motion, over unbounded integers.
//!
//! [`PlayerState`] is the avatar as the rules see it. The functions here say
//! what a jump, a frame of falling and a step to the side make of it, and the
//! lemmas say what follows for every state and every number of frames.

use vstd::prelude::*;
use crate::units::{FLOOR_Y, GRAVITY, JUMP_RISE, JUMP_VELOCITY, PLAYER_HEIGHT, PLAYER_WIDTH};

verus! {

/// The avatar: the top left corner of its rectangle, its size, its vertical
/// speed (positive downwards) and whether it stands on the ground.
pub struct PlayerState {
    pub x: int,
    pub y: int,
    pub width: int,
    pub height: int,
    pub velocity_y: int,
    pub on_ground: bool,
}

/// The value nearest to `v` that an `i64` holds.
pub open spec fn clamp_to_i64(v: int) -> int {
    if v < i64::MIN {
        i64::MIN as int
    } else if v > i64::MAX {
        i64::MAX as int
    } else {
        v
    }
}

/// How far a body in free fall is below the highest point of its flight when
/// its speed is `v`, with gravity adding one unit of speed per frame:
/// `1 + 2 + ... + v` on the way down, and `1 + 2 + ... + (-v - 1)` on the way
/// up, where `v` is negative.
pub open spec fn drop_of(v: int) -> int {
    v * (v + 1) / 2
}

impl PlayerState {
    /// A new avatar at `(x, y)`: at rest and on the ground.
    pub open spec fn spawned(x: int, y: int) -> PlayerState {
        PlayerState {
            x,
            y,
            width: PLAYER_WIDTH as int,
            height: PLAYER_HEIGHT as int,
            velocity_y: 0,
            on_ground: true,
        }
    }

    /// The avatar after a jump was asked for: thrown upwards when it stood on
    /// the ground, unchanged when it was in the air.
    pub open spec fn jumped(self) -> PlayerState {
        if self.on_ground {
            PlayerState { velocity_y: JUMP_VELOCITY as int, on_ground: false, ..self }
        } else {
            self
        }
    }

    /// The speed at which the avatar moves in the coming frame: gravity pulls
    /// only while it is in the air.
    pub open spec fn next_speed(self) -> int {
        if self.on_ground {
            self.velocity_y
        } else {
            self.velocity_y + GRAVITY
        }
    }

    /// Where the coming frame would take the avatar if there were no floor.
    pub open spec fn reach(self) -> int {
        self.y + self.next_speed()
    }

    /// The avatar after one frame: moved by its new speed, or, where that
    /// would take it below the floor, at rest on the floor.
    pub open spec fn updated(self) -> PlayerState {
        if self.reach() > FLOOR_Y {
            PlayerState { y: FLOOR_Y as int, velocity_y: 0, on_ground: true, ..self }
        } else {
            PlayerState { y: self.reach(), velocity_y: self.next_speed(), ..self }
        }
    }

    /// The avatar after `n` frames in which nothing but gravity acts on it.
    pub open spec fn after(self, n: nat) -> PlayerState
        decreases n,
    {
        if n == 0 {
            self
        } else {
            self.after((n - 1) as nat).updated()
        }
    }

    /// The avatar moved sideways by `dx`, as far as an `i64` can follow.
    pub open spec fn walked(self, dx: int) -> PlayerState {
        PlayerState { x: clamp_to_i64(self.x + dx), ..self }
    }

    /// The `y` of the highest point of the flight that the avatar is in.
    pub open spec fn apex(self) -> int {
        self.y - drop_of(self.velocity_y)
    }

    /// The states in which an avatar can be held in machine integers, now and
    /// after any jump, frame or step: it has the avatar's size; on the ground it
    /// is at rest, with room above for a jump; in the air the highest point of
    /// its flight is within an `i64`.
    pub open spec fn valid(self) -> bool {
        &&& self.width == PLAYER_WIDTH
        &&& self.height == PLAYER_HEIGHT
        &&& i64::MIN <= self.x <= i64::MAX
        &&& self.y <= i64::MAX
        &&& self.on_ground ==> self.velocity_y == 0 && self.y - JUMP_RISE >= i64::MIN
        &&& !self.on_ground ==> self.apex() >= i64::MIN
    }
}

/// Twice the drop at speed `v` is `v * (v + 1)`: the product is even.
pub proof fn lemma_drop_doubled(v: int)
    ensures
        2 * drop_of(v) == v * (v + 1),
{
    let k = v / 2;
    if v % 2 == 0 {
        assert(v * (v + 1) == 2 * (k * (v + 1))) by (nonlinear_arith)
            requires
                v == 2 * k,
        ;
    } else {
        assert(v * (v + 1) == 2 * (v * (k + 1))) by (nonlinear_arith)
            requires
                v == 2 * k + 1,
        ;
    }
}

/// One more frame of falling adds the new speed to the drop.
pub proof fn lemma_drop_step(v: int)
    ensures
        drop_of(v + 1) == drop_of(v) + v + 1,
{
    lemma_drop_doubled(v);
    lemma_drop_doubled(v + 1);
    assert((v + 1) * (v + 1 + 1) == v * (v + 1) + 2 * (v + 1)) by (nonlinear_arith);
}

/// A drop is never negative, and a drop that fits between two `i64` values
/// belongs to a speed far inside the range of an `i64`.
pub proof fn lemma_drop_bounds_speed(v: int)
    ensures
        0 <= drop_of(v),
        drop_of(v) <= i64::MAX - i64::MIN ==> -0x2_0000_0000 <= v <= 0x2_0000_0000,
{
    lemma_drop_doubled(v);
    assert(v * (v + 1) >= 0) by (nonlinear_arith);
    assert(v > 0x2_0000_0000 ==> v * (v + 1) > 0x2_0000_0000 * 0x2_0000_0000) by (nonlinear_arith);
    assert(v < -0x2_0000_0000 ==> v * (v + 1) > 0x2_0000_0000 * 0x2_0000_0000) by (nonlinear_arith);
}

/// A jump rises as far as a body drops while it gains the speed of a jump.
pub proof fn lemma_jump_rise()
    ensures
        drop_of(JUMP_VELOCITY as int) == JUMP_RISE,
{
    assert(JUMP_VELOCITY == -20);
    assert((-20int) * (-20 + 1) == 380);
}

/// A valid state fits into machine integers, and so does where the coming
/// frame takes it.
pub proof fn lemma_valid_fits(s: PlayerState)
    requires
        s.valid(),
    ensures
        i64::MIN <= s.y <= i64::MAX,
        -0x2_0000_0000 <= s.velocity_y <= 0x2_0000_0000,
        i64::MIN <= s.reach(),
{
    lemma_drop_bounds_speed(s.velocity_y);
    lemma_drop_bounds_speed(s.next_speed());
    if !s.on_ground {
        lemma_drop_step(s.velocity_y);
    }
}

/// In the air, a frame that does not end on the floor keeps the highest point
/// of the flight where it was.
pub proof fn lemma_apex_is_kept(s: PlayerState)
    requires
        !s.updated().on_ground,
    ensures
        s.updated().apex() == s.apex(),
{
    lemma_drop_step(s.velocity_y);
}

/// A jump, a frame and a step to the side each make a valid state of a valid
/// state.
pub proof fn lemma_valid_is_kept(s: PlayerState, dx: int)
    requires
        s.valid(),
    ensures
        s.jumped().valid(),
        s.updated().valid(),
        s.walked(dx).valid(),
{
    lemma_valid_fits(s);
    lemma_jump_rise();
    if !s.updated().on_ground {
        lemma_apex_is_kept(s);
    }
}

/// A jump from the ground always gives the speed of a jump and takes the
/// avatar off the ground; in the air a jump changes nothing, so that a second
/// jump before the avatar has landed is idle.
pub proof fn law_jump(s: PlayerState)
    ensures
        s.on_ground ==> s.jumped().velocity_y == JUMP_VELOCITY && !s.jumped().on_ground,
        !s.on_ground ==> s.jumped() == s,
        s.jumped().jumped() == s.jumped(),
        s.jumped().x == s.x && s.jumped().y == s.y,
{
}

/// While the avatar is in the air and has not reached the floor, every frame
/// adds exactly [`GRAVITY`] to its speed: after `n` such frames the speed has
/// grown by `n * GRAVITY`, and the avatar has moved down by `n` times its first
/// speed and by the drop of `n` frames.
pub proof fn law_speed_grows_in_the_air(s: PlayerState, n: nat)
    requires
        forall|k: nat| k <= n ==> !(#[trigger] s.after(k)).on_ground,
    ensures
        s.after(n).velocity_y == s.velocity_y + n * GRAVITY,
        n >= 1 ==> s.after(n).velocity_y == s.after((n - 1) as nat).velocity_y + GRAVITY,
        n >= 1 ==> s.after(n).velocity_y > s.after((n - 1) as nat).velocity_y,
        s.after(n).y == s.y + n * s.velocity_y + drop_of(n as int),
    decreases n,
{
    if n > 0 {
        let m = (n - 1) as nat;
        law_speed_grows_in_the_air(s, m);
        assert(!s.after(m).on_ground);
        assert(!s.after(n).on_ground);
        lemma_drop_step(m as int);
        assert(n * s.velocity_y == m * s.velocity_y + s.velocity_y) by (nonlinear_arith)
            requires
                n == m + 1,
        ;
    } else {
        lemma_drop_doubled(0);
    }
}

/// After any frame the avatar is on the floor or above it. Where the frame
/// would have taken it below the floor, it stands on the floor, at rest and on
/// the ground.
pub proof fn law_floor_holds(s: PlayerState, n: nat)
    requires
        n >= 1,
    ensures
        s.after(n).y <= FLOOR_Y,
        s.after((n - 1) as nat).reach() > FLOOR_Y ==> s.after(n).y == FLOOR_Y,
        s.after((n - 1) as nat).reach() > FLOOR_Y ==> s.after(n).velocity_y == 0,
        s.after((n - 1) as nat).reach() > FLOOR_Y ==> s.after(n).on_ground,
{
}

} // verus!
