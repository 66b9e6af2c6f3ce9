//! The player's avatar.

use vstd::prelude::*;
use crate::physics::{lemma_valid_fits, lemma_valid_is_kept, PlayerState};
use crate::render::{Color, DrawCommand, Rect};
use crate::units::{FLOOR_Y, GRAVITY, JUMP_RISE, JUMP_VELOCITY, PLAYER_HEIGHT, PLAYER_WIDTH};

verus! {

/// The rectangle that the player steers: it walks, jumps and falls to the
/// floor. Its state is always one that [`PlayerState::valid`] accepts.
#[derive(Clone, Copy, Debug)]
pub struct Player {
    x: i64,
    y: i64,
    width: i64,
    height: i64,
    velocity_y: i64,
    on_ground: bool,
}

impl View for Player {
    type V = PlayerState;

    open spec fn view(&self) -> PlayerState {
        PlayerState {
            x: self.spec_bounds().x as int,
            y: self.spec_bounds().y as int,
            width: self.spec_bounds().width as int,
            height: self.spec_bounds().height as int,
            velocity_y: self.spec_velocity_y() as int,
            on_ground: self.spec_on_ground(),
        }
    }
}

impl Player {
    #[verifier::type_invariant]
    spec fn inv(self) -> bool {
        self@.valid()
    }

    /// The avatar's rectangle.
    pub closed spec fn spec_bounds(&self) -> Rect {
        Rect { x: self.x, y: self.y, width: self.width, height: self.height }
    }

    /// The avatar's vertical speed, positive downwards.
    pub closed spec fn spec_velocity_y(&self) -> i64 {
        self.velocity_y
    }

    /// Whether the avatar stands on the ground.
    pub closed spec fn spec_on_ground(&self) -> bool {
        self.on_ground
    }

    /// What is painted for the avatar: its rectangle, in blue.
    pub open spec fn drawn(&self) -> DrawCommand {
        DrawCommand::FillRect(self.spec_bounds(), Color { r: 0, g: 0, b: 255 })
    }

    /// A new avatar with its top left corner at `(x, y)`, in half pixels, at
    /// rest and on the ground. Above `y` there must be room for a jump within
    /// an `i64`.
    pub fn new(x: i64, y: i64) -> (player: Player)
        requires
            i64::MIN + JUMP_RISE <= y,
        ensures
            player@ == PlayerState::spawned(x as int, y as int),
    {
        Player { x, y, width: PLAYER_WIDTH, height: PLAYER_HEIGHT, velocity_y: 0, on_ground: true }
    }

    /// One frame of motion. In the air, gravity first adds to the speed. The
    /// avatar then moves by its speed, and where that would take it below the
    /// floor it comes to rest on the floor instead.
    pub fn update(&mut self)
        ensures
            final(self)@ == old(self)@.updated(),
            final(self)@.y <= FLOOR_Y,
            old(self)@.reach() > FLOOR_Y ==> final(self)@.y == FLOOR_Y,
            old(self)@.reach() > FLOOR_Y ==> final(self)@.velocity_y == 0,
            old(self)@.reach() > FLOOR_Y ==> final(self)@.on_ground,
            !old(self)@.on_ground && old(self)@.reach() <= FLOOR_Y ==> final(self)@.velocity_y
                == old(self)@.velocity_y + GRAVITY,
            !old(self)@.on_ground && old(self)@.reach() <= FLOOR_Y ==> !final(self)@.on_ground,
    {
        proof {
            use_type_invariant(&*self);
            lemma_valid_fits(self@);
            lemma_valid_is_kept(self@, 0);
        }
        let speed: i64 = if self.on_ground {
            self.velocity_y
        } else {
            self.velocity_y + GRAVITY
        };
        let reach: i128 = self.y as i128 + speed as i128;
        if reach > FLOOR_Y as i128 {
            *self = Player { y: FLOOR_Y, velocity_y: 0, on_ground: true, ..*self };
        } else {
            *self = Player { y: reach as i64, velocity_y: speed, ..*self };
        }
    }

    /// Throws the avatar upwards if it stands on the ground; in the air a jump
    /// changes nothing.
    pub fn jump(&mut self)
        ensures
            final(self)@ == old(self)@.jumped(),
            old(self)@.on_ground ==> final(self)@.velocity_y == JUMP_VELOCITY,
            old(self)@.on_ground ==> !final(self)@.on_ground,
            !old(self)@.on_ground ==> *final(self) == *old(self),
    {
        proof {
            use_type_invariant(&*self);
            lemma_valid_is_kept(self@, 0);
        }
        if self.on_ground {
            *self = Player { velocity_y: JUMP_VELOCITY, on_ground: false, ..*self };
        }
    }

    /// Moves the avatar sideways by `dx` half pixels, to the right where `dx`
    /// is positive. Nothing but the range of an `i64` holds it back.
    pub fn walk(&mut self, dx: i64)
        ensures
            final(self)@ == old(self)@.walked(dx as int),
    {
        proof {
            use_type_invariant(&*self);
            lemma_valid_is_kept(self@, dx as int);
        }
        let target: i128 = self.x as i128 + dx as i128;
        let x: i64 = if target < i64::MIN as i128 {
            i64::MIN
        } else if target > i64::MAX as i128 {
            i64::MAX
        } else {
            target as i64
        };
        *self = Player { x, ..*self };
    }

    /// The avatar's rectangle. Its size never changes.
    pub fn bounds(&self) -> (rect: Rect)
        ensures
            rect == self.spec_bounds(),
            rect.width == PLAYER_WIDTH,
            rect.height == PLAYER_HEIGHT,
    {
        proof {
            use_type_invariant(self);
        }
        Rect::new(self.x, self.y, self.width, self.height)
    }

    /// The left edge of the avatar.
    pub fn x(&self) -> (x: i64)
        ensures
            x == self@.x,
    {
        self.x
    }

    /// The top edge of the avatar.
    pub fn y(&self) -> (y: i64)
        ensures
            y == self@.y,
    {
        self.y
    }

    /// The avatar's vertical speed, positive downwards.
    pub fn velocity_y(&self) -> (speed: i64)
        ensures
            speed == self@.velocity_y,
    {
        self.velocity_y
    }

    /// Whether the avatar stands on the ground.
    pub fn on_ground(&self) -> (grounded: bool)
        ensures
            grounded == self@.on_ground,
    {
        self.on_ground
    }

    /// The command that paints the avatar.
    pub fn draw(&self) -> (command: DrawCommand)
        ensures
            command == self.drawn(),
    {
        DrawCommand::FillRect(
            Rect::new(self.x, self.y, self.width, self.height),
            Color::from_rgb(0, 0, 255),
        )
    }
}

} // verus!
