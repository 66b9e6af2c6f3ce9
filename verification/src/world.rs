//! The whole game: the avatar, the platforms, and what a frame does to them.

use vstd::prelude::*;
use crate::physics::{lemma_valid_is_kept, PlayerState};
use crate::platform::Platform;
use crate::player::Player;
use crate::render::{Color, DrawCommand, Rect};
use crate::units::{
    FLOOR_Y, HIGH_PLATFORM_X, HIGH_PLATFORM_Y, LOW_PLATFORM_X, LOW_PLATFORM_Y, MIDDLE_PLATFORM_X,
    MIDDLE_PLATFORM_Y, MOVE_STEP, PLATFORM_HEIGHT, PLATFORM_WIDTH, SPAWN_X, SPAWN_Y,
};

verus! {

/// The keys that are held during one frame.
#[derive(Clone, Copy, Debug, PartialEq, Eq, Structural)]
pub struct InputSnapshot {
    /// Walk to the left.
    pub left: bool,
    /// Walk to the right.
    pub right: bool,
    /// Jump.
    pub jump: bool,
}

/// The game as the rules see it: the avatar, and the rectangles of the
/// platforms in the order in which they are painted.
pub struct WorldState {
    pub player: PlayerState,
    pub platforms: Seq<Rect>,
}

/// The avatar after one frame with these keys held: a step to the left, a step
/// to the right, a jump, each if its key is held, and then a frame of motion.
pub open spec fn frame(player: PlayerState, input: InputSnapshot) -> PlayerState {
    let stepped_left = if input.left {
        player.walked(-MOVE_STEP)
    } else {
        player
    };
    let stepped_right = if input.right {
        stepped_left.walked(MOVE_STEP as int)
    } else {
        stepped_left
    };
    let jumped = if input.jump {
        stepped_right.jumped()
    } else {
        stepped_right
    };
    jumped.updated()
}

impl WorldState {
    /// The platforms of the level, lowest first.
    pub open spec fn level() -> Seq<Rect> {
        seq![
            Rect {
                x: LOW_PLATFORM_X,
                y: LOW_PLATFORM_Y,
                width: PLATFORM_WIDTH,
                height: PLATFORM_HEIGHT,
            },
            Rect {
                x: MIDDLE_PLATFORM_X,
                y: MIDDLE_PLATFORM_Y,
                width: PLATFORM_WIDTH,
                height: PLATFORM_HEIGHT,
            },
            Rect {
                x: HIGH_PLATFORM_X,
                y: HIGH_PLATFORM_Y,
                width: PLATFORM_WIDTH,
                height: PLATFORM_HEIGHT,
            },
        ]
    }

    /// The game as it begins: the avatar on its spawn point, and the level.
    pub open spec fn initial() -> WorldState {
        WorldState {
            player: PlayerState::spawned(SPAWN_X as int, SPAWN_Y as int),
            platforms: Self::level(),
        }
    }

    /// The game after one frame with these keys held. Only the avatar changes.
    pub open spec fn advanced(self, input: InputSnapshot) -> WorldState {
        WorldState { player: frame(self.player, input), ..self }
    }

    /// The game after one frame for each of `inputs`, in their order.
    pub open spec fn played(self, inputs: Seq<InputSnapshot>) -> WorldState
        decreases inputs.len(),
    {
        if inputs.len() == 0 {
            self
        } else {
            self.played(inputs.drop_last()).advanced(inputs.last())
        }
    }
}

/// The running game. It owns the avatar and the platforms.
#[derive(Clone, Debug)]
pub struct MainState {
    player: Player,
    platforms: Vec<Platform>,
}

impl View for MainState {
    type V = WorldState;

    open spec fn view(&self) -> WorldState {
        WorldState {
            player: self.spec_player()@,
            platforms: self.spec_platforms().map_values(|platform: Platform| platform@),
        }
    }
}

impl MainState {
    /// The avatar.
    pub closed spec fn spec_player(&self) -> Player {
        self.player
    }

    /// The platforms, in the order in which they are painted.
    pub closed spec fn spec_platforms(&self) -> Seq<Platform> {
        self.platforms@
    }

    /// What painting a frame takes: a white surface, the avatar, each platform
    /// in its order, and the order to show the result.
    pub open spec fn scene(&self) -> Seq<DrawCommand> {
        seq![DrawCommand::Clear(Color { r: 255, g: 255, b: 255 }), self.spec_player().drawn()]
            + self.spec_platforms().map_values(|platform: Platform| platform.drawn())
            + seq![DrawCommand::Present]
    }

    /// The game as it begins.
    pub fn new() -> (state: MainState)
        ensures
            state@ == WorldState::initial(),
    {
        let player = Player::new(SPAWN_X, SPAWN_Y);
        let mut platforms: Vec<Platform> = Vec::new();
        platforms.push(Platform::new(LOW_PLATFORM_X, LOW_PLATFORM_Y, PLATFORM_WIDTH, PLATFORM_HEIGHT));
        platforms.push(
            Platform::new(MIDDLE_PLATFORM_X, MIDDLE_PLATFORM_Y, PLATFORM_WIDTH, PLATFORM_HEIGHT),
        );
        platforms.push(
            Platform::new(HIGH_PLATFORM_X, HIGH_PLATFORM_Y, PLATFORM_WIDTH, PLATFORM_HEIGHT),
        );
        let state = MainState { player, platforms };
        assert(state@.platforms =~= WorldState::level());
        state
    }

    /// One frame of the game with these keys held: the avatar steps to the left
    /// and to the right and jumps, each if its key is held, and then moves for
    /// one frame. The platforms stay as they are.
    pub fn update(&mut self, input: InputSnapshot)
        ensures
            final(self)@ == old(self)@.advanced(input),
            final(self).spec_platforms() == old(self).spec_platforms(),
            final(self)@.player.y <= FLOOR_Y,
            input.left && input.right && old(self)@.player.x - MOVE_STEP >= i64::MIN
                ==> final(self)@.player.x == old(self)@.player.x,
    {
        if input.left {
            self.player.walk(-MOVE_STEP);
        }
        if input.right {
            self.player.walk(MOVE_STEP);
        }
        if input.jump {
            self.player.jump();
        }
        self.player.update();
    }

    /// The avatar.
    pub fn player(&self) -> (player: &Player)
        ensures
            *player == self.spec_player(),
    {
        &self.player
    }

    /// The platforms, in the order in which they are painted.
    pub fn platforms(&self) -> (platforms: &Vec<Platform>)
        ensures
            platforms@ == self.spec_platforms(),
    {
        &self.platforms
    }

    /// The commands that paint the frame, in the order in which a renderer is
    /// to carry them out.
    pub fn draw(&self) -> (commands: Vec<DrawCommand>)
        ensures
            commands@ == self.scene(),
    {
        let mut commands: Vec<DrawCommand> = Vec::new();
        commands.push(DrawCommand::Clear(Color::from_rgb(255, 255, 255)));
        commands.push(self.player.draw());
        let mut i: usize = 0;
        while i < self.platforms.len()
            invariant
                i <= self.platforms.len(),
                commands@ == seq![
                    DrawCommand::Clear(Color { r: 255, g: 255, b: 255 }),
                    self.player.drawn(),
                ] + self.platforms@.take(i as int).map_values(|platform: Platform| platform.drawn()),
            decreases self.platforms.len() - i,
        {
            commands.push(self.platforms[i].draw());
            i += 1;
        }
        commands.push(DrawCommand::Present);
        commands
    }
}

/// With both directions held, the step to the left and the step to the right
/// cancel: the frame leaves `x` where it was. The avatar must have room for the
/// step to the left within an `i64`.
pub proof fn law_opposite_steps_cancel(world: WorldState, input: InputSnapshot)
    requires
        input.left && input.right,
        i64::MIN + MOVE_STEP <= world.player.x <= i64::MAX,
    ensures
        world.advanced(input).player.x == world.player.x,
{
}

/// After any game of at least one frame, whatever keys were held, the avatar is
/// on the floor or above it.
pub proof fn law_floor_holds_in_play(world: WorldState, inputs: Seq<InputSnapshot>)
    requires
        inputs.len() >= 1,
    ensures
        world.played(inputs).player.y <= FLOOR_Y,
{
}

/// No game moves a platform, and no game changes the avatar's size.
pub proof fn law_scenery_stays(world: WorldState, inputs: Seq<InputSnapshot>)
    ensures
        world.played(inputs).platforms == world.platforms,
        world.played(inputs).player.width == world.player.width,
        world.played(inputs).player.height == world.player.height,
    decreases inputs.len(),
{
    if inputs.len() > 0 {
        law_scenery_stays(world, inputs.drop_last());
    }
}

/// A game that begins in a valid state stays in valid states.
pub proof fn law_play_stays_valid(world: WorldState, inputs: Seq<InputSnapshot>)
    requires
        world.player.valid(),
    ensures
        world.played(inputs).player.valid(),
    decreases inputs.len(),
{
    if inputs.len() > 0 {
        law_play_stays_valid(world, inputs.drop_last());
        let before = world.played(inputs.drop_last()).player;
        let input = inputs.last();
        lemma_valid_is_kept(before, -MOVE_STEP);
        let stepped_left = if input.left {
            before.walked(-MOVE_STEP)
        } else {
            before
        };
        lemma_valid_is_kept(stepped_left, MOVE_STEP as int);
        let stepped_right = if input.right {
            stepped_left.walked(MOVE_STEP as int)
        } else {
            stepped_left
        };
        lemma_valid_is_kept(stepped_right, 0);
        let jumped = if input.jump {
            stepped_right.jumped()
        } else {
            stepped_right
        };
        lemma_valid_is_kept(jumped, 0);
    }
}

} // verus!
