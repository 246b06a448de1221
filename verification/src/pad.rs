//! A player's paddle: a sprite of fixed size under directional control,
//! constrained to the vertical axis.

use vstd::prelude::*;

use crate::color::{Color, DefinedColors};
use crate::commons::{Point, Side, HEIGHT, WIDTH};
use crate::sprite::Sprite;

verus! {

/// Paddle sprite width, in centiunits (20 logical units).
pub const PAD_SPRITE_WIDTH: i64 = 2000;

/// Paddle sprite height, in centiunits (120 logical units).
pub const PAD_SPRITE_HEIGHT: i64 = 12000;

/// Paddle speed for discrete directional moves, in centiunits per tick.
pub const PAD_SPEED: i64 = 300;

/// The sprite a fresh paddle starts with: hugging its side's wall, centered
/// vertically, at rest.
pub open spec fn spec_default_pad_sprite(side: Side) -> Sprite {
    let center_x = match side {
        Side::LEFT => PAD_SPRITE_WIDTH / 2,
        Side::RIGHT => WIDTH - PAD_SPRITE_WIDTH / 2,
    };
    Sprite {
        upper_left: Point { x: (center_x - PAD_SPRITE_WIDTH / 2) as i64, y: (HEIGHT / 2
            - PAD_SPRITE_HEIGHT / 2) as i64 },
        lower_right: Point { x: (center_x + PAD_SPRITE_WIDTH / 2) as i64, y: (HEIGHT / 2
            + PAD_SPRITE_HEIGHT / 2) as i64 },
        width: PAD_SPRITE_WIDTH,
        height: PAD_SPRITE_HEIGHT,
        velocity: [0, 0],
        speed: PAD_SPEED,
    }
}

fn make_default_pad_sprite(side: Side) -> (s: Sprite)
    ensures
        s == spec_default_pad_sprite(side),
        s.wf(),
{
    let pad_position = [
        match side {
            Side::LEFT => PAD_SPRITE_WIDTH / 2,
            Side::RIGHT => WIDTH - PAD_SPRITE_WIDTH / 2,
        },
        HEIGHT / 2,
    ];
    Sprite::new(
        Point { x: pad_position[0], y: pad_position[1] },
        PAD_SPRITE_WIDTH,
        PAD_SPRITE_HEIGHT,
        PAD_SPEED,
        [0, 0],
    )
}

/// The paddle as it stands after `up`: heading straight up at its speed.
pub open spec fn spec_pad_up(p: Pad) -> Pad {
    Pad { sprite: Sprite { velocity: [0, (-p.sprite.speed) as i64], ..p.sprite }, ..p }
}

/// The paddle as it stands after `down`: heading straight down at its speed.
pub open spec fn spec_pad_down(p: Pad) -> Pad {
    Pad { sprite: Sprite { velocity: [0, p.sprite.speed], ..p.sprite }, ..p }
}

/// The paddle as it stands after `stop`: at rest.
pub open spec fn spec_pad_stop(p: Pad) -> Pad {
    Pad { sprite: Sprite { velocity: [0, 0], ..p.sprite }, ..p }
}

pub struct Pad {
    pub sprite: Sprite,
    pub height: i64,
    pub width: i64,
    pub color: Color,
}

impl Pad {
    /// The paddle's sprite is a well-formed rectangle of the paddle size.
    pub open spec fn wf(self) -> bool {
        &&& self.sprite.wf()
        &&& self.sprite.width == PAD_SPRITE_WIDTH
        &&& self.sprite.height == PAD_SPRITE_HEIGHT
    }

    /// Places the paddle against its side's wall, vertically centered and at
    /// rest.
    pub fn new(side: Side) -> (p: Pad)
        ensures
            p.wf(),
            p.sprite == spec_default_pad_sprite(side),
            p.height == 6000,
            p.width == 2000,
    {
        Pad {
            sprite: make_default_pad_sprite(side),
            height: 6000,
            width: 2000,
            color: Color::new(DefinedColors::RED),
        }
    }

    /// Starts moving up at the paddle speed.
    pub fn up(&mut self)
        requires
            old(self).wf(),
        ensures
            *final(self) == spec_pad_up(*old(self)),
            final(self).wf(),
    {
        self.sprite.up();
        proof {
            assert(self.sprite.velocity =~= spec_pad_up(*old(self)).sprite.velocity);
        }
    }

    /// Starts moving down at the paddle speed.
    pub fn down(&mut self)
        requires
            old(self).wf(),
        ensures
            *final(self) == spec_pad_down(*old(self)),
            final(self).wf(),
    {
        self.sprite.down();
        proof {
            assert(self.sprite.velocity =~= spec_pad_down(*old(self)).sprite.velocity);
        }
    }

    /// Stops the paddle.
    pub fn stop(&mut self)
        requires
            old(self).wf(),
        ensures
            *final(self) == spec_pad_stop(*old(self)),
            final(self).wf(),
    {
        self.sprite.stop();
        proof {
            assert(self.sprite.velocity =~= spec_pad_stop(*old(self)).sprite.velocity);
        }
    }

    /// One tick of motion: the sprite advances and is clamped into the play
    /// field.
    pub fn update(&mut self)
        requires
            old(self).wf(),
        ensures
            final(self).sprite == old(self).sprite.updated(),
            *final(self) == (Pad { sprite: final(self).sprite, ..*old(self) }),
            final(self).wf(),
            final(self).sprite.in_play_area(),
    {
        self.sprite.update();
    }
}

} // verus!
