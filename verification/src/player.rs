//! The player entity: an actor-like record sharing the physics
//! contract, plus the equipment/control-mode slice this core reads.
//! Input devices are a collaborator; only boolean pressed-state fields
//! are consumed here.

use vstd::prelude::*;
use crate::common::{Condition, Direction, Flag, Rect};
use crate::state::{GameState, GameStateView};

verus! {

/// How the player's motion is currently governed.
#[derive(Copy, Clone, PartialEq, Eq, Structural, Debug)]
pub enum ControlMode {
    Normal,
    /// Drill/charge mode: landings on solid actors are always hard.
    IronHead,
}

/// The equipment bits this core reads.
#[derive(Copy, Clone, PartialEq, Eq, Structural, Debug)]
pub struct Equipment {
    pub has_whimsical_star: bool,
}

/// Boolean pressed-state of the movement keys, mirrored from the input
/// collaborator once per step.
#[derive(Copy, Clone, PartialEq, Eq, Structural, Debug)]
pub struct Controller {
    pub move_left: bool,
    pub move_right: bool,
}

/// The player record. Positions and velocities use the shared
/// fixed-point convention: signed integers with 9 fractional bits.
#[derive(Copy, Clone, PartialEq, Eq, Structural, Debug)]
pub struct Player {
    pub x: i64,
    pub y: i64,
    pub vel_x: i64,
    pub vel_y: i64,
    pub hit_bounds: Rect<u32>,
    pub cond: Condition,
    pub flags: Flag,
    pub direction: Direction,
    pub control_mode: ControlMode,
    /// Set when an interact attempt found nothing; surfaces a question
    /// mark particle at the end of the collision pass.
    pub question: bool,
    pub stars: u8,
    pub life: u16,
    pub max_life: u16,
    /// Frames of post-hit invulnerability still remaining.
    pub shock_counter: u16,
    pub equip: Equipment,
    pub controller: Controller,
}

/// The damage rule: while post-hit invulnerability lasts nothing
/// happens; otherwise the hurt sound fires, invulnerability restarts,
/// and life falls saturating at zero — reaching zero clears the alive
/// condition and fires the defeat sound.
pub open spec fn spec_damage(p: Player, s: GameStateView, hp: u16) -> (Player, GameStateView) {
    if p.shock_counter > 0 {
        (p, s)
    } else {
        let life = p.life.saturating_sub(hp);
        let s1 = GameStateView { sound_queue: s.sound_queue.push(16u8), ..s };
        if life == 0 {
            (
                Player {
                    life: 0,
                    shock_counter: 128,
                    cond: Condition { alive: false, ..p.cond },
                    ..p
                },
                GameStateView { sound_queue: s1.sound_queue.push(17u8), ..s1 },
            )
        } else {
            (Player { life, shock_counter: 128, ..p }, s1)
        }
    }
}

impl Player {
    /// A blank player at the origin with one point of life.
    pub fn new() -> (r: Player)
        ensures
            r == (Player {
                x: 0i64,
                y: 0i64,
                vel_x: 0i64,
                vel_y: 0i64,
                hit_bounds: Rect { left: 0u32, top: 0u32, right: 0u32, bottom: 0u32 },
                cond: Condition::spec_cleared(),
                flags: Flag::spec_none(),
                direction: Direction::Right,
                control_mode: ControlMode::Normal,
                question: false,
                stars: 0u8,
                life: 1u16,
                max_life: 1u16,
                shock_counter: 0u16,
                equip: Equipment { has_whimsical_star: false },
                controller: Controller { move_left: false, move_right: false },
            }),
    {
        Player {
            x: 0,
            y: 0,
            vel_x: 0,
            vel_y: 0,
            hit_bounds: Rect { left: 0, top: 0, right: 0, bottom: 0 },
            cond: Condition::cleared(),
            flags: Flag::none(),
            direction: Direction::Right,
            control_mode: ControlMode::Normal,
            question: false,
            stars: 0,
            life: 1,
            max_life: 1,
            shock_counter: 0,
            equip: Equipment { has_whimsical_star: false },
            controller: Controller { move_left: false, move_right: false },
        }
    }

    /// Apply contact damage to the player.
    pub fn damage(&mut self, hp: u16, state: &mut GameState)
        ensures
            (*final(self), final(state)@) == spec_damage(*old(self), old(state)@, hp),
    {
        if self.shock_counter > 0 {
            return ;
        }
        state.play_sfx(16);
        self.shock_counter = 128;
        let life = self.life.saturating_sub(hp);
        self.life = life;
        if life == 0 {
            self.cond.alive = false;
            state.play_sfx(17);
        }
    }

    pub fn x(&self) -> (r: i64)
        ensures
            r == self.x,
    {
        self.x
    }

    pub fn y(&self) -> (r: i64)
        ensures
            r == self.y,
    {
        self.y
    }

    pub fn vel_x(&self) -> (r: i64)
        ensures
            r == self.vel_x,
    {
        self.vel_x
    }

    pub fn vel_y(&self) -> (r: i64)
        ensures
            r == self.vel_y,
    {
        self.vel_y
    }

    /// Size class of the hit rectangle used by tile collision.
    pub fn hit_rect_size(&self) -> (r: usize)
        ensures
            r == 2usize,
    {
        2
    }

    pub fn hit_bounds(&self) -> (r: &Rect<u32>)
        ensures
            r == self.hit_bounds,
    {
        &self.hit_bounds
    }

    pub fn set_x(&mut self, x: i64)
        ensures
            *final(self) == (Player { x, ..*old(self) }),
    {
        self.x = x;
    }

    pub fn set_y(&mut self, y: i64)
        ensures
            *final(self) == (Player { y, ..*old(self) }),
    {
        self.y = y;
    }

    pub fn set_vel_x(&mut self, vel_x: i64)
        ensures
            *final(self) == (Player { vel_x, ..*old(self) }),
    {
        self.vel_x = vel_x;
    }

    pub fn set_vel_y(&mut self, vel_y: i64)
        ensures
            *final(self) == (Player { vel_y, ..*old(self) }),
    {
        self.vel_y = vel_y;
    }

    pub fn cond(&mut self) -> (r: &mut Condition)
        ensures
            *r == old(self).cond,
            *final(self) == (Player { cond: *final(r), ..*old(self) }),
    {
        &mut self.cond
    }

    pub fn flags(&mut self) -> (r: &mut Flag)
        ensures
            *r == old(self).flags,
            *final(self) == (Player { flags: *final(r), ..*old(self) }),
    {
        &mut self.flags
    }

    pub fn direction(&self) -> (r: Direction)
        ensures
            r == self.direction,
    {
        self.direction
    }

    /// The player is the singleton player entity.
    pub fn is_player(&self) -> (r: bool)
        ensures
            r == true,
    {
        true
    }

    pub fn player_left_pressed(&self) -> (r: bool)
        ensures
            r == self.controller.move_left,
    {
        self.controller.move_left
    }

    pub fn player_right_pressed(&self) -> (r: bool)
        ensures
            r == self.controller.move_right,
    {
        self.controller.move_right
    }
}

} // verus!
