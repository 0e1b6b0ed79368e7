//! Shared plain data types of the simulation core: rectangles with four
//! independent half-extents, facing directions, and the capability /
//! condition / contact flag records that the collision and behavior
//! passes exchange.

use vstd::prelude::*;

verus! {

/// A rectangle given by four independent extents. For hit geometry the
/// four fields are half-extents measured from the entity's center; they
/// need not be symmetric.
#[derive(Copy, Clone, PartialEq, Eq, Structural, Debug)]
pub struct Rect<T> {
    pub left: T,
    pub top: T,
    pub right: T,
    pub bottom: T,
}

/// Facing direction of an actor. `FacingPlayer` is resolved at spawn time.
#[derive(Copy, Clone, PartialEq, Eq, Structural, Debug)]
pub enum Direction {
    Left,
    Up,
    Right,
    Bottom,
    FacingPlayer,
}

impl Direction {
    /// Horizontal unit vector of the direction: -1 for left, 1 for right,
    /// 0 for the vertical and unresolved directions.
    pub open spec fn spec_vector_x(self) -> i64 {
        match self {
            Direction::Left => -1i64,
            Direction::Right => 1i64,
            _ => 0i64,
        }
    }

    pub fn vector_x(self) -> (r: i64)
        ensures
            r == self.spec_vector_x(),
    {
        match self {
            Direction::Left => -1,
            Direction::Right => 1,
            _ => 0,
        }
    }
}

/// Ephemeral contact bits produced by one collision judgment: which of
/// the four sides touched in that call. Combined into persistent flags
/// by `merge` and cleared at the start of each step.
#[derive(Copy, Clone, PartialEq, Eq, Structural, Debug)]
pub struct Flag {
    pub hit_left_wall: bool,
    pub hit_right_wall: bool,
    pub hit_top_wall: bool,
    pub hit_bottom_wall: bool,
}

impl Flag {
    pub open spec fn spec_none() -> Flag {
        Flag { hit_left_wall: false, hit_right_wall: false, hit_top_wall: false, hit_bottom_wall: false }
    }

    pub fn none() -> (r: Flag)
        ensures
            r == Flag::spec_none(),
    {
        Flag { hit_left_wall: false, hit_right_wall: false, hit_top_wall: false, hit_bottom_wall: false }
    }

    /// True if any side registered contact.
    pub open spec fn spec_any(self) -> bool {
        self.hit_left_wall || self.hit_right_wall || self.hit_top_wall || self.hit_bottom_wall
    }

    pub fn any(self) -> (r: bool)
        ensures
            r == self.spec_any(),
    {
        self.hit_left_wall || self.hit_right_wall || self.hit_top_wall || self.hit_bottom_wall
    }

    /// Bitwise-or combination of two contact records.
    pub open spec fn spec_merge(self, other: Flag) -> Flag {
        Flag {
            hit_left_wall: self.hit_left_wall || other.hit_left_wall,
            hit_right_wall: self.hit_right_wall || other.hit_right_wall,
            hit_top_wall: self.hit_top_wall || other.hit_top_wall,
            hit_bottom_wall: self.hit_bottom_wall || other.hit_bottom_wall,
        }
    }

    pub fn merge(self, other: Flag) -> (r: Flag)
        ensures
            r == self.spec_merge(other),
    {
        Flag {
            hit_left_wall: self.hit_left_wall || other.hit_left_wall,
            hit_right_wall: self.hit_right_wall || other.hit_right_wall,
            hit_top_wall: self.hit_top_wall || other.hit_top_wall,
            hit_bottom_wall: self.hit_bottom_wall || other.hit_bottom_wall,
        }
    }
}

/// Per-entity condition bits: liveness, a pending interact request,
/// visibility, and the boss-only damage routing mark.
#[derive(Copy, Clone, PartialEq, Eq, Structural, Debug)]
pub struct Condition {
    pub alive: bool,
    pub interacted: bool,
    pub hidden: bool,
    pub damage_boss: bool,
}

impl Condition {
    pub open spec fn spec_cleared() -> Condition {
        Condition { alive: false, interacted: false, hidden: false, damage_boss: false }
    }

    pub fn cleared() -> (r: Condition)
        ensures
            r == Condition::spec_cleared(),
    {
        Condition { alive: false, interacted: false, hidden: false, damage_boss: false }
    }
}

/// Orthogonal capability bits of an actor; they select the collision
/// regime and gate the side-effect dispatch. Not a type hierarchy.
#[derive(Copy, Clone, PartialEq, Eq, Structural, Debug)]
pub struct NpcFlags {
    pub solid_soft: bool,
    pub solid_hard: bool,
    pub bouncy: bool,
    pub invulnerable: bool,
    pub shootable: bool,
    pub interactable: bool,
    pub event_when_touched: bool,
    pub event_when_killed: bool,
    pub ignore_solidity: bool,
    pub rear_and_top_not_hurt: bool,
    pub show_damage: bool,
}

impl NpcFlags {
    pub open spec fn spec_cleared() -> NpcFlags {
        NpcFlags {
            solid_soft: false,
            solid_hard: false,
            bouncy: false,
            invulnerable: false,
            shootable: false,
            interactable: false,
            event_when_touched: false,
            event_when_killed: false,
            ignore_solidity: false,
            rear_and_top_not_hurt: false,
            show_damage: false,
        }
    }

    pub fn cleared() -> (r: NpcFlags)
        ensures
            r == NpcFlags::spec_cleared(),
    {
        NpcFlags {
            solid_soft: false,
            solid_hard: false,
            bouncy: false,
            invulnerable: false,
            shootable: false,
            interactable: false,
            event_when_touched: false,
            event_when_killed: false,
            ignore_solidity: false,
            rear_and_top_not_hurt: false,
            show_damage: false,
        }
    }
}

/// World-level control bits consumed by the scripting and UI layers.
#[derive(Copy, Clone, PartialEq, Eq, Structural, Debug)]
pub struct ControlFlags {
    pub tick_world: bool,
    pub control_enabled: bool,
    pub interactions_disabled: bool,
}

impl ControlFlags {
    pub open spec fn spec_cleared() -> ControlFlags {
        ControlFlags { tick_world: false, control_enabled: false, interactions_disabled: false }
    }

    pub fn cleared() -> (r: ControlFlags)
        ensures
            r == ControlFlags::spec_cleared(),
    {
        ControlFlags { tick_world: false, control_enabled: false, interactions_disabled: false }
    }
}

/// Screen fade state; the simulation core only ever forces it hidden.
#[derive(Copy, Clone, PartialEq, Eq, Structural, Debug)]
pub enum FadeState {
    Hidden,
    Visible,
}

/// Kinds of purely cosmetic particle entities the core may request.
#[derive(Copy, Clone, PartialEq, Eq, Structural, Debug)]
pub enum CaretType {
    LevelUp,
    QuestionMark,
    ProjectileDissipation,
}

/// A requested cosmetic particle: position, kind and facing. The core
/// only records the request; presentation is a collaborator's concern.
#[derive(Copy, Clone, PartialEq, Eq, Structural, Debug)]
pub struct Caret {
    pub x: i64,
    pub y: i64,
    pub ctype: CaretType,
    pub direction: Direction,
}

/// Which player entity an event is attributed to.
#[derive(Copy, Clone, PartialEq, Eq, Structural, Debug)]
pub enum TargetPlayer {
    Player1,
    Player2,
}

} // verus!
