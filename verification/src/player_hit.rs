//! Player-vs-actor collision judging and resolution, and the
//! side-effect dispatch that follows a contact: pickups, scripted event
//! triggers, and contact damage. Three mutually exclusive resolution
//! regimes apply, selected by the actor's capability flags.

use vstd::prelude::*;
use crate::common::{CaretType, Direction, Flag, TargetPlayer};
use crate::inventory::{AddExperienceResult, Inventory, InventoryView, spec_add_xp};
use crate::npc::NPC;
use crate::physics::{solid_hard_axis_horizontal, spec_abs, spec_axis_horizontal};
use crate::player::{ControlMode, Player, spec_damage};
use crate::state::{GameState, GameStateView};
use crate::common::Caret;

verus! {

/// The larger of two integers.
pub open spec fn spec_max(a: int, b: int) -> int {
    if a >= b {
        a
    } else {
        b
    }
}

/// Coordinate and velocity ranges an actor must stay in for the
/// collision arithmetic to be exact on 64-bit fixed-point values.
pub open spec fn npc_in_range(n: NPC) -> bool {
    &&& -0x1_0000_0000_0000 <= n.x <= 0x1_0000_0000_0000
    &&& -0x1_0000_0000_0000 <= n.y <= 0x1_0000_0000_0000
    &&& -0x4000_0000 <= n.vel_x <= 0x4000_0000
    &&& -0x4000_0000 <= n.vel_y <= 0x4000_0000
}

/// The looser range the player may wander in during a collision pass;
/// each resolution can drift the player by at most one actor velocity.
pub open spec fn player_in_range(p: Player) -> bool {
    &&& -0x2000_0000_0000_0000 <= p.x <= 0x2000_0000_0000_0000
    &&& -0x2000_0000_0000_0000 <= p.y <= 0x2000_0000_0000_0000
    &&& -0x8000_0000 <= p.vel_x <= 0x8000_0000
    &&& -0x8000_0000 <= p.vel_y <= 0x8000_0000
}

/// The slightly wider envelope a resolution block may be entered in:
/// a judge entered at the edge of `player_in_range` drifts by at most a
/// few actor velocities across its blocks.
pub open spec fn player_wide_range(p: Player) -> bool {
    &&& -0x2100_0000_0000_0000 <= p.x <= 0x2100_0000_0000_0000
    &&& -0x2100_0000_0000_0000 <= p.y <= 0x2100_0000_0000_0000
    &&& -0x8000_0000 <= p.vel_x <= 0x8000_0000
    &&& -0x8000_0000 <= p.vel_y <= 0x8000_0000
}

/// Solid-soft left-side contact: inside the actor's right flank within
/// the vertically inset band; nudges leftward motion toward rest.
pub open spec fn soft_left(p: Player, n: NPC) -> (Player, bool) {
    let c = p.y - p.hit_bounds.top < n.y + n.hit_bounds.bottom - 0x600 && p.y + p.hit_bounds.top
        > n.y - n.hit_bounds.bottom + 0x600 && p.x - p.hit_bounds.right < n.x
        + n.hit_bounds.right && p.x - p.hit_bounds.right > n.x;
    if c {
        (
            if p.vel_x < 0x200 {
                Player { vel_x: (p.vel_x + 0x200) as i64, ..p }
            } else {
                p
            },
            true,
        )
    } else {
        (p, false)
    }
}

/// Solid-soft right-side contact, mirror of `soft_left`.
pub open spec fn soft_right(p: Player, n: NPC) -> (Player, bool) {
    let c = p.y - p.hit_bounds.top < n.y + n.hit_bounds.bottom - 0x600 && p.y + p.hit_bounds.top
        > n.y - n.hit_bounds.bottom + 0x600 && p.x + p.hit_bounds.right - 0x200 > n.x
        - n.hit_bounds.right && p.x + p.hit_bounds.right - 0x200 < n.x;
    if c {
        (
            if p.vel_x > -0x200 {
                Player { vel_x: (p.vel_x - 0x200) as i64, ..p }
            } else {
                p
            },
            true,
        )
    } else {
        (p, false)
    }
}

/// Solid-soft head bump: clamps upward velocity to zero.
pub open spec fn soft_top(p: Player, n: NPC) -> (Player, bool) {
    let c = p.x - p.hit_bounds.right < n.x + n.hit_bounds.right - 0x600 && p.x + p.hit_bounds.right
        > n.x - n.hit_bounds.right + 0x600 && p.y - p.hit_bounds.top < n.y + n.hit_bounds.bottom
        && p.y - p.hit_bounds.top > n.y;
    if c {
        (
            if p.vel_y < 0 {
                Player { vel_y: 0i64, ..p }
            } else {
                p
            },
            true,
        )
    } else {
        (p, false)
    }
}

/// Solid-soft landing: a bouncy actor kicks the player up off its own
/// velocity; otherwise a player falling faster than the actor is snapped
/// flush onto the actor's top bound, inherits its vertical velocity and
/// is carried by its horizontal one (platform riding).
pub open spec fn soft_bottom(p: Player, n: NPC) -> (Player, bool) {
    let c = p.x - p.hit_bounds.right < n.x + n.hit_bounds.right - 0x600 && p.x + p.hit_bounds.right
        > n.x - n.hit_bounds.right + 0x600 && p.y + p.hit_bounds.bottom - 0x200 > n.y
        - n.hit_bounds.top && p.y + p.hit_bounds.bottom - 0x200 < n.y + 0x600;
    if c {
        if n.npc_flags.bouncy {
            (Player { vel_y: (n.vel_y - 0x200) as i64, ..p }, true)
        } else if !p.flags.hit_bottom_wall && p.vel_y > n.vel_y {
            (
                Player {
                    y: (n.y - n.hit_bounds.top - p.hit_bounds.bottom + 0x200) as i64,
                    vel_y: n.vel_y,
                    x: (p.x + n.vel_x) as i64,
                    ..p
                },
                true,
            )
        } else {
            (p, false)
        }
    } else {
        (p, false)
    }
}

/// The solid-soft judgment: four independent axis-aligned overlap tests
/// with a three-pixel slack against edge flicker, applied in the fixed
/// left, right, top, bottom order on the evolving player value.
pub open spec fn spec_judge_soft(p: Player, n: NPC) -> (Player, Flag) {
    let (p1, c1) = soft_left(p, n);
    let (p2, c2) = soft_right(p1, n);
    let (p3, c3) = soft_top(p2, n);
    let (p4, c4) = soft_bottom(p3, n);
    (
        p4,
        Flag { hit_left_wall: c1, hit_right_wall: c2, hit_top_wall: c3, hit_bottom_wall: c4 },
    )
}

/// Whether the player's vertical span overlaps the actor's: the entry
/// condition of the solid-hard horizontal resolution.
pub open spec fn hard_horizontal_band(p: Player, n: NPC) -> bool {
    p.y - p.hit_bounds.top < n.y + n.hit_bounds.bottom && p.y + p.hit_bounds.bottom > n.y
        - n.hit_bounds.top
}

/// Solid-hard push-out to the actor's right: the player is moved fully
/// outside the bound and takes the faster of the two velocities in the
/// blocking direction, so being carried is possible.
pub open spec fn hard_left(p: Player, n: NPC) -> (Player, bool) {
    let c = p.x - p.hit_bounds.right < n.x + n.hit_bounds.right && p.x - p.hit_bounds.right > n.x;
    if c {
        (
            Player {
                vel_x: if p.vel_x < n.vel_x {
                    n.vel_x
                } else {
                    p.vel_x
                },
                x: (n.x + n.hit_bounds.right + p.hit_bounds.right) as i64,
                ..p
            },
            true,
        )
    } else {
        (p, false)
    }
}

/// Solid-hard push-out to the actor's left, mirror of `hard_left`.
pub open spec fn hard_right(p: Player, n: NPC) -> (Player, bool) {
    let c = p.x + p.hit_bounds.right > n.x - n.hit_bounds.right && p.x + p.hit_bounds.right < n.x;
    if c {
        (
            Player {
                vel_x: if p.vel_x > n.vel_x {
                    n.vel_x
                } else {
                    p.vel_x
                },
                x: (n.x - n.hit_bounds.right - p.hit_bounds.right) as i64,
                ..p
            },
            true,
        )
    } else {
        (p, false)
    }
}

/// Whether the player's horizontal span overlaps the actor's: the entry
/// condition of the solid-hard vertical resolution.
pub open spec fn hard_vertical_band(p: Player, n: NPC) -> bool {
    p.x - p.hit_bounds.right < n.x + n.hit_bounds.right && p.x + p.hit_bounds.right > n.x
        - n.hit_bounds.right
}

/// Solid-hard ceiling hit: upward velocity is clamped, or, under a
/// ceiling falling faster than the player, the player is snapped below
/// it and rides its velocity.
pub open spec fn hard_top(p: Player, n: NPC) -> (Player, bool) {
    let c = p.y - p.hit_bounds.top < n.y + n.hit_bounds.bottom && p.y - p.hit_bounds.top > n.y;
    if c {
        (
            if p.vel_y >= n.vel_y {
                if p.vel_y < 0 {
                    Player { vel_y: 0i64, ..p }
                } else {
                    p
                }
            } else {
                Player {
                    y: (n.y + n.hit_bounds.bottom + p.hit_bounds.top + 0x200) as i64,
                    vel_y: n.vel_y,
                    ..p
                }
            },
            true,
        )
    } else {
        (p, false)
    }
}

/// Solid-hard landing: a thud sound when the impact speed differential
/// passes two pixels per step; the drill/charge control mode always
/// forces a hard landing; otherwise the bouncy and platform-riding cases
/// of the soft regime apply.
pub open spec fn hard_bottom(p: Player, s: GameStateView, n: NPC) -> (Player, GameStateView, bool) {
    let c = p.y + p.hit_bounds.bottom > n.y - n.hit_bounds.top && p.y + p.hit_bounds.bottom < n.y
        + 0x600;
    if c {
        let s1 = if p.vel_y - n.vel_y > 0x400 {
            GameStateView { sound_queue: s.sound_queue.push(23u8), ..s }
        } else {
            s
        };
        if p.control_mode == ControlMode::IronHead {
            (
                Player { y: (n.y - n.hit_bounds.top - p.hit_bounds.bottom + 0x200) as i64, ..p },
                s1,
                true,
            )
        } else if n.npc_flags.bouncy {
            (Player { vel_y: (n.vel_y - 0x200) as i64, ..p }, s1, true)
        } else if !p.flags.hit_bottom_wall && p.vel_y > n.vel_y {
            (
                Player {
                    y: (n.y - n.hit_bounds.top - p.hit_bounds.bottom + 0x200) as i64,
                    vel_y: n.vel_y,
                    x: (p.x + n.vel_x) as i64,
                    ..p
                },
                s1,
                true,
            )
        } else {
            (p, s1, false)
        }
    } else {
        (p, s, false)
    }
}

/// The solid-hard judgment: pick the deeper-penetrating axis by the
/// slope comparison of `spec_axis_horizontal`, then resolve only the
/// winning axis.
pub open spec fn spec_judge_hard(p: Player, s: GameStateView, n: NPC) -> (
    Player,
    GameStateView,
    Flag,
) {
    let f0 = Flag::spec_none();
    if spec_axis_horizontal(
        p.x - n.x,
        p.y - n.y,
        n.hit_bounds.right as int,
        n.hit_bounds.top as int,
    ) {
        if hard_horizontal_band(p, n) {
            let (p1, c1) = hard_left(p, n);
            let (p2, c2) = hard_right(p1, n);
            (p2, s, Flag { hit_left_wall: c1, hit_right_wall: c2, ..f0 })
        } else {
            (p, s, f0)
        }
    } else if hard_vertical_band(p, n) {
        let (p1, c3) = hard_top(p, n);
        let (p2, s2, c4) = hard_bottom(p1, s, n);
        (p2, s2, Flag { hit_top_wall: c3, hit_bottom_wall: c4, ..f0 })
    } else {
        (p, s, f0)
    }
}

/// The non-solid judgment: a touch-only overlap test against the
/// actor's hit half-extents expanded by a two-pixel margin, with the
/// horizontal half-extents swapped when the actor faces right. Produces
/// only a touched signal; neither party's physics changes.
pub open spec fn spec_judge_non_solid(p: Player, n: NPC) -> Flag {
    let hit_left = if n.direction == Direction::Left {
        n.hit_bounds.left as int
    } else {
        n.hit_bounds.right as int
    };
    let hit_right = if n.direction == Direction::Left {
        n.hit_bounds.right as int
    } else {
        n.hit_bounds.left as int
    };
    let touched = p.x + 0x400 > n.x - hit_left && p.x - 0x400 < n.x + hit_right && p.y + 0x400
        > n.y - n.hit_bounds.top && p.y - 0x400 < n.y + n.hit_bounds.bottom;
    Flag { hit_left_wall: touched, ..Flag::spec_none() }
}

impl Player {
    /// One solid-soft resolution block: the left-side contact.
    fn hit_soft_left(&mut self, npc: &NPC) -> (c: bool)
        requires
            player_wide_range(*old(self)),
            npc_in_range(*npc),
        ensures
            (*final(self), c) == soft_left(*old(self), *npc),
            spec_abs(final(self).x as int) <= spec_max(
                spec_abs(old(self).x as int),
                0x2_0000_0000_0000,
            ) + 0x4000_0000,
            spec_abs(final(self).y as int) <= spec_max(
                spec_abs(old(self).y as int),
                0x2_0000_0000_0000,
            ),
            -0x8000_0000 <= final(self).vel_x <= 0x8000_0000,
            -0x8000_0000 <= final(self).vel_y <= 0x8000_0000,
    {
        if ((self.y - self.hit_bounds.top as i64) < (npc.y + npc.hit_bounds.bottom as i64 - 3
            * 0x200)) && ((self.y + self.hit_bounds.top as i64) > (npc.y
            - npc.hit_bounds.bottom as i64 + 3 * 0x200)) && ((self.x
            - self.hit_bounds.right as i64) < (npc.x + npc.hit_bounds.right as i64)) && ((self.x
            - self.hit_bounds.right as i64) > npc.x) {
            if self.vel_x < 0x200 {
                self.vel_x += 0x200;
            }
            true
        } else {
            false
        }
    }

    /// One solid-soft resolution block: the right-side contact.
    fn hit_soft_right(&mut self, npc: &NPC) -> (c: bool)
        requires
            player_wide_range(*old(self)),
            npc_in_range(*npc),
        ensures
            (*final(self), c) == soft_right(*old(self), *npc),
            spec_abs(final(self).x as int) <= spec_max(
                spec_abs(old(self).x as int),
                0x2_0000_0000_0000,
            ) + 0x4000_0000,
            spec_abs(final(self).y as int) <= spec_max(
                spec_abs(old(self).y as int),
                0x2_0000_0000_0000,
            ),
            -0x8000_0000 <= final(self).vel_x <= 0x8000_0000,
            -0x8000_0000 <= final(self).vel_y <= 0x8000_0000,
    {
        if ((self.y - self.hit_bounds.top as i64) < (npc.y + npc.hit_bounds.bottom as i64 - 3
            * 0x200)) && ((self.y + self.hit_bounds.top as i64) > (npc.y
            - npc.hit_bounds.bottom as i64 + 3 * 0x200)) && ((self.x + self.hit_bounds.right as i64
            - 0x200) > (npc.x - npc.hit_bounds.right as i64)) && ((self.x
            + self.hit_bounds.right as i64 - 0x200) < npc.x) {
            if self.vel_x > -0x200 {
                self.vel_x -= 0x200;
            }
            true
        } else {
            false
        }
    }

    /// One solid-soft resolution block: the head bump.
    fn hit_soft_top(&mut self, npc: &NPC) -> (c: bool)
        requires
            player_wide_range(*old(self)),
            npc_in_range(*npc),
        ensures
            (*final(self), c) == soft_top(*old(self), *npc),
            spec_abs(final(self).x as int) <= spec_max(
                spec_abs(old(self).x as int),
                0x2_0000_0000_0000,
            ) + 0x4000_0000,
            spec_abs(final(self).y as int) <= spec_max(
                spec_abs(old(self).y as int),
                0x2_0000_0000_0000,
            ),
            -0x8000_0000 <= final(self).vel_x <= 0x8000_0000,
            -0x8000_0000 <= final(self).vel_y <= 0x8000_0000,
    {
        if ((self.x - self.hit_bounds.right as i64) < (npc.x + npc.hit_bounds.right as i64 - 3
            * 0x200)) && ((self.x + self.hit_bounds.right as i64) > (npc.x
            - npc.hit_bounds.right as i64 + 3 * 0x200)) && ((self.y - self.hit_bounds.top as i64)
            < (npc.y + npc.hit_bounds.bottom as i64)) && ((self.y - self.hit_bounds.top as i64)
            > npc.y) {
            if self.vel_y < 0 {
                self.vel_y = 0;
            }
            true
        } else {
            false
        }
    }

    /// One solid-soft resolution block: the landing, with the bouncy
    /// and platform-riding cases.
    fn hit_soft_bottom(&mut self, npc: &NPC) -> (c: bool)
        requires
            player_wide_range(*old(self)),
            npc_in_range(*npc),
        ensures
            (*final(self), c) == soft_bottom(*old(self), *npc),
            spec_abs(final(self).x as int) <= spec_max(
                spec_abs(old(self).x as int),
                0x2_0000_0000_0000,
            ) + 0x4000_0000,
            spec_abs(final(self).y as int) <= spec_max(
                spec_abs(old(self).y as int),
                0x2_0000_0000_0000,
            ),
            -0x8000_0000 <= final(self).vel_x <= 0x8000_0000,
            -0x8000_0000 <= final(self).vel_y <= 0x8000_0000,
    {
        if ((self.x - self.hit_bounds.right as i64) < (npc.x + npc.hit_bounds.right as i64 - 3
            * 0x200)) && ((self.x + self.hit_bounds.right as i64) > (npc.x
            - npc.hit_bounds.right as i64 + 3 * 0x200)) && ((self.y
            + self.hit_bounds.bottom as i64 - 0x200) > (npc.y - npc.hit_bounds.top as i64)) && ((
        self.y + self.hit_bounds.bottom as i64 - 0x200) < (npc.y + 3 * 0x200)) {
            if npc.npc_flags.bouncy {
                self.vel_y = npc.vel_y - 0x200;
                true
            } else if !self.flags.hit_bottom_wall && self.vel_y > npc.vel_y {
                self.y = npc.y - npc.hit_bounds.top as i64 - self.hit_bounds.bottom as i64 + 0x200;
                self.vel_y = npc.vel_y;
                self.x += npc.vel_x;
                true
            } else {
                false
            }
        } else {
            false
        }
    }

    /// Judge one solid-soft actor against the player and resolve the
    /// contact gently; returns the contact bits of this judgment.
    pub fn judge_hit_npc_solid_soft(&mut self, npc: &NPC) -> (flags: Flag)
        requires
            player_in_range(*old(self)),
            npc_in_range(*npc),
        ensures
            (*final(self), flags) == spec_judge_soft(*old(self), *npc),
            spec_abs(final(self).x as int) <= spec_max(
                spec_abs(old(self).x as int),
                0x2_0000_0000_0000,
            ) + 0x1_0000_0000,
            spec_abs(final(self).y as int) <= spec_max(
                spec_abs(old(self).y as int),
                0x2_0000_0000_0000,
            ),
            -0x8000_0000 <= final(self).vel_x <= 0x8000_0000,
            -0x8000_0000 <= final(self).vel_y <= 0x8000_0000,
    {
        let ghost p0 = *self;
        let mut flags = Flag::none();
        flags.hit_left_wall = self.hit_soft_left(npc);
        flags.hit_right_wall = self.hit_soft_right(npc);
        flags.hit_top_wall = self.hit_soft_top(npc);
        flags.hit_bottom_wall = self.hit_soft_bottom(npc);
        proof {
            assert((*self, flags) == spec_judge_soft(p0, *npc));
        }
        flags
    }

    /// One solid-hard resolution block: push-out to the actor's right.
    #[verifier::rlimit(60)]
    #[verifier::spinoff_prover]
    fn hit_hard_left(&mut self, npc: &NPC) -> (c: bool)
        requires
            player_wide_range(*old(self)),
            npc_in_range(*npc),
        ensures
            (*final(self), c) == hard_left(*old(self), *npc),
            spec_abs(final(self).x as int) <= spec_max(
                spec_abs(old(self).x as int),
                0x2_0000_0000_0000,
            ) + 0x4000_0000,
            spec_abs(final(self).y as int) <= spec_max(
                spec_abs(old(self).y as int),
                0x2_0000_0000_0000,
            ),
            -0x8000_0000 <= final(self).vel_x <= 0x8000_0000,
            -0x8000_0000 <= final(self).vel_y <= 0x8000_0000,
    {
        if ((self.x - self.hit_bounds.right as i64) < (npc.x + npc.hit_bounds.right as i64)) && ((
        self.x - self.hit_bounds.right as i64) > npc.x) {
            if self.vel_x < npc.vel_x {
                self.vel_x = npc.vel_x;
            }
            self.x = npc.x + npc.hit_bounds.right as i64 + self.hit_bounds.right as i64;
            true
        } else {
            false
        }
    }

    /// One solid-hard resolution block: push-out to the actor's left.
    #[verifier::rlimit(60)]
    #[verifier::spinoff_prover]
    fn hit_hard_right(&mut self, npc: &NPC) -> (c: bool)
        requires
            player_wide_range(*old(self)),
            npc_in_range(*npc),
        ensures
            (*final(self), c) == hard_right(*old(self), *npc),
            spec_abs(final(self).x as int) <= spec_max(
                spec_abs(old(self).x as int),
                0x2_0000_0000_0000,
            ) + 0x4000_0000,
            spec_abs(final(self).y as int) <= spec_max(
                spec_abs(old(self).y as int),
                0x2_0000_0000_0000,
            ),
            -0x8000_0000 <= final(self).vel_x <= 0x8000_0000,
            -0x8000_0000 <= final(self).vel_y <= 0x8000_0000,
    {
        if ((self.x + self.hit_bounds.right as i64) > (npc.x - npc.hit_bounds.right as i64)) && ((
        self.x + self.hit_bounds.right as i64) < npc.x) {
            if self.vel_x > npc.vel_x {
                self.vel_x = npc.vel_x;
            }
            self.x = npc.x - npc.hit_bounds.right as i64 - self.hit_bounds.right as i64;
            true
        } else {
            false
        }
    }

    /// One solid-hard resolution block: the ceiling hit.
    fn hit_hard_top(&mut self, npc: &NPC) -> (c: bool)
        requires
            player_wide_range(*old(self)),
            npc_in_range(*npc),
        ensures
            (*final(self), c) == hard_top(*old(self), *npc),
            spec_abs(final(self).x as int) <= spec_max(
                spec_abs(old(self).x as int),
                0x2_0000_0000_0000,
            ) + 0x4000_0000,
            spec_abs(final(self).y as int) <= spec_max(
                spec_abs(old(self).y as int),
                0x2_0000_0000_0000,
            ),
            -0x8000_0000 <= final(self).vel_x <= 0x8000_0000,
            -0x8000_0000 <= final(self).vel_y <= 0x8000_0000,
    {
        if ((self.y - self.hit_bounds.top as i64) < (npc.y + npc.hit_bounds.bottom as i64)) && ((
        self.y - self.hit_bounds.top as i64) > npc.y) {
            if self.vel_y >= npc.vel_y {
                if self.vel_y < 0 {
                    self.vel_y = 0;
                }
            } else {
                self.y = npc.y + npc.hit_bounds.bottom as i64 + self.hit_bounds.top as i64 + 0x200;
                self.vel_y = npc.vel_y;
            }
            true
        } else {
            false
        }
    }

    /// One solid-hard resolution block: the landing, with the thud
    /// sound, the forced drill-mode landing, and the bouncy and
    /// platform-riding cases.
    fn hit_hard_bottom(&mut self, npc: &NPC, state: &mut GameState) -> (c: bool)
        requires
            player_wide_range(*old(self)),
            npc_in_range(*npc),
        ensures
            (*final(self), final(state)@, c) == hard_bottom(*old(self), old(state)@, *npc),
            spec_abs(final(self).x as int) <= spec_max(
                spec_abs(old(self).x as int),
                0x2_0000_0000_0000,
            ) + 0x4000_0000,
            spec_abs(final(self).y as int) <= spec_max(
                spec_abs(old(self).y as int),
                0x2_0000_0000_0000,
            ),
            -0x8000_0000 <= final(self).vel_x <= 0x8000_0000,
            -0x8000_0000 <= final(self).vel_y <= 0x8000_0000,
    {
        if ((self.y + self.hit_bounds.bottom as i64) > (npc.y - npc.hit_bounds.top as i64)) && ((
        self.y + self.hit_bounds.bottom as i64) < (npc.y + 3 * 0x200)) {
            if self.vel_y - npc.vel_y > 2 * 0x200 {
                state.play_sfx(23);
            }
            if self.control_mode == ControlMode::IronHead {
                self.y = npc.y - npc.hit_bounds.top as i64 - self.hit_bounds.bottom as i64 + 0x200;
                true
            } else if npc.npc_flags.bouncy {
                self.vel_y = npc.vel_y - 0x200;
                true
            } else if !self.flags.hit_bottom_wall && self.vel_y > npc.vel_y {
                self.y = npc.y - npc.hit_bounds.top as i64 - self.hit_bounds.bottom as i64 + 0x200;
                self.vel_y = npc.vel_y;
                self.x += npc.vel_x;
                true
            } else {
                false
            }
        } else {
            false
        }
    }

    /// Judge one solid-hard actor against the player and resolve the
    /// contact rigidly along the deeper-penetrating axis.
    pub fn judge_hit_npc_solid_hard(&mut self, npc: &NPC, state: &mut GameState) -> (flags: Flag)
        requires
            player_in_range(*old(self)),
            npc_in_range(*npc),
        ensures
            (*final(self), final(state)@, flags) == spec_judge_hard(
                *old(self),
                old(state)@,
                *npc,
            ),
            spec_abs(final(self).x as int) <= spec_max(
                spec_abs(old(self).x as int),
                0x2_0000_0000_0000,
            ) + 0x1_0000_0000,
            spec_abs(final(self).y as int) <= spec_max(
                spec_abs(old(self).y as int),
                0x2_0000_0000_0000,
            ),
            -0x8000_0000 <= final(self).vel_x <= 0x8000_0000,
            -0x8000_0000 <= final(self).vel_y <= 0x8000_0000,
    {
        let ghost p0 = *self;
        let ghost s0 = state@;
        let mut flags = Flag::none();

        if solid_hard_axis_horizontal(
            self.x - npc.x,
            self.y - npc.y,
            npc.hit_bounds.right,
            npc.hit_bounds.top,
        ) {
            if ((self.y - self.hit_bounds.top as i64) < (npc.y + npc.hit_bounds.bottom as i64))
                && ((self.y + self.hit_bounds.bottom as i64) > (npc.y
                - npc.hit_bounds.top as i64)) {
                flags.hit_left_wall = self.hit_hard_left(npc);
                flags.hit_right_wall = self.hit_hard_right(npc);
            }
        } else if ((self.x - self.hit_bounds.right as i64) < (npc.x + npc.hit_bounds.right as i64))
            && ((self.x + self.hit_bounds.right as i64) > (npc.x - npc.hit_bounds.right as i64)) {
            flags.hit_top_wall = self.hit_hard_top(npc);
            flags.hit_bottom_wall = self.hit_hard_bottom(npc, state);
        }
        proof {
            assert((*self, state@, flags) == spec_judge_hard(p0, s0, *npc));
        }
        flags
    }

    /// Judge one non-solid actor: touch signal only.
    pub fn judge_hit_npc_non_solid(&mut self, npc: &NPC) -> (flags: Flag)
        requires
            player_in_range(*old(self)),
            npc_in_range(*npc),
        ensures
            *final(self) == *old(self),
            flags == spec_judge_non_solid(*old(self), *npc),
    {
        let mut flags = Flag::none();
        let hit_left: i64 = if npc.direction == Direction::Left {
            npc.hit_bounds.left as i64
        } else {
            npc.hit_bounds.right as i64
        };
        let hit_right: i64 = if npc.direction == Direction::Left {
            npc.hit_bounds.right as i64
        } else {
            npc.hit_bounds.left as i64
        };

        if ((self.x + 2 * 0x200) > (npc.x - hit_left)) && ((self.x - 2 * 0x200) < (npc.x
            + hit_right)) && ((self.y + 2 * 0x200) > (npc.y - npc.hit_bounds.top as i64)) && ((
        self.y - 2 * 0x200) < (npc.y + npc.hit_bounds.bottom as i64)) {
            flags.hit_left_wall = true;
        }
        flags
    }
}


/// The judging step of one player-vs-actor encounter: exactly one of
/// the three regimes applies, selected by the actor's capability flags,
/// and solid contacts are merged into the player's persistent flags.
pub open spec fn collision_judge_phase(p: Player, s: GameStateView, n: NPC) -> (
    Player,
    GameStateView,
    Flag,
) {
    if n.npc_flags.solid_soft {
        let (p1, f) = spec_judge_soft(p, n);
        (Player { flags: p1.flags.spec_merge(f), ..p1 }, s, f)
    } else if n.npc_flags.solid_hard {
        let (p1, s1, f) = spec_judge_hard(p, s, n);
        (Player { flags: p1.flags.spec_merge(f), ..p1 }, s1, f)
    } else {
        (p, s, spec_judge_non_solid(p, n))
    }
}

/// The pickup dispatch after a contact signal, skipped for
/// boss-shielded actors: experience pickups grant XP (with level-up and
/// star-bonus effects), ammo and health pickups apply their effect;
/// each pickup deactivates itself and fires its sound.
pub open spec fn pickup_phase(
    p: Player,
    s: GameStateView,
    n: NPC,
    inv: InventoryView,
    f: Flag,
) -> (Player, GameStateView, NPC, InventoryView) {
    if !n.cond.damage_boss && f.spec_any() {
        if n.npc_type == 1 {
            let s1 = GameStateView { sound_queue: s.sound_queue.push(14u8), ..s };
            let (inv1, res) = spec_add_xp(inv, n.exp);
            let (p2, s2) = if res == AddExperienceResult::LevelUp {
                (
                    p,
                    GameStateView {
                        sound_queue: s1.sound_queue.push(27u8),
                        carets: s1.carets.push(
                            Caret {
                                x: p.x,
                                y: p.y,
                                ctype: CaretType::LevelUp,
                                direction: Direction::Left,
                            },
                        ),
                        ..s1
                    },
                )
            } else if res == AddExperienceResult::AddStar {
                (
                    if p.equip.has_whimsical_star && p.stars < 3 {
                        Player { stars: (p.stars + 1) as u8, ..p }
                    } else {
                        p
                    },
                    s1,
                )
            } else {
                (p, s1)
            };
            (
                p2,
                s2,
                NPC { cond: crate::common::Condition { alive: false, ..n.cond }, ..n },
                inv1,
            )
        } else if n.npc_type == 86 {
            (
                p,
                GameStateView { sound_queue: s.sound_queue.push(42u8), ..s },
                NPC { cond: crate::common::Condition { alive: false, ..n.cond }, ..n },
                inv,
            )
        } else if n.npc_type == 87 {
            let healed = p.life.saturating_add(n.exp);
            (
                Player {
                    life: if healed > p.max_life {
                        p.max_life
                    } else {
                        healed
                    },
                    ..p
                },
                GameStateView { sound_queue: s.sound_queue.push(20u8), ..s },
                NPC { cond: crate::common::Condition { alive: false, ..n.cond }, ..n },
                inv,
            )
        } else {
            (p, s, n, inv)
        }
    } else {
        (p, s, n, inv)
    }
}

/// The world-state changes of a script hand-off: simulation gated on,
/// further interactions disabled, and the actor's event script started
/// on behalf of the given player.
pub open spec fn script_start(s: GameStateView, n: NPC, id: TargetPlayer) -> GameStateView {
    GameStateView {
        control_flags: crate::common::ControlFlags {
            tick_world: true,
            interactions_disabled: true,
            ..s.control_flags
        },
        textscript_vm: crate::state::TextScriptVM {
            executor_player: id,
            state: crate::state::TextScriptExecutionState::Running(n.event_num),
            ..s.textscript_vm
        },
        ..s
    }
}

/// The explicit-interaction dispatch: an interactable actor touched
/// while the player requests an interact hands control to the scripting
/// collaborator and clears the request, free movement and the question
/// mark.
pub open spec fn interact_phase(p: Player, s: GameStateView, n: NPC, f: Flag, id: TargetPlayer) -> (
    Player,
    GameStateView,
) {
    if n.npc_flags.interactable && !s.control_flags.interactions_disabled && f.spec_any()
        && p.cond.interacted {
        (
            Player {
                cond: crate::common::Condition { interacted: false, ..p.cond },
                vel_x: 0i64,
                question: false,
                ..p
            },
            script_start(s, n, id),
        )
    } else {
        (p, s)
    }
}

/// The touch-event dispatch: an event-when-touched actor triggers its
/// script on mere contact, without an explicit interact, as long as
/// interactions are not globally disabled.
pub open spec fn touch_event_phase(s: GameStateView, n: NPC, f: Flag, id: TargetPlayer) -> GameStateView {
    if n.npc_flags.event_when_touched && !s.control_flags.interactions_disabled && f.spec_any() {
        script_start(s, n, id)
    } else {
        s
    }
}

/// The contact-damage dispatch: with control enabled and the actor not
/// interactable, damage applies — but a rear-and-top-not-hurt actor
/// hurts only when the contact side opposes its own motion direction,
/// and ordinary contact damage is suppressed while interactions are
/// disabled.
pub open spec fn damage_phase(p: Player, s: GameStateView, n: NPC, f: Flag) -> (
    Player,
    GameStateView,
) {
    if s.control_flags.control_enabled && !n.npc_flags.interactable {
        if n.npc_flags.rear_and_top_not_hurt {
            if (f.hit_left_wall && n.vel_x > 0) || (f.hit_right_wall && n.vel_x < 0) || (
            f.hit_top_wall && n.vel_y > 0) || (f.hit_bottom_wall && n.vel_y < 0) {
                spec_damage(p, s, n.damage)
            } else {
                (p, s)
            }
        } else if f.spec_any() && n.damage != 0 && !s.control_flags.interactions_disabled {
            spec_damage(p, s, n.damage)
        } else {
            (p, s)
        }
    } else {
        (p, s)
    }
}

/// One full player-vs-actor encounter: judge and resolve the contact,
/// then dispatch pickups, scripted triggers and contact damage in that
/// order on the evolving state.
pub open spec fn spec_tick_npc_collision(
    p: Player,
    s: GameStateView,
    n: NPC,
    inv: InventoryView,
    id: TargetPlayer,
) -> (Player, GameStateView, NPC, InventoryView) {
    let (p1, s1, f) = collision_judge_phase(p, s, n);
    let (p2, s2, n2, inv2) = pickup_phase(p1, s1, n, inv, f);
    let (p3, s3) = interact_phase(p2, s2, n2, f, id);
    let s4 = touch_event_phase(s3, n2, f, id);
    let (p5, s5) = damage_phase(p3, s4, n2, f);
    (p5, s5, n2, inv2)
}

impl Player {
    /// The pickup dispatch step of one encounter.
    fn dispatch_pickup(
        &mut self,
        state: &mut GameState,
        npc: &mut NPC,
        inventory: &mut Inventory,
        flags: Flag,
    )
        ensures
            (*final(self), final(state)@, *final(npc), final(inventory)@) == pickup_phase(
                *old(self),
                old(state)@,
                *old(npc),
                old(inventory)@,
                flags,
            ),
            final(self).x == old(self).x,
            final(self).y == old(self).y,
            final(self).vel_x == old(self).vel_x,
            final(self).vel_y == old(self).vel_y,
            final(npc).x == old(npc).x,
            final(npc).y == old(npc).y,
            final(npc).vel_x == old(npc).vel_x,
            final(npc).vel_y == old(npc).vel_y,
    {
        if !npc.cond.damage_boss && flags.any() {
            if npc.npc_type == 1 {
                state.play_sfx(14);
                let res = inventory.add_xp(npc.exp);
                if res == AddExperienceResult::LevelUp {
                    state.play_sfx(27);
                    state.create_caret(self.x, self.y, CaretType::LevelUp, Direction::Left);
                } else if res == AddExperienceResult::AddStar {
                    if self.equip.has_whimsical_star && self.stars < 3 {
                        self.stars += 1;
                    }
                }
                npc.cond.alive = false;
            } else if npc.npc_type == 86 {
                npc.cond.alive = false;
                state.play_sfx(42);
            } else if npc.npc_type == 87 {
                let healed = self.life.saturating_add(npc.exp);
                self.life = if healed > self.max_life {
                    self.max_life
                } else {
                    healed
                };
                npc.cond.alive = false;
                state.play_sfx(20);
            }
        }
    }

    /// The explicit-interaction dispatch step of one encounter.
    fn dispatch_interact(
        &mut self,
        id: TargetPlayer,
        state: &mut GameState,
        npc: &NPC,
        flags: Flag,
    )
        ensures
            (*final(self), final(state)@) == interact_phase(
                *old(self),
                old(state)@,
                *npc,
                flags,
                id,
            ),
            final(self).x == old(self).x,
            final(self).y == old(self).y,
            final(self).vel_x == old(self).vel_x || final(self).vel_x == 0,
            final(self).vel_y == old(self).vel_y,
    {
        if npc.npc_flags.interactable && !state.control_flags.interactions_disabled && flags.any()
            && self.cond.interacted {
            state.control_flags.tick_world = true;
            state.control_flags.interactions_disabled = true;
            state.textscript_vm.executor_player = id;
            state.textscript_vm.start_script(npc.event_num);
            self.cond.interacted = false;
            self.vel_x = 0;
            self.question = false;
        }
    }

    /// The touch-event dispatch step of one encounter.
    fn dispatch_touch_event(id: TargetPlayer, state: &mut GameState, npc: &NPC, flags: Flag)
        ensures
            final(state)@ == touch_event_phase(old(state)@, *npc, flags, id),
    {
        if npc.npc_flags.event_when_touched && !state.control_flags.interactions_disabled
            && flags.any() {
            state.control_flags.tick_world = true;
            state.control_flags.interactions_disabled = true;
            state.textscript_vm.executor_player = id;
            state.textscript_vm.start_script(npc.event_num);
        }
    }

    /// The contact-damage dispatch step of one encounter.
    fn dispatch_damage(&mut self, state: &mut GameState, npc: &NPC, flags: Flag)
        ensures
            (*final(self), final(state)@) == damage_phase(*old(self), old(state)@, *npc, flags),
            final(self).x == old(self).x,
            final(self).y == old(self).y,
            final(self).vel_x == old(self).vel_x,
            final(self).vel_y == old(self).vel_y,
    {
        if state.control_flags.control_enabled && !npc.npc_flags.interactable {
            if npc.npc_flags.rear_and_top_not_hurt {
                if (flags.hit_left_wall && npc.vel_x > 0) || (flags.hit_right_wall && npc.vel_x
                    < 0) || (flags.hit_top_wall && npc.vel_y > 0) || (flags.hit_bottom_wall
                    && npc.vel_y < 0) {
                    self.damage(npc.damage, state);
                }
            } else if flags.any() && npc.damage != 0
                && !state.control_flags.interactions_disabled {
                self.damage(npc.damage, state);
            }
        }
    }

    /// Run one full encounter between the player and one live actor:
    /// collision judging, resolution, and the side-effect dispatch.
    #[verifier::rlimit(100)]
    #[verifier::spinoff_prover]
    pub fn tick_npc_collision(
        &mut self,
        id: TargetPlayer,
        state: &mut GameState,
        npc: &mut NPC,
        inventory: &mut Inventory,
    )
        requires
            player_in_range(*old(self)),
            npc_in_range(*old(npc)),
        ensures
            (*final(self), final(state)@, *final(npc), final(inventory)@)
                == spec_tick_npc_collision(
                *old(self),
                old(state)@,
                *old(npc),
                old(inventory)@,
                id,
            ),
            final(npc).x == old(npc).x,
            final(npc).y == old(npc).y,
            final(npc).vel_x == old(npc).vel_x,
            final(npc).vel_y == old(npc).vel_y,
            spec_abs(final(self).x as int) <= spec_max(
                spec_abs(old(self).x as int),
                0x2_0000_0000_0000,
            ) + 0x1_0000_0000,
            spec_abs(final(self).y as int) <= spec_max(
                spec_abs(old(self).y as int),
                0x2_0000_0000_0000,
            ),
            -0x8000_0000 <= final(self).vel_x <= 0x8000_0000,
            -0x8000_0000 <= final(self).vel_y <= 0x8000_0000,
    {
        let ghost p0 = *self;
        let ghost s0 = state@;
        let ghost n0 = *npc;
        let ghost inv0 = inventory@;

        let flags: Flag;
        if npc.npc_flags.solid_soft {
            flags = self.judge_hit_npc_solid_soft(npc);
            self.flags = self.flags.merge(flags);
        } else if npc.npc_flags.solid_hard {
            flags = self.judge_hit_npc_solid_hard(npc, state);
            self.flags = self.flags.merge(flags);
        } else {
            flags = self.judge_hit_npc_non_solid(npc);
        }
        let ghost ph1 = collision_judge_phase(p0, s0, n0);
        proof {
            assert(*self == ph1.0 && state@ == ph1.1 && flags == ph1.2);
        }

        self.dispatch_pickup(state, npc, inventory, flags);
        self.dispatch_interact(id, state, npc, flags);
        Player::dispatch_touch_event(id, state, npc, flags);
        self.dispatch_damage(state, npc, flags);
    }
}


/// The collision pass folded over the first `k` actors of a sequence:
/// each live actor is judged and dispatched in order against the
/// evolving player, world state and inventory; dead actors are skipped
/// and all actors keep their position in the sequence.
pub open spec fn spec_collide_npc_seq(
    p: Player,
    s: GameStateView,
    npcs: Seq<NPC>,
    inv: InventoryView,
    id: TargetPlayer,
    k: int,
) -> (Player, GameStateView, Seq<NPC>, InventoryView)
    decreases k,
{
    if k <= 0 {
        (p, s, npcs, inv)
    } else {
        let (p1, s1, npcs1, inv1) = spec_collide_npc_seq(p, s, npcs, inv, id, k - 1);
        let n = npcs1[k - 1];
        if n.cond.alive {
            let (p2, s2, n2, inv2) = spec_tick_npc_collision(p1, s1, n, inv1, id);
            (p2, s2, npcs1.update(k - 1, n2), inv2)
        } else {
            (p1, s1, npcs1, inv1)
        }
    }
}

/// Folding the collision pass over the first `k` actors touches only
/// those `k`: every later actor is exactly as it was.
pub proof fn lemma_collide_seq_frame(
    p: Player,
    s: GameStateView,
    npcs: Seq<NPC>,
    inv: InventoryView,
    id: TargetPlayer,
    k: int,
)
    requires
        0 <= k <= npcs.len(),
    ensures
        spec_collide_npc_seq(p, s, npcs, inv, id, k).2.len() == npcs.len(),
        forall|j: int|
            k <= j < npcs.len() ==> spec_collide_npc_seq(p, s, npcs, inv, id, k).2[j] == npcs[j],
    decreases k,
{
    if k > 0 {
        lemma_collide_seq_frame(p, s, npcs, inv, id, k - 1);
    }
}

/// One whole collision pass: a dead player collides with nothing;
/// otherwise every live generic actor is judged in ascending order,
/// then every live boss part, and a pending question mark is emitted
/// at the end.
pub open spec fn spec_tick_npc_collisions(
    p: Player,
    s: GameStateView,
    npcs: Seq<NPC>,
    parts: Seq<NPC>,
    inv: InventoryView,
    id: TargetPlayer,
) -> (Player, GameStateView, Seq<NPC>, Seq<NPC>, InventoryView) {
    if !p.cond.alive {
        (p, s, npcs, parts, inv)
    } else {
        let (p1, s1, npcs1, inv1) = spec_collide_npc_seq(p, s, npcs, inv, id, npcs.len() as int);
        let (p2, s2, parts1, inv2) = spec_collide_npc_seq(
            p1,
            s1,
            parts,
            inv1,
            id,
            parts.len() as int,
        );
        let s3 = if p2.question {
            GameStateView {
                carets: s2.carets.push(
                    Caret {
                        x: p2.x,
                        y: p2.y,
                        ctype: CaretType::QuestionMark,
                        direction: Direction::Left,
                    },
                ),
                ..s2
            }
        } else {
            s2
        };
        (p2, s3, npcs1, parts1, inv2)
    }
}

impl Player {
    /// The player-vs-actor collision pass of one simulation step. The
    /// live set it observes is exactly the actor collection as the
    /// behavior pass left it; actors waiting in the spawn queue are not
    /// part of it.
    #[verifier::rlimit(100)]
    #[verifier::spinoff_prover]
    pub fn tick_npc_collisions(
        &mut self,
        id: TargetPlayer,
        state: &mut GameState,
        npc_map: &mut crate::npc::NpcMap,
        inventory: &mut Inventory,
    )
        requires
            -0x1000_0000_0000_0000 <= old(self).x <= 0x1000_0000_0000_0000,
            -0x1000_0000_0000_0000 <= old(self).y <= 0x1000_0000_0000_0000,
            -0x8000_0000 <= old(self).vel_x <= 0x8000_0000,
            -0x8000_0000 <= old(self).vel_y <= 0x8000_0000,
            forall|j: int|
                0 <= j < old(npc_map).npcs@.len() ==> npc_in_range(#[trigger] old(npc_map).npcs@[j]),
            forall|j: int|
                0 <= j < old(npc_map).boss_map.parts@.len() ==> npc_in_range(
                    #[trigger] old(npc_map).boss_map.parts@[j],
                ),
            old(npc_map).npcs@.len() + old(npc_map).boss_map.parts@.len() <= 0x10000,
        ensures
            (
                *final(self),
                final(state)@,
                final(npc_map).npcs@,
                final(npc_map).boss_map.parts@,
                final(inventory)@,
            ) == spec_tick_npc_collisions(
                *old(self),
                old(state)@,
                old(npc_map).npcs@,
                old(npc_map).boss_map.parts@,
                old(inventory)@,
                id,
            ),
            final(npc_map).boss_map.hurt_sound@ == old(npc_map).boss_map.hurt_sound@,
            final(npc_map).next_id == old(npc_map).next_id,
    {
        if !self.cond.alive {
            return ;
        }
        let ghost p0 = *self;
        let ghost s0 = state@;
        let ghost npcs0 = npc_map.npcs@;
        let ghost parts0 = npc_map.boss_map.parts@;
        let ghost inv0 = inventory@;

        let n_len = npc_map.npcs.len();
        let mut i: usize = 0;
        while i < n_len
            invariant
                0 <= i <= n_len,
                n_len == npcs0.len(),
                npc_map.npcs@.len() == npcs0.len(),
                npc_map.boss_map.parts@ == parts0,
                npc_map.boss_map.hurt_sound@ == old(npc_map).boss_map.hurt_sound@,
                npc_map.next_id == old(npc_map).next_id,
                (*self, state@, npc_map.npcs@, inventory@) == spec_collide_npc_seq(
                    p0,
                    s0,
                    npcs0,
                    inv0,
                    id,
                    i as int,
                ),
                forall|j: int| 0 <= j < npcs0.len() ==> npc_in_range(#[trigger] npcs0[j]),
                forall|j: int| 0 <= j < parts0.len() ==> npc_in_range(#[trigger] parts0[j]),
                npcs0.len() + parts0.len() <= 0x10000,
                spec_abs(self.x as int) <= spec_max(spec_abs(p0.x as int), 0x2_0000_0000_0000) + (
                i as int) * 0x1_0000_0000,
                spec_abs(self.y as int) <= spec_max(spec_abs(p0.y as int), 0x2_0000_0000_0000),
                -0x8000_0000 <= self.vel_x <= 0x8000_0000,
                -0x8000_0000 <= self.vel_y <= 0x8000_0000,
                -0x1000_0000_0000_0000 <= p0.x <= 0x1000_0000_0000_0000,
                -0x1000_0000_0000_0000 <= p0.y <= 0x1000_0000_0000_0000,
            decreases n_len - i,
        {
            proof {
                lemma_collide_seq_frame(p0, s0, npcs0, inv0, id, i as int);
                assert(npc_map.npcs@ == spec_collide_npc_seq(p0, s0, npcs0, inv0, id, i as int).2);
                assert(npc_map.npcs@[i as int] == npcs0[i as int]);
                assert(npc_in_range(npcs0[i as int]));
            }
            let mut n = npc_map.npcs[i];
            if n.cond.alive {
                self.tick_npc_collision(id, state, &mut n, inventory);
                npc_map.npcs[i] = n;
            }
            i += 1;
        }

        proof {
            lemma_collide_seq_frame(p0, s0, npcs0, inv0, id, npcs0.len() as int);
        }
        let ghost mid = spec_collide_npc_seq(p0, s0, npcs0, inv0, id, npcs0.len() as int);
        let ghost p1 = mid.0;
        let ghost s1 = mid.1;
        let ghost inv1 = mid.3;

        let b_len = npc_map.boss_map.parts.len();
        let mut j: usize = 0;
        while j < b_len
            invariant
                0 <= j <= b_len,
                b_len == parts0.len(),
                npc_map.npcs@ == mid.2,
                npc_map.boss_map.parts@.len() == parts0.len(),
                npc_map.boss_map.hurt_sound@ == old(npc_map).boss_map.hurt_sound@,
                npc_map.next_id == old(npc_map).next_id,
                (*self, state@, npc_map.boss_map.parts@, inventory@) == spec_collide_npc_seq(
                    p1,
                    s1,
                    parts0,
                    inv1,
                    id,
                    j as int,
                ),
                forall|k: int| 0 <= k < parts0.len() ==> npc_in_range(#[trigger] parts0[k]),
                npcs0.len() + parts0.len() <= 0x10000,
                spec_abs(self.x as int) <= spec_max(spec_abs(p0.x as int), 0x2_0000_0000_0000) + (
                npcs0.len() + j as int) * 0x1_0000_0000,
                spec_abs(self.y as int) <= spec_max(spec_abs(p0.y as int), 0x2_0000_0000_0000),
                -0x8000_0000 <= self.vel_x <= 0x8000_0000,
                -0x8000_0000 <= self.vel_y <= 0x8000_0000,
                -0x1000_0000_0000_0000 <= p0.x <= 0x1000_0000_0000_0000,
                -0x1000_0000_0000_0000 <= p0.y <= 0x1000_0000_0000_0000,
            decreases b_len - j,
        {
            proof {
                lemma_collide_seq_frame(p1, s1, parts0, inv1, id, j as int);
                assert(npc_map.boss_map.parts@ == spec_collide_npc_seq(
                    p1,
                    s1,
                    parts0,
                    inv1,
                    id,
                    j as int,
                ).2);
                assert(npc_map.boss_map.parts@[j as int] == parts0[j as int]);
                assert(npc_in_range(parts0[j as int]));
            }
            let mut n = npc_map.boss_map.parts[j];
            if n.cond.alive {
                self.tick_npc_collision(id, state, &mut n, inventory);
                npc_map.boss_map.parts[j] = n;
            }
            j += 1;
        }

        if self.question {
            state.create_caret(self.x, self.y, CaretType::QuestionMark, Direction::Left);
        }
    }
}


/// One encounter never reads or extends the spawn queue: every phase
/// of the dispatch touches sounds, particles, control bits and the
/// participants, but actors enqueued during the behavior pass stay
/// invisible until the step-boundary drain.
pub proof fn lemma_collide_one_defers_spawns(
    p: Player,
    s: GameStateView,
    n: NPC,
    inv: InventoryView,
    id: TargetPlayer,
)
    ensures
        spec_tick_npc_collision(p, s, n, inv, id).1.new_npcs == s.new_npcs,
{
}

/// Folding the pass over any prefix keeps the spawn queue untouched.
pub proof fn lemma_collide_seq_defers_spawns(
    p: Player,
    s: GameStateView,
    npcs: Seq<NPC>,
    inv: InventoryView,
    id: TargetPlayer,
    k: int,
)
    ensures
        spec_collide_npc_seq(p, s, npcs, inv, id, k).1.new_npcs == s.new_npcs,
    decreases k,
{
    if k > 0 {
        lemma_collide_seq_defers_spawns(p, s, npcs, inv, id, k - 1);
        let (p1, s1, npcs1, inv1) = spec_collide_npc_seq(p, s, npcs, inv, id, k - 1);
        if npcs1[k - 1].cond.alive {
            lemma_collide_one_defers_spawns(p1, s1, npcs1[k - 1], inv1, id);
        }
    }
}

/// The alive set the collision pass observes never includes actors
/// added to the spawn queue during the same step: the whole pass leaves
/// the queue exactly as the behavior pass left it, and judges only the
/// live actor collection it was handed.
pub proof fn lemma_collision_pass_defers_spawns(
    p: Player,
    s: GameStateView,
    npcs: Seq<NPC>,
    parts: Seq<NPC>,
    inv: InventoryView,
    id: TargetPlayer,
)
    ensures
        spec_tick_npc_collisions(p, s, npcs, parts, inv, id).1.new_npcs == s.new_npcs,
{
    if p.cond.alive {
        lemma_collide_seq_defers_spawns(p, s, npcs, inv, id, npcs.len() as int);
        let (p1, s1, npcs1, inv1) = spec_collide_npc_seq(p, s, npcs, inv, id, npcs.len() as int);
        lemma_collide_seq_defers_spawns(p1, s1, parts, inv1, id, parts.len() as int);
    }
}

/// Replaying the collision pass from equal states with equal inputs
/// yields bit-identical results: the pass is a pure function of the
/// player, world state, actor collections and inventory it is handed,
/// with no hidden source of divergence.
pub proof fn lemma_collision_pass_deterministic(
    p1: Player,
    s1: GameStateView,
    npcs1: Seq<NPC>,
    parts1: Seq<NPC>,
    inv1: InventoryView,
    p2: Player,
    s2: GameStateView,
    npcs2: Seq<NPC>,
    parts2: Seq<NPC>,
    inv2: InventoryView,
    id: TargetPlayer,
)
    requires
        p1 == p2,
        s1 == s2,
        npcs1 == npcs2,
        parts1 == parts2,
        inv1 == inv2,
    ensures
        spec_tick_npc_collisions(p1, s1, npcs1, parts1, inv1, id) == spec_tick_npc_collisions(
            p2,
            s2,
            npcs2,
            parts2,
            inv2,
            id,
        ),
{
}

} // verus!
