//! Behavior of the inventor actor: an idle/blink machine on the ground,
//! a walking state, and the rescue sequence in which he drops into the
//! shaft, waits, and lands. A plain per-type state machine over the
//! actor's own fields.

use vstd::prelude::*;
use crate::common::{Direction, Rect};
use crate::npc::{sat_inc, spec_animate, spec_sat_inc, NPC};
use crate::player_hit::npc_in_range;
use crate::rng::{spec_next, spec_range_val, Rng};
use crate::state::{ConstantsView, GameState};

verus! {

/// Every rectangle of an animation table kept small enough that the
/// per-frame rectangle arithmetic stays inside sixteen bits.
pub open spec fn anim_table_ok(t: Seq<Rect<u16>>) -> bool {
    forall|i: int|
        0 <= i < t.len() ==> (#[trigger] t[i]).left <= 0x4000 && t[i].top <= 0x4000
            && t[i].right <= 0x4000 && t[i].bottom <= 0x4000
}

/// Idle on the ground: first entry settles the code, then the private
/// stream occasionally starts a blink.
pub open spec fn b113_idle(n: NPC) -> NPC {
    let n1 = if n.action_num == 0 {
        NPC { action_num: 1, anim_num: 0, anim_counter: 0, ..n }
    } else {
        n
    };
    let drawn = spec_range_val(n1.rng.state, 0, 120);
    let n2 = NPC { rng: Rng { state: spec_next(n1.rng.state) }, ..n1 };
    if drawn == 10 {
        NPC { action_num: 2, action_counter: 0, anim_num: 1, ..n2 }
    } else {
        n2
    }
}

/// Blinking: back to idle after eight frames.
pub open spec fn b113_blink(n: NPC) -> NPC {
    let c = spec_sat_inc(n.action_counter);
    if c > 8 {
        NPC { action_counter: c, action_num: 1, anim_num: 0, ..n }
    } else {
        NPC { action_counter: c, ..n }
    }
}

/// Walking in the facing direction at one pixel per frame.
pub open spec fn b113_walk(n: NPC) -> NPC {
    let n1 = if n.action_num == 3 {
        NPC { action_num: 4, anim_num: 2, anim_counter: 0, ..n }
    } else {
        n
    };
    let n2 = spec_animate(n1, 5, 2, 5);
    NPC { x: (n2.x + n2.direction.spec_vector_x() * 0x200) as i64, ..n2 }
}

/// Descending the shaft: first entry re-seats the hit box and position,
/// then a fixed sixty-four frame fall.
pub open spec fn b113_descend(n: NPC) -> NPC {
    let n1 = if n.action_num == 30 {
        NPC {
            action_num: 31,
            anim_num: 0,
            anim_counter: 0,
            hit_bounds: Rect { bottom: (16 * 0x200) as u32, ..n.hit_bounds },
            x: (n.x - 16 * 0x200) as i64,
            y: (n.y + 8 * 0x200) as i64,
            ..n
        }
    } else {
        n
    };
    let c = spec_sat_inc(n1.action_counter);
    if c == 64 {
        NPC { action_num: 32, action_counter: 0, ..n1 }
    } else {
        NPC { action_counter: c, ..n1 }
    }
}

/// Pausing at the bottom before the drop resumes.
pub open spec fn b113_pause(n: NPC) -> NPC {
    let c = spec_sat_inc(n.action_counter);
    if c > 20 {
        NPC {
            action_counter: c,
            action_num: 33,
            anim_num: 1,
            hit_bounds: Rect { bottom: (8 * 0x200) as u32, ..n.hit_bounds },
            ..n
        }
    } else {
        NPC { action_counter: c, ..n }
    }
}

/// Falling until ground contact settles him.
pub open spec fn b113_fall(n: NPC) -> NPC {
    if n.flags.hit_bottom_wall {
        NPC { action_num: 34, action_counter: 0, anim_num: 0, ..n }
    } else {
        n
    }
}

/// The state-machine phase of the inventor's tick: the action code
/// dispatch, before physics. An unknown action code is a no-op; the
/// actor keeps integrating.
pub open spec fn booster_action_phase(n: NPC) -> NPC {
    if n.action_num == 0 || n.action_num == 1 {
        b113_idle(n)
    } else if n.action_num == 2 {
        b113_blink(n)
    } else if n.action_num == 3 || n.action_num == 4 {
        b113_walk(n)
    } else if n.action_num == 5 {
        NPC { anim_num: 6, ..n }
    } else if n.action_num == 30 || n.action_num == 31 {
        b113_descend(n)
    } else if n.action_num == 32 {
        b113_pause(n)
    } else if n.action_num == 33 {
        b113_fall(n)
    } else {
        n
    }
}

/// The physics and presentation phase shared by every action code:
/// gravity, velocity integration, and the animation rectangle lookup
/// keyed by (animation index, facing), with the shaft-descent reveal
/// that grows the rectangle with the state timer.
pub open spec fn booster_tail_phase(n: NPC, consts: ConstantsView) -> NPC {
    let n1 = NPC { vel_y: (n.vel_y + 0x40) as i64, ..n };
    let n2 = NPC { y: (n1.y + n1.vel_y) as i64, ..n1 };
    let dir_offset: int = if n2.direction == Direction::Left {
        0
    } else {
        7
    };
    let rect = consts.n113_professor_booster[n2.anim_num + dir_offset];
    let n3 = NPC { anim_rect: rect, ..n2 };
    if n3.action_num == 31 {
        let r1 = Rect {
            bottom: (n3.action_counter / 4 + n3.anim_rect.top) as u16,
            ..n3.anim_rect
        };
        let r2 = if (n3.action_counter / 2) % 2 != 0 {
            Rect { left: (r1.left + 1) as u16, ..r1 }
        } else {
            r1
        };
        NPC { anim_rect: r2, ..n3 }
    } else {
        n3
    }
}

/// One full tick of the inventor actor.
pub open spec fn spec_tick_n113(n: NPC, consts: ConstantsView) -> NPC {
    booster_tail_phase(booster_action_phase(n), consts)
}

impl NPC {
    fn n113_idle(&mut self)
        ensures
            *final(self) == b113_idle(*old(self)),
    {
        if self.action_num == 0 {
            self.action_num = 1;
            self.anim_num = 0;
            self.anim_counter = 0;
        }
        if self.rng.range(0, 120) == 10 {
            self.action_num = 2;
            self.action_counter = 0;
            self.anim_num = 1;
        }
    }

    fn n113_blink(&mut self)
        ensures
            *final(self) == b113_blink(*old(self)),
    {
        self.action_counter = sat_inc(self.action_counter);
        if self.action_counter > 8 {
            self.action_num = 1;
            self.anim_num = 0;
        }
    }

    fn n113_walk(&mut self)
        requires
            npc_in_range(*old(self)),
        ensures
            *final(self) == b113_walk(*old(self)),
    {
        if self.action_num == 3 {
            self.action_num = 4;
            self.anim_num = 2;
            self.anim_counter = 0;
        }
        self.animate(5, 2, 5);
        let vx = self.direction.vector_x();
        self.x += vx * 0x200;
    }

    fn n113_descend(&mut self)
        requires
            npc_in_range(*old(self)),
        ensures
            *final(self) == b113_descend(*old(self)),
    {
        if self.action_num == 30 {
            self.action_num = 31;
            self.anim_num = 0;
            self.anim_counter = 0;
            self.hit_bounds.bottom = 16 * 0x200;
            self.x -= 16 * 0x200;
            self.y += 8 * 0x200;
        }
        self.action_counter = sat_inc(self.action_counter);
        if self.action_counter == 64 {
            self.action_num = 32;
            self.action_counter = 0;
        }
    }

    fn n113_pause(&mut self)
        ensures
            *final(self) == b113_pause(*old(self)),
    {
        self.action_counter = sat_inc(self.action_counter);
        if self.action_counter > 20 {
            self.action_num = 33;
            self.anim_num = 1;
            self.hit_bounds.bottom = 8 * 0x200;
        }
    }

    fn n113_fall(&mut self)
        ensures
            *final(self) == b113_fall(*old(self)),
    {
        if self.flags.hit_bottom_wall {
            self.action_num = 34;
            self.action_counter = 0;
            self.anim_num = 0;
        }
    }

    /// The presentation tail of the inventor's tick.
    fn n113_tail(&mut self, state: &GameState)
        requires
            -0x1_0000_0000_4000 <= old(self).x <= 0x1_0000_0000_4000,
            -0x1_0000_0000_4000 <= old(self).y <= 0x1_0000_0000_4000,
            -0x4000_0000 <= old(self).vel_y <= 0x4000_0000,
            old(self).anim_num <= 6,
            state@.constants.n113_professor_booster.len() == 14,
            anim_table_ok(state@.constants.n113_professor_booster),
        ensures
            *final(self) == booster_tail_phase(*old(self), state@.constants),
    {
        self.vel_y += 0x40;
        self.y += self.vel_y;

        let dir_offset: usize = if self.direction == Direction::Left {
            0
        } else {
            7
        };
        self.anim_rect = state.constants.npc.n113_professor_booster[self.anim_num as usize
            + dir_offset];

        if self.action_num == 31 {
            self.anim_rect.bottom = self.action_counter / 4 + self.anim_rect.top;
            if self.action_counter / 2 % 2 != 0 {
                self.anim_rect.left += 1;
            }
        }
    }

    /// Tick the inventor actor: run its action-code state machine, then
    /// apply gravity, integrate velocity, and pick the animation frame.
    #[verifier::rlimit(100)]
    #[verifier::spinoff_prover]
    pub fn tick_n113_professor_booster(&mut self, state: &GameState)
        requires
            npc_in_range(*old(self)),
            old(self).anim_num <= 6,
            state@.constants.n113_professor_booster.len() == 14,
            anim_table_ok(state@.constants.n113_professor_booster),
        ensures
            *final(self) == spec_tick_n113(*old(self), state@.constants),
            final(self).anim_num <= 6,
    {
        let ghost n0 = *self;
        if self.action_num == 0 || self.action_num == 1 {
            self.n113_idle();
        } else if self.action_num == 2 {
            self.n113_blink();
        } else if self.action_num == 3 || self.action_num == 4 {
            self.n113_walk();
        } else if self.action_num == 5 {
            self.anim_num = 6;
        } else if self.action_num == 30 || self.action_num == 31 {
            self.n113_descend();
        } else if self.action_num == 32 {
            self.n113_pause();
        } else if self.action_num == 33 {
            self.n113_fall();
        }
        proof {
            assert(*self == booster_action_phase(n0));
            assert(self.anim_num <= 6);
            assert(-0x1_0000_0000_4000 <= self.x <= 0x1_0000_0000_4000);
            assert(-0x1_0000_0000_4000 <= self.y <= 0x1_0000_0000_4000);
        }
        self.n113_tail(state);
    }
}

} // verus!
