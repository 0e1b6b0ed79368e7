//! Behavior of the giant frog boss: the driver part's action-code state
//! machine (idle, hop cycle, shot volley, big leap, death sequence),
//! its projectile, and the placement pass that derives the two slaved
//! mouth parts from the driver's committed state each step.

use vstd::prelude::*;
use crate::common::{Condition, Direction, Rect};
use crate::npc::{sat_inc, spec_create_from, spec_sat_inc, BossNPC, NPC};
use crate::physics::{decay_velocity, spec_decay};
use crate::player::Player;
use crate::player_hit::npc_in_range;
use crate::rng::{spec_next, spec_range_val, Rng};
use crate::state::{ConstantsView, GameState, GameStateView, SpawnRequest};

verus! {

/// The smoke-puff spawn loop: each puff scatters around the base point
/// and drifts, all drawn from the spawner's private stream in a fixed
/// order (horizontal offset, vertical offset, drift, lift).
pub open spec fn spec_smoke_seq(
    template: NPC,
    base_x: i64,
    base_y: i64,
    rng: Rng,
    count: int,
    q: Seq<SpawnRequest>,
) -> (Rng, Seq<SpawnRequest>)
    decreases count,
{
    if count <= 0 {
        (rng, q)
    } else {
        let dx = spec_range_val(rng.state, -12, 12);
        let s1 = spec_next(rng.state);
        let dy = spec_range_val(s1, -12, 12);
        let s2 = spec_next(s1);
        let vx = spec_range_val(s2, -0x155, 0x155);
        let s3 = spec_next(s2);
        let vy = spec_range_val(s3, -0x600, 0);
        let s4 = spec_next(s3);
        let n = NPC {
            cond: Condition { alive: true, ..template.cond },
            direction: Direction::Left,
            x: (base_x + dx * 0x200) as i64,
            y: (base_y + dy * 0x200) as i64,
            vel_x: vx as i64,
            vel_y: vy as i64,
            ..template
        };
        spec_smoke_seq(
            template,
            base_x,
            base_y,
            Rng { state: s4 },
            count - 1,
            q.push(SpawnRequest::Ready(n)),
        )
    }
}

/// The floor-level smoke loop of the big-leap landing: the vertical
/// position is fixed at the driver's lower bound, so only three values
/// are drawn per puff.
pub open spec fn spec_floor_smoke_seq(
    template: NPC,
    base_x: i64,
    floor_y: i64,
    rng: Rng,
    count: int,
    q: Seq<SpawnRequest>,
) -> (Rng, Seq<SpawnRequest>)
    decreases count,
{
    if count <= 0 {
        (rng, q)
    } else {
        let dx = spec_range_val(rng.state, -12, 12);
        let s1 = spec_next(rng.state);
        let vx = spec_range_val(s1, -0x155, 0x155);
        let s2 = spec_next(s1);
        let vy = spec_range_val(s2, -0x600, 0);
        let s3 = spec_next(s2);
        let n = NPC {
            cond: Condition { alive: true, ..template.cond },
            direction: Direction::Left,
            x: (base_x + dx * 0x200) as i64,
            y: floor_y,
            vel_x: vx as i64,
            vel_y: vy as i64,
            ..template
        };
        spec_floor_smoke_seq(
            template,
            base_x,
            floor_y,
            Rng { state: s3 },
            count - 1,
            q.push(SpawnRequest::Ready(n)),
        )
    }
}

/// The small-frog spawn loop: each frog lands at a tile drawn from the
/// driver's stream and faces the player when resolved.
pub open spec fn spec_frog_seq(template: NPC, rng: Rng, count: int, q: Seq<SpawnRequest>) -> (
    Rng,
    Seq<SpawnRequest>,
)
    decreases count,
{
    if count <= 0 {
        (rng, q)
    } else {
        let tx = spec_range_val(rng.state, 4, 16);
        let s1 = spec_next(rng.state);
        let ty = spec_range_val(s1, 0, 4);
        let s2 = spec_next(s1);
        let n = NPC {
            cond: Condition { alive: true, ..template.cond },
            direction: Direction::FacingPlayer,
            x: (tx * 16 * 0x200) as i64,
            y: (ty * 16 * 0x200) as i64,
            ..template
        };
        spec_frog_seq(template, Rng { state: s2 }, count - 1, q.push(SpawnRequest::Ready(n)))
    }
}

/// First-sight setup of the driver part's record.
pub open spec fn spec_b02_init(p0: NPC) -> NPC {
    NPC {
        x: (6 * 16 * 0x200) as i64,
        y: (12 * 16 * 0x200) as i64,
        direction: Direction::Right,
        display_bounds: Rect {
            left: (48 * 0x200) as u32,
            top: (48 * 0x200) as u32,
            right: (32 * 0x200) as u32,
            bottom: (16 * 0x200) as u32,
        },
        hit_bounds: Rect {
            left: (24 * 0x200) as u32,
            top: (16 * 0x200) as u32,
            right: (24 * 0x200) as u32,
            bottom: (16 * 0x200) as u32,
        },
        size: 3,
        exp: 1,
        event_num: 1000,
        npc_flags: crate::common::NpcFlags {
            event_when_killed: true,
            show_damage: true,
            ..p0.npc_flags
        },
        life: 300,
        ..p0
    }
}

/// Awakening: the three parts go live, the slaved parts arm their
/// contact damage, and a burst of smoke erupts from the driver.
pub open spec fn spec_b02_awaken(p0: NPC, p1: NPC, p2: NPC, s: GameStateView) -> (
    NPC,
    NPC,
    NPC,
    GameStateView,
) {
    let q0 = NPC {
        action_num: 11,
        anim_num: 3,
        cond: Condition { alive: true, ..p0.cond },
        anim_rect: s.constants.b02_balfrog[9],
        ..p0
    };
    let q1 = NPC {
        cond: Condition { alive: true, damage_boss: true, ..p1.cond },
        damage: 5,
        ..p1
    };
    let q2 = NPC { cond: Condition { alive: true, ..p2.cond }, damage: 5, ..p2 };
    let template = spec_create_from(s.npc_table[4], 4);
    let (rng2, queue2) = spec_smoke_seq(template, q0.x, q0.y, q0.rng, 8, s.new_npcs);
    (
        NPC { rng: rng2, ..q0 },
        q1,
        q2,
        GameStateView { new_npcs: queue2, ..s },
    )
}

/// Defeated-cutscene flicker between crouch and bloated frames.
pub open spec fn spec_b02_flicker(p0: NPC) -> NPC {
    let q = if p0.action_num == 20 {
        NPC { action_num: 21, action_counter: 0, ..p0 }
    } else {
        p0
    };
    let c = spec_sat_inc(q.action_counter);
    NPC {
        action_counter: c,
        anim_num: if (c / 2) % 2 != 0 {
            3
        } else {
            0
        },
        ..q
    }
}

/// A crouch phase of the hop cycle: the driver halts, waits a fixed
/// fifty frames, then moves on to the next code with the wind-up frame.
pub open spec fn spec_b02_crouch(p0: NPC, entry: u16, settled: u16, next: u16) -> NPC {
    let q = if p0.action_num == entry {
        NPC { action_num: settled, action_counter: 0, anim_num: 1, vel_x: 0, ..p0 }
    } else {
        p0
    };
    let c = spec_sat_inc(q.action_counter);
    if c > 50 {
        NPC { action_counter: c, action_num: next, anim_counter: 0, anim_num: 2, ..q }
    } else {
        NPC { action_counter: c, ..q }
    }
}

/// A wind-up phase: hold the wind-up frame for a fixed number of
/// animation frames, then settle back and move on.
pub open spec fn spec_b02_windup(p0: NPC, threshold: u16, next: u16) -> NPC {
    let c = spec_sat_inc(p0.anim_counter);
    if c > threshold {
        NPC { anim_counter: 0, action_num: next, anim_num: 1, ..p0 }
    } else {
        NPC { anim_counter: c, ..p0 }
    }
}

/// The short-hop launch: after four animation frames the driver leaves
/// the ground toward its facing direction and the croak sounds.
pub open spec fn spec_b02_leap_start(p0: NPC, s: GameStateView) -> (NPC, GameStateView) {
    let c = spec_sat_inc(p0.anim_counter);
    if c > 4 {
        (
            NPC {
                anim_counter: c,
                action_num: 104,
                anim_num: 5,
                vel_x: (p0.direction.spec_vector_x() * 0x200) as i64,
                vel_y: (-2 * 0x200) as i64,
                display_bounds: Rect {
                    top: (64 * 0x200) as u32,
                    bottom: (24 * 0x200) as u32,
                    ..p0.display_bounds
                },
                ..p0
            },
            GameStateView { sound_queue: s.sound_queue.push(25u8), ..s },
        )
    } else {
        (NPC { anim_counter: c, ..p0 }, s)
    }
}

/// The big-leap launch: after four animation frames the driver hurls
/// itself leftward and the croak sounds.
pub open spec fn spec_b02_bigjump_start(p0: NPC, s: GameStateView) -> (NPC, GameStateView) {
    let c = spec_sat_inc(p0.anim_counter);
    if c > 4 {
        (
            NPC {
                anim_counter: c,
                action_num: 124,
                anim_num: 5,
                vel_x: (-5 * 0x200) as i64,
                display_bounds: Rect {
                    top: (64 * 0x200) as u32,
                    bottom: (24 * 0x200) as u32,
                    ..p0.display_bounds
                },
                ..p0
            },
            GameStateView { sound_queue: s.sound_queue.push(25u8), ..s },
        )
    } else {
        (NPC { anim_counter: c, ..p0 }, s)
    }
}

/// Airborne during the short hop: walls flip the motion, and touching
/// ground ends the hop — turning toward the player when it was passed
/// over, dropping one small frog and a smoke burst, and shaking the
/// screen.
pub open spec fn spec_b02_leap(p0: NPC, s: GameStateView, player_x: i64) -> (NPC, GameStateView) {
    let a = if p0.direction == Direction::Left && p0.flags.hit_left_wall {
        NPC { direction: Direction::Right, vel_x: 0x200, ..p0 }
    } else {
        p0
    };
    let b = if a.direction == Direction::Right && a.flags.hit_right_wall {
        NPC { direction: Direction::Left, vel_x: (-0x200) as i64, ..a }
    } else {
        a
    };
    if b.flags.hit_bottom_wall {
        let c = NPC {
            action_num: 100,
            anim_num: 1,
            display_bounds: Rect {
                top: (48 * 0x200) as u32,
                bottom: (16 * 0x200) as u32,
                ..b.display_bounds
            },
            ..b
        };
        let d = if c.direction == Direction::Left && c.x < player_x {
            NPC { direction: Direction::Right, action_num: 110, ..c }
        } else {
            c
        };
        let e = if d.direction == Direction::Right && d.x > player_x {
            NPC { direction: Direction::Left, action_num: 110, ..d }
        } else {
            d
        };
        let frog = spec_create_from(s.npc_table[110], 110);
        let (rng1, q1) = spec_frog_seq(frog, e.rng, 1, s.new_npcs);
        let smoke = spec_create_from(s.npc_table[4], 4);
        let (rng2, q2) = spec_smoke_seq(smoke, e.x, e.y, rng1, 4, q1);
        (
            NPC { rng: rng2, ..e },
            GameStateView {
                new_npcs: q2,
                quake_counter: 30,
                sound_queue: s.sound_queue.push(26u8),
                ..s
            },
        )
    } else {
        (b, s)
    }
}

/// Settling after a hop: horizontal momentum decays by the ratio 8/9
/// each frame, truncating toward zero, and after fifty frames the
/// mouth starts to open.
pub open spec fn spec_b02_settle(p0: NPC) -> NPC {
    let q = if p0.action_num == 110 {
        NPC { anim_num: 1, action_num: 111, action_counter: 0, ..p0 }
    } else {
        p0
    };
    let c = spec_sat_inc(q.action_counter);
    let v = spec_decay(q.vel_x as int, 8, 9);
    if c > 50 {
        NPC { action_counter: c, vel_x: v as i64, anim_num: 2, anim_counter: 0, action_num: 112, ..q }
    } else {
        NPC { action_counter: c, vel_x: v as i64, ..q }
    }
}

/// Opening the mouth: after four animation frames the volley arms — a
/// sixteen-shot budget, a life snapshot for the abort threshold, and
/// the mouth part becomes shootable.
pub open spec fn spec_b02_mouth_open(p0: NPC, p1: NPC) -> (NPC, NPC) {
    let c = spec_sat_inc(p0.anim_counter);
    if c > 4 {
        (
            NPC {
                anim_counter: c,
                action_num: 113,
                action_counter: 0,
                vel_x2: 16,
                anim_num: 3,
                target_x: p0.life as i64,
                ..p0
            },
            NPC { npc_flags: crate::common::NpcFlags { shootable: true, ..p1.npc_flags }, ..p1 },
        )
    } else {
        (NPC { anim_counter: c, ..p0 }, p1)
    }
}

/// The hurt twitch of the volley's mouth frame: while shocked the
/// mouth alternates frames; otherwise it rests and the twitch timer
/// clears.
pub open spec fn spec_b02_shoot_twitch(p0: NPC) -> NPC {
    if p0.shock != 0 {
        NPC {
            anim_num: if (p0.action_counter2 / 2) % 2 != 0 {
                4
            } else {
                3
            },
            ..p0
        }
    } else {
        NPC { action_counter2: 0, anim_num: 3, ..p0 }
    }
}

/// The per-frame head of the shot volley: the hurt twitch of the mouth
/// frame, the 10/11 truncating momentum decay, and the volley timer.
pub open spec fn spec_b02_shoot_head(p0: NPC) -> NPC {
    let a = spec_b02_shoot_twitch(p0);
    let b = NPC { vel_x: spec_decay(a.vel_x as int, 10, 11) as i64, ..a };
    NPC { action_counter: spec_sat_inc(b.action_counter), ..b }
}

/// The firing step of the volley, taken every seventeenth frame: one
/// aimed projectile leaves with a jittered angle toward the player, and
/// the volley closes when the shot budget is spent or enough life was
/// lost since it opened.
pub open spec fn spec_b02_shoot_fire(
    b: NPC,
    p1: NPC,
    s: GameStateView,
    player_x: i64,
    player_y: i64,
) -> (NPC, NPC, GameStateView) {
    if b.action_counter > 16 {
        let d = NPC {
            action_counter: 0,
            vel_x2: if b.vel_x2 == i64::MIN {
                i64::MIN
            } else {
                (b.vel_x2 - 1) as i64
            },
            ..b
        };
        let px = d.x + d.direction.spec_vector_x() * 2 * 16 * 0x200 - player_x;
        let py = d.y - 8 * 0x200 - player_y;
        let deg_units = spec_range_val(d.rng.state, -16, 16);
        let e = NPC { rng: Rng { state: spec_next(d.rng.state) }, ..d };
        let shot0 = spec_create_from(s.npc_table[108], 108);
        let shot = NPC {
            cond: Condition { alive: true, ..shot0.cond },
            x: (e.x + e.direction.spec_vector_x() * 2 * 16 * 0x200) as i64,
            y: (e.y - 8 * 0x200) as i64,
            ..shot0
        };
        let s1 = GameStateView {
            new_npcs: s.new_npcs.push(
                SpawnRequest::Aimed(shot, px as i64, py as i64, deg_units as i32),
            ),
            sound_queue: s.sound_queue.push(39u8),
            ..s
        };
        if e.vel_x2 == 0 || (e.life as i64) < e.target_x - 90 {
            (
                NPC { action_num: 114, action_counter: 0, anim_num: 2, anim_counter: 0, ..e },
                NPC {
                    npc_flags: crate::common::NpcFlags { shootable: false, ..p1.npc_flags },
                    ..p1
                },
                s1,
            )
        } else {
            (e, p1, s1)
        }
    } else {
        (b, p1, s)
    }
}

/// The shot volley: the mouth twitches while hurt, momentum keeps
/// decaying by 10/11, and every seventeenth frame one aimed projectile
/// leaves toward the player with a jittered angle; the volley ends when
/// the budget runs out or enough life was lost, closing the mouth.
pub open spec fn spec_b02_shoot(p0: NPC, p1: NPC, s: GameStateView, player_x: i64, player_y: i64) -> (
    NPC,
    NPC,
    GameStateView,
) {
    spec_b02_shoot_fire(spec_b02_shoot_head(p0), p1, s, player_x, player_y)
}

/// Closing the mouth after a volley: every third volley leads into the
/// big leap, otherwise back to a crouch.
pub open spec fn spec_b02_mouth_close(p0: NPC, p1: NPC) -> (NPC, NPC) {
    let c = spec_sat_inc(p0.anim_counter);
    if c > 10 {
        let q0 = NPC { anim_num: 1, anim_counter: 0, ..p0 };
        let k = spec_sat_inc(p1.action_counter2);
        if k > 2 {
            (NPC { action_num: 120, ..q0 }, NPC { action_counter2: 0, ..p1 })
        } else {
            (NPC { action_num: 100, ..q0 }, NPC { action_counter2: k, ..p1 })
        }
    } else {
        (NPC { anim_counter: c, ..p0 }, p1)
    }
}


/// The big-leap landing: small frogs rain down, floor smoke erupts, the
/// driver turns toward a passed-over player, and the screen shakes hard.
pub open spec fn spec_b02_bigjump_land(p0: NPC, s: GameStateView, player_x: i64) -> (
    NPC,
    GameStateView,
) {
    if p0.flags.hit_bottom_wall {
        let a = NPC {
            action_num: 100,
            anim_num: 1,
            display_bounds: Rect {
                top: (48 * 0x200) as u32,
                bottom: (16 * 0x200) as u32,
                ..p0.display_bounds
            },
            ..p0
        };
        let frog104 = spec_create_from(s.npc_table[104], 104);
        let (rng1, q1) = spec_frog_seq(frog104, a.rng, 2, s.new_npcs);
        let frog110 = spec_create_from(s.npc_table[110], 110);
        let (rng2, q2) = spec_frog_seq(frog110, rng1, 6, q1);
        let smoke = spec_create_from(s.npc_table[4], 4);
        let (rng3, q3) = spec_floor_smoke_seq(
            smoke,
            a.x,
            (a.y + a.hit_bounds.bottom) as i64,
            rng2,
            8,
            q2,
        );
        let b = NPC { rng: rng3, ..a };
        let c = if b.direction == Direction::Left && b.x < player_x {
            NPC { action_num: 110, direction: Direction::Right, ..b }
        } else {
            b
        };
        let d = if c.direction == Direction::Right && c.x > player_x {
            NPC { action_num: 110, direction: Direction::Right, ..c }
        } else {
            c
        };
        (
            d,
            GameStateView {
                new_npcs: q3,
                sound_queue: s.sound_queue.push(26u8),
                quake_counter: 60,
                ..s
            },
        )
    } else {
        (p0, s)
    }
}

/// The entry step of the death throes: the slaved parts die, the
/// driver halts on its bloated frame, the death cry sounds and smoke
/// erupts.
pub open spec fn spec_b02_death_enter(p0: NPC, p1: NPC, p2: NPC, s: GameStateView) -> (
    NPC,
    NPC,
    NPC,
    GameStateView,
) {
    if p0.action_num == 130 {
        let a = NPC { action_num: 131, action_counter: 0, anim_num: 3, vel_x: 0, ..p0 };
        let q1 = NPC { cond: Condition { alive: false, ..p1.cond }, ..p1 };
        let q2 = NPC { cond: Condition { alive: false, ..p2.cond }, ..p2 };
        let smoke = spec_create_from(s.npc_table[4], 4);
        let (rng1, queue1) = spec_smoke_seq(smoke, a.x, a.y, a.rng, 8, s.new_npcs);
        (
            NPC { rng: rng1, ..a },
            q1,
            q2,
            GameStateView { new_npcs: queue1, sound_queue: s.sound_queue.push(72u8), ..s },
        )
    } else {
        (p0, p1, p2, s)
    }
}

/// The smoke half of the dying body's wobble: the counter advances and
/// every fifth frame one puff leaves.
pub open spec fn spec_b02_wobble_smoke(b0: NPC, s: GameStateView) -> (NPC, GameStateView) {
    let c = spec_sat_inc(b0.action_counter);
    let smoke = spec_create_from(s.npc_table[4], 4);
    let (rng2, queue2) = if c as int % 5 == 0 {
        spec_smoke_seq(smoke, b0.x, b0.y, b0.rng, 1, s.new_npcs)
    } else {
        (b0.rng, s.new_npcs)
    };
    (
        NPC { action_counter: c, rng: rng2, ..b0 },
        GameStateView { new_npcs: queue2, ..s },
    )
}

/// The shake half of the wobble: one pixel side to side, and the
/// shrink-flicker after a hundred frames.
pub open spec fn spec_b02_wobble_shift(d0: NPC) -> NPC {
    let d = NPC {
        x: (d0.x + (if (d0.action_counter / 2) % 2 != 0 {
            -0x200
        } else {
            0x200
        })) as i64,
        ..d0
    };
    if d0.action_counter > 100 {
        NPC { action_num: 132, action_counter: 0, ..d }
    } else {
        d
    }
}

/// The per-frame wobble of the dying body: a smoke puff every fifth
/// frame, a side-to-side shake of one pixel, and the shrink-flicker
/// after a hundred frames.
pub open spec fn spec_b02_death_wobble(b0: NPC, s: GameStateView) -> (NPC, GameStateView) {
    let (a, s1) = spec_b02_wobble_smoke(b0, s);
    (spec_b02_wobble_shift(a), s1)
}

/// The death throes begin: the slaved parts die, the driver halts on
/// its bloated frame, the death cry sounds and smoke erupts; afterwards
/// the body wobbles side to side, puffing smoke every fifth frame.
pub open spec fn spec_b02_death_start(p0: NPC, p1: NPC, p2: NPC, s: GameStateView) -> (
    NPC,
    NPC,
    NPC,
    GameStateView,
) {
    let (a, q1, q2, s1) = spec_b02_death_enter(p0, p1, p2, s);
    let (e, s2) = spec_b02_death_wobble(a, s1);
    (e, q1, q2, s2)
}

/// The per-frame shape of the shrink-flicker: the body alternates
/// between its bloated and shrunken frames every other frame.
pub open spec fn spec_b02_death_shape(p0: NPC) -> NPC {
    let c = spec_sat_inc(p0.action_counter);
    if (c / 2) % 2 != 0 {
        NPC {
            action_counter: c,
            anim_num: 6,
            display_bounds: Rect {
                left: (20 * 0x200) as u32,
                top: (12 * 0x200) as u32,
                right: (20 * 0x200) as u32,
                bottom: (12 * 0x200) as u32,
            },
            ..p0
        }
    } else {
        NPC {
            action_counter: c,
            anim_num: 3,
            display_bounds: Rect {
                left: (48 * 0x200) as u32,
                top: (48 * 0x200) as u32,
                right: (32 * 0x200) as u32,
                bottom: (16 * 0x200) as u32,
            },
            ..p0
        }
    }
}

/// The smoke and drop-out step of the shrink-flicker: a puff every
/// ninth frame, and after one hundred fifty frames the carcass arms its
/// fall.
pub open spec fn spec_b02_death_puff(a: NPC, s: GameStateView) -> (NPC, GameStateView) {
    let smoke = spec_create_from(s.npc_table[4], 4);
    let (rng1, queue1) = if a.action_counter as int % 9 == 0 {
        spec_smoke_seq(smoke, a.x, a.y, a.rng, 1, s.new_npcs)
    } else {
        (a.rng, s.new_npcs)
    };
    let b = NPC { rng: rng1, ..a };
    let d = if a.action_counter > 150 {
        NPC {
            action_num: 140,
            hit_bounds: Rect { bottom: (12 * 0x200) as u32, ..b.hit_bounds },
            ..b
        }
    } else {
        b
    };
    (d, GameStateView { new_npcs: queue1, ..s })
}

/// The death shrink-flicker: the body alternates between its bloated
/// and shrunken frames, still puffing smoke every ninth frame, until
/// the carcass drops.
pub open spec fn spec_b02_death_flicker(p0: NPC, s: GameStateView) -> (NPC, GameStateView) {
    spec_b02_death_puff(spec_b02_death_shape(p0), s)
}

/// Waiting for the carcass to touch ground, then rolling onto its back.
pub open spec fn spec_b02_death_wait(p0: NPC) -> NPC {
    let a = if p0.action_num == 140 {
        NPC { action_num: 141, ..p0 }
    } else {
        p0
    };
    if a.flags.hit_bottom_wall {
        NPC { action_num: 142, action_counter: 0, anim_num: 7, ..a }
    } else {
        a
    }
}

/// Lying still for thirty frames, then springing upward out of the
/// arena, ignoring solidity.
pub open spec fn spec_b02_death_leap(p0: NPC) -> NPC {
    let c = spec_sat_inc(p0.action_counter);
    if c > 30 {
        NPC {
            action_counter: c,
            anim_num: 8,
            vel_y: (-5 * 0x200) as i64,
            npc_flags: crate::common::NpcFlags { ignore_solidity: true, ..p0.npc_flags },
            action_num: 143,
        ..p0
        }
    } else {
        NPC { action_counter: c, ..p0 }
    }
}

/// Escaping upward: the carcass keeps rising and vanishes above the
/// arena with a final crash and screen shake.
pub open spec fn spec_b02_escape(p0: NPC, s: GameStateView) -> (NPC, GameStateView) {
    let a = NPC { vel_y: (-5 * 0x200) as i64, ..p0 };
    if a.y < 0 {
        (
            NPC { cond: Condition { alive: false, ..a.cond }, ..a },
            GameStateView { sound_queue: s.sound_queue.push(26u8), quake_counter: 30, ..s },
        )
    } else {
        (a, s)
    }
}

/// The ground half of the driver's dispatch: first-sight setup,
/// awakening, the defeated-cutscene flicker, and the hop cycle up to
/// the airborne short hop. Unknown codes in this range are no-ops.
pub open spec fn spec_b02_action_early(
    p0: NPC,
    p1: NPC,
    p2: NPC,
    s: GameStateView,
    player_x: i64,
) -> (NPC, NPC, NPC, GameStateView) {
    if p0.action_num == 0 {
        (spec_b02_init(p0), p1, p2, s)
    } else if p0.action_num == 10 {
        spec_b02_awaken(p0, p1, p2, s)
    } else if p0.action_num == 20 || p0.action_num == 21 {
        (spec_b02_flicker(p0), p1, p2, s)
    } else if p0.action_num == 100 || p0.action_num == 101 {
        (spec_b02_crouch(p0, 100, 101, 102), p1, p2, s)
    } else if p0.action_num == 102 {
        (spec_b02_windup(p0, 10, 103), p1, p2, s)
    } else if p0.action_num == 103 {
        let (q0, s1) = spec_b02_leap_start(p0, s);
        (q0, p1, p2, s1)
    } else if p0.action_num == 104 {
        let (q0, s1) = spec_b02_leap(p0, s, player_x);
        (q0, p1, p2, s1)
    } else {
        (p0, p1, p2, s)
    }
}

/// The battle half of the driver's dispatch: settling, the shot
/// volley, the big leap and the death sequence. Unknown codes in this
/// range are no-ops.
pub open spec fn spec_b02_action_late(
    p0: NPC,
    p1: NPC,
    p2: NPC,
    s: GameStateView,
    player_x: i64,
    player_y: i64,
) -> (NPC, NPC, NPC, GameStateView) {
    if p0.action_num == 110 || p0.action_num == 111 {
        (spec_b02_settle(p0), p1, p2, s)
    } else if p0.action_num == 112 {
        let (q0, q1) = spec_b02_mouth_open(p0, p1);
        (q0, q1, p2, s)
    } else if p0.action_num == 113 {
        let (q0, q1, s1) = spec_b02_shoot(p0, p1, s, player_x, player_y);
        (q0, q1, p2, s1)
    } else if p0.action_num == 114 {
        let (q0, q1) = spec_b02_mouth_close(p0, p1);
        (q0, q1, p2, s)
    } else if p0.action_num == 120 || p0.action_num == 121 {
        (spec_b02_crouch(p0, 120, 121, 122), p1, p2, s)
    } else if p0.action_num == 122 {
        (spec_b02_windup(p0, 20, 123), p1, p2, s)
    } else if p0.action_num == 123 {
        let (q0, s1) = spec_b02_bigjump_start(p0, s);
        (q0, p1, p2, s1)
    } else if p0.action_num == 124 {
        let (q0, s1) = spec_b02_bigjump_land(p0, s, player_x);
        (q0, p1, p2, s1)
    } else if p0.action_num == 130 || p0.action_num == 131 {
        spec_b02_death_start(p0, p1, p2, s)
    } else if p0.action_num == 132 {
        let (q0, s1) = spec_b02_death_flicker(p0, s);
        (q0, p1, p2, s1)
    } else if p0.action_num == 140 || p0.action_num == 141 {
        (spec_b02_death_wait(p0), p1, p2, s)
    } else if p0.action_num == 142 {
        (spec_b02_death_leap(p0), p1, p2, s)
    } else if p0.action_num == 143 {
        let (q0, s1) = spec_b02_escape(p0, s);
        (q0, p1, p2, s1)
    } else {
        (p0, p1, p2, s)
    }
}

/// The action-code dispatch of the driver's state machine; an unknown
/// code is a no-op and the part keeps integrating.
pub open spec fn spec_b02_action(
    p0: NPC,
    p1: NPC,
    p2: NPC,
    s: GameStateView,
    player_x: i64,
    player_y: i64,
) -> (NPC, NPC, NPC, GameStateView) {
    if p0.action_num <= 104 {
        spec_b02_action_early(p0, p1, p2, s, player_x)
    } else {
        spec_b02_action_late(p0, p1, p2, s, player_x, player_y)
    }
}

/// Clamped gravity and velocity integration of the driver part.
pub open spec fn spec_b02_integrate(p0: NPC) -> NPC {
    let v = p0.vel_y + 0x40;
    let v2 = if v > 0x5ff {
        0x5ff
    } else {
        v
    };
    let a = NPC { vel_y: v2 as i64, ..p0 };
    NPC { x: (a.x + a.vel_x) as i64, y: (a.y + a.vel_y) as i64, ..a }
}

/// The driver's physics tail: gravity clamped at the terminal fall
/// speed, velocity integration, and the frame lookup by (animation
/// index, facing).
pub open spec fn spec_b02_gravity(p0: NPC, consts: ConstantsView) -> NPC {
    let b = spec_b02_integrate(p0);
    let dir_offset: int = if b.direction == Direction::Left {
        0
    } else {
        9
    };
    NPC { anim_rect: consts.b02_balfrog[b.anim_num + dir_offset], ..b }
}

/// The closed-frame re-armoring of the slaved parts: sizes, hit boxes
/// and invulnerability re-derive from the driver's crouch frame.
pub open spec fn spec_b02_armor(p1: NPC, p2: NPC) -> (NPC, NPC) {
    (
        NPC {
            size: 3,
            npc_flags: crate::common::NpcFlags { invulnerable: true, ..p1.npc_flags },
            hit_bounds: Rect {
                left: (16 * 0x200) as u32,
                top: (16 * 0x200) as u32,
                right: (16 * 0x200) as u32,
                bottom: (16 * 0x200) as u32,
            },
            ..p1
        },
        NPC {
            size: 3,
            npc_flags: crate::common::NpcFlags { invulnerable: true, ..p2.npc_flags },
            hit_bounds: Rect {
                left: (24 * 0x200) as u32,
                top: (16 * 0x200) as u32,
                right: (24 * 0x200) as u32,
                bottom: (16 * 0x200) as u32,
            },
            ..p2
        },
    )
}

/// The open-frame placement of the slaved parts: the mouth hangs a
/// frame-dependent height over the driver, the body part rides its
/// center.
pub open spec fn spec_b02_place(q0: NPC, p1: NPC, p2: NPC, dy: int) -> (NPC, NPC) {
    (
        NPC {
            x: (q0.x + q0.direction.spec_vector_x() * 24 * 0x200) as i64,
            y: (q0.y - dy * 0x200) as i64,
            ..p1
        },
        NPC { x: q0.x, y: q0.y, ..p2 },
    )
}

/// The placement pass for the slaved mouth parts: their position and,
/// on the closed frame, their geometry and invulnerability derive from
/// the driver's committed state and animation index for this step.
pub open spec fn spec_b02_parts(q0: NPC, p1: NPC, p2: NPC) -> (NPC, NPC, bool) {
    if q0.anim_num == 0 {
        let (a1, a2) = spec_b02_armor(p1, p2);
        (a1, a2, true)
    } else if q0.anim_num == 1 {
        let (a1, a2) = spec_b02_place(q0, p1, p2, 24);
        (a1, a2, false)
    } else if q0.anim_num == 2 {
        let (a1, a2) = spec_b02_place(q0, p1, p2, 20);
        (a1, a2, false)
    } else if q0.anim_num == 3 || q0.anim_num == 4 {
        let (a1, a2) = spec_b02_place(q0, p1, p2, 16);
        (a1, a2, false)
    } else if q0.anim_num == 5 {
        let (a1, a2) = spec_b02_place(q0, p1, p2, 43);
        (a1, a2, false)
    } else {
        (p1, p2, false)
    }
}

/// One full tick of the composite frog boss over its three active
/// parts, the hurt-sound table and the world state.
pub open spec fn spec_tick_b02(
    parts: Seq<NPC>,
    hurt: Seq<u8>,
    s: GameStateView,
    player_x: i64,
    player_y: i64,
) -> (Seq<NPC>, Seq<u8>, GameStateView) {
    let (a0, a1, a2, s1) = spec_b02_action(parts[0], parts[1], parts[2], s, player_x, player_y);
    let hurt1 = if parts[0].action_num == 0 {
        hurt.update(0, 52u8)
    } else {
        hurt
    };
    let g0 = spec_b02_gravity(a0, s1.constants);
    let (b1, b2, set_hurt) = spec_b02_parts(g0, a1, a2);
    let hurt2 = if set_hurt {
        hurt1.update(1, 52u8).update(2, 52u8)
    } else {
        hurt1
    };
    (parts.update(0, g0).update(1, b1).update(2, b2), hurt2, s1)
}


/// The envelope a driver part stays in across one action phase: the
/// state machine only ever nudges coordinates by fractions of a tile
/// and velocities by a few pixels per frame.
pub open spec fn b02_part_ok(n: NPC) -> bool {
    &&& npc_in_range(n)
    &&& n.anim_num <= 8
    &&& -0x1_0000_0000_0000 <= n.target_x <= 0x1_0000_0000_0000
}

/// The slightly wider envelope the driver may be in after its action
/// phase, before the physics tail.
pub open spec fn b02_loose(n: NPC) -> bool {
    &&& -0x1_0000_0001_0000 <= n.x <= 0x1_0000_0001_0000
    &&& -0x1_0000_0001_0000 <= n.y <= 0x1_0000_0001_0000
    &&& -0x4000_0200 <= n.vel_x <= 0x4000_0200
    &&& -0x4000_0200 <= n.vel_y <= 0x4000_0200
    &&& n.anim_num <= 8
}

/// Append a burst of smoke puffs to the spawn queue, drawing from the
/// given stream.
fn push_smoke(
    template: NPC,
    base_x: i64,
    base_y: i64,
    count: u32,
    rng: &mut Rng,
    state: &mut GameState,
)
    requires
        -0x1_0000_0001_0000 <= base_x <= 0x1_0000_0001_0000,
        -0x1_0000_0001_0000 <= base_y <= 0x1_0000_0001_0000,
    ensures
        ({
            let r = spec_smoke_seq(
                template,
                base_x,
                base_y,
                *old(rng),
                count as int,
                old(state)@.new_npcs,
            );
            *final(rng) == r.0 && final(state)@ == (GameStateView {
                new_npcs: r.1,
                ..old(state)@
            })
        }),
{
    let ghost r0 = *rng;
    let ghost q0 = state@.new_npcs;
    let mut i: u32 = 0;
    while i < count
        invariant
            i <= count,
            -0x1_0000_0001_0000 <= base_x <= 0x1_0000_0001_0000,
            -0x1_0000_0001_0000 <= base_y <= 0x1_0000_0001_0000,
            spec_smoke_seq(template, base_x, base_y, r0, count as int, q0) == spec_smoke_seq(
                template,
                base_x,
                base_y,
                *rng,
                (count - i) as int,
                state@.new_npcs,
            ),
            state@ == (GameStateView { new_npcs: state@.new_npcs, ..old(state)@ }),
        decreases count - i,
    {
        let dx = rng.range(-12, 12);
        let dy = rng.range(-12, 12);
        let vx = rng.range(-0x155, 0x155);
        let vy = rng.range(-0x600, 0);
        let mut n = template;
        n.cond.alive = true;
        n.direction = Direction::Left;
        n.x = base_x + (dx as i64) * 0x200;
        n.y = base_y + (dy as i64) * 0x200;
        n.vel_x = vx as i64;
        n.vel_y = vy as i64;
        state.new_npcs.push(SpawnRequest::Ready(n));
        i += 1;
    }
}

/// Append floor-level smoke puffs to the spawn queue.
fn push_floor_smoke(
    template: NPC,
    base_x: i64,
    floor_y: i64,
    count: u32,
    rng: &mut Rng,
    state: &mut GameState,
)
    requires
        -0x1_0000_0001_0000 <= base_x <= 0x1_0000_0001_0000,
    ensures
        ({
            let r = spec_floor_smoke_seq(
                template,
                base_x,
                floor_y,
                *old(rng),
                count as int,
                old(state)@.new_npcs,
            );
            *final(rng) == r.0 && final(state)@ == (GameStateView {
                new_npcs: r.1,
                ..old(state)@
            })
        }),
{
    let ghost r0 = *rng;
    let ghost q0 = state@.new_npcs;
    let mut i: u32 = 0;
    while i < count
        invariant
            i <= count,
            -0x1_0000_0001_0000 <= base_x <= 0x1_0000_0001_0000,
            spec_floor_smoke_seq(template, base_x, floor_y, r0, count as int, q0)
                == spec_floor_smoke_seq(
                template,
                base_x,
                floor_y,
                *rng,
                (count - i) as int,
                state@.new_npcs,
            ),
            state@ == (GameStateView { new_npcs: state@.new_npcs, ..old(state)@ }),
        decreases count - i,
    {
        let dx = rng.range(-12, 12);
        let vx = rng.range(-0x155, 0x155);
        let vy = rng.range(-0x600, 0);
        let mut n = template;
        n.cond.alive = true;
        n.direction = Direction::Left;
        n.x = base_x + (dx as i64) * 0x200;
        n.y = floor_y;
        n.vel_x = vx as i64;
        n.vel_y = vy as i64;
        state.new_npcs.push(SpawnRequest::Ready(n));
        i += 1;
    }
}

/// Append small-frog spawns to the queue.
fn push_frogs(template: NPC, count: u32, rng: &mut Rng, state: &mut GameState)
    ensures
        ({
            let r = spec_frog_seq(template, *old(rng), count as int, old(state)@.new_npcs);
            *final(rng) == r.0 && final(state)@ == (GameStateView {
                new_npcs: r.1,
                ..old(state)@
            })
        }),
{
    let ghost r0 = *rng;
    let ghost q0 = state@.new_npcs;
    let mut i: u32 = 0;
    while i < count
        invariant
            i <= count,
            spec_frog_seq(template, r0, count as int, q0) == spec_frog_seq(
                template,
                *rng,
                (count - i) as int,
                state@.new_npcs,
            ),
            state@ == (GameStateView { new_npcs: state@.new_npcs, ..old(state)@ }),
        decreases count - i,
    {
        let tx = rng.range(4, 16);
        let ty = rng.range(0, 4);
        let mut n = template;
        n.cond.alive = true;
        n.direction = Direction::FacingPlayer;
        n.x = (tx as i64) * 16 * 0x200;
        n.y = (ty as i64) * 16 * 0x200;
        state.new_npcs.push(SpawnRequest::Ready(n));
        i += 1;
    }
}


pub fn b02_run_init(n: &mut NPC)
    requires
        b02_part_ok(*old(n)),
    ensures
        *final(n) == spec_b02_init(*old(n)),
        b02_loose(*final(n)),
{
    n.x = 6 * 16 * 0x200;
    n.y = 12 * 16 * 0x200;
    n.direction = Direction::Right;
    n.display_bounds = Rect {
        left: 48 * 0x200,
        top: 48 * 0x200,
        right: 32 * 0x200,
        bottom: 16 * 0x200,
    };
    n.hit_bounds = Rect {
        left: 24 * 0x200,
        top: 16 * 0x200,
        right: 24 * 0x200,
        bottom: 16 * 0x200,
    };
    n.size = 3;
    n.exp = 1;
    n.event_num = 1000;
    n.npc_flags.event_when_killed = true;
    n.npc_flags.show_damage = true;
    n.life = 300;
}

pub fn b02_run_awaken(n: &mut NPC, p1: &mut NPC, p2: &mut NPC, state: &mut GameState)
    requires
        b02_part_ok(*old(n)),
        old(state)@.npc_table.len() > 110,
        old(state)@.constants.b02_balfrog.len() == 18,
    ensures
        (*final(n), *final(p1), *final(p2), final(state)@) == spec_b02_awaken(
            *old(n),
            *old(p1),
            *old(p2),
            old(state)@,
        ),
        b02_loose(*final(n)),
{
    n.action_num = 11;
    n.anim_num = 3;
    n.cond.alive = true;
    n.anim_rect = state.constants.npc.b02_balfrog[9];

    p1.cond.alive = true;
    p1.cond.damage_boss = true;
    p1.damage = 5;

    p2.cond.alive = true;
    p2.damage = 5;

    let template = state.npc_table.create_npc(4);
    let mut rng = n.rng;
    push_smoke(template, n.x, n.y, 8, &mut rng, state);
    n.rng = rng;
}

pub fn b02_run_flicker(n: &mut NPC)
    requires
        b02_part_ok(*old(n)),
    ensures
        *final(n) == spec_b02_flicker(*old(n)),
        b02_loose(*final(n)),
{
    if n.action_num == 20 {
        n.action_num = 21;
        n.action_counter = 0;
    }
    n.action_counter = sat_inc(n.action_counter);
    n.anim_num = if (n.action_counter / 2) % 2 != 0 {
        3
    } else {
        0
    };
}

pub fn b02_run_crouch(n: &mut NPC, entry: u16, settled: u16, next: u16)
    requires
        b02_part_ok(*old(n)),
    ensures
        *final(n) == spec_b02_crouch(*old(n), entry, settled, next),
        b02_loose(*final(n)),
{
    if n.action_num == entry {
        n.action_num = settled;
        n.action_counter = 0;
        n.anim_num = 1;
        n.vel_x = 0;
    }
    n.action_counter = sat_inc(n.action_counter);
    if n.action_counter > 50 {
        n.action_num = next;
        n.anim_counter = 0;
        n.anim_num = 2;
    }
}

pub fn b02_run_windup(n: &mut NPC, threshold: u16, next: u16)
    requires
        b02_part_ok(*old(n)),
    ensures
        *final(n) == spec_b02_windup(*old(n), threshold, next),
        b02_loose(*final(n)),
{
    n.anim_counter = sat_inc(n.anim_counter);
    if n.anim_counter > threshold {
        n.anim_counter = 0;
        n.action_num = next;
        n.anim_num = 1;
    }
}

pub fn b02_run_leap_start(n: &mut NPC, state: &mut GameState)
    requires
        b02_part_ok(*old(n)),
    ensures
        ({
            let r = spec_b02_leap_start(*old(n), old(state)@);
            *final(n) == r.0 && final(state)@ == r.1
        }),
        b02_loose(*final(n)),
{
    n.anim_counter = sat_inc(n.anim_counter);
    if n.anim_counter > 4 {
        n.action_num = 104;
        n.anim_num = 5;
        let vx = n.direction.vector_x();
        n.vel_x = vx * 0x200;
        n.vel_y = -2 * 0x200;
        n.display_bounds.top = 64 * 0x200;
        n.display_bounds.bottom = 24 * 0x200;
        state.play_sfx(25);
    }
}

pub fn b02_run_bigjump_start(n: &mut NPC, state: &mut GameState)
    requires
        b02_part_ok(*old(n)),
    ensures
        ({
            let r = spec_b02_bigjump_start(*old(n), old(state)@);
            *final(n) == r.0 && final(state)@ == r.1
        }),
        b02_loose(*final(n)),
{
    n.anim_counter = sat_inc(n.anim_counter);
    if n.anim_counter > 4 {
        n.action_num = 124;
        n.anim_num = 5;
        n.vel_x = -5 * 0x200;
        n.display_bounds.top = 64 * 0x200;
        n.display_bounds.bottom = 24 * 0x200;
        state.play_sfx(25);
    }
}

#[verifier::rlimit(60)]
#[verifier::spinoff_prover]
pub fn b02_run_leap(n: &mut NPC, state: &mut GameState, player_x: i64)
    requires
        b02_part_ok(*old(n)),
        old(state)@.npc_table.len() > 110,
        -0x1000_0000_0000_0000 <= player_x <= 0x1000_0000_0000_0000,
    ensures
        ({
            let r = spec_b02_leap(*old(n), old(state)@, player_x);
            *final(n) == r.0 && final(state)@ == r.1
        }),
        b02_loose(*final(n)),
{
    if n.direction == Direction::Left && n.flags.hit_left_wall {
        n.direction = Direction::Right;
        n.vel_x = 0x200;
    }
    if n.direction == Direction::Right && n.flags.hit_right_wall {
        n.direction = Direction::Left;
        n.vel_x = -0x200;
    }
    if n.flags.hit_bottom_wall {
        n.action_num = 100;
        n.anim_num = 1;
        n.display_bounds.top = 48 * 0x200;
        n.display_bounds.bottom = 16 * 0x200;
        if n.direction == Direction::Left && n.x < player_x {
            n.direction = Direction::Right;
            n.action_num = 110;
        }
        if n.direction == Direction::Right && n.x > player_x {
            n.direction = Direction::Left;
            n.action_num = 110;
        }
        let frog = state.npc_table.create_npc(110);
        let mut rng = n.rng;
        push_frogs(frog, 1, &mut rng, state);
        let smoke = state.npc_table.create_npc(4);
        push_smoke(smoke, n.x, n.y, 4, &mut rng, state);
        n.rng = rng;
        state.quake_counter = 30;
        state.play_sfx(26);
    }
}

pub fn b02_run_settle(n: &mut NPC)
    requires
        b02_part_ok(*old(n)),
    ensures
        *final(n) == spec_b02_settle(*old(n)),
        b02_loose(*final(n)),
{
    if n.action_num == 110 {
        n.anim_num = 1;
        n.action_num = 111;
        n.action_counter = 0;
    }
    n.action_counter = sat_inc(n.action_counter);
    n.vel_x = decay_velocity(n.vel_x, 8, 9);
    if n.action_counter > 50 {
        n.anim_num = 2;
        n.anim_counter = 0;
        n.action_num = 112;
    }
}

pub fn b02_run_mouth_open(n: &mut NPC, p1: &mut NPC)
    requires
        b02_part_ok(*old(n)),
    ensures
        ({
            let r = spec_b02_mouth_open(*old(n), *old(p1));
            *final(n) == r.0 && *final(p1) == r.1
        }),
        b02_loose(*final(n)),
{
    n.anim_counter = sat_inc(n.anim_counter);
    if n.anim_counter > 4 {
        n.action_num = 113;
        n.action_counter = 0;
        n.vel_x2 = 16;
        n.anim_num = 3;
        n.target_x = n.life as i64;
        p1.npc_flags.shootable = true;
    }
}

pub fn b02_run_mouth_close(n: &mut NPC, p1: &mut NPC)
    requires
        b02_part_ok(*old(n)),
    ensures
        ({
            let r = spec_b02_mouth_close(*old(n), *old(p1));
            *final(n) == r.0 && *final(p1) == r.1
        }),
        b02_loose(*final(n)),
{
    n.anim_counter = sat_inc(n.anim_counter);
    if n.anim_counter > 10 {
        n.anim_num = 1;
        n.anim_counter = 0;
        p1.action_counter2 = sat_inc(p1.action_counter2);
        if p1.action_counter2 > 2 {
            p1.action_counter2 = 0;
            n.action_num = 120;
        } else {
            n.action_num = 100;
        }
    }
}

#[verifier::rlimit(60)]
#[verifier::spinoff_prover]
pub fn b02_run_bigjump_land(n: &mut NPC, state: &mut GameState, player_x: i64)
    requires
        b02_part_ok(*old(n)),
        old(state)@.npc_table.len() > 110,
        -0x1000_0000_0000_0000 <= player_x <= 0x1000_0000_0000_0000,
    ensures
        ({
            let r = spec_b02_bigjump_land(*old(n), old(state)@, player_x);
            *final(n) == r.0 && final(state)@ == r.1
        }),
        b02_loose(*final(n)),
{
    if n.flags.hit_bottom_wall {
        n.action_num = 100;
        n.anim_num = 1;
        n.display_bounds.top = 48 * 0x200;
        n.display_bounds.bottom = 16 * 0x200;

        let frog104 = state.npc_table.create_npc(104);
        let mut rng = n.rng;
        push_frogs(frog104, 2, &mut rng, state);
        let frog110 = state.npc_table.create_npc(110);
        push_frogs(frog110, 6, &mut rng, state);
        let smoke = state.npc_table.create_npc(4);
        push_floor_smoke(smoke, n.x, n.y + n.hit_bounds.bottom as i64, 8, &mut rng, state);
        n.rng = rng;

        if n.direction == Direction::Left && n.x < player_x {
            n.action_num = 110;
            n.direction = Direction::Right;
        }
        if n.direction == Direction::Right && n.x > player_x {
            n.action_num = 110;
            n.direction = Direction::Right;
        }
        state.play_sfx(26);
        state.quake_counter = 60;
    }
}

pub fn b02_run_death_wait(n: &mut NPC)
    requires
        b02_part_ok(*old(n)),
    ensures
        *final(n) == spec_b02_death_wait(*old(n)),
        b02_loose(*final(n)),
{
    if n.action_num == 140 {
        n.action_num = 141;
    }
    if n.flags.hit_bottom_wall {
        n.action_num = 142;
        n.action_counter = 0;
        n.anim_num = 7;
    }
}

pub fn b02_run_death_leap(n: &mut NPC)
    requires
        b02_part_ok(*old(n)),
    ensures
        *final(n) == spec_b02_death_leap(*old(n)),
        b02_loose(*final(n)),
{
    n.action_counter = sat_inc(n.action_counter);
    if n.action_counter > 30 {
        n.anim_num = 8;
        n.vel_y = -5 * 0x200;
        n.npc_flags.ignore_solidity = true;
        n.action_num = 143;
    }
}

pub fn b02_run_escape(n: &mut NPC, state: &mut GameState)
    requires
        b02_part_ok(*old(n)),
    ensures
        ({
            let r = spec_b02_escape(*old(n), old(state)@);
            *final(n) == r.0 && final(state)@ == r.1
        }),
        b02_loose(*final(n)),
{
    n.vel_y = -5 * 0x200;
    if n.y < 0 {
        n.cond.alive = false;
        state.play_sfx(26);
        state.quake_counter = 30;
    }
}



#[verifier::rlimit(100)]
#[verifier::spinoff_prover]
fn b02_run_shoot_twitch(n: &mut NPC)
    ensures
        *final(n) == spec_b02_shoot_twitch(*old(n)),
        final(n).x == old(n).x,
        final(n).y == old(n).y,
        final(n).vel_x == old(n).vel_x,
        final(n).vel_y == old(n).vel_y,
        final(n).target_x == old(n).target_x,
        final(n).action_counter == old(n).action_counter,
{
    if n.shock != 0 {
        if (n.action_counter2 / 2) % 2 != 0 {
            n.anim_num = 4;
        } else {
            n.anim_num = 3;
        }
    } else {
        n.action_counter2 = 0;
        n.anim_num = 3;
    }
}

#[verifier::rlimit(100)]
#[verifier::spinoff_prover]
fn b02_run_shoot_head(n: &mut NPC)
    requires
        b02_part_ok(*old(n)),
    ensures
        *final(n) == spec_b02_shoot_head(*old(n)),
        final(n).x == old(n).x,
        final(n).y == old(n).y,
        -0x4000_0000 <= final(n).vel_x <= 0x4000_0000,
        final(n).vel_y == old(n).vel_y,
        final(n).target_x == old(n).target_x,
{
    b02_run_shoot_twitch(n);
    n.vel_x = decay_velocity(n.vel_x, 10, 11);
    n.action_counter = sat_inc(n.action_counter);
}

#[verifier::rlimit(100)]
#[verifier::spinoff_prover]
fn b02_run_shoot_fire(n: &mut NPC, p1: &mut NPC, state: &mut GameState, player_x: i64, player_y: i64)
    requires
        -0x1_0000_0001_0000 <= old(n).x <= 0x1_0000_0001_0000,
        -0x1_0000_0001_0000 <= old(n).y <= 0x1_0000_0001_0000,
        -0x1000_0000_0000_0000 <= player_x <= 0x1000_0000_0000_0000,
        -0x1000_0000_0000_0000 <= player_y <= 0x1000_0000_0000_0000,
        -0x1_0000_0000_0000 <= old(n).target_x <= 0x1_0000_0000_0000,
        old(state)@.npc_table.len() > 110,
    ensures
        ({
            let r = spec_b02_shoot_fire(*old(n), *old(p1), old(state)@, player_x, player_y);
            *final(n) == r.0 && *final(p1) == r.1 && final(state)@ == r.2
        }),
        final(n).x == old(n).x,
        final(n).y == old(n).y,
        final(n).vel_x == old(n).vel_x,
        final(n).vel_y == old(n).vel_y,
        old(n).anim_num <= 8 ==> final(n).anim_num <= 8,
{
    if n.action_counter > 16 {
        n.action_counter = 0;
        n.vel_x2 = if n.vel_x2 == i64::MIN {
            i64::MIN
        } else {
            n.vel_x2 - 1
        };
        let vx = n.direction.vector_x();
        let px = n.x + vx * 2 * 16 * 0x200 - player_x;
        let py = n.y - 8 * 0x200 - player_y;
        let deg_units = n.rng.range(-16, 16);
        let mut shot = state.npc_table.create_npc(108);
        shot.cond.alive = true;
        shot.x = n.x + vx * 2 * 16 * 0x200;
        shot.y = n.y - 8 * 0x200;
        state.new_npcs.push(SpawnRequest::Aimed(shot, px, py, deg_units));
        state.play_sfx(39);
        if n.vel_x2 == 0 || (n.life as i64) < n.target_x - 90 {
            n.action_num = 114;
            n.action_counter = 0;
            n.anim_num = 2;
            n.anim_counter = 0;
            p1.npc_flags.shootable = false;
        }
    }
}

/// The shot-volley state of the driver: the hurt twitch, the 10/11
/// truncating momentum decay, and the periodic aimed shot.
pub fn b02_run_shoot(n: &mut NPC, p1: &mut NPC, state: &mut GameState, player_x: i64, player_y: i64)
    requires
        b02_part_ok(*old(n)),
        -0x1000_0000_0000_0000 <= player_x <= 0x1000_0000_0000_0000,
        -0x1000_0000_0000_0000 <= player_y <= 0x1000_0000_0000_0000,
        old(state)@.npc_table.len() > 110,
    ensures
        ({
            let r = spec_b02_shoot(*old(n), *old(p1), old(state)@, player_x, player_y);
            *final(n) == r.0 && *final(p1) == r.1 && final(state)@ == r.2
        }),
        b02_loose(*final(n)),
{
    b02_run_shoot_head(n);
    b02_run_shoot_fire(n, p1, state, player_x, player_y);
}

fn b02_run_death_enter(n: &mut NPC, p1: &mut NPC, p2: &mut NPC, state: &mut GameState)
    requires
        b02_part_ok(*old(n)),
        old(state)@.npc_table.len() > 110,
    ensures
        ({
            let r = spec_b02_death_enter(*old(n), *old(p1), *old(p2), old(state)@);
            *final(n) == r.0 && *final(p1) == r.1 && *final(p2) == r.2 && final(state)@ == r.3
        }),
        final(n).x == old(n).x,
        final(n).y == old(n).y,
        -0x4000_0000 <= final(n).vel_x <= 0x4000_0000,
        final(n).vel_y == old(n).vel_y,
        final(n).anim_num <= 8 || final(n).anim_num == old(n).anim_num,
{
    if n.action_num == 130 {
        n.action_num = 131;
        n.action_counter = 0;
        n.anim_num = 3;
        n.vel_x = 0;
        p1.cond.alive = false;
        p2.cond.alive = false;
        let smoke = state.npc_table.create_npc(4);
        state.play_sfx(72);
        let mut rng = n.rng;
        push_smoke(smoke, n.x, n.y, 8, &mut rng, state);
        n.rng = rng;
        proof {
            assert(final(state)@ == state@);
        }
    }
}

#[verifier::rlimit(100)]
#[verifier::spinoff_prover]
fn b02_run_wobble_smoke(n: &mut NPC, state: &mut GameState)
    requires
        -0x1_0000_0000_0000 <= old(n).x <= 0x1_0000_0000_0000,
        -0x1_0000_0000_0000 <= old(n).y <= 0x1_0000_0000_0000,
        old(state)@.npc_table.len() > 110,
    ensures
        ({
            let r = spec_b02_wobble_smoke(*old(n), old(state)@);
            *final(n) == r.0 && final(state)@ == r.1
        }),
        final(n).x == old(n).x,
        final(n).y == old(n).y,
        final(n).vel_x == old(n).vel_x,
        final(n).vel_y == old(n).vel_y,
        final(n).anim_num == old(n).anim_num,
{
    n.action_counter = sat_inc(n.action_counter);
    if n.action_counter % 5 == 0 {
        let smoke = state.npc_table.create_npc(4);
        let mut rng = n.rng;
        push_smoke(smoke, n.x, n.y, 1, &mut rng, state);
        n.rng = rng;
    }
}

#[verifier::rlimit(100)]
#[verifier::spinoff_prover]
fn b02_run_wobble_shift(n: &mut NPC)
    requires
        -0x1_0000_0000_0000 <= old(n).x <= 0x1_0000_0000_0000,
    ensures
        *final(n) == spec_b02_wobble_shift(*old(n)),
        -0x1_0000_0001_0000 <= final(n).x <= 0x1_0000_0001_0000,
        final(n).y == old(n).y,
        final(n).vel_x == old(n).vel_x,
        final(n).vel_y == old(n).vel_y,
        final(n).anim_num == old(n).anim_num,
{
    n.x += if (n.action_counter / 2) % 2 != 0 {
        -0x200
    } else {
        0x200
    };
    if n.action_counter > 100 {
        n.action_num = 132;
        n.action_counter = 0;
    }
}

fn b02_run_death_wobble(n: &mut NPC, state: &mut GameState)
    requires
        -0x1_0000_0000_0000 <= old(n).x <= 0x1_0000_0000_0000,
        -0x1_0000_0000_0000 <= old(n).y <= 0x1_0000_0000_0000,
        old(state)@.npc_table.len() > 110,
    ensures
        ({
            let r = spec_b02_death_wobble(*old(n), old(state)@);
            *final(n) == r.0 && final(state)@ == r.1
        }),
        -0x1_0000_0001_0000 <= final(n).x <= 0x1_0000_0001_0000,
        final(n).y == old(n).y,
        final(n).vel_x == old(n).vel_x,
        final(n).vel_y == old(n).vel_y,
        final(n).anim_num == old(n).anim_num,
{
    b02_run_wobble_smoke(n, state);
    b02_run_wobble_shift(n);
}

/// The death-entry state of the driver: the slaved parts die, the
/// death cry sounds, and the body starts its smoking wobble.
pub fn b02_run_death_start(n: &mut NPC, p1: &mut NPC, p2: &mut NPC, state: &mut GameState)
    requires
        b02_part_ok(*old(n)),
        old(state)@.npc_table.len() > 110,
    ensures
        ({
            let r = spec_b02_death_start(*old(n), *old(p1), *old(p2), old(state)@);
            *final(n) == r.0 && *final(p1) == r.1 && *final(p2) == r.2 && final(state)@ == r.3
        }),
        b02_loose(*final(n)),
{
    b02_run_death_enter(n, p1, p2, state);
    b02_run_death_wobble(n, state);
}

fn b02_run_death_shape(n: &mut NPC)
    requires
        b02_part_ok(*old(n)),
    ensures
        *final(n) == spec_b02_death_shape(*old(n)),
        final(n).x == old(n).x,
        final(n).y == old(n).y,
        final(n).vel_x == old(n).vel_x,
        final(n).vel_y == old(n).vel_y,
        final(n).anim_num <= 8,
{
    n.action_counter = sat_inc(n.action_counter);
    if (n.action_counter / 2) % 2 != 0 {
        n.anim_num = 6;
        n.display_bounds = Rect {
            left: 20 * 0x200,
            top: 12 * 0x200,
            right: 20 * 0x200,
            bottom: 12 * 0x200,
        };
    } else {
        n.anim_num = 3;
        n.display_bounds = Rect {
            left: 48 * 0x200,
            top: 48 * 0x200,
            right: 32 * 0x200,
            bottom: 16 * 0x200,
        };
    }
}

#[verifier::rlimit(100)]
#[verifier::spinoff_prover]
fn b02_run_death_puff(n: &mut NPC, state: &mut GameState)
    requires
        -0x1_0000_0001_0000 <= old(n).x <= 0x1_0000_0001_0000,
        -0x1_0000_0001_0000 <= old(n).y <= 0x1_0000_0001_0000,
        old(state)@.npc_table.len() > 110,
    ensures
        ({
            let r = spec_b02_death_puff(*old(n), old(state)@);
            *final(n) == r.0 && final(state)@ == r.1
        }),
        final(n).x == old(n).x,
        final(n).y == old(n).y,
        final(n).vel_x == old(n).vel_x,
        final(n).vel_y == old(n).vel_y,
        final(n).anim_num == old(n).anim_num,
{
    if n.action_counter % 9 == 0 {
        let smoke = state.npc_table.create_npc(4);
        let mut rng = n.rng;
        push_smoke(smoke, n.x, n.y, 1, &mut rng, state);
        n.rng = rng;
    }
    if n.action_counter > 150 {
        n.action_num = 140;
        n.hit_bounds.bottom = 12 * 0x200;
    }
}

/// The death shrink-flicker state of the driver.
pub fn b02_run_death_flicker(n: &mut NPC, state: &mut GameState)
    requires
        b02_part_ok(*old(n)),
        old(state)@.npc_table.len() > 110,
    ensures
        ({
            let r = spec_b02_death_flicker(*old(n), old(state)@);
            *final(n) == r.0 && final(state)@ == r.1
        }),
        b02_loose(*final(n)),
{
    b02_run_death_shape(n);
    b02_run_death_puff(n, state);
}

#[verifier::rlimit(100)]
#[verifier::spinoff_prover]
fn b02_run_integrate(n: &mut NPC)
    requires
        b02_loose(*old(n)),
    ensures
        *final(n) == spec_b02_integrate(*old(n)),
        final(n).anim_num == old(n).anim_num,
        final(n).direction == old(n).direction,
        -0x1_1000_0000_0000 <= final(n).x <= 0x1_1000_0000_0000,
        -0x1_1000_0000_0000 <= final(n).y <= 0x1_1000_0000_0000,
{
    let ghost m0 = *n;
    n.vel_y += 0x40;
    if n.vel_y > 0x5ff {
        n.vel_y = 0x5ff;
    }
    proof {
        assert(*n == (NPC {
            vel_y: (if m0.vel_y + 0x40 > 0x5ff {
                0x5ff as i64
            } else {
                (m0.vel_y + 0x40) as i64
            }),
            ..m0
        }));
    }
    n.x += n.vel_x;
    n.y += n.vel_y;
    proof {
        assert(*n == spec_b02_integrate(m0));
    }
}

/// The driver's physics tail: clamped gravity, velocity integration
/// and the frame lookup by (animation index, facing).
pub fn b02_run_gravity(n: &mut NPC, state: &GameState)
    requires
        b02_loose(*old(n)),
        state@.constants.b02_balfrog.len() == 18,
    ensures
        *final(n) == spec_b02_gravity(*old(n), state@.constants),
        -0x1_1000_0000_0000 <= final(n).x <= 0x1_1000_0000_0000,
        -0x1_1000_0000_0000 <= final(n).y <= 0x1_1000_0000_0000,
{
    b02_run_integrate(n);
    let dir_offset: usize = if n.direction == Direction::Left {
        0
    } else {
        9
    };
    n.anim_rect = state.constants.npc.b02_balfrog[n.anim_num as usize + dir_offset];
}

#[verifier::rlimit(100)]
#[verifier::spinoff_prover]
fn b02_run_armor(p1: &mut NPC, p2: &mut NPC)
    ensures
        (*final(p1), *final(p2)) == spec_b02_armor(*old(p1), *old(p2)),
{
    p1.size = 3;
    p1.npc_flags.invulnerable = true;
    p1.hit_bounds = Rect {
        left: 16 * 0x200,
        top: 16 * 0x200,
        right: 16 * 0x200,
        bottom: 16 * 0x200,
    };
    p2.size = 3;
    p2.npc_flags.invulnerable = true;
    p2.hit_bounds = Rect {
        left: 24 * 0x200,
        top: 16 * 0x200,
        right: 24 * 0x200,
        bottom: 16 * 0x200,
    };
}

fn b02_run_place(driver: &NPC, p1: &mut NPC, p2: &mut NPC, dy: i64)
    requires
        -0x1_1000_0000_0000 <= driver.x <= 0x1_1000_0000_0000,
        -0x1_1000_0000_0000 <= driver.y <= 0x1_1000_0000_0000,
        0 <= dy <= 64,
    ensures
        (*final(p1), *final(p2)) == spec_b02_place(*driver, *old(p1), *old(p2), dy as int),
{
    let vx = driver.direction.vector_x();
    p1.x = driver.x + vx * 24 * 0x200;
    p1.y = driver.y - dy * 0x200;
    p2.x = driver.x;
    p2.y = driver.y;
}

/// The placement pass for the slaved mouth parts, driven by the
/// driver's committed state for this step; returns whether the closed
/// frame re-armored the parts (their hurt sounds are then refreshed).
#[verifier::rlimit(100)]
#[verifier::spinoff_prover]
pub fn b02_run_parts(driver: &NPC, p1: &mut NPC, p2: &mut NPC) -> (set_hurt: bool)
    requires
        -0x1_1000_0000_0000 <= driver.x <= 0x1_1000_0000_0000,
        -0x1_1000_0000_0000 <= driver.y <= 0x1_1000_0000_0000,
    ensures
        (*final(p1), *final(p2), set_hurt) == spec_b02_parts(*driver, *old(p1), *old(p2)),
{
    if driver.anim_num == 0 {
        b02_run_armor(p1, p2);
        true
    } else if driver.anim_num == 1 {
        b02_run_place(driver, p1, p2, 24);
        false
    } else if driver.anim_num == 2 {
        b02_run_place(driver, p1, p2, 20);
        false
    } else if driver.anim_num == 3 || driver.anim_num == 4 {
        b02_run_place(driver, p1, p2, 16);
        false
    } else if driver.anim_num == 5 {
        b02_run_place(driver, p1, p2, 43);
        false
    } else {
        false
    }
}

#[verifier::rlimit(100)]
#[verifier::spinoff_prover]
fn b02_run_action_early(
    p0: &mut NPC,
    p1: &mut NPC,
    p2: &mut NPC,
    state: &mut GameState,
    player_x: i64,
)
    requires
        b02_part_ok(*old(p0)),
        -0x1000_0000_0000_0000 <= player_x <= 0x1000_0000_0000_0000,
        old(state)@.npc_table.len() > 110,
        old(state)@.constants.b02_balfrog.len() == 18,
    ensures
        (*final(p0), *final(p1), *final(p2), final(state)@) == spec_b02_action_early(
            *old(p0),
            *old(p1),
            *old(p2),
            old(state)@,
            player_x,
        ),
        b02_loose(*final(p0)),
{
    if p0.action_num == 0 {
        b02_run_init(p0);
    } else if p0.action_num == 10 {
        b02_run_awaken(p0, p1, p2, state);
    } else if p0.action_num == 20 || p0.action_num == 21 {
        b02_run_flicker(p0);
    } else if p0.action_num == 100 || p0.action_num == 101 {
        b02_run_crouch(p0, 100, 101, 102);
    } else if p0.action_num == 102 {
        b02_run_windup(p0, 10, 103);
    } else if p0.action_num == 103 {
        b02_run_leap_start(p0, state);
    } else if p0.action_num == 104 {
        b02_run_leap(p0, state, player_x);
    }
}

#[verifier::rlimit(100)]
#[verifier::spinoff_prover]
fn b02_run_action_late(
    p0: &mut NPC,
    p1: &mut NPC,
    p2: &mut NPC,
    state: &mut GameState,
    player_x: i64,
    player_y: i64,
)
    requires
        b02_part_ok(*old(p0)),
        -0x1000_0000_0000_0000 <= player_x <= 0x1000_0000_0000_0000,
        -0x1000_0000_0000_0000 <= player_y <= 0x1000_0000_0000_0000,
        old(state)@.npc_table.len() > 110,
    ensures
        (*final(p0), *final(p1), *final(p2), final(state)@) == spec_b02_action_late(
            *old(p0),
            *old(p1),
            *old(p2),
            old(state)@,
            player_x,
            player_y,
        ),
        b02_loose(*final(p0)),
{
    if p0.action_num == 110 || p0.action_num == 111 {
        b02_run_settle(p0);
    } else if p0.action_num == 112 {
        b02_run_mouth_open(p0, p1);
    } else if p0.action_num == 113 {
        b02_run_shoot(p0, p1, state, player_x, player_y);
    } else if p0.action_num == 114 {
        b02_run_mouth_close(p0, p1);
    } else if p0.action_num == 120 || p0.action_num == 121 {
        b02_run_crouch(p0, 120, 121, 122);
    } else if p0.action_num == 122 {
        b02_run_windup(p0, 20, 123);
    } else if p0.action_num == 123 {
        b02_run_bigjump_start(p0, state);
    } else if p0.action_num == 124 {
        b02_run_bigjump_land(p0, state, player_x);
    } else if p0.action_num == 130 || p0.action_num == 131 {
        b02_run_death_start(p0, p1, p2, state);
    } else if p0.action_num == 132 {
        b02_run_death_flicker(p0, state);
    } else if p0.action_num == 140 || p0.action_num == 141 {
        b02_run_death_wait(p0);
    } else if p0.action_num == 142 {
        b02_run_death_leap(p0);
    } else if p0.action_num == 143 {
        b02_run_escape(p0, state);
    }
}

impl BossNPC {
    /// Tick the frog boss: the driver's action-code machine, its
    /// clamped gravity, integration and frame lookup, then the second
    /// pass that re-derives the slaved mouth parts from the driver's
    /// committed state for this step.
    #[verifier::rlimit(100)]
    #[verifier::spinoff_prover]
    pub fn tick_b02_balfrog(&mut self, state: &mut GameState, player: &Player)
        requires
            old(self).well_formed(),
            b02_part_ok(old(self).parts@[0]),
            -0x1000_0000_0000_0000 <= player.x <= 0x1000_0000_0000_0000,
            -0x1000_0000_0000_0000 <= player.y <= 0x1000_0000_0000_0000,
            old(state)@.npc_table.len() > 110,
            old(state)@.constants.b02_balfrog.len() == 18,
        ensures
            (final(self).parts@, final(self).hurt_sound@, final(state)@) == spec_tick_b02(
                old(self).parts@,
                old(self).hurt_sound@,
                old(state)@,
                player.x,
                player.y,
            ),
            final(self).well_formed(),
    {
        let ghost parts0 = self.parts@;
        let ghost hurt0 = self.hurt_sound@;
        let ghost s0 = state@;

        let mut p0 = self.parts[0];
        let mut p1 = self.parts[1];
        let mut p2 = self.parts[2];

        let entering_init = p0.action_num == 0;
        if p0.action_num <= 104 {
            b02_run_action_early(&mut p0, &mut p1, &mut p2, state, player.x);
        } else {
            b02_run_action_late(&mut p0, &mut p1, &mut p2, state, player.x, player.y);
        }
        let ghost act = spec_b02_action(parts0[0], parts0[1], parts0[2], s0, player.x, player.y);
        proof {
            assert((p0, p1, p2, state@) == act);
        }
        if entering_init {
            self.hurt_sound[0] = 52;
        }
        proof {
            assert(self.hurt_sound@ == (if parts0[0].action_num == 0 {
                hurt0.update(0, 52u8)
            } else {
                hurt0
            }));
        }

        b02_run_gravity(&mut p0, state);
        proof {
            assert(p0 == spec_b02_gravity(act.0, act.3.constants));
        }

        let set_hurt = b02_run_parts(&p0, &mut p1, &mut p2);
        proof {
            assert((p1, p2, set_hurt) == spec_b02_parts(
                spec_b02_gravity(act.0, act.3.constants),
                act.1,
                act.2,
            ));
        }
        if set_hurt {
            self.hurt_sound[1] = 52;
            self.hurt_sound[2] = 52;
        }

        self.parts[0] = p0;
        self.parts[1] = p1;
        self.parts[2] = p2;
    }
}

} // verus!
