//! The actor (NPC) record and the composite boss actor. An actor is a
//! plain record of kinematics, behavior-state counters, hit geometry,
//! capability flags, combat values and a private deterministic RNG
//! stream; behavior lives in the per-type tick functions.

use vstd::prelude::*;
use crate::common::{Condition, Direction, Flag, NpcFlags, Rect};
use crate::rng::{spec_seed, Rng};

verus! {

/// Saturating increment of a behavior counter. Counters saturate rather
/// than wrap, so an actor parked in one state forever cannot overflow.
pub open spec fn spec_sat_inc(c: u16) -> u16 {
    if c == u16::MAX {
        c
    } else {
        (c + 1) as u16
    }
}

pub fn sat_inc(c: u16) -> (r: u16)
    ensures
        r == spec_sat_inc(c),
{
    if c == u16::MAX {
        c
    } else {
        c + 1
    }
}

/// One actor record.
#[derive(Copy, Clone, PartialEq, Eq, Structural, Debug)]
pub struct NPC {
    /// Stable identity key; live actors are iterated in ascending order of it.
    pub id: u16,
    /// Type tag selecting which behavior function governs the actor.
    pub npc_type: u16,
    pub x: i64,
    pub y: i64,
    pub vel_x: i64,
    pub vel_y: i64,
    /// Secondary scratch velocity, also used by drivers as a shot budget.
    pub vel_x2: i64,
    /// Scratch target coordinate, also used by drivers as a life snapshot.
    pub target_x: i64,
    /// Current action code of the actor's private state machine.
    pub action_num: u16,
    /// State-local frame timer; meaningless across different action codes.
    pub action_counter: u16,
    pub action_counter2: u16,
    /// Presentation timer, decoupled from the logic timer.
    pub anim_counter: u16,
    /// Lookup key into the per-type animation rectangle table.
    pub anim_num: u16,
    /// Frames remaining of the hit-shock cosmetic wobble.
    pub shock: u16,
    pub life: u16,
    /// Contact damage dealt to an entity that collides with this actor.
    pub damage: u16,
    /// Experience granted (or healing, for pickups that heal).
    pub exp: u16,
    /// Event-script id fired by interaction or touch.
    pub event_num: u16,
    pub size: u8,
    pub cond: Condition,
    /// Contact bits accumulated this step.
    pub flags: Flag,
    pub npc_flags: NpcFlags,
    pub direction: Direction,
    /// Hit geometry: four independent half-extents around the center.
    pub hit_bounds: Rect<u32>,
    /// Display geometry, used only for rendering and culling.
    pub display_bounds: Rect<u32>,
    /// Source rectangle of the current animation frame.
    pub anim_rect: Rect<u16>,
    /// Private deterministic stream; owning it keeps the actor's behavior
    /// reproducible independent of other actors' iteration order.
    pub rng: Rng,
}

/// The blank actor every spawned record starts from.
pub open spec fn spec_blank_npc() -> NPC {
    NPC {
        id: 0,
        npc_type: 0,
        x: 0,
        y: 0,
        vel_x: 0,
        vel_y: 0,
        vel_x2: 0,
        target_x: 0,
        action_num: 0,
        action_counter: 0,
        action_counter2: 0,
        anim_counter: 0,
        anim_num: 0,
        shock: 0,
        life: 0,
        damage: 0,
        exp: 0,
        event_num: 0,
        size: 0,
        cond: Condition::spec_cleared(),
        flags: Flag::spec_none(),
        npc_flags: NpcFlags::spec_cleared(),
        direction: Direction::Left,
        hit_bounds: Rect { left: 0, top: 0, right: 0, bottom: 0 },
        display_bounds: Rect { left: 0, top: 0, right: 0, bottom: 0 },
        anim_rect: Rect { left: 0, top: 0, right: 0, bottom: 0 },
        rng: Rng { state: spec_seed(0) },
    }
}

/// The animation advance applied by `NPC::animate`.
pub open spec fn spec_animate(n: NPC, ticks_between: u16, start_frame: u16, end_frame: u16) -> NPC {
    let c = spec_sat_inc(n.anim_counter);
    if c > ticks_between {
        let f = spec_sat_inc(n.anim_num);
        NPC {
            anim_counter: 0,
            anim_num: if f > end_frame {
                start_frame
            } else {
                f
            },
            ..n
        }
    } else {
        NPC { anim_counter: c, ..n }
    }
}

impl NPC {
    pub fn blank() -> (r: NPC)
        ensures
            r == spec_blank_npc(),
    {
        NPC {
            id: 0,
            npc_type: 0,
            x: 0,
            y: 0,
            vel_x: 0,
            vel_y: 0,
            vel_x2: 0,
            target_x: 0,
            action_num: 0,
            action_counter: 0,
            action_counter2: 0,
            anim_counter: 0,
            anim_num: 0,
            shock: 0,
            life: 0,
            damage: 0,
            exp: 0,
            event_num: 0,
            size: 0,
            cond: Condition::cleared(),
            flags: Flag::none(),
            npc_flags: NpcFlags::cleared(),
            direction: Direction::Left,
            hit_bounds: Rect { left: 0, top: 0, right: 0, bottom: 0 },
            display_bounds: Rect { left: 0, top: 0, right: 0, bottom: 0 },
            anim_rect: Rect { left: 0, top: 0, right: 0, bottom: 0 },
            rng: Rng::new(0),
        }
    }

    /// Advance the presentation timer; when it passes `ticks_between`,
    /// step to the next frame, cycling back to `start_frame` after
    /// `end_frame`.
    pub fn animate(&mut self, ticks_between: u16, start_frame: u16, end_frame: u16)
        ensures
            *final(self) == spec_animate(*old(self), ticks_between, start_frame, end_frame),
    {
        let c = sat_inc(self.anim_counter);
        if c > ticks_between {
            self.anim_counter = 0;
            let f = sat_inc(self.anim_num);
            self.anim_num = if f > end_frame {
                start_frame
            } else {
                f
            };
        } else {
            self.anim_counter = c;
        }
    }
}

/// Authored per-type defaults applied to a freshly spawned actor.
#[derive(Copy, Clone, PartialEq, Eq, Structural, Debug)]
pub struct NpcTableEntry {
    pub life: u16,
    pub damage: u16,
    pub exp: u16,
    pub size: u8,
    pub flags: NpcFlags,
    pub hit_bounds: Rect<u32>,
    pub display_bounds: Rect<u32>,
}

/// The authored table of per-type defaults, indexed by type tag.
pub struct NpcTable {
    pub entries: Vec<NpcTableEntry>,
}

/// The record a spawn builds from one authored table row.
pub open spec fn spec_create_from(e: NpcTableEntry, npc_type: u16) -> NPC {
    NPC {
        npc_type,
        life: e.life,
        damage: e.damage,
        exp: e.exp,
        size: e.size,
        npc_flags: e.flags,
        hit_bounds: e.hit_bounds,
        display_bounds: e.display_bounds,
        rng: Rng { state: spec_seed(npc_type as i32) },
        ..spec_blank_npc()
    }
}

/// The record `create_npc` builds for a known type tag.
pub open spec fn spec_create_npc(npc_type: u16, table: NpcTable) -> NPC {
    spec_create_from(table.entries@[npc_type as int], npc_type)
}

impl NpcTable {
    pub fn new() -> (r: NpcTable)
        ensures
            r.entries@.len() == 0,
    {
        NpcTable { entries: Vec::new() }
    }

    /// Build a fresh actor of a known type from its table defaults.
    pub fn create_npc(&self, npc_type: u16) -> (r: NPC)
        requires
            (npc_type as int) < self.entries@.len(),
        ensures
            r == spec_create_npc(npc_type, *self),
    {
        let e = self.entries[npc_type as usize];
        let mut n = NPC::blank();
        n.npc_type = npc_type;
        n.life = e.life;
        n.damage = e.damage;
        n.exp = e.exp;
        n.size = e.size;
        n.npc_flags = e.flags;
        n.hit_bounds = e.hit_bounds;
        n.display_bounds = e.display_bounds;
        n.rng = Rng::new(npc_type as i32);
        n
    }

    /// Spawn-request entry point: an unrecognized type tag is rejected
    /// here, never mid-tick.
    pub fn try_create_npc(&self, npc_type: u16) -> (r: Option<NPC>)
        ensures
            (npc_type as int) < self.entries@.len() ==> r == Some(spec_create_npc(
                npc_type,
                *self,
            )),
            (npc_type as int) >= self.entries@.len() ==> r is None,
    {
        if (npc_type as usize) < self.entries.len() {
            Some(self.create_npc(npc_type))
        } else {
            None
        }
    }
}

/// Number of part slots a composite actor owns.
pub open spec fn boss_part_count() -> int {
    16
}

/// A composite actor: an ordered fixed-size collection of parts. Part 0
/// is the driver and owns the authoritative state machine; the other
/// parts derive their geometry from the driver's committed state.
pub struct BossNPC {
    pub parts: Vec<NPC>,
    /// Sound-effect id to fire when the matching part is hurt.
    pub hurt_sound: Vec<u8>,
}

impl BossNPC {
    /// The fixed shape every composite actor keeps: sixteen part slots
    /// and one hurt sound per part.
    pub open spec fn well_formed(&self) -> bool {
        self.parts@.len() == boss_part_count() && self.hurt_sound@.len() == boss_part_count()
    }

    pub fn new() -> (r: BossNPC)
        ensures
            r.well_formed(),
            forall|i: int| 0 <= i < boss_part_count() ==> r.parts@[i] == spec_blank_npc(),
            forall|i: int| 0 <= i < boss_part_count() ==> r.hurt_sound@[i] == 0u8,
    {
        let mut parts: Vec<NPC> = Vec::new();
        let mut hurt_sound: Vec<u8> = Vec::new();
        let mut i: usize = 0;
        while i < 16
            invariant
                i <= 16,
                parts@.len() == i,
                hurt_sound@.len() == i,
                forall|j: int| 0 <= j < i ==> parts@[j] == spec_blank_npc(),
                forall|j: int| 0 <= j < i ==> hurt_sound@[j] == 0u8,
            decreases 16 - i,
        {
            parts.push(NPC::blank());
            hurt_sound.push(0);
            i += 1;
        }
        BossNPC { parts, hurt_sound }
    }
}

/// The live actor collection: the generic actors in ascending order of
/// their stable identity key, and the composite boss actor. Exclusively
/// owned by the simulation core for the duration of a step; actors
/// enter only through the spawn queue drain and leave only by having
/// their alive condition cleared.
pub struct NpcMap {
    pub npcs: Vec<NPC>,
    pub boss_map: BossNPC,
    /// The identity key the next admitted actor receives.
    pub next_id: u16,
}

impl NpcMap {
    pub fn new() -> (r: NpcMap)
        ensures
            r.npcs@.len() == 0,
            r.boss_map.well_formed(),
            r.next_id == 0,
            forall|i: int| 0 <= i < boss_part_count() ==> r.boss_map.parts@[i] == spec_blank_npc(),
            forall|i: int| 0 <= i < boss_part_count() ==> r.boss_map.hurt_sound@[i] == 0u8,
    {
        NpcMap { npcs: Vec::new(), boss_map: BossNPC::new(), next_id: 0 }
    }
}

} // verus!
