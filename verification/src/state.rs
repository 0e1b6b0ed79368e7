//! World-level shared state of the simulation: the clock rate, control
//! bits, the two RNG streams, the spawn queue, requested side effects
//! (sounds and cosmetic particles), the scripting hand-off record, and
//! the authored constants tables.

use vstd::prelude::*;
use crate::common::{Caret, CaretType, ControlFlags, Direction, FadeState, TargetPlayer};
use crate::npc::{NpcTable, NpcTableEntry, NPC};

use crate::rng::{spec_seed, Rng};
use crate::common::Rect;

verus! {

/// The fixed virtual tick rates the simulation clock may run at. One
/// simulation step always advances the world by exactly one virtual
/// tick; the presentation layer may render at another rate.
#[derive(Copy, Clone, PartialEq, Eq, Structural, Debug)]
pub enum TimingMode {
    _50Hz,
    _60Hz,
    FrameSynchronized,
}

impl TimingMode {
    /// Duration of one virtual tick in nanoseconds; zero when the clock
    /// is slaved to the presentation framerate.
    pub open spec fn spec_delta(self) -> usize {
        match self {
            TimingMode::_50Hz => (1000000000int / 50) as usize,
            TimingMode::_60Hz => (1000000000int / 60) as usize,
            TimingMode::FrameSynchronized => 0usize,
        }
    }

    pub fn get_delta(self) -> (r: usize)
        ensures
            r == self.spec_delta(),
    {
        match self {
            TimingMode::_50Hz => 1000000000 / 50,
            TimingMode::_60Hz => 1000000000 / 60,
            TimingMode::FrameSynchronized => 0,
        }
    }

    /// Virtual ticks per second; zero when frame-synchronized.
    pub open spec fn spec_tps(self) -> usize {
        match self {
            TimingMode::_50Hz => 50usize,
            TimingMode::_60Hz => 60usize,
            TimingMode::FrameSynchronized => 0usize,
        }
    }

    pub fn get_tps(self) -> (r: usize)
        ensures
            r == self.spec_tps(),
    {
        match self {
            TimingMode::_50Hz => 50,
            TimingMode::_60Hz => 60,
            TimingMode::FrameSynchronized => 0,
        }
    }
}

/// Seasonal content selector.
#[derive(Copy, Clone, PartialEq, Eq, Structural, Debug)]
pub enum Season {
    OffSeason,
    Halloween,
    Christmas,
}

/// The season a given local calendar date falls in. The Christmas
/// window's January arm compares the month against zero, so it never
/// fires for real calendar months; that quirk is kept deliberately.
pub open spec fn spec_season_for(month: u32, day: u32) -> Season {
    if (month == 10 && day > 25) || (month == 11 && day < 3) {
        Season::Halloween
    } else if (month == 12 && day > 23) || (month == 0 && day < 7) {
        Season::Christmas
    } else {
        Season::OffSeason
    }
}

/// Relies on chrono's `Local::now` and the `Datelike` accessors: the
/// local calendar month (1 to 12) and day of month (1 to 31) right now.
#[verifier::external_body]
fn local_month_day() -> (r: (u32, u32))
    ensures
        1 <= r.0 <= 12,
        1 <= r.1 <= 31,
{
    let now = chrono::Local::now();
    (chrono::Datelike::month(&now), chrono::Datelike::day(&now))
}

pub fn season_for(month: u32, day: u32) -> (r: Season)
    ensures
        r == spec_season_for(month, day),
{
    if (month == 10 && day > 25) || (month == 11 && day < 3) {
        Season::Halloween
    } else if (month == 12 && day > 23) || (month == 0 && day < 7) {
        Season::Christmas
    } else {
        Season::OffSeason
    }
}

impl Season {
    /// The season of today's local date. The date comes from the wall
    /// clock, so only the mapping from date to season is pinned.
    pub fn current() -> (r: Season)
        ensures
            exists|m: u32, d: u32|
                1 <= m <= 12 && 1 <= d <= 31 && r == spec_season_for(m, d),
    {
        let (month, day) = local_month_day();
        let s = season_for(month, day);
        proof {
            assert(1 <= month <= 12 && 1 <= day <= 31 && s == spec_season_for(month, day));
        }
        s
    }
}

/// Modes the text-scripting collaborator can run in.
#[derive(Copy, Clone, PartialEq, Eq, Structural, Debug)]
pub enum ScriptMode {
    MapScene,
    Inventory,
    StageSelect,
}

/// Execution state of the scripting collaborator, as far as this core
/// observes it: idle, or running the script of a given event id.
#[derive(Copy, Clone, PartialEq, Eq, Structural, Debug)]
pub enum TextScriptExecutionState {
    Ended,
    Running(u16),
}

/// The hand-off record between the simulation core and the scripting
/// collaborator. The core only starts scripts and flips the suspend
/// gate; the bytecode interpreter itself is a collaborator.
#[derive(Copy, Clone, PartialEq, Eq, Structural, Debug)]
pub struct TextScriptVM {
    pub state: TextScriptExecutionState,
    /// Which player entity the running script is attributed to.
    pub executor_player: TargetPlayer,
    pub mode: ScriptMode,
    /// While set, world simulation is gated off at step boundaries.
    pub suspend: bool,
}

impl TextScriptVM {
    pub fn new() -> (r: TextScriptVM)
        ensures
            r == (TextScriptVM {
                state: TextScriptExecutionState::Ended,
                executor_player: TargetPlayer::Player1,
                mode: ScriptMode::MapScene,
                suspend: true,
            }),
    {
        TextScriptVM {
            state: TextScriptExecutionState::Ended,
            executor_player: TargetPlayer::Player1,
            mode: ScriptMode::MapScene,
            suspend: true,
        }
    }

    /// Request the script of `event_num` to start running.
    pub fn start_script(&mut self, event_num: u16)
        ensures
            *final(self) == (TextScriptVM {
                state: TextScriptExecutionState::Running(event_num),
                ..*old(self)
            }),
    {
        self.state = TextScriptExecutionState::Running(event_num);
    }

    pub fn set_mode(&mut self, mode: ScriptMode)
        ensures
            *final(self) == (TextScriptVM { mode, ..*old(self) }),
    {
        self.mode = mode;
    }
}

/// Authored animation tables: per actor type, the mapping from
/// (animation index, facing) to a source rectangle. Data, not behavior.
pub struct NpcConsts {
    pub n113_professor_booster: Vec<Rect<u16>>,
    pub n108_balfrog_projectile: Vec<Rect<u16>>,
    pub b02_balfrog: Vec<Rect<u16>>,
}

/// Authored tunables consumed by the behavior pass.
pub struct EngineConstants {
    pub npc: NpcConsts,
}

/// Ghost image of the constants tables.
pub struct ConstantsView {
    pub n113_professor_booster: Seq<Rect<u16>>,
    pub n108_balfrog_projectile: Seq<Rect<u16>>,
    pub b02_balfrog: Seq<Rect<u16>>,
}

impl EngineConstants {
    pub open spec fn view(&self) -> ConstantsView {
        ConstantsView {
            n113_professor_booster: self.npc.n113_professor_booster@,
            n108_balfrog_projectile: self.npc.n108_balfrog_projectile@,
            b02_balfrog: self.npc.b02_balfrog@,
        }
    }

    pub fn empty() -> (r: EngineConstants)
        ensures
            r@.n113_professor_booster.len() == 0,
            r@.n108_balfrog_projectile.len() == 0,
            r@.b02_balfrog.len() == 0,
    {
        EngineConstants {
            npc: NpcConsts {
                n113_professor_booster: Vec::new(),
                n108_balfrog_projectile: Vec::new(),
                b02_balfrog: Vec::new(),
            },
        }
    }
}

/// An entry of the spawn queue. Most spawns are fully initialized
/// records; an aimed spawn still needs its velocity resolved from an
/// aiming angle, a transcendental computation the presentation layer
/// performs (the angle inputs themselves are already fixed, including
/// the deterministic angle jitter drawn from the spawner's stream).
#[derive(Copy, Clone, PartialEq, Eq, Structural, Debug)]
pub enum SpawnRequest {
    Ready(NPC),
    /// The record, the aim vector to the target, and the angle jitter in
    /// game degree units.
    Aimed(NPC, i64, i64, i32),
}

impl SpawnRequest {
    /// Fill in the velocity of an aimed spawn, producing the admitted
    /// record; a ready spawn is returned as it is.
    pub fn resolve(self, vel_x: i64, vel_y: i64) -> (r: NPC)
        ensures
            self is Ready ==> r == self->Ready_0,
            self is Aimed ==> r == (NPC { vel_x, vel_y, ..self->Aimed_0 }),
    {
        match self {
            SpawnRequest::Ready(n) => n,
            SpawnRequest::Aimed(n, _, _, _) => NPC { vel_x, vel_y, ..n },
        }
    }
}

/// The per-map progress bits, held in bitvec's packed bit-vector. The
/// store is opaque to the verifier; what it holds is reachable only
/// through `flag_bits` and the method wrappers below.
#[verifier::external_body]
pub struct FlagStore {
    bits: bitvec::vec::BitVec,
}

/// What a flag store holds, bit by bit.
pub uninterp spec fn flag_bits(v: FlagStore) -> Seq<bool>;

/// Relies on bitvec's `BitVec::repeat`: a bit-vector of `len` copies of
/// the given bit; called with `false`, every stored bit is clear.
#[verifier::external_body]
fn new_flag_store(len: usize) -> (r: FlagStore)
    ensures
        flag_bits(r).len() == len,
        forall|i: int| 0 <= i < len ==> flag_bits(r)[i] == false,
{
    FlagStore { bits: bitvec::vec::BitVec::repeat(false, len) }
}

impl FlagStore {
    /// Relies on bitvec's `BitVec::len`: how many bits are stored.
    #[verifier::external_body]
    pub fn len(&self) -> (r: usize)
        ensures
            r == flag_bits(*self).len(),
    {
        self.bits.len()
    }

    /// Relies on bitvec's bit indexing: the stored bit at `idx`.
    #[verifier::external_body]
    pub fn get(&self, idx: usize) -> (r: bool)
        requires
            idx < flag_bits(*self).len(),
        ensures
            r == flag_bits(*self)[idx as int],
    {
        self.bits[idx]
    }
}

/// Number of per-map progress flags the world carries.
pub open spec fn game_flag_count() -> int {
    8000
}

/// The shared world state threaded through every pass of a simulation
/// step. RNG and clock state are explicit owned fields, never ambient
/// globals; the gameplay stream and the cosmetic stream are distinct,
/// and which stream an operation draws from is part of its contract.
pub struct GameState {
    pub timing_mode: TimingMode,
    pub control_flags: ControlFlags,
    /// Per-map progress bits, owned by the scripting layer.
    pub game_flags: FlagStore,
    pub fade_state: FadeState,
    /// Gameplay stream: bit-reproducible across runs fed the same seed
    /// and the same sequence of consuming calls; replays depend on it.
    pub game_rng: Rng,
    /// Cosmetic stream: seeded from entropy, gameplay-neutral.
    pub effect_rng: Rng,
    /// Remaining frames of screen shake.
    pub quake_counter: u16,
    pub teleporter_slots: Vec<(u16, u16)>,
    /// Requested cosmetic particles, drained by the presentation layer.
    pub carets: Vec<Caret>,
    pub npc_table: NpcTable,
    pub npc_super_pos: (i64, i64),
    /// The spawn queue: actors created during a tick, append-only within
    /// a step, drained exactly once at the step boundary in append order.
    pub new_npcs: Vec<SpawnRequest>,
    /// Requested sound effects in request order, drained by the audio
    /// collaborator; requesting is fire-and-forget by integer id.
    pub sound_queue: Vec<u8>,
    pub textscript_vm: TextScriptVM,
    pub season: Season,
    pub constants: EngineConstants,
    pub shutdown: bool,
}

/// Ghost image of the world state, over mathematical sequences.
pub struct GameStateView {
    pub timing_mode: TimingMode,
    pub control_flags: ControlFlags,
    pub game_flags: Seq<bool>,
    pub fade_state: FadeState,
    pub game_rng: Rng,
    pub effect_rng: Rng,
    pub quake_counter: u16,
    pub teleporter_slots: Seq<(u16, u16)>,
    pub carets: Seq<Caret>,
    pub npc_table: Seq<NpcTableEntry>,
    pub npc_super_pos: (i64, i64),
    pub new_npcs: Seq<SpawnRequest>,
    pub sound_queue: Seq<u8>,
    pub textscript_vm: TextScriptVM,
    pub season: Season,
    pub constants: ConstantsView,
    pub shutdown: bool,
}

impl View for GameState {
    type V = GameStateView;

    open spec fn view(&self) -> GameStateView {
        GameStateView {
            timing_mode: self.timing_mode,
            control_flags: self.control_flags,
            game_flags: flag_bits(self.game_flags),
            fade_state: self.fade_state,
            game_rng: self.game_rng,
            effect_rng: self.effect_rng,
            quake_counter: self.quake_counter,
            teleporter_slots: self.teleporter_slots@,
            carets: self.carets@,
            npc_table: self.npc_table.entries@,
            npc_super_pos: self.npc_super_pos,
            new_npcs: self.new_npcs@,
            sound_queue: self.sound_queue@,
            textscript_vm: self.textscript_vm,
            season: self.season,
            constants: self.constants@,
            shutdown: self.shutdown,
        }
    }
}

/// The world `GameState::new` builds, up to the opaque contents of a
/// fresh flag store (all clear, `game_flag_count()` of them).
pub open spec fn spec_new_game_state(effect_seed: i32, season: Season, s: GameStateView) -> bool {
    &&& s.timing_mode == TimingMode::_50Hz
    &&& s.control_flags == ControlFlags::spec_cleared()
    &&& s.game_flags.len() == game_flag_count()
    &&& (forall|i: int| 0 <= i < game_flag_count() ==> s.game_flags[i] == false)
    &&& s.fade_state == FadeState::Hidden
    &&& s.game_rng == (Rng { state: spec_seed(0) })
    &&& s.effect_rng == (Rng { state: spec_seed(effect_seed) })
    &&& s.quake_counter == 0
    &&& s.teleporter_slots.len() == 0
    &&& s.carets.len() == 0
    &&& s.npc_table.len() == 0
    &&& s.npc_super_pos == (0i64, 0i64)
    &&& s.new_npcs.len() == 0
    &&& s.sound_queue.len() == 0
    &&& s.textscript_vm == (TextScriptVM {
        state: TextScriptExecutionState::Ended,
        executor_player: TargetPlayer::Player1,
        mode: ScriptMode::MapScene,
        suspend: true,
    })
    &&& s.season == season
    &&& s.constants.n113_professor_booster.len() == 0
    &&& s.constants.n108_balfrog_projectile.len() == 0
    &&& s.constants.b02_balfrog.len() == 0
    &&& s.shutdown == false
}

impl GameState {
    /// A fresh world: gameplay stream seeded from zero, cosmetic stream
    /// from caller-supplied entropy, empty queues and authored tables to
    /// be filled by the data layer.
    pub fn new(effect_seed: i32, season: Season) -> (r: GameState)
        ensures
            spec_new_game_state(effect_seed, season, r@),
    {
        GameState {
            timing_mode: TimingMode::_50Hz,
            control_flags: ControlFlags::cleared(),
            game_flags: new_flag_store(8000),
            fade_state: FadeState::Hidden,
            game_rng: Rng::new(0),
            effect_rng: Rng::new(effect_seed),
            quake_counter: 0,
            teleporter_slots: Vec::new(),
            carets: Vec::new(),
            npc_table: NpcTable::new(),
            npc_super_pos: (0, 0),
            new_npcs: Vec::new(),
            sound_queue: Vec::new(),
            textscript_vm: TextScriptVM::new(),
            season,
            constants: EngineConstants::empty(),
            shutdown: false,
        }
    }

    /// Request a sound effect by id; fire-and-forget, the audio
    /// collaborator drains the queue and may fail independently.
    pub fn play_sfx(&mut self, id: u8)
        ensures
            final(self)@ == (GameStateView { sound_queue: old(self)@.sound_queue.push(id), ..old(self)@ }),
    {
        self.sound_queue.push(id);
    }

    /// Request a purely cosmetic particle entity.
    pub fn create_caret(&mut self, x: i64, y: i64, ctype: CaretType, direct: Direction)
        ensures
            final(self)@ == (GameStateView {
                carets: old(self)@.carets.push(Caret { x, y, ctype, direction: direct }),
                ..old(self)@
            }),
    {
        self.carets.push(Caret { x, y, ctype, direction: direct });
    }

    /// Put the world back into its pre-game shape: progress flags and
    /// queues cleared, the gameplay stream reseeded from zero, scripting
    /// suspended in map mode. Authored tables and the cosmetic stream
    /// are kept.
    pub fn reset(&mut self)
        ensures
            final(self)@ == (GameStateView {
                control_flags: ControlFlags::spec_cleared(),
                game_flags: Seq::new(game_flag_count() as nat, |i: int| false),
                fade_state: FadeState::Hidden,
                game_rng: Rng { state: spec_seed(0) },
                teleporter_slots: Seq::<(u16, u16)>::empty(),
                quake_counter: 0,
                carets: Seq::<Caret>::empty(),
                new_npcs: Seq::<SpawnRequest>::empty(),
                textscript_vm: TextScriptVM {
                    mode: ScriptMode::MapScene,
                    suspend: true,
                    ..old(self)@.textscript_vm
                },
                ..old(self)@
            }),
    {
        self.control_flags = ControlFlags::cleared();
        self.game_flags = new_flag_store(8000);
        self.fade_state = FadeState::Hidden;
        self.game_rng = Rng::new(0);
        self.teleporter_slots = Vec::new();
        self.quake_counter = 0;
        self.carets = Vec::new();
        self.new_npcs = Vec::new();
        self.textscript_vm.set_mode(ScriptMode::MapScene);
        self.textscript_vm.suspend = true;
        proof {
            assert(flag_bits(self.game_flags) =~= Seq::new(game_flag_count() as nat, |i: int| false));
            assert(self.teleporter_slots@ =~= Seq::<(u16, u16)>::empty());
            assert(self.carets@ =~= Seq::<Caret>::empty());
            assert(self.new_npcs@ =~= Seq::<SpawnRequest>::empty());
        }
    }

    /// Flag the process for shutdown; observed only between steps.
    pub fn shutdown(&mut self)
        ensures
            final(self)@ == (GameStateView { shutdown: true, ..old(self)@ }),
    {
        self.shutdown = true;
    }
}

} // verus!
