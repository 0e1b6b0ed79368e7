use sim_core::balfrog::b02_run_crouch;
use sim_core::common::{Direction, Rect, TargetPlayer};
use sim_core::inventory::{AddExperienceResult, Inventory};
use sim_core::npc::NPC;
use sim_core::physics::{decay_velocity, solid_hard_axis_horizontal};
use sim_core::player::Player;
use sim_core::rng::Rng;
use sim_core::state::{GameState, Season, TimingMode};
use sim_core::state::season_for;

fn fresh_state() -> GameState {
    GameState::new(7, Season::OffSeason)
}

#[test]
fn timing_mode_delta_and_tps() {
    assert_eq!(TimingMode::_50Hz.get_delta(), 20000000);
    assert_eq!(TimingMode::_60Hz.get_delta(), 16666666);
    assert_eq!(TimingMode::FrameSynchronized.get_delta(), 0);
    assert_eq!(TimingMode::_50Hz.get_tps(), 50);
    assert_eq!(TimingMode::_60Hz.get_tps(), 60);
    assert_eq!(TimingMode::FrameSynchronized.get_tps(), 0);
}

#[test]
fn seasons_by_date() {
    assert_eq!(season_for(10, 26), Season::Halloween);
    assert_eq!(season_for(11, 2), Season::Halloween);
    assert_eq!(season_for(12, 24), Season::Christmas);
    assert_eq!(season_for(1, 2), Season::OffSeason);
    assert_eq!(season_for(6, 15), Season::OffSeason);
    // Season::current consults the wall clock; it must agree with the
    // date rule for some valid date, so it at least returns a variant.
    let s = Season::current();
    assert!(s == Season::OffSeason || s == Season::Halloween || s == Season::Christmas);
}

#[test]
fn velocity_decay_truncates_toward_zero() {
    assert_eq!(decay_velocity(9, 8, 9), 8);
    assert_eq!(decay_velocity(-9, 8, 9), -8);
    assert_eq!(decay_velocity(100, 8, 9), 88);
    assert_eq!(decay_velocity(-100, 8, 9), -88);
    assert_eq!(decay_velocity(-100, 10, 11), -90);
    assert_eq!(decay_velocity(1, 8, 9), 0);
    assert_eq!(decay_velocity(-1, 8, 9), 0);
}

#[test]
fn axis_selection_concrete() {
    // Flat, wide actor: a mostly-vertical offset resolves vertically.
    assert!(!solid_hard_axis_horizontal(10, 5000, 4096, 1024));
    // Mostly-horizontal offset resolves horizontally.
    assert!(solid_hard_axis_horizontal(5000, 10, 4096, 1024));
    // Negative offsets use magnitudes.
    assert!(!solid_hard_axis_horizontal(-1, 5, 1, 1));
    assert!(solid_hard_axis_horizontal(-5, 1, 1, 1));
    // Zero horizontal lengths are substituted by one unit.
    assert!(solid_hard_axis_horizontal(0, 1, 0, 1));
}

#[test]
fn rng_streams_replay_bit_identically() {
    let mut a = Rng::new(42);
    let mut b = Rng::new(42);
    for _ in 0..32 {
        assert_eq!(a.range(-0x600, 0x600), b.range(-0x600, 0x600));
        assert_eq!(a.state, b.state);
    }
    let v = a.range(0, 120);
    assert!((0..=120).contains(&v));
}

#[test]
fn add_xp_levels_and_stars() {
    let mut inv = Inventory::new();
    inv.exp_table = vec![20, 40];
    assert_eq!(inv.add_xp(10), AddExperienceResult::NoChange);
    assert_eq!(inv.experience, 10);
    assert_eq!(inv.add_xp(15), AddExperienceResult::LevelUp);
    assert_eq!(inv.level, 1);
    assert_eq!(inv.experience, 5);
    assert_eq!(inv.add_xp(35), AddExperienceResult::LevelUp);
    assert_eq!(inv.level, 2);
    assert_eq!(inv.add_xp(1), AddExperienceResult::AddStar);
}

#[test]
fn player_damage_saturates_and_kills() {
    let mut state = fresh_state();
    let mut p = Player::new();
    p.life = 5;
    p.max_life = 5;
    p.damage(3, &mut state);
    assert_eq!(p.life, 2);
    assert_eq!(state.sound_queue, vec![16]);
    // invulnerability window: the second hit does nothing
    p.damage(3, &mut state);
    assert_eq!(p.life, 2);
    p.shock_counter = 0;
    p.damage(9, &mut state);
    assert_eq!(p.life, 0);
    assert!(!p.cond.alive);
    assert_eq!(state.sound_queue, vec![16, 16, 17]);
}

fn touching_npc() -> NPC {
    let mut n = NPC::blank();
    n.cond.alive = true;
    n.hit_bounds = Rect { left: 0x1000, top: 0x1000, right: 0x1000, bottom: 0x1000 };
    n
}

#[test]
fn experience_pickup_grants_xp() {
    let mut state = fresh_state();
    let mut p = Player::new();
    let mut inv = Inventory::new();
    inv.exp_table = vec![100];
    let mut n = touching_npc();
    n.npc_type = 1;
    n.exp = 10;
    p.tick_npc_collision(TargetPlayer::Player1, &mut state, &mut n, &mut inv);
    assert!(!n.cond.alive);
    assert_eq!(state.sound_queue, vec![14]);
    assert_eq!(inv.experience, 10);
    assert_eq!(inv.level, 0);
}

#[test]
fn experience_pickup_levels_up() {
    let mut state = fresh_state();
    let mut p = Player::new();
    let mut inv = Inventory::new();
    inv.exp_table = vec![5];
    let mut n = touching_npc();
    n.npc_type = 1;
    n.exp = 10;
    p.tick_npc_collision(TargetPlayer::Player1, &mut state, &mut n, &mut inv);
    assert!(!n.cond.alive);
    assert_eq!(state.sound_queue, vec![14, 27]);
    assert_eq!(inv.level, 1);
    assert_eq!(state.carets.len(), 1);
}

#[test]
fn heart_pickup_heals_to_ceiling() {
    let mut state = fresh_state();
    let mut p = Player::new();
    p.life = 3;
    p.max_life = 8;
    let mut inv = Inventory::new();
    let mut n = touching_npc();
    n.npc_type = 87;
    n.exp = 10;
    p.tick_npc_collision(TargetPlayer::Player1, &mut state, &mut n, &mut inv);
    assert_eq!(p.life, 8);
    assert!(!n.cond.alive);
    assert_eq!(state.sound_queue, vec![20]);
}

#[test]
fn rear_and_top_not_hurt_directionality() {
    // Front hit: the contact opposes the actor's motion, damage lands.
    let mut state = fresh_state();
    state.control_flags.control_enabled = true;
    let mut p = Player::new();
    p.life = 10;
    p.max_life = 10;
    let mut inv = Inventory::new();
    let mut n = touching_npc();
    n.npc_flags.rear_and_top_not_hurt = true;
    n.damage = 4;
    n.vel_x = 0x100;
    p.tick_npc_collision(TargetPlayer::Player1, &mut state, &mut n, &mut inv);
    assert_eq!(p.life, 6);

    // Rear hit: same contact, actor moving away, zero damage.
    let mut state2 = fresh_state();
    state2.control_flags.control_enabled = true;
    let mut p2 = Player::new();
    p2.life = 10;
    p2.max_life = 10;
    let mut n2 = touching_npc();
    n2.npc_flags.rear_and_top_not_hurt = true;
    n2.damage = 4;
    n2.vel_x = -0x100;
    p2.tick_npc_collision(TargetPlayer::Player1, &mut state2, &mut n2, &mut inv);
    assert_eq!(p2.life, 10);
}

#[test]
fn platform_riding_snaps_flush_and_inherits_velocity() {
    let mut p = Player::new();
    p.hit_bounds = Rect { left: 0x800, top: 0x800, right: 0x800, bottom: 0x800 };
    p.y = -0x1400;
    p.vel_y = 0x400;
    let mut n = touching_npc();
    n.npc_flags.solid_soft = true;
    n.vel_x = 0x80;
    n.vel_y = 0;
    let flags = p.judge_hit_npc_solid_soft(&n);
    assert!(flags.hit_bottom_wall);
    assert_eq!(p.y, -(0x1000 + 0x800) + 0x200);
    assert_eq!(p.vel_y, n.vel_y);
    assert_eq!(p.x, 0x80);
}

#[test]
fn interactable_actor_starts_script() {
    let mut state = fresh_state();
    let mut p = Player::new();
    p.cond.interacted = true;
    p.vel_x = 0x300;
    let mut inv = Inventory::new();
    let mut n = touching_npc();
    n.npc_flags.interactable = true;
    n.event_num = 200;
    p.tick_npc_collision(TargetPlayer::Player1, &mut state, &mut n, &mut inv);
    assert!(state.control_flags.tick_world);
    assert!(state.control_flags.interactions_disabled);
    assert_eq!(
        state.textscript_vm.state,
        sim_core::state::TextScriptExecutionState::Running(200)
    );
    assert!(!p.cond.interacted);
    assert_eq!(p.vel_x, 0);
}

#[test]
fn boss_crouch_transitions_on_tick_51() {
    let mut p0 = NPC::blank();
    p0.action_num = 100;
    for i in 1..=50u32 {
        b02_run_crouch(&mut p0, 100, 101, 102);
        assert_eq!(p0.action_num, 101, "still crouching on tick {}", i);
        assert_eq!(p0.action_counter, i as u16);
    }
    b02_run_crouch(&mut p0, 100, 101, 102);
    assert_eq!(p0.action_num, 102);
    assert_eq!(p0.anim_num, 2);
}

#[test]
fn fresh_world_shape() {
    let state = fresh_state();
    assert_eq!(state.game_flags.len(), 8000);
    assert!(!state.game_flags.get(0));
    assert!(!state.game_flags.get(7999));
    assert_eq!(state.quake_counter, 0);
    assert!(state.new_npcs.is_empty());
    assert!(state.textscript_vm.suspend);
}

#[test]
fn booster_blink_counts_frames() {
    let mut state = fresh_state();
    state.constants.npc.n113_professor_booster =
        (0..14u16).map(|i| Rect { left: i, top: 0, right: 0, bottom: 0 }).collect();
    let mut n = NPC::blank();
    n.cond.alive = true;
    n.action_num = 2;
    n.direction = Direction::Left;
    n.tick_n113_professor_booster(&state);
    assert_eq!(n.action_counter, 1);
    assert_eq!(n.vel_y, 0x40);
    assert_eq!(n.y, 0x40);
    assert_eq!(n.anim_rect.left, 0);
    for _ in 0..8 {
        n.tick_n113_professor_booster(&state);
    }
    // after nine frames the blink ends and the actor idles again
    assert_eq!(n.action_num, 1);
    assert_eq!(n.anim_num, 0);
}
