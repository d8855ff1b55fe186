use mage_arena::demon_boss::{
    demon_spell_from_roll, explosion_delays, pick_random_spell, strike_attack, BossFrame, DemonBoss,
    DemonBossRage, DemonBossState, DemonBossStrike, DemonSpell, DEMON_BOSS_HEALTH,
    STAGGER_RECOVERY_MS, STRIKE_RECOVERY_MS,
};
use mage_arena::health::Health;
use mage_arena::spell::{Fireball, AER_TRACTO_DAMAGE, LIGHTNING_STRIKE_DAMAGE};

fn quiet() -> BossFrame {
    BossFrame {
        animation_finished: false,
        spell_released: false,
        strike_cooldown: false,
        spell_cooldown: false,
        movement_cooldown: false,
        player_present: true,
        last_spell_timer: Some(false),
        in_strike_range: false,
        beyond_cast_range: false,
    }
}

#[test]
fn idle_boss_walks() {
    let mut b = DemonBoss::new();
    assert_eq!(b.damage, 2);
    assert_eq!(b.frame(quiet()), None);
    assert_eq!(b.state, DemonBossState::Moving);
    assert_eq!(b.chase_speed(), Some(Some(1)));
}

#[test]
fn movement_pause_keeps_boss_idle() {
    let mut b = DemonBoss::new();
    let f = BossFrame { movement_cooldown: true, ..quiet() };
    assert_eq!(b.frame(f), None);
    assert_eq!(b.state, DemonBossState::Idling);
    assert_eq!(b.chase_speed(), Some(None));
}

#[test]
fn strike_then_recover() {
    let mut b = DemonBoss::new();
    let near = BossFrame { in_strike_range: true, ..quiet() };
    assert_eq!(b.frame(near), None);
    assert_eq!(b.state, DemonBossState::Striking);
    assert!(!b.faces_player());
    assert_eq!(b.frame(near), Some(STRIKE_RECOVERY_MS));
    assert_eq!(b.state, DemonBossState::Striking);
    let done = BossFrame { animation_finished: true, strike_cooldown: true, ..near };
    assert_eq!(b.frame(done), Some(STRIKE_RECOVERY_MS));
    assert_eq!(b.state, DemonBossState::Idling);
}

#[test]
fn strike_ends_straight_into_next_strike_without_cooldown() {
    let mut b = DemonBoss { state: DemonBossState::Striking, ..DemonBoss::new() };
    let f = BossFrame { animation_finished: true, in_strike_range: true, ..quiet() };
    assert_eq!(b.frame(f), Some(STRIKE_RECOVERY_MS));
    assert_eq!(b.state, DemonBossState::Striking);
}

#[test]
fn distant_player_or_long_silence_makes_boss_cast() {
    let mut b = DemonBoss::new();
    let far = BossFrame { beyond_cast_range: true, ..quiet() };
    b.frame(far);
    assert_eq!(b.state, DemonBossState::Casting);
    assert!(b.starts_spell(false, false));
    assert!(!b.starts_spell(true, false));
    b.frame(quiet());
    assert_eq!(b.state, DemonBossState::Casting);
    let released = BossFrame { spell_released: true, spell_cooldown: true, ..quiet() };
    b.frame(released);
    assert_eq!(b.state, DemonBossState::Moving);

    let mut c = DemonBoss::new();
    c.frame(BossFrame { last_spell_timer: Some(true), ..quiet() });
    assert_eq!(c.state, DemonBossState::Casting);

    let mut d = DemonBoss::new();
    d.frame(BossFrame { last_spell_timer: None, beyond_cast_range: true, ..quiet() });
    assert_eq!(d.state, DemonBossState::Moving);
}

#[test]
fn five_air_hits_enrage() {
    let mut b = DemonBoss::new();
    let mut h = Health::new(DEMON_BOSS_HEALTH);
    for n in 1..5 {
        assert!(!b.aer_tracto_hit(&mut h, AER_TRACTO_DAMAGE));
        assert_eq!(b.state, DemonBossState::Staggering);
        assert_eq!(b.rage.rage_stack(), n);
        assert!(!b.rage.is_active());
    }
    assert!(!b.aer_tracto_hit(&mut h, AER_TRACTO_DAMAGE));
    assert!(b.rage.is_active());
    assert_eq!(b.rage.rage_stack(), 0);
    assert_eq!(h.health, 5);
    b.state = DemonBossState::Moving;
    assert!(b.aer_tracto_hit(&mut h, AER_TRACTO_DAMAGE));
    assert_eq!(b.state, DemonBossState::Moving);
    assert_eq!(b.chase_speed(), Some(Some(2)));
    assert!(b.shows_rage_aura());
    b.rage_timer_finished();
    assert!(!b.rage.is_active());
    assert!(!b.shows_rage_aura());
}

#[test]
fn rage_add_directly() {
    let mut r = DemonBossRage::new();
    for _ in 0..4 {
        r.add();
    }
    assert_eq!(r.rage_stack(), 4);
    r.add();
    assert!(r.is_active());
    r.expire();
    assert!(!r.is_active());
}

#[test]
fn stagger_recovery() {
    let mut b = DemonBoss { state: DemonBossState::Staggering, ..DemonBoss::new() };
    assert_eq!(b.chase_speed(), None);
    assert_eq!(b.frame(quiet()), Some(STAGGER_RECOVERY_MS));
    assert_eq!(b.state, DemonBossState::Staggering);
    assert_eq!(b.frame(BossFrame { animation_finished: true, ..quiet() }), Some(STAGGER_RECOVERY_MS));
    assert_eq!(b.state, DemonBossState::Idling);
}

#[test]
fn boss_dies_and_stays_dead() {
    let mut b = DemonBoss::new();
    let mut h = Health::new(DEMON_BOSS_HEALTH);
    let mut f = Fireball::new();
    assert!(b.fireball_hit(&mut f, &mut h));
    assert!(f.disabled());
    assert!(b.spell_hit(&mut h, LIGHTNING_STRIKE_DAMAGE));
    assert_eq!(h.health, 0);
    assert_eq!(b.check_death(&h, true), (false, true));
    assert_eq!(b.state, DemonBossState::Dying);
    assert_eq!(b.animation(), (5, false));
    assert!(!b.spell_hit(&mut h, 1));
    let near = BossFrame { in_strike_range: true, beyond_cast_range: true, last_spell_timer: Some(true), ..quiet() };
    assert_eq!(b.frame(near), None);
    assert_eq!(b.state, DemonBossState::Dying);
    assert_eq!(b.check_death(&h, false), (false, false));
    assert_eq!(b.check_death(&h, true), (true, false));
}

#[test]
fn strike_explosions_spawn_once_per_strike() {
    let mut s = DemonBossStrike::new();
    assert_eq!(s.toggle_hitbox(DemonBossState::Striking, false), Some(false));
    assert!(!s.spawn_strike_explosions(DemonBossState::Striking));
    assert_eq!(s.toggle_hitbox(DemonBossState::Striking, true), Some(true));
    assert!(s.spawn_strike_explosions(DemonBossState::Striking));
    assert!(!s.spawn_strike_explosions(DemonBossState::Striking));
    assert_eq!(s.toggle_hitbox(DemonBossState::Idling, true), None);
    assert_eq!(s, DemonBossStrike::new());
}

#[test]
fn strike_cooldown_starts_while_striking() {
    let b = DemonBoss { state: DemonBossState::Striking, ..DemonBoss::new() };
    assert!(b.starts_strike_cooldown(false));
    assert!(!b.starts_strike_cooldown(true));
    assert!(!DemonBoss::new().starts_strike_cooldown(false));
}

#[test]
fn spells_by_roll() {
    assert_eq!(demon_spell_from_roll(0), DemonSpell::Explosion);
    assert_eq!(demon_spell_from_roll(1), DemonSpell::EarthPrison);
}

#[test]
fn random_spell_picks_both() {
    let picks: Vec<DemonSpell> = (0..400).map(|_| pick_random_spell()).collect();
    assert!(picks.contains(&DemonSpell::Explosion));
    assert!(picks.contains(&DemonSpell::EarthPrison));
}

#[test]
fn older_attack_system() {
    assert_eq!(strike_attack(DemonBossState::Idling, true, false), DemonBossState::Striking);
    assert_eq!(strike_attack(DemonBossState::Idling, false, true), DemonBossState::Moving);
    assert_eq!(strike_attack(DemonBossState::Moving, false, false), DemonBossState::Idling);
    assert_eq!(strike_attack(DemonBossState::Striking, false, true), DemonBossState::Striking);
}

#[test]
fn explosions_go_off_in_steps() {
    assert_eq!(explosion_delays(5), vec![0, 100, 200, 300, 400]);
    assert!(explosion_delays(0).is_empty());
}

#[test]
fn boss_footsteps_only_while_walking() {
    let mut boss = DemonBoss::new();
    assert!(!boss.plays_step_sound(true));
    boss.state = DemonBossState::Moving;
    assert!(boss.plays_step_sound(true));
    assert!(!boss.plays_step_sound(false));
}
