use one_man::gameplay::bullet_pool::BulletOwner;
use one_man::gameplay::input::{Button, KeyStates, Keyboard};
use one_man::gameplay::player::{Player, PlayerState, WeaponType};
use one_man::gameplay::utils::Vec2;
use one_man::gameplay::world::World;
use one_man::image_assets::ImageAssets;

fn no_keys() -> KeyStates {
    KeyStates { up: false, down: false, left: false, right: false, attack: false, switch: false }
}

fn assets() -> ImageAssets {
    let mut assets = ImageAssets::new(Vec::new());
    assets.add("tex");
    let names = ["player-stand", "player-run", "player-jump", "player-die", "player-slash"];
    let list: Vec<(String, Vec<String>, u64)> =
        names.iter().map(|n| (n.to_string(), vec!["tex".to_string()], 18)).collect();
    assets.load_animations(&list);
    assets
}

fn world() -> World {
    let mut world = World::new();
    world.camera_position = Vec2::new(0, -72_000);
    world
}

fn grounded_player() -> Player {
    let mut player = Player::new(1);
    player.position = Vec2::new(0, 24_000);
    player
}

#[test]
fn button_counts_how_long_it_is_held() {
    let mut b = Button::new();
    assert_eq!(b, Button { hold_time: 0, idle_time: 200 });
    b.update(false);
    assert_eq!(b, Button { hold_time: 0, idle_time: 216 });
    b.update(true);
    assert_eq!(b, Button { hold_time: 16, idle_time: 0 });
    b.update(true);
    assert_eq!(b, Button { hold_time: 32, idle_time: 16 });
    b.update(false);
    assert_eq!(b, Button { hold_time: 0, idle_time: 32 });
    b.consume();
    assert_eq!(b.idle_time, 200);
    let mut worn = Button { hold_time: u128::MAX - 1, idle_time: u128::MAX };
    worn.update(true);
    assert_eq!(worn, Button { hold_time: u128::MAX, idle_time: u128::MAX });
}

#[test]
fn keyboard_reads_its_keys() {
    let mut k = Keyboard::new_with_preset_keys();
    assert_eq!(k, Keyboard::new());
    assert!(!k.up() && !k.down() && !k.left() && !k.right() && !k.attack() && !k.switch());
    k.update(KeyStates { up: true, down: false, left: false, right: true, attack: true, switch: true });
    assert!(k.up() && !k.down() && !k.left() && k.right());
    assert!(k.attack() && k.switch());
    assert_eq!(k.attack_holding(), 16);
    k.update(KeyStates { up: false, down: true, left: true, right: false, attack: true, switch: false });
    assert!(!k.up() && k.down() && k.left() && !k.right());
    assert!(!k.attack());
    assert!(!k.switch());
    assert_eq!(k.attack_holding(), 32);
}

#[test]
fn new_player_is_whole() {
    let player = Player::new(3);
    assert_eq!(player.player_number, 3);
    assert_eq!(player.health, 20);
    assert!(player.alive());
    assert_eq!(player.get_health_percentage(), 1000);
    assert_eq!(*player.get_weapon_type(), WeaponType::Melee);
    assert!(!player.is_attacking());
    assert_eq!(player.get_hit_point_position(), Vec2::new(0, -46_000));
    assert_eq!(player.get_hit_point_radius(), 4000);
    assert_eq!(Player::get_melee_attack_radius(), 40_000);
    assert_eq!(player.get_melee_attack_position(), Vec2::new(10_000, -48_000));
    assert_eq!(player.melee_attack_damage(), 2);
    assert_eq!(*player.get_crosshair_position(), Vec2::new(0, 0));
}

#[test]
fn melee_point_follows_the_direction() {
    let mut player = Player::new(1);
    player.position = Vec2::new(100_000, 24_000);
    player.direction = -1;
    assert_eq!(player.get_melee_attack_position(), Vec2::new(90_000, -24_000));
}

#[test]
fn hit_hurts_once_and_starts_the_grace() {
    let mut player = Player::new(1);
    let mut world = world();
    player.get_hit(2, &mut world);
    assert_eq!(player.health, 18);
    assert_eq!(player.hit_frame, 90);
    assert_eq!(world.particle_spawn_nodes.len(), 2);
    assert!(world.particle_spawn_nodes[0].extra.ends_with("|scale=1.5|"));
    assert!(world.play_sound_nodes.contains_key("player_hit"));
    assert_eq!(world.play_sound_nodes.get("player_hit").unwrap().volume, 800);
    player.get_hit(2, &mut world);
    assert_eq!(player.health, 18);
    assert_eq!(world.particle_spawn_nodes.len(), 2);
    assert_eq!(player.get_health_percentage(), 900);
}

#[test]
fn hit_in_a_lunge_or_a_dash_does_not_hurt() {
    let mut world = world();
    let mut lunging = Player::new(1);
    lunging.melee_attack_time = 11;
    lunging.get_hit(5, &mut world);
    assert_eq!(lunging.health, 20);
    lunging.melee_attack_time = 10;
    lunging.get_hit(5, &mut world);
    assert_eq!(lunging.health, 15);
    let mut dashing = Player::new(1);
    dashing.dash_speed = 1;
    dashing.get_hit(5, &mut world);
    assert_eq!(dashing.health, 20);
}

#[test]
fn hit_never_takes_health_below_zero() {
    let mut player = Player::new(1);
    let mut world = world();
    player.health = 1;
    player.get_hit(2, &mut world);
    assert_eq!(player.health, 0);
    assert!(player.alive());
    player.update(no_keys(), &mut world, &assets());
    assert!(!player.alive());
    assert_eq!(player.jump_speed, 30);
    assert_eq!(player.skin.get_current_animation_name(), "player-die");
    assert!(!player.skin.is_loop());
    assert!(world.play_sound_nodes.contains_key("player_die"));
}

#[test]
fn clocks_run_down_with_each_tick() {
    let mut player = grounded_player();
    let mut world = world();
    player.hit_frame = 90;
    player.melee_attack_cooldown = 20;
    player.falling_slow_time = 10;
    player.update(no_keys(), &mut world, &assets());
    assert_eq!(player.hit_frame, 74);
    assert_eq!(player.melee_attack_cooldown, 4);
    assert_eq!(player.falling_slow_time, 0);
    player.update(no_keys(), &mut world, &assets());
    assert_eq!(player.hit_frame, 58);
    assert_eq!(player.melee_attack_cooldown, 0);
}

#[test]
fn player_walks_and_faces_where_it_goes() {
    let mut player = grounded_player();
    let mut world = world();
    let assets = assets();
    let mut keys = no_keys();
    keys.right = true;
    player.update(keys, &mut world, &assets);
    assert_eq!(player.position, Vec2::new(6000, 24_000));
    assert_eq!(player.direction, 1);
    assert_eq!(player.animation_state, PlayerState::Run);
    assert_eq!(player.skin.get_current_animation_name(), "player-run");
    keys.right = false;
    keys.left = true;
    player.update(keys, &mut world, &assets);
    assert_eq!(player.position, Vec2::new(0, 24_000));
    assert_eq!(player.direction, -1);
    player.update(no_keys(), &mut world, &assets);
    assert_eq!(player.animation_state, PlayerState::Stand);
    assert_eq!(player.skin.get_current_animation_name(), "player-stand");
    player.falling_slow_time = 100;
    player.update(keys, &mut world, &assets);
    assert_eq!(player.position.x, -2000);
}

#[test]
fn player_stays_inside_the_visible_area() {
    let mut player = grounded_player();
    let mut world = world();
    player.position = Vec2::new(247_000, 24_000);
    let mut keys = no_keys();
    keys.right = true;
    player.update(keys, &mut world, &assets());
    assert_eq!(player.position.x, 248_000);
    player.update(keys, &mut world, &assets());
    assert_eq!(player.position.x, 248_000);
}

#[test]
fn player_jumps_rises_hangs_and_falls() {
    let mut player = grounded_player();
    let mut world = world();
    let assets = assets();
    let mut keys = no_keys();
    keys.up = true;
    player.update(keys, &mut world, &assets);
    assert_eq!(player.jump_speed, 184);
    assert_eq!(player.position.y, 24_000 - 4800);
    assert_eq!(player.animation_state, PlayerState::Stand);
    let keys = no_keys();
    let mut ticks = 1;
    while player.jump_speed > 0 {
        player.update(keys, &mut world, &assets);
        ticks += 1;
    }
    assert_eq!(ticks, 13);
    assert_eq!(player.position.y, 24_000 - 13 * 4800);
    assert_eq!(player.animation_state, PlayerState::Jump);
    let top = player.position.y;
    for _ in 0..4 {
        player.update(keys, &mut world, &assets);
        assert_eq!(player.position.y, top);
    }
    player.update(keys, &mut world, &assets);
    assert_eq!(player.position.y, top + 4000);
    for _ in 0..30 {
        player.update(keys, &mut world, &assets);
    }
    assert_eq!(player.position.y, 24_000);
    assert_eq!(player.animation_state, PlayerState::Stand);
}

#[test]
fn melee_attack_starts_on_a_press_and_cools_down() {
    let mut player = grounded_player();
    let mut world = world();
    let assets = assets();
    let mut keys = no_keys();
    keys.attack = true;
    player.update(keys, &mut world, &assets);
    assert_eq!(player.melee_attack_time, 104);
    assert_eq!(player.melee_attack_cooldown, 334);
    assert_eq!(player.melee_attack_button_buffer, 64);
    assert!(player.is_attacking());
    assert_eq!(player.slash.get_current_animation_name(), "player-slash");
    assert!(!player.slash.is_loop());
    assert!(world.play_sound_nodes.contains_key("melee_hit"));
    assert_eq!(world.play_sound_nodes.get("melee_hit").unwrap().volume, 600);
    let keys = no_keys();
    for _ in 0..7 {
        player.update(keys, &mut world, &assets);
    }
    assert_eq!(player.melee_attack_time, 0);
    assert!(!player.is_attacking());
    assert_eq!(player.melee_attack_cooldown, 222);
}

#[test]
fn attacking_player_keeps_its_direction() {
    let mut player = grounded_player();
    let mut world = world();
    player.melee_attack_time = 100;
    player.melee_attack_cooldown = 300;
    let mut keys = no_keys();
    keys.left = true;
    player.update(keys, &mut world, &assets());
    assert_eq!(player.position.x, -6000);
    assert_eq!(player.direction, 1);
}

#[test]
fn holding_attack_draws_the_ranged_weapon_and_fires() {
    let mut player = grounded_player();
    let mut world = world();
    let assets = assets();
    let mut keys = no_keys();
    keys.attack = true;
    for _ in 0..9 {
        player.update(keys, &mut world, &assets);
        assert_eq!(*player.get_weapon_type(), WeaponType::Melee);
    }
    player.update(keys, &mut world, &assets);
    assert_eq!(*player.get_weapon_type(), WeaponType::Range);
    assert!(world.bullet_spawn_nodes.is_empty());
    keys.right = true;
    player.update(keys, &mut world, &assets);
    assert_eq!(*player.get_crosshair_position(), Vec2::new(8000, 0));
    assert_eq!(world.bullet_spawn_nodes.len(), 1);
    let shot = &world.bullet_spawn_nodes[0];
    assert_eq!(shot.owner_type, BulletOwner::PLAYER(1));
    assert_eq!(shot.bullet_type, 1);
    assert_eq!(shot.position, Vec2::new(0, 24_000 - 46_000 - 8000));
    assert_eq!(shot.speed, 10_000);
    assert_eq!(shot.radius, 6000);
    assert!(shot.extra.contains("hit_animation=player-bullet-hit"));
    assert_eq!(player.range_attack_cooldown, 44);
    assert_eq!(player.range_attack_time, 104);
    for _ in 0..3 {
        player.update(keys, &mut world, &assets);
    }
    assert_eq!(world.bullet_spawn_nodes.len(), 1);
    assert_eq!(player.range_attack_cooldown, 0);
    player.update(keys, &mut world, &assets);
    assert_eq!(world.bullet_spawn_nodes.len(), 2);
    keys.attack = false;
    player.update(keys, &mut world, &assets);
    assert_eq!(*player.get_weapon_type(), WeaponType::Melee);
}

#[test]
fn switch_key_starts_a_dash_that_slows_down() {
    let mut player = grounded_player();
    let mut world = world();
    let assets = assets();
    let mut keys = no_keys();
    keys.switch = true;
    player.update(keys, &mut world, &assets);
    assert_eq!(player.dash_speed, 30);
    assert_eq!(player.position.x, 0);
    let keys = no_keys();
    player.update(keys, &mut world, &assets);
    assert_eq!(player.dash_speed, 29);
    assert_eq!(player.position.x, 29_000);
    assert_eq!(player.animation_state, PlayerState::Run);
    player.update(keys, &mut world, &assets);
    assert_eq!(player.position.x, 29_000 + 28_000);
    for _ in 0..28 {
        player.update(keys, &mut world, &assets);
    }
    assert_eq!(player.dash_speed, 0);
}

#[test]
fn melee_hit_slows_the_fall_and_sounds_early_in_the_swing() {
    let mut player = Player::new(1);
    let mut world = world();
    player.melee_attack_cooldown = 320;
    player.melee_attack_hit_enemy(&mut world);
    assert_eq!(player.falling_slow_time, 300);
    assert!(world.play_sound_nodes.contains_key("melee_hit_target"));
    let mut late = Player::new(1);
    let mut quiet = World::new();
    late.melee_attack_cooldown = 319;
    late.melee_attack_hit_enemy(&mut quiet);
    assert_eq!(late.falling_slow_time, 300);
    assert!(!quiet.play_sound_nodes.contains_key("melee_hit_target"));
}

#[test]
fn dead_player_does_not_move_by_itself() {
    let mut player = grounded_player();
    let mut world = world();
    player.is_dead = true;
    player.health = 0;
    let mut keys = no_keys();
    keys.right = true;
    keys.attack = true;
    player.update(keys, &mut world, &assets());
    assert_eq!(player.position.x, 0);
    assert_eq!(player.melee_attack_time, 0);
    assert!(world.play_sound_nodes.len() == 0);
}

#[test]
fn setup_starts_the_idle_animation() {
    let mut player = Player::new(1);
    player.setup(&assets());
    assert_eq!(player.skin.get_current_animation_name(), "player-stand");
    let mut bare = Player::new(1);
    bare.setup(&ImageAssets::new(Vec::new()));
    assert_eq!(bare.skin.get_current_animation_name(), "");
}

#[test]
fn later_sound_of_the_same_cue_replaces_the_earlier_one() {
    let mut world = World::new();
    world.play_sound("cue", "a.mp3", 100);
    world.play_sound("other", "b.mp3", 200);
    world.play_sound("cue", "c.mp3", 300);
    assert_eq!(world.play_sound_nodes.len(), 2);
    assert_eq!(world.play_sound_nodes.get("cue").unwrap().path, "c.mp3");
    assert_eq!(world.play_sound_nodes.get("cue").unwrap().volume, 300);
    let taken = world.play_sound_nodes.take_all();
    assert_eq!(taken.len(), 2);
    assert_eq!(world.play_sound_nodes.len(), 0);
    assert!(!world.play_sound_nodes.contains_key("cue"));
}
