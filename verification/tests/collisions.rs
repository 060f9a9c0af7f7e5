use one_man::gameplay::bullet_pool::{Bullet, BulletOwner, BulletPool, BulletSpawnNode, BulletTypeBank};
use one_man::gameplay::enemy_manager::{Enemy, EnemyManager, EnemyTypeBank};
use one_man::gameplay::particle_manager::ParticleDrawLayer;
use one_man::gameplay::player::{Player, WeaponType};
use one_man::gameplay::utils::Vec2;
use one_man::gameplay::world::World;
use one_man::image_assets::ImageAssets;
use one_man::scenes::gameplay::{
    play_hit_sound, strike, update_hit_check_between_player_and_enemies,
    update_hit_check_between_player_and_enemies_bullets,
    update_hit_check_between_player_bullet_and_enemies,
    update_hit_check_between_player_melee_attack_with_enemies,
    update_hit_check_between_player_melee_attack_with_enemies_bullets,
};

fn assets() -> ImageAssets {
    let mut assets = ImageAssets::new(Vec::new());
    assets.add("tex");
    let names = ["enemy-crawler-air", "enemy-crawler-idle", "enemy-spawner-1-idle"];
    let list: Vec<(String, Vec<String>, u64)> =
        names.iter().map(|n| (n.to_string(), vec!["tex".to_string()], 18)).collect();
    assets.load_animations(&list);
    assets
}

fn bank() -> EnemyTypeBank {
    let mut bank = EnemyTypeBank::new();
    bank.setup(&assets(), &vec![0, 1, 2, 3]);
    bank
}

fn crawler_at(position: Vec2) -> Enemy {
    let mut enemy = Enemy::new();
    enemy.active = true;
    enemy.enemy_type = 2;
    enemy.health = 40;
    enemy.radius = 20_000;
    enemy.position = position;
    enemy
}

fn player_bullet_at(position: Vec2) -> Bullet {
    let mut bullet = Bullet::new();
    bullet.active = true;
    bullet.bullet_type = 1;
    bullet.owner_type = BulletOwner::PLAYER(1);
    bullet.life_time = 100;
    bullet.health = 2;
    bullet.damage = 1;
    bullet.radius = 6000;
    bullet.position = position;
    bullet
}

fn manager_with_crawlers(places: &[Vec2]) -> EnemyManager {
    let assets = assets();
    let bank = bank();
    let mut world = World::new();
    let mut manager = EnemyManager::new();
    for p in places {
        assert!(matches!(manager.spawn_enemy(2, *p, "", &bank, &mut world, &assets), Ok(true)));
    }
    manager
}

fn pool_with_enemy_bullets(places: &[Vec2], extra: &str) -> BulletPool {
    let mut pool = BulletPool::new(10);
    let mut world = World::new();
    let mut types = BulletTypeBank::new();
    types.setup(&assets());
    for p in places.iter().rev() {
        world.request_bullet(BulletSpawnNode {
            bullet_type: 1,
            position: *p,
            owner_type: BulletOwner::ENEMY,
            rotation: 500,
            speed: 1000,
            radius: 4000,
            extra: extra.to_string(),
        });
    }
    assert!(pool.spawn_bullets_from_queue(&mut world, &mut types, &assets()).is_ok());
    pool
}

fn swinging_player() -> Player {
    let mut player = Player::new(1);
    player.position = Vec2::new(0, 0);
    player.direction = 1;
    player.weapon_type = WeaponType::Melee;
    player.melee_attack_time = 100;
    player.melee_attack_cooldown = 330;
    player
}

#[test]
fn bullet_at_exactly_the_sum_of_the_radii_hits() {
    let bank = bank();
    let mut world = World::new();
    let mut enemy = crawler_at(Vec2::new(0, 0));
    let mut bullet = player_bullet_at(Vec2::new(26_000, 0));
    assert!(strike(&mut bullet, &mut enemy, &bank, &mut world));
    assert_eq!(enemy.health, 39);
    assert_eq!(enemy.hit_frame, 8);
    assert_eq!(bullet.health, 1);
    assert!(bullet.active);
    assert!(enemy.active);
    assert_eq!(world.particle_spawn_nodes.len(), 1);
    assert!(world.particle_spawn_nodes[0].extra.ends_with("|scale=0.9|"));
    assert_eq!(world.play_sound_nodes.len(), 1);
    let cue = &world.play_sound_nodes.pair(0).0;
    assert!(cue == "bullet_hit_1" || cue == "bullet_hit_2" || cue == "bullet_hit_3");
    assert_eq!(world.play_sound_nodes.pair(0).1.volume, 150);
    assert_eq!(world.play_sound_nodes.pair(0).1.path, format!("./resources/sfx/{}.mp3", cue));
}

#[test]
fn bullet_just_beyond_the_sum_of_the_radii_misses() {
    let bank = bank();
    let mut world = World::new();
    let mut enemy = crawler_at(Vec2::new(0, 0));
    let mut bullet = player_bullet_at(Vec2::new(26_001, 0));
    assert!(!strike(&mut bullet, &mut enemy, &bank, &mut world));
    assert_eq!(enemy.health, 40);
    assert_eq!(bullet.health, 2);
    assert!(world.particle_spawn_nodes.is_empty());
    let mut diagonal = player_bullet_at(Vec2::new(15_600, 20_800));
    assert!(strike(&mut diagonal, &mut enemy, &bank, &mut world));
    let mut beyond = player_bullet_at(Vec2::new(15_600, 20_801));
    assert!(!strike(&mut beyond, &mut enemy, &bank, &mut world));
}

#[test]
fn bullet_on_top_of_the_enemy_hits() {
    let bank = bank();
    let mut world = World::new();
    let mut enemy = crawler_at(Vec2::new(1000, 1000));
    let mut bullet = player_bullet_at(Vec2::new(1000, 1000));
    assert!(strike(&mut bullet, &mut enemy, &bank, &mut world));
    assert_eq!(enemy.health, 39);
}

#[test]
fn spent_bullet_goes_out_and_asks_for_its_hit_effect() {
    let bank = bank();
    let mut world = World::new();
    let mut enemy = crawler_at(Vec2::new(0, 0));
    let mut bullet = player_bullet_at(Vec2::new(10_000, 0));
    bullet.health = 1;
    bullet.rotation = -400;
    assert!(bullet.parsing_extra("hit_animation=player-bullet-hit|").is_ok());
    assert!(strike(&mut bullet, &mut enemy, &bank, &mut world));
    assert_eq!(bullet.health, 0);
    assert!(!bullet.active);
    assert_eq!(world.particle_spawn_nodes.len(), 2);
    let effect = &world.particle_spawn_nodes[0];
    assert_eq!(effect.draw_layer, ParticleDrawLayer::BulletHit);
    assert_eq!(effect.extra, "idle_animation=player-bullet-hit|flip_x=1|");
    assert!((effect.position.x - 10_000).abs() <= 4000);
    assert!(effect.position.y.abs() <= 4000);
}

#[test]
fn hit_that_uses_up_the_health_puts_the_enemy_out() {
    let bank = bank();
    let mut world = World::new();
    let mut enemy = crawler_at(Vec2::new(0, 0));
    enemy.health = 3;
    let mut bullet = player_bullet_at(Vec2::new(0, 0));
    bullet.damage = 5;
    assert!(strike(&mut bullet, &mut enemy, &bank, &mut world));
    assert_eq!(enemy.health, 0);
    assert!(!enemy.active);
}

#[test]
fn nothing_is_tested_off_screen_or_out_of_play() {
    let bank = bank();
    let mut world = World::new();
    let mut enemy = crawler_at(Vec2::new(300_000, 0));
    let mut bullet = player_bullet_at(Vec2::new(300_000, 0));
    assert!(!strike(&mut bullet, &mut enemy, &bank, &mut world));
    world.camera_position = Vec2::new(300_000, 0);
    assert!(strike(&mut bullet, &mut enemy, &bank, &mut world));
    let mut gone = player_bullet_at(Vec2::new(300_000, 0));
    gone.active = false;
    assert!(!strike(&mut gone, &mut enemy, &bank, &mut world));
    let mut out = crawler_at(Vec2::new(300_000, 0));
    out.active = false;
    assert!(!strike(&mut bullet, &mut out, &bank, &mut world));
    let mut spawner = crawler_at(Vec2::new(300_000, 0));
    spawner.enemy_type = 0;
    assert!(!strike(&mut bullet, &mut spawner, &bank, &mut world));
    assert_eq!(spawner.health, 40);
}

#[test]
fn each_bullet_hits_until_its_health_is_used_up() {
    let bank = bank();
    let mut world = World::new();
    let mut manager = manager_with_crawlers(&[Vec2::new(0, -100_000), Vec2::new(10_000, -100_000)]);
    let mut pool = BulletPool::new(5);
    let mut types = BulletTypeBank::new();
    types.setup(&assets());
    for _ in 0..3 {
        world.request_bullet(BulletSpawnNode {
            bullet_type: 1,
            position: Vec2::new(5000, -100_000),
            owner_type: BulletOwner::PLAYER(1),
            rotation: 0,
            speed: 0,
            radius: 6000,
            extra: String::new(),
        });
    }
    assert!(pool.spawn_bullets_from_queue(&mut world, &mut types, &assets()).is_ok());
    update_hit_check_between_player_bullet_and_enemies(&mut pool, &mut manager, &bank, &mut world);
    assert_eq!(manager.active_enemies[0].health, 37);
    assert_eq!(manager.active_enemies[1].health, 37);
    assert!(pool.player_active_bullets.iter().all(|b| b.health == 0 && !b.active));
    assert_eq!(pool.player_active_bullets.len(), 3);
    assert_eq!(manager.active_enemies.len(), 2);
}

#[test]
fn bullet_that_has_gone_out_is_tested_against_no_further_enemy() {
    let bank = bank();
    let mut world = World::new();
    let places = [Vec2::new(0, -100_000), Vec2::new(10_000, -100_000), Vec2::new(5000, -95_000)];
    let mut manager = manager_with_crawlers(&places);
    let mut pool = BulletPool::new(2);
    let mut types = BulletTypeBank::new();
    types.setup(&assets());
    world.request_bullet(BulletSpawnNode {
        bullet_type: 1,
        position: Vec2::new(5000, -100_000),
        owner_type: BulletOwner::PLAYER(1),
        rotation: 0,
        speed: 0,
        radius: 6000,
        extra: String::new(),
    });
    assert!(pool.spawn_bullets_from_queue(&mut world, &mut types, &assets()).is_ok());
    update_hit_check_between_player_bullet_and_enemies(&mut pool, &mut manager, &bank, &mut world);
    assert_eq!(manager.active_enemies[0].health, 39);
    assert_eq!(manager.active_enemies[1].health, 39);
    assert_eq!(manager.active_enemies[2].health, 40);
    assert_eq!(pool.player_active_bullets[0].health, 0);
    assert!(!pool.player_active_bullets[0].active);
}

#[test]
fn melee_attack_reaches_exactly_as_far_as_the_radii_add_up() {
    let mut world = World::new();
    world.camera_position = Vec2::new(0, -72_000);
    let mut player = swinging_player();
    assert_eq!(player.get_melee_attack_position(), Vec2::new(10_000, -48_000));
    let mut manager = manager_with_crawlers(&[Vec2::new(70_000, -48_000), Vec2::new(70_010, -48_000)]);
    update_hit_check_between_player_melee_attack_with_enemies(&mut player, &mut manager, &mut world);
    assert_eq!(manager.active_enemies[0].health, 38);
    assert_eq!(manager.active_enemies[0].hit_frame, 8);
    assert_eq!(manager.active_enemies[1].health, 40);
    assert_eq!(manager.active_enemies[1].hit_frame, 0);
    assert_eq!(player.falling_slow_time, 300);
    assert_eq!(world.particle_spawn_nodes.len(), 1);
    assert!(world.play_sound_nodes.contains_key("melee_hit_target"));
}

#[test]
fn melee_attack_needs_the_melee_weapon_at_work() {
    let mut world = World::new();
    world.camera_position = Vec2::new(0, -72_000);
    let mut manager = manager_with_crawlers(&[Vec2::new(20_000, -48_000)]);
    let mut resting = swinging_player();
    resting.melee_attack_time = 0;
    update_hit_check_between_player_melee_attack_with_enemies(&mut resting, &mut manager, &mut world);
    assert_eq!(manager.active_enemies[0].health, 40);
    let mut shooting = swinging_player();
    shooting.weapon_type = WeaponType::Range;
    shooting.range_attack_time = 100;
    update_hit_check_between_player_melee_attack_with_enemies(&mut shooting, &mut manager, &mut world);
    assert_eq!(manager.active_enemies[0].health, 40);
    assert_eq!(shooting.falling_slow_time, 0);
    let mut swinging = swinging_player();
    swinging.melee_attack_cooldown = 100;
    update_hit_check_between_player_melee_attack_with_enemies(&mut swinging, &mut manager, &mut world);
    assert_eq!(manager.active_enemies[0].health, 38);
    assert!(!world.play_sound_nodes.contains_key("melee_hit_target"));
}

#[test]
fn melee_attack_cuts_every_enemy_in_reach() {
    let mut world = World::new();
    world.camera_position = Vec2::new(0, -72_000);
    let mut player = swinging_player();
    let mut manager = manager_with_crawlers(&[
        Vec2::new(0, -48_000),
        Vec2::new(200_000, -48_000),
        Vec2::new(30_000, -60_000),
    ]);
    manager.active_enemies[2].health = 1;
    update_hit_check_between_player_melee_attack_with_enemies(&mut player, &mut manager, &mut world);
    assert_eq!(manager.active_enemies[0].health, 38);
    assert_eq!(manager.active_enemies[1].health, 40);
    assert_eq!(manager.active_enemies[2].health, 0);
    assert!(manager.active_enemies[2].active);
    assert_eq!(world.particle_spawn_nodes.len(), 2);
}

#[test]
fn melee_attack_parries_the_bullets_in_reach() {
    let mut world = World::new();
    world.camera_position = Vec2::new(0, -72_000);
    let player = swinging_player();
    let mut pool = pool_with_enemy_bullets(
        &[Vec2::new(54_000, -48_000), Vec2::new(54_001, -48_000), Vec2::new(10_000, -48_000)],
        "kill_animation=enemy-bullet-1-kill|",
    );
    assert_eq!(pool.enemy_active_bullets[0].position, Vec2::new(54_000, -48_000));
    update_hit_check_between_player_melee_attack_with_enemies_bullets(&player, &mut pool, &mut world);
    assert_eq!(pool.enemy_active_bullets[0].health, 0);
    assert_eq!(pool.enemy_active_bullets[1].health, 2);
    assert_eq!(pool.enemy_active_bullets[2].health, 0);
    assert!(pool.enemy_active_bullets[0].active);
    assert_eq!(world.particle_spawn_nodes.len(), 2);
    assert_eq!(world.particle_spawn_nodes[0].extra, "idle_animation=enemy-bullet-1-kill|flip_x=0|");
    let mut types = BulletTypeBank::new();
    types.setup(&assets());
    pool.update_active_enemies_bullets(&types, world.camera_position);
    assert_eq!(pool.enemy_active_bullets.len(), 1);
    assert_eq!(pool.pool.len(), 9);
}

#[test]
fn parry_needs_the_melee_weapon_at_work() {
    let mut world = World::new();
    world.camera_position = Vec2::new(0, -72_000);
    let mut player = swinging_player();
    player.melee_attack_time = 0;
    let mut pool = pool_with_enemy_bullets(&[Vec2::new(10_000, -48_000)], "");
    update_hit_check_between_player_melee_attack_with_enemies_bullets(&player, &mut pool, &mut world);
    assert_eq!(pool.enemy_active_bullets[0].health, 2);
}

#[test]
fn touching_an_enemy_hurts_the_player_once() {
    let mut world = World::new();
    world.camera_position = Vec2::new(0, -72_000);
    let mut player = Player::new(1);
    player.position = Vec2::new(0, 0);
    let manager = manager_with_crawlers(&[
        Vec2::new(24_000, -46_000),
        Vec2::new(-24_000, -46_000),
        Vec2::new(0, -46_000),
    ]);
    update_hit_check_between_player_and_enemies(&mut player, &manager, &mut world);
    assert_eq!(player.health, 18);
    assert_eq!(player.hit_frame, 90);
    assert_eq!(world.particle_spawn_nodes.len(), 2);
    update_hit_check_between_player_and_enemies(&mut player, &manager, &mut world);
    assert_eq!(player.health, 18);
}

#[test]
fn enemy_out_of_touch_does_not_hurt() {
    let mut world = World::new();
    world.camera_position = Vec2::new(0, -72_000);
    let mut player = Player::new(1);
    player.position = Vec2::new(0, 0);
    let far = manager_with_crawlers(&[Vec2::new(24_001, -46_000)]);
    update_hit_check_between_player_and_enemies(&mut player, &far, &mut world);
    assert_eq!(player.health, 20);
    let near = manager_with_crawlers(&[Vec2::new(24_000, -46_000)]);
    update_hit_check_between_player_and_enemies(&mut player, &near, &mut world);
    assert_eq!(player.health, 18);
    let mut elsewhere = World::new();
    elsewhere.camera_position = Vec2::new(2_000_000, -72_000);
    let mut unseen = Player::new(1);
    update_hit_check_between_player_and_enemies(&mut unseen, &near, &mut elsewhere);
    assert_eq!(unseen.health, 20);
}

#[test]
fn enemy_that_has_gone_out_does_not_hurt() {
    let mut world = World::new();
    world.camera_position = Vec2::new(0, -72_000);
    let mut player = Player::new(1);
    player.position = Vec2::new(0, 0);
    let mut manager = manager_with_crawlers(&[Vec2::new(0, -46_000)]);
    manager.active_enemies[0].active = false;
    update_hit_check_between_player_and_enemies(&mut player, &manager, &mut world);
    assert_eq!(player.health, 20);
    assert_eq!(player.hit_frame, 0);
    assert!(world.particle_spawn_nodes.is_empty());
    manager.active_enemies[0].active = true;
    update_hit_check_between_player_and_enemies(&mut player, &manager, &mut world);
    assert_eq!(player.health, 18);
}

#[test]
fn first_bullet_in_touch_is_spent_on_the_player() {
    let mut world = World::new();
    world.camera_position = Vec2::new(0, -72_000);
    let mut player = Player::new(1);
    player.position = Vec2::new(0, 0);
    let mut pool = pool_with_enemy_bullets(
        &[Vec2::new(8001, -46_000), Vec2::new(8000, -46_000), Vec2::new(0, -46_000)],
        "hit_animation=enemy-bullet-1-hit|",
    );
    pool.enemy_active_bullets[1].health = 1;
    update_hit_check_between_player_and_enemies_bullets(&mut player, &mut pool, &mut world);
    assert_eq!(player.health, 19);
    assert_eq!(pool.enemy_active_bullets[0].health, 2);
    assert_eq!(pool.enemy_active_bullets[1].health, 0);
    assert!(!pool.enemy_active_bullets[1].active);
    assert_eq!(pool.enemy_active_bullets[2].health, 2);
    assert_eq!(world.particle_spawn_nodes.len(), 3);
    assert_eq!(world.particle_spawn_nodes[0].extra, "idle_animation=enemy-bullet-1-hit|flip_x=1|");
    update_hit_check_between_player_and_enemies_bullets(&mut player, &mut pool, &mut world);
    assert_eq!(player.health, 19);
    assert_eq!(pool.enemy_active_bullets[2].health, 1);
}

#[test]
fn hit_sound_is_picked_by_the_draw() {
    for (draw, name, path) in [
        (0u32, "bullet_hit_1", "./resources/sfx/bullet_hit_1.mp3"),
        (1, "bullet_hit_2", "./resources/sfx/bullet_hit_2.mp3"),
        (2, "bullet_hit_3", "./resources/sfx/bullet_hit_3.mp3"),
        (3, "bullet_hit_1", "./resources/sfx/bullet_hit_1.mp3"),
        (u32::MAX, "bullet_hit_1", "./resources/sfx/bullet_hit_1.mp3"),
        (u32::MAX - 1, "bullet_hit_3", "./resources/sfx/bullet_hit_3.mp3"),
    ] {
        let mut world = World::new();
        world.play_sound("other", "./other.mp3", 5);
        play_hit_sound(&mut world, draw);
        assert_eq!(world.play_sound_nodes.len(), 2);
        let sound = world.play_sound_nodes.get(name).expect("the sound was asked for");
        assert_eq!(sound.path, path);
        assert_eq!(sound.volume, 150);
        assert_eq!(world.play_sound_nodes.get("other").unwrap().volume, 5);
        assert!(world.particle_spawn_nodes.is_empty());
    }
}
