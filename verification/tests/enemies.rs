use one_man::gameplay::bullet_pool::BulletOwner;
use one_man::gameplay::enemy_manager::{
    circle_hit, even, odd, random_target_position, random_weapon_tick, splash_particle, tick_up,
    Enemy, EnemyManager, EnemyType, EnemyTypeBank, HIT_MISS, HIT_WEAKPOINT,
};
use one_man::gameplay::enemy_types::boss::{call_helpers, BossEnemyType};
use one_man::gameplay::enemy_types::crawling_pop_corn::CrawlingPopCornEnemyType;
use one_man::gameplay::enemy_types::flying_pop_corn::FlyingPopCornEnemyType;
use one_man::gameplay::enemy_types::spawner::SpawnerEnemyType;
use one_man::gameplay::level::EnemySpawnNode;
use one_man::gameplay::number::parse_permille;
use one_man::gameplay::particle_manager::ParticleDrawLayer;
use one_man::gameplay::utils::{is_inside_camera_area, Vec2};
use one_man::gameplay::world::World;
use one_man::image_assets::ImageAssets;

fn assets() -> ImageAssets {
    let mut assets = ImageAssets::new(Vec::new());
    assets.add("tex");
    let names = [
        "enemy-crawler-air",
        "enemy-crawler-idle",
        "enemy-flying-spawn",
        "enemy-flying-idle",
        "enemy-boss-idle",
        "enemy-spawner-1-idle",
        "enemy-spawner-1-spawning",
    ];
    let list: Vec<(String, Vec<String>, u64)> = names
        .iter()
        .map(|n| (n.to_string(), vec!["tex".to_string(), "tex".to_string()], 18))
        .collect();
    assets.load_animations(&list);
    assets
}

fn bank() -> EnemyTypeBank {
    let mut bank = EnemyTypeBank::new();
    bank.setup(&assets(), &vec![0, 1, 2, 3]);
    bank
}

fn count(manager: &EnemyManager) -> usize {
    manager.active_enemies.len() + manager.inactive_enemies.len()
}

#[test]
fn enemy_of_forty_health_dies_at_the_twentieth_hit_and_returns_to_the_pool() {
    let assets = assets();
    let bank = bank();
    let mut world = World::new();
    let mut manager = EnemyManager::new();
    let spawned = manager.spawn_enemy(2, Vec2::new(0, -100_000), "", &bank, &mut world, &assets);
    assert!(matches!(spawned, Ok(true)));
    assert_eq!(manager.active_enemies.len(), 1);
    assert_eq!(manager.inactive_enemies.len(), 98);
    assert_eq!(manager.active_enemies[0].health, 40);
    let target = Vec2::new(0, 0);
    for hit in 1..=20u32 {
        let at = manager.active_enemies[0].position;
        manager.active_enemies[0].get_hit(&mut world, at, 2);
        assert_eq!(manager.active_enemies[0].health, 40 - 2 * hit);
        if hit < 20 {
            manager.update_active_enemies(target, &bank, &mut world, &assets);
            assert_eq!(manager.active_enemies.len(), 1, "hit {}", hit);
            assert!(manager.active_enemies[0].active);
        }
    }
    assert_eq!(manager.active_enemies[0].health, 0);
    manager.update_active_enemies(target, &bank, &mut world, &assets);
    assert!(manager.active_enemies.is_empty());
    assert_eq!(manager.inactive_enemies.len(), 99);
    assert!(!manager.inactive_enemies[98].active);
    assert_eq!(manager.inactive_enemies[98].health, 0);
    assert_eq!(manager.inactive_enemies[98].enemy_type, 0);
    assert!(world.play_sound_nodes.contains_key("crawl_explode"));
}

#[test]
fn new_manager_holds_all_enemies_in_the_pool() {
    let manager = EnemyManager::new();
    assert_eq!(manager.inactive_enemies.len(), 99);
    assert!(manager.active_enemies.is_empty());
    assert!(!manager.has_active_enemy());
    assert_eq!(manager.capacity, 99);
}

#[test]
fn request_for_an_unknown_type_takes_no_enemy() {
    let mut manager = EnemyManager::new();
    let mut world = World::new();
    let outcome = manager.spawn_enemy(42, Vec2::new(0, 0), "", &bank(), &mut world, &assets());
    assert!(matches!(outcome, Ok(false)));
    assert_eq!(manager.inactive_enemies.len(), 99);
    assert!(!manager.has_active_enemy());
}

#[test]
fn malformed_enemy_request_is_an_error_and_loses_nothing() {
    let mut manager = EnemyManager::new();
    let mut world = World::new();
    match manager.spawn_enemy(2, Vec2::new(5, 5), "rotation|", &bank(), &mut world, &assets()) {
        Err(e) => {
            assert_eq!(e.token, "rotation");
            assert_eq!(e.raw, "rotation|");
        }
        _ => panic!("malformed parameters were accepted"),
    }
    assert_eq!(count(&manager), 99);
    assert!(!manager.has_active_enemy());
    assert_eq!(manager.inactive_enemies[98].position, Vec2::new(0, 0));
}

#[test]
fn enemy_drain_empties_the_queue_when_the_pool_runs_out() {
    let mut manager = EnemyManager::new();
    let mut world = World::new();
    for i in 0..120 {
        world.request_enemy(EnemySpawnNode::new(0, if i % 10 == 0 { 77 } else { 2 }, Vec2::new(i, -50_000), ""));
    }
    assert!(manager.spawn_enemies_from_queue(&bank(), &mut world, &assets()).is_ok());
    assert!(world.enemy_spawn_nodes.is_empty());
    assert_eq!(manager.active_enemies.len(), 99);
    assert_eq!(manager.inactive_enemies.len(), 0);
    assert_eq!(manager.active_enemies[0].position.x, 1);
    assert_eq!(manager.active_enemies[9].position.x, 11);
}

#[test]
fn enemy_drain_stops_at_malformed_parameters_with_an_empty_queue() {
    let mut manager = EnemyManager::new();
    let mut world = World::new();
    world.request_enemy(EnemySpawnNode::new(0, 2, Vec2::new(0, 0), "rotation=0.2|"));
    world.request_enemy(EnemySpawnNode::new(0, 77, Vec2::new(0, 0), "ignored because the type is unknown"));
    world.request_enemy(EnemySpawnNode::new(0, 2, Vec2::new(0, 0), "bad"));
    world.request_enemy(EnemySpawnNode::new(0, 2, Vec2::new(0, 0), ""));
    match manager.spawn_enemies_from_queue(&bank(), &mut world, &assets()) {
        Err(e) => assert_eq!(e.token, "bad"),
        Ok(_) => panic!("malformed parameters were accepted"),
    }
    assert!(world.enemy_spawn_nodes.is_empty());
    assert_eq!(manager.active_enemies.len(), 1);
    assert_eq!(count(&manager), 99);
}

#[test]
fn sweep_keeps_the_order_of_the_survivors() {
    let assets = assets();
    let bank = bank();
    let mut world = World::new();
    let mut manager = EnemyManager::new();
    for i in 0..5 {
        assert!(matches!(
            manager.spawn_enemy(2, Vec2::new(i * 1000, -100_000), "", &bank, &mut world, &assets),
            Ok(true)
        ));
    }
    manager.active_enemies[1].health = 0;
    manager.active_enemies[4].active = false;
    for e in manager.active_enemies.iter_mut() {
        e.frame = e.position.x as u128 / 1000;
    }
    manager.update_active_enemies(Vec2::new(0, 0), &bank, &mut world, &assets);
    let left: Vec<u128> = manager.active_enemies.iter().map(|e| e.frame).collect();
    assert_eq!(left, vec![0, 2, 3]);
    assert_eq!(manager.inactive_enemies.len(), 96);
    assert_eq!(count(&manager), 99);
    assert!(manager.inactive_enemies.iter().all(|e| !e.active && e.frame == 0));
}

#[test]
fn hit_takes_health_down_to_zero_and_asks_for_a_splash() {
    let mut world = World::new();
    let mut enemy = Enemy::new();
    enemy.health = 3;
    enemy.radius = 20_000;
    enemy.position = Vec2::new(100_000, 0);
    enemy.get_hit(&mut world, Vec2::new(110_000, 0), 2);
    assert_eq!(enemy.health, 1);
    assert_eq!(enemy.hit_frame, 8);
    enemy.hit_frame = 3;
    enemy.get_hit(&mut world, Vec2::new(500_000, 0), 2);
    assert_eq!(enemy.health, 0);
    assert_eq!(enemy.hit_frame, 3);
    assert_eq!(world.particle_spawn_nodes.len(), 2);
    let near_hit = &world.particle_spawn_nodes[0];
    assert_eq!(near_hit.draw_layer, ParticleDrawLayer::Explosion);
    assert!((near_hit.position.x - 110_000).abs() <= 12_000);
    assert!(near_hit.position.y.abs() <= 12_000);
    assert!(near_hit.extra.starts_with("idle_animation=splash-"));
    assert!(near_hit.extra.ends_with("|scale=0.9|"));
    let on_enemy = &world.particle_spawn_nodes[1];
    assert!((on_enemy.position.x - 100_000).abs() <= 12_000);
}

#[test]
fn hit_on_the_rim_splashes_at_the_hit() {
    let mut world = World::new();
    let mut enemy = Enemy::new();
    enemy.health = 10;
    enemy.radius = 5000;
    enemy.position = Vec2::new(0, 0);
    enemy.get_hit(&mut world, Vec2::new(3000, 4000), 1);
    enemy.get_hit(&mut world, Vec2::new(3000, 4001), 1);
    let at_hit = world.particle_spawn_nodes[0].position;
    assert!((at_hit.x - 3000).abs() <= 12_000 && (at_hit.y - 4000).abs() <= 12_000);
    assert_eq!(enemy.health, 8);
}

#[test]
fn splash_is_made_from_its_draws() {
    let node = splash_particle(Vec2::new(1000, 2000), "1.6", 0, u32::MAX, 0, 2);
    assert_eq!(node.position, Vec2::new(13_000, -9_999));
    assert_eq!(node.extra, "idle_animation=splash-3|flip_x=1|scale=1.6|");
    assert_eq!(node.draw_layer, ParticleDrawLayer::Explosion);
    assert_eq!(node.particle_type_number, 1);
    let other = splash_particle(Vec2::new(0, 0), "0.5", 1 << 31, 1 << 31, 1, 7);
    assert_eq!(other.position, Vec2::new(0, 0));
    assert_eq!(other.extra, "idle_animation=splash-4|flip_x=0|scale=0.5|");
}

#[test]
fn enemy_bullet_is_aimed_at_its_target() {
    let mut world = World::new();
    Enemy::spawn_bullet(&mut world, Vec2::new(0, 0), Vec2::new(-50_000, 50_000), 1, 1000, 4000, "k=v|");
    assert_eq!(world.bullet_spawn_nodes.len(), 1);
    let node = &world.bullet_spawn_nodes[0];
    assert_eq!(node.owner_type, BulletOwner::ENEMY);
    assert_eq!(node.rotation, 375);
    assert_eq!(node.position, Vec2::new(0, 0));
    assert_eq!(node.speed, 1000);
    assert_eq!(node.radius, 4000);
    assert_eq!(node.extra, "k=v|");
}

#[test]
fn hit_test_counts_the_boundary() {
    let mut enemy = Enemy::new();
    enemy.radius = 20_000;
    enemy.position = Vec2::new(0, 0);
    assert_eq!(circle_hit(&enemy, Vec2::new(26_000, 0), 6000), HIT_WEAKPOINT);
    assert_eq!(circle_hit(&enemy, Vec2::new(26_001, 0), 6000), HIT_MISS);
    assert_eq!(circle_hit(&enemy, Vec2::new(0, 0), 6000), HIT_WEAKPOINT);
    let bank = bank();
    enemy.enemy_type = 2;
    assert_eq!(enemy.hit_check(&bank, Vec2::new(0, -26_000), 6000), HIT_WEAKPOINT);
    enemy.enemy_type = 0;
    assert_eq!(enemy.hit_check(&bank, Vec2::new(0, 0), 6000), HIT_MISS);
    enemy.enemy_type = 55;
    assert_eq!(enemy.hit_check(&bank, Vec2::new(0, 0), 6000), HIT_MISS);
}

#[test]
fn clocks_and_parities() {
    assert_eq!(tick_up(0), 16);
    assert_eq!(tick_up(u128::MAX - 15), 0);
    assert_eq!(tick_up(u128::MAX - 16), u128::MAX);
    assert!(odd(1) && odd(7) && !odd(0) && !odd(2) && !odd(-1) && !odd(-3));
    assert!(even(0) && even(2) && even(-2) && !even(1) && !even(-1) && even(i32::MIN));
    for _ in 0..200 {
        let wait = random_weapon_tick();
        assert!((2500..3500).contains(&wait));
    }
}

#[test]
fn random_targets_lie_in_the_upper_part_of_the_screen() {
    let camera = Vec2::new(960_000, -72_000);
    let mut enemy = Enemy::new();
    enemy.target_position.push(Vec2::new(1, 1));
    random_target_position(&mut enemy, camera);
    assert_eq!(enemy.target_position.len(), 3);
    for p in &enemy.target_position {
        assert!(is_inside_camera_area(camera, *p, 0));
        assert!(p.y < -72_000);
    }
}

#[test]
fn bank_holds_the_behaviours_asked_for() {
    let mut bank = EnemyTypeBank::new();
    bank.setup(&assets(), &vec![1, 3, 9, -1]);
    assert!(bank.get(0).is_none());
    assert_eq!(bank.get(1).unwrap().enemy_type_id(), 1);
    assert!(bank.get(2).is_none());
    assert_eq!(bank.get(3).unwrap().enemy_type_id(), 3);
    assert!(bank.get(9).is_none());
    bank.add(EnemyType::CrawlingPopCorn(CrawlingPopCornEnemyType::new(&assets())));
    assert_eq!(bank.get(2).unwrap().enemy_type_id(), 2);
    bank.clear();
    assert!(bank.get(1).is_none());
}

#[test]
fn spawner_releases_its_queue_and_goes_out() {
    let assets = assets();
    let spawner = SpawnerEnemyType::new(&assets);
    let mut world = World::new();
    let mut enemy = Enemy::new();
    enemy.position = Vec2::new(480_000, -28_000);
    assert!(enemy
        .parsing_extra("spawn_time=32|spawn_interval=40|spawn_queue=12|idle_animation=enemy-spawner-1-idle|spawning_animation=enemy-spawner-1-spawning|scale=1.2|flip_x=1|")
        .is_ok());
    spawner.init(&mut enemy, &assets);
    assert!(enemy.active);
    assert_eq!(enemy.enemy_type, 0);
    assert_eq!(enemy.radius, 32_000);
    assert_eq!(enemy.health, 100_000);
    assert_eq!(enemy.weapon_tick, 32);
    assert_eq!(enemy.sprite.scale, Vec2::new(-1200, 1200));
    assert_eq!(enemy.sprite.get_current_animation_name(), "enemy-spawner-1-idle");

    spawner.update(&mut enemy, &mut world, &assets);
    assert_eq!(enemy.weapon_tick, 16);
    assert!(world.enemy_spawn_nodes.is_empty());

    spawner.update(&mut enemy, &mut world, &assets);
    assert_eq!(enemy.weapon_tick, 0);
    assert_eq!(enemy.sprite.get_current_animation_name(), "enemy-spawner-1-spawning");
    assert_eq!(world.enemy_spawn_nodes.len(), 1);
    assert_eq!(world.enemy_spawn_nodes[0].enemy_type, 1);
    assert_eq!(world.enemy_spawn_nodes[0].delay, 0);
    assert_eq!(world.enemy_spawn_nodes[0].extra, "");
    let place = world.enemy_spawn_nodes[0].position;
    assert!((place.x - 480_000).abs() <= 8000);
    assert!(place.y <= -28_000 - 24_000 + 8000 && place.y > -28_000 - 24_000 - 8000);
    assert_eq!(world.particle_spawn_nodes.len(), 3);
    assert!(world.play_sound_nodes.contains_key("spawner"));
    assert_eq!(enemy.tick, 40);
    assert_eq!(enemy.extra.text_or_empty("spawn_queue"), "2");
    assert!(enemy.active);

    spawner.update(&mut enemy, &mut world, &assets);
    assert_eq!(enemy.tick, 24);
    spawner.update(&mut enemy, &mut world, &assets);
    assert_eq!(enemy.tick, 8);
    spawner.update(&mut enemy, &mut world, &assets);
    assert_eq!(enemy.tick, 0);
    assert_eq!(world.enemy_spawn_nodes.len(), 1);

    spawner.update(&mut enemy, &mut world, &assets);
    assert_eq!(world.enemy_spawn_nodes.len(), 2);
    assert_eq!(world.enemy_spawn_nodes[1].enemy_type, 2);
    assert_eq!(enemy.extra.text_or_empty("spawn_queue"), "");
    assert!(enemy.active);

    for _ in 0..3 {
        spawner.update(&mut enemy, &mut world, &assets);
    }
    assert!(enemy.active);
    spawner.update(&mut enemy, &mut world, &assets);
    assert!(!enemy.active);
    assert_eq!(world.enemy_spawn_nodes.len(), 2);
    assert_eq!(spawner.hit_check(&enemy, enemy.position, 1000), HIT_MISS);
}

#[test]
fn spawner_without_idle_animation_or_spawn_time_does_not_live() {
    let assets = assets();
    let spawner = SpawnerEnemyType::new(&assets);
    let mut world = World::new();
    let mut enemy = Enemy::new();
    spawner.init(&mut enemy, &assets);
    assert!(!enemy.active);
    assert_eq!(enemy.weapon_tick, 123_456);
    assert_eq!(enemy.sprite.scale, Vec2::new(2500, 2500));
    spawner.update(&mut enemy, &mut world, &assets);
    assert_eq!(enemy.health, 0);
    assert_eq!(enemy.weapon_tick, 123_456);
    let mut other = Enemy::new();
    assert!(other.parsing_extra("idle_animation=missing|spawn_time=x|").is_ok());
    spawner.init(&mut other, &assets);
    assert!(!other.active);
    assert_eq!(other.weapon_tick, 123_456);
}

#[test]
fn spawner_with_a_zero_in_its_queue_goes_out() {
    let assets = assets();
    let spawner = SpawnerEnemyType::new(&assets);
    let mut world = World::new();
    let mut enemy = Enemy::new();
    assert!(enemy.parsing_extra("spawn_time=0|spawn_queue=0111|idle_animation=enemy-spawner-1-idle|").is_ok());
    spawner.init(&mut enemy, &assets);
    assert!(enemy.active);
    spawner.update(&mut enemy, &mut world, &assets);
    assert!(!enemy.active);
    assert!(world.enemy_spawn_nodes.is_empty());
    assert_eq!(enemy.extra.text_or_empty("spawn_queue"), "111");
}

#[test]
fn flying_enemy_fires_at_its_target_and_drifts() {
    let assets = assets();
    let flying = FlyingPopCornEnemyType::new(&assets);
    let mut world = World::new();
    world.camera_position = Vec2::new(480_000, -72_000);
    let mut enemy = Enemy::new();
    enemy.position = Vec2::new(400_000, -100_000);
    flying.init(&mut enemy, world.camera_position, &assets);
    assert!(enemy.active);
    assert_eq!(enemy.enemy_type, 1);
    assert_eq!(enemy.health, 5);
    assert_eq!(enemy.radius, 8000);
    assert_eq!(enemy.maximum_tick, 3000);
    assert!((2500..3500).contains(&enemy.weapon_tick));
    assert_eq!(enemy.state, 0);
    assert_eq!(enemy.target_position.len(), 3);
    assert_eq!(enemy.sprite.scale, Vec2::new(1400, 1400));
    assert!(!enemy.sprite.is_loop());

    enemy.weapon_tick = 20;
    enemy.target_position = vec![Vec2::new(500_000, -100_000)];
    let target = Vec2::new(400_000, 0);
    flying.update(&mut enemy, target, &mut world, &assets);
    assert_eq!(enemy.weapon_tick, 4);
    assert_eq!(enemy.tick, 16);
    assert!(world.bullet_spawn_nodes.is_empty());
    assert_eq!(enemy.position, Vec2::new(401_000, -100_000));
    flying.update(&mut enemy, target, &mut world, &assets);
    assert!((2500..3500).contains(&enemy.weapon_tick));
    assert_eq!(world.bullet_spawn_nodes.len(), 1);
    let shot = &world.bullet_spawn_nodes[0];
    assert_eq!(shot.position, Vec2::new(401_000, -100_000));
    assert_eq!(shot.owner_type, BulletOwner::ENEMY);
    assert_eq!(shot.speed, 1000);
    assert_eq!(shot.radius, 4000);
    assert!(shot.rotation > 245 && shot.rotation <= 255);
    assert!(shot.extra.contains("kill_animation=enemy-bullet-1-kill"));
    assert_eq!(enemy.position, Vec2::new(401_990, -100_000));
}

#[test]
fn flying_enemy_enters_on_its_side_and_turns_after_its_greatest_tick() {
    let assets = assets();
    let flying = FlyingPopCornEnemyType::new(&assets);
    let mut world = World::new();
    let mut right = Enemy::new();
    right.position = Vec2::new(10, 0);
    flying.init(&mut right, Vec2::new(0, 0), &assets);
    assert_eq!(right.state, 1);
    right.tick = 2990;
    right.target_position.clear();
    flying.update(&mut right, Vec2::new(0, 0), &mut world, &assets);
    assert_eq!(right.tick, 0);
    assert_eq!(right.state, 2);
    assert_eq!(right.target_position.len(), 3);
}

#[test]
fn flying_enemy_changes_to_idle_after_its_entrance() {
    let assets = assets();
    let bank = bank();
    let mut world = World::new();
    let mut manager = EnemyManager::new();
    assert!(matches!(manager.spawn_enemy(1, Vec2::new(0, 0), "", &bank, &mut world, &assets), Ok(true)));
    assert_eq!(manager.active_enemies[0].sprite.get_current_animation_name(), "enemy-flying-spawn");
    for _ in 0..12 {
        manager.update_active_enemies(Vec2::new(0, 0), &bank, &mut world, &assets);
    }
    assert_eq!(manager.active_enemies[0].sprite.get_current_animation_name(), "enemy-flying-idle");
    assert!(manager.active_enemies[0].sprite.is_loop());
}

#[test]
fn crawler_falls_lands_and_patrols() {
    let assets = assets();
    let crawler = CrawlingPopCornEnemyType::new(&assets);
    let mut enemy = Enemy::new();
    enemy.position = Vec2::new(0, -11_000);
    assert!(enemy.parsing_extra("rotation=0.35|").is_ok());
    crawler.init(&mut enemy, &assets);
    assert!(enemy.active);
    assert_eq!(enemy.enemy_type, 2);
    assert_eq!(enemy.health, 40);
    assert_eq!(enemy.radius, 20_000);
    assert_eq!(enemy.rotation, 350);
    assert!((800..1600).contains(&enemy.weapon_tick));
    assert_eq!(enemy.sprite.scale, Vec2::new(2000, 2000));

    enemy.weapon_tick = 600;
    let target = Vec2::new(100_000, 0);
    crawler.update(&mut enemy, target, &assets);
    // In the air with the clock above the fall time: against its direction.
    assert_eq!(enemy.state, 0);
    assert_eq!(enemy.position.y, -11_000 - 4 * 807);
    assert_eq!(enemy.position.x, 4 * -587);
    assert_eq!(enemy.weapon_tick, 584);
    assert!(enemy.sprite.is_flipped_x());

    enemy.weapon_tick = 0;
    enemy.position = Vec2::new(0, -11_500);
    crawler.update(&mut enemy, target, &assets);
    // Falling by two pixels brings it within the ground margin: it lands.
    assert_eq!(enemy.position.y, -9_500);
    assert_eq!(enemy.state, 1);
    assert_eq!(enemy.rotation, 50);
    assert_eq!(enemy.weapon_tick, 1484);
    assert_eq!(enemy.position.x, 4 * 950);
    assert_eq!(enemy.sprite.get_current_animation_name(), "enemy-crawler-idle");
    assert!(!enemy.sprite.is_flipped_x());

    let x = enemy.position.x;
    crawler.update(&mut enemy, target, &assets);
    assert_eq!(enemy.position.x, x + 950 * 2 * 1484 / 1000);
    assert_eq!(enemy.weapon_tick, 1468);

    enemy.weapon_tick = 0;
    enemy.position.x = 200_000;
    crawler.update(&mut enemy, target, &assets);
    assert_eq!(enemy.position.x, 200_000);
    assert_eq!(enemy.rotation, 450);
    assert_eq!(enemy.weapon_tick, 1484);
    assert!(enemy.sprite.is_flipped_x());
    assert_eq!(crawler.hit_check(&enemy, Vec2::new(200_000, -9_500), 0), HIT_WEAKPOINT);
}

#[test]
fn crawler_never_falls_below_the_floor() {
    let assets = assets();
    let crawler = CrawlingPopCornEnemyType::new(&assets);
    let mut enemy = Enemy::new();
    crawler.init(&mut enemy, &assets);
    enemy.weapon_tick = 100;
    enemy.position = Vec2::new(0, -500);
    enemy.state = 0;
    crawler.update(&mut enemy, Vec2::new(0, 0), &assets);
    assert_eq!(enemy.position.y, 0);
}

#[test]
fn crawler_without_its_animation_does_not_live() {
    let empty = ImageAssets::new(Vec::new());
    let crawler = CrawlingPopCornEnemyType::new(&empty);
    let mut enemy = Enemy::new();
    crawler.init(&mut enemy, &empty);
    assert!(!enemy.active);
    assert_eq!(enemy.rotation, 0);
}

#[test]
fn boss_cycles_through_its_phases() {
    let assets = assets();
    let boss = BossEnemyType::new(&assets);
    let mut world = World::new();
    let mut enemy = Enemy::new();
    enemy.position = Vec2::new(0, -96_000);
    boss.init(&mut enemy, &mut world, &assets);
    assert!(enemy.active);
    assert_eq!(enemy.enemy_type, 3);
    assert_eq!(enemy.health, 300);
    assert_eq!(enemy.radius, 24_000);
    assert_eq!(enemy.maximum_tick, 2000);
    assert!(world.play_sound_nodes.contains_key("boss_enter"));
    assert_eq!(enemy.target_position.len(), 3);
    assert_eq!(enemy.sprite.get_current_animation_name(), "enemy-boss-idle");
    let target = Vec2::new(0, 0);
    let mut seen = vec![enemy.state];
    for _ in 0..1000 {
        let before = enemy.state;
        boss.update(&mut enemy, target, &mut world);
        if enemy.state != before {
            seen.push(enemy.state);
            assert_eq!(enemy.frame, 0);
        }
    }
    assert!(seen.len() >= 4);
    for pair in seen.windows(2) {
        assert_eq!(pair[1], (pair[0] + 1) % 3);
    }
    assert!(!world.enemy_spawn_nodes.is_empty());
    assert!(!world.bullet_spawn_nodes.is_empty());
    assert_eq!(world.bullet_spawn_nodes.len() % 2, 0);
    for node in &world.enemy_spawn_nodes {
        assert_eq!(node.delay, 0);
        assert!(node.enemy_type == 1 || node.enemy_type == 2);
        assert!(node.extra.starts_with("rotation=0."));
        assert!(node.extra.ends_with('|'));
        let turn = &node.extra["rotation=".len()..node.extra.len() - 1];
        let value = parse_permille(turn).unwrap();
        assert!((0..1000).contains(&value));
    }
    assert!(world.play_sound_nodes.contains_key("boss_spawn"));
}

#[test]
fn boss_calls_helpers_when_its_clock_runs_out_in_the_second_phase() {
    let assets = assets();
    let boss = BossEnemyType::new(&assets);
    let mut world = World::new();
    let mut enemy = Enemy::new();
    enemy.position = Vec2::new(0, -96_000);
    boss.init(&mut enemy, &mut world, &assets);
    enemy.state = 1;
    enemy.weapon_tick = 10;
    enemy.target_position.clear();
    boss.update(&mut enemy, Vec2::new(0, 0), &mut world);
    assert_eq!(enemy.state, 2);
    assert_eq!(enemy.frame, 0);
    assert!((2500..3500).contains(&enemy.weapon_tick));
    let helpers = world.enemy_spawn_nodes.len();
    assert!(helpers == 1 || helpers == 3);
    let kind = if helpers == 1 { 2 } else { 1 };
    let place = world.enemy_spawn_nodes[0].position;
    assert!(place.x.abs() <= 8000);
    assert!((place.y - (-96_000 + 48_000)).abs() <= 8000);
    for node in &world.enemy_spawn_nodes {
        assert_eq!(node.enemy_type, kind);
        assert_eq!(node.position, place);
    }
    assert_eq!(world.particle_spawn_nodes.len(), 2);
    assert!(world.particle_spawn_nodes[0].extra.ends_with("|scale=2.5|"));
}

#[test]
fn boss_fires_a_volley_every_fifteenth_tick() {
    let assets = assets();
    let boss = BossEnemyType::new(&assets);
    let mut world = World::new();
    let mut enemy = Enemy::new();
    enemy.position = Vec2::new(0, -96_000);
    boss.init(&mut enemy, &mut world, &assets);
    enemy.state = 2;
    enemy.weapon_tick = 100_000;
    enemy.frame = 0;
    enemy.target_position.clear();
    for tick in 1..=45 {
        boss.update(&mut enemy, Vec2::new(0, 0), &mut world);
        assert_eq!(world.bullet_spawn_nodes.len(), 2 * (tick / 15));
    }
    assert_eq!(world.bullet_spawn_nodes[0].position, Vec2::new(28_000, -100_000));
    assert_eq!(world.bullet_spawn_nodes[1].position, Vec2::new(32_000, -112_000));
    enemy.frame = 400;
    boss.update(&mut enemy, Vec2::new(0, 0), &mut world);
    assert_eq!(world.bullet_spawn_nodes.len(), 6);
    enemy.frame = 449;
    boss.update(&mut enemy, Vec2::new(0, 0), &mut world);
    assert_eq!(enemy.frame, 450);
    boss.update(&mut enemy, Vec2::new(0, 0), &mut world);
    assert_eq!(enemy.frame, 0);
}

#[test]
fn boss_dies_with_four_splashes() {
    let assets = assets();
    let bank = bank();
    let mut world = World::new();
    let mut manager = EnemyManager::new();
    assert!(matches!(manager.spawn_enemy(3, Vec2::new(0, -96_000), "", &bank, &mut world, &assets), Ok(true)));
    manager.active_enemies[0].health = 0;
    world.particle_spawn_nodes.clear();
    manager.update_active_enemies(Vec2::new(0, 0), &bank, &mut world, &assets);
    assert!(manager.active_enemies.is_empty());
    assert_eq!(world.particle_spawn_nodes.len(), 5);
    assert!(world.particle_spawn_nodes[0].extra.ends_with("|scale=1.6|"));
    assert!(world.particle_spawn_nodes[4].extra.ends_with("|scale=3.5|"));
    assert!(world.play_sound_nodes.contains_key("boss_explode"));
}

#[test]
fn boss_calls_one_crawler_or_three_flying_enemies_by_its_draw() {
    let place = Vec2::new(100_000, -50_000);
    for (kind, count, enemy_type) in
        [(0u32, 1usize, 2), (1, 3, 1), (2, 3, 1), (3, 1, 2), (u32::MAX, 1, 2), (u32::MAX - 1, 3, 1)]
    {
        let mut world = World::new();
        world.request_enemy(EnemySpawnNode::new(7, 0, Vec2::new(1, 2), "kept=1|"));
        call_helpers(&mut world, place, kind);
        assert_eq!(world.enemy_spawn_nodes.len(), 1 + count);
        assert_eq!(world.enemy_spawn_nodes[0].delay, 7);
        for node in &world.enemy_spawn_nodes[1..] {
            assert_eq!(node.enemy_type, enemy_type);
            assert_eq!(node.position, place);
            assert_eq!(node.delay, 0);
            assert!(node.extra.starts_with("rotation=0."));
            assert!(node.extra.ends_with('|'));
            assert_eq!(node.extra.len(), "rotation=0.000|".len());
        }
        assert!(world.bullet_spawn_nodes.is_empty());
        assert!(world.particle_spawn_nodes.is_empty());
    }
}
