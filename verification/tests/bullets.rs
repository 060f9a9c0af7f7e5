use one_man::gameplay::bullet_pool::{
    activate_bullet, is_pointing_left, Bullet, BulletOwner, BulletPool, BulletSpawnNode,
    BulletType, BulletTypeBank,
};
use one_man::gameplay::bullet_types::constant_velocity::ConstantVelocityBulletType;
use one_man::gameplay::particle_manager::ParticleDrawLayer;
use one_man::gameplay::utils::Vec2;
use one_man::gameplay::world::World;
use one_man::image_assets::ImageAssets;

fn assets() -> ImageAssets {
    let mut assets = ImageAssets::new(Vec::new());
    assets.add("tex");
    assets.load_animations(&vec![(
        "player-bullet-idle".to_string(),
        vec!["tex".to_string(), "tex".to_string()],
        18,
    )]);
    assets
}

fn bank() -> BulletTypeBank {
    let mut bank = BulletTypeBank::new();
    bank.setup(&assets());
    bank
}

fn request(owner: BulletOwner, extra: &str) -> BulletSpawnNode {
    BulletSpawnNode {
        bullet_type: 1,
        position: Vec2::new(10_000, -20_000),
        owner_type: owner,
        rotation: 0,
        speed: 10_000,
        radius: 6000,
        extra: extra.to_string(),
    }
}

fn places(pool: &BulletPool, tag: &str) -> usize {
    let lists = [
        &pool.pool,
        &pool.player_active_bullets,
        &pool.enemy_active_bullets,
        &pool.spawned_bullet_list,
    ];
    lists.iter().flat_map(|l| l.iter()).filter(|b| b.extra.text_or_empty("tag") == tag).count()
}

fn held(pool: &BulletPool) -> usize {
    pool.pool.len()
        + pool.player_active_bullets.len()
        + pool.enemy_active_bullets.len()
        + pool.spawned_bullet_list.len()
}

#[test]
fn pool_of_three_is_used_up_and_refilled() {
    let mut pool = BulletPool::new(3);
    assert_eq!(pool.pool.len(), 3);
    let a = pool.pop();
    let b = pool.pop();
    let c = pool.pop();
    assert!(a.is_some() && b.is_some() && c.is_some());
    assert_eq!(pool.pool.len(), 0);
    assert!(pool.pop().is_none());
    pool.push(a.unwrap());
    assert_eq!(pool.pool.len(), 1);
    assert!(pool.pop().is_some());
    assert!(pool.pop().is_none());
}

#[test]
fn new_pool_holds_blank_bullets() {
    let pool = BulletPool::new(5);
    assert_eq!(pool.pool.len(), 5);
    assert!(pool.player_active_bullets.is_empty());
    assert!(pool.enemy_active_bullets.is_empty());
    assert!(pool.spawned_bullet_list.is_empty());
    for b in &pool.pool {
        assert!(!b.active);
        assert_eq!(b.health, 1);
        assert_eq!(b.damage, 1);
        assert_eq!(b.radius, 1000);
        assert_eq!(b.owner_type, BulletOwner::NONE);
    }
    assert!(BulletPool::new(0).pool.is_empty());
    assert!(BulletPool::new(-4).pool.is_empty());
}

#[test]
fn released_bullet_is_reset() {
    let mut pool = BulletPool::new(1);
    let mut b = pool.pop().unwrap();
    b.active = true;
    b.health = 7;
    b.position = Vec2::new(5, 5);
    b.extra.insert("k".to_string(), "v".to_string());
    pool.push(b);
    let b = &pool.pool[0];
    assert!(!b.active);
    assert_eq!(b.health, 1);
    assert_eq!(b.position, Vec2::new(0, 0));
    assert!(!b.extra.contains_key("k"));
}

#[test]
fn several_bullets_are_taken_at_once() {
    let mut pool = BulletPool::new(5);
    assert_eq!(pool.pops(2).len(), 2);
    assert_eq!(pool.pool.len(), 3);
    assert_eq!(pool.pops(0).len(), 0);
    assert_eq!(pool.pops(10).len(), 3);
    assert_eq!(pool.pool.len(), 0);
    assert_eq!(pool.pops(1).len(), 0);
}

#[test]
fn low_pool_is_reported() {
    let mut pool = BulletPool::new(10);
    assert!(!pool.almost_exhausted());
    let b = pool.pop().unwrap();
    assert!(pool.almost_exhausted());
    pool.push(b);
    assert!(!pool.almost_exhausted());
}

#[test]
fn clear_makes_all_bullets_anew() {
    let mut pool = BulletPool::new(4);
    let mut world = World::new();
    world.request_bullet(request(BulletOwner::PLAYER(1), ""));
    world.request_bullet(request(BulletOwner::ENEMY, ""));
    assert!(pool.spawn_bullets_from_queue(&mut world, &mut bank(), &assets()).is_ok());
    assert_eq!(pool.pool.len(), 2);
    let lent = pool.pop();
    assert!(lent.is_some());
    pool.clear();
    assert_eq!(pool.pool.len(), 4);
    assert!(pool.player_active_bullets.is_empty());
    assert!(pool.enemy_active_bullets.is_empty());
    assert_eq!(held(&pool), 4);
}

#[test]
fn bullets_go_where_their_owners_say() {
    let mut pool = BulletPool::new(6);
    let mut world = World::new();
    world.request_bullet(request(BulletOwner::PLAYER(1), "tag=a|"));
    world.request_bullet(request(BulletOwner::ENEMY, "tag=b|"));
    world.request_bullet(request(BulletOwner::NONE, "tag=c|"));
    world.request_bullet(request(BulletOwner::PLAYER(2), "tag=d|"));
    assert!(pool.spawn_bullets_from_queue(&mut world, &mut bank(), &assets()).is_ok());
    assert!(world.bullet_spawn_nodes.is_empty());
    assert_eq!(pool.player_active_bullets.len(), 2);
    assert_eq!(pool.enemy_active_bullets.len(), 1);
    assert_eq!(pool.pool.len(), 3);
    assert!(pool.spawned_bullet_list.is_empty());
    assert_eq!(held(&pool), 6);
    assert_eq!(pool.player_active_bullets[0].extra.text_or_empty("tag"), "d");
    assert_eq!(pool.player_active_bullets[1].extra.text_or_empty("tag"), "a");
    assert_eq!(pool.enemy_active_bullets[0].extra.text_or_empty("tag"), "b");
    assert_eq!(pool.player_active_bullets[0].owner_type, BulletOwner::PLAYER(2));
    assert!(!pool.pool[2].active);
    assert!(!pool.pool[2].extra.contains_key("tag"));
    assert_eq!(world.particle_spawn_nodes.len(), 4);
}

#[test]
fn each_bullet_is_in_one_list_only() {
    let mut pool = BulletPool::new(6);
    let mut world = World::new();
    for (owner, tag) in [
        (BulletOwner::PLAYER(1), "tag=a|"),
        (BulletOwner::ENEMY, "tag=b|"),
        (BulletOwner::NONE, "tag=c|"),
        (BulletOwner::ENEMY, "tag=d|"),
    ] {
        world.request_bullet(request(owner, tag));
    }
    assert!(pool.spawn_bullets_from_queue(&mut world, &mut bank(), &assets()).is_ok());
    assert_eq!(places(&pool, "a"), 1);
    assert_eq!(places(&pool, "b"), 1);
    assert_eq!(places(&pool, "d"), 1);
    assert_eq!(places(&pool, "c"), 0);
    assert_eq!(held(&pool), 6);
    pool.update_active_enemies_bullets(&bank(), Vec2::new(5_000_000, 0));
    pool.update_active_player_bullets(&bank(), Vec2::new(5_000_000, 0));
    assert_eq!(held(&pool), 6);
    for tag in ["a", "b", "d"] {
        assert!(places(&pool, tag) <= 1);
    }
}

#[test]
fn bullet_drain_empties_the_queue_when_the_pool_runs_out() {
    let mut pool = BulletPool::new(2);
    let mut world = World::new();
    for _ in 0..5 {
        world.request_bullet(request(BulletOwner::ENEMY, ""));
    }
    assert!(pool.spawn_bullets_from_queue(&mut world, &mut bank(), &assets()).is_ok());
    assert!(world.bullet_spawn_nodes.is_empty());
    assert_eq!(pool.enemy_active_bullets.len(), 2);
    assert_eq!(pool.pool.len(), 0);
    assert_eq!(held(&pool), 2);
    assert_eq!(world.particle_spawn_nodes.len(), 2);
    assert!(pool.spawn_bullets_from_queue(&mut world, &mut bank(), &assets()).is_ok());
    assert_eq!(pool.enemy_active_bullets.len(), 2);
}

#[test]
fn drain_with_malformed_parameters_is_an_error_and_loses_nothing() {
    let mut pool = BulletPool::new(4);
    let mut world = World::new();
    world.request_bullet(request(BulletOwner::ENEMY, "a=1|"));
    world.request_bullet(request(BulletOwner::ENEMY, "oops|"));
    world.request_bullet(request(BulletOwner::ENEMY, "b=2|"));
    let outcome = pool.spawn_bullets_from_queue(&mut world, &mut bank(), &assets());
    match outcome {
        Ok(_) => panic!("malformed parameters were accepted"),
        Err(e) => assert_eq!(e.token, "oops"),
    }
    assert!(world.bullet_spawn_nodes.is_empty());
    assert!(pool.spawned_bullet_list.is_empty());
    assert_eq!(pool.enemy_active_bullets.len(), 1);
    assert_eq!(held(&pool), 4);
}

#[test]
fn activation_arms_and_sets_up_the_bullet() {
    let mut bullet = Bullet::new();
    bullet.health = 9;
    bullet.extra.insert("stale".to_string(), "x".to_string());
    let mut world = World::new();
    let mut node = request(
        BulletOwner::PLAYER(1),
        "idle_animation=player-bullet-idle|firing_animation=bang|scale=1.8|",
    );
    node.rotation = 400;
    let outcome = activate_bullet(&mut bullet, &node, &mut bank(), &assets(), &mut world, 0, 1 << 31);
    assert!(outcome.is_ok());
    assert!(bullet.active);
    assert_eq!(bullet.bullet_type, 1);
    assert_eq!(bullet.owner_type, BulletOwner::PLAYER(1));
    assert_eq!(bullet.position, Vec2::new(10_000, -20_000));
    assert_eq!(bullet.rotation, 400);
    assert_eq!(bullet.speed, 10_000);
    assert_eq!(bullet.radius, 6000);
    assert_eq!(bullet.life_time, 100);
    assert_eq!(bullet.health, 2);
    assert_eq!(bullet.damage, 1);
    assert_eq!(bullet.sprite.scale, Vec2::new(1800, 1800));
    assert_eq!(bullet.sprite.get_current_animation_name(), "player-bullet-idle");
    assert_eq!(bullet.sprite.get_total_frames(), 2);
    assert!(!bullet.extra.contains_key("stale"));
    assert_eq!(world.particle_spawn_nodes.len(), 1);
    let effect = &world.particle_spawn_nodes[0];
    assert_eq!(effect.particle_type_number, 1);
    assert_eq!(effect.draw_layer, ParticleDrawLayer::FiringBullet);
    assert_eq!(effect.position, Vec2::new(18_000, -20_000));
    assert_eq!(effect.extra, "idle_animation=bang|flip_x=1|scale=2.5|");
}

#[test]
fn activation_without_known_type_leaves_the_bullet_armed() {
    let mut bullet = Bullet::new();
    let mut world = World::new();
    let mut node = request(BulletOwner::ENEMY, "");
    node.bullet_type = 99;
    let mut empty = BulletTypeBank::new();
    assert!(activate_bullet(&mut bullet, &node, &mut empty, &assets(), &mut world, 5, 5).is_ok());
    assert!(bullet.active);
    assert_eq!(bullet.life_time, 0);
    assert_eq!(bullet.health, 1);
    assert_eq!(bullet.sprite.scale, Vec2::new(1000, 1000));
    assert_eq!(world.particle_spawn_nodes[0].extra, "idle_animation=|flip_x=0|scale=2.5|");
}

#[test]
fn activation_with_malformed_parameters_leaves_a_blank_bullet() {
    let mut bullet = Bullet::new();
    let mut world = World::new();
    let node = request(BulletOwner::ENEMY, "a=1|b|");
    let outcome = activate_bullet(&mut bullet, &node, &mut bank(), &assets(), &mut world, 5, 5);
    assert!(outcome.is_err());
    assert!(!bullet.active);
    assert_eq!(bullet.position, Vec2::new(0, 0));
    assert!(!bullet.extra.contains_key("a"));
    assert!(world.particle_spawn_nodes.is_empty());
}

#[test]
fn directions_point_left_between_the_quarters() {
    assert!(!is_pointing_left(0));
    assert!(!is_pointing_left(250));
    assert!(is_pointing_left(251));
    assert!(is_pointing_left(500));
    assert!(is_pointing_left(749));
    assert!(!is_pointing_left(750));
    assert!(is_pointing_left(-500));
    assert!(!is_pointing_left(-250));
    assert!(is_pointing_left(-251));
    assert!(!is_pointing_left(-100));
}

#[test]
fn bullet_flies_straight_on() {
    let flight = ConstantVelocityBulletType::new();
    assert_eq!(flight.bullet_type_id(), 1);
    let mut bullet = Bullet::new();
    bullet.position = Vec2::new(1000, 1000);
    bullet.rotation = 0;
    bullet.speed = 10_000;
    flight.update(&mut bullet);
    assert_eq!(bullet.position, Vec2::new(11_000, 1000));
    bullet.rotation = 250;
    flight.update(&mut bullet);
    assert_eq!(bullet.position, Vec2::new(11_000, 11_000));
    bullet.rotation = 125;
    bullet.speed = 1000;
    flight.update(&mut bullet);
    assert_eq!(bullet.position, Vec2::new(11_705, 11_705));
}

#[test]
fn bullet_outside_the_screen_runs_out_of_life() {
    let bank = bank();
    let camera = Vec2::new(0, 0);
    let mut bullet = Bullet::new();
    bullet.active = true;
    bullet.bullet_type = 1;
    bullet.life_time = 100;
    bullet.health = 2;
    bullet.radius = 6000;
    bullet.speed = 10_000;
    bullet.position = Vec2::new(230_000, 0);
    bullet.update(&bank, camera);
    assert_eq!(bullet.previous_position, Vec2::new(230_000, 0));
    assert_eq!(bullet.position, Vec2::new(240_000, 0));
    assert_eq!(bullet.life_time, 100);
    bullet.update(&bank, camera);
    assert_eq!(bullet.position, Vec2::new(250_000, 0));
    assert_eq!(bullet.life_time, 84);
    assert!(bullet.active);
    for _ in 0..5 {
        bullet.update(&bank, camera);
    }
    assert_eq!(bullet.life_time, 4);
    assert!(bullet.active);
    bullet.update(&bank, camera);
    assert_eq!(bullet.life_time, 0);
    assert!(!bullet.active);
}

#[test]
fn bullet_without_health_goes_out() {
    let bank = bank();
    let mut bullet = Bullet::new();
    bullet.active = true;
    bullet.bullet_type = 1;
    bullet.life_time = 100;
    bullet.health = 0;
    bullet.update(&bank, Vec2::new(0, 0));
    assert!(!bullet.active);
}

#[test]
fn bullet_of_unknown_type_stays_where_it_is() {
    let bank = bank();
    let mut bullet = Bullet::new();
    bullet.active = true;
    bullet.bullet_type = 5;
    bullet.life_time = 100;
    bullet.speed = 10_000;
    bullet.position = Vec2::new(3, 4);
    bullet.update(&bank, Vec2::new(0, 0));
    assert_eq!(bullet.position, Vec2::new(3, 4));
    assert!(bullet.active);
}

#[test]
fn sweep_returns_spent_bullets_to_the_pool() {
    let bank = bank();
    let mut pool = BulletPool::new(5);
    let mut world = World::new();
    for i in 0..4 {
        let mut node = request(BulletOwner::PLAYER(1), "");
        node.position = Vec2::new(i * 1000, 0);
        world.request_bullet(node);
    }
    assert!(pool.spawn_bullets_from_queue(&mut world, &mut bank_mut(), &assets()).is_ok());
    assert_eq!(pool.player_active_bullets.len(), 4);
    pool.player_active_bullets[1].health = 0;
    pool.player_active_bullets[3].health = 0;
    let keep_first = pool.player_active_bullets[0].position.x;
    let keep_second = pool.player_active_bullets[2].position.x;
    pool.update_active_player_bullets(&bank, Vec2::new(0, 0));
    assert_eq!(pool.player_active_bullets.len(), 2);
    assert_eq!(pool.player_active_bullets[0].position.x, keep_first + 10_000);
    assert_eq!(pool.player_active_bullets[1].position.x, keep_second + 10_000);
    assert_eq!(pool.pool.len(), 3);
    assert!(!pool.pool[1].active && !pool.pool[2].active);
    assert_eq!(pool.pool[2].health, 1);
    assert_eq!(held(&pool), 5);
    pool.update_active_enemies_bullets(&bank, Vec2::new(0, 0));
    assert_eq!(held(&pool), 5);
}

fn bank_mut() -> BulletTypeBank {
    bank()
}

#[test]
fn bullet_bank_keeps_one_behaviour_for_each_number() {
    let mut bank = BulletTypeBank::new();
    assert!(bank.get(1).is_none());
    bank.add(7, BulletType::ConstantVelocity(ConstantVelocityBulletType::new()));
    bank.add(7, BulletType::ConstantVelocity(ConstantVelocityBulletType::new()));
    assert!(bank.get(7).is_some());
    assert_eq!(bank.get(7).unwrap().bullet_type_id(), 1);
    assert!(bank.take(7).is_some());
    assert!(bank.get(7).is_none());
    bank.setup(&assets());
    assert!(bank.get(1).is_some());
    bank.clear();
    assert!(bank.get(1).is_none());
}

#[test]
fn particle_requests_of_bullets_go_to_their_layers() {
    let mut world = World::new();
    Bullet::spawn_firing_particle(&mut world, Vec2::new(1, 2), "a=1|");
    Bullet::spawn_hitting_particle(&mut world, Vec2::new(3, 4), "b=2|");
    assert_eq!(world.particle_spawn_nodes.len(), 2);
    assert_eq!(world.particle_spawn_nodes[0].draw_layer, ParticleDrawLayer::FiringBullet);
    assert_eq!(world.particle_spawn_nodes[0].position, Vec2::new(1, 2));
    assert_eq!(world.particle_spawn_nodes[1].draw_layer, ParticleDrawLayer::BulletHit);
    assert_eq!(world.particle_spawn_nodes[1].extra, "b=2|");
}
