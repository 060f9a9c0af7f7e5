use one_man::gameplay::particle_manager::{
    clear_particle_spawn_nodes, spawn_particle, update_active_particles, update_spawn_nodes_list,
    Particle, ParticleDrawLayer, ParticleManager, ParticleSpawnNode, ParticleType,
    ParticleTypeBank,
};
use one_man::gameplay::particle_types::explosion::ExplosionParticleType;
use one_man::gameplay::utils::Vec2;
use one_man::gameplay::world::World;
use one_man::image_assets::ImageAssets;

fn assets() -> ImageAssets {
    let mut assets = ImageAssets::new(Vec::new());
    assets.add("tex");
    assets.load_animations(&vec![(
        "splash-1".to_string(),
        vec!["tex".to_string(), "tex".to_string(), "tex".to_string()],
        18,
    )]);
    assets
}

fn bank() -> ParticleTypeBank {
    let mut bank = ParticleTypeBank::new();
    bank.setup(&assets());
    bank
}

fn count(manager: &ParticleManager) -> usize {
    manager.inactive_particles.len()
        + manager.active_particles_layer.iter().map(|l| l.len()).sum::<usize>()
}

fn splash(layer: ParticleDrawLayer) -> ParticleSpawnNode {
    ParticleSpawnNode::new(1, Vec2::new(5000, 6000), layer, "idle_animation=splash-1|flip_x=1|scale=0.9|")
}

#[test]
fn new_manager_holds_all_particles_in_the_pool() {
    let mut world = World::new();
    world.request_particle(splash(ParticleDrawLayer::Explosion));
    let manager = ParticleManager::new(&mut world);
    assert!(world.particle_spawn_nodes.is_empty());
    assert_eq!(manager.inactive_particles.len(), 299);
    assert_eq!(manager.active_particles_layer.len(), 5);
    assert_eq!(count(&manager), 299);
    assert!(manager.active_particles(ParticleDrawLayer::Topest).is_empty());
}

#[test]
fn layers_are_counted_from_the_back() {
    assert_eq!(ParticleDrawLayer::Bottomest.index(), 0);
    assert_eq!(ParticleDrawLayer::Explosion.index(), 1);
    assert_eq!(ParticleDrawLayer::BulletHit.index(), 2);
    assert_eq!(ParticleDrawLayer::FiringBullet.index(), 3);
    assert_eq!(ParticleDrawLayer::Topest.index(), 4);
}

#[test]
fn spawned_particle_is_set_up_as_asked() {
    let mut world = World::new();
    let mut manager = ParticleManager::new(&mut world);
    let mut bank = bank();
    let assets = assets();
    let outcome = spawn_particle(&mut manager, &splash(ParticleDrawLayer::BulletHit), &mut bank, &assets);
    assert!(matches!(outcome, Ok(true)));
    assert_eq!(manager.inactive_particles.len(), 298);
    let list = manager.active_particles(ParticleDrawLayer::BulletHit);
    assert_eq!(list.len(), 1);
    let p = &list[0];
    assert!(p.active);
    assert_eq!(p.particle_type_number, 1);
    assert_eq!(p.position, Vec2::new(5000, 6000));
    assert_eq!(p.life_time, 1500);
    assert_eq!(p.sprite.scale, Vec2::new(-900, 900));
    assert!(!p.sprite.is_loop());
    assert_eq!(p.sprite.get_current_animation_name(), "splash-1");
    assert_eq!(p.sprite.get_total_frames(), 3);
    assert_eq!(count(&manager), 299);
}

#[test]
fn particle_without_scale_gets_the_usual_one() {
    let mut world = World::new();
    let mut manager = ParticleManager::new(&mut world);
    let node = ParticleSpawnNode::new(1, Vec2::new(0, 0), ParticleDrawLayer::Topest, "idle_animation=splash-1|");
    assert!(matches!(spawn_particle(&mut manager, &node, &mut bank(), &assets()), Ok(true)));
    assert_eq!(manager.active_particles(ParticleDrawLayer::Topest)[0].sprite.scale, Vec2::new(2500, 2500));
}

#[test]
fn request_for_an_unknown_type_takes_no_particle() {
    let mut world = World::new();
    let mut manager = ParticleManager::new(&mut world);
    let node = ParticleSpawnNode::new(9, Vec2::new(0, 0), ParticleDrawLayer::Topest, "");
    assert!(matches!(spawn_particle(&mut manager, &node, &mut bank(), &assets()), Ok(false)));
    assert_eq!(manager.inactive_particles.len(), 299);
    assert_eq!(count(&manager), 299);
}

#[test]
fn malformed_request_is_an_error_and_loses_nothing() {
    let mut world = World::new();
    let mut manager = ParticleManager::new(&mut world);
    let mut bank = bank();
    let node = ParticleSpawnNode::new(1, Vec2::new(0, 0), ParticleDrawLayer::Topest, "idle_animation=splash-1|x|");
    match spawn_particle(&mut manager, &node, &mut bank, &assets()) {
        Err(e) => assert_eq!(e.token, "x"),
        _ => panic!("malformed parameters were accepted"),
    }
    assert_eq!(manager.inactive_particles.len(), 299);
    assert!(!manager.inactive_particles[298].active);
    assert!(!manager.inactive_particles[298].extra.contains_key("idle_animation"));
    assert!(bank.get(1).is_some());
}

#[test]
fn particle_drain_empties_the_queue_when_the_pool_runs_out() {
    let mut world = World::new();
    let mut manager = ParticleManager::new(&mut world);
    let mut bank = bank();
    let assets = assets();
    for _ in 0..320 {
        world.request_particle(splash(ParticleDrawLayer::Explosion));
    }
    world.request_particle(ParticleSpawnNode::new(1, Vec2::new(0, 0), ParticleDrawLayer::Explosion, "broken"));
    assert!(update_spawn_nodes_list(&mut manager, &mut world, &mut bank, &assets).is_ok());
    assert!(world.particle_spawn_nodes.is_empty());
    assert_eq!(manager.inactive_particles.len(), 0);
    assert_eq!(manager.active_particles(ParticleDrawLayer::Explosion).len(), 299);
    assert_eq!(count(&manager), 299);
}

#[test]
fn particle_drain_stops_at_malformed_parameters_with_an_empty_queue() {
    let mut world = World::new();
    let mut manager = ParticleManager::new(&mut world);
    let mut bank = bank();
    world.request_particle(splash(ParticleDrawLayer::Explosion));
    world.request_particle(ParticleSpawnNode::new(1, Vec2::new(0, 0), ParticleDrawLayer::Explosion, "broken"));
    world.request_particle(splash(ParticleDrawLayer::Explosion));
    let outcome = update_spawn_nodes_list(&mut manager, &mut world, &mut bank, &assets());
    match outcome {
        Err(e) => assert_eq!(e.token, "broken"),
        Ok(_) => panic!("malformed parameters were accepted"),
    }
    assert!(world.particle_spawn_nodes.is_empty());
    assert_eq!(manager.active_particles(ParticleDrawLayer::Explosion).len(), 1);
    assert_eq!(count(&manager), 299);
}

#[test]
fn explosion_plays_once_and_returns_to_the_pool() {
    let mut world = World::new();
    let mut manager = ParticleManager::new(&mut world);
    let mut bank = bank();
    let assets = assets();
    world.request_particle(splash(ParticleDrawLayer::Explosion));
    assert!(manager.update(&mut world, &mut bank, &assets).is_ok());
    assert_eq!(manager.active_particles(ParticleDrawLayer::Explosion).len(), 1);
    let mut ticks = 1;
    while !manager.active_particles(ParticleDrawLayer::Explosion).is_empty() {
        assert!(manager.update(&mut world, &mut bank, &assets).is_ok());
        assert_eq!(count(&manager), 299);
        assert!(manager.active_particles(ParticleDrawLayer::Explosion).iter().all(|p| p.active));
        ticks += 1;
        assert!(ticks < 200);
    }
    // Three frames of 55 ms each: the animation ends in the tick that passes
    // 165 ms, and the particle leaves in that same tick.
    assert_eq!(ticks, 11);
    assert_eq!(manager.inactive_particles.len(), 299);
    let back = &manager.inactive_particles[298];
    assert!(!back.active);
    assert_eq!(back.life_time, 0);
    assert_eq!(back.position, Vec2::new(0, 0));
}

#[test]
fn explosion_without_animation_goes_out_at_once() {
    let explosion = ExplosionParticleType::new(&assets());
    let mut kind = ParticleType::Explosion(explosion);
    assert_eq!(kind.particle_type_id(), 1);
    let mut p = Particle::new();
    p.active = true;
    assert!(p.parsing_extra("idle_animation=nothing|").is_ok());
    kind.init(&mut p, &assets());
    assert!(p.active);
    assert_eq!(p.life_time, 0);
    kind.update(&mut p);
    assert!(!p.active);
}

#[test]
fn explosion_keeps_the_animations_it_has_played() {
    let mut explosion = ExplosionParticleType::new(&assets());
    let mut p = Particle::new();
    p.active = true;
    assert!(p.parsing_extra("idle_animation=splash-1|flip_x=0|").is_ok());
    explosion.init(&mut p, &assets());
    assert_eq!(p.life_time, 1500);
    assert_eq!(p.sprite.get_total_frames(), 3);
    assert!(!p.sprite.is_flipped_x());
    let empty = ImageAssets::new(Vec::new());
    let mut q = Particle::new();
    q.active = true;
    assert!(q.parsing_extra("idle_animation=splash-1|flip_x=1|").is_ok());
    explosion.init(&mut q, &empty);
    assert_eq!(q.life_time, 1500);
    assert_eq!(q.sprite.get_total_frames(), 3);
    assert!(q.sprite.is_flipped_x());
}

#[test]
fn layer_update_releases_what_goes_out_in_the_same_call() {
    let mut world = World::new();
    let mut manager = ParticleManager::new(&mut world);
    let mut bank = bank();
    let assets = assets();
    for _ in 0..3 {
        world.request_particle(splash(ParticleDrawLayer::Topest));
    }
    assert!(update_spawn_nodes_list(&mut manager, &mut world, &mut bank, &assets).is_ok());
    assert_eq!(manager.inactive_particles.len(), 296);
    // The middle particle has less than a tick of life left.
    manager.active_particles_layer[4][1].life_time = 15;
    manager.active_particles_layer[4][0].position = Vec2::new(1, 0);
    manager.active_particles_layer[4][2].position = Vec2::new(3, 0);
    update_active_particles(ParticleDrawLayer::Topest, &mut manager, &bank);
    let layer = manager.active_particles(ParticleDrawLayer::Topest);
    assert_eq!(layer.len(), 2);
    assert!(layer.iter().all(|p| p.active));
    assert_eq!(layer[0].position, Vec2::new(1, 0));
    assert_eq!(layer[1].position, Vec2::new(3, 0));
    assert_eq!(layer[0].life_time, 1484);
    assert_eq!(manager.inactive_particles.len(), 297);
    let back = &manager.inactive_particles[296];
    assert!(!back.active);
    assert_eq!(back.life_time, 0);
    assert_eq!(back.position, Vec2::new(0, 0));
    update_active_particles(ParticleDrawLayer::Explosion, &mut manager, &bank);
    assert_eq!(manager.active_particles(ParticleDrawLayer::Topest).len(), 2);
    assert_eq!(count(&manager), 299);
}

#[test]
fn layer_update_releases_what_had_gone_out_before() {
    let mut world = World::new();
    let mut manager = ParticleManager::new(&mut world);
    let mut bank = bank();
    let assets = assets();
    for _ in 0..3 {
        world.request_particle(splash(ParticleDrawLayer::Topest));
    }
    assert!(update_spawn_nodes_list(&mut manager, &mut world, &mut bank, &assets).is_ok());
    manager.active_particles_layer[4][1].active = false;
    update_active_particles(ParticleDrawLayer::Topest, &mut manager, &bank);
    assert_eq!(manager.active_particles(ParticleDrawLayer::Topest).len(), 2);
    assert_eq!(manager.inactive_particles.len(), 297);
    assert_eq!(manager.active_particles(ParticleDrawLayer::Topest)[0].life_time, 1484);
    assert_eq!(count(&manager), 299);
}

#[test]
fn particle_of_unknown_type_stays_as_it_is() {
    let mut p = Particle::new();
    p.active = true;
    p.particle_type_number = 77;
    p.life_time = 5;
    p.update(&bank());
    assert!(p.active);
    assert_eq!(p.life_time, 5);
    p.reset();
    assert!(!p.active);
    assert_eq!(p.particle_type_number, 0);
}

#[test]
fn queue_of_requests_is_cleared() {
    let mut world = World::new();
    world.request_particle(splash(ParticleDrawLayer::Topest));
    clear_particle_spawn_nodes(&mut world);
    assert!(world.particle_spawn_nodes.is_empty());
}

#[test]
fn particle_bank_keeps_one_behaviour_for_each_number() {
    let mut bank = ParticleTypeBank::new();
    assert!(bank.get(1).is_none());
    bank.add(3, ParticleType::Explosion(ExplosionParticleType::new(&assets())));
    assert!(bank.get(3).is_some());
    assert!(bank.take(3).is_some());
    assert!(bank.take(3).is_none());
    bank.setup(&assets());
    assert!(bank.get(1).is_some());
    bank.clear();
    assert!(bank.get(1).is_none());
}
