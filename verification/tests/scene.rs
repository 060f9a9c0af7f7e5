use one_man::gameplay::input::KeyStates;
use one_man::gameplay::utils::Vec2;
use one_man::scenes::gameplay::{
    setup_camera_target_nodes, setup_level_for_spawning_enemies, setup_level_patterns,
    GamePlayScene, GamePlayState,
};
use one_man::gameplay::level::Level;
use one_man::image_assets::ContentPath;
use one_man::tick_down;

fn no_keys() -> KeyStates {
    KeyStates { up: false, down: false, left: false, right: false, attack: false, switch: false }
}

fn load_everything(scene: &mut GamePlayScene) {
    scene.image_assets.add("tex");
    let names = [
        "player-stand",
        "player-run",
        "player-jump",
        "player-die",
        "player-slash",
        "player-bullet-idle",
        "player-bullet-firing",
        "player-bullet-hit",
        "enemy-bullet-1-idle",
        "enemy-bullet-1-hit",
        "enemy-bullet-1-firing",
        "enemy-bullet-1-kill",
        "enemy-flying-idle",
        "enemy-flying-spawn",
        "enemy-crawler-air",
        "enemy-crawler-idle",
        "enemy-boss-idle",
        "enemy-spawner-1-idle",
        "enemy-spawner-1-spawning",
        "enemy-spawner-2-idle",
        "enemy-spawner-2-spawning",
        "splash-1",
        "splash-2",
        "splash-3",
        "splash-4",
    ];
    let list: Vec<(String, Vec<String>, u64)> = names
        .iter()
        .map(|n| (n.to_string(), vec!["tex".to_string(), "tex".to_string(), "tex".to_string()], 18))
        .collect();
    scene.image_assets.load_animations(&list);
}

fn assert_pools_are_whole(scene: &GamePlayScene) {
    let bullets = &scene.bullet_pool;
    assert_eq!(
        bullets.pool.len()
            + bullets.player_active_bullets.len()
            + bullets.enemy_active_bullets.len()
            + bullets.spawned_bullet_list.len(),
        500
    );
    let enemies = &scene.enemy_manager;
    assert_eq!(enemies.active_enemies.len() + enemies.inactive_enemies.len(), 99);
    let particles = &scene.particle_manager;
    assert_eq!(
        particles.inactive_particles.len()
            + particles.active_particles_layer.iter().map(|l| l.len()).sum::<usize>(),
        299
    );
}

#[test]
fn timer_runs_down_and_stops_at_zero() {
    assert_eq!(tick_down(100), 84);
    assert_eq!(tick_down(16), 0);
    assert_eq!(tick_down(15), 0);
    assert_eq!(tick_down(0), 0);
}

#[test]
fn level_has_its_nodes_and_patterns() {
    let mut level = Level::new();
    setup_level_for_spawning_enemies(&mut level);
    assert_eq!(level.all_nodes().len(), 7);
    let start = level.get_node("start").unwrap();
    assert_eq!(start.position, Vec2::new(0, -72_000));
    assert_eq!(start.waiting_time, 2000);
    assert_eq!(start.next_node.as_deref(), Some("01"));
    assert!(start.spawn_patterns.is_empty());
    let third = level.get_node("03").unwrap();
    assert_eq!(third.position, Vec2::new(1_440_000, -72_000));
    assert_eq!(third.next_node.as_deref(), Some("boss"));
    assert_eq!(third.spawn_patterns[0].delay, 500);
    assert_eq!(third.spawn_patterns[0].pattern, "03");
    let boss = level.get_node("boss").unwrap();
    assert_eq!(boss.position, Vec2::new(2_880_000, -72_000));
    assert!(boss.next_node.is_none());
    assert_eq!(level.patterns.len(), 4);
    let second = level.patterns.get("02").unwrap();
    assert_eq!(second.len(), 3);
    assert_eq!(second[2].delay, 3500);
    assert_eq!(second[2].enemy_type, 2);
    assert_eq!(second[2].position, Vec2::new(1_200_000, -28_000));
    assert_eq!(second[2].extra, "rotation=0.35|");
    let last = level.patterns.get("boss").unwrap();
    assert_eq!(last[0].enemy_type, 3);
    assert_eq!(last[0].delay, 4500);
    assert_eq!(last[0].position, Vec2::new(3_360_000, -96_000));
}

#[test]
fn nodes_and_patterns_can_be_set_up_apart() {
    let mut level = Level::new();
    setup_camera_target_nodes(&mut level);
    assert_eq!(level.all_nodes().len(), 7);
    assert_eq!(level.patterns.len(), 0);
    let mut other = Level::new();
    setup_level_patterns(&mut other);
    assert_eq!(other.all_nodes().len(), 0);
    assert_eq!(other.patterns.len(), 4);
    assert_eq!(other.patterns.get("01").unwrap().len(), 1);
    assert_eq!(other.patterns.get("03").unwrap()[1].extra, "rotation=0.4|");
}

#[test]
fn session_starts_by_loading() {
    let files = vec![ContentPath::new("bg".to_string(), "./resources/bg.png".to_string())];
    let mut scene = GamePlayScene::new(files);
    assert_eq!(scene.state, GamePlayState::Loading);
    assert_eq!(scene.camera_position, Vec2::new(0, -72_000));
    assert_eq!(scene.waiting_time, 1500);
    assert_pools_are_whole(&scene);
    assert!(scene.update(no_keys()).is_ok());
    assert_eq!(scene.state, GamePlayState::Loading);
    while scene.image_assets.is_loading() {
        for content in scene.image_assets.loading(0) {
            scene.image_assets.add(content.key.as_str());
        }
    }
    assert_eq!(scene.image_assets.get_id("bg"), 1);
    assert!(scene.update(no_keys()).is_ok());
    assert_eq!(scene.state, GamePlayState::Preparing);
    assert!(scene.update(no_keys()).is_ok());
    assert_eq!(scene.state, GamePlayState::Playing);
    assert!(scene.bullet_type_bank.get(1).is_some());
    assert!(scene.enemy_type_bank.get(0).is_some());
    assert!(scene.enemy_type_bank.get(3).is_some());
    assert!(scene.particle_type_bank.get(1).is_some());
    assert_eq!(scene.level.current_camera_target_node_name.as_deref(), Some("start"));
    assert!(scene.level.is_spawn_queue_empty());
}

#[test]
fn camera_waits_at_the_start_and_travels_to_the_first_node() {
    let mut scene = GamePlayScene::new(Vec::new());
    load_everything(&mut scene);
    assert!(scene.update(no_keys()).is_ok());
    assert!(scene.update(no_keys()).is_ok());
    assert!(!scene.reach_camera_target);
    assert!(scene.update(no_keys()).is_ok());
    assert!(scene.reach_camera_target);
    assert_eq!(scene.waiting_time, 1484);
    for _ in 0..92 {
        assert!(scene.update(no_keys()).is_ok());
    }
    assert_eq!(scene.waiting_time, 12);
    assert!(scene.update(no_keys()).is_ok());
    assert_eq!(scene.waiting_time, 0);
    assert_eq!(scene.level.current_camera_target_node_name.as_deref(), Some("start"));
    assert!(scene.update(no_keys()).is_ok());
    assert_eq!(scene.level.current_camera_target_node_name.as_deref(), Some("01"));
    assert_eq!(scene.camera_target_position, Vec2::new(480_000, -72_000));
    assert!(!scene.reach_camera_target);
    assert_eq!(scene.waiting_time, 200);
    assert_eq!(scene.level.current_node_spawn_patterns.len(), 1);
    assert!(scene.update(no_keys()).is_ok());
    assert_eq!(scene.camera_position, Vec2::new(2000, -72_000));
    assert_eq!(scene.world.camera_position, Vec2::new(2000, -72_000));
    for _ in 0..237 {
        assert!(scene.update(no_keys()).is_ok());
    }
    assert_eq!(scene.camera_position, Vec2::new(476_000, -72_000));
    assert!(!scene.reach_camera_target);
    assert!(scene.update(no_keys()).is_ok());
    assert_eq!(scene.camera_position, Vec2::new(480_000, -72_000));
    assert_eq!(scene.world.camera_position, Vec2::new(480_000, -72_000));
    assert!(scene.reach_camera_target);
    assert!(scene.update(no_keys()).is_ok());
    assert_eq!(scene.camera_position, Vec2::new(480_000, -72_000));
}

#[test]
fn first_node_brings_in_its_spawner_and_pools_stay_whole() {
    let mut scene = GamePlayScene::new(Vec::new());
    load_everything(&mut scene);
    let mut seen_enemies = 0;
    let mut seen_bullets = 0;
    let mut seen_particles = 0;
    for tick in 0..1500 {
        let keys = KeyStates {
            up: tick % 97 == 0,
            down: false,
            left: tick % 50 < 10,
            right: tick % 50 >= 25,
            attack: tick % 40 < 3 || (tick > 900 && tick < 1100),
            switch: tick % 333 == 0,
        };
        assert!(scene.update(keys).is_ok(), "tick {}", tick);
        assert_pools_are_whole(&scene);
        assert!(scene.world.enemy_spawn_nodes.is_empty());
        assert!(scene.world.bullet_spawn_nodes.is_empty());
        seen_enemies = seen_enemies.max(scene.enemy_manager.active_enemies.len());
        seen_bullets = seen_bullets
            .max(scene.bullet_pool.player_active_bullets.len() + scene.bullet_pool.enemy_active_bullets.len());
        seen_particles = seen_particles
            .max(299 - scene.particle_manager.inactive_particles.len());
        scene.take_sounds();
        assert_eq!(scene.world.play_sound_nodes.len(), 0);
    }
    assert!(seen_enemies >= 2, "enemies seen: {}", seen_enemies);
    assert!(seen_bullets >= 1, "bullets seen: {}", seen_bullets);
    assert!(seen_particles >= 1, "particles seen: {}", seen_particles);
}

#[test]
fn dead_player_ends_the_game() {
    let mut scene = GamePlayScene::new(Vec::new());
    load_everything(&mut scene);
    for _ in 0..3 {
        assert!(scene.update(no_keys()).is_ok());
    }
    assert_eq!(scene.state, GamePlayState::Playing);
    scene.player.health = 0;
    assert!(scene.update(no_keys()).is_ok());
    assert!(!scene.player.alive());
    assert_eq!(scene.state, GamePlayState::GameOver);
    let node = scene.level.current_camera_target_node_name.clone();
    for _ in 0..200 {
        assert!(scene.update(no_keys()).is_ok());
        assert_pools_are_whole(&scene);
    }
    assert_eq!(scene.state, GamePlayState::GameOver);
    assert_eq!(scene.level.current_camera_target_node_name, node);
}

#[test]
fn level_is_cleared_when_no_node_is_left() {
    let mut scene = GamePlayScene::new(Vec::new());
    load_everything(&mut scene);
    for _ in 0..3 {
        assert!(scene.update(no_keys()).is_ok());
    }
    scene.level.set_current_node("boss");
    scene.level.current_node_spawn_patterns.clear();
    scene.waiting_time = 0;
    assert!(scene.update(no_keys()).is_ok());
    assert!(scene.level.current_camera_target_node_name.is_none());
    assert_eq!(scene.waiting_time, 1500);
    assert_eq!(scene.state, GamePlayState::Playing);
    assert!(scene.update(no_keys()).is_ok());
    assert_eq!(scene.state, GamePlayState::LevelCleared);
    for _ in 0..10 {
        assert!(scene.update(no_keys()).is_ok());
    }
    assert_eq!(scene.state, GamePlayState::LevelCleared);
}

#[test]
fn malformed_request_ends_the_tick_with_its_error() {
    let mut scene = GamePlayScene::new(Vec::new());
    load_everything(&mut scene);
    for _ in 0..3 {
        assert!(scene.update(no_keys()).is_ok());
    }
    scene.world.request_enemy(one_man::gameplay::level::EnemySpawnNode::new(
        0,
        2,
        Vec2::new(0, -100_000),
        "rotation",
    ));
    match scene.update(no_keys()) {
        Err(e) => {
            assert_eq!(e.token, "rotation");
            assert_eq!(e.raw, "rotation");
        }
        Ok(_) => panic!("malformed parameters were accepted"),
    }
    assert!(scene.world.enemy_spawn_nodes.is_empty());
    assert_pools_are_whole(&scene);
}
