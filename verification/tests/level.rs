use std::collections::VecDeque;

use one_man::gameplay::level::{tick_pattern, EnemySpawnNode, Level, PatternNode};
use one_man::gameplay::utils::Vec2;
use one_man::gameplay::world::World;

fn schedule(entries: &[(u128, &str)]) -> VecDeque<PatternNode> {
    entries.iter().map(|(d, p)| PatternNode { delay: *d, pattern: p.to_string() }).collect()
}

fn pattern(delays: &[u128]) -> VecDeque<EnemySpawnNode> {
    delays
        .iter()
        .enumerate()
        .map(|(i, d)| EnemySpawnNode::new(*d, i as i32, Vec2::new(i as i32, 0), ""))
        .collect()
}

#[test]
fn new_level_is_bound_for_start() {
    let level = Level::new();
    assert_eq!(level.current_camera_target_node_name.as_deref(), Some("start"));
    assert!(level.get_current_node().is_none());
    assert!(level.get_next_node().is_none());
    assert!(!level.is_spawn_queue_empty());
    assert_eq!(level.all_nodes().len(), 0);
}

#[test]
fn pattern_starts_after_its_delay_and_fires_in_the_same_tick() {
    let mut level = Level::new();
    let mut world = World::new();
    level.add_camera_target_node("01", Vec2::new(480_000, -72_000), 200, "", schedule(&[(500, "01")]));
    level.add_pattern("01", pattern(&[0]));
    level.set_current_node("01");
    for tick in 0..32 {
        level.update(&mut world);
        assert!(world.enemy_spawn_nodes.is_empty(), "tick {}", tick);
        assert!(!level.is_spawn_queue_empty());
        assert_eq!(level.current_node_spawn_patterns.len(), 1);
        assert!(level.active_patterns.is_empty());
    }
    assert_eq!(level.spawn_duration, 512);
    level.update(&mut world);
    assert_eq!(world.enemy_spawn_nodes.len(), 1);
    assert_eq!(world.enemy_spawn_nodes[0].enemy_type, 0);
    assert!(level.current_node_spawn_patterns.is_empty());
    assert!(level.active_patterns.is_empty());
    assert!(level.is_spawn_queue_empty());
    assert_eq!(level.spawn_duration, 28);
}

#[test]
fn node_with_a_schedule_does_not_report_empty_until_all_is_spawned() {
    let mut level = Level::new();
    let mut world = World::new();
    level.add_camera_target_node("n", Vec2::new(0, 0), 0, "", schedule(&[(0, "a"), (32, "b")]));
    level.add_pattern("a", pattern(&[0, 48]));
    level.add_pattern("b", pattern(&[16]));
    level.set_current_node("n");
    assert!(!level.is_spawn_queue_empty());
    let mut spawned = 0;
    let mut ticks = 0;
    while !level.is_spawn_queue_empty() {
        level.update(&mut world);
        spawned += world.enemy_spawn_nodes.len();
        world.enemy_spawn_nodes.clear();
        ticks += 1;
        assert!(ticks < 100);
        if spawned < 3 {
            assert!(!level.is_spawn_queue_empty());
        }
    }
    assert_eq!(spawned, 3);
    assert!(level.current_node_spawn_patterns.is_empty());
    assert!(level.active_patterns.is_empty());
}

#[test]
fn several_patterns_can_start_in_one_tick() {
    let mut level = Level::new();
    let mut world = World::new();
    level.add_camera_target_node("n", Vec2::new(0, 0), 0, "", schedule(&[(0, "a"), (0, "b"), (100, "a")]));
    level.add_pattern("a", pattern(&[1000]));
    level.add_pattern("b", pattern(&[2000, 0]));
    level.set_current_node("n");
    level.update(&mut world);
    assert_eq!(level.current_node_spawn_patterns.len(), 1);
    assert_eq!(level.active_patterns.len(), 2);
    assert_eq!(level.active_patterns[0][0].delay, 984);
    assert_eq!(level.active_patterns[1][0].delay, 1984);
    assert_eq!(level.active_patterns[1][1].delay, 0);
    assert_eq!(level.spawn_duration, 16);
}

#[test]
fn unknown_pattern_halts_the_node() {
    let mut level = Level::new();
    let mut world = World::new();
    level.add_camera_target_node("n", Vec2::new(0, 0), 0, "", schedule(&[(0, "nope")]));
    level.set_current_node("n");
    assert!(level.is_start);
    level.update(&mut world);
    assert!(!level.is_start);
    assert!(level.current_node_spawn_patterns.is_empty());
    assert!(level.active_patterns.is_empty());
    assert!(!level.is_spawn_queue_empty());
    for _ in 0..10 {
        level.update(&mut world);
        assert!(!level.is_spawn_queue_empty());
    }
    assert!(world.enemy_spawn_nodes.is_empty());
}

#[test]
fn request_fires_when_its_delay_would_go_below_zero() {
    let mut world = World::new();
    let mut p = pattern(&[16, 5, 40]);
    tick_pattern(&mut p, &mut world);
    assert!(world.enemy_spawn_nodes.is_empty());
    assert_eq!(p.len(), 3);
    assert_eq!(p[0].delay, 0);
    tick_pattern(&mut p, &mut world);
    assert_eq!(world.enemy_spawn_nodes.len(), 2);
    assert_eq!(world.enemy_spawn_nodes[0].enemy_type, 0);
    assert_eq!(world.enemy_spawn_nodes[1].enemy_type, 1);
    assert_eq!(p.len(), 1);
    assert_eq!(p[0].delay, 24);
    tick_pattern(&mut p, &mut world);
    assert_eq!(p[0].delay, 8);
    tick_pattern(&mut p, &mut world);
    assert_eq!(world.enemy_spawn_nodes.len(), 3);
    assert!(p.is_empty());
    tick_pattern(&mut p, &mut world);
    assert_eq!(world.enemy_spawn_nodes.len(), 3);
}

#[test]
fn exhausted_patterns_leave_from_the_head_only() {
    let mut level = Level::new();
    let mut world = World::new();
    level.add_camera_target_node("n", Vec2::new(0, 0), 0, "", schedule(&[(0, "slow"), (0, "fast")]));
    level.add_pattern("slow", pattern(&[40]));
    level.add_pattern("fast", pattern(&[0]));
    level.set_current_node("n");
    level.update(&mut world);
    assert_eq!(world.enemy_spawn_nodes.len(), 1);
    assert_eq!(level.active_patterns.len(), 2);
    assert!(level.active_patterns[1].is_empty());
    level.update(&mut world);
    assert_eq!(level.active_patterns.len(), 2);
    level.update(&mut world);
    assert_eq!(world.enemy_spawn_nodes.len(), 2);
    assert!(level.active_patterns.is_empty());
    assert!(level.is_spawn_queue_empty());
}

#[test]
fn time_in_the_node_stands_still_without_a_schedule() {
    let mut level = Level::new();
    let mut world = World::new();
    level.add_camera_target_node("n", Vec2::new(0, 0), 0, "", VecDeque::new());
    level.set_current_node("n");
    assert!(level.is_spawn_queue_empty());
    level.update(&mut world);
    assert_eq!(level.spawn_duration, 0);
    assert!(level.is_spawn_queue_empty());
}

#[test]
fn nodes_follow_each_other() {
    let mut level = Level::new();
    level.add_camera_target_node("a", Vec2::new(1, 2), 10, "b", VecDeque::new());
    level.add_camera_target_node("b", Vec2::new(3, 4), 20, "", schedule(&[(5, "p")]));
    level.add_camera_target_node("c", Vec2::new(5, 6), 30, "gone", VecDeque::new());
    assert_eq!(level.all_nodes().len(), 3);
    assert_eq!(level.get_node("a").unwrap().next_node.as_deref(), Some("b"));
    assert!(level.get_node("b").unwrap().next_node.is_none());
    assert!(level.get_node("z").is_none());
    level.set_current_node("a");
    assert_eq!(level.get_current_node().unwrap().name, "a");
    assert_eq!(level.get_next_node().unwrap().name, "b");
    assert_eq!(level.get_next_node().unwrap().position, Vec2::new(3, 4));
    level.set_current_node("b");
    assert_eq!(level.current_node_spawn_patterns.len(), 1);
    assert_eq!(level.current_node_spawn_patterns[0].delay, 5);
    assert_eq!(level.get_node("b").unwrap().spawn_patterns.len(), 1);
    assert!(level.get_next_node().is_none());
    level.set_current_node("c");
    assert!(level.get_next_node().is_none());
    level.set_current_node("nowhere");
    assert!(level.current_camera_target_node_name.is_none());
    assert!(level.get_current_node().is_none());
}

#[test]
fn node_of_the_same_name_is_replaced() {
    let mut level = Level::new();
    level.add_camera_target_node("a", Vec2::new(1, 2), 10, "b", VecDeque::new());
    level.add_camera_target_node("a", Vec2::new(9, 9), 99, "", VecDeque::new());
    assert_eq!(level.all_nodes().len(), 1);
    assert_eq!(level.get_node("a").unwrap().waiting_time, 99);
    assert!(level.get_node("a").unwrap().next_node.is_none());
}

#[test]
fn schedule_of_the_node_is_copied_not_shared() {
    let mut level = Level::new();
    let mut world = World::new();
    level.add_camera_target_node("n", Vec2::new(0, 0), 0, "", schedule(&[(0, "p")]));
    level.add_pattern("p", pattern(&[0]));
    level.set_current_node("n");
    level.update(&mut world);
    assert!(level.current_node_spawn_patterns.is_empty());
    assert_eq!(level.get_node("n").unwrap().spawn_patterns.len(), 1);
    level.set_current_node("n");
    level.update(&mut world);
    assert_eq!(world.enemy_spawn_nodes.len(), 2);
}

#[test]
fn spawn_requests_are_copied_with_all_they_hold() {
    let node = EnemySpawnNode::new(3500, 2, Vec2::new(7, 8), "rotation=0.35|");
    let copy = node.clone();
    assert_eq!(copy.delay, 3500);
    assert_eq!(copy.enemy_type, 2);
    assert_eq!(copy.position, Vec2::new(7, 8));
    assert_eq!(copy.extra, "rotation=0.35|");
    let entry = PatternNode { delay: 500, pattern: "01".to_string() };
    let other = entry.clone();
    assert_eq!(other.delay, 500);
    assert_eq!(other.pattern, "01");
}
