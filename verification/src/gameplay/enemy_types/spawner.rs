//! The spawner: a nest on the ground that, after a while, releases the
//! enemies of its queue one by one and then goes out.

use vstd::prelude::*;
use vstd::string::*;

use crate::gameplay::enemy_manager::{Enemy, HIT_MISS};
use crate::gameplay::extra::{number_value, permille_value, text_value};
use crate::gameplay::level::EnemySpawnNode;
use crate::gameplay::number::{digit, digit_value, is_digit};
use crate::gameplay::pool::Pooled;
use crate::gameplay::random::{jitter, jitter_of, random_u32};
use crate::gameplay::utils::Vec2;
use crate::gameplay::world::World;
use crate::image_assets::{frame_length_at, ImageAssets};
use crate::sprite::{magnitude, whole_frames};

verus! {

/// The spawn time of a spawner whose parameters give none. A spawner with
/// this spawn time dies at once.
pub const NO_SPAWN_TIME: u128 = 123_456;

/// Size of the area around a spawner in which its enemies appear.
pub const SPAWN_SPREAD: u32 = 16_000;

/// How far above the spawner its enemies appear.
pub const SPAWN_RISE: i32 = 24_000;

pub struct SpawnerEnemyType {}

/// The type number that the first character of a spawn queue stands for:
/// the value of a digit, zero for anything else and for an empty queue.
pub open spec fn queued_type(queue: Seq<char>) -> i32 {
    if queue.len() > 0 && is_digit(queue[0]) {
        digit_value(queue[0]) as i32
    } else {
        0
    }
}

/// The request for an enemy that a spawner at `position` releases: it
/// appears above the spawner, moved off by two draws.
pub open spec fn is_released(
    node: &EnemySpawnNode,
    position: Vec2,
    enemy_type: i32,
    draw_x: u32,
    draw_y: u32,
) -> bool {
    node.is_request(
        0,
        enemy_type,
        position.moved(jitter_of(SPAWN_SPREAD, draw_x), jitter_of(SPAWN_SPREAD, draw_y) - SPAWN_RISE),
        ""@,
    )
}

/// Whether `node` is the request for an enemy that a spawner at `position`
/// releases, whatever was drawn for its place.
pub open spec fn is_some_released(node: &EnemySpawnNode, position: Vec2, enemy_type: i32) -> bool {
    exists|draw_x: u32, draw_y: u32| #[trigger] is_released(node, position, enemy_type, draw_x, draw_y)
}

impl SpawnerEnemyType {
    pub fn new(_image_assets: &ImageAssets) -> (spawner: SpawnerEnemyType) {
        SpawnerEnemyType {  }
    }

    pub fn enemy_type_id(&self) -> (id: i32)
        ensures
            id == 0,
    {
        0
    }

    /// What `init` does to an enemy: it becomes a spawner with the spawn
    /// time, scale and looks that its parameters give. It stays active only
    /// if the parameters name an idle animation that the assets hold.
    pub open spec fn initialized(&self, before: &Enemy, enemy: &Enemy, image_assets: &ImageAssets) -> bool {
        let name = text_value(before.extra@, "idle_animation"@);
        let found = before.extra@.contains_key("idle_animation"@)
            && image_assets.animations().contains_key(name);
        let scale = permille_value(before.extra@, "scale"@, 2500);
        &&& enemy.ident() == before.ident()
        &&& enemy.enemy_type == 0
        &&& enemy.radius == 32_000
        &&& enemy.active == found
        &&& enemy.health == 100_000
        &&& enemy.life_time == 100
        &&& enemy.maximum_tick == 3000
        &&& enemy.weapon_tick == number_value(before.extra@, "spawn_time"@, NO_SPAWN_TIME)
        &&& enemy.max_health == before.max_health
        &&& enemy.hit_frame == before.hit_frame
        &&& enemy.position == before.position
        &&& enemy.rotation == before.rotation
        &&& enemy.frame == before.frame
        &&& enemy.tick == before.tick
        &&& enemy.state == before.state
        &&& enemy.extra == before.extra
        &&& enemy.target_position == before.target_position
        &&& enemy.sprite.scale.y == scale
        &&& enemy.sprite.scale.x == if before.extra@.contains_key("flip_x"@) {
            if before.extra@["flip_x"@] == "1"@ {
                (-magnitude(scale)) as i32
            } else {
                magnitude(scale)
            }
        } else {
            scale
        }
        &&& enemy.sprite.is_loop == before.sprite.is_loop
        &&& if found {
            &&& enemy.sprite.animation.frames@ == whole_frames(image_assets.animations()[name]@)
            &&& enemy.sprite.animation.name@ == name
            &&& enemy.sprite.animation.frame_length == frame_length_at(image_assets.rate_of(name))
            &&& enemy.sprite.frame_index == 0
            &&& enemy.sprite.frame_duration == 0
            &&& !enemy.sprite.pause
        } else {
            &&& enemy.sprite.animation == before.sprite.animation
            &&& enemy.sprite.frame_index == before.sprite.frame_index
            &&& enemy.sprite.frame_duration == before.sprite.frame_duration
            &&& enemy.sprite.pause == before.sprite.pause
        }
    }

    /// Sets an enemy up when it is activated.
    pub fn init(&self, enemy: &mut Enemy, image_assets: &ImageAssets)
        ensures
            self.initialized(old(enemy), final(enemy), image_assets),
    {
        enemy.enemy_type = self.enemy_type_id();
        enemy.radius = 32_000;
        enemy.active = true;
        enemy.health = 100_000;
        enemy.life_time = 100;
        enemy.maximum_tick = 3000;
        enemy.weapon_tick = enemy.extra.number_or("spawn_time", NO_SPAWN_TIME);
        let scale = enemy.extra.permille_or("scale", 2500);
        enemy.sprite.scale = Vec2::new(scale, scale);
        let flip: Option<bool> = match enemy.extra.get("flip_x") {
            Some(v) => Some(*v == String::from_str("1")),
            None => None,
        };
        match flip {
            Some(b) => {
                enemy.sprite.flip_x(b);
            },
            None => (),
        }
        if enemy.extra.contains_key("idle_animation") {
            let animation_name = enemy.extra.text_or_empty("idle_animation");
            match image_assets.get_animation_object(animation_name.as_str()) {
                Some(animation) => {
                    enemy.sprite.play(&animation);
                },
                None => {
                    enemy.active = false;
                },
            }
        } else {
            enemy.active = false;
        }
    }

    /// The spawn time after one tick.
    pub open spec fn spawn_time_after(weapon_tick: u128) -> u128 {
        if weapon_tick == NO_SPAWN_TIME {
            weapon_tick
        } else {
            crate::tick_down_spec(weapon_tick)
        }
    }

    /// Whether the spawner starts its spawning animation: its parameters
    /// name one that the assets hold and that is not playing yet.
    pub open spec fn starts_spawning(before: &Enemy, image_assets: &ImageAssets) -> bool {
        let name = text_value(before.extra@, "spawning_animation"@);
        &&& before.extra@.contains_key("spawning_animation"@)
        &&& before.sprite.animation.name@ != name
        &&& image_assets.animations().contains_key(name)
    }

    /// What `update` does to an enemy and the world in one tick. The spawn
    /// time runs down; a spawner without spawn time loses its health. Once
    /// the spawn time is used up the spawner shows its spawning animation
    /// and, whenever the pause between two releases is over, takes the first
    /// character off its queue: for a digit other than zero it asks for an
    /// enemy of that type, a sound and three splashes, for anything else it
    /// goes out.
    pub open spec fn updated(
        &self,
        before: &Enemy,
        enemy: &Enemy,
        world_before: &World,
        world: &World,
        image_assets: &ImageAssets,
    ) -> bool {
        let name = text_value(before.extra@, "spawning_animation"@);
        &&& enemy.same_build(before)
        &&& enemy.position == before.position
        &&& enemy.rotation == before.rotation
        &&& enemy.frame == before.frame
        &&& enemy.state == before.state
        &&& enemy.target_position == before.target_position
        &&& enemy.health == if before.weapon_tick == NO_SPAWN_TIME {
            0
        } else {
            before.health
        }
        &&& enemy.weapon_tick == Self::spawn_time_after(before.weapon_tick)
        &&& if Self::spawn_time_after(before.weapon_tick) == 0 {
            &&& Self::tick_outcome(before, enemy, world_before, world)
            &&& if Self::starts_spawning(before, image_assets) {
                &&& enemy.sprite.animation.frames@ == whole_frames(
                    image_assets.animations()[name]@,
                )
                &&& enemy.sprite.animation.name@ == name
                &&& enemy.sprite.animation.frame_length == frame_length_at(
                    image_assets.rate_of(name),
                )
                &&& enemy.sprite.frame_index == 0
                &&& enemy.sprite.frame_duration == 0
                &&& !enemy.sprite.pause
                &&& enemy.sprite.scale == before.sprite.scale
                &&& enemy.sprite.is_loop == before.sprite.is_loop
            } else {
                enemy.sprite == before.sprite
            }
        } else {
            &&& enemy.tick == before.tick
            &&& enemy.active == before.active
            &&& enemy.extra == before.extra
            &&& enemy.sprite == before.sprite
            &&& *world == *world_before
        }
    }

    /// Lets one tick pass for an enemy.
    pub fn update(&self, enemy: &mut Enemy, world: &mut World, image_assets: &ImageAssets)
        ensures
            self.updated(old(enemy), final(enemy), old(world), final(world), image_assets),
    {
        if enemy.weapon_tick == NO_SPAWN_TIME {
            enemy.health = 0;
        } else {
            enemy.weapon_tick = crate::tick_down(enemy.weapon_tick);
        }
        if enemy.weapon_tick == 0 {
            if enemy.extra.contains_key("spawning_animation") {
                let animation_name = enemy.extra.text_or_empty("spawning_animation");
                if *enemy.sprite.get_current_animation_name() != animation_name {
                    match image_assets.get_animation_object(animation_name.as_str()) {
                        Some(animation) => {
                            enemy.sprite.play(&animation);
                        },
                        None => (),
                    }
                }
            }
            Self::spawn_tick(enemy, world);
        }
    }

    /// What the death of a spawner adds to the world: its sound.
    pub open spec fn died(&self, world_before: &World, world: &World) -> bool {
        &&& world.asks_for_sound("spawner_explode"@, "./resources/sfx/spawner_explode.mp3"@, 800)
        &&& world.sounds_but(world_before, set!["spawner_explode"@])
        &&& world.same_queues(world_before)
    }

    /// Called once when the enemy's health is used up.
    pub fn die(&self, _enemy: &mut Enemy, world: &mut World)
        ensures
            self.died(old(world), final(world)),
            *final(_enemy) == *old(_enemy),
    {
        world.play_sound("spawner_explode", "./resources/sfx/spawner_explode.mp3", 800);
    }

    /// A spawner cannot be hit.
    pub fn hit_check(&self, _enemy: &Enemy, _position: Vec2, _radius: u32) -> (outcome: i32)
        ensures
            outcome == HIT_MISS,
    {
        HIT_MISS
    }

    /// Takes the first character off the spawn queue and gives the type
    /// number it stands for.
    fn take_queued(enemy: &mut Enemy) -> (released: i32)
        ensures
            released == queued_type(text_value(old(enemy).extra@, "spawn_queue"@)),
            old(enemy).extra@.contains_key("spawn_queue"@) && text_value(
                old(enemy).extra@,
                "spawn_queue"@,
            ).len() > 0 ==> final(enemy).extra@ == old(enemy).extra@.insert(
                "spawn_queue"@,
                text_value(old(enemy).extra@, "spawn_queue"@).skip(1),
            ),
            !(old(enemy).extra@.contains_key("spawn_queue"@) && text_value(
                old(enemy).extra@,
                "spawn_queue"@,
            ).len() > 0) ==> final(enemy).extra@ == old(enemy).extra@,
            final(enemy).same_but_extra(old(enemy)),
    {
        let queue = enemy.extra.text_or_empty("spawn_queue");
        let text = queue.as_str();
        let n = text.unicode_len();
        if n == 0 {
            return 0;
        }
        proof {
            // An empty text stands for a missing queue; a queue that is there
            // and has characters is the text itself.
            if !enemy.extra@.contains_key("spawn_queue"@) {
                reveal_strlit("");
            }
        }
        let first_letter = text.get_char(0);
        let rest = text.substring_char(1, n);
        assert(rest@ == queue@.skip(1));
        enemy.extra.insert(String::from_str("spawn_queue"), String::from_str(rest));
        match digit(first_letter) {
            Some(d) => d as i32,
            None => 0,
        }
    }

    /// Releases the next enemy of the queue, or lets the pause between two
    /// releases run down.
    fn spawn_tick(enemy: &mut Enemy, world: &mut World)
        ensures
            final(enemy).same_build(old(enemy)),
            final(enemy).position == old(enemy).position,
            final(enemy).rotation == old(enemy).rotation,
            final(enemy).frame == old(enemy).frame,
            final(enemy).state == old(enemy).state,
            final(enemy).target_position == old(enemy).target_position,
            final(enemy).health == old(enemy).health,
            final(enemy).weapon_tick == old(enemy).weapon_tick,
            final(enemy).sprite == old(enemy).sprite,
            Self::tick_outcome(old(enemy), final(enemy), old(world), final(world)),
    {
        if enemy.tick == 0 {
            enemy.tick = enemy.extra.number_or("spawn_interval", 0);
            let ghost with_tick = *enemy;
            let spawn_enemy_type_id = Self::take_queued(enemy);
            if spawn_enemy_type_id == 0 {
                enemy.active = false;
            } else {
                let draw_x = random_u32();
                let draw_y = random_u32();
                let place = enemy.position.translate(
                    jitter(SPAWN_SPREAD, draw_x),
                    jitter(SPAWN_SPREAD, draw_y) - SPAWN_RISE,
                );
                world.request_enemy(EnemySpawnNode::new(0, spawn_enemy_type_id, place, ""));
                proof {
                    assert(world.enemy_spawn_nodes@.drop_last() == old(world).enemy_spawn_nodes@);
                    assert(is_released(
                        &world.enemy_spawn_nodes@.last(),
                        old(enemy).position,
                        spawn_enemy_type_id,
                        draw_x,
                        draw_y,
                    ));
                }
                world.play_sound("spawner", "./resources/sfx/spawner.mp3", 400);
                let ghost sounded = *world;
                enemy.spawn_splash(world, enemy.position, "0.5");
                let ghost one = *world;
                enemy.spawn_splash(world, enemy.position, "0.5");
                let ghost two = *world;
                enemy.spawn_splash(world, enemy.position, "0.5");
                proof {
                    let base = sounded.particle_spawn_nodes@.len() as int;
                    assert(sounded.particle_spawn_nodes == old(world).particle_spawn_nodes);
                    assert(one.particle_spawn_nodes@ == two.particle_spawn_nodes@.subrange(
                        0,
                        base + 1,
                    ));
                    assert(two.particle_spawn_nodes@ == world.particle_spawn_nodes@.subrange(
                        0,
                        base + 2,
                    ));
                    assert(world.particle_spawn_nodes@[base] == one.particle_spawn_nodes@[base]);
                    assert(world.particle_spawn_nodes@[base + 1] == two.particle_spawn_nodes@[base
                        + 1]);
                    assert(world.particle_spawn_nodes@.subrange(0, base)
                        == sounded.particle_spawn_nodes@) by {
                        assert(one.particle_spawn_nodes@.subrange(0, base)
                            == sounded.particle_spawn_nodes@);
                    }
                }
            }
        } else {
            enemy.tick = crate::tick_down(enemy.tick);
        }
    }

    /// What the spawner does once its spawn time is used up; see
    /// `updated`.
    pub open spec fn tick_outcome(
        before: &Enemy,
        enemy: &Enemy,
        world_before: &World,
        world: &World,
    ) -> bool {
        let queue = text_value(before.extra@, "spawn_queue"@);
        let released = queued_type(queue);
        if before.tick == 0 {
            &&& enemy.tick == number_value(before.extra@, "spawn_interval"@, 0)
            &&& enemy.active == (before.active && released != 0)
            &&& before.extra@.contains_key("spawn_queue"@) && queue.len() > 0 ==> enemy.extra@
                == before.extra@.insert("spawn_queue"@, queue.skip(1))
            &&& !(before.extra@.contains_key("spawn_queue"@) && queue.len() > 0) ==> enemy.extra@
                == before.extra@
            &&& if released != 0 {
                &&& world.camera_position == world_before.camera_position
                &&& world.bullet_spawn_nodes == world_before.bullet_spawn_nodes
                &&& world.enemy_spawn_nodes@.len() == world_before.enemy_spawn_nodes@.len() + 1
                &&& world.enemy_spawn_nodes@.drop_last() == world_before.enemy_spawn_nodes@
                &&& is_some_released(&world.enemy_spawn_nodes@.last(), before.position, released)
                &&& world.asks_for_sound("spawner"@, "./resources/sfx/spawner.mp3"@, 400)
                &&& world.sounds_but(world_before, set!["spawner"@])
                &&& world.particle_spawn_nodes@.len() == world_before.particle_spawn_nodes@.len()
                    + 3
                &&& world.particle_spawn_nodes@.subrange(
                    0,
                    world_before.particle_spawn_nodes@.len() as int,
                ) == world_before.particle_spawn_nodes@
                &&& forall|i: int|
                    world_before.particle_spawn_nodes@.len() <= i
                        < world.particle_spawn_nodes@.len() ==> crate::gameplay::enemy_manager::is_some_splash(
                        &#[trigger] world.particle_spawn_nodes@[i],
                        before.position,
                        "0.5"@,
                    )
            } else {
                *world == *world_before
            }
        } else {
            &&& enemy.tick == crate::tick_down_spec(before.tick)
            &&& enemy.active == before.active
            &&& enemy.extra == before.extra
            &&& *world == *world_before
        }
    }
}

} // verus!
