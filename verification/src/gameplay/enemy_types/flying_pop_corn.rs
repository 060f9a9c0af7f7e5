//! The flying pop corn: an enemy that drifts about the upper part of the
//! screen and fires at the player from time to time.

use vstd::prelude::*;
use vstd::string::*;

use crate::gameplay::enemy_manager::{
    aimed, circle_hit, circle_hit_of, even, is_even, is_odd, odd, random_target_position,
    random_weapon_tick, retargeted, tick_up, tick_up_spec, Enemy,
};
use crate::gameplay::pool::Pooled;
use crate::gameplay::utils::{pull, pulled, Vec2};
use crate::gameplay::world::World;
use crate::image_assets::{frame_length_at, ImageAssets};
use crate::sprite::whole_frames;

verus! {

/// Thousandths of the way by which a flying enemy nears each of its target
/// points in a tick.
pub const FLYING_PULL: u32 = 10;

/// Speed of the bullets of flying enemies and of the boss.
pub const ENEMY_BULLET_SPEED: i32 = 1000;

/// Radius of the bullets of flying enemies and of the boss.
pub const ENEMY_BULLET_RADIUS: u32 = 4000;

pub struct FlyingPopCornEnemyType {}

/// The state of a flying enemy that enters at `position`: even on the left
/// of the camera, odd on the right.
pub open spec fn side_state(state: i32, on_the_left: bool) -> i32 {
    if on_the_left {
        if is_odd(state) {
            state.wrapping_add(1)
        } else {
            state
        }
    } else if is_even(state) {
        state.wrapping_add(1)
    } else {
        state
    }
}

/// The parameters of the bullets that flying enemies and the boss fire.
pub open spec fn enemy_bullet_extra() -> Seq<char> {
    "idle_animation=enemy-bullet-1-idle|firing_animation=enemy-bullet-1-firing|hit_animation=enemy-bullet-1-hit|kill_animation=enemy-bullet-1-kill|scale=1.2|"@
}

impl FlyingPopCornEnemyType {
    pub fn new(_image_assets: &ImageAssets) -> (flying: FlyingPopCornEnemyType) {
        FlyingPopCornEnemyType {  }
    }

    pub fn enemy_type_id(&self) -> (id: i32)
        ensures
            id == 1,
    {
        1
    }

    /// What `init` does to an enemy: it becomes a flying enemy that will
    /// fire after two and a half to three and a half seconds, counts in
    /// even or odd states by the side of the camera it enters on, plays its
    /// entrance once if the assets hold it, and gets three points to be
    /// pulled towards.
    pub open spec fn initialized(
        &self,
        before: &Enemy,
        enemy: &Enemy,
        camera: Vec2,
        image_assets: &ImageAssets,
    ) -> bool {
        &&& enemy.ident() == before.ident()
        &&& enemy.enemy_type == 1
        &&& enemy.radius == 8000
        &&& enemy.active
        &&& enemy.health == 5
        &&& enemy.life_time == 100
        &&& enemy.maximum_tick == 3000
        &&& 2500 <= enemy.weapon_tick < 3500
        &&& enemy.state == side_state(before.state, before.position.x < camera.x)
        &&& enemy.max_health == before.max_health
        &&& enemy.hit_frame == before.hit_frame
        &&& enemy.position == before.position
        &&& enemy.rotation == before.rotation
        &&& enemy.frame == before.frame
        &&& enemy.tick == before.tick
        &&& enemy.extra == before.extra
        &&& retargeted(enemy.target_position@, camera)
        &&& if image_assets.animations().contains_key("enemy-flying-spawn"@) {
            &&& enemy.sprite.scale == (Vec2 { x: 1400, y: 1400 })
            &&& !enemy.sprite.is_loop
            &&& enemy.sprite.animation.frames@ == whole_frames(
                image_assets.animations()["enemy-flying-spawn"@]@,
            )
            &&& enemy.sprite.animation.name@ == "enemy-flying-spawn"@
            &&& enemy.sprite.animation.frame_length == frame_length_at(
                image_assets.rate_of("enemy-flying-spawn"@),
            )
            &&& enemy.sprite.frame_index == 0
            &&& enemy.sprite.frame_duration == 0
            &&& !enemy.sprite.pause
        } else {
            enemy.sprite == before.sprite
        }
    }

    /// Sets an enemy up when it is activated.
    pub fn init(&self, enemy: &mut Enemy, camera: Vec2, image_assets: &ImageAssets)
        ensures
            self.initialized(old(enemy), final(enemy), camera, image_assets),
    {
        enemy.enemy_type = self.enemy_type_id();
        enemy.radius = 8000;
        enemy.active = true;
        enemy.health = 5;
        enemy.life_time = 100;
        enemy.maximum_tick = 3000;
        enemy.weapon_tick = random_weapon_tick();
        if enemy.position.x < camera.x {
            if odd(enemy.state) {
                enemy.state = enemy.state.wrapping_add(1);
            }
        } else if even(enemy.state) {
            enemy.state = enemy.state.wrapping_add(1);
        }
        match image_assets.get_animation_object("enemy-flying-spawn") {
            Some(animation) => {
                enemy.sprite.scale = Vec2::new(1400, 1400);
                enemy.sprite.set_loop(false);
                enemy.sprite.play(&animation);
            },
            None => (),
        }
        random_target_position(enemy, camera);
    }

    /// Whether the enemy changes from its entrance to its idle animation:
    /// the entrance has been played to its end and the assets hold the idle
    /// animation.
    pub open spec fn settles(before: &Enemy, image_assets: &ImageAssets) -> bool {
        &&& before.sprite.animation.name@ == "enemy-flying-spawn"@
        &&& before.sprite.at_end()
        &&& image_assets.animations().contains_key("enemy-flying-idle"@)
    }

    /// What `update` does to an enemy and the world in one tick. The clocks
    /// move on. When the weapon clock runs out the enemy asks for a bullet
    /// aimed at `target` and winds the clock up again by chance. After its
    /// entrance the enemy changes to its idle animation. When the tick clock
    /// passes its greatest value the enemy enters its next state and gets new
    /// points to be pulled towards. Last, the enemy moves towards these
    /// points.
    pub open spec fn updated(
        &self,
        before: &Enemy,
        enemy: &Enemy,
        world_before: &World,
        world: &World,
        target: Vec2,
        image_assets: &ImageAssets,
    ) -> bool {
        let fires = crate::tick_down_spec(before.weapon_tick) == 0;
        let turns = tick_up_spec(before.tick) > before.maximum_tick;
        &&& enemy.same_build(before)
        &&& enemy.active == before.active
        &&& enemy.health == before.health
        &&& enemy.rotation == before.rotation
        &&& enemy.frame == before.frame
        &&& enemy.extra == before.extra
        &&& if fires {
            &&& 2500 <= enemy.weapon_tick < 3500
            &&& world.same_but_bullets(world_before)
            &&& world.bullet_spawn_nodes@.len() == world_before.bullet_spawn_nodes@.len() + 1
            &&& world.bullet_spawn_nodes@.drop_last() == world_before.bullet_spawn_nodes@
            &&& aimed(
                &world.bullet_spawn_nodes@.last(),
                before.position,
                target,
                1,
                ENEMY_BULLET_SPEED,
                ENEMY_BULLET_RADIUS,
                enemy_bullet_extra(),
            )
        } else {
            &&& enemy.weapon_tick == crate::tick_down_spec(before.weapon_tick)
            &&& *world == *world_before
        }
        &&& if Self::settles(before, image_assets) {
            &&& enemy.sprite.is_loop
            &&& enemy.sprite.animation.frames@ == whole_frames(
                image_assets.animations()["enemy-flying-idle"@]@,
            )
            &&& enemy.sprite.animation.name@ == "enemy-flying-idle"@
            &&& enemy.sprite.animation.frame_length == frame_length_at(
                image_assets.rate_of("enemy-flying-idle"@),
            )
            &&& enemy.sprite.frame_index == 0
            &&& enemy.sprite.frame_duration == 0
            &&& !enemy.sprite.pause
            &&& enemy.sprite.scale == before.sprite.scale
        } else {
            enemy.sprite == before.sprite
        }
        &&& if turns {
            &&& enemy.state == before.state.wrapping_add(1)
            &&& enemy.tick == 0
            &&& retargeted(enemy.target_position@, world_before.camera_position)
        } else {
            &&& enemy.state == before.state
            &&& enemy.tick == tick_up_spec(before.tick)
            &&& enemy.target_position == before.target_position
        }
        &&& enemy.position == pulled(before.position, enemy.target_position@, FLYING_PULL)
    }

    /// Lets one tick pass for an enemy.
    pub fn update(
        &self,
        enemy: &mut Enemy,
        target: Vec2,
        world: &mut World,
        image_assets: &ImageAssets,
    )
        ensures
            self.updated(old(enemy), final(enemy), old(world), final(world), target, image_assets),
    {
        enemy.tick = tick_up(enemy.tick);
        enemy.weapon_tick = crate::tick_down(enemy.weapon_tick);
        if enemy.weapon_tick == 0 {
            enemy.weapon_tick = random_weapon_tick();
            Enemy::spawn_bullet(
                world,
                enemy.position,
                target,
                1,
                ENEMY_BULLET_SPEED,
                ENEMY_BULLET_RADIUS,
                "idle_animation=enemy-bullet-1-idle|firing_animation=enemy-bullet-1-firing|hit_animation=enemy-bullet-1-hit|kill_animation=enemy-bullet-1-kill|scale=1.2|",
            );
        }
        let at_entrance: bool = *enemy.sprite.get_current_animation_name() == String::from_str(
            "enemy-flying-spawn",
        );
        if at_entrance && enemy.sprite.is_end_of_animation() {
            match image_assets.get_animation_object("enemy-flying-idle") {
                Some(animation) => {
                    enemy.sprite.set_loop(true);
                    enemy.sprite.play(&animation);
                },
                None => (),
            }
        }
        if enemy.tick > enemy.maximum_tick {
            enemy.state = enemy.state.wrapping_add(1);
            enemy.tick = 0;
            random_target_position(enemy, world.camera_position);
        }
        enemy.position = pull(enemy.position, &enemy.target_position, FLYING_PULL);
    }

    /// What the death of a flying enemy adds to the world: its sound.
    pub open spec fn died(&self, world_before: &World, world: &World) -> bool {
        &&& world.asks_for_sound("flying_explode"@, "./resources/sfx/flying_explode.mp3"@, 600)
        &&& world.sounds_but(world_before, set!["flying_explode"@])
        &&& world.same_queues(world_before)
    }

    /// Called once when the enemy's health is used up.
    pub fn die(&self, _enemy: &mut Enemy, world: &mut World)
        ensures
            self.died(old(world), final(world)),
            *final(_enemy) == *old(_enemy),
    {
        world.play_sound("flying_explode", "./resources/sfx/flying_explode.mp3", 600);
    }

    /// A flying enemy is vulnerable all over.
    pub fn hit_check(&self, enemy: &Enemy, position: Vec2, radius: u32) -> (outcome: i32)
        ensures
            outcome == circle_hit_of(enemy, position, radius),
    {
        circle_hit(enemy, position, radius)
    }
}

} // verus!
