//! The crawling pop corn: an enemy that drops to the ground and then
//! patrols it, turning towards the player again and again.

use vstd::prelude::*;
use vstd::string::*;

use crate::gameplay::angle::{cosine, cosine_of, sine, sine_of};
use crate::gameplay::enemy_manager::{circle_hit, circle_hit_of, Enemy};
use crate::gameplay::extra::permille_value;
use crate::gameplay::pool::Pooled;
use crate::gameplay::random::random_u32;
use crate::gameplay::utils::{divide, quotient, saturate, saturate_i64, Vec2};
use crate::gameplay::world::World;
use crate::image_assets::{frame_length_at, ImageAssets};
use crate::sprite::{magnitude, whole_frames};

verus! {

/// Height above which a crawler counts as on the ground.
pub const CRAWLER_GROUND: i32 = -10_000;

/// Milliseconds between two turns of a crawler towards the player.
pub const CRAWLER_TURN_TIME: u128 = 1500;

/// Weapon clock below which a crawler in the air starts to fall.
pub const CRAWLER_FALL_TIME: u128 = 500;

/// Direction of a crawler that walks to the right.
pub const CRAWLER_RIGHT: i32 = 50;

/// Direction of a crawler that walks to the left.
pub const CRAWLER_LEFT: i32 = 450;

/// Largest weapon clock that counts in full for the pace of a crawler.
pub const CRAWLER_PACE_LIMIT: u128 = 1_000_000_000;

pub struct CrawlingPopCornEnemyType {}

/// The direction in which a crawler at `x` walks to reach `target`.
pub open spec fn facing(x: i32, target: Vec2) -> i32 {
    if x < target.x {
        CRAWLER_RIGHT
    } else {
        CRAWLER_LEFT
    }
}

/// How far a crawler in the air moves down in a tick: it falls, the faster
/// the lower its weapon clock, once the clock is down to
/// `CRAWLER_FALL_TIME`, and flies against its direction before that. It
/// never gets below the height zero.
pub open spec fn air_height(y: i32, rotation: i32, weapon_tick: u128) -> i32 {
    if weapon_tick <= CRAWLER_FALL_TIME {
        let fallen = saturate(y + (2000 - 4 * weapon_tick));
        if fallen > 0 {
            0
        } else {
            fallen as i32
        }
    } else {
        saturate(y - 4 * sine_of(rotation as int)) as i32
    }
}

/// How far a crawler on the ground moves sideways in a tick: the higher its
/// weapon clock, the faster.
pub open spec fn ground_pace(rotation: i32, weapon_tick: u128) -> int {
    let clock = if weapon_tick > CRAWLER_PACE_LIMIT {
        CRAWLER_PACE_LIMIT as int
    } else {
        weapon_tick as int
    };
    quotient(cosine_of(rotation as int) * 2 * clock, 1000)
}

impl CrawlingPopCornEnemyType {
    pub fn new(_image_assets: &ImageAssets) -> (crawler: CrawlingPopCornEnemyType) {
        CrawlingPopCornEnemyType {  }
    }

    pub fn enemy_type_id(&self) -> (id: i32)
        ensures
            id == 2,
    {
        2
    }

    /// What `init` does to an enemy: it becomes a crawler in the air that
    /// flies in the direction its parameters give. It stays active only if
    /// the assets hold its animation for the air.
    pub open spec fn initialized(&self, before: &Enemy, enemy: &Enemy, image_assets: &ImageAssets) -> bool {
        let found = image_assets.animations().contains_key("enemy-crawler-air"@);
        &&& enemy.ident() == before.ident()
        &&& enemy.enemy_type == 2
        &&& enemy.radius == 20_000
        &&& enemy.active == found
        &&& enemy.health == 40
        &&& enemy.life_time == 1000
        &&& enemy.rotation == permille_value(before.extra@, "rotation"@, 0)
        &&& 800 <= enemy.weapon_tick < 1600
        &&& enemy.max_health == before.max_health
        &&& enemy.maximum_tick == before.maximum_tick
        &&& enemy.hit_frame == before.hit_frame
        &&& enemy.position == before.position
        &&& enemy.frame == before.frame
        &&& enemy.tick == before.tick
        &&& enemy.state == before.state
        &&& enemy.extra == before.extra
        &&& enemy.target_position == before.target_position
        &&& enemy.sprite.scale == (Vec2 { x: 2000, y: 2000 })
        &&& enemy.sprite.is_loop == before.sprite.is_loop
        &&& if found {
            &&& enemy.sprite.animation.frames@ == whole_frames(
                image_assets.animations()["enemy-crawler-air"@]@,
            )
            &&& enemy.sprite.animation.name@ == "enemy-crawler-air"@
            &&& enemy.sprite.animation.frame_length == frame_length_at(
                image_assets.rate_of("enemy-crawler-air"@),
            )
            &&& enemy.sprite.frame_index == 0
            &&& enemy.sprite.frame_duration == 0
            &&& !enemy.sprite.pause
        } else {
            &&& enemy.sprite.animation == before.sprite.animation
            &&& enemy.sprite.frame_index == before.sprite.frame_index
            &&& enemy.sprite.frame_duration == before.sprite.frame_duration
            &&& enemy.sprite.pause == before.sprite.pause
        }
    }

    /// Winds the weapon clock up by chance: from 800 milliseconds up to
    /// 1600.
    fn random_weapon_tick(&self, enemy: &mut Enemy)
        ensures
            800 <= final(enemy).weapon_tick < 1600,
            *final(enemy) == (Enemy { weapon_tick: final(enemy).weapon_tick, ..*old(enemy) }),
    {
        let draw = random_u32();
        enemy.weapon_tick = 800 + (draw % 800) as u128;
    }

    fn update_rotation(&self, enemy: &mut Enemy, player_position: Vec2)
        ensures
            *final(enemy) == (Enemy {
                rotation: facing(old(enemy).position.x, player_position),
                ..*old(enemy)
            }),
    {
        if enemy.position.x < player_position.x {
            enemy.rotation = CRAWLER_RIGHT;
        } else {
            enemy.rotation = CRAWLER_LEFT;
        }
    }

    /// Sets an enemy up when it is activated.
    pub fn init(&self, enemy: &mut Enemy, image_assets: &ImageAssets)
        ensures
            self.initialized(old(enemy), final(enemy), image_assets),
    {
        enemy.enemy_type = self.enemy_type_id();
        enemy.radius = 20_000;
        enemy.active = true;
        enemy.health = 40;
        enemy.life_time = 1000;
        enemy.sprite.scale = Vec2::new(2000, 2000);
        enemy.rotation = enemy.extra.permille_or("rotation", 0);
        self.random_weapon_tick(enemy);
        match image_assets.get_animation_object("enemy-crawler-air") {
            Some(animation) => {
                enemy.sprite.play(&animation);
            },
            None => {
                enemy.active = false;
            },
        }
    }

    /// What `update` does to an enemy in one tick.
    ///
    /// In the air (state 0) the crawler flies or falls; see `air_height`.
    /// When that brings it to the ground it enters state 1, winds its weapon
    /// clock up, turns towards `target` and starts its idle animation; if
    /// the assets do not hold that animation it goes out. It then moves on
    /// sideways in its direction.
    ///
    /// On the ground (any other state) it walks in its direction at the
    /// pace of `ground_pace`, and when the weapon clock has run out it winds
    /// the clock up and turns towards `target` from where it then stands.
    ///
    /// In both cases the weapon clock then runs down by a tick and the
    /// sprite looks the way the crawler goes.
    pub open spec fn updated(
        &self,
        before: &Enemy,
        enemy: &Enemy,
        target: Vec2,
        image_assets: &ImageAssets,
    ) -> bool {
        let y = air_height(before.position.y, before.rotation, before.weapon_tick);
        let lands = before.state == 0 && y >= CRAWLER_GROUND;
        let found = image_assets.animations().contains_key("enemy-crawler-idle"@);
        let rewinds = before.state != 0 && before.weapon_tick == 0;
        &&& enemy.same_build(before)
        &&& enemy.health == before.health
        &&& enemy.frame == before.frame
        &&& enemy.tick == before.tick
        &&& enemy.extra == before.extra
        &&& enemy.target_position == before.target_position
        &&& enemy.state == if lands {
            1
        } else {
            before.state
        }
        &&& enemy.rotation == if lands {
            facing(before.position.x, target)
        } else if rewinds {
            facing(enemy.position.x, target)
        } else {
            before.rotation
        }
        &&& enemy.weapon_tick == crate::tick_down_spec(
            if lands || rewinds {
                CRAWLER_TURN_TIME
            } else {
                before.weapon_tick
            },
        )
        &&& enemy.active == (before.active && !(lands && !found))
        &&& enemy.position == if before.state == 0 {
            Vec2 {
                x: saturate(before.position.x + 4 * cosine_of(enemy.rotation as int)) as i32,
                y,
            }
        } else {
            Vec2 {
                x: saturate(
                    before.position.x + ground_pace(before.rotation, before.weapon_tick),
                ) as i32,
                y: before.position.y,
            }
        }
        &&& enemy.sprite.scale.y == before.sprite.scale.y
        &&& enemy.sprite.scale.x == if 250 < enemy.rotation < 750 {
            (-magnitude(before.sprite.scale.x)) as i32
        } else {
            magnitude(before.sprite.scale.x)
        }
        &&& enemy.sprite.is_loop == before.sprite.is_loop
        &&& if lands && found {
            &&& enemy.sprite.animation.frames@ == whole_frames(
                image_assets.animations()["enemy-crawler-idle"@]@,
            )
            &&& enemy.sprite.animation.name@ == "enemy-crawler-idle"@
            &&& enemy.sprite.animation.frame_length == frame_length_at(
                image_assets.rate_of("enemy-crawler-idle"@),
            )
            &&& enemy.sprite.frame_index == 0
            &&& enemy.sprite.frame_duration == 0
            &&& !enemy.sprite.pause
        } else {
            &&& enemy.sprite.animation == before.sprite.animation
            &&& enemy.sprite.frame_index == before.sprite.frame_index
            &&& enemy.sprite.frame_duration == before.sprite.frame_duration
            &&& enemy.sprite.pause == before.sprite.pause
        }
    }

    /// Lets one tick pass for an enemy.
    pub fn update(&self, enemy: &mut Enemy, target: Vec2, image_assets: &ImageAssets)
        ensures
            self.updated(old(enemy), final(enemy), target, image_assets),
    {
        if enemy.state == 0 {
            if enemy.weapon_tick <= CRAWLER_FALL_TIME {
                let drop: i64 = 2000 - 4 * (enemy.weapon_tick as i64);
                let fallen: i32 = saturate_i64(enemy.position.y as i64 + drop);
                enemy.position.y = if fallen > 0 {
                    0
                } else {
                    fallen
                };
            } else {
                let rise: i64 = 4 * (sine(enemy.rotation) as i64);
                enemy.position.y = saturate_i64(enemy.position.y as i64 - rise);
            }
            if enemy.position.y >= CRAWLER_GROUND {
                enemy.state = 1;
                enemy.weapon_tick = CRAWLER_TURN_TIME;
                self.update_rotation(enemy, target);
                match image_assets.get_animation_object("enemy-crawler-idle") {
                    Some(animation) => {
                        enemy.sprite.play(&animation);
                    },
                    None => {
                        enemy.active = false;
                    },
                }
            }
            let run: i64 = 4 * (cosine(enemy.rotation) as i64);
            enemy.position.x = saturate_i64(enemy.position.x as i64 + run);
        } else {
            let clock: i64 = if enemy.weapon_tick > CRAWLER_PACE_LIMIT {
                CRAWLER_PACE_LIMIT as i64
            } else {
                enemy.weapon_tick as i64
            };
            let c: i64 = cosine(enemy.rotation) as i64;
            assert(-2_000_000_000_000 <= c * 2 * clock <= 2_000_000_000_000) by (nonlinear_arith)
                requires
                    -1000 <= c <= 1000,
                    0 <= clock <= 1_000_000_000,
            ;
            let pace: i64 = divide(c * 2 * clock, 1000);
            enemy.position.x = saturate_i64(enemy.position.x as i64 + pace);
            if enemy.weapon_tick == 0 {
                enemy.weapon_tick = CRAWLER_TURN_TIME;
                self.update_rotation(enemy, target);
            }
        }
        enemy.weapon_tick = crate::tick_down(enemy.weapon_tick);
        if enemy.rotation > 250 && enemy.rotation < 750 {
            enemy.sprite.flip_x(true);
        } else {
            enemy.sprite.flip_x(false);
        }
    }

    /// What the death of a crawler adds to the world: its sound.
    pub open spec fn died(&self, world_before: &World, world: &World) -> bool {
        &&& world.asks_for_sound("crawl_explode"@, "./resources/sfx/crawl_explode.mp3"@, 800)
        &&& world.sounds_but(world_before, set!["crawl_explode"@])
        &&& world.same_queues(world_before)
    }

    /// Called once when the enemy's health is used up.
    pub fn die(&self, _enemy: &mut Enemy, world: &mut World)
        ensures
            self.died(old(world), final(world)),
            *final(_enemy) == *old(_enemy),
    {
        world.play_sound("crawl_explode", "./resources/sfx/crawl_explode.mp3", 800);
    }

    /// A crawler is vulnerable all over.
    pub fn hit_check(&self, enemy: &Enemy, position: Vec2, radius: u32) -> (outcome: i32)
        ensures
            outcome == circle_hit_of(enemy, position, radius),
    {
        circle_hit(enemy, position, radius)
    }
}

} // verus!
