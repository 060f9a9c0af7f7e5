//! The bullet that flies straight on at the speed it was fired with.

use vstd::prelude::*;
use vstd::string::*;

use crate::gameplay::angle::{step, step_of};
use crate::gameplay::bullet_pool::Bullet;
use crate::gameplay::extra::text_value;
use crate::gameplay::pool::Pooled;
use crate::image_assets::{frame_length_at, ImageAssets};
use crate::sprite::whole_frames;

verus! {

/// Milliseconds a bullet may spend outside the visible area.
pub const BULLET_LIFE_TIME: u128 = 100;

/// Hits a bullet can take or deal before it is spent.
pub const BULLET_HEALTH: i32 = 2;

pub struct ConstantVelocityBulletType {}

impl ConstantVelocityBulletType {
    pub fn new() -> (bullet_type: ConstantVelocityBulletType) {
        ConstantVelocityBulletType {  }
    }

    /// The number under which the behaviour is kept in the type bank.
    pub fn bullet_type_id(&self) -> (id: i32)
        ensures
            id == 1,
    {
        1
    }

    /// What `setup` does to a bullet: it gets its life time and health,
    /// and its sprite starts the animation that the parameter
    /// `idle_animation` names, if the assets hold it.
    pub open spec fn set_up(&self, before: &Bullet, bullet: &Bullet, image_assets: &ImageAssets) -> bool {
        let name = text_value(before.extra@, "idle_animation"@);
        &&& bullet.life_time == BULLET_LIFE_TIME
        &&& bullet.health == BULLET_HEALTH
        &&& bullet.same_but_vitals(before)
        &&& bullet.active == before.active
        &&& bullet.position == before.position
        &&& bullet.previous_position == before.previous_position
        &&& bullet.sprite.is_loop == before.sprite.is_loop
        &&& bullet.sprite.scale == before.sprite.scale
        &&& if image_assets.animations().contains_key(name) {
            &&& bullet.sprite.animation.frames@ == whole_frames(image_assets.animations()[name]@)
            &&& bullet.sprite.animation.name@ == name
            &&& bullet.sprite.animation.frame_length == frame_length_at(image_assets.rate_of(name))
            &&& bullet.sprite.frame_index == 0
            &&& bullet.sprite.frame_duration == 0
            &&& !bullet.sprite.pause
        } else {
            bullet.sprite == before.sprite
        }
    }

    /// What `update` does to a bullet in one tick: it moves one step of
    /// its speed in its direction, and its animation moves on.
    pub open spec fn updated(&self, before: &Bullet, bullet: &Bullet) -> bool {
        &&& bullet.position == before.position.moved(
            step_of(before.rotation as int, before.speed as int).x as int,
            step_of(before.rotation as int, before.speed as int).y as int,
        )
        &&& bullet.sprite == before.sprite.advanced().0
        &&& bullet.same_but_vitals(before)
        &&& bullet.life_time == before.life_time
        &&& bullet.health == before.health
        &&& bullet.active == before.active
        &&& bullet.previous_position == before.previous_position
    }

    /// Sets a bullet up when it is activated.
    pub fn setup(&mut self, bullet: &mut Bullet, image_assets: &ImageAssets)
        ensures
            old(self).set_up(old(bullet), final(bullet), image_assets),
    {
        bullet.life_time = BULLET_LIFE_TIME;
        bullet.health = BULLET_HEALTH;
        let idle_animation_name = bullet.extra.text_or_empty("idle_animation");
        match image_assets.get_animation_object(idle_animation_name.as_str()) {
            Some(animation) => {
                bullet.sprite.play(&animation);
            },
            None => (),
        }
    }

    /// Lets one tick pass for a bullet.
    pub fn update(&self, bullet: &mut Bullet)
        ensures
            self.updated(old(bullet), final(bullet)),
    {
        let v = step(bullet.rotation, bullet.speed);
        bullet.position = bullet.position.plus(v);
        bullet.sprite.update();
    }
}

} // verus!
