//! The explosion: a particle that plays one animation and is gone.

use vstd::prelude::*;
use vstd::string::*;

use crate::gameplay::number::{parse_u128, unsigned_text};
use crate::gameplay::particle_manager::Particle;
use crate::gameplay::pool::Pooled;
use crate::gameplay::table::NameTable;
use crate::image_assets::{frame_length_at, ImageAssets};
use crate::sprite::{whole_frames, AnimationMultiTextures, FrameRectangle};

verus! {

/// Milliseconds an explosion lasts at most.
pub const EXPLOSION_LIFE_TIME: u128 = 1500;

pub struct ExplosionParticleType {
    /// The animations played so far, by name.
    animations: NameTable<AnimationMultiTextures>,
}

/// The name of the animation that the particle asks for in its extra
/// parameters; empty if it asks for none.
pub open spec fn wanted_animation(particle: &Particle) -> Seq<char> {
    if particle.extra@.contains_key("idle_animation"@) {
        particle.extra@["idle_animation"@]
    } else {
        ""@
    }
}

/// Whether the particle's extra parameters ask for a mirrored sprite.
pub open spec fn wants_flip(particle: &Particle) -> Option<bool> {
    if particle.extra@.contains_key("flip_x"@) {
        Some(unsigned_text(particle.extra@["flip_x"@]) == Some(1nat))
    } else {
        None
    }
}

impl ExplosionParticleType {
    /// The animations kept from earlier particles.
    pub closed spec fn kept(&self) -> Map<Seq<char>, AnimationMultiTextures> {
        self.animations@
    }

    /// Whether an animation of this name can be played: it was kept from
    /// an earlier particle, or the assets hold it.
    pub open spec fn knows(&self, name: Seq<char>, image_assets: &ImageAssets) -> bool {
        self.kept().contains_key(name) || image_assets.animations().contains_key(name)
    }

    /// The frames of the animation `name`.
    pub open spec fn frames_of(&self, name: Seq<char>, image_assets: &ImageAssets) -> Seq<
        FrameRectangle,
    > {
        if self.kept().contains_key(name) {
            self.kept()[name].frames@
        } else {
            whole_frames(image_assets.animations()[name]@)
        }
    }

    /// Milliseconds per frame of the animation `name`.
    pub open spec fn frame_length_of(&self, name: Seq<char>, image_assets: &ImageAssets) -> u64 {
        if self.kept().contains_key(name) {
            self.kept()[name].frame_length
        } else {
            frame_length_at(image_assets.rate_of(name))
        }
    }

    pub fn new(_image_assets: &ImageAssets) -> (explosion: ExplosionParticleType)
        ensures
            explosion.kept() == Map::<Seq<char>, AnimationMultiTextures>::empty(),
    {
        ExplosionParticleType { animations: NameTable::new() }
    }

    /// Keeps the animation `animation_name` if the assets hold it and it is
    /// not kept already.
    fn prepare_explosion_animation(&mut self, animation_name: &str, image_assets: &ImageAssets)
        ensures
            final(self).kept().contains_key(animation_name@) == old(self).knows(
                animation_name@,
                image_assets,
            ),
            old(self).knows(animation_name@, image_assets) ==> {
                &&& final(self).kept()[animation_name@].frames@ == old(self).frames_of(
                    animation_name@,
                    image_assets,
                )
                &&& final(self).kept()[animation_name@].frame_length == old(self).frame_length_of(
                    animation_name@,
                    image_assets,
                )
                &&& old(self).kept().contains_key(animation_name@) ==> final(self).kept()
                    == old(self).kept()
                &&& !old(self).kept().contains_key(animation_name@)
                    ==> final(self).kept()[animation_name@].name@ == animation_name@
            },
            forall|k: Seq<char>|
                k != animation_name@ ==> (final(self).kept().contains_key(k)
                    == old(self).kept().contains_key(k)),
            forall|k: Seq<char>|
                k != animation_name@ && old(self).kept().contains_key(k) ==> final(self).kept()[k]
                    == old(self).kept()[k],
    {
        if !self.animations.contains_key(animation_name) {
            match image_assets.get_animation_object(animation_name) {
                Some(default_animation) => {
                    self.animations.insert(String::from_str(animation_name), default_animation);
                },
                None => (),
            }
        }
    }

    pub fn particle_type_id(&self) -> (id: u128)
        ensures
            id == 1,
    {
        1
    }

    /// What `init` does to a particle and to the animations kept: it
    /// starts the animation that the particle's parameters name and gives
    /// the particle its life time, if that animation can be played, and
    /// mirrors the sprite if the parameters ask for it.
    pub open spec fn initialized(
        &self,
        after: &ExplosionParticleType,
        before: &Particle,
        particle: &Particle,
        image_assets: &ImageAssets,
    ) -> bool {
        let name = wanted_animation(before);
        &&& particle.ident() == before.ident()
        &&& particle.extra == before.extra
        &&& particle.particle_type_number == before.particle_type_number
        &&& particle.position == before.position
        &&& particle.rotation == before.rotation
        &&& particle.velocity == before.velocity
        &&& particle.frame == before.frame
        &&& particle.face_right == before.face_right
        &&& self.knows(name, image_assets) ==> {
            &&& particle.active == before.active
            &&& particle.life_time == EXPLOSION_LIFE_TIME
            &&& particle.sprite.animation.frames@ == self.frames_of(name, image_assets)
            &&& particle.sprite.animation.frame_length == self.frame_length_of(name, image_assets)
            &&& particle.sprite.frame_index == 0
            &&& particle.sprite.frame_duration == 0
            &&& !particle.sprite.pause
        }
        &&& !self.knows(name, image_assets) ==> {
            &&& particle.active
            &&& particle.life_time == before.life_time
            &&& particle.sprite.animation == before.sprite.animation
            &&& particle.sprite.frame_index == before.sprite.frame_index
            &&& particle.sprite.frame_duration == before.sprite.frame_duration
            &&& particle.sprite.pause == before.sprite.pause
        }
        &&& particle.sprite.is_loop == before.sprite.is_loop
        &&& particle.sprite.scale.y == before.sprite.scale.y
        &&& particle.sprite.scale.x == match wants_flip(before) {
            Some(true) => (-crate::sprite::magnitude(before.sprite.scale.x)) as i32,
            Some(false) => crate::sprite::magnitude(before.sprite.scale.x),
            None => before.sprite.scale.x,
        }
        &&& after.kept().contains_key(name) == self.knows(name, image_assets)
    }

    /// What `update` does to a particle in one tick: the animation moves
    /// on and the life time runs down. The particle goes out when its life
    /// time is used up or its animation has ended.
    pub open spec fn updated(&self, before: &Particle, particle: &Particle) -> bool {
        &&& particle.sprite == before.sprite.advanced().0
        &&& particle.life_time == crate::tick_down_spec(before.life_time)
        &&& particle.active == (before.active && before.life_time >= crate::ONE_FRAME
            && !before.sprite.advanced().0.at_end())
        &&& particle.same_but_clock(before)
    }

    /// Sets a particle up when it is activated.
    pub fn init(&mut self, particle: &mut Particle, image_assets: &ImageAssets)
        ensures
            old(self).initialized(final(self), old(particle), final(particle), image_assets),
    {
        let animation_name: String = match particle.extra.get("idle_animation") {
            Some(name) => name.clone(),
            None => String::from_str(""),
        };
        self.prepare_explosion_animation(animation_name.as_str(), image_assets);
        match self.animations.get(animation_name.as_str()) {
            Some(animation) => {
                particle.life_time = EXPLOSION_LIFE_TIME;
                particle.sprite.play(animation);
            },
            None => {
                particle.active = true;
            },
        }
        let flip: Option<bool> = match particle.extra.get("flip_x") {
            Some(v) => Some(is_one(v.as_str())),
            None => None,
        };
        match flip {
            Some(b) => {
                particle.sprite.flip_x(b);
            },
            None => (),
        }
    }

    /// Lets one tick pass for a particle.
    pub fn update(&self, particle: &mut Particle)
        ensures
            self.updated(old(particle), final(particle)),
    {
        particle.sprite.update();
        match particle.life_time.checked_sub(crate::ONE_FRAME) {
            Some(v) => {
                particle.life_time = v;
            },
            None => {
                particle.life_time = 0;
                particle.active = false;
            },
        }
        if particle.sprite.is_end_of_animation() {
            particle.active = false;
        }
    }
}

/// Whether `text` is a way of writing the number one.
fn is_one(text: &str) -> (one: bool)
    ensures
        one == (unsigned_text(text@) == Some(1nat)),
{
    match parse_u128(text) {
        Some(v) => v == 1,
        None => false,
    }
}

} // verus!
