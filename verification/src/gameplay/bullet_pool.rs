//! Bullets: the records, the requests that fire them, the behaviours that
//! move them, and the pool that recycles them.

use std::collections::HashMap;

use vstd::multiset::*;
use vstd::prelude::*;
use vstd::string::*;

use crate::gameplay::bullet_types::constant_velocity::ConstantVelocityBulletType;
use crate::gameplay::extra::{decode, permille_value, text_value, ExtraError, ExtraParams};
use crate::gameplay::particle_manager::{ParticleDrawLayer, ParticleSpawnNode};
use crate::gameplay::pool::{
    bag, casualties, full_bag, idents, lemma_bag_drop_last, lemma_bag_empty, lemma_bag_len,
    lemma_bag_push, lemma_bag_split, lemma_bag_update, lemma_full_bag, lemma_full_bag_grow,
    release_inactive,
    survivors, Pooled,
};
use crate::gameplay::utils::{inside_camera_area, is_inside_camera_area, Vec2};
use crate::gameplay::world::World;
use crate::image_assets::ImageAssets;
use crate::sprite::Sprite;

verus! {

/// The side that fired a bullet.
#[derive(Copy, Clone, Debug, PartialEq, Eq, Structural)]
pub enum BulletOwner {
    /// Nobody. A bullet without owner goes straight back to the pool.
    NONE,
    /// The player with the given number.
    PLAYER(i32),
    /// An enemy.
    ENEMY,
}

pub struct Bullet {
    /// Which record of the pool this is. Exists in proofs only.
    pub id: Ghost<nat>,
    pub active: bool,
    /// Which behaviour of the type bank drives the bullet.
    pub bullet_type: i32,
    pub owner_type: BulletOwner,
    /// Milliseconds the bullet may still spend outside the visible area.
    pub life_time: u128,
    pub position: Vec2,
    /// Where the bullet was one tick ago.
    pub previous_position: Vec2,
    /// Direction of flight, in thousandths of a turn.
    pub rotation: i32,
    /// Distance covered per tick.
    pub speed: i32,
    /// Radius used for hit tests.
    pub radius: u32,
    pub health: i32,
    pub damage: u32,
    pub extra: ExtraParams,
    pub sprite: Sprite,
}

impl Pooled for Bullet {
    open spec fn ident(&self) -> nat {
        self.id@
    }

    open spec fn live(&self) -> bool {
        self.active
    }

    open spec fn blank(&self) -> bool {
        &&& !self.active
        &&& self.bullet_type == 0
        &&& self.owner_type == BulletOwner::NONE
        &&& self.life_time == 0
        &&& self.position == (Vec2 { x: 0, y: 0 })
        &&& self.previous_position == (Vec2 { x: 0, y: 0 })
        &&& self.rotation == 0
        &&& self.speed == 0
        &&& self.radius == 1000
        &&& self.health == 1
        &&& self.damage == 1
        &&& self.extra@ == Map::<Seq<char>, Seq<char>>::empty()
        &&& self.sprite.is_fresh()
    }

    fn is_live(&self) -> (live: bool) {
        self.active
    }

    fn release(&mut self) {
        self.reset();
    }
}

impl Bullet {
    /// Whether the two bullets agree in everything but activity, life
    /// time, health, position, former position and sprite.
    pub open spec fn same_but_vitals(&self, other: &Bullet) -> bool {
        &&& self.ident() == other.ident()
        &&& self.bullet_type == other.bullet_type
        &&& self.owner_type == other.owner_type
        &&& self.rotation == other.rotation
        &&& self.speed == other.speed
        &&& self.radius == other.radius
        &&& self.damage == other.damage
        &&& self.extra == other.extra
    }

    pub fn new() -> (bullet: Bullet)
        ensures
            bullet.blank(),
    {
        Bullet::with_ident(Ghost(0))
    }

    pub(crate) fn with_ident(id: Ghost<nat>) -> (bullet: Bullet)
        ensures
            bullet.blank(),
            bullet.ident() == id@,
    {
        Bullet {
            id,
            active: false,
            bullet_type: 0,
            owner_type: BulletOwner::NONE,
            life_time: 0,
            position: Vec2::zero(),
            previous_position: Vec2::zero(),
            rotation: 0,
            speed: 0,
            radius: 1000,
            health: 1,
            damage: 1,
            extra: ExtraParams::new(),
            sprite: Sprite::new(),
        }
    }

    /// Brings every field back to the value a new bullet has. The bullet
    /// stays the record it is.
    pub fn reset(&mut self)
        ensures
            final(self).blank(),
            final(self).ident() == old(self).ident(),
    {
        self.active = false;
        self.bullet_type = 0;
        self.owner_type = BulletOwner::NONE;
        self.life_time = 0;
        self.position = Vec2::zero();
        self.previous_position = Vec2::zero();
        self.rotation = 0;
        self.speed = 0;
        self.radius = 1000;
        self.health = 1;
        self.damage = 1;
        self.extra.clear();
        self.sprite.reset();
    }

    /// Decodes `raw_extra` into the bullet's extra parameters.
    pub fn parsing_extra(&mut self, raw_extra: &str) -> (outcome: Result<(), ExtraError>)
        ensures
            final(self).extra@ == decode(raw_extra@, old(self).extra@).0,
            match outcome {
                Ok(_) => decode(raw_extra@, old(self).extra@).1 is None,
                Err(e) => decode(raw_extra@, old(self).extra@).1 == Some(e.token@) && e.raw@
                    == raw_extra@,
            },
            final(self).ident() == old(self).ident(),
            final(self).active == old(self).active,
            final(self).bullet_type == old(self).bullet_type,
            final(self).owner_type == old(self).owner_type,
            final(self).life_time == old(self).life_time,
            final(self).position == old(self).position,
            final(self).previous_position == old(self).previous_position,
            final(self).rotation == old(self).rotation,
            final(self).speed == old(self).speed,
            final(self).radius == old(self).radius,
            final(self).health == old(self).health,
            final(self).damage == old(self).damage,
            final(self).sprite == old(self).sprite,
    {
        self.extra.parsing_extra(raw_extra)
    }
}

/// Whether a direction points to the left: more than a quarter and less than
/// three quarters of a turn, counted from the right.
pub open spec fn points_left(rotation: i32) -> bool {
    let turned = if rotation < 0 {
        rotation + 1000
    } else {
        rotation as int
    };
    250 < turned < 750
}

/// Whether a direction points to the left.
pub fn is_pointing_left(rotation: i32) -> (left: bool)
    ensures
        left == points_left(rotation),
{
    let turned: i64 = if rotation < 0 {
        rotation as i64 + 1000
    } else {
        rotation as i64
    };
    turned > 250 && turned < 750
}

impl Bullet {
    /// The bullet as the behaviour of its type finds it in a tick: where
    /// it is now is where it was.
    pub open spec fn remembered(&self) -> Bullet {
        Bullet { previous_position: self.position, ..*self }
    }

    /// What the end of a tick does to a moved bullet: outside the visible
    /// area its life time runs down, and a bullet without life time or
    /// health goes out.
    pub open spec fn settled(&self, camera: Vec2) -> Bullet {
        let life_time = if inside_camera_area(camera, self.position, self.radius) {
            self.life_time
        } else {
            crate::tick_down_spec(self.life_time)
        };
        Bullet {
            life_time,
            active: self.active && life_time != 0 && self.health != 0,
            ..*self
        }
    }

    /// What one tick does to a bullet: the behaviour of its type moves it,
    /// if the bank holds that type, and then the bullet settles.
    pub open spec fn stepped(&self, bullet: &Bullet, bank: &BulletTypeBank, camera: Vec2) -> bool {
        exists|moved: Bullet|
            {
                &&& if bank.types@.contains_key(self.bullet_type) {
                    bank.types@[self.bullet_type].updated(&self.remembered(), &moved)
                } else {
                    moved == self.remembered()
                }
                &&& *bullet == #[trigger] moved.settled(camera)
            }
    }

    /// Lets one tick pass.
    pub fn update(&mut self, bank: &BulletTypeBank, camera: Vec2)
        ensures
            old(self).stepped(final(self), bank, camera),
            final(self).ident() == old(self).ident(),
    {
        self.previous_position = self.position;
        match bank.get(self.bullet_type) {
            Some(t) => {
                t.update(self);
            },
            None => (),
        }
        let ghost moved = *self;
        if !is_inside_camera_area(camera, self.position, self.radius) {
            self.life_time = crate::tick_down(self.life_time);
        }
        if self.life_time == 0 || self.health == 0 {
            self.active = false;
        }
        assert(*self == moved.settled(camera));
    }

    /// Asks for the effect of a bullet being fired.
    pub fn spawn_firing_particle(world: &mut World, position: Vec2, raw_extra: &str)
        ensures
            final(world).particle_spawn_nodes@.len() == old(world).particle_spawn_nodes@.len() + 1,
            final(world).particle_spawn_nodes@.drop_last() == old(world).particle_spawn_nodes@,
            final(world).particle_spawn_nodes@.last().is_request(
                1,
                position,
                ParticleDrawLayer::FiringBullet,
                raw_extra@,
            ),
            final(world).same_but_particles(old(world)),
    {
        Self::spawn_particle(world, position, ParticleDrawLayer::FiringBullet, raw_extra);
    }

    /// Asks for the effect of a bullet hitting something.
    pub fn spawn_hitting_particle(world: &mut World, position: Vec2, raw_extra: &str)
        ensures
            final(world).particle_spawn_nodes@.len() == old(world).particle_spawn_nodes@.len() + 1,
            final(world).particle_spawn_nodes@.drop_last() == old(world).particle_spawn_nodes@,
            final(world).particle_spawn_nodes@.last().is_request(
                1,
                position,
                ParticleDrawLayer::BulletHit,
                raw_extra@,
            ),
            final(world).same_but_particles(old(world)),
    {
        Self::spawn_particle(world, position, ParticleDrawLayer::BulletHit, raw_extra);
    }

    fn spawn_particle(
        world: &mut World,
        position: Vec2,
        draw_layer: ParticleDrawLayer,
        raw_extra: &str,
    )
        ensures
            final(world).particle_spawn_nodes@.len() == old(world).particle_spawn_nodes@.len() + 1,
            final(world).particle_spawn_nodes@.drop_last() == old(world).particle_spawn_nodes@,
            final(world).particle_spawn_nodes@.last().is_request(1, position, draw_layer, raw_extra@),
            final(world).same_but_particles(old(world)),
    {
        world.request_particle(ParticleSpawnNode::new(1, position, draw_layer, raw_extra));
        assert(world.particle_spawn_nodes@.drop_last() == old(world).particle_spawn_nodes@);
    }
}

/// The behaviours a bullet can have.
pub enum BulletType {
    ConstantVelocity(ConstantVelocityBulletType),
}

impl BulletType {
    /// The number under which the behaviour is kept in the type bank.
    pub open spec fn type_id(&self) -> i32 {
        match self {
            BulletType::ConstantVelocity(_) => 1,
        }
    }

    /// What `setup` does; see the behaviour's own description.
    pub open spec fn set_up(&self, before: &Bullet, bullet: &Bullet, image_assets: &ImageAssets) -> bool {
        match self {
            BulletType::ConstantVelocity(t) => t.set_up(before, bullet, image_assets),
        }
    }

    /// What `update` does; see the behaviour's own description.
    pub open spec fn updated(&self, before: &Bullet, bullet: &Bullet) -> bool {
        match self {
            BulletType::ConstantVelocity(t) => t.updated(before, bullet),
        }
    }

    pub fn bullet_type_id(&self) -> (id: i32)
        ensures
            id == self.type_id(),
    {
        match self {
            BulletType::ConstantVelocity(t) => t.bullet_type_id(),
        }
    }

    /// Sets a bullet up when it is activated.
    pub fn setup(&mut self, bullet: &mut Bullet, image_assets: &ImageAssets)
        ensures
            old(self).set_up(old(bullet), final(bullet), image_assets),
            final(bullet).ident() == old(bullet).ident(),
            *final(self) == *old(self),
    {
        match self {
            BulletType::ConstantVelocity(t) => t.setup(bullet, image_assets),
        }
    }

    /// Lets one tick pass for a bullet.
    pub fn update(&self, bullet: &mut Bullet)
        ensures
            self.updated(old(bullet), final(bullet)),
            final(bullet).ident() == old(bullet).ident(),
    {
        match self {
            BulletType::ConstantVelocity(t) => t.update(bullet),
        }
    }
}

/// The behaviours bullets can have, by type number.
pub struct BulletTypeBank {
    pub types: HashMap<i32, BulletType>,
}

impl BulletTypeBank {
    pub fn new() -> (bank: BulletTypeBank)
        ensures
            bank.types@ == Map::<i32, BulletType>::empty(),
    {
        BulletTypeBank { types: HashMap::new() }
    }

    /// The behaviour kept under `number`.
    pub fn get(&self, number: i32) -> (found: Option<&BulletType>)
        ensures
            match found {
                Some(t) => self.types@.contains_key(number) && self.types@[number] == *t,
                None => !self.types@.contains_key(number),
            },
    {
        broadcast use vstd::std_specs::hash::group_hash_axioms;

        self.types.get(&number)
    }

    /// Keeps `bullet_type` under `number`, in place of what was kept there.
    pub fn add(&mut self, number: i32, bullet_type: BulletType)
        ensures
            final(self).types@ == old(self).types@.insert(number, bullet_type),
    {
        broadcast use vstd::std_specs::hash::group_hash_axioms;

        self.types.insert(number, bullet_type);
    }

    /// Takes the behaviour kept under `number` out of the bank.
    pub fn take(&mut self, number: i32) -> (taken: Option<BulletType>)
        ensures
            match taken {
                Some(t) => old(self).types@.contains_key(number) && old(self).types@[number] == t,
                None => !old(self).types@.contains_key(number),
            },
            final(self).types@ == old(self).types@.remove(number),
    {
        broadcast use vstd::std_specs::hash::group_hash_axioms;

        self.types.remove(&number)
    }

    /// Puts the behaviours of the game into the bank.
    pub fn setup(&mut self, _image_assets: &ImageAssets)
        ensures
            final(self).types@ == old(self).types@.insert(
                1,
                BulletType::ConstantVelocity(ConstantVelocityBulletType {  }),
            ),
    {
        let bullet_type = ConstantVelocityBulletType::new();
        let id = bullet_type.bullet_type_id();
        self.add(id, BulletType::ConstantVelocity(bullet_type));
    }

    pub fn clear(&mut self)
        ensures
            final(self).types@ == Map::<i32, BulletType>::empty(),
    {
        self.types.clear();
    }
}

/// A request for one bullet.
pub struct BulletSpawnNode {
    pub bullet_type: i32,
    pub position: Vec2,
    pub owner_type: BulletOwner,
    /// Direction of flight, in thousandths of a turn.
    pub rotation: i32,
    /// Distance covered per tick.
    pub speed: i32,
    /// Radius used for hit tests.
    pub radius: u32,
    pub extra: String,
}

/// Size of the area around a fired bullet in which its firing effect
/// appears.
pub const FIRING_SPREAD: u32 = 16_000;

/// Number of bullets below which the pool counts as almost used up.
pub const LOW_POOL: usize = 10;

/// The state in which a request leaves a bullet before the behaviour of its
/// type sets it up: active, with the fields of the request, the request's
/// parameters decoded and the sprite scaled as they say.
pub open spec fn armed(bullet: &Bullet, node: &BulletSpawnNode) -> bool {
    &&& bullet.active
    &&& bullet.bullet_type == node.bullet_type
    &&& bullet.owner_type == node.owner_type
    &&& bullet.life_time == 0
    &&& bullet.position == node.position
    &&& bullet.previous_position == (Vec2 { x: 0, y: 0 })
    &&& bullet.rotation == node.rotation
    &&& bullet.speed == node.speed
    &&& bullet.radius == node.radius
    &&& bullet.health == 1
    &&& bullet.damage == 1
    &&& bullet.extra@ == decode(node.extra@, Map::empty()).0
    &&& bullet.sprite.is_loop
    &&& bullet.sprite.scale.x == permille_value(bullet.extra@, "scale"@, 1000)
    &&& bullet.sprite.scale.y == permille_value(bullet.extra@, "scale"@, 1000)
    &&& bullet.sprite.frame_index == 0
    &&& bullet.sprite.frame_duration == 0
    &&& !bullet.sprite.pause
    &&& bullet.sprite.animation.frames@.len() == 0
}

/// What activating a bullet for a request comes to: the bullet is armed
/// and then set up by the behaviour of its type, if the bank holds that
/// type.
pub open spec fn activated(
    bullet: &Bullet,
    node: &BulletSpawnNode,
    bank: &BulletTypeBank,
    image_assets: &ImageAssets,
) -> bool {
    exists|ready: Bullet|
        {
            &&& #[trigger] armed(&ready, node)
            &&& ready.ident() == bullet.ident()
            &&& if bank.types@.contains_key(node.bullet_type) {
                bank.types@[node.bullet_type].set_up(&ready, bullet, image_assets)
            } else {
                *bullet == ready
            }
        }
}

/// The request for the firing effect of a bullet: it appears near the
/// bullet, moved off by two draws, plays the animation that the bullet's
/// parameter `firing_animation` names, and looks the way the bullet flies.
pub open spec fn is_firing_effect(
    effect: &ParticleSpawnNode,
    node: &BulletSpawnNode,
    draw_x: u32,
    draw_y: u32,
) -> bool {
    effect.is_request(
        1,
        node.position.moved(
            crate::gameplay::random::jitter_of(FIRING_SPREAD, draw_x),
            crate::gameplay::random::jitter_of(FIRING_SPREAD, draw_y),
        ),
        ParticleDrawLayer::FiringBullet,
        crate::gameplay::extra::effect_text(
            text_value(decode(node.extra@, Map::empty()).0, "firing_animation"@),
            points_left(node.rotation),
        ) + "scale="@ + "2.5"@ + "|"@,
    )
}

/// Activates a bullet for a request: the bullet is reset and armed, the
/// firing effect is asked for, and the behaviour of the bullet's type sets
/// the bullet up. Malformed parameters leave the bullet blank and the world
/// as it was.
pub fn activate_bullet(
    bullet: &mut Bullet,
    node: &BulletSpawnNode,
    bank: &mut BulletTypeBank,
    image_assets: &ImageAssets,
    world: &mut World,
    draw_x: u32,
    draw_y: u32,
) -> (outcome: Result<(), ExtraError>)
    ensures
        final(bullet).ident() == old(bullet).ident(),
        final(bank).types@ == old(bank).types@,
        match outcome {
            Ok(_) => {
                &&& decode(node.extra@, Map::empty()).1 is None
                &&& activated(final(bullet), node, old(bank), image_assets)
                &&& final(bullet).owner_type == node.owner_type
                &&& final(world).particle_spawn_nodes@.len() == old(world).particle_spawn_nodes@.len() + 1
                &&& final(world).particle_spawn_nodes@.drop_last() == old(world).particle_spawn_nodes@
                &&& is_firing_effect(
                    &final(world).particle_spawn_nodes@.last(),
                    node,
                    draw_x,
                    draw_y,
                )
                &&& final(world).same_but_particles(old(world))
            },
            Err(e) => {
                &&& decode(node.extra@, Map::empty()).1 == Some(e.token@)
                &&& final(bullet).blank()
                &&& *final(world) == *old(world)
            },
        },
{
    bullet.reset();
    bullet.active = true;
    bullet.bullet_type = node.bullet_type;
    bullet.owner_type = node.owner_type;
    bullet.position = node.position;
    bullet.rotation = node.rotation;
    bullet.speed = node.speed;
    bullet.radius = node.radius;
    match bullet.parsing_extra(node.extra.as_str()) {
        Ok(_) => {},
        Err(e) => {
            bullet.reset();
            return Err(e);
        },
    }
    let scale: i32 = bullet.extra.permille_or("scale", 1000);
    bullet.sprite.scale = Vec2::new(scale, scale);
    let firing_animation = bullet.extra.text_or_empty("firing_animation");
    let random_position = Vec2::new(
        crate::gameplay::random::jitter(FIRING_SPREAD, draw_x),
        crate::gameplay::random::jitter(FIRING_SPREAD, draw_y),
    );
    let flipped = is_pointing_left(bullet.rotation);
    let effect = crate::gameplay::extra::scaled_effect_params(
        firing_animation.as_str(),
        flipped,
        "2.5",
    );
    Bullet::spawn_firing_particle(world, bullet.position.plus(random_position), effect.as_str());
    let ghost ready = *bullet;
    assert(armed(&ready, node));
    match bank.take(node.bullet_type) {
        Some(mut t) => {
            t.setup(bullet, image_assets);
            bank.add(node.bullet_type, t);
            assert(bank.types@ =~= old(bank).types@);
        },
        None => {
            assert(bank.types@ =~= old(bank).types@);
        },
    }
    Ok(())
}

/// The bullets of `s` that the given side owns, the last of them first.
pub open spec fn routed(s: Seq<Bullet>, to_player: bool) -> Seq<Bullet>
    decreases s.len(),
{
    if s.len() == 0 {
        Seq::empty()
    } else if (s[0].owner_type is PLAYER && to_player) || (s[0].owner_type is ENEMY && !to_player) {
        routed(s.skip(1), to_player).push(s[0])
    } else {
        routed(s.skip(1), to_player)
    }
}

/// The identities of the bullets of `s` that nobody owns, the last of them
/// first.
pub open spec fn unowned(s: Seq<Bullet>) -> Seq<nat>
    decreases s.len(),
{
    if s.len() == 0 {
        Seq::empty()
    } else if s[0].owner_type is NONE {
        unowned(s.skip(1)).push(s[0].ident())
    } else {
        unowned(s.skip(1))
    }
}

/// Keeps every bullet: the inactive ones in a pool, the active ones in one
/// list for each side, and the ones just fired in a waiting list.
pub struct BulletPool {
    /// Number of bullets the pool was made with.
    pub total_bullets: i32,
    /// The inactive bullets.
    pub pool: Vec<Bullet>,
    /// The active bullets that a player fired.
    pub player_active_bullets: Vec<Bullet>,
    /// The active bullets that enemies fired.
    pub enemy_active_bullets: Vec<Bullet>,
    /// Bullets that were fired and wait to join an active list.
    pub spawned_bullet_list: Vec<Bullet>,
}

impl BulletPool {
    /// Number of bullets the pool was made with.
    pub open spec fn capacity(&self) -> nat {
        if self.total_bullets > 0 {
            self.total_bullets as nat
        } else {
            0
        }
    }

    /// The identities of all bullets that are in one of the lists.
    pub open spec fn held(&self) -> Multiset<nat> {
        bag(self.pool@).add(bag(self.player_active_bullets@)).add(
            bag(self.enemy_active_bullets@),
        ).add(bag(self.spawned_bullet_list@))
    }

    /// Number of bullets in all lists together.
    pub open spec fn count(&self) -> nat {
        self.pool@.len() + self.player_active_bullets@.len() + self.enemy_active_bullets@.len()
            + self.spawned_bullet_list@.len()
    }

    /// Every bullet in the lists is one of those the pool was made with,
    /// and none is there twice.
    pub open spec fn wf(&self) -> bool {
        forall|id: nat| #[trigger] self.held().count(id) <= full_bag(self.capacity()).count(id)
    }

    /// Every bullet the pool was made with is in one of the lists: none has
    /// been handed out.
    pub open spec fn complete(&self) -> bool {
        self.held() == full_bag(self.capacity())
    }

    /// Whether the bullet has been taken from this pool and can be given
    /// back.
    pub open spec fn lent(&self, bullet: &Bullet) -> bool {
        bullet.ident() < self.capacity() && self.held().count(bullet.ident()) == 0
    }

    /// No bullet is gained or lost: while none is handed out, the lists
    /// together hold as many bullets as the pool was made with.
    pub proof fn lemma_conservation(&self)
        requires
            self.complete(),
        ensures
            self.count() == self.capacity(),
            self.wf(),
    {
        broadcast use group_multiset_axioms;

        lemma_full_bag(self.capacity());
        lemma_bag_len(self.pool@);
        lemma_bag_len(self.player_active_bullets@);
        lemma_bag_len(self.enemy_active_bullets@);
        lemma_bag_len(self.spawned_bullet_list@);
    }

    /// No bullet is in two places: over all lists together, an identity
    /// occurs at most once, and only identities of the bullets the pool was
    /// made with occur. While no bullet is handed out, each of them occurs
    /// exactly once.
    pub proof fn lemma_exclusive_membership(&self, id: nat)
        requires
            self.wf(),
        ensures
            bag(self.pool@).count(id) + bag(self.player_active_bullets@).count(id) + bag(
                self.enemy_active_bullets@,
            ).count(id) + bag(self.spawned_bullet_list@).count(id) <= if id < self.capacity() {
                1nat
            } else {
                0nat
            },
            self.complete() ==> bag(self.pool@).count(id) + bag(
                self.player_active_bullets@,
            ).count(id) + bag(self.enemy_active_bullets@).count(id) + bag(
                self.spawned_bullet_list@,
            ).count(id) == if id < self.capacity() {
                1nat
            } else {
                0nat
            },
    {
        broadcast use group_multiset_axioms;

        lemma_full_bag(self.capacity());
        assert(self.held().count(id) <= full_bag(self.capacity()).count(id));
    }

    /// A pool of `total` inactive bullets; none if `total` is negative.
    pub fn new(total: i32) -> (pool: BulletPool)
        ensures
            pool.total_bullets == total,
            pool.complete(),
            pool.wf(),
            pool.pool@.len() == pool.capacity(),
            pool.player_active_bullets@.len() == 0,
            pool.enemy_active_bullets@.len() == 0,
            pool.spawned_bullet_list@.len() == 0,
            forall|i: int| 0 <= i < pool.pool@.len() ==> (#[trigger] pool.pool@[i]).blank(),
    {
        let mut pool = BulletPool {
            total_bullets: total,
            pool: Vec::new(),
            player_active_bullets: Vec::new(),
            enemy_active_bullets: Vec::new(),
            spawned_bullet_list: Vec::new(),
        };
        pool.clear();
        pool
    }

    /// Makes all bullets anew: the pool holds as many inactive bullets as it
    /// was made with, and nothing is active or waiting.
    pub fn clear(&mut self)
        ensures
            final(self).total_bullets == old(self).total_bullets,
            final(self).complete(),
            final(self).wf(),
            final(self).pool@.len() == final(self).capacity(),
            final(self).player_active_bullets@.len() == 0,
            final(self).enemy_active_bullets@.len() == 0,
            final(self).spawned_bullet_list@.len() == 0,
            forall|i: int| 0 <= i < final(self).pool@.len() ==> (#[trigger] final(self).pool@[i]).blank(),
    {
        self.pool.clear();
        self.player_active_bullets.clear();
        self.enemy_active_bullets.clear();
        self.spawned_bullet_list.clear();
        let total: usize = if self.total_bullets > 0 {
            self.total_bullets as usize
        } else {
            0
        };
        let mut i: usize = 0;
        proof {
            lemma_bag_empty(self.pool@);
            assert(full_bag(0) =~= Multiset::<nat>::empty()) by {
                lemma_full_bag(0);
            }
        }
        while i < total
            invariant
                i <= total,
                total == self.capacity(),
                self.total_bullets == old(self).total_bullets,
                self.pool@.len() == i,
                self.player_active_bullets@.len() == 0,
                self.enemy_active_bullets@.len() == 0,
                self.spawned_bullet_list@.len() == 0,
                bag(self.pool@) == full_bag(i as nat),
                forall|j: int| 0 <= j < self.pool@.len() ==> (#[trigger] self.pool@[j]).blank(),
            decreases total - i,
        {
            let bullet = Bullet::with_ident(Ghost(i as nat));
            proof {
                lemma_bag_push(self.pool@, bullet);
                lemma_full_bag_grow(i as nat);
            }
            self.pool.push(bullet);
            i += 1;
        }
        proof {
            lemma_bag_empty(self.player_active_bullets@);
            lemma_bag_empty(self.enemy_active_bullets@);
            lemma_bag_empty(self.spawned_bullet_list@);
            assert(self.held() =~= bag(self.pool@));
        }
    }

    /// Whether the pool is almost used up, which is worth a warning.
    pub fn almost_exhausted(&self) -> (low: bool)
        ensures
            low == (self.pool@.len() < LOW_POOL),
    {
        self.pool.len() < LOW_POOL
    }

    /// Puts a bullet that was taken from the pool into the waiting list.
    pub fn use_bullet(&mut self, bullet: Bullet)
        requires
            old(self).wf(),
            old(self).lent(&bullet),
        ensures
            final(self).wf(),
            final(self).spawned_bullet_list@ == old(self).spawned_bullet_list@.push(bullet),
            final(self).pool == old(self).pool,
            final(self).player_active_bullets == old(self).player_active_bullets,
            final(self).enemy_active_bullets == old(self).enemy_active_bullets,
            final(self).total_bullets == old(self).total_bullets,
            final(self).held() == old(self).held().insert(bullet.ident()),
    {
        broadcast use group_multiset_axioms;

        proof {
            lemma_bag_push(self.spawned_bullet_list@, bullet);
            lemma_full_bag(self.capacity());
        }
        self.spawned_bullet_list.push(bullet);
        proof {
            assert(self.held() =~= old(self).held().insert(bullet.ident()));
        }
    }

    /// Gives a bullet back to the pool. The bullet is reset.
    pub fn push(&mut self, bullet: Bullet)
        requires
            old(self).wf(),
            old(self).lent(&bullet),
        ensures
            final(self).wf(),
            final(self).pool@.len() == old(self).pool@.len() + 1,
            final(self).pool@.drop_last() == old(self).pool@,
            final(self).pool@.last().blank(),
            final(self).pool@.last().ident() == bullet.ident(),
            final(self).spawned_bullet_list == old(self).spawned_bullet_list,
            final(self).player_active_bullets == old(self).player_active_bullets,
            final(self).enemy_active_bullets == old(self).enemy_active_bullets,
            final(self).total_bullets == old(self).total_bullets,
            final(self).held() == old(self).held().insert(bullet.ident()),
    {
        broadcast use group_multiset_axioms;

        let mut bullet = bullet;
        bullet.reset();
        proof {
            lemma_bag_push(self.pool@, bullet);
            lemma_full_bag(self.capacity());
        }
        self.pool.push(bullet);
        proof {
            assert(self.held() =~= old(self).held().insert(bullet.ident()));
            assert(self.pool@.drop_last() == old(self).pool@);
        }
    }

    /// Takes the last bullet out of the pool, if there is one.
    pub fn pop(&mut self) -> (taken: Option<Bullet>)
        requires
            old(self).wf(),
        ensures
            final(self).wf(),
            match taken {
                Some(b) => {
                    &&& old(self).pool@.len() > 0
                    &&& b == old(self).pool@.last()
                    &&& final(self).pool@ == old(self).pool@.drop_last()
                    &&& final(self).lent(&b)
                    &&& final(self).held() == old(self).held().remove(b.ident())
                    &&& old(self).held().count(b.ident()) == 1
                },
                None => old(self).pool@.len() == 0 && final(self).pool@ == old(self).pool@,
            },
            final(self).spawned_bullet_list == old(self).spawned_bullet_list,
            final(self).player_active_bullets == old(self).player_active_bullets,
            final(self).enemy_active_bullets == old(self).enemy_active_bullets,
            final(self).total_bullets == old(self).total_bullets,
    {
        broadcast use group_multiset_axioms;

        proof {
            if self.pool@.len() > 0 {
                lemma_bag_drop_last(self.pool@);
                lemma_full_bag(self.capacity());
                assert(old(self).held().count(self.pool@.last().ident()) <= full_bag(
                    self.capacity(),
                ).count(self.pool@.last().ident()));
            }
        }
        let taken = self.pool.pop();
        proof {
            if taken is Some {
                let b = taken->0;
                assert(self.pool@ == old(self).pool@.drop_last());
                assert(self.held() =~= old(self).held().remove(b.ident()));
            } else {
                assert(self.held() =~= old(self).held());
            }
            assert forall|id: nat| #[trigger]
                self.held().count(id) <= full_bag(self.capacity()).count(id) by {
                assert(old(self).held().count(id) <= full_bag(self.capacity()).count(id));
            }
        }
        taken
    }

    /// Takes up to `total` bullets from the end of the pool: fewer if the
    /// pool does not hold as many.
    pub fn pops(&mut self, total: i32) -> (taken: Vec<Bullet>)
        requires
            old(self).wf(),
            total >= 0,
        ensures
            final(self).wf(),
            taken@.len() == vstd::math::min(total as int, old(self).pool@.len() as int),
            final(self).pool@ == old(self).pool@.subrange(
                0,
                old(self).pool@.len() - taken@.len(),
            ),
            taken@ == old(self).pool@.subrange(
                old(self).pool@.len() - taken@.len(),
                old(self).pool@.len() as int,
            ),
            forall|i: int| 0 <= i < taken@.len() ==> final(self).lent(&#[trigger] taken@[i]),
            final(self).spawned_bullet_list == old(self).spawned_bullet_list,
            final(self).player_active_bullets == old(self).player_active_bullets,
            final(self).enemy_active_bullets == old(self).enemy_active_bullets,
            final(self).total_bullets == old(self).total_bullets,
    {
        broadcast use group_multiset_axioms;
        broadcast use vstd::seq_lib::group_to_multiset_ensures;

        let final_length: usize = self.pool.len().saturating_sub(total as usize);
        proof {
            lemma_bag_split(self.pool@, final_length as int);
            lemma_full_bag(self.capacity());
        }
        let taken = self.pool.split_off(final_length);
        proof {
            assert forall|id: nat| #[trigger]
                self.held().count(id) <= full_bag(self.capacity()).count(id) by {
                assert(old(self).held().count(id) <= full_bag(self.capacity()).count(id));
            }
            assert forall|i: int| 0 <= i < taken@.len() implies self.lent(&#[trigger] taken@[i]) by {
                let id = taken@[i].ident();
                assert(idents(taken@)[i] == id);
                assert(idents(taken@).contains(id));
                assert(bag(taken@).count(id) > 0);
                assert(old(self).held().count(id) <= full_bag(self.capacity()).count(id));
            }
        }
        taken
    }
}

/// What one tick does to a list of active bullets and to the pool: every
/// bullet of the list makes its step; those that are still live stay, in
/// order, and the others join the end of the pool, the last of them first.
pub open spec fn swept(
    before: Seq<Bullet>,
    after: Seq<Bullet>,
    pool_before: Seq<Bullet>,
    pool_after: Seq<Bullet>,
    bank: &BulletTypeBank,
    camera: Vec2,
) -> bool {
    exists|mid: Seq<Bullet>|
        {
            &&& mid.len() == before.len()
            &&& forall|i: int|
                0 <= i < mid.len() ==> (#[trigger] before[i]).stepped(&mid[i], bank, camera)
            &&& after == #[trigger] survivors(mid)
            &&& idents(pool_after) == idents(pool_before) + casualties(mid)
        }
}

/// Lets one tick pass for a list of active bullets and releases those that
/// went out.
fn sweep_bullets(
    active: &mut Vec<Bullet>,
    pool: &mut Vec<Bullet>,
    bank: &BulletTypeBank,
    camera: Vec2,
)
    ensures
        swept(old(active)@, final(active)@, old(pool)@, final(pool)@, bank, camera),
        final(pool)@.subrange(0, old(pool)@.len() as int) == old(pool)@,
        forall|k: int|
            old(pool)@.len() <= k < final(pool)@.len() ==> (#[trigger] final(pool)@[k]).blank(),
        bag(final(active)@).add(bag(final(pool)@)) == bag(old(active)@).add(bag(old(pool)@)),
{
    let n: usize = active.len();
    let mut i: usize = 0;
    while i < n
        invariant
            i <= n,
            n == active@.len(),
            n == old(active)@.len(),
            idents(active@) == idents(old(active)@),
            forall|j: int|
                0 <= j < i ==> (#[trigger] old(active)@[j]).stepped(&active@[j], bank, camera),
            forall|j: int| i <= j < n ==> active@[j] == old(active)@[j],
        decreases n - i,
    {
        let ghost step_before = active@;
        active[i].update(bank, camera);
        proof {
            assert(active@ == step_before.update(i as int, active@[i as int]));
            lemma_bag_update(step_before, i as int, active@[i as int]);
        }
        i += 1;
    }
    let ghost mid = active@;
    release_inactive(active, pool);
    proof {
        assert(idents(mid) == idents(old(active)@));
        assert(survivors(mid) == active@);
    }
}

impl BulletPool {
    /// Puts a bullet that was taken from the pool where its owner says:
    /// into the list of its side, or back into the pool if it has no
    /// owner.
    fn push_bullet_in_list(&mut self, bullet: Bullet)
        requires
            old(self).wf(),
            old(self).lent(&bullet),
        ensures
            final(self).wf(),
            final(self).held() == old(self).held().insert(bullet.ident()),
            final(self).total_bullets == old(self).total_bullets,
            final(self).spawned_bullet_list == old(self).spawned_bullet_list,
            match bullet.owner_type {
                BulletOwner::NONE => {
                    &&& final(self).pool@.len() == old(self).pool@.len() + 1
                    &&& final(self).pool@.drop_last() == old(self).pool@
                    &&& final(self).pool@.last().blank()
                    &&& final(self).pool@.last().ident() == bullet.ident()
                    &&& final(self).player_active_bullets@ == old(self).player_active_bullets@
                    &&& final(self).enemy_active_bullets@ == old(self).enemy_active_bullets@
                },
                BulletOwner::PLAYER(_) => {
                    &&& final(self).pool@ == old(self).pool@
                    &&& final(self).player_active_bullets@ == old(self).player_active_bullets@.push(
                        bullet,
                    )
                    &&& final(self).enemy_active_bullets@ == old(self).enemy_active_bullets@
                },
                BulletOwner::ENEMY => {
                    &&& final(self).pool@ == old(self).pool@
                    &&& final(self).player_active_bullets@ == old(self).player_active_bullets@
                    &&& final(self).enemy_active_bullets@ == old(self).enemy_active_bullets@.push(
                        bullet,
                    )
                },
            },
    {
        broadcast use group_multiset_axioms;

        proof {
            lemma_full_bag(self.capacity());
        }
        match bullet.owner_type {
            BulletOwner::NONE => {
                self.push(bullet);
            },
            BulletOwner::PLAYER(_number) => {
                proof {
                    lemma_bag_push(self.player_active_bullets@, bullet);
                }
                self.player_active_bullets.push(bullet);
                assert(self.held() =~= old(self).held().insert(bullet.ident()));
            },
            BulletOwner::ENEMY => {
                proof {
                    lemma_bag_push(self.enemy_active_bullets@, bullet);
                }
                self.enemy_active_bullets.push(bullet);
                assert(self.held() =~= old(self).held().insert(bullet.ident()));
            },
        }
    }

    /// Moves the bullets that wait to where their owners say, the one that
    /// was put in last first: into the list of their side, or back into
    /// the pool if they have no owner.
    pub fn spawning_bullets_from_waiting_queue(&mut self)
        requires
            old(self).wf(),
        ensures
            final(self).wf(),
            final(self).held() == old(self).held(),
            final(self).total_bullets == old(self).total_bullets,
            final(self).spawned_bullet_list@.len() == 0,
            final(self).player_active_bullets@ == old(self).player_active_bullets@ + routed(
                old(self).spawned_bullet_list@,
                true,
            ),
            final(self).enemy_active_bullets@ == old(self).enemy_active_bullets@ + routed(
                old(self).spawned_bullet_list@,
                false,
            ),
            idents(final(self).pool@) == idents(old(self).pool@) + unowned(
                old(self).spawned_bullet_list@,
            ),
            final(self).pool@.subrange(0, old(self).pool@.len() as int) == old(self).pool@,
            forall|k: int|
                old(self).pool@.len() <= k < final(self).pool@.len() ==> (#[trigger] final(self).pool@[k]).blank(),
    {
        broadcast use group_multiset_axioms;

        let ghost waiting = self.spawned_bullet_list@;
        let ghost n = waiting.len() as int;
        proof {
            assert(waiting.subrange(n, n) == Seq::<Bullet>::empty());
            assert(waiting.subrange(0, n) == waiting);
            assert(self.player_active_bullets@ + Seq::<Bullet>::empty()
                == self.player_active_bullets@);
            assert(self.enemy_active_bullets@ + Seq::<Bullet>::empty()
                == self.enemy_active_bullets@);
            assert(idents(self.pool@) + Seq::<nat>::empty() == idents(self.pool@));
            assert(self.pool@.subrange(0, self.pool@.len() as int) == self.pool@);
        }
        while self.spawned_bullet_list.len() > 0
            invariant
                self.wf(),
                self.held() == old(self).held(),
                self.total_bullets == old(self).total_bullets,
                waiting == old(self).spawned_bullet_list@,
                n == waiting.len(),
                self.spawned_bullet_list@.len() <= n,
                self.spawned_bullet_list@ == waiting.subrange(
                    0,
                    self.spawned_bullet_list@.len() as int,
                ),
                self.player_active_bullets@ == old(self).player_active_bullets@ + routed(
                    waiting.subrange(self.spawned_bullet_list@.len() as int, n),
                    true,
                ),
                self.enemy_active_bullets@ == old(self).enemy_active_bullets@ + routed(
                    waiting.subrange(self.spawned_bullet_list@.len() as int, n),
                    false,
                ),
                idents(self.pool@) == idents(old(self).pool@) + unowned(
                    waiting.subrange(self.spawned_bullet_list@.len() as int, n),
                ),
                self.pool@.len() >= old(self).pool@.len(),
                self.pool@.subrange(0, old(self).pool@.len() as int) == old(self).pool@,
                forall|k: int|
                    old(self).pool@.len() <= k < self.pool@.len() ==> (#[trigger] self.pool@[k]).blank(),
            decreases self.spawned_bullet_list@.len(),
        {
            let ghost before = *self;
            let ghost k = self.spawned_bullet_list@.len() as int;
            proof {
                lemma_bag_drop_last(self.spawned_bullet_list@);
                lemma_full_bag(self.capacity());
                assert(before.held().count(self.spawned_bullet_list@.last().ident())
                    <= full_bag(self.capacity()).count(self.spawned_bullet_list@.last().ident()));
            }
            let b = self.spawned_bullet_list.pop().unwrap();
            proof {
                assert(self.spawned_bullet_list@ == before.spawned_bullet_list@.drop_last());
                assert(self.held() =~= before.held().remove(b.ident()));
                assert forall|id: nat| #[trigger]
                    self.held().count(id) <= full_bag(self.capacity()).count(id) by {
                    assert(before.held().count(id) <= full_bag(self.capacity()).count(id));
                }
                assert(b == waiting[k - 1]);
                let longer = waiting.subrange(k - 1, n);
                assert(longer[0] == b);
                assert(longer.skip(1) == waiting.subrange(k, n));
                assert(self.spawned_bullet_list@ == waiting.subrange(0, k - 1));
            }
            let ghost mid = *self;
            self.push_bullet_in_list(b);
            proof {
                assert(self.held() =~= old(self).held());
                if b.owner_type is NONE {
                    assert(idents(self.pool@) == idents(mid.pool@).push(b.ident()));
                    assert(self.pool@.subrange(0, old(self).pool@.len() as int) == old(self).pool@);
                    assert forall|j: int|
                        old(self).pool@.len() <= j < self.pool@.len() implies (
                    #[trigger] self.pool@[j]).blank() by {
                        if j < mid.pool@.len() {
                            assert(self.pool@.drop_last()[j] == mid.pool@[j]);
                        }
                    }
                }
            }
        }
    }

    /// Lets one tick pass for the bullets that a player fired, and returns
    /// those that went out to the pool.
    pub fn update_active_player_bullets(&mut self, bank: &BulletTypeBank, camera: Vec2)
        requires
            old(self).wf(),
        ensures
            final(self).wf(),
            final(self).held() == old(self).held(),
            final(self).total_bullets == old(self).total_bullets,
            swept(
                old(self).player_active_bullets@,
                final(self).player_active_bullets@,
                old(self).pool@,
                final(self).pool@,
                bank,
                camera,
            ),
            final(self).pool@.subrange(0, old(self).pool@.len() as int) == old(self).pool@,
            forall|k: int|
                old(self).pool@.len() <= k < final(self).pool@.len() ==> (#[trigger] final(self).pool@[k]).blank(),
            final(self).enemy_active_bullets == old(self).enemy_active_bullets,
            final(self).spawned_bullet_list == old(self).spawned_bullet_list,
    {
        broadcast use group_multiset_axioms;

        sweep_bullets(&mut self.player_active_bullets, &mut self.pool, bank, camera);
        proof {
            assert forall|x: nat| self.held().count(x) == old(self).held().count(x) by {
                assert(bag(self.player_active_bullets@).add(bag(self.pool@)).count(x) == bag(
                    old(self).player_active_bullets@,
                ).add(bag(old(self).pool@)).count(x));
            }
            assert(self.held() =~= old(self).held());
        }
    }

    /// Lets one tick pass for the bullets that enemies fired, and returns
    /// those that went out to the pool.
    pub fn update_active_enemies_bullets(&mut self, bank: &BulletTypeBank, camera: Vec2)
        requires
            old(self).wf(),
        ensures
            final(self).wf(),
            final(self).held() == old(self).held(),
            final(self).total_bullets == old(self).total_bullets,
            swept(
                old(self).enemy_active_bullets@,
                final(self).enemy_active_bullets@,
                old(self).pool@,
                final(self).pool@,
                bank,
                camera,
            ),
            final(self).pool@.subrange(0, old(self).pool@.len() as int) == old(self).pool@,
            forall|k: int|
                old(self).pool@.len() <= k < final(self).pool@.len() ==> (#[trigger] final(self).pool@[k]).blank(),
            final(self).player_active_bullets == old(self).player_active_bullets,
            final(self).spawned_bullet_list == old(self).spawned_bullet_list,
    {
        broadcast use group_multiset_axioms;

        sweep_bullets(&mut self.enemy_active_bullets, &mut self.pool, bank, camera);
        proof {
            assert forall|x: nat| self.held().count(x) == old(self).held().count(x) by {
                assert(bag(self.enemy_active_bullets@).add(bag(self.pool@)).count(x) == bag(
                    old(self).enemy_active_bullets@,
                ).add(bag(old(self).pool@)).count(x));
            }
            assert(self.held() =~= old(self).held());
        }
    }
}

/// Whether `effect` is the request for the firing effect of a bullet,
/// whatever was drawn for its place.
pub open spec fn is_some_firing_effect(effect: &ParticleSpawnNode, node: &BulletSpawnNode) -> bool {
    exists|draw_x: u32, draw_y: u32| #[trigger] is_firing_effect(effect, node, draw_x, draw_y)
}

/// Whether the parameters of a request are malformed.
pub open spec fn malformed(node: &BulletSpawnNode) -> bool {
    decode(node.extra@, Map::empty()).1 is Some
}

/// What serving the first `served` requests does to the pool: one bullet is
/// taken from the end of the pool for each request and activated for it;
/// then these bullets, and those that were waiting before, go where their
/// owners say.
pub open spec fn drained(
    before: &BulletPool,
    after: &BulletPool,
    nodes: Seq<BulletSpawnNode>,
    served: int,
    bank: &BulletTypeBank,
    image_assets: &ImageAssets,
) -> bool {
    exists|staged: Seq<Bullet>|
        {
            &&& staged.len() == served
            &&& forall|i: int|
                0 <= i < served ==> activated(&#[trigger] staged[i], &nodes[i], bank, image_assets)
                    && staged[i].ident() == before.pool@[before.pool@.len() - 1 - i].ident()
            &&& after.player_active_bullets@ == before.player_active_bullets@ + #[trigger] routed(
                before.spawned_bullet_list@ + staged,
                true,
            )
            &&& after.enemy_active_bullets@ == before.enemy_active_bullets@ + routed(
                before.spawned_bullet_list@ + staged,
                false,
            )
            &&& idents(after.pool@) == idents(
                before.pool@.subrange(0, before.pool@.len() - served),
            ) + unowned(before.spawned_bullet_list@ + staged)
        }
}

/// What serving the queue of bullet requests comes to. The requests are
/// served in order and the queue is emptied. Each request takes a bullet
/// from the pool and asks for its firing effect; when the pool is used up
/// the remaining requests are dropped. The bullets then go where their
/// owners say; see `drained`. A request with malformed parameters ends the
/// call with its error; the queue is empty then too, and no bullet is
/// lost.
pub open spec fn bullets_spawned(
    before: &BulletPool,
    after: &BulletPool,
    world_before: &World,
    world: &World,
    bank_before: &BulletTypeBank,
    bank: &BulletTypeBank,
    image_assets: &ImageAssets,
    outcome: Result<(), ExtraError>,
) -> bool {
    &&& after.held() == before.held()
    &&& after.total_bullets == before.total_bullets
    &&& after.spawned_bullet_list@.len() == 0
    &&& world.bullet_spawn_nodes@.len() == 0
    &&& world.camera_position == world_before.camera_position
    &&& world.play_sound_nodes == world_before.play_sound_nodes
    &&& world.enemy_spawn_nodes == world_before.enemy_spawn_nodes
    &&& bank.types@ == bank_before.types@
    &&& match outcome {
        Ok(_) => {
            let nodes = world_before.bullet_spawn_nodes@;
            let served = vstd::math::min(nodes.len() as int, before.pool@.len() as int);
            let asked = world_before.particle_spawn_nodes@.len();
            &&& forall|i: int| 0 <= i < served ==> !malformed(&#[trigger] nodes[i])
            &&& drained(before, after, nodes, served, bank_before, image_assets)
            &&& world.particle_spawn_nodes@.len() == asked + served
            &&& world.particle_spawn_nodes@.subrange(0, asked as int) == world_before.particle_spawn_nodes@
            &&& forall|i: int|
                0 <= i < served ==> is_some_firing_effect(
                    &world.particle_spawn_nodes@[asked + i],
                    &#[trigger] nodes[i],
                )
        },
        Err(e) => exists|i: int|
            {
                &&& 0 <= i < world_before.bullet_spawn_nodes@.len()
                &&& i < before.pool@.len()
                &&& decode(
                    (#[trigger] world_before.bullet_spawn_nodes@[i]).extra@,
                    Map::empty(),
                ).1 == Some(e.token@)
                &&& forall|j: int|
                    0 <= j < i ==> !malformed(&#[trigger] world_before.bullet_spawn_nodes@[j])
            },
    }
}

impl BulletPool {
    /// Serves the bullet requests that are waiting; see `bullets_spawned`.
    pub fn spawn_bullets_from_queue(
        &mut self,
        world: &mut World,
        bank: &mut BulletTypeBank,
        image_assets: &ImageAssets,
    ) -> (outcome: Result<(), ExtraError>)
        requires
            old(self).wf(),
        ensures
            final(self).wf(),
            bullets_spawned(
                old(self),
                final(self),
                old(world),
                final(world),
                old(bank),
                final(bank),
                image_assets,
                outcome,
            ),
    {
        broadcast use group_multiset_axioms;

        let mut nodes: Vec<BulletSpawnNode> = Vec::new();
        core::mem::swap(&mut nodes, &mut world.bullet_spawn_nodes);
        let ghost before = *self;
        let ghost asked = world.particle_spawn_nodes@.len();
        let ghost mut staged: Seq<Bullet> = Seq::empty();
        let n: usize = nodes.len();
        let mut i: usize = 0;
        proof {
            assert(self.spawned_bullet_list@ + staged == self.spawned_bullet_list@);
            assert(self.pool@.subrange(0, self.pool@.len() as int) == self.pool@);
            assert(world.particle_spawn_nodes@.subrange(0, asked as int)
                == world.particle_spawn_nodes@);
        }
        while i < n
            invariant
                i <= n,
                i == staged.len(),
                n == nodes@.len(),
                nodes@ == old(world).bullet_spawn_nodes@,
                before == *old(self),
                asked == old(world).particle_spawn_nodes@.len(),
                self.wf(),
                self.held() == before.held(),
                self.total_bullets == before.total_bullets,
                self.player_active_bullets@ == before.player_active_bullets@,
                self.enemy_active_bullets@ == before.enemy_active_bullets@,
                bank.types@ == old(bank).types@,
                world.bullet_spawn_nodes@.len() == 0,
                world.camera_position == old(world).camera_position,
                world.play_sound_nodes == old(world).play_sound_nodes,
                world.enemy_spawn_nodes == old(world).enemy_spawn_nodes,
                staged.len() <= n,
                staged.len() <= before.pool@.len(),
                self.spawned_bullet_list@ == before.spawned_bullet_list@ + staged,
                self.pool@ == before.pool@.subrange(0, before.pool@.len() - staged.len()),
                forall|j: int|
                    0 <= j < staged.len() ==> activated(
                        &#[trigger] staged[j],
                        &nodes@[j],
                        old(bank),
                        image_assets,
                    ) && staged[j].ident() == before.pool@[before.pool@.len() - 1 - j].ident(),
                forall|j: int| 0 <= j < staged.len() ==> !malformed(&#[trigger] nodes@[j]),
                world.particle_spawn_nodes@.len() == asked + staged.len(),
                world.particle_spawn_nodes@.subrange(0, asked as int) == old(world).particle_spawn_nodes@,
                forall|j: int|
                    0 <= j < staged.len() ==> is_some_firing_effect(
                        &world.particle_spawn_nodes@[asked + j],
                        &#[trigger] nodes@[j],
                    ),
            ensures
                staged.len() == vstd::math::min(n as int, before.pool@.len() as int),
            decreases n - i,
        {
            let ghost step_before = *self;
            let ghost particles_before = world.particle_spawn_nodes@;
            match self.pop() {
                Some(mut bullet) => {
                    let ghost popped = bullet;
                    let draw_x = crate::gameplay::random::random_u32();
                    let draw_y = crate::gameplay::random::random_u32();
                    match activate_bullet(
                        &mut bullet,
                        &nodes[i],
                        bank,
                        image_assets,
                        world,
                        draw_x,
                        draw_y,
                    ) {
                        Ok(_) => {
                            self.use_bullet(bullet);
                            proof {
                                assert(self.held() =~= before.held());
                                staged = staged.push(bullet);
                                assert(self.spawned_bullet_list@ == before.spawned_bullet_list@
                                    + staged);
                                assert(self.pool@ == before.pool@.subrange(
                                    0,
                                    before.pool@.len() - staged.len(),
                                ));
                                assert(popped == before.pool@[before.pool@.len() - 1 - i]);
                                assert(world.particle_spawn_nodes@.subrange(0, asked as int)
                                    == old(world).particle_spawn_nodes@) by {
                                    assert(world.particle_spawn_nodes@.drop_last()
                                        == particles_before);
                                }
                                assert forall|j: int|
                                    0 <= j < staged.len() implies is_some_firing_effect(
                                    &world.particle_spawn_nodes@[asked + j],
                                    &#[trigger] nodes@[j],
                                ) by {
                                    if j < i {
                                        assert(world.particle_spawn_nodes@.drop_last()[asked + j]
                                            == particles_before[asked + j]);
                                    } else {
                                        assert(is_firing_effect(
                                            &world.particle_spawn_nodes@[asked + j],
                                            &nodes@[j],
                                            draw_x,
                                            draw_y,
                                        ));
                                    }
                                }
                            }
                        },
                        Err(e) => {
                            self.push(bullet);
                            proof {
                                assert(self.held() =~= before.held());
                            }
                            self.spawning_bullets_from_waiting_queue();
                            proof {
                                assert(malformed(&nodes@[i as int]));
                            }
                            return Err(e);
                        },
                    }
                },
                None => {
                    break ;
                },
            }
            i += 1;
        }
        self.spawning_bullets_from_waiting_queue();
        proof {
            let served = vstd::math::min(n as int, before.pool@.len() as int);
            assert(staged.len() == served);
            assert(drained(&before, self, nodes@, served, old(bank), image_assets)) by {
                assert(routed(before.spawned_bullet_list@ + staged, true) == routed(
                    before.spawned_bullet_list@ + staged,
                    true,
                ));
            }
        }
        Ok(())
    }
}

} // verus!
