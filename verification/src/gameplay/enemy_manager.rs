//! Enemies: the records, the behaviours that drive them, and the manager
//! that recycles them.

use std::collections::HashMap;

use vstd::multiset::*;
use vstd::prelude::*;
use vstd::string::*;

use crate::gameplay::angle::{rotation_towards, turn_of};
use crate::gameplay::bullet_pool::{BulletOwner, BulletSpawnNode};
use crate::gameplay::enemy_types::boss::BossEnemyType;
use crate::gameplay::enemy_types::crawling_pop_corn::CrawlingPopCornEnemyType;
use crate::gameplay::enemy_types::flying_pop_corn::FlyingPopCornEnemyType;
use crate::gameplay::enemy_types::spawner::SpawnerEnemyType;
use crate::gameplay::extra::{decode, ExtraError, ExtraParams};
use crate::gameplay::level::EnemySpawnNode;
use crate::gameplay::particle_manager::{ParticleDrawLayer, ParticleSpawnNode};
use crate::gameplay::pool::{
    bag, casualties, full_bag, idents, lemma_bag_drop_last, lemma_bag_empty, lemma_bag_len,
    lemma_bag_push, lemma_bag_update, lemma_full_bag, lemma_full_bag_grow, release_inactive,
    survivors, Pooled,
};
use crate::gameplay::random::{jitter, jitter_of, random_u32};
use crate::gameplay::utils::{
    circles_overlap, circles_touch, dist_sq, distance_sqr_between,
    is_some_position_inside_camera_area,
    random_position_inside_camera_area, Vec2,
};
use crate::gameplay::world::World;
use crate::image_assets::ImageAssets;
use crate::sprite::Sprite;

verus! {

/// Outcome of a hit test: the hit does not count.
pub const HIT_MISS: i32 = 0;

/// Outcome of a hit test: the hit counts and does damage.
pub const HIT_WEAKPOINT: i32 = 1;

/// Outcome of a hit test: the hit counts but does no damage.
pub const HIT_SHIELDED: i32 = -1;

/// Ticks for which an enemy shows that it was hit.
pub const HIT_FRAMES: i32 = 8;

/// Size of the area around a hit in which its splash appears.
pub const SPLASH_SPREAD: u32 = 24_000;

pub struct Enemy {
    /// Which record of the pool this is. Exists in proofs only.
    pub id: Ghost<nat>,
    pub active: bool,
    /// Which behaviour of the type bank drives the enemy.
    pub enemy_type: i32,
    pub health: u32,
    pub max_health: u32,
    /// Ticks for which the enemy still shows that it was hit.
    pub hit_frame: i32,
    pub position: Vec2,
    /// Direction the enemy faces or moves in, in thousandths of a turn.
    pub rotation: i32,
    /// Radius used for hit tests.
    pub radius: u32,
    /// Ticks counted by the behaviour.
    pub frame: u128,
    /// Milliseconds counted by the behaviour.
    pub tick: u128,
    pub maximum_tick: u128,
    /// Milliseconds until the behaviour acts next.
    pub weapon_tick: u128,
    pub life_time: u128,
    /// Where the behaviour stands in its cycle.
    pub state: i32,
    pub extra: ExtraParams,
    /// Points that pull the enemy towards them.
    pub target_position: Vec<Vec2>,
    pub sprite: Sprite,
}

impl Pooled for Enemy {
    open spec fn ident(&self) -> nat {
        self.id@
    }

    open spec fn live(&self) -> bool {
        self.active
    }

    open spec fn blank(&self) -> bool {
        &&& !self.active
        &&& self.enemy_type == 0
        &&& self.health == 0
        &&& self.max_health == 1
        &&& self.hit_frame == 0
        &&& self.position == (Vec2 { x: 0, y: 0 })
        &&& self.rotation == 0
        &&& self.radius == 0
        &&& self.frame == 0
        &&& self.tick == 0
        &&& self.maximum_tick == 1
        &&& self.weapon_tick == 0
        &&& self.life_time == 0
        &&& self.state == 0
        &&& self.extra@ == Map::<Seq<char>, Seq<char>>::empty()
        &&& self.target_position@.len() == 0
        &&& self.sprite.is_fresh()
    }

    fn is_live(&self) -> (live: bool) {
        self.active
    }

    fn release(&mut self) {
        self.reset();
    }
}

/// The names of the splash animations.
pub open spec fn splash_name(pick: int) -> Seq<char> {
    if pick == 0 {
        "splash-1"@
    } else if pick == 1 {
        "splash-2"@
    } else if pick == 2 {
        "splash-3"@
    } else {
        "splash-4"@
    }
}

/// The request for a splash near `anchor`, drawn at the scale `scale`: two
/// draws move it off the anchor, one decides whether it is mirrored, and one
/// picks its animation.
pub open spec fn is_splash(
    node: &ParticleSpawnNode,
    anchor: Vec2,
    scale: Seq<char>,
    draw_x: u32,
    draw_y: u32,
    draw_flip: u32,
    draw_name: u32,
) -> bool {
    node.is_request(
        1,
        anchor.moved(jitter_of(SPLASH_SPREAD, draw_x), jitter_of(SPLASH_SPREAD, draw_y)),
        ParticleDrawLayer::Explosion,
        crate::gameplay::extra::effect_text(splash_name(draw_name as int % 4), draw_flip % 2 == 0)
            + "scale="@ + scale + "|"@,
    )
}

/// Whether `node` is the request for a splash near `anchor`, whatever was
/// drawn for it.
pub open spec fn is_some_splash(node: &ParticleSpawnNode, anchor: Vec2, scale: Seq<char>) -> bool {
    exists|draw_x: u32, draw_y: u32, draw_flip: u32, draw_name: u32| #[trigger]
        is_splash(node, anchor, scale, draw_x, draw_y, draw_flip, draw_name)
}

/// The request for a splash; see `is_splash`.
pub fn splash_particle(
    anchor: Vec2,
    scale: &str,
    draw_x: u32,
    draw_y: u32,
    draw_flip: u32,
    draw_name: u32,
) -> (node: ParticleSpawnNode)
    ensures
        is_splash(&node, anchor, scale@, draw_x, draw_y, draw_flip, draw_name),
{
    let random_position = Vec2::new(jitter(SPLASH_SPREAD, draw_x), jitter(SPLASH_SPREAD, draw_y));
    let flipped = draw_flip % 2 == 0;
    let pick = draw_name % 4;
    let name = if pick == 0 {
        "splash-1"
    } else if pick == 1 {
        "splash-2"
    } else if pick == 2 {
        "splash-3"
    } else {
        "splash-4"
    };
    let text = crate::gameplay::extra::scaled_effect_params(name, flipped, scale);
    ParticleSpawnNode::new(
        1,
        anchor.plus(random_position),
        ParticleDrawLayer::Explosion,
        text.as_str(),
    )
}

/// The world after `count` splashes near `anchor` were asked for.
pub open spec fn splashed(
    before: &World,
    after: &World,
    anchor: Vec2,
    scale: Seq<char>,
    count: nat,
) -> bool {
    &&& after.same_but_particles(before)
    &&& after.particle_spawn_nodes@.len() == before.particle_spawn_nodes@.len() + count
    &&& after.particle_spawn_nodes@.subrange(0, before.particle_spawn_nodes@.len() as int)
        == before.particle_spawn_nodes@
    &&& forall|i: int|
        before.particle_spawn_nodes@.len() <= i < after.particle_spawn_nodes@.len()
            ==> is_some_splash(&#[trigger] after.particle_spawn_nodes@[i], anchor, scale)
}

/// Splashes asked for one after the other add up.
pub proof fn lemma_splashed_twice(
    a: &World,
    b: &World,
    c: &World,
    anchor: Vec2,
    scale: Seq<char>,
    m: nat,
    n: nat,
)
    requires
        splashed(a, b, anchor, scale, m),
        splashed(b, c, anchor, scale, n),
    ensures
        splashed(a, c, anchor, scale, m + n),
{
    let base = a.particle_spawn_nodes@.len() as int;
    assert(c.particle_spawn_nodes@.subrange(0, base) == a.particle_spawn_nodes@) by {
        assert(c.particle_spawn_nodes@.subrange(0, base + m).subrange(0, base)
            == c.particle_spawn_nodes@.subrange(0, base));
    }
    assert forall|i: int|
        base <= i < c.particle_spawn_nodes@.len() implies is_some_splash(
        &#[trigger] c.particle_spawn_nodes@[i],
        anchor,
        scale,
    ) by {
        if i < base + m {
            assert(c.particle_spawn_nodes@.subrange(0, base + m)[i] == b.particle_spawn_nodes@[i]);
        }
    }
}

impl Enemy {
    pub fn new() -> (enemy: Enemy)
        ensures
            enemy.blank(),
    {
        Enemy::with_ident(Ghost(0))
    }

    pub(crate) fn with_ident(id: Ghost<nat>) -> (enemy: Enemy)
        ensures
            enemy.blank(),
            enemy.ident() == id@,
    {
        Enemy {
            id,
            active: false,
            enemy_type: 0,
            health: 0,
            max_health: 1,
            hit_frame: 0,
            position: Vec2::zero(),
            rotation: 0,
            radius: 0,
            frame: 0,
            tick: 0,
            maximum_tick: 1,
            weapon_tick: 0,
            life_time: 0,
            state: 0,
            extra: ExtraParams::new(),
            target_position: Vec::new(),
            sprite: Sprite::new(),
        }
    }

    /// Brings every field back to the value a new enemy has. The enemy
    /// stays the record it is.
    pub fn reset(&mut self)
        ensures
            final(self).blank(),
            final(self).ident() == old(self).ident(),
    {
        self.active = false;
        self.enemy_type = 0;
        self.health = 0;
        self.max_health = 1;
        self.hit_frame = 0;
        self.position = Vec2::zero();
        self.rotation = 0;
        self.radius = 0;
        self.frame = 0;
        self.tick = 0;
        self.maximum_tick = 1;
        self.weapon_tick = 0;
        self.life_time = 0;
        self.state = 0;
        self.extra.clear();
        self.target_position.clear();
        self.sprite.reset();
    }

    /// Whether the two enemies are the same record of the same type with
    /// the same build: identity, type number, radius, greatest health and
    /// greatest tick.
    pub open spec fn same_build(&self, other: &Enemy) -> bool {
        &&& self.ident() == other.ident()
        &&& self.enemy_type == other.enemy_type
        &&& self.max_health == other.max_health
        &&& self.radius == other.radius
        &&& self.maximum_tick == other.maximum_tick
        &&& self.life_time == other.life_time
        &&& self.hit_frame == other.hit_frame
    }

    /// Whether the two enemies agree in everything but health, activity and
    /// the ticks for which they show a hit.
    pub open spec fn same_build_but_hit(&self, other: &Enemy) -> bool {
        &&& self.ident() == other.ident()
        &&& self.enemy_type == other.enemy_type
        &&& self.max_health == other.max_health
        &&& self.radius == other.radius
        &&& self.maximum_tick == other.maximum_tick
        &&& self.life_time == other.life_time
        &&& self.position == other.position
        &&& self.rotation == other.rotation
        &&& self.frame == other.frame
        &&& self.tick == other.tick
        &&& self.weapon_tick == other.weapon_tick
        &&& self.state == other.state
        &&& self.extra == other.extra
        &&& self.target_position == other.target_position
        &&& self.sprite == other.sprite
    }

    /// Whether the two enemies agree in everything but the points they are
    /// pulled towards.
    pub open spec fn same_but_targets(&self, other: &Enemy) -> bool {
        &&& self.same_build(other)
        &&& self.active == other.active
        &&& self.health == other.health
        &&& self.position == other.position
        &&& self.rotation == other.rotation
        &&& self.frame == other.frame
        &&& self.tick == other.tick
        &&& self.weapon_tick == other.weapon_tick
        &&& self.state == other.state
        &&& self.extra == other.extra
        &&& self.sprite == other.sprite
    }

    /// Whether the two enemies agree in everything but the extra
    /// parameters.
    pub open spec fn same_but_extra(&self, other: &Enemy) -> bool {
        &&& self.ident() == other.ident()
        &&& self.active == other.active
        &&& self.enemy_type == other.enemy_type
        &&& self.health == other.health
        &&& self.max_health == other.max_health
        &&& self.hit_frame == other.hit_frame
        &&& self.position == other.position
        &&& self.rotation == other.rotation
        &&& self.radius == other.radius
        &&& self.frame == other.frame
        &&& self.tick == other.tick
        &&& self.maximum_tick == other.maximum_tick
        &&& self.weapon_tick == other.weapon_tick
        &&& self.life_time == other.life_time
        &&& self.state == other.state
        &&& self.target_position == other.target_position
        &&& self.sprite == other.sprite
    }

    /// Decodes `raw_extra` into the enemy's extra parameters.
    pub fn parsing_extra(&mut self, raw_extra: &str) -> (outcome: Result<(), ExtraError>)
        ensures
            final(self).extra@ == decode(raw_extra@, old(self).extra@).0,
            match outcome {
                Ok(_) => decode(raw_extra@, old(self).extra@).1 is None,
                Err(e) => decode(raw_extra@, old(self).extra@).1 == Some(e.token@) && e.raw@
                    == raw_extra@,
            },
            final(self).same_but_extra(old(self)),
    {
        self.extra.parsing_extra(raw_extra)
    }

    /// Asks for a splash near `offset_position`.
    pub fn spawn_splash(&self, world: &mut World, offset_position: Vec2, scale_value: &str)
        ensures
            splashed(old(world), final(world), offset_position, scale_value@, 1),
    {
        Enemy::spawn_random_splash_particle(world, offset_position, scale_value);
    }

    /// Asks for a splash near `offset_position`: chance moves it off that
    /// point, mirrors it or not, and picks one of the splash animations.
    pub fn spawn_random_splash_particle(world: &mut World, offset_position: Vec2, scale_value: &str)
        ensures
            splashed(old(world), final(world), offset_position, scale_value@, 1),
    {
        let draw_x = random_u32();
        let draw_y = random_u32();
        let draw_flip = random_u32();
        let draw_name = random_u32();
        let node = splash_particle(
            offset_position,
            scale_value,
            draw_x,
            draw_y,
            draw_flip,
            draw_name,
        );
        world.request_particle(node);
        assert(world.particle_spawn_nodes@.drop_last() == old(world).particle_spawn_nodes@);
        assert(is_splash(
            &world.particle_spawn_nodes@.last(),
            offset_position,
            scale_value@,
            draw_x,
            draw_y,
            draw_flip,
            draw_name,
        ));
    }

    /// Asks for a bullet of an enemy that flies from `from` towards
    /// `target`.
    pub fn spawn_bullet(
        world: &mut World,
        from: Vec2,
        target: Vec2,
        bullet_type: i32,
        speed: i32,
        radius: u32,
        raw_extra: &str,
    )
        ensures
            final(world).same_but_bullets(old(world)),
            final(world).bullet_spawn_nodes@.len() == old(world).bullet_spawn_nodes@.len() + 1,
            final(world).bullet_spawn_nodes@.drop_last() == old(world).bullet_spawn_nodes@,
            aimed(&final(world).bullet_spawn_nodes@.last(), from, target, bullet_type, speed, radius, raw_extra@),
    {
        let rotation = rotation_towards(from, target);
        world.request_bullet(
            BulletSpawnNode {
                bullet_type,
                position: from,
                owner_type: BulletOwner::ENEMY,
                rotation,
                speed,
                radius,
                extra: String::from_str(raw_extra),
            },
        );
        assert(world.bullet_spawn_nodes@.drop_last() == old(world).bullet_spawn_nodes@);
    }
}

/// The request for an enemy's bullet that flies from `from` towards
/// `target`.
pub open spec fn aimed(
    node: &BulletSpawnNode,
    from: Vec2,
    target: Vec2,
    bullet_type: i32,
    speed: i32,
    radius: u32,
    extra: Seq<char>,
) -> bool {
    &&& node.bullet_type == bullet_type
    &&& node.position == from
    &&& node.owner_type == BulletOwner::ENEMY
    &&& node.rotation == turn_of(target.x - from.x, target.y - from.y)
    &&& node.speed == speed
    &&& node.radius == radius
    &&& node.extra@ == extra
}

/// Whether `targets` are three points chosen by chance from the upper part
/// of the visible area.
pub open spec fn retargeted(targets: Seq<Vec2>, camera: Vec2) -> bool {
    &&& targets.len() == 3
    &&& forall|i: int|
        0 <= i < 3 ==> is_some_position_inside_camera_area(
            #[trigger] targets[i],
            camera,
            100,
            100,
            800,
            400,
        )
}

/// Gives an enemy three new points to be pulled towards, chosen by chance
/// from the upper part of the visible area.
pub fn random_target_position(enemy: &mut Enemy, camera: Vec2)
    ensures
        retargeted(final(enemy).target_position@, camera),
        final(enemy).same_but_targets(old(enemy)),
{
    enemy.target_position.clear();
    let a = random_position_inside_camera_area(camera, 100, 100, 800, 400);
    let b = random_position_inside_camera_area(camera, 100, 100, 800, 400);
    let c = random_position_inside_camera_area(camera, 100, 100, 800, 400);
    enemy.target_position.push(a);
    enemy.target_position.push(b);
    enemy.target_position.push(c);
}

/// Milliseconds until an enemy acts next, chosen by chance: from two and a
/// half seconds up to three and a half.
pub fn random_weapon_tick() -> (wait: u128)
    ensures
        2500 <= wait < 3500,
{
    let draw = random_u32();
    2500 + crate::gameplay::random::scale_by_draw(1000, draw) as u128
}

/// Outcome of the hit test of an enemy that is vulnerable all over: a hit
/// counts if the circle of the given radius around `position` touches the
/// enemy's circle.
pub open spec fn circle_hit_of(enemy: &Enemy, position: Vec2, radius: u32) -> i32 {
    if circles_touch(enemy.position, enemy.radius, position, radius) {
        HIT_WEAKPOINT
    } else {
        HIT_MISS
    }
}

pub fn circle_hit(enemy: &Enemy, position: Vec2, radius: u32) -> (outcome: i32)
    ensures
        outcome == circle_hit_of(enemy, position, radius),
{
    if circles_overlap(enemy.position, enemy.radius, position, radius) {
        HIT_WEAKPOINT
    } else {
        HIT_MISS
    }
}

/// Whether `state` is odd and above zero.
pub open spec fn is_odd(state: i32) -> bool {
    state > 0 && state % 2 == 1
}

/// Whether `state` is even.
pub open spec fn is_even(state: i32) -> bool {
    state % 2 == 0
}

pub fn odd(state: i32) -> (odd: bool)
    ensures
        odd == is_odd(state),
{
    state > 0 && state % 2 == 1
}

pub fn even(state: i32) -> (even: bool)
    ensures
        even == is_even(state),
{
    if state >= 0 {
        state % 2 == 0
    } else {
        (-(state as i64)) % 2 == 0
    }
}

/// A millisecond clock one tick later; it starts over at the end of its
/// range.
pub open spec fn tick_up_spec(clock: u128) -> u128 {
    if clock + crate::ONE_FRAME <= u128::MAX {
        (clock + crate::ONE_FRAME) as u128
    } else {
        0
    }
}

#[verifier::when_used_as_spec(tick_up_spec)]
pub fn tick_up(clock: u128) -> (later: u128)
    ensures
        later == tick_up_spec(clock),
{
    match clock.checked_add(crate::ONE_FRAME) {
        Some(v) => v,
        None => 0,
    }
}

/// The behaviours an enemy can have.
pub enum EnemyType {
    Spawner(SpawnerEnemyType),
    FlyingPopCorn(FlyingPopCornEnemyType),
    CrawlingPopCorn(CrawlingPopCornEnemyType),
    Boss(BossEnemyType),
}

impl EnemyType {
    /// The number under which the behaviour is kept in the type bank.
    pub open spec fn type_id(&self) -> i32 {
        match self {
            EnemyType::Spawner(_) => 0,
            EnemyType::FlyingPopCorn(_) => 1,
            EnemyType::CrawlingPopCorn(_) => 2,
            EnemyType::Boss(_) => 3,
        }
    }

    /// What `init` does; see the behaviour's own description.
    pub open spec fn initialized(
        &self,
        before: &Enemy,
        enemy: &Enemy,
        world_before: &World,
        world: &World,
        image_assets: &ImageAssets,
    ) -> bool {
        match self {
            EnemyType::Spawner(t) => t.initialized(before, enemy, image_assets) && *world
                == *world_before,
            EnemyType::FlyingPopCorn(t) => t.initialized(
                before,
                enemy,
                world_before.camera_position,
                image_assets,
            ) && *world == *world_before,
            EnemyType::CrawlingPopCorn(t) => t.initialized(before, enemy, image_assets) && *world
                == *world_before,
            EnemyType::Boss(t) => t.initialized(before, enemy, world_before, world, image_assets),
        }
    }

    /// What `update` does; see the behaviour's own description.
    pub open spec fn updated(
        &self,
        before: &Enemy,
        enemy: &Enemy,
        world_before: &World,
        world: &World,
        target: Vec2,
        image_assets: &ImageAssets,
    ) -> bool {
        match self {
            EnemyType::Spawner(t) => t.updated(before, enemy, world_before, world, image_assets),
            EnemyType::FlyingPopCorn(t) => t.updated(
                before,
                enemy,
                world_before,
                world,
                target,
                image_assets,
            ),
            EnemyType::CrawlingPopCorn(t) => t.updated(before, enemy, target, image_assets)
                && *world == *world_before,
            EnemyType::Boss(t) => t.updated(before, enemy, world_before, world, target),
        }
    }

    /// What `die` does; see the behaviour's own description.
    pub open spec fn died(&self, world_before: &World, world: &World, position: Vec2) -> bool {
        match self {
            EnemyType::Spawner(t) => t.died(world_before, world),
            EnemyType::FlyingPopCorn(t) => t.died(world_before, world),
            EnemyType::CrawlingPopCorn(t) => t.died(world_before, world),
            EnemyType::Boss(t) => t.died(world_before, world, position),
        }
    }

    /// The outcome of the hit test; see the behaviour's own description.
    pub open spec fn hit_outcome(&self, enemy: &Enemy, position: Vec2, radius: u32) -> i32 {
        match self {
            EnemyType::Spawner(_) => HIT_MISS,
            _ => circle_hit_of(enemy, position, radius),
        }
    }

    pub fn enemy_type_id(&self) -> (id: i32)
        ensures
            id == self.type_id(),
    {
        match self {
            EnemyType::Spawner(t) => t.enemy_type_id(),
            EnemyType::FlyingPopCorn(t) => t.enemy_type_id(),
            EnemyType::CrawlingPopCorn(t) => t.enemy_type_id(),
            EnemyType::Boss(t) => t.enemy_type_id(),
        }
    }

    /// Sets an enemy up when it is activated.
    pub fn init(&self, enemy: &mut Enemy, world: &mut World, image_assets: &ImageAssets)
        ensures
            self.initialized(old(enemy), final(enemy), old(world), final(world), image_assets),
            final(enemy).ident() == old(enemy).ident(),
            final(world).camera_position == old(world).camera_position,
            final(world).enemy_spawn_nodes == old(world).enemy_spawn_nodes,
    {
        match self {
            EnemyType::Spawner(t) => t.init(enemy, image_assets),
            EnemyType::FlyingPopCorn(t) => t.init(enemy, world.camera_position, image_assets),
            EnemyType::CrawlingPopCorn(t) => t.init(enemy, image_assets),
            EnemyType::Boss(t) => t.init(enemy, world, image_assets),
        }
    }

    /// Lets one tick pass for an enemy.
    pub fn update(
        &self,
        enemy: &mut Enemy,
        target: Vec2,
        world: &mut World,
        image_assets: &ImageAssets,
    )
        ensures
            self.updated(old(enemy), final(enemy), old(world), final(world), target, image_assets),
            final(enemy).ident() == old(enemy).ident(),
            final(world).camera_position == old(world).camera_position,
    {
        match self {
            EnemyType::Spawner(t) => t.update(enemy, world, image_assets),
            EnemyType::FlyingPopCorn(t) => t.update(enemy, target, world, image_assets),
            EnemyType::CrawlingPopCorn(t) => t.update(enemy, target, image_assets),
            EnemyType::Boss(t) => {
                proof {
                    // Whatever the boss asks for leaves the camera where it is.
                    assert(forall|a: &World, b: &World, p: Vec2, x: u32, y: u32|
                        #![trigger crate::gameplay::enemy_types::boss::summoned_at(
                            a,
                            b,
                            crate::gameplay::enemy_types::boss::helper_place(p, x, y),
                        )]
                        crate::gameplay::enemy_types::boss::summoned_at(
                            a,
                            b,
                            crate::gameplay::enemy_types::boss::helper_place(p, x, y),
                        ) ==> b.camera_position == a.camera_position);
                }
                t.update(enemy, target, world)
            },
        }
    }

    /// Called once when the enemy's health is used up.
    pub fn die(&self, enemy: &mut Enemy, world: &mut World)
        ensures
            self.died(old(world), final(world), old(enemy).position),
            *final(enemy) == *old(enemy),
            final(world).camera_position == old(world).camera_position,
    {
        match self {
            EnemyType::Spawner(t) => t.die(enemy, world),
            EnemyType::FlyingPopCorn(t) => t.die(enemy, world),
            EnemyType::CrawlingPopCorn(t) => t.die(enemy, world),
            EnemyType::Boss(t) => t.die(enemy, world),
        }
    }

    /// Tests whether a hit at `position` with the given radius counts.
    /// Changes nothing.
    pub fn hit_check(&self, enemy: &Enemy, position: Vec2, radius: u32) -> (outcome: i32)
        ensures
            outcome == self.hit_outcome(enemy, position, radius),
    {
        match self {
            EnemyType::Spawner(t) => t.hit_check(enemy, position, radius),
            EnemyType::FlyingPopCorn(t) => t.hit_check(enemy, position, radius),
            EnemyType::CrawlingPopCorn(t) => t.hit_check(enemy, position, radius),
            EnemyType::Boss(t) => t.hit_check(enemy, position, radius),
        }
    }
}

/// The behaviours enemies can have, by type number.
pub struct EnemyTypeBank {
    pub types: HashMap<i32, EnemyType>,
}

impl EnemyTypeBank {
    pub fn new() -> (bank: EnemyTypeBank)
        ensures
            bank.types@ == Map::<i32, EnemyType>::empty(),
    {
        EnemyTypeBank { types: HashMap::new() }
    }

    /// Puts the behaviours of the game that `required_list` names into the
    /// bank; numbers that name no behaviour are passed over.
    pub fn setup(&mut self, image_assets: &ImageAssets, required_list: &Vec<i32>)
        ensures
            forall|n: i32|
                final(self).types@.contains_key(n) <==> old(self).types@.contains_key(n) || (0 <= n
                    <= 3 && required_list@.contains(n)),
            forall|n: i32|
                0 <= n <= 3 && required_list@.contains(n) ==> (#[trigger] final(self).types@[n]).type_id()
                    == n,
            forall|n: i32|
                old(self).types@.contains_key(n) && !(0 <= n <= 3 && required_list@.contains(n))
                    ==> final(self).types@[n] == old(self).types@[n],
    {
        let mut i: usize = 0;
        while i < required_list.len()
            invariant
                i <= required_list.len(),
                forall|n: i32|
                    self.types@.contains_key(n) <==> old(self).types@.contains_key(n) || (0 <= n
                        <= 3 && required_list@.subrange(0, i as int).contains(n)),
                forall|n: i32|
                    0 <= n <= 3 && required_list@.subrange(0, i as int).contains(n) ==> (
                    #[trigger] self.types@[n]).type_id() == n,
                forall|n: i32|
                    old(self).types@.contains_key(n) && !(0 <= n <= 3 && required_list@.subrange(
                        0,
                        i as int,
                    ).contains(n)) ==> self.types@[n] == old(self).types@[n],
            decreases required_list.len() - i,
        {
            let enemy_type_number = required_list[i];
            let ghost seen = required_list@.subrange(0, i as int);
            let ghost more = required_list@.subrange(0, i + 1);
            proof {
                assert(more == seen.push(enemy_type_number));
                assert forall|n: i32| more.contains(n) <==> seen.contains(n) || n
                    == enemy_type_number by {
                    if seen.contains(n) {
                        let k = choose|k: int| 0 <= k < seen.len() && seen[k] == n;
                        assert(more[k] == n);
                    }
                    if n == enemy_type_number {
                        assert(more[i as int] == n);
                    }
                }
            }
            if enemy_type_number == 0 {
                self.add(EnemyType::Spawner(SpawnerEnemyType::new(image_assets)));
            } else if enemy_type_number == 1 {
                self.add(EnemyType::FlyingPopCorn(FlyingPopCornEnemyType::new(image_assets)));
            } else if enemy_type_number == 2 {
                self.add(EnemyType::CrawlingPopCorn(CrawlingPopCornEnemyType::new(image_assets)));
            } else if enemy_type_number == 3 {
                self.add(EnemyType::Boss(BossEnemyType::new(image_assets)));
            }
            i += 1;
        }
        assert(required_list@.subrange(0, i as int) == required_list@);
    }

    /// Keeps `enemy_type` under its own number, in place of what was kept
    /// there.
    pub fn add(&mut self, enemy_type: EnemyType)
        ensures
            final(self).types@ == old(self).types@.insert(enemy_type.type_id(), enemy_type),
    {
        broadcast use vstd::std_specs::hash::group_hash_axioms;

        let id = enemy_type.enemy_type_id();
        self.types.insert(id, enemy_type);
    }

    /// The behaviour kept under `number`.
    pub fn get(&self, number: i32) -> (found: Option<&EnemyType>)
        ensures
            match found {
                Some(t) => self.types@.contains_key(number) && self.types@[number] == *t,
                None => !self.types@.contains_key(number),
            },
    {
        broadcast use vstd::std_specs::hash::group_hash_axioms;

        self.types.get(&number)
    }

    pub fn clear(&mut self)
        ensures
            final(self).types@ == Map::<i32, EnemyType>::empty(),
    {
        self.types.clear();
    }
}

impl Enemy {
    /// The enemy as the behaviour of its type finds it in a tick: its
    /// animation has moved on.
    pub open spec fn animated(&self) -> Enemy {
        Enemy { sprite: self.sprite.advanced().0, ..*self }
    }

    /// What dying does to an enemy and the world: a splash is asked for
    /// where the enemy is, the enemy goes out, and the behaviour of its type
    /// adds what it has to add, if the bank holds that type.
    pub open spec fn dead(
        &self,
        enemy: &Enemy,
        world_before: &World,
        world: &World,
        bank: &EnemyTypeBank,
    ) -> bool {
        &&& *enemy == (Enemy { active: false, ..*self })
        &&& exists|splashed_world: World|
            {
                &&& #[trigger] splashed(world_before, &splashed_world, self.position, "1.6"@, 1)
                &&& if bank.types@.contains_key(self.enemy_type) {
                    bank.types@[self.enemy_type].died(&splashed_world, world, self.position)
                } else {
                    *world == splashed_world
                }
            }
    }

    /// What one tick does to an enemy and the world: the animation moves
    /// on, the behaviour of the enemy's type is applied if the bank holds
    /// that type, and an enemy that is left without health dies.
    pub open spec fn stepped(
        &self,
        enemy: &Enemy,
        world_before: &World,
        world: &World,
        target: Vec2,
        bank: &EnemyTypeBank,
        image_assets: &ImageAssets,
    ) -> bool {
        exists|moved: Enemy, moved_world: World|
            {
                &&& #[trigger] acted(
                    &self.animated(),
                    &moved,
                    world_before,
                    &moved_world,
                    target,
                    bank,
                    image_assets,
                )
                &&& if moved.health == 0 {
                    moved.dead(enemy, &moved_world, world, bank)
                } else {
                    *enemy == moved && *world == moved_world
                }
            }
    }

    /// Lets one tick pass.
    pub fn update(
        &mut self,
        target: Vec2,
        bank: &EnemyTypeBank,
        world: &mut World,
        image_assets: &ImageAssets,
    )
        ensures
            old(self).stepped(final(self), old(world), final(world), target, bank, image_assets),
            final(self).ident() == old(self).ident(),
            final(world).camera_position == old(world).camera_position,
    {
        self.sprite.update();
        let ghost animated = *self;
        match bank.get(self.enemy_type) {
            Some(t) => {
                t.update(self, target, world, image_assets);
            },
            None => (),
        }
        let ghost moved = *self;
        let ghost moved_world = *world;
        proof {
            assert(animated == old(self).animated());
            assert(acted(
                &old(self).animated(),
                &moved,
                old(world),
                &moved_world,
                target,
                bank,
                image_assets,
            ));
        }
        if self.health == 0 {
            self.die(bank, world);
            assert(moved.dead(self, &moved_world, world, bank));
        } else {
            assert(*self == moved && *world == moved_world);
        }
    }

    /// Tests whether a hit at `position` with the given radius counts: the
    /// behaviour of the enemy's type decides. An enemy whose type the bank
    /// does not hold cannot be hit. Nothing is changed.
    pub fn hit_check(&self, bank: &EnemyTypeBank, position: Vec2, radius: u32) -> (outcome: i32)
        ensures
            outcome == hit_of(self, bank, position, radius),
    {
        match bank.get(self.enemy_type) {
            Some(t) => t.hit_check(self, position, radius),
            None => HIT_MISS,
        }
    }

    /// Where the splash of a hit at `hit_position` appears: at the hit, or
    /// on the enemy itself if the hit lies outside its circle.
    pub open spec fn splash_anchor(&self, hit_position: Vec2) -> Vec2 {
        if dist_sq(
            self.position.x as int,
            self.position.y as int,
            hit_position.x as int,
            hit_position.y as int,
        ) > self.radius * self.radius {
            self.position
        } else {
            hit_position
        }
    }

    /// Takes a hit: the enemy loses `damage` health, down to zero, starts to
    /// show that it was hit, and a splash is asked for.
    pub fn get_hit(&mut self, world: &mut World, hit_position: Vec2, damage: u32)
        ensures
            *final(self) == (Enemy {
                hit_frame: if old(self).hit_frame == 0 {
                    HIT_FRAMES
                } else {
                    old(self).hit_frame
                },
                health: if old(self).health >= damage {
                    (old(self).health - damage) as u32
                } else {
                    0
                },
                ..*old(self)
            }),
            splashed(old(world), final(world), old(self).splash_anchor(hit_position), "0.9"@, 1),
    {
        if self.hit_frame == 0 {
            self.hit_frame = HIT_FRAMES;
        }
        let distance = distance_sqr_between(self.position, hit_position);
        let reach: i128 = self.radius as i128;
        assert(0 <= reach * reach <= 0x1_0000_0000 * 0x1_0000_0000) by (nonlinear_arith)
            requires
                0 <= reach <= 0x1_0000_0000,
        ;
        let anchor = if distance > reach * reach {
            self.position
        } else {
            hit_position
        };
        self.health = self.health.saturating_sub(damage);
        self.spawn_splash(world, anchor, "0.9");
    }

    /// Called when the enemy's health is used up.
    fn die(&mut self, bank: &EnemyTypeBank, world: &mut World)
        ensures
            old(self).dead(final(self), old(world), final(world), bank),
            final(world).camera_position == old(world).camera_position,
    {
        self.spawn_splash(world, self.position, "1.6");
        let ghost splashed_world = *world;
        self.active = false;
        match bank.get(self.enemy_type) {
            Some(t) => {
                t.die(self, world);
            },
            None => (),
        }
        proof {
            assert(splashed(old(world), &splashed_world, old(self).position, "1.6"@, 1));
        }
    }
}

/// What the behaviour of its type does to an enemy in a tick, if the bank
/// holds that type; nothing otherwise.
pub open spec fn acted(
    before: &Enemy,
    enemy: &Enemy,
    world_before: &World,
    world: &World,
    target: Vec2,
    bank: &EnemyTypeBank,
    image_assets: &ImageAssets,
) -> bool {
    if bank.types@.contains_key(before.enemy_type) {
        bank.types@[before.enemy_type].updated(
            before,
            enemy,
            world_before,
            world,
            target,
            image_assets,
        )
    } else {
        *enemy == *before && *world == *world_before
    }
}

/// The outcome of the hit test of an enemy.
pub open spec fn hit_of(enemy: &Enemy, bank: &EnemyTypeBank, position: Vec2, radius: u32) -> i32 {
    if bank.types@.contains_key(enemy.enemy_type) {
        bank.types@[enemy.enemy_type].hit_outcome(enemy, position, radius)
    } else {
        HIT_MISS
    }
}

/// Number of enemies a manager is made with.
pub const ENEMY_CAPACITY: usize = 99;

/// Keeps every enemy: the inactive ones in a pool, the active ones in a
/// list.
pub struct EnemyManager {
    pub active_enemies: Vec<Enemy>,
    pub inactive_enemies: Vec<Enemy>,
    /// Number of enemies the manager was made with.
    pub capacity: usize,
}

/// The state in which the manager hands an enemy to the behaviour of its
/// type: blank, but at the place asked for and with the request's
/// parameters decoded.
pub open spec fn readied(enemy: &Enemy, position: Vec2, raw_extra: Seq<char>) -> bool {
    &&& !enemy.active
    &&& enemy.enemy_type == 0
    &&& enemy.health == 0
    &&& enemy.max_health == 1
    &&& enemy.hit_frame == 0
    &&& enemy.position == position
    &&& enemy.rotation == 0
    &&& enemy.radius == 0
    &&& enemy.frame == 0
    &&& enemy.tick == 0
    &&& enemy.maximum_tick == 1
    &&& enemy.weapon_tick == 0
    &&& enemy.life_time == 0
    &&& enemy.state == 0
    &&& enemy.extra@ == decode(raw_extra, Map::empty()).0
    &&& enemy.target_position@.len() == 0
    &&& enemy.sprite.is_fresh()
}

/// What serving a request for an enemy comes to.
///
/// If the pool is used up or the bank does not hold the type, nothing
/// changes and the answer is that no enemy was spawned. Otherwise the last
/// enemy of the pool is readied for the request. If the parameters are well
/// formed, the behaviour of the type sets the enemy up and the enemy joins
/// the end of the active list. If they are malformed, the enemy returns to
/// the pool, blank, and the answer is the error.
pub open spec fn enemy_served(
    before: &EnemyManager,
    after: &EnemyManager,
    world_before: &World,
    world: &World,
    enemy_type_number: i32,
    position: Vec2,
    raw_extra: Seq<char>,
    bank: &EnemyTypeBank,
    image_assets: &ImageAssets,
    outcome: Result<bool, ExtraError>,
) -> bool {
    match outcome {
        Ok(false) => {
            &&& !before.can_spawn(enemy_type_number, bank)
            &&& *after == *before
            &&& *world == *world_before
        },
        Ok(true) => {
            let made = after.active_enemies@.last();
            &&& before.can_spawn(enemy_type_number, bank)
            &&& decode(raw_extra, Map::empty()).1 is None
            &&& after.inactive_enemies@ == before.inactive_enemies@.drop_last()
            &&& after.active_enemies@.len() == before.active_enemies@.len() + 1
            &&& after.active_enemies@.drop_last() == before.active_enemies@
            &&& made.ident() == before.inactive_enemies@.last().ident()
            &&& exists|ready: Enemy|
                #[trigger] readied(&ready, position, raw_extra)
                    && bank.types@[enemy_type_number].initialized(
                    &ready,
                    &made,
                    world_before,
                    world,
                    image_assets,
                )
        },
        Err(e) => {
            &&& before.can_spawn(enemy_type_number, bank)
            &&& decode(raw_extra, Map::empty()).1 == Some(e.token@)
            &&& after.active_enemies@ == before.active_enemies@
            &&& after.inactive_enemies@.len() == before.inactive_enemies@.len()
            &&& after.inactive_enemies@.drop_last() == before.inactive_enemies@.drop_last()
            &&& after.inactive_enemies@.last().blank()
            &&& after.inactive_enemies@.last().ident() == before.inactive_enemies@.last().ident()
            &&& *world == *world_before
        },
    }
}

/// What serving a queue of requests comes to, given the managers and worlds
/// between the requests and the answers to them: the requests are served in
/// order, each in the state that the one before it left, up to the first
/// that is answered with an error.
pub open spec fn enemies_served_through(
    before: &EnemyManager,
    after: &EnemyManager,
    world_before: &World,
    world: &World,
    nodes: Seq<EnemySpawnNode>,
    bank: &EnemyTypeBank,
    image_assets: &ImageAssets,
    outcome: Result<(), ExtraError>,
    managers: Seq<EnemyManager>,
    worlds: Seq<World>,
    answers: Seq<Result<bool, ExtraError>>,
) -> bool {
    let n = answers.len() as int;
    &&& n <= nodes.len()
    &&& managers.len() == n + 1
    &&& worlds.len() == n + 1
    &&& managers[0] == *before
    &&& worlds[0].enemy_spawn_nodes@.len() == 0
    &&& worlds[0].same_but_enemies(world_before)
    &&& managers[n] == *after
    &&& worlds[n] == *world
    &&& forall|i: int|
        0 <= i < n ==> enemy_served(
            &managers[i],
            &managers[i + 1],
            &worlds[i],
            &worlds[i + 1],
            nodes[i].enemy_type,
            nodes[i].position,
            nodes[i].extra@,
            bank,
            image_assets,
            #[trigger] answers[i],
        )
    &&& forall|i: int| 0 <= i < n - 1 ==> (#[trigger] answers[i]) is Ok
    &&& match outcome {
        Ok(_) => n == nodes.len() && (n > 0 ==> answers[n - 1] is Ok),
        Err(e) => n > 0 && answers[n - 1] == Err::<bool, ExtraError>(e),
    }
}

/// What serving a queue of requests comes to; see `enemies_served_through`.
pub open spec fn enemies_served(
    before: &EnemyManager,
    after: &EnemyManager,
    world_before: &World,
    world: &World,
    nodes: Seq<EnemySpawnNode>,
    bank: &EnemyTypeBank,
    image_assets: &ImageAssets,
    outcome: Result<(), ExtraError>,
) -> bool {
    exists|managers: Seq<EnemyManager>, worlds: Seq<World>, answers: Seq<Result<bool, ExtraError>>|
     #[trigger]
        enemies_served_through(
            before,
            after,
            world_before,
            world,
            nodes,
            bank,
            image_assets,
            outcome,
            managers,
            worlds,
            answers,
        )
}

/// What one tick does to the list of active enemies, to the pool and to the
/// world: every enemy of the list makes its step, one after the other, each
/// in the world that the one before it left; those that are still live
/// stay, in order, and the others join the end of the pool, the last of
/// them first.
pub open spec fn swept(
    before: &EnemyManager,
    after: &EnemyManager,
    world_before: &World,
    world: &World,
    target: Vec2,
    bank: &EnemyTypeBank,
    image_assets: &ImageAssets,
) -> bool {
    exists|mid: Seq<Enemy>, worlds: Seq<World>| #[trigger]
        swept_through(before, after, world_before, world, target, bank, image_assets, mid, worlds)
}

/// What one tick does to the active enemies, given the enemies `mid` as
/// their steps leave them and the worlds `worlds` between the steps; see
/// `swept`.
pub open spec fn swept_through(
    before: &EnemyManager,
    after: &EnemyManager,
    world_before: &World,
    world: &World,
    target: Vec2,
    bank: &EnemyTypeBank,
    image_assets: &ImageAssets,
    mid: Seq<Enemy>,
    worlds: Seq<World>,
) -> bool {
    &&& mid.len() == before.active_enemies@.len()
    &&& worlds.len() == mid.len() + 1
    &&& worlds[0] == *world_before
    &&& worlds[mid.len() as int] == *world
    &&& forall|i: int|
        0 <= i < mid.len() ==> (#[trigger] before.active_enemies@[i]).stepped(
            &mid[i],
            &worlds[i],
            &worlds[i + 1],
            target,
            bank,
            image_assets,
        )
    &&& after.active_enemies@ == survivors(mid)
    &&& idents(after.inactive_enemies@) == idents(before.inactive_enemies@) + casualties(mid)
}

impl EnemyManager {
    /// The identities of all enemies the manager holds.
    pub open spec fn held(&self) -> Multiset<nat> {
        bag(self.inactive_enemies@).add(bag(self.active_enemies@))
    }

    /// Number of enemies the manager holds, in both lists together.
    pub open spec fn count(&self) -> nat {
        self.inactive_enemies@.len() + self.active_enemies@.len()
    }

    /// The manager holds each of the enemies it was made with in exactly
    /// one place.
    pub open spec fn wf(&self) -> bool {
        self.held() == full_bag(self.capacity as nat)
    }

    /// Whether a request for an enemy of the given type can be served: the
    /// pool has an enemy left and the bank holds the type.
    pub open spec fn can_spawn(&self, enemy_type_number: i32, bank: &EnemyTypeBank) -> bool {
        self.inactive_enemies@.len() > 0 && bank.types@.contains_key(enemy_type_number)
    }

    /// No enemy is ever gained or lost: the two lists together hold as many
    /// enemies as the manager was made with.
    pub proof fn lemma_conservation(&self)
        requires
            self.wf(),
        ensures
            self.count() == self.capacity,
    {
        broadcast use group_multiset_axioms;

        lemma_full_bag(self.capacity as nat);
        lemma_bag_len(self.inactive_enemies@);
        lemma_bag_len(self.active_enemies@);
    }

    /// No enemy is in two places: over the pool and the active list
    /// together, every identity below the capacity occurs exactly once and
    /// no other identity occurs at all.
    pub proof fn lemma_exclusive_membership(&self, id: nat)
        requires
            self.wf(),
        ensures
            bag(self.inactive_enemies@).count(id) + bag(self.active_enemies@).count(id) == if id
                < self.capacity {
                1nat
            } else {
                0nat
            },
    {
        broadcast use group_multiset_axioms;

        lemma_full_bag(self.capacity as nat);
        assert(self.held().count(id) == full_bag(self.capacity as nat).count(id));
    }

    /// A manager with all its enemies in the pool.
    pub fn new() -> (manager: EnemyManager)
        ensures
            manager.wf(),
            manager.capacity == ENEMY_CAPACITY,
            manager.inactive_enemies@.len() == ENEMY_CAPACITY,
            manager.active_enemies@.len() == 0,
            forall|i: int|
                0 <= i < manager.inactive_enemies@.len() ==> (
                #[trigger] manager.inactive_enemies@[i]).blank(),
    {
        let mut inactive_enemies: Vec<Enemy> = Vec::new();
        let mut i: usize = 0;
        proof {
            lemma_bag_empty(inactive_enemies@);
            assert(full_bag(0) =~= Multiset::<nat>::empty()) by {
                lemma_full_bag(0);
            }
        }
        while i < ENEMY_CAPACITY
            invariant
                i <= ENEMY_CAPACITY,
                inactive_enemies@.len() == i,
                bag(inactive_enemies@) == full_bag(i as nat),
                forall|j: int|
                    0 <= j < inactive_enemies@.len() ==> (#[trigger] inactive_enemies@[j]).blank(),
            decreases ENEMY_CAPACITY - i,
        {
            let enemy = Enemy::with_ident(Ghost(i as nat));
            proof {
                lemma_bag_push(inactive_enemies@, enemy);
                lemma_full_bag_grow(i as nat);
            }
            inactive_enemies.push(enemy);
            i += 1;
        }
        let manager = EnemyManager {
            active_enemies: Vec::new(),
            inactive_enemies,
            capacity: ENEMY_CAPACITY,
        };
        proof {
            lemma_bag_empty(manager.active_enemies@);
            assert(manager.held() =~= bag(manager.inactive_enemies@));
        }
        manager
    }

    /// Serves a request for an enemy if the pool has an enemy left and the
    /// bank holds the type asked for: the last enemy of the pool is reset,
    /// put at `position`, given the parameters of `raw_extra`, set up by the
    /// behaviour of its type and added to the end of the active list.
    /// Malformed parameters are answered with the error, and the enemy goes
    /// back to the pool.
    pub fn spawn_enemy(
        &mut self,
        enemy_type_number: i32,
        position: Vec2,
        raw_extra: &str,
        bank: &EnemyTypeBank,
        world: &mut World,
        image_assets: &ImageAssets,
    ) -> (outcome: Result<bool, ExtraError>)
        requires
            old(self).wf(),
        ensures
            final(self).wf(),
            final(self).capacity == old(self).capacity,
            final(world).camera_position == old(world).camera_position,
            final(world).enemy_spawn_nodes == old(world).enemy_spawn_nodes,
            enemy_served(
                old(self),
                final(self),
                old(world),
                final(world),
                enemy_type_number,
                position,
                raw_extra@,
                bank,
                image_assets,
                outcome,
            ),
    {
        broadcast use group_multiset_axioms;

        if self.inactive_enemies.len() == 0 {
            return Ok(false);
        }
        let enemy_type = match bank.get(enemy_type_number) {
            Some(t) => t,
            None => {
                return Ok(false);
            },
        };
        proof {
            lemma_bag_drop_last(self.inactive_enemies@);
        }
        let mut enemy = self.inactive_enemies.pop().unwrap();
        enemy.reset();
        enemy.position = position;
        match enemy.parsing_extra(raw_extra) {
            Ok(_) => {},
            Err(e) => {
                enemy.reset();
                proof {
                    lemma_bag_push(self.inactive_enemies@, enemy);
                }
                self.inactive_enemies.push(enemy);
                proof {
                    assert(self.held() =~= old(self).held());
                    assert(self.inactive_enemies@.drop_last() == old(self).inactive_enemies@.drop_last());
                }
                return Err(e);
            },
        }
        let ghost ready = enemy;
        enemy_type.init(&mut enemy, world, image_assets);
        proof {
            lemma_bag_push(self.active_enemies@, enemy);
        }
        self.active_enemies.push(enemy);
        proof {
            assert(self.held() =~= old(self).held());
            assert(self.active_enemies@.drop_last() == old(self).active_enemies@);
            assert(readied(&ready, position, raw_extra@));
        }
        Ok(true)
    }

    /// Lets one tick pass for the active enemies, and returns those that
    /// went out to the pool.
    pub fn update_active_enemies(
        &mut self,
        target: Vec2,
        bank: &EnemyTypeBank,
        world: &mut World,
        image_assets: &ImageAssets,
    )
        requires
            old(self).wf(),
        ensures
            final(self).wf(),
            final(self).capacity == old(self).capacity,
            final(world).camera_position == old(world).camera_position,
            swept(old(self), final(self), old(world), final(world), target, bank, image_assets),
            final(self).inactive_enemies@.subrange(0, old(self).inactive_enemies@.len() as int)
                == old(self).inactive_enemies@,
            forall|k: int|
                old(self).inactive_enemies@.len() <= k < final(self).inactive_enemies@.len() ==> (
                #[trigger] final(self).inactive_enemies@[k]).blank(),
            forall|k: int|
                0 <= k < final(self).active_enemies@.len() ==> (#[trigger] final(self).active_enemies@[k]).active,
    {
        broadcast use group_multiset_axioms;

        let n: usize = self.active_enemies.len();
        let ghost mut worlds: Seq<World> = seq![*world];
        let mut i: usize = 0;
        while i < n
            invariant
                i <= n,
                n == self.active_enemies@.len(),
                n == old(self).active_enemies@.len(),
                self.capacity == old(self).capacity,
                self.inactive_enemies == old(self).inactive_enemies,
                idents(self.active_enemies@) == idents(old(self).active_enemies@),
                world.camera_position == old(world).camera_position,
                worlds.len() == i + 1,
                worlds[0] == *old(world),
                worlds[i as int] == *world,
                forall|j: int|
                    0 <= j < i ==> (#[trigger] old(self).active_enemies@[j]).stepped(
                        &self.active_enemies@[j],
                        &worlds[j],
                        &worlds[j + 1],
                        target,
                        bank,
                        image_assets,
                    ),
                forall|j: int| i <= j < n ==> self.active_enemies@[j] == old(self).active_enemies@[j],
            decreases n - i,
        {
            let ghost step_before = self.active_enemies@;
            self.active_enemies[i].update(target, bank, world, image_assets);
            proof {
                assert(self.active_enemies@ == step_before.update(
                    i as int,
                    self.active_enemies@[i as int],
                ));
                lemma_bag_update(step_before, i as int, self.active_enemies@[i as int]);
                worlds = worlds.push(*world);
            }
            i += 1;
        }
        let ghost mid = self.active_enemies@;
        proof {
            assert(bag(mid) == bag(old(self).active_enemies@));
        }
        release_inactive(&mut self.active_enemies, &mut self.inactive_enemies);
        proof {
            assert forall|x: nat| self.held().count(x) == old(self).held().count(x) by {
                assert(bag(self.active_enemies@).add(bag(self.inactive_enemies@)).count(x) == bag(
                    mid,
                ).add(bag(old(self).inactive_enemies@)).count(x));
            }
            assert(self.held() =~= old(self).held());
            assert(survivors(mid) == self.active_enemies@);
            crate::gameplay::pool::lemma_survivors_live(mid);
            assert(swept_through(
                old(self),
                self,
                old(world),
                world,
                target,
                bank,
                image_assets,
                mid,
                worlds,
            ));
        }
    }

    pub fn has_active_enemy(&self) -> (any: bool)
        ensures
            any == (self.active_enemies@.len() > 0),
    {
        self.active_enemies.len() > 0
    }
}

/// Number of requests that ask for a type the bank holds.
pub open spec fn known_requests(nodes: Seq<EnemySpawnNode>, types: Set<i32>) -> nat
    decreases nodes.len(),
{
    if nodes.len() == 0 {
        0
    } else {
        known_requests(nodes.drop_last(), types) + if types.contains(nodes.last().enemy_type) {
            1nat
        } else {
            0nat
        }
    }
}

/// Whether the request at position `i` gets an enemy when the requests are
/// served in order from a pool of `available` enemies: its type is known
/// and the requests before it have left an enemy over.
pub open spec fn is_served(
    nodes: Seq<EnemySpawnNode>,
    types: Set<i32>,
    available: nat,
    i: int,
) -> bool {
    types.contains(nodes[i].enemy_type) && known_requests(nodes.subrange(0, i), types) < available
}

/// Whether the parameters of a request are malformed.
pub open spec fn malformed(node: &EnemySpawnNode) -> bool {
    decode(node.extra@, Map::empty()).1 is Some
}

impl EnemyManager {
    /// Serves the enemy requests that are waiting, in order, and empties the
    /// queue. A request is served if the bank holds its type and the pool is
    /// not used up; the others are dropped. The first served request with
    /// malformed parameters ends the call with its error; the queue is empty
    /// then too.
    pub fn spawn_enemies_from_queue(
        &mut self,
        bank: &EnemyTypeBank,
        world: &mut World,
        image_assets: &ImageAssets,
    ) -> (outcome: Result<(), ExtraError>)
        requires
            old(self).wf(),
        ensures
            final(self).wf(),
            final(self).capacity == old(self).capacity,
            final(world).enemy_spawn_nodes@.len() == 0,
            final(world).camera_position == old(world).camera_position,
            enemies_served(
                old(self),
                final(self),
                old(world),
                final(world),
                old(world).enemy_spawn_nodes@,
                bank,
                image_assets,
                outcome,
            ),
            match outcome {
                Ok(_) => {
                    &&& forall|i: int|
                        0 <= i < old(world).enemy_spawn_nodes@.len() && is_served(
                            old(world).enemy_spawn_nodes@,
                            bank.types@.dom(),
                            old(self).inactive_enemies@.len(),
                            i,
                        ) ==> !malformed(&#[trigger] old(world).enemy_spawn_nodes@[i])
                    &&& final(self).inactive_enemies@.len() == old(self).inactive_enemies@.len()
                        - vstd::math::min(
                        old(self).inactive_enemies@.len() as int,
                        known_requests(old(world).enemy_spawn_nodes@, bank.types@.dom()) as int,
                    )
                    &&& final(self).inactive_enemies@ == old(self).inactive_enemies@.subrange(
                        0,
                        final(self).inactive_enemies@.len() as int,
                    )
                    &&& final(self).active_enemies@.len() == old(self).active_enemies@.len() + old(self).inactive_enemies@.len() - final(self).inactive_enemies@.len()
                    &&& final(self).active_enemies@.subrange(
                        0,
                        old(self).active_enemies@.len() as int,
                    ) == old(self).active_enemies@
                },
                Err(e) => exists|i: int|
                    {
                        &&& 0 <= i < old(world).enemy_spawn_nodes@.len()
                        &&& is_served(
                            old(world).enemy_spawn_nodes@,
                            bank.types@.dom(),
                            old(self).inactive_enemies@.len(),
                            i,
                        )
                        &&& decode(
                            (#[trigger] old(world).enemy_spawn_nodes@[i]).extra@,
                            Map::empty(),
                        ).1 == Some(e.token@)
                    },
            },
    {
        let mut nodes: Vec<EnemySpawnNode> = Vec::new();
        core::mem::swap(&mut nodes, &mut world.enemy_spawn_nodes);
        let ghost before = *self;
        let ghost types = bank.types@.dom();
        let ghost available = self.inactive_enemies@.len();
        let ghost mut managers: Seq<EnemyManager> = seq![*self];
        let ghost mut worlds: Seq<World> = seq![*world];
        let ghost mut answers: Seq<Result<bool, ExtraError>> = Seq::empty();
        let n: usize = nodes.len();
        let mut i: usize = 0;
        proof {
            assert(nodes@.subrange(0, 0) == Seq::<EnemySpawnNode>::empty());
            assert(self.inactive_enemies@.subrange(0, available as int) == self.inactive_enemies@);
            assert(self.active_enemies@.subrange(0, self.active_enemies@.len() as int)
                == self.active_enemies@);
        }
        while i < n
            invariant
                i <= n,
                n == nodes@.len(),
                nodes@ == old(world).enemy_spawn_nodes@,
                self.wf(),
                self.capacity == before.capacity,
                before == *old(self),
                types == bank.types@.dom(),
                available == before.inactive_enemies@.len(),
                self.inactive_enemies@.len() == available - vstd::math::min(
                    available as int,
                    known_requests(nodes@.subrange(0, i as int), types) as int,
                ),
                self.inactive_enemies@ == before.inactive_enemies@.subrange(
                    0,
                    self.inactive_enemies@.len() as int,
                ),
                self.active_enemies@.len() == before.active_enemies@.len() + available
                    - self.inactive_enemies@.len(),
                self.active_enemies@.subrange(0, before.active_enemies@.len() as int)
                    == before.active_enemies@,
                forall|j: int|
                    0 <= j < i && is_served(nodes@, types, available, j) ==> !malformed(&nodes@[j]),
                world.enemy_spawn_nodes@.len() == 0,
                world.camera_position == old(world).camera_position,
                answers.len() == i,
                managers.len() == i + 1,
                worlds.len() == i + 1,
                managers[0] == before,
                worlds[0].enemy_spawn_nodes@.len() == 0,
                worlds[0].same_but_enemies(old(world)),
                managers[i as int] == *self,
                worlds[i as int] == *world,
                forall|k: int|
                    0 <= k < i ==> enemy_served(
                        &managers[k],
                        &managers[k + 1],
                        &worlds[k],
                        &worlds[k + 1],
                        nodes@[k].enemy_type,
                        nodes@[k].position,
                        nodes@[k].extra@,
                        bank,
                        image_assets,
                        #[trigger] answers[k],
                    ),
                forall|k: int| 0 <= k < i ==> (#[trigger] answers[k]) is Ok,
            decreases n - i,
        {
            let ghost step_before = *self;
            let ghost world_before = *world;
            proof {
                assert(nodes@.subrange(0, i + 1).drop_last() == nodes@.subrange(0, i as int));
            }
            let answer = self.spawn_enemy(
                nodes[i].enemy_type,
                nodes[i].position,
                nodes[i].extra.as_str(),
                bank,
                world,
                image_assets,
            );
            proof {
                managers = managers.push(*self);
                worlds = worlds.push(*world);
                answers = answers.push(answer);
            }
            let served: bool = match answer {
                Ok(served) => served,
                Err(e) => {
                    proof {
                        assert(is_served(nodes@, types, available, i as int));
                        assert(enemies_served_through(
                            old(self),
                            self,
                            old(world),
                            world,
                            nodes@,
                            bank,
                            image_assets,
                            Err::<(), ExtraError>(e),
                            managers,
                            worlds,
                            answers,
                        ));
                    }
                    return Err(e);
                },
            };
            proof {
                if served {
                    assert(self.inactive_enemies@ == before.inactive_enemies@.subrange(
                        0,
                        self.inactive_enemies@.len() as int,
                    ));
                    assert(self.active_enemies@.subrange(0, before.active_enemies@.len() as int)
                        == before.active_enemies@) by {
                        assert(self.active_enemies@.drop_last() == step_before.active_enemies@);
                    }
                }
            }
            i += 1;
        }
        proof {
            assert(nodes@.subrange(0, n as int) == nodes@);
            assert(enemies_served_through(
                old(self),
                self,
                old(world),
                world,
                nodes@,
                bank,
                image_assets,
                Ok::<(), ExtraError>(()),
                managers,
                worlds,
                answers,
            ));
        }
        Ok(())
    }
}

} // verus!
