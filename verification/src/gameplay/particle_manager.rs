//! Particles: short-lived effects, recycled through a pool and drawn in
//! layers.

use std::collections::HashMap;

use vstd::multiset::*;
use vstd::prelude::*;
use vstd::string::*;

use crate::gameplay::extra::{decode, permille_value, ExtraError, ExtraParams};
use crate::gameplay::particle_types::explosion::ExplosionParticleType;
use crate::gameplay::pool::{
    bag, casualties, full_bag, idents, lemma_bag_drop_last, lemma_bag_empty, lemma_bag_len,
    lemma_bag_push, lemma_bag_update, lemma_full_bag, release_inactive, survivors,
    lemma_full_bag_grow, Pooled,
};
use crate::gameplay::world::World;
use crate::gameplay::utils::Vec2;
use crate::image_assets::ImageAssets;
use crate::sprite::Sprite;

verus! {

/// The layer a particle is drawn in, from the one furthest back to the one
/// in front.
#[derive(Debug, PartialEq, Eq, Hash, Clone, Copy, Structural)]
pub enum ParticleDrawLayer {
    Bottomest,
    Explosion,
    BulletHit,
    FiringBullet,
    Topest,
}

/// Number of draw layers.
pub const LAYERS: usize = 5;

impl ParticleDrawLayer {
    /// Position of the layer, counted from the back.
    pub open spec fn ordinal(self) -> nat {
        match self {
            ParticleDrawLayer::Bottomest => 0,
            ParticleDrawLayer::Explosion => 1,
            ParticleDrawLayer::BulletHit => 2,
            ParticleDrawLayer::FiringBullet => 3,
            ParticleDrawLayer::Topest => 4,
        }
    }

    pub fn index(self) -> (i: usize)
        ensures
            i == self.ordinal(),
            i < LAYERS,
    {
        match self {
            ParticleDrawLayer::Bottomest => 0,
            ParticleDrawLayer::Explosion => 1,
            ParticleDrawLayer::BulletHit => 2,
            ParticleDrawLayer::FiringBullet => 3,
            ParticleDrawLayer::Topest => 4,
        }
    }
}

/// A request for one particle.
pub struct ParticleSpawnNode {
    pub particle_type_number: u128,
    pub position: Vec2,
    pub draw_layer: ParticleDrawLayer,
    pub extra: String,
}

impl ParticleSpawnNode {
    /// Whether the request asks for this.
    pub open spec fn is_request(
        &self,
        particle_type_number: u128,
        position: Vec2,
        draw_layer: ParticleDrawLayer,
        extra: Seq<char>,
    ) -> bool {
        &&& self.particle_type_number == particle_type_number
        &&& self.position == position
        &&& self.draw_layer == draw_layer
        &&& self.extra@ == extra
    }

    pub fn new(
        particle_type_number: u128,
        position: Vec2,
        draw_layer: ParticleDrawLayer,
        extra: &str,
    ) -> (node: ParticleSpawnNode)
        ensures
            node.is_request(particle_type_number, position, draw_layer, extra@),
    {
        ParticleSpawnNode {
            particle_type_number,
            position,
            draw_layer,
            extra: String::from_str(extra),
        }
    }
}

pub struct Particle {
    /// Which record of the pool this is. Exists in proofs only.
    pub id: Ghost<nat>,
    pub active: bool,
    /// Which behaviour of the type bank drives the particle.
    pub particle_type_number: u128,
    pub position: Vec2,
    pub rotation: i32,
    pub velocity: Vec2,
    pub sprite: Sprite,
    /// Ticks since the particle became active.
    pub frame: i32,
    /// Milliseconds the particle has left.
    pub life_time: u128,
    pub face_right: bool,
    pub extra: ExtraParams,
}

impl Pooled for Particle {
    open spec fn ident(&self) -> nat {
        self.id@
    }

    open spec fn live(&self) -> bool {
        self.active
    }

    open spec fn blank(&self) -> bool {
        &&& !self.active
        &&& self.particle_type_number == 0
        &&& self.position == (Vec2 { x: 0, y: 0 })
        &&& self.rotation == 0
        &&& self.velocity == (Vec2 { x: 0, y: 0 })
        &&& self.sprite.is_fresh()
        &&& self.frame == 0
        &&& self.life_time == 0
        &&& self.face_right
        &&& self.extra@ == Map::<Seq<char>, Seq<char>>::empty()
    }

    fn is_live(&self) -> (live: bool) {
        self.active
    }

    fn release(&mut self) {
        self.reset();
    }
}

impl Particle {
    pub fn new() -> (particle: Particle)
        ensures
            particle.blank(),
    {
        Particle::with_ident(Ghost(0))
    }

    pub(crate) fn with_ident(id: Ghost<nat>) -> (particle: Particle)
        ensures
            particle.blank(),
            particle.ident() == id@,
    {
        Particle {
            id,
            active: false,
            particle_type_number: 0,
            position: Vec2::zero(),
            velocity: Vec2::zero(),
            rotation: 0,
            sprite: Sprite::new(),
            frame: 0,
            life_time: 0,
            face_right: true,
            extra: ExtraParams::new(),
        }
    }

    /// Brings every field back to the value a new particle has. The
    /// particle stays the record it is.
    pub fn reset(&mut self)
        ensures
            final(self).blank(),
            final(self).ident() == old(self).ident(),
    {
        self.active = false;
        self.frame = 0;
        self.life_time = 0;
        self.particle_type_number = 0;
        self.position = Vec2::zero();
        self.velocity = Vec2::zero();
        self.rotation = 0;
        self.face_right = true;
        self.extra.clear();
        self.sprite.reset();
    }

    /// Decodes `raw_extra` into the particle's extra parameters.
    pub fn parsing_extra(&mut self, raw_extra: &str) -> (outcome: Result<(), ExtraError>)
        ensures
            final(self).extra@ == decode(raw_extra@, old(self).extra@).0,
            match outcome {
                Ok(_) => decode(raw_extra@, old(self).extra@).1 is None,
                Err(e) => decode(raw_extra@, old(self).extra@).1 == Some(e.token@) && e.raw@
                    == raw_extra@,
            },
            final(self).same_but_extra(old(self)),
    {
        self.extra.parsing_extra(raw_extra)
    }

    /// Whether the two particles agree in everything but sprite, life time
    /// and activity.
    pub open spec fn same_but_clock(&self, other: &Particle) -> bool {
        &&& self.ident() == other.ident()
        &&& self.particle_type_number == other.particle_type_number
        &&& self.position == other.position
        &&& self.rotation == other.rotation
        &&& self.velocity == other.velocity
        &&& self.frame == other.frame
        &&& self.face_right == other.face_right
        &&& self.extra == other.extra
    }

    /// Whether the two particles agree in everything but the extra
    /// parameters.
    pub open spec fn same_but_extra(&self, other: &Particle) -> bool {
        &&& self.ident() == other.ident()
        &&& self.active == other.active
        &&& self.particle_type_number == other.particle_type_number
        &&& self.position == other.position
        &&& self.rotation == other.rotation
        &&& self.velocity == other.velocity
        &&& self.sprite == other.sprite
        &&& self.frame == other.frame
        &&& self.life_time == other.life_time
        &&& self.face_right == other.face_right
    }
}

/// The behaviours a particle can have.
pub enum ParticleType {
    Explosion(ExplosionParticleType),
}

impl ParticleType {
    /// The number under which the behaviour is kept in the type bank.
    pub open spec fn type_id(&self) -> u128 {
        match self {
            ParticleType::Explosion(_) => 1,
        }
    }

    /// What `init` does; see the behaviour's own description.
    pub open spec fn initialized(
        &self,
        after: &ParticleType,
        before: &Particle,
        particle: &Particle,
        image_assets: &ImageAssets,
    ) -> bool {
        match (self, after) {
            (ParticleType::Explosion(a), ParticleType::Explosion(b)) => a.initialized(
                b,
                before,
                particle,
                image_assets,
            ),
        }
    }

    /// What `update` does; see the behaviour's own description.
    pub open spec fn updated(&self, before: &Particle, particle: &Particle) -> bool {
        match self {
            ParticleType::Explosion(a) => a.updated(before, particle),
        }
    }

    pub fn particle_type_id(&self) -> (id: u128)
        ensures
            id == self.type_id(),
    {
        match self {
            ParticleType::Explosion(t) => t.particle_type_id(),
        }
    }

    /// Sets a particle up when it is activated.
    pub fn init(&mut self, particle: &mut Particle, image_assets: &ImageAssets)
        ensures
            old(self).initialized(final(self), old(particle), final(particle), image_assets),
            final(particle).ident() == old(particle).ident(),
            final(self).type_id() == old(self).type_id(),
    {
        match self {
            ParticleType::Explosion(t) => t.init(particle, image_assets),
        }
    }

    /// Lets one tick pass for a particle.
    pub fn update(&self, particle: &mut Particle)
        ensures
            self.updated(old(particle), final(particle)),
            final(particle).ident() == old(particle).ident(),
    {
        match self {
            ParticleType::Explosion(t) => t.update(particle),
        }
    }
}

/// The behaviours particles can have, by type number.
pub struct ParticleTypeBank {
    pub types: HashMap<u128, ParticleType>,
}

impl ParticleTypeBank {
    pub fn new() -> (bank: ParticleTypeBank)
        ensures
            bank.types@ == Map::<u128, ParticleType>::empty(),
    {
        ParticleTypeBank { types: HashMap::new() }
    }

    /// The behaviour kept under `number`.
    pub fn get(&self, number: u128) -> (found: Option<&ParticleType>)
        ensures
            match found {
                Some(t) => self.types@.contains_key(number) && self.types@[number] == *t,
                None => !self.types@.contains_key(number),
            },
    {
        broadcast use vstd::std_specs::hash::group_hash_axioms;

        self.types.get(&number)
    }

    /// Keeps `particle_type` under `number`, in place of what was kept
    /// there.
    pub fn add(&mut self, number: u128, particle_type: ParticleType)
        ensures
            final(self).types@ == old(self).types@.insert(number, particle_type),
    {
        broadcast use vstd::std_specs::hash::group_hash_axioms;

        self.types.insert(number, particle_type);
    }

    /// Takes the behaviour kept under `number` out of the bank.
    pub fn take(&mut self, number: u128) -> (taken: Option<ParticleType>)
        ensures
            match taken {
                Some(t) => old(self).types@.contains_key(number) && old(self).types@[number] == t,
                None => !old(self).types@.contains_key(number),
            },
            final(self).types@ == old(self).types@.remove(number),
    {
        broadcast use vstd::std_specs::hash::group_hash_axioms;

        self.types.remove(&number)
    }

    /// Puts the behaviours of the game into the bank.
    pub fn setup(&mut self, image_assets: &ImageAssets)
        ensures
            final(self).types@.dom() == old(self).types@.dom().insert(1),
            final(self).types@[1] is Explosion,
            forall|k: u128|
                k != 1 && old(self).types@.contains_key(k) ==> final(self).types@[k] == old(self).types@[k],
    {
        let particle_type = ExplosionParticleType::new(image_assets);
        let id = particle_type.particle_type_id();
        self.add(id, ParticleType::Explosion(particle_type));
    }

    pub fn clear(&mut self)
        ensures
            final(self).types@ == Map::<u128, ParticleType>::empty(),
    {
        self.types.clear();
    }
}

/// Number of particles a manager is made with.
pub const PARTICLE_CAPACITY: usize = 299;

/// Sprite scale of a particle whose parameters give none, in thousandths.
pub const PARTICLE_SCALE: i32 = 2500;

/// Keeps every particle: the inactive ones in a pool, the active ones in
/// one list for each draw layer.
pub struct ParticleManager {
    /// The active particles of each draw layer, by the layer's ordinal.
    pub active_particles_layer: Vec<Vec<Particle>>,
    pub inactive_particles: Vec<Particle>,
    /// Number of particles the manager was made with.
    pub capacity: usize,
}

impl Particle {
    /// What one tick does to a particle: the behaviour of its type is
    /// applied; a particle whose type the bank does not hold stays as it
    /// is.
    pub open spec fn stepped(&self, particle: &Particle, bank: &ParticleTypeBank) -> bool {
        if bank.types@.contains_key(self.particle_type_number) {
            bank.types@[self.particle_type_number].updated(self, particle)
        } else {
            *particle == *self
        }
    }

    /// Lets one tick pass.
    pub fn update(&mut self, bank: &ParticleTypeBank)
        ensures
            old(self).stepped(final(self), bank),
            final(self).ident() == old(self).ident(),
    {
        match bank.get(self.particle_type_number) {
            Some(particle_type) => {
                particle_type.update(self);
            },
            None => (),
        }
    }
}

/// What one tick does to the particles, the queue of particle requests and
/// the bank. The waiting requests are served and the queue is emptied; then
/// in every layer, from the back to the front, the particles move on by one
/// tick, and those that go out return to the pool in the same tick. A
/// served request with malformed parameters ends the tick with its error
/// before any particle moves.
pub open spec fn particles_ticked(
    before: &ParticleManager,
    after: &ParticleManager,
    world_before: &World,
    world: &World,
    bank_before: &ParticleTypeBank,
    bank: &ParticleTypeBank,
    image_assets: &ImageAssets,
    outcome: Result<(), ExtraError>,
) -> bool {
    &&& after.capacity == before.capacity
    &&& world.particle_spawn_nodes@.len() == 0
    &&& world.same_but_particles(world_before)
    &&& bank.types@.dom() == bank_before.types@.dom()
    &&& outcome is Ok <==> forall|i: int|
        0 <= i < world_before.particle_spawn_nodes@.len() && is_served(
            world_before.particle_spawn_nodes@,
            bank_before.types@.dom(),
            before.inactive_particles@.len(),
            i,
        ) ==> !malformed(&#[trigger] world_before.particle_spawn_nodes@[i])
    &&& match outcome {
        Ok(_) => exists|
            served: ParticleManager,
            first: ParticleManager,
            second: ParticleManager,
            third: ParticleManager,
            fourth: ParticleManager,
        | #[trigger]
            particles_ticked_through(
                before,
                after,
                bank_before,
                bank,
                world_before.particle_spawn_nodes@,
                image_assets,
                served,
                first,
                second,
                third,
                fourth,
            ),
        Err(e) => particles_served(
            before,
            after,
            bank_before,
            bank,
            world_before.particle_spawn_nodes@,
            image_assets,
            outcome,
        ),
    }
}

impl ParticleManager {
    /// The active particles of the layer with ordinal `k`.
    pub open spec fn layer(&self, k: int) -> Seq<Particle> {
        self.active_particles_layer@[k]@
    }

    /// Whether a request can be served: the pool has a particle left and
    /// the bank holds the type asked for.
    pub open spec fn can_spawn(&self, node: &ParticleSpawnNode, bank: &ParticleTypeBank) -> bool {
        self.inactive_particles@.len() > 0 && bank.types@.contains_key(node.particle_type_number)
    }

    /// The identities of all particles the manager holds.
    pub open spec fn held(&self) -> Multiset<nat> {
        bag(self.inactive_particles@).add(bag(self.layer(0))).add(bag(self.layer(1))).add(
            bag(self.layer(2)),
        ).add(bag(self.layer(3))).add(bag(self.layer(4)))
    }

    /// Number of particles the manager holds, in all lists together.
    pub open spec fn count(&self) -> nat {
        self.inactive_particles@.len() + self.layer(0).len() + self.layer(1).len() + self.layer(
            2,
        ).len() + self.layer(3).len() + self.layer(4).len()
    }

    /// The manager holds each of the particles it was made with in exactly
    /// one place.
    pub open spec fn wf(&self) -> bool {
        &&& self.active_particles_layer@.len() == LAYERS
        &&& self.held() == full_bag(self.capacity as nat)
    }

    /// No particle is ever gained or lost: the lists together hold as many
    /// particles as the manager was made with.
    pub proof fn lemma_conservation(&self)
        requires
            self.wf(),
        ensures
            self.count() == self.capacity,
    {
        lemma_full_bag(self.capacity as nat);
        lemma_bag_len(self.inactive_particles@);
        lemma_bag_len(self.layer(0));
        lemma_bag_len(self.layer(1));
        lemma_bag_len(self.layer(2));
        lemma_bag_len(self.layer(3));
        lemma_bag_len(self.layer(4));
    }

    /// No particle is in two places: over the pool and all layers
    /// together, every identity below the capacity occurs exactly once and
    /// no other identity occurs at all.
    pub proof fn lemma_exclusive_membership(&self, id: nat)
        requires
            self.wf(),
        ensures
            bag(self.inactive_particles@).count(id) + bag(self.layer(0)).count(id) + bag(
                self.layer(1),
            ).count(id) + bag(self.layer(2)).count(id) + bag(self.layer(3)).count(id) + bag(
                self.layer(4),
            ).count(id) == if id < self.capacity {
                1nat
            } else {
                0nat
            },
    {
        broadcast use group_multiset_axioms;

        lemma_full_bag(self.capacity as nat);
        assert(self.held().count(id) == full_bag(self.capacity as nat).count(id));
    }

    /// A manager with all its particles in the pool. The queue of particle
    /// requests is emptied.
    pub fn new(world: &mut World) -> (manager: ParticleManager)
        ensures
            manager.wf(),
            manager.capacity == PARTICLE_CAPACITY,
            manager.inactive_particles@.len() == PARTICLE_CAPACITY,
            forall|k: int| 0 <= k < LAYERS ==> manager.layer(k).len() == 0,
            forall|i: int|
                0 <= i < manager.inactive_particles@.len() ==> (
                #[trigger] manager.inactive_particles@[i]).blank(),
            final(world).particle_spawn_nodes@.len() == 0,
            final(world).same_but_particles(old(world)),
    {
        let mut inactive_particles: Vec<Particle> = Vec::new();
        let mut i: usize = 0;
        proof {
            lemma_bag_empty(inactive_particles@);
            assert(full_bag(0) =~= Multiset::<nat>::empty()) by {
                lemma_full_bag(0);
            }
        }
        while i < PARTICLE_CAPACITY
            invariant
                i <= PARTICLE_CAPACITY,
                inactive_particles@.len() == i,
                bag(inactive_particles@) == full_bag(i as nat),
                forall|j: int|
                    0 <= j < inactive_particles@.len() ==> (#[trigger] inactive_particles@[j]).blank(),
            decreases PARTICLE_CAPACITY - i,
        {
            let particle = Particle::with_ident(Ghost(i as nat));
            proof {
                lemma_bag_push(inactive_particles@, particle);
                lemma_full_bag_grow(i as nat);
            }
            inactive_particles.push(particle);
            i += 1;
        }
        clear_particle_spawn_nodes(world);
        let mut layers: Vec<Vec<Particle>> = Vec::new();
        let mut k: usize = 0;
        while k < LAYERS
            invariant
                k <= LAYERS,
                layers@.len() == k,
                forall|j: int| 0 <= j < k ==> (#[trigger] layers@[j])@.len() == 0,
            decreases LAYERS - k,
        {
            layers.push(Vec::new());
            k += 1;
        }
        let manager = ParticleManager {
            active_particles_layer: layers,
            inactive_particles,
            capacity: PARTICLE_CAPACITY,
        };
        proof {
            lemma_bag_empty(manager.layer(0));
            lemma_bag_empty(manager.layer(1));
            lemma_bag_empty(manager.layer(2));
            lemma_bag_empty(manager.layer(3));
            lemma_bag_empty(manager.layer(4));
            assert(manager.held() =~= bag(manager.inactive_particles@));
        }
        manager
    }

    /// Whether every particle of every layer is active.
    pub open spec fn all_active(&self) -> bool {
        forall|k: int, i: int|
            0 <= k < LAYERS && 0 <= i < self.layer(k).len() ==> (#[trigger] self.layer(k)[i]).active
    }

    /// One tick of the particles; see `particles_ticked`. After a tick
    /// without an error no layer holds a particle that has gone out.
    pub fn update(
        &mut self,
        world: &mut World,
        particle_types: &mut ParticleTypeBank,
        image_assets: &ImageAssets,
    ) -> (outcome: Result<(), ExtraError>)
        requires
            old(self).wf(),
        ensures
            final(self).wf(),
            particles_ticked(
                old(self),
                final(self),
                old(world),
                final(world),
                old(particle_types),
                final(particle_types),
                image_assets,
                outcome,
            ),
            outcome is Ok ==> final(self).all_active(),
    {
        let drained = update_spawn_nodes_list(self, world, particle_types, image_assets);
        if drained.is_err() {
            return drained;
        }
        assert(drained is Ok);
        assert(drained->Ok_0 == ());
        assert(drained == Ok::<(), ExtraError>(()));
        let ghost served = *self;
        update_active_particles(ParticleDrawLayer::Bottomest, self, particle_types);
        let ghost first = *self;
        update_active_particles(ParticleDrawLayer::Explosion, self, particle_types);
        let ghost second = *self;
        update_active_particles(ParticleDrawLayer::BulletHit, self, particle_types);
        let ghost third = *self;
        update_active_particles(ParticleDrawLayer::FiringBullet, self, particle_types);
        let ghost fourth = *self;
        update_active_particles(ParticleDrawLayer::Topest, self, particle_types);
        proof {
            assert(particles_ticked_through(
                old(self),
                self,
                old(particle_types),
                particle_types,
                old(world).particle_spawn_nodes@,
                image_assets,
                served,
                first,
                second,
                third,
                fourth,
            ));
        }
        Ok(())
    }

    /// The active particles of a draw layer.
    pub fn active_particles(&self, draw_layer: ParticleDrawLayer) -> (list: &Vec<Particle>)
        requires
            self.wf(),
        ensures
            list@ == self.layer(draw_layer.ordinal() as int),
    {
        &self.active_particles_layer[draw_layer.index()]
    }
}

/// The state in which the manager hands a particle to the behaviour of its
/// type: active, at the place asked for, with the request's parameters
/// decoded and the sprite scaled as they say.
pub open spec fn prepared(particle: &Particle, node: &ParticleSpawnNode, type_id: u128) -> bool {
    &&& particle.active
    &&& particle.particle_type_number == type_id
    &&& particle.position == node.position
    &&& particle.rotation == 0
    &&& particle.velocity == (Vec2 { x: 0, y: 0 })
    &&& particle.frame == 0
    &&& particle.life_time == 0
    &&& particle.face_right
    &&& particle.extra@ == decode(node.extra@, Map::empty()).0
    &&& !particle.sprite.is_loop
    &&& particle.sprite.scale.x == permille_value(particle.extra@, "scale"@, PARTICLE_SCALE)
    &&& particle.sprite.scale.y == permille_value(particle.extra@, "scale"@, PARTICLE_SCALE)
    &&& particle.sprite.frame_index == 0
    &&& particle.sprite.frame_duration == 0
    &&& !particle.sprite.pause
    &&& particle.sprite.animation.frames@.len() == 0
}

/// Two managers differ at most in the pool and in the layer `k`.
pub open spec fn same_but_layer(a: &ParticleManager, b: &ParticleManager, k: int) -> bool {
    &&& a.capacity == b.capacity
    &&& a.active_particles_layer@.len() == b.active_particles_layer@.len()
    &&& forall|j: int|
        0 <= j < a.active_particles_layer@.len() && j != k ==> a.active_particles_layer@[j]
            == b.active_particles_layer@[j]
}

/// Moving records between the pool and one layer leaves the manager whole.
proof fn lemma_layer_exchange(before: &ParticleManager, after: &ParticleManager, k: int)
    requires
        before.wf(),
        0 <= k < LAYERS,
        same_but_layer(before, after, k),
        bag(after.layer(k)).add(bag(after.inactive_particles@)) == bag(before.layer(k)).add(
            bag(before.inactive_particles@),
        ),
    ensures
        after.wf(),
{
    broadcast use group_multiset_axioms;

    assert(k != 0 ==> after.active_particles_layer@[0] == before.active_particles_layer@[0]);
    assert(k != 1 ==> after.active_particles_layer@[1] == before.active_particles_layer@[1]);
    assert(k != 2 ==> after.active_particles_layer@[2] == before.active_particles_layer@[2]);
    assert(k != 3 ==> after.active_particles_layer@[3] == before.active_particles_layer@[3]);
    assert(k != 4 ==> after.active_particles_layer@[4] == before.active_particles_layer@[4]);
    assert forall|x: nat| after.held().count(x) == before.held().count(x) by {
        let moved_after = bag(after.layer(k)).add(bag(after.inactive_particles@));
        let moved_before = bag(before.layer(k)).add(bag(before.inactive_particles@));
        assert(moved_after.count(x) == moved_before.count(x));
        assert(bag(after.layer(k)).count(x) + bag(after.inactive_particles@).count(x) == bag(
            before.layer(k),
        ).count(x) + bag(before.inactive_particles@).count(x));
        if k == 0 {
            assert(after.layer(k) == after.layer(0));
        } else if k == 1 {
            assert(after.layer(k) == after.layer(1));
        } else if k == 2 {
            assert(after.layer(k) == after.layer(2));
        } else if k == 3 {
            assert(after.layer(k) == after.layer(3));
        } else {
            assert(after.layer(k) == after.layer(4));
        }
    }
    assert(after.held() =~= before.held());
}

/// What serving a request for a particle comes to.
///
/// If the pool is used up or the bank does not hold the type, nothing
/// changes and the answer is that no particle was spawned. Otherwise the
/// last particle of the pool is prepared for the request. If the parameters
/// are well formed, the behaviour of the type sets the particle up and the
/// particle joins the end of its draw layer. If they are malformed, the
/// particle returns to the pool, blank, and the answer is the error.
pub open spec fn particle_served(
    before: &ParticleManager,
    after: &ParticleManager,
    bank_before: &ParticleTypeBank,
    bank: &ParticleTypeBank,
    spawn_node: &ParticleSpawnNode,
    image_assets: &ImageAssets,
    outcome: Result<bool, ExtraError>,
) -> bool {
    match outcome {
        Ok(false) => {
            &&& !before.can_spawn(spawn_node, bank_before)
            &&& *after == *before
            &&& bank.types@ == bank_before.types@
        },
        Ok(true) => {
            let k = spawn_node.draw_layer.ordinal() as int;
            let made = after.layer(k).last();
            &&& before.can_spawn(spawn_node, bank_before)
            &&& decode(spawn_node.extra@, Map::empty()).1 is None
            &&& after.inactive_particles@ == before.inactive_particles@.drop_last()
            &&& after.layer(k).len() == before.layer(k).len() + 1
            &&& after.layer(k).drop_last() == before.layer(k)
            &&& made.ident() == before.inactive_particles@.last().ident()
            &&& exists|p: Particle|
                prepared(
                    &p,
                    spawn_node,
                    bank_before.types@[spawn_node.particle_type_number].type_id(),
                ) && bank_before.types@[spawn_node.particle_type_number].initialized(
                    &bank.types@[spawn_node.particle_type_number],
                    &p,
                    &made,
                    image_assets,
                )
        },
        Err(e) => {
            &&& before.can_spawn(spawn_node, bank_before)
            &&& decode(spawn_node.extra@, Map::empty()).1 == Some(e.token@)
            &&& after.active_particles_layer@ == before.active_particles_layer@
            &&& after.inactive_particles@.len() == before.inactive_particles@.len()
            &&& after.inactive_particles@.drop_last() == before.inactive_particles@.drop_last()
            &&& after.inactive_particles@.last().blank()
            &&& after.inactive_particles@.last().ident() == before.inactive_particles@.last().ident()
            &&& bank.types@ == bank_before.types@
        },
    }
}

/// What serving a queue of requests comes to, given the managers and banks
/// between the requests and the answers to them: the requests are served in
/// order, each in the state that the one before it left, up to the first
/// that is answered with an error.
pub open spec fn particles_served_through(
    before: &ParticleManager,
    after: &ParticleManager,
    bank_before: &ParticleTypeBank,
    bank: &ParticleTypeBank,
    nodes: Seq<ParticleSpawnNode>,
    image_assets: &ImageAssets,
    outcome: Result<(), ExtraError>,
    managers: Seq<ParticleManager>,
    banks: Seq<ParticleTypeBank>,
    answers: Seq<Result<bool, ExtraError>>,
) -> bool {
    let n = answers.len() as int;
    &&& n <= nodes.len()
    &&& managers.len() == n + 1
    &&& banks.len() == n + 1
    &&& managers[0] == *before
    &&& banks[0] == *bank_before
    &&& managers[n] == *after
    &&& banks[n] == *bank
    &&& forall|i: int|
        0 <= i < n ==> particle_served(
            &managers[i],
            &managers[i + 1],
            &banks[i],
            &banks[i + 1],
            &nodes[i],
            image_assets,
            #[trigger] answers[i],
        )
    &&& forall|i: int| 0 <= i < n - 1 ==> (#[trigger] answers[i]) is Ok
    &&& match outcome {
        Ok(_) => n == nodes.len() && (n > 0 ==> answers[n - 1] is Ok),
        Err(e) => n > 0 && answers[n - 1] == Err::<bool, ExtraError>(e),
    }
}

/// What serving a queue of requests comes to; see
/// `particles_served_through`.
pub open spec fn particles_served(
    before: &ParticleManager,
    after: &ParticleManager,
    bank_before: &ParticleTypeBank,
    bank: &ParticleTypeBank,
    nodes: Seq<ParticleSpawnNode>,
    image_assets: &ImageAssets,
    outcome: Result<(), ExtraError>,
) -> bool {
    exists|
        managers: Seq<ParticleManager>,
        banks: Seq<ParticleTypeBank>,
        answers: Seq<Result<bool, ExtraError>>,
    | #[trigger]
        particles_served_through(
            before,
            after,
            bank_before,
            bank,
            nodes,
            image_assets,
            outcome,
            managers,
            banks,
            answers,
        )
}

/// Serves one request if the pool has a particle left and the bank holds
/// the type asked for: the last particle of the pool is set up as the
/// request says and joins the end of its draw layer. A request whose
/// parameters are malformed is answered with the error, and the particle
/// goes back to the pool.
pub fn spawn_particle(
    manager: &mut ParticleManager,
    spawn_node: &ParticleSpawnNode,
    particle_types: &mut ParticleTypeBank,
    image_assets: &ImageAssets,
) -> (outcome: Result<bool, ExtraError>)
    requires
        old(manager).wf(),
    ensures
        final(manager).wf(),
        same_but_layer(old(manager), final(manager), spawn_node.draw_layer.ordinal() as int),
        final(particle_types).types@.dom() == old(particle_types).types@.dom(),
        forall|n: u128|
            n != spawn_node.particle_type_number && old(particle_types).types@.contains_key(n)
                ==> final(particle_types).types@[n] == old(particle_types).types@[n],
        particle_served(
            old(manager),
            final(manager),
            old(particle_types),
            final(particle_types),
            spawn_node,
            image_assets,
            outcome,
        ),
{
    let ghost before = *manager;
    let k: usize = spawn_node.draw_layer.index();
    if manager.inactive_particles.len() == 0 {
        return Ok(false);
    }
    let mut particle_type = match particle_types.take(spawn_node.particle_type_number) {
        Some(t) => t,
        None => {
            assert(particle_types.types@ =~= old(particle_types).types@);
            return Ok(false);
        },
    };
    let ghost old_type = particle_type;
    let mut new_node = manager.inactive_particles.pop().unwrap();
    proof {
        lemma_bag_drop_last(before.inactive_particles@);
    }
    new_node.reset();
    new_node.particle_type_number = particle_type.particle_type_id();
    new_node.position = spawn_node.position;
    new_node.active = true;
    new_node.sprite.set_loop(false);
    match new_node.parsing_extra(spawn_node.extra.as_str()) {
        Err(e) => {
            new_node.reset();
            proof {
                lemma_bag_push(manager.inactive_particles@, new_node);
            }
            manager.inactive_particles.push(new_node);
            particle_types.add(spawn_node.particle_type_number, particle_type);
            proof {
                assert(particle_types.types@ =~= old(particle_types).types@);
                assert(bag(manager.inactive_particles@) =~= bag(before.inactive_particles@));
                lemma_layer_exchange(&before, manager, k as int);
                assert(manager.inactive_particles@.drop_last() == before.inactive_particles@.drop_last());
            }
            return Err(e);
        },
        Ok(_) => {},
    }
    let scale: i32 = new_node.extra.permille_or("scale", PARTICLE_SCALE);
    new_node.sprite.scale = Vec2::new(scale, scale);
    let ghost ready = new_node;
    assert(prepared(&ready, spawn_node, old_type.type_id()));
    particle_type.init(&mut new_node, image_assets);
    let ghost new_type = particle_type;
    particle_types.add(spawn_node.particle_type_number, particle_type);
    proof {
        lemma_bag_push(manager.active_particles_layer@[k as int]@, new_node);
    }
    manager.active_particles_layer[k].push(new_node);
    proof {
        assert(particle_types.types@.dom() =~= old(particle_types).types@.dom());
        assert(bag(manager.layer(k as int)).add(bag(manager.inactive_particles@)) =~= bag(
            before.layer(k as int),
        ).add(bag(before.inactive_particles@)));
        lemma_layer_exchange(&before, manager, k as int);
        assert(manager.layer(k as int).drop_last() == before.layer(k as int));
        assert(prepared(&ready, spawn_node, old_type.type_id()) && old_type.initialized(
            &new_type,
            &ready,
            &manager.layer(k as int).last(),
            image_assets,
        ));
    }
    Ok(true)
}

/// Number of requests that ask for a type the bank holds.
pub open spec fn known_requests(nodes: Seq<ParticleSpawnNode>, types: Set<u128>) -> nat
    decreases nodes.len(),
{
    if nodes.len() == 0 {
        0
    } else {
        known_requests(nodes.drop_last(), types) + if types.contains(
            nodes.last().particle_type_number,
        ) {
            1nat
        } else {
            0nat
        }
    }
}

/// Whether the request at position `i` gets a particle when the requests
/// are served in order from a pool of `available` particles: its type is
/// known and the requests before it have left a particle over.
pub open spec fn is_served(
    nodes: Seq<ParticleSpawnNode>,
    types: Set<u128>,
    available: nat,
    i: int,
) -> bool {
    types.contains(nodes[i].particle_type_number) && known_requests(nodes.subrange(0, i), types)
        < available
}

/// Whether the parameters of a request are malformed.
pub open spec fn malformed(node: &ParticleSpawnNode) -> bool {
    decode(node.extra@, Map::empty()).1 is Some
}

/// Every list of `after` starts with what the same list of `before` holds,
/// but for the pool, which may have lost particles at its end.
pub open spec fn grown_from(after: &ParticleManager, before: &ParticleManager) -> bool {
    &&& after.inactive_particles@.len() <= before.inactive_particles@.len()
    &&& after.inactive_particles@ == before.inactive_particles@.subrange(
        0,
        after.inactive_particles@.len() as int,
    )
    &&& forall|j: int|
        0 <= j < LAYERS ==> before.layer(j).len() <= (#[trigger] after.layer(j)).len()
            && after.layer(j).subrange(0, before.layer(j).len() as int) == before.layer(j)
}

/// Serves the requests that are waiting, in order, and empties the queue.
/// A request is served if the bank holds its type and the pool is not used
/// up; the others are dropped. The first served request with malformed
/// parameters ends the call with its error; the queue is empty then too.
pub fn update_spawn_nodes_list(
    manager: &mut ParticleManager,
    world: &mut World,
    particle_types: &mut ParticleTypeBank,
    image_assets: &ImageAssets,
) -> (outcome: Result<(), ExtraError>)
    requires
        old(manager).wf(),
    ensures
        final(world).particle_spawn_nodes@.len() == 0,
        final(world).same_but_particles(old(world)),
        final(manager).wf(),
        final(manager).capacity == old(manager).capacity,
        final(particle_types).types@.dom() == old(particle_types).types@.dom(),
        particles_served(
            old(manager),
            final(manager),
            old(particle_types),
            final(particle_types),
            old(world).particle_spawn_nodes@,
            image_assets,
            outcome,
        ),
        match outcome {
            Ok(_) => {
                &&& grown_from(final(manager), old(manager))
                &&& forall|i: int|
                    0 <= i < old(world).particle_spawn_nodes@.len() && is_served(
                        old(world).particle_spawn_nodes@,
                        old(particle_types).types@.dom(),
                        old(manager).inactive_particles@.len(),
                        i,
                    ) ==> !malformed(&old(world).particle_spawn_nodes@[i])
                &&& final(manager).inactive_particles@.len() == old(manager).inactive_particles@.len() - vstd::math::min(
                    old(manager).inactive_particles@.len() as int,
                    known_requests(
                        old(world).particle_spawn_nodes@,
                        old(particle_types).types@.dom(),
                    ) as int,
                )
            },
            Err(e) => exists|i: int|
                {
                    &&& 0 <= i < old(world).particle_spawn_nodes@.len()
                    &&& is_served(
                        old(world).particle_spawn_nodes@,
                        old(particle_types).types@.dom(),
                        old(manager).inactive_particles@.len(),
                        i,
                    )
                    &&& decode(
                        (#[trigger] old(world).particle_spawn_nodes@[i]).extra@,
                        Map::empty(),
                    ).1 == Some(e.token@)
                },
        },
{
    let mut nodes: Vec<ParticleSpawnNode> = Vec::new();
    core::mem::swap(&mut nodes, &mut world.particle_spawn_nodes);
    let ghost before = *manager;
    let ghost types = particle_types.types@.dom();
    let ghost available = manager.inactive_particles@.len();
    let ghost mut managers: Seq<ParticleManager> = seq![*manager];
    let ghost mut banks: Seq<ParticleTypeBank> = seq![*particle_types];
    let ghost mut answers: Seq<Result<bool, ExtraError>> = Seq::empty();
    let n: usize = nodes.len();
    let mut i: usize = 0;
    proof {
        assert(nodes@.subrange(0, 0) == Seq::<ParticleSpawnNode>::empty());
        assert(manager.inactive_particles@.subrange(0, available as int)
            == manager.inactive_particles@);
        assert forall|j: int| 0 <= j < LAYERS implies manager.layer(j).subrange(
            0,
            before.layer(j).len() as int,
        ) == before.layer(j) by {}
    }
    while i < n
        invariant
            i <= n,
            n == nodes@.len(),
            nodes@ == old(world).particle_spawn_nodes@,
            manager.wf(),
            manager.capacity == before.capacity,
            before == *old(manager),
            types == old(particle_types).types@.dom(),
            particle_types.types@.dom() == types,
            available == before.inactive_particles@.len(),
            grown_from(manager, &before),
            manager.inactive_particles@.len() == available - vstd::math::min(
                available as int,
                known_requests(nodes@.subrange(0, i as int), types) as int,
            ),
            forall|j: int|
                0 <= j < i && is_served(nodes@, types, available, j) ==> !malformed(&nodes@[j]),
            world.particle_spawn_nodes@.len() == 0,
            world.same_but_particles(old(world)),
            answers.len() == i,
            managers.len() == i + 1,
            banks.len() == i + 1,
            managers[0] == before,
            banks[0] == *old(particle_types),
            managers[i as int] == *manager,
            banks[i as int] == *particle_types,
            forall|k: int|
                0 <= k < i ==> particle_served(
                    &managers[k],
                    &managers[k + 1],
                    &banks[k],
                    &banks[k + 1],
                    &nodes@[k],
                    image_assets,
                    #[trigger] answers[k],
                ),
            forall|k: int| 0 <= k < i ==> (#[trigger] answers[k]) is Ok,
        decreases n - i,
    {
        let ghost step_before = *manager;
        proof {
            assert(nodes@.subrange(0, i + 1).drop_last() == nodes@.subrange(0, i as int));
        }
        let answer = spawn_particle(manager, &nodes[i], particle_types, image_assets);
        proof {
            managers = managers.push(*manager);
            banks = banks.push(*particle_types);
            answers = answers.push(answer);
        }
        let served: bool = match answer {
            Ok(served) => served,
            Err(e) => {
                proof {
                    assert(is_served(nodes@, types, available, i as int));
                    assert(particles_served_through(
                        old(manager),
                        manager,
                        old(particle_types),
                        particle_types,
                        nodes@,
                        image_assets,
                        Err::<(), ExtraError>(e),
                        managers,
                        banks,
                        answers,
                    ));
                }
                return Err(e);
            },
        };
        proof {
            let k = nodes@[i as int].draw_layer.ordinal() as int;
            if served {
                assert(manager.inactive_particles@ == before.inactive_particles@.subrange(
                    0,
                    manager.inactive_particles@.len() as int,
                ));
            }
            assert forall|j: int| 0 <= j < LAYERS implies before.layer(j).len() <= (
            #[trigger] manager.layer(j)).len() && manager.layer(j).subrange(
                0,
                before.layer(j).len() as int,
            ) == before.layer(j) by {
                assert(step_before.layer(j).subrange(0, before.layer(j).len() as int)
                    == before.layer(j));
                if j == k && served {
                    assert(manager.layer(j).drop_last() == step_before.layer(j));
                } else {
                    assert(manager.active_particles_layer@[j] == step_before.active_particles_layer@[j]);
                }
            }
        }
        i += 1;
    }
    proof {
        assert(nodes@.subrange(0, n as int) == nodes@);
        assert(particles_served_through(
            old(manager),
            manager,
            old(particle_types),
            particle_types,
            nodes@,
            image_assets,
            Ok::<(), ExtraError>(()),
            managers,
            banks,
            answers,
        ));
    }
    Ok(())
}

/// Whether `mid` holds the particles `before` after each has made its
/// step.
pub open spec fn layer_stepped(
    before: Seq<Particle>,
    mid: Seq<Particle>,
    particle_types: &ParticleTypeBank,
) -> bool {
    &&& mid.len() == before.len()
    &&& forall|i: int|
        0 <= i < mid.len() ==> (#[trigger] before[i]).stepped(&mid[i], particle_types)
}

/// What a tick does to a draw layer: every particle of the layer makes its
/// step; those that are still active stay, in order, and the others join
/// the end of the pool in the same tick, the last of them first and each
/// blank.
pub open spec fn layer_updated(
    before: &ParticleManager,
    after: &ParticleManager,
    draw_layer: ParticleDrawLayer,
    particle_types: &ParticleTypeBank,
) -> bool {
    let k = draw_layer.ordinal() as int;
    &&& same_but_layer(before, after, k)
    &&& exists|mid: Seq<Particle>|
        {
            &&& #[trigger] layer_stepped(before.layer(k), mid, particle_types)
            &&& after.layer(k) == survivors(mid)
            &&& idents(after.inactive_particles@) == idents(before.inactive_particles@)
                + casualties(mid)
        }
    &&& bag(after.layer(k)).add(bag(after.inactive_particles@)) == bag(before.layer(k)).add(
        bag(before.inactive_particles@),
    )
    &&& forall|i: int| 0 <= i < after.layer(k).len() ==> (#[trigger] after.layer(k)[i]).active
    &&& after.inactive_particles@.subrange(0, before.inactive_particles@.len() as int)
        == before.inactive_particles@
    &&& forall|i: int|
        before.inactive_particles@.len() <= i < after.inactive_particles@.len() ==> (
        #[trigger] after.inactive_particles@[i]).blank()
}

/// Exclusive membership over the tick of a layer. Every particle that was
/// in the layer or in the pool is afterwards in exactly one of the two, at
/// one place; no particle that went out stays in the layer; and the other
/// layers are as they were.
pub proof fn lemma_layer_updated_exclusive(
    before: &ParticleManager,
    after: &ParticleManager,
    draw_layer: ParticleDrawLayer,
    particle_types: &ParticleTypeBank,
    id: nat,
)
    requires
        before.wf(),
        layer_updated(before, after, draw_layer, particle_types),
    ensures
        after.wf(),
        bag(after.layer(draw_layer.ordinal() as int)).count(id) + bag(
            after.inactive_particles@,
        ).count(id) == bag(before.layer(draw_layer.ordinal() as int)).count(id) + bag(
            before.inactive_particles@,
        ).count(id),
        bag(after.layer(draw_layer.ordinal() as int)).count(id) + bag(
            after.inactive_particles@,
        ).count(id) <= 1,
        forall|i: int|
            0 <= i < after.layer(draw_layer.ordinal() as int).len() ==> (
            #[trigger] after.layer(draw_layer.ordinal() as int)[i]).active,
        forall|j: int|
            0 <= j < LAYERS && j != draw_layer.ordinal() ==> after.layer(j) == before.layer(j),
{
    broadcast use group_multiset_axioms;

    let k = draw_layer.ordinal() as int;
    lemma_layer_exchange(before, after, k);
    before.lemma_exclusive_membership(id);
    let moved_after = bag(after.layer(k)).add(bag(after.inactive_particles@));
    let moved_before = bag(before.layer(k)).add(bag(before.inactive_particles@));
    assert(moved_after.count(id) == moved_before.count(id));
}

/// What a tick does to the particles, given the managers between its
/// parts: the waiting requests are served, and then the layers are brought
/// up to date one after the other, from the back to the front.
pub open spec fn particles_ticked_through(
    before: &ParticleManager,
    after: &ParticleManager,
    bank_before: &ParticleTypeBank,
    bank: &ParticleTypeBank,
    nodes: Seq<ParticleSpawnNode>,
    image_assets: &ImageAssets,
    served: ParticleManager,
    first: ParticleManager,
    second: ParticleManager,
    third: ParticleManager,
    fourth: ParticleManager,
) -> bool {
    &&& particles_served(
        before,
        &served,
        bank_before,
        bank,
        nodes,
        image_assets,
        Ok::<(), ExtraError>(()),
    )
    &&& layer_updated(&served, &first, ParticleDrawLayer::Bottomest, bank)
    &&& layer_updated(&first, &second, ParticleDrawLayer::Explosion, bank)
    &&& layer_updated(&second, &third, ParticleDrawLayer::BulletHit, bank)
    &&& layer_updated(&third, &fourth, ParticleDrawLayer::FiringBullet, bank)
    &&& layer_updated(&fourth, after, ParticleDrawLayer::Topest, bank)
}

/// Lets one tick pass for the particles of a draw layer and releases those
/// that went out; see `layer_updated`.
pub fn update_active_particles(
    draw_layer: ParticleDrawLayer,
    manager: &mut ParticleManager,
    particle_types: &ParticleTypeBank,
)
    requires
        old(manager).wf(),
    ensures
        final(manager).wf(),
        layer_updated(old(manager), final(manager), draw_layer, particle_types),
{
    let k: usize = draw_layer.index();
    let ghost before = *manager;
    let n: usize = manager.active_particles_layer[k].len();
    let mut i: usize = 0;
    while i < n
        invariant
            i <= n,
            k < LAYERS,
            k == draw_layer.ordinal(),
            manager.wf(),
            before == *old(manager),
            same_but_layer(&before, manager, k as int),
            manager.inactive_particles == before.inactive_particles,
            manager.layer(k as int).len() == n,
            before.layer(k as int).len() == n,
            bag(manager.layer(k as int)) == bag(before.layer(k as int)),
            forall|j: int|
                0 <= j < i ==> (#[trigger] before.layer(k as int)[j]).stepped(
                    &manager.layer(k as int)[j],
                    particle_types,
                ),
            forall|j: int| i <= j < n ==> manager.layer(k as int)[j] == before.layer(k as int)[j],
        decreases n - i,
    {
        let ghost step_before = *manager;
        manager.active_particles_layer[k][i].update(particle_types);
        proof {
            lemma_bag_update(
                step_before.layer(k as int),
                i as int,
                manager.layer(k as int)[i as int],
            );
            assert(manager.layer(k as int) == step_before.layer(k as int).update(
                i as int,
                manager.layer(k as int)[i as int],
            ));
            lemma_layer_exchange(&step_before, manager, k as int);
        }
        i += 1;
    }
    let ghost stepped = *manager;
    let ghost mid = manager.layer(k as int);
    release_inactive(&mut manager.active_particles_layer[k], &mut manager.inactive_particles);
    proof {
        lemma_layer_exchange(&stepped, manager, k as int);
        assert(layer_stepped(before.layer(k as int), mid, particle_types));
        crate::gameplay::pool::lemma_survivors_live(mid);
    }
}

/// Empties the queue of particle requests.
pub fn clear_particle_spawn_nodes(world: &mut World)
    ensures
        final(world).particle_spawn_nodes@.len() == 0,
        final(world).same_but_particles(old(world)),
{
    world.particle_spawn_nodes.clear();
}

} // verus!
