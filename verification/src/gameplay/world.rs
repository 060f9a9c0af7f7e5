//! The tables that the parts of the simulation share during a tick: where
//! the camera is, what is waiting to be spawned, and which sounds were
//! asked for.

use vstd::prelude::*;
use vstd::string::*;

use crate::gameplay::bullet_pool::BulletSpawnNode;
use crate::gameplay::level::EnemySpawnNode;
use crate::gameplay::particle_manager::ParticleSpawnNode;
use crate::gameplay::table::NameTable;
use crate::gameplay::utils::Vec2;

verus! {

/// A sound to be played: the file that holds it and how loud, in
/// thousandths of full volume.
pub struct SoundNode {
    pub path: String,
    pub volume: u32,
}

pub struct World {
    /// Centre of the visible area.
    pub camera_position: Vec2,
    /// Bullets asked for since the bullet pool last served requests.
    pub bullet_spawn_nodes: Vec<BulletSpawnNode>,
    /// Enemies asked for since the enemy manager last served requests.
    pub enemy_spawn_nodes: Vec<EnemySpawnNode>,
    /// Particles asked for since the particle manager last ran.
    pub particle_spawn_nodes: Vec<ParticleSpawnNode>,
    /// Sounds asked for since they were last played, by cue name.
    pub play_sound_nodes: NameTable<SoundNode>,
}

impl World {
    /// Whether the two worlds agree in the camera and in everything that
    /// waits to be spawned.
    pub open spec fn same_queues(&self, other: &World) -> bool {
        &&& self.camera_position == other.camera_position
        &&& self.bullet_spawn_nodes == other.bullet_spawn_nodes
        &&& self.enemy_spawn_nodes == other.enemy_spawn_nodes
        &&& self.particle_spawn_nodes == other.particle_spawn_nodes
    }

    /// Whether the two worlds agree in everything but the particles that
    /// wait to be spawned.
    pub open spec fn same_but_particles(&self, other: &World) -> bool {
        &&& self.camera_position == other.camera_position
        &&& self.bullet_spawn_nodes == other.bullet_spawn_nodes
        &&& self.enemy_spawn_nodes == other.enemy_spawn_nodes
        &&& self.play_sound_nodes == other.play_sound_nodes
    }

    /// Whether the two worlds agree in everything but the bullets that
    /// wait to be spawned.
    pub open spec fn same_but_bullets(&self, other: &World) -> bool {
        &&& self.camera_position == other.camera_position
        &&& self.enemy_spawn_nodes == other.enemy_spawn_nodes
        &&& self.particle_spawn_nodes == other.particle_spawn_nodes
        &&& self.play_sound_nodes == other.play_sound_nodes
    }

    /// Whether the two worlds agree in everything but the enemies that
    /// wait to be spawned.
    pub open spec fn same_but_enemies(&self, other: &World) -> bool {
        &&& self.camera_position == other.camera_position
        &&& self.bullet_spawn_nodes == other.bullet_spawn_nodes
        &&& self.particle_spawn_nodes == other.particle_spawn_nodes
        &&& self.play_sound_nodes == other.play_sound_nodes
    }

    /// Whether a sound was asked for under the cue `name`.
    pub open spec fn asks_for_sound(&self, name: Seq<char>, path: Seq<char>, volume: u32) -> bool {
        &&& self.play_sound_nodes@.contains_key(name)
        &&& self.play_sound_nodes@[name].path@ == path
        &&& self.play_sound_nodes@[name].volume == volume
    }

    /// Whether the sounds asked for are those of `before` but for the cues
    /// `cues`, which have been asked for since: the other cues are there as
    /// before, with the sounds they had.
    pub open spec fn sounds_but(&self, before: &World, cues: Set<Seq<char>>) -> bool {
        &&& self.play_sound_nodes@.dom() == before.play_sound_nodes@.dom().union(cues)
        &&& forall|k: Seq<char>|
            !cues.contains(k) && before.play_sound_nodes@.contains_key(k)
                ==> self.play_sound_nodes@[k] == before.play_sound_nodes@[k]
    }

    /// Asks for a bullet.
    pub fn request_bullet(&mut self, node: BulletSpawnNode)
        ensures
            final(self).bullet_spawn_nodes@ == old(self).bullet_spawn_nodes@.push(node),
            final(self).same_but_bullets(old(self)),
    {
        self.bullet_spawn_nodes.push(node);
    }

    /// Asks for an enemy.
    pub fn request_enemy(&mut self, node: EnemySpawnNode)
        ensures
            final(self).enemy_spawn_nodes@ == old(self).enemy_spawn_nodes@.push(node),
            final(self).same_but_enemies(old(self)),
    {
        self.enemy_spawn_nodes.push(node);
    }

    /// Asks for a particle.
    pub fn request_particle(&mut self, node: ParticleSpawnNode)
        ensures
            final(self).particle_spawn_nodes@ == old(self).particle_spawn_nodes@.push(node),
            final(self).same_but_particles(old(self)),
    {
        self.particle_spawn_nodes.push(node);
    }

    pub fn new() -> (world: World)
        ensures
            world.camera_position == (Vec2 { x: 0, y: 0 }),
            world.bullet_spawn_nodes@.len() == 0,
            world.enemy_spawn_nodes@.len() == 0,
            world.particle_spawn_nodes@.len() == 0,
            world.play_sound_nodes@ == Map::<Seq<char>, SoundNode>::empty(),
    {
        World {
            camera_position: Vec2::zero(),
            bullet_spawn_nodes: Vec::new(),
            enemy_spawn_nodes: Vec::new(),
            particle_spawn_nodes: Vec::new(),
            play_sound_nodes: NameTable::new(),
        }
    }

    /// Asks for the sound in `path` to be played under the cue `name`. A
    /// later request under the same cue replaces an earlier one.
    pub fn play_sound(&mut self, name: &str, path: &str, volume: u32)
        ensures
            final(self).play_sound_nodes@.dom() == old(self).play_sound_nodes@.dom().insert(name@),
            final(self).asks_for_sound(name@, path@, volume),
            final(self).sounds_but(old(self), set![name@]),
            forall|k: Seq<char>|
                k != name@ && old(self).play_sound_nodes@.contains_key(k)
                    ==> final(self).play_sound_nodes@[k] == old(self).play_sound_nodes@[k],
            final(self).same_queues(old(self)),
    {
        self.play_sound_nodes.insert(
            String::from_str(name),
            SoundNode { path: String::from_str(path), volume },
        );
        assert(self.play_sound_nodes@.dom() =~= old(self).play_sound_nodes@.dom().union(
            set![name@],
        ));
    }
}

} // verus!
