//! The boss: it cycles through three phases, resting, calling helpers and
//! firing volleys, and changes phase whenever its weapon clock runs out.

use vstd::prelude::*;
use vstd::string::*;

use crate::gameplay::enemy_manager::{
    aimed, circle_hit, circle_hit_of, is_some_splash, random_target_position, random_weapon_tick,
    retargeted, tick_up, tick_up_spec, Enemy,
};
use crate::gameplay::enemy_types::flying_pop_corn::{
    enemy_bullet_extra, ENEMY_BULLET_RADIUS, ENEMY_BULLET_SPEED,
};
use crate::gameplay::bullet_pool::BulletSpawnNode;
use crate::gameplay::level::EnemySpawnNode;
use crate::gameplay::number::{fraction_text, write_fraction};
use crate::gameplay::pool::Pooled;
use crate::gameplay::random::{jitter, jitter_of, random_u32};
use crate::gameplay::utils::{pull, pulled, Vec2};
use crate::gameplay::world::World;
use crate::image_assets::{frame_length_at, ImageAssets};
use crate::sprite::whole_frames;

verus! {

/// Thousandths of the way by which the boss nears each of its target points
/// in a tick.
pub const BOSS_PULL: u32 = 2;

/// Size of the area in which the helpers of the boss appear, and in which
/// its volleys are aimed.
pub const BOSS_SPREAD: u32 = 16_000;

/// How far below the boss its helpers appear.
pub const BOSS_DROP: i32 = 48_000;

/// Last tick of a phase in which the boss fires.
pub const VOLLEY_TICKS: u128 = 400;

/// Ticks between two volleys.
pub const VOLLEY_PAUSE: u128 = 15;

/// Tick of a phase after which the boss starts to count anew.
pub const VOLLEY_ROUND: u128 = 450;

pub struct BossEnemyType {}

/// The phase that follows `state`: the phases 0, 1 and 2 follow each other
/// in a circle.
pub open spec fn phase_after(state: i32) -> i32 {
    let next = state.wrapping_add(1);
    if next >= 0 {
        (next % 3) as i32
    } else {
        (-((-next) % 3)) as i32
    }
}

/// The tick count one tick later; it starts over at the end of its range.
pub open spec fn next_frame(frame: u128) -> u128 {
    if frame < u128::MAX {
        (frame + 1) as u128
    } else {
        0
    }
}

/// Where the boss at `position` lets its helpers appear, by two draws.
pub open spec fn helper_place(position: Vec2, draw_x: u32, draw_y: u32) -> Vec2 {
    position.moved(jitter_of(BOSS_SPREAD, draw_x), jitter_of(BOSS_SPREAD, draw_y) + BOSS_DROP)
}

/// The parameters of a helper: the direction it starts in, by a draw.
pub open spec fn helper_extra(draw: u32) -> Seq<char> {
    "rotation="@ + fraction_text(draw as int % 1000) + "|"@
}

/// Whether `node` asks for a helper of the given type at `place`, whatever
/// was drawn for its direction.
pub open spec fn is_some_helper(node: &EnemySpawnNode, enemy_type: i32, place: Vec2) -> bool {
    exists|draw: u32| #[trigger] node.is_request(0, enemy_type, place, helper_extra(draw))
}

/// What calling helpers does to the world: either one crawler or three
/// flying enemies are asked for at a place near the boss, two sounds are
/// asked for, and two splashes at that place.
pub open spec fn summoned(world_before: &World, world: &World, position: Vec2) -> bool {
    exists|draw_x: u32, draw_y: u32| #[trigger]
        summoned_at(world_before, world, helper_place(position, draw_x, draw_y))
}

/// What calling helpers to `place` does to the world; see `summoned`.
pub open spec fn summoned_at(world_before: &World, world: &World, place: Vec2) -> bool {
    let asked = world_before.enemy_spawn_nodes@.len() as int;
    let helpers = world.enemy_spawn_nodes@.len() - asked;
    let effects = world_before.particle_spawn_nodes@.len() as int;
    &&& world.camera_position == world_before.camera_position
    &&& world.bullet_spawn_nodes == world_before.bullet_spawn_nodes
    &&& helpers == 1 || helpers == 3
    &&& world.enemy_spawn_nodes@.subrange(0, asked) == world_before.enemy_spawn_nodes@
    &&& forall|i: int|
        asked <= i < asked + helpers ==> is_some_helper(
            &#[trigger] world.enemy_spawn_nodes@[i],
            if helpers == 1 {
                2
            } else {
                1
            },
            place,
        )
    &&& world.asks_for_sound("boss_spawn"@, "./resources/sfx/boss_spawn.mp3"@, 600)
    &&& world.asks_for_sound("boss_enter"@, "./resources/sfx/boss_enter.mp3"@, 800)
    &&& world.sounds_but(world_before, set!["boss_spawn"@, "boss_enter"@])
    &&& world.particle_spawn_nodes@.len() == effects + 2
    &&& world.particle_spawn_nodes@.subrange(0, effects) == world_before.particle_spawn_nodes@
    &&& forall|i: int|
        effects <= i < effects + 2 ==> is_some_splash(
            &#[trigger] world.particle_spawn_nodes@[i],
            place,
            "2.5"@,
        )
}

/// Whether `node` asks for a bullet of the boss that flies from `from`
/// towards a point near `target`, whatever was drawn for that point.
pub open spec fn is_some_volley(node: &BulletSpawnNode, from: Vec2, target: Vec2) -> bool {
    exists|draw_x: u32, draw_y: u32| #[trigger]
        aimed(
            node,
            from,
            target.moved(jitter_of(BOSS_SPREAD, draw_x), jitter_of(BOSS_SPREAD, draw_y)),
            1,
            ENEMY_BULLET_SPEED,
            ENEMY_BULLET_RADIUS,
            enemy_bullet_extra(),
        )
}

/// What a volley does to the world: two bullets are asked for, one from
/// each gun of the boss, aimed near `target`.
pub open spec fn barraged(world_before: &World, world: &World, position: Vec2, target: Vec2) -> bool {
    let asked = world_before.bullet_spawn_nodes@.len() as int;
    &&& world.same_but_bullets(world_before)
    &&& world.bullet_spawn_nodes@.len() == asked + 2
    &&& world.bullet_spawn_nodes@.subrange(0, asked) == world_before.bullet_spawn_nodes@
    &&& is_some_volley(&world.bullet_spawn_nodes@[asked], position.moved(28_000, -4_000), target)
    &&& is_some_volley(
        &world.bullet_spawn_nodes@[asked + 1],
        position.moved(32_000, -16_000),
        target,
    )
}

/// Asks for a helper of the given type at `place`.
fn call_helper(world: &mut World, enemy_type: i32, place: Vec2)
    ensures
        final(world).same_but_enemies(old(world)),
        final(world).enemy_spawn_nodes@.len() == old(world).enemy_spawn_nodes@.len() + 1,
        final(world).enemy_spawn_nodes@.drop_last() == old(world).enemy_spawn_nodes@,
        is_some_helper(&final(world).enemy_spawn_nodes@.last(), enemy_type, place),
{
    let draw = random_u32();
    let mut extra = String::from_str("rotation=");
    let turn = write_fraction(draw);
    extra.append(turn.as_str());
    extra.append("|");
    world.request_enemy(EnemySpawnNode::new(0, enemy_type, place, extra.as_str()));
    proof {
        assert(world.enemy_spawn_nodes@.drop_last() == old(world).enemy_spawn_nodes@);
        assert(world.enemy_spawn_nodes@.last().is_request(0, enemy_type, place, helper_extra(draw)));
    }
}

/// The type of the helpers that a draw picks: crawlers for a draw that
/// three divides, flying enemies for any other.
pub open spec fn helper_type(kind: u32) -> i32 {
    if kind % 3 == 0 {
        2
    } else {
        1
    }
}

/// The number of helpers that a draw picks: one crawler, or three flying
/// enemies.
pub open spec fn helper_count(kind: u32) -> int {
    if kind % 3 == 0 {
        1
    } else {
        3
    }
}

/// What calling the helpers that the draw `kind` picks to `place` does to
/// the world: they join the queue of enemy requests, each with a direction
/// of its own.
pub open spec fn helpers_called(world_before: &World, world: &World, place: Vec2, kind: u32) -> bool {
    let asked = world_before.enemy_spawn_nodes@.len() as int;
    &&& world.same_but_enemies(world_before)
    &&& world.enemy_spawn_nodes@.len() == asked + helper_count(kind)
    &&& world.enemy_spawn_nodes@.subrange(0, asked) == world_before.enemy_spawn_nodes@
    &&& forall|i: int|
        asked <= i < asked + helper_count(kind) ==> is_some_helper(
            &#[trigger] world.enemy_spawn_nodes@[i],
            helper_type(kind),
            place,
        )
}

/// Asks for the helpers that the draw `kind` picks, at `place`; see
/// `helpers_called`.
pub fn call_helpers(world: &mut World, place: Vec2, kind: u32)
    ensures
        helpers_called(old(world), final(world), place, kind),
{
    let ghost asked = world.enemy_spawn_nodes@.len() as int;
    if kind % 3 == 0 {
        call_helper(world, 2, place);
        proof {
            assert(world.enemy_spawn_nodes@.subrange(0, asked) == old(world).enemy_spawn_nodes@) by {
                assert(world.enemy_spawn_nodes@.drop_last() == old(world).enemy_spawn_nodes@);
            }
        }
    } else {
        call_helper(world, 1, place);
        let ghost one = *world;
        call_helper(world, 1, place);
        let ghost two = *world;
        call_helper(world, 1, place);
        proof {
            assert(two.enemy_spawn_nodes@ == world.enemy_spawn_nodes@.drop_last());
            assert(one.enemy_spawn_nodes@ == two.enemy_spawn_nodes@.drop_last());
            assert(world.enemy_spawn_nodes@[asked] == one.enemy_spawn_nodes@[asked]);
            assert(world.enemy_spawn_nodes@[asked + 1] == two.enemy_spawn_nodes@[asked + 1]);
            assert(world.enemy_spawn_nodes@.subrange(0, asked) == old(world).enemy_spawn_nodes@) by {
                assert(one.enemy_spawn_nodes@.drop_last() == old(world).enemy_spawn_nodes@);
            }
        }
    }
}

/// Asks for a bullet of the boss from `from` towards a point near `target`.
fn fire(world: &mut World, from: Vec2, target: Vec2)
    ensures
        final(world).same_but_bullets(old(world)),
        final(world).bullet_spawn_nodes@.len() == old(world).bullet_spawn_nodes@.len() + 1,
        final(world).bullet_spawn_nodes@.drop_last() == old(world).bullet_spawn_nodes@,
        is_some_volley(&final(world).bullet_spawn_nodes@.last(), from, target),
{
    let draw_x = random_u32();
    let draw_y = random_u32();
    let near = target.translate(jitter(BOSS_SPREAD, draw_x), jitter(BOSS_SPREAD, draw_y));
    Enemy::spawn_bullet(
        world,
        from,
        near,
        1,
        ENEMY_BULLET_SPEED,
        ENEMY_BULLET_RADIUS,
        "idle_animation=enemy-bullet-1-idle|firing_animation=enemy-bullet-1-firing|hit_animation=enemy-bullet-1-hit|kill_animation=enemy-bullet-1-kill|scale=1.2|",
    );
    proof {
        assert(aimed(
            &world.bullet_spawn_nodes@.last(),
            from,
            target.moved(jitter_of(BOSS_SPREAD, draw_x), jitter_of(BOSS_SPREAD, draw_y)),
            1,
            ENEMY_BULLET_SPEED,
            ENEMY_BULLET_RADIUS,
            enemy_bullet_extra(),
        ));
    }
}

impl BossEnemyType {
    pub fn new(_image_assets: &ImageAssets) -> (boss: BossEnemyType) {
        BossEnemyType {  }
    }

    pub fn enemy_type_id(&self) -> (id: i32)
        ensures
            id == 3,
    {
        3
    }

    /// Calls helpers to a place near the boss.
    fn summon(&self, enemy: &Enemy, world: &mut World)
        ensures
            summoned(old(world), final(world), enemy.position),
    {
        let draw_x = random_u32();
        let draw_y = random_u32();
        let place = enemy.position.translate(
            jitter(BOSS_SPREAD, draw_x),
            jitter(BOSS_SPREAD, draw_y) + BOSS_DROP,
        );
        let kind = random_u32();
        call_helpers(world, place, kind);
        let ghost called = *world;
        world.play_sound("boss_spawn", "./resources/sfx/boss_spawn.mp3", 600);
        let ghost spawn_sounded = *world;
        world.play_sound("boss_enter", "./resources/sfx/boss_enter.mp3", 800);
        proof {
            reveal_strlit("boss_spawn");
            reveal_strlit("boss_enter");
            assert("boss_spawn"@[5] != "boss_enter"@[5]);
            assert(world.play_sound_nodes@.dom() =~= called.play_sound_nodes@.dom().union(
                set!["boss_spawn"@, "boss_enter"@],
            ));
            assert(world.sounds_but(&called, set!["boss_spawn"@, "boss_enter"@]));
            assert(called.play_sound_nodes == old(world).play_sound_nodes);
        }
        let ghost sounded = *world;
        let ghost effects = world.particle_spawn_nodes@.len() as int;
        enemy.spawn_splash(world, place, "2.5");
        let ghost first = *world;
        enemy.spawn_splash(world, place, "2.5");
        proof {
            assert(sounded.particle_spawn_nodes == old(world).particle_spawn_nodes);
            assert(first.particle_spawn_nodes@ == world.particle_spawn_nodes@.subrange(
                0,
                effects + 1,
            ));
            assert(world.particle_spawn_nodes@[effects] == first.particle_spawn_nodes@[effects]);
            assert(world.particle_spawn_nodes@.subrange(0, effects)
                == sounded.particle_spawn_nodes@) by {
                assert(first.particle_spawn_nodes@.subrange(0, effects)
                    == sounded.particle_spawn_nodes@);
            }
            assert(summoned_at(old(world), world, helper_place(enemy.position, draw_x, draw_y)));
        }
    }

    /// Fires a volley at a point near `target`.
    fn volley(&self, enemy: &Enemy, target: Vec2, world: &mut World)
        ensures
            barraged(old(world), final(world), enemy.position, target),
    {
        let ghost asked = world.bullet_spawn_nodes@.len() as int;
        fire(world, enemy.position.translate(28_000, -4_000), target);
        let ghost one = *world;
        fire(world, enemy.position.translate(32_000, -16_000), target);
        proof {
            assert(one.bullet_spawn_nodes@ == world.bullet_spawn_nodes@.drop_last());
            assert(world.bullet_spawn_nodes@[asked] == one.bullet_spawn_nodes@[asked]);
            assert(world.bullet_spawn_nodes@.subrange(0, asked) == old(world).bullet_spawn_nodes@) by {
                assert(one.bullet_spawn_nodes@.drop_last() == old(world).bullet_spawn_nodes@);
            }
        }
    }
}

/// The phase that follows `state`.
fn next_phase(state: i32) -> (next: i32)
    ensures
        next == phase_after(state),
{
    let n: i64 = state.wrapping_add(1) as i64;
    if n >= 0 {
        (n % 3) as i32
    } else {
        (-((-n) % 3)) as i32
    }
}

impl BossEnemyType {
    /// What `init` does to an enemy and the world: the enemy becomes the
    /// boss, which will change phase after two and a half to three and a
    /// half seconds, shows its idle animation if the assets hold it, and
    /// gets three points to be pulled towards. Its entrance sound is asked
    /// for.
    pub open spec fn initialized(
        &self,
        before: &Enemy,
        enemy: &Enemy,
        world_before: &World,
        world: &World,
        image_assets: &ImageAssets,
    ) -> bool {
        &&& enemy.ident() == before.ident()
        &&& enemy.enemy_type == 3
        &&& enemy.radius == 24_000
        &&& enemy.active
        &&& enemy.health == 300
        &&& enemy.life_time == 100
        &&& enemy.maximum_tick == 2000
        &&& 2500 <= enemy.weapon_tick < 3500
        &&& enemy.max_health == before.max_health
        &&& enemy.hit_frame == before.hit_frame
        &&& enemy.position == before.position
        &&& enemy.rotation == before.rotation
        &&& enemy.frame == before.frame
        &&& enemy.tick == before.tick
        &&& enemy.state == before.state
        &&& enemy.extra == before.extra
        &&& retargeted(enemy.target_position@, world_before.camera_position)
        &&& world.asks_for_sound("boss_enter"@, "./resources/sfx/boss_enter.mp3"@, 700)
        &&& world.sounds_but(world_before, set!["boss_enter"@])
        &&& world.same_queues(world_before)
        &&& if image_assets.animations().contains_key("enemy-boss-idle"@) {
            &&& enemy.sprite.scale == (Vec2 { x: 1000, y: 1000 })
            &&& enemy.sprite.is_loop
            &&& enemy.sprite.animation.frames@ == whole_frames(
                image_assets.animations()["enemy-boss-idle"@]@,
            )
            &&& enemy.sprite.animation.name@ == "enemy-boss-idle"@
            &&& enemy.sprite.animation.frame_length == frame_length_at(
                image_assets.rate_of("enemy-boss-idle"@),
            )
            &&& enemy.sprite.frame_index == 0
            &&& enemy.sprite.frame_duration == 0
            &&& !enemy.sprite.pause
        } else {
            enemy.sprite == before.sprite
        }
    }

    /// Sets an enemy up when it is activated.
    pub fn init(&self, enemy: &mut Enemy, world: &mut World, image_assets: &ImageAssets)
        ensures
            self.initialized(old(enemy), final(enemy), old(world), final(world), image_assets),
    {
        enemy.enemy_type = self.enemy_type_id();
        enemy.radius = 24_000;
        enemy.active = true;
        enemy.health = 300;
        enemy.life_time = 100;
        enemy.maximum_tick = 2000;
        enemy.weapon_tick = random_weapon_tick();
        world.play_sound("boss_enter", "./resources/sfx/boss_enter.mp3", 700);
        match image_assets.get_animation_object("enemy-boss-idle") {
            Some(animation) => {
                enemy.sprite.scale = Vec2::new(1000, 1000);
                enemy.sprite.set_loop(true);
                enemy.sprite.play(&animation);
            },
            None => (),
        }
        random_target_position(enemy, world.camera_position);
    }

    /// Whether the boss calls helpers in the tick that starts from
    /// `before`: it is in the phase for it and its weapon clock runs out.
    pub open spec fn summons(before: &Enemy) -> bool {
        before.state == 1 && crate::tick_down_spec(before.weapon_tick) == 0
    }

    /// Whether the boss fires a volley in the tick that starts from
    /// `before`: it is in the phase for it, and the tick is one of every
    /// fifteenth up to the four hundredth.
    pub open spec fn fires(before: &Enemy) -> bool {
        &&& before.state == 2
        &&& next_frame(before.frame) <= VOLLEY_TICKS
        &&& next_frame(before.frame) % VOLLEY_PAUSE == 0
    }

    /// What the boss does in its phase; the first part of `update`.
    fn do_action(&self, enemy: &mut Enemy, target: Vec2, world: &mut World)
        ensures
            if old(enemy).state == 1 && old(enemy).weapon_tick == 0 {
                summoned(old(world), final(world), old(enemy).position) && *final(enemy) == *old(enemy)
            } else if old(enemy).state == 2 && old(enemy).frame <= VOLLEY_TICKS && old(enemy).frame
                % VOLLEY_PAUSE == 0 {
                barraged(old(world), final(world), old(enemy).position, target) && *final(enemy)
                    == *old(enemy)
            } else {
                &&& *final(world) == *old(world)
                &&& *final(enemy) == (Enemy {
                    frame: if old(enemy).state == 2 && old(enemy).frame > VOLLEY_ROUND {
                        0
                    } else {
                        old(enemy).frame
                    },
                    ..*old(enemy)
                })
            },
    {
        if enemy.state == 1 && enemy.weapon_tick == 0 {
            self.summon(enemy, world);
        } else if enemy.state == 2 {
            if enemy.frame <= VOLLEY_TICKS && enemy.frame % VOLLEY_PAUSE == 0 {
                self.volley(enemy, target, world);
            } else if enemy.frame > VOLLEY_ROUND {
                enemy.frame = 0;
            }
        }
    }

    /// What `update` does to an enemy and the world in one tick. The clocks
    /// move on and the boss does what its phase asks for: in phase 1, when
    /// the weapon clock runs out, it calls helpers; in phase 2 it fires a
    /// volley on every fifteenth tick up to the four hundredth. When the
    /// weapon clock has run out the boss enters its next phase and winds the
    /// clock up by chance. When the tick clock passes its greatest value the
    /// boss gets new points to be pulled towards. Last, it moves towards
    /// these points.
    pub open spec fn updated(
        &self,
        before: &Enemy,
        enemy: &Enemy,
        world_before: &World,
        world: &World,
        target: Vec2,
    ) -> bool {
        let clock = crate::tick_down_spec(before.weapon_tick);
        let counted = next_frame(before.frame);
        let turns = tick_up_spec(before.tick) > before.maximum_tick;
        &&& enemy.same_build(before)
        &&& enemy.active == before.active
        &&& enemy.health == before.health
        &&& enemy.rotation == before.rotation
        &&& enemy.extra == before.extra
        &&& enemy.sprite == before.sprite
        &&& if Self::summons(before) {
            summoned(world_before, world, before.position)
        } else if Self::fires(before) {
            barraged(world_before, world, before.position, target)
        } else {
            *world == *world_before
        }
        &&& if clock == 0 {
            &&& 2500 <= enemy.weapon_tick < 3500
            &&& enemy.frame == 0
            &&& enemy.state == phase_after(before.state)
        } else {
            &&& enemy.weapon_tick == clock
            &&& enemy.state == before.state
            &&& enemy.frame == if before.state == 2 && !Self::fires(before) && counted
                > VOLLEY_ROUND {
                0
            } else {
                counted
            }
        }
        &&& if turns {
            &&& enemy.tick == 0
            &&& retargeted(enemy.target_position@, world_before.camera_position)
        } else {
            &&& enemy.tick == tick_up_spec(before.tick)
            &&& enemy.target_position == before.target_position
        }
        &&& enemy.position == pulled(before.position, enemy.target_position@, BOSS_PULL)
    }

    /// Lets one tick pass for an enemy.
    pub fn update(&self, enemy: &mut Enemy, target: Vec2, world: &mut World)
        ensures
            self.updated(old(enemy), final(enemy), old(world), final(world), target),
    {
        enemy.tick = tick_up(enemy.tick);
        enemy.weapon_tick = crate::tick_down(enemy.weapon_tick);
        enemy.frame = if enemy.frame < u128::MAX {
            enemy.frame + 1
        } else {
            0
        };
        self.do_action(enemy, target, world);
        if enemy.weapon_tick == 0 {
            enemy.weapon_tick = random_weapon_tick();
            enemy.frame = 0;
            enemy.state = next_phase(enemy.state);
        }
        if enemy.tick > enemy.maximum_tick {
            enemy.tick = 0;
            random_target_position(enemy, world.camera_position);
        }
        enemy.position = pull(enemy.position, &enemy.target_position, BOSS_PULL);
    }

    /// What the death of the boss adds to the world: four large splashes
    /// where it was, and its sound.
    pub open spec fn died(&self, world_before: &World, world: &World, position: Vec2) -> bool {
        let effects = world_before.particle_spawn_nodes@.len() as int;
        &&& world.asks_for_sound("boss_explode"@, "./resources/sfx/boss_explode.mp3"@, 800)
        &&& world.sounds_but(world_before, set!["boss_explode"@])
        &&& world.camera_position == world_before.camera_position
        &&& world.bullet_spawn_nodes == world_before.bullet_spawn_nodes
        &&& world.enemy_spawn_nodes == world_before.enemy_spawn_nodes
        &&& world.particle_spawn_nodes@.len() == effects + 4
        &&& world.particle_spawn_nodes@.subrange(0, effects) == world_before.particle_spawn_nodes@
        &&& forall|i: int|
            effects <= i < effects + 4 ==> is_some_splash(
                &#[trigger] world.particle_spawn_nodes@[i],
                position,
                "3.5"@,
            )
    }

    /// Called once when the enemy's health is used up.
    pub fn die(&self, enemy: &mut Enemy, world: &mut World)
        ensures
            self.died(old(world), final(world), old(enemy).position),
            *final(enemy) == *old(enemy),
    {
        let ghost w0 = *world;
        enemy.spawn_splash(world, enemy.position, "3.5");
        let ghost w1 = *world;
        enemy.spawn_splash(world, enemy.position, "3.5");
        let ghost w2 = *world;
        enemy.spawn_splash(world, enemy.position, "3.5");
        let ghost w3 = *world;
        enemy.spawn_splash(world, enemy.position, "3.5");
        proof {
            crate::gameplay::enemy_manager::lemma_splashed_twice(
                &w0,
                &w1,
                &w2,
                enemy.position,
                "3.5"@,
                1,
                1,
            );
            crate::gameplay::enemy_manager::lemma_splashed_twice(
                &w0,
                &w2,
                &w3,
                enemy.position,
                "3.5"@,
                2,
                1,
            );
            crate::gameplay::enemy_manager::lemma_splashed_twice(
                &w0,
                &w3,
                world,
                enemy.position,
                "3.5"@,
                3,
                1,
            );
        }
        world.play_sound("boss_explode", "./resources/sfx/boss_explode.mp3", 800);
    }

    /// The boss is vulnerable all over.
    pub fn hit_check(&self, enemy: &Enemy, position: Vec2, radius: u32) -> (outcome: i32)
        ensures
            outcome == circle_hit_of(enemy, position, radius),
    {
        circle_hit(enemy, position, radius)
    }
}

} // verus!
