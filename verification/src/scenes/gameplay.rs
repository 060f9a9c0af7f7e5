//! The game play scene: the order of a tick, the hit resolution between
//! player, enemies and bullets, and the travel of the camera from node to
//! node.

use std::collections::VecDeque;

use vstd::multiset::*;
use vstd::prelude::*;
use vstd::string::*;

use crate::gameplay::bullet_pool::{
    is_pointing_left, points_left, Bullet, BulletPool, BulletTypeBank,
};
use crate::gameplay::enemy_manager::{
    hit_of, splashed, Enemy, EnemyManager, EnemyTypeBank, HIT_MISS, HIT_SHIELDED, HIT_WEAKPOINT,
};
use crate::gameplay::extra::{effect_params, effect_text, ExtraError};
use crate::gameplay::input::KeyStates;
use crate::gameplay::level::{EnemySpawnNode, Level, PatternNode};
use crate::gameplay::particle_manager::{
    ParticleDrawLayer, ParticleManager, ParticleSpawnNode, ParticleTypeBank,
};
use crate::gameplay::player::{
    Player, WeaponType, HIT_POINT_RADIUS, MELEE_ATTACK_DAMAGE, MELEE_ATTACK_RADIUS,
};
use crate::gameplay::pool::{idents, lemma_bag_update, Pooled};
use crate::gameplay::random::{jitter, jitter_of, random_u32};
use crate::gameplay::utils::{
    circles_overlap, circles_touch, dist_sq, inside_camera_area, is_inside_camera_area, Vec2,
};
use crate::gameplay::world::World;
use crate::image_assets::ImageAssets;

verus! {

/// Health that the player loses when it touches an enemy.
pub const CONTACT_DAMAGE: u32 = 2;

/// Health that the player loses when an enemy's bullet hits it.
pub const BULLET_DAMAGE: u32 = 1;

/// Size of the area around a hit bullet in which the effect of the hit
/// appears.
pub const HIT_SPREAD: u32 = 8_000;

/// Volume of the sound of a bullet hitting an enemy, in thousandths.
pub const BULLET_HIT_VOLUME: u32 = 150;

/// A bullet's health after a hit.
pub open spec fn worn(health: i32) -> i32 {
    if health > i32::MIN {
        (health - 1) as i32
    } else {
        health
    }
}

/// Whether `node` asks for the effect of a hit on `bullet`: it appears near
/// the bullet, plays the animation `animation`, and is mirrored if
/// `flipped`.
pub open spec fn is_some_hit_effect(
    node: &ParticleSpawnNode,
    bullet: &Bullet,
    animation: Seq<char>,
    flipped: bool,
) -> bool {
    exists|draw_x: u32, draw_y: u32| #[trigger]
        node.is_request(
            1,
            bullet.position.moved(jitter_of(HIT_SPREAD, draw_x), jitter_of(HIT_SPREAD, draw_y)),
            ParticleDrawLayer::BulletHit,
            effect_text(animation, flipped),
        )
}

/// What asking for the effect that the parameter `key` of a bullet names
/// does to the world: if the bullet has that parameter, one request is
/// added; if not, nothing changes.
pub open spec fn effect_asked(
    world_before: &World,
    world: &World,
    bullet: &Bullet,
    key: Seq<char>,
    flipped: bool,
) -> bool {
    if bullet.extra@.contains_key(key) {
        &&& world.same_but_particles(world_before)
        &&& world.particle_spawn_nodes@.len() == world_before.particle_spawn_nodes@.len() + 1
        &&& world.particle_spawn_nodes@.drop_last() == world_before.particle_spawn_nodes@
        &&& is_some_hit_effect(
            &world.particle_spawn_nodes@.last(),
            bullet,
            bullet.extra@[key],
            flipped,
        )
    } else {
        *world == *world_before
    }
}

/// Asks for the effect that the parameter `key` of a bullet names, near the
/// bullet.
fn ask_effect(world: &mut World, bullet: &Bullet, key: &str, flipped: bool)
    ensures
        effect_asked(old(world), final(world), bullet, key@, flipped),
{
    if bullet.extra.contains_key(key) {
        let name = bullet.extra.text_or_empty(key);
        let draw_x = random_u32();
        let draw_y = random_u32();
        let random_position = Vec2::new(jitter(HIT_SPREAD, draw_x), jitter(HIT_SPREAD, draw_y));
        let text = effect_params(name.as_str(), flipped);
        Bullet::spawn_hitting_particle(world, bullet.position.plus(random_position), text.as_str());
        proof {
            assert(world.particle_spawn_nodes@.last().is_request(
                1,
                bullet.position.moved(jitter_of(HIT_SPREAD, draw_x), jitter_of(HIT_SPREAD, draw_y)),
                ParticleDrawLayer::BulletHit,
                effect_text(bullet.extra@[key@], flipped),
            ));
        }
    }
}

/// Whether a bullet of the player and an enemy are tested against each
/// other: both are active and show on the screen.
pub open spec fn meet(bullet: &Bullet, enemy: &Enemy, camera: Vec2) -> bool {
    &&& bullet.active
    &&& enemy.active
    &&& inside_camera_area(camera, bullet.position, bullet.radius)
    &&& inside_camera_area(camera, enemy.position, enemy.radius)
}

/// The outcome of testing a bullet of the player against an enemy: a miss
/// if the two are not tested at all, and what the enemy's hit test says
/// otherwise.
pub open spec fn strike_of(bullet: &Bullet, enemy: &Enemy, bank: &EnemyTypeBank, camera: Vec2) -> i32 {
    if meet(bullet, enemy, camera) {
        hit_of(enemy, bank, bullet.position, bullet.radius)
    } else {
        HIT_MISS
    }
}

/// The name of the sound of a bullet hitting an enemy that a draw picks.
pub open spec fn hit_sound(draw: u32) -> Seq<char> {
    if draw % 3 == 0 {
        "bullet_hit_1"@
    } else if draw % 3 == 1 {
        "bullet_hit_2"@
    } else {
        "bullet_hit_3"@
    }
}

/// The file of the sound of a bullet hitting an enemy that a draw picks.
pub open spec fn hit_sound_path(draw: u32) -> Seq<char> {
    if draw % 3 == 0 {
        "./resources/sfx/bullet_hit_1.mp3"@
    } else if draw % 3 == 1 {
        "./resources/sfx/bullet_hit_2.mp3"@
    } else {
        "./resources/sfx/bullet_hit_3.mp3"@
    }
}

/// Asks for the sound of a bullet hitting an enemy that the draw picks:
/// one of three, by the rest that the draw leaves when divided by three.
pub fn play_hit_sound(world: &mut World, draw: u32)
    ensures
        final(world).same_queues(old(world)),
        final(world).asks_for_sound(hit_sound(draw), hit_sound_path(draw), BULLET_HIT_VOLUME),
        final(world).sounds_but(old(world), set![hit_sound(draw)]),
{
    let pick = draw % 3;
    if pick == 0 {
        world.play_sound("bullet_hit_1", "./resources/sfx/bullet_hit_1.mp3", BULLET_HIT_VOLUME);
    } else if pick == 1 {
        world.play_sound("bullet_hit_2", "./resources/sfx/bullet_hit_2.mp3", BULLET_HIT_VOLUME);
    } else {
        world.play_sound("bullet_hit_3", "./resources/sfx/bullet_hit_3.mp3", BULLET_HIT_VOLUME);
    }
}

/// What a hit of a bullet of the player on an enemy's weak point does to
/// the enemy: it takes the bullet's damage and goes out when its health is
/// used up.
pub open spec fn wounded(enemy: &Enemy, damage: u32) -> Enemy {
    let health: u32 = if enemy.health >= damage {
        (enemy.health - damage) as u32
    } else {
        0
    };
    Enemy {
        hit_frame: if enemy.hit_frame == 0 {
            crate::gameplay::enemy_manager::HIT_FRAMES
        } else {
            enemy.hit_frame
        },
        health,
        active: enemy.active && health != 0,
        ..*enemy
    }
}

/// What a hit does to a bullet: it loses one health and goes out when none
/// is left.
pub open spec fn spent(bullet: &Bullet) -> Bullet {
    Bullet {
        health: worn(bullet.health),
        active: bullet.active && worn(bullet.health) > 0,
        ..*bullet
    }
}

/// What a hit of `bullet` on the weak point of `enemy` asks the world for,
/// given the worlds in between and the draw that picks the sound: the
/// effect that the bullet's parameter `hit_animation` names, then a splash
/// on the enemy, then one of the three sounds of a hit.
pub open spec fn weak_point_asked(
    before: &World,
    after: &World,
    bullet: &Bullet,
    enemy: &Enemy,
    effect_world: World,
    splash_world: World,
    draw: u32,
) -> bool {
    &&& effect_asked(
        before,
        &effect_world,
        bullet,
        "hit_animation"@,
        points_left(bullet.rotation),
    )
    &&& splashed(&effect_world, &splash_world, enemy.splash_anchor(bullet.position), "0.9"@, 1)
    &&& after.same_queues(&splash_world)
    &&& after.asks_for_sound(hit_sound(draw), hit_sound_path(draw), BULLET_HIT_VOLUME)
    &&& after.sounds_but(&splash_world, set![hit_sound(draw)])
}

/// What testing `bullet` against `enemy` asks the world for: nothing after
/// a miss, the effect that the bullet's parameter `hit_animation` names
/// after a hit on the shield, and what `weak_point_asked` describes after a
/// hit on the weak point.
pub open spec fn strike_asked(
    before: &World,
    after: &World,
    bullet: &Bullet,
    enemy: &Enemy,
    bank: &EnemyTypeBank,
) -> bool {
    let outcome = strike_of(bullet, enemy, bank, before.camera_position);
    if outcome == HIT_MISS {
        *after == *before
    } else if outcome == HIT_WEAKPOINT {
        exists|effect_world: World, splash_world: World, draw: u32| #[trigger]
            weak_point_asked(before, after, bullet, enemy, effect_world, splash_world, draw)
    } else {
        effect_asked(before, after, bullet, "hit_animation"@, points_left(bullet.rotation))
    }
}

/// Tests a bullet of the player against an enemy and resolves the hit.
///
/// A miss changes nothing. A hit, on the weak point or on the shield, costs
/// the bullet one health, asks for the effect that the bullet's parameter
/// `hit_animation` names, and puts out a bullet without health. A hit on
/// the weak point also costs the enemy the bullet's damage, asks for a
/// splash and for one of the three hit sounds, and puts out an enemy
/// without health. The result says whether there was a hit.
pub fn strike(
    bullet: &mut Bullet,
    enemy: &mut Enemy,
    bank: &EnemyTypeBank,
    world: &mut World,
) -> (hit: bool)
    ensures
        hit == (strike_of(old(bullet), old(enemy), bank, old(world).camera_position) != HIT_MISS),
        *final(bullet) == struck_bullet(old(bullet), old(enemy), bank, old(world).camera_position),
        *final(enemy) == struck_enemy(old(bullet), old(enemy), bank, old(world).camera_position),
        strike_asked(old(world), final(world), old(bullet), old(enemy), bank),
{
    if !(bullet.active && enemy.active) {
        return false;
    }
    if !is_inside_camera_area(world.camera_position, bullet.position, bullet.radius) {
        return false;
    }
    if !is_inside_camera_area(world.camera_position, enemy.position, enemy.radius) {
        return false;
    }
    let checking_position = bullet.position;
    let result = enemy.hit_check(bank, checking_position, bullet.radius);
    if !(result == HIT_WEAKPOINT || result == HIT_SHIELDED) {
        proof {
            // The hit test knows three outcomes.
            assert(result == HIT_MISS) by {
                assert(hit_of(enemy, bank, checking_position, bullet.radius) == HIT_MISS || hit_of(
                    enemy,
                    bank,
                    checking_position,
                    bullet.radius,
                ) == HIT_WEAKPOINT);
            }
        }
        return false;
    }
    bullet.health = if bullet.health > i32::MIN {
        bullet.health - 1
    } else {
        bullet.health
    };
    let flipped = is_pointing_left(bullet.rotation);
    ask_effect(world, bullet, "hit_animation", flipped);
    let ghost effect_world = *world;
    proof {
        assert(effect_asked(
            old(world),
            &effect_world,
            old(bullet),
            "hit_animation"@,
            points_left(old(bullet).rotation),
        ));
    }
    if result == HIT_WEAKPOINT {
        enemy.get_hit(world, checking_position, bullet.damage);
        let ghost splash_world = *world;
        let draw = random_u32();
        play_hit_sound(world, draw);
        proof {
            assert(splashed(
                &effect_world,
                &splash_world,
                old(enemy).splash_anchor(old(bullet).position),
                "0.9"@,
                1,
            ));
            assert(world.asks_for_sound(hit_sound(draw), hit_sound_path(draw), BULLET_HIT_VOLUME));
            assert(weak_point_asked(
                old(world),
                world,
                old(bullet),
                old(enemy),
                effect_world,
                splash_world,
                draw,
            ));
        }
    }
    if enemy.health == 0 {
        enemy.active = false;
    }
    if bullet.health <= 0 {
        bullet.active = false;
    }
    true
}

/// Whether a hit check may have turned `before` into `bullet`: the bullet
/// is the same record with the same build; only its health can have gone
/// down and it can have gone out.
pub open spec fn bullet_kept(before: &Bullet, bullet: &Bullet) -> bool {
    &&& bullet.same_but_vitals(before)
    &&& bullet.position == before.position
    &&& bullet.previous_position == before.previous_position
    &&& bullet.life_time == before.life_time
    &&& bullet.sprite == before.sprite
    &&& bullet.health <= before.health
    &&& bullet.active ==> before.active
}

/// Whether a hit check may have turned `before` into `enemy`: the enemy is
/// the same record with the same build; only its health can have gone
/// down, it can have gone out, and it can have started to show a hit.
pub open spec fn enemy_kept(before: &Enemy, enemy: &Enemy) -> bool {
    &&& enemy.same_build_but_hit(before)
    &&& enemy.health <= before.health
    &&& enemy.active ==> before.active
}

/// Whether a hit check may have turned `before` into `world`: the camera
/// and the queues of bullet and enemy requests are as they were, and the
/// queue of particle requests has only grown.
pub open spec fn world_kept(before: &World, world: &World) -> bool {
    &&& world.camera_position == before.camera_position
    &&& world.bullet_spawn_nodes == before.bullet_spawn_nodes
    &&& world.enemy_spawn_nodes == before.enemy_spawn_nodes
    &&& world.particle_spawn_nodes@.len() >= before.particle_spawn_nodes@.len()
    &&& world.particle_spawn_nodes@.subrange(0, before.particle_spawn_nodes@.len() as int)
        == before.particle_spawn_nodes@
}

proof fn lemma_world_kept_twice(a: &World, b: &World, c: &World)
    requires
        world_kept(a, b),
        world_kept(b, c),
    ensures
        world_kept(a, c),
{
    let n = a.particle_spawn_nodes@.len() as int;
    let m = b.particle_spawn_nodes@.len() as int;
    assert(c.particle_spawn_nodes@.subrange(0, n) == c.particle_spawn_nodes@.subrange(
        0,
        m,
    ).subrange(0, n));
}

proof fn lemma_effect_keeps(a: &World, b: &World, bullet: &Bullet, key: Seq<char>, flipped: bool)
    requires
        effect_asked(a, b, bullet, key, flipped),
    ensures
        world_kept(a, b),
        b.play_sound_nodes == a.play_sound_nodes,
{
    if bullet.extra@.contains_key(key) {
        assert(b.particle_spawn_nodes@.subrange(0, a.particle_spawn_nodes@.len() as int)
            == b.particle_spawn_nodes@.drop_last());
    } else {
        assert(b.particle_spawn_nodes@.subrange(0, a.particle_spawn_nodes@.len() as int)
            == a.particle_spawn_nodes@);
    }
}

proof fn lemma_splash_keeps(a: &World, b: &World, anchor: Vec2, scale: Seq<char>, n: nat)
    requires
        splashed(a, b, anchor, scale, n),
    ensures
        world_kept(a, b),
        b.play_sound_nodes == a.play_sound_nodes,
{
}

/// The bullet after it was tested against the enemy.
pub open spec fn struck_bullet(
    bullet: &Bullet,
    enemy: &Enemy,
    bank: &EnemyTypeBank,
    camera: Vec2,
) -> Bullet {
    if strike_of(bullet, enemy, bank, camera) != HIT_MISS {
        spent(bullet)
    } else {
        *bullet
    }
}

/// The enemy after the bullet was tested against it.
pub open spec fn struck_enemy(
    bullet: &Bullet,
    enemy: &Enemy,
    bank: &EnemyTypeBank,
    camera: Vec2,
) -> Enemy {
    let outcome = strike_of(bullet, enemy, bank, camera);
    if outcome == HIT_WEAKPOINT {
        wounded(enemy, bullet.damage)
    } else if outcome != HIT_MISS {
        Enemy { active: enemy.active && enemy.health != 0, ..*enemy }
    } else {
        *enemy
    }
}

/// A bullet and the enemies after the bullet was tested against the first
/// `n` of the enemies, in order; see `strike`.
pub open spec fn volley(
    bullet: Bullet,
    enemies: Seq<Enemy>,
    n: int,
    bank: &EnemyTypeBank,
    camera: Vec2,
) -> (Bullet, Seq<Enemy>)
    decreases n,
{
    if n <= 0 || n > enemies.len() {
        (bullet, enemies)
    } else {
        let tested = volley(bullet, enemies, n - 1, bank, camera);
        (
            struck_bullet(&tested.0, &tested.1[n - 1], bank, camera),
            tested.1.update(n - 1, struck_enemy(&tested.0, &tested.1[n - 1], bank, camera)),
        )
    }
}

/// The bullets and the enemies after each of the first `n` of the bullets,
/// in order, was tested against all the enemies; see `volley`.
pub open spec fn barrage(
    bullets: Seq<Bullet>,
    enemies: Seq<Enemy>,
    n: int,
    bank: &EnemyTypeBank,
    camera: Vec2,
) -> (Seq<Bullet>, Seq<Enemy>)
    decreases n,
{
    if n <= 0 || n > bullets.len() {
        (bullets, enemies)
    } else {
        let fought = barrage(bullets, enemies, n - 1, bank, camera);
        let tested = volley(fought.0[n - 1], fought.1, fought.1.len() as int, bank, camera);
        (fought.0.update(n - 1, tested.0), tested.1)
    }
}

/// Testing a bullet leaves the number of enemies as it is.
proof fn lemma_volley_len(
    bullet: Bullet,
    enemies: Seq<Enemy>,
    n: int,
    bank: &EnemyTypeBank,
    camera: Vec2,
)
    ensures
        volley(bullet, enemies, n, bank, camera).1.len() == enemies.len(),
    decreases n,
{
    if 0 < n <= enemies.len() {
        lemma_volley_len(bullet, enemies, n - 1, bank, camera);
    }
}

/// A bullet that has gone out hits nothing any more: testing it against
/// further enemies changes neither the bullet nor the enemies.
proof fn lemma_volley_spent(
    bullet: Bullet,
    enemies: Seq<Enemy>,
    from: int,
    n: int,
    bank: &EnemyTypeBank,
    camera: Vec2,
)
    requires
        0 <= from <= n <= enemies.len(),
        !volley(bullet, enemies, from, bank, camera).0.active,
    ensures
        volley(bullet, enemies, n, bank, camera) == volley(bullet, enemies, from, bank, camera),
    decreases n - from,
{
    if from < n {
        lemma_volley_spent(bullet, enemies, from, n - 1, bank, camera);
        lemma_volley_len(bullet, enemies, n - 1, bank, camera);
        let tested = volley(bullet, enemies, n - 1, bank, camera);
        assert(strike_of(&tested.0, &tested.1[n - 1], bank, camera) == HIT_MISS);
        assert(tested.1.update(n - 1, tested.1[n - 1]) == tested.1);
    }
}

/// Whether the step from `trace[j]` to `trace[j + 1]` is what testing the
/// bullet against the enemy at position `j` does to the world, with the
/// bullet and the enemies in the state that the tests before left them in;
/// see `strike_asked`.
pub open spec fn strike_traced(
    trace: Seq<World>,
    bullet: Bullet,
    enemies: Seq<Enemy>,
    j: int,
    bank: &EnemyTypeBank,
    camera: Vec2,
) -> bool {
    let tested = volley(bullet, enemies, j, bank, camera);
    strike_asked(&trace[j], &trace[j + 1], &tested.0, &tested.1[j], bank)
}

/// The world in which the bullet at position `i` is taken up: the world
/// before the check for the first bullet, and else the world that the
/// bullet before left, where `m` is the number of enemies.
pub open spec fn world_ahead(traces: Seq<Seq<World>>, before: &World, i: int, m: int) -> World {
    if i <= 0 {
        *before
    } else {
        traces[i - 1][m]
    }
}

/// Whether the step from `traces[i][j]` to `traces[i][j + 1]` is what
/// testing the bullet at position `i` against the enemy at position `j`
/// does to the world; see `strike_traced`.
pub open spec fn strike_step(
    traces: Seq<Seq<World>>,
    bullets: Seq<Bullet>,
    enemies: Seq<Enemy>,
    i: int,
    j: int,
    bank: &EnemyTypeBank,
    camera: Vec2,
) -> bool {
    let fought = barrage(bullets, enemies, i, bank, camera);
    strike_traced(traces[i], fought.0[i], fought.1, j, bank, camera)
}

/// Whether `traces` holds the worlds that the check of the player's bullets
/// against the enemies passes through on its way from `before` to `after`:
/// for each bullet, in order, the worlds before and after each of its
/// tests.
pub open spec fn barrage_trace(
    traces: Seq<Seq<World>>,
    before: &World,
    after: &World,
    bullets: Seq<Bullet>,
    enemies: Seq<Enemy>,
    bank: &EnemyTypeBank,
) -> bool {
    let m = enemies.len() as int;
    &&& traces.len() == bullets.len()
    &&& forall|i: int| 0 <= i < traces.len() ==> (#[trigger] traces[i]).len() == m + 1
    &&& forall|i: int|
        0 <= i < traces.len() ==> (#[trigger] traces[i])[0] == world_ahead(traces, before, i, m)
    &&& *after == world_ahead(traces, before, bullets.len() as int, m)
    &&& forall|i: int, j: int|
        0 <= i < bullets.len() && 0 <= j < m ==> #[trigger] strike_step(
            traces,
            bullets,
            enemies,
            i,
            j,
            bank,
            before.camera_position,
        )
}

/// What testing the bullets of the player against the enemies does to the
/// world; see `barrage_trace`.
pub open spec fn barrage_asked(
    before: &World,
    after: &World,
    bullets: Seq<Bullet>,
    enemies: Seq<Enemy>,
    bank: &EnemyTypeBank,
) -> bool {
    exists|traces: Seq<Seq<World>>| #[trigger]
        barrage_trace(traces, before, after, bullets, enemies, bank)
}

/// Tests the bullets of the player against the active enemies and resolves
/// the hits; see `strike`. Each bullet is tested against the enemies in
/// order; a bullet that has gone out is tested against no further enemy.
pub fn update_hit_check_between_player_bullet_and_enemies(
    bullet_pool: &mut BulletPool,
    enemy_manager: &mut EnemyManager,
    bank: &EnemyTypeBank,
    world: &mut World,
)
    requires
        old(bullet_pool).wf(),
        old(enemy_manager).wf(),
    ensures
        final(bullet_pool).wf(),
        final(bullet_pool).held() == old(bullet_pool).held(),
        final(bullet_pool).total_bullets == old(bullet_pool).total_bullets,
        final(bullet_pool).pool == old(bullet_pool).pool,
        final(bullet_pool).enemy_active_bullets == old(bullet_pool).enemy_active_bullets,
        final(bullet_pool).spawned_bullet_list == old(bullet_pool).spawned_bullet_list,
        final(bullet_pool).player_active_bullets@.len() == old(bullet_pool).player_active_bullets@.len(),
        forall|i: int|
            0 <= i < final(bullet_pool).player_active_bullets@.len() ==> bullet_kept(
                &old(bullet_pool).player_active_bullets@[i],
                &#[trigger] final(bullet_pool).player_active_bullets@[i],
            ),
        final(enemy_manager).wf(),
        final(enemy_manager).capacity == old(enemy_manager).capacity,
        final(enemy_manager).inactive_enemies == old(enemy_manager).inactive_enemies,
        final(enemy_manager).active_enemies@.len() == old(enemy_manager).active_enemies@.len(),
        forall|j: int|
            0 <= j < final(enemy_manager).active_enemies@.len() ==> enemy_kept(
                &old(enemy_manager).active_enemies@[j],
                &#[trigger] final(enemy_manager).active_enemies@[j],
            ),
        (final(bullet_pool).player_active_bullets@, final(enemy_manager).active_enemies@)
            == barrage(
            old(bullet_pool).player_active_bullets@,
            old(enemy_manager).active_enemies@,
            old(bullet_pool).player_active_bullets@.len() as int,
            bank,
            old(world).camera_position,
        ),
        world_kept(old(world), final(world)),
        barrage_asked(
            old(world),
            final(world),
            old(bullet_pool).player_active_bullets@,
            old(enemy_manager).active_enemies@,
            bank,
        ),
{
    let ghost camera = world.camera_position;
    let ghost first_bullets = bullet_pool.player_active_bullets@;
    let ghost first_enemies = enemy_manager.active_enemies@;
    let ghost first_world = *world;
    let ghost mut traces: Seq<Seq<World>> = Seq::empty();
    let bullets: usize = bullet_pool.player_active_bullets.len();
    let enemies: usize = enemy_manager.active_enemies.len();
    let mut i: usize = 0;
    proof {
        assert(world.particle_spawn_nodes@.subrange(0, world.particle_spawn_nodes@.len() as int)
            == world.particle_spawn_nodes@);
    }
    while i < bullets
        invariant
            i <= bullets,
            bullets == bullet_pool.player_active_bullets@.len(),
            bullets == first_bullets.len(),
            enemies == enemy_manager.active_enemies@.len(),
            enemies == first_enemies.len(),
            first_bullets == old(bullet_pool).player_active_bullets@,
            first_enemies == old(enemy_manager).active_enemies@,
            first_world == *old(world),
            bullet_pool.total_bullets == old(bullet_pool).total_bullets,
            bullet_pool.pool == old(bullet_pool).pool,
            bullet_pool.enemy_active_bullets == old(bullet_pool).enemy_active_bullets,
            bullet_pool.spawned_bullet_list == old(bullet_pool).spawned_bullet_list,
            idents(bullet_pool.player_active_bullets@) == idents(first_bullets),
            forall|k: int|
                0 <= k < bullets ==> bullet_kept(
                    &first_bullets[k],
                    &#[trigger] bullet_pool.player_active_bullets@[k],
                ),
            enemy_manager.capacity == old(enemy_manager).capacity,
            enemy_manager.inactive_enemies == old(enemy_manager).inactive_enemies,
            idents(enemy_manager.active_enemies@) == idents(first_enemies),
            forall|j: int|
                0 <= j < enemies ==> enemy_kept(
                    &first_enemies[j],
                    &#[trigger] enemy_manager.active_enemies@[j],
                ),
            world_kept(old(world), world),
            camera == old(world).camera_position,
            (bullet_pool.player_active_bullets@, enemy_manager.active_enemies@) == barrage(
                first_bullets,
                first_enemies,
                i as int,
                bank,
                camera,
            ),
            traces.len() == i,
            forall|k: int| 0 <= k < i ==> (#[trigger] traces[k]).len() == enemies + 1,
            forall|k: int|
                0 <= k < i ==> (#[trigger] traces[k])[0] == world_ahead(
                    traces,
                    &first_world,
                    k,
                    enemies as int,
                ),
            *world == world_ahead(traces, &first_world, i as int, enemies as int),
            forall|k: int, l: int|
                0 <= k < i && 0 <= l < enemies ==> #[trigger] strike_step(
                    traces,
                    first_bullets,
                    first_enemies,
                    k,
                    l,
                    bank,
                    camera,
                ),
        decreases bullets - i,
    {
        let ghost bullets_at = bullet_pool.player_active_bullets@;
        let ghost enemies_at = enemy_manager.active_enemies@;
        let ghost world_at = *world;
        let ghost mut trace: Seq<World> = seq![*world];
        let mut j: usize = 0;
        while j < enemies
            invariant
                i < bullets,
                j <= enemies,
                bullets == bullet_pool.player_active_bullets@.len(),
                bullets == first_bullets.len(),
                bullets == bullets_at.len(),
                enemies == enemy_manager.active_enemies@.len(),
                enemies == first_enemies.len(),
                enemies == enemies_at.len(),
                bullet_pool.total_bullets == old(bullet_pool).total_bullets,
                bullet_pool.pool == old(bullet_pool).pool,
                bullet_pool.enemy_active_bullets == old(bullet_pool).enemy_active_bullets,
                bullet_pool.spawned_bullet_list == old(bullet_pool).spawned_bullet_list,
                idents(bullet_pool.player_active_bullets@) == idents(first_bullets),
                forall|k: int|
                    0 <= k < bullets ==> bullet_kept(
                        &first_bullets[k],
                        &#[trigger] bullet_pool.player_active_bullets@[k],
                    ),
                enemy_manager.capacity == old(enemy_manager).capacity,
                enemy_manager.inactive_enemies == old(enemy_manager).inactive_enemies,
                idents(enemy_manager.active_enemies@) == idents(first_enemies),
                forall|k: int|
                    0 <= k < enemies ==> enemy_kept(
                        &first_enemies[k],
                        &#[trigger] enemy_manager.active_enemies@[k],
                    ),
                world_kept(old(world), world),
                camera == old(world).camera_position,
                bullet_pool.player_active_bullets@ == bullets_at.update(
                    i as int,
                    volley(bullets_at[i as int], enemies_at, j as int, bank, camera).0,
                ),
                enemy_manager.active_enemies@ == volley(
                    bullets_at[i as int],
                    enemies_at,
                    j as int,
                    bank,
                    camera,
                ).1,
                trace.len() == j + 1,
                trace[0] == world_at,
                trace[j as int] == *world,
                forall|l: int|
                    0 <= l < j ==> #[trigger] strike_traced(
                        trace,
                        bullets_at[i as int],
                        enemies_at,
                        l,
                        bank,
                        camera,
                    ),
            decreases enemies - j,
        {
            let ghost bullets_before = bullet_pool.player_active_bullets@;
            let ghost enemies_before = enemy_manager.active_enemies@;
            let ghost world_before = *world;
            let hit = strike(
                &mut bullet_pool.player_active_bullets[i],
                &mut enemy_manager.active_enemies[j],
                bank,
                world,
            );
            let gone_out = hit && !bullet_pool.player_active_bullets[i].active;
            proof {
                let bullet = bullet_pool.player_active_bullets@[i as int];
                let enemy = enemy_manager.active_enemies@[j as int];
                assert(bullet_pool.player_active_bullets@ == bullets_before.update(i as int, bullet));
                assert(enemy_manager.active_enemies@ == enemies_before.update(j as int, enemy));
                lemma_bag_update(bullets_before, i as int, bullet);
                lemma_bag_update(enemies_before, j as int, enemy);
                lemma_strike_keeps(
                    &bullets_before[i as int],
                    &bullet,
                    &enemies_before[j as int],
                    &enemy,
                    bank,
                    &world_before,
                    world,
                    hit,
                );
                lemma_world_kept_twice(old(world), &world_before, world);
                assert(bullet_pool.player_active_bullets@ == bullets_at.update(
                    i as int,
                    volley(bullets_at[i as int], enemies_at, j + 1, bank, camera).0,
                ));
                let longer = trace.push(*world);
                assert forall|l: int| 0 <= l < j + 1 implies #[trigger] strike_traced(
                    longer,
                    bullets_at[i as int],
                    enemies_at,
                    l,
                    bank,
                    camera,
                ) by {
                    if l < j {
                        assert(strike_traced(trace, bullets_at[i as int], enemies_at, l, bank, camera));
                        assert(longer[l] == trace[l] && longer[l + 1] == trace[l + 1]);
                    } else {
                        assert(longer[l] == world_before && longer[l + 1] == *world);
                    }
                }
                trace = longer;
            }
            j += 1;
            if gone_out {
                proof {
                    let rest = Seq::new((enemies - j) as nat, |l: int| *world);
                    let padded = trace + rest;
                    lemma_volley_spent(
                        bullets_at[i as int],
                        enemies_at,
                        j as int,
                        enemies as int,
                        bank,
                        camera,
                    );
                    assert forall|l: int| 0 <= l < enemies implies #[trigger] strike_traced(
                        padded,
                        bullets_at[i as int],
                        enemies_at,
                        l,
                        bank,
                        camera,
                    ) by {
                        if l < j {
                            assert(strike_traced(trace, bullets_at[i as int], enemies_at, l, bank, camera));
                            assert(padded[l] == trace[l] && padded[l + 1] == trace[l + 1]);
                        } else {
                            lemma_volley_spent(
                                bullets_at[i as int],
                                enemies_at,
                                j as int,
                                l,
                                bank,
                                camera,
                            );
                            assert(padded[l] == *world && padded[l + 1] == *world);
                        }
                    }
                    assert(padded[0] == trace[0]);
                    assert(padded[enemies as int] == *world);
                    trace = padded;
                }
                j = enemies;
            }
        }
        proof {
            assert(bullets_at[i as int] == barrage(first_bullets, first_enemies, i as int, bank, camera).0[i as int]);
            let longer = traces.push(trace);
            assert forall|k: int| 0 <= k < i + 1 implies (#[trigger] longer[k]).len() == enemies
                + 1 by {
                if k < i {
                    assert(longer[k] == traces[k]);
                }
            }
            assert forall|k: int| 0 <= k < i + 1 implies (#[trigger] longer[k])[0] == world_ahead(
                longer,
                &first_world,
                k,
                enemies as int,
            ) by {
                if k < i {
                    assert(longer[k] == traces[k]);
                    assert(traces[k][0] == world_ahead(traces, &first_world, k, enemies as int));
                    if k > 0 {
                        assert(longer[k - 1] == traces[k - 1]);
                    }
                } else {
                    if k > 0 {
                        assert(longer[k - 1] == traces[k - 1]);
                    }
                }
            }
            assert forall|k: int, l: int| 0 <= k < i + 1 && 0 <= l < enemies implies #[trigger] strike_step(
                longer,
                first_bullets,
                first_enemies,
                k,
                l,
                bank,
                camera,
            ) by {
                if k < i {
                    assert(strike_step(traces, first_bullets, first_enemies, k, l, bank, camera));
                    assert(longer[k] == traces[k]);
                } else {
                    assert(longer[k] == trace);
                    assert(strike_traced(trace, bullets_at[i as int], enemies_at, l, bank, camera));
                }
            }
            assert(longer[i as int] == trace);
            traces = longer;
        }
        i += 1;
    }
    proof {
        assert(bullet_pool.held() =~= old(bullet_pool).held());
        assert(enemy_manager.held() =~= old(enemy_manager).held());
        assert(barrage_trace(traces, old(world), world, first_bullets, first_enemies, bank));
    }
}

/// A strike leaves bullet, enemy and world within what a hit check may do.
proof fn lemma_strike_keeps(
    bullet_before: &Bullet,
    bullet: &Bullet,
    enemy_before: &Enemy,
    enemy: &Enemy,
    bank: &EnemyTypeBank,
    world_before: &World,
    world: &World,
    hit: bool,
)
    requires
        hit == (strike_of(bullet_before, enemy_before, bank, world_before.camera_position)
            != HIT_MISS),
        *bullet == struck_bullet(bullet_before, enemy_before, bank, world_before.camera_position),
        *enemy == struck_enemy(bullet_before, enemy_before, bank, world_before.camera_position),
        strike_asked(world_before, world, bullet_before, enemy_before, bank),
    ensures
        bullet_kept(bullet_before, bullet),
        enemy_kept(enemy_before, enemy),
        world_kept(world_before, world),
{
    let outcome = strike_of(bullet_before, enemy_before, bank, world_before.camera_position);
    if !hit {
        assert(world.particle_spawn_nodes@.subrange(
            0,
            world_before.particle_spawn_nodes@.len() as int,
        ) == world_before.particle_spawn_nodes@);
    } else if outcome != HIT_WEAKPOINT {
        lemma_effect_keeps(
            world_before,
            world,
            bullet_before,
            "hit_animation"@,
            points_left(bullet_before.rotation),
        );
    } else {
        let (effect_world, splash_world, draw) = choose|
            effect_world: World,
            splash_world: World,
            draw: u32,
        | #[trigger]
            weak_point_asked(
                world_before,
                world,
                bullet_before,
                enemy_before,
                effect_world,
                splash_world,
                draw,
            );
        lemma_effect_keeps(
            world_before,
            &effect_world,
            bullet_before,
            "hit_animation"@,
            points_left(bullet_before.rotation),
        );
        lemma_world_kept_twice(world_before, &effect_world, &splash_world);
        assert(world_kept(&splash_world, world)) by {
            assert(world.particle_spawn_nodes@.subrange(
                0,
                splash_world.particle_spawn_nodes@.len() as int,
            ) == splash_world.particle_spawn_nodes@);
        }
        lemma_world_kept_twice(world_before, &splash_world, world);
    }
}

/// Whether an enemy touches the player: it is active, shows on the screen,
/// and its circle touches the circle around the player's hit point. An
/// enemy that has gone out, earlier in the same tick too, takes no part.
pub open spec fn touches(enemy: &Enemy, player: &Player, camera: Vec2) -> bool {
    &&& enemy.active
    &&& inside_camera_area(camera, enemy.position, enemy.radius)
    &&& circles_touch(enemy.position, enemy.radius, player.hit_point(), HIT_POINT_RADIUS)
}

/// Whether one of the first `n` enemies touches the player.
pub open spec fn touched(enemies: Seq<Enemy>, n: int, player: &Player, camera: Vec2) -> bool {
    exists|j: int| 0 <= j < n && touches(#[trigger] &enemies[j], player, camera)
}

/// What a hit that takes `damage` does to the player and the world; see
/// `Player::get_hit`.
pub open spec fn player_hit(
    before: &Player,
    player: &Player,
    world_before: &World,
    world: &World,
    damage: u32,
) -> bool {
    if before.vulnerable() {
        &&& *player == (Player {
            health: if before.health >= damage {
                (before.health - damage) as u32
            } else {
                0
            },
            hit_frame: crate::gameplay::player::HIT_GRACE,
            ..*before
        })
        &&& world.asks_for_sound("player_hit"@, "./resources/sfx/player_hit.mp3"@, 800)
        &&& world.sounds_but(world_before, set!["player_hit"@])
        &&& exists|splashed_world: World|
            #[trigger] splashed(world_before, &splashed_world, before.hit_point(), "1.5"@, 2)
                && world.same_queues(&splashed_world)
    } else {
        *player == *before && *world == *world_before
    }
}

/// Tests the player against the enemies: if an enemy that is active and
/// shows on the screen touches the player's hit point, the player takes the
/// contact damage, once, if it is vulnerable.
pub fn update_hit_check_between_player_and_enemies(
    player: &mut Player,
    enemy_manager: &EnemyManager,
    world: &mut World,
)
    ensures
        if touched(
            enemy_manager.active_enemies@,
            enemy_manager.active_enemies@.len() as int,
            old(player),
            old(world).camera_position,
        ) {
            player_hit(old(player), final(player), old(world), final(world), CONTACT_DAMAGE)
        } else {
            *final(player) == *old(player) && *final(world) == *old(world)
        },
{
    let player_hit_point_position = player.get_hit_point_position();
    let player_hit_point_radius = player.get_hit_point_radius();
    let n: usize = enemy_manager.active_enemies.len();
    let mut j: usize = 0;
    while j < n
        invariant
            j <= n,
            n == enemy_manager.active_enemies@.len(),
            player_hit_point_position == old(player).hit_point(),
            player_hit_point_radius == HIT_POINT_RADIUS,
            world.camera_position == old(world).camera_position,
            if touched(
                enemy_manager.active_enemies@,
                j as int,
                old(player),
                old(world).camera_position,
            ) {
                player_hit(old(player), player, old(world), world, CONTACT_DAMAGE)
            } else {
                *player == *old(player) && *world == *old(world)
            },
        decreases n - j,
    {
        let enemy = &enemy_manager.active_enemies[j];
        let ghost seen = touched(
            enemy_manager.active_enemies@,
            j as int,
            old(player),
            old(world).camera_position,
        );
        if enemy.active && is_inside_camera_area(
            world.camera_position,
            enemy.position,
            enemy.radius,
        ) && circles_overlap(
            enemy.position,
            enemy.radius,
            player_hit_point_position,
            player_hit_point_radius,
        ) {
            proof {
                assert(touches(
                    &enemy_manager.active_enemies@[j as int],
                    old(player),
                    old(world).camera_position,
                ));
            }
            player.get_hit(CONTACT_DAMAGE, world);
        } else {
            proof {
                if touched(
                    enemy_manager.active_enemies@,
                    j + 1,
                    old(player),
                    old(world).camera_position,
                ) {
                    let k = choose|k: int|
                        0 <= k < j + 1 && touches(
                            #[trigger] &enemy_manager.active_enemies@[k],
                            old(player),
                            old(world).camera_position,
                        );
                    assert(k < j);
                }
            }
        }
        j += 1;
    }
}

/// Whether an enemy's bullet reaches a circle: it is active, shows on the
/// screen, and touches the circle.
pub open spec fn reaches(bullet: &Bullet, centre: Vec2, radius: u32, camera: Vec2) -> bool {
    &&& bullet.active
    &&& inside_camera_area(camera, bullet.position, bullet.radius)
    &&& circles_touch(centre, radius, bullet.position, bullet.radius)
}

/// Index of the first of the bullets that reaches the circle, or the number
/// of bullets if none does.
pub open spec fn first_reaching(bullets: Seq<Bullet>, centre: Vec2, radius: u32, camera: Vec2) -> nat
    decreases bullets.len(),
{
    if bullets.len() == 0 || reaches(&bullets[0], centre, radius, camera) {
        0
    } else {
        1 + first_reaching(bullets.skip(1), centre, radius, camera)
    }
}

proof fn lemma_first_reaching_is(
    bullets: Seq<Bullet>,
    centre: Vec2,
    radius: u32,
    camera: Vec2,
    k: int,
)
    requires
        0 <= k <= bullets.len(),
        forall|i: int| 0 <= i < k ==> !reaches(#[trigger] &bullets[i], centre, radius, camera),
        k < bullets.len() ==> reaches(&bullets[k], centre, radius, camera),
    ensures
        first_reaching(bullets, centre, radius, camera) == k,
    decreases bullets.len(),
{
    if bullets.len() != 0 && k > 0 {
        assert(!reaches(&bullets[0], centre, radius, camera));
        assert forall|i: int| 0 <= i < k - 1 implies !reaches(
            #[trigger] &bullets.skip(1)[i],
            centre,
            radius,
            camera,
        ) by {
            assert(bullets.skip(1)[i] == bullets[i + 1]);
        }
        if k - 1 < bullets.skip(1).len() {
            assert(bullets.skip(1)[k - 1] == bullets[k]);
        }
        lemma_first_reaching_is(bullets.skip(1), centre, radius, camera, k - 1);
    }
}

/// Tests the player against the bullets of the enemies. The first bullet
/// that is active, shows on the screen and touches the player's hit point
/// is spent on the player: the bullet loses one health and goes out if none
/// is left, the effect that its parameter `hit_animation` names is asked
/// for, and the player takes the bullet damage if it is vulnerable. No
/// other bullet is tested after it.
pub fn update_hit_check_between_player_and_enemies_bullets(
    player: &mut Player,
    bullet_pool: &mut BulletPool,
    world: &mut World,
)
    requires
        old(bullet_pool).wf(),
    ensures
        final(bullet_pool).wf(),
        final(bullet_pool).held() == old(bullet_pool).held(),
        final(bullet_pool).total_bullets == old(bullet_pool).total_bullets,
        final(bullet_pool).pool == old(bullet_pool).pool,
        final(bullet_pool).player_active_bullets == old(bullet_pool).player_active_bullets,
        final(bullet_pool).spawned_bullet_list == old(bullet_pool).spawned_bullet_list,
        ({
            let bullets = old(bullet_pool).enemy_active_bullets@;
            let k = first_reaching(
                bullets,
                old(player).hit_point(),
                HIT_POINT_RADIUS,
                old(world).camera_position,
            ) as int;
            if k < bullets.len() {
                &&& final(bullet_pool).enemy_active_bullets@ == bullets.update(k, spent(&bullets[k]))
                &&& exists|effect_world: World|
                    {
                        &&& #[trigger] effect_asked(
                            old(world),
                            &effect_world,
                            &bullets[k],
                            "hit_animation"@,
                            points_left(bullets[k].rotation),
                        )
                        &&& player_hit(
                            old(player),
                            final(player),
                            &effect_world,
                            final(world),
                            BULLET_DAMAGE,
                        )
                    }
            } else {
                &&& final(bullet_pool).enemy_active_bullets@ == bullets
                &&& *final(player) == *old(player)
                &&& *final(world) == *old(world)
            }
        }),
{
    let player_hit_point_position = player.get_hit_point_position();
    let player_hit_point_radius = player.get_hit_point_radius();
    let ghost bullets = bullet_pool.enemy_active_bullets@;
    let ghost camera = world.camera_position;
    let n: usize = bullet_pool.enemy_active_bullets.len();
    let mut i: usize = 0;
    while i < n
        invariant
            i <= n,
            n == bullets.len(),
            bullets == old(bullet_pool).enemy_active_bullets@,
            camera == old(world).camera_position,
            *bullet_pool == *old(bullet_pool),
            old(bullet_pool).wf(),
            *player == *old(player),
            *world == *old(world),
            player_hit_point_position == old(player).hit_point(),
            player_hit_point_radius == HIT_POINT_RADIUS,
            forall|k: int|
                0 <= k < i ==> !reaches(
                    #[trigger] &bullets[k],
                    old(player).hit_point(),
                    HIT_POINT_RADIUS,
                    camera,
                ),
        decreases n - i,
    {
        let reached: bool = {
            let bullet = &bullet_pool.enemy_active_bullets[i];
            bullet.active && is_inside_camera_area(
                world.camera_position,
                bullet.position,
                bullet.radius,
            ) && circles_overlap(
                player_hit_point_position,
                player_hit_point_radius,
                bullet.position,
                bullet.radius,
            )
        };
        if reached {
            proof {
                lemma_first_reaching_is(
                    bullets,
                    old(player).hit_point(),
                    HIT_POINT_RADIUS,
                    camera,
                    i as int,
                );
            }
            let flipped = is_pointing_left(bullet_pool.enemy_active_bullets[i].rotation);
            ask_effect(world, &bullet_pool.enemy_active_bullets[i], "hit_animation", flipped);
            let ghost effect_world = *world;
            player.get_hit(BULLET_DAMAGE, world);
            let bullet = &mut bullet_pool.enemy_active_bullets[i];
            bullet.health = if bullet.health > i32::MIN {
                bullet.health - 1
            } else {
                bullet.health
            };
            if bullet.health <= 0 {
                bullet.active = false;
            }
            proof {
                assert(bullet_pool.enemy_active_bullets@ == bullets.update(
                    i as int,
                    spent(&bullets[i as int]),
                ));
                lemma_bag_update(bullets, i as int, spent(&bullets[i as int]));
                assert(bullet_pool.held() =~= old(bullet_pool).held());
                assert forall|id: nat| #[trigger]
                    bullet_pool.held().count(id) <= crate::gameplay::pool::full_bag(
                        bullet_pool.capacity(),
                    ).count(id) by {
                    assert(old(bullet_pool).held().count(id) <= crate::gameplay::pool::full_bag(
                        old(bullet_pool).capacity(),
                    ).count(id));
                }
                assert(effect_asked(
                    old(world),
                    &effect_world,
                    &bullets[i as int],
                    "hit_animation"@,
                    points_left(bullets[i as int].rotation),
                ));
            }
            return ;
        }
        i += 1;
    }
    proof {
        lemma_first_reaching_is(bullets, old(player).hit_point(), HIT_POINT_RADIUS, camera, n as int);
    }
}

/// Whether the player's melee weapon is at work.
pub open spec fn slashes(player: &Player) -> bool {
    player.weapon_type == WeaponType::Melee && player.melee_attack_time > 0
}

/// What a melee attack does to a bullet of an enemy that it reaches: the
/// bullet loses all its health.
pub open spec fn parried(bullet: &Bullet, player: &Player, camera: Vec2) -> Bullet {
    if slashes(player) && reaches(bullet, player.melee_point(), MELEE_ATTACK_RADIUS, camera) {
        Bullet { health: 0, ..*bullet }
    } else {
        *bullet
    }
}

/// Whether the step from `worlds[i]` to `worlds[i + 1]` is what testing a
/// melee attack against the bullet at position `i` does to the world: a
/// bullet that is reached asks for the effect that its parameter
/// `kill_animation` names, any other leaves the world as it is.
pub open spec fn parry_step(
    worlds: Seq<World>,
    bullets: Seq<Bullet>,
    i: int,
    player: &Player,
    camera: Vec2,
) -> bool {
    if reaches(&bullets[i], player.melee_point(), MELEE_ATTACK_RADIUS, camera) {
        effect_asked(&worlds[i], &worlds[i + 1], &bullets[i], "kill_animation"@, false)
    } else {
        worlds[i + 1] == worlds[i]
    }
}

/// Whether `worlds` are the worlds that a melee attack passes through on
/// its way from `before` to `after` while it is tested against the bullets,
/// one after the other; see `parry_step`.
pub open spec fn parry_trace(
    worlds: Seq<World>,
    before: &World,
    after: &World,
    bullets: Seq<Bullet>,
    player: &Player,
) -> bool {
    &&& worlds.len() == bullets.len() + 1
    &&& worlds[0] == *before
    &&& worlds[bullets.len() as int] == *after
    &&& forall|i: int|
        0 <= i < bullets.len() ==> #[trigger] parry_step(
            worlds,
            bullets,
            i,
            player,
            before.camera_position,
        )
}

/// What testing the player's melee attack against the bullets of the
/// enemies does to the world: nothing unless the melee weapon is at work,
/// and else what `parry_trace` describes.
pub open spec fn parry_asked(
    before: &World,
    after: &World,
    bullets: Seq<Bullet>,
    player: &Player,
) -> bool {
    if slashes(player) {
        exists|worlds: Seq<World>| #[trigger] parry_trace(worlds, before, after, bullets, player)
    } else {
        *after == *before
    }
}

/// Tests the player's melee attack against the bullets of the enemies.
/// While the melee weapon is at work, every bullet that is active, shows on
/// the screen and touches the circle of the attack loses all its health,
/// and the effect that its parameter `kill_animation` names is asked for.
pub fn update_hit_check_between_player_melee_attack_with_enemies_bullets(
    player: &Player,
    bullet_pool: &mut BulletPool,
    world: &mut World,
)
    requires
        old(bullet_pool).wf(),
    ensures
        final(bullet_pool).wf(),
        final(bullet_pool).held() == old(bullet_pool).held(),
        final(bullet_pool).total_bullets == old(bullet_pool).total_bullets,
        final(bullet_pool).pool == old(bullet_pool).pool,
        final(bullet_pool).player_active_bullets == old(bullet_pool).player_active_bullets,
        final(bullet_pool).spawned_bullet_list == old(bullet_pool).spawned_bullet_list,
        final(bullet_pool).enemy_active_bullets@.len() == old(bullet_pool).enemy_active_bullets@.len(),
        forall|i: int|
            0 <= i < final(bullet_pool).enemy_active_bullets@.len() ==> #[trigger] final(bullet_pool).enemy_active_bullets@[i] == parried(
                &old(bullet_pool).enemy_active_bullets@[i],
                player,
                old(world).camera_position,
            ),
        world_kept(old(world), final(world)),
        final(world).play_sound_nodes == old(world).play_sound_nodes,
        parry_asked(old(world), final(world), old(bullet_pool).enemy_active_bullets@, player),
{
    proof {
        assert(world.particle_spawn_nodes@.subrange(0, world.particle_spawn_nodes@.len() as int)
            == world.particle_spawn_nodes@);
    }
    match player.get_weapon_type() {
        WeaponType::Range => {
            return ;
        },
        WeaponType::Melee => {
            if !player.is_attacking() {
                return ;
            }
        },
    }
    let centre = player.get_melee_attack_position();
    let ghost bullets = bullet_pool.enemy_active_bullets@;
    let ghost camera = world.camera_position;
    let ghost mut worlds: Seq<World> = seq![*world];
    let n: usize = bullet_pool.enemy_active_bullets.len();
    let mut i: usize = 0;
    while i < n
        invariant
            i <= n,
            n == bullets.len(),
            n == bullet_pool.enemy_active_bullets@.len(),
            bullets == old(bullet_pool).enemy_active_bullets@,
            camera == old(world).camera_position,
            slashes(player),
            centre == player.melee_point(),
            bullet_pool.total_bullets == old(bullet_pool).total_bullets,
            bullet_pool.pool == old(bullet_pool).pool,
            bullet_pool.player_active_bullets == old(bullet_pool).player_active_bullets,
            bullet_pool.spawned_bullet_list == old(bullet_pool).spawned_bullet_list,
            idents(bullet_pool.enemy_active_bullets@) == idents(bullets),
            forall|k: int|
                0 <= k < i ==> #[trigger] bullet_pool.enemy_active_bullets@[k] == parried(
                    &bullets[k],
                    player,
                    camera,
                ),
            forall|k: int| i <= k < n ==> #[trigger] bullet_pool.enemy_active_bullets@[k] == bullets[k],
            world_kept(old(world), world),
            world.play_sound_nodes == old(world).play_sound_nodes,
            worlds.len() == i + 1,
            worlds[0] == *old(world),
            worlds[i as int] == *world,
            forall|k: int| 0 <= k < i ==> #[trigger] parry_step(worlds, bullets, k, player, camera),
        decreases n - i,
    {
        let reached: bool = {
            let bullet = &bullet_pool.enemy_active_bullets[i];
            bullet.active && is_inside_camera_area(
                world.camera_position,
                bullet.position,
                bullet.radius,
            ) && circles_overlap(centre, MELEE_ATTACK_RADIUS, bullet.position, bullet.radius)
        };
        let ghost world_before = *world;
        if reached {
            let ghost step_before = bullet_pool.enemy_active_bullets@;
            bullet_pool.enemy_active_bullets[i].health = 0;
            ask_effect(world, &bullet_pool.enemy_active_bullets[i], "kill_animation", false);
            proof {
                let bullet = bullet_pool.enemy_active_bullets@[i as int];
                assert(bullet_pool.enemy_active_bullets@ == step_before.update(i as int, bullet));
                lemma_bag_update(step_before, i as int, bullet);
                lemma_effect_keeps(&world_before, world, &bullet, "kill_animation"@, false);
                lemma_world_kept_twice(old(world), &world_before, world);
                assert(effect_asked(
                    &world_before,
                    world,
                    &bullets[i as int],
                    "kill_animation"@,
                    false,
                ));
            }
        }
        proof {
            let ghost longer = worlds.push(*world);
            assert forall|k: int| 0 <= k < i + 1 implies #[trigger] parry_step(
                longer,
                bullets,
                k,
                player,
                camera,
            ) by {
                if k < i {
                    assert(parry_step(worlds, bullets, k, player, camera));
                    assert(longer[k] == worlds[k] && longer[k + 1] == worlds[k + 1]);
                } else {
                    assert(longer[k] == world_before && longer[k + 1] == *world);
                }
            }
            worlds = longer;
        }
        i += 1;
    }
    proof {
        assert(bullet_pool.held() =~= old(bullet_pool).held());
        assert(parry_trace(worlds, old(world), world, bullets, player));
    }
}

/// Whether a melee attack reaches an enemy: the enemy is active, shows on
/// the screen, and its circle touches the circle of the attack.
pub open spec fn cuts(enemy: &Enemy, player: &Player, camera: Vec2) -> bool {
    &&& enemy.active
    &&& inside_camera_area(camera, enemy.position, enemy.radius)
    &&& circles_touch(player.melee_point(), MELEE_ATTACK_RADIUS, enemy.position, enemy.radius)
}

/// What a melee attack does to an enemy that it reaches: the enemy takes
/// the melee damage and starts to show the hit.
pub open spec fn cut(enemy: &Enemy, player: &Player, camera: Vec2) -> Enemy {
    if slashes(player) && cuts(enemy, player, camera) {
        Enemy {
            hit_frame: if enemy.hit_frame == 0 {
                crate::gameplay::enemy_manager::HIT_FRAMES
            } else {
                enemy.hit_frame
            },
            health: if enemy.health >= MELEE_ATTACK_DAMAGE {
                (enemy.health - MELEE_ATTACK_DAMAGE) as u32
            } else {
                0
            },
            ..*enemy
        }
    } else {
        *enemy
    }
}

/// Whether a melee attack reaches one of the first `n` enemies.
pub open spec fn cuts_any(enemies: Seq<Enemy>, n: int, player: &Player, camera: Vec2) -> bool {
    slashes(player) && exists|j: int| 0 <= j < n && cuts(#[trigger] &enemies[j], player, camera)
}

/// What a melee hit on `enemy` asks the world for, given the world in
/// between: a splash on the enemy and, early in the swing, the sound of the
/// hit.
pub open spec fn cut_asked_through(
    before: &World,
    after: &World,
    enemy: &Enemy,
    player: &Player,
    splash_world: World,
) -> bool {
    &&& splashed(before, &splash_world, enemy.splash_anchor(enemy.position), "0.9"@, 1)
    &&& if player.melee_attack_cooldown >= crate::gameplay::player::HIT_SOUND_COOLDOWN {
        &&& after.asks_for_sound(
            "melee_hit_target"@,
            "./resources/sfx/melee_hit_target.mp3"@,
            800,
        )
        &&& after.sounds_but(&splash_world, set!["melee_hit_target"@])
        &&& after.same_queues(&splash_world)
    } else {
        *after == splash_world
    }
}

/// What a melee hit on `enemy` asks the world for; see
/// `cut_asked_through`.
pub open spec fn cut_asked(before: &World, after: &World, enemy: &Enemy, player: &Player) -> bool {
    exists|splash_world: World| #[trigger]
        cut_asked_through(before, after, enemy, player, splash_world)
}

/// Whether the step from `worlds[j]` to `worlds[j + 1]` is what testing a
/// melee attack against the enemy at position `j` does to the world: an
/// enemy that is reached asks for what `cut_asked` describes, any other
/// leaves the world as it is.
pub open spec fn cut_step(
    worlds: Seq<World>,
    enemies: Seq<Enemy>,
    j: int,
    player: &Player,
    camera: Vec2,
) -> bool {
    if cuts(&enemies[j], player, camera) {
        cut_asked(&worlds[j], &worlds[j + 1], &enemies[j], player)
    } else {
        worlds[j + 1] == worlds[j]
    }
}

/// Whether `worlds` are the worlds that a melee attack passes through on
/// its way from `before` to `after` while it is tested against the enemies,
/// one after the other; see `cut_step`.
pub open spec fn cut_trace(
    worlds: Seq<World>,
    before: &World,
    after: &World,
    enemies: Seq<Enemy>,
    player: &Player,
) -> bool {
    &&& worlds.len() == enemies.len() + 1
    &&& worlds[0] == *before
    &&& worlds[enemies.len() as int] == *after
    &&& forall|j: int|
        0 <= j < enemies.len() ==> #[trigger] cut_step(
            worlds,
            enemies,
            j,
            player,
            before.camera_position,
        )
}

/// What testing the player's melee attack against the enemies does to the
/// world: nothing unless the melee weapon is at work, and else what
/// `cut_trace` describes.
pub open spec fn cuts_asked(
    before: &World,
    after: &World,
    enemies: Seq<Enemy>,
    player: &Player,
) -> bool {
    if slashes(player) {
        exists|worlds: Seq<World>| #[trigger] cut_trace(worlds, before, after, enemies, player)
    } else {
        *after == *before
    }
}

/// Tests the player's melee attack against the active enemies. While the
/// melee weapon is at work, every enemy that is active, shows on the screen
/// and touches the circle of the attack takes the melee damage, and a
/// splash is asked for on it. If any enemy was reached the player's fall
/// slows down.
pub fn update_hit_check_between_player_melee_attack_with_enemies(
    player: &mut Player,
    enemy_manager: &mut EnemyManager,
    world: &mut World,
)
    requires
        old(enemy_manager).wf(),
    ensures
        final(enemy_manager).wf(),
        final(enemy_manager).capacity == old(enemy_manager).capacity,
        final(enemy_manager).inactive_enemies == old(enemy_manager).inactive_enemies,
        final(enemy_manager).active_enemies@.len() == old(enemy_manager).active_enemies@.len(),
        forall|j: int|
            0 <= j < final(enemy_manager).active_enemies@.len() ==> #[trigger] final(enemy_manager).active_enemies@[j] == cut(
                &old(enemy_manager).active_enemies@[j],
                old(player),
                old(world).camera_position,
            ),
        *final(player) == if cuts_any(
            old(enemy_manager).active_enemies@,
            old(enemy_manager).active_enemies@.len() as int,
            old(player),
            old(world).camera_position,
        ) {
            Player { falling_slow_time: crate::gameplay::player::SLOW_FALL, ..*old(player) }
        } else {
            *old(player)
        },
        world_kept(old(world), final(world)),
        cuts_asked(old(world), final(world), old(enemy_manager).active_enemies@, old(player)),
{
    proof {
        assert(world.particle_spawn_nodes@.subrange(0, world.particle_spawn_nodes@.len() as int)
            == world.particle_spawn_nodes@);
    }
    match player.get_weapon_type() {
        WeaponType::Range => {
            return ;
        },
        WeaponType::Melee => {
            if !player.is_attacking() {
                return ;
            }
        },
    }
    let ghost enemies = enemy_manager.active_enemies@;
    let ghost camera = world.camera_position;
    let ghost mut worlds: Seq<World> = seq![*world];
    let n: usize = enemy_manager.active_enemies.len();
    let mut j: usize = 0;
    while j < n
        invariant
            j <= n,
            n == enemies.len(),
            n == enemy_manager.active_enemies@.len(),
            enemies == old(enemy_manager).active_enemies@,
            camera == old(world).camera_position,
            world.camera_position == camera,
            slashes(old(player)),
            enemy_manager.capacity == old(enemy_manager).capacity,
            enemy_manager.inactive_enemies == old(enemy_manager).inactive_enemies,
            idents(enemy_manager.active_enemies@) == idents(enemies),
            forall|k: int|
                0 <= k < j ==> #[trigger] enemy_manager.active_enemies@[k] == cut(
                    &enemies[k],
                    old(player),
                    camera,
                ),
            forall|k: int| j <= k < n ==> #[trigger] enemy_manager.active_enemies@[k] == enemies[k],
            *player == if cuts_any(enemies, j as int, old(player), camera) {
                Player { falling_slow_time: crate::gameplay::player::SLOW_FALL, ..*old(player) }
            } else {
                *old(player)
            },
            world_kept(old(world), world),
            worlds.len() == j + 1,
            worlds[0] == *old(world),
            worlds[j as int] == *world,
            forall|k: int|
                0 <= k < j ==> #[trigger] cut_step(worlds, enemies, k, old(player), camera),
        decreases n - j,
    {
        let ghost world_before = *world;
        let centre = player.get_melee_attack_position();
        let reached: bool = {
            let enemy = &enemy_manager.active_enemies[j];
            enemy.active && is_inside_camera_area(world.camera_position, enemy.position, enemy.radius)
                && circles_overlap(centre, MELEE_ATTACK_RADIUS, enemy.position, enemy.radius)
        };
        proof {
            assert(centre == old(player).melee_point());
        }
        if reached {
            let ghost step_before = enemy_manager.active_enemies@;
            let hit_position = enemy_manager.active_enemies[j].position;
            let damage = player.melee_attack_damage();
            enemy_manager.active_enemies[j].get_hit(world, hit_position, damage);
            let ghost splash_world = *world;
            player.melee_attack_hit_enemy(world);
            proof {
                let enemy = enemy_manager.active_enemies@[j as int];
                assert(enemy_manager.active_enemies@ == step_before.update(j as int, enemy));
                lemma_bag_update(step_before, j as int, enemy);
                assert(cuts(&enemies[j as int], old(player), camera));
                assert(cuts_any(enemies, j + 1, old(player), camera));
                lemma_splash_keeps(
                    &world_before,
                    &splash_world,
                    enemies[j as int].splash_anchor(hit_position),
                    "0.9"@,
                    1,
                );
                assert(world_kept(&splash_world, world)) by {
                    assert(world.particle_spawn_nodes@.subrange(
                        0,
                        splash_world.particle_spawn_nodes@.len() as int,
                    ) == splash_world.particle_spawn_nodes@);
                }
                lemma_world_kept_twice(&world_before, &splash_world, world);
                lemma_world_kept_twice(old(world), &world_before, world);
                assert(cut_asked_through(
                    &world_before,
                    world,
                    &enemies[j as int],
                    old(player),
                    splash_world,
                ));
            }
        } else {
            proof {
                if cuts_any(enemies, j + 1, old(player), camera) {
                    let k = choose|k: int|
                        0 <= k < j + 1 && cuts(#[trigger] &enemies[k], old(player), camera);
                    assert(k < j);
                }
            }
        }
        proof {
            let ghost longer = worlds.push(*world);
            assert forall|k: int| 0 <= k < j + 1 implies #[trigger] cut_step(
                longer,
                enemies,
                k,
                old(player),
                camera,
            ) by {
                if k < j {
                    assert(cut_step(worlds, enemies, k, old(player), camera));
                    assert(longer[k] == worlds[k] && longer[k + 1] == worlds[k + 1]);
                } else {
                    assert(longer[k] == world_before && longer[k + 1] == *world);
                }
            }
            worlds = longer;
        }
        j += 1;
    }
    proof {
        assert(enemy_manager.held() =~= old(enemy_manager).held());
        assert(cut_trace(worlds, old(world), world, enemies, old(player)));
    }
}

/// A bullet of the player that meets an enemy which is vulnerable all over,
/// at a distance of exactly the sum of the two radii, hits the weak point:
/// the boundary counts as a hit.
pub proof fn lemma_touching_bullet_hits(
    bullet: &Bullet,
    enemy: &Enemy,
    bank: &EnemyTypeBank,
    camera: Vec2,
    distance: int,
)
    requires
        meet(bullet, enemy, camera),
        bank.types@.contains_key(enemy.enemy_type),
        !(bank.types@[enemy.enemy_type] is Spawner),
        distance == bullet.radius + enemy.radius,
        dist_sq(
            enemy.position.x as int,
            enemy.position.y as int,
            bullet.position.x as int,
            bullet.position.y as int,
        ) == distance * distance,
    ensures
        strike_of(bullet, enemy, bank, camera) == HIT_WEAKPOINT,
{
    crate::gameplay::utils::lemma_boundary_counts(
        enemy.position,
        enemy.radius,
        bullet.position,
        bullet.radius,
        distance,
    );
}

/// A melee attack reaches an active enemy on the screen whose centre is
/// exactly as far from the centre of the attack as the radius of the attack
/// and the enemy's radius together; it does not reach an enemy that is any
/// further away.
pub proof fn lemma_melee_boundary(player: &Player, enemy: &Enemy, camera: Vec2, distance: int)
    requires
        enemy.active,
        inside_camera_area(camera, enemy.position, enemy.radius),
        distance >= 0,
        dist_sq(
            player.melee_point().x as int,
            player.melee_point().y as int,
            enemy.position.x as int,
            enemy.position.y as int,
        ) == distance * distance,
    ensures
        distance == MELEE_ATTACK_RADIUS + enemy.radius ==> cuts(enemy, player, camera),
        distance > MELEE_ATTACK_RADIUS + enemy.radius ==> !cuts(enemy, player, camera),
{
    crate::gameplay::utils::lemma_boundary_counts(
        player.melee_point(),
        MELEE_ATTACK_RADIUS,
        enemy.position,
        enemy.radius,
        distance,
    );
}

/// The stages of a session.
#[derive(Clone, Copy, Debug, PartialEq, Eq, Structural)]
pub enum GamePlayState {
    /// Files are being loaded.
    Loading,
    /// Everything is loaded; the session is set up in the next tick.
    Preparing,
    Playing,
    LevelCleared,
    GameOver,
}

/// Distance the camera travels per tick, along each axis.
pub const CAMERA_SPEED: i32 = 2_000;

/// Milliseconds the camera waits at the start and at the end of the level.
pub const LEVEL_WAIT: u128 = 1500;

/// Height at which the camera travels.
pub const CAMERA_HEIGHT: i32 = -72_000;

/// Number of bullets of a session.
pub const BULLETS: i32 = 500;

/// A session: the player, the level, every pool and bank, and the tables
/// they share.
pub struct GamePlayScene {
    /// Whether the camera has arrived at its target.
    pub reach_camera_target: bool,
    pub camera_target_position: Vec2,
    pub camera_position: Vec2,
    pub player: Player,
    pub image_assets: ImageAssets,
    pub state: GamePlayState,
    pub enemy_manager: EnemyManager,
    pub particle_manager: ParticleManager,
    pub level: Level,
    /// Milliseconds the camera still waits at the cleared node.
    pub waiting_time: u128,
    pub world: World,
    pub bullet_pool: BulletPool,
    pub bullet_type_bank: BulletTypeBank,
    pub enemy_type_bank: EnemyTypeBank,
    pub particle_type_bank: ParticleTypeBank,
}

/// A coordinate one tick of travel nearer to `target`.
pub open spec fn approached(from: i32, target: i32) -> i32 {
    if from < target {
        crate::gameplay::utils::saturate(from + CAMERA_SPEED) as i32
    } else if from > target {
        crate::gameplay::utils::saturate(from - CAMERA_SPEED) as i32
    } else {
        from
    }
}

fn approach(from: i32, target: i32) -> (next: i32)
    ensures
        next == approached(from, target),
{
    if from < target {
        crate::gameplay::utils::saturate_i64(from as i64 + CAMERA_SPEED as i64)
    } else if from > target {
        crate::gameplay::utils::saturate_i64(from as i64 - CAMERA_SPEED as i64)
    } else {
        from
    }
}

impl GamePlayScene {
    /// Every pool of the session holds each of its records in exactly one
    /// place, and no bullet is handed out.
    pub open spec fn wf(&self) -> bool {
        &&& self.bullet_pool.complete()
        &&& self.enemy_manager.wf()
        &&& self.particle_manager.wf()
    }

    /// Pool conservation. While the session is well formed, every pool
    /// holds, over all its lists together, as many records as it was made
    /// with.
    pub proof fn lemma_pool_conservation(&self)
        requires
            self.wf(),
        ensures
            self.bullet_pool.count() == self.bullet_pool.capacity(),
            self.enemy_manager.count() == self.enemy_manager.capacity,
            self.particle_manager.count() == self.particle_manager.capacity,
    {
        self.bullet_pool.lemma_conservation();
        self.enemy_manager.lemma_conservation();
        self.particle_manager.lemma_conservation();
    }

    /// Exclusive membership. While the session is well formed, every record
    /// of a pool is in exactly one of the pool's lists, at one place: over
    /// all lists of its pool together, each identity below the capacity
    /// occurs exactly once.
    pub proof fn lemma_exclusive_membership(&self, id: nat)
        requires
            self.wf(),
        ensures
            self.bullet_pool.held().count(id) == if id < self.bullet_pool.capacity() {
                1nat
            } else {
                0nat
            },
            self.enemy_manager.held().count(id) == if id < self.enemy_manager.capacity {
                1nat
            } else {
                0nat
            },
            self.particle_manager.held().count(id) == if id < self.particle_manager.capacity {
                1nat
            } else {
                0nat
            },
    {
        crate::gameplay::pool::lemma_full_bag(self.bullet_pool.capacity());
        crate::gameplay::pool::lemma_full_bag(self.enemy_manager.capacity as nat);
        crate::gameplay::pool::lemma_full_bag(self.particle_manager.capacity as nat);
    }

    /// The camera one tick of travel nearer to its target. It has arrived
    /// when it is within one tick of travel of the target, and then stands
    /// on the target.
    pub open spec fn camera_after(&self) -> Vec2 {
        let x = approached(self.camera_position.x, self.camera_target_position.x);
        let y = approached(self.camera_position.y, self.camera_target_position.y);
        if self.camera_arrives() {
            self.camera_target_position
        } else {
            Vec2 { x, y }
        }
    }

    /// Whether the travelling camera arrives in this tick.
    pub open spec fn camera_arrives(&self) -> bool {
        let x = approached(self.camera_position.x, self.camera_target_position.x);
        let y = approached(self.camera_position.y, self.camera_target_position.y);
        dist_sq(
            x as int,
            y as int,
            self.camera_target_position.x as int,
            self.camera_target_position.y as int,
        ) <= CAMERA_SPEED * CAMERA_SPEED
    }

    /// Moves the camera towards its target, unless it has arrived, and
    /// tells the world where it is.
    fn update_camera_position(&mut self)
        ensures
            camera_stepped(old(self), final(self)),
    {
        if !self.reach_camera_target {
            let target = self.camera_target_position;
            self.camera_position.x = approach(self.camera_position.x, target.x);
            self.camera_position.y = approach(self.camera_position.y, target.y);
            let distance = crate::gameplay::utils::distance_sqr_between(
                self.camera_position,
                target,
            );
            if distance <= (CAMERA_SPEED as i128) * (CAMERA_SPEED as i128) {
                self.reach_camera_target = true;
                self.camera_position = target;
            }
            self.world.camera_position = self.camera_position;
        }
    }

    /// Whether the two scenes agree in everything but the camera and the
    /// world.
    pub open spec fn same_but_camera(&self, other: &GamePlayScene) -> bool {
        &&& self.camera_target_position == other.camera_target_position
        &&& self.player == other.player
        &&& self.image_assets == other.image_assets
        &&& self.state == other.state
        &&& self.enemy_manager == other.enemy_manager
        &&& self.particle_manager == other.particle_manager
        &&& self.level == other.level
        &&& self.waiting_time == other.waiting_time
        &&& self.bullet_pool == other.bullet_pool
        &&& self.bullet_type_bank == other.bullet_type_bank
        &&& self.enemy_type_bank == other.enemy_type_bank
        &&& self.particle_type_bank == other.particle_type_bank
    }

    /// Whether the node is cleared: the camera has arrived, no enemy is
    /// active, and the level has nothing left to spawn.
    pub open spec fn node_cleared(&self) -> bool {
        &&& self.reach_camera_target
        &&& self.enemy_manager.active_enemies@.len() == 0
        &&& self.level.spawn_queue_empty()
    }

    /// Whether the two scenes agree in everything but the travel from node
    /// to node: the bound of the camera, the wait, and the level.
    pub open spec fn same_but_travel(&self, other: &GamePlayScene) -> bool {
        &&& self.camera_position == other.camera_position
        &&& self.player == other.player
        &&& self.image_assets == other.image_assets
        &&& self.state == other.state
        &&& self.enemy_manager == other.enemy_manager
        &&& self.particle_manager == other.particle_manager
        &&& self.world == other.world
        &&& self.bullet_pool == other.bullet_pool
        &&& self.bullet_type_bank == other.bullet_type_bank
        &&& self.enemy_type_bank == other.enemy_type_bank
        &&& self.particle_type_bank == other.particle_type_bank
    }

    /// Moves on to the next node when the current one is cleared and the
    /// wait after clearing it is over.
    ///
    /// While the node is not cleared nothing changes. While it is cleared
    /// and the wait is not over, the wait runs down by a tick. When the wait
    /// is over the node that follows becomes the current node: the camera is
    /// bound for it, its schedule is taken up, and its wait is set. If no
    /// node follows, the level has no current node from then on.
    fn fetching_next_camera_target(&mut self)
        ensures
            travelled(old(self), final(self)),
    {
        if self.reach_camera_target {
            if !self.enemy_manager.has_active_enemy() && self.level.is_spawn_queue_empty() {
                if self.waiting_time == 0 {
                    let next: Option<(Vec2, u128, String)> = match self.level.get_next_node() {
                        Some(node) => Some((node.position, node.waiting_time, node.name.clone())),
                        None => None,
                    };
                    match next {
                        Some((position, waiting_time, name)) => {
                            self.camera_target_position = position;
                            self.reach_camera_target = false;
                            self.waiting_time = waiting_time;
                            self.level.set_current_node(name.as_str());
                        },
                        None => {
                            self.level.set_current_node("");
                            self.waiting_time = LEVEL_WAIT;
                        },
                    }
                } else {
                    self.waiting_time = crate::tick_down(self.waiting_time);
                }
            }
        }
    }
}

/// What a tick does to the camera: unless it has arrived, it moves towards
/// its target and tells the world where it is; see
/// `GamePlayScene::camera_after`.
pub open spec fn camera_stepped(before: &GamePlayScene, after: &GamePlayScene) -> bool {
    &&& after.same_but_camera(before)
    &&& if before.reach_camera_target {
        &&& after.reach_camera_target
        &&& after.camera_position == before.camera_position
        &&& after.world == before.world
    } else {
        &&& after.reach_camera_target == before.camera_arrives()
        &&& after.camera_position == before.camera_after()
        &&& after.world.camera_position == before.camera_after()
        &&& after.world.bullet_spawn_nodes == before.world.bullet_spawn_nodes
        &&& after.world.enemy_spawn_nodes == before.world.enemy_spawn_nodes
        &&& after.world.particle_spawn_nodes == before.world.particle_spawn_nodes
        &&& after.world.play_sound_nodes == before.world.play_sound_nodes
    }
}

/// What the end of a tick does to the travel from node to node.
///
/// While the node is not cleared nothing changes. While it is cleared and
/// the wait is not over, the wait runs down by a tick. When the wait is over
/// the node that follows becomes the current node: the camera is bound for
/// it, its schedule is taken up, and its wait is set. If no node follows,
/// the level has no current node from then on.
pub open spec fn travelled(before: &GamePlayScene, after: &GamePlayScene) -> bool {
    &&& after.same_but_travel(before)
    &&& !before.node_cleared() ==> *after == *before
    &&& before.node_cleared() && before.waiting_time != 0 ==> {
        &&& after.waiting_time == crate::tick_down_spec(before.waiting_time)
        &&& after.level == before.level
        &&& after.reach_camera_target
        &&& after.camera_target_position == before.camera_target_position
    }
    &&& before.node_cleared() && before.waiting_time == 0 ==> {
        let level = before.level;
        let here = level.current_name();
        if level.all_nodes@.contains_key(here) && level.all_nodes@[here].next_node is Some
            && level.all_nodes@.contains_key(level.all_nodes@[here].next_node->0@) {
            let next = level.all_nodes@[level.all_nodes@[here].next_node->0@];
            &&& after.camera_target_position == next.position
            &&& !after.reach_camera_target
            &&& after.waiting_time == next.waiting_time
            &&& after.level.same_but_node(&level)
            &&& if level.all_nodes@.contains_key(next.name@) {
                &&& after.level.current_name() == next.name@
                &&& after.level.pending() == level.all_nodes@[next.name@].spawn_patterns@
                &&& after.level.is_start
            } else {
                after.level.current_camera_target_node_name is None
            }
        } else {
            &&& after.camera_target_position == before.camera_target_position
            &&& after.reach_camera_target
            &&& after.waiting_time == LEVEL_WAIT
            &&& after.level.same_but_node(&level)
        }
    }
}

/// What serving the queue of enemy requests does to a session; see
/// `enemies_served`. If no request is waiting and the level is cleared, the
/// session enters that state.
pub open spec fn enemies_spawned(
    before: &GamePlayScene,
    after: &GamePlayScene,
    outcome: Result<(), ExtraError>,
) -> bool {
    &&& after.same_but_entities(before)
    &&& after.player == before.player
    &&& after.bullet_pool == before.bullet_pool
    &&& after.particle_manager == before.particle_manager
    &&& after.particle_type_bank == before.particle_type_bank
    &&& after.level == before.level
    &&& after.enemy_manager.capacity == before.enemy_manager.capacity
    &&& after.world.enemy_spawn_nodes@.len() == 0
    &&& after.world.camera_position == before.world.camera_position
    &&& after.state == if before.level_cleared() {
        GamePlayState::LevelCleared
    } else {
        before.state
    }
    &&& if before.world.enemy_spawn_nodes@.len() == 0 {
        &&& outcome is Ok
        &&& after.enemy_manager == before.enemy_manager
        &&& after.world == before.world
    } else {
        crate::gameplay::enemy_manager::enemies_served(
            &before.enemy_manager,
            &after.enemy_manager,
            &before.world,
            &after.world,
            before.world.enemy_spawn_nodes@,
            &before.enemy_type_bank,
            &before.image_assets,
            outcome,
        )
    }
}

/// What its step of a tick does to the player of a session; see
/// `player_ticked`.
pub open spec fn player_stepped(
    before: &GamePlayScene,
    after: &GamePlayScene,
    keys: KeyStates,
) -> bool {
    &&& after.same_but_entities(before)
    &&& after.level == before.level
    &&& after.state == before.state
    &&& after.enemy_manager == before.enemy_manager
    &&& after.particle_manager == before.particle_manager
    &&& after.particle_type_bank == before.particle_type_bank
    &&& after.bullet_pool == before.bullet_pool
    &&& crate::gameplay::player::player_ticked(
        &before.player,
        &after.player,
        &before.world,
        &after.world,
        keys,
        &before.image_assets,
    )
}

/// What their step of a tick does to the enemies of a session: they aim at
/// the player's hit point; see `swept`.
pub open spec fn enemies_stepped(before: &GamePlayScene, after: &GamePlayScene) -> bool {
    &&& after.same_but_entities(before)
    &&& after.level == before.level
    &&& after.state == before.state
    &&& after.player == before.player
    &&& after.particle_manager == before.particle_manager
    &&& after.particle_type_bank == before.particle_type_bank
    &&& after.bullet_pool == before.bullet_pool
    &&& after.enemy_manager.capacity == before.enemy_manager.capacity
    &&& after.world.camera_position == before.world.camera_position
    &&& crate::gameplay::enemy_manager::swept(
        &before.enemy_manager,
        &after.enemy_manager,
        &before.world,
        &after.world,
        before.player.hit_point(),
        &before.enemy_type_bank,
        &before.image_assets,
    )
    &&& after.enemy_manager.inactive_enemies@.subrange(
        0,
        before.enemy_manager.inactive_enemies@.len() as int,
    ) == before.enemy_manager.inactive_enemies@
    &&& forall|k: int|
        before.enemy_manager.inactive_enemies@.len() <= k
            < after.enemy_manager.inactive_enemies@.len() ==> (
        #[trigger] after.enemy_manager.inactive_enemies@[k]).blank()
}

/// What their step of a tick does to the particles of a session; see
/// `particles_ticked`.
pub open spec fn particles_stepped(
    before: &GamePlayScene,
    after: &GamePlayScene,
    outcome: Result<(), ExtraError>,
) -> bool {
    &&& after.same_but_entities(before)
    &&& after.level == before.level
    &&& after.state == before.state
    &&& after.player == before.player
    &&& after.enemy_manager == before.enemy_manager
    &&& after.bullet_pool == before.bullet_pool
    &&& crate::gameplay::particle_manager::particles_ticked(
        &before.particle_manager,
        &after.particle_manager,
        &before.world,
        &after.world,
        &before.particle_type_bank,
        &after.particle_type_bank,
        &before.image_assets,
        outcome,
    )
}

/// What their step of a tick does to the bullets of one side of a session;
/// `of_enemies` names the side. See `swept`.
pub open spec fn bullets_stepped(
    before: &GamePlayScene,
    after: &GamePlayScene,
    of_enemies: bool,
) -> bool {
    let flying_before = if of_enemies {
        before.bullet_pool.enemy_active_bullets@
    } else {
        before.bullet_pool.player_active_bullets@
    };
    let flying = if of_enemies {
        after.bullet_pool.enemy_active_bullets@
    } else {
        after.bullet_pool.player_active_bullets@
    };
    &&& after.same_but_entities(before)
    &&& after.level == before.level
    &&& after.state == before.state
    &&& after.player == before.player
    &&& after.enemy_manager == before.enemy_manager
    &&& after.particle_manager == before.particle_manager
    &&& after.particle_type_bank == before.particle_type_bank
    &&& after.world == before.world
    &&& after.bullet_pool.total_bullets == before.bullet_pool.total_bullets
    &&& after.bullet_pool.spawned_bullet_list == before.bullet_pool.spawned_bullet_list
    &&& of_enemies ==> after.bullet_pool.player_active_bullets
        == before.bullet_pool.player_active_bullets
    &&& !of_enemies ==> after.bullet_pool.enemy_active_bullets
        == before.bullet_pool.enemy_active_bullets
    &&& crate::gameplay::bullet_pool::swept(
        flying_before,
        flying,
        before.bullet_pool.pool@,
        after.bullet_pool.pool@,
        &before.bullet_type_bank,
        before.world.camera_position,
    )
    &&& after.bullet_pool.pool@.subrange(0, before.bullet_pool.pool@.len() as int)
        == before.bullet_pool.pool@
    &&& forall|k: int|
        before.bullet_pool.pool@.len() <= k < after.bullet_pool.pool@.len() ==> (
        #[trigger] after.bullet_pool.pool@[k]).blank()
}

/// What the part of a tick does that every stage of a running session
/// shares, given the scenes between its steps: the player, the enemies, the
/// particles, the bullets of the enemies and the bullets of the player make
/// their steps, in this order. An error of the particles ends the tick.
pub open spec fn entities_stepped_through(
    before: &GamePlayScene,
    after: &GamePlayScene,
    keys: KeyStates,
    outcome: Result<(), ExtraError>,
    moved: GamePlayScene,
    hunted: GamePlayScene,
    sparkled: GamePlayScene,
    shot: GamePlayScene,
) -> bool {
    &&& player_stepped(before, &moved, keys)
    &&& enemies_stepped(&moved, &hunted)
    &&& particles_stepped(&hunted, &sparkled, outcome)
    &&& match outcome {
        Ok(_) => bullets_stepped(&sparkled, &shot, true) && bullets_stepped(&shot, after, false),
        Err(_) => *after == sparkled,
    }
}

/// What the part of a tick does that every stage of a running session
/// shares; see `entities_stepped_through`.
pub open spec fn entities_stepped(
    before: &GamePlayScene,
    after: &GamePlayScene,
    keys: KeyStates,
    outcome: Result<(), ExtraError>,
) -> bool {
    exists|moved: GamePlayScene, hunted: GamePlayScene, sparkled: GamePlayScene, shot: GamePlayScene|
     #[trigger]
        entities_stepped_through(before, after, keys, outcome, moved, hunted, sparkled, shot)
}

/// What the level's step of a tick does to a session; see `level_ticked`.
pub open spec fn level_stepped(before: &GamePlayScene, after: &GamePlayScene) -> bool {
    &&& after.same_but_entities(before)
    &&& after.state == before.state
    &&& after.player == before.player
    &&& after.enemy_manager == before.enemy_manager
    &&& after.particle_manager == before.particle_manager
    &&& after.particle_type_bank == before.particle_type_bank
    &&& after.bullet_pool == before.bullet_pool
    &&& crate::gameplay::level::level_ticked(
        &before.level,
        &after.level,
        &before.world,
        &after.world,
    )
}

/// What serving the queue of bullet requests does to a session; see
/// `bullets_spawned`.
pub open spec fn bullets_served(
    before: &GamePlayScene,
    after: &GamePlayScene,
    outcome: Result<(), ExtraError>,
) -> bool {
    &&& after.reach_camera_target == before.reach_camera_target
    &&& after.camera_target_position == before.camera_target_position
    &&& after.camera_position == before.camera_position
    &&& after.image_assets == before.image_assets
    &&& after.waiting_time == before.waiting_time
    &&& after.enemy_type_bank == before.enemy_type_bank
    &&& after.level == before.level
    &&& after.state == before.state
    &&& after.player == before.player
    &&& after.enemy_manager == before.enemy_manager
    &&& after.particle_manager == before.particle_manager
    &&& after.particle_type_bank == before.particle_type_bank
    &&& crate::gameplay::bullet_pool::bullets_spawned(
        &before.bullet_pool,
        &after.bullet_pool,
        &before.world,
        &after.world,
        &before.bullet_type_bank,
        &after.bullet_type_bank,
        &before.image_assets,
        outcome,
    )
}

/// What the end of the spawning does to the stage of a session: with a dead
/// player the game is over.
pub open spec fn judged(before: &GamePlayScene, after: &GamePlayScene) -> bool {
    *after == (GamePlayScene {
        state: if before.player.is_dead {
            GamePlayState::GameOver
        } else {
            before.state
        },
        ..*before
    })
}

/// A tick of a session that is being played, given the scenes between its
/// parts.
///
/// The camera travels. The player, the enemies, the particles and the
/// bullets make their steps. The level lets its patterns run, and the
/// enemies and bullets that were asked for are spawned. If the player is
/// dead the game is over. Then the hits are resolved, and the level moves on
/// to the next node if the current one is cleared.
///
/// Malformed parameters of a request end the tick with their error, in the
/// state that the part left in which they were found.
pub open spec fn played_through(
    before: &GamePlayScene,
    after: &GamePlayScene,
    keys: KeyStates,
    outcome: Result<(), ExtraError>,
    filmed: GamePlayScene,
    stepped: GamePlayScene,
    scheduled: GamePlayScene,
    manned: GamePlayScene,
    armed: GamePlayScene,
    judged_scene: GamePlayScene,
    fought: GamePlayScene,
) -> bool {
    &&& camera_stepped(before, &filmed)
    &&& match outcome {
        Ok(_) => {
            &&& entities_stepped(&filmed, &stepped, keys, outcome)
            &&& level_stepped(&stepped, &scheduled)
            &&& enemies_spawned(&scheduled, &manned, outcome)
            &&& bullets_served(&manned, &armed, outcome)
            &&& judged(&armed, &judged_scene)
            &&& hits_resolved(&judged_scene, &fought)
            &&& travelled(&fought, after)
        },
        Err(_) => {
            ||| entities_stepped(&filmed, after, keys, outcome)
            ||| {
                &&& entities_stepped(&filmed, &stepped, keys, Ok::<(), ExtraError>(()))
                &&& level_stepped(&stepped, &scheduled)
                &&& enemies_spawned(&scheduled, after, outcome)
            }
            ||| {
                &&& entities_stepped(&filmed, &stepped, keys, Ok::<(), ExtraError>(()))
                &&& level_stepped(&stepped, &scheduled)
                &&& enemies_spawned(&scheduled, &manned, Ok::<(), ExtraError>(()))
                &&& bullets_served(&manned, after, outcome)
            }
        },
    }
}

/// A tick of a session that is being played; see `played_through`.
pub open spec fn played(
    before: &GamePlayScene,
    after: &GamePlayScene,
    keys: KeyStates,
    outcome: Result<(), ExtraError>,
) -> bool {
    exists|
        filmed: GamePlayScene,
        stepped: GamePlayScene,
        scheduled: GamePlayScene,
        manned: GamePlayScene,
        armed: GamePlayScene,
        judged_scene: GamePlayScene,
        fought: GamePlayScene,
    | #[trigger]
        played_through(
            before,
            after,
            keys,
            outcome,
            filmed,
            stepped,
            scheduled,
            manned,
            armed,
            judged_scene,
            fought,
        )
}

/// What setting a session up does: the banks get the behaviours of the
/// game, the player its idle animation if the assets hold it, the level
/// starts at the node `start`, the camera of the scene is where the world
/// has it, and the game is being played.
pub open spec fn made_ready(before: &GamePlayScene, after: &GamePlayScene) -> bool {
    &&& after.state == GamePlayState::Playing
    &&& after.reach_camera_target == before.reach_camera_target
    &&& after.camera_target_position == before.camera_target_position
    &&& after.camera_position == before.world.camera_position
    &&& after.image_assets == before.image_assets
    &&& after.waiting_time == before.waiting_time
    &&& after.world == before.world
    &&& after.bullet_pool == before.bullet_pool
    &&& after.enemy_manager == before.enemy_manager
    &&& after.particle_manager == before.particle_manager
    &&& after.bullet_type_bank.types@ == before.bullet_type_bank.types@.insert(
        1,
        crate::gameplay::bullet_pool::BulletType::ConstantVelocity(
            crate::gameplay::bullet_types::constant_velocity::ConstantVelocityBulletType {  },
        ),
    )
    &&& forall|n: i32|
        after.enemy_type_bank.types@.contains_key(n) <==> before.enemy_type_bank.types@.contains_key(
            n,
        ) || 0 <= n <= 3
    &&& forall|n: i32| 0 <= n <= 3 ==> (#[trigger] after.enemy_type_bank.types@[n]).type_id() == n
    &&& forall|n: i32|
        before.enemy_type_bank.types@.contains_key(n) && !(0 <= n <= 3)
            ==> after.enemy_type_bank.types@[n] == before.enemy_type_bank.types@[n]
    &&& after.particle_type_bank.types@.dom() == before.particle_type_bank.types@.dom().insert(1)
    &&& after.particle_type_bank.types@[1] is Explosion
    &&& forall|k: u128|
        k != 1 && before.particle_type_bank.types@.contains_key(k)
            ==> after.particle_type_bank.types@[k] == before.particle_type_bank.types@[k]
    &&& after.player.same_body(&before.player)
    &&& after.player.slash == before.player.slash
    &&& crate::gameplay::player::plays_if_held(
        &before.player.skin,
        &after.player.skin,
        "player-stand"@,
        &before.image_assets,
    )
    &&& after.level.same_but_node(&before.level)
    &&& if before.level.all_nodes@.contains_key("start"@) {
        &&& after.level.current_camera_target_node_name is Some
        &&& after.level.current_name() == "start"@
        &&& after.level.pending() == before.level.all_nodes@["start"@].spawn_patterns@
        &&& after.level.is_start
    } else {
        &&& after.level.current_camera_target_node_name is None
        &&& after.level.current_node_spawn_patterns == before.level.current_node_spawn_patterns
        &&& after.level.is_start == before.level.is_start
    }
}

/// One tick of a session, whatever its stage.
///
/// While files are being loaded nothing happens; once none is left the
/// session gets ready to be set up. The tick after that sets it up and
/// starts the game; see `made_ready`. While the game is played a tick is
/// what `played` describes. After the level is cleared or the game is over,
/// the player, the enemies, the particles and the bullets still make their
/// steps; see `entities_stepped`.
pub open spec fn scene_ticked(
    before: &GamePlayScene,
    after: &GamePlayScene,
    keys: KeyStates,
    outcome: Result<(), ExtraError>,
) -> bool {
    match before.state {
        GamePlayState::Loading => {
            &&& outcome is Ok
            &&& *after == (GamePlayScene {
                state: if before.image_assets.waiting().len() > 0 {
                    GamePlayState::Loading
                } else {
                    GamePlayState::Preparing
                },
                ..*before
            })
        },
        GamePlayState::Preparing => outcome is Ok && made_ready(before, after),
        GamePlayState::Playing => played(before, after, keys, outcome),
        GamePlayState::LevelCleared => entities_stepped(before, after, keys, outcome),
        GamePlayState::GameOver => entities_stepped(before, after, keys, outcome),
    }
}

impl GamePlayScene {
    /// Whether the level is cleared: nothing waits to be spawned, no enemy
    /// is active, and the level has no current node left.
    pub open spec fn level_cleared(&self) -> bool {
        &&& self.world.enemy_spawn_nodes@.len() == 0
        &&& self.level.spawn_queue_empty()
        &&& self.enemy_manager.active_enemies@.len() == 0
        &&& !self.level.all_nodes@.contains_key(self.level.current_name())
    }

    /// Serves the enemy requests that are waiting; see
    /// `EnemyManager::spawn_enemies_from_queue`. If none is waiting and
    /// the level is cleared, the session enters that state.
    fn spawn_enemy_in_the_queue(&mut self) -> (outcome: Result<(), ExtraError>)
        requires
            old(self).enemy_manager.wf(),
        ensures
            final(self).enemy_manager.wf(),
            final(self).enemy_manager.capacity == old(self).enemy_manager.capacity,
            final(self).world.enemy_spawn_nodes@.len() == 0,
            final(self).world.camera_position == old(self).world.camera_position,
            final(self).bullet_pool == old(self).bullet_pool,
            final(self).particle_manager == old(self).particle_manager,
            final(self).player == old(self).player,
            final(self).level == old(self).level,
            final(self).camera_position == old(self).camera_position,
            final(self).camera_target_position == old(self).camera_target_position,
            final(self).reach_camera_target == old(self).reach_camera_target,
            final(self).waiting_time == old(self).waiting_time,
            final(self).state == if old(self).level_cleared() {
                GamePlayState::LevelCleared
            } else {
                old(self).state
            },
            old(self).world.enemy_spawn_nodes@.len() == 0 ==> outcome is Ok
                && final(self).enemy_manager == old(self).enemy_manager && final(self).world
                == old(self).world,
            enemies_spawned(old(self), final(self), outcome),
    {
        if self.world.enemy_spawn_nodes.len() > 0 {
            proof {
                // A level that waits for enemies is not cleared.
                assert(!self.level_cleared());
            }
            self.enemy_manager.spawn_enemies_from_queue(
                &self.enemy_type_bank,
                &mut self.world,
                &self.image_assets,
            )
        } else {
            if self.level.is_spawn_queue_empty() && !self.enemy_manager.has_active_enemy()
                && self.level.get_current_node().is_none() {
                self.state = GamePlayState::LevelCleared;
            }
            Ok(())
        }
    }

    /// Resolves the hits of a tick, in this order: bullets of the player
    /// against enemies, the player against enemies, the player against
    /// bullets of the enemies, the melee attack against bullets of the
    /// enemies, and the melee attack against enemies.
    fn call_hit_checks(&mut self)
        requires
            old(self).bullet_pool.wf(),
            old(self).enemy_manager.wf(),
        ensures
            final(self).bullet_pool.wf(),
            final(self).bullet_pool.held() == old(self).bullet_pool.held(),
            final(self).bullet_pool.total_bullets == old(self).bullet_pool.total_bullets,
            final(self).bullet_pool.spawned_bullet_list == old(self).bullet_pool.spawned_bullet_list,
            final(self).enemy_manager.wf(),
            final(self).enemy_manager.capacity == old(self).enemy_manager.capacity,
            final(self).enemy_manager.active_enemies@.len() == old(self).enemy_manager.active_enemies@.len(),
            final(self).world.camera_position == old(self).world.camera_position,
            final(self).world.bullet_spawn_nodes == old(self).world.bullet_spawn_nodes,
            final(self).world.enemy_spawn_nodes == old(self).world.enemy_spawn_nodes,
            final(self).particle_manager == old(self).particle_manager,
            final(self).level == old(self).level,
            final(self).state == old(self).state,
            final(self).camera_position == old(self).camera_position,
            final(self).camera_target_position == old(self).camera_target_position,
            final(self).reach_camera_target == old(self).reach_camera_target,
            final(self).waiting_time == old(self).waiting_time,
            final(self).player.health <= old(self).player.health,
            final(self).player.is_dead == old(self).player.is_dead,
            final(self).player.position == old(self).player.position,
            hits_resolved(old(self), final(self)),
    {
        update_hit_check_between_player_bullet_and_enemies(
            &mut self.bullet_pool,
            &mut self.enemy_manager,
            &self.enemy_type_bank,
            &mut self.world,
        );
        let ghost first = *self;
        update_hit_check_between_player_and_enemies(
            &mut self.player,
            &self.enemy_manager,
            &mut self.world,
        );
        assert(player_kept(&old(self).player, &self.player));
        let ghost second = *self;
        update_hit_check_between_player_and_enemies_bullets(
            &mut self.player,
            &mut self.bullet_pool,
            &mut self.world,
        );
        assert(player_kept(&second.player, &self.player));
        let ghost third = *self;
        update_hit_check_between_player_melee_attack_with_enemies_bullets(
            &self.player,
            &mut self.bullet_pool,
            &mut self.world,
        );
        let ghost fourth = *self;
        update_hit_check_between_player_melee_attack_with_enemies(
            &mut self.player,
            &mut self.enemy_manager,
            &mut self.world,
        );
        proof {
            assert(bullets_met_enemies(old(self), &first));
            assert(player_met_enemies(&first, &second));
            assert(player_met_bullets(&second, &third));
            assert(melee_met_bullets(&third, &fourth));
            assert(melee_met_enemies(&fourth, self));
            assert(hits_resolved_through(old(self), self, first, second, third, fourth));
        }
    }
}

impl GamePlayScene {
    /// Whether the two scenes agree in everything that a hit check leaves
    /// alone: all but the player, the bullets, the enemies and the world.
    pub open spec fn same_but_fight(&self, other: &GamePlayScene) -> bool {
        &&& self.reach_camera_target == other.reach_camera_target
        &&& self.camera_target_position == other.camera_target_position
        &&& self.camera_position == other.camera_position
        &&& self.image_assets == other.image_assets
        &&& self.state == other.state
        &&& self.particle_manager == other.particle_manager
        &&& self.level == other.level
        &&& self.waiting_time == other.waiting_time
        &&& self.bullet_type_bank == other.bullet_type_bank
        &&& self.enemy_type_bank == other.enemy_type_bank
        &&& self.particle_type_bank == other.particle_type_bank
    }

    /// Whether the two scenes agree in everything that the steps of the
    /// entities leave alone: all but the player, the level, the stage, the
    /// pools, the bank of the particles and the world.
    pub open spec fn same_but_entities(&self, other: &GamePlayScene) -> bool {
        &&& self.reach_camera_target == other.reach_camera_target
        &&& self.camera_target_position == other.camera_target_position
        &&& self.camera_position == other.camera_position
        &&& self.image_assets == other.image_assets
        &&& self.waiting_time == other.waiting_time
        &&& self.bullet_type_bank == other.bullet_type_bank
        &&& self.enemy_type_bank == other.enemy_type_bank
    }

    /// Whether the two scenes agree in every list of bullets but the list
    /// named; `of_enemies` names the list of the enemies' bullets.
    pub open spec fn same_bullets_but(&self, other: &GamePlayScene, of_enemies: bool) -> bool {
        &&& self.bullet_pool.total_bullets == other.bullet_pool.total_bullets
        &&& self.bullet_pool.pool == other.bullet_pool.pool
        &&& self.bullet_pool.spawned_bullet_list == other.bullet_pool.spawned_bullet_list
        &&& of_enemies ==> self.bullet_pool.player_active_bullets
            == other.bullet_pool.player_active_bullets
        &&& !of_enemies ==> self.bullet_pool.enemy_active_bullets
            == other.bullet_pool.enemy_active_bullets
    }
}

/// The first hit check: the bullets of the player against the enemies; see
/// `barrage`.
pub open spec fn bullets_met_enemies(before: &GamePlayScene, after: &GamePlayScene) -> bool {
    &&& after.same_but_fight(before)
    &&& after.player == before.player
    &&& after.same_bullets_but(before, false)
    &&& after.enemy_manager.capacity == before.enemy_manager.capacity
    &&& after.enemy_manager.inactive_enemies == before.enemy_manager.inactive_enemies
    &&& (after.bullet_pool.player_active_bullets@, after.enemy_manager.active_enemies@) == barrage(
        before.bullet_pool.player_active_bullets@,
        before.enemy_manager.active_enemies@,
        before.bullet_pool.player_active_bullets@.len() as int,
        &before.enemy_type_bank,
        before.world.camera_position,
    )
    &&& barrage_asked(
        &before.world,
        &after.world,
        before.bullet_pool.player_active_bullets@,
        before.enemy_manager.active_enemies@,
        &before.enemy_type_bank,
    )
}

/// The second hit check: the player against the enemies. If an enemy on the
/// screen touches the player, the player takes the contact damage.
pub open spec fn player_met_enemies(before: &GamePlayScene, after: &GamePlayScene) -> bool {
    &&& after.same_but_fight(before)
    &&& after.bullet_pool == before.bullet_pool
    &&& after.enemy_manager == before.enemy_manager
    &&& if touched(
        before.enemy_manager.active_enemies@,
        before.enemy_manager.active_enemies@.len() as int,
        &before.player,
        before.world.camera_position,
    ) {
        player_hit(&before.player, &after.player, &before.world, &after.world, CONTACT_DAMAGE)
    } else {
        after.player == before.player && after.world == before.world
    }
}

/// The third hit check: the player against the bullets of the enemies. The
/// first bullet that reaches the player's hit point is spent on the
/// player.
pub open spec fn player_met_bullets(before: &GamePlayScene, after: &GamePlayScene) -> bool {
    let bullets = before.bullet_pool.enemy_active_bullets@;
    let k = first_reaching(
        bullets,
        before.player.hit_point(),
        HIT_POINT_RADIUS,
        before.world.camera_position,
    ) as int;
    &&& after.same_but_fight(before)
    &&& after.enemy_manager == before.enemy_manager
    &&& after.same_bullets_but(before, true)
    &&& if k < bullets.len() {
        &&& after.bullet_pool.enemy_active_bullets@ == bullets.update(k, spent(&bullets[k]))
        &&& exists|effect_world: World|
            {
                &&& #[trigger] effect_asked(
                    &before.world,
                    &effect_world,
                    &bullets[k],
                    "hit_animation"@,
                    points_left(bullets[k].rotation),
                )
                &&& player_hit(
                    &before.player,
                    &after.player,
                    &effect_world,
                    &after.world,
                    BULLET_DAMAGE,
                )
            }
    } else {
        &&& after.bullet_pool.enemy_active_bullets@ == bullets
        &&& after.player == before.player
        &&& after.world == before.world
    }
}

/// The fourth hit check: the melee attack against the bullets of the
/// enemies; see `parried`.
pub open spec fn melee_met_bullets(before: &GamePlayScene, after: &GamePlayScene) -> bool {
    &&& after.same_but_fight(before)
    &&& after.enemy_manager == before.enemy_manager
    &&& after.player == before.player
    &&& after.same_bullets_but(before, true)
    &&& after.bullet_pool.enemy_active_bullets@.len()
        == before.bullet_pool.enemy_active_bullets@.len()
    &&& forall|i: int|
        0 <= i < after.bullet_pool.enemy_active_bullets@.len()
            ==> #[trigger] after.bullet_pool.enemy_active_bullets@[i] == parried(
            &before.bullet_pool.enemy_active_bullets@[i],
            &before.player,
            before.world.camera_position,
        )
    &&& parry_asked(
        &before.world,
        &after.world,
        before.bullet_pool.enemy_active_bullets@,
        &before.player,
    )
}

/// The fifth hit check: the melee attack against the enemies; see `cut`.
pub open spec fn melee_met_enemies(before: &GamePlayScene, after: &GamePlayScene) -> bool {
    &&& after.same_but_fight(before)
    &&& after.bullet_pool == before.bullet_pool
    &&& after.enemy_manager.capacity == before.enemy_manager.capacity
    &&& after.enemy_manager.inactive_enemies == before.enemy_manager.inactive_enemies
    &&& after.enemy_manager.active_enemies@.len() == before.enemy_manager.active_enemies@.len()
    &&& forall|j: int|
        0 <= j < after.enemy_manager.active_enemies@.len()
            ==> #[trigger] after.enemy_manager.active_enemies@[j] == cut(
            &before.enemy_manager.active_enemies@[j],
            &before.player,
            before.world.camera_position,
        )
    &&& after.player == if cuts_any(
        before.enemy_manager.active_enemies@,
        before.enemy_manager.active_enemies@.len() as int,
        &before.player,
        before.world.camera_position,
    ) {
        Player { falling_slow_time: crate::gameplay::player::SLOW_FALL, ..before.player }
    } else {
        before.player
    }
    &&& cuts_asked(
        &before.world,
        &after.world,
        before.enemy_manager.active_enemies@,
        &before.player,
    )
}

/// The hit resolution of a tick, given the scenes between its checks: the
/// five checks follow each other in their fixed order.
pub open spec fn hits_resolved_through(
    before: &GamePlayScene,
    after: &GamePlayScene,
    first: GamePlayScene,
    second: GamePlayScene,
    third: GamePlayScene,
    fourth: GamePlayScene,
) -> bool {
    &&& bullets_met_enemies(before, &first)
    &&& player_met_enemies(&first, &second)
    &&& player_met_bullets(&second, &third)
    &&& melee_met_bullets(&third, &fourth)
    &&& melee_met_enemies(&fourth, after)
}

/// The hit resolution of a tick; see `hits_resolved_through`.
pub open spec fn hits_resolved(before: &GamePlayScene, after: &GamePlayScene) -> bool {
    exists|first: GamePlayScene, second: GamePlayScene, third: GamePlayScene, fourth: GamePlayScene|
     #[trigger]
        hits_resolved_through(before, after, first, second, third, fourth)
}

/// Whether a hit check may have turned `before` into `player`: only the
/// player's health can have gone down, and the grace after a hit can have
/// started.
pub open spec fn player_kept(before: &Player, player: &Player) -> bool {
    &&& player.health <= before.health
    &&& player.is_dead == before.is_dead
    &&& player.position == before.position
}

/// Whether the level holds the node `name` at the horizontal position `x`,
/// with the given wait, followed by the node `next` (by none if `next` is
/// empty), and with a schedule that starts the pattern `pattern` after half
/// a second (with an empty schedule if `pattern` is empty).
pub open spec fn has_node(
    level: &Level,
    name: Seq<char>,
    x: i32,
    wait: u128,
    next: Seq<char>,
    pattern: Seq<char>,
) -> bool {
    let node = level.all_nodes@[name];
    &&& level.all_nodes@.contains_key(name)
    &&& node.name@ == name
    &&& node.position == (Vec2 { x, y: CAMERA_HEIGHT })
    &&& node.waiting_time == wait
    &&& if next.len() == 0 {
        node.next_node is None
    } else {
        node.next_node is Some && node.next_node->0@ == next
    }
    &&& if pattern.len() == 0 {
        node.spawn_patterns@.len() == 0
    } else {
        &&& node.spawn_patterns@.len() == 1
        &&& node.spawn_patterns@[0].delay == 500
        &&& node.spawn_patterns@[0].pattern@ == pattern
    }
}

/// A schedule that starts one pattern after half a second.
fn schedule_of(pattern: &str) -> (schedule: VecDeque<PatternNode>)
    ensures
        schedule@.len() == 1,
        schedule@[0].delay == 500,
        schedule@[0].pattern@ == pattern@,
{
    let mut schedule: VecDeque<PatternNode> = VecDeque::new();
    schedule.push_back(PatternNode { delay: 500, pattern: String::from_str(pattern) });
    schedule
}

/// What is known of the names of the nodes and patterns of the level: they
/// differ from each other, and only the empty name is empty.
proof fn lemma_names()
    ensures
        ""@.len() == 0,
        "start"@.len() == 5,
        "01"@.len() == 2,
        "02"@.len() == 2,
        "03"@.len() == 2,
        "04"@.len() == 2,
        "05"@.len() == 2,
        "boss"@.len() == 4,
        "01"@ != "02"@,
        "01"@ != "03"@,
        "01"@ != "04"@,
        "01"@ != "05"@,
        "02"@ != "03"@,
        "02"@ != "04"@,
        "02"@ != "05"@,
        "03"@ != "04"@,
        "03"@ != "05"@,
        "04"@ != "05"@,
{
    reveal_strlit("");
    reveal_strlit("start");
    reveal_strlit("01");
    reveal_strlit("02");
    reveal_strlit("03");
    reveal_strlit("04");
    reveal_strlit("05");
    reveal_strlit("boss");
    assert("01"@[1] != "02"@[1]);
    assert("01"@[1] != "03"@[1]);
    assert("01"@[1] != "04"@[1]);
    assert("01"@[1] != "05"@[1]);
    assert("02"@[1] != "03"@[1]);
    assert("02"@[1] != "04"@[1]);
    assert("02"@[1] != "05"@[1]);
    assert("03"@[1] != "04"@[1]);
    assert("03"@[1] != "05"@[1]);
    assert("04"@[1] != "05"@[1]);
}

/// Whether the level holds the seven nodes of the game, one screen apart.
/// The camera travels from `start` through `01`, `02` and `03` to `boss`,
/// where the level ends; the nodes `04` and `05` lead to `boss` too.
pub open spec fn nodes_held(level: &Level) -> bool {
    &&& has_node(level, "start"@, 0, 2000, "01"@, ""@)
    &&& has_node(level, "01"@, 480_000, 200, "02"@, "01"@)
    &&& has_node(level, "02"@, 960_000, 300, "03"@, "02"@)
    &&& has_node(level, "03"@, 1_440_000, 300, "boss"@, "03"@)
    &&& has_node(level, "04"@, 1_920_000, 0, "05"@, ""@)
    &&& has_node(level, "05"@, 2_400_000, 0, "boss"@, ""@)
    &&& has_node(level, "boss"@, 2_880_000, 300, ""@, "boss"@)
}

/// The names of the nodes of the game.
pub open spec fn node_names() -> Set<Seq<char>> {
    set!["start"@, "01"@, "02"@, "03"@, "04"@, "05"@, "boss"@]
}

/// What putting the nodes of the game into a level does: the level holds
/// them, in place of any nodes of the same names, and is otherwise as it
/// was.
pub open spec fn nodes_set(before: &Level, after: &Level) -> bool {
    &&& nodes_held(after)
    &&& after.all_nodes@.dom() == before.all_nodes@.dom().union(node_names())
    &&& forall|name: Seq<char>|
        before.all_nodes@.contains_key(name) && !node_names().contains(name)
            ==> after.all_nodes@[name] == before.all_nodes@[name]
    &&& after.is_start == before.is_start
    &&& after.backgrounds == before.backgrounds
    &&& after.current_camera_target_node_name == before.current_camera_target_node_name
    &&& after.patterns == before.patterns
    &&& after.spawn_duration == before.spawn_duration
    &&& after.current_node_spawn_patterns == before.current_node_spawn_patterns
    &&& after.active_patterns == before.active_patterns
}

/// Puts the nodes of the game into `level`; see `nodes_set`.
pub fn setup_camera_target_nodes(level: &mut Level)
    ensures
        nodes_set(old(level), final(level)),
{
    proof {
        lemma_names();
    }
    let mut pos_x: i32 = 0;
    level.add_camera_target_node(
        "start",
        Vec2::new(pos_x, CAMERA_HEIGHT),
        2000,
        "01",
        VecDeque::new(),
    );
    pos_x = pos_x + crate::SCREEN_WIDTH;
    level.add_camera_target_node(
        "01",
        Vec2::new(pos_x, CAMERA_HEIGHT),
        200,
        "02",
        schedule_of("01"),
    );
    pos_x = pos_x + crate::SCREEN_WIDTH;
    level.add_camera_target_node(
        "02",
        Vec2::new(pos_x, CAMERA_HEIGHT),
        300,
        "03",
        schedule_of("02"),
    );
    pos_x = pos_x + crate::SCREEN_WIDTH;
    level.add_camera_target_node(
        "03",
        Vec2::new(pos_x, CAMERA_HEIGHT),
        300,
        "boss",
        schedule_of("03"),
    );
    pos_x = pos_x + crate::SCREEN_WIDTH;
    level.add_camera_target_node("04", Vec2::new(pos_x, CAMERA_HEIGHT), 0, "05", VecDeque::new());
    pos_x = pos_x + crate::SCREEN_WIDTH;
    level.add_camera_target_node("05", Vec2::new(pos_x, CAMERA_HEIGHT), 0, "boss", VecDeque::new());
    pos_x = pos_x + crate::SCREEN_WIDTH;
    level.add_camera_target_node(
        "boss",
        Vec2::new(pos_x, CAMERA_HEIGHT),
        300,
        "",
        schedule_of("boss"),
    );
    proof {
        assert(level.all_nodes@.dom() =~= old(level).all_nodes@.dom().union(node_names()));
    }
}

/// Height at which the spawners of the first and third pattern and the
/// crawlers appear.
pub const NEST_HEIGHT: i32 = -28_000;

/// Height at which the spawners of the second pattern appear.
pub const LOW_NEST_HEIGHT: i32 = 8_000;

/// Height at which the boss appears.
pub const BOSS_HEIGHT: i32 = -96_000;

/// Whether the level holds the four patterns of the game, one for each of
/// the nodes `01`, `02`, `03` and `boss`. The first three start with
/// spawners; the second and third bring in crawlers after three and a half
/// seconds; the last brings in the boss after four and a half.
pub open spec fn patterns_held(level: &Level) -> bool {
    &&& level.patterns@.contains_key("01"@)
    &&& level.patterns@.contains_key("02"@)
    &&& level.patterns@.contains_key("03"@)
    &&& level.patterns@.contains_key("boss"@)
    &&& level.patterns@["01"@]@.len() == 1
    &&& level.patterns@["01"@]@[0].is_request(
        0,
        0,
        Vec2 { x: 480_000, y: NEST_HEIGHT },
        "spawn_time=3500|spawn_interval=80|spawn_queue=1111111|idle_animation=enemy-spawner-1-idle|spawning_animation=enemy-spawner-1-spawning|scale=1.2|flip_x=1|"@,
    )
    &&& level.patterns@["02"@]@.len() == 3
    &&& level.patterns@["02"@]@[0].is_request(
        0,
        0,
        Vec2 { x: 816_000, y: LOW_NEST_HEIGHT },
        "spawn_time=4000|spawn_interval=100|spawn_queue=111111|idle_animation=enemy-spawner-2-idle|spawning_animation=enemy-spawner-2-spawning|scale=1.4|flip_x=0|"@,
    )
    &&& level.patterns@["02"@]@[1].is_request(
        0,
        0,
        Vec2 { x: 1_104_000, y: LOW_NEST_HEIGHT },
        "spawn_time=7000|spawn_interval=100|spawn_queue=111111|idle_animation=enemy-spawner-2-idle|spawning_animation=enemy-spawner-2-spawning|scale=1.4|flip_x=1|"@,
    )
    &&& level.patterns@["02"@]@[2].is_request(
        3500,
        2,
        Vec2 { x: 1_200_000, y: NEST_HEIGHT },
        "rotation=0.35|"@,
    )
    &&& level.patterns@["03"@]@.len() == 3
    &&& level.patterns@["03"@]@[0].is_request(
        0,
        0,
        Vec2 { x: 1_560_000, y: NEST_HEIGHT },
        "spawn_time=3500|spawn_interval=120|spawn_queue=111111111|idle_animation=enemy-spawner-1-idle|spawning_animation=enemy-spawner-1-spawning|scale=1.2|flip_x=1|"@,
    )
    &&& level.patterns@["03"@]@[1].is_request(
        3500,
        2,
        Vec2 { x: 1_728_000, y: NEST_HEIGHT },
        "rotation=0.4|"@,
    )
    &&& level.patterns@["03"@]@[2].is_request(
        3500,
        2,
        Vec2 { x: 1_200_000, y: NEST_HEIGHT },
        "rotation=0.2|"@,
    )
    &&& level.patterns@["boss"@]@.len() == 1
    &&& level.patterns@["boss"@]@[0].is_request(
        4500,
        3,
        Vec2 { x: 3_360_000, y: BOSS_HEIGHT },
        ""@,
    )
}

/// The names of the patterns of the game.
pub open spec fn pattern_names() -> Set<Seq<char>> {
    set!["01"@, "02"@, "03"@, "boss"@]
}

/// What putting the patterns of the game into a level does: the level holds
/// them, in place of any patterns of the same names, and is otherwise as it
/// was.
pub open spec fn patterns_set(before: &Level, after: &Level) -> bool {
    &&& patterns_held(after)
    &&& after.patterns@.dom() == before.patterns@.dom().union(pattern_names())
    &&& forall|name: Seq<char>|
        before.patterns@.contains_key(name) && !pattern_names().contains(name)
            ==> after.patterns@[name] == before.patterns@[name]
    &&& after.is_start == before.is_start
    &&& after.backgrounds == before.backgrounds
    &&& after.current_camera_target_node_name == before.current_camera_target_node_name
    &&& after.all_nodes == before.all_nodes
    &&& after.spawn_duration == before.spawn_duration
    &&& after.current_node_spawn_patterns == before.current_node_spawn_patterns
    &&& after.active_patterns == before.active_patterns
}

/// What putting the nodes and the patterns of the game into a level does;
/// see `nodes_set` and `patterns_set`.
pub open spec fn level_set(before: &Level, after: &Level) -> bool {
    &&& nodes_set(before, &Level { all_nodes: after.all_nodes, ..*before })
    &&& patterns_set(&Level { all_nodes: after.all_nodes, ..*before }, after)
}

/// Puts the patterns of the game into `level`; see `patterns_set`.
pub fn setup_level_patterns(level: &mut Level)
    ensures
        patterns_set(old(level), final(level)),
{
    proof {
        lemma_names();
    }
    let mut first: VecDeque<EnemySpawnNode> = VecDeque::new();
    first.push_back(
        EnemySpawnNode::new(
            0,
            0,
            Vec2::new(480_000, NEST_HEIGHT),
            "spawn_time=3500|spawn_interval=80|spawn_queue=1111111|idle_animation=enemy-spawner-1-idle|spawning_animation=enemy-spawner-1-spawning|scale=1.2|flip_x=1|",
        ),
    );
    level.add_pattern("01", first);
    let mut second: VecDeque<EnemySpawnNode> = VecDeque::new();
    second.push_back(
        EnemySpawnNode::new(
            0,
            0,
            Vec2::new(816_000, LOW_NEST_HEIGHT),
            "spawn_time=4000|spawn_interval=100|spawn_queue=111111|idle_animation=enemy-spawner-2-idle|spawning_animation=enemy-spawner-2-spawning|scale=1.4|flip_x=0|",
        ),
    );
    second.push_back(
        EnemySpawnNode::new(
            0,
            0,
            Vec2::new(1_104_000, LOW_NEST_HEIGHT),
            "spawn_time=7000|spawn_interval=100|spawn_queue=111111|idle_animation=enemy-spawner-2-idle|spawning_animation=enemy-spawner-2-spawning|scale=1.4|flip_x=1|",
        ),
    );
    second.push_back(
        EnemySpawnNode::new(3500, 2, Vec2::new(1_200_000, NEST_HEIGHT), "rotation=0.35|"),
    );
    level.add_pattern("02", second);
    let mut third: VecDeque<EnemySpawnNode> = VecDeque::new();
    third.push_back(
        EnemySpawnNode::new(
            0,
            0,
            Vec2::new(1_560_000, NEST_HEIGHT),
            "spawn_time=3500|spawn_interval=120|spawn_queue=111111111|idle_animation=enemy-spawner-1-idle|spawning_animation=enemy-spawner-1-spawning|scale=1.2|flip_x=1|",
        ),
    );
    third.push_back(
        EnemySpawnNode::new(3500, 2, Vec2::new(1_728_000, NEST_HEIGHT), "rotation=0.4|"),
    );
    third.push_back(
        EnemySpawnNode::new(3500, 2, Vec2::new(1_200_000, NEST_HEIGHT), "rotation=0.2|"),
    );
    level.add_pattern("03", third);
    let mut last: VecDeque<EnemySpawnNode> = VecDeque::new();
    last.push_back(EnemySpawnNode::new(4500, 3, Vec2::new(3_360_000, BOSS_HEIGHT), ""));
    level.add_pattern("boss", last);
    proof {
        assert(level.patterns@.dom() =~= old(level).patterns@.dom().union(pattern_names()));
    }
}

/// Puts the nodes and the patterns of the game into `level`; see
/// `level_set`.
pub fn setup_level_for_spawning_enemies(level: &mut Level)
    ensures
        level_set(old(level), final(level)),
{
    setup_camera_target_nodes(level);
    let ghost with_nodes = *level;
    setup_level_patterns(level);
    proof {
        assert(with_nodes == (Level { all_nodes: level.all_nodes, ..*old(level) }));
    }
}

impl GamePlayScene {
    /// A session at its start: nothing is loaded or set up, the pools are
    /// full, every queue is empty, and the level holds its nodes and
    /// patterns. `texture_loading_list` names the files to load.
    pub fn new(texture_loading_list: Vec<crate::image_assets::ContentPath>) -> (scene:
        GamePlayScene)
        ensures
            scene.wf(),
            scene.state == GamePlayState::Loading,
            !scene.reach_camera_target,
            scene.camera_position == (Vec2 { x: 0, y: CAMERA_HEIGHT }),
            scene.camera_target_position == (Vec2 { x: 0, y: CAMERA_HEIGHT }),
            scene.world.camera_position == (Vec2 { x: 0, y: CAMERA_HEIGHT }),
            scene.world.bullet_spawn_nodes@.len() == 0,
            scene.world.enemy_spawn_nodes@.len() == 0,
            scene.world.particle_spawn_nodes@.len() == 0,
            scene.world.play_sound_nodes@ == Map::<
                Seq<char>,
                crate::gameplay::world::SoundNode,
            >::empty(),
            scene.waiting_time == LEVEL_WAIT,
            scene.bullet_pool.total_bullets == BULLETS,
            scene.bullet_pool.pool@.len() == BULLETS,
            scene.bullet_pool.player_active_bullets@.len() == 0,
            scene.bullet_pool.enemy_active_bullets@.len() == 0,
            scene.bullet_pool.spawned_bullet_list@.len() == 0,
            forall|i: int|
                0 <= i < scene.bullet_pool.pool@.len() ==> (
                #[trigger] scene.bullet_pool.pool@[i]).blank(),
            scene.enemy_manager.capacity == crate::gameplay::enemy_manager::ENEMY_CAPACITY,
            scene.enemy_manager.inactive_enemies@.len() == crate::gameplay::enemy_manager::ENEMY_CAPACITY,
            scene.enemy_manager.active_enemies@.len() == 0,
            forall|i: int|
                0 <= i < scene.enemy_manager.inactive_enemies@.len() ==> (
                #[trigger] scene.enemy_manager.inactive_enemies@[i]).blank(),
            scene.particle_manager.capacity == crate::gameplay::particle_manager::PARTICLE_CAPACITY,
            scene.particle_manager.inactive_particles@.len() == crate::gameplay::particle_manager::PARTICLE_CAPACITY,
            forall|k: int|
                0 <= k < crate::gameplay::particle_manager::LAYERS
                    ==> scene.particle_manager.layer(k).len() == 0,
            forall|i: int|
                0 <= i < scene.particle_manager.inactive_particles@.len() ==> (
                #[trigger] scene.particle_manager.inactive_particles@[i]).blank(),
            scene.bullet_type_bank.types@ == Map::<i32, crate::gameplay::bullet_pool::BulletType>::empty(),
            scene.enemy_type_bank.types@ == Map::<i32, crate::gameplay::enemy_manager::EnemyType>::empty(),
            scene.particle_type_bank.types@ == Map::<
                u128,
                crate::gameplay::particle_manager::ParticleType,
            >::empty(),
            scene.image_assets.waiting() == texture_loading_list@,
            scene.player.is_new(1),
            nodes_held(&scene.level),
            scene.level.all_nodes@.dom() == node_names(),
            patterns_held(&scene.level),
            scene.level.patterns@.dom() == pattern_names(),
            scene.level.is_new_but_maps(),
    {
        let mut world = World::new();
        world.camera_position = Vec2::new(0, CAMERA_HEIGHT);
        let particle_manager = ParticleManager::new(&mut world);
        let mut level = Level::new();
        setup_level_for_spawning_enemies(&mut level);
        GamePlayScene {
            reach_camera_target: false,
            camera_target_position: Vec2::new(0, CAMERA_HEIGHT),
            camera_position: Vec2::new(0, CAMERA_HEIGHT),
            player: Player::new(1),
            image_assets: ImageAssets::new(texture_loading_list),
            state: GamePlayState::Loading,
            enemy_manager: EnemyManager::new(),
            particle_manager,
            level,
            waiting_time: LEVEL_WAIT,
            world,
            bullet_pool: BulletPool::new(BULLETS),
            bullet_type_bank: BulletTypeBank::new(),
            enemy_type_bank: EnemyTypeBank::new(),
            particle_type_bank: ParticleTypeBank::new(),
        }
    }

    /// The player after its step of the tick that starts from this state,
    /// but for its sprites; the camera has moved before the step.
    pub open spec fn player_after(&self, keys: KeyStates) -> Player {
        self.player.stepped(
            keys,
            if self.reach_camera_target {
                self.world.camera_position
            } else {
                self.camera_after()
            },
        )
    }

    /// The part of a tick that every stage of a running session shares: the
    /// player, the enemies, the particles and the bullets each make their
    /// step, in this order.
    fn update_entities(&mut self, keys: KeyStates) -> (outcome: Result<(), ExtraError>)
        requires
            old(self).wf(),
        ensures
            final(self).wf(),
            final(self).bullet_pool.total_bullets == old(self).bullet_pool.total_bullets,
            final(self).enemy_manager.capacity == old(self).enemy_manager.capacity,
            final(self).particle_manager.capacity == old(self).particle_manager.capacity,
            final(self).world.camera_position == old(self).world.camera_position,
            final(self).world.particle_spawn_nodes@.len() == 0,
            final(self).player.same_body(
                &old(self).player.stepped(keys, old(self).world.camera_position),
            ),
            final(self).level == old(self).level,
            final(self).state == old(self).state,
            final(self).camera_position == old(self).camera_position,
            final(self).camera_target_position == old(self).camera_target_position,
            final(self).reach_camera_target == old(self).reach_camera_target,
            final(self).waiting_time == old(self).waiting_time,
            entities_stepped(old(self), final(self), keys, outcome),
    {
        self.player.update(keys, &mut self.world, &self.image_assets);
        let ghost moved = *self;
        let target = self.player.get_hit_point_position();
        self.enemy_manager.update_active_enemies(
            target,
            &self.enemy_type_bank,
            &mut self.world,
            &self.image_assets,
        );
        let ghost hunted = *self;
        let served = self.particle_manager.update(
            &mut self.world,
            &mut self.particle_type_bank,
            &self.image_assets,
        );
        let ghost sparkled = *self;
        proof {
            assert(player_stepped(old(self), &moved, keys));
            assert(enemies_stepped(&moved, &hunted));
            assert(particles_stepped(&hunted, &sparkled, served));
        }
        if served.is_err() {
            proof {
                assert(entities_stepped_through(
                    old(self),
                    self,
                    keys,
                    served,
                    moved,
                    hunted,
                    sparkled,
                    sparkled,
                ));
            }
            return served;
        }
        let camera = self.world.camera_position;
        self.bullet_pool.update_active_enemies_bullets(&self.bullet_type_bank, camera);
        let ghost shot = *self;
        self.bullet_pool.update_active_player_bullets(&self.bullet_type_bank, camera);
        proof {
            assert(bullets_stepped(&sparkled, &shot, true));
            assert(bullets_stepped(&shot, self, false));
            assert(entities_stepped_through(
                old(self),
                self,
                keys,
                served,
                moved,
                hunted,
                sparkled,
                shot,
            ));
        }
        served
    }

    /// One tick of a session that is being played.
    ///
    /// The camera travels. The player, the enemies, the particles and the
    /// bullets make their steps. The level lets its patterns run, and the
    /// enemies and bullets that were asked for are spawned. If the player is
    /// dead the game is over. Then the hits are resolved, and the level moves
    /// on to the next node if the current one is cleared.
    ///
    /// Malformed parameters of a request end the tick with their error; the
    /// pools are whole then too.
    fn play(&mut self, keys: KeyStates) -> (outcome: Result<(), ExtraError>)
        requires
            old(self).wf(),
        ensures
            final(self).wf(),
            final(self).bullet_pool.total_bullets == old(self).bullet_pool.total_bullets,
            final(self).enemy_manager.capacity == old(self).enemy_manager.capacity,
            final(self).particle_manager.capacity == old(self).particle_manager.capacity,
            outcome is Ok ==> {
                &&& final(self).world.enemy_spawn_nodes@.len() == 0
                &&& final(self).world.bullet_spawn_nodes@.len() == 0
                &&& final(self).bullet_pool.spawned_bullet_list@.len() == 0
                &&& final(self).camera_position == if old(self).reach_camera_target {
                    old(self).camera_position
                } else {
                    old(self).camera_after()
                }
                &&& final(self).player.is_dead == old(self).player_after(keys).is_dead
                &&& final(self).player.position == old(self).player_after(keys).position
                &&& final(self).player.health <= old(self).player_after(keys).health
                &&& final(self).player.is_dead ==> final(self).state == GamePlayState::GameOver
                &&& !final(self).player.is_dead ==> final(self).state == old(self).state
                    || final(self).state == GamePlayState::LevelCleared
            },
            played(old(self), final(self), keys, outcome),
    {
        self.update_camera_position();
        let ghost filmed = *self;
        let moved = self.update_entities(keys);
        let ghost stepped = *self;
        if moved.is_err() {
            proof {
                assert(played_through(
                    old(self),
                    self,
                    keys,
                    moved,
                    filmed,
                    stepped,
                    stepped,
                    stepped,
                    stepped,
                    stepped,
                    stepped,
                ));
            }
            return moved;
        }
        proof {
            assert(moved is Ok);
            assert(moved->Ok_0 == ());
            assert(moved == Ok::<(), ExtraError>(()));
        }
        self.level.update(&mut self.world);
        let ghost scheduled = *self;
        let manned_outcome = self.spawn_enemy_in_the_queue();
        let ghost manned = *self;
        proof {
            assert(level_stepped(&stepped, &scheduled));
        }
        if manned_outcome.is_err() {
            proof {
                assert(played_through(
                    old(self),
                    self,
                    keys,
                    manned_outcome,
                    filmed,
                    stepped,
                    scheduled,
                    manned,
                    manned,
                    manned,
                    manned,
                ));
            }
            return manned_outcome;
        }
        proof {
            assert(manned_outcome is Ok);
            assert(manned_outcome->Ok_0 == ());
            assert(manned_outcome == Ok::<(), ExtraError>(()));
        }
        let armed_outcome = self.bullet_pool.spawn_bullets_from_queue(
            &mut self.world,
            &mut self.bullet_type_bank,
            &self.image_assets,
        );
        let ghost armed = *self;
        proof {
            assert(bullets_served(&manned, &armed, armed_outcome));
        }
        if armed_outcome.is_err() {
            proof {
                assert(played_through(
                    old(self),
                    self,
                    keys,
                    armed_outcome,
                    filmed,
                    stepped,
                    scheduled,
                    manned,
                    armed,
                    armed,
                    armed,
                ));
            }
            return armed_outcome;
        }
        proof {
            assert(armed_outcome is Ok);
            assert(armed_outcome->Ok_0 == ());
            assert(armed_outcome == Ok::<(), ExtraError>(()));
        }
        if !self.player.alive() {
            self.state = GamePlayState::GameOver;
        }
        let ghost judged_scene = *self;
        self.call_hit_checks();
        let ghost fought = *self;
        self.fetching_next_camera_target();
        proof {
            assert(judged(&armed, &judged_scene));
            assert(played_through(
                old(self),
                self,
                keys,
                armed_outcome,
                filmed,
                stepped,
                scheduled,
                manned,
                armed,
                judged_scene,
                fought,
            ));
        }
        armed_outcome
    }

    /// Sets the session up once everything is loaded: the banks get their
    /// behaviours, the player its idle animation, and the level starts at
    /// the node `start`.
    fn prepare(&mut self)
        requires
            old(self).wf(),
        ensures
            final(self).wf(),
            made_ready(old(self), final(self)),
    {
        self.bullet_type_bank.setup(&self.image_assets);
        self.player.setup(&self.image_assets);
        self.particle_type_bank.setup(&self.image_assets);
        let mut required_list: Vec<i32> = Vec::new();
        required_list.push(0);
        required_list.push(1);
        required_list.push(2);
        required_list.push(3);
        proof {
            assert(required_list@[0] == 0 && required_list@[1] == 1 && required_list@[2] == 2
                && required_list@[3] == 3);
            assert forall|n: i32| 0 <= n <= 3 <==> #[trigger] required_list@.contains(n) by {
                if 0 <= n <= 3 {
                    assert(required_list@[n as int] == n);
                }
            }
        }
        let ghost bank = self.enemy_type_bank.types@;
        self.enemy_type_bank.setup(&self.image_assets, &required_list);
        proof {
            assert forall|n: i32|
                self.enemy_type_bank.types@.contains_key(n) <==> bank.contains_key(n) || 0 <= n
                    <= 3 by {
                assert(0 <= n <= 3 ==> required_list@.contains(n));
                assert(required_list@.contains(n) ==> 0 <= n <= 3);
            }
            assert forall|n: i32| 0 <= n <= 3 implies (
            #[trigger] self.enemy_type_bank.types@[n]).type_id() == n by {
                assert(required_list@.contains(n));
            }
            assert forall|n: i32| bank.contains_key(n) && !(0 <= n <= 3) implies
                self.enemy_type_bank.types@[n] == bank[n] by {
                assert(!required_list@.contains(n));
            }
        }
        self.level.set_current_node("start");
        self.camera_position = self.world.camera_position;
        self.state = GamePlayState::Playing;
    }

    /// One tick of the session.
    ///
    /// While files are being loaded nothing happens; once none is left the
    /// session gets ready to be set up. The tick after that sets it up and
    /// starts the game; see `prepare`. While the game is played a tick is
    /// what `play` describes. After the level is cleared or the game is
    /// over, the player, the enemies, the particles and the bullets still
    /// make their steps.
    ///
    /// In every stage the pools stay whole: no record is gained, lost or
    /// held twice.
    pub fn update(&mut self, keys: KeyStates) -> (outcome: Result<(), ExtraError>)
        requires
            old(self).wf(),
        ensures
            final(self).wf(),
            final(self).bullet_pool.total_bullets == old(self).bullet_pool.total_bullets,
            final(self).enemy_manager.capacity == old(self).enemy_manager.capacity,
            final(self).particle_manager.capacity == old(self).particle_manager.capacity,
            scene_ticked(old(self), final(self), keys, outcome),
            match old(self).state {
                GamePlayState::Loading => {
                    &&& outcome is Ok
                    &&& final(self).state == if old(self).image_assets.waiting().len() > 0 {
                        GamePlayState::Loading
                    } else {
                        GamePlayState::Preparing
                    }
                    &&& final(self).world == old(self).world
                    &&& final(self).level == old(self).level
                    &&& final(self).player == old(self).player
                },
                GamePlayState::Preparing => {
                    &&& outcome is Ok
                    &&& final(self).state == GamePlayState::Playing
                    &&& final(self).bullet_type_bank.types@.contains_key(1)
                    &&& forall|n: i32|
                        0 <= n <= 3 ==> final(self).enemy_type_bank.types@.contains_key(n)
                    &&& final(self).particle_type_bank.types@.contains_key(1)
                    &&& old(self).level.all_nodes@.contains_key("start"@) ==> final(self).level.current_name() == "start"@ && final(self).level.is_start
                },
                GamePlayState::Playing => outcome is Ok ==> {
                    &&& final(self).world.enemy_spawn_nodes@.len() == 0
                    &&& final(self).world.bullet_spawn_nodes@.len() == 0
                    &&& final(self).camera_position == if old(self).reach_camera_target {
                        old(self).camera_position
                    } else {
                        old(self).camera_after()
                    }
                    &&& final(self).player.is_dead == old(self).player_after(keys).is_dead
                    &&& final(self).player.position == old(self).player_after(keys).position
                    &&& final(self).player.health <= old(self).player_after(keys).health
                    &&& final(self).player.is_dead ==> final(self).state == GamePlayState::GameOver
                    &&& !final(self).player.is_dead ==> final(self).state == GamePlayState::Playing
                        || final(self).state == GamePlayState::LevelCleared
                },
                GamePlayState::LevelCleared => {
                    &&& final(self).state == GamePlayState::LevelCleared
                    &&& final(self).level == old(self).level
                    &&& final(self).camera_position == old(self).camera_position
                    &&& final(self).player.same_body(
                        &old(self).player.stepped(keys, old(self).world.camera_position),
                    )
                },
                GamePlayState::GameOver => {
                    &&& final(self).state == GamePlayState::GameOver
                    &&& final(self).level == old(self).level
                    &&& final(self).camera_position == old(self).camera_position
                    &&& final(self).player.same_body(
                        &old(self).player.stepped(keys, old(self).world.camera_position),
                    )
                },
            },
    {
        match self.state {
            GamePlayState::Loading => {
                if !self.image_assets.is_loading() {
                    self.state = GamePlayState::Preparing;
                }
                Ok(())
            },
            GamePlayState::Preparing => {
                self.prepare();
                Ok(())
            },
            GamePlayState::Playing => self.play(keys),
            GamePlayState::LevelCleared => self.update_entities(keys),
            GamePlayState::GameOver => self.update_entities(keys),
        }
    }

    /// Hands out the sounds that were asked for since the last call, each
    /// cue once, and forgets them.
    pub fn take_sounds(&mut self) -> (sounds: Vec<(String, crate::gameplay::world::SoundNode)>)
        ensures
            sounds@ == old(self).world.play_sound_nodes.pairs(),
            final(self).world.play_sound_nodes@ == Map::<
                Seq<char>,
                crate::gameplay::world::SoundNode,
            >::empty(),
            final(self).world.camera_position == old(self).world.camera_position,
            final(self).world.bullet_spawn_nodes == old(self).world.bullet_spawn_nodes,
            final(self).world.enemy_spawn_nodes == old(self).world.enemy_spawn_nodes,
            final(self).world.particle_spawn_nodes == old(self).world.particle_spawn_nodes,
            final(self).same_but_camera(old(self)),
            final(self).camera_position == old(self).camera_position,
            final(self).reach_camera_target == old(self).reach_camera_target,
    {
        self.world.play_sound_nodes.take_all()
    }
}

} // verus!
