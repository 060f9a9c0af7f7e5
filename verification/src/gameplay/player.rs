//! The player: health, movement, the two weapons and their clocks.

use vstd::prelude::*;
use vstd::string::*;

use crate::gameplay::angle::{rotation_towards, turn_of};
use crate::gameplay::bullet_pool::{BulletOwner, BulletSpawnNode};
use crate::gameplay::enemy_manager::{lemma_splashed_twice, splashed, Enemy};
use crate::gameplay::input::{KeyStates, Keyboard};
use crate::gameplay::utils::{
    clamp_position_inside_camera_area, clamped_inside_camera_area, saturate, saturate_i64, Vec2,
};
use crate::gameplay::world::World;
use crate::image_assets::{frame_length_at, ImageAssets};
use crate::sprite::{whole_frames, Sprite};

verus! {

#[derive(Clone, Copy, Debug, PartialEq, Eq, Structural)]
pub enum WeaponType {
    Melee,
    Range,
}

#[derive(Clone, Copy, Debug, PartialEq, Eq, Structural)]
pub enum PlayerState {
    Jump,
    Stand,
    Run,
}

/// Radius of the point at which the player can be hit.
pub const HIT_POINT_RADIUS: u32 = 4_000;

/// Radius of a melee attack.
pub const MELEE_ATTACK_RADIUS: u32 = 40_000;

/// Health a melee attack takes.
pub const MELEE_ATTACK_DAMAGE: u32 = 2;

/// Milliseconds for which the player cannot be hit again after a hit.
pub const HIT_GRACE: u128 = 90;

/// Melee attack time up to which the player can be hit.
pub const LUNGE_GRACE: u128 = 10;

/// Milliseconds for which a melee hit slows the player's fall.
pub const SLOW_FALL: u128 = 300;

/// Melee cooldown from which on a melee hit makes its sound.
pub const HIT_SOUND_COOLDOWN: u128 = 320;

/// How far above the player's feet the hit point is.
pub const HIT_POINT_HEIGHT: i32 = 46_000;

/// How far above the player's feet a melee attack is centred.
pub const MELEE_HEIGHT: i32 = 48_000;

/// How far in front of the player a melee attack is centred.
pub const MELEE_REACH: i32 = 10_000;

pub struct Player {
    pub player_number: i32,
    pub health: u32,
    pub max_health: u32,
    /// Milliseconds for which the player cannot be hit.
    pub hit_frame: u128,
    pub is_dead: bool,
    pub animation_state: PlayerState,
    pub skin: Sprite,
    pub slash: Sprite,
    pub controller: Keyboard,
    /// Where the player's feet are.
    pub position: Vec2,
    /// One for facing right, minus one for facing left.
    pub direction: i32,
    /// Milliseconds for which the player still rises.
    pub jump_speed: u128,
    /// Milliseconds since the player last rose.
    pub fall_time: u128,
    /// Milliseconds for which the player still falls slowly.
    pub falling_slow_time: u128,
    /// Pixels the player dashes per tick; runs down to zero.
    pub dash_speed: i32,
    pub weapon_type: WeaponType,
    /// Milliseconds for which a melee attack still hits.
    pub melee_attack_time: u128,
    /// Milliseconds until the next melee attack can start.
    pub melee_attack_cooldown: u128,
    /// Milliseconds for which a press of the attack key is remembered.
    pub melee_attack_button_buffer: u128,
    /// Milliseconds for which the ranged weapon still fires.
    pub range_attack_time: u128,
    /// Milliseconds until the ranged weapon fires next.
    pub range_attack_cooldown: u128,
    pub crosshair_position: Vec2,
}

impl Player {
    /// Whether the two players agree in everything but their sprites.
    pub open spec fn same_body(&self, other: &Player) -> bool {
        &&& self.player_number == other.player_number
        &&& self.health == other.health
        &&& self.max_health == other.max_health
        &&& self.hit_frame == other.hit_frame
        &&& self.is_dead == other.is_dead
        &&& self.animation_state == other.animation_state
        &&& self.controller == other.controller
        &&& self.position == other.position
        &&& self.direction == other.direction
        &&& self.jump_speed == other.jump_speed
        &&& self.fall_time == other.fall_time
        &&& self.falling_slow_time == other.falling_slow_time
        &&& self.dash_speed == other.dash_speed
        &&& self.weapon_type == other.weapon_type
        &&& self.melee_attack_time == other.melee_attack_time
        &&& self.melee_attack_cooldown == other.melee_attack_cooldown
        &&& self.melee_attack_button_buffer == other.melee_attack_button_buffer
        &&& self.range_attack_time == other.range_attack_time
        &&& self.range_attack_cooldown == other.range_attack_cooldown
        &&& self.crosshair_position == other.crosshair_position
    }

    /// Whether this is a new player of the given number: in full health,
    /// standing at the origin, facing right, with the melee weapon and with
    /// every clock at rest.
    pub open spec fn is_new(&self, player_number: i32) -> bool {
        &&& self.player_number == player_number
        &&& self.health == 20
        &&& self.max_health == 20
        &&& self.hit_frame == 0
        &&& !self.is_dead
        &&& self.animation_state == PlayerState::Stand
        &&& self.skin.is_fresh()
        &&& self.slash.is_fresh()
        &&& self.controller == Keyboard::untouched()
        &&& self.position == (Vec2 { x: 0, y: 0 })
        &&& self.direction == 1
        &&& self.jump_speed == 0
        &&& self.fall_time == 0
        &&& self.falling_slow_time == 0
        &&& self.dash_speed == 0
        &&& self.weapon_type == WeaponType::Melee
        &&& self.melee_attack_time == 0
        &&& self.melee_attack_cooldown == 0
        &&& self.melee_attack_button_buffer == 0
        &&& self.range_attack_time == 0
        &&& self.range_attack_cooldown == 0
        &&& self.crosshair_position == (Vec2 { x: 0, y: 0 })
    }

    pub fn new(player_number: i32) -> (player: Player)
        ensures
            player.is_new(player_number),
    {
        Player {
            player_number,
            health: 20,
            max_health: 20,
            is_dead: false,
            hit_frame: 0,
            animation_state: PlayerState::Stand,
            skin: Sprite::new(),
            slash: Sprite::new(),
            controller: Keyboard::new_with_preset_keys(),
            position: Vec2::zero(),
            direction: 1,
            jump_speed: 0,
            fall_time: 0,
            falling_slow_time: 0,
            dash_speed: 0,
            weapon_type: WeaponType::Melee,
            melee_attack_time: 0,
            melee_attack_cooldown: 0,
            melee_attack_button_buffer: 0,
            range_attack_time: 0,
            range_attack_cooldown: 0,
            crosshair_position: Vec2::zero(),
        }
    }

    /// Where the player can be hit.
    pub open spec fn hit_point(&self) -> Vec2 {
        self.position.moved(0, -HIT_POINT_HEIGHT)
    }

    /// Where a melee attack is centred: in front of the player.
    pub open spec fn melee_point(&self) -> Vec2 {
        self.position.moved(saturate(MELEE_REACH * self.direction), -MELEE_HEIGHT)
    }

    /// Whether a weapon of the player is at work.
    pub open spec fn attacking(&self) -> bool {
        match self.weapon_type {
            WeaponType::Melee => self.melee_attack_time > 0,
            WeaponType::Range => self.range_attack_time > 0,
        }
    }

    /// Whether a hit would hurt the player now: not within the grace after
    /// a hit, not in the lunge of a melee attack, and not in a dash.
    pub open spec fn vulnerable(&self) -> bool {
        self.hit_frame == 0 && self.melee_attack_time <= LUNGE_GRACE && self.dash_speed == 0
    }

    pub fn get_hit_point_position(&self) -> (point: Vec2)
        ensures
            point == self.hit_point(),
    {
        self.position.translate(0, -HIT_POINT_HEIGHT)
    }

    pub fn get_hit_point_radius(&self) -> (radius: u32)
        ensures
            radius == HIT_POINT_RADIUS,
    {
        HIT_POINT_RADIUS
    }

    pub fn alive(&self) -> (alive: bool)
        ensures
            alive == !self.is_dead,
    {
        !self.is_dead
    }

    /// The player's health in thousandths of the greatest health; zero for
    /// a player without greatest health.
    pub fn get_health_percentage(&self) -> (share: u32)
        ensures
            share == if self.max_health == 0 {
                0
            } else if self.health as int * 1000 / self.max_health as int > u32::MAX {
                u32::MAX as int
            } else {
                self.health as int * 1000 / self.max_health as int
            },
    {
        if self.max_health == 0 {
            0
        } else {
            let share: u64 = self.health as u64 * 1000 / self.max_health as u64;
            if share > u32::MAX as u64 {
                u32::MAX
            } else {
                share as u32
            }
        }
    }

    pub fn is_attacking(&self) -> (attacking: bool)
        ensures
            attacking == self.attacking(),
    {
        match self.weapon_type {
            WeaponType::Melee => self.melee_attack_time > 0,
            WeaponType::Range => self.range_attack_time > 0,
        }
    }

    pub fn get_crosshair_position(&self) -> (point: &Vec2)
        ensures
            *point == self.crosshair_position,
    {
        &self.crosshair_position
    }

    pub fn get_weapon_type(&self) -> (weapon: &WeaponType)
        ensures
            *weapon == self.weapon_type,
    {
        &self.weapon_type
    }

    pub fn get_melee_attack_radius() -> (radius: u32)
        ensures
            radius == MELEE_ATTACK_RADIUS,
    {
        MELEE_ATTACK_RADIUS
    }

    pub fn get_melee_attack_position(&self) -> (point: Vec2)
        ensures
            point == self.melee_point(),
    {
        let reach: i64 = MELEE_REACH as i64 * self.direction as i64;
        self.position.translate(saturate_i64(reach), -MELEE_HEIGHT)
    }

    pub fn melee_attack_damage(&self) -> (damage: u32)
        ensures
            damage == MELEE_ATTACK_DAMAGE,
    {
        MELEE_ATTACK_DAMAGE
    }

    /// Starts the player's idle animation, if the assets hold it.
    pub fn setup(&mut self, image_assets: &ImageAssets)
        ensures
            final(self).same_body(old(self)),
            final(self).slash == old(self).slash,
            plays_if_held(&old(self).skin, &final(self).skin, "player-stand"@, image_assets),
    {
        match image_assets.get_animation_object("player-stand") {
            Some(animation) => {
                self.skin.play(&animation);
            },
            None => (),
        }
    }

    /// Takes a hit, if the player is vulnerable: `damage` health is lost,
    /// down to zero, the grace after a hit starts, and two splashes and a
    /// sound are asked for. Otherwise nothing happens.
    pub fn get_hit(&mut self, damage: u32, world: &mut World)
        ensures
            if old(self).vulnerable() {
                &&& *final(self) == (Player {
                    health: if old(self).health >= damage {
                        (old(self).health - damage) as u32
                    } else {
                        0
                    },
                    hit_frame: HIT_GRACE,
                    ..*old(self)
                })
                &&& final(world).asks_for_sound("player_hit"@, "./resources/sfx/player_hit.mp3"@, 800)
                &&& final(world).sounds_but(old(world), set!["player_hit"@])
                &&& exists|splashed_world: World|
                    #[trigger] splashed(old(world), &splashed_world, old(self).hit_point(), "1.5"@, 2)
                        && final(world).same_queues(&splashed_world)
            } else {
                *final(self) == *old(self) && *final(world) == *old(world)
            },
    {
        if self.hit_frame == 0 && self.melee_attack_time <= LUNGE_GRACE && self.dash_speed == 0 {
            self.health = self.health.saturating_sub(damage);
            self.hit_frame = HIT_GRACE;
            let point = self.get_hit_point_position();
            let ghost w0 = *world;
            Enemy::spawn_random_splash_particle(world, point, "1.5");
            let ghost w1 = *world;
            Enemy::spawn_random_splash_particle(world, point, "1.5");
            let ghost w2 = *world;
            proof {
                lemma_splashed_twice(&w0, &w1, &w2, point, "1.5"@, 1, 1);
            }
            world.play_sound("player_hit", "./resources/sfx/player_hit.mp3", 800);
            proof {
                assert(point == old(self).hit_point());
                assert(splashed(old(world), &w2, old(self).hit_point(), "1.5"@, 2));
                assert(world.same_queues(&w2));
            }
        }
    }

    /// Called once when the player's health is used up: the player is
    /// thrown up, and the sound of its death is asked for.
    fn die(&mut self, world: &mut World)
        ensures
            *final(self) == (Player { is_dead: true, jump_speed: 30, fall_time: 0, ..*old(self) }),
            final(world).asks_for_sound("player_die"@, "./resources/sfx/player_die.mp3"@, 800),
            final(world).sounds_but(old(world), set!["player_die"@]),
            final(world).same_queues(old(world)),
    {
        self.is_dead = true;
        self.jump_speed = 30;
        self.fall_time = 0;
        world.play_sound("player_die", "./resources/sfx/player_die.mp3", 800);
    }

    /// The player with all its clocks one tick further down.
    pub open spec fn with_clocks_run_down(self) -> Player {
        Player {
            melee_attack_time: crate::tick_down_spec(self.melee_attack_time),
            range_attack_time: crate::tick_down_spec(self.range_attack_time),
            melee_attack_cooldown: crate::tick_down_spec(self.melee_attack_cooldown),
            range_attack_cooldown: crate::tick_down_spec(self.range_attack_cooldown),
            melee_attack_button_buffer: crate::tick_down_spec(self.melee_attack_button_buffer),
            hit_frame: crate::tick_down_spec(self.hit_frame),
            falling_slow_time: crate::tick_down_spec(self.falling_slow_time),
            ..self
        }
    }

    /// Lets the clocks of the weapons, of the grace after a hit and of the
    /// slow fall run down by a tick. None goes below zero.
    fn decrease_values_over_time(player: &mut Player)
        ensures
            *final(player) == old(player).with_clocks_run_down(),
    {
        player.melee_attack_time = crate::tick_down(player.melee_attack_time);
        player.range_attack_time = crate::tick_down(player.range_attack_time);
        player.melee_attack_cooldown = crate::tick_down(player.melee_attack_cooldown);
        player.range_attack_cooldown = crate::tick_down(player.range_attack_cooldown);
        player.melee_attack_button_buffer = crate::tick_down(player.melee_attack_button_buffer);
        player.hit_frame = crate::tick_down(player.hit_frame);
        player.falling_slow_time = crate::tick_down(player.falling_slow_time);
    }

    /// A melee attack has hit an enemy: the player's fall slows down, and
    /// early in the swing the sound of the hit is asked for.
    pub fn melee_attack_hit_enemy(&mut self, world: &mut World)
        ensures
            *final(self) == (Player { falling_slow_time: SLOW_FALL, ..*old(self) }),
            if old(self).melee_attack_cooldown >= HIT_SOUND_COOLDOWN {
                &&& final(world).asks_for_sound(
                    "melee_hit_target"@,
                    "./resources/sfx/melee_hit_target.mp3"@,
                    800,
                )
                &&& final(world).sounds_but(old(world), set!["melee_hit_target"@])
                &&& final(world).same_queues(old(world))
            } else {
                *final(world) == *old(world)
            },
    {
        self.falling_slow_time = SLOW_FALL;
        if self.melee_attack_cooldown >= HIT_SOUND_COOLDOWN {
            world.play_sound("melee_hit_target", "./resources/sfx/melee_hit_target.mp3", 800);
        }
    }
}

/// Whether `sprite` is `before` after starting the animation `name`, if the
/// assets hold it, and `before` itself otherwise.
pub open spec fn plays_if_held(
    before: &Sprite,
    sprite: &Sprite,
    name: Seq<char>,
    image_assets: &ImageAssets,
) -> bool {
    if image_assets.animations().contains_key(name) {
        plays(before, sprite, name, image_assets)
    } else {
        *sprite == *before
    }
}

/// Whether `sprite` is `before` after starting the animation `name` of the
/// assets.
pub open spec fn plays(
    before: &Sprite,
    sprite: &Sprite,
    name: Seq<char>,
    image_assets: &ImageAssets,
) -> bool {
    &&& sprite.animation.frames@ == whole_frames(image_assets.animations()[name]@)
    &&& sprite.animation.name@ == name
    &&& sprite.animation.frame_length == frame_length_at(image_assets.rate_of(name))
    &&& sprite.frame_index == 0
    &&& sprite.frame_duration == 0
    &&& !sprite.pause
    &&& sprite.is_loop == before.is_loop
    &&& sprite.position == before.position
    &&& sprite.scale == before.scale
    &&& sprite.anchor == before.anchor
    &&& sprite.alpha == before.alpha
    &&& sprite.size == before.size
    &&& sprite.color == before.color
}

/// Distance the player walks per tick.
pub const WALK_SPEED: i32 = 6_000;

/// Distance the player walks per tick while its fall is slowed.
pub const SLOW_WALK_SPEED: i32 = 2_000;

/// Distance the crosshair moves per tick.
pub const CROSSHAIR_SPEED: i32 = 8_000;

/// Milliseconds for which a jump rises.
pub const JUMP_TIME: u128 = 200;

/// Distance a jumping player rises per tick.
pub const JUMP_RISE: i32 = 4_800;

/// Distance a player in a slowed fall drops per tick.
pub const SLOW_GRAVITY: i32 = 800;

/// Milliseconds after rising before the player starts to fall.
pub const HANG_TIME: u128 = 50;

/// How far above the floor line the player still counts as standing.
pub const GROUND_MARGIN: i32 = 10_000;

/// Milliseconds for which a press of the attack key is remembered.
pub const ATTACK_BUFFER: u128 = 80;

/// Milliseconds for which a melee attack hits.
pub const MELEE_ATTACK_TIME: u128 = 120;

/// Milliseconds between the starts of two melee attacks.
pub const MELEE_COOLDOWN: u128 = 350;

/// Milliseconds of holding the attack key after which the ranged weapon is
/// drawn.
pub const RANGE_HOLD: u128 = 150;

/// Milliseconds for which the ranged weapon fires once it is used.
pub const RANGE_ATTACK_TIME: u128 = 120;

/// Milliseconds between two shots of the ranged weapon.
pub const RANGE_COOLDOWN: u128 = 60;

/// Pixels per tick at which a dash starts.
pub const DASH_SPEED: i32 = 30;

/// Speed of the player's bullets.
pub const PLAYER_BULLET_SPEED: i32 = 10_000;

/// Radius of the player's bullets.
pub const PLAYER_BULLET_RADIUS: u32 = 6_000;

/// How far above the hit point the player's bullets start.
pub const MUZZLE_HEIGHT: i32 = 8_000;

/// The parameters of the player's bullets.
pub open spec fn player_bullet_extra() -> Seq<char> {
    "idle_animation=player-bullet-idle|firing_animation=player-bullet-firing|hit_animation=player-bullet-hit|scale=1.8|"@
}

/// The request for a bullet of the player `player_number` that flies from
/// `from` towards `target`.
pub open spec fn is_player_shot(
    node: &BulletSpawnNode,
    player_number: i32,
    from: Vec2,
    target: Vec2,
) -> bool {
    &&& node.bullet_type == 1
    &&& node.position == from
    &&& node.owner_type == BulletOwner::PLAYER(player_number)
    &&& node.rotation == turn_of(target.x - from.x, target.y - from.y)
    &&& node.speed == PLAYER_BULLET_SPEED
    &&& node.radius == PLAYER_BULLET_RADIUS
    &&& node.extra@ == player_bullet_extra()
}

/// Asks for a bullet of a player.
fn spawn_bullet(world: &mut World, player_number: i32, from: Vec2, target: Vec2)
    ensures
        final(world).same_but_bullets(old(world)),
        final(world).bullet_spawn_nodes@.len() == old(world).bullet_spawn_nodes@.len() + 1,
        final(world).bullet_spawn_nodes@.drop_last() == old(world).bullet_spawn_nodes@,
        is_player_shot(&final(world).bullet_spawn_nodes@.last(), player_number, from, target),
{
    let rotation = rotation_towards(from, target);
    world.request_bullet(
        BulletSpawnNode {
            bullet_type: 1,
            position: from,
            owner_type: BulletOwner::PLAYER(player_number),
            rotation,
            speed: PLAYER_BULLET_SPEED,
            radius: PLAYER_BULLET_RADIUS,
            extra: String::from_str(
                "idle_animation=player-bullet-idle|firing_animation=player-bullet-firing|hit_animation=player-bullet-hit|scale=1.8|",
            ),
        },
    );
    assert(world.bullet_spawn_nodes@.drop_last() == old(world).bullet_spawn_nodes@);
}

/// A point one tick of falling further down; it stops at the floor line.
pub open spec fn fallen(position: Vec2, falling_slow_time: u128) -> Vec2 {
    let y = saturate(
        position.y + if falling_slow_time == 0 {
            crate::GRAVITY
        } else {
            SLOW_GRAVITY
        },
    );
    Vec2 {
        x: position.x,
        y: if y > crate::GROUND {
            crate::GROUND
        } else {
            y as i32
        },
    }
}

fn apply_gravity(position: &mut Vec2, falling_slow_time: u128)
    ensures
        *final(position) == fallen(*old(position), falling_slow_time),
{
    let drop: i64 = if falling_slow_time == 0 {
        crate::GRAVITY as i64
    } else {
        SLOW_GRAVITY as i64
    };
    let y = saturate_i64(position.y as i64 + drop);
    position.y = if y > crate::GROUND {
        crate::GROUND
    } else {
        y
    };
}

/// Whether a point is on the ground, or so little above it that it counts
/// as on it.
pub open spec fn grounded(position: Vec2) -> bool {
    position.y >= crate::GROUND - GROUND_MARGIN
}

fn on_the_ground(position: Vec2) -> (on: bool)
    ensures
        on == grounded(position),
{
    position.y >= crate::GROUND - GROUND_MARGIN
}

impl Player {
    /// The first step of a tick with the melee weapon: the player walks as
    /// the keys say, or dashes on, the dash slowing down.
    pub open spec fn walked(self) -> Player {
        let speed = if self.falling_slow_time == 0 {
            WALK_SPEED
        } else {
            SLOW_WALK_SPEED
        };
        if self.dash_speed == 0 {
            if self.controller.right_key.held() {
                Player {
                    animation_state: PlayerState::Run,
                    position: self.position.moved(speed as int, 0),
                    direction: if self.attacking() {
                        self.direction
                    } else {
                        1
                    },
                    ..self
                }
            } else if self.controller.left_key.held() {
                Player {
                    animation_state: PlayerState::Run,
                    position: self.position.moved(-speed, 0),
                    direction: if self.attacking() {
                        self.direction
                    } else {
                        -1i32
                    },
                    ..self
                }
            } else {
                Player { animation_state: PlayerState::Stand, ..self }
            }
        } else {
            let dash: int = if self.dash_speed - 1 > 0 {
                self.dash_speed - 1
            } else {
                0
            };
            Player {
                animation_state: PlayerState::Run,
                dash_speed: dash as i32,
                position: self.position.moved(saturate(dash * self.direction * 1000), 0),
                ..self
            }
        }
    }

    /// The second step: the player jumps off the ground if the up key is
    /// held, and remembers a press of the attack key.
    pub open spec fn keyed(self) -> Player {
        let jumps = self.controller.up_key.held() && grounded(self.position);
        Player {
            jump_speed: if jumps {
                JUMP_TIME
            } else {
                self.jump_speed
            },
            fall_time: if jumps {
                0
            } else {
                self.fall_time
            },
            melee_attack_button_buffer: if self.controller.attack_key.pressed() {
                ATTACK_BUFFER
            } else {
                self.melee_attack_button_buffer
            },
            ..self
        }
    }

    /// Whether a melee attack starts: a press of the attack key is
    /// remembered, and no attack is under way or cooling down.
    pub open spec fn swings(&self) -> bool {
        self.melee_attack_button_buffer > 0 && self.melee_attack_time == 0
            && self.melee_attack_cooldown == 0
    }

    /// The third step: a melee attack starts if `swings` holds.
    pub open spec fn swung(self) -> Player {
        if self.swings() {
            Player {
                melee_attack_time: MELEE_ATTACK_TIME,
                melee_attack_cooldown: MELEE_COOLDOWN,
                ..self
            }
        } else {
            self
        }
    }

    /// The last step: holding the attack key draws the ranged weapon, and a
    /// press of the switch key starts a dash; neither during a dash.
    pub open spec fn drawn(self) -> Player {
        if self.controller.attack_key.hold_time > RANGE_HOLD && self.dash_speed == 0 {
            Player { weapon_type: WeaponType::Range, ..self }
        } else if self.controller.switch_key.pressed() && self.dash_speed == 0 {
            Player { dash_speed: DASH_SPEED, ..self }
        } else {
            self
        }
    }

    /// The player after a tick of movement with the melee weapon.
    pub open spec fn melee_moved(self) -> Player {
        self.walked().keyed().swung().drawn()
    }

    fn walk(&mut self)
        ensures
            *final(self) == old(self).walked(),
    {
        let speed: i32 = if self.falling_slow_time == 0 {
            WALK_SPEED
        } else {
            SLOW_WALK_SPEED
        };
        self.animation_state = PlayerState::Stand;
        if self.dash_speed == 0 {
            if self.controller.right() {
                self.position = self.position.translate(speed, 0);
                if !self.is_attacking() {
                    self.direction = 1;
                }
                self.animation_state = PlayerState::Run;
            } else if self.controller.left() {
                self.position = self.position.translate(-speed, 0);
                if !self.is_attacking() {
                    self.direction = -1;
                }
                self.animation_state = PlayerState::Run;
            }
        } else {
            let dash: i32 = if self.dash_speed > 1 {
                self.dash_speed - 1
            } else {
                0
            };
            self.dash_speed = dash;
            assert(-0x4000_0000_0000_0000 <= (dash as i128) * (self.direction as i128)
                <= 0x4000_0000_0000_0000) by (nonlinear_arith)
                requires
                    0 <= dash as i128 <= 0x8000_0000,
                    -0x8000_0000 <= self.direction as i128 <= 0x8000_0000,
            ;
            let run: i128 = (dash as i128) * (self.direction as i128) * 1000;
            let step: i32 = if run > i32::MAX as i128 {
                i32::MAX
            } else if run < i32::MIN as i128 {
                i32::MIN
            } else {
                run as i32
            };
            self.position = self.position.translate(step, 0);
            self.animation_state = PlayerState::Run;
        }
    }

    /// A tick of movement with the melee weapon. A melee attack that starts
    /// plays the slash animation, if the assets hold it, and asks for its
    /// sound.
    fn melee_movement(player: &mut Player, world: &mut World, image_assets: &ImageAssets)
        ensures
            final(player).same_body(&old(player).melee_moved()),
            final(player).skin == old(player).skin,
            if old(player).walked().keyed().swings() {
                &&& final(world).asks_for_sound("melee_hit"@, "./resources/sfx/melee_hit.mp3"@, 600)
                &&& final(world).sounds_but(old(world), set!["melee_hit"@])
                &&& final(world).same_queues(old(world))
                &&& old(player).is_dead || !image_assets.animations().contains_key(
                    "player-slash"@,
                ) ==> final(player).slash == old(player).slash
                &&& !old(player).is_dead && image_assets.animations().contains_key(
                    "player-slash"@,
                ) ==> plays(
                    &(Sprite { is_loop: false, ..old(player).slash }),
                    &final(player).slash,
                    "player-slash"@,
                    image_assets,
                )
            } else {
                final(player).slash == old(player).slash && *final(world) == *old(world)
            },
    {
        player.walk();
        if player.controller.up() && on_the_ground(player.position) {
            player.jump_speed = JUMP_TIME;
            player.fall_time = 0;
        }
        if player.controller.attack() {
            player.melee_attack_button_buffer = ATTACK_BUFFER;
        }
        assert(*player == old(player).walked().keyed());
        if player.melee_attack_button_buffer > 0 && player.melee_attack_time == 0
            && player.melee_attack_cooldown == 0 {
            player.melee_attack_time = MELEE_ATTACK_TIME;
            player.melee_attack_cooldown = MELEE_COOLDOWN;
            if !player.is_dead {
                match image_assets.get_animation_object("player-slash") {
                    Some(animation) => {
                        player.slash.play(&animation);
                        player.slash.set_loop(false);
                    },
                    None => (),
                }
            }
            world.play_sound("melee_hit", "./resources/sfx/melee_hit.mp3", 600);
        }
        if player.controller.attack_holding() > RANGE_HOLD && player.dash_speed == 0 {
            player.weapon_type = WeaponType::Range;
        } else if player.controller.switch() && player.dash_speed == 0 {
            player.dash_speed = DASH_SPEED;
        }
    }

    /// The first step of a tick with the ranged weapon: the player faces the
    /// crosshair, and the crosshair moves as the keys say.
    pub open spec fn sighted(self) -> Player {
        let c = self.controller;
        let dx: int = if c.right_key.held() {
            CROSSHAIR_SPEED as int
        } else if c.left_key.held() {
            -CROSSHAIR_SPEED
        } else {
            0
        };
        let dy: int = if c.up_key.held() {
            -CROSSHAIR_SPEED
        } else if c.down_key.held() {
            CROSSHAIR_SPEED as int
        } else {
            0
        };
        Player {
            animation_state: PlayerState::Stand,
            direction: if self.crosshair_position.x < self.position.x {
                -1i32
            } else {
                1i32
            },
            crosshair_position: self.crosshair_position.moved(dx, 0).moved(0, dy),
            ..self
        }
    }

    /// The second step: letting go of the attack key, or a dash, puts the
    /// ranged weapon away; a press of the switch key starts a dash.
    pub open spec fn holstered(self) -> Player {
        if self.controller.attack_key.hold_time == 0 || self.dash_speed > 0 {
            Player { weapon_type: WeaponType::Melee, ..self }
        } else if self.controller.switch_key.pressed() && self.dash_speed == 0 {
            Player { dash_speed: DASH_SPEED, ..self }
        } else {
            self
        }
    }

    /// The third step: holding the attack key makes the ranged weapon fire
    /// for a while.
    pub open spec fn triggered(self) -> Player {
        if self.controller.attack_key.hold_time > 0 && self.range_attack_time == 0 {
            Player { range_attack_time: RANGE_ATTACK_TIME, ..self }
        } else {
            self
        }
    }

    /// Whether the ranged weapon fires a bullet: it is firing and has
    /// cooled down.
    pub open spec fn shoots(&self) -> bool {
        self.range_attack_time > 0 && self.range_attack_cooldown == 0
    }

    /// The last step: a shot makes the ranged weapon cool down.
    pub open spec fn shot(self) -> Player {
        if self.shoots() {
            Player { range_attack_cooldown: RANGE_COOLDOWN, ..self }
        } else {
            self
        }
    }

    /// The player after a tick of movement with the ranged weapon.
    pub open spec fn range_moved(self) -> Player {
        self.sighted().holstered().triggered().shot()
    }

    /// A tick of movement with the ranged weapon. A shot asks for a bullet
    /// that flies from above the player's hit point towards the crosshair.
    fn range_movement(player: &mut Player, world: &mut World)
        ensures
            *final(player) == old(player).range_moved(),
            if old(player).sighted().holstered().triggered().shoots() {
                &&& final(world).same_but_bullets(old(world))
                &&& final(world).bullet_spawn_nodes@.len() == old(world).bullet_spawn_nodes@.len()
                    + 1
                &&& final(world).bullet_spawn_nodes@.drop_last() == old(world).bullet_spawn_nodes@
                &&& is_player_shot(
                    &final(world).bullet_spawn_nodes@.last(),
                    old(player).player_number,
                    old(player).hit_point().moved(0, -MUZZLE_HEIGHT),
                    final(player).crosshair_position,
                )
            } else {
                *final(world) == *old(world)
            },
    {
        player.animation_state = PlayerState::Stand;
        if player.crosshair_position.x < player.position.x {
            player.direction = -1;
        } else {
            player.direction = 1;
        }
        if player.controller.right() {
            player.crosshair_position = player.crosshair_position.translate(CROSSHAIR_SPEED, 0);
        } else if player.controller.left() {
            player.crosshair_position = player.crosshair_position.translate(-CROSSHAIR_SPEED, 0);
        }
        if player.controller.up() {
            player.crosshair_position = player.crosshair_position.translate(0, -CROSSHAIR_SPEED);
        } else if player.controller.down() {
            player.crosshair_position = player.crosshair_position.translate(0, CROSSHAIR_SPEED);
        }
        assert(*player == old(player).sighted());
        if player.controller.attack_holding() == 0 || player.dash_speed > 0 {
            player.weapon_type = WeaponType::Melee;
        } else if player.controller.switch() && player.dash_speed == 0 {
            player.dash_speed = DASH_SPEED;
        }
        if player.controller.attack_holding() > 0 && player.range_attack_time == 0 {
            player.range_attack_time = RANGE_ATTACK_TIME;
        }
        if player.range_attack_time > 0 && player.range_attack_cooldown == 0 {
            player.range_attack_cooldown = RANGE_COOLDOWN;
            let from = player.get_hit_point_position().translate(0, -MUZZLE_HEIGHT);
            spawn_bullet(world, player.player_number, from, player.crosshair_position);
        }
    }
}

/// What a tick of movement does to the skin of a player that starts the
/// tick as `player`: a living player shows the animation of the state it
/// ends up in, if the assets hold it and it is not playing yet.
pub open spec fn movement_skin(
    player: &Player,
    before: &Sprite,
    skin: &Sprite,
    image_assets: &ImageAssets,
) -> bool {
    let name = animation_of(player.weapon_moved().lifted().animation_state);
    if !player.is_dead && image_assets.animations().contains_key(name) && before.animation.name@
        != name {
        plays(before, skin, name, image_assets)
    } else {
        *skin == *before
    }
}

/// What a tick of movement does to the slash of a player that starts the
/// tick as `player`: a melee attack that starts plays the slash once, if the
/// assets hold it.
pub open spec fn movement_slash(
    player: &Player,
    before: &Sprite,
    slash: &Sprite,
    image_assets: &ImageAssets,
) -> bool {
    if player.strikes() && image_assets.animations().contains_key("player-slash"@) {
        plays(&(Sprite { is_loop: false, ..*before }), slash, "player-slash"@, image_assets)
    } else {
        *slash == *before
    }
}

/// What dying does to the skin of a player: it plays the animation of the
/// death once, if the assets hold it and it is not playing yet.
pub open spec fn death_skin(before: &Sprite, skin: &Sprite, image_assets: &ImageAssets) -> bool {
    if before.animation.name@ != "player-die"@ && image_assets.animations().contains_key(
        "player-die"@,
    ) {
        plays(&(Sprite { is_loop: false, ..*before }), skin, "player-die"@, image_assets)
    } else {
        *skin == *before
    }
}

/// The cues of the sounds that a player asks for in the tick that starts
/// from `player`, the keys being read already.
pub open spec fn player_cues(player: &Player, camera: Vec2) -> Set<Seq<char>> {
    let struck: Set<Seq<char>> = if player.strikes() {
        set!["melee_hit"@]
    } else {
        Set::empty()
    };
    if player.moved(camera).with_clocks_run_down().dies() {
        struck.insert("player_die"@)
    } else {
        struck
    }
}

/// The name of the animation that shows a state of the player.
pub open spec fn animation_of(state: PlayerState) -> Seq<char> {
    match state {
        PlayerState::Jump => "player-jump"@,
        PlayerState::Stand => "player-stand"@,
        PlayerState::Run => "player-run"@,
    }
}

impl Player {
    /// The player after the movement that its weapon allows; a dead player
    /// does not move by itself.
    pub open spec fn weapon_moved(self) -> Player {
        if self.is_dead {
            self
        } else {
            match self.weapon_type {
                WeaponType::Melee => self.melee_moved(),
                WeaponType::Range => self.range_moved(),
            }
        }
    }

    /// Whether the player fires a bullet in the tick that starts from this
    /// state.
    pub open spec fn fires(&self) -> bool {
        !self.is_dead && self.weapon_type == WeaponType::Range
            && self.sighted().holstered().triggered().shoots()
    }

    /// Whether the player starts a melee attack in the tick that starts from
    /// this state.
    pub open spec fn strikes(&self) -> bool {
        !self.is_dead && self.weapon_type == WeaponType::Melee && self.walked().keyed().swings()
    }

    /// The player after rising or falling for a tick. A player off the
    /// ground shows its jump. While the jump lasts the player rises; after
    /// it the player hangs for a moment and then falls.
    pub open spec fn lifted(self) -> Player {
        let state = if grounded(self.position) {
            self.animation_state
        } else {
            PlayerState::Jump
        };
        if self.jump_speed == 0 {
            Player {
                animation_state: state,
                position: if self.fall_time > HANG_TIME {
                    fallen(self.position, self.falling_slow_time)
                } else {
                    self.position
                },
                fall_time: crate::gameplay::input::wound(self.fall_time, crate::ONE_FRAME),
                ..self
            }
        } else {
            Player {
                animation_state: state,
                jump_speed: crate::tick_down_spec(self.jump_speed),
                position: self.position.moved(0, -JUMP_RISE),
                ..self
            }
        }
    }

    /// The player with itself and its crosshair pulled back into the
    /// visible area.
    pub open spec fn confined(self, camera: Vec2) -> Player {
        Player {
            position: clamped_inside_camera_area(camera, self.position),
            crosshair_position: clamped_inside_camera_area(camera, self.crosshair_position),
            ..self
        }
    }

    /// The player after a tick of movement.
    pub open spec fn moved(self, camera: Vec2) -> Player {
        self.weapon_moved().lifted().confined(camera)
    }

    /// A tick of movement: the player moves as its weapon allows, rises or
    /// falls, shows the animation of its state if the assets hold it, and
    /// stays inside the visible area.
    fn update_movement(player: &mut Player, world: &mut World, image_assets: &ImageAssets)
        ensures
            final(player).same_body(&old(player).moved(old(world).camera_position)),
            final(world).camera_position == old(world).camera_position,
            final(world).enemy_spawn_nodes == old(world).enemy_spawn_nodes,
            final(world).particle_spawn_nodes == old(world).particle_spawn_nodes,
            if old(player).fires() {
                &&& final(world).same_but_bullets(old(world))
                &&& final(world).bullet_spawn_nodes@.len() == old(world).bullet_spawn_nodes@.len()
                    + 1
                &&& final(world).bullet_spawn_nodes@.drop_last() == old(world).bullet_spawn_nodes@
                &&& is_player_shot(
                    &final(world).bullet_spawn_nodes@.last(),
                    old(player).player_number,
                    old(player).hit_point().moved(0, -MUZZLE_HEIGHT),
                    old(player).range_moved().crosshair_position,
                )
            } else {
                final(world).bullet_spawn_nodes == old(world).bullet_spawn_nodes
            },
            if old(player).strikes() {
                &&& final(world).asks_for_sound("melee_hit"@, "./resources/sfx/melee_hit.mp3"@, 600)
                &&& final(world).sounds_but(old(world), set!["melee_hit"@])
            } else {
                final(world).play_sound_nodes == old(world).play_sound_nodes
            },
            movement_skin(old(player), &old(player).skin, &final(player).skin, image_assets),
            movement_slash(old(player), &old(player).slash, &final(player).slash, image_assets),
    {
        if !player.is_dead {
            match player.weapon_type {
                WeaponType::Melee => {
                    Player::melee_movement(player, world, image_assets);
                },
                WeaponType::Range => {
                    Player::range_movement(player, world);
                },
            }
        }
        assert(player.same_body(&old(player).weapon_moved()));
        if !on_the_ground(player.position) {
            player.animation_state = PlayerState::Jump;
        }
        if player.jump_speed == 0 {
            if player.fall_time > HANG_TIME {
                apply_gravity(&mut player.position, player.falling_slow_time);
            }
            player.fall_time = player.fall_time.saturating_add(crate::ONE_FRAME);
        } else {
            player.jump_speed = crate::tick_down(player.jump_speed);
            player.position = player.position.translate(0, -JUMP_RISE);
        }
        assert(player.same_body(&old(player).weapon_moved().lifted()));
        if !player.is_dead {
            let animation_name = match player.animation_state {
                PlayerState::Jump => "player-jump",
                PlayerState::Stand => "player-stand",
                PlayerState::Run => "player-run",
            };
            match image_assets.get_animation_object(animation_name) {
                Some(animation) => {
                    if *player.skin.get_current_animation_name() != String::from_str(
                        animation_name,
                    ) {
                        player.skin.play(&animation);
                    }
                },
                None => (),
            }
        }
        clamp_position_inside_camera_area(world.camera_position, &mut player.position);
        clamp_position_inside_camera_area(world.camera_position, &mut player.crosshair_position);
    }

    /// The player after a tick, but for its sprites: the keys are read, the
    /// player moves, its clocks run down, and a player without health dies.
    pub open spec fn stepped(self, keys: KeyStates, camera: Vec2) -> Player {
        let moved = self.with_keys(keys).moved(camera).with_clocks_run_down();
        if moved.health == 0 && !moved.is_dead {
            Player { is_dead: true, jump_speed: 30, fall_time: 0, ..moved }
        } else {
            moved
        }
    }

    /// Whether a player in this state dies: it has no health left and is
    /// not dead yet.
    pub open spec fn dies(&self) -> bool {
        self.health == 0 && !self.is_dead
    }

    /// The player after its keys were read.
    pub open spec fn with_keys(self, keys: KeyStates) -> Player {
        Player { controller: self.controller.updated(keys), ..self }
    }

    /// One tick of the player; see `player_ticked`.
    pub fn update(&mut self, keys: KeyStates, world: &mut World, image_assets: &ImageAssets)
        ensures
            player_ticked(old(self), final(self), old(world), final(world), keys, image_assets),
    {
        self.controller.update(keys);
        self.skin.update();
        self.slash.update();
        let ghost read = *self;
        Player::update_movement(self, world, image_assets);
        let ghost shown = self.skin;
        let ghost moved_world = *world;
        Player::decrease_values_over_time(self);
        proof {
            let keyed = old(self).with_keys(keys);
            assert(read.same_body(&keyed));
            lemma_moved_by_body(read, keyed, old(world).camera_position);
            assert(movement_skin(&keyed, &old(self).skin.advanced().0, &shown, image_assets));
            reveal_strlit("melee_hit");
            reveal_strlit("player_die");
            assert("melee_hit"@.len() != "player_die"@.len());
            if keyed.strikes() {
                assert(moved_world.play_sound_nodes@.dom() =~= old(world).play_sound_nodes@.dom().union(
                    set!["melee_hit"@],
                ));
            } else {
                assert(moved_world.play_sound_nodes@.dom() =~= old(world).play_sound_nodes@.dom().union(
                    Set::<Seq<char>>::empty(),
                ));
            }
        }
        if self.health == 0 && !self.is_dead {
            self.die(world);
            if *self.skin.get_current_animation_name() != String::from_str("player-die") {
                match image_assets.get_animation_object("player-die") {
                    Some(animation) => {
                        self.skin.set_loop(false);
                        self.skin.play(&animation);
                    },
                    None => {},
                }
            }
            proof {
                let keyed = old(self).with_keys(keys);
                let cues = player_cues(&keyed, old(world).camera_position);
                assert(world.play_sound_nodes@.dom() =~= old(world).play_sound_nodes@.dom().union(
                    cues,
                ));
                assert("melee_hit"@ != "player_die"@);
                assert(!set!["player_die"@].contains("melee_hit"@));
                assert(world.sounds_but(&moved_world, set!["player_die"@]));
                if keyed.strikes() {
                    assert(moved_world.play_sound_nodes@.contains_key("melee_hit"@));
                    assert(world.play_sound_nodes@["melee_hit"@]
                        == moved_world.play_sound_nodes@["melee_hit"@]);
                }
                assert forall|k: Seq<char>|
                    !cues.contains(k) && old(world).play_sound_nodes@.contains_key(
                        k,
                    ) implies world.play_sound_nodes@[k] == old(world).play_sound_nodes@[k] by {
                    assert(cues.contains("player_die"@));
                    assert(k != "player_die"@);
                    if keyed.strikes() {
                        assert(cues.contains("melee_hit"@));
                        assert(!set!["melee_hit"@].contains(k));
                    }
                    assert(moved_world.play_sound_nodes@.dom().contains(k));
                    assert(moved_world.play_sound_nodes@[k] == old(world).play_sound_nodes@[k]);
                    assert(!set!["player_die"@].contains(k));
                    assert(world.play_sound_nodes@[k] == moved_world.play_sound_nodes@[k]);
                }
                assert(death_skin(&shown, &self.skin, image_assets));
            }
        } else {
            proof {
                let keyed = old(self).with_keys(keys);
                let cues = player_cues(&keyed, old(world).camera_position);
                if keyed.strikes() {
                    assert(cues =~= set!["melee_hit"@]);
                } else {
                    assert(cues =~= Set::<Seq<char>>::empty());
                }
            }
        }
    }
}

/// What one tick does to the player and the world. The keys are read, the
/// animations move on, the player moves, its clocks run down, and a player
/// without health dies; see `Player::stepped`. A shot asks for a bullet, the
/// start of a melee attack and the death of the player ask for their
/// sounds, and the sprites show what the player does.
pub open spec fn player_ticked(
    before: &Player,
    after: &Player,
    world_before: &World,
    world: &World,
    keys: KeyStates,
    image_assets: &ImageAssets,
) -> bool {
    &&& after.same_body(&before.stepped(keys, world_before.camera_position))
    &&& world.camera_position == world_before.camera_position
    &&& world.enemy_spawn_nodes == world_before.enemy_spawn_nodes
    &&& world.particle_spawn_nodes == world_before.particle_spawn_nodes
    &&& if before.with_keys(keys).fires() {
        &&& world.bullet_spawn_nodes@.len() == world_before.bullet_spawn_nodes@.len()
            + 1
        &&& world.bullet_spawn_nodes@.drop_last() == world_before.bullet_spawn_nodes@
        &&& is_player_shot(
            &world.bullet_spawn_nodes@.last(),
            before.player_number,
            before.hit_point().moved(0, -MUZZLE_HEIGHT),
            before.with_keys(keys).range_moved().crosshair_position,
        )
    } else {
        world.bullet_spawn_nodes == world_before.bullet_spawn_nodes
    }
    &&& before.with_keys(keys).strikes() ==> world.asks_for_sound(
        "melee_hit"@,
        "./resources/sfx/melee_hit.mp3"@,
        600,
    )
    &&& before.with_keys(keys).moved(world_before.camera_position).with_clocks_run_down().dies()
        ==> world.asks_for_sound(
        "player_die"@,
        "./resources/sfx/player_die.mp3"@,
        800,
    )
    &&& world.sounds_but(
        world_before,
        player_cues(&before.with_keys(keys), world_before.camera_position),
    )
    &&& movement_slash(
        &before.with_keys(keys),
        &before.slash.advanced().0,
        &after.slash,
        image_assets,
    )
    &&& exists|shown: Sprite|
        {
            &&& #[trigger] movement_skin(
                &before.with_keys(keys),
                &before.skin.advanced().0,
                &shown,
                image_assets,
            )
            &&& if before.with_keys(keys).moved(
                world_before.camera_position,
            ).with_clocks_run_down().dies() {
                death_skin(&shown, &after.skin, image_assets)
            } else {
                after.skin == shown
            }
        }
}

/// How a player moves does not depend on its sprites.
proof fn lemma_moved_by_body(a: Player, b: Player, camera: Vec2)
    requires
        a.same_body(&b),
    ensures
        a.moved(camera).same_body(&b.moved(camera)),
        a.fires() == b.fires(),
        a.strikes() == b.strikes(),
        a.hit_point() == b.hit_point(),
        a.range_moved().crosshair_position == b.range_moved().crosshair_position,
{
    assert(a.walked().same_body(&b.walked()));
    assert(a.walked().keyed().same_body(&b.walked().keyed()));
    assert(a.walked().keyed().swung().same_body(&b.walked().keyed().swung()));
    assert(a.melee_moved().same_body(&b.melee_moved()));
    assert(a.sighted().same_body(&b.sighted()));
    assert(a.sighted().holstered().same_body(&b.sighted().holstered()));
    assert(a.sighted().holstered().triggered().same_body(&b.sighted().holstered().triggered()));
    assert(a.range_moved().same_body(&b.range_moved()));
    assert(a.weapon_moved().same_body(&b.weapon_moved()));
    assert(a.weapon_moved().lifted().same_body(&b.weapon_moved().lifted()));
}

} // verus!
