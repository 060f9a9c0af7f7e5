//! The level: camera target nodes, the spawn patterns they start, and the
//! clockwork that releases enemies from them.

use std::collections::VecDeque;

use vstd::prelude::*;
use vstd::string::*;

use crate::gameplay::enemy_manager::{tick_up, tick_up_spec};
use crate::gameplay::table::NameTable;
use crate::gameplay::utils::Vec2;
use crate::gameplay::world::World;
use crate::sprite::Sprite;

verus! {

/// A request for one enemy, to be spawned `delay` milliseconds after the
/// request in front of it.
pub struct EnemySpawnNode {
    /// Milliseconds to wait before the enemy is spawned.
    pub delay: u128,
    pub enemy_type: i32,
    pub position: Vec2,
    pub extra: String,
}

impl Clone for EnemySpawnNode {
    fn clone(&self) -> (copy: EnemySpawnNode)
        ensures
            copy == *self,
    {
        EnemySpawnNode {
            delay: self.delay,
            enemy_type: self.enemy_type,
            position: self.position,
            extra: self.extra.clone(),
        }
    }
}

impl EnemySpawnNode {
    /// Whether the request asks for this.
    pub open spec fn is_request(
        &self,
        delay: u128,
        enemy_type: i32,
        position: Vec2,
        extra: Seq<char>,
    ) -> bool {
        &&& self.delay == delay
        &&& self.enemy_type == enemy_type
        &&& self.position == position
        &&& self.extra@ == extra
    }

    pub fn new(delay: u128, enemy_type: i32, position: Vec2, extra: &str) -> (node: EnemySpawnNode)
        ensures
            node.is_request(delay, enemy_type, position, extra@),
    {
        EnemySpawnNode { delay, enemy_type, position, extra: String::from_str(extra) }
    }
}

/// An entry of a node's schedule: the pattern to start, `delay`
/// milliseconds after the entry in front of it.
pub struct PatternNode {
    pub delay: u128,
    /// Name of the pattern.
    pub pattern: String,
}

impl Clone for PatternNode {
    fn clone(&self) -> (copy: PatternNode)
        ensures
            copy == *self,
    {
        PatternNode { delay: self.delay, pattern: self.pattern.clone() }
    }
}

/// A camera target node: a place the camera travels to, with the patterns
/// that start once it is there.
pub struct NodePoint {
    pub name: String,
    pub position: Vec2,
    /// Milliseconds to wait at the cleared node before the camera moves on.
    pub waiting_time: u128,
    /// Name of the node that follows, if one does.
    pub next_node: Option<String>,
    pub spawn_patterns: VecDeque<PatternNode>,
}

/// A copy of a schedule.
fn copy_schedule(schedule: &VecDeque<PatternNode>) -> (copy: VecDeque<PatternNode>)
    ensures
        copy@ == schedule@,
{
    let mut copy: VecDeque<PatternNode> = VecDeque::new();
    let mut i: usize = 0;
    while i < schedule.len()
        invariant
            i <= schedule.len(),
            copy@ == schedule@.subrange(0, i as int),
        decreases schedule.len() - i,
    {
        copy.push_back(schedule[i].clone());
        assert(copy@ == schedule@.subrange(0, i + 1));
        i += 1;
    }
    assert(schedule@.subrange(0, i as int) == schedule@);
    copy
}

/// A copy of a pattern.
fn copy_pattern(pattern: &VecDeque<EnemySpawnNode>) -> (copy: VecDeque<EnemySpawnNode>)
    ensures
        copy@ == pattern@,
{
    let mut copy: VecDeque<EnemySpawnNode> = VecDeque::new();
    let mut i: usize = 0;
    while i < pattern.len()
        invariant
            i <= pattern.len(),
            copy@ == pattern@.subrange(0, i as int),
        decreases pattern.len() - i,
    {
        copy.push_back(pattern[i].clone());
        assert(copy@ == pattern@.subrange(0, i + 1));
        i += 1;
    }
    assert(pattern@.subrange(0, i as int) == pattern@);
    copy
}

/// Number of entries at the head of a schedule that start when
/// `duration` milliseconds have been spent in the node: each entry uses up
/// its delay.
pub open spec fn due(schedule: Seq<PatternNode>, duration: u128) -> nat
    decreases schedule.len(),
{
    if schedule.len() == 0 || duration < schedule[0].delay {
        0
    } else {
        1 + due(schedule.skip(1), (duration - schedule[0].delay) as u128)
    }
}

/// What is left of `duration` after the entries that are due have used up
/// their delays.
pub open spec fn time_left(schedule: Seq<PatternNode>, duration: u128) -> u128
    decreases schedule.len(),
{
    if schedule.len() == 0 || duration < schedule[0].delay {
        duration
    } else {
        time_left(schedule.skip(1), (duration - schedule[0].delay) as u128)
    }
}

/// The patterns that the entries `started` start, in order. An entry that
/// names no known pattern starts nothing.
pub open spec fn launched(
    started: Seq<PatternNode>,
    patterns: Map<Seq<char>, VecDeque<EnemySpawnNode>>,
) -> Seq<Seq<EnemySpawnNode>>
    decreases started.len(),
{
    if started.len() == 0 {
        Seq::empty()
    } else if patterns.contains_key(started.last().pattern@) {
        launched(started.drop_last(), patterns).push(patterns[started.last().pattern@]@)
    } else {
        launched(started.drop_last(), patterns)
    }
}

/// Whether every entry of `started` names a known pattern.
pub open spec fn all_known(
    started: Seq<PatternNode>,
    patterns: Map<Seq<char>, VecDeque<EnemySpawnNode>>,
) -> bool {
    forall|i: int| 0 <= i < started.len() ==> patterns.contains_key((#[trigger] started[i]).pattern@)
}

/// Number of requests at the head of a pattern that fire in a tick: those
/// whose delay is shorter than a tick.
pub open spec fn fired_count(pattern: Seq<EnemySpawnNode>) -> nat
    decreases pattern.len(),
{
    if pattern.len() == 0 || pattern[0].delay >= crate::ONE_FRAME {
        0
    } else {
        1 + fired_count(pattern.skip(1))
    }
}

/// The requests of a pattern that fire in a tick.
pub open spec fn fired(pattern: Seq<EnemySpawnNode>) -> Seq<EnemySpawnNode> {
    pattern.subrange(0, fired_count(pattern) as int)
}

/// A pattern after a tick: the requests that fired are gone, and the delay
/// of the first one that is left is shorter by a tick.
pub open spec fn ticked(pattern: Seq<EnemySpawnNode>) -> Seq<EnemySpawnNode> {
    let rest = pattern.skip(fired_count(pattern) as int);
    if rest.len() > 0 {
        rest.update(
            0,
            EnemySpawnNode { delay: (rest[0].delay - crate::ONE_FRAME) as u128, ..rest[0] },
        )
    } else {
        rest
    }
}

/// The requests that fire in a tick from the patterns `running`, in the
/// order of the patterns.
pub open spec fn all_fired(running: Seq<Seq<EnemySpawnNode>>) -> Seq<EnemySpawnNode>
    decreases running.len(),
{
    if running.len() == 0 {
        Seq::empty()
    } else {
        all_fired(running.drop_last()) + fired(running.last())
    }
}

/// The patterns `running` after a tick.
pub open spec fn all_ticked(running: Seq<Seq<EnemySpawnNode>>) -> Seq<Seq<EnemySpawnNode>> {
    Seq::new(running.len(), |i: int| ticked(running[i]))
}

/// Number of patterns at the head of `running` that have no request left.
pub open spec fn exhausted(running: Seq<Seq<EnemySpawnNode>>) -> nat
    decreases running.len(),
{
    if running.len() == 0 || running[0].len() > 0 {
        0
    } else {
        1 + exhausted(running.skip(1))
    }
}

pub proof fn lemma_due_bounds(schedule: Seq<PatternNode>, duration: u128)
    ensures
        due(schedule, duration) <= schedule.len(),
        time_left(schedule, duration) <= duration,
    decreases schedule.len(),
{
    if !(schedule.len() == 0 || duration < schedule[0].delay) {
        lemma_due_bounds(schedule.skip(1), (duration - schedule[0].delay) as u128);
    }
}

pub proof fn lemma_fired_bounds(pattern: Seq<EnemySpawnNode>)
    ensures
        fired_count(pattern) <= pattern.len(),
        forall|i: int| 0 <= i < fired_count(pattern) ==> (#[trigger] pattern[i]).delay < crate::ONE_FRAME,
        fired_count(pattern) < pattern.len() ==> pattern[fired_count(pattern) as int].delay
            >= crate::ONE_FRAME,
    decreases pattern.len(),
{
    if !(pattern.len() == 0 || pattern[0].delay >= crate::ONE_FRAME) {
        lemma_fired_bounds(pattern.skip(1));
        assert forall|i: int| 0 <= i < fired_count(pattern) implies (#[trigger] pattern[i]).delay
            < crate::ONE_FRAME by {
            if i > 0 {
                assert(pattern.skip(1)[i - 1] == pattern[i]);
            }
        }
        if fired_count(pattern) < pattern.len() {
            assert(pattern.skip(1)[fired_count(pattern.skip(1)) as int] == pattern[fired_count(
                pattern,
            ) as int]);
        }
    }
}

/// The requests that fire are those in front of the first one whose delay
/// lasts a tick or longer.
pub proof fn lemma_fired_count_is(pattern: Seq<EnemySpawnNode>, k: int)
    requires
        0 <= k <= pattern.len(),
        forall|i: int| 0 <= i < k ==> (#[trigger] pattern[i]).delay < crate::ONE_FRAME,
        k < pattern.len() ==> pattern[k].delay >= crate::ONE_FRAME,
    ensures
        fired_count(pattern) == k,
    decreases pattern.len(),
{
    if pattern.len() != 0 && k > 0 {
        assert(pattern[0].delay < crate::ONE_FRAME);
        assert forall|i: int| 0 <= i < k - 1 implies (#[trigger] pattern.skip(1)[i]).delay
            < crate::ONE_FRAME by {
            assert(pattern.skip(1)[i] == pattern[i + 1]);
        }
        if k - 1 < pattern.skip(1).len() {
            assert(pattern.skip(1)[k - 1] == pattern[k]);
        }
        lemma_fired_count_is(pattern.skip(1), k - 1);
    }
}

/// Lets one tick pass for a pattern: the requests at its head whose delay
/// is shorter than a tick fire, that is, they join the queue of enemy
/// requests and leave the pattern; the delay of the first request that is
/// left gets shorter by a tick.
pub fn tick_pattern(pattern: &mut VecDeque<EnemySpawnNode>, world: &mut World)
    ensures
        final(pattern)@ == ticked(old(pattern)@),
        final(world).enemy_spawn_nodes@ == old(world).enemy_spawn_nodes@ + fired(old(pattern)@),
        final(world).same_but_enemies(old(world)),
{
    let ghost before = pattern@;
    let ghost mut k: int = 0;
    proof {
        assert(before.skip(0) == before);
        assert(old(world).enemy_spawn_nodes@ + before.subrange(0, 0) == old(world).enemy_spawn_nodes@);
    }
    loop
        invariant_except_break
            pattern@ == before.skip(k),
            forall|i: int| 0 <= i < k ==> (#[trigger] before[i]).delay < crate::ONE_FRAME,
            world.enemy_spawn_nodes@ == old(world).enemy_spawn_nodes@ + before.subrange(0, k),
        invariant
            0 <= k <= before.len(),
            before == old(pattern)@,
            world.same_but_enemies(old(world)),
        ensures
            pattern@ == ticked(before),
            world.enemy_spawn_nodes@ == old(world).enemy_spawn_nodes@ + fired(before),
            world.same_but_enemies(old(world)),
        decreases before.len() - k,
    {
        match pattern.pop_front() {
            None => {
                proof {
                    lemma_fired_count_is(before, k);
                }
                break ;
            },
            Some(mut node) => {
                assert(node == before[k]);
                if node.delay >= crate::ONE_FRAME {
                    node.delay = node.delay - crate::ONE_FRAME;
                    pattern.push_front(node);
                    proof {
                        lemma_fired_count_is(before, k);
                        assert(pattern@ == ticked(before));
                    }
                    break ;
                }
                world.request_enemy(node);
                proof {
                    assert(before.subrange(0, k + 1) == before.subrange(0, k).push(before[k]));
                    assert(pattern@ == before.skip(k + 1));
                    k = k + 1;
                }
            },
        }
    }
}

/// The level: its nodes and patterns, the node the camera is bound for, and
/// the state of that node's schedule.
pub struct Level {
    /// Whether the current node's schedule is being worked off. Cleared
    /// when the schedule names a pattern that does not exist.
    pub is_start: bool,
    pub backgrounds: Vec<Sprite>,
    pub current_camera_target_node_name: Option<String>,
    pub all_nodes: NameTable<NodePoint>,
    pub patterns: NameTable<VecDeque<EnemySpawnNode>>,
    /// Milliseconds spent in the node since the last pattern started.
    pub spawn_duration: u128,
    /// What is left of the current node's schedule.
    pub current_node_spawn_patterns: VecDeque<PatternNode>,
    /// The patterns that have started and may still hold requests.
    pub active_patterns: Vec<VecDeque<EnemySpawnNode>>,
}

impl Level {
    /// What is left of the current node's schedule.
    pub open spec fn pending(&self) -> Seq<PatternNode> {
        self.current_node_spawn_patterns@
    }

    /// The patterns that have started, oldest first.
    pub open spec fn running(&self) -> Seq<Seq<EnemySpawnNode>> {
        Seq::new(self.active_patterns@.len(), |i: int| self.active_patterns@[i]@)
    }

    /// Whether the level has nothing left to spawn in the current node:
    /// the schedule has been worked off without a fault, and no pattern is
    /// running.
    pub open spec fn spawn_queue_empty(&self) -> bool {
        self.pending().len() == 0 && self.running().len() == 0 && self.is_start
    }

    /// Whether the two levels agree in everything but the state of the
    /// schedule.
    pub open spec fn same_map(&self, other: &Level) -> bool {
        &&& self.backgrounds == other.backgrounds
        &&& self.current_camera_target_node_name == other.current_camera_target_node_name
        &&& self.all_nodes == other.all_nodes
        &&& self.patterns == other.patterns
    }

    /// Whether the level is, but for its nodes and patterns, as a new level
    /// is: bound for the node `start`, with no schedule, no running pattern
    /// and no time spent.
    pub open spec fn is_new_but_maps(&self) -> bool {
        &&& !self.is_start
        &&& self.backgrounds@.len() == 0
        &&& self.current_camera_target_node_name is Some
        &&& self.current_camera_target_node_name->0@ == "start"@
        &&& self.spawn_duration == 0
        &&& self.pending().len() == 0
        &&& self.running().len() == 0
    }

    /// A level without nodes or patterns, bound for the node `start`.
    pub fn new() -> (level: Level)
        ensures
            level.is_new_but_maps(),
            level.all_nodes@ == Map::<Seq<char>, NodePoint>::empty(),
            level.patterns@ == Map::<Seq<char>, VecDeque<EnemySpawnNode>>::empty(),
    {
        Level {
            is_start: false,
            backgrounds: Vec::new(),
            current_camera_target_node_name: Some(String::from_str("start")),
            all_nodes: NameTable::new(),
            patterns: NameTable::new(),
            spawn_duration: 0,
            current_node_spawn_patterns: VecDeque::new(),
            active_patterns: Vec::new(),
        }
    }

    /// Adds a node, in place of the node of the same name if there is one.
    /// An empty `next_node_name` stands for no next node.
    pub fn add_camera_target_node(
        &mut self,
        name: &str,
        position: Vec2,
        waiting_time: u128,
        next_node_name: &str,
        spawn_patterns: VecDeque<PatternNode>,
    )
        ensures
            final(self).all_nodes@.dom() == old(self).all_nodes@.dom().insert(name@),
            final(self).all_nodes@[name@].name@ == name@,
            final(self).all_nodes@[name@].position == position,
            final(self).all_nodes@[name@].waiting_time == waiting_time,
            final(self).all_nodes@[name@].spawn_patterns == spawn_patterns,
            next_node_name@.len() == 0 ==> final(self).all_nodes@[name@].next_node is None,
            next_node_name@.len() != 0 ==> final(self).all_nodes@[name@].next_node is Some
                && final(self).all_nodes@[name@].next_node->0@ == next_node_name@,
            forall|k: Seq<char>|
                k != name@ && old(self).all_nodes@.contains_key(k) ==> final(self).all_nodes@[k]
                    == old(self).all_nodes@[k],
            final(self).is_start == old(self).is_start,
            final(self).backgrounds == old(self).backgrounds,
            final(self).current_camera_target_node_name == old(self).current_camera_target_node_name,
            final(self).patterns == old(self).patterns,
            final(self).spawn_duration == old(self).spawn_duration,
            final(self).current_node_spawn_patterns == old(self).current_node_spawn_patterns,
            final(self).active_patterns == old(self).active_patterns,
    {
        let next_node = if next_node_name.unicode_len() == 0 {
            None
        } else {
            Some(String::from_str(next_node_name))
        };
        let node = NodePoint {
            name: String::from_str(name),
            position,
            next_node,
            waiting_time,
            spawn_patterns,
        };
        self.all_nodes.insert(String::from_str(name), node);
    }

    /// Adds a pattern, in place of the pattern of the same name if there is
    /// one.
    pub fn add_pattern(&mut self, name: &str, pattern: VecDeque<EnemySpawnNode>)
        ensures
            final(self).patterns@ == old(self).patterns@.insert(name@, pattern),
            final(self).is_start == old(self).is_start,
            final(self).backgrounds == old(self).backgrounds,
            final(self).current_camera_target_node_name == old(self).current_camera_target_node_name,
            final(self).all_nodes == old(self).all_nodes,
            final(self).spawn_duration == old(self).spawn_duration,
            final(self).current_node_spawn_patterns == old(self).current_node_spawn_patterns,
            final(self).active_patterns == old(self).active_patterns,
    {
        self.patterns.insert(String::from_str(name), pattern);
    }

    /// Whether the level has nothing left to spawn in the current node.
    pub fn is_spawn_queue_empty(&self) -> (empty: bool)
        ensures
            empty == self.spawn_queue_empty(),
    {
        self.current_node_spawn_patterns.len() == 0 && self.active_patterns.len() == 0
            && self.is_start
    }

    /// A copy of the pattern `pattern`, if there is one.
    fn get_pattern(&self, pattern: &str) -> (found: Option<VecDeque<EnemySpawnNode>>)
        ensures
            match found {
                Some(list) => self.patterns@.contains_key(pattern@) && list@
                    == self.patterns@[pattern@]@,
                None => !self.patterns@.contains_key(pattern@),
            },
    {
        match self.patterns.get(pattern) {
            Some(list) => Some(copy_pattern(list)),
            None => None,
        }
    }

    pub fn get_node(&self, key: &str) -> (node: Option<&NodePoint>)
        ensures
            match node {
                Some(n) => self.all_nodes@.contains_key(key@) && *n == self.all_nodes@[key@],
                None => !self.all_nodes@.contains_key(key@),
            },
    {
        self.all_nodes.get(key)
    }

    pub fn all_nodes(&self) -> (nodes: &NameTable<NodePoint>)
        ensures
            *nodes == self.all_nodes,
    {
        &self.all_nodes
    }

    /// The name of the node the camera is bound for; empty if there is
    /// none.
    pub open spec fn current_name(&self) -> Seq<char> {
        match self.current_camera_target_node_name {
            Some(name) => name@,
            None => ""@,
        }
    }

    /// Makes `name` the current node if there is a node of that name: the
    /// schedule of that node is taken up from its start. If there is no such
    /// node the level has no current node, and the schedule stays as it
    /// is.
    pub fn set_current_node(&mut self, name: &str)
        ensures
            final(self).same_but_node(old(self)),
            if old(self).all_nodes@.contains_key(name@) {
                &&& final(self).current_camera_target_node_name is Some
                &&& final(self).current_camera_target_node_name->0@ == name@
                &&& final(self).pending() == old(self).all_nodes@[name@].spawn_patterns@
                &&& final(self).is_start
            } else {
                &&& final(self).current_camera_target_node_name is None
                &&& final(self).current_node_spawn_patterns == old(self).current_node_spawn_patterns
                &&& final(self).is_start == old(self).is_start
            },
    {
        match self.all_nodes.get(name) {
            Some(node) => {
                let schedule = copy_schedule(&node.spawn_patterns);
                self.current_camera_target_node_name = Some(String::from_str(name));
                self.current_node_spawn_patterns = schedule;
                self.is_start = true;
            },
            None => {
                self.current_camera_target_node_name = None;
            },
        }
    }

    /// Whether the two levels agree in everything but the current node, its
    /// schedule and whether the schedule is being worked off.
    pub open spec fn same_but_node(&self, other: &Level) -> bool {
        &&& self.backgrounds == other.backgrounds
        &&& self.all_nodes == other.all_nodes
        &&& self.patterns == other.patterns
        &&& self.spawn_duration == other.spawn_duration
        &&& self.active_patterns == other.active_patterns
    }

    /// The node the camera is bound for.
    pub fn get_current_node(&self) -> (node: Option<&NodePoint>)
        ensures
            match node {
                Some(n) => self.all_nodes@.contains_key(self.current_name()) && *n
                    == self.all_nodes@[self.current_name()],
                None => !self.all_nodes@.contains_key(self.current_name()),
            },
    {
        match &self.current_camera_target_node_name {
            Some(name) => self.get_node(name.as_str()),
            None => self.get_node(""),
        }
    }

    /// The node that follows the current one.
    pub fn get_next_node(&self) -> (node: Option<&NodePoint>)
        ensures
            match node {
                Some(n) => {
                    &&& self.all_nodes@.contains_key(self.current_name())
                    &&& self.all_nodes@[self.current_name()].next_node is Some
                    &&& self.all_nodes@.contains_key(
                        self.all_nodes@[self.current_name()].next_node->0@,
                    )
                    &&& *n == self.all_nodes@[self.all_nodes@[self.current_name()].next_node->0@]
                },
                None => {
                    ||| !self.all_nodes@.contains_key(self.current_name())
                    ||| self.all_nodes@[self.current_name()].next_node is None
                    ||| !self.all_nodes@.contains_key(
                        self.all_nodes@[self.current_name()].next_node->0@,
                    )
                },
            },
    {
        match self.get_current_node() {
            Some(current_node) => match &current_node.next_node {
                Some(next_node_name) => self.get_node(next_node_name.as_str()),
                None => None,
            },
            None => None,
        }
    }
}

/// Starting entries one after the other comes to the same as starting them
/// at once.
proof fn lemma_due_step(schedule: Seq<PatternNode>, duration: u128, k: int, now: u128)
    requires
        0 <= k < schedule.len(),
        due(schedule, duration) == k + due(schedule.skip(k), now),
        time_left(schedule, duration) == time_left(schedule.skip(k), now),
        now >= schedule[k].delay,
    ensures
        due(schedule, duration) == k + 1 + due(
            schedule.skip(k + 1),
            (now - schedule[k].delay) as u128,
        ),
        time_left(schedule, duration) == time_left(
            schedule.skip(k + 1),
            (now - schedule[k].delay) as u128,
        ),
{
    assert(schedule.skip(k)[0] == schedule[k]);
    assert(schedule.skip(k).skip(1) == schedule.skip(k + 1));
}

/// What one tick does to the level and to the queue of enemy requests.
///
/// While the current node has a schedule, the time spent in the node moves
/// on by a tick, after the entries that are due have started their
/// patterns; see `due`, `time_left` and `launched`. Then every running
/// pattern, the started ones included, lets its requests fire that are due,
/// into the queue of enemy requests; see `fired` and `ticked`. Last, the
/// patterns at the head of the running ones that have no request left are
/// dropped.
pub open spec fn level_ticked(before: &Level, after: &Level, world_before: &World, world: &World) -> bool {
    &&& after.same_map(before)
    &&& after.pending() == before.pending().skip(
        due(before.pending(), before.spawn_duration) as int,
    )
    &&& after.spawn_duration == if before.pending().len() > 0 {
        tick_up_spec(time_left(before.pending(), before.spawn_duration))
    } else {
        before.spawn_duration
    }
    &&& after.is_start == (before.is_start && all_known(
        before.pending().subrange(
            0,
            due(before.pending(), before.spawn_duration) as int,
        ),
        before.patterns@,
    ))
    &&& after.running() == all_ticked(before.started()).skip(
        exhausted(all_ticked(before.started())) as int,
    )
    &&& world.enemy_spawn_nodes@ == world_before.enemy_spawn_nodes@ + all_fired(
        before.started(),
    )
    &&& world.same_but_enemies(world_before)
}

impl Level {
    /// Starts the entries of the schedule that are due: each uses up its
    /// delay, leaves the schedule, and its pattern joins the running ones.
    /// An entry that names no pattern stops the schedule from counting as
    /// worked off.
    fn start_due_patterns(&mut self)
        ensures
            final(self).same_map(old(self)),
            final(self).pending() == old(self).pending().skip(
                due(old(self).pending(), old(self).spawn_duration) as int,
            ),
            final(self).spawn_duration == time_left(old(self).pending(), old(self).spawn_duration),
            final(self).is_start == (old(self).is_start && all_known(
                old(self).pending().subrange(
                    0,
                    due(old(self).pending(), old(self).spawn_duration) as int,
                ),
                old(self).patterns@,
            )),
            final(self).running() == old(self).running() + launched(
                old(self).pending().subrange(
                    0,
                    due(old(self).pending(), old(self).spawn_duration) as int,
                ),
                old(self).patterns@,
            ),
    {
        let ghost schedule = self.pending();
        let ghost duration = self.spawn_duration;
        let ghost mut k: int = 0;
        proof {
            assert(schedule.skip(0) == schedule);
            assert(schedule.subrange(0, 0) == Seq::<PatternNode>::empty());
            assert(self.running() + Seq::<Seq<EnemySpawnNode>>::empty() == self.running());
            lemma_due_bounds(schedule, duration);
        }
        while self.current_node_spawn_patterns.len() > 0
            && self.spawn_duration >= self.current_node_spawn_patterns[0].delay
            invariant
                0 <= k <= schedule.len(),
                schedule == old(self).pending(),
                duration == old(self).spawn_duration,
                self.same_map(old(self)),
                self.pending() == schedule.skip(k),
                due(schedule, duration) == k + due(schedule.skip(k), self.spawn_duration),
                time_left(schedule, duration) == time_left(schedule.skip(k), self.spawn_duration),
                self.is_start == (old(self).is_start && all_known(
                    schedule.subrange(0, k),
                    old(self).patterns@,
                )),
                self.running() == old(self).running() + launched(
                    schedule.subrange(0, k),
                    old(self).patterns@,
                ),
            decreases schedule.len() - k,
        {
            let ghost before = *self;
            let pattern_node = self.current_node_spawn_patterns.pop_front().unwrap();
            proof {
                assert(pattern_node == schedule[k]);
                lemma_due_step(schedule, duration, k, self.spawn_duration);
                assert(self.pending() == schedule.skip(k + 1));
                assert(schedule.subrange(0, k + 1).drop_last() == schedule.subrange(0, k));
                assert(schedule.subrange(0, k + 1).last() == schedule[k]);
            }
            match self.get_pattern(pattern_node.pattern.as_str()) {
                Some(new_list) => {
                    self.active_patterns.push(new_list);
                    proof {
                        assert(self.running() == before.running().push(new_list@));
                    }
                },
                None => {
                    self.is_start = false;
                    proof {
                        assert(self.running() == before.running());
                    }
                },
            }
            self.spawn_duration = self.spawn_duration - pattern_node.delay;
            proof {
                let more = schedule.subrange(0, k + 1);
                let seen = schedule.subrange(0, k);
                assert(all_known(more, old(self).patterns@) <==> all_known(
                    seen,
                    old(self).patterns@,
                ) && old(self).patterns@.contains_key(schedule[k].pattern@)) by {
                    if all_known(more, old(self).patterns@) {
                        assert forall|i: int| 0 <= i < seen.len() implies old(self).patterns@.contains_key((#[trigger] seen[i]).pattern@) by {
                            assert(more[i] == seen[i]);
                        }
                        assert(more[k] == schedule[k]);
                    }
                    if all_known(seen, old(self).patterns@) && old(self).patterns@.contains_key(
                        schedule[k].pattern@,
                    ) {
                        assert forall|i: int| 0 <= i < more.len() implies old(self).patterns@.contains_key((#[trigger] more[i]).pattern@) by {
                            if i < k {
                                assert(more[i] == seen[i]);
                            }
                        }
                    }
                }
                k = k + 1;
            }
        }
        proof {
            assert(due(schedule.skip(k), self.spawn_duration) == 0);
        }
    }

    /// Lets one tick pass for every running pattern, oldest first.
    fn tick_patterns(&mut self, world: &mut World)
        ensures
            final(self).same_map(old(self)),
            final(self).is_start == old(self).is_start,
            final(self).spawn_duration == old(self).spawn_duration,
            final(self).current_node_spawn_patterns == old(self).current_node_spawn_patterns,
            final(self).running() == all_ticked(old(self).running()),
            final(world).enemy_spawn_nodes@ == old(world).enemy_spawn_nodes@ + all_fired(
                old(self).running(),
            ),
            final(world).same_but_enemies(old(world)),
    {
        let ghost running = self.running();
        let n: usize = self.active_patterns.len();
        let mut i: usize = 0;
        proof {
            assert(running.subrange(0, 0) == Seq::<Seq<EnemySpawnNode>>::empty());
            assert(old(world).enemy_spawn_nodes@ + Seq::<EnemySpawnNode>::empty() == old(world).enemy_spawn_nodes@);
        }
        while i < n
            invariant
                i <= n,
                n == self.active_patterns@.len(),
                running == old(self).running(),
                running.len() == n,
                self.same_map(old(self)),
                self.is_start == old(self).is_start,
                self.spawn_duration == old(self).spawn_duration,
                self.current_node_spawn_patterns == old(self).current_node_spawn_patterns,
                forall|j: int| 0 <= j < i ==> (#[trigger] self.active_patterns@[j])@ == ticked(running[j]),
                forall|j: int| i <= j < n ==> (#[trigger] self.active_patterns@[j])@ == running[j],
                world.enemy_spawn_nodes@ == old(world).enemy_spawn_nodes@ + all_fired(
                    running.subrange(0, i as int),
                ),
                world.same_but_enemies(old(world)),
            decreases n - i,
        {
            let ghost queue_before = world.enemy_spawn_nodes@;
            tick_pattern(&mut self.active_patterns[i], world);
            proof {
                assert(running.subrange(0, i + 1).drop_last() == running.subrange(0, i as int));
                assert(running.subrange(0, i + 1).last() == running[i as int]);
                assert(world.enemy_spawn_nodes@ == old(world).enemy_spawn_nodes@ + all_fired(
                    running.subrange(0, i + 1),
                ));
            }
            i += 1;
        }
        proof {
            assert(running.subrange(0, n as int) == running);
            assert(self.running() == all_ticked(running));
        }
    }

    /// Drops the patterns at the head of the running ones that have no
    /// request left.
    fn drop_exhausted(&mut self)
        ensures
            final(self).same_map(old(self)),
            final(self).is_start == old(self).is_start,
            final(self).spawn_duration == old(self).spawn_duration,
            final(self).current_node_spawn_patterns == old(self).current_node_spawn_patterns,
            final(self).running() == old(self).running().skip(
                exhausted(old(self).running()) as int,
            ),
    {
        let ghost running = self.running();
        let ghost mut k: int = 0;
        proof {
            assert(running.skip(0) == running);
        }
        while self.active_patterns.len() > 0 && self.active_patterns[0].len() == 0
            invariant
                0 <= k <= running.len(),
                running == old(self).running(),
                self.same_map(old(self)),
                self.is_start == old(self).is_start,
                self.spawn_duration == old(self).spawn_duration,
                self.current_node_spawn_patterns == old(self).current_node_spawn_patterns,
                self.running() == running.skip(k),
                exhausted(running) == k + exhausted(running.skip(k)),
            decreases running.len() - k,
        {
            let ghost before = self.running();
            proof {
                assert(before[0] == self.active_patterns@[0]@);
                assert(running.skip(k).skip(1) == running.skip(k + 1));
            }
            self.active_patterns.remove(0);
            proof {
                assert(self.running() == before.skip(1));
                k = k + 1;
            }
        }
        proof {
            if self.active_patterns@.len() > 0 {
                assert(self.running()[0] == self.active_patterns@[0]@);
            }
        }
    }

    /// One tick of the level; see `level_ticked`.
    pub fn update(&mut self, world: &mut World)
        ensures
                level_ticked(old(self), final(self), old(world), final(world)),
    {
        if self.current_node_spawn_patterns.len() > 0 {
            self.start_due_patterns();
            self.spawn_duration = tick_up(self.spawn_duration);
        } else {
            proof {
                assert(self.pending().skip(0) == self.pending());
                assert(self.pending().subrange(0, 0) == Seq::<PatternNode>::empty());
                assert(self.running() + Seq::<Seq<EnemySpawnNode>>::empty() == self.running());
            }
        }
        self.tick_patterns(world);
        self.drop_exhausted();
    }

    /// The patterns that run in the tick that starts from this state: those
    /// that were running, and those that the schedule starts.
    pub open spec fn started(&self) -> Seq<Seq<EnemySpawnNode>> {
        self.running() + launched(
            self.pending().subrange(0, due(self.pending(), self.spawn_duration) as int),
            self.patterns@,
        )
    }
}

/// Only patterns without requests are dropped.
pub proof fn lemma_exhausted_are_empty(running: Seq<Seq<EnemySpawnNode>>)
    ensures
        exhausted(running) <= running.len(),
        forall|i: int| 0 <= i < exhausted(running) ==> (#[trigger] running[i]).len() == 0,
    decreases running.len(),
{
    if !(running.len() == 0 || running[0].len() > 0) {
        lemma_exhausted_are_empty(running.skip(1));
        assert forall|i: int| 0 <= i < exhausted(running) implies (#[trigger] running[i]).len()
            == 0 by {
            if i > 0 {
                assert(running.skip(1)[i - 1] == running[i]);
            }
        }
    }
}

/// A request leaves its pattern only by firing: what fires and what stays
/// make up the pattern, in order, and nothing but the delay of the first
/// request that stays is changed.
pub proof fn lemma_requests_leave_by_firing(pattern: Seq<EnemySpawnNode>)
    ensures
        fired(pattern).len() + ticked(pattern).len() == pattern.len(),
        forall|i: int|
            0 <= i < fired(pattern).len() ==> (#[trigger] fired(pattern)[i]) == pattern[i],
        forall|i: int|
            0 < i < ticked(pattern).len() ==> (#[trigger] ticked(pattern)[i]) == pattern[fired(
                pattern,
            ).len() + i],
        ticked(pattern).len() > 0 ==> ticked(pattern)[0] == (EnemySpawnNode {
            delay: (pattern[fired(pattern).len() as int].delay - crate::ONE_FRAME) as u128,
            ..pattern[fired(pattern).len() as int]
        }),
{
    lemma_fired_bounds(pattern);
}

/// Level gating. A level reports that nothing is left to spawn only when no
/// entry of the current node's schedule is waiting and no pattern is
/// running.
pub proof fn lemma_level_gating(level: &Level)
    ensures
        level.pending().len() > 0 ==> !level.spawn_queue_empty(),
        level.running().len() > 0 ==> !level.spawn_queue_empty(),
{
}

/// Level gating, over a tick. If the level reports after a tick that nothing
/// is left to spawn, then in that tick every entry that was left of the
/// schedule has started its pattern, all of them known ones, and every
/// request that a running or started pattern still held has fired, that is,
/// has joined the queue of enemy requests.
pub proof fn lemma_level_gating_step(
    before: &Level,
    after: &Level,
    world_before: &World,
    world: &World,
)
    requires
        level_ticked(before, after, world_before, world),
        after.spawn_queue_empty(),
    ensures
        due(before.pending(), before.spawn_duration) == before.pending().len(),
        all_known(before.pending(), before.patterns@),
        forall|i: int|
            0 <= i < before.started().len() ==> fired(#[trigger] before.started()[i])
                == before.started()[i],
        all_fired(before.started()).len() == total_requests(before.started()),
        world.enemy_spawn_nodes@.len() == world_before.enemy_spawn_nodes@.len() + total_requests(
            before.started(),
        ),
{
    let schedule = before.pending();
    lemma_due_bounds(schedule, before.spawn_duration);
    assert(schedule.subrange(0, schedule.len() as int) == schedule);
    let running = before.started();
    let ticked_all = all_ticked(running);
    lemma_exhausted_are_empty(ticked_all);
    assert forall|i: int| 0 <= i < running.len() implies fired(#[trigger] running[i])
        == running[i] by {
        assert(ticked_all[i] == ticked(running[i]));
        assert(ticked_all[i].len() == 0);
        lemma_fired_bounds(running[i]);
        assert(running[i].subrange(0, running[i].len() as int) == running[i]);
    }
    lemma_all_fired_total(running);
}

/// Number of requests that the patterns `running` hold.
pub open spec fn total_requests(running: Seq<Seq<EnemySpawnNode>>) -> nat
    decreases running.len(),
{
    if running.len() == 0 {
        0
    } else {
        total_requests(running.drop_last()) + running.last().len()
    }
}

proof fn lemma_all_fired_total(running: Seq<Seq<EnemySpawnNode>>)
    requires
        forall|i: int| 0 <= i < running.len() ==> fired(#[trigger] running[i]) == running[i],
    ensures
        all_fired(running).len() == total_requests(running),
    decreases running.len(),
{
    if running.len() > 0 {
        assert forall|i: int| 0 <= i < running.drop_last().len() implies fired(
            #[trigger] running.drop_last()[i],
        ) == running.drop_last()[i] by {
            assert(running.drop_last()[i] == running[i]);
        }
        lemma_all_fired_total(running.drop_last());
        assert(fired(running[running.len() - 1]) == running[running.len() - 1]);
    }
}

} // verus!
