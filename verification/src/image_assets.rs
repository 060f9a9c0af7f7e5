//! The registry of textures still to be loaded, of the numbers given to
//! loaded textures, and of the animations made from them. The textures
//! themselves stay with whoever draws them.

use vstd::prelude::*;
use vstd::string::*;

use crate::gameplay::table::NameTable;
use crate::sprite::{whole_frames, AnimationMultiTextures};

verus! {

/// One file to load, and the key by which its content is found afterwards.
pub struct ContentPath {
    pub key: String,
    pub path: String,
}

impl Clone for ContentPath {
    fn clone(&self) -> (copy: ContentPath)
        ensures
            copy == *self,
    {
        ContentPath { key: self.key.clone(), path: self.path.clone() }
    }
}

impl ContentPath {
    pub fn new(key: String, path: String) -> (content: ContentPath)
        ensures
            content.key == key,
            content.path == path,
    {
        ContentPath { key, path }
    }
}

/// Frames per second of an animation that was loaded without a rate.
pub const DEFAULT_FRAME_RATE: u64 = 15;

/// Milliseconds per frame at `rate` frames per second; zero for no rate.
pub open spec fn frame_length_at(rate: u64) -> u64 {
    if rate == 0 {
        0
    } else {
        (1000int / rate as int) as u64
    }
}

pub struct ImageAssets {
    texture_id_counter: u128,
    texture_loading_list: Vec<ContentPath>,
    texture_ids: NameTable<u128>,
    animations: NameTable<Vec<u128>>,
    animations_frame_length: NameTable<u64>,
    tick: u64,
}

impl ImageAssets {
    /// Number of each registered texture, by key.
    pub closed spec fn texture_ids(&self) -> Map<Seq<char>, u128> {
        self.texture_ids@
    }

    /// Texture numbers of the frames of each animation, by name.
    pub closed spec fn animations(&self) -> Map<Seq<char>, Vec<u128>> {
        self.animations@
    }

    /// Frames per second of each animation, by name.
    pub closed spec fn frame_rates(&self) -> Map<Seq<char>, u64> {
        self.animations_frame_length@
    }

    /// The files still to be loaded; the last one is loaded first.
    pub closed spec fn waiting(&self) -> Seq<ContentPath> {
        self.texture_loading_list@
    }

    /// The number the next registered texture gets.
    pub closed spec fn next_id(&self) -> u128 {
        self.texture_id_counter
    }

    /// Milliseconds counted towards the next batch of files.
    pub closed spec fn load_clock(&self) -> u64 {
        self.tick
    }

    /// Frames per second of the animation `name`.
    pub open spec fn rate_of(&self, name: Seq<char>) -> u64 {
        if self.frame_rates().contains_key(name) {
            self.frame_rates()[name]
        } else {
            DEFAULT_FRAME_RATE
        }
    }

    /// A registry that knows no texture yet and has `texture_loading_list`
    /// to load.
    pub fn new(texture_loading_list: Vec<ContentPath>) -> (assets: ImageAssets)
        ensures
            assets.waiting() == texture_loading_list@,
            assets.texture_ids() == Map::<Seq<char>, u128>::empty(),
            assets.animations() == Map::<Seq<char>, Vec<u128>>::empty(),
            assets.frame_rates() == Map::<Seq<char>, u64>::empty(),
            assets.next_id() == 1,
            assets.load_clock() == 0,
    {
        ImageAssets {
            texture_id_counter: 1,
            texture_loading_list,
            texture_ids: NameTable::new(),
            animations: NameTable::new(),
            animations_frame_length: NameTable::new(),
            tick: 0,
        }
    }

    /// The number of the texture registered under `key`; zero if there is
    /// none.
    pub fn get_id(&self, key: &str) -> (id: u128)
        ensures
            id == if self.texture_ids().contains_key(key@) {
                self.texture_ids()[key@]
            } else {
                0
            },
    {
        match self.texture_ids.get(key) {
            Some(id) => *id,
            None => 0,
        }
    }

    pub fn get_animation_frames(&self, animation_name: &str) -> (frames: Option<&Vec<u128>>)
        ensures
            match frames {
                Some(f) => self.animations().contains_key(animation_name@) && *f
                    == self.animations()[animation_name@],
                None => !self.animations().contains_key(animation_name@),
            },
    {
        self.animations.get(animation_name)
    }

    pub fn get_animation_frame_length(&self, animation_name: &str) -> (rate: u64)
        ensures
            rate == self.rate_of(animation_name@),
    {
        match self.animations_frame_length.get(animation_name) {
            Some(rate) => *rate,
            None => DEFAULT_FRAME_RATE,
        }
    }

    /// Whether an animation of this name exists.
    pub fn has_animation(&self, animation_name: &str) -> (found: bool)
        ensures
            found == self.animations().contains_key(animation_name@),
    {
        self.animations.contains_key(animation_name)
    }

    /// The animation `animation_name`, ready to be played: its frames show
    /// the animation's textures whole, each for the time that the
    /// animation's rate gives.
    pub fn get_animation_object(&self, animation_name: &str) -> (animation: Option<
        AnimationMultiTextures,
    >)
        ensures
            animation is Some == self.animations().contains_key(animation_name@),
            match animation {
                Some(a) => {
                    &&& a.frames@ == whole_frames(self.animations()[animation_name@]@)
                    &&& a.name@ == animation_name@
                    &&& a.frame_length == frame_length_at(self.rate_of(animation_name@))
                },
                None => true,
            },
    {
        match self.animations.get(animation_name) {
            Some(frames) => {
                let mut animation_object = AnimationMultiTextures::new_with_frames(frames);
                animation_object.name = String::from_str(animation_name);
                let rate = self.get_animation_frame_length(animation_name);
                animation_object.frame_length = if rate == 0 {
                    0
                } else {
                    1000 / rate
                };
                Some(animation_object)
            },
            None => None,
        }
    }

    pub fn add_content(&mut self, name: &str, path: &str)
        ensures
            final(self).waiting().len() == old(self).waiting().len() + 1,
            final(self).waiting().drop_last() == old(self).waiting(),
            final(self).waiting().last().key@ == name@,
            final(self).waiting().last().path@ == path@,
            final(self).texture_ids() == old(self).texture_ids(),
            final(self).animations() == old(self).animations(),
            final(self).frame_rates() == old(self).frame_rates(),
            final(self).next_id() == old(self).next_id(),
            final(self).load_clock() == old(self).load_clock(),
    {
        self.texture_loading_list.push(
            ContentPath::new(String::from_str(name), String::from_str(path)),
        );
    }

    /// Whether files are still waiting to be loaded.
    pub fn is_loading(&self) -> (loading: bool)
        ensures
            loading == (self.waiting().len() > 0),
    {
        self.texture_loading_list.len() > 0
    }

    /// Registers a loaded texture under `key` and gives it the next free
    /// number, which is returned. The numbers stop growing at the largest
    /// one.
    pub fn add(&mut self, key: &str) -> (id: u128)
        ensures
            id == old(self).next_id(),
            final(self).next_id() == if id < u128::MAX {
                id + 1
            } else {
                u128::MAX as int
            },
            final(self).texture_ids() == old(self).texture_ids().insert(key@, id),
            final(self).waiting() == old(self).waiting(),
            final(self).animations() == old(self).animations(),
            final(self).frame_rates() == old(self).frame_rates(),
            final(self).load_clock() == old(self).load_clock(),
    {
        let id = self.texture_id_counter;
        self.texture_ids.insert(String::from_str(key), id);
        self.texture_id_counter = id.saturating_add(1);
        id
    }
}

/// Milliseconds by which the loading clock moves in a tick.
pub const LOAD_TICK: u64 = 16;

/// Value of the loading clock above which a batch of files is loaded.
pub const LOAD_WAIT: u64 = 200;

/// Number of files loaded in one batch.
pub const LOAD_BATCH: usize = 20;

/// Milliseconds of unprocessed time from which on the loading clock stands
/// still.
pub const LOAD_BACKLOG: u128 = 100;

/// The numbers of the textures that `names` name, in order; names without a
/// registered texture are passed over.
pub open spec fn known_frames(names: Seq<String>, ids: Map<Seq<char>, u128>) -> Seq<u128>
    decreases names.len(),
{
    if names.len() == 0 {
        Seq::empty()
    } else if ids.contains_key(names.last()@) && ids[names.last()@] > 0 {
        known_frames(names.drop_last(), ids).push(ids[names.last()@])
    } else {
        known_frames(names.drop_last(), ids)
    }
}

/// Whether an entry of `list` from position `from` on has the name `name`.
pub open spec fn named_later(
    list: Seq<(String, Vec<String>, u64)>,
    from: int,
    name: Seq<char>,
) -> bool {
    exists|j: int| from <= j < list.len() && (#[trigger] list[j]).0@ == name
}

impl ImageAssets {
    /// Whether a texture has been registered.
    pub fn has_textures(&self) -> (any: bool)
        ensures
            any == (self.next_id() > 1),
    {
        self.texture_id_counter > 1
    }

    /// The numbers of the textures that `texture_names` name.
    fn frames_of(&self, texture_names: &Vec<String>) -> (frame_ids: Vec<u128>)
        ensures
            frame_ids@ == known_frames(texture_names@, self.texture_ids()),
    {
        let mut frame_ids: Vec<u128> = Vec::new();
        let mut i: usize = 0;
        assert(texture_names@.subrange(0, 0) == Seq::<String>::empty());
        while i < texture_names.len()
            invariant
                i <= texture_names.len(),
                frame_ids@ == known_frames(
                    texture_names@.subrange(0, i as int),
                    self.texture_ids(),
                ),
            decreases texture_names.len() - i,
        {
            assert(texture_names@.subrange(0, i + 1).drop_last() == texture_names@.subrange(
                0,
                i as int,
            ));
            let texture_id = self.get_id(texture_names[i].as_str());
            if texture_id > 0 {
                frame_ids.push(texture_id);
            }
            i += 1;
        }
        assert(texture_names@.subrange(0, i as int) == texture_names@);
        frame_ids
    }

    /// Makes the animations of `animations`: each entry gives a name, the
    /// names of the textures of its frames, and its frames per second. An
    /// animation keeps the frames whose textures are registered. Of two
    /// entries with one name the later counts. The result is the number of
    /// animations the registry then holds.
    pub fn load_animations(&mut self, animations: &Vec<(String, Vec<String>, u64)>) -> (count:
        usize)
        requires
            old(self).next_id() > 1,
        ensures
            forall|name: Seq<char>|
                final(self).animations().contains_key(name) <==> old(self).animations().contains_key(
                    name,
                ) || named_later(animations@, 0, name),
            forall|name: Seq<char>|
                final(self).frame_rates().contains_key(name) <==> old(self).frame_rates().contains_key(name) || named_later(animations@, 0, name),
            forall|i: int|
                0 <= i < animations@.len() && !named_later(
                    animations@,
                    i + 1,
                    (#[trigger] animations@[i]).0@,
                ) ==> final(self).animations()[animations@[i].0@]@ == known_frames(
                    animations@[i].1@,
                    old(self).texture_ids(),
                ) && final(self).frame_rates()[animations@[i].0@] == animations@[i].2,
            forall|name: Seq<char>|
                old(self).animations().contains_key(name) && !named_later(animations@, 0, name)
                    ==> (#[trigger] final(self).animations()[name]) == old(self).animations()[name],
            forall|name: Seq<char>|
                old(self).frame_rates().contains_key(name) && !named_later(animations@, 0, name)
                    ==> (#[trigger] final(self).frame_rates()[name]) == old(self).frame_rates()[name],
            count == final(self).animation_count(),
            final(self).texture_ids() == old(self).texture_ids(),
            final(self).waiting() == old(self).waiting(),
            final(self).next_id() == old(self).next_id(),
            final(self).load_clock() == old(self).load_clock(),
    {
        let n: usize = animations.len();
        let mut i: usize = 0;
        while i < n
            invariant
                i <= n,
                n == animations@.len(),
                self.texture_ids() == old(self).texture_ids(),
                self.waiting() == old(self).waiting(),
                self.next_id() == old(self).next_id(),
                self.load_clock() == old(self).load_clock(),
                forall|name: Seq<char>|
                    self.animations().contains_key(name) <==> old(self).animations().contains_key(
                        name,
                    ) || exists|j: int| 0 <= j < i && (#[trigger] animations@[j]).0@ == name,
                forall|name: Seq<char>|
                    self.frame_rates().contains_key(name) <==> old(self).frame_rates().contains_key(
                        name,
                    ) || exists|j: int| 0 <= j < i && (#[trigger] animations@[j]).0@ == name,
                forall|k: int|
                    0 <= k < i && !(exists|j: int|
                        k < j < i && (#[trigger] animations@[j]).0@ == animations@[k].0@)
                        ==> self.animations()[(#[trigger] animations@[k]).0@]@ == known_frames(
                        animations@[k].1@,
                        old(self).texture_ids(),
                    ) && self.frame_rates()[animations@[k].0@] == animations@[k].2,
                forall|name: Seq<char>|
                    old(self).animations().contains_key(name) && !(exists|j: int|
                        0 <= j < i && (#[trigger] animations@[j]).0@ == name)
                        ==> (#[trigger] self.animations()[name]) == old(self).animations()[name],
                forall|name: Seq<char>|
                    old(self).frame_rates().contains_key(name) && !(exists|j: int|
                        0 <= j < i && (#[trigger] animations@[j]).0@ == name)
                        ==> (#[trigger] self.frame_rates()[name]) == old(self).frame_rates()[name],
            decreases n - i,
        {
            let entry = &animations[i];
            let frame_ids = self.frames_of(&entry.1);
            self.animations.insert(entry.0.clone(), frame_ids);
            self.animations_frame_length.insert(entry.0.clone(), entry.2);
            proof {
                assert(animations@[i as int].0@ == entry.0@);
            }
            i += 1;
        }
        self.animations.len()
    }

    /// Number of animations the registry holds.
    pub closed spec fn animation_count(&self) -> nat {
        self.animations.pairs().len()
    }

    /// The names of the animations the registry holds.
    pub fn get_all_animation_keys(&self) -> (keys: Vec<&String>)
        ensures
            keys@.len() == self.animation_count(),
            forall|i: int|
                0 <= i < keys@.len() ==> self.animations().contains_key((#[trigger] keys@[i])@),
    {
        let mut keys: Vec<&String> = Vec::new();
        let n = self.animations.len();
        let mut i: usize = 0;
        proof {
            self.animations.lemma_pairs();
        }
        while i < n
            invariant
                i <= n,
                n == self.animations.pairs().len(),
                keys@.len() == i,
                crate::gameplay::table::pairs_map(self.animations.pairs()) == self.animations@,
                forall|k: int|
                    0 <= k < keys@.len() ==> self.animations@.contains_key((#[trigger] keys@[k])@),
            decreases n - i,
        {
            let pair = self.animations.pair(i);
            proof {
                crate::gameplay::table::lemma_pairs_map_holds(self.animations.pairs(), i as int);
            }
            keys.push(&pair.0);
            i += 1;
        }
        keys
    }

    /// Adds files to load, behind those that are waiting.
    pub fn add_content_list(&mut self, list: &Vec<ContentPath>)
        ensures
            final(self).waiting() == old(self).waiting() + list@,
            final(self).texture_ids() == old(self).texture_ids(),
            final(self).animations() == old(self).animations(),
            final(self).frame_rates() == old(self).frame_rates(),
            final(self).next_id() == old(self).next_id(),
            final(self).load_clock() == old(self).load_clock(),
    {
        let mut i: usize = 0;
        assert(old(self).waiting() + list@.subrange(0, 0) == old(self).waiting());
        while i < list.len()
            invariant
                i <= list.len(),
                self.waiting() == old(self).waiting() + list@.subrange(0, i as int),
                self.texture_ids() == old(self).texture_ids(),
                self.animations() == old(self).animations(),
                self.frame_rates() == old(self).frame_rates(),
                self.next_id() == old(self).next_id(),
                self.load_clock() == old(self).load_clock(),
            decreases list.len() - i,
        {
            self.texture_loading_list.push(list[i].clone());
            assert(self.waiting() == old(self).waiting() + list@.subrange(0, i + 1));
            i += 1;
        }
        assert(list@.subrange(0, i as int) == list@);
    }

    /// The loading clock after a tick in which `accumulated` milliseconds
    /// of time were left unprocessed: it stands still while the backlog is
    /// large.
    pub open spec fn clock_after(&self, accumulated: u128) -> u64 {
        if accumulated < LOAD_BACKLOG {
            if self.load_clock() + LOAD_TICK <= u64::MAX {
                (self.load_clock() + LOAD_TICK) as u64
            } else {
                u64::MAX
            }
        } else {
            self.load_clock()
        }
    }

    /// Number of files that a call of `loading` hands out.
    pub open spec fn batch_size(&self, accumulated: u128) -> nat {
        if self.waiting().len() > 0 && self.clock_after(accumulated) > LOAD_WAIT {
            if self.waiting().len() < LOAD_BATCH {
                self.waiting().len()
            } else {
                LOAD_BATCH as nat
            }
        } else {
            0
        }
    }

    /// One tick of loading. While files are waiting the loading clock moves
    /// on; when it has passed `LOAD_WAIT` a batch of up to `LOAD_BATCH`
    /// files is taken from the end of the waiting list and handed out, the
    /// last file first, and the clock starts anew. The caller loads the
    /// files and registers each with `add`.
    pub fn loading(&mut self, accumulated: u128) -> (batch: Vec<ContentPath>)
        ensures
            batch@.len() == old(self).batch_size(accumulated),
            final(self).waiting() == old(self).waiting().subrange(
                0,
                old(self).waiting().len() - batch@.len(),
            ),
            forall|i: int|
                0 <= i < batch@.len() ==> (#[trigger] batch@[i]) == old(self).waiting()[old(self).waiting().len() - 1 - i],
            final(self).load_clock() == if old(self).waiting().len() == 0 {
                old(self).load_clock()
            } else if old(self).clock_after(accumulated) > LOAD_WAIT {
                0
            } else {
                old(self).clock_after(accumulated)
            },
            final(self).texture_ids() == old(self).texture_ids(),
            final(self).animations() == old(self).animations(),
            final(self).frame_rates() == old(self).frame_rates(),
            final(self).next_id() == old(self).next_id(),
    {
        let mut batch: Vec<ContentPath> = Vec::new();
        assert(self.waiting().subrange(0, self.waiting().len() as int) == self.waiting());
        if self.is_loading() {
            if accumulated < LOAD_BACKLOG {
                self.tick = self.tick.saturating_add(LOAD_TICK);
            }
            if self.tick > LOAD_WAIT {
                let mut count: usize = 0;
                while count < LOAD_BATCH && self.texture_loading_list.len() > 0
                    invariant
                        count <= LOAD_BATCH,
                        count <= old(self).waiting().len(),
                        batch@.len() == count,
                        self.waiting() == old(self).waiting().subrange(
                            0,
                            old(self).waiting().len() - count,
                        ),
                        forall|i: int|
                            0 <= i < batch@.len() ==> (#[trigger] batch@[i]) == old(self).waiting()[old(self).waiting().len() - 1 - i],
                        self.texture_ids() == old(self).texture_ids(),
                        self.animations() == old(self).animations(),
                        self.frame_rates() == old(self).frame_rates(),
                        self.next_id() == old(self).next_id(),
                    decreases LOAD_BATCH - count,
                {
                    let content = self.texture_loading_list.pop().unwrap();
                    batch.push(content);
                    count += 1;
                    assert(self.waiting() == old(self).waiting().subrange(
                        0,
                        old(self).waiting().len() - count,
                    ));
                }
                self.tick = 0;
            }
        }
        batch
    }
}

} // verus!
