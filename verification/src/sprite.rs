//! Sprites: which frame of which animation an entity shows, and how the
//! frame moves on with time. Drawing is left to the caller.

use vstd::prelude::*;
use vstd::string::*;

use crate::gameplay::utils::Vec2;

verus! {

/// An area of a texture, in pixels.
#[derive(Clone, Copy, Debug, PartialEq, Eq, Structural)]
pub struct Rectangle {
    pub x: i32,
    pub y: i32,
    pub width: i32,
    pub height: i32,
}

impl Rectangle {
    pub fn new(x: i32, y: i32, width: i32, height: i32) -> (r: Rectangle)
        ensures
            r == (Rectangle { x, y, width, height }),
    {
        Rectangle { x, y, width, height }
    }
}

/// One frame of an animation: an area inside a texture. An area without
/// size stands for the whole texture.
#[derive(Clone, Copy, Debug, PartialEq, Eq, Structural)]
pub struct FrameRectangle {
    /// The texture, by the number the asset registry gave it.
    pub texture_id: u128,
    pub rect: Rectangle,
}

impl FrameRectangle {
    pub fn new(texture_id: u128, rect: Rectangle) -> (frame: FrameRectangle)
        ensures
            frame == (FrameRectangle { texture_id, rect }),
    {
        FrameRectangle { texture_id, rect }
    }
}

/// A named run of frames, each shown for the same time.
pub struct AnimationMultiTextures {
    /// Milliseconds for which each frame is shown. An animation whose
    /// frames have no length stands still.
    pub frame_length: u64,
    pub frames: Vec<FrameRectangle>,
    pub name: String,
}

/// Frame length of an animation made without one, in milliseconds.
pub const DEFAULT_FRAME_LENGTH: u64 = 125;

/// Frame length of an animation made from a list of textures.
pub const LISTED_FRAME_LENGTH: u64 = 83;

/// The frames that show each texture of `ids` whole, in order.
pub open spec fn whole_frames(ids: Seq<u128>) -> Seq<FrameRectangle> {
    Seq::new(
        ids.len(),
        |i: int|
            FrameRectangle {
                texture_id: ids[i],
                rect: Rectangle { x: 0, y: 0, width: 0, height: 0 },
            },
    )
}

impl Clone for AnimationMultiTextures {
    fn clone(&self) -> (copy: AnimationMultiTextures)
        ensures
            copy.frame_length == self.frame_length,
            copy.frames@ == self.frames@,
            copy.name@ == self.name@,
    {
        let mut frames: Vec<FrameRectangle> = Vec::new();
        let mut i: usize = 0;
        while i < self.frames.len()
            invariant
                i <= self.frames.len(),
                frames@ == self.frames@.subrange(0, i as int),
            decreases self.frames.len() - i,
        {
            frames.push(self.frames[i]);
            assert(frames@ == self.frames@.subrange(0, i + 1));
            i += 1;
        }
        assert(self.frames@.subrange(0, i as int) == self.frames@);
        AnimationMultiTextures {
            frame_length: self.frame_length,
            frames,
            name: self.name.clone(),
        }
    }
}

impl AnimationMultiTextures {
    /// An animation without frames or name.
    pub fn new() -> (animation: AnimationMultiTextures)
        ensures
            animation.frame_length == DEFAULT_FRAME_LENGTH,
            animation.frames@ == Seq::<FrameRectangle>::empty(),
            animation.name@ == Seq::<char>::empty(),
    {
        AnimationMultiTextures {
            frame_length: DEFAULT_FRAME_LENGTH,
            frames: Vec::new(),
            name: String::new(),
        }
    }

    /// An animation that shows the given textures whole, one after the
    /// other.
    pub fn new_with_frames(frames: &Vec<u128>) -> (animation: AnimationMultiTextures)
        ensures
            animation.frame_length == LISTED_FRAME_LENGTH,
            animation.frames@ == whole_frames(frames@),
            animation.name@ == Seq::<char>::empty(),
    {
        let mut animation = AnimationMultiTextures {
            frame_length: LISTED_FRAME_LENGTH,
            frames: Vec::new(),
            name: String::new(),
        };
        animation.add_frames(frames);
        assert(Seq::<FrameRectangle>::empty() + whole_frames(frames@) == whole_frames(frames@));
        animation
    }

    pub fn clear(&mut self)
        ensures
            final(self).frames@ == Seq::<FrameRectangle>::empty(),
            final(self).frame_length == old(self).frame_length,
            final(self).name == old(self).name,
    {
        self.frames.clear();
    }

    /// Appends a frame that shows the whole texture.
    pub fn add(&mut self, texture_id: u128)
        ensures
            final(self).frames@ == old(self).frames@.push(
                FrameRectangle { texture_id, rect: Rectangle { x: 0, y: 0, width: 0, height: 0 } },
            ),
            final(self).frame_length == old(self).frame_length,
            final(self).name == old(self).name,
    {
        self.add_with_rectangle(texture_id, Rectangle::new(0, 0, 0, 0));
    }

    /// Appends one whole-texture frame for each texture of `frames`.
    pub fn add_frames(&mut self, frames: &Vec<u128>)
        ensures
            final(self).frames@ == old(self).frames@ + whole_frames(frames@),
            final(self).frame_length == old(self).frame_length,
            final(self).name == old(self).name,
    {
        let mut i: usize = 0;
        assert(whole_frames(frames@).subrange(0, 0) == Seq::<FrameRectangle>::empty());
        assert(old(self).frames@ + Seq::<FrameRectangle>::empty() == old(self).frames@);
        while i < frames.len()
            invariant
                i <= frames.len(),
                self.frames@ == old(self).frames@ + whole_frames(frames@).subrange(0, i as int),
                self.frame_length == old(self).frame_length,
                self.name == old(self).name,
            decreases frames.len() - i,
        {
            self.add(frames[i]);
            assert(self.frames@ == old(self).frames@ + whole_frames(frames@).subrange(0, i + 1));
            i += 1;
        }
        assert(whole_frames(frames@).subrange(0, i as int) == whole_frames(frames@));
    }

    /// Appends a frame that shows `rect` of the texture.
    pub fn add_with_rectangle(&mut self, texture_id: u128, rect: Rectangle)
        ensures
            final(self).frames@ == old(self).frames@.push(FrameRectangle { texture_id, rect }),
            final(self).frame_length == old(self).frame_length,
            final(self).name == old(self).name,
    {
        self.frames.push(FrameRectangle::new(texture_id, rect));
    }
}

/// A colour, each channel in thousandths of full strength.
#[derive(Clone, Copy, Debug, PartialEq, Eq, Structural)]
pub struct Color {
    pub r: u32,
    pub g: u32,
    pub b: u32,
    pub a: u32,
}

/// What an entity shows: an animation, the frame it has reached, and how
/// the frame is to be placed. Scales, anchors and alpha are in thousandths.
pub struct Sprite {
    /// Whether the animation starts over after its last frame.
    pub is_loop: bool,
    /// Index of the frame being shown.
    pub frame_index: usize,
    pub animation: AnimationMultiTextures,
    /// Milliseconds for which the current frame has been shown.
    pub frame_duration: u64,
    /// Set when an animation that does not loop has reached its end.
    pub pause: bool,
    /// Offset from the owner's position.
    pub position: Vec2,
    pub scale: Vec2,
    /// The point of the frame that sits on the position: `(0, 0)` is the
    /// top left corner, `(1000, 1000)` the bottom right one.
    pub anchor: Vec2,
    pub alpha: u32,
    /// Size of the frame drawn last.
    pub size: Vec2,
    pub color: Color,
}

/// `v` without its sign, as far as the type can hold it.
pub open spec fn magnitude(v: i32) -> i32 {
    if v == i32::MIN {
        i32::MAX
    } else if v < 0 {
        (-v) as i32
    } else {
        v
    }
}

fn magnitude_of(v: i32) -> (m: i32)
    ensures
        m == magnitude(v),
{
    if v == i32::MIN {
        i32::MAX
    } else if v < 0 {
        -v
    } else {
        v
    }
}

impl Sprite {
    /// Whether the animation has run out: the frame index is past the last
    /// frame, or the sprite rests on the last frame of an animation that
    /// does not loop. An animation without frames never runs out.
    pub open spec fn at_end(&self) -> bool {
        let frames = self.animation.frames@.len();
        frames > 0 && (self.frame_index > frames - 1 || (self.pause && self.frame_index == frames
            - 1))
    }

    /// The sprite after one tick, and whether the animation wrapped around
    /// or came to rest in it.
    pub open spec fn advanced(self) -> (Sprite, bool) {
        let waited: u64 = if self.frame_duration + crate::ONE_FRAME_MS <= u64::MAX {
            (self.frame_duration + crate::ONE_FRAME_MS) as u64
        } else {
            0
        };
        let length = self.animation.frame_length;
        let frames = self.animation.frames@.len();
        if length > 0 && waited >= length && !self.pause {
            let index: usize = if self.frame_index + waited / length <= usize::MAX {
                (self.frame_index + waited / length) as usize
            } else {
                usize::MAX
            };
            let rest: u64 = waited % length;
            if frames > 0 && index > frames - 1 {
                if self.is_loop {
                    (
                        Sprite {
                            frame_duration: rest,
                            frame_index: (index as int % frames as int) as usize,
                            ..self
                        },
                        true,
                    )
                } else {
                    (
                        Sprite {
                            frame_duration: rest,
                            frame_index: (frames - 1) as usize,
                            pause: true,
                            ..self
                        },
                        true,
                    )
                }
            } else {
                (Sprite { frame_duration: rest, frame_index: index, ..self }, false)
            }
        } else {
            (Sprite { frame_duration: waited, ..self }, false)
        }
    }

    pub open spec fn is_fresh(&self) -> bool {
        &&& self.is_loop
        &&& self.frame_index == 0
        &&& self.animation.frame_length == DEFAULT_FRAME_LENGTH
        &&& self.animation.frames@ == Seq::<FrameRectangle>::empty()
        &&& self.animation.name@ == Seq::<char>::empty()
        &&& self.frame_duration == 0
        &&& !self.pause
        &&& self.position == (Vec2 { x: 0, y: 0 })
        &&& self.scale == (Vec2 { x: 1000, y: 1000 })
        &&& self.anchor == (Vec2 { x: 500, y: 500 })
        &&& self.alpha == 1000
    }

    pub fn new() -> (sprite: Sprite)
        ensures
            sprite.is_fresh(),
            sprite.size == (Vec2 { x: 1000, y: 1000 }),
            sprite.color == (Color { r: 1000, g: 1000, b: 1000, a: 1000 }),
    {
        Sprite {
            is_loop: true,
            frame_index: 0,
            animation: AnimationMultiTextures::new(),
            frame_duration: 0,
            pause: false,
            position: Vec2::zero(),
            scale: Vec2::new(1000, 1000),
            anchor: Vec2::new(500, 500),
            alpha: 1000,
            size: Vec2::new(1000, 1000),
            color: Color { r: 1000, g: 1000, b: 1000, a: 1000 },
        }
    }

    /// Brings everything but the size drawn last and the colour back to
    /// what a new sprite has.
    pub fn reset(&mut self)
        ensures
            final(self).is_fresh(),
            final(self).size == old(self).size,
            final(self).color == old(self).color,
    {
        self.is_loop = true;
        self.frame_index = 0;
        self.frame_duration = 0;
        self.position = Vec2::zero();
        self.scale = Vec2::new(1000, 1000);
        self.anchor = Vec2::new(500, 500);
        self.alpha = 1000;
        self.pause = false;
        self.animation = AnimationMultiTextures::new();
    }

    pub fn get_current_animation_name(&self) -> (name: &String)
        ensures
            *name == self.animation.name,
    {
        &self.animation.name
    }

    pub fn set_loop(&mut self, is_loop: bool)
        ensures
            *final(self) == (Sprite { is_loop, ..*old(self) }),
    {
        self.is_loop = is_loop;
    }

    pub fn is_loop(&self) -> (is_loop: bool)
        ensures
            is_loop == self.is_loop,
    {
        self.is_loop
    }

    /// Brings a frame index that ran past the end back into the animation.
    pub fn continue_loop(&mut self)
        requires
            old(self).animation.frames@.len() > 0,
        ensures
            *final(self) == (Sprite {
                frame_index: (old(self).frame_index as int % old(self).animation.frames@.len() as int) as usize,
                ..*old(self)
            }),
    {
        let frames = self.animation.frames.len();
        self.frame_index = self.frame_index % frames;
    }

    /// Shows a single texture in place of the animation's frames.
    pub fn show_texture(&mut self, texture_id: u128)
        ensures
            final(self).animation.frames@ == seq![
                FrameRectangle { texture_id, rect: Rectangle { x: 0, y: 0, width: 0, height: 0 } },
            ],
            final(self).frame_index == 0,
            final(self).animation.name == old(self).animation.name,
            final(self).animation.frame_length == old(self).animation.frame_length,
            final(self).is_loop == old(self).is_loop,
            final(self).pause == old(self).pause,
            final(self).frame_duration == old(self).frame_duration,
    {
        self.animation.clear();
        self.animation.add(texture_id);
        self.frame_index = 0;
    }

    /// Starts `new_animation` from its first frame.
    pub fn play(&mut self, new_animation: &AnimationMultiTextures)
        ensures
            final(self).animation.frames@ == new_animation.frames@,
            final(self).animation.name@ == new_animation.name@,
            final(self).animation.frame_length == new_animation.frame_length,
            final(self).frame_duration == 0,
            final(self).frame_index == 0,
            !final(self).pause,
            final(self).is_loop == old(self).is_loop,
            final(self).position == old(self).position,
            final(self).scale == old(self).scale,
            final(self).anchor == old(self).anchor,
            final(self).alpha == old(self).alpha,
            final(self).size == old(self).size,
            final(self).color == old(self).color,
    {
        self.animation = new_animation.clone();
        self.frame_duration = 0;
        self.frame_index = 0;
        self.pause = false;
    }

    /// Starts the current animation over.
    pub fn restart(&mut self)
        ensures
            *final(self) == (Sprite {
                frame_duration: 0,
                frame_index: 0,
                pause: false,
                ..*old(self)
            }),
    {
        self.frame_duration = 0;
        self.frame_index = 0;
        self.pause = false;
    }

    /// Lets one tick pass.
    fn advance(&mut self) -> (turned: bool)
        ensures
            *final(self) == old(self).advanced().0,
            turned == old(self).advanced().1,
    {
        let frame_length: u64 = self.animation.frame_length;
        self.frame_duration = match self.frame_duration.checked_add(crate::ONE_FRAME_MS) {
            Some(v) => v,
            None => 0,
        };
        if frame_length > 0 && self.frame_duration >= frame_length && !self.pause {
            let steps: u64 = self.frame_duration / frame_length;
            self.frame_duration = self.frame_duration % frame_length;
            self.frame_index = if steps > (usize::MAX - self.frame_index) as u64 {
                usize::MAX
            } else {
                self.frame_index + steps as usize
            };
            if self.is_end_of_animation() {
                if self.is_loop {
                    self.continue_loop();
                } else {
                    self.frame_index = self.animation.frames.len() - 1;
                    self.pause = true;
                }
                return true;
            }
        }
        false
    }

    /// Lets one tick pass and says whether the animation wrapped around or
    /// came to rest in it.
    pub fn update(&mut self) -> (turned: bool)
        ensures
            *final(self) == old(self).advanced().0,
            turned == old(self).advanced().1,
    {
        self.advance()
    }

    pub fn is_end_of_animation(&self) -> (ended: bool)
        ensures
            ended == self.at_end(),
    {
        let frames = self.animation.frames.len();
        if frames == 0 {
            return false;
        }
        if self.pause && self.frame_index == frames - 1 {
            return true;
        }
        self.frame_index > frames - 1
    }

    pub fn get_total_frames(&self) -> (frames: usize)
        ensures
            frames == self.animation.frames@.len(),
    {
        self.animation.frames.len()
    }

    pub fn get_current_frame_index(&self) -> (index: usize)
        ensures
            index == self.frame_index,
    {
        self.frame_index
    }

    /// Mirrors the sprite sideways, or undoes that.
    pub fn flip_x(&mut self, b: bool)
        ensures
            *final(self) == (Sprite {
                scale: Vec2 {
                    x: if b {
                        (-magnitude(old(self).scale.x)) as i32
                    } else {
                        magnitude(old(self).scale.x)
                    },
                    y: old(self).scale.y,
                },
                ..*old(self)
            }),
    {
        let m = magnitude_of(self.scale.x);
        if b {
            self.scale.x = -m;
        } else {
            self.scale.x = m;
        }
    }

    /// Turns the sprite upside down, or undoes that.
    pub fn flip_y(&mut self, b: bool)
        ensures
            *final(self) == (Sprite {
                scale: Vec2 {
                    x: old(self).scale.x,
                    y: if b {
                        (-magnitude(old(self).scale.y)) as i32
                    } else {
                        magnitude(old(self).scale.y)
                    },
                },
                ..*old(self)
            }),
    {
        let m = magnitude_of(self.scale.y);
        if b {
            self.scale.y = -m;
        } else {
            self.scale.y = m;
        }
    }

    /// Sets the point of the frame that sits on the position; each
    /// coordinate is kept between nothing and a thousand.
    pub fn set_anchor(&mut self, x: i32, y: i32)
        ensures
            *final(self) == (Sprite {
                anchor: Vec2 {
                    x: crate::gameplay::utils::clamp(x as int, 0, 1000) as i32,
                    y: crate::gameplay::utils::clamp(y as int, 0, 1000) as i32,
                },
                ..*old(self)
            }),
    {
        self.anchor.x = if x < 0 {
            0
        } else if x > 1000 {
            1000
        } else {
            x
        };
        self.anchor.y = if y < 0 {
            0
        } else if y > 1000 {
            1000
        } else {
            y
        };
    }

    /// Where in the current frame the anchor lies, in the units of the
    /// frame's area; the corner for a sprite without frames.
    pub fn get_origin(&self, x: i32, y: i32) -> (origin: Vec2)
        ensures
            origin == if self.animation.frames@.len() == 0 || self.frame_index
                >= self.animation.frames@.len() {
                Vec2 { x: 0, y: 0 }
            } else {
                Vec2 {
                    x: crate::gameplay::utils::saturate(
                        crate::gameplay::utils::quotient(
                            self.animation.frames@[self.frame_index as int].rect.width * x,
                            1000,
                        ),
                    ) as i32,
                    y: crate::gameplay::utils::saturate(
                        crate::gameplay::utils::quotient(
                            self.animation.frames@[self.frame_index as int].rect.height * y,
                            1000,
                        ),
                    ) as i32,
                }
            },
    {
        if self.animation.frames.len() == 0 || self.frame_index >= self.animation.frames.len() {
            return Vec2::zero();
        }
        let bound = self.animation.frames[self.frame_index].rect;
        assert(-0x4000_0000_0000_0000 <= (bound.width as i64) * (x as i64) <= 0x4000_0000_0000_0000)
            by (nonlinear_arith)
            requires
                -0x8000_0000 <= bound.width as i64 <= 0x8000_0000,
                -0x8000_0000 <= x as i64 <= 0x8000_0000,
        ;
        assert(-0x4000_0000_0000_0000 <= (bound.height as i64) * (y as i64)
            <= 0x4000_0000_0000_0000) by (nonlinear_arith)
            requires
                -0x8000_0000 <= bound.height as i64 <= 0x8000_0000,
                -0x8000_0000 <= y as i64 <= 0x8000_0000,
        ;
        Vec2 {
            x: crate::gameplay::utils::saturate_i64(
                crate::gameplay::utils::divide(bound.width as i64 * x as i64, 1000),
            ),
            y: crate::gameplay::utils::saturate_i64(
                crate::gameplay::utils::divide(bound.height as i64 * y as i64, 1000),
            ),
        }
    }

    /// Sets the colour; the alpha of the colour is that of the sprite.
    pub fn set_color(&mut self, r: u32, g: u32, b: u32)
        ensures
            *final(self) == (Sprite { color: Color { r, g, b, a: old(self).alpha }, ..*old(self) }),
    {
        self.color = Color { r, g, b, a: self.alpha };
    }

    /// Sets the alpha of the sprite and of its colour.
    pub fn set_alpha(&mut self, alpha: u32)
        ensures
            *final(self) == (Sprite {
                alpha,
                color: Color { a: alpha, ..old(self).color },
                ..*old(self)
            }),
    {
        self.alpha = alpha;
        self.color.a = alpha;
    }

    pub fn alpha(&self) -> (alpha: u32)
        ensures
            alpha == self.alpha,
    {
        self.alpha
    }

    /// Whether the sprite is mirrored sideways.
    pub fn is_flipped_x(&self) -> (flipped: bool)
        ensures
            flipped == (self.scale.x < 0),
    {
        self.scale.x < 0
    }
}

} // verus!
