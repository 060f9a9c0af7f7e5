use one_man::gameplay::utils::Vec2;
use one_man::sprite::{AnimationMultiTextures, Color, FrameRectangle, Rectangle, Sprite};

fn animation(frames: usize, frame_length: u64) -> AnimationMultiTextures {
    let ids: Vec<u128> = (1..=frames as u128).collect();
    let mut a = AnimationMultiTextures::new_with_frames(&ids);
    a.frame_length = frame_length;
    a.name = "test".to_string();
    a
}

#[test]
fn new_animation_has_no_frames() {
    let a = AnimationMultiTextures::new();
    assert_eq!(a.frame_length, 125);
    assert!(a.frames.is_empty());
    assert_eq!(a.name, "");
}

#[test]
fn animation_from_textures_shows_them_whole() {
    let a = AnimationMultiTextures::new_with_frames(&vec![7, 8, 9]);
    assert_eq!(a.frame_length, 83);
    assert_eq!(a.frames.len(), 3);
    assert_eq!(a.frames[1], FrameRectangle::new(8, Rectangle::new(0, 0, 0, 0)));
}

#[test]
fn frames_are_added_and_cleared() {
    let mut a = AnimationMultiTextures::new();
    a.add(5);
    a.add_with_rectangle(6, Rectangle::new(1, 2, 3, 4));
    a.add_frames(&vec![7, 8]);
    assert_eq!(a.frames.len(), 4);
    assert_eq!(a.frames[0].texture_id, 5);
    assert_eq!(a.frames[1].rect, Rectangle::new(1, 2, 3, 4));
    assert_eq!(a.frames[3].texture_id, 8);
    let b = a.clone();
    assert_eq!(b.frames, a.frames);
    assert_eq!(b.frame_length, a.frame_length);
    a.clear();
    assert!(a.frames.is_empty());
    assert_eq!(b.frames.len(), 4);
}

#[test]
fn new_sprite_is_fresh() {
    let s = Sprite::new();
    assert!(s.is_loop());
    assert_eq!(s.get_current_frame_index(), 0);
    assert_eq!(s.get_total_frames(), 0);
    assert_eq!(s.scale, Vec2::new(1000, 1000));
    assert_eq!(s.anchor, Vec2::new(500, 500));
    assert_eq!(s.alpha(), 1000);
    assert_eq!(s.get_current_animation_name(), "");
    assert!(!s.is_end_of_animation());
}

#[test]
fn looping_animation_wraps_around() {
    let mut s = Sprite::new();
    s.play(&animation(3, 32));
    assert_eq!(s.get_current_animation_name(), "test");
    assert!(!s.update());
    assert_eq!(s.get_current_frame_index(), 0);
    assert!(!s.update());
    assert_eq!(s.get_current_frame_index(), 1);
    assert!(!s.update());
    assert!(!s.update());
    assert_eq!(s.get_current_frame_index(), 2);
    assert!(!s.update());
    assert!(s.update());
    assert_eq!(s.get_current_frame_index(), 0);
    assert!(!s.is_end_of_animation());
}

#[test]
fn animation_that_does_not_loop_rests_on_its_last_frame() {
    let mut s = Sprite::new();
    s.set_loop(false);
    s.play(&animation(2, 16));
    assert!(!s.update());
    assert_eq!(s.get_current_frame_index(), 1);
    assert!(!s.is_end_of_animation());
    assert!(s.update());
    assert_eq!(s.get_current_frame_index(), 1);
    assert!(s.is_end_of_animation());
    assert!(s.pause);
    assert!(!s.update());
    assert_eq!(s.get_current_frame_index(), 1);
    s.restart();
    assert_eq!(s.get_current_frame_index(), 0);
    assert!(!s.pause);
    assert!(!s.is_end_of_animation());
}

#[test]
fn several_frames_can_pass_in_one_tick() {
    let mut s = Sprite::new();
    s.play(&animation(10, 5));
    assert!(!s.update());
    assert_eq!(s.get_current_frame_index(), 3);
    assert_eq!(s.frame_duration, 1);
}

#[test]
fn animation_without_frame_length_stands_still() {
    let mut s = Sprite::new();
    s.play(&animation(3, 0));
    for _ in 0..10 {
        assert!(!s.update());
    }
    assert_eq!(s.get_current_frame_index(), 0);
}

#[test]
fn sprite_without_frames_never_ends() {
    let mut s = Sprite::new();
    for _ in 0..100 {
        assert!(!s.update());
    }
    assert!(!s.is_end_of_animation());
    assert_eq!(s.get_current_frame_index(), 12);
}

#[test]
fn reset_brings_back_the_fresh_state() {
    let mut s = Sprite::new();
    s.set_loop(false);
    s.play(&animation(2, 16));
    s.update();
    s.update();
    s.scale = Vec2::new(-2500, 2500);
    s.set_anchor(0, 1000);
    s.set_alpha(300);
    s.reset();
    assert!(s.is_loop());
    assert!(!s.pause);
    assert_eq!(s.get_current_frame_index(), 0);
    assert_eq!(s.get_total_frames(), 0);
    assert_eq!(s.scale, Vec2::new(1000, 1000));
    assert_eq!(s.anchor, Vec2::new(500, 500));
    assert_eq!(s.alpha(), 1000);
}

#[test]
fn flipping_sets_the_sign_of_the_scale() {
    let mut s = Sprite::new();
    s.scale = Vec2::new(1400, 1400);
    s.flip_x(true);
    assert_eq!(s.scale, Vec2::new(-1400, 1400));
    assert!(s.is_flipped_x());
    s.flip_x(true);
    assert_eq!(s.scale, Vec2::new(-1400, 1400));
    s.flip_x(false);
    assert_eq!(s.scale, Vec2::new(1400, 1400));
    s.flip_y(true);
    assert_eq!(s.scale, Vec2::new(1400, -1400));
    s.flip_y(false);
    assert_eq!(s.scale, Vec2::new(1400, 1400));
    s.scale = Vec2::new(i32::MIN, 0);
    s.flip_x(false);
    assert_eq!(s.scale.x, i32::MAX);
}

#[test]
fn anchor_and_colour_are_set() {
    let mut s = Sprite::new();
    s.set_anchor(-5, 2000);
    assert_eq!(s.anchor, Vec2::new(0, 1000));
    s.set_anchor(250, 750);
    assert_eq!(s.anchor, Vec2::new(250, 750));
    s.set_alpha(400);
    assert_eq!(s.alpha(), 400);
    assert_eq!(s.color.a, 400);
    s.set_color(100, 200, 300);
    assert_eq!(s.color, Color { r: 100, g: 200, b: 300, a: 400 });
}

#[test]
fn origin_follows_the_anchor() {
    let mut s = Sprite::new();
    assert_eq!(s.get_origin(500, 500), Vec2::new(0, 0));
    let mut a = AnimationMultiTextures::new();
    a.add_with_rectangle(1, Rectangle::new(0, 0, 64, 32));
    s.play(&a);
    assert_eq!(s.get_origin(500, 500), Vec2::new(32, 16));
    assert_eq!(s.get_origin(1000, 0), Vec2::new(64, 0));
}

#[test]
fn a_single_texture_can_be_shown() {
    let mut s = Sprite::new();
    s.play(&animation(3, 16));
    s.update();
    s.show_texture(42);
    assert_eq!(s.get_total_frames(), 1);
    assert_eq!(s.get_current_frame_index(), 0);
    assert_eq!(s.animation.frames[0].texture_id, 42);
}

#[test]
fn continue_loop_brings_the_index_back() {
    let mut s = Sprite::new();
    s.play(&animation(3, 16));
    s.frame_index = 7;
    s.continue_loop();
    assert_eq!(s.get_current_frame_index(), 1);
}
