use one_man::image_assets::{ContentPath, ImageAssets};

fn entry(name: &str, textures: &[&str], rate: u64) -> (String, Vec<String>, u64) {
    (name.to_string(), textures.iter().map(|t| t.to_string()).collect(), rate)
}

#[test]
fn content_path_keeps_key_and_path() {
    let c = ContentPath::new("bg".to_string(), "./resources/bg.png".to_string());
    assert_eq!(c.key, "bg");
    assert_eq!(c.path, "./resources/bg.png");
    let d = c.clone();
    assert_eq!(d.key, "bg");
    assert_eq!(d.path, "./resources/bg.png");
}

#[test]
fn textures_get_numbers_from_one() {
    let mut assets = ImageAssets::new(Vec::new());
    assert!(!assets.has_textures());
    assert_eq!(assets.get_id("a"), 0);
    assert_eq!(assets.add("a"), 1);
    assert_eq!(assets.add("b"), 2);
    assert!(assets.has_textures());
    assert_eq!(assets.get_id("a"), 1);
    assert_eq!(assets.get_id("b"), 2);
    assert_eq!(assets.get_id("c"), 0);
    assert_eq!(assets.add("a"), 3);
    assert_eq!(assets.get_id("a"), 3);
}

#[test]
fn animations_keep_the_frames_whose_textures_are_known() {
    let mut assets = ImageAssets::new(Vec::new());
    assets.add("run-1");
    assets.add("run-2");
    let count = assets.load_animations(&vec![
        entry("run", &["run-1", "missing", "run-2", "run-1"], 18),
        entry("idle", &["missing"], 0),
    ]);
    assert_eq!(count, 2);
    assert_eq!(assets.get_animation_frames("run"), Some(&vec![1, 2, 1]));
    assert_eq!(assets.get_animation_frames("idle"), Some(&vec![]));
    assert_eq!(assets.get_animation_frames("jump"), None);
    assert_eq!(assets.get_animation_frame_length("run"), 18);
    assert_eq!(assets.get_animation_frame_length("idle"), 0);
    assert_eq!(assets.get_animation_frame_length("jump"), 15);
    assert!(assets.has_animation("run"));
    assert!(!assets.has_animation("jump"));
    let mut keys: Vec<String> = assets.get_all_animation_keys().iter().map(|k| k.to_string()).collect();
    keys.sort();
    assert_eq!(keys, vec!["idle".to_string(), "run".to_string()]);
}

#[test]
fn later_animation_of_the_same_name_counts() {
    let mut assets = ImageAssets::new(Vec::new());
    assets.add("a");
    assets.add("b");
    let count = assets.load_animations(&vec![entry("x", &["a"], 10), entry("x", &["b", "b"], 20)]);
    assert_eq!(count, 1);
    assert_eq!(assets.get_animation_frames("x"), Some(&vec![2, 2]));
    assert_eq!(assets.get_animation_frame_length("x"), 20);
}

#[test]
fn animation_objects_are_ready_to_play() {
    let mut assets = ImageAssets::new(Vec::new());
    assets.add("a");
    assets.add("b");
    assets.load_animations(&vec![entry("walk", &["a", "b"], 18), entry("still", &["a"], 0)]);
    let walk = assets.get_animation_object("walk").unwrap();
    assert_eq!(walk.name, "walk");
    assert_eq!(walk.frame_length, 55);
    assert_eq!(walk.frames.len(), 2);
    assert_eq!(walk.frames[0].texture_id, 1);
    assert_eq!(walk.frames[1].texture_id, 2);
    assert_eq!(walk.frames[1].rect.width, 0);
    let still = assets.get_animation_object("still").unwrap();
    assert_eq!(still.frame_length, 0);
    assert!(assets.get_animation_object("run").is_none());
}

#[test]
fn files_are_loaded_in_batches() {
    let list: Vec<ContentPath> = (0..25)
        .map(|i| ContentPath::new(format!("k{}", i), format!("p{}", i)))
        .collect();
    let mut assets = ImageAssets::new(list);
    assert!(assets.is_loading());
    for _ in 0..12 {
        assert!(assets.loading(0).is_empty());
    }
    let batch = assets.loading(0);
    assert_eq!(batch.len(), 20);
    assert_eq!(batch[0].key, "k24");
    assert_eq!(batch[19].key, "k5");
    assert!(assets.is_loading());
    for _ in 0..12 {
        assert!(assets.loading(0).is_empty());
    }
    let rest = assets.loading(0);
    assert_eq!(rest.len(), 5);
    assert_eq!(rest[4].key, "k0");
    assert!(!assets.is_loading());
    assert!(assets.loading(0).is_empty());
}

#[test]
fn loading_clock_stands_still_under_backlog() {
    let mut assets = ImageAssets::new(vec![ContentPath::new("k".to_string(), "p".to_string())]);
    for _ in 0..100 {
        assert!(assets.loading(100).is_empty());
    }
    assert!(assets.is_loading());
    for _ in 0..12 {
        assert!(assets.loading(99).is_empty());
    }
    assert_eq!(assets.loading(99).len(), 1);
}

#[test]
fn content_is_added_behind_what_waits() {
    let mut assets = ImageAssets::new(Vec::new());
    assert!(!assets.is_loading());
    assets.add_content("bg", "./resources/bg.png");
    assets.add_content_list(&vec![
        ContentPath::new("a".to_string(), "pa".to_string()),
        ContentPath::new("b".to_string(), "pb".to_string()),
    ]);
    assert!(assets.is_loading());
    for _ in 0..12 {
        assets.loading(0);
    }
    let batch = assets.loading(0);
    assert_eq!(batch.len(), 3);
    assert_eq!(batch[0].key, "b");
    assert_eq!(batch[1].path, "pa");
    assert_eq!(batch[2].key, "bg");
}
