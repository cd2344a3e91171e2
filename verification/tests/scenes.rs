use deetsrgb::scenes::store_file_name;
use deetsrgb::{default_scenes, Light, Scene, Scenes, Store};

fn light(on: bool, rgb: [u8; 3], brightness: u8) -> Light {
    Light { on, rgb, brightness }
}

fn scene(id: &str, name: &str, keyboard: Option<Light>, mouse: Option<Light>) -> Scene {
    Scene { id: id.to_string(), name: name.to_string(), keyboard, mouse }
}

fn ids(store: &Store) -> Vec<String> {
    store.scenes.iter().map(|s| s.id.clone()).collect()
}

#[test]
fn shipped_scenes() {
    let s = default_scenes();
    assert_eq!(s.len(), 3);
    assert_eq!((s[0].id.as_str(), s[0].name.as_str()), ("cool-white", "Cool White 40%"));
    assert_eq!((s[1].id.as_str(), s[1].name.as_str()), ("warm-white", "Warm White 40%"));
    assert_eq!((s[2].id.as_str(), s[2].name.as_str()), ("off", "Lights Off"));
    assert_eq!(s[0].keyboard, Some(light(true, [220, 235, 255], 40)));
    assert_eq!(s[0].mouse, Some(light(true, [220, 235, 255], 40)));
    assert_eq!(s[1].keyboard, Some(light(true, [255, 214, 170], 40)));
    assert_eq!(s[1].mouse, Some(light(true, [255, 214, 170], 40)));
    assert_eq!(s[2].keyboard, Some(light(false, [0, 0, 0], 0)));
    assert_eq!(s[2].mouse, Some(light(false, [0, 0, 0], 0)));
}

#[test]
fn load_without_a_store_starts_with_the_shipped_scenes() {
    let s = Scenes::load("/data/deetsrgb.json".to_string(), None);
    assert_eq!(s.path, "/data/deetsrgb.json");
    assert_eq!(ids(&s.store), vec!["cool-white", "warm-white", "off"]);
    assert_eq!(s.store.keyboard, None);
    assert_eq!(s.store.mouse, None);
    assert!(!s.store.autostart_seeded);
    assert_eq!(store_file_name(), "deetsrgb.json");
}

#[test]
fn load_keeps_a_stored_store() {
    let stored = Store {
        scenes: vec![scene("a", "A", None, Some(light(true, [1, 2, 3], 50)))],
        keyboard: Some(light(false, [0, 0, 0], 0)),
        mouse: None,
        autostart_seeded: true,
    };
    let s = Scenes::load("p".to_string(), Some(stored));
    assert_eq!(ids(&s.store), vec!["a"]);
    assert_eq!(s.store.keyboard, Some(light(false, [0, 0, 0], 0)));
    assert!(s.store.autostart_seeded);
}

#[test]
fn save_replaces_a_scene_with_the_same_id() {
    let mut store = Store { scenes: default_scenes(), ..Default::default() };
    store.save_scene(scene("warm-white", "Warmer", Some(light(true, [255, 200, 150], 60)), None));
    assert_eq!(ids(&store), vec!["cool-white", "warm-white", "off"]);
    assert_eq!(store.scenes[1].name, "Warmer");
    assert_eq!(store.scene_lights("warm-white"), Ok((Some(light(true, [255, 200, 150], 60)), None)));
    // the others are untouched
    assert_eq!(store.scenes[0].name, "Cool White 40%");
}

#[test]
fn save_appends_a_new_scene() {
    let mut store = Store::default();
    store.save_scene(scene("reading", "Reading", None, Some(light(true, [9, 9, 9], 10))));
    store.save_scene(scene("night", "Night", Some(light(false, [0, 0, 0], 0)), None));
    assert_eq!(ids(&store), vec!["reading", "night"]);
    assert_eq!(store.scene_lights("night"), Ok((Some(light(false, [0, 0, 0], 0)), None)));
}

#[test]
fn delete_removes_every_scene_with_the_id() {
    let mut store = Store {
        scenes: vec![scene("a", "1", None, None), scene("b", "2", None, None), scene("a", "3", None, None)],
        ..Default::default()
    };
    store.delete_scene("a");
    assert_eq!(ids(&store), vec!["b"]);
    assert_eq!(store.scene_lights("a"), Err("no such scene".to_string()));
    store.delete_scene("missing");
    assert_eq!(ids(&store), vec!["b"]);
}

#[test]
fn lookup_uses_the_first_scene_with_the_id() {
    let store = Store {
        scenes: vec![
            scene("a", "1", Some(light(true, [1, 1, 1], 1)), None),
            scene("a", "2", Some(light(true, [2, 2, 2], 2)), None),
        ],
        ..Default::default()
    };
    assert_eq!(store.scene_lights("a"), Ok((Some(light(true, [1, 1, 1], 1)), None)));
    assert_eq!(store.scene_lights("b"), Err("no such scene".to_string()));
}

#[test]
fn record_last_applied() {
    let mut store = Store::default();
    store.record_keyboard(light(true, [1, 2, 3], 40));
    assert_eq!(store.keyboard, Some(light(true, [1, 2, 3], 40)));
    assert_eq!(store.mouse, None);
    store.record_mouse(light(false, [0, 0, 0], 0));
    assert_eq!(store.mouse, Some(light(false, [0, 0, 0], 0)));
    store.mark_autostart_seeded();
    assert!(store.autostart_seeded);
}

#[test]
fn list_and_duplicate_copy_scenes() {
    let store = Store { scenes: default_scenes(), ..Default::default() };
    let list = store.list_scenes();
    assert_eq!(list.len(), 3);
    assert_eq!(list[2].name, "Lights Off");
    let copy = list[0].duplicate();
    assert_eq!(copy.id, "cool-white");
    assert_eq!(copy.keyboard, list[0].keyboard);
}
