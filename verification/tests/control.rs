use deetsrgb::control::{
    autostart_write_args, keyboard_session, record_keyboard_outcome, record_mouse_outcome, scene_sessions,
    should_enrol_autostart, menu_command, mouse_session, reg_query_args, scene_outcome, toggle_panel,
    tray_menu, MenuCommand, MenuEntry, PanelAction,
};
use deetsrgb::hid::{HidAction, HidEvent, Step};
use deetsrgb::razer::REPORT_LEN;
use deetsrgb::sinowealth::packet;
use deetsrgb::{autostart_enabled, default_scenes, Light, Scene, Store};

fn request(a: &HidAction) -> Vec<u8> {
    match a {
        HidAction::Exchange { request, .. } => request.clone(),
        _ => panic!("expected an exchange"),
    }
}

#[test]
fn keyboard_light_on_sets_solid_at_mapped_brightness() {
    let (mut kb, first) = keyboard_session(&Light { on: true, rgb: [5, 6, 7], brightness: 40 });
    assert_eq!(request(&first), packet(0x8A, 0x200, &vec![]));
    let mut buf = vec![0u8; 521];
    buf[0] = 6;
    let _ = kb.step(HidEvent::Received(buf.clone()));
    let _ = kb.step(HidEvent::Sent);
    buf[8 + 0x7E] = 0x5A;
    buf[8 + 0x7F] = 0xA5;
    match kb.step(HidEvent::Received(buf)) {
        Step::Next(HidAction::Write { packet, .. }) => {
            assert_eq!(packet[8 + 0x3A], 4);
            assert_eq!(packet[8 + 0x0A], 1);
        }
        _ => panic!("expected the config write"),
    }
}

#[test]
fn keyboard_light_off_sets_off() {
    let (_, first) = keyboard_session(&Light { on: false, rgb: [5, 6, 7], brightness: 40 });
    assert_eq!(request(&first), packet(0x84, 0x80, &vec![]));
}

#[test]
fn mouse_light_maps_brightness_to_255() {
    let (mut m, first) = mouse_session(&Light { on: true, rgb: [5, 6, 7], brightness: 40 });
    assert_eq!(&request(&first)[7..9], &[0x0F, 0x02]);
    let mut ok = vec![0u8; REPORT_LEN];
    ok[1] = 0x02;
    match m.step(HidEvent::Received(ok)) {
        Step::Next(a) => {
            let r = request(&a);
            assert_eq!(&r[7..12], &[0x0F, 0x04, 0x01, 0x04, 102]);
        }
        _ => panic!("expected the brightness command"),
    }
    let (_, first) = mouse_session(&Light { on: false, rgb: [5, 6, 7], brightness: 40 });
    assert_eq!(&request(&first)[7..11], &[0x0F, 0x02, 0x01, 0x04]);
    assert_eq!(request(&first)[11], 0x00);
}

#[test]
fn scene_outcome_joins_errors() {
    assert_eq!(scene_outcome(&vec![]), Ok(()));
    assert_eq!(scene_outcome(&vec!["keyboard not found".to_string()]), Err("keyboard not found".to_string()));
    assert_eq!(
        scene_outcome(&vec!["a".to_string(), "b".to_string(), "c".to_string()]),
        Err("a; b; c".to_string())
    );
}

#[test]
fn toggling_the_panel() {
    assert_eq!(toggle_panel(true, None), PanelAction::Hide);
    assert_eq!(toggle_panel(true, Some(10)), PanelAction::Hide);
    assert_eq!(toggle_panel(false, None), PanelAction::Show);
    assert_eq!(toggle_panel(false, Some(299)), PanelAction::Stay);
    assert_eq!(toggle_panel(false, Some(300)), PanelAction::Show);
    assert_eq!(toggle_panel(false, Some(5000)), PanelAction::Show);
}

#[test]
fn tray_menu_lists_scenes_then_open_and_quit() {
    let store = Store { scenes: default_scenes(), ..Default::default() };
    let menu = tray_menu(&store);
    assert_eq!(menu.len(), 6);
    let item = |e: &MenuEntry| match e {
        MenuEntry::Item { id, label } => Some((id.clone(), label.clone())),
        MenuEntry::Separator => None,
    };
    assert_eq!(item(&menu[0]), Some(("scene:cool-white".to_string(), "Cool White 40%".to_string())));
    assert_eq!(item(&menu[2]), Some(("scene:off".to_string(), "Lights Off".to_string())));
    assert_eq!(item(&menu[3]), None);
    assert_eq!(item(&menu[4]), Some(("open".to_string(), "Open DeetsRGB".to_string())));
    assert_eq!(item(&menu[5]), Some(("quit".to_string(), "Quit DeetsRGB".to_string())));
}

#[test]
fn menu_commands() {
    assert!(matches!(menu_command("quit"), MenuCommand::Quit));
    assert!(matches!(menu_command("open"), MenuCommand::Open));
    match menu_command("scene:warm-white") {
        MenuCommand::ApplyScene(id) => assert_eq!(id, "warm-white"),
        _ => panic!("expected a scene"),
    }
    assert!(matches!(menu_command("bogus"), MenuCommand::Ignore));
    assert!(matches!(menu_command("Quit"), MenuCommand::Ignore));
}

#[test]
fn autostart_detection() {
    let out = "\r\nHKEY_CURRENT_USER\\Software\\Microsoft\\Windows\\CurrentVersion\\Run\r\n    DeetsRGB    REG_SZ    \"C:\\DeetsRGB.exe\"\r\n";
    assert!(autostart_enabled(&Ok(out.to_string())));
    assert!(!autostart_enabled(&Ok(String::new())));
    assert!(!autostart_enabled(&Err("reg.exe: not found".to_string())));
}

#[test]
fn autostart_commands() {
    let key = "HKCU\\Software\\Microsoft\\Windows\\CurrentVersion\\Run";
    assert_eq!(reg_query_args(), vec!["query", key, "/v", "DeetsRGB"]);
    assert_eq!(
        autostart_write_args(true, "C:\\Apps\\DeetsRGB.exe"),
        vec!["add", key, "/v", "DeetsRGB", "/t", "REG_SZ", "/d", "\"C:\\Apps\\DeetsRGB.exe\"", "/f"]
    );
    assert_eq!(autostart_write_args(false, "ignored"), vec!["delete", key, "/v", "DeetsRGB", "/f"]);
}

#[test]
fn autostart_enrols_once_in_release_builds_only() {
    let mut store = Store::default();
    assert!(should_enrol_autostart(true, &store));
    assert!(!should_enrol_autostart(false, &store));
    store.mark_autostart_seeded();
    assert!(!should_enrol_autostart(true, &store));
    assert!(!should_enrol_autostart(false, &store));
}

#[test]
fn scene_sessions_leave_unset_devices_alone() {
    let mut store = Store { scenes: default_scenes(), ..Default::default() };
    store.save_scene(Scene {
        id: "kb-only".to_string(),
        name: "Keyboard only".to_string(),
        keyboard: Some(Light { on: true, rgb: [1, 2, 3], brightness: 100 }),
        mouse: None,
    });
    match scene_sessions(&store, "kb-only") {
        Ok((Some((_, first, light)), None)) => {
            assert_eq!(request(&first), packet(0x8A, 0x200, &vec![]));
            assert_eq!(light, Light { on: true, rgb: [1, 2, 3], brightness: 100 });
        }
        _ => panic!("expected a keyboard session only"),
    }
    match scene_sessions(&store, "off") {
        Ok((Some((_, kb_first, _)), Some((_, m_first, m_light)))) => {
            assert_eq!(request(&kb_first), packet(0x84, 0x80, &vec![]));
            assert_eq!(&request(&m_first)[7..9], &[0x0F, 0x02]);
            assert!(!m_light.on);
        }
        _ => panic!("expected both sessions"),
    }
    assert!(matches!(scene_sessions(&store, "nope"), Err(e) if e == "no such scene"));
}

#[test]
fn lights_are_recorded_only_after_success() {
    let mut store = Store::default();
    let l = Light { on: true, rgb: [9, 8, 7], brightness: 30 };
    record_keyboard_outcome(&mut store, l, &Err("keyboard not found".to_string()));
    record_mouse_outcome(&mut store, l, &Err("mouse not found".to_string()));
    assert_eq!(store.keyboard, None);
    assert_eq!(store.mouse, None);
    record_keyboard_outcome(&mut store, l, &Ok(()));
    assert_eq!(store.keyboard, Some(l));
    assert_eq!(store.mouse, None);
    record_mouse_outcome(&mut store, l, &Ok(()));
    assert_eq!(store.mouse, Some(l));
}
