//! What the application decides between the user and the drivers: which
//! session a light needs, how the outcomes of a scene are reported, the tray
//! menu and what its entries do, when the panel shows, and launch at startup.
use vstd::prelude::*;

use crate::brightness::{kb_brightness, keyboard_level, mouse_brightness, mouse_level};
use crate::hid::HidAction;
use crate::razer::{mouse_plan, mouse_start, Mouse, MouseTask, LED_LOGO, LED_SCROLL, VARSTORE};
use crate::scenes::{lookup, Light, Scene, SceneView, Store, StoreView};
use crate::sinowealth::{kb_next, kb_start, KbTask, Keyboard};
use crate::text::{contains, contains_text, strip_prefix, strip_prefix_text};

verus! {

/// The keyboard task that applies `light`: Solid at its brightness mapped onto
/// 0–9 when on, Off otherwise.
pub open spec fn keyboard_task(light: crate::scenes::Light) -> KbTask {
    if light.on {
        KbTask::SetSolid { rgb: light.rgb, brightness: keyboard_level(light.brightness) as u8 }
    } else {
        KbTask::SetOff
    }
}

/// The mouse task that applies `light`: static colour at its brightness mapped
/// onto 0–255 when on, off otherwise.
pub open spec fn mouse_task(light: crate::scenes::Light) -> MouseTask {
    if light.on {
        MouseTask::SetStatic { rgb: light.rgb, brightness: mouse_level(light.brightness) as u8 }
    } else {
        MouseTask::SetOff
    }
}

/// The keyboard session that applies `light`, and its first transfer.
pub fn keyboard_session(light: &crate::scenes::Light) -> (r: (Keyboard, HidAction))
    ensures
        r.0@ == kb_start(keyboard_task(*light)).0,
        r.1@ == kb_start(keyboard_task(*light)).1,
        crate::sinowealth::kb_active(r.0@),
{
    if light.on {
        Keyboard::set_solid(light.rgb, kb_brightness(light.brightness))
    } else {
        Keyboard::set_off()
    }
}

/// The mouse session that applies `light`, and its first transfer.
pub fn mouse_session(light: &crate::scenes::Light) -> (r: (Mouse, HidAction))
    ensures
        r.0@ == mouse_start(mouse_task(*light)).0,
        r.1@ == mouse_start(mouse_task(*light)).1,
        r.0@.active(),
{
    if light.on {
        Mouse::set_static(light.rgb, mouse_brightness(light.brightness))
    } else {
        Mouse::set_off()
    }
}

/// The parts joined with `sep` between each two.
pub open spec fn joined(parts: Seq<Seq<char>>, sep: Seq<char>) -> Seq<char>
    decreases parts.len(),
{
    if parts.len() == 0 {
        seq![]
    } else if parts.len() == 1 {
        parts[0]
    } else {
        joined(parts.drop_last(), sep) + sep + parts.last()
    }
}

/// The views of a list of strings.
pub open spec fn texts(v: Seq<String>) -> Seq<Seq<char>> {
    v.map_values(|s: String| s@)
}

/// The outcome of applying a scene, given the errors of the devices it set in
/// order: success when there were none, else all of them joined with `"; "`.
pub fn scene_outcome(errors: &Vec<String>) -> (r: Result<(), String>)
    ensures
        errors@.len() == 0 ==> r is Ok,
        errors@.len() > 0 ==> (r matches Err(e) && e@ == joined(texts(errors@), "; "@)),
{
    if errors.len() == 0 {
        return Ok(());
    }
    let ghost parts = texts(errors@);
    let mut out = errors[0].clone();
    assert(parts.take(1).drop_last() =~= parts.take(0));
    let mut i: usize = 1;
    while i < errors.len()
        invariant
            parts == texts(errors@),
            1 <= i <= errors@.len(),
            out@ == joined(parts.take(i as int), "; "@),
        decreases errors@.len() - i,
    {
        assert(parts.take(i + 1).drop_last() =~= parts.take(i as int));
        out.append("; ");
        out.append(errors[i].as_str());
        i += 1;
    }
    assert(parts.take(i as int) =~= parts);
    Err(out)
}

/// What a left click on the tray icon does to the panel.
#[derive(Clone, Copy, PartialEq, Eq, Structural, Debug)]
pub enum PanelAction {
    Hide,
    Show,
    /// Nothing: the click is the one that just hid the panel.
    Stay,
}

/// A click within this many milliseconds of the panel hiding is the click that
/// hid it.
pub const REOPEN_GUARD_MS: u64 = 300;

/// The panel hides when visible. Otherwise it shows, unless it was hidden less
/// than 300 ms ago: the click that blurred (and so hid) it must not re-open it.
pub fn toggle_panel(visible: bool, since_hidden_ms: Option<u64>) -> (r: PanelAction)
    ensures
        visible ==> r == PanelAction::Hide,
        !visible ==> (r == PanelAction::Stay <==> (since_hidden_ms matches Some(t) && t < REOPEN_GUARD_MS)),
        !visible ==> r != PanelAction::Hide,
{
    if visible {
        PanelAction::Hide
    } else {
        match since_hidden_ms {
            Some(t) if t < REOPEN_GUARD_MS => PanelAction::Stay,
            _ => PanelAction::Show,
        }
    }
}

/// An entry of the tray menu.
pub enum MenuEntry {
    Item { id: String, label: String },
    Separator,
}

pub enum MenuEntryView {
    Item { id: Seq<char>, label: Seq<char> },
    Separator,
}

impl View for MenuEntry {
    type V = MenuEntryView;

    open spec fn view(&self) -> MenuEntryView {
        match self {
            MenuEntry::Item { id, label } => MenuEntryView::Item { id: id@, label: label@ },
            MenuEntry::Separator => MenuEntryView::Separator,
        }
    }
}

/// The menu item that applies a scene.
pub open spec fn scene_item(s: SceneView) -> MenuEntryView {
    MenuEntryView::Item { id: "scene:"@ + s.id, label: s.name }
}

/// The tray menu: one item per scene, in order, then a separator, *Open* and
/// *Quit*.
pub open spec fn tray_menu_view(scenes: Seq<SceneView>) -> Seq<MenuEntryView> {
    scenes.map_values(|s: SceneView| scene_item(s)) + seq![
        MenuEntryView::Separator,
        MenuEntryView::Item { id: "open"@, label: "Open DeetsRGB"@ },
        MenuEntryView::Item { id: "quit"@, label: "Quit DeetsRGB"@ },
    ]
}

/// The tray menu for the scenes in `store`.
pub fn tray_menu(store: &Store) -> (r: Vec<MenuEntry>)
    ensures
        r@.map_values(|e: MenuEntry| e@) == tray_menu_view(store@.scenes),
{
    let ghost scenes = store@.scenes;
    let mut r: Vec<MenuEntry> = Vec::new();
    let mut i: usize = 0;
    while i < store.scenes.len()
        invariant
            scenes == store@.scenes,
            i <= store.scenes@.len(),
            r@.len() == i,
            forall|j: int| 0 <= j < i ==> (#[trigger] r@[j])@ == scene_item(scenes[j]),
        decreases store.scenes@.len() - i,
    {
        let s: &Scene = &store.scenes[i];
        let mut id = String::from_str("scene:");
        id.append(s.id.as_str());
        r.push(MenuEntry::Item { id, label: s.name.clone() });
        i += 1;
    }
    r.push(MenuEntry::Separator);
    r.push(MenuEntry::Item { id: String::from_str("open"), label: String::from_str("Open DeetsRGB") });
    r.push(MenuEntry::Item { id: String::from_str("quit"), label: String::from_str("Quit DeetsRGB") });
    assert(r@.map_values(|e: MenuEntry| e@) =~= tray_menu_view(scenes));
    r
}

/// What a tray menu entry does.
pub enum MenuCommand {
    Quit,
    Open,
    /// Apply the scene with this id.
    ApplyScene(String),
    /// An id the menu does not know.
    Ignore,
}

pub enum MenuCommandView {
    Quit,
    Open,
    ApplyScene(Seq<char>),
    Ignore,
}

impl View for MenuCommand {
    type V = MenuCommandView;

    open spec fn view(&self) -> MenuCommandView {
        match self {
            MenuCommand::Quit => MenuCommandView::Quit,
            MenuCommand::Open => MenuCommandView::Open,
            MenuCommand::ApplyScene(id) => MenuCommandView::ApplyScene(id@),
            MenuCommand::Ignore => MenuCommandView::Ignore,
        }
    }
}

/// The command behind a menu entry id.
pub open spec fn menu_command_view(id: Seq<char>) -> MenuCommandView {
    if id == "quit"@ {
        MenuCommandView::Quit
    } else if id == "open"@ {
        MenuCommandView::Open
    } else {
        match strip_prefix_text(id, "scene:"@) {
            Some(scene) => MenuCommandView::ApplyScene(scene),
            None => MenuCommandView::Ignore,
        }
    }
}

/// The command behind the menu entry with id `id`.
pub fn menu_command(id: &str) -> (r: MenuCommand)
    ensures
        r@ == menu_command_view(id@),
{
    let owned = String::from_str(id);
    if owned == String::from_str("quit") {
        MenuCommand::Quit
    } else if owned == String::from_str("open") {
        MenuCommand::Open
    } else {
        match strip_prefix(id, "scene:") {
            Some(scene) => MenuCommand::ApplyScene(scene),
            None => MenuCommand::Ignore,
        }
    }
}

/// The per-user `Run` key launch at startup lives under.
pub const RUN_KEY: &'static str = "HKCU\\Software\\Microsoft\\Windows\\CurrentVersion\\Run";
/// The value name under the `Run` key.
pub const RUN_VALUE: &'static str = "DeetsRGB";

/// Whether launch at startup is on, given what querying the `Run` value
/// printed (or the error running the query gave): on exactly when the output
/// names the value.
pub fn autostart_enabled(query: &Result<String, String>) -> (r: bool)
    ensures
        r == (query matches Ok(out) && contains_text(out@, RUN_VALUE@)),
{
    match query {
        Ok(out) => contains(out.as_str(), RUN_VALUE),
        Err(_) => false,
    }
}

/// The `reg` arguments that query the `Run` value.
pub fn reg_query_args() -> (r: Vec<String>)
    ensures
        texts(r@) == seq!["query"@, RUN_KEY@, "/v"@, RUN_VALUE@],
{
    let r: Vec<String> = vec![
        String::from_str("query"),
        String::from_str(RUN_KEY),
        String::from_str("/v"),
        String::from_str(RUN_VALUE),
    ];
    assert(texts(r@) =~= seq!["query"@, RUN_KEY@, "/v"@, RUN_VALUE@]);
    r
}

/// The `reg` arguments that turn launch at startup on (the `Run` value set to
/// the quoted path of the executable `exe`) or off (the value deleted).
pub fn autostart_write_args(on: bool, exe: &str) -> (r: Vec<String>)
    ensures
        on ==> texts(r@) == seq![
            "add"@, RUN_KEY@, "/v"@, RUN_VALUE@, "/t"@, "REG_SZ"@, "/d"@, "\""@ + exe@ + "\""@, "/f"@,
        ],
        !on ==> texts(r@) == seq!["delete"@, RUN_KEY@, "/v"@, RUN_VALUE@, "/f"@],
{
    if on {
        let mut quoted = String::from_str("\"");
        quoted.append(exe);
        quoted.append("\"");
        let r: Vec<String> = vec![
            String::from_str("add"),
            String::from_str(RUN_KEY),
            String::from_str("/v"),
            String::from_str(RUN_VALUE),
            String::from_str("/t"),
            String::from_str("REG_SZ"),
            String::from_str("/d"),
            quoted,
            String::from_str("/f"),
        ];
        assert(texts(r@) =~= seq![
            "add"@, RUN_KEY@, "/v"@, RUN_VALUE@, "/t"@, "REG_SZ"@, "/d"@, "\""@ + exe@ + "\""@, "/f"@,
        ]);
        r
    } else {
        let r: Vec<String> = vec![
            String::from_str("delete"),
            String::from_str(RUN_KEY),
            String::from_str("/v"),
            String::from_str(RUN_VALUE),
            String::from_str("/f"),
        ];
        assert(texts(r@) =~= seq!["delete"@, RUN_KEY@, "/v"@, RUN_VALUE@, "/f"@]);
        r
    }
}

/// Every entry of the tray menu does what it says: a scene's item applies that
/// scene, *Open* opens the panel, *Quit* quits.
pub proof fn lemma_menu_entries_dispatch(scenes: Seq<SceneView>)
    ensures
        forall|i: int| 0 <= i < scenes.len() ==>
            menu_command_view("scene:"@ + (#[trigger] scenes[i]).id) == MenuCommandView::ApplyScene(scenes[i].id),
        menu_command_view("open"@) == MenuCommandView::Open,
        menu_command_view("quit"@) == MenuCommandView::Quit,
{
    reveal_strlit("scene:");
    reveal_strlit("open");
    reveal_strlit("quit");
    assert forall|i: int| 0 <= i < scenes.len() implies
        menu_command_view("scene:"@ + (#[trigger] scenes[i]).id) == MenuCommandView::ApplyScene(scenes[i].id) by {
        let id = "scene:"@ + scenes[i].id;
        assert(id.len() >= 6);
        assert(id != "quit"@);
        assert(id != "open"@);
        assert(id.subrange(0, 6) =~= "scene:"@);
        assert(id.subrange(6, id.len() as int) =~= scenes[i].id);
    }
    assert("open"@ != "quit"@) by {
        assert("open"@[0] != "quit"@[0]);
    }
}

/// The tray menu shows every scene of the store, in order, each under its own
/// name, before the fixed entries.
pub proof fn lemma_tray_menu_lists_scenes(scenes: Seq<SceneView>)
    ensures
        tray_menu_view(scenes).len() == scenes.len() + 3,
        forall|i: int| 0 <= i < scenes.len() ==> tray_menu_view(scenes)[i] == scene_item(#[trigger] scenes[i]),
        tray_menu_view(scenes)[scenes.len() as int] == MenuEntryView::Separator,
{
}

/// A launch enrols in launch at startup when it is an installed (release)
/// build and the store has no enrolment recorded yet.
pub open spec fn enrol_wanted(release_build: bool, store: StoreView) -> bool {
    release_build && !store.autostart_seeded
}

/// Whether this launch writes the `Run` value: only a release build, and only
/// while no enrolment is recorded. Once the store records it (whether or not
/// the write worked), later launches leave the key to the user's toggle.
pub fn should_enrol_autostart(release_build: bool, store: &Store) -> (r: bool)
    ensures
        r == enrol_wanted(release_build, store@),
{
    release_build && !store.autostart_seeded
}

/// Enrolment happens once: after it is recorded, no launch enrols again, and a
/// development build never enrols.
pub proof fn lemma_enrolled_once(release_build: bool, store: StoreView)
    ensures
        !enrol_wanted(release_build, StoreView { autostart_seeded: true, ..store }),
        !enrol_wanted(false, store),
{
}

/// The sessions that apply the first scene with id `id`: one per device the
/// scene sets, none for a device whose entry is `None` (left alone), each
/// applying that device's light (given alongside, to be recorded once applied);
/// or `"no such scene"`.
pub fn scene_sessions(store: &Store, id: &str) -> (r: Result<(Option<(Keyboard, HidAction, Light)>, Option<(Mouse, HidAction, Light)>), String>)
    ensures
        match lookup(store@.scenes, id@) {
            Some(sc) => r matches Ok((k, m)) && {
                &&& (k is Some <==> sc.keyboard is Some)
                &&& (m is Some <==> sc.mouse is Some)
                &&& (k matches Some(p) ==> p.0@ == kb_start(keyboard_task(sc.keyboard.unwrap())).0
                    && p.1@ == kb_start(keyboard_task(sc.keyboard.unwrap())).1
                    && crate::sinowealth::kb_active(p.0@)
                    && p.2 == sc.keyboard.unwrap())
                &&& (m matches Some(p) ==> p.0@ == mouse_start(mouse_task(sc.mouse.unwrap())).0
                    && p.1@ == mouse_start(mouse_task(sc.mouse.unwrap())).1
                    && p.0@.active()
                    && p.2 == sc.mouse.unwrap())
            },
            None => r matches Err(e) && e@ == "no such scene"@,
        },
{
    let (keyboard, mouse) = store.scene_lights(id)?;
    let k = match keyboard {
        Some(l) => {
            let (kb, first) = keyboard_session(&l);
            Some((kb, first, l))
        },
        None => None,
    };
    let m = match mouse {
        Some(l) => {
            let (mo, first) = mouse_session(&l);
            Some((mo, first, l))
        },
        None => None,
    };
    Ok((k, m))
}

/// Records `light` as the last state of the keyboard when applying it
/// succeeded; after a failure the store is left as it was.
pub fn record_keyboard_outcome(store: &mut Store, light: Light, outcome: &Result<(), String>)
    ensures
        outcome is Ok ==> final(store)@ == (StoreView { keyboard: Some(light), ..old(store)@ }),
        outcome is Err ==> final(store)@ == old(store)@,
{
    if outcome.is_ok() {
        store.record_keyboard(light);
    }
}

/// Records `light` as the last state of the mouse when applying it succeeded
/// (the mouse cannot report its colour back, so this is the only record of
/// it); after a failure the store is left as it was.
pub fn record_mouse_outcome(store: &mut Store, light: Light, outcome: &Result<(), String>)
    ensures
        outcome is Ok ==> final(store)@ == (StoreView { mouse: Some(light), ..old(store)@ }),
        outcome is Err ==> final(store)@ == old(store)@,
{
    if outcome.is_ok() {
        store.record_mouse(light);
    }
}

/// Applying a light that is on to the keyboard: the session reads the colour
/// table first, and whatever table comes back is written with the light's
/// red, green and blue, in that order, at bytes 21, 22 and 23; it is a solid
/// session whose brightness is the light's 0–100 brightness mapped onto 0–9.
/// A light that is off gives a session that reads the config block and never
/// touches the colour table.
pub proof fn lemma_keyboard_session_uses_the_light(light: Light, ct_buf: Seq<u8>)
    requires
        ct_buf.len() == crate::sinowealth::REPLY_LEN,
    ensures
        light.on ==> {
            &&& keyboard_task(light) matches KbTask::SetSolid { rgb, brightness }
                && brightness == keyboard_level(light.brightness) && rgb@ == light.rgb@
            &&& kb_start(keyboard_task(light)).1 == crate::sinowealth::read_request(crate::sinowealth::Block::Colours)
            &&& kb_next(kb_start(keyboard_task(light)).0, crate::hid::HidEventView::Received(ct_buf)).1 matches
                crate::hid::StepView::Next(crate::hid::HidActionView::Write { packet, .. }) && {
                &&& packet[1] == 0x0A
                &&& packet[8int + 21] == light.rgb[0]
                &&& packet[8int + 22] == light.rgb[1]
                &&& packet[8int + 23] == light.rgb[2]
            }
        },
        !light.on ==> keyboard_task(light) is SetOff
            && kb_start(keyboard_task(light)).1 == crate::sinowealth::read_request(crate::sinowealth::Block::Config),
{
    if light.on {
        assert(keyboard_task(light)->SetSolid_rgb@ =~= light.rgb@);
    }
}

/// Applying a light that is on to the mouse: the logo gets the static-colour
/// command with the light's red, green and blue, in that order, then the
/// brightness command with the light's 0–100 brightness mapped onto 0–255;
/// then the scroll wheel gets the same two. A light that is off gives the two
/// effect-off commands, logo first.
pub proof fn lemma_mouse_session_uses_the_light(light: Light)
    ensures
        light.on ==> {
            let plan = mouse_plan(mouse_task(light));
            &&& plan.len() == 4
            &&& forall|k: int| 0 <= k < 4 ==> (#[trigger] plan[k])[7] == 0x0F && plan[k][9] == VARSTORE
            &&& plan[0][8] == 0x02 && plan[0][10] == LED_LOGO
            &&& plan[0][15] == light.rgb[0] && plan[0][16] == light.rgb[1] && plan[0][17] == light.rgb[2]
            &&& plan[1][8] == 0x04 && plan[1][10] == LED_LOGO && plan[1][11] == mouse_level(light.brightness)
            &&& plan[2][8] == 0x02 && plan[2][10] == LED_SCROLL
            &&& plan[2][15] == light.rgb[0] && plan[2][16] == light.rgb[1] && plan[2][17] == light.rgb[2]
            &&& plan[3][8] == 0x04 && plan[3][10] == LED_SCROLL && plan[3][11] == mouse_level(light.brightness)
        },
        !light.on ==> {
            let plan = mouse_plan(mouse_task(light));
            &&& plan.len() == 2
            &&& plan[0][7] == 0x0F && plan[0][8] == 0x02 && plan[0][10] == LED_LOGO && plan[0][11] == 0
            &&& plan[1][7] == 0x0F && plan[1][8] == 0x02 && plan[1][10] == LED_SCROLL && plan[1][11] == 0
        },
{
    crate::brightness::lemma_brightness_range(light.brightness);
    let rgb = light.rgb;
    let level = mouse_level(light.brightness) as u8;
    crate::razer::lemma_report_well_formed(0x0F, 0x02, 0x09, seq![VARSTORE, LED_LOGO, 0x01u8, 0u8, 0u8, 0x01u8, rgb[0], rgb[1], rgb[2]]);
    crate::razer::lemma_report_well_formed(0x0F, 0x02, 0x09, seq![VARSTORE, LED_SCROLL, 0x01u8, 0u8, 0u8, 0x01u8, rgb[0], rgb[1], rgb[2]]);
    crate::razer::lemma_report_well_formed(0x0F, 0x04, 0x03, seq![VARSTORE, LED_LOGO, level]);
    crate::razer::lemma_report_well_formed(0x0F, 0x04, 0x03, seq![VARSTORE, LED_SCROLL, level]);
    crate::razer::lemma_report_well_formed(0x0F, 0x02, 0x06, seq![VARSTORE, LED_LOGO, 0u8, 0u8, 0u8, 0u8]);
    crate::razer::lemma_report_well_formed(0x0F, 0x02, 0x06, seq![VARSTORE, LED_SCROLL, 0u8, 0u8, 0u8, 0u8]);
}

} // verus!
