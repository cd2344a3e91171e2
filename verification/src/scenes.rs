//! Lights, scenes, and the store that keeps them with the last state applied
//! to each device.
//!
//! A scene sets both devices at once; `None` for a device means "leave it
//! alone", `Some(Light { on: false, .. })` means off.
use vstd::prelude::*;

verus! {

/// One device's lighting.
#[derive(Clone, Copy, Debug, PartialEq, Eq)]
pub struct Light {
    pub on: bool,
    pub rgb: [u8; 3],
    /// 0–100, the user's scale; each driver maps it to its own (0–9 or 0–255).
    pub brightness: u8,
}

/// A named pair of keyboard and mouse lighting.
pub struct Scene {
    pub id: String,
    pub name: String,
    pub keyboard: Option<Light>,
    pub mouse: Option<Light>,
}

pub struct SceneView {
    pub id: Seq<char>,
    pub name: Seq<char>,
    pub keyboard: Option<Light>,
    pub mouse: Option<Light>,
}

impl View for Scene {
    type V = SceneView;

    open spec fn view(&self) -> SceneView {
        SceneView { id: self.id@, name: self.name@, keyboard: self.keyboard, mouse: self.mouse }
    }
}

impl Scene {
    /// A copy of this scene.
    pub fn duplicate(&self) -> (r: Scene)
        ensures
            r@ == self@,
    {
        Scene {
            id: self.id.clone(),
            name: self.name.clone(),
            keyboard: self.keyboard,
            mouse: self.mouse,
        }
    }
}

/// Everything that is persisted: the scenes, the last state applied to each
/// device (the mouse cannot report its colour back), and whether launch at
/// startup has been enrolled once.
pub struct Store {
    pub scenes: Vec<Scene>,
    pub keyboard: Option<Light>,
    pub mouse: Option<Light>,
    /// Set once the first installed run has registered launch at startup, so a
    /// user who later turns it off is not enrolled again on every launch.
    pub autostart_seeded: bool,
}

pub struct StoreView {
    pub scenes: Seq<SceneView>,
    pub keyboard: Option<Light>,
    pub mouse: Option<Light>,
    pub autostart_seeded: bool,
}

/// The views of a list of scenes.
pub open spec fn scene_views(scenes: Seq<Scene>) -> Seq<SceneView> {
    scenes.map_values(|s: Scene| s@)
}

impl View for Store {
    type V = StoreView;

    open spec fn view(&self) -> StoreView {
        StoreView {
            scenes: scene_views(self.scenes@),
            keyboard: self.keyboard,
            mouse: self.mouse,
            autostart_seeded: self.autostart_seeded,
        }
    }
}

impl Default for Store {
    /// No scenes, nothing applied yet, not enrolled.
    fn default() -> (s: Store)
        ensures
            s@.scenes.len() == 0,
            s@.keyboard is None,
            s@.mouse is None,
            !s@.autostart_seeded,
    {
        Store { scenes: Vec::new(), keyboard: None, mouse: None, autostart_seeded: false }
    }
}

/// The store together with the file it is kept in.
pub struct Scenes {
    pub path: String,
    pub store: Store,
}

/// Cool white, 40 %.
pub open spec fn cool_white() -> Light {
    Light { on: true, rgb: [220u8, 235u8, 255u8], brightness: 40 }
}

/// Warm white, 40 %.
pub open spec fn warm_white() -> Light {
    Light { on: true, rgb: [255u8, 214u8, 170u8], brightness: 40 }
}

/// Off.
pub open spec fn lights_off() -> Light {
    Light { on: false, rgb: [0u8, 0u8, 0u8], brightness: 0 }
}

/// The scenes a new store starts with.
pub open spec fn default_scene_views() -> Seq<SceneView> {
    seq![
        SceneView { id: "cool-white"@, name: "Cool White 40%"@, keyboard: Some(cool_white()), mouse: Some(cool_white()) },
        SceneView { id: "warm-white"@, name: "Warm White 40%"@, keyboard: Some(warm_white()), mouse: Some(warm_white()) },
        SceneView { id: "off"@, name: "Lights Off"@, keyboard: Some(lights_off()), mouse: Some(lights_off()) },
    ]
}

/// The shipped scenes: Cool White 40 %, Warm White 40 % and Lights Off, each
/// setting both devices.
pub fn default_scenes() -> (r: Vec<Scene>)
    ensures
        scene_views(r@) == default_scene_views(),
{
    let cool = Light { on: true, rgb: [220, 235, 255], brightness: 40 };
    let warm = Light { on: true, rgb: [255, 214, 170], brightness: 40 };
    let off = Light { on: false, rgb: [0, 0, 0], brightness: 0 };
    let mut r: Vec<Scene> = Vec::new();
    r.push(Scene { id: String::from_str("cool-white"), name: String::from_str("Cool White 40%"), keyboard: Some(cool), mouse: Some(cool) });
    r.push(Scene { id: String::from_str("warm-white"), name: String::from_str("Warm White 40%"), keyboard: Some(warm), mouse: Some(warm) });
    r.push(Scene { id: String::from_str("off"), name: String::from_str("Lights Off"), keyboard: Some(off), mouse: Some(off) });
    assert(scene_views(r@) =~= default_scene_views());
    r
}

/// Position of the first scene with id `id`.
pub open spec fn index_of_id(scenes: Seq<SceneView>, id: Seq<char>) -> Option<int>
    decreases scenes.len(),
{
    if scenes.len() == 0 {
        None
    } else {
        match index_of_id(scenes.drop_last(), id) {
            Some(i) => Some(i),
            None => if scenes.last().id == id {
                Some(scenes.len() - 1)
            } else {
                None
            },
        }
    }
}

/// The first scene with id `id`.
pub open spec fn lookup(scenes: Seq<SceneView>, id: Seq<char>) -> Option<SceneView> {
    match index_of_id(scenes, id) {
        Some(i) => Some(scenes[i]),
        None => None,
    }
}

/// `scene` saved: it replaces the first scene with its id, or is appended when
/// there is none.
pub open spec fn upsert(scenes: Seq<SceneView>, scene: SceneView) -> Seq<SceneView> {
    match index_of_id(scenes, scene.id) {
        Some(i) => scenes.update(i, scene),
        None => scenes.push(scene),
    }
}

/// Every scene with id `id` removed, the others kept in order.
pub open spec fn without_id(scenes: Seq<SceneView>, id: Seq<char>) -> Seq<SceneView>
    decreases scenes.len(),
{
    if scenes.len() == 0 {
        seq![]
    } else {
        let rest = without_id(scenes.drop_last(), id);
        if scenes.last().id == id {
            rest
        } else {
            rest.push(scenes.last())
        }
    }
}

/// `index_of_id` finds the first scene with the id, and `None` means there is
/// none.
pub proof fn lemma_index_of_id(scenes: Seq<SceneView>, id: Seq<char>)
    ensures
        match index_of_id(scenes, id) {
            Some(i) => {
                &&& 0 <= i < scenes.len()
                &&& scenes[i].id == id
                &&& forall|j: int| 0 <= j < i ==> scenes[j].id != id
            },
            None => forall|j: int| 0 <= j < scenes.len() ==> scenes[j].id != id,
        },
    decreases scenes.len(),
{
    if scenes.len() > 0 {
        lemma_index_of_id(scenes.drop_last(), id);
        assert(forall|j: int| 0 <= j < scenes.len() - 1 ==> scenes.drop_last()[j] == scenes[j]);
    }
}

/// The first position whose scene has id `id`.
fn position(scenes: &Vec<Scene>, id: &String) -> (r: Option<usize>)
    ensures
        r matches Some(i) ==> i < scenes@.len() && index_of_id(scene_views(scenes@), id@) == Some(i as int),
        r is None ==> index_of_id(scene_views(scenes@), id@) is None,
{
    let ghost views = scene_views(scenes@);
    proof {
        lemma_index_of_id(views, id@);
    }
    let mut i: usize = 0;
    while i < scenes.len()
        invariant
            views == scene_views(scenes@),
            i <= scenes@.len(),
            forall|j: int| 0 <= j < i ==> views[j].id != id@,
            match index_of_id(views, id@) {
                Some(k) => {
                    &&& 0 <= k < views.len()
                    &&& views[k].id == id@
                    &&& forall|j: int| 0 <= j < k ==> views[j].id != id@
                },
                None => forall|j: int| 0 <= j < views.len() ==> views[j].id != id@,
            },
        decreases scenes@.len() - i,
    {
        if scenes[i].id == *id {
            assert(views[i as int].id == id@);
            return Some(i);
        }
        i += 1;
    }
    None
}

impl Store {
    /// The keyboard and mouse lighting of the first scene with id `id`
    /// (`None` for a device the scene leaves alone), or `"no such scene"`.
    pub fn scene_lights(&self, id: &str) -> (r: Result<(Option<Light>, Option<Light>), String>)
        ensures
            match lookup(self@.scenes, id@) {
                Some(sc) => r == Ok::<(Option<Light>, Option<Light>), String>((sc.keyboard, sc.mouse)),
                None => r matches Err(e) && e@ == "no such scene"@,
            },
    {
        let target = String::from_str(id);
        match position(&self.scenes, &target) {
            Some(i) => Ok((self.scenes[i].keyboard, self.scenes[i].mouse)),
            None => Err(String::from_str("no such scene")),
        }
    }

    /// Saves `scene`: it replaces the first scene with the same id, or is
    /// appended when there is none. Nothing else changes.
    pub fn save_scene(&mut self, scene: Scene)
        ensures
            final(self)@ == (StoreView { scenes: upsert(old(self)@.scenes, scene@), ..old(self)@ }),
    {
        let ghost sv = scene@;
        match position(&self.scenes, &scene.id) {
            Some(i) => {
                self.scenes.set(i, scene);
                assert(scene_views(self.scenes@) =~= upsert(old(self)@.scenes, sv));
            },
            None => {
                self.scenes.push(scene);
                assert(scene_views(self.scenes@) =~= upsert(old(self)@.scenes, sv));
            },
        }
    }

    /// Removes every scene with id `id`, keeping the others in order. Nothing
    /// else changes.
    pub fn delete_scene(&mut self, id: &str)
        ensures
            final(self)@ == (StoreView { scenes: without_id(old(self)@.scenes, id@), ..old(self)@ }),
    {
        let target = String::from_str(id);
        let ghost views = self@.scenes;
        let mut kept: Vec<Scene> = Vec::new();
        let mut i: usize = 0;
        while i < self.scenes.len()
            invariant
                views == scene_views(self.scenes@),
                target@ == id@,
                i <= self.scenes@.len(),
                scene_views(kept@) =~= without_id(views.take(i as int), id@),
            decreases self.scenes@.len() - i,
        {
            assert(views.take(i + 1).drop_last() =~= views.take(i as int));
            if self.scenes[i].id != target {
                let copy = self.scenes[i].duplicate();
                kept.push(copy);
            }
            i += 1;
            assert(scene_views(kept@) =~= without_id(views.take(i as int), id@));
        }
        assert(views.take(i as int) =~= views);
        self.scenes = kept;
    }

    /// Copies of all scenes, in order.
    pub fn list_scenes(&self) -> (r: Vec<Scene>)
        ensures
            scene_views(r@) == self@.scenes,
    {
        let mut r: Vec<Scene> = Vec::new();
        let mut i: usize = 0;
        while i < self.scenes.len()
            invariant
                i <= self.scenes@.len(),
                r@.len() == i,
                forall|j: int| 0 <= j < i ==> (#[trigger] r@[j])@ == self.scenes@[j]@,
            decreases self.scenes@.len() - i,
        {
            r.push(self.scenes[i].duplicate());
            i += 1;
        }
        assert(scene_views(r@) =~= scene_views(self.scenes@));
        r
    }

    /// Remembers `light` as the last state applied to the keyboard.
    pub fn record_keyboard(&mut self, light: Light)
        ensures
            final(self)@ == (StoreView { keyboard: Some(light), ..old(self)@ }),
    {
        self.keyboard = Some(light);
    }

    /// Remembers `light` as the last state applied to the mouse.
    pub fn record_mouse(&mut self, light: Light)
        ensures
            final(self)@ == (StoreView { mouse: Some(light), ..old(self)@ }),
    {
        self.mouse = Some(light);
    }

    /// Marks launch at startup as enrolled once.
    pub fn mark_autostart_seeded(&mut self)
        ensures
            final(self)@ == (StoreView { autostart_seeded: true, ..old(self)@ }),
    {
        self.autostart_seeded = true;
    }
}

/// The name of the store's file inside the application data directory.
pub fn store_file_name() -> (r: &'static str)
    ensures
        r@ == "deetsrgb.json"@,
{
    "deetsrgb.json"
}

impl Scenes {
    /// The scenes kept at `path`, given what was read and parsed from that file
    /// (`None` when it is missing or does not parse): a store read back is used
    /// as it is; otherwise a new store holds the shipped scenes and nothing else.
    pub fn load(path: String, stored: Option<Store>) -> (r: Scenes)
        ensures
            r.path@ == path@,
            match stored {
                Some(st) => r.store@ == st@,
                None => r.store@ == (StoreView {
                    scenes: default_scene_views(),
                    keyboard: None,
                    mouse: None,
                    autostart_seeded: false,
                }),
            },
    {
        let store = match stored {
            Some(st) => st,
            None => Store { scenes: default_scenes(), keyboard: None, mouse: None, autostart_seeded: false },
        };
        Scenes { path, store }
    }
}

/// A saved scene is what a lookup of its id finds afterwards.
pub proof fn lemma_save_then_lookup(scenes: Seq<SceneView>, scene: SceneView)
    ensures
        lookup(upsert(scenes, scene), scene.id) == Some(scene),
{
    let after = upsert(scenes, scene);
    lemma_index_of_id(scenes, scene.id);
    lemma_index_of_id(after, scene.id);
    match index_of_id(scenes, scene.id) {
        Some(i) => {
            assert(after[i] == scene);
            assert(forall|j: int| 0 <= j < i ==> after[j] == scenes[j]);
        },
        None => {
            assert(after[scenes.len() as int] == scene);
            assert(forall|j: int| 0 <= j < scenes.len() ==> after[j] == scenes[j]);
        },
    }
}

/// Saving a scene leaves what a lookup of any other id finds unchanged.
pub proof fn lemma_save_keeps_others(scenes: Seq<SceneView>, scene: SceneView, id: Seq<char>)
    requires
        id != scene.id,
    ensures
        lookup(upsert(scenes, scene), id) == lookup(scenes, id),
{
    let after = upsert(scenes, scene);
    lemma_index_of_id(scenes, scene.id);
    lemma_index_of_id(scenes, id);
    lemma_index_of_id(after, id);
    assert(forall|j: int| 0 <= j < scenes.len() ==> (after[j].id == id <==> scenes[j].id == id));
    assert(forall|j: int| 0 <= j < scenes.len() && after[j].id == id ==> after[j] == scenes[j]);
    assert(forall|j: int| scenes.len() <= j < after.len() ==> after[j].id != id);
    match index_of_id(scenes, id) {
        Some(k) => {
            match index_of_id(after, id) {
                Some(k2) => {
                    assert(k2 == k);
                },
                None => {
                    assert(after[k].id == id);
                },
            }
        },
        None => {
            match index_of_id(after, id) {
                Some(k2) => {
                    assert(scenes[k2].id == id);
                },
                None => {},
            }
        },
    }
}

/// No scene left by a delete has the deleted id.
proof fn lemma_without_id_has_none(scenes: Seq<SceneView>, id: Seq<char>)
    ensures
        forall|j: int| 0 <= j < without_id(scenes, id).len() ==> without_id(scenes, id)[j].id != id,
    decreases scenes.len(),
{
    if scenes.len() > 0 {
        lemma_without_id_has_none(scenes.drop_last(), id);
    }
}

/// After deleting an id, a lookup of it finds nothing.
pub proof fn lemma_delete_then_lookup(scenes: Seq<SceneView>, id: Seq<char>)
    ensures
        lookup(without_id(scenes, id), id) is None,
{
    lemma_without_id_has_none(scenes, id);
    lemma_index_of_id(without_id(scenes, id), id);
}

/// Deleting an id leaves what a lookup of any other id finds unchanged.
pub proof fn lemma_delete_keeps_others(scenes: Seq<SceneView>, id: Seq<char>, other: Seq<char>)
    requires
        other != id,
    ensures
        lookup(without_id(scenes, id), other) == lookup(scenes, other),
    decreases scenes.len(),
{
    if scenes.len() > 0 {
        let init = scenes.drop_last();
        let last = scenes.last();
        let rest = without_id(init, id);
        lemma_delete_keeps_others(init, id, other);
        if last.id != id {
            let after = rest.push(last);
            assert(after.drop_last() =~= rest);
            match index_of_id(rest, other) {
                Some(i) => {
                    lemma_index_of_id(rest, other);
                    assert(after[i] == rest[i]);
                },
                None => {},
            }
            match index_of_id(init, other) {
                Some(i) => {
                    lemma_index_of_id(init, other);
                    assert(scenes[i] == init[i]);
                },
                None => {},
            }
        } else {
            match index_of_id(init, other) {
                Some(i) => {
                    lemma_index_of_id(init, other);
                    assert(scenes[i] == init[i]);
                },
                None => {},
            }
        }
    }
}

/// No two scenes share an id.
pub open spec fn unique_ids(scenes: Seq<SceneView>) -> bool {
    forall|i: int, j: int| 0 <= i < j < scenes.len() ==> scenes[i].id != scenes[j].id
}

/// Saving keeps ids unique: a scene with a known id replaces it in place (the
/// number of scenes stays), one with a new id is appended.
pub proof fn lemma_save_keeps_ids_unique(scenes: Seq<SceneView>, scene: SceneView)
    requires
        unique_ids(scenes),
    ensures
        unique_ids(upsert(scenes, scene)),
        lookup(scenes, scene.id) is Some ==> upsert(scenes, scene).len() == scenes.len(),
        lookup(scenes, scene.id) is None ==> upsert(scenes, scene).len() == scenes.len() + 1,
{
    lemma_index_of_id(scenes, scene.id);
    let after = upsert(scenes, scene);
    match index_of_id(scenes, scene.id) {
        Some(k) => {
            assert forall|i: int, j: int| 0 <= i < j < after.len() implies after[i].id != after[j].id by {
                if i == k {
                    assert(scenes[k].id == scene.id);
                    assert(scenes[i].id != scenes[j].id);
                } else if j == k {
                    assert(scenes[i].id != scenes[j].id);
                }
            }
        },
        None => {},
    }
}

} // verus!
