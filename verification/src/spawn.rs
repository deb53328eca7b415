use vstd::prelude::*;

use crate::kind::EditorCamKind;

verus! {

/// The render order of the first editor camera; the others follow it, so
/// that no two cameras share an order.
pub const EDITOR_CAM_PRIORITY: isize = 100;

/// How an editor camera is spawned.
#[derive(Clone, Copy, Debug)]
pub struct EditorCameraSpawn {
    pub kind: EditorCamKind,
    /// Render order.
    pub order: isize,
    /// Editor cameras start inactive; the frame logic turns one on.
    pub is_active: bool,
    /// Whether the camera renders the game's UI.
    pub show_ui: bool,
    /// The entity's name.
    pub name: &'static str,
}

/// The kinds of the editor cameras, in the order they are spawned.
pub open spec fn spec_spawn_kinds() -> Seq<EditorCamKind> {
    seq![EditorCamKind::D3Free, EditorCamKind::D3PanOrbit, EditorCamKind::D2PanZoom]
}

/// The name given to the editor camera of each kind.
pub open spec fn spec_spawn_name(kind: EditorCamKind) -> Seq<char> {
    match kind {
        EditorCamKind::D3Free => "Editor Camera 3D Free"@,
        EditorCamKind::D3PanOrbit => "Editor Camera 3D Pan/Orbit"@,
        EditorCamKind::D2PanZoom => "Editor Camera 2D Pan/Zoom"@,
    }
}

/// The editor cameras spawned at startup: the free 3D camera, the pan/orbit
/// 3D camera and the pan/zoom 2D camera, in that order, with render orders
/// 100, 101 and 102, all inactive and none rendering the game's UI.
pub fn editor_camera_spawns() -> (spawns: Vec<EditorCameraSpawn>)
    ensures
        spawns@.len() == 3,
        forall|i: int|
            0 <= i < 3 ==> {
                &&& (#[trigger] spawns@[i]).kind == spec_spawn_kinds()[i]
                &&& spawns@[i].order == EDITOR_CAM_PRIORITY + i
                &&& !spawns@[i].is_active
                &&& !spawns@[i].show_ui
                &&& spawns@[i].name@ == spec_spawn_name(spawns@[i].kind)
            },
{
    let show_ui_by_default = false;
    let free = EditorCameraSpawn {
        kind: EditorCamKind::D3Free,
        order: EDITOR_CAM_PRIORITY,
        is_active: false,
        show_ui: show_ui_by_default,
        name: "Editor Camera 3D Free",
    };
    let orbit = EditorCameraSpawn {
        kind: EditorCamKind::D3PanOrbit,
        order: EDITOR_CAM_PRIORITY + 1,
        is_active: false,
        show_ui: show_ui_by_default,
        name: "Editor Camera 3D Pan/Orbit",
    };
    let zoom = EditorCameraSpawn {
        kind: EditorCamKind::D2PanZoom,
        order: EDITOR_CAM_PRIORITY + 2,
        is_active: false,
        show_ui: show_ui_by_default,
        name: "Editor Camera 2D Pan/Zoom",
    };
    let spawns = vec![free, orbit, zoom];
    assert(spawns@[0] == free && spawns@[1] == orbit && spawns@[2] == zoom);
    spawns
}

/// Every editor camera kind is spawned exactly once.
pub proof fn lemma_spawns_cover_each_kind_once()
    ensures
        forall|k: EditorCamKind| #[trigger] spec_spawn_kinds().contains(k),
        spec_spawn_kinds().no_duplicates(),
{
    assert forall|k: EditorCamKind| #[trigger] spec_spawn_kinds().contains(k) by {
        match k {
            EditorCamKind::D3Free => assert(spec_spawn_kinds()[0] == k),
            EditorCamKind::D3PanOrbit => assert(spec_spawn_kinds()[1] == k),
            EditorCamKind::D2PanZoom => assert(spec_spawn_kinds()[2] == k),
        }
    }
}

} // verus!
