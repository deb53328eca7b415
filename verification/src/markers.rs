use vstd::prelude::*;

use crate::kind::EditorCamKind;
use crate::window_state::CameraWindowState;

verus! {

/// Carried by every camera the editor spawns.
pub struct EditorCamera;

/// Carried by the one editor camera that is currently in use.
pub struct ActiveEditorCamera;

/// The editor window that lists the cameras and offers the camera menu.
pub struct CameraWindow;

/// The title of the camera window.
pub const CAMERA_WINDOW_NAME: &'static str = "Cameras";

/// The editor cameras found in the world, by kind: the entities (as their
/// bit patterns) that carry the marker of each kind.
pub struct EditorCameraEntities {
    pub pan_zoom_2d: Vec<u64>,
    pub free_3d: Vec<u64>,
    pub pan_orbit_3d: Vec<u64>,
}

impl EditorCameraEntities {
    pub open spec fn spec_of_kind(&self, kind: EditorCamKind) -> Seq<u64> {
        match kind {
            EditorCamKind::D2PanZoom => self.pan_zoom_2d@,
            EditorCamKind::D3Free => self.free_3d@,
            EditorCamKind::D3PanOrbit => self.pan_orbit_3d@,
        }
    }

    /// The entities that carry the marker of `kind`.
    pub fn of_kind(&self, kind: EditorCamKind) -> (entities: &Vec<u64>)
        ensures
            entities@ == self.spec_of_kind(kind),
    {
        match kind {
            EditorCamKind::D2PanZoom => &self.pan_zoom_2d,
            EditorCamKind::D3Free => &self.free_3d,
            EditorCamKind::D3PanOrbit => &self.pan_orbit_3d,
        }
    }
}

/// How the `ActiveEditorCamera` marker moves: taken off `remove` (if any
/// entity had it) and put on `insert`.
#[derive(Clone, Copy, Debug, PartialEq, Eq, Structural)]
pub struct MarkerChange {
    pub remove: Option<u64>,
    pub insert: u64,
}

pub open spec fn spec_marker_change(currently_marked: Seq<u64>, kind_cameras: Seq<u64>) -> MarkerChange {
    MarkerChange {
        remove: if currently_marked.len() == 0 { None } else { Some(currently_marked[0]) },
        insert: kind_cameras[0],
    }
}

/// The entities that carry the marker once `change` is applied to `marked`.
pub open spec fn spec_marked_after(marked: Set<u64>, change: MarkerChange) -> Set<u64> {
    match change.remove {
        Some(e) => marked.remove(e).insert(change.insert),
        None => marked.insert(change.insert),
    }
}

/// Moves the `ActiveEditorCamera` marker to the camera of `editor_cam`.
/// `currently_marked` are the entities that carry the marker now; there is
/// at most one, and the world holds a camera of the chosen kind (the editor
/// panics otherwise). The marker goes to the first camera of that kind.
pub fn active_marker_change(
    currently_marked: &Vec<u64>,
    cameras: &EditorCameraEntities,
    editor_cam: EditorCamKind,
) -> (change: MarkerChange)
    requires
        currently_marked.len() <= 1,
        cameras.spec_of_kind(editor_cam).len() >= 1,
    ensures
        change == spec_marker_change(currently_marked@, cameras.spec_of_kind(editor_cam)),
{
    let remove = if currently_marked.len() == 0 {
        None
    } else {
        Some(currently_marked[0])
    };
    let kind_cameras = cameras.of_kind(editor_cam);
    MarkerChange { remove, insert: kind_cameras[0] }
}

/// After the marker moves, exactly one entity carries it: the first camera of
/// the chosen kind. The "only one `ActiveEditorCamera`" invariant is kept.
pub proof fn lemma_marker_change_leaves_single_marker(
    currently_marked: Seq<u64>,
    kind_cameras: Seq<u64>,
)
    requires
        currently_marked.len() <= 1,
        kind_cameras.len() >= 1,
    ensures
        spec_marked_after(currently_marked.to_set(), spec_marker_change(currently_marked, kind_cameras))
            == set![kind_cameras[0]],
{
    let change = spec_marker_change(currently_marked, kind_cameras);
    let after = spec_marked_after(currently_marked.to_set(), change);
    if currently_marked.len() == 1 {
        assert(currently_marked.to_set() =~= set![currently_marked[0]]) by {
            assert forall|x: u64| currently_marked.to_set().contains(x) implies x == currently_marked[0] by {
                assert(currently_marked.contains(x));
            }
            assert(currently_marked.contains(currently_marked[0]));
        }
    } else {
        assert(currently_marked.to_set() =~= Set::<u64>::empty()) by {
            assert forall|x: u64| !currently_marked.to_set().contains(x) by {
                if currently_marked.contains(x) {
                    let i = choose|i: int| 0 <= i < currently_marked.len() && currently_marked[i] == x;
                }
            }
        }
    }
    assert(after =~= set![kind_cameras[0]]);
}

/// A click on the entry of `camera` in the viewport toolbar's camera menu:
/// the window switches to `camera`, and if that is a change the
/// `ActiveEditorCamera` marker moves as `active_marker_change` says (the
/// result is `None` when it stays where it is). `currently_marked` and
/// `cameras` are as for `active_marker_change`, whose demands hold whenever
/// the marker moves.
pub fn click_camera_entry(
    state: &mut CameraWindowState,
    camera: EditorCamKind,
    currently_marked: &Vec<u64>,
    cameras: &EditorCameraEntities,
) -> (change: Option<MarkerChange>)
    requires
        old(state)@.editor_cam != camera ==> currently_marked.len() <= 1 && cameras.spec_of_kind(camera).len()
            >= 1,
    ensures
        final(state)@.editor_cam == camera,
        final(state)@.show_ui == old(state)@.show_ui,
        change == (if old(state)@.editor_cam != camera {
            Some(spec_marker_change(currently_marked@, cameras.spec_of_kind(camera)))
        } else {
            None
        }),
{
    let marker_must_move = state.select_editor_cam(camera);
    if marker_must_move {
        Some(active_marker_change(currently_marked, cameras, camera))
    } else {
        None
    }
}

/// The marker is in step with the window: exactly the first camera of the
/// kind in use carries it.
pub open spec fn spec_marker_in_sync(marked: Set<u64>, cameras: EditorCameraEntities, editor_cam: EditorCamKind) -> bool {
    &&& cameras.spec_of_kind(editor_cam).len() >= 1
    &&& marked == set![cameras.spec_of_kind(editor_cam)[0]]
}

/// Toolbar clicks keep the marker in step with the window's camera: if it
/// was in step before the click, it is in step after the click with the
/// marker change applied (or with none, when the camera did not change).
pub proof fn lemma_click_keeps_marker_in_sync(
    marked: Seq<u64>,
    cameras: EditorCameraEntities,
    old_cam: EditorCamKind,
    camera: EditorCamKind,
)
    requires
        spec_marker_in_sync(marked.to_set(), cameras, old_cam),
        marked.no_duplicates(),
        cameras.spec_of_kind(camera).len() >= 1,
    ensures
        old_cam != camera ==> spec_marker_in_sync(
            spec_marked_after(marked.to_set(), spec_marker_change(marked, cameras.spec_of_kind(camera))),
            cameras,
            camera,
        ),
        old_cam == camera ==> spec_marker_in_sync(marked.to_set(), cameras, camera),
{
    marked.unique_seq_to_set();
    if old_cam != camera {
        lemma_marker_change_leaves_single_marker(marked, cameras.spec_of_kind(camera));
    }
}

/// The initial choice of the editor camera, made while no entity carries the
/// `ActiveEditorCamera` marker: the window switches to `kind` and the marker
/// goes onto the one editor camera of that kind, whose entity is returned.
/// Afterwards the marker is in step with the window.
pub fn apply_initial_choice(
    state: &mut CameraWindowState,
    kind: EditorCamKind,
    cameras: &EditorCameraEntities,
) -> (marked: u64)
    requires
        cameras.spec_of_kind(kind).len() == 1,
    ensures
        final(state)@.editor_cam == kind,
        final(state)@.show_ui == old(state)@.show_ui,
        marked == cameras.spec_of_kind(kind)[0],
        spec_marker_in_sync(
            spec_marked_after(Set::<u64>::empty(), (MarkerChange { remove: None, insert: marked })),
            *cameras,
            kind,
        ),
{
    state.select_editor_cam(kind);
    let change = active_marker_change(&Vec::new(), cameras, kind);
    proof {
        assert(spec_marked_after(Set::<u64>::empty(), change) =~= set![change.insert]);
    }
    change.insert
}

} // verus!
