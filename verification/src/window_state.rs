use vstd::prelude::*;

use crate::kind::EditorCamKind;

verus! {

/// What the camera window remembers between frames: which editor camera is
/// in use, and whether the editor cameras render the game's UI.
///
/// The `ActiveEditorCamera` marker in the world is kept in step with
/// `editor_cam`: every change of it goes through `select_editor_cam`, whose
/// result says when the marker has to move.
pub struct CameraWindowState {
    editor_cam: EditorCamKind,
    pub show_ui: bool,
}

/// The contents of a `CameraWindowState`.
pub struct CameraWindowStateView {
    pub editor_cam: EditorCamKind,
    pub show_ui: bool,
}

impl View for CameraWindowState {
    type V = CameraWindowStateView;

    closed spec fn view(&self) -> CameraWindowStateView {
        CameraWindowStateView { editor_cam: self.editor_cam, show_ui: self.show_ui }
    }
}

impl CameraWindowState {
    /// The editor camera currently in use.
    pub fn editor_cam(&self) -> (kind: EditorCamKind)
        ensures
            kind == self@.editor_cam,
    {
        self.editor_cam
    }

    /// Whether the editor cameras render the game's UI.
    pub fn show_ui(&self) -> (show: bool)
        ensures
            show == self@.show_ui,
    {
        self.show_ui
    }

    /// Switches to `camera`, as a click on its entry in the viewport toolbar
    /// does. The result is `true` exactly when the camera changed, that is
    /// when the `ActiveEditorCamera` marker has to move to the new camera.
    pub fn select_editor_cam(&mut self, camera: EditorCamKind) -> (marker_must_move: bool)
        ensures
            final(self)@.editor_cam == camera,
            final(self)@.show_ui == old(self)@.show_ui,
            marker_must_move == (old(self)@.editor_cam != camera),
    {
        let marker_must_move = self.editor_cam != camera;
        self.editor_cam = camera;
        marker_must_move
    }
}

impl Default for CameraWindowState {
    fn default() -> (state: Self)
        ensures
            state@.editor_cam == EditorCamKind::D3PanOrbit,
            !state@.show_ui,
    {
        CameraWindowState { editor_cam: EditorCamKind::default(), show_ui: false }
    }
}

} // verus!
