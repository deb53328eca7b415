use vstd::prelude::*;

use crate::kind::EditorCamKind;

verus! {

/// What the editor reports about itself each frame.
#[derive(Clone, Copy, Debug, PartialEq, Eq, Structural)]
pub struct EditorStatus {
    /// The editor is open.
    pub active: bool,
    /// A text field has the keyboard.
    pub listening_for_text: bool,
    /// The pointer is over the viewport and may steer the camera.
    pub viewport_interaction_active: bool,
}

/// The settings of the free-flying 3D editor camera.
#[derive(Clone, Copy, Debug, PartialEq, Eq, Structural)]
pub struct FreeCamSettings {
    pub is_active: bool,
    pub enable_movement: bool,
    pub enable_look: bool,
}

/// The settings of an editor camera with a single input switch (pan/orbit
/// and pan/zoom).
#[derive(Clone, Copy, Debug, PartialEq, Eq, Structural)]
pub struct SteeredCamSettings {
    pub is_active: bool,
    pub enabled: bool,
}

/// What one frame sets on the editor cameras.
#[derive(Clone, Copy, Debug, PartialEq, Eq, Structural)]
pub struct EditorCamActivation {
    /// `Some(show)`: every editor camera's UI setting becomes `show`;
    /// `None`: the UI settings are left alone.
    pub ui_show: Option<bool>,
    pub free_3d: FreeCamSettings,
    pub pan_orbit_3d: SteeredCamSettings,
    pub pan_zoom_2d: SteeredCamSettings,
}

/// A camera of `kind` renders when it is the chosen one and the editor is open.
pub open spec fn spec_renders(kind: EditorCamKind, editor_cam: EditorCamKind, status: EditorStatus) -> bool {
    editor_cam == kind && status.active
}

pub open spec fn spec_editor_cam_activation(
    editor_cam: EditorCamKind,
    show_ui: bool,
    status: EditorStatus,
) -> EditorCamActivation {
    let free = spec_renders(EditorCamKind::D3Free, editor_cam, status);
    let orbit = spec_renders(EditorCamKind::D3PanOrbit, editor_cam, status);
    let zoom = spec_renders(EditorCamKind::D2PanZoom, editor_cam, status);
    EditorCamActivation {
        ui_show: if status.active { Some(show_ui) } else { None },
        free_3d: FreeCamSettings {
            is_active: free,
            enable_movement: free && !status.listening_for_text,
            enable_look: free && status.viewport_interaction_active,
        },
        pan_orbit_3d: SteeredCamSettings {
            is_active: orbit,
            enabled: orbit && status.viewport_interaction_active,
        },
        pan_zoom_2d: SteeredCamSettings {
            is_active: zoom,
            enabled: zoom && status.viewport_interaction_active,
        },
    }
}

/// Decides, for one frame, which editor camera renders and which of them
/// take input: only the chosen camera, and only while the editor is open;
/// the free camera moves only while no text field has the keyboard, and the
/// cameras look or steer only while the pointer is over the viewport. While
/// the editor is open the editor cameras render the game UI as the window's
/// `show_ui` says.
pub fn editor_cam_activation(editor_cam: EditorCamKind, show_ui: bool, status: EditorStatus) -> (activation: EditorCamActivation)
    ensures
        activation == spec_editor_cam_activation(editor_cam, show_ui, status),
        activation.free_3d.enable_movement == (activation.free_3d.is_active && !status.listening_for_text),
        activation.free_3d.enable_look == (activation.free_3d.is_active && status.viewport_interaction_active),
        activation.pan_orbit_3d.enabled == (activation.pan_orbit_3d.is_active
            && status.viewport_interaction_active),
        activation.pan_zoom_2d.enabled == (activation.pan_zoom_2d.is_active && status.viewport_interaction_active),
{
    let ui_show = if status.active {
        Some(show_ui)
    } else {
        None
    };
    let free = matches!(editor_cam, EditorCamKind::D3Free) && status.active;
    let free_3d = FreeCamSettings {
        is_active: free,
        enable_movement: free && !status.listening_for_text,
        enable_look: free && status.viewport_interaction_active,
    };
    let orbit = matches!(editor_cam, EditorCamKind::D3PanOrbit) && status.active;
    let pan_orbit_3d = SteeredCamSettings {
        is_active: orbit,
        enabled: orbit && status.viewport_interaction_active,
    };
    let zoom = matches!(editor_cam, EditorCamKind::D2PanZoom) && status.active;
    let pan_zoom_2d = SteeredCamSettings {
        is_active: zoom,
        enabled: zoom && status.viewport_interaction_active,
    };
    EditorCamActivation { ui_show, free_3d, pan_orbit_3d, pan_zoom_2d }
}

/// The number of editor cameras that render.
pub open spec fn spec_active_count(a: EditorCamActivation) -> int {
    (if a.free_3d.is_active { 1int } else { 0int })
        + (if a.pan_orbit_3d.is_active { 1int } else { 0int })
        + (if a.pan_zoom_2d.is_active { 1int } else { 0int })
}

/// While the editor is open exactly one editor camera renders, the chosen
/// one; while it is closed none does. A camera that does not render takes no
/// input.
pub proof fn lemma_one_editor_camera_renders(editor_cam: EditorCamKind, show_ui: bool, status: EditorStatus)
    ensures
        ({
            let a = spec_editor_cam_activation(editor_cam, show_ui, status);
            &&& spec_active_count(a) == (if status.active { 1int } else { 0int })
            &&& a.free_3d.is_active == (status.active && editor_cam == EditorCamKind::D3Free)
            &&& a.pan_orbit_3d.is_active == (status.active && editor_cam == EditorCamKind::D3PanOrbit)
            &&& a.pan_zoom_2d.is_active == (status.active && editor_cam == EditorCamKind::D2PanZoom)
            &&& (a.free_3d.enable_movement || a.free_3d.enable_look) ==> a.free_3d.is_active
            &&& a.pan_orbit_3d.enabled ==> a.pan_orbit_3d.is_active
            &&& a.pan_zoom_2d.enabled ==> a.pan_zoom_2d.is_active
        }),
{
}

/// How the editor cameras take input: the free camera moves exactly when it
/// renders and no text field has the keyboard, and looks around exactly when
/// it renders and the pointer may steer the viewport; the pan/orbit and
/// pan/zoom cameras take pointer input exactly when they render and the
/// pointer may steer the viewport. So over an editor panel, or while typing,
/// no editor camera reacts to what the user does there. The UI setting is
/// handed on exactly while the editor is open.
pub proof fn lemma_input_follows_pointer_and_keyboard(editor_cam: EditorCamKind, show_ui: bool, status: EditorStatus)
    ensures
        ({
            let a = spec_editor_cam_activation(editor_cam, show_ui, status);
            &&& a.free_3d.enable_movement == (a.free_3d.is_active && !status.listening_for_text)
            &&& a.free_3d.enable_look == (a.free_3d.is_active && status.viewport_interaction_active)
            &&& a.pan_orbit_3d.enabled == (a.pan_orbit_3d.is_active && status.viewport_interaction_active)
            &&& a.pan_zoom_2d.enabled == (a.pan_zoom_2d.is_active && status.viewport_interaction_active)
            &&& !status.viewport_interaction_active ==> !a.free_3d.enable_look && !a.pan_orbit_3d.enabled
                && !a.pan_zoom_2d.enabled
            &&& status.listening_for_text ==> !a.free_3d.enable_movement
            &&& a.ui_show == (if status.active { Some(show_ui) } else { None })
        }),
{
}

} // verus!
