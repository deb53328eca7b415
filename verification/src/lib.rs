//! Editor camera logic: the camera kinds the editor offers, the window state
//! that picks one of them, and the decisions that keep the editor cameras,
//! their markers and the cameras of the edited scene consistent.

mod activation;
mod events;
mod focus;
mod initial_setup;
mod kind;
mod markers;
mod saved_cameras;
mod spawn;
mod toggle;
mod window_state;

pub use activation::{
    editor_cam_activation, lemma_input_follows_pointer_and_keyboard, lemma_one_editor_camera_renders, spec_active_count,
    spec_editor_cam_activation, spec_renders, EditorCamActivation, EditorStatus, FreeCamSettings,
    SteeredCamSettings,
};
pub use events::EditorEvent;
pub use focus::{focus_requests, lemma_focus_events_count, selection_bounds, spec_focus_events, SelectionBounds};
pub use initial_setup::{
    lemma_initial_choice, lemma_setup_acts_once, spec_initial_choice, spec_initial_step, spec_setup_run, spec_shows_2d,
    spec_shows_3d, InitialSetupActions, InitialSetupState,
};
pub use kind::{lemma_menu_lists_each_kind_once, EditorCamKind};
pub use markers::{
    active_marker_change, apply_initial_choice, click_camera_entry, lemma_click_keeps_marker_in_sync,
    lemma_marker_change_leaves_single_marker, spec_marker_in_sync, spec_marked_after,
    spec_marker_change, ActiveEditorCamera, CameraWindow, EditorCamera, EditorCameraEntities,
    MarkerChange, CAMERA_WINDOW_NAME,
};
pub use saved_cameras::{previously_active_entities, PreviouslyActiveCameras};
pub use spawn::{
    editor_camera_spawns, lemma_spawns_cover_each_kind_once, spec_spawn_kinds, spec_spawn_name,
    EditorCameraSpawn, EDITOR_CAM_PRIORITY,
};
pub use toggle::{
    lemma_close_touches_only_saved, lemma_only_toggle_events_act,
    lemma_open_silences_window_cameras, lemma_open_then_close_restores,
    lemma_open_touches_only_active_window_cameras,
    lemma_saved_cameras_stay_inactive, lemma_toggle_ignores_other_targets, spec_after_event,
    spec_after_events, spec_closed, spec_distinct_entities, spec_opened, spec_saved_inactive,
    spec_window_active_entities, toggle_editor_cam, SceneCamera,
};
pub use window_state::{CameraWindowState, CameraWindowStateView};
