use editor_cameras::{
    active_marker_change, apply_initial_choice, click_camera_entry, selection_bounds, SelectionBounds, editor_cam_activation, editor_camera_spawns,
    focus_requests, toggle_editor_cam, CameraWindowState, EditorCamKind, EditorCameraEntities,
    EditorEvent, EditorStatus, InitialSetupActions, InitialSetupState, MarkerChange,
    PreviouslyActiveCameras, SceneCamera, CAMERA_WINDOW_NAME, EDITOR_CAM_PRIORITY,
};

fn entities() -> EditorCameraEntities {
    EditorCameraEntities { pan_zoom_2d: vec![30], free_3d: vec![10], pan_orbit_3d: vec![20] }
}

fn sorted(mut v: Vec<u64>) -> Vec<u64> {
    v.sort();
    v
}

#[test]
fn kind_names_and_menu_order() {
    assert_eq!(EditorCamKind::D2PanZoom.name(), "2D (Pan/Zoom)");
    assert_eq!(EditorCamKind::D3Free.name(), "3D (Free)");
    assert_eq!(EditorCamKind::D3PanOrbit.name(), "3D (Pan/Orbit)");
    assert_eq!(
        EditorCamKind::all(),
        [EditorCamKind::D2PanZoom, EditorCamKind::D3Free, EditorCamKind::D3PanOrbit]
    );
    assert_eq!(EditorCamKind::default(), EditorCamKind::D3PanOrbit);
    assert_eq!(CAMERA_WINDOW_NAME, "Cameras");
}

#[test]
fn window_state_starts_on_pan_orbit_without_ui() {
    let state = CameraWindowState::default();
    assert_eq!(state.editor_cam(), EditorCamKind::D3PanOrbit);
    assert!(!state.show_ui);
}

#[test]
fn selecting_reports_whether_the_marker_moves() {
    let mut state = CameraWindowState::default();
    state.show_ui = true;
    assert!(state.select_editor_cam(EditorCamKind::D3Free));
    assert_eq!(state.editor_cam(), EditorCamKind::D3Free);
    assert!(!state.select_editor_cam(EditorCamKind::D3Free));
    assert_eq!(state.editor_cam(), EditorCamKind::D3Free);
    assert!(state.show_ui);
}

#[test]
fn marker_moves_to_first_camera_of_kind() {
    let cams = EditorCameraEntities { pan_zoom_2d: vec![30, 31], free_3d: vec![10], pan_orbit_3d: vec![20] };
    assert_eq!(
        active_marker_change(&vec![20], &cams, EditorCamKind::D2PanZoom),
        MarkerChange { remove: Some(20), insert: 30 }
    );
    assert_eq!(
        active_marker_change(&vec![], &cams, EditorCamKind::D3Free),
        MarkerChange { remove: None, insert: 10 }
    );
    assert_eq!(cams.of_kind(EditorCamKind::D3PanOrbit), &vec![20]);
}

#[test]
fn toolbar_click_keeps_marker_in_step() {
    let cams = entities();
    let mut state = CameraWindowState::default();
    // Marker on the pan/orbit camera, in step with the default state.
    let change = click_camera_entry(&mut state, EditorCamKind::D3PanOrbit, &vec![20], &cams);
    assert_eq!(change, None);
    let change = click_camera_entry(&mut state, EditorCamKind::D2PanZoom, &vec![20], &cams);
    assert_eq!(change, Some(MarkerChange { remove: Some(20), insert: 30 }));
    assert_eq!(state.editor_cam(), EditorCamKind::D2PanZoom);
    let change = click_camera_entry(&mut state, EditorCamKind::D3Free, &vec![30], &cams);
    assert_eq!(change, Some(MarkerChange { remove: Some(30), insert: 10 }));
    assert_eq!(state.editor_cam(), EditorCamKind::D3Free);
}

#[test]
fn only_chosen_camera_renders_while_editor_open() {
    let open = EditorStatus { active: true, listening_for_text: false, viewport_interaction_active: true };
    let a = editor_cam_activation(EditorCamKind::D3Free, true, open);
    assert_eq!(a.ui_show, Some(true));
    assert!(a.free_3d.is_active && a.free_3d.enable_movement && a.free_3d.enable_look);
    assert!(!a.pan_orbit_3d.is_active && !a.pan_orbit_3d.enabled);
    assert!(!a.pan_zoom_2d.is_active && !a.pan_zoom_2d.enabled);

    let typing = EditorStatus { active: true, listening_for_text: true, viewport_interaction_active: false };
    let a = editor_cam_activation(EditorCamKind::D3Free, false, typing);
    assert_eq!(a.ui_show, Some(false));
    assert!(a.free_3d.is_active && !a.free_3d.enable_movement && !a.free_3d.enable_look);

    let a = editor_cam_activation(EditorCamKind::D2PanZoom, false, open);
    assert!(a.pan_zoom_2d.is_active && a.pan_zoom_2d.enabled);
    assert!(!a.free_3d.is_active && !a.pan_orbit_3d.is_active);

    let a = editor_cam_activation(EditorCamKind::D3PanOrbit, false, typing);
    assert!(a.pan_orbit_3d.is_active && !a.pan_orbit_3d.enabled);
}

#[test]
fn no_editor_camera_renders_while_editor_closed() {
    let closed = EditorStatus { active: false, listening_for_text: false, viewport_interaction_active: true };
    for kind in EditorCamKind::all() {
        let a = editor_cam_activation(kind, true, closed);
        assert_eq!(a.ui_show, None);
        assert!(!a.free_3d.is_active && !a.free_3d.enable_movement && !a.free_3d.enable_look);
        assert!(!a.pan_orbit_3d.is_active && !a.pan_orbit_3d.enabled);
        assert!(!a.pan_zoom_2d.is_active && !a.pan_zoom_2d.enabled);
    }
}

fn scene() -> Vec<SceneCamera> {
    vec![
        SceneCamera { entity: 1, renders_to_window: true, is_active: true },
        SceneCamera { entity: 2, renders_to_window: true, is_active: false },
        SceneCamera { entity: 3, renders_to_window: false, is_active: true },
        SceneCamera { entity: 4, renders_to_window: true, is_active: true },
    ]
}

#[test]
fn opening_the_editor_turns_window_cameras_off() {
    let mut saved = PreviouslyActiveCameras::default();
    let mut cams = scene();
    toggle_editor_cam(&vec![EditorEvent::Toggle { now_active: true }], &mut saved, &mut cams);
    assert_eq!(sorted(saved.entities()), vec![1, 4]);
    assert_eq!(
        cams,
        vec![
            SceneCamera { entity: 1, renders_to_window: true, is_active: false },
            SceneCamera { entity: 2, renders_to_window: true, is_active: false },
            SceneCamera { entity: 3, renders_to_window: false, is_active: true },
            SceneCamera { entity: 4, renders_to_window: true, is_active: false },
        ]
    );
}

#[test]
fn opening_then_closing_restores_the_cameras() {
    let mut saved = PreviouslyActiveCameras::default();
    let mut cams = scene();
    toggle_editor_cam(
        &vec![EditorEvent::Toggle { now_active: true }, EditorEvent::Toggle { now_active: false }],
        &mut saved,
        &mut cams,
    );
    assert_eq!(cams, scene());
    assert!(saved.entities().is_empty());
}

#[test]
fn closing_turns_on_only_remembered_cameras_still_present() {
    let mut saved = PreviouslyActiveCameras::default();
    let mut cams = scene();
    toggle_editor_cam(&vec![EditorEvent::Toggle { now_active: true }], &mut saved, &mut cams);
    // Camera 4 was despawned while the editor was open.
    cams.pop();
    toggle_editor_cam(
        &vec![EditorEvent::FocusSelected, EditorEvent::Toggle { now_active: false }],
        &mut saved,
        &mut cams,
    );
    assert_eq!(
        cams,
        vec![
            SceneCamera { entity: 1, renders_to_window: true, is_active: true },
            SceneCamera { entity: 2, renders_to_window: true, is_active: false },
            SceneCamera { entity: 3, renders_to_window: false, is_active: true },
        ]
    );
    assert!(saved.entities().is_empty());
}

#[test]
fn opening_twice_keeps_what_was_remembered() {
    let mut saved = PreviouslyActiveCameras::default();
    let mut cams = scene();
    let open = EditorEvent::Toggle { now_active: true };
    toggle_editor_cam(&vec![open, open], &mut saved, &mut cams);
    assert_eq!(sorted(saved.entities()), vec![1, 4]);
    toggle_editor_cam(&vec![EditorEvent::Toggle { now_active: false }], &mut saved, &mut cams);
    assert_eq!(cams, scene());
}

#[test]
fn focus_requests_count() {
    let events = vec![
        EditorEvent::FocusSelected,
        EditorEvent::Toggle { now_active: true },
        EditorEvent::FocusSelected,
    ];
    assert_eq!(focus_requests(&events, 3), 2);
    assert_eq!(focus_requests(&events, 0), 0);
    assert_eq!(focus_requests(&vec![EditorEvent::Toggle { now_active: false }], 1), 0);
    assert_eq!(focus_requests(&vec![], 1), 0);
}

#[test]
fn initial_setup_waits_for_a_scene_camera() {
    let mut state = InitialSetupState::default();
    let none = InitialSetupActions { mark_active: None, position_2d: false, position_3d: false };
    assert_eq!(state.step(false, false), none);
    assert_eq!(state, InitialSetupState::default());
    // A 2D scene camera appears: the 2D editor camera is chosen and placed.
    assert_eq!(
        state.step(true, false),
        InitialSetupActions { mark_active: Some(EditorCamKind::D2PanZoom), position_2d: true, position_3d: false }
    );
    // Later a 3D camera appears: the 3D editor cameras are placed, nothing is chosen again.
    assert_eq!(
        state.step(true, true),
        InitialSetupActions { mark_active: None, position_2d: false, position_3d: true }
    );
    assert_eq!(state.step(false, false), none);
    assert_eq!(state.step(true, true), none);
    assert_eq!(
        state,
        InitialSetupState { has_decided_initial_cam: true, was_positioned_3d: true, was_positioned_2d: true }
    );
}

#[test]
fn initial_setup_prefers_pan_orbit_with_3d_scene() {
    let mut state = InitialSetupState::default();
    assert_eq!(
        state.step(true, true),
        InitialSetupActions { mark_active: Some(EditorCamKind::D3PanOrbit), position_2d: true, position_3d: true }
    );

    let mut state = InitialSetupState::default();
    assert_eq!(
        state.step(false, true),
        InitialSetupActions { mark_active: Some(EditorCamKind::D3PanOrbit), position_2d: false, position_3d: true }
    );
}

#[test]
fn editor_cameras_spawned_with_distinct_orders() {
    let spawns = editor_camera_spawns();
    assert_eq!(spawns.len(), 3);
    let kinds: Vec<EditorCamKind> = spawns.iter().map(|s| s.kind).collect();
    assert_eq!(kinds, vec![EditorCamKind::D3Free, EditorCamKind::D3PanOrbit, EditorCamKind::D2PanZoom]);
    let orders: Vec<isize> = spawns.iter().map(|s| s.order).collect();
    assert_eq!(orders, vec![100, 101, 102]);
    assert_eq!(EDITOR_CAM_PRIORITY, 100);
    let names: Vec<&str> = spawns.iter().map(|s| s.name).collect();
    assert_eq!(names, vec!["Editor Camera 3D Free", "Editor Camera 3D Pan/Orbit", "Editor Camera 2D Pan/Zoom"]);
    assert!(spawns.iter().all(|s| !s.is_active && !s.show_ui));
}

#[test]
fn initial_choice_marks_the_chosen_camera() {
    let cams = entities();
    let mut state = CameraWindowState::default();
    state.show_ui = true;
    assert_eq!(apply_initial_choice(&mut state, EditorCamKind::D2PanZoom, &cams), 30);
    assert_eq!(state.editor_cam(), EditorCamKind::D2PanZoom);
    assert!(state.show_ui());
    assert_eq!(apply_initial_choice(&mut state, EditorCamKind::D3PanOrbit, &cams), 20);
    assert_eq!(state.editor_cam(), EditorCamKind::D3PanOrbit);
}

#[test]
fn selection_bounds_prefer_box_then_sprite() {
    assert_eq!(selection_bounds(true, true), SelectionBounds::Aabb);
    assert_eq!(selection_bounds(true, false), SelectionBounds::Aabb);
    assert_eq!(selection_bounds(false, true), SelectionBounds::Sprite);
    assert_eq!(selection_bounds(false, false), SelectionBounds::Translation);
}

#[test]
fn toggle_leaves_other_targets_alone() {
    let mut saved = PreviouslyActiveCameras::default();
    let mut cams = scene();
    let open = EditorEvent::Toggle { now_active: true };
    let close = EditorEvent::Toggle { now_active: false };
    toggle_editor_cam(&vec![open, EditorEvent::FocusSelected, close, open], &mut saved, &mut cams);
    // Camera 3 renders to an image, not a window: untouched and never remembered.
    assert_eq!(cams[2], SceneCamera { entity: 3, renders_to_window: false, is_active: true });
    assert!(!saved.entities().contains(&3));
}

#[test]
fn remembered_cameras_stay_inactive_while_editor_open() {
    let mut saved = PreviouslyActiveCameras::default();
    let mut cams = scene();
    let open = EditorEvent::Toggle { now_active: true };
    toggle_editor_cam(&vec![open, EditorEvent::FocusSelected, open], &mut saved, &mut cams);
    for e in saved.entities() {
        assert!(cams.iter().filter(|c| c.entity == e).all(|c| !c.is_active));
    }
    assert_eq!(sorted(saved.entities()), vec![1, 4]);
}
