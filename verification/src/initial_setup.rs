use vstd::prelude::*;

use crate::kind::EditorCamKind;

verus! {

/// What the initial camera setup remembers between frames.
#[derive(Clone, Copy, Debug, PartialEq, Eq, Structural)]
pub struct InitialSetupState {
    /// The editor camera has been chosen from the scene's own cameras.
    pub has_decided_initial_cam: bool,
    /// The 3D editor cameras have been placed where the scene's 3D camera is.
    pub was_positioned_3d: bool,
    /// The 2D editor camera has been placed where the scene's 2D camera is.
    pub was_positioned_2d: bool,
}

/// What one frame of the initial setup does to the world.
#[derive(Clone, Copy, Debug, PartialEq, Eq, Structural)]
pub struct InitialSetupActions {
    /// Put the `ActiveEditorCamera` marker on the editor camera of this kind.
    pub mark_active: Option<EditorCamKind>,
    /// Copy the scene's 2D camera transform to the 2D editor camera.
    pub position_2d: bool,
    /// Copy the scene's 3D camera transform to the 3D editor cameras.
    pub position_3d: bool,
}

/// The editor camera that fits the scene's own cameras: the 2D one for a
/// scene with only a 2D camera, the pan/orbit one for a scene with a 3D
/// camera, none yet for a scene with no camera.
pub open spec fn spec_initial_choice(scene_has_2d: bool, scene_has_3d: bool) -> Option<EditorCamKind> {
    if scene_has_3d {
        Some(EditorCamKind::D3PanOrbit)
    } else if scene_has_2d {
        Some(EditorCamKind::D2PanZoom)
    } else {
        None
    }
}

/// One frame of the initial setup: the new state and the actions.
pub open spec fn spec_initial_step(
    state: InitialSetupState,
    scene_has_2d: bool,
    scene_has_3d: bool,
) -> (InitialSetupState, InitialSetupActions) {
    let choice = spec_initial_choice(scene_has_2d, scene_has_3d);
    if !state.has_decided_initial_cam && choice is None {
        (state, InitialSetupActions { mark_active: None, position_2d: false, position_3d: false })
    } else {
        let position_2d = !state.was_positioned_2d && scene_has_2d;
        let position_3d = !state.was_positioned_3d && scene_has_3d;
        (
            InitialSetupState {
                has_decided_initial_cam: true,
                was_positioned_2d: state.was_positioned_2d || scene_has_2d,
                was_positioned_3d: state.was_positioned_3d || scene_has_3d,
            },
            InitialSetupActions {
                mark_active: if state.has_decided_initial_cam { None } else { choice },
                position_2d,
                position_3d,
            },
        )
    }
}

impl InitialSetupState {
    /// One frame of the initial camera setup. `scene_has_2d` and
    /// `scene_has_3d` say whether the scene has a camera of its own of each
    /// kind. Until the editor camera is chosen, a frame with no scene camera
    /// does nothing; the first frame with one picks the editor camera that
    /// fits, which the camera window then uses. The editor cameras of each
    /// dimension are then placed once, at the first frame that shows a scene
    /// camera of that dimension.
    pub fn step(&mut self, scene_has_2d: bool, scene_has_3d: bool) -> (actions: InitialSetupActions)
        ensures
            (*final(self), actions) == spec_initial_step(*old(self), scene_has_2d, scene_has_3d),
    {
        let mut mark_active: Option<EditorCamKind> = None;
        if !self.has_decided_initial_cam {
            let choice = if scene_has_2d && !scene_has_3d {
                EditorCamKind::D2PanZoom
            } else if scene_has_3d {
                EditorCamKind::D3PanOrbit
            } else {
                return InitialSetupActions { mark_active: None, position_2d: false, position_3d: false };
            };
            mark_active = Some(choice);
            self.has_decided_initial_cam = true;
        }
        let mut position_2d = false;
        if !self.was_positioned_2d && scene_has_2d {
            position_2d = true;
            self.was_positioned_2d = true;
        }
        let mut position_3d = false;
        if !self.was_positioned_3d && scene_has_3d {
            position_3d = true;
            self.was_positioned_3d = true;
        }
        InitialSetupActions { mark_active, position_2d, position_3d }
    }
}

impl Default for InitialSetupState {
    fn default() -> (state: Self)
        ensures
            state == (InitialSetupState {
                has_decided_initial_cam: false,
                was_positioned_3d: false,
                was_positioned_2d: false,
            }),
    {
        InitialSetupState { has_decided_initial_cam: false, was_positioned_3d: false, was_positioned_2d: false }
    }
}

/// A run of frames, each given as (scene has a 2D camera, scene has a 3D
/// camera): the final state, and how many frames chose the editor camera,
/// placed the 2D editor camera and placed the 3D editor cameras.
pub open spec fn spec_setup_run(state: InitialSetupState, frames: Seq<(bool, bool)>) -> (
    InitialSetupState,
    nat,
    nat,
    nat,
)
    decreases frames.len(),
{
    if frames.len() == 0 {
        (state, 0, 0, 0)
    } else {
        let (next, actions) = spec_initial_step(state, frames[0].0, frames[0].1);
        let rest = spec_setup_run(next, frames.drop_first());
        (
            rest.0,
            rest.1 + (if actions.mark_active is Some { 1nat } else { 0nat }),
            rest.2 + (if actions.position_2d { 1nat } else { 0nat }),
            rest.3 + (if actions.position_3d { 1nat } else { 0nat }),
        )
    }
}

/// Some frame of the run shows a 2D scene camera.
pub open spec fn spec_shows_2d(frames: Seq<(bool, bool)>) -> bool {
    exists|i: int| 0 <= i < frames.len() && #[trigger] frames[i].0
}

/// Some frame of the run shows a 3D scene camera.
pub open spec fn spec_shows_3d(frames: Seq<(bool, bool)>) -> bool {
    exists|i: int| 0 <= i < frames.len() && #[trigger] frames[i].1
}

proof fn lemma_shows_first_or_rest(frames: Seq<(bool, bool)>)
    requires
        frames.len() > 0,
    ensures
        spec_shows_2d(frames) == (frames[0].0 || spec_shows_2d(frames.drop_first())),
        spec_shows_3d(frames) == (frames[0].1 || spec_shows_3d(frames.drop_first())),
{
    let rest = frames.drop_first();
    if spec_shows_2d(frames) {
        let i = choose|i: int| 0 <= i < frames.len() && #[trigger] frames[i].0;
        if i > 0 {
            assert(rest[i - 1] == frames[i]);
        }
    }
    if spec_shows_2d(rest) {
        let i = choose|i: int| 0 <= i < rest.len() && #[trigger] rest[i].0;
        assert(rest[i] == frames[i + 1]);
    }
    if spec_shows_3d(frames) {
        let i = choose|i: int| 0 <= i < frames.len() && #[trigger] frames[i].1;
        if i > 0 {
            assert(rest[i - 1] == frames[i]);
        }
    }
    if spec_shows_3d(rest) {
        let i = choose|i: int| 0 <= i < rest.len() && #[trigger] rest[i].1;
        assert(rest[i] == frames[i + 1]);
    }
}

/// Over any run of frames, the editor camera is chosen at most once (and
/// only while it was not chosen yet: at the first frame that shows a scene
/// camera), and each dimension's editor cameras are placed at most once:
/// exactly once if some frame shows a scene camera of that dimension and
/// they were not placed before, never otherwise.
pub proof fn lemma_setup_acts_once(state: InitialSetupState, frames: Seq<(bool, bool)>)
    ensures
        ({
            let run = spec_setup_run(state, frames);
            &&& run.1 == (if !state.has_decided_initial_cam && (spec_shows_2d(frames) || spec_shows_3d(frames)) {
                1nat
            } else {
                0nat
            })
            &&& run.2 == (if !state.was_positioned_2d && spec_shows_2d(frames) { 1nat } else { 0nat })
            &&& run.3 == (if !state.was_positioned_3d && spec_shows_3d(frames) { 1nat } else { 0nat })
        }),
    decreases frames.len(),
{
    if frames.len() > 0 {
        let (next, actions) = spec_initial_step(state, frames[0].0, frames[0].1);
        lemma_setup_acts_once(next, frames.drop_first());
        lemma_shows_first_or_rest(frames);
    }
}

/// The first frame with a scene camera picks the editor camera: the
/// pan/orbit one whenever the scene has a 3D camera, the pan/zoom one when it
/// has only a 2D camera; a frame without scene cameras picks nothing and
/// changes nothing. Once picked, no later frame picks again.
pub proof fn lemma_initial_choice(state: InitialSetupState, scene_has_2d: bool, scene_has_3d: bool)
    ensures
        ({
            let (next, actions) = spec_initial_step(state, scene_has_2d, scene_has_3d);
            &&& state.has_decided_initial_cam ==> actions.mark_active is None
            &&& !state.has_decided_initial_cam && scene_has_3d ==> actions.mark_active == Some(
                EditorCamKind::D3PanOrbit,
            )
            &&& !state.has_decided_initial_cam && scene_has_2d && !scene_has_3d ==> actions.mark_active == Some(
                EditorCamKind::D2PanZoom,
            )
            &&& !state.has_decided_initial_cam && !scene_has_2d && !scene_has_3d ==> next == state
                && actions.mark_active is None && !actions.position_2d && !actions.position_3d
            &&& actions.position_2d == (scene_has_2d && !state.was_positioned_2d)
            &&& actions.position_3d == (scene_has_3d && !state.was_positioned_3d)
        }),
{
}

} // verus!
