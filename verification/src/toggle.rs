use vstd::prelude::*;

use crate::events::EditorEvent;
use crate::saved_cameras::PreviouslyActiveCameras;

verus! {

/// A camera of the world as the editor's toggle sees it: its entity bits,
/// whether it renders to a window, and whether it is active.
#[derive(Clone, Copy, Debug, PartialEq, Eq, Structural)]
pub struct SceneCamera {
    pub entity: u64,
    pub renders_to_window: bool,
    pub is_active: bool,
}

/// The entities of the cameras that render to a window and are active.
pub open spec fn spec_window_active_entities(cameras: Seq<SceneCamera>) -> Set<u64> {
    Set::new(
        |e: u64|
            exists|i: int|
                0 <= i < cameras.len() && #[trigger] cameras[i].entity == e && cameras[i].renders_to_window
                    && cameras[i].is_active,
    )
}

/// A camera after the editor opens: turned off if it rendered to a window.
pub open spec fn spec_opened(camera: SceneCamera) -> SceneCamera {
    if camera.renders_to_window && camera.is_active {
        SceneCamera { is_active: false, ..camera }
    } else {
        camera
    }
}

/// A camera after the editor closes: turned on if it is one of `saved`.
pub open spec fn spec_closed(saved: Set<u64>, camera: SceneCamera) -> SceneCamera {
    if saved.contains(camera.entity) {
        SceneCamera { is_active: true, ..camera }
    } else {
        camera
    }
}

/// The saved entities and the cameras after one event.
pub open spec fn spec_after_event(
    saved: Set<u64>,
    cameras: Seq<SceneCamera>,
    event: EditorEvent,
) -> (Set<u64>, Seq<SceneCamera>) {
    match event {
        EditorEvent::Toggle { now_active: true } => (
            saved.union(spec_window_active_entities(cameras)),
            cameras.map_values(|c: SceneCamera| spec_opened(c)),
        ),
        EditorEvent::Toggle { now_active: false } => (
            Set::empty(),
            cameras.map_values(|c: SceneCamera| spec_closed(saved, c)),
        ),
        EditorEvent::FocusSelected => (saved, cameras),
    }
}

/// The saved entities and the cameras after a run of events, in order.
pub open spec fn spec_after_events(
    saved: Set<u64>,
    cameras: Seq<SceneCamera>,
    events: Seq<EditorEvent>,
) -> (Set<u64>, Seq<SceneCamera>)
    decreases events.len(),
{
    if events.len() == 0 {
        (saved, cameras)
    } else {
        let before = spec_after_events(saved, cameras, events.drop_last());
        spec_after_event(before.0, before.1, events.last())
    }
}

/// The editor opened: every camera that renders to a window and is active
/// is remembered and turned off.
fn save_and_deactivate(saved: &mut PreviouslyActiveCameras, cameras: &mut Vec<SceneCamera>)
    ensures
        final(saved)@ == old(saved)@.union(spec_window_active_entities(old(cameras)@)),
        final(cameras)@ == old(cameras)@.map_values(|c: SceneCamera| spec_opened(c)),
{
    let ghost cams0 = cameras@;
    let ghost saved0 = saved@;
    let n = cameras.len();
    let mut i: usize = 0;
    while i < n
        invariant
            n == cams0.len(),
            cameras@.len() == n,
            0 <= i <= n,
            forall|j: int| 0 <= j < i ==> cameras@[j] == spec_opened(#[trigger] cams0[j]),
            forall|j: int| i <= j < n ==> cameras@[j] == cams0[j],
            saved@ == saved0.union(spec_window_active_entities(cams0.take(i as int))),
        decreases n - i,
    {
        let c = cameras[i];
        proof {
            assert(cams0.take(i + 1).drop_last() =~= cams0.take(i as int));
        }
        if c.renders_to_window && c.is_active {
            saved.insert_entity(c.entity);
            cameras.set(i, SceneCamera { is_active: false, ..c });
        }
        proof {
            let before = spec_window_active_entities(cams0.take(i as int));
            let after = spec_window_active_entities(cams0.take(i + 1));
            if c.renders_to_window && c.is_active {
                assert(after =~= before.insert(c.entity)) by {
                    assert(cams0.take(i + 1)[i as int] == c);
                    assert forall|e: u64| after.contains(e) implies before.insert(c.entity).contains(e) by {
                        let k = choose|k: int|
                            0 <= k < cams0.take(i + 1).len() && #[trigger] cams0.take(i + 1)[k].entity == e
                                && cams0.take(i + 1)[k].renders_to_window && cams0.take(i + 1)[k].is_active;
                        if k < i {
                            assert(cams0.take(i as int)[k] == cams0.take(i + 1)[k]);
                        }
                    }
                    assert forall|e: u64| before.insert(c.entity).contains(e) implies after.contains(e) by {
                        if e != c.entity {
                            let k = choose|k: int|
                                0 <= k < cams0.take(i as int).len() && #[trigger] cams0.take(i as int)[k].entity == e
                                    && cams0.take(i as int)[k].renders_to_window
                                    && cams0.take(i as int)[k].is_active;
                            assert(cams0.take(i + 1)[k] == cams0.take(i as int)[k]);
                        }
                    }
                }
                assert(saved@ =~= saved0.union(after));
            } else {
                assert(after =~= before) by {
                    assert forall|e: u64| after.contains(e) implies before.contains(e) by {
                        let k = choose|k: int|
                            0 <= k < cams0.take(i + 1).len() && #[trigger] cams0.take(i + 1)[k].entity == e
                                && cams0.take(i + 1)[k].renders_to_window && cams0.take(i + 1)[k].is_active;
                        assert(k != i);
                        assert(cams0.take(i as int)[k] == cams0.take(i + 1)[k]);
                    }
                    assert forall|e: u64| before.contains(e) implies after.contains(e) by {
                        let k = choose|k: int|
                            0 <= k < cams0.take(i as int).len() && #[trigger] cams0.take(i as int)[k].entity == e
                                && cams0.take(i as int)[k].renders_to_window && cams0.take(i as int)[k].is_active;
                        assert(cams0.take(i + 1)[k] == cams0.take(i as int)[k]);
                    }
                }
            }
        }
        i = i + 1;
    }
    proof {
        assert(cams0.take(n as int) =~= cams0);
        assert(cameras@ =~= cams0.map_values(|c: SceneCamera| spec_opened(c)));
    }
}

/// The editor closed: every remembered camera is turned back on and the
/// memory is emptied.
fn restore_saved(saved: &mut PreviouslyActiveCameras, cameras: &mut Vec<SceneCamera>)
    ensures
        final(saved)@ == Set::<u64>::empty(),
        final(cameras)@ == old(cameras)@.map_values(|c: SceneCamera| spec_closed(old(saved)@, c)),
{
    let ghost cams0 = cameras@;
    let entities = saved.entities();
    let n = cameras.len();
    let m = entities.len();
    let mut k: usize = 0;
    while k < m
        invariant
            n == cams0.len(),
            cameras@.len() == n,
            entities@.len() == m,
            0 <= k <= m,
            forall|j: int|
                0 <= j < n ==> #[trigger] cameras@[j] == spec_closed(entities@.take(k as int).to_set(), cams0[j]),
        decreases m - k,
    {
        let e = entities[k];
        let mut i: usize = 0;
        while i < n
            invariant
                n == cams0.len(),
                cameras@.len() == n,
                entities@.len() == m,
                0 <= i <= n,
                k < m,
                e == entities@[k as int],
                forall|j: int|
                    0 <= j < i ==> #[trigger] cameras@[j] == spec_closed(
                        entities@.take(k + 1).to_set(),
                        cams0[j],
                    ),
                forall|j: int|
                    i <= j < n ==> #[trigger] cameras@[j] == spec_closed(entities@.take(k as int).to_set(), cams0[j]),
            decreases n - i,
        {
            proof {
                assert(entities@.take(k + 1) =~= entities@.take(k as int).push(e));
                assert(entities@.take(k + 1).to_set() =~= entities@.take(k as int).to_set().insert(e)) by {
                    entities@.take(k as int).lemma_push_to_set_commute(e);
                }
            }
            let c = cameras[i];
            if c.entity == e {
                cameras.set(i, SceneCamera { is_active: true, ..c });
            }
            i = i + 1;
        }
        k = k + 1;
    }
    proof {
        assert(entities@.take(m as int) =~= entities@);
        assert(cameras@ =~= cams0.map_values(|c: SceneCamera| spec_closed(old(saved)@, c)));
    }
    saved.clear_entities();
}

/// Reacts to the editor's events: opening the editor remembers and turns off
/// the cameras that render to a window, closing it turns the remembered
/// cameras back on and forgets them; other events change nothing.
pub fn toggle_editor_cam(
    events: &Vec<EditorEvent>,
    saved: &mut PreviouslyActiveCameras,
    cameras: &mut Vec<SceneCamera>,
)
    ensures
        (final(saved)@, final(cameras)@) == spec_after_events(old(saved)@, old(cameras)@, events@),
        (forall|i: int| 0 <= i < events@.len() ==> !(#[trigger] events@[i] is Toggle)) ==> final(saved)@
            == old(saved)@ && final(cameras)@ == old(cameras)@,
{
    let ghost saved0 = saved@;
    let ghost cams0 = cameras@;
    let mut i: usize = 0;
    while i < events.len()
        invariant
            0 <= i <= events.len(),
            (saved@, cameras@) == spec_after_events(saved0, cams0, events@.take(i as int)),
        decreases events.len() - i,
    {
        proof {
            assert(events@.take(i + 1).drop_last() =~= events@.take(i as int));
        }
        match events[i] {
            EditorEvent::Toggle { now_active } => {
                if now_active {
                    save_and_deactivate(saved, cameras);
                } else {
                    restore_saved(saved, cameras);
                }
            },
            EditorEvent::FocusSelected => {},
        }
        i = i + 1;
    }
    proof {
        assert(events@.take(events.len() as int) =~= events@);
        if forall|i: int| 0 <= i < events@.len() ==> !(#[trigger] events@[i] is Toggle) {
            lemma_only_toggle_events_act(saved0, cams0, events@);
        }
    }
}

/// Entities of a world are distinct.
pub open spec fn spec_distinct_entities(cameras: Seq<SceneCamera>) -> bool {
    forall|i: int, j: int|
        0 <= i < cameras.len() && 0 <= j < cameras.len() && i != j ==> #[trigger] cameras[i].entity
            != #[trigger] cameras[j].entity
}

/// While the editor is open no camera renders to a window but the editor's:
/// opening it leaves every window camera inactive, and touches nothing else.
pub proof fn lemma_open_silences_window_cameras(saved: Set<u64>, cameras: Seq<SceneCamera>)
    ensures
        ({
            let after = spec_after_event(saved, cameras, EditorEvent::Toggle { now_active: true }).1;
            &&& after.len() == cameras.len()
            &&& forall|i: int|
                0 <= i < after.len() ==> {
                    &&& !(#[trigger] after[i].renders_to_window && after[i].is_active)
                    &&& after[i].entity == cameras[i].entity
                    &&& after[i].renders_to_window == cameras[i].renders_to_window
                    &&& !cameras[i].renders_to_window ==> after[i] == cameras[i]
                }
        }),
{
}

/// Opening and then closing the editor gives every camera back the activity
/// it had before, and leaves nothing remembered (in a world whose entities
/// are distinct, starting from the closed editor's empty memory).
pub proof fn lemma_open_then_close_restores(cameras: Seq<SceneCamera>)
    requires
        spec_distinct_entities(cameras),
    ensures
        spec_after_events(
            Set::<u64>::empty(),
            cameras,
            seq![EditorEvent::Toggle { now_active: true }, EditorEvent::Toggle { now_active: false }],
        ) == (Set::<u64>::empty(), cameras),
{
    let open = EditorEvent::Toggle { now_active: true };
    let close = EditorEvent::Toggle { now_active: false };
    let events = seq![open, close];
    assert(events.drop_last() =~= seq![open]);
    assert(events.drop_last().drop_last() =~= Seq::<EditorEvent>::empty());
    reveal_with_fuel(spec_after_events, 3);
    let saved1 = Set::<u64>::empty().union(spec_window_active_entities(cameras));
    let cams1 = cameras.map_values(|c: SceneCamera| spec_opened(c));
    assert(spec_after_events(Set::<u64>::empty(), cameras, seq![open]) == (saved1, cams1));
    let cams2 = cams1.map_values(|c: SceneCamera| spec_closed(saved1, c));
    assert forall|i: int| 0 <= i < cameras.len() implies cams2[i] == cameras[i] by {
        let c = cameras[i];
        if c.renders_to_window && c.is_active {
            assert(spec_window_active_entities(cameras).contains(c.entity));
        } else {
            if saved1.contains(c.entity) {
                let k = choose|k: int|
                    0 <= k < cameras.len() && #[trigger] cameras[k].entity == c.entity
                        && cameras[k].renders_to_window && cameras[k].is_active;
                assert(k == i);
            }
        }
    }
    assert(cams2 =~= cameras);
}

/// One event keeps the cameras' number, entities and render targets.
proof fn lemma_event_keeps_shape(saved: Set<u64>, cameras: Seq<SceneCamera>, event: EditorEvent)
    ensures
        ({
            let after = spec_after_event(saved, cameras, event).1;
            &&& after.len() == cameras.len()
            &&& forall|i: int|
                0 <= i < cameras.len() ==> #[trigger] after[i].entity == cameras[i].entity
                    && after[i].renders_to_window == cameras[i].renders_to_window
        }),
{
}

/// A run of events keeps the cameras' number, entities and render targets.
proof fn lemma_events_keep_shape(saved: Set<u64>, cameras: Seq<SceneCamera>, events: Seq<EditorEvent>)
    ensures
        ({
            let after = spec_after_events(saved, cameras, events).1;
            &&& after.len() == cameras.len()
            &&& forall|i: int|
                0 <= i < cameras.len() ==> #[trigger] after[i].entity == cameras[i].entity
                    && after[i].renders_to_window == cameras[i].renders_to_window
            &&& spec_distinct_entities(cameras) ==> spec_distinct_entities(after)
        }),
    decreases events.len(),
{
    if events.len() > 0 {
        let before = spec_after_events(saved, cameras, events.drop_last());
        lemma_events_keep_shape(saved, cameras, events.drop_last());
        lemma_event_keeps_shape(before.0, before.1, events.last());
    }
    let after = spec_after_events(saved, cameras, events).1;
    if spec_distinct_entities(cameras) {
        assert forall|i: int, j: int|
            0 <= i < after.len() && 0 <= j < after.len() && i != j implies #[trigger] after[i].entity
            != #[trigger] after[j].entity by {
            assert(cameras[i].entity != cameras[j].entity);
        }
    }
}

/// Every camera whose entity is remembered is inactive.
pub open spec fn spec_saved_inactive(saved: Set<u64>, cameras: Seq<SceneCamera>) -> bool {
    forall|i: int| 0 <= i < cameras.len() && saved.contains(#[trigger] cameras[i].entity) ==> !cameras[i].is_active
}

proof fn lemma_event_keeps_saved_inactive(saved: Set<u64>, cameras: Seq<SceneCamera>, event: EditorEvent)
    requires
        spec_distinct_entities(cameras),
        spec_saved_inactive(saved, cameras),
    ensures
        spec_saved_inactive(spec_after_event(saved, cameras, event).0, spec_after_event(saved, cameras, event).1),
{
    let (saved2, cams2) = spec_after_event(saved, cameras, event);
    lemma_event_keeps_shape(saved, cameras, event);
    if event == (EditorEvent::Toggle { now_active: true }) {
        assert forall|i: int| 0 <= i < cams2.len() && saved2.contains(#[trigger] cams2[i].entity) implies !cams2[i].is_active by {
            let e = cams2[i].entity;
            if !saved.contains(e) {
                let k = choose|k: int|
                    0 <= k < cameras.len() && #[trigger] cameras[k].entity == e && cameras[k].renders_to_window
                        && cameras[k].is_active;
                assert(k == i);
            }
        }
    }
}

/// A camera whose entity the editor remembers stays inactive until the
/// editor closes and forgets it: if every remembered camera is inactive, it
/// remains so after any run of events (in a world whose entities are
/// distinct).
pub proof fn lemma_saved_cameras_stay_inactive(saved: Set<u64>, cameras: Seq<SceneCamera>, events: Seq<EditorEvent>)
    requires
        spec_distinct_entities(cameras),
        spec_saved_inactive(saved, cameras),
    ensures
        spec_saved_inactive(spec_after_events(saved, cameras, events).0, spec_after_events(saved, cameras, events).1),
    decreases events.len(),
{
    if events.len() > 0 {
        let before = spec_after_events(saved, cameras, events.drop_last());
        lemma_saved_cameras_stay_inactive(saved, cameras, events.drop_last());
        lemma_events_keep_shape(saved, cameras, events.drop_last());
        lemma_event_keeps_saved_inactive(before.0, before.1, events.last());
    }
}

/// The toggle leaves alone every camera that does not render to a window
/// and is not remembered: after any run of events it keeps its activity and
/// is still not remembered (in a world whose entities are distinct).
pub proof fn lemma_toggle_ignores_other_targets(
    saved: Set<u64>,
    cameras: Seq<SceneCamera>,
    events: Seq<EditorEvent>,
    i: int,
)
    requires
        spec_distinct_entities(cameras),
        0 <= i < cameras.len(),
        !cameras[i].renders_to_window,
        !saved.contains(cameras[i].entity),
    ensures
        spec_after_events(saved, cameras, events).1[i] == cameras[i],
        !spec_after_events(saved, cameras, events).0.contains(cameras[i].entity),
    decreases events.len(),
{
    if events.len() > 0 {
        let before = spec_after_events(saved, cameras, events.drop_last());
        lemma_toggle_ignores_other_targets(saved, cameras, events.drop_last(), i);
        lemma_events_keep_shape(saved, cameras, events.drop_last());
        let e = cameras[i].entity;
        let event = events.last();
        if event == (EditorEvent::Toggle { now_active: true }) {
            if spec_window_active_entities(before.1).contains(e) {
                let k = choose|k: int|
                    0 <= k < before.1.len() && #[trigger] before.1[k].entity == e && before.1[k].renders_to_window
                        && before.1[k].is_active;
                assert(before.1[i].entity == e);
                assert(k == i);
            }
        }
    }
}

/// Only `Toggle` events act: a run of events that holds no `Toggle` leaves
/// the remembered entities and every camera exactly as they were. In
/// particular, while the editor stays open a remembered camera stays
/// remembered and inactive.
pub proof fn lemma_only_toggle_events_act(saved: Set<u64>, cameras: Seq<SceneCamera>, events: Seq<EditorEvent>)
    requires
        forall|i: int| 0 <= i < events.len() ==> !(#[trigger] events[i] is Toggle),
    ensures
        spec_after_events(saved, cameras, events) == (saved, cameras),
    decreases events.len(),
{
    if events.len() > 0 {
        let rest = events.drop_last();
        assert forall|i: int| 0 <= i < rest.len() implies !(#[trigger] rest[i] is Toggle) by {
            assert(rest[i] == events[i]);
        }
        lemma_only_toggle_events_act(saved, cameras, rest);
        assert(!(events[events.len() - 1] is Toggle));
    }
}

/// Closing the editor touches only the remembered cameras: each camera whose
/// entity is remembered is switched on, every other camera keeps its
/// activity, no camera changes its entity or render target, and afterwards
/// nothing is remembered.
pub proof fn lemma_close_touches_only_saved(saved: Set<u64>, cameras: Seq<SceneCamera>)
    ensures
        ({
            let (saved2, after) = spec_after_event(saved, cameras, EditorEvent::Toggle { now_active: false });
            &&& saved2 == Set::<u64>::empty()
            &&& after.len() == cameras.len()
            &&& forall|i: int|
                0 <= i < cameras.len() ==> {
                    &&& #[trigger] after[i].entity == cameras[i].entity
                    &&& after[i].renders_to_window == cameras[i].renders_to_window
                    &&& after[i].is_active == (cameras[i].is_active || saved.contains(cameras[i].entity))
                    &&& !saved.contains(cameras[i].entity) ==> after[i] == cameras[i]
                }
        }),
{
}

/// Opening the editor touches only the active window cameras: each of them is
/// switched off and remembered, every other camera is kept as it was, and
/// what was remembered before stays remembered.
pub proof fn lemma_open_touches_only_active_window_cameras(saved: Set<u64>, cameras: Seq<SceneCamera>)
    ensures
        ({
            let (saved2, after) = spec_after_event(saved, cameras, EditorEvent::Toggle { now_active: true });
            &&& saved.subset_of(saved2)
            &&& after.len() == cameras.len()
            &&& forall|i: int|
                0 <= i < cameras.len() ==> {
                    &&& #[trigger] after[i].entity == cameras[i].entity
                    &&& after[i].renders_to_window == cameras[i].renders_to_window
                    &&& after[i].is_active == (cameras[i].is_active && !cameras[i].renders_to_window)
                    &&& (cameras[i].is_active && cameras[i].renders_to_window) ==> saved2.contains(cameras[i].entity)
                }
            &&& forall|e: u64|
                #[trigger] saved2.contains(e) ==> saved.contains(e) || exists|i: int|
                    0 <= i < cameras.len() && cameras[i].entity == e && cameras[i].is_active
                        && cameras[i].renders_to_window
        }),
{
    let (saved2, after) = spec_after_event(saved, cameras, EditorEvent::Toggle { now_active: true });
    assert forall|i: int| 0 <= i < cameras.len() && cameras[i].is_active && cameras[i].renders_to_window implies saved2.contains(
        #[trigger] cameras[i].entity,
    ) by {
        assert(spec_window_active_entities(cameras).contains(cameras[i].entity));
    }
}

} // verus!
