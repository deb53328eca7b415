use vstd::prelude::*;

use crate::events::EditorEvent;

verus! {

/// The number of focus requests among `events`.
pub open spec fn spec_focus_events(events: Seq<EditorEvent>) -> nat
    decreases events.len(),
{
    if events.len() == 0 {
        0
    } else {
        spec_focus_events(events.drop_last()) + (if events.last() == EditorEvent::FocusSelected {
            1nat
        } else {
            0nat
        })
    }
}

/// How many times a batch of editor events frames the selection: once per
/// focus request while something is selected; with an empty selection the
/// first focus request ends the batch and nothing is framed. Other events
/// are skipped.
pub fn focus_requests(events: &Vec<EditorEvent>, selection_len: usize) -> (count: usize)
    ensures
        count == (if selection_len == 0 { 0 } else { spec_focus_events(events@) }),
{
    let mut count: usize = 0;
    let mut i: usize = 0;
    while i < events.len()
        invariant
            0 <= i <= events.len(),
            count == (if selection_len == 0 { 0 } else { spec_focus_events(events@.take(i as int)) }),
            count <= i,
        decreases events.len() - i,
    {
        proof {
            assert(events@.take(i + 1).drop_last() =~= events@.take(i as int));
        }
        match events[i] {
            EditorEvent::FocusSelected => {},
            _ => {
                i = i + 1;
                continue;
            },
        }
        if selection_len == 0 {
            return 0;
        }
        count = count + 1;
        i = i + 1;
    }
    proof {
        assert(events@.take(events.len() as int) =~= events@);
    }
    count
}

/// What gives a selected entity's extent when the selection is framed.
#[derive(Clone, Copy, Debug, PartialEq, Eq, Structural)]
pub enum SelectionBounds {
    /// Its axis-aligned bounding box, transformed.
    Aabb,
    /// Its sprite's rectangle (its custom size, or the unit square), transformed.
    Sprite,
    /// Its position alone.
    Translation,
}

/// Chooses what bounds a selected entity: its bounding box where it has one,
/// else its sprite where it has one, else its position.
pub fn selection_bounds(has_aabb: bool, has_sprite: bool) -> (bounds: SelectionBounds)
    ensures
        bounds == (if has_aabb {
            SelectionBounds::Aabb
        } else if has_sprite {
            SelectionBounds::Sprite
        } else {
            SelectionBounds::Translation
        }),
{
    if has_aabb {
        SelectionBounds::Aabb
    } else if has_sprite {
        SelectionBounds::Sprite
    } else {
        SelectionBounds::Translation
    }
}

/// Counting focus requests: a run without a focus request holds none, one
/// more focus request adds one, any other event adds nothing, and there are
/// never more requests than events.
pub proof fn lemma_focus_events_count(events: Seq<EditorEvent>, event: EditorEvent)
    ensures
        spec_focus_events(events) <= events.len(),
        (forall|i: int| 0 <= i < events.len() ==> #[trigger] events[i] != EditorEvent::FocusSelected)
            ==> spec_focus_events(events) == 0,
        spec_focus_events(events.push(event)) == spec_focus_events(events) + (if event
            == EditorEvent::FocusSelected {
            1int
        } else {
            0int
        }),
    decreases events.len(),
{
    assert(events.push(event).drop_last() =~= events);
    if events.len() > 0 {
        let rest = events.drop_last();
        lemma_focus_events_count(rest, event);
        if forall|i: int| 0 <= i < events.len() ==> #[trigger] events[i] != EditorEvent::FocusSelected {
            assert forall|i: int| 0 <= i < rest.len() implies #[trigger] rest[i] != EditorEvent::FocusSelected by {
                assert(rest[i] == events[i]);
            }
            assert(events[events.len() - 1] != EditorEvent::FocusSelected);
        }
    }
}

} // verus!
