use vstd::prelude::*;

verus! {

/// The cameras of the edited scene that were rendering to a window when the
/// editor opened, by entity bits. The editor turns them off while it is open
/// and back on when it closes.
///
/// The entities are held in bevy's `HashSet`; Verus sees only what the set
/// holds, `previously_active_entities`.
#[verifier::external_body]
pub struct PreviouslyActiveCameras {
    entities: bevy::utils::HashSet<u64>,
}

/// The entities that a `PreviouslyActiveCameras` set holds.
pub uninterp spec fn previously_active_entities(cameras: PreviouslyActiveCameras) -> Set<u64>;

impl View for PreviouslyActiveCameras {
    type V = Set<u64>;

    open spec fn view(&self) -> Set<u64> {
        previously_active_entities(*self)
    }
}

/// `bevy::utils::HashSet::default` (hashbrown's `HashSet::default`): a new
/// set holds nothing.
#[verifier::external_body]
fn empty_entity_set() -> (cameras: PreviouslyActiveCameras)
    ensures
        previously_active_entities(cameras) == Set::<u64>::empty(),
{
    PreviouslyActiveCameras { entities: bevy::utils::HashSet::default() }
}

impl PreviouslyActiveCameras {
    /// hashbrown's `HashSet::insert`: afterwards the set holds `entity` as
    /// well; the result says whether it was new.
    #[verifier::external_body]
    pub(crate) fn insert_entity(&mut self, entity: u64) -> (added: bool)
        ensures
            previously_active_entities(*final(self)) == previously_active_entities(*old(self)).insert(entity),
            added == !previously_active_entities(*old(self)).contains(entity),
    {
        self.entities.insert(entity)
    }

    /// hashbrown's `HashSet::clear`: afterwards the set holds nothing.
    #[verifier::external_body]
    pub(crate) fn clear_entities(&mut self)
        ensures
            previously_active_entities(*final(self)) == Set::<u64>::empty(),
    {
        self.entities.clear()
    }

    /// hashbrown's `HashSet::iter`, collected: each entity of the set once,
    /// in the set's own (arbitrary) order.
    #[verifier::external_body]
    fn entity_list(&self) -> (entities: Vec<u64>)
        ensures
            entities@.to_set() == previously_active_entities(*self),
            entities@.no_duplicates(),
    {
        self.entities.iter().copied().collect()
    }

    /// The entities of the set, each once, in no particular order.
    pub fn entities(&self) -> (entities: Vec<u64>)
        ensures
            entities@.to_set() == self@,
            entities@.no_duplicates(),
    {
        self.entity_list()
    }
}

impl Default for PreviouslyActiveCameras {
    fn default() -> (cameras: Self)
        ensures
            cameras@ == Set::<u64>::empty(),
    {
        empty_entity_set()
    }
}

} // verus!
