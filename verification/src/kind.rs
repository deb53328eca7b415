use vstd::prelude::*;

verus! {

/// The three cameras the editor can look through.
#[derive(Clone, Copy, Debug, PartialEq, Eq, Structural)]
pub enum EditorCamKind {
    D2PanZoom,
    D3Free,
    D3PanOrbit,
}

impl EditorCamKind {
    /// The label shown for this kind in the viewport toolbar.
    pub open spec fn spec_name(self) -> Seq<char> {
        match self {
            EditorCamKind::D2PanZoom => "2D (Pan/Zoom)"@,
            EditorCamKind::D3Free => "3D (Free)"@,
            EditorCamKind::D3PanOrbit => "3D (Pan/Orbit)"@,
        }
    }

    pub fn name(self) -> (label: &'static str)
        ensures
            label@ == self.spec_name(),
    {
        match self {
            EditorCamKind::D2PanZoom => "2D (Pan/Zoom)",
            EditorCamKind::D3Free => "3D (Free)",
            EditorCamKind::D3PanOrbit => "3D (Pan/Orbit)",
        }
    }

    /// Every kind, in the order the toolbar menu lists them.
    pub open spec fn spec_all() -> Seq<EditorCamKind> {
        seq![EditorCamKind::D2PanZoom, EditorCamKind::D3Free, EditorCamKind::D3PanOrbit]
    }

    pub fn all() -> (kinds: [EditorCamKind; 3])
        ensures
            kinds@ == Self::spec_all(),
    {
        let kinds = [EditorCamKind::D2PanZoom, EditorCamKind::D3Free, EditorCamKind::D3PanOrbit];
        assert(kinds@ =~= Self::spec_all());
        kinds
    }
}

impl Default for EditorCamKind {
    fn default() -> (kind: Self)
        ensures
            kind == EditorCamKind::D3PanOrbit,
    {
        EditorCamKind::D3PanOrbit
    }
}

/// The toolbar menu offers every kind exactly once, each under its own label.
pub proof fn lemma_menu_lists_each_kind_once()
    ensures
        forall|k: EditorCamKind| #[trigger] EditorCamKind::spec_all().contains(k),
        EditorCamKind::spec_all().no_duplicates(),
        forall|a: EditorCamKind, b: EditorCamKind| a != b ==> #[trigger] a.spec_name() != #[trigger] b.spec_name(),
{
    assert forall|k: EditorCamKind| #[trigger] EditorCamKind::spec_all().contains(k) by {
        match k {
            EditorCamKind::D2PanZoom => assert(EditorCamKind::spec_all()[0] == k),
            EditorCamKind::D3Free => assert(EditorCamKind::spec_all()[1] == k),
            EditorCamKind::D3PanOrbit => assert(EditorCamKind::spec_all()[2] == k),
        }
    }
    reveal_strlit("2D (Pan/Zoom)");
    reveal_strlit("3D (Free)");
    reveal_strlit("3D (Pan/Orbit)");
    assert forall|a: EditorCamKind, b: EditorCamKind| a != b implies #[trigger] a.spec_name() != #[trigger] b.spec_name() by {
        assert(a.spec_name().len() != b.spec_name().len() || a.spec_name()[3] != b.spec_name()[3]);
    }
}

} // verus!
