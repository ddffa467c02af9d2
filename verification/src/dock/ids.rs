use vstd::prelude::*;

verus! {

/// Stable panel identity.
#[derive(Debug, Clone, Copy, PartialEq, Eq, Hash, PartialOrd, Ord, Structural)]
pub struct PanelId(u64);

impl View for PanelId {
    type V = u64;

    closed spec fn view(&self) -> u64 {
        self.0
    }
}

/// Two panel IDs with the same raw bits are the same ID.
pub broadcast proof fn lemma_panel_id_view_injective(a: PanelId, b: PanelId)
    ensures
        #[trigger] a@ == #[trigger] b@ <==> a == b,
{
}

impl PanelId {
    /// Creates a panel ID from raw bits.
    pub fn from_raw(raw: u64) -> (id: Self)
        ensures
            id@ == raw,
    {
        PanelId(raw)
    }

    /// Returns raw ID bits.
    pub fn raw(self) -> (raw: u64)
        ensures
            raw == self@,
    {
        self.0
    }
}

/// Stable frame identity.
#[derive(Debug, Clone, Copy, PartialEq, Eq, Hash, PartialOrd, Ord, Structural)]
pub struct FrameId(u64);

impl View for FrameId {
    type V = u64;

    closed spec fn view(&self) -> u64 {
        self.0
    }
}

/// Two frame IDs with the same raw bits are the same ID.
pub broadcast proof fn lemma_frame_id_view_injective(a: FrameId, b: FrameId)
    ensures
        #[trigger] a@ == #[trigger] b@ <==> a == b,
{
}

impl FrameId {
    /// Creates a frame ID from raw bits.
    pub fn from_raw(raw: u64) -> (id: Self)
        ensures
            id@ == raw,
    {
        FrameId(raw)
    }

    /// Returns raw ID bits.
    pub fn raw(self) -> (raw: u64)
        ensures
            raw == self@,
    {
        self.0
    }
}

} // verus!
