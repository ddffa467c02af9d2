//! Data models for editor widgets: collections, selection, docking,
//! property grids, timelines and the component taxonomy.

pub mod collections;
pub mod components;
pub mod dock;
pub mod inspector;
mod raw_ids;
pub mod taxonomy;
pub mod timeline;
pub mod viewport;

pub use collections::{
    AssetBrowserItem, AssetBrowserModel, AssetBrowserSort, AssetBrowserSortKey, CollectionCursor,
    CollectionCursorMove, CollectionCursorTarget, CollectionProjectedItem, CollectionProjection,
    ItemId, OutlinerItem, OutlinerModel, OutlinerRow, Selection, SelectionProjection,
    SelectionProjectionPolicy, SortDirection, TableSort, TreeExpansion, TreeItem, TreeModel,
    VirtualListRow, VirtualListSelectionMode, overscan_range,
};
pub use components::TextFieldAccess;
pub use dock::{
    DockArea, DockNode, DockRestoreError, DockSnapshot, DockSnapshotNode, Frame, FrameId, FrameTab,
    Panel, PanelId, frame_tabs,
};
pub use inspector::{
    PropertyGridError, PropertyGridKeyframeAffordance, PropertyGridResetAffordance,
    PropertyGridRow, PropertyGridRowAffordances, PropertyGridRowKind, PropertyGridRowState,
    PropertyGridRowStatus, PropertyGridStatusPresentation, PropertyGridStatusSeverity,
    validate_property_grid_rows,
};
pub use taxonomy::{
    ComponentCategory, ComponentConformanceMatrixRow, ComponentConformanceStatus,
    ComponentEvidence, ComponentEvidenceCategory, ComponentMetadata, component_evidence_registry,
    component_metadata_registry,
};
pub use timeline::{
    TimelineFrame, TimelineFrameRate, TimelineFrameRounding, TimelineId, TimelineRulerId,
    TimelineRulerTick, TimelineRulerTickKind, TransportControlId, ruler_ticks_between_frames,
    timeline_timecode_label,
};
pub use viewport::ViewportFit;
