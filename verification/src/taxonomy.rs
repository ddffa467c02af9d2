//! Data-only taxonomy metadata for widget components.

use vstd::prelude::*;

verus! {

/// Component category.
#[derive(Debug, Clone, Copy, PartialEq, Eq, Hash, PartialOrd, Ord, Structural)]
pub enum ComponentCategory {
    /// Static display and decoration components.
    Display,
    /// Clickable, selectable, or adjustable controls.
    Control,
    /// Non-text input controls.
    Input,
    /// Text editing and text-query controls.
    TextEditing,
    /// Collection, virtualization, and structured data components.
    Collection,
    /// Docking, frame, and panel workspace components.
    Docking,
    /// Menus, popovers, command palettes, and other overlay surfaces.
    Overlay,
    /// Media, image, video, and editor viewport surfaces.
    Viewport,
    /// Property editing and inspector patterns.
    Inspector,
    /// System-level editor chrome and status patterns.
    System,
}

/// Stable display name of a component category.
pub open spec fn category_name(category: ComponentCategory) -> Seq<char> {
    match category {
        ComponentCategory::Display => "Display"@,
        ComponentCategory::Control => "Control"@,
        ComponentCategory::Input => "Input"@,
        ComponentCategory::TextEditing => "TextEditing"@,
        ComponentCategory::Collection => "Collection"@,
        ComponentCategory::Docking => "Docking"@,
        ComponentCategory::Overlay => "Overlay"@,
        ComponentCategory::Viewport => "Viewport"@,
        ComponentCategory::Inspector => "Inspector"@,
        ComponentCategory::System => "System"@,
    }
}

impl ComponentCategory {
    /// Returns a stable display name for the category.
    pub fn as_str(self) -> (name: &'static str)
        ensures
            name@ == category_name(self),
    {
        match self {
            ComponentCategory::Display => "Display",
            ComponentCategory::Control => "Control",
            ComponentCategory::Input => "Input",
            ComponentCategory::TextEditing => "TextEditing",
            ComponentCategory::Collection => "Collection",
            ComponentCategory::Docking => "Docking",
            ComponentCategory::Overlay => "Overlay",
            ComponentCategory::Viewport => "Viewport",
            ComponentCategory::Inspector => "Inspector",
            ComponentCategory::System => "System",
        }
    }
}

/// Implementation status for a component or editor pattern.
#[derive(Debug, Clone, Copy, PartialEq, Eq, Hash, PartialOrd, Ord, Structural)]
pub enum ComponentConformanceStatus {
    /// Public widget behavior exists for common usage.
    Implemented,
    /// Public models, helpers, or partial behavior exist, but the full component is incomplete.
    Partial,
    /// The component is part of the vocabulary but is not implemented yet.
    Planned,
}

/// Stable display name of a conformance status.
pub open spec fn status_name(status: ComponentConformanceStatus) -> Seq<char> {
    match status {
        ComponentConformanceStatus::Implemented => "Implemented"@,
        ComponentConformanceStatus::Partial => "Partial"@,
        ComponentConformanceStatus::Planned => "Planned"@,
    }
}

impl ComponentConformanceStatus {
    /// Returns a stable display name for the status.
    pub fn as_str(self) -> (name: &'static str)
        ensures
            name@ == status_name(self),
    {
        match self {
            ComponentConformanceStatus::Implemented => "Implemented",
            ComponentConformanceStatus::Partial => "Partial",
            ComponentConformanceStatus::Planned => "Planned",
        }
    }
}

/// Category for evidence attached to a component taxonomy entry.
#[derive(Debug, Clone, Copy, PartialEq, Eq, Hash, PartialOrd, Ord, Structural)]
pub enum ComponentEvidenceCategory {
    /// Evidence explaining the implementation status.
    Status,
    /// Evidence tying the entry to an editor-toolkit stage.
    Stage,
    /// Evidence from deterministic conformance tests or contracts.
    Conformance,
    /// Evidence describing showcase coverage without implying runtime behavior.
    Showcase,
}

/// Stable display name of an evidence category.
pub open spec fn evidence_category_name(category: ComponentEvidenceCategory) -> Seq<char> {
    match category {
        ComponentEvidenceCategory::Status => "Status"@,
        ComponentEvidenceCategory::Stage => "Stage"@,
        ComponentEvidenceCategory::Conformance => "Conformance"@,
        ComponentEvidenceCategory::Showcase => "Showcase"@,
    }
}

impl ComponentEvidenceCategory {
    /// Returns a stable display name for the evidence category.
    pub fn as_str(self) -> (name: &'static str)
        ensures
            name@ == evidence_category_name(self),
    {
        match self {
            ComponentEvidenceCategory::Status => "Status",
            ComponentEvidenceCategory::Stage => "Stage",
            ComponentEvidenceCategory::Conformance => "Conformance",
            ComponentEvidenceCategory::Showcase => "Showcase",
        }
    }
}

/// Stable evidence descriptor referenced by component taxonomy entries.
#[derive(Debug, Clone, Copy, PartialEq, Eq)]
pub struct ComponentEvidence {
    /// Stable lower-kebab or dotted identifier.
    pub id: &'static str,
    /// Evidence category.
    pub category: ComponentEvidenceCategory,
    /// Short human-readable evidence summary.
    pub summary: &'static str,
}

impl ComponentEvidence {
    /// Creates a component taxonomy evidence descriptor.
    pub fn new(
        id: &'static str,
        category: ComponentEvidenceCategory,
        summary: &'static str,
    ) -> (evidence: Self)
        ensures
            evidence.id == id,
            evidence.category == category,
            evidence.summary == summary,
    {
        ComponentEvidence { id, category, summary }
    }
}

/// Public component taxonomy entry.
#[derive(Debug, Clone, Copy, PartialEq, Eq)]
pub struct ComponentMetadata {
    /// Public component or pattern name.
    pub name: &'static str,
    /// Stable lower-kebab identifier.
    pub slug: &'static str,
    /// Component category.
    pub category: ComponentCategory,
    /// Implementation status.
    pub status: ComponentConformanceStatus,
    /// Editor-toolkit stage that currently owns the catalogue entry.
    pub stage: Option<u8>,
    /// Stable evidence identifiers backing the status and coverage metadata.
    pub evidence_ids: &'static [&'static str],
}

impl ComponentMetadata {
    /// Creates a component taxonomy entry with no stage and no evidence.
    pub fn new(
        name: &'static str,
        slug: &'static str,
        category: ComponentCategory,
        status: ComponentConformanceStatus,
    ) -> (metadata: Self)
        ensures
            metadata.name == name,
            metadata.slug == slug,
            metadata.category == category,
            metadata.status == status,
            metadata.stage is None,
            metadata.evidence_ids@.len() == 0,
    {
        ComponentMetadata { name, slug, category, status, stage: None, evidence_ids: &[] }
    }

    /// Sets the editor-toolkit stage for this taxonomy entry.
    pub fn with_stage(self, stage: u8) -> (metadata: Self)
        ensures
            metadata == (ComponentMetadata { stage: Some(stage), ..self }),
    {
        ComponentMetadata { stage: Some(stage), ..self }
    }

    /// Sets the stable evidence identifiers for this taxonomy entry.
    pub fn with_evidence(self, evidence_ids: &'static [&'static str]) -> (metadata: Self)
        ensures
            metadata == (ComponentMetadata { evidence_ids, ..self }),
    {
        ComponentMetadata { evidence_ids, ..self }
    }
}

/// Data-only conformance matrix row for a capability.
#[derive(Debug, Clone, Copy, PartialEq, Eq)]
pub struct ComponentConformanceMatrixRow {
    /// Public capability or pattern name.
    pub capability: &'static str,
    /// Stable lower-kebab capability identifier.
    pub slug: &'static str,
    /// Optional component slug this capability supports.
    pub component_slug: Option<&'static str>,
    /// Component category.
    pub category: ComponentCategory,
    /// Implementation status for the capability.
    pub status: ComponentConformanceStatus,
    /// Editor-toolkit stage that owns this matrix row.
    pub stage: u8,
    /// Public data-only contracts that provide the capability surface.
    pub public_contracts: &'static [&'static str],
    /// Deterministic tests that prove the evidence claim.
    pub deterministic_tests: &'static [&'static str],
    /// Stable evidence identifiers backing the row.
    pub evidence_ids: &'static [&'static str],
}

impl ComponentConformanceMatrixRow {
    /// Creates a partial component conformance matrix row with no component slug.
    pub fn partial(
        capability: &'static str,
        slug: &'static str,
        category: ComponentCategory,
        stage: u8,
        public_contracts: &'static [&'static str],
        deterministic_tests: &'static [&'static str],
        evidence_ids: &'static [&'static str],
    ) -> (row: Self)
        ensures
            row.capability == capability,
            row.slug == slug,
            row.component_slug is None,
            row.category == category,
            row.status == ComponentConformanceStatus::Partial,
            row.stage == stage,
            row.public_contracts == public_contracts,
            row.deterministic_tests == deterministic_tests,
            row.evidence_ids == evidence_ids,
    {
        ComponentConformanceMatrixRow {
            capability,
            slug,
            component_slug: None,
            category,
            status: ComponentConformanceStatus::Partial,
            stage,
            public_contracts,
            deterministic_tests,
            evidence_ids,
        }
    }

    /// Associates this matrix row with a component metadata slug.
    pub fn with_component_slug(self, component_slug: &'static str) -> (row: Self)
        ensures
            row == (ComponentConformanceMatrixRow { component_slug: Some(component_slug), ..self }),
    {
        ComponentConformanceMatrixRow { component_slug: Some(component_slug), ..self }
    }
}

/// Views of a sequence of string slices.
pub open spec fn str_views(strs: Seq<&'static str>) -> Seq<Seq<char>> {
    strs.map_values(|text: &'static str| text@)
}

/// The mathematical content of a component taxonomy entry.
pub struct ComponentRecord {
    /// Component or pattern name.
    pub name: Seq<char>,
    /// Lower-kebab identifier.
    pub slug: Seq<char>,
    /// Component category.
    pub category: ComponentCategory,
    /// Implementation status.
    pub status: ComponentConformanceStatus,
    /// Owning editor-toolkit stage.
    pub stage: Option<u8>,
    /// Evidence identifiers.
    pub evidence_ids: Seq<Seq<char>>,
}

/// The mathematical content of a component taxonomy entry value.
pub open spec fn component_record(metadata: ComponentMetadata) -> ComponentRecord {
    ComponentRecord {
        name: metadata.name@,
        slug: metadata.slug@,
        category: metadata.category,
        status: metadata.status,
        stage: metadata.stage,
        evidence_ids: str_views(metadata.evidence_ids@),
    }
}

/// The mathematical content of an evidence descriptor.
pub struct EvidenceRecord {
    /// Evidence identifier.
    pub id: Seq<char>,
    /// Evidence category.
    pub category: ComponentEvidenceCategory,
    /// Evidence summary.
    pub summary: Seq<char>,
}

/// The mathematical content of an evidence descriptor value.
pub open spec fn evidence_record(evidence: ComponentEvidence) -> EvidenceRecord {
    EvidenceRecord { id: evidence.id@, category: evidence.category, summary: evidence.summary@ }
}

/// Evidence identifiers listed by `implemented_taxonomy_evidence`.
pub open spec fn implemented_taxonomy_evidence_list() -> Seq<Seq<char>> {
    seq![
        "status.implemented-public-api"@,
        "conformance.component-taxonomy"@,
        "showcase.metadata-only"@,
    ]
}

/// Evidence identifiers listed by `partial_taxonomy_evidence`.
pub open spec fn partial_taxonomy_evidence_list() -> Seq<Seq<char>> {
    seq![
        "status.partial-public-contract"@,
        "conformance.component-taxonomy"@,
        "showcase.metadata-only"@,
    ]
}

/// Evidence identifiers listed by `stage_10_partial_evidence`.
pub open spec fn stage_10_partial_evidence_list() -> Seq<Seq<char>> {
    seq![
        "status.partial-public-contract"@,
        "stage.10-outliner-asset-browser"@,
        "conformance.component-taxonomy"@,
        "showcase.metadata-only"@,
    ]
}

/// Evidence identifiers listed by `stage_11_partial_evidence`.
pub open spec fn stage_11_partial_evidence_list() -> Seq<Seq<char>> {
    seq![
        "status.partial-public-contract"@,
        "stage.11-timeline"@,
        "conformance.component-taxonomy"@,
        "showcase.metadata-only"@,
    ]
}

/// Evidence identifiers listed by `s12_viewport_evidence`.
pub open spec fn s12_viewport_evidence_list() -> Seq<Seq<char>> {
    seq![
        "status.partial-public-contract"@,
        "stage.12-viewport-tools"@,
        "conformance.viewport-surface-contracts"@,
        "showcase.metadata-only"@,
    ]
}

/// Evidence identifiers listed by `s12_viewport_tools_evidence`.
pub open spec fn s12_viewport_tools_evidence_list() -> Seq<Seq<char>> {
    seq![
        "status.partial-public-contract"@,
        "stage.12-viewport-tools"@,
        "conformance.viewport-tool-contracts"@,
        "showcase.metadata-only"@,
    ]
}

/// Evidence identifiers listed by `s12_viewport_action_routing_evidence`.
pub open spec fn s12_viewport_action_routing_evidence_list() -> Seq<Seq<char>> {
    seq![
        "status.partial-public-contract"@,
        "stage.12-viewport-tools"@,
        "conformance.viewport-action-routing-contracts"@,
        "showcase.metadata-only"@,
    ]
}

/// Evidence identifiers listed by `stage_13_partial_evidence`.
pub open spec fn stage_13_partial_evidence_list() -> Seq<Seq<char>> {
    seq![
        "status.partial-public-contract"@,
        "stage.13-jobs-diagnostics"@,
        "conformance.component-taxonomy"@,
        "showcase.metadata-only"@,
    ]
}

/// Evidence identifiers listed by `s13_progress_evidence`.
pub open spec fn s13_progress_evidence_list() -> Seq<Seq<char>> {
    seq![
        "status.partial-public-contract"@,
        "stage.13-jobs-diagnostics"@,
        "conformance.progress-indicator-contracts"@,
        "showcase.metadata-only"@,
    ]
}

/// Evidence identifiers listed by `s13_job_list_evidence`.
pub open spec fn s13_job_list_evidence_list() -> Seq<Seq<char>> {
    seq![
        "status.partial-public-contract"@,
        "stage.13-jobs-diagnostics"@,
        "conformance.job-list-contracts"@,
        "showcase.metadata-only"@,
    ]
}

/// Evidence identifiers listed by `s13_diagnostic_strip_evidence`.
pub open spec fn s13_diagnostic_strip_evidence_list() -> Seq<Seq<char>> {
    seq![
        "status.partial-public-contract"@,
        "stage.13-jobs-diagnostics"@,
        "conformance.diagnostic-strip-contracts"@,
        "showcase.metadata-only"@,
    ]
}

/// Evidence identifiers listed by `s13_feedback_stack_evidence`.
pub open spec fn s13_feedback_stack_evidence_list() -> Seq<Seq<char>> {
    seq![
        "status.partial-public-contract"@,
        "stage.13-jobs-diagnostics"@,
        "conformance.feedback-stack-contracts"@,
        "showcase.metadata-only"@,
    ]
}

/// Entry `index` of the component catalogue, in registry order.
pub open spec fn catalogue_entry(index: usize) -> ComponentRecord {
    match index {
        0 => ComponentRecord {
            name: "Label"@,
            slug: "label"@,
            category: ComponentCategory::Display,
            status: ComponentConformanceStatus::Implemented,
            stage: None,
            evidence_ids: implemented_taxonomy_evidence_list(),
        },
        1 => ComponentRecord {
            name: "Image"@,
            slug: "image"@,
            category: ComponentCategory::Display,
            status: ComponentConformanceStatus::Implemented,
            stage: None,
            evidence_ids: implemented_taxonomy_evidence_list(),
        },
        2 => ComponentRecord {
            name: "Separator"@,
            slug: "separator"@,
            category: ComponentCategory::Display,
            status: ComponentConformanceStatus::Implemented,
            stage: None,
            evidence_ids: implemented_taxonomy_evidence_list(),
        },
        3 => ComponentRecord {
            name: "Button"@,
            slug: "button"@,
            category: ComponentCategory::Control,
            status: ComponentConformanceStatus::Implemented,
            stage: None,
            evidence_ids: implemented_taxonomy_evidence_list(),
        },
        4 => ComponentRecord {
            name: "IconButton"@,
            slug: "icon-button"@,
            category: ComponentCategory::Control,
            status: ComponentConformanceStatus::Implemented,
            stage: None,
            evidence_ids: implemented_taxonomy_evidence_list(),
        },
        5 => ComponentRecord {
            name: "Checkbox"@,
            slug: "checkbox"@,
            category: ComponentCategory::Input,
            status: ComponentConformanceStatus::Implemented,
            stage: None,
            evidence_ids: implemented_taxonomy_evidence_list(),
        },
        6 => ComponentRecord {
            name: "RadioButton"@,
            slug: "radio-button"@,
            category: ComponentCategory::Input,
            status: ComponentConformanceStatus::Implemented,
            stage: None,
            evidence_ids: implemented_taxonomy_evidence_list(),
        },
        7 => ComponentRecord {
            name: "Toggle"@,
            slug: "toggle"@,
            category: ComponentCategory::Input,
            status: ComponentConformanceStatus::Implemented,
            stage: None,
            evidence_ids: implemented_taxonomy_evidence_list(),
        },
        8 => ComponentRecord {
            name: "Slider"@,
            slug: "slider"@,
            category: ComponentCategory::Input,
            status: ComponentConformanceStatus::Implemented,
            stage: None,
            evidence_ids: implemented_taxonomy_evidence_list(),
        },
        9 => ComponentRecord {
            name: "NumericInput"@,
            slug: "numeric-input"@,
            category: ComponentCategory::Input,
            status: ComponentConformanceStatus::Implemented,
            stage: None,
            evidence_ids: implemented_taxonomy_evidence_list(),
        },
        10 => ComponentRecord {
            name: "NumericScrubInput"@,
            slug: "numeric-scrub-input"@,
            category: ComponentCategory::Input,
            status: ComponentConformanceStatus::Implemented,
            stage: None,
            evidence_ids: implemented_taxonomy_evidence_list(),
        },
        11 => ComponentRecord {
            name: "TextField"@,
            slug: "text-field"@,
            category: ComponentCategory::TextEditing,
            status: ComponentConformanceStatus::Implemented,
            stage: None,
            evidence_ids: implemented_taxonomy_evidence_list(),
        },
        12 => ComponentRecord {
            name: "MultiLineTextField"@,
            slug: "multi-line-text-field"@,
            category: ComponentCategory::TextEditing,
            status: ComponentConformanceStatus::Implemented,
            stage: None,
            evidence_ids: implemented_taxonomy_evidence_list(),
        },
        13 => ComponentRecord {
            name: "SearchField"@,
            slug: "search-field"@,
            category: ComponentCategory::TextEditing,
            status: ComponentConformanceStatus::Implemented,
            stage: None,
            evidence_ids: implemented_taxonomy_evidence_list(),
        },
        14 => ComponentRecord {
            name: "List"@,
            slug: "list"@,
            category: ComponentCategory::Collection,
            status: ComponentConformanceStatus::Partial,
            stage: None,
            evidence_ids: partial_taxonomy_evidence_list(),
        },
        15 => ComponentRecord {
            name: "Grid"@,
            slug: "grid"@,
            category: ComponentCategory::Collection,
            status: ComponentConformanceStatus::Partial,
            stage: None,
            evidence_ids: partial_taxonomy_evidence_list(),
        },
        16 => ComponentRecord {
            name: "Table"@,
            slug: "table"@,
            category: ComponentCategory::Collection,
            status: ComponentConformanceStatus::Partial,
            stage: None,
            evidence_ids: partial_taxonomy_evidence_list(),
        },
        17 => ComponentRecord {
            name: "Tree"@,
            slug: "tree"@,
            category: ComponentCategory::Collection,
            status: ComponentConformanceStatus::Partial,
            stage: None,
            evidence_ids: partial_taxonomy_evidence_list(),
        },
        18 => ComponentRecord {
            name: "Outliner"@,
            slug: "outliner"@,
            category: ComponentCategory::Collection,
            status: ComponentConformanceStatus::Partial,
            stage: Some(10u8),
            evidence_ids: stage_10_partial_evidence_list(),
        },
        19 => ComponentRecord {
            name: "AssetBrowser"@,
            slug: "asset-browser"@,
            category: ComponentCategory::Collection,
            status: ComponentConformanceStatus::Partial,
            stage: Some(10u8),
            evidence_ids: stage_10_partial_evidence_list(),
        },
        20 => ComponentRecord {
            name: "PropertyGrid"@,
            slug: "property-grid"@,
            category: ComponentCategory::Inspector,
            status: ComponentConformanceStatus::Partial,
            stage: None,
            evidence_ids: partial_taxonomy_evidence_list(),
        },
        21 => ComponentRecord {
            name: "PropertyAffordanceControls"@,
            slug: "property-affordance-controls"@,
            category: ComponentCategory::Inspector,
            status: ComponentConformanceStatus::Implemented,
            stage: None,
            evidence_ids: implemented_taxonomy_evidence_list(),
        },
        22 => ComponentRecord {
            name: "Vector2Field"@,
            slug: "vector-two-field"@,
            category: ComponentCategory::Inspector,
            status: ComponentConformanceStatus::Implemented,
            stage: None,
            evidence_ids: implemented_taxonomy_evidence_list(),
        },
        23 => ComponentRecord {
            name: "Vector3Field"@,
            slug: "vector-three-field"@,
            category: ComponentCategory::Inspector,
            status: ComponentConformanceStatus::Implemented,
            stage: None,
            evidence_ids: implemented_taxonomy_evidence_list(),
        },
        24 => ComponentRecord {
            name: "Vector4Field"@,
            slug: "vector-four-field"@,
            category: ComponentCategory::Inspector,
            status: ComponentConformanceStatus::Implemented,
            stage: None,
            evidence_ids: implemented_taxonomy_evidence_list(),
        },
        25 => ComponentRecord {
            name: "ColorField"@,
            slug: "color-field"@,
            category: ComponentCategory::Inspector,
            status: ComponentConformanceStatus::Implemented,
            stage: None,
            evidence_ids: implemented_taxonomy_evidence_list(),
        },
        26 => ComponentRecord {
            name: "SelectField"@,
            slug: "select-field"@,
            category: ComponentCategory::Inspector,
            status: ComponentConformanceStatus::Implemented,
            stage: None,
            evidence_ids: implemented_taxonomy_evidence_list(),
        },
        27 => ComponentRecord {
            name: "AssetSlotField"@,
            slug: "asset-slot-field"@,
            category: ComponentCategory::Inspector,
            status: ComponentConformanceStatus::Implemented,
            stage: None,
            evidence_ids: implemented_taxonomy_evidence_list(),
        },
        28 => ComponentRecord {
            name: "PathField"@,
            slug: "path-field"@,
            category: ComponentCategory::Inspector,
            status: ComponentConformanceStatus::Implemented,
            stage: None,
            evidence_ids: implemented_taxonomy_evidence_list(),
        },
        29 => ComponentRecord {
            name: "Panel"@,
            slug: "panel"@,
            category: ComponentCategory::Docking,
            status: ComponentConformanceStatus::Partial,
            stage: None,
            evidence_ids: partial_taxonomy_evidence_list(),
        },
        30 => ComponentRecord {
            name: "Frame"@,
            slug: "frame"@,
            category: ComponentCategory::Docking,
            status: ComponentConformanceStatus::Partial,
            stage: None,
            evidence_ids: partial_taxonomy_evidence_list(),
        },
        31 => ComponentRecord {
            name: "Dock"@,
            slug: "dock"@,
            category: ComponentCategory::Docking,
            status: ComponentConformanceStatus::Partial,
            stage: None,
            evidence_ids: partial_taxonomy_evidence_list(),
        },
        32 => ComponentRecord {
            name: "Menu"@,
            slug: "menu"@,
            category: ComponentCategory::Overlay,
            status: ComponentConformanceStatus::Partial,
            stage: None,
            evidence_ids: partial_taxonomy_evidence_list(),
        },
        33 => ComponentRecord {
            name: "MenuItem"@,
            slug: "menu-item"@,
            category: ComponentCategory::Overlay,
            status: ComponentConformanceStatus::Partial,
            stage: None,
            evidence_ids: partial_taxonomy_evidence_list(),
        },
        34 => ComponentRecord {
            name: "ContextMenu"@,
            slug: "context-menu"@,
            category: ComponentCategory::Overlay,
            status: ComponentConformanceStatus::Partial,
            stage: None,
            evidence_ids: partial_taxonomy_evidence_list(),
        },
        35 => ComponentRecord {
            name: "Popover"@,
            slug: "popover"@,
            category: ComponentCategory::Overlay,
            status: ComponentConformanceStatus::Partial,
            stage: None,
            evidence_ids: partial_taxonomy_evidence_list(),
        },
        36 => ComponentRecord {
            name: "Tooltip"@,
            slug: "tooltip"@,
            category: ComponentCategory::Overlay,
            status: ComponentConformanceStatus::Partial,
            stage: None,
            evidence_ids: partial_taxonomy_evidence_list(),
        },
        37 => ComponentRecord {
            name: "CommandPalette"@,
            slug: "command-palette"@,
            category: ComponentCategory::Overlay,
            status: ComponentConformanceStatus::Partial,
            stage: None,
            evidence_ids: partial_taxonomy_evidence_list(),
        },
        38 => ComponentRecord {
            name: "Viewport"@,
            slug: "viewport"@,
            category: ComponentCategory::Viewport,
            status: ComponentConformanceStatus::Partial,
            stage: Some(12u8),
            evidence_ids: s12_viewport_evidence_list(),
        },
        39 => ComponentRecord {
            name: "ViewportTools"@,
            slug: "viewport-tools"@,
            category: ComponentCategory::Viewport,
            status: ComponentConformanceStatus::Partial,
            stage: Some(12u8),
            evidence_ids: s12_viewport_tools_evidence_list(),
        },
        40 => ComponentRecord {
            name: "ViewportActionRouting"@,
            slug: "viewport-action-routing"@,
            category: ComponentCategory::Viewport,
            status: ComponentConformanceStatus::Partial,
            stage: Some(12u8),
            evidence_ids: s12_viewport_action_routing_evidence_list(),
        },
        41 => ComponentRecord {
            name: "NodeGraph"@,
            slug: "node-graph"@,
            category: ComponentCategory::Viewport,
            status: ComponentConformanceStatus::Partial,
            stage: None,
            evidence_ids: partial_taxonomy_evidence_list(),
        },
        42 => ComponentRecord {
            name: "Ruler"@,
            slug: "ruler"@,
            category: ComponentCategory::Viewport,
            status: ComponentConformanceStatus::Partial,
            stage: Some(11u8),
            evidence_ids: stage_11_partial_evidence_list(),
        },
        43 => ComponentRecord {
            name: "Dropdown"@,
            slug: "dropdown"@,
            category: ComponentCategory::Overlay,
            status: ComponentConformanceStatus::Partial,
            stage: None,
            evidence_ids: partial_taxonomy_evidence_list(),
        },
        44 => ComponentRecord {
            name: "MenuBar"@,
            slug: "menu-bar"@,
            category: ComponentCategory::Overlay,
            status: ComponentConformanceStatus::Partial,
            stage: None,
            evidence_ids: partial_taxonomy_evidence_list(),
        },
        45 => ComponentRecord {
            name: "Tabs"@,
            slug: "tabs"@,
            category: ComponentCategory::Docking,
            status: ComponentConformanceStatus::Partial,
            stage: None,
            evidence_ids: partial_taxonomy_evidence_list(),
        },
        46 => ComponentRecord {
            name: "Toolbar"@,
            slug: "toolbar"@,
            category: ComponentCategory::System,
            status: ComponentConformanceStatus::Partial,
            stage: None,
            evidence_ids: partial_taxonomy_evidence_list(),
        },
        47 => ComponentRecord {
            name: "StatusBar"@,
            slug: "status-bar"@,
            category: ComponentCategory::System,
            status: ComponentConformanceStatus::Partial,
            stage: Some(13u8),
            evidence_ids: stage_13_partial_evidence_list(),
        },
        48 => ComponentRecord {
            name: "Modal"@,
            slug: "modal"@,
            category: ComponentCategory::Overlay,
            status: ComponentConformanceStatus::Partial,
            stage: None,
            evidence_ids: partial_taxonomy_evidence_list(),
        },
        49 => ComponentRecord {
            name: "Timeline"@,
            slug: "timeline"@,
            category: ComponentCategory::Viewport,
            status: ComponentConformanceStatus::Partial,
            stage: Some(11u8),
            evidence_ids: stage_11_partial_evidence_list(),
        },
        50 => ComponentRecord {
            name: "TransportControls"@,
            slug: "transport-controls"@,
            category: ComponentCategory::Control,
            status: ComponentConformanceStatus::Partial,
            stage: Some(11u8),
            evidence_ids: stage_11_partial_evidence_list(),
        },
        51 => ComponentRecord {
            name: "ProgressIndicator"@,
            slug: "progress-indicator"@,
            category: ComponentCategory::Display,
            status: ComponentConformanceStatus::Partial,
            stage: Some(13u8),
            evidence_ids: s13_progress_evidence_list(),
        },
        52 => ComponentRecord {
            name: "JobList"@,
            slug: "job-list"@,
            category: ComponentCategory::System,
            status: ComponentConformanceStatus::Partial,
            stage: Some(13u8),
            evidence_ids: s13_job_list_evidence_list(),
        },
        53 => ComponentRecord {
            name: "DiagnosticStrip"@,
            slug: "diagnostic-strip"@,
            category: ComponentCategory::System,
            status: ComponentConformanceStatus::Partial,
            stage: Some(13u8),
            evidence_ids: s13_diagnostic_strip_evidence_list(),
        },
        _ => ComponentRecord {
            name: "FeedbackStack"@,
            slug: "feedback-stack"@,
            category: ComponentCategory::System,
            status: ComponentConformanceStatus::Partial,
            stage: Some(13u8),
            evidence_ids: s13_feedback_stack_evidence_list(),
        },
    }
}

/// Entry `index` of the evidence catalogue, in registry order.
pub open spec fn evidence_entry(index: usize) -> EvidenceRecord {
    match index {
        0 => EvidenceRecord {
            id: "status.implemented-public-api"@,
            category: ComponentEvidenceCategory::Status,
            summary: "Public widget behavior exists for common usage."@,
        },
        1 => EvidenceRecord {
            id: "status.partial-public-contract"@,
            category: ComponentEvidenceCategory::Status,
            summary: "Public models, helpers, or partial behavior exist, but the full component is incomplete."@,
        },
        2 => EvidenceRecord {
            id: "stage.10-outliner-asset-browser"@,
            category: ComponentEvidenceCategory::Stage,
            summary: "Restarted editor-toolkit Stage 10 outliner and asset browser catalogue coverage."@,
        },
        3 => EvidenceRecord {
            id: "stage.11-timeline"@,
            category: ComponentEvidenceCategory::Stage,
            summary: "Restarted editor-toolkit Stage 11 timeline catalogue coverage."@,
        },
        4 => EvidenceRecord {
            id: "stage.12-viewport-tools"@,
            category: ComponentEvidenceCategory::Stage,
            summary: "Restarted editor-toolkit Stage 12 viewport tools catalogue coverage."@,
        },
        5 => EvidenceRecord {
            id: "stage.13-jobs-diagnostics"@,
            category: ComponentEvidenceCategory::Stage,
            summary: "Restarted editor-toolkit Stage 13 jobs and diagnostics catalogue coverage."@,
        },
        6 => EvidenceRecord {
            id: "conformance.component-taxonomy"@,
            category: ComponentEvidenceCategory::Conformance,
            summary: "Covered by the component taxonomy conformance test matrix."@,
        },
        7 => EvidenceRecord {
            id: "conformance.outliner-contracts"@,
            category: ComponentEvidenceCategory::Conformance,
            summary: "Covered by public outliner data contracts and deterministic outliner conformance tests."@,
        },
        8 => EvidenceRecord {
            id: "conformance.asset-browser-contracts"@,
            category: ComponentEvidenceCategory::Conformance,
            summary: "Covered by public asset browser data contracts and deterministic asset browser conformance tests."@,
        },
        9 => EvidenceRecord {
            id: "conformance.inline-edit-contracts"@,
            category: ComponentEvidenceCategory::Conformance,
            summary: "Covered by public inline edit session contracts and deterministic rename conformance tests."@,
        },
        10 => EvidenceRecord {
            id: "conformance.collection-drag-context-contracts"@,
            category: ComponentEvidenceCategory::Conformance,
            summary: "Covered by public collection drag/drop/context contracts and deterministic conformance tests."@,
        },
        11 => EvidenceRecord {
            id: "conformance.collection-projection-contracts"@,
            category: ComponentEvidenceCategory::Conformance,
            summary: "Covered by public collection projection, filter, sort, and selection preservation contracts."@,
        },
        12 => EvidenceRecord {
            id: "conformance.timeline-contracts"@,
            category: ComponentEvidenceCategory::Conformance,
            summary: "Covered by public timeline layout, coordinate, selection, and semantic contracts."@,
        },
        13 => EvidenceRecord {
            id: "conformance.timeline-ruler-contracts"@,
            category: ComponentEvidenceCategory::Conformance,
            summary: "Covered by public timeline ruler tick and timecode contracts."@,
        },
        14 => EvidenceRecord {
            id: "conformance.timeline-transport-contracts"@,
            category: ComponentEvidenceCategory::Conformance,
            summary: "Covered by public timeline transport action and semantic contracts."@,
        },
        15 => EvidenceRecord {
            id: "conformance.timeline-snapping-contracts"@,
            category: ComponentEvidenceCategory::Conformance,
            summary: "Covered by public timeline snap candidate and snap resolution contracts."@,
        },
        16 => EvidenceRecord {
            id: "conformance.timeline-preservation-contracts"@,
            category: ComponentEvidenceCategory::Conformance,
            summary: "Covered by public timeline viewport state and selection preservation contracts."@,
        },
        17 => EvidenceRecord {
            id: "conformance.viewport-surface-contracts"@,
            category: ComponentEvidenceCategory::Conformance,
            summary: "Covered by public viewport surface, pan/zoom, overlay descriptor, and hit-test contracts."@,
        },
        18 => EvidenceRecord {
            id: "conformance.viewport-tool-contracts"@,
            category: ComponentEvidenceCategory::Conformance,
            summary: "Covered by public viewport tool, transform handle, and drag request contracts."@,
        },
        19 => EvidenceRecord {
            id: "conformance.viewport-action-routing-contracts"@,
            category: ComponentEvidenceCategory::Conformance,
            summary: "Covered by public viewport action request, action semantic, and cursor routing contracts."@,
        },
        20 => EvidenceRecord {
            id: "conformance.viewport-overlay-contracts"@,
            category: ComponentEvidenceCategory::Conformance,
            summary: "Covered by public viewport guide, ruler, safe-area, and HUD descriptor contracts."@,
        },
        21 => EvidenceRecord {
            id: "conformance.progress-indicator-contracts"@,
            category: ComponentEvidenceCategory::Conformance,
            summary: "Covered by public status and job progress metadata contracts."@,
        },
        22 => EvidenceRecord {
            id: "conformance.job-list-contracts"@,
            category: ComponentEvidenceCategory::Conformance,
            summary: "Covered by public job row, progress, cancel, and summary metadata contracts."@,
        },
        23 => EvidenceRecord {
            id: "conformance.diagnostic-strip-contracts"@,
            category: ComponentEvidenceCategory::Conformance,
            summary: "Covered by public diagnostic strip item, field, severity, source, and ordering contracts."@,
        },
        24 => EvidenceRecord {
            id: "conformance.feedback-stack-contracts"@,
            category: ComponentEvidenceCategory::Conformance,
            summary: "Covered by public feedback lifetime, action, dismissal, ordering, and repaint contracts."@,
        },
        _ => EvidenceRecord {
            id: "showcase.metadata-only"@,
            category: ComponentEvidenceCategory::Showcase,
            summary: "Tracked by taxonomy metadata only; no interactive showcase behavior is claimed."@,
        },
    }
}

/// A lower-kebab identifier: lowercase ASCII letters in hyphen-separated
/// words, neither starting nor ending with a hyphen.
pub open spec fn is_kebab_slug(slug: Seq<char>) -> bool {
    &&& slug.len() > 0
    &&& forall|i: int| 0 <= i < slug.len() ==> ('a' <= #[trigger] slug[i] <= 'z' || slug[i] == '-')
    &&& slug[0] != '-'
    &&& slug[slug.len() - 1] != '-'
}

/// Every catalogue slug is a lower-kebab identifier, and every entry lists
/// some evidence.
pub proof fn lemma_catalogue_slugs_are_kebab()
    ensures
        forall|k: usize|
            k < 55 ==> is_kebab_slug(#[trigger] catalogue_entry(k).slug)
                && catalogue_entry(k).evidence_ids.len() > 0,
{
    reveal_strlit("label");
    reveal_strlit("image");
    reveal_strlit("separator");
    reveal_strlit("button");
    reveal_strlit("icon-button");
    reveal_strlit("checkbox");
    reveal_strlit("radio-button");
    reveal_strlit("toggle");
    reveal_strlit("slider");
    reveal_strlit("numeric-input");
    reveal_strlit("numeric-scrub-input");
    reveal_strlit("text-field");
    reveal_strlit("multi-line-text-field");
    reveal_strlit("search-field");
    reveal_strlit("list");
    reveal_strlit("grid");
    reveal_strlit("table");
    reveal_strlit("tree");
    reveal_strlit("outliner");
    reveal_strlit("asset-browser");
    reveal_strlit("property-grid");
    reveal_strlit("property-affordance-controls");
    reveal_strlit("vector-two-field");
    reveal_strlit("vector-three-field");
    reveal_strlit("vector-four-field");
    reveal_strlit("color-field");
    reveal_strlit("select-field");
    reveal_strlit("asset-slot-field");
    reveal_strlit("path-field");
    reveal_strlit("panel");
    reveal_strlit("frame");
    reveal_strlit("dock");
    reveal_strlit("menu");
    reveal_strlit("menu-item");
    reveal_strlit("context-menu");
    reveal_strlit("popover");
    reveal_strlit("tooltip");
    reveal_strlit("command-palette");
    reveal_strlit("viewport");
    reveal_strlit("viewport-tools");
    reveal_strlit("viewport-action-routing");
    reveal_strlit("node-graph");
    reveal_strlit("ruler");
    reveal_strlit("dropdown");
    reveal_strlit("menu-bar");
    reveal_strlit("tabs");
    reveal_strlit("toolbar");
    reveal_strlit("status-bar");
    reveal_strlit("modal");
    reveal_strlit("timeline");
    reveal_strlit("transport-controls");
    reveal_strlit("progress-indicator");
    reveal_strlit("job-list");
    reveal_strlit("diagnostic-strip");
    reveal_strlit("feedback-stack");
}

/// A short fingerprint of a text of at least three characters: its length,
/// its first, third and last characters, and the sixth from the end (the
/// first when it is shorter).
spec fn text_fingerprint(text: Seq<char>) -> (nat, char, char, char, char) {
    let back = if text.len() >= 6 {
        text.len() - 6
    } else {
        0
    };
    (text.len(), text[0], text[2], text[back], text[text.len() - 1])
}

/// Catalogue position of the entry with the given slug, told apart by
/// fingerprint; 55 for any other fingerprint.
spec fn slug_position(slug: Seq<char>) -> int {
    let fingerprint = text_fingerprint(slug);
    if fingerprint == (5nat, 'l', 'b', 'l', 'l') {
        0
    } else if fingerprint == (5nat, 'i', 'a', 'i', 'e') {
        1
    } else if fingerprint == (9nat, 's', 'p', 'a', 'r') {
        2
    } else if fingerprint == (6nat, 'b', 't', 'b', 'n') {
        3
    } else if fingerprint == (11nat, 'i', 'o', 'b', 'n') {
        4
    } else if fingerprint == (8nat, 'c', 'e', 'e', 'x') {
        5
    } else if fingerprint == (12nat, 'r', 'd', 'b', 'n') {
        6
    } else if fingerprint == (6nat, 't', 'g', 't', 'e') {
        7
    } else if fingerprint == (6nat, 's', 'i', 's', 'r') {
        8
    } else if fingerprint == (13nat, 'n', 'm', '-', 't') {
        9
    } else if fingerprint == (19nat, 'n', 'm', '-', 't') {
        10
    } else if fingerprint == (10nat, 't', 'x', '-', 'd') {
        11
    } else if fingerprint == (21nat, 'm', 'l', '-', 'd') {
        12
    } else if fingerprint == (12nat, 's', 'a', '-', 'd') {
        13
    } else if fingerprint == (4nat, 'l', 's', 'l', 't') {
        14
    } else if fingerprint == (4nat, 'g', 'i', 'g', 'd') {
        15
    } else if fingerprint == (5nat, 't', 'b', 't', 'e') {
        16
    } else if fingerprint == (4nat, 't', 'e', 't', 'e') {
        17
    } else if fingerprint == (8nat, 'o', 't', 't', 'r') {
        18
    } else if fingerprint == (13nat, 'a', 's', 'r', 'r') {
        19
    } else if fingerprint == (13nat, 'p', 'o', 'y', 'd') {
        20
    } else if fingerprint == (28nat, 'p', 'o', 'n', 's') {
        21
    } else if fingerprint == (16nat, 'v', 'c', '-', 'd') {
        22
    } else if fingerprint == (18nat, 'v', 'c', '-', 'd') {
        23
    } else if fingerprint == (17nat, 'v', 'c', '-', 'd') {
        24
    } else if fingerprint == (11nat, 'c', 'l', '-', 'd') {
        25
    } else if fingerprint == (12nat, 's', 'l', '-', 'd') {
        26
    } else if fingerprint == (16nat, 'a', 's', '-', 'd') {
        27
    } else if fingerprint == (10nat, 'p', 't', '-', 'd') {
        28
    } else if fingerprint == (5nat, 'p', 'n', 'p', 'l') {
        29
    } else if fingerprint == (5nat, 'f', 'a', 'f', 'e') {
        30
    } else if fingerprint == (4nat, 'd', 'c', 'd', 'k') {
        31
    } else if fingerprint == (4nat, 'm', 'n', 'm', 'u') {
        32
    } else if fingerprint == (9nat, 'm', 'n', 'u', 'm') {
        33
    } else if fingerprint == (12nat, 'c', 'n', 't', 'u') {
        34
    } else if fingerprint == (7nat, 'p', 'p', 'o', 'r') {
        35
    } else if fingerprint == (7nat, 't', 'o', 'o', 'p') {
        36
    } else if fingerprint == (15nat, 'c', 'm', 'a', 'e') {
        37
    } else if fingerprint == (8nat, 'v', 'e', 'e', 't') {
        38
    } else if fingerprint == (14nat, 'v', 'e', '-', 's') {
        39
    } else if fingerprint == (23nat, 'v', 'e', 'o', 'g') {
        40
    } else if fingerprint == (10nat, 'n', 'd', '-', 'h') {
        41
    } else if fingerprint == (5nat, 'r', 'l', 'r', 'r') {
        42
    } else if fingerprint == (8nat, 'd', 'o', 'o', 'n') {
        43
    } else if fingerprint == (8nat, 'm', 'n', 'n', 'r') {
        44
    } else if fingerprint == (4nat, 't', 'b', 't', 's') {
        45
    } else if fingerprint == (7nat, 't', 'o', 'o', 'r') {
        46
    } else if fingerprint == (10nat, 's', 'a', 'u', 'r') {
        47
    } else if fingerprint == (5nat, 'm', 'd', 'm', 'l') {
        48
    } else if fingerprint == (8nat, 't', 'm', 'm', 'e') {
        49
    } else if fingerprint == (18nat, 't', 'a', 'n', 's') {
        50
    } else if fingerprint == (18nat, 'p', 'o', 'i', 'r') {
        51
    } else if fingerprint == (8nat, 'j', 'b', 'b', 't') {
        52
    } else if fingerprint == (16nat, 'd', 'a', '-', 'p') {
        53
    } else if fingerprint == (14nat, 'f', 'e', '-', 'k') {
        54
    } else {
        55
    }
}

/// Each catalogue entry's slug leads back to its own position.
proof fn lemma_slug_positions()
    ensures
        forall|k: usize| k < 55 ==> slug_position(#[trigger] catalogue_entry(k).slug) == k,
{
    reveal_strlit("label");
    reveal_strlit("image");
    reveal_strlit("separator");
    reveal_strlit("button");
    reveal_strlit("icon-button");
    reveal_strlit("checkbox");
    reveal_strlit("radio-button");
    reveal_strlit("toggle");
    reveal_strlit("slider");
    reveal_strlit("numeric-input");
    reveal_strlit("numeric-scrub-input");
    reveal_strlit("text-field");
    reveal_strlit("multi-line-text-field");
    reveal_strlit("search-field");
    reveal_strlit("list");
    reveal_strlit("grid");
    reveal_strlit("table");
    reveal_strlit("tree");
    reveal_strlit("outliner");
    reveal_strlit("asset-browser");
    reveal_strlit("property-grid");
    reveal_strlit("property-affordance-controls");
    reveal_strlit("vector-two-field");
    reveal_strlit("vector-three-field");
    reveal_strlit("vector-four-field");
    reveal_strlit("color-field");
    reveal_strlit("select-field");
    reveal_strlit("asset-slot-field");
    reveal_strlit("path-field");
    reveal_strlit("panel");
    reveal_strlit("frame");
    reveal_strlit("dock");
    reveal_strlit("menu");
    reveal_strlit("menu-item");
    reveal_strlit("context-menu");
    reveal_strlit("popover");
    reveal_strlit("tooltip");
    reveal_strlit("command-palette");
    reveal_strlit("viewport");
    reveal_strlit("viewport-tools");
    reveal_strlit("viewport-action-routing");
    reveal_strlit("node-graph");
    reveal_strlit("ruler");
    reveal_strlit("dropdown");
    reveal_strlit("menu-bar");
    reveal_strlit("tabs");
    reveal_strlit("toolbar");
    reveal_strlit("status-bar");
    reveal_strlit("modal");
    reveal_strlit("timeline");
    reveal_strlit("transport-controls");
    reveal_strlit("progress-indicator");
    reveal_strlit("job-list");
    reveal_strlit("diagnostic-strip");
    reveal_strlit("feedback-stack");
}

/// No two catalogue entries share a slug.
pub proof fn lemma_catalogue_slugs_are_distinct()
    ensures
        forall|i: usize, j: usize|
            i < j < 55 ==> #[trigger] catalogue_entry(i).slug != #[trigger] catalogue_entry(j).slug,
{
    lemma_slug_positions();
}

/// Catalogue position of the entry with the given name, told apart by
/// fingerprint; 55 for any other fingerprint.
spec fn name_position(name: Seq<char>) -> int {
    let fingerprint = text_fingerprint(name);
    if fingerprint == (5nat, 'L', 'b', 'L', 'l') {
        0
    } else if fingerprint == (5nat, 'I', 'a', 'I', 'e') {
        1
    } else if fingerprint == (9nat, 'S', 'p', 'a', 'r') {
        2
    } else if fingerprint == (6nat, 'B', 't', 'B', 'n') {
        3
    } else if fingerprint == (10nat, 'I', 'o', 'B', 'n') {
        4
    } else if fingerprint == (8nat, 'C', 'e', 'e', 'x') {
        5
    } else if fingerprint == (11nat, 'R', 'd', 'B', 'n') {
        6
    } else if fingerprint == (6nat, 'T', 'g', 'T', 'e') {
        7
    } else if fingerprint == (6nat, 'S', 'i', 'S', 'r') {
        8
    } else if fingerprint == (12nat, 'N', 'm', 'c', 't') {
        9
    } else if fingerprint == (17nat, 'N', 'm', 'b', 't') {
        10
    } else if fingerprint == (9nat, 'T', 'x', 't', 'd') {
        11
    } else if fingerprint == (18nat, 'M', 'l', 't', 'd') {
        12
    } else if fingerprint == (11nat, 'S', 'a', 'h', 'd') {
        13
    } else if fingerprint == (4nat, 'L', 's', 'L', 't') {
        14
    } else if fingerprint == (4nat, 'G', 'i', 'G', 'd') {
        15
    } else if fingerprint == (5nat, 'T', 'b', 'T', 'e') {
        16
    } else if fingerprint == (4nat, 'T', 'e', 'T', 'e') {
        17
    } else if fingerprint == (8nat, 'O', 't', 't', 'r') {
        18
    } else if fingerprint == (12nat, 'A', 's', 'r', 'r') {
        19
    } else if fingerprint == (12nat, 'P', 'o', 't', 'd') {
        20
    } else if fingerprint == (26nat, 'P', 'o', 'n', 's') {
        21
    } else if fingerprint == (12nat, 'V', 'c', '2', 'd') {
        22
    } else if fingerprint == (12nat, 'V', 'c', '3', 'd') {
        23
    } else if fingerprint == (12nat, 'V', 'c', '4', 'd') {
        24
    } else if fingerprint == (10nat, 'C', 'l', 'r', 'd') {
        25
    } else if fingerprint == (11nat, 'S', 'l', 't', 'd') {
        26
    } else if fingerprint == (14nat, 'A', 's', 't', 'd') {
        27
    } else if fingerprint == (9nat, 'P', 't', 'h', 'd') {
        28
    } else if fingerprint == (5nat, 'P', 'n', 'P', 'l') {
        29
    } else if fingerprint == (5nat, 'F', 'a', 'F', 'e') {
        30
    } else if fingerprint == (4nat, 'D', 'c', 'D', 'k') {
        31
    } else if fingerprint == (4nat, 'M', 'n', 'M', 'u') {
        32
    } else if fingerprint == (8nat, 'M', 'n', 'n', 'm') {
        33
    } else if fingerprint == (11nat, 'C', 'n', 'x', 'u') {
        34
    } else if fingerprint == (7nat, 'P', 'p', 'o', 'r') {
        35
    } else if fingerprint == (7nat, 'T', 'o', 'o', 'p') {
        36
    } else if fingerprint == (14nat, 'C', 'm', 'a', 'e') {
        37
    } else if fingerprint == (8nat, 'V', 'e', 'e', 't') {
        38
    } else if fingerprint == (13nat, 'V', 'e', 't', 's') {
        39
    } else if fingerprint == (21nat, 'V', 'e', 'o', 'g') {
        40
    } else if fingerprint == (9nat, 'N', 'd', 'e', 'h') {
        41
    } else if fingerprint == (5nat, 'R', 'l', 'R', 'r') {
        42
    } else if fingerprint == (8nat, 'D', 'o', 'o', 'n') {
        43
    } else if fingerprint == (7nat, 'M', 'n', 'e', 'r') {
        44
    } else if fingerprint == (4nat, 'T', 'b', 'T', 's') {
        45
    } else if fingerprint == (7nat, 'T', 'o', 'o', 'r') {
        46
    } else if fingerprint == (9nat, 'S', 'a', 't', 'r') {
        47
    } else if fingerprint == (5nat, 'M', 'd', 'M', 'l') {
        48
    } else if fingerprint == (8nat, 'T', 'm', 'm', 'e') {
        49
    } else if fingerprint == (17nat, 'T', 'a', 'n', 's') {
        50
    } else if fingerprint == (17nat, 'P', 'o', 'i', 'r') {
        51
    } else if fingerprint == (7nat, 'J', 'b', 'o', 't') {
        52
    } else if fingerprint == (15nat, 'D', 'a', 'c', 'p') {
        53
    } else if fingerprint == (13nat, 'F', 'e', 'k', 'k') {
        54
    } else {
        55
    }
}

/// Each catalogue entry's name leads back to its own position.
proof fn lemma_name_positions()
    ensures
        forall|k: usize|
            k < 55 ==> name_position(#[trigger] catalogue_entry(k).name) == k
                && catalogue_entry(k).name.len() > 0,
{
    reveal_strlit("Label");
    reveal_strlit("Image");
    reveal_strlit("Separator");
    reveal_strlit("Button");
    reveal_strlit("IconButton");
    reveal_strlit("Checkbox");
    reveal_strlit("RadioButton");
    reveal_strlit("Toggle");
    reveal_strlit("Slider");
    reveal_strlit("NumericInput");
    reveal_strlit("NumericScrubInput");
    reveal_strlit("TextField");
    reveal_strlit("MultiLineTextField");
    reveal_strlit("SearchField");
    reveal_strlit("List");
    reveal_strlit("Grid");
    reveal_strlit("Table");
    reveal_strlit("Tree");
    reveal_strlit("Outliner");
    reveal_strlit("AssetBrowser");
    reveal_strlit("PropertyGrid");
    reveal_strlit("PropertyAffordanceControls");
    reveal_strlit("Vector2Field");
    reveal_strlit("Vector3Field");
    reveal_strlit("Vector4Field");
    reveal_strlit("ColorField");
    reveal_strlit("SelectField");
    reveal_strlit("AssetSlotField");
    reveal_strlit("PathField");
    reveal_strlit("Panel");
    reveal_strlit("Frame");
    reveal_strlit("Dock");
    reveal_strlit("Menu");
    reveal_strlit("MenuItem");
    reveal_strlit("ContextMenu");
    reveal_strlit("Popover");
    reveal_strlit("Tooltip");
    reveal_strlit("CommandPalette");
    reveal_strlit("Viewport");
    reveal_strlit("ViewportTools");
    reveal_strlit("ViewportActionRouting");
    reveal_strlit("NodeGraph");
    reveal_strlit("Ruler");
    reveal_strlit("Dropdown");
    reveal_strlit("MenuBar");
    reveal_strlit("Tabs");
    reveal_strlit("Toolbar");
    reveal_strlit("StatusBar");
    reveal_strlit("Modal");
    reveal_strlit("Timeline");
    reveal_strlit("TransportControls");
    reveal_strlit("ProgressIndicator");
    reveal_strlit("JobList");
    reveal_strlit("DiagnosticStrip");
    reveal_strlit("FeedbackStack");
}

/// No catalogue entry has an empty name, and no two share a name.
pub proof fn lemma_catalogue_names_are_distinct()
    ensures
        forall|k: usize| k < 55 ==> (#[trigger] catalogue_entry(k)).name.len() > 0,
        forall|i: usize, j: usize|
            i < j < 55 ==> #[trigger] catalogue_entry(i).name != #[trigger] catalogue_entry(j).name,
{
    lemma_name_positions();
}

/// An evidence identifier: lowercase ASCII letters, digits, hyphens and
/// dots, and not empty.
pub open spec fn is_evidence_id(id: Seq<char>) -> bool {
    &&& id.len() > 0
    &&& forall|i: int|
        0 <= i < id.len() ==> ('a' <= #[trigger] id[i] <= 'z' || '0' <= id[i] <= '9' || id[i]
            == '-' || id[i] == '.')
}

/// Catalogue position of the evidence entry with the given identifier, told
/// apart by its length and its first and fifteenth-from-last characters; 26
/// for any other identifier of at least fifteen characters.
spec fn evidence_position(id: Seq<char>) -> int {
    let fingerprint = (id.len(), id[0], id[id.len() - 15]);
    if fingerprint == (29nat, 's', 'n') {
        0
    } else if fingerprint == (30nat, 's', 'p') {
        1
    } else if fingerprint == (31nat, 's', 'r') {
        2
    } else if fingerprint == (17nat, 's', 'a') {
        3
    } else if fingerprint == (23nat, 's', '-') {
        4
    } else if fingerprint == (25nat, 's', 'o') {
        5
    } else if fingerprint == (30nat, 'c', 'p') {
        6
    } else if fingerprint == (30nat, 'c', 'l') {
        7
    } else if fingerprint == (35nat, 'c', 'o') {
        8
    } else if fingerprint == (33nat, 'c', '-') {
        9
    } else if fingerprint == (45nat, 'c', 'n') {
        10
    } else if fingerprint == (43nat, 'c', 'c') {
        11
    } else if fingerprint == (30nat, 'c', 'e') {
        12
    } else if fingerprint == (36nat, 'c', 'r') {
        13
    } else if fingerprint == (40nat, 'c', 's') {
        14
    } else if fingerprint == (39nat, 'c', 'p') {
        15
    } else if fingerprint == (43nat, 'c', 'a') {
        16
    } else if fingerprint == (38nat, 'c', 'r') {
        17
    } else if fingerprint == (35nat, 'c', '-') {
        18
    } else if fingerprint == (45nat, 'c', 'u') {
        19
    } else if fingerprint == (38nat, 'c', 'e') {
        20
    } else if fingerprint == (40nat, 'c', 'c') {
        21
    } else if fingerprint == (30nat, 'c', '-') {
        22
    } else if fingerprint == (38nat, 'c', 's') {
        23
    } else if fingerprint == (36nat, 'c', 's') {
        24
    } else if fingerprint == (22nat, 's', 'e') {
        25
    } else {
        26
    }
}

/// Each evidence entry's identifier is well formed and leads back to its own
/// position.
proof fn lemma_evidence_positions()
    ensures
        forall|k: usize|
            k < 26 ==> evidence_position(#[trigger] evidence_entry(k).id) == k && is_evidence_id(
                evidence_entry(k).id,
            ),
{
    reveal_strlit("status.implemented-public-api");
    reveal_strlit("status.partial-public-contract");
    reveal_strlit("stage.10-outliner-asset-browser");
    reveal_strlit("stage.11-timeline");
    reveal_strlit("stage.12-viewport-tools");
    reveal_strlit("stage.13-jobs-diagnostics");
    reveal_strlit("conformance.component-taxonomy");
    reveal_strlit("conformance.outliner-contracts");
    reveal_strlit("conformance.asset-browser-contracts");
    reveal_strlit("conformance.inline-edit-contracts");
    reveal_strlit("conformance.collection-drag-context-contracts");
    reveal_strlit("conformance.collection-projection-contracts");
    reveal_strlit("conformance.timeline-contracts");
    reveal_strlit("conformance.timeline-ruler-contracts");
    reveal_strlit("conformance.timeline-transport-contracts");
    reveal_strlit("conformance.timeline-snapping-contracts");
    reveal_strlit("conformance.timeline-preservation-contracts");
    reveal_strlit("conformance.viewport-surface-contracts");
    reveal_strlit("conformance.viewport-tool-contracts");
    reveal_strlit("conformance.viewport-action-routing-contracts");
    reveal_strlit("conformance.viewport-overlay-contracts");
    reveal_strlit("conformance.progress-indicator-contracts");
    reveal_strlit("conformance.job-list-contracts");
    reveal_strlit("conformance.diagnostic-strip-contracts");
    reveal_strlit("conformance.feedback-stack-contracts");
    reveal_strlit("showcase.metadata-only");
}

/// Every evidence identifier is well formed, and no two evidence entries
/// share one.
pub proof fn lemma_evidence_ids_are_distinct()
    ensures
        forall|k: usize| k < 26 ==> is_evidence_id(#[trigger] evidence_entry(k).id),
        forall|i: usize, j: usize|
            i < j < 26 ==> #[trigger] evidence_entry(i).id != #[trigger] evidence_entry(j).id,
{
    lemma_evidence_positions();
}

/// Every evidence identifier that a catalogue entry lists is the identifier
/// of an entry of the evidence catalogue.
pub proof fn lemma_catalogue_evidence_is_registered()
    ensures
        forall|k: usize, e: int|
            k < 55 && 0 <= e < catalogue_entry(k).evidence_ids.len() ==> exists|j: usize|
                j < 26 && #[trigger] evidence_entry(j).id == (#[trigger] catalogue_entry(
                    k,
                ).evidence_ids[e]),
{
    assert(evidence_entry(0).id == "status.implemented-public-api"@);
    assert(evidence_entry(1).id == "status.partial-public-contract"@);
    assert(evidence_entry(2).id == "stage.10-outliner-asset-browser"@);
    assert(evidence_entry(3).id == "stage.11-timeline"@);
    assert(evidence_entry(4).id == "stage.12-viewport-tools"@);
    assert(evidence_entry(5).id == "stage.13-jobs-diagnostics"@);
    assert(evidence_entry(6).id == "conformance.component-taxonomy"@);
    assert(evidence_entry(7).id == "conformance.outliner-contracts"@);
    assert(evidence_entry(8).id == "conformance.asset-browser-contracts"@);
    assert(evidence_entry(9).id == "conformance.inline-edit-contracts"@);
    assert(evidence_entry(10).id == "conformance.collection-drag-context-contracts"@);
    assert(evidence_entry(11).id == "conformance.collection-projection-contracts"@);
    assert(evidence_entry(12).id == "conformance.timeline-contracts"@);
    assert(evidence_entry(13).id == "conformance.timeline-ruler-contracts"@);
    assert(evidence_entry(14).id == "conformance.timeline-transport-contracts"@);
    assert(evidence_entry(15).id == "conformance.timeline-snapping-contracts"@);
    assert(evidence_entry(16).id == "conformance.timeline-preservation-contracts"@);
    assert(evidence_entry(17).id == "conformance.viewport-surface-contracts"@);
    assert(evidence_entry(18).id == "conformance.viewport-tool-contracts"@);
    assert(evidence_entry(19).id == "conformance.viewport-action-routing-contracts"@);
    assert(evidence_entry(20).id == "conformance.viewport-overlay-contracts"@);
    assert(evidence_entry(21).id == "conformance.progress-indicator-contracts"@);
    assert(evidence_entry(22).id == "conformance.job-list-contracts"@);
    assert(evidence_entry(23).id == "conformance.diagnostic-strip-contracts"@);
    assert(evidence_entry(24).id == "conformance.feedback-stack-contracts"@);
    assert(evidence_entry(25).id == "showcase.metadata-only"@);
}

fn implemented_taxonomy_evidence() -> (ids: &'static [&'static str])
    ensures
        str_views(ids@) == implemented_taxonomy_evidence_list(),
{
    &[
        "status.implemented-public-api",
        "conformance.component-taxonomy",
        "showcase.metadata-only",
    ]
}

fn partial_taxonomy_evidence() -> (ids: &'static [&'static str])
    ensures
        str_views(ids@) == partial_taxonomy_evidence_list(),
{
    &[
        "status.partial-public-contract",
        "conformance.component-taxonomy",
        "showcase.metadata-only",
    ]
}

fn stage_10_partial_evidence() -> (ids: &'static [&'static str])
    ensures
        str_views(ids@) == stage_10_partial_evidence_list(),
{
    &[
        "status.partial-public-contract",
        "stage.10-outliner-asset-browser",
        "conformance.component-taxonomy",
        "showcase.metadata-only",
    ]
}

fn stage_11_partial_evidence() -> (ids: &'static [&'static str])
    ensures
        str_views(ids@) == stage_11_partial_evidence_list(),
{
    &[
        "status.partial-public-contract",
        "stage.11-timeline",
        "conformance.component-taxonomy",
        "showcase.metadata-only",
    ]
}

fn s12_viewport_evidence() -> (ids: &'static [&'static str])
    ensures
        str_views(ids@) == s12_viewport_evidence_list(),
{
    &[
        "status.partial-public-contract",
        "stage.12-viewport-tools",
        "conformance.viewport-surface-contracts",
        "showcase.metadata-only",
    ]
}

fn s12_viewport_tools_evidence() -> (ids: &'static [&'static str])
    ensures
        str_views(ids@) == s12_viewport_tools_evidence_list(),
{
    &[
        "status.partial-public-contract",
        "stage.12-viewport-tools",
        "conformance.viewport-tool-contracts",
        "showcase.metadata-only",
    ]
}

fn s12_viewport_action_routing_evidence() -> (ids: &'static [&'static str])
    ensures
        str_views(ids@) == s12_viewport_action_routing_evidence_list(),
{
    &[
        "status.partial-public-contract",
        "stage.12-viewport-tools",
        "conformance.viewport-action-routing-contracts",
        "showcase.metadata-only",
    ]
}

fn stage_13_partial_evidence() -> (ids: &'static [&'static str])
    ensures
        str_views(ids@) == stage_13_partial_evidence_list(),
{
    &[
        "status.partial-public-contract",
        "stage.13-jobs-diagnostics",
        "conformance.component-taxonomy",
        "showcase.metadata-only",
    ]
}

fn s13_progress_evidence() -> (ids: &'static [&'static str])
    ensures
        str_views(ids@) == s13_progress_evidence_list(),
{
    &[
        "status.partial-public-contract",
        "stage.13-jobs-diagnostics",
        "conformance.progress-indicator-contracts",
        "showcase.metadata-only",
    ]
}

fn s13_job_list_evidence() -> (ids: &'static [&'static str])
    ensures
        str_views(ids@) == s13_job_list_evidence_list(),
{
    &[
        "status.partial-public-contract",
        "stage.13-jobs-diagnostics",
        "conformance.job-list-contracts",
        "showcase.metadata-only",
    ]
}

fn s13_diagnostic_strip_evidence() -> (ids: &'static [&'static str])
    ensures
        str_views(ids@) == s13_diagnostic_strip_evidence_list(),
{
    &[
        "status.partial-public-contract",
        "stage.13-jobs-diagnostics",
        "conformance.diagnostic-strip-contracts",
        "showcase.metadata-only",
    ]
}

fn s13_feedback_stack_evidence() -> (ids: &'static [&'static str])
    ensures
        str_views(ids@) == s13_feedback_stack_evidence_list(),
{
    &[
        "status.partial-public-contract",
        "stage.13-jobs-diagnostics",
        "conformance.feedback-stack-contracts",
        "showcase.metadata-only",
    ]
}

/// Data-only registry of widget components and editor patterns: the
/// entries of `catalogue_entry`, in order.
pub fn component_metadata_registry() -> (registry: Vec<ComponentMetadata>)
    ensures
        registry@.len() == 55,
        forall|k: int|
            0 <= k < 55 ==> component_record(#[trigger] registry@[k]) == catalogue_entry(
                k as usize,
            ),
{
    vec![
        ComponentMetadata::new("Label", "label", ComponentCategory::Display, ComponentConformanceStatus::Implemented)
            .with_evidence(implemented_taxonomy_evidence()),
        ComponentMetadata::new("Image", "image", ComponentCategory::Display, ComponentConformanceStatus::Implemented)
            .with_evidence(implemented_taxonomy_evidence()),
        ComponentMetadata::new("Separator", "separator", ComponentCategory::Display, ComponentConformanceStatus::Implemented)
            .with_evidence(implemented_taxonomy_evidence()),
        ComponentMetadata::new("Button", "button", ComponentCategory::Control, ComponentConformanceStatus::Implemented)
            .with_evidence(implemented_taxonomy_evidence()),
        ComponentMetadata::new("IconButton", "icon-button", ComponentCategory::Control, ComponentConformanceStatus::Implemented)
            .with_evidence(implemented_taxonomy_evidence()),
        ComponentMetadata::new("Checkbox", "checkbox", ComponentCategory::Input, ComponentConformanceStatus::Implemented)
            .with_evidence(implemented_taxonomy_evidence()),
        ComponentMetadata::new("RadioButton", "radio-button", ComponentCategory::Input, ComponentConformanceStatus::Implemented)
            .with_evidence(implemented_taxonomy_evidence()),
        ComponentMetadata::new("Toggle", "toggle", ComponentCategory::Input, ComponentConformanceStatus::Implemented)
            .with_evidence(implemented_taxonomy_evidence()),
        ComponentMetadata::new("Slider", "slider", ComponentCategory::Input, ComponentConformanceStatus::Implemented)
            .with_evidence(implemented_taxonomy_evidence()),
        ComponentMetadata::new("NumericInput", "numeric-input", ComponentCategory::Input, ComponentConformanceStatus::Implemented)
            .with_evidence(implemented_taxonomy_evidence()),
        ComponentMetadata::new("NumericScrubInput", "numeric-scrub-input", ComponentCategory::Input, ComponentConformanceStatus::Implemented)
            .with_evidence(implemented_taxonomy_evidence()),
        ComponentMetadata::new("TextField", "text-field", ComponentCategory::TextEditing, ComponentConformanceStatus::Implemented)
            .with_evidence(implemented_taxonomy_evidence()),
        ComponentMetadata::new("MultiLineTextField", "multi-line-text-field", ComponentCategory::TextEditing, ComponentConformanceStatus::Implemented)
            .with_evidence(implemented_taxonomy_evidence()),
        ComponentMetadata::new("SearchField", "search-field", ComponentCategory::TextEditing, ComponentConformanceStatus::Implemented)
            .with_evidence(implemented_taxonomy_evidence()),
        ComponentMetadata::new("List", "list", ComponentCategory::Collection, ComponentConformanceStatus::Partial)
            .with_evidence(partial_taxonomy_evidence()),
        ComponentMetadata::new("Grid", "grid", ComponentCategory::Collection, ComponentConformanceStatus::Partial)
            .with_evidence(partial_taxonomy_evidence()),
        ComponentMetadata::new("Table", "table", ComponentCategory::Collection, ComponentConformanceStatus::Partial)
            .with_evidence(partial_taxonomy_evidence()),
        ComponentMetadata::new("Tree", "tree", ComponentCategory::Collection, ComponentConformanceStatus::Partial)
            .with_evidence(partial_taxonomy_evidence()),
        ComponentMetadata::new("Outliner", "outliner", ComponentCategory::Collection, ComponentConformanceStatus::Partial)
            .with_stage(10)
            .with_evidence(stage_10_partial_evidence()),
        ComponentMetadata::new("AssetBrowser", "asset-browser", ComponentCategory::Collection, ComponentConformanceStatus::Partial)
            .with_stage(10)
            .with_evidence(stage_10_partial_evidence()),
        ComponentMetadata::new("PropertyGrid", "property-grid", ComponentCategory::Inspector, ComponentConformanceStatus::Partial)
            .with_evidence(partial_taxonomy_evidence()),
        ComponentMetadata::new("PropertyAffordanceControls", "property-affordance-controls", ComponentCategory::Inspector, ComponentConformanceStatus::Implemented)
            .with_evidence(implemented_taxonomy_evidence()),
        ComponentMetadata::new("Vector2Field", "vector-two-field", ComponentCategory::Inspector, ComponentConformanceStatus::Implemented)
            .with_evidence(implemented_taxonomy_evidence()),
        ComponentMetadata::new("Vector3Field", "vector-three-field", ComponentCategory::Inspector, ComponentConformanceStatus::Implemented)
            .with_evidence(implemented_taxonomy_evidence()),
        ComponentMetadata::new("Vector4Field", "vector-four-field", ComponentCategory::Inspector, ComponentConformanceStatus::Implemented)
            .with_evidence(implemented_taxonomy_evidence()),
        ComponentMetadata::new("ColorField", "color-field", ComponentCategory::Inspector, ComponentConformanceStatus::Implemented)
            .with_evidence(implemented_taxonomy_evidence()),
        ComponentMetadata::new("SelectField", "select-field", ComponentCategory::Inspector, ComponentConformanceStatus::Implemented)
            .with_evidence(implemented_taxonomy_evidence()),
        ComponentMetadata::new("AssetSlotField", "asset-slot-field", ComponentCategory::Inspector, ComponentConformanceStatus::Implemented)
            .with_evidence(implemented_taxonomy_evidence()),
        ComponentMetadata::new("PathField", "path-field", ComponentCategory::Inspector, ComponentConformanceStatus::Implemented)
            .with_evidence(implemented_taxonomy_evidence()),
        ComponentMetadata::new("Panel", "panel", ComponentCategory::Docking, ComponentConformanceStatus::Partial)
            .with_evidence(partial_taxonomy_evidence()),
        ComponentMetadata::new("Frame", "frame", ComponentCategory::Docking, ComponentConformanceStatus::Partial)
            .with_evidence(partial_taxonomy_evidence()),
        ComponentMetadata::new("Dock", "dock", ComponentCategory::Docking, ComponentConformanceStatus::Partial)
            .with_evidence(partial_taxonomy_evidence()),
        ComponentMetadata::new("Menu", "menu", ComponentCategory::Overlay, ComponentConformanceStatus::Partial)
            .with_evidence(partial_taxonomy_evidence()),
        ComponentMetadata::new("MenuItem", "menu-item", ComponentCategory::Overlay, ComponentConformanceStatus::Partial)
            .with_evidence(partial_taxonomy_evidence()),
        ComponentMetadata::new("ContextMenu", "context-menu", ComponentCategory::Overlay, ComponentConformanceStatus::Partial)
            .with_evidence(partial_taxonomy_evidence()),
        ComponentMetadata::new("Popover", "popover", ComponentCategory::Overlay, ComponentConformanceStatus::Partial)
            .with_evidence(partial_taxonomy_evidence()),
        ComponentMetadata::new("Tooltip", "tooltip", ComponentCategory::Overlay, ComponentConformanceStatus::Partial)
            .with_evidence(partial_taxonomy_evidence()),
        ComponentMetadata::new("CommandPalette", "command-palette", ComponentCategory::Overlay, ComponentConformanceStatus::Partial)
            .with_evidence(partial_taxonomy_evidence()),
        ComponentMetadata::new("Viewport", "viewport", ComponentCategory::Viewport, ComponentConformanceStatus::Partial)
            .with_stage(12)
            .with_evidence(s12_viewport_evidence()),
        ComponentMetadata::new("ViewportTools", "viewport-tools", ComponentCategory::Viewport, ComponentConformanceStatus::Partial)
            .with_stage(12)
            .with_evidence(s12_viewport_tools_evidence()),
        ComponentMetadata::new("ViewportActionRouting", "viewport-action-routing", ComponentCategory::Viewport, ComponentConformanceStatus::Partial)
            .with_stage(12)
            .with_evidence(s12_viewport_action_routing_evidence()),
        ComponentMetadata::new("NodeGraph", "node-graph", ComponentCategory::Viewport, ComponentConformanceStatus::Partial)
            .with_evidence(partial_taxonomy_evidence()),
        ComponentMetadata::new("Ruler", "ruler", ComponentCategory::Viewport, ComponentConformanceStatus::Partial)
            .with_stage(11)
            .with_evidence(stage_11_partial_evidence()),
        ComponentMetadata::new("Dropdown", "dropdown", ComponentCategory::Overlay, ComponentConformanceStatus::Partial)
            .with_evidence(partial_taxonomy_evidence()),
        ComponentMetadata::new("MenuBar", "menu-bar", ComponentCategory::Overlay, ComponentConformanceStatus::Partial)
            .with_evidence(partial_taxonomy_evidence()),
        ComponentMetadata::new("Tabs", "tabs", ComponentCategory::Docking, ComponentConformanceStatus::Partial)
            .with_evidence(partial_taxonomy_evidence()),
        ComponentMetadata::new("Toolbar", "toolbar", ComponentCategory::System, ComponentConformanceStatus::Partial)
            .with_evidence(partial_taxonomy_evidence()),
        ComponentMetadata::new("StatusBar", "status-bar", ComponentCategory::System, ComponentConformanceStatus::Partial)
            .with_stage(13)
            .with_evidence(stage_13_partial_evidence()),
        ComponentMetadata::new("Modal", "modal", ComponentCategory::Overlay, ComponentConformanceStatus::Partial)
            .with_evidence(partial_taxonomy_evidence()),
        ComponentMetadata::new("Timeline", "timeline", ComponentCategory::Viewport, ComponentConformanceStatus::Partial)
            .with_stage(11)
            .with_evidence(stage_11_partial_evidence()),
        ComponentMetadata::new("TransportControls", "transport-controls", ComponentCategory::Control, ComponentConformanceStatus::Partial)
            .with_stage(11)
            .with_evidence(stage_11_partial_evidence()),
        ComponentMetadata::new("ProgressIndicator", "progress-indicator", ComponentCategory::Display, ComponentConformanceStatus::Partial)
            .with_stage(13)
            .with_evidence(s13_progress_evidence()),
        ComponentMetadata::new("JobList", "job-list", ComponentCategory::System, ComponentConformanceStatus::Partial)
            .with_stage(13)
            .with_evidence(s13_job_list_evidence()),
        ComponentMetadata::new("DiagnosticStrip", "diagnostic-strip", ComponentCategory::System, ComponentConformanceStatus::Partial)
            .with_stage(13)
            .with_evidence(s13_diagnostic_strip_evidence()),
        ComponentMetadata::new("FeedbackStack", "feedback-stack", ComponentCategory::System, ComponentConformanceStatus::Partial)
            .with_stage(13)
            .with_evidence(s13_feedback_stack_evidence()),
    ]
}

/// Data-only registry of stable evidence descriptors: the entries of
/// `evidence_entry`, in order.
pub fn component_evidence_registry() -> (registry: Vec<ComponentEvidence>)
    ensures
        registry@.len() == 26,
        forall|k: int|
            0 <= k < 26 ==> evidence_record(#[trigger] registry@[k]) == evidence_entry(
                k as usize,
            ),
{
    vec![
        ComponentEvidence::new(
            "status.implemented-public-api",
            ComponentEvidenceCategory::Status,
            "Public widget behavior exists for common usage.",
        ),
        ComponentEvidence::new(
            "status.partial-public-contract",
            ComponentEvidenceCategory::Status,
            "Public models, helpers, or partial behavior exist, but the full component is incomplete.",
        ),
        ComponentEvidence::new(
            "stage.10-outliner-asset-browser",
            ComponentEvidenceCategory::Stage,
            "Restarted editor-toolkit Stage 10 outliner and asset browser catalogue coverage.",
        ),
        ComponentEvidence::new(
            "stage.11-timeline",
            ComponentEvidenceCategory::Stage,
            "Restarted editor-toolkit Stage 11 timeline catalogue coverage.",
        ),
        ComponentEvidence::new(
            "stage.12-viewport-tools",
            ComponentEvidenceCategory::Stage,
            "Restarted editor-toolkit Stage 12 viewport tools catalogue coverage.",
        ),
        ComponentEvidence::new(
            "stage.13-jobs-diagnostics",
            ComponentEvidenceCategory::Stage,
            "Restarted editor-toolkit Stage 13 jobs and diagnostics catalogue coverage.",
        ),
        ComponentEvidence::new(
            "conformance.component-taxonomy",
            ComponentEvidenceCategory::Conformance,
            "Covered by the component taxonomy conformance test matrix.",
        ),
        ComponentEvidence::new(
            "conformance.outliner-contracts",
            ComponentEvidenceCategory::Conformance,
            "Covered by public outliner data contracts and deterministic outliner conformance tests.",
        ),
        ComponentEvidence::new(
            "conformance.asset-browser-contracts",
            ComponentEvidenceCategory::Conformance,
            "Covered by public asset browser data contracts and deterministic asset browser conformance tests.",
        ),
        ComponentEvidence::new(
            "conformance.inline-edit-contracts",
            ComponentEvidenceCategory::Conformance,
            "Covered by public inline edit session contracts and deterministic rename conformance tests.",
        ),
        ComponentEvidence::new(
            "conformance.collection-drag-context-contracts",
            ComponentEvidenceCategory::Conformance,
            "Covered by public collection drag/drop/context contracts and deterministic conformance tests.",
        ),
        ComponentEvidence::new(
            "conformance.collection-projection-contracts",
            ComponentEvidenceCategory::Conformance,
            "Covered by public collection projection, filter, sort, and selection preservation contracts.",
        ),
        ComponentEvidence::new(
            "conformance.timeline-contracts",
            ComponentEvidenceCategory::Conformance,
            "Covered by public timeline layout, coordinate, selection, and semantic contracts.",
        ),
        ComponentEvidence::new(
            "conformance.timeline-ruler-contracts",
            ComponentEvidenceCategory::Conformance,
            "Covered by public timeline ruler tick and timecode contracts.",
        ),
        ComponentEvidence::new(
            "conformance.timeline-transport-contracts",
            ComponentEvidenceCategory::Conformance,
            "Covered by public timeline transport action and semantic contracts.",
        ),
        ComponentEvidence::new(
            "conformance.timeline-snapping-contracts",
            ComponentEvidenceCategory::Conformance,
            "Covered by public timeline snap candidate and snap resolution contracts.",
        ),
        ComponentEvidence::new(
            "conformance.timeline-preservation-contracts",
            ComponentEvidenceCategory::Conformance,
            "Covered by public timeline viewport state and selection preservation contracts.",
        ),
        ComponentEvidence::new(
            "conformance.viewport-surface-contracts",
            ComponentEvidenceCategory::Conformance,
            "Covered by public viewport surface, pan/zoom, overlay descriptor, and hit-test contracts.",
        ),
        ComponentEvidence::new(
            "conformance.viewport-tool-contracts",
            ComponentEvidenceCategory::Conformance,
            "Covered by public viewport tool, transform handle, and drag request contracts.",
        ),
        ComponentEvidence::new(
            "conformance.viewport-action-routing-contracts",
            ComponentEvidenceCategory::Conformance,
            "Covered by public viewport action request, action semantic, and cursor routing contracts.",
        ),
        ComponentEvidence::new(
            "conformance.viewport-overlay-contracts",
            ComponentEvidenceCategory::Conformance,
            "Covered by public viewport guide, ruler, safe-area, and HUD descriptor contracts.",
        ),
        ComponentEvidence::new(
            "conformance.progress-indicator-contracts",
            ComponentEvidenceCategory::Conformance,
            "Covered by public status and job progress metadata contracts.",
        ),
        ComponentEvidence::new(
            "conformance.job-list-contracts",
            ComponentEvidenceCategory::Conformance,
            "Covered by public job row, progress, cancel, and summary metadata contracts.",
        ),
        ComponentEvidence::new(
            "conformance.diagnostic-strip-contracts",
            ComponentEvidenceCategory::Conformance,
            "Covered by public diagnostic strip item, field, severity, source, and ordering contracts.",
        ),
        ComponentEvidence::new(
            "conformance.feedback-stack-contracts",
            ComponentEvidenceCategory::Conformance,
            "Covered by public feedback lifetime, action, dismissal, ordering, and repaint contracts.",
        ),
        ComponentEvidence::new(
            "showcase.metadata-only",
            ComponentEvidenceCategory::Showcase,
            "Tracked by taxonomy metadata only; no interactive showcase behavior is claimed.",
        ),
    ]
}
} // verus!
