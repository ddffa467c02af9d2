//! Inspector and property-grid row metadata.

use vstd::prelude::*;

use crate::collections::{ItemId, lemma_item_id_view_injective};

verus! {

/// Property-grid row kind.
#[derive(Debug, Clone, Copy, PartialEq, Eq, Structural)]
pub enum PropertyGridRowKind {
    /// Section heading row.
    Section,
    /// Editable property row.
    Property {
        /// Nesting depth for grouped properties.
        depth: usize,
    },
}

/// Validation or help status severity for a property-grid row.
#[derive(Debug, Clone, Copy, PartialEq, Eq, Structural)]
pub enum PropertyGridStatusSeverity {
    /// No status is attached to the row.
    Unset,
    /// Informational row status.
    Info,
    /// Non-blocking warning row status.
    Warning,
    /// Blocking error row status.
    Error,
}

impl Default for PropertyGridStatusSeverity {
    fn default() -> (severity: Self)
        ensures
            severity == PropertyGridStatusSeverity::Unset,
    {
        PropertyGridStatusSeverity::Unset
    }
}

/// Deterministic presentation of a status severity.
#[derive(Debug, Clone, Copy, PartialEq, Eq)]
pub struct PropertyGridStatusPresentation {
    /// Stable display label.
    pub label: &'static str,
    /// Whether the status draws attention.
    pub accented: bool,
    /// Whether the status blocks committing the row.
    pub blocking: bool,
}

impl PropertyGridStatusSeverity {
    /// Stable display label of the severity.
    pub open spec fn label_text(self) -> Seq<char> {
        match self {
            PropertyGridStatusSeverity::Unset => seq!['N', 'o', 'n', 'e'],
            PropertyGridStatusSeverity::Info => seq!['I', 'n', 'f', 'o'],
            PropertyGridStatusSeverity::Warning => seq!['W', 'a', 'r', 'n', 'i', 'n', 'g'],
            PropertyGridStatusSeverity::Error => seq!['E', 'r', 'r', 'o', 'r'],
        }
    }

    /// Returns the deterministic presentation of this severity: its label,
    /// accented unless it is `Unset`, blocking only when it is `Error`.
    pub fn presentation(self) -> (presentation: PropertyGridStatusPresentation)
        ensures
            presentation.label@ == self.label_text(),
            presentation.accented == (self != PropertyGridStatusSeverity::Unset),
            presentation.blocking == (self == PropertyGridStatusSeverity::Error),
    {
        match self {
            PropertyGridStatusSeverity::Unset => {
                proof {
                    reveal_strlit("None");
                }
                PropertyGridStatusPresentation { label: "None", accented: false, blocking: false }
            },
            PropertyGridStatusSeverity::Info => {
                proof {
                    reveal_strlit("Info");
                }
                PropertyGridStatusPresentation { label: "Info", accented: true, blocking: false }
            },
            PropertyGridStatusSeverity::Warning => {
                proof {
                    reveal_strlit("Warning");
                }
                PropertyGridStatusPresentation { label: "Warning", accented: true, blocking: false }
            },
            PropertyGridStatusSeverity::Error => {
                proof {
                    reveal_strlit("Error");
                }
                PropertyGridStatusPresentation { label: "Error", accented: true, blocking: true }
            },
        }
    }
}

/// Data-only validation or help status for a property-grid row.
#[derive(Debug, Clone, PartialEq, Eq)]
pub struct PropertyGridRowStatus {
    /// Status severity.
    pub severity: PropertyGridStatusSeverity,
    /// Optional status message owned by the application.
    pub message: Option<String>,
}

impl Default for PropertyGridRowStatus {
    fn default() -> (status: Self)
        ensures
            status.severity == PropertyGridStatusSeverity::Unset,
            status.message is None,
    {
        PropertyGridRowStatus::severity(PropertyGridStatusSeverity::Unset)
    }
}

impl PropertyGridRowStatus {
    /// Creates a row status with the given severity and no message.
    pub fn severity(severity: PropertyGridStatusSeverity) -> (status: Self)
        ensures
            status.severity == severity,
            status.message is None,
    {
        PropertyGridRowStatus { severity, message: None }
    }

    /// Creates an informational row status.
    pub fn info(message: &str) -> (status: Self)
        ensures
            status.severity == PropertyGridStatusSeverity::Info,
            status.message matches Some(m) && m@ == message@,
    {
        Self::severity(PropertyGridStatusSeverity::Info).with_message(message)
    }

    /// Creates a warning row status.
    pub fn warning(message: &str) -> (status: Self)
        ensures
            status.severity == PropertyGridStatusSeverity::Warning,
            status.message matches Some(m) && m@ == message@,
    {
        Self::severity(PropertyGridStatusSeverity::Warning).with_message(message)
    }

    /// Creates an error row status.
    pub fn error(message: &str) -> (status: Self)
        ensures
            status.severity == PropertyGridStatusSeverity::Error,
            status.message matches Some(m) && m@ == message@,
    {
        Self::severity(PropertyGridStatusSeverity::Error).with_message(message)
    }

    /// Returns this status with an attached message.
    pub fn with_message(self, message: &str) -> (status: Self)
        ensures
            status.severity == self.severity,
            status.message matches Some(m) && m@ == message@,
    {
        PropertyGridRowStatus { message: Some(message.to_owned()), ..self }
    }

    /// Returns true when this status represents a blocking error.
    pub fn is_blocking_error(&self) -> (blocking: bool)
        ensures
            blocking == (self.severity == PropertyGridStatusSeverity::Error),
    {
        match self.severity {
            PropertyGridStatusSeverity::Error => true,
            _ => false,
        }
    }

    /// Returns the deterministic presentation of this status's severity.
    pub fn presentation(&self) -> (presentation: PropertyGridStatusPresentation)
        ensures
            presentation.label@ == self.severity.label_text(),
            presentation.accented == (self.severity != PropertyGridStatusSeverity::Unset),
            presentation.blocking == (self.severity == PropertyGridStatusSeverity::Error),
    {
        self.severity.presentation()
    }
}

/// Reset-to-default affordance metadata for a property-grid row.
#[derive(Debug, Clone, Copy, PartialEq, Eq, Structural)]
pub struct PropertyGridResetAffordance {
    /// True when a reset control should be presented.
    pub available: bool,
    /// True when the current value already matches the application-owned default.
    pub at_default: bool,
}

impl PropertyGridResetAffordance {
    /// Creates reset affordance metadata.
    pub fn new(available: bool, at_default: bool) -> (affordance: Self)
        ensures
            affordance.available == available,
            affordance.at_default == at_default,
    {
        PropertyGridResetAffordance { available, at_default }
    }
}

impl Default for PropertyGridResetAffordance {
    fn default() -> (affordance: Self)
        ensures
            !affordance.available,
            !affordance.at_default,
    {
        PropertyGridResetAffordance::new(false, false)
    }
}

/// Keyframe affordance metadata for a property-grid row.
#[derive(Debug, Clone, Copy, PartialEq, Eq, Structural)]
pub struct PropertyGridKeyframeAffordance {
    /// True when a keyframe control should be presented.
    pub available: bool,
    /// True when the current property is keyed at the current application time.
    pub keyed: bool,
}

impl PropertyGridKeyframeAffordance {
    /// Creates keyframe affordance metadata.
    pub fn new(available: bool, keyed: bool) -> (affordance: Self)
        ensures
            affordance.available == available,
            affordance.keyed == keyed,
    {
        PropertyGridKeyframeAffordance { available, keyed }
    }
}

impl Default for PropertyGridKeyframeAffordance {
    fn default() -> (affordance: Self)
        ensures
            !affordance.available,
            !affordance.keyed,
    {
        PropertyGridKeyframeAffordance::new(false, false)
    }
}

/// App-owned property affordance metadata attached to a property-grid row.
#[derive(Debug, Clone, Copy, PartialEq, Eq, Structural)]
pub struct PropertyGridRowAffordances {
    /// Reset-to-default control metadata.
    pub reset: PropertyGridResetAffordance,
    /// Keyframe toggle control metadata.
    pub keyframe: PropertyGridKeyframeAffordance,
}

impl PropertyGridRowAffordances {
    /// Creates neutral affordance metadata: no control is available.
    pub fn neutral() -> (affordances: Self)
        ensures
            affordances == (PropertyGridRowAffordances {
                reset: PropertyGridResetAffordance { available: false, at_default: false },
                keyframe: PropertyGridKeyframeAffordance { available: false, keyed: false },
            }),
    {
        PropertyGridRowAffordances {
            reset: PropertyGridResetAffordance::new(false, false),
            keyframe: PropertyGridKeyframeAffordance::new(false, false),
        }
    }

    /// Returns this metadata with reset-to-default state set.
    pub fn with_reset(self, available: bool, at_default: bool) -> (affordances: Self)
        ensures
            affordances == (PropertyGridRowAffordances {
                reset: PropertyGridResetAffordance { available, at_default },
                ..self
            }),
    {
        PropertyGridRowAffordances {
            reset: PropertyGridResetAffordance::new(available, at_default),
            ..self
        }
    }

    /// Returns this metadata with keyframe state set.
    pub fn with_keyframe(self, available: bool, keyed: bool) -> (affordances: Self)
        ensures
            affordances == (PropertyGridRowAffordances {
                keyframe: PropertyGridKeyframeAffordance { available, keyed },
                ..self
            }),
    {
        PropertyGridRowAffordances {
            keyframe: PropertyGridKeyframeAffordance::new(available, keyed),
            ..self
        }
    }
}

impl Default for PropertyGridRowAffordances {
    fn default() -> (affordances: Self)
        ensures
            affordances == PropertyGridRowAffordances::neutral_spec(),
    {
        PropertyGridRowAffordances::neutral()
    }
}

impl PropertyGridRowAffordances {
    /// Neutral affordance metadata.
    pub open spec fn neutral_spec() -> PropertyGridRowAffordances {
        PropertyGridRowAffordances {
            reset: PropertyGridResetAffordance { available: false, at_default: false },
            keyframe: PropertyGridKeyframeAffordance { available: false, keyed: false },
        }
    }
}

/// Data-only form state metadata for a property-grid row.
#[derive(Debug, Clone, PartialEq, Eq)]
pub struct PropertyGridRowState {
    /// True when the row should not accept interaction.
    pub disabled: bool,
    /// True when the row value should be presented as non-editable.
    pub read_only: bool,
    /// True when the row represents a required property.
    pub required: bool,
    /// Optional help text owned by the application.
    pub help_text: Option<String>,
    /// Optional validation or help status owned by the application.
    pub status: PropertyGridRowStatus,
    /// Optional reset/keyframe affordance metadata owned by the application.
    pub affordances: PropertyGridRowAffordances,
}

/// The state is neutral: no flag, no help text, no status, no affordance.
pub open spec fn is_neutral_state(state: PropertyGridRowState) -> bool {
    &&& !state.disabled
    &&& !state.read_only
    &&& !state.required
    &&& state.help_text is None
    &&& state.status.severity == PropertyGridStatusSeverity::Unset
    &&& state.status.message is None
    &&& state.affordances == PropertyGridRowAffordances::neutral_spec()
}

impl Default for PropertyGridRowState {
    fn default() -> (state: Self)
        ensures
            is_neutral_state(state),
    {
        PropertyGridRowState::neutral()
    }
}

impl PropertyGridRowState {
    /// Creates neutral row state metadata.
    pub fn neutral() -> (state: Self)
        ensures
            is_neutral_state(state),
    {
        PropertyGridRowState {
            disabled: false,
            read_only: false,
            required: false,
            help_text: None,
            status: PropertyGridRowStatus::severity(PropertyGridStatusSeverity::Unset),
            affordances: PropertyGridRowAffordances::neutral(),
        }
    }

    /// Returns this metadata with disabled state set.
    pub fn with_disabled(self, disabled: bool) -> (state: Self)
        ensures
            state == (PropertyGridRowState { disabled, ..self }),
    {
        PropertyGridRowState { disabled, ..self }
    }

    /// Returns this metadata with read-only state set.
    pub fn with_read_only(self, read_only: bool) -> (state: Self)
        ensures
            state == (PropertyGridRowState { read_only, ..self }),
    {
        PropertyGridRowState { read_only, ..self }
    }

    /// Returns this metadata with required state set.
    pub fn with_required(self, required: bool) -> (state: Self)
        ensures
            state == (PropertyGridRowState { required, ..self }),
    {
        PropertyGridRowState { required, ..self }
    }

    /// Returns this metadata with help text attached.
    pub fn with_help_text(self, help_text: &str) -> (state: Self)
        ensures
            state.help_text matches Some(text) && text@ == help_text@,
            state == (PropertyGridRowState { help_text: state.help_text, ..self }),
    {
        PropertyGridRowState { help_text: Some(help_text.to_owned()), ..self }
    }

    /// Returns this metadata with status attached.
    pub fn with_status(self, status: PropertyGridRowStatus) -> (state: Self)
        ensures
            state == (PropertyGridRowState { status, ..self }),
    {
        PropertyGridRowState { status, ..self }
    }

    /// Returns this metadata with reset-to-default affordance state set.
    pub fn with_resettable(self, available: bool, at_default: bool) -> (state: Self)
        ensures
            state == (PropertyGridRowState {
                affordances: PropertyGridRowAffordances {
                    reset: PropertyGridResetAffordance { available, at_default },
                    ..self.affordances
                },
                ..self
            }),
    {
        let affordances = self.affordances.with_reset(available, at_default);
        PropertyGridRowState { affordances, ..self }
    }

    /// Returns this metadata with keyframe affordance state set.
    pub fn with_keyframeable(self, available: bool, keyed: bool) -> (state: Self)
        ensures
            state == (PropertyGridRowState {
                affordances: PropertyGridRowAffordances {
                    keyframe: PropertyGridKeyframeAffordance { available, keyed },
                    ..self.affordances
                },
                ..self
            }),
    {
        let affordances = self.affordances.with_keyframe(available, keyed);
        PropertyGridRowState { affordances, ..self }
    }

    /// Returns true when this metadata carries a blocking error status.
    pub fn has_blocking_error(&self) -> (blocking: bool)
        ensures
            blocking == (self.status.severity == PropertyGridStatusSeverity::Error),
    {
        self.status.is_blocking_error()
    }
}

/// One property-grid row.
#[derive(Debug, Clone, PartialEq, Eq)]
pub struct PropertyGridRow {
    /// Stable row identity.
    pub id: ItemId,
    /// User-visible row label.
    pub label: String,
    /// Row kind.
    pub kind: PropertyGridRowKind,
    /// Data-only row state metadata.
    pub state: PropertyGridRowState,
}

impl PropertyGridRow {
    /// Creates a section heading row with neutral state.
    pub fn section(id: ItemId, label: &str) -> (row: Self)
        ensures
            row.id == id,
            row.label@ == label@,
            row.kind == PropertyGridRowKind::Section,
            is_neutral_state(row.state),
    {
        PropertyGridRow {
            id,
            label: label.to_owned(),
            kind: PropertyGridRowKind::Section,
            state: PropertyGridRowState::neutral(),
        }
    }

    /// Creates an editable property row with neutral state.
    pub fn property(id: ItemId, label: &str, depth: usize) -> (row: Self)
        ensures
            row.id == id,
            row.label@ == label@,
            row.kind == (PropertyGridRowKind::Property { depth }),
            is_neutral_state(row.state),
    {
        PropertyGridRow {
            id,
            label: label.to_owned(),
            kind: PropertyGridRowKind::Property { depth },
            state: PropertyGridRowState::neutral(),
        }
    }

    /// Returns this row with state metadata attached.
    pub fn with_state(self, state: PropertyGridRowState) -> (row: Self)
        ensures
            row == (PropertyGridRow { state, ..self }),
    {
        PropertyGridRow { state, ..self }
    }

    /// Returns this row with disabled state set.
    pub fn with_disabled(self, disabled: bool) -> (row: Self)
        ensures
            row == (PropertyGridRow { state: PropertyGridRowState { disabled, ..self.state }, ..self }),
    {
        let state = self.state.with_disabled(disabled);
        PropertyGridRow { state, ..self }
    }

    /// Returns this row with read-only state set.
    pub fn with_read_only(self, read_only: bool) -> (row: Self)
        ensures
            row == (PropertyGridRow { state: PropertyGridRowState { read_only, ..self.state }, ..self }),
    {
        let state = self.state.with_read_only(read_only);
        PropertyGridRow { state, ..self }
    }

    /// Returns this row with required state set.
    pub fn with_required(self, required: bool) -> (row: Self)
        ensures
            row == (PropertyGridRow { state: PropertyGridRowState { required, ..self.state }, ..self }),
    {
        let state = self.state.with_required(required);
        PropertyGridRow { state, ..self }
    }

    /// Returns this row with help text attached.
    pub fn with_help_text(self, help_text: &str) -> (row: Self)
        ensures
            row.state.help_text matches Some(text) && text@ == help_text@,
            row == (PropertyGridRow {
                state: PropertyGridRowState { help_text: row.state.help_text, ..self.state },
                ..self
            }),
    {
        let state = self.state.with_help_text(help_text);
        PropertyGridRow { state, ..self }
    }

    /// Returns this row with status attached.
    pub fn with_status(self, status: PropertyGridRowStatus) -> (row: Self)
        ensures
            row == (PropertyGridRow { state: PropertyGridRowState { status, ..self.state }, ..self }),
    {
        let state = self.state.with_status(status);
        PropertyGridRow { state, ..self }
    }

    /// Returns this row with reset-to-default affordance state set.
    pub fn with_resettable(self, available: bool, at_default: bool) -> (row: Self)
        ensures
            row.state.affordances.reset == (PropertyGridResetAffordance { available, at_default }),
            row == (PropertyGridRow {
                state: PropertyGridRowState { affordances: row.state.affordances, ..self.state },
                ..self
            }),
            row.state.affordances.keyframe == self.state.affordances.keyframe,
    {
        let state = self.state.with_resettable(available, at_default);
        PropertyGridRow { state, ..self }
    }

    /// Returns this row with keyframe affordance state set.
    pub fn with_keyframeable(self, available: bool, keyed: bool) -> (row: Self)
        ensures
            row.state.affordances.keyframe == (PropertyGridKeyframeAffordance { available, keyed }),
            row == (PropertyGridRow {
                state: PropertyGridRowState { affordances: row.state.affordances, ..self.state },
                ..self
            }),
            row.state.affordances.reset == self.state.affordances.reset,
    {
        let state = self.state.with_keyframeable(available, keyed);
        PropertyGridRow { state, ..self }
    }

    /// Returns true when this row can accept interaction: it is an enabled property row.
    pub fn is_interactable(&self) -> (interactable: bool)
        ensures
            interactable == (self.kind is Property && !self.state.disabled),
    {
        match self.kind {
            PropertyGridRowKind::Property { .. } => !self.state.disabled,
            PropertyGridRowKind::Section => false,
        }
    }

    /// Returns true when this row represents an editable property value.
    pub fn is_editable(&self) -> (editable: bool)
        ensures
            editable == (self.kind is Property && !self.state.disabled && !self.state.read_only),
    {
        self.is_interactable() && !self.state.read_only
    }

    /// Returns true when this row carries a blocking error status.
    pub fn has_blocking_error(&self) -> (blocking: bool)
        ensures
            blocking == (self.state.status.severity == PropertyGridStatusSeverity::Error),
    {
        self.state.has_blocking_error()
    }

    /// Returns true when this row can emit a reset-to-default request: an
    /// editable property row whose reset control is available and whose value
    /// is not at its default.
    pub fn can_request_reset(&self) -> (can_reset: bool)
        ensures
            can_reset == (self.kind is Property && !self.state.disabled && !self.state.read_only
                && self.state.affordances.reset.available
                && !self.state.affordances.reset.at_default),
    {
        self.is_editable() && self.state.affordances.reset.available
            && !self.state.affordances.reset.at_default
    }

    /// Returns true when this row can emit a keyframe toggle request: an
    /// editable property row whose keyframe control is available.
    pub fn can_request_keyframe_toggle(&self) -> (can_toggle: bool)
        ensures
            can_toggle == (self.kind is Property && !self.state.disabled && !self.state.read_only
                && self.state.affordances.keyframe.available),
    {
        self.is_editable() && self.state.affordances.keyframe.available
    }
}

/// Property-grid structural error.
#[derive(Debug, Clone, Copy, PartialEq, Eq, Structural)]
pub enum PropertyGridError {
    /// More than one row uses the same ID.
    DuplicateRowId {
        /// Duplicated row identity.
        id: ItemId,
    },
}

/// `position` is the first row that repeats the ID of an earlier row.
pub open spec fn is_first_repeat(rows: Seq<PropertyGridRow>, position: int) -> bool {
    &&& 0 <= position < rows.len()
    &&& exists|earlier: int| 0 <= earlier < position && rows[earlier].id == rows[position].id
    &&& forall|p: int, q: int| 0 <= p < q < position ==> rows[p].id != rows[q].id
}

/// Validates row identity invariants.
///
/// Returns the first row, in order, whose ID repeats an earlier row's ID.
pub fn validate_property_grid_rows(rows: &[PropertyGridRow]) -> (valid: Result<(), PropertyGridError>)
    ensures
        valid is Ok <==> forall|p: int, q: int| 0 <= p < q < rows@.len() ==> rows@[p].id != rows@[q].id,
        valid matches Err(PropertyGridError::DuplicateRowId { id }) ==> exists|position: int|
            is_first_repeat(rows@, position) && rows@[position].id == id,
{
    broadcast use lemma_item_id_view_injective;
    let n = rows.len();
    for i in 0..n
        invariant
            n == rows@.len(),
            forall|p: int, q: int| 0 <= p < q < i ==> rows@[p].id != rows@[q].id,
    {
        let id = rows[i].id;
        for j in 0..i
            invariant
                n == rows@.len(),
                i < n,
                id == rows@[i as int].id,
                forall|p: int, q: int| 0 <= p < q < i ==> rows@[p].id != rows@[q].id,
                forall|p: int| 0 <= p < j ==> rows@[p].id != id,
        {
            if rows[j].id == id {
                assert(is_first_repeat(rows@, i as int));
                return Err(PropertyGridError::DuplicateRowId { id });
            }
        }
    }
    Ok(())
}

} // verus!
