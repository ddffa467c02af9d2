use kinetik_ui_widgets::inspector::{
    PropertyGridError, PropertyGridKeyframeAffordance, PropertyGridResetAffordance,
    PropertyGridRow, PropertyGridRowAffordances, PropertyGridRowKind, PropertyGridRowState,
    PropertyGridRowStatus, PropertyGridStatusSeverity, validate_property_grid_rows,
};
use kinetik_ui_widgets::ItemId;

#[test]
fn inspector_property_grid_validates_duplicate_row_ids() {
    let rows = vec![
        PropertyGridRow::property(ItemId::from_raw(1), "A", 0)
            .with_status(PropertyGridRowStatus::warning("Check value")),
        PropertyGridRow::property(ItemId::from_raw(1), "B", 0)
            .with_disabled(true)
            .with_required(true),
    ];

    assert_eq!(
        validate_property_grid_rows(&rows),
        Err(PropertyGridError::DuplicateRowId {
            id: ItemId::from_raw(1)
        })
    );
}

#[test]
fn inspector_property_grid_row_metadata_defaults_to_neutral_state() {
    let section = PropertyGridRow::section(ItemId::from_raw(1), "Transform");
    let property = PropertyGridRow::property(ItemId::from_raw(2), "Position", 0);

    assert_eq!(section.state, PropertyGridRowState::neutral());
    assert_eq!(property.state, PropertyGridRowState::neutral());
    assert!(!section.is_interactable());
    assert!(!section.is_editable());
    assert!(property.is_interactable());
    assert!(property.is_editable());
    assert!(!property.has_blocking_error());
}

#[test]
fn inspector_property_grid_row_builder_attaches_state_metadata() {
    let row = PropertyGridRow::property(ItemId::from_raw(1), "Exposure", 0)
        .with_disabled(true)
        .with_read_only(true)
        .with_required(true)
        .with_help_text("Use scene-referred values")
        .with_status(PropertyGridRowStatus::warning(
            "Value is above preview range",
        ));

    assert!(row.state.disabled);
    assert!(row.state.read_only);
    assert!(row.state.required);
    assert_eq!(
        row.state.help_text.as_deref(),
        Some("Use scene-referred values")
    );
    assert_eq!(
        row.state.status.severity,
        PropertyGridStatusSeverity::Warning
    );
    assert_eq!(
        row.state.status.message.as_deref(),
        Some("Value is above preview range")
    );
    assert!(!row.is_interactable());
    assert!(!row.is_editable());
    assert!(!row.has_blocking_error());
}

#[test]
fn inspector_property_grid_row_helpers_reflect_editability_and_error_state() {
    let read_only =
        PropertyGridRow::property(ItemId::from_raw(1), "Script", 0).with_read_only(true);
    let disabled =
        PropertyGridRow::property(ItemId::from_raw(2), "Collider", 0).with_disabled(true);
    let error = PropertyGridRow::property(ItemId::from_raw(3), "Mass", 0)
        .with_status(PropertyGridRowStatus::error("Mass must be positive"));
    let info = PropertyGridRow::property(ItemId::from_raw(4), "Material", 0)
        .with_status(PropertyGridRowStatus::info("Inherited from parent"));

    assert!(read_only.is_interactable());
    assert!(!read_only.is_editable());
    assert!(!read_only.has_blocking_error());
    assert!(!disabled.is_interactable());
    assert!(!disabled.is_editable());
    assert!(error.is_interactable());
    assert!(error.is_editable());
    assert!(error.has_blocking_error());
    assert!(!info.has_blocking_error());
}

#[test]
fn tests_property_grid_validates_duplicate_row_ids() {
    let rows = vec![
        PropertyGridRow::property(ItemId::from_raw(1), "A", 0)
            .with_status(PropertyGridRowStatus::warning("Check value")),
        PropertyGridRow::property(ItemId::from_raw(1), "B", 0)
            .with_disabled(true)
            .with_required(true),
    ];

    assert_eq!(
        validate_property_grid_rows(&rows),
        Err(PropertyGridError::DuplicateRowId {
            id: ItemId::from_raw(1)
        })
    );
}

#[test]
fn tests_property_grid_row_metadata_defaults_to_neutral_state() {
    let section = PropertyGridRow::section(ItemId::from_raw(1), "Transform");
    let property = PropertyGridRow::property(ItemId::from_raw(2), "Position", 0);

    assert_eq!(section.state, PropertyGridRowState::neutral());
    assert_eq!(property.state, PropertyGridRowState::neutral());
    assert!(!section.is_interactable());
    assert!(!section.is_editable());
    assert!(property.is_interactable());
    assert!(property.is_editable());
    assert!(!property.has_blocking_error());
    assert_eq!(
        property.state.affordances,
        PropertyGridRowAffordances::neutral()
    );
    assert!(!property.can_request_reset());
    assert!(!property.can_request_keyframe_toggle());
}

#[test]
fn tests_property_grid_row_builder_attaches_state_metadata() {
    let row = PropertyGridRow::property(ItemId::from_raw(1), "Exposure", 0)
        .with_disabled(true)
        .with_read_only(true)
        .with_required(true)
        .with_help_text("Use scene-referred values")
        .with_status(PropertyGridRowStatus::warning(
            "Value is above preview range",
        ))
        .with_resettable(true, false)
        .with_keyframeable(true, true);

    assert!(row.state.disabled);
    assert!(row.state.read_only);
    assert!(row.state.required);
    assert_eq!(
        row.state.help_text.as_deref(),
        Some("Use scene-referred values")
    );
    assert_eq!(
        row.state.status.severity,
        PropertyGridStatusSeverity::Warning
    );
    assert_eq!(
        row.state.status.message.as_deref(),
        Some("Value is above preview range")
    );
    assert_eq!(
        row.state.affordances,
        PropertyGridRowAffordances::neutral()
            .with_reset(true, false)
            .with_keyframe(true, true)
    );
    assert!(!row.is_interactable());
    assert!(!row.is_editable());
    assert!(!row.has_blocking_error());
    assert!(!row.can_request_reset());
    assert!(!row.can_request_keyframe_toggle());
}

#[test]
fn tests_property_grid_row_helpers_reflect_editability_and_error_state() {
    let read_only =
        PropertyGridRow::property(ItemId::from_raw(1), "Script", 0).with_read_only(true);
    let disabled =
        PropertyGridRow::property(ItemId::from_raw(2), "Collider", 0).with_disabled(true);
    let error = PropertyGridRow::property(ItemId::from_raw(3), "Mass", 0)
        .with_status(PropertyGridRowStatus::error("Mass must be positive"));
    let info = PropertyGridRow::property(ItemId::from_raw(4), "Material", 0)
        .with_status(PropertyGridRowStatus::info("Inherited from parent"));

    assert!(read_only.is_interactable());
    assert!(!read_only.is_editable());
    assert!(!read_only.has_blocking_error());
    assert!(!disabled.is_interactable());
    assert!(!disabled.is_editable());
    assert!(error.is_interactable());
    assert!(error.is_editable());
    assert!(error.has_blocking_error());
    assert!(!info.has_blocking_error());
}

#[test]
fn property_grid_status_presentation_is_deterministic() {
    assert_eq!(
        PropertyGridStatusSeverity::Unset.presentation().label,
        "None"
    );
    assert!(!PropertyGridStatusSeverity::Unset.presentation().accented);
    assert_eq!(
        PropertyGridStatusSeverity::Info.presentation().label,
        "Info"
    );
    assert!(PropertyGridStatusSeverity::Warning.presentation().accented);
    assert!(!PropertyGridStatusSeverity::Warning.presentation().blocking);
    assert!(PropertyGridStatusSeverity::Error.presentation().blocking);
    assert_eq!(
        PropertyGridRowStatus::error("Invalid").presentation(),
        PropertyGridStatusSeverity::Error.presentation()
    );
}

#[test]
fn distinct_row_ids_validate() {
    let rows = vec![
        PropertyGridRow::section(ItemId::from_raw(1), "Transform"),
        PropertyGridRow::property(ItemId::from_raw(2), "Position", 0),
        PropertyGridRow::property(ItemId::from_raw(3), "X", 1),
    ];
    assert_eq!(validate_property_grid_rows(&rows), Ok(()));
    assert_eq!(validate_property_grid_rows(&[]), Ok(()));
}

#[test]
fn first_repeated_row_id_is_reported() {
    let rows = vec![
        PropertyGridRow::property(ItemId::from_raw(5), "A", 0),
        PropertyGridRow::property(ItemId::from_raw(7), "B", 0),
        PropertyGridRow::property(ItemId::from_raw(7), "C", 0),
        PropertyGridRow::property(ItemId::from_raw(5), "D", 0),
    ];
    assert_eq!(
        validate_property_grid_rows(&rows),
        Err(PropertyGridError::DuplicateRowId {
            id: ItemId::from_raw(7)
        })
    );
}

#[test]
fn reset_and_keyframe_requests_need_an_editable_property() {
    let row = PropertyGridRow::property(ItemId::from_raw(1), "Opacity", 0)
        .with_resettable(true, false)
        .with_keyframeable(true, false);
    assert!(row.can_request_reset());
    assert!(row.can_request_keyframe_toggle());

    let at_default = row.clone().with_resettable(true, true);
    assert!(!at_default.can_request_reset());

    let read_only = row.clone().with_read_only(true);
    assert!(!read_only.can_request_reset());
    assert!(!read_only.can_request_keyframe_toggle());

    let section = PropertyGridRow::section(ItemId::from_raw(2), "Group")
        .with_resettable(true, false)
        .with_keyframeable(true, false);
    assert!(!section.can_request_reset());
    assert!(!section.can_request_keyframe_toggle());
}

#[test]
fn row_kinds_and_status_builders_carry_their_values() {
    let property = PropertyGridRow::property(ItemId::from_raw(9), "Depth", 3);
    assert_eq!(property.kind, PropertyGridRowKind::Property { depth: 3 });
    assert_eq!(property.label, "Depth");
    let section = PropertyGridRow::section(ItemId::from_raw(8), "Head");
    assert_eq!(section.kind, PropertyGridRowKind::Section);

    let status = PropertyGridRowStatus::severity(PropertyGridStatusSeverity::Info)
        .with_message("note");
    assert_eq!(status.severity, PropertyGridStatusSeverity::Info);
    assert_eq!(status.message.as_deref(), Some("note"));
    assert!(!status.is_blocking_error());
    assert!(PropertyGridRowStatus::error("bad").is_blocking_error());
    assert_eq!(
        PropertyGridRowStatus::default().severity,
        PropertyGridStatusSeverity::Unset
    );
    assert_eq!(
        PropertyGridStatusSeverity::Warning.presentation().label,
        "Warning"
    );
    assert_eq!(
        PropertyGridStatusSeverity::Error.presentation().label,
        "Error"
    );

    assert_eq!(
        PropertyGridResetAffordance::new(true, false),
        PropertyGridResetAffordance {
            available: true,
            at_default: false
        }
    );
    assert_eq!(
        PropertyGridKeyframeAffordance::new(true, true),
        PropertyGridKeyframeAffordance {
            available: true,
            keyed: true
        }
    );
    let state = PropertyGridRowState::neutral().with_status(PropertyGridRowStatus::error("x"));
    assert!(state.has_blocking_error());
}
