use std::collections::BTreeSet;

use kinetik_ui_widgets::taxonomy::{
    ComponentCategory, ComponentConformanceMatrixRow, ComponentConformanceStatus,
    ComponentEvidence, ComponentEvidenceCategory, ComponentMetadata, component_evidence_registry,
    component_metadata_registry,
};

fn component_evidence(id: &str) -> Option<ComponentEvidence> {
    component_evidence_registry()
        .into_iter()
        .find(|evidence| evidence.id == id)
}

#[test]
fn registry_contains_unique_component_names() {
    let mut names = BTreeSet::new();

    for metadata in component_metadata_registry() {
        assert!(names.insert(metadata.name), "duplicate {}", metadata.name);
    }
}

#[test]
fn registry_contains_unique_component_slugs() {
    let mut slugs = BTreeSet::new();

    for metadata in component_metadata_registry() {
        assert!(slugs.insert(metadata.slug), "duplicate {}", metadata.slug);
    }
}

#[test]
fn registry_contains_unique_component_evidence_ids() {
    let mut ids = BTreeSet::new();

    for evidence in component_evidence_registry() {
        assert!(ids.insert(evidence.id), "duplicate {}", evidence.id);
        assert!(!evidence.id.is_empty(), "{evidence:?}");
        assert!(!evidence.category.as_str().is_empty(), "{evidence:?}");
        assert!(!evidence.summary.is_empty(), "{evidence:?}");
        assert!(
            evidence.id.chars().all(|character| {
                character.is_ascii_lowercase()
                    || character.is_ascii_digit()
                    || character == '-'
                    || character == '.'
            }),
            "{evidence:?}"
        );
    }
}

#[test]
fn every_metadata_entry_has_stable_non_empty_fields() {
    for metadata in component_metadata_registry() {
        assert!(!metadata.name.is_empty(), "{metadata:?}");
        assert!(!metadata.slug.is_empty(), "{metadata:?}");
        assert!(!metadata.category.as_str().is_empty(), "{metadata:?}");
        assert!(!metadata.status.as_str().is_empty(), "{metadata:?}");
        assert!(
            metadata
                .slug
                .chars()
                .all(|character| character.is_ascii_lowercase() || character == '-'),
            "{metadata:?}"
        );
        assert!(!metadata.slug.starts_with('-'), "{metadata:?}");
        assert!(!metadata.slug.ends_with('-'), "{metadata:?}");
        assert!(!metadata.evidence_ids.is_empty(), "{metadata:?}");
        for evidence_id in metadata.evidence_ids {
            assert!(
                component_evidence(evidence_id).is_some(),
                "{metadata:?} references missing evidence {evidence_id}"
            );
        }
    }
}

#[test]
fn category_status_and_evidence_names_are_stable() {
    assert_eq!(ComponentCategory::TextEditing.as_str(), "TextEditing");
    assert_eq!(ComponentCategory::System.as_str(), "System");
    assert_eq!(ComponentConformanceStatus::Planned.as_str(), "Planned");
    assert_eq!(ComponentConformanceStatus::Implemented.as_str(), "Implemented");
    assert_eq!(ComponentEvidenceCategory::Showcase.as_str(), "Showcase");
    assert_eq!(ComponentEvidenceCategory::Stage.as_str(), "Stage");
}

#[test]
fn metadata_and_matrix_builders_set_their_fields() {
    let metadata = ComponentMetadata::new(
        "Ruler",
        "ruler",
        ComponentCategory::Viewport,
        ComponentConformanceStatus::Partial,
    );
    assert_eq!(metadata.stage, None);
    assert!(metadata.evidence_ids.is_empty());
    let staged = metadata.with_stage(11).with_evidence(&["stage.11-timeline"]);
    assert_eq!(staged.stage, Some(11));
    assert_eq!(staged.evidence_ids, &["stage.11-timeline"]);
    assert_eq!(staged.slug, "ruler");

    let row = ComponentConformanceMatrixRow::partial(
        "Ruler ticks",
        "ruler-ticks",
        ComponentCategory::Viewport,
        11,
        &["ruler_ticks_between_frames"],
        &["ruler_ticks_are_strictly_increasing"],
        &["conformance.timeline-ruler-contracts"],
    );
    assert_eq!(row.status, ComponentConformanceStatus::Partial);
    assert_eq!(row.component_slug, None);
    assert_eq!(row.with_component_slug("ruler").component_slug, Some("ruler"));

    let evidence = ComponentEvidence::new("stage.x", ComponentEvidenceCategory::Stage, "Summary");
    assert_eq!(evidence.id, "stage.x");
    assert_eq!(evidence.category, ComponentEvidenceCategory::Stage);
}

#[test]
fn registries_have_expected_sizes() {
    assert_eq!(component_metadata_registry().len(), 55);
    assert_eq!(component_evidence_registry().len(), 26);
    assert_eq!(component_metadata_registry()[0].name, "Label");
}

#[test]
fn registry_entries_carry_their_catalogue_values() {
    let registry = component_metadata_registry();
    let outliner = registry[18];
    assert_eq!(outliner.name, "Outliner");
    assert_eq!(outliner.slug, "outliner");
    assert_eq!(outliner.category, ComponentCategory::Collection);
    assert_eq!(outliner.status, ComponentConformanceStatus::Partial);
    assert_eq!(outliner.stage, Some(10));
    assert_eq!(
        outliner.evidence_ids,
        &[
            "status.partial-public-contract",
            "stage.10-outliner-asset-browser",
            "conformance.component-taxonomy",
            "showcase.metadata-only",
        ]
    );
    let feedback = registry[54];
    assert_eq!((feedback.name, feedback.slug), ("FeedbackStack", "feedback-stack"));
    assert_eq!(feedback.stage, Some(13));

    let evidence = component_evidence_registry();
    assert_eq!(evidence[13].id, "conformance.timeline-ruler-contracts");
    assert_eq!(evidence[13].category, ComponentEvidenceCategory::Conformance);
    assert_eq!(evidence[13].summary, "Covered by public timeline ruler tick and timecode contracts.");
    assert_eq!(evidence[25].id, "showcase.metadata-only");
}
