use kinetik_ui_widgets::dock::{
    DockArea, DockNode, DockRestoreError, DockSnapshot, DockSnapshotNode, Frame, FrameId, Panel,
    PanelId, frame_tabs,
};

#[derive(Debug, Clone, Copy, PartialEq)]
struct Split {
    ratio: f32,
    min_first: f32,
    min_second: f32,
}

fn split(ratio: f32, min_first: f32, min_second: f32) -> Split {
    Split {
        ratio,
        min_first,
        min_second,
    }
}

fn split_error(split: &Split) -> Option<DockRestoreError> {
    if !split.ratio.is_finite() || !(0.0..=1.0).contains(&split.ratio) {
        return Some(DockRestoreError::InvalidSplitRatio);
    }
    if !split.min_first.is_finite()
        || !split.min_second.is_finite()
        || split.min_first < 0.0
        || split.min_second < 0.0
    {
        return Some(DockRestoreError::InvalidSplitMinimum);
    }
    None
}

fn panel(id: u64, title: &str) -> Panel {
    Panel::new(PanelId::from_raw(id), title)
}

fn frame(id: u64, panels: Vec<Panel>) -> Frame {
    Frame::new(FrameId::from_raw(id), panels)
}

fn dock_area() -> DockArea<Split> {
    DockArea::new(DockNode::Split {
        split: split(0.25, 100.0, 100.0),
        first: Box::new(DockNode::Frame(frame(1, vec![panel(1, "Media")]))),
        second: Box::new(DockNode::Frame(frame(
            2,
            vec![panel(2, "Viewport"), panel(3, "Timeline")],
        ))),
    })
}

fn frame_snapshot(id: u64, panels: Vec<Panel>, active: usize, dismissible: &[u64]) -> DockSnapshotNode<Split> {
    DockSnapshotNode::Frame {
        id: FrameId::from_raw(id),
        panels,
        active,
        dismissible_panels: dismissible.iter().copied().map(PanelId::from_raw).collect(),
    }
}

#[test]
fn dock_tree_visits_frames_in_order() {
    let area = dock_area();
    let frames = area.frames();

    assert_eq!(frames[0].id, FrameId::from_raw(1));
    assert_eq!(frames[1].id, FrameId::from_raw(2));
}

#[test]
fn selects_and_removes_frame_tabs() {
    let mut frame = frame(1, vec![panel(1, "A"), panel(2, "B")]);

    assert!(frame.select_panel(PanelId::from_raw(2)));
    assert_eq!(
        frame.active_panel().expect("active").id,
        PanelId::from_raw(2)
    );
    assert_eq!(
        frame
            .remove_panel(PanelId::from_raw(2))
            .expect("removed")
            .title,
        "B"
    );
    assert_eq!(frame.active, 0);
}

#[test]
fn moves_panels_between_frames() {
    let mut area = dock_area();

    assert!(area.move_panel(
        FrameId::from_raw(2),
        FrameId::from_raw(1),
        PanelId::from_raw(3)
    ));

    assert_eq!(
        area.frame_mut(FrameId::from_raw(1))
            .expect("frame")
            .panels
            .len(),
        2
    );
}

#[test]
fn moving_panels_preserves_frame_owned_dismissal_policy() {
    let mut area = dock_area();
    area.frame_mut(FrameId::from_raw(2))
        .expect("source")
        .set_panel_dismissible(PanelId::from_raw(3), false);

    assert!(area.move_panel(
        FrameId::from_raw(2),
        FrameId::from_raw(1),
        PanelId::from_raw(3)
    ));

    assert!(
        !area
            .frame(FrameId::from_raw(1))
            .expect("target")
            .panel_dismissible(PanelId::from_raw(3))
    );
}

#[test]
fn moving_panel_to_missing_target_does_not_remove_it() {
    let mut area = dock_area();

    assert!(!area.move_panel(
        FrameId::from_raw(2),
        FrameId::from_raw(99),
        PanelId::from_raw(3)
    ));

    let source = area.frame(FrameId::from_raw(2)).expect("source");
    assert_eq!(source.panels.len(), 2);
    assert!(
        source
            .panels
            .iter()
            .any(|panel| panel.id == PanelId::from_raw(3))
    );
}

#[test]
fn moving_last_panel_prunes_empty_source_frame() {
    let mut area = dock_area();

    assert!(area.move_panel(
        FrameId::from_raw(1),
        FrameId::from_raw(2),
        PanelId::from_raw(1)
    ));

    assert_eq!(area.frames().len(), 1);
    assert!(area.frame(FrameId::from_raw(1)).is_none());
    assert_eq!(
        area.frame(FrameId::from_raw(2))
            .expect("target")
            .panels
            .len(),
        3
    );
}

#[test]
fn merges_frames_into_target() {
    let mut area = dock_area();

    assert!(area.merge_frames(FrameId::from_raw(1), FrameId::from_raw(2)));

    assert_eq!(
        area.frame_mut(FrameId::from_raw(2))
            .expect("target")
            .panels
            .len(),
        3
    );
    assert_eq!(area.frames().len(), 1);
    assert!(area.frame(FrameId::from_raw(1)).is_none());
}

#[test]
fn merging_missing_target_does_not_remove_source_panels() {
    let mut area = dock_area();

    assert!(!area.merge_frames(FrameId::from_raw(1), FrameId::from_raw(99)));

    assert_eq!(
        area.frame(FrameId::from_raw(1))
            .expect("source")
            .panels
            .len(),
        1
    );
}

#[test]
fn frame_tabs_expose_presentation_state() {
    let mut frame = frame(1, vec![panel(1, "A"), panel(2, "B")]);
    frame.select_panel(PanelId::from_raw(2));
    assert!(frame.set_panel_dismissible(PanelId::from_raw(1), false));

    let tabs = frame_tabs(&frame);

    assert!(!tabs[0].active);
    assert!(!tabs[0].close_visible);
    assert!(tabs[1].active);
    assert!(tabs[1].close_visible);
    assert!(tabs[1].draggable);
}

#[test]
fn snapshots_round_trip() {
    let area = dock_area();
    let snapshot = area.snapshot();
    let restored = DockArea::restore(snapshot, split_error).expect("restore");

    assert_eq!(restored.frames().len(), 2);
}

#[test]
fn invalid_snapshots_are_rejected() {
    let snapshot = DockSnapshot {
        root: frame_snapshot(1, vec![], 0, &[]),
    };

    assert_eq!(
        DockArea::restore(snapshot, split_error).expect_err("error"),
        DockRestoreError::EmptyFrame
    );
}

#[test]
fn invalid_snapshot_rejects_invalid_active_panel() {
    let snapshot = DockSnapshot {
        root: frame_snapshot(1, vec![panel(1, "A")], 1, &[1]),
    };

    assert_eq!(
        DockArea::restore(snapshot, split_error).expect_err("error"),
        DockRestoreError::InvalidActiveIndex
    );
}

#[test]
fn invalid_snapshot_rejects_unknown_dismissible_panel() {
    let snapshot = DockSnapshot {
        root: frame_snapshot(1, vec![panel(1, "A")], 0, &[2]),
    };

    assert_eq!(
        DockArea::restore(snapshot, split_error).expect_err("error"),
        DockRestoreError::InvalidDismissiblePanel
    );
}

#[test]
fn invalid_snapshot_rejects_duplicate_frame_ids() {
    let snapshot = DockSnapshot {
        root: DockSnapshotNode::Split {
            split: split(0.5, 0.0, 0.0),
            first: Box::new(frame_snapshot(1, vec![panel(1, "A")], 0, &[1])),
            second: Box::new(frame_snapshot(1, vec![panel(2, "B")], 0, &[2])),
        },
    };

    assert_eq!(
        DockArea::restore(snapshot, split_error).expect_err("error"),
        DockRestoreError::DuplicateFrameId
    );
}

#[test]
fn invalid_snapshot_rejects_duplicate_panel_ids() {
    let snapshot = DockSnapshot {
        root: DockSnapshotNode::Split {
            split: split(0.5, 0.0, 0.0),
            first: Box::new(frame_snapshot(1, vec![panel(1, "A")], 0, &[1])),
            second: Box::new(frame_snapshot(2, vec![panel(1, "B")], 0, &[1])),
        },
    };

    assert_eq!(
        DockArea::restore(snapshot, split_error).expect_err("error"),
        DockRestoreError::DuplicatePanelId
    );
}

#[test]
fn invalid_snapshot_rejects_duplicate_dismissible_policy_entries() {
    let snapshot = DockSnapshot {
        root: frame_snapshot(1, vec![panel(1, "A")], 0, &[1, 1]),
    };

    assert_eq!(
        DockArea::restore(snapshot, split_error).expect_err("error"),
        DockRestoreError::DuplicateDismissiblePanel
    );
}

#[test]
fn invalid_snapshot_rejects_invalid_split_numbers() {
    let invalid_ratio = DockSnapshot {
        root: DockSnapshotNode::Split {
            split: split(f32::NAN, 0.0, 0.0),
            first: Box::new(frame_snapshot(1, vec![panel(1, "A")], 0, &[1])),
            second: Box::new(frame_snapshot(2, vec![panel(2, "B")], 0, &[2])),
        },
    };
    assert_eq!(
        DockArea::restore(invalid_ratio, split_error).expect_err("error"),
        DockRestoreError::InvalidSplitRatio
    );

    let invalid_minimum = DockSnapshot {
        root: DockSnapshotNode::Split {
            split: split(0.5, -1.0, 0.0),
            first: Box::new(frame_snapshot(1, vec![panel(1, "A")], 0, &[1])),
            second: Box::new(frame_snapshot(2, vec![panel(2, "B")], 0, &[2])),
        },
    };

    assert_eq!(
        DockArea::restore(invalid_minimum, split_error).expect_err("error"),
        DockRestoreError::InvalidSplitMinimum
    );
}

#[test]
fn snapshot_round_trip_keeps_tabs_active_index_and_dismissal() {
    let mut area = dock_area();
    area.frame_mut(FrameId::from_raw(2))
        .expect("frame")
        .select_panel(PanelId::from_raw(3));
    area.frame_mut(FrameId::from_raw(2))
        .expect("frame")
        .set_panel_dismissible(PanelId::from_raw(2), false);
    let restored = DockArea::restore(area.snapshot(), split_error).expect("restore");
    let frame = restored.frame(FrameId::from_raw(2)).expect("frame");
    assert_eq!(frame.active, 1);
    assert_eq!(frame.panels[1].title, "Timeline");
    assert!(!frame.panel_dismissible(PanelId::from_raw(2)));
    assert!(frame.panel_dismissible(PanelId::from_raw(3)));
}

#[test]
fn frame_edits_keep_active_tab_in_bounds() {
    let mut frame = frame(4, vec![panel(1, "A"), panel(2, "B"), panel(3, "C")]);
    assert!(!frame.select_panel(PanelId::from_raw(9)));
    assert!(frame.select_panel(PanelId::from_raw(3)));
    assert!(frame.remove_panel(PanelId::from_raw(9)).is_none());
    frame.remove_panel(PanelId::from_raw(3)).expect("removed");
    assert_eq!(frame.active, 1);
    frame.push_panel(panel(5, "E"));
    assert_eq!(frame.panels.len(), 3);
    assert!(frame.panel_dismissible(PanelId::from_raw(5)));
    assert!(!frame.set_panel_dismissible(PanelId::from_raw(9), false));
    assert!(area_select_missing_frame_is_refused());
}

fn area_select_missing_frame_is_refused() -> bool {
    let mut area = dock_area();
    !area.select_panel(FrameId::from_raw(9), PanelId::from_raw(1))
        && area.select_panel(FrameId::from_raw(2), PanelId::from_raw(3))
}

#[test]
fn restoring_a_snapshot_of_a_valid_area_gives_the_area_back() {
    let mut area = dock_area();
    assert!(area.select_panel(FrameId::from_raw(2), PanelId::from_raw(3)));
    let copy = area.clone();
    assert_eq!(copy, area);

    let snapshot = area.snapshot();
    assert_eq!(snapshot.clone(), snapshot);
    assert_eq!(DockArea::restore(snapshot, split_error), Ok(area));
}
