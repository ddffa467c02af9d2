use kinetik_ui_widgets::timeline::{
    TimelineFrame, TimelineFrameRate, TimelineFrameRounding, TimelineId, TimelineRulerId,
    TimelineRulerTickKind, TransportControlId, RULER_FRAME_LIMIT, RULER_STEP_LIMIT,
    ruler_ticks_between_frames,
    timeline_timecode_label,
};

#[test]
fn timeline_ids_round_trip_raw_bits() {
    assert_eq!(TimelineId::from_raw(1).raw(), 1);
    assert_eq!(TimelineRulerId::from_raw(2).raw(), 2);
    assert_eq!(TransportControlId::from_raw(3).raw(), 3);
}

#[test]
fn timecode_labels_are_stable_for_positive_negative_and_fractional_rates() {
    assert_eq!(
        timeline_timecode_label(TimelineFrame::from_raw(49), TimelineFrameRate::integer(24)),
        "00:00:02:01"
    );
    assert_eq!(
        timeline_timecode_label(TimelineFrame::from_raw(-25), TimelineFrameRate::integer(24)),
        "-00:00:01:01"
    );
    assert_eq!(
        timeline_timecode_label(
            TimelineFrame::from_raw(30),
            TimelineFrameRate::new(30_000, 1001),
        ),
        "00:00:01:00"
    );
}

#[test]
fn fractional_frame_rate_preserves_rational_metadata() {
    let rate = TimelineFrameRate::new(24_000, 1001);
    assert_eq!(rate.numerator, 24_000);
    assert_eq!(rate.denominator, 1001);
    assert_eq!(rate.rounded_display_fps(), 24);
    assert_eq!(TimelineFrameRate::new(0, 0).sanitized(), TimelineFrameRate::integer(24));
    assert_eq!(TimelineFrameRate::default(), TimelineFrameRate::integer(24));
}

#[test]
fn display_rate_rounds_half_away_and_never_drops_below_one() {
    assert_eq!(TimelineFrameRate::new(5, 2).rounded_display_fps(), 3);
    assert_eq!(TimelineFrameRate::new(1, 3).rounded_display_fps(), 1);
    assert_eq!(TimelineFrameRate::new(60_000, 1001).rounded_display_fps(), 60);
    assert_eq!(TimelineFrameRate::new(7, 0).rounded_display_fps(), 7);
}

#[test]
fn timecode_fields_roll_over_and_grow_past_two_digits() {
    let rate = TimelineFrameRate::integer(24);
    assert_eq!(
        timeline_timecode_label(TimelineFrame::from_raw(24 * 3600 + 24 * 61 + 5), rate),
        "01:01:01:05"
    );
    assert_eq!(
        timeline_timecode_label(TimelineFrame::from_raw(24 * 3600 * 123), rate),
        "123:00:00:00"
    );
    assert_eq!(
        timeline_timecode_label(TimelineFrame::from_raw(0), TimelineFrameRate::new(0, 0)),
        "00:00:00:00"
    );
    assert_eq!(
        timeline_timecode_label(TimelineFrame::from_raw(i64::MIN), TimelineFrameRate::integer(1)),
        "-2562047788015215:30:07:00"
    );
}

#[test]
fn ruler_ticks_are_strictly_increasing_and_bounded() {
    let rate = TimelineFrameRate::integer(24);
    let ticks = ruler_ticks_between_frames(0, 120, 16, 4096, rate).expect("budget fits");

    assert!(!ticks.is_empty());
    assert!(ticks.windows(2).all(|pair| pair[0].frame < pair[1].frame));
    assert!(ticks.iter().any(|tick| tick.kind == TimelineRulerTickKind::Major));
    assert!(ticks.iter().any(|tick| tick.kind == TimelineRulerTickKind::Minor));
    assert!(ticks.iter().any(|tick| {
        tick.kind == TimelineRulerTickKind::Major && tick.label == "00:00:00:00"
    }));
    assert!(
        ticks
            .iter()
            .filter(|tick| tick.kind == TimelineRulerTickKind::Minor)
            .all(|tick| tick.label.is_empty())
    );
    // Minimum spacing 16 gives major ticks every 20 frames, minor every 4.
    assert_eq!(ticks.len(), 31);
    assert_eq!(ticks[5].frame, TimelineFrame::from_raw(20));
    assert_eq!(ticks[5].kind, TimelineRulerTickKind::Major);
    assert_eq!(ticks[5].label, "00:00:00:20");
}

#[test]
fn ruler_ticks_coarsen_to_respect_max_ticks() {
    let rate = TimelineFrameRate::integer(24);
    let ticks = ruler_ticks_between_frames(-7, 24_000_000, 1, 128, rate).expect("budget fits");

    assert!(ticks.len() <= 128);
    assert!(ticks.windows(2).all(|pair| pair[0].frame < pair[1].frame));
    assert!(ticks.iter().all(|tick| tick.kind == TimelineRulerTickKind::Major));
    assert_eq!(ticks.len(), 122);
    assert_eq!(ticks[0].frame, TimelineFrame::from_raw(-200_000));
    assert_eq!(ticks[121].frame, TimelineFrame::from_raw(24_000_000));

    assert_eq!(ruler_ticks_between_frames(0, 100, 10, 0, rate), Some(Vec::new()));
}

#[test]
fn ruler_ticks_fit_a_budget_of_two_by_coarsening() {
    let rate = TimelineFrameRate::integer(24);
    // Spacings 1 and 2 need four and three ticks; spacing 5 needs two.
    let ticks = ruler_ticks_between_frames(2, 5, 1, 2, rate).expect("spacing 5 fits");
    assert_eq!(ticks.len(), 2);
    assert_eq!(ticks[0].frame, TimelineFrame::from_raw(0));
    assert_eq!(ticks[1].frame, TimelineFrame::from_raw(5));
    assert!(ticks.iter().all(|tick| tick.kind == TimelineRulerTickKind::Major));
    assert_eq!(ticks[0].label, "00:00:00:00");
    assert_eq!(ticks[1].label, "00:00:00:05");
}

#[test]
fn ruler_ticks_report_budgets_that_no_spacing_fits() {
    let rate = TimelineFrameRate::integer(24);
    // A range around zero needs three ticks at every spacing.
    assert_eq!(ruler_ticks_between_frames(-1, 1, 1, 2, rate), None);
    // One tick never covers a range between two multiples.
    assert_eq!(ruler_ticks_between_frames(3, 7, 1, 1, rate), None);
    // A single frame on a multiple needs one tick.
    let single = ruler_ticks_between_frames(5, 5, 1, 1, rate).expect("one tick fits");
    assert_eq!(single.len(), 1);
    assert_eq!(single[0].frame, TimelineFrame::from_raw(5));
    assert_eq!(single[0].kind, TimelineRulerTickKind::Major);
    assert_eq!(single[0].label, "00:00:00:05");
}

#[test]
fn ruler_ticks_subdivide_the_widest_spacing() {
    let rate = TimelineFrameRate::integer(24);
    let ticks = ruler_ticks_between_frames(0, 10, RULER_STEP_LIMIT, 3, rate).expect("fits");
    assert_eq!(ticks.len(), 2);
    assert_eq!(ticks[0].frame, TimelineFrame::from_raw(0));
    assert_eq!(ticks[0].kind, TimelineRulerTickKind::Major);
    assert_eq!(ticks[1].frame, TimelineFrame::from_raw(1_000_000_000_000_000_000));
    assert_eq!(ticks[1].kind, TimelineRulerTickKind::Minor);
    assert_eq!(ticks[1].label, "");
}

#[test]
fn ruler_ticks_cover_the_widest_frame_range() {
    let rate = TimelineFrameRate::integer(24);
    let wide = 1_i64 << 60;
    let ticks = ruler_ticks_between_frames(-wide, wide, 1, 3, rate).expect("three ticks fit");
    let frames: Vec<i64> = ticks.iter().map(|tick| tick.frame.raw()).collect();
    assert_eq!(frames, vec![-2_000_000_000_000_000_000, 0, 2_000_000_000_000_000_000]);
    assert!(ticks.iter().all(|tick| tick.kind == TimelineRulerTickKind::Major));
    assert_eq!(ticks[1].label, "00:00:00:00");

    let limit = RULER_FRAME_LIMIT;
    let ticks = ruler_ticks_between_frames(-limit, limit, 1, 19, rate).expect("nineteen ticks fit");
    assert_eq!(ticks.len(), 19);
    assert_eq!(ticks[0].frame.raw(), -4_500_000_000_000_000_000);
    assert_eq!(ticks[18].frame.raw(), 4_500_000_000_000_000_000);
    // Wider spacings would span more frames than an i64 counts.
    assert_eq!(ruler_ticks_between_frames(-limit, limit, 1, 18, rate), None);
}

#[test]
fn rounding_policies_and_default_frame_are_plain_values() {
    assert_ne!(TimelineFrameRounding::Floor, TimelineFrameRounding::Ceil);
    assert_eq!(TimelineFrame::default().raw(), 0);
    assert!(TimelineFrame::from_raw(-1) < TimelineFrame::from_raw(1));
}
