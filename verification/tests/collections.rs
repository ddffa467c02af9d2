use kinetik_ui_widgets::collections::{
    AssetBrowserItem, AssetBrowserModel, AssetBrowserSort, AssetBrowserSortKey, compare_text,
    CollectionCursor, CollectionCursorMove, OutlinerItem, OutlinerModel, CollectionCursorTarget, CollectionProjectedItem,
    CollectionProjection, ItemId, Selection, SelectionProjectionPolicy, SortDirection, TableSort,
    TreeExpansion, TreeItem, TreeModel, VirtualListRow, VirtualListSelectionMode, overscan_range,
};

fn id(raw: u64) -> ItemId {
    ItemId::from_raw(raw)
}

fn projection(raw_ids: &[u64]) -> CollectionProjection {
    CollectionProjection::from_source_ids(&raw_ids.iter().copied().map(id).collect::<Vec<_>>())
}

#[test]
fn selection_supports_replace_toggle_clear() {
    let mut selection = Selection::new();
    let one = ItemId::from_raw(1);

    selection.replace(one);
    assert!(selection.contains(one));
    selection.toggle(one);
    assert!(!selection.contains(one));
    selection.clear();
    assert!(selection.selected().is_empty());
}

#[test]
fn selection_supports_ranges_from_anchor() {
    let items = [
        ItemId::from_raw(1),
        ItemId::from_raw(2),
        ItemId::from_raw(3),
        ItemId::from_raw(4),
    ];
    let mut selection = Selection::new();

    selection.replace(ItemId::from_raw(2));
    assert!(selection.select_range(&items, ItemId::from_raw(4)));

    assert_eq!(
        selection.selected(),
        vec![
            ItemId::from_raw(2),
            ItemId::from_raw(3),
            ItemId::from_raw(4)
        ]
    );
}

#[test]
fn selected_ids_survive_filtering_out_and_back_in() {
    let source_ids = [id(10), id(20), id(30), id(40)];
    let all = CollectionProjection::from_source_ids(&source_ids);
    let filtered = all.filtered_by(|item| item.id != id(20));
    let mut selection = Selection::new();
    selection.replace(id(20));

    let hidden = selection.project(&filtered, SelectionProjectionPolicy::PreserveHidden);
    assert_eq!(selection.selected(), vec![id(20)]);
    assert_eq!(hidden.visible_selected, Vec::<ItemId>::new());
    assert_eq!(hidden.hidden_selected, vec![id(20)]);
    assert!(hidden.has_hidden_selection());
    assert_eq!(hidden.repaired_active, None);
    assert_eq!(hidden.repaired_anchor, None);

    let visible_again = selection.project(&all, SelectionProjectionPolicy::PreserveHidden);
    assert_eq!(visible_again.visible_selected, vec![id(20)]);
    assert_eq!(visible_again.hidden_selected, Vec::<ItemId>::new());
    assert_eq!(visible_again.repaired_active, Some(id(20)));
    assert_eq!(visible_again.repaired_anchor, Some(id(20)));
}

#[test]
fn active_and_anchor_repair_is_deterministic_in_projected_order() {
    let projection = CollectionProjection::from_source_ids(&[id(30), id(20), id(10)])
        .filtered_by(|item| item.id == id(30) || item.id == id(20));
    let mut selection = Selection::new();
    selection.replace(id(20));
    selection.toggle(id(10));

    let projected = selection.project(&projection, SelectionProjectionPolicy::PreserveHidden);

    assert_eq!(projected.selected, vec![id(10), id(20)]);
    assert_eq!(projected.visible_selected, vec![id(20)]);
    assert_eq!(projected.hidden_selected, vec![id(10)]);
    assert_eq!(projected.active, Some(id(10)));
    assert_eq!(projected.anchor, Some(id(10)));
    assert_eq!(projected.visible_active, None);
    assert_eq!(projected.visible_anchor, None);
    assert_eq!(projected.repaired_active, Some(id(20)));
    assert_eq!(projected.repaired_anchor, Some(id(20)));
}

#[test]
fn source_index_mapping_is_stable_under_sort() {
    let projection = CollectionProjection::from_source_ids(&[id(10), id(20), id(30)])
        .sorted_by(|lhs, rhs| rhs.id.raw().cmp(&lhs.id.raw()));

    assert_eq!(projection.visible_ids(), vec![id(30), id(20), id(10)]);
    assert_eq!(projection.source_indices(), vec![2, 1, 0]);
    assert_eq!(projection.source_index(id(30)), Some(2));
    assert_eq!(projection.projected_index(id(10)), Some(2));
}

#[test]
fn source_indices_point_at_source_ids_through_filters_and_sorts() {
    let source = [id(40), id(10), id(30), id(20), id(50)];
    let projection = CollectionProjection::from_source_ids(&source)
        .filtered_by(|item| item.id.raw() != 30)
        .sorted_by(|lhs, rhs| lhs.id.raw().cmp(&rhs.id.raw()))
        .filtered_by(|item| item.id.raw() > 10);

    assert_eq!(projection.visible_ids(), vec![id(20), id(40), id(50)]);
    assert_eq!(projection.source_indices(), vec![3, 0, 4]);
    for (visible, source_index) in projection.visible_ids().iter().zip(projection.source_indices()) {
        assert_eq!(source[source_index], *visible);
    }
}

#[test]
fn empty_cursor_navigation_chooses_directional_boundary_and_never_wraps() {
    let items = projection(&[10, 20, 30]);
    let mut cursor = CollectionCursor::new();

    let first = cursor
        .navigate(&items, CollectionCursorMove::Next)
        .expect("first target");
    assert_eq!((first.id, first.projected_index), (id(10), 0));
    assert_eq!(
        cursor.navigate(&items, CollectionCursorMove::Previous),
        Some(first)
    );

    assert_eq!(
        cursor.navigate(&items, CollectionCursorMove::Last),
        Some(CollectionCursorTarget {
            id: id(30),
            projected_index: 2,
        })
    );
    assert_eq!(
        cursor.navigate(&items, CollectionCursorMove::Next),
        Some(CollectionCursorTarget {
            id: id(30),
            projected_index: 2,
        })
    );

    cursor.clear();
    let last = cursor
        .navigate(&items, CollectionCursorMove::Previous)
        .expect("last target");
    assert_eq!((last.id, last.projected_index), (id(30), 2));
    assert_eq!(
        cursor.navigate(&items, CollectionCursorMove::First),
        Some(first)
    );
}

#[test]
fn page_navigation_uses_caller_supplied_row_stride_and_is_bounded() {
    let items = projection(&(0..10).collect::<Vec<_>>());
    let mut cursor = CollectionCursor::new();

    assert_eq!(
        cursor
            .navigate(&items, CollectionCursorMove::PageNext { rows: 4 })
            .expect("initial target")
            .projected_index,
        0
    );
    assert_eq!(
        cursor
            .navigate(&items, CollectionCursorMove::PageNext { rows: 4 })
            .expect("page target")
            .projected_index,
        4
    );
    assert_eq!(
        cursor
            .navigate(&items, CollectionCursorMove::PageNext { rows: 99 })
            .expect("bounded end")
            .projected_index,
        9
    );
    assert_eq!(
        cursor
            .navigate(&items, CollectionCursorMove::PagePrevious { rows: 3 })
            .expect("previous page")
            .projected_index,
        6
    );
    assert_eq!(
        cursor
            .navigate(&items, CollectionCursorMove::PagePrevious { rows: 99 })
            .expect("bounded start")
            .projected_index,
        0
    );
}

#[test]
fn reconciliation_preserves_active_identity_across_reorder() {
    let first = projection(&[1, 2, 3]);
    let reordered = projection(&[3, 1, 2]);
    let mut cursor = CollectionCursor::new();

    cursor.activate(&first, id(2)).expect("activate item");
    let target = cursor.reconcile(&reordered).expect("reconciled target");

    assert_eq!(target.id, id(2));
    assert_eq!(target.projected_index, 2);
    assert_eq!(cursor.active(), Some(id(2)));
    assert_eq!(cursor.last_projected_index(), Some(2));
}

#[test]
fn reconciliation_repairs_removed_item_to_same_slot_then_preceding_tail() {
    let first = projection(&[1, 2, 3, 4]);
    let same_slot = projection(&[1, 3, 4]);
    let short_tail = projection(&[1]);
    let mut cursor = CollectionCursor::new();

    cursor.activate(&first, id(2)).expect("activate item");
    let repaired = cursor.reconcile(&same_slot).expect("same slot repair");
    assert_eq!((repaired.id, repaired.projected_index), (id(3), 1));

    cursor.activate(&first, id(4)).expect("activate tail");
    let repaired = cursor.reconcile(&short_tail).expect("tail repair");
    assert_eq!((repaired.id, repaired.projected_index), (id(1), 0));
}

#[test]
fn empty_projection_clears_retained_cursor() {
    let items = projection(&[1]);
    let mut cursor = CollectionCursor::new();
    cursor.activate(&items, id(1)).expect("activate item");

    assert_eq!(cursor.reconcile(&CollectionProjection::empty()), None);
    assert_eq!(cursor.active(), None);
    assert_eq!(cursor.last_projected_index(), None);
}

#[test]
fn ten_thousand_row_navigation_remains_exact() {
    let raw_ids = (0..10_000).collect::<Vec<_>>();
    let items = projection(&raw_ids);
    let mut cursor = CollectionCursor::new();

    cursor
        .navigate(&items, CollectionCursorMove::First)
        .expect("first target");
    for _ in 0..999 {
        cursor
            .navigate(&items, CollectionCursorMove::PageNext { rows: 10 })
            .expect("page target");
    }

    assert_eq!(cursor.active(), Some(id(9_990)));
    assert_eq!(cursor.last_projected_index(), Some(9_990));
    let end = cursor
        .navigate(&items, CollectionCursorMove::PageNext { rows: 10 })
        .expect("bounded end");
    assert_eq!((end.id, end.projected_index), (id(9_999), 9_999));
}

#[test]
fn navigation_target_composes_with_existing_range_selection() {
    let items = projection(&[1, 2, 3, 4]);
    let visible_ids = items.visible_ids();
    let mut cursor = CollectionCursor::new();
    let mut selection = Selection::new();

    let anchor = cursor.activate(&items, id(2)).expect("anchor target");
    selection.replace(anchor.id);
    let end = cursor
        .navigate(&items, CollectionCursorMove::PageNext { rows: 2 })
        .expect("range end");

    assert!(selection.select_range(&visible_ids, end.id));
    assert_eq!(selection.selected(), vec![id(2), id(3), id(4)]);
    assert_eq!(selection.active, Some(id(4)));
}

#[test]
fn flattened_tree_ids_use_the_same_vertical_cursor_contract() {
    let tree = TreeModel::new(vec![
        TreeItem {
            id: id(1),
            parent: None,
            has_children: true,
        },
        TreeItem {
            id: id(2),
            parent: Some(id(1)),
            has_children: false,
        },
        TreeItem {
            id: id(3),
            parent: None,
            has_children: false,
        },
    ]);
    let mut expansion = TreeExpansion::new();
    expansion.expand(id(1));
    let visible = tree.visible_item_ids(&expansion);
    let items = CollectionProjection::from_source_ids(&visible);
    let mut cursor = CollectionCursor::new();

    assert_eq!(
        cursor
            .navigate(&items, CollectionCursorMove::Next)
            .expect("root")
            .id,
        id(1)
    );
    assert_eq!(
        cursor
            .navigate(&items, CollectionCursorMove::Next)
            .expect("child")
            .id,
        id(2)
    );
    assert_eq!(
        cursor
            .navigate(&items, CollectionCursorMove::Next)
            .expect("next root")
            .id,
        id(3)
    );
}

#[test]
fn toggling_twice_restores_selection() {
    let mut selection = Selection::new();
    selection.replace(id(3));
    selection.toggle(id(5));
    let before = selection.selected();
    selection.toggle(id(7));
    selection.toggle(id(7));
    assert_eq!(selection.selected(), before);
    selection.toggle(id(3));
    selection.toggle(id(3));
    assert_eq!(selection.selected(), before);
}

#[test]
fn retained_selection_projects_without_hidden_items() {
    let mut selection = Selection::new();
    selection.replace(id(1));
    selection.toggle(id(2));
    selection.toggle(id(3));
    let visible = [id(2), id(3), id(4)];
    assert!(selection.retain_visible(&visible));
    assert_eq!(selection.selected(), vec![id(2), id(3)]);
    assert!(!selection.retain_visible(&visible));

    let projected = selection.project_visible(&visible, SelectionProjectionPolicy::PreserveHidden);
    assert!(!projected.has_hidden_selection());
    assert_eq!(projected.visible_selected, vec![id(2), id(3)]);
}

#[test]
fn projection_queries_report_missing_items() {
    let projection = CollectionProjection::from_items(vec![
        CollectionProjectedItem::new(id(7), 4),
        CollectionProjectedItem::new(id(9), 1),
    ]);
    assert_eq!(projection.len(), 2);
    assert!(!projection.is_empty());
    assert!(CollectionProjection::empty().is_empty());
    assert_eq!(projection.source_index(id(9)), Some(1));
    assert_eq!(projection.source_index(id(8)), None);
    assert_eq!(projection.projected_index(id(8)), None);
    assert_eq!(projection.get(1), Some(CollectionProjectedItem::new(id(9), 1)));
    assert_eq!(projection.get(2), None);
    assert_eq!(projection.ids_in_range(1..5), vec![id(9)]);
    assert_eq!(projection.ids_in_range(3..1), Vec::<ItemId>::new());
}

#[test]
fn stable_sort_keeps_equal_keys_in_source_order() {
    let projection = CollectionProjection::from_source_ids(&[id(4), id(1), id(3), id(2)])
        .sorted_by(|lhs, rhs| (lhs.id.raw() % 2).cmp(&(rhs.id.raw() % 2)));
    assert_eq!(projection.visible_ids(), vec![id(4), id(2), id(1), id(3)]);
    assert_eq!(projection.source_indices(), vec![0, 3, 1, 2]);
}

#[test]
fn activating_missing_item_keeps_cursor() {
    let items = projection(&[1, 2]);
    let mut cursor = CollectionCursor::new();
    cursor.activate(&items, id(2)).expect("present");
    assert_eq!(cursor.activate(&items, id(9)), None);
    assert_eq!(cursor.active(), Some(id(2)));
    assert_eq!(cursor.navigate(&CollectionProjection::empty(), CollectionCursorMove::Next), None);
    assert_eq!(cursor.active(), None);
    assert_eq!(CollectionCursor::new().reconcile(&items), None);
}

#[test]
fn collapsed_or_childless_items_hide_descendants() {
    let tree = TreeModel::new(vec![
        TreeItem { id: id(1), parent: None, has_children: true },
        TreeItem { id: id(2), parent: Some(id(1)), has_children: true },
        TreeItem { id: id(3), parent: Some(id(2)), has_children: false },
        TreeItem { id: id(4), parent: None, has_children: false },
        TreeItem { id: id(5), parent: Some(id(4)), has_children: false },
    ]);
    let mut expansion = TreeExpansion::new();
    assert_eq!(tree.visible_item_ids(&expansion), vec![id(1), id(4)]);
    expansion.expand(id(1));
    expansion.expand(id(4));
    assert_eq!(tree.visible_item_ids(&expansion), vec![id(1), id(2), id(4)]);
    expansion.expand(id(2));
    assert_eq!(tree.visible_item_ids(&expansion), vec![id(1), id(2), id(3), id(4)]);
    assert_eq!(expansion.expanded(), vec![id(1), id(2), id(4)]);
    assert!(expansion.is_expanded(id(2)));
    assert!(!expansion.is_expanded(id(3)));
}

#[test]
fn small_collection_types_keep_their_values() {
    let sort = TableSort { column: id(3), direction: SortDirection::Descending };
    assert_eq!(sort.column, id(3));
    assert_eq!(sort.direction, SortDirection::Descending);
    assert_eq!(VirtualListSelectionMode::default(), VirtualListSelectionMode::Single);
    assert_eq!(VirtualListRow::new("Row").label, "Row");
}

#[test]
fn overscan_widens_and_clips_ranges() {
    assert_eq!(overscan_range(5, 9, 2, 100), 3..11);
    assert_eq!(overscan_range(1, 4, 3, 5), 0..5);
    assert_eq!(overscan_range(2, usize::MAX - 1, 5, usize::MAX), 0..usize::MAX);
    assert_eq!(overscan_range(10, 12, 0, 4), 10..4);
    assert_eq!(overscan_range(0, 0, 1, 0), 0..0);
}

#[test]
fn tree_expansion_survives_filtered_hidden_descendants() {
    let model = OutlinerModel::new(vec![
        OutlinerItem::new(id(1), "World").with_has_children(true),
        OutlinerItem::new(id(2), "Rig")
            .with_parent(id(1))
            .with_has_children(true),
        OutlinerItem::new(id(3), "Camera").with_parent(id(2)),
        OutlinerItem::new(id(4), "Material"),
    ]);
    let mut expansion = TreeExpansion::new();
    expansion.expand(id(1));
    expansion.expand(id(2));

    let filtered = model.filtered_visible_rows(&expansion, |item| item.id != id(3));

    assert_eq!(
        filtered.iter().map(|row| row.id).collect::<Vec<_>>(),
        vec![id(1), id(2), id(4)]
    );
    assert_eq!(expansion.expanded(), vec![id(1), id(2)]);

    let unfiltered = model.visible_rows(&expansion);
    assert_eq!(
        unfiltered.iter().map(|row| row.id).collect::<Vec<_>>(),
        vec![id(1), id(2), id(3), id(4)]
    );
}

#[test]
fn outliner_filter_keeps_matching_descendant_context() {
    let model = OutlinerModel::new(vec![
        OutlinerItem::new(id(1), "World").with_has_children(true),
        OutlinerItem::new(id(2), "Lighting").with_parent(id(1)),
        OutlinerItem::new(id(3), "Materials"),
    ]);
    let mut expansion = TreeExpansion::new();
    expansion.expand(id(1));

    let rows = model.filtered_visible_rows(&expansion, |item| item.label.contains("Light"));

    assert_eq!(
        rows.iter()
            .map(|row| (row.id, row.depth, row.label.as_str()))
            .collect::<Vec<_>>(),
        vec![(id(1), 0, "World"), (id(2), 1, "Lighting")]
    );
    assert_eq!(expansion.expanded(), vec![id(1)]);
}

#[test]
fn collapsed_context_rows_hide_their_matches() {
    let model = OutlinerModel::new(vec![
        OutlinerItem::new(id(1), "Scene").with_has_children(true),
        OutlinerItem::new(id(2), "Group")
            .with_parent(id(1))
            .with_has_children(true),
        OutlinerItem::new(id(3), "Lamp").with_parent(id(2)),
        OutlinerItem::new(id(4), "Floor").with_parent(id(1)),
    ]);
    let mut expansion = TreeExpansion::new();
    expansion.expand(id(1));

    let rows = model.filtered_visible_rows(&expansion, |item| item.label == "Lamp");
    assert_eq!(
        rows.iter().map(|row| (row.id, row.depth)).collect::<Vec<_>>(),
        vec![(id(1), 0), (id(2), 1)]
    );
    expansion.expand(id(2));
    let rows = model.filtered_visible_rows(&expansion, |item| item.label == "Lamp");
    assert_eq!(
        rows.iter().map(|row| (row.id, row.depth)).collect::<Vec<_>>(),
        vec![(id(1), 0), (id(2), 1), (id(3), 2)]
    );
    assert!(model.filtered_visible_rows(&expansion, |_| false).is_empty());
}

fn asset(raw: u64, name: &str, kind: &str, tags: &[&str]) -> AssetBrowserItem {
    AssetBrowserItem::new(id(raw), name, kind).with_tags(tags)
}

fn asset_model() -> AssetBrowserModel {
    AssetBrowserModel::new(vec![
        asset(10, "Concrete", "material", &["surface", "rough"]),
        asset(20, "Camera Rig", "prefab", &["scene", "camera"]),
        asset(30, "Studio HDRI", "image", &["lighting", "hdr"]),
        asset(40, "Terrain", "mesh", &["surface", "large"]),
    ])
}

#[test]
fn asset_sorting_uses_app_provided_keys_and_source_indices() {
    let model = asset_model();
    let by_kind = model.projected(
        |_| true,
        Some(AssetBrowserSort::new(
            AssetBrowserSortKey::Kind,
            SortDirection::Ascending,
        )),
    );
    assert_eq!(by_kind.visible_ids(), vec![id(30), id(10), id(40), id(20)]);
    assert_eq!(by_kind.source_indices(), vec![2, 0, 3, 1]);

    let by_tags_desc = model.projected(
        |_| true,
        Some(AssetBrowserSort::new(
            AssetBrowserSortKey::Tags,
            SortDirection::Descending,
        )),
    );
    assert_eq!(
        by_tags_desc.visible_ids(),
        vec![id(10), id(40), id(20), id(30)]
    );
}

#[test]
fn asset_projection_filters_then_sorts_stably_by_name() {
    let model = AssetBrowserModel::new(vec![
        asset(1, "b", "mesh", &[]),
        asset(2, "a", "mesh", &["x"]),
        asset(3, "b", "image", &[]),
        asset(4, "c", "mesh", &[]),
    ]);
    let unsorted = model.projected(|item| item.kind == "mesh", None);
    assert_eq!(unsorted.visible_ids(), vec![id(1), id(2), id(4)]);
    assert_eq!(unsorted.source_indices(), vec![0, 1, 3]);

    let by_name = model.projected(
        |_| true,
        Some(AssetBrowserSort::new(AssetBrowserSortKey::Name, SortDirection::Ascending)),
    );
    assert_eq!(by_name.visible_ids(), vec![id(2), id(1), id(3), id(4)]);
    let by_name_desc = model.projected(
        |_| true,
        Some(AssetBrowserSort::new(AssetBrowserSortKey::Name, SortDirection::Descending)),
    );
    assert_eq!(by_name_desc.visible_ids(), vec![id(4), id(1), id(3), id(2)]);
    let by_tags = model.projected(
        |_| true,
        Some(AssetBrowserSort::new(AssetBrowserSortKey::Tags, SortDirection::Ascending)),
    );
    assert_eq!(by_tags.visible_ids(), vec![id(1), id(3), id(4), id(2)]);
}

#[test]
fn text_comparison_follows_utf8_byte_order() {
    assert_eq!(compare_text("abc", "abd"), std::cmp::Ordering::Less);
    assert_eq!(compare_text("ab", "abc"), std::cmp::Ordering::Less);
    assert_eq!(compare_text("b", "abc"), std::cmp::Ordering::Greater);
    assert_eq!(compare_text("Zeta", "alpha"), std::cmp::Ordering::Less);
    assert_eq!(compare_text("é", "z"), std::cmp::Ordering::Greater);
    assert_eq!(compare_text("same", "same"), std::cmp::Ordering::Equal);
}
