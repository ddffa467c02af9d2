//! Collection identities, projections, selection, navigation, trees,
//! outliners and asset browsers.

mod assets;
mod identity;
mod laws;
mod navigation;
mod outliner;
mod selection;
pub mod sorting;
mod table;
mod text_order;
mod tree;
mod virtual_list;
mod window;

pub use assets::{
    AssetBrowserItem, AssetBrowserModel, AssetBrowserSort, AssetBrowserSortKey, asset_after,
    asset_identity, asset_key, lemma_asset_order, sorted_assets, source_key,
};
pub use identity::{
    CollectionProjectedItem, CollectionProjection, ItemId, clamped_range, identity_projection,
    is_first_position, kept_items, lacks_id, lemma_item_id_view_injective, projected_ids,
    projected_source_indices,
};
pub use laws::{
    lemma_cursor_follows_identity, lemma_identity_projection_tracks_source_ids,
    lemma_kept_items_track_source_ids, lemma_navigation_never_wraps,
    lemma_projection_partitions_selection, lemma_rearrangement_tracks_source_ids,
    lemma_retain_visible_is_idempotent, lemma_retained_selection_hides_nothing,
    lemma_steps_move_by_their_size,
    lemma_toggle_twice_restores, tracks_source_ids,
};
pub use navigation::{
    CollectionCursor, CollectionCursorMove, CollectionCursorTarget, first_position_of,
    moved_position, resolved_position, target_at,
};
pub use outliner::{
    OutlinerItem, OutlinerModel, OutlinerRow, filtered_outliner_rows, kept_under, outliner_rows,
    presents_rows, shows_item,
};
pub use selection::{
    Selection, SelectionProjection, SelectionProjectionPolicy, is_first_index, kept_if,
    lists_in_order, projects, range_anchor, raw_ids_between, raw_ids_spanning, shows, toggled,
};
pub use table::{SortDirection, TableSort};
pub use text_order::{
    answers_order, bytes_before, compare_bytes, compare_text, compare_texts, lemma_bytes_order,
    lemma_texts_order, text_bytes, texts_before,
};
pub use tree::{TreeExpansion, TreeItem, TreeModel, shown_rows, visible_rows};
pub use virtual_list::{VirtualListRow, VirtualListSelectionMode};
pub use window::{overscan_range, saturated_end};
