//! Where things stand in the smallest windows, and in wider ones.

use mstream_admin::backups_view::{dest_columns, run_columns, DestColumns, ON_W, RUN_BYTES_W};
use mstream_admin::discovery_view::{blocked_height, compose_height, config_columns, server_columns, sheet_height, tile_place, FEDERATION_W};
use mstream_admin::federation::{FederationLimits, Form, FormKind};
use mstream_admin::federation_view::{cap_fields, form_layout, peer_columns, request_columns, ticket_columns, PEER_DISCOVERY_W, REQUEST_AGE_W, TICKET_CLAIMED_W};
use mstream_admin::layout::{facts_kept, grid_place, wrap_places, Rect};
use mstream_admin::libraries_view::places;
use mstream_admin::stats_series::{column_level, fold_values, place_labels};
use mstream_admin::stats_view::{overview_rows, period_list, picker_place, recent_columns, share_of, top_columns, OverviewRows};

/// The table of a room in a window of 80 columns.
fn table() -> Rect {
    Rect { x: 2, y: 10, width: 76, height: 10 }
}

#[test]
fn the_columns_of_federation_end_with_the_table() {
    let r = request_columns(table());
    assert_eq!((r.message, r.message_width, r.status, r.age), (22, 26, 50, 72));
    assert_eq!(r.age + REQUEST_AGE_W, 78);
    let t = ticket_columns(table());
    assert_eq!((t.libraries, t.limits, t.limits_width, t.today, t.last, t.claimed), (20, 38, 10, 50, 58, 69));
    assert_eq!(t.claimed + TICKET_CLAIMED_W, 78);
    let p = peer_columns(table());
    assert_eq!((p.status, p.status_width, p.seen, p.discovery), (26, 26, 54, 68));
    assert_eq!(p.discovery + PEER_DISCOVERY_W, 78);
}

#[test]
fn the_columns_of_the_report_end_with_the_page() {
    let t = top_columns(table(), true);
    assert_eq!((t.name, t.name_width, t.tracks, t.share, t.plays, t.time, t.last), (6, 29, None, 37, 49, 57, Some(66)));
    let g = top_columns(table(), false);
    assert_eq!((g.name_width, g.tracks, g.share, g.plays, g.time, g.last), (31, Some(39), 51, 63, 71, None));
    let r = recent_columns(table());
    assert_eq!((r.day, r.track, r.track_width, r.outcome, r.listened, r.client), (9, 23, 6, 31, 50, 64));
}

#[test]
fn the_columns_of_the_other_rooms_stand_in_order() {
    let c = server_columns(table());
    assert_eq!((c.server_width, c.tracks, c.seeders, c.online, c.snapshot, c.federation), (17, Some(19), None, 28, 43, 64));
    assert_eq!(c.federation + FEDERATION_W, 78);
    let p = places(Rect { x: 2, y: 2, width: 54, height: 7 });
    assert_eq!((p.path, p.path_width, p.links, p.remove, p.rows_y, p.room), (18, 24, 44, 53, 8, 1));
    let d = dest_columns(table(), &vec![5, 13], &vec![9, 5]);
    let wanted = DestColumns { dest: 14, dest_width: 13, trigger: 29, trigger_width: 13, retention: 44, retention_width: 9, last: 55, on: 75 };
    assert_eq!(d, wanted);
    assert_eq!(d.on + ON_W, 78);
    let r = run_columns(5);
    assert!(r.started < r.status && r.status < r.trigger && r.trigger < r.copied && r.copied < r.unchanged);
    assert!(r.unchanged < r.trashed && r.trashed < r.bytes && r.bytes + RUN_BYTES_W <= 87);
    assert_eq!(config_columns(table()).value, 29);
    assert_eq!(config_columns(Rect { width: 50, ..table() }).hint, None);
}

#[test]
fn a_form_has_a_row_for_every_part() {
    let limits = FederationLimits { stream_kbps: 0, daily_mb: 0, max_streams: 0 };
    let names: Vec<String> = ["a", "b", "c", "d"].iter().map(|s| s.to_string()).collect();
    let mint = form_layout(&Form::new(FormKind::Mint, &names, &limits));
    assert_eq!((mint.height, mint.name, mint.libraries, mint.limits, mint.caps), (21, Some(2), Some((7, 8)), 11, 12));
    assert_eq!((mint.error, mint.buttons, mint.offer, mint.expiry), (17, 18, None, None));
    let change = form_layout(&Form::new(FormKind::Limits, &names, &limits));
    assert_eq!((change.height, change.libraries, change.limits, change.expiry), (18, None, 3, Some((9, 10))));
    let mut accept = Form::new(FormKind::Accept, &names, &limits);
    assert_eq!(form_layout(&accept).offer, None);
    accept.their_offer.push("jazz".into());
    let rows = form_layout(&accept);
    assert_eq!((rows.height, rows.offer), (18, Some(13)));
    let caps = cap_fields(FormKind::Mint, 10, 60);
    assert_eq!(caps.iter().map(|c| (c.x, c.width)).collect::<Vec<_>>(), [(10, 14), (26, 14), (42, 14), (58, 12)]);
}

#[test]
fn cards_grow_with_what_they_list() {
    assert_eq!((sheet_height(6), sheet_height(0)), (16, 10));
    assert_eq!((compose_height(0), compose_height(3), compose_height(4)), (15, 15, 16));
    assert_eq!((blocked_height(0), blocked_height(1), blocked_height(5)), (7, 7, 11));
}

#[test]
fn tiles_and_grids_share_no_cell() {
    let tiles: Vec<Rect> = (0..6).map(|i| tile_place(table(), i)).collect();
    assert_eq!((tiles[0].x, tiles[1].x, tiles[2].x, tiles[0].width), (2, 27, 52, 24));
    assert_eq!((tiles[0].y, tiles[3].y), (10, 14));
    let grid: Vec<Rect> = (0..5).map(|i| grid_place(table(), i)).collect();
    for (i, a) in grid.iter().enumerate() {
        for b in &grid[i + 1..] {
            assert!(a.y != b.y || a.right() <= b.x, "{a:?} {b:?}");
        }
    }
    assert_eq!((grid[4].x, grid[4].y), (27, 11));
}

#[test]
fn a_wider_window_shows_no_fewer_facts() {
    let widths = vec![20, 15, 30];
    let kept: Vec<usize> = [10, 20, 34, 35, 64, 65, 200].iter().map(|w| facts_kept(&widths, *w)).collect();
    assert_eq!(kept, [1, 1, 1, 2, 2, 3, 3]);
}

#[test]
fn choices_wrap_at_the_width() {
    let places = wrap_places(&vec![10, 10, 10], 31);
    assert_eq!(places.len(), 3);
    assert_eq!(places[0], (0, 0));
    assert_eq!(places[1], (0, 17));
    assert_eq!(places[2].0, 1);
    assert_eq!(places[2].1, 0);
}

#[test]
fn the_overview_keeps_to_the_page() {
    let rows = overview_rows(Rect { x: 2, y: 6, width: 76, height: 16 });
    assert_eq!(rows, OverviewRows { tiles: 8, tile_rows: 2, days: Some(16), hours: None });
    let tall = overview_rows(Rect { x: 2, y: 6, width: 96, height: 22 });
    assert_eq!((tall.days, tall.hours), (Some(16), Some(22)));
    let low = overview_rows(Rect { x: 2, y: 6, width: 76, height: 15 });
    assert_eq!((low.tile_rows, low.days), (2, None));
}

#[test]
fn the_period_under_the_cursor_is_in_view() {
    for cursor in 0..40 {
        let (_, first, visible) = period_list(40, cursor, 24, true);
        assert!(first <= cursor && cursor < first + visible, "{cursor}");
        assert_eq!(visible, 16);
    }
    assert_eq!(period_list(2, 0, 24, false), (7, 0, 2));
}

#[test]
fn a_picker_stands_against_the_edge_or_not_at_all() {
    // The label and two cells, and each choice with its mark: 6 + 2 + 3 * 12.
    assert_eq!(picker_place(10, 6, &vec![5, 5, 5], 78), Some(34));
    assert_eq!(picker_place(40, 6, &vec![5, 5, 5], 78), None);
    assert_eq!(picker_place(34, 6, &vec![5, 5, 5], 78), Some(34));
    assert_eq!(picker_place(0, 0, &vec![u16::MAX; 100_000], u16::MAX), None);
}

#[test]
fn shares_and_columns_grow_with_what_they_show() {
    let shares: Vec<usize> = [0, 4, 5, 50, 94, 95, 100].iter().map(|v| share_of(*v, 100)).collect();
    assert_eq!(shares, [0, 0, 1, 5, 9, 10, 10]);
    assert_eq!((0..4).map(|row| column_level(5, 10, 4, row)).collect::<Vec<_>>(), [0, 0, 8, 8]);
    assert_eq!((0..4).map(|row| column_level(10, 10, 4, row)).collect::<Vec<_>>(), [8, 8, 8, 8]);
    assert_eq!((0..4).map(|row| column_level(1, 10, 4, row)).collect::<Vec<_>>(), [0, 0, 0, 3]);
}

#[test]
fn folding_loses_no_play() {
    assert_eq!(fold_values(&vec![1, 2, 3, 4, 5], 2), [3, 7, 5]);
    assert_eq!(fold_values(&vec![1, 2, 3], 1), [1, 2, 3]);
}

#[test]
fn labels_under_a_chart_never_touch() {
    let placed = place_labels(&vec![(0, 5), (2, 5), (3, 5), (9, 5)], 2, 20);
    assert_eq!(placed, [Some(0), None, Some(6), None]);
}
