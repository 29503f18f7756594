use ratatui::layout::{Constraint as TC, Direction as TD, Layout as TL, Rect as TR};
use ratatui::widgets::{Block, Borders};
use shellshop::border::{border_trail, BorderPiece, TrailCell, TrailGlyph};
use shellshop::layout::{
    account_menu_area, center_offset, centered_rect, frame_inner, main_layout, splash_layout,
    tab_strip_width, Rect,
};

fn own(r: TR) -> Rect {
    Rect { x: r.x, y: r.y, width: r.width, height: r.height }
}

fn within(inner: Rect, outer: Rect) -> bool {
    outer.x <= inner.x
        && inner.x + inner.width <= outer.x + outer.width
        && outer.y <= inner.y
        && inner.y + inner.height <= outer.y + outer.height
}

#[test]
fn centered_rect_is_in_the_middle() {
    let r = Rect { x: 0, y: 0, width: 100, height: 40 };
    let c = centered_rect(40, 25, r);
    assert!(within(c, r));
    assert!(c.x > 0 && c.y > 0);
    assert!(c.width < 100 && c.height < 40);
    let whole = centered_rect(100, 100, r);
    assert_eq!(whole, r);
}

#[test]
fn centered_rect_is_the_middle_of_the_library_split() {
    let r = TR::new(0, 0, 100, 40);
    let rows = TL::default()
        .direction(TD::Vertical)
        .constraints([TC::Percentage(37), TC::Percentage(25), TC::Percentage(37)])
        .split(r);
    let cols = TL::default()
        .direction(TD::Horizontal)
        .constraints([TC::Percentage(30), TC::Percentage(40), TC::Percentage(30)])
        .split(rows[1]);
    assert_eq!(centered_rect(40, 25, own(r)), own(cols[1]));
}

#[test]
fn splash_rows_are_the_library_split_of_the_centre() {
    let size = Rect { x: 0, y: 0, width: 120, height: 48 };
    let area = centered_rect(40, 25, size);
    let parts = TL::default()
        .direction(TD::Vertical)
        .constraints([TC::Length(5), TC::Length(2), TC::Length(1), TC::Min(0)])
        .split(TR::new(area.x, area.y, area.width, area.height));
    let l = splash_layout(size);
    assert_eq!(l.banner, own(parts[0]));
    assert_eq!(l.gauge, own(parts[2]));
}

#[test]
fn splash_banner_and_gauge() {
    let size = Rect { x: 0, y: 0, width: 120, height: 48 };
    let l = splash_layout(size);
    assert!(within(l.banner, size));
    assert!(within(l.gauge, size));
    assert_eq!(l.banner.x, l.gauge.x);
    assert_eq!(l.banner.width, l.gauge.width);
    assert_eq!(l.banner.height, 5);
    assert_eq!(l.gauge.height, 1);
    assert_eq!(l.gauge.y, l.banner.y + 7);
}

#[test]
fn splash_on_a_small_screen_stays_inside() {
    let size = Rect { x: 0, y: 0, width: 80, height: 24 };
    let l = splash_layout(size);
    assert!(within(l.banner, size));
    assert!(within(l.gauge, size));
    assert_eq!(l.banner.width, l.gauge.width);
}

#[test]
fn frame_inner_takes_one_cell_off_each_side() {
    assert_eq!(
        frame_inner(Rect { x: 3, y: 2, width: 10, height: 5 }),
        Rect { x: 4, y: 3, width: 8, height: 3 }
    );
    assert_eq!(
        frame_inner(Rect { x: 0, y: 0, width: 1, height: 1 }),
        Rect { x: 1, y: 1, width: 0, height: 0 }
    );
    assert_eq!(
        frame_inner(Rect { x: 0, y: 0, width: 0, height: 0 }),
        Rect { x: 0, y: 0, width: 0, height: 0 }
    );
}

#[test]
fn frame_inner_agrees_with_the_library() {
    for (x, y, w, h) in [(0u16, 0u16, 10u16, 5u16), (5, 7, 1, 2), (2, 2, 0, 0), (1, 1, 80, 24)] {
        let block = Block::default().borders(Borders::ALL).title_bottom("caption");
        let expected = block.inner(TR::new(x, y, w, h));
        assert_eq!(frame_inner(Rect { x, y, width: w, height: h }), own(expected));
    }
}

#[test]
fn offsets_and_strip_widths() {
    assert_eq!(center_offset(100, 43), 28);
    assert_eq!(center_offset(10, 43), 0);
    assert_eq!(tab_strip_width(&vec![11, 8, 8, 8]), 43);
    assert_eq!(tab_strip_width(&vec![7, 8, 9, 8, 8, 10]), 62);
    assert_eq!(tab_strip_width(&vec![]), 0);
}

#[test]
fn main_layout_matches_the_recipe() {
    let size = TR::new(0, 0, 100, 40);
    let l = main_layout(own(size), 43);
    // 10/80/10 of 40 rows and 5/90/5 of 100 columns come out exact.
    assert_eq!(l.frame, Rect { x: 5, y: 4, width: 90, height: 32 });
    let inner = Block::default().borders(Borders::ALL).inner(to_tui(l.frame));
    assert_eq!(l.inner, own(inner));
    assert!(within(l.tabs, l.inner));
    assert!(within(l.body, l.inner));
    assert_eq!(l.body.x, l.inner.x);
    assert_eq!(l.body.width, l.inner.width);
    assert_eq!(l.tabs.y, l.inner.y);
    assert_eq!(l.body.y, l.inner.y + 2);
    assert_eq!(l.tabs.x, l.inner.x + (l.inner.width - 43) / 2);
    let menu = account_menu_area(l.body, 62);
    assert!(within(menu, l.body));
    assert_eq!(menu.y, l.body.y);
    assert_eq!(menu.height, 1);
    assert_eq!(menu.x, l.body.x + (l.body.width - 62) / 2);
}

fn to_tui(r: Rect) -> TR {
    TR::new(r.x, r.y, r.width, r.height)
}

fn cell(x: u16, y: u16, glyph: TrailGlyph) -> TrailCell {
    TrailCell { x, y, glyph }
}

#[test]
fn trail_head_starts_at_bottom_right() {
    let area = Rect { x: 0, y: 0, width: 4, height: 3 };
    assert_eq!(border_trail(area, 10, 10, 0, 5), Some(vec![cell(3, 2, TrailGlyph::Text(0))]));
    assert_eq!(
        border_trail(area, 10, 10, 2, 5),
        Some(vec![
            cell(3, 2, TrailGlyph::Text(2)),
            cell(2, 2, TrailGlyph::Text(1)),
            cell(1, 2, TrailGlyph::Text(0)),
        ])
    );
}

#[test]
fn trail_goes_round_the_frame() {
    let area = Rect { x: 0, y: 0, width: 4, height: 3 };
    assert_eq!(
        border_trail(area, 10, 10, 12, 5),
        Some(vec![
            cell(3, 2, TrailGlyph::Border(BorderPiece::BottomRight)),
            cell(2, 2, TrailGlyph::Border(BorderPiece::Horizontal)),
            cell(1, 2, TrailGlyph::Border(BorderPiece::Horizontal)),
            cell(0, 2, TrailGlyph::Border(BorderPiece::BottomLeft)),
            cell(0, 1, TrailGlyph::Border(BorderPiece::Vertical)),
            cell(0, 0, TrailGlyph::Border(BorderPiece::TopLeft)),
            cell(1, 0, TrailGlyph::Border(BorderPiece::Horizontal)),
            cell(2, 0, TrailGlyph::Border(BorderPiece::Horizontal)),
            cell(3, 0, TrailGlyph::Text(4)),
            cell(3, 1, TrailGlyph::Text(3)),
        ])
    );
}

#[test]
fn trail_is_clipped_to_the_screen() {
    let area = Rect { x: 0, y: 0, width: 4, height: 3 };
    let cells = border_trail(area, 3, 10, 12, 5).unwrap();
    assert_eq!(cells.len(), 7);
    assert!(cells.iter().all(|c| c.x < 3));
}

#[test]
fn trail_stops_when_caption_has_run_off() {
    let area = Rect { x: 5, y: 5, width: 4, height: 3 };
    assert_eq!(border_trail(area, 100, 100, 15, 5), None);
    assert!(border_trail(area, 100, 100, 14, 5).is_some());
    assert_eq!(border_trail(Rect { x: 0, y: 0, width: 1, height: 9 }, 100, 100, 0, 5), None);
    assert_eq!(border_trail(Rect { x: 0, y: 0, width: 9, height: 1 }, 100, 100, 0, 5), None);
}

#[test]
fn trail_is_offset_with_the_area() {
    let area = Rect { x: 5, y: 7, width: 4, height: 3 };
    assert_eq!(border_trail(area, 100, 100, 0, 1), Some(vec![cell(8, 9, TrailGlyph::Text(0))]));
    let cells = border_trail(area, 100, 100, 3, 1).unwrap();
    assert_eq!(cells[3], cell(5, 9, TrailGlyph::Text(0)));
    assert_eq!(cells[0], cell(8, 9, TrailGlyph::Border(BorderPiece::BottomRight)));
}
