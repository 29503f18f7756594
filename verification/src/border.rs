//! The animated frame of the main screen: a head runs along the frame,
//! anticlockwise from the bottom-right corner, trailing the frame's caption
//! text behind it and leaving the frame drawn where it has passed.

use vstd::prelude::*;

use crate::layout::Rect;

verus! {

/// The pieces of a frame.
#[derive(Debug, Clone, Copy, PartialEq, Eq, Structural)]
pub enum BorderPiece {
    BottomRight,
    BottomLeft,
    TopLeft,
    TopRight,
    Horizontal,
    Vertical,
}

/// What one cell of the running frame shows.
#[derive(Debug, Clone, Copy, PartialEq, Eq, Structural)]
pub enum TrailGlyph {
    /// The byte of the caption text at this index.
    Text(usize),
    /// A piece of the frame.
    Border(BorderPiece),
}

/// One cell of the running frame.
#[derive(Debug, Clone, Copy, PartialEq, Eq, Structural)]
pub struct TrailCell {
    pub x: u16,
    pub y: u16,
    pub glyph: TrailGlyph,
}

/// Number of cells on the frame of a `w` x `h` area.
pub open spec fn perimeter(w: int, h: int) -> int {
    if 2 * w + 2 * h >= 4 {
        2 * w + 2 * h - 4
    } else {
        0
    }
}

/// Whether the frame is animated at `t_head`: the area is at least 2 x 2 and
/// the trailing text has not run off the frame yet.  Otherwise the frame is
/// drawn whole, with its caption.
pub open spec fn trail_running(area: Rect, t_head: int, text_len: int) -> bool {
    area.width > 1 && area.height > 1 && t_head < perimeter(area.width as int, area.height as int)
        + text_len
}

/// The cell at distance `d` along the frame of `area`, starting at the
/// bottom-right corner and running left along the bottom, up the left side,
/// right along the top and down the right side; with the frame piece there.
pub open spec fn frame_cell(area: Rect, d: int) -> (int, int, BorderPiece) {
    let w = area.width as int;
    let h = area.height as int;
    if d < w {
        (
            area.x + (w - 1 - d),
            area.y + (h - 1),
            if d == 0 {
                BorderPiece::BottomRight
            } else if d == w - 1 {
                BorderPiece::BottomLeft
            } else {
                BorderPiece::Horizontal
            },
        )
    } else if d < w + h - 1 {
        let i = d - w + 1;
        (area.x as int, area.y + (h - 1 - i), if i == h - 1 {
            BorderPiece::TopLeft
        } else {
            BorderPiece::Vertical
        })
    } else if d < 2 * w + h - 2 {
        let i = d - (w + h - 1) + 1;
        (area.x + i, area.y as int, if i == w - 1 {
            BorderPiece::TopRight
        } else {
            BorderPiece::Horizontal
        })
    } else {
        let i = d - (2 * w + h - 2) + 1;
        (area.x + (w - 1), area.y + i, BorderPiece::Vertical)
    }
}

/// What the cell at distance `d` shows when the head is at `t_head`: the
/// caption byte `t_head - d` while that is within the caption, else the frame.
pub open spec fn glyph_at(area: Rect, d: int, t_head: int, text_len: int) -> TrailGlyph {
    if t_head >= d && t_head - d < text_len {
        TrailGlyph::Text((t_head - d) as usize)
    } else {
        TrailGlyph::Border(frame_cell(area, d).2)
    }
}

/// The cells drawn for distances `0 .. n`: those the head has reached that
/// lie on the screen (`screen_w` x `screen_h`), in order of distance.
pub open spec fn trail_upto(
    area: Rect,
    screen_w: u16,
    screen_h: u16,
    t_head: int,
    text_len: int,
    n: int,
) -> Seq<TrailCell>
    decreases n,
{
    if n <= 0 {
        Seq::empty()
    } else {
        let before = trail_upto(area, screen_w, screen_h, t_head, text_len, n - 1);
        let d = n - 1;
        let (cx, cy, _) = frame_cell(area, d);
        if d <= t_head && cx < screen_w && cy < screen_h {
            before.push(
                TrailCell { x: cx as u16, y: cy as u16, glyph: glyph_at(area, d, t_head, text_len) },
            )
        } else {
            before
        }
    }
}

/// A point on the frame of `area`.
pub open spec fn on_frame(area: Rect, x: int, y: int) -> bool {
    &&& area.x <= x <= area.x + area.width - 1
    &&& area.y <= y <= area.y + area.height - 1
    &&& (x == area.x || x == area.x + area.width - 1 || y == area.y || y == area.y + area.height - 1)
}

/// Every distance along the frame names a cell of the frame.
pub proof fn lemma_frame_cell_on_frame(area: Rect, d: int)
    requires
        area.width > 1,
        area.height > 1,
        0 <= d < perimeter(area.width as int, area.height as int),
    ensures
        on_frame(area, frame_cell(area, d).0, frame_cell(area, d).1),
{
}

/// The head never passes a cell twice in one round: different distances
/// along the frame name different cells.
pub proof fn lemma_frame_cells_distinct(area: Rect, d1: int, d2: int)
    requires
        area.width > 1,
        area.height > 1,
        0 <= d1 < d2 < perimeter(area.width as int, area.height as int),
    ensures
        (frame_cell(area, d1).0, frame_cell(area, d1).1) != (frame_cell(area, d2).0, frame_cell(
            area,
            d2,
        ).1),
{
}

/// Every cell of the frame is passed in a round: some distance along the
/// frame names it.
pub proof fn lemma_frame_cells_cover(area: Rect, x: int, y: int)
    requires
        area.width > 1,
        area.height > 1,
        on_frame(area, x, y),
    ensures
        exists|d: int|
            0 <= d < perimeter(area.width as int, area.height as int) && (#[trigger] frame_cell(
                area,
                d,
            ).0, frame_cell(area, d).1) == (x, y),
{
    let w = area.width as int;
    let h = area.height as int;
    let d = if y == area.y + h - 1 {
        area.x + w - 1 - x
    } else if x == area.x {
        (area.y + h - 1 - y) + w - 1
    } else if y == area.y {
        (x - area.x) + w + h - 2
    } else {
        (y - area.y) + 2 * w + h - 3
    };
    assert((frame_cell(area, d).0, frame_cell(area, d).1) == (x, y));
}

/// The piece of a frame drawn at the point `(x, y)` of the frame of `area`:
/// each corner its own corner piece, the rest of the top and bottom rows a
/// horizontal line, the rest of the left and right columns a vertical line.
pub open spec fn piece_at(area: Rect, x: int, y: int) -> BorderPiece {
    let left = area.x as int;
    let right = area.x + area.width - 1;
    let top = area.y as int;
    let bottom = area.y + area.height - 1;
    if x == right && y == bottom {
        BorderPiece::BottomRight
    } else if x == left && y == bottom {
        BorderPiece::BottomLeft
    } else if x == left && y == top {
        BorderPiece::TopLeft
    } else if x == right && y == top {
        BorderPiece::TopRight
    } else if y == top || y == bottom {
        BorderPiece::Horizontal
    } else {
        BorderPiece::Vertical
    }
}

/// Walking the frame, the piece at every distance is the one its place on
/// the frame calls for: the four corners show their corner pieces and only
/// the cells between them show straight lines.
pub proof fn lemma_frame_cell_piece(area: Rect, d: int)
    requires
        area.width > 1,
        area.height > 1,
        0 <= d < perimeter(area.width as int, area.height as int),
    ensures
        frame_cell(area, d).2 == piece_at(area, frame_cell(area, d).0, frame_cell(area, d).1),
{
}

/// Every frame piece that the running frame shows is the piece for its cell.
pub proof fn lemma_trail_pieces(
    area: Rect,
    screen_w: u16,
    screen_h: u16,
    t_head: int,
    text_len: int,
    n: int,
)
    requires
        area.width > 1,
        area.height > 1,
        n <= perimeter(area.width as int, area.height as int),
    ensures
        forall|k: int|
            0 <= k < trail_upto(area, screen_w, screen_h, t_head, text_len, n).len() ==> ((
            #[trigger] trail_upto(area, screen_w, screen_h, t_head, text_len, n)[k]).glyph matches TrailGlyph::Border(
                p,
            ) ==> p == piece_at(
                area,
                trail_upto(area, screen_w, screen_h, t_head, text_len, n)[k].x as int,
                trail_upto(area, screen_w, screen_h, t_head, text_len, n)[k].y as int,
            )),
    decreases n,
{
    if n > 0 {
        lemma_trail_pieces(area, screen_w, screen_h, t_head, text_len, n - 1);
        lemma_frame_cell_piece(area, n - 1);
        lemma_frame_cell_on_frame(area, n - 1);
    }
}

/// The cells of the running frame at `t_head` for the frame of `area` on a
/// screen `screen_w` x `screen_h`, or `None` when the frame is drawn whole
/// (too small, or the caption has run off).
pub fn border_trail(area: Rect, screen_w: u16, screen_h: u16, t_head: usize, text_len: usize) -> (r:
    Option<Vec<TrailCell>>)
    requires
        area.wf(),
    ensures
        r is None <==> !trail_running(area, t_head as int, text_len as int),
        r matches Some(cells) ==> cells@ == trail_upto(
            area,
            screen_w,
            screen_h,
            t_head as int,
            text_len as int,
            perimeter(area.width as int, area.height as int),
        ),
        r matches Some(cells) ==> forall|k: int|
            0 <= k < cells@.len() ==> {
                &&& on_frame(area, cells@[k].x as int, cells@[k].y as int)
                &&& cells@[k].x < screen_w
                &&& cells@[k].y < screen_h
                &&& (cells@[k].glyph matches TrailGlyph::Text(j) ==> j < text_len)
                &&& (cells@[k].glyph matches TrailGlyph::Border(p) ==> p == piece_at(
                    area,
                    cells@[k].x as int,
                    cells@[k].y as int,
                ))
            },
{
    let w: usize = area.width as usize;
    let h: usize = area.height as usize;
    let per: usize = if 2 * w + 2 * h >= 4 {
        2 * w + 2 * h - 4
    } else {
        0
    };
    if !(w > 1 && h > 1 && (t_head < per || t_head - per < text_len)) {
        return None;
    }
    let mut cells: Vec<TrailCell> = Vec::new();
    let mut d: usize = 0;
    while d < per
        invariant
            w == area.width,
            h == area.height,
            w > 1,
            h > 1,
            area.wf(),
            per == perimeter(w as int, h as int),
            d <= per,
            cells@ == trail_upto(area, screen_w, screen_h, t_head as int, text_len as int, d as int),
            forall|k: int|
                0 <= k < cells@.len() ==> {
                    &&& on_frame(area, cells@[k].x as int, cells@[k].y as int)
                    &&& cells@[k].x < screen_w
                    &&& cells@[k].y < screen_h
                    &&& (cells@[k].glyph matches TrailGlyph::Text(j) ==> j < text_len)
                },
        decreases per - d,
    {
        proof {
            lemma_frame_cell_on_frame(area, d as int);
        }
        if d <= t_head {
            let (cx, cy, piece): (u16, u16, BorderPiece) = if d < w {
                let i = d;
                (
                    area.x + (w - 1 - i) as u16,
                    area.y + (h - 1) as u16,
                    if i == 0 {
                        BorderPiece::BottomRight
                    } else if i == w - 1 {
                        BorderPiece::BottomLeft
                    } else {
                        BorderPiece::Horizontal
                    },
                )
            } else if d < w + h - 1 {
                let i = d - w + 1;
                (
                    area.x,
                    area.y + (h - 1 - i) as u16,
                    if i == h - 1 {
                        BorderPiece::TopLeft
                    } else {
                        BorderPiece::Vertical
                    },
                )
            } else if d < 2 * w + h - 2 {
                let i = d - (w + h - 1) + 1;
                (
                    area.x + i as u16,
                    area.y,
                    if i == w - 1 {
                        BorderPiece::TopRight
                    } else {
                        BorderPiece::Horizontal
                    },
                )
            } else {
                let i = d - (2 * w + h - 2) + 1;
                (area.x + (w - 1) as u16, area.y + i as u16, BorderPiece::Vertical)
            };
            if cx < screen_w && cy < screen_h {
                let glyph = if t_head - d < text_len {
                    TrailGlyph::Text(t_head - d)
                } else {
                    TrailGlyph::Border(piece)
                };
                cells.push(TrailCell { x: cx, y: cy, glyph });
            }
        }
        d = d + 1;
    }
    proof {
        lemma_trail_pieces(area, screen_w, screen_h, t_head as int, text_len as int, per as int);
    }
    Some(cells)
}

} // verus!
