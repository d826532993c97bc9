use vstd::prelude::*;

use crate::rect::Rect;
use crate::rect::RectModel;
use crate::rect::add_bottom_strip;
use crate::rect::add_left_strip;
use crate::rect::add_right_strip;
use crate::rect::add_top_strip;
use crate::rect::cut_bottom_piece;
use crate::rect::cut_bottom_rest;
use crate::rect::cut_left_piece;
use crate::rect::cut_left_rest;
use crate::rect::cut_right_piece;
use crate::rect::cut_right_rest;
use crate::rect::cut_top_piece;
use crate::rect::cut_top_rest;
use crate::rect::fits;
use crate::rect::get_bottom_piece;
use crate::rect::get_left_piece;
use crate::rect::get_right_piece;
use crate::rect::get_top_piece;

verus! {

/// A RectCutSide names a side of a rectangle, so a caller can choose the
/// side dynamically and pass it around as a value.
#[derive(Copy, Clone, Debug, PartialEq, Eq, Structural, PartialOrd, Ord)]
pub enum RectCutSide {
    Left,
    Right,
    Top,
    Bottom,
}

/// The piece a cut of `a` from the chosen side removes.
pub open spec fn cut_piece(r: RectModel, side: RectCutSide, a: int) -> RectModel {
    match side {
        RectCutSide::Left => cut_left_piece(r, a),
        RectCutSide::Right => cut_right_piece(r, a),
        RectCutSide::Top => cut_top_piece(r, a),
        RectCutSide::Bottom => cut_bottom_piece(r, a),
    }
}

/// The rectangle left over after a cut of `a` from the chosen side.
pub open spec fn cut_rest(r: RectModel, side: RectCutSide, a: int) -> RectModel {
    match side {
        RectCutSide::Left => cut_left_rest(r, a),
        RectCutSide::Right => cut_right_rest(r, a),
        RectCutSide::Top => cut_top_rest(r, a),
        RectCutSide::Bottom => cut_bottom_rest(r, a),
    }
}

/// What a peek at the chosen side computes.
pub open spec fn get_piece(r: RectModel, side: RectCutSide, a: int) -> RectModel {
    match side {
        RectCutSide::Left => get_left_piece(r, a),
        RectCutSide::Right => get_right_piece(r, a),
        RectCutSide::Top => get_top_piece(r, a),
        RectCutSide::Bottom => get_bottom_piece(r, a),
    }
}

/// The strip of thickness `a` lying immediately outside the chosen side.
pub open spec fn add_strip(r: RectModel, side: RectCutSide, a: int) -> RectModel {
    match side {
        RectCutSide::Left => add_left_strip(r, a),
        RectCutSide::Right => add_right_strip(r, a),
        RectCutSide::Top => add_top_strip(r, a),
        RectCutSide::Bottom => add_bottom_strip(r, a),
    }
}

/// Whether the bound a cut of `a` from the chosen side moves stays within
/// the machine scalar.
pub open spec fn cut_fits(r: RectModel, side: RectCutSide, a: int) -> bool {
    match side {
        RectCutSide::Left => fits(r.minx + a),
        RectCutSide::Right => fits(r.maxx - a),
        RectCutSide::Top => fits(r.miny + a),
        RectCutSide::Bottom => fits(r.maxy - a),
    }
}

/// The lower bound of a rectangle on the axis the chosen side cuts along:
/// the x axis for Left and Right, the y axis for Top and Bottom.
pub open spec fn axis_lo(r: RectModel, side: RectCutSide) -> int {
    match side {
        RectCutSide::Left => r.minx,
        RectCutSide::Right => r.minx,
        RectCutSide::Top => r.miny,
        RectCutSide::Bottom => r.miny,
    }
}

/// The upper bound of a rectangle on the axis the chosen side cuts along.
pub open spec fn axis_hi(r: RectModel, side: RectCutSide) -> int {
    match side {
        RectCutSide::Left => r.maxx,
        RectCutSide::Right => r.maxx,
        RectCutSide::Top => r.maxy,
        RectCutSide::Bottom => r.maxy,
    }
}

/// The extent of a rectangle on the axis the chosen side cuts along.
pub open spec fn axis_extent(r: RectModel, side: RectCutSide) -> int {
    axis_hi(r, side) - axis_lo(r, side)
}

/// Whether two rectangles agree on the axis orthogonal to the one the
/// chosen side cuts along.
pub open spec fn same_ortho(p: RectModel, q: RectModel, side: RectCutSide) -> bool {
    match side {
        RectCutSide::Left => p.miny == q.miny && p.maxy == q.maxy,
        RectCutSide::Right => p.miny == q.miny && p.maxy == q.maxy,
        RectCutSide::Top => p.minx == q.minx && p.maxx == q.maxx,
        RectCutSide::Bottom => p.minx == q.minx && p.maxx == q.maxx,
    }
}

/// A RectCut pairs a Rect with a fixed side, so the rectangle and the edge
/// future cuts come from travel together as one value.
#[derive(Copy, Clone, Debug)]
pub struct RectCut {
    pub rect: Rect,
    pub side: RectCutSide,
}

impl RectCut {
    /// Create a new RectCut.
    pub fn new(rect: Rect, side: RectCutSide) -> (rc: RectCut)
        ensures
            rc.rect == rect,
            rc.side == side,
    {
        RectCut { rect, side }
    }

    /// Cut out from the RectCut, returning the new Rect and modifying the
    /// internal Rect, exactly as the matching per-edge cut would.
    pub fn cut(&mut self, a: i64) -> (piece: Rect)
        requires
            cut_fits(old(self).rect@, old(self).side, a as int),
        ensures
            final(self).side == old(self).side,
            final(self).rect@ == cut_rest(old(self).rect@, old(self).side, a as int),
            piece@ == cut_piece(old(self).rect@, old(self).side, a as int),
    {
        match self.side {
            RectCutSide::Left => self.rect.cut_left(a),
            RectCutSide::Right => self.rect.cut_right(a),
            RectCutSide::Top => self.rect.cut_top(a),
            RectCutSide::Bottom => self.rect.cut_bottom(a),
        }
    }
}

/// A cut of an amount within the available extent removes a strip of
/// exactly that thickness from the chosen side: the piece and the remainder
/// share one boundary coordinate on the cut axis, together they reconstruct
/// the original extent with no gap and no overlap, and both keep the
/// original bounds on the orthogonal axis.
pub proof fn lemma_cut_tiles(r: RectModel, side: RectCutSide, a: int)
    requires
        0 <= a,
        a <= axis_extent(r, side),
    ensures
        axis_extent(cut_piece(r, side, a), side) == a,
        axis_extent(cut_rest(r, side, a), side) == axis_extent(r, side) - a,
        same_ortho(cut_piece(r, side, a), r, side),
        same_ortho(cut_rest(r, side, a), r, side),
        (side == RectCutSide::Left || side == RectCutSide::Top) ==> (
            axis_lo(cut_piece(r, side, a), side) == axis_lo(r, side)
            && axis_hi(cut_piece(r, side, a), side) == axis_lo(cut_rest(r, side, a), side)
            && axis_hi(cut_rest(r, side, a), side) == axis_hi(r, side)
        ),
        (side == RectCutSide::Right || side == RectCutSide::Bottom) ==> (
            axis_lo(cut_rest(r, side, a), side) == axis_lo(r, side)
            && axis_hi(cut_rest(r, side, a), side) == axis_lo(cut_piece(r, side, a), side)
            && axis_hi(cut_piece(r, side, a), side) == axis_hi(r, side)
        ),
{
}

/// A cut of more than the available extent clamps: the piece consumes the
/// whole rectangle on the cut axis, and the remainder collapses to zero
/// extent there instead of inverting.
pub proof fn lemma_cut_clamps(r: RectModel, side: RectCutSide, a: int)
    requires
        a > axis_extent(r, side),
    ensures
        axis_lo(cut_piece(r, side, a), side) == axis_lo(r, side),
        axis_hi(cut_piece(r, side, a), side) == axis_hi(r, side),
        axis_extent(cut_rest(r, side, a), side) == 0,
        same_ortho(cut_piece(r, side, a), r, side),
        same_ortho(cut_rest(r, side, a), r, side),
{
}

/// A peek at a side computes exactly the piece that a cut from the same
/// side removes; the peek itself takes the rectangle by shared reference
/// and so cannot change it.
pub proof fn lemma_get_matches_cut(r: RectModel, side: RectCutSide, a: int)
    ensures
        get_piece(r, side, a) == cut_piece(r, side, a),
{
}

/// Growing outward from a side yields a strip of exactly the requested
/// thickness lying immediately outside that side: it shares the side's
/// boundary coordinate with the rectangle, keeps the orthogonal bounds, and
/// covers none of the rectangle's interior.
pub proof fn lemma_add_adjacent(r: RectModel, side: RectCutSide, a: int)
    ensures
        axis_extent(add_strip(r, side, a), side) == a,
        same_ortho(add_strip(r, side, a), r, side),
        (side == RectCutSide::Left || side == RectCutSide::Top) ==> (
            axis_hi(add_strip(r, side, a), side) == axis_lo(r, side)
        ),
        (side == RectCutSide::Right || side == RectCutSide::Bottom) ==> (
            axis_lo(add_strip(r, side, a), side) == axis_hi(r, side)
        ),
{
}

/// Cutting through a chosen side produces exactly the piece and the
/// remainder of the matching per-edge cut.
pub proof fn lemma_dispatch_matches_direct(r: RectModel, side: RectCutSide, a: int)
    ensures
        side == RectCutSide::Left ==> (
            cut_piece(r, side, a) == cut_left_piece(r, a)
            && cut_rest(r, side, a) == cut_left_rest(r, a)
        ),
        side == RectCutSide::Right ==> (
            cut_piece(r, side, a) == cut_right_piece(r, a)
            && cut_rest(r, side, a) == cut_right_rest(r, a)
        ),
        side == RectCutSide::Top ==> (
            cut_piece(r, side, a) == cut_top_piece(r, a)
            && cut_rest(r, side, a) == cut_top_rest(r, a)
        ),
        side == RectCutSide::Bottom ==> (
            cut_piece(r, side, a) == cut_bottom_piece(r, a)
            && cut_rest(r, side, a) == cut_bottom_rest(r, a)
        ),
{
}

} // verus!
