use vstd::prelude::*;

verus! {

/// An axis-aligned rectangle, such as an area of the screen, given by its
/// minimum x and y and maximum x and y. The x axis grows rightward and the
/// y axis downward, so the top edge is the one at `miny`.
#[derive(Copy, Clone, Debug)]
pub struct Rect {
    pub minx: i64,
    pub miny: i64,
    pub maxx: i64,
    pub maxy: i64,
}

/// The mathematical value of a rectangle: its four bounds as unbounded
/// integers. Contracts and lemmas speak of this model rather than of the
/// machine scalars.
pub ghost struct RectModel {
    pub minx: int,
    pub miny: int,
    pub maxx: int,
    pub maxy: int,
}

impl View for Rect {
    type V = RectModel;

    open spec fn view(&self) -> RectModel {
        RectModel {
            minx: self.minx as int,
            miny: self.miny as int,
            maxx: self.maxx as int,
            maxy: self.maxy as int,
        }
    }
}

/// Whether a mathematical bound fits the machine scalar.
pub open spec fn fits(v: int) -> bool {
    i64::MIN <= v <= i64::MAX
}

/// The rectangle left over after a cut of `a` from the left edge: the left
/// bound moves right by `a`, clamped so it never passes the right bound.
pub open spec fn cut_left_rest(r: RectModel, a: int) -> RectModel {
    RectModel {
        minx: if r.maxx < r.minx + a { r.maxx } else { r.minx + a },
        ..r
    }
}

/// The piece a cut of `a` from the left edge removes: from the old left
/// bound to the new one, full height.
pub open spec fn cut_left_piece(r: RectModel, a: int) -> RectModel {
    RectModel { minx: r.minx, miny: r.miny, maxx: cut_left_rest(r, a).minx, maxy: r.maxy }
}

/// The rectangle left over after a cut of `a` from the right edge: the right
/// bound moves left by `a`, clamped so it never passes the left bound.
pub open spec fn cut_right_rest(r: RectModel, a: int) -> RectModel {
    RectModel {
        maxx: if r.minx > r.maxx - a { r.minx } else { r.maxx - a },
        ..r
    }
}

/// The piece a cut of `a` from the right edge removes: from the new right
/// bound to the old one, full height.
pub open spec fn cut_right_piece(r: RectModel, a: int) -> RectModel {
    RectModel { minx: cut_right_rest(r, a).maxx, miny: r.miny, maxx: r.maxx, maxy: r.maxy }
}

/// The rectangle left over after a cut of `a` from the top edge: the top
/// bound moves down by `a`, clamped so it never passes the bottom bound.
pub open spec fn cut_top_rest(r: RectModel, a: int) -> RectModel {
    RectModel {
        miny: if r.maxy < r.miny + a { r.maxy } else { r.miny + a },
        ..r
    }
}

/// The piece a cut of `a` from the top edge removes: from the old top bound
/// to the new one, full width.
pub open spec fn cut_top_piece(r: RectModel, a: int) -> RectModel {
    RectModel { minx: r.minx, miny: r.miny, maxx: r.maxx, maxy: cut_top_rest(r, a).miny }
}

/// The rectangle left over after a cut of `a` from the bottom edge: the
/// bottom bound moves up by `a`, clamped so it never passes the top bound.
pub open spec fn cut_bottom_rest(r: RectModel, a: int) -> RectModel {
    RectModel {
        maxy: if r.miny > r.maxy - a { r.miny } else { r.maxy - a },
        ..r
    }
}

/// The piece a cut of `a` from the bottom edge removes: from the new bottom
/// bound to the old one, full width.
pub open spec fn cut_bottom_piece(r: RectModel, a: int) -> RectModel {
    RectModel { minx: r.minx, miny: cut_bottom_rest(r, a).maxy, maxx: r.maxx, maxy: r.maxy }
}

/// What a peek at the left edge computes: the left bound kept, the right
/// bound clamped to `minx + a`.
pub open spec fn get_left_piece(r: RectModel, a: int) -> RectModel {
    RectModel {
        maxx: if r.maxx < r.minx + a { r.maxx } else { r.minx + a },
        ..r
    }
}

/// What a peek at the right edge computes: the right bound kept, the left
/// bound clamped to `maxx - a`.
pub open spec fn get_right_piece(r: RectModel, a: int) -> RectModel {
    RectModel {
        minx: if r.minx > r.maxx - a { r.minx } else { r.maxx - a },
        ..r
    }
}

/// What a peek at the top edge computes: the top bound kept, the bottom
/// bound clamped to `miny + a`.
pub open spec fn get_top_piece(r: RectModel, a: int) -> RectModel {
    RectModel {
        maxy: if r.maxy < r.miny + a { r.maxy } else { r.miny + a },
        ..r
    }
}

/// What a peek at the bottom edge computes: the bottom bound kept, the top
/// bound clamped to `maxy - a`.
pub open spec fn get_bottom_piece(r: RectModel, a: int) -> RectModel {
    RectModel {
        miny: if r.miny > r.maxy - a { r.miny } else { r.maxy - a },
        ..r
    }
}

/// The strip of thickness `a` lying immediately outside the left edge.
pub open spec fn add_left_strip(r: RectModel, a: int) -> RectModel {
    RectModel { minx: r.minx - a, miny: r.miny, maxx: r.minx, maxy: r.maxy }
}

/// The strip of thickness `a` lying immediately outside the right edge.
pub open spec fn add_right_strip(r: RectModel, a: int) -> RectModel {
    RectModel { minx: r.maxx, miny: r.miny, maxx: r.maxx + a, maxy: r.maxy }
}

/// The strip of thickness `a` lying immediately outside the top edge.
pub open spec fn add_top_strip(r: RectModel, a: int) -> RectModel {
    RectModel { minx: r.minx, miny: r.miny - a, maxx: r.maxx, maxy: r.miny }
}

/// The strip of thickness `a` lying immediately outside the bottom edge.
pub open spec fn add_bottom_strip(r: RectModel, a: int) -> RectModel {
    RectModel { minx: r.minx, miny: r.maxy, maxx: r.maxx, maxy: r.maxy + a }
}

/// Every bound pushed outward by `a`.
pub open spec fn extend_rect(r: RectModel, a: int) -> RectModel {
    RectModel { minx: r.minx - a, miny: r.miny - a, maxx: r.maxx + a, maxy: r.maxy + a }
}

/// Every bound pushed inward by `a`. Nothing clamps: a large `a` yields an
/// inverted rectangle, which is accepted.
pub open spec fn contract_rect(r: RectModel, a: int) -> RectModel {
    RectModel { minx: r.minx + a, miny: r.miny + a, maxx: r.maxx - a, maxy: r.maxy - a }
}

impl Rect {
    /// Create a new Rect.
    pub fn new(minx: i64, miny: i64, maxx: i64, maxy: i64) -> (r: Rect)
        ensures
            r.minx == minx,
            r.miny == miny,
            r.maxx == maxx,
            r.maxy == maxy,
    {
        Rect { minx, miny, maxx, maxy }
    }

    /// Cut out the left of the rect, returning the left piece and modifying
    /// the original Rect.
    pub fn cut_left(&mut self, a: i64) -> (piece: Rect)
        requires
            fits(old(self)@.minx + a as int),
        ensures
            final(self)@ == cut_left_rest(old(self)@, a as int),
            piece@ == cut_left_piece(old(self)@, a as int),
    {
        let minx: i64 = self.minx;
        if self.maxx < self.minx + a {
            self.minx = self.maxx;
        } else {
            self.minx = self.minx + a;
        }
        Rect::new(minx, self.miny, self.minx, self.maxy)
    }

    /// Cut out the right of the rect, returning the right piece and
    /// modifying the original Rect.
    pub fn cut_right(&mut self, a: i64) -> (piece: Rect)
        requires
            fits(old(self)@.maxx - a as int),
        ensures
            final(self)@ == cut_right_rest(old(self)@, a as int),
            piece@ == cut_right_piece(old(self)@, a as int),
    {
        let maxx: i64 = self.maxx;
        if self.minx > self.maxx - a {
            self.maxx = self.minx;
        } else {
            self.maxx = self.maxx - a;
        }
        Rect::new(self.maxx, self.miny, maxx, self.maxy)
    }

    /// Cut out the top of the rect, returning the top piece and modifying
    /// the original Rect.
    pub fn cut_top(&mut self, a: i64) -> (piece: Rect)
        requires
            fits(old(self)@.miny + a as int),
        ensures
            final(self)@ == cut_top_rest(old(self)@, a as int),
            piece@ == cut_top_piece(old(self)@, a as int),
    {
        let miny: i64 = self.miny;
        if self.maxy < self.miny + a {
            self.miny = self.maxy;
        } else {
            self.miny = self.miny + a;
        }
        Rect::new(self.minx, miny, self.maxx, self.miny)
    }

    /// Cut out the bottom of the rect, returning the bottom piece and
    /// modifying the original Rect.
    pub fn cut_bottom(&mut self, a: i64) -> (piece: Rect)
        requires
            fits(old(self)@.maxy - a as int),
        ensures
            final(self)@ == cut_bottom_rest(old(self)@, a as int),
            piece@ == cut_bottom_piece(old(self)@, a as int),
    {
        let maxy: i64 = self.maxy;
        if self.miny > self.maxy - a {
            self.maxy = self.miny;
        } else {
            self.maxy = self.maxy - a;
        }
        Rect::new(self.minx, self.maxy, self.maxx, maxy)
    }

    /// Cut out the left of the rect, leaving the original unmodified.
    pub fn get_left(&self, a: i64) -> (piece: Rect)
        requires
            fits(self@.minx + a as int),
        ensures
            piece@ == get_left_piece(self@, a as int),
    {
        let maxx: i64 = if self.maxx < self.minx + a {
            self.maxx
        } else {
            self.minx + a
        };
        Rect::new(self.minx, self.miny, maxx, self.maxy)
    }

    /// Cut out the right of the rect, leaving the original unmodified.
    pub fn get_right(&self, a: i64) -> (piece: Rect)
        requires
            fits(self@.maxx - a as int),
        ensures
            piece@ == get_right_piece(self@, a as int),
    {
        let minx: i64 = if self.minx > self.maxx - a {
            self.minx
        } else {
            self.maxx - a
        };
        Rect::new(minx, self.miny, self.maxx, self.maxy)
    }

    /// Cut out the top of the rect, leaving the original unmodified.
    pub fn get_top(&self, a: i64) -> (piece: Rect)
        requires
            fits(self@.miny + a as int),
        ensures
            piece@ == get_top_piece(self@, a as int),
    {
        let maxy: i64 = if self.maxy < self.miny + a {
            self.maxy
        } else {
            self.miny + a
        };
        Rect::new(self.minx, self.miny, self.maxx, maxy)
    }

    /// Cut out the bottom of the rect, leaving the original unmodified.
    pub fn get_bottom(&self, a: i64) -> (piece: Rect)
        requires
            fits(self@.maxy - a as int),
        ensures
            piece@ == get_bottom_piece(self@, a as int),
    {
        let miny: i64 = if self.miny > self.maxy - a {
            self.miny
        } else {
            self.maxy - a
        };
        Rect::new(self.minx, miny, self.maxx, self.maxy)
    }

    /// Create a rect that extends the given rect out to the left, leaving
    /// the original unmodified.
    pub fn add_left(&self, a: i64) -> (strip: Rect)
        requires
            fits(self@.minx - a as int),
        ensures
            strip@ == add_left_strip(self@, a as int),
    {
        Rect::new(self.minx - a, self.miny, self.minx, self.maxy)
    }

    /// Create a rect that extends the given rect out to the right, leaving
    /// the original unmodified.
    pub fn add_right(&self, a: i64) -> (strip: Rect)
        requires
            fits(self@.maxx + a as int),
        ensures
            strip@ == add_right_strip(self@, a as int),
    {
        Rect::new(self.maxx, self.miny, self.maxx + a, self.maxy)
    }

    /// Create a rect that extends the given rect out to the top, leaving
    /// the original unmodified.
    pub fn add_top(&self, a: i64) -> (strip: Rect)
        requires
            fits(self@.miny - a as int),
        ensures
            strip@ == add_top_strip(self@, a as int),
    {
        Rect::new(self.minx, self.miny - a, self.maxx, self.miny)
    }

    /// Create a rect that extends the given rect out to the bottom, leaving
    /// the original unmodified.
    pub fn add_bottom(&self, a: i64) -> (strip: Rect)
        requires
            fits(self@.maxy + a as int),
        ensures
            strip@ == add_bottom_strip(self@, a as int),
    {
        Rect::new(self.minx, self.maxy, self.maxx, self.maxy + a)
    }

    /// Extend the rect out in all directions, leaving the original
    /// unmodified.
    pub fn extend(&self, a: i64) -> (r: Rect)
        requires
            fits(self@.minx - a as int),
            fits(self@.miny - a as int),
            fits(self@.maxx + a as int),
            fits(self@.maxy + a as int),
        ensures
            r@ == extend_rect(self@, a as int),
    {
        Rect::new(self.minx - a, self.miny - a, self.maxx + a, self.maxy + a)
    }

    /// Contract the rect in all directions, leaving the original
    /// unmodified.
    pub fn contract(&self, a: i64) -> (r: Rect)
        requires
            fits(self@.minx + a as int),
            fits(self@.miny + a as int),
            fits(self@.maxx - a as int),
            fits(self@.maxy - a as int),
        ensures
            r@ == contract_rect(self@, a as int),
    {
        Rect::new(self.minx + a, self.miny + a, self.maxx - a, self.maxy - a)
    }
}

/// Extending by an amount and then contracting by the same amount gives
/// back the original rectangle exactly, for any amount, including ones
/// whose intermediate bounds go negative or cross each other.
pub proof fn lemma_extend_contract_inverse(r: RectModel, a: int)
    ensures
        contract_rect(extend_rect(r, a), a) == r,
{
}

} // verus!
