//! Glyph rectangles in an atlas texture, with exact texture coordinates.
use vstd::prelude::*;

verus! {

/// An exact non-negative fraction. Texture and layout coordinates are kept
/// in this form and become floating-point values only at the GPU boundary.
#[derive(Clone, Copy, Debug, PartialEq, Eq, Structural)]
pub struct Ratio {
    pub numerator: u64,
    pub denominator: u64,
}

impl Ratio {
    pub open spec fn at_most_one(self) -> bool {
        self.numerator <= self.denominator
    }
}

/// The region of one glyph in an atlas texture, with the pixel width that
/// the glyph takes in a line of text.
///
/// The pixel box is `[min_x, max_x] x [min_y, max_y]` in raster coordinates
/// (y grows downward). Texture coordinates divide x by the texture width
/// plus one and y by the texture height plus one; the bottom texture
/// coordinate comes from the largest raster row, the top one from the
/// smallest.
#[derive(Clone, Copy, Debug, PartialEq, Eq, Structural)]
pub struct Character {
    texture_width: u32,
    texture_height: u32,
    min_x: u32,
    min_y: u32,
    max_x: u32,
    max_y: u32,
    width: u32,
}

impl Character {
    pub closed spec fn spec_texture_width(self) -> nat {
        self.texture_width as nat
    }

    pub closed spec fn spec_texture_height(self) -> nat {
        self.texture_height as nat
    }

    pub closed spec fn spec_min_x(self) -> nat {
        self.min_x as nat
    }

    pub closed spec fn spec_min_y(self) -> nat {
        self.min_y as nat
    }

    pub closed spec fn spec_max_x(self) -> nat {
        self.max_x as nat
    }

    pub closed spec fn spec_max_y(self) -> nat {
        self.max_y as nat
    }

    pub closed spec fn spec_width(self) -> nat {
        self.width as nat
    }

    /// The box is ordered and its width is the number of pixel columns it spans.
    pub open spec fn wf(self) -> bool {
        &&& self.spec_min_x() <= self.spec_max_x()
        &&& self.spec_min_y() <= self.spec_max_y()
        &&& self.spec_width() == self.spec_max_x() - self.spec_min_x() + 1
    }

    /// The box lies inside the texture, so that every texture coordinate is in `[0, 1]`.
    pub open spec fn inside_texture(self) -> bool {
        &&& self.spec_max_x() <= self.spec_texture_width()
        &&& self.spec_max_y() <= self.spec_texture_height()
    }

    /// Its texture coordinates lie in `[0, 1]`, left at most right and top at
    /// most bottom (the V axis runs opposite to the raster's rows).
    pub open spec fn normalized(self) -> bool {
        let (l, r, t, b) = (self.spec_left_u(), self.spec_right_u(), self.spec_top_v(), self.spec_bottom_v());
        &&& l.denominator == r.denominator && l.denominator > 0
        &&& t.denominator == b.denominator && t.denominator > 0
        &&& l.numerator <= r.numerator && r.at_most_one()
        &&& t.numerator <= b.numerator && b.at_most_one()
    }

    pub open spec fn spec_left_u(self) -> Ratio {
        Ratio { numerator: self.spec_min_x() as u64, denominator: (self.spec_texture_width() + 1) as u64 }
    }

    pub open spec fn spec_right_u(self) -> Ratio {
        Ratio { numerator: self.spec_max_x() as u64, denominator: (self.spec_texture_width() + 1) as u64 }
    }

    pub open spec fn spec_bottom_v(self) -> Ratio {
        Ratio { numerator: self.spec_max_y() as u64, denominator: (self.spec_texture_height() + 1) as u64 }
    }

    pub open spec fn spec_top_v(self) -> Ratio {
        Ratio { numerator: self.spec_min_y() as u64, denominator: (self.spec_texture_height() + 1) as u64 }
    }

    pub fn new(
        texture_width: u32,
        texture_height: u32,
        min_x: u32,
        min_y: u32,
        max_x: u32,
        max_y: u32,
    ) -> (r: Character)
        requires
            min_x <= max_x,
            min_y <= max_y,
            max_x - min_x < u32::MAX,
        ensures
            r.wf(),
            r.spec_texture_width() == texture_width,
            r.spec_texture_height() == texture_height,
            r.spec_min_x() == min_x,
            r.spec_min_y() == min_y,
            r.spec_max_x() == max_x,
            r.spec_max_y() == max_y,
    {
        Character {
            texture_width,
            texture_height,
            min_x,
            min_y,
            max_x,
            max_y,
            width: max_x - min_x + 1,
        }
    }

    pub fn get_left_u(&self) -> (r: Ratio)
        ensures
            r == self.spec_left_u(),
    {
        Ratio { numerator: self.min_x as u64, denominator: self.texture_width as u64 + 1 }
    }

    pub fn get_bottom_v(&self) -> (r: Ratio)
        ensures
            r == self.spec_bottom_v(),
    {
        Ratio { numerator: self.max_y as u64, denominator: self.texture_height as u64 + 1 }
    }

    pub fn get_right_u(&self) -> (r: Ratio)
        ensures
            r == self.spec_right_u(),
    {
        Ratio { numerator: self.max_x as u64, denominator: self.texture_width as u64 + 1 }
    }

    pub fn get_top_v(&self) -> (r: Ratio)
        ensures
            r == self.spec_top_v(),
    {
        Ratio { numerator: self.min_y as u64, denominator: self.texture_height as u64 + 1 }
    }

    pub fn get_width(&self) -> (r: u32)
        ensures
            r == self.spec_width(),
    {
        self.width
    }
}

} // verus!
