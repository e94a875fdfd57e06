//! Compiling a string against an atlas into position and texture quads.
use vstd::prelude::*;

use crate::atlas::GlyphAtlas;
use crate::character::{Character, Ratio};
use crate::font::FontID;

verus! {

/// The twelve coordinates of one quad as two triangles of three vertices,
/// each vertex an (x, y) pair: bottom-left, bottom-right, top-right,
/// top-right, top-left, bottom-left.
pub open spec fn quad(left: Ratio, bottom: Ratio, right: Ratio, top: Ratio) -> Seq<Ratio> {
    seq![left, bottom, right, bottom, right, top, right, top, left, top, left, bottom]
}

/// The coordinate 0.
pub open spec fn zero() -> Ratio {
    Ratio { numerator: 0, denominator: 1 }
}

/// The coordinate 1.
pub open spec fn one() -> Ratio {
    Ratio { numerator: 1, denominator: 1 }
}

/// `pixels` in logical units: one unit is the atlas's glyph height.
pub open spec fn logical(pixels: nat, glyph_height: nat) -> Ratio {
    Ratio { numerator: pixels as u64, denominator: glyph_height as u64 }
}

/// The rectangles of the characters of `text` that the table holds, in order.
pub open spec fn resolved(table: Map<u32, Character>, text: Seq<char>) -> Seq<Character>
    decreases text.len(),
{
    if text.len() == 0 {
        Seq::empty()
    } else {
        let rest = resolved(table, text.drop_last());
        let c = text[text.len() - 1] as u32;
        if table.contains_key(c) {
            rest.push(table[c])
        } else {
            rest
        }
    }
}

/// The characters of `text` that the table lacks, in order.
pub open spec fn unresolved(table: Map<u32, Character>, text: Seq<char>) -> Seq<char>
    decreases text.len(),
{
    if text.len() == 0 {
        Seq::empty()
    } else {
        let rest = unresolved(table, text.drop_last());
        let c = text[text.len() - 1];
        if table.contains_key(c as u32) {
            rest
        } else {
            rest.push(c)
        }
    }
}

/// The pixel width of a run of glyphs: the sum of their widths.
pub open spec fn pen(glyphs: Seq<Character>) -> nat
    decreases glyphs.len(),
{
    if glyphs.len() == 0 {
        0
    } else {
        pen(glyphs.drop_last()) + glyphs[glyphs.len() - 1].spec_width()
    }
}

/// The position quads of a run of glyphs: each glyph spans from the pen
/// position before it to the one after it, and from 0 to 1 vertically.
pub open spec fn position_floats(glyphs: Seq<Character>, glyph_height: nat) -> Seq<Ratio>
    decreases glyphs.len(),
{
    if glyphs.len() == 0 {
        Seq::empty()
    } else {
        let before = glyphs.drop_last();
        position_floats(before, glyph_height) + quad(
            logical(pen(before), glyph_height),
            zero(),
            logical(pen(glyphs), glyph_height),
            one(),
        )
    }
}

/// The texture quads of a run of glyphs, wound as the position quads are.
pub open spec fn uv_floats(glyphs: Seq<Character>) -> Seq<Ratio>
    decreases glyphs.len(),
{
    if glyphs.len() == 0 {
        Seq::empty()
    } else {
        let g = glyphs[glyphs.len() - 1];
        uv_floats(glyphs.drop_last()) + quad(
            g.spec_left_u(),
            g.spec_bottom_v(),
            g.spec_right_u(),
            g.spec_top_v(),
        )
    }
}

/// The sum of the widths that the table gives the characters of `text`.
pub open spec fn text_pixel_width(table: Map<u32, Character>, text: Seq<char>) -> nat
    decreases text.len(),
{
    if text.len() == 0 {
        0
    } else {
        text_pixel_width(table, text.drop_last()) + table[text[text.len() - 1] as u32].spec_width()
    }
}

/// When the table holds every character of `text`, each character becomes
/// one glyph: the vertex data holds twelve position and twelve texture
/// coordinates per character, nothing is missing, and the pen ends at the
/// sum of the characters' pixel widths.
pub proof fn lemma_known_text(table: Map<u32, Character>, text: Seq<char>, glyph_height: nat)
    requires
        forall|i: int| 0 <= i < text.len() ==> table.contains_key(#[trigger] text[i] as u32),
    ensures
        resolved(table, text).len() == text.len(),
        unresolved(table, text).len() == 0,
        position_floats(resolved(table, text), glyph_height).len() == 12 * text.len(),
        uv_floats(resolved(table, text)).len() == 12 * text.len(),
        pen(resolved(table, text)) == text_pixel_width(table, text),
    decreases text.len(),
{
    let glyphs = resolved(table, text);
    lemma_float_lengths(glyphs, glyph_height);
    if text.len() > 0 {
        let before = text.drop_last();
        assert forall|i: int| 0 <= i < before.len() implies table.contains_key(
            #[trigger] before[i] as u32,
        ) by {
            assert(before[i] == text[i]);
        }
        lemma_known_text(table, before, glyph_height);
        assert(table.contains_key(text[text.len() - 1] as u32));
        assert(glyphs.drop_last() == resolved(table, before));
    }
}

/// Every x coordinate of the position quads is a pen position in logical
/// units: at least zero and at most the pen after the last glyph, which the
/// last quad reaches. The drawn extent is thus the layout's total width.
pub proof fn lemma_extent_is_total_width(glyphs: Seq<Character>, glyph_height: nat)
    requires
        pen(glyphs) <= u64::MAX,
    ensures
        forall|i: int|
            0 <= i < 12 * glyphs.len() && i % 2 == 0 ==> {
                let x = #[trigger] position_floats(glyphs, glyph_height)[i];
                &&& x.denominator == glyph_height as u64
                &&& x.numerator <= pen(glyphs)
            },
        glyphs.len() > 0 ==> position_floats(glyphs, glyph_height)[0] == logical(0, glyph_height),
        glyphs.len() > 0 ==> position_floats(glyphs, glyph_height)[12 * glyphs.len() - 10]
            == logical(pen(glyphs), glyph_height),
    decreases glyphs.len(),
{
    lemma_float_lengths(glyphs, glyph_height);
    if glyphs.len() > 0 {
        let before = glyphs.drop_last();
        let lb = 12 * before.len();
        lemma_float_lengths(before, glyph_height);
        lemma_extent_is_total_width(before, glyph_height);
        let q = quad(
            logical(pen(before), glyph_height),
            zero(),
            logical(pen(glyphs), glyph_height),
            one(),
        );
        let all = position_floats(glyphs, glyph_height);
        assert(all == position_floats(before, glyph_height) + q);
        assert forall|i: int| 0 <= i < 12 * glyphs.len() && i % 2 == 0 implies {
            let x = #[trigger] all[i];
            &&& x.denominator == glyph_height as u64
            &&& x.numerator <= pen(glyphs)
        } by {
            if i >= lb {
                let k = i - lb;
                assert(all[i] == q[k]);
                assert(k == 0 || k == 2 || k == 4 || k == 6 || k == 8 || k == 10);
            } else {
                assert(all[i] == position_floats(before, glyph_height)[i]);
            }
        }
        if before.len() == 0 {
            assert(all[0] == q[0]);
        } else {
            assert(all[0] == position_floats(before, glyph_height)[0]);
        }
        assert(all[12 * glyphs.len() - 10] == q[2]);
    }
}

/// Why a string cannot be laid out.
#[derive(Clone, Copy, Debug, PartialEq, Eq, Structural)]
pub enum LayoutError {
    /// The total pixel width of the string does not fit in `u64`.
    TooWide,
}

/// A string compiled against one atlas: the position quads of its glyphs
/// followed by their texture quads, its width in logical units, and the
/// characters that the atlas lacked and that were left out.
pub struct TextLayout {
    font: FontID,
    glyph_count: usize,
    vertex_data: Vec<Ratio>,
    total_width: Ratio,
    missing: Vec<char>,
}

proof fn lemma_float_lengths(glyphs: Seq<Character>, glyph_height: nat)
    ensures
        position_floats(glyphs, glyph_height).len() == 12 * glyphs.len(),
        uv_floats(glyphs).len() == 12 * glyphs.len(),
    decreases glyphs.len(),
{
    if glyphs.len() > 0 {
        lemma_float_lengths(glyphs.drop_last(), glyph_height);
    }
}

proof fn lemma_pen_prefix(glyphs: Seq<Character>, i: int, j: int)
    requires
        0 <= i <= j <= glyphs.len(),
    ensures
        pen(glyphs.take(i)) <= pen(glyphs.take(j)),
    decreases j - i,
{
    if i < j {
        lemma_pen_prefix(glyphs, i, j - 1);
        assert(glyphs.take(j).drop_last() == glyphs.take(j - 1));
    }
}

/// Appends the quad of the four coordinates to `data`.
fn push_quad(data: &mut Vec<Ratio>, left: Ratio, bottom: Ratio, right: Ratio, top: Ratio)
    ensures
        final(data)@ == old(data)@ + quad(left, bottom, right, top),
{
    data.push(left);
    data.push(bottom);
    data.push(right);
    data.push(bottom);
    data.push(right);
    data.push(top);
    data.push(right);
    data.push(top);
    data.push(left);
    data.push(top);
    data.push(left);
    data.push(bottom);
    assert(data@ =~= old(data)@ + quad(left, bottom, right, top));
}

impl TextLayout {
    #[verifier::type_invariant]
    spec fn inv(self) -> bool {
        &&& self.vertex_data@.len() == 24 * self.glyph_count
        &&& self.total_width.denominator > 0
    }

    pub closed spec fn spec_font(&self) -> FontID {
        self.font
    }

    pub closed spec fn spec_glyph_count(&self) -> nat {
        self.glyph_count as nat
    }

    pub closed spec fn spec_vertex_data(&self) -> Seq<Ratio> {
        self.vertex_data@
    }

    pub closed spec fn spec_total_width(&self) -> Ratio {
        self.total_width
    }

    pub closed spec fn spec_missing(&self) -> Seq<char> {
        self.missing@
    }

    /// Lays out `text` against `atlas`. Characters that the atlas lacks take
    /// no room and are listed as missing; each other glyph advances the pen by
    /// its pixel width divided by the atlas's glyph height.
    pub fn compile_text(atlas: &GlyphAtlas, text: &str) -> (r: Result<TextLayout, LayoutError>)
        ensures
            ({
                let glyphs = resolved(atlas.lookup(), text@);
                let h = atlas.spec_max_glyph_height();
                &&& r is Err <==> pen(glyphs) > u64::MAX
                &&& r is Err ==> r == Err::<TextLayout, LayoutError>(LayoutError::TooWide)
                &&& r matches Ok(l) ==> {
                    &&& l.spec_font() == atlas.spec_font()
                    &&& l.spec_glyph_count() == glyphs.len()
                    &&& l.spec_vertex_data() == position_floats(glyphs, h) + uv_floats(glyphs)
                    &&& l.spec_total_width() == logical(pen(glyphs), h)
                    &&& l.spec_missing() == unresolved(atlas.lookup(), text@)
                }
            }),
    {
        let ghost table = atlas.lookup();
        let h = atlas.max_glyph_height();
        let mut glyphs: Vec<Character> = Vec::new();
        let mut missing: Vec<char> = Vec::new();
        for c in it: text.chars()
            invariant
                it.seq() == text@,
                table == atlas.lookup(),
                glyphs@ == resolved(table, text@.take(it.index() as int)),
                missing@ == unresolved(table, text@.take(it.index() as int)),
        {
            let ghost k = it.index() as int;
            assert(text@.take(k + 1).drop_last() == text@.take(k));
            match atlas.get_character(c) {
                Some(rect) => glyphs.push(rect),
                None => missing.push(c),
            }
        }
        assert(text@.take(text@.len() as int) == text@);
        let ghost gs = glyphs@;
        let mut data: Vec<Ratio> = Vec::new();
        let mut pen_x: u64 = 0;
        for i in 0..glyphs.len()
            invariant
                gs == glyphs@,
                gs == resolved(atlas.lookup(), text@),
                h > 0,
                data@ == position_floats(gs.take(i as int), h as nat),
                pen_x == pen(gs.take(i as int)),
        {
            assert(gs.take(i + 1).drop_last() == gs.take(i as int));
            let w = glyphs[i].get_width();
            if pen_x as u128 + w as u128 > u64::MAX as u128 {
                proof {
                    lemma_pen_prefix(gs, i + 1, gs.len() as int);
                    assert(gs.take(gs.len() as int) == gs);
                }
                return Err(LayoutError::TooWide);
            }
            let next = pen_x + w as u64;
            push_quad(
                &mut data,
                Ratio { numerator: pen_x, denominator: h as u64 },
                Ratio { numerator: 0, denominator: 1 },
                Ratio { numerator: next, denominator: h as u64 },
                Ratio { numerator: 1, denominator: 1 },
            );
            pen_x = next;
        }
        assert(gs.take(gs.len() as int) == gs);
        for i in 0..glyphs.len()
            invariant
                gs == glyphs@,
                data@ == position_floats(gs, h as nat) + uv_floats(gs.take(i as int)),
        {
            assert(gs.take(i + 1).drop_last() == gs.take(i as int));
            let g = glyphs[i];
            let ghost before = data@;
            push_quad(&mut data, g.get_left_u(), g.get_bottom_v(), g.get_right_u(), g.get_top_v());
            assert(data@ == position_floats(gs, h as nat) + uv_floats(gs.take(i + 1))) by {
                assert(data@ =~= before + quad(
                    g.spec_left_u(),
                    g.spec_bottom_v(),
                    g.spec_right_u(),
                    g.spec_top_v(),
                ));
                assert(position_floats(gs, h as nat) + uv_floats(gs.take(i + 1)) =~= before
                    + quad(g.spec_left_u(), g.spec_bottom_v(), g.spec_right_u(), g.spec_top_v()));
            }
        }
        proof {
            lemma_float_lengths(gs, h as nat);
        }
        Ok(
            TextLayout {
                font: atlas.font(),
                glyph_count: glyphs.len(),
                vertex_data: data,
                total_width: Ratio { numerator: pen_x, denominator: h as u64 },
                missing,
            },
        )
    }

    /// The font of the atlas that the layout was compiled against.
    pub fn get_font(&self) -> (r: FontID)
        ensures
            r == self.spec_font(),
    {
        self.font
    }

    /// The number of glyphs drawn.
    pub fn glyph_count(&self) -> (r: usize)
        ensures
            r == self.spec_glyph_count(),
    {
        self.glyph_count
    }

    /// The number of vertices drawn: six per glyph.
    pub fn vertex_count(&self) -> (r: usize)
        ensures
            r == 6 * self.spec_glyph_count(),
    {
        proof {
            use_type_invariant(self);
        }
        self.vertex_data.len() / 4
    }

    /// The index in the vertex data where the texture coordinates begin.
    pub fn texture_coords_start(&self) -> (r: usize)
        ensures
            r == 12 * self.spec_glyph_count(),
            2 * r == self.spec_vertex_data().len(),
    {
        proof {
            use_type_invariant(self);
        }
        self.vertex_data.len() / 2
    }

    /// The position quads followed by the texture quads.
    pub fn vertex_data(&self) -> (r: &Vec<Ratio>)
        ensures
            r@ == self.spec_vertex_data(),
    {
        &self.vertex_data
    }

    /// The width of the laid-out string in logical units.
    pub fn total_width(&self) -> (r: Ratio)
        ensures
            r == self.spec_total_width(),
            r.denominator > 0,
    {
        proof {
            use_type_invariant(self);
        }
        self.total_width
    }

    /// The characters left out because the atlas lacks them, in order.
    pub fn missing(&self) -> (r: &Vec<char>)
        ensures
            r@ == self.spec_missing(),
    {
        &self.missing
    }
}

} // verus!
