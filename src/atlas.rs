//! Packing measured glyphs into the near-square grid of an atlas image, and
//! the atlas's table from code point to glyph rectangle.
use vstd::prelude::*;

use crate::character::Character;
use crate::font::FontID;
use std::collections::HashMap;

verus! {

broadcast use vstd::std_specs::hash::group_hash_axioms;

/// The measured size of one character of the atlas's character set, in pixels.
#[derive(Clone, Copy, Debug, PartialEq, Eq, Structural)]
pub struct GlyphMetric {
    pub character: char,
    pub width: u32,
    pub height: u32,
}

/// Where one glyph is drawn while the atlas image is rasterized, and the
/// region it then occupies. `draw_x` and `baseline_y` are the pixel position
/// given to the rasterizer's fill and stroke calls.
#[derive(Clone, Copy, Debug, PartialEq, Eq, Structural)]
pub struct GlyphCell {
    pub character: char,
    pub draw_x: u32,
    pub baseline_y: u32,
    pub rect: Character,
}

/// Why an atlas cannot be built.
#[derive(Clone, Copy, Debug, PartialEq, Eq, Structural)]
pub enum AtlasError {
    /// The character set is empty.
    NoCharacters,
    /// Every measured glyph has height zero.
    ZeroHeight,
    /// A side of the atlas image would reach `u32::MAX` pixels.
    TooLarge,
}

/// The horizontal room that a glyph takes in its row: its width and a margin on each side.
pub open spec fn advance(g: GlyphMetric, margin: nat) -> nat {
    (g.width + 2 * margin) as nat
}

/// The room taken by the glyphs `lo .. hi`.
pub open spec fn span(ms: Seq<GlyphMetric>, margin: nat, lo: int, hi: int) -> nat
    decreases hi - lo,
{
    if hi <= lo {
        0
    } else {
        span(ms, margin, lo, hi - 1) + advance(ms[hi - 1], margin)
    }
}

/// The left edge of glyph `i`'s cell: the room taken by the glyphs before it in its row.
pub open spec fn cell_left(ms: Seq<GlyphMetric>, columns: nat, margin: nat, i: int) -> nat {
    span(ms, margin, i - i % (columns as int), i)
}

/// The right edge of glyph `i`'s cell, margins included.
pub open spec fn cell_end(ms: Seq<GlyphMetric>, columns: nat, margin: nat, i: int) -> nat {
    cell_left(ms, columns, margin, i) + advance(ms[i], margin)
}

/// The rightmost cell edge among the first `k` glyphs; for all glyphs, the width of the widest row.
pub open spec fn widest(ms: Seq<GlyphMetric>, columns: nat, margin: nat, k: int) -> nat
    decreases k,
{
    if k <= 0 {
        0
    } else {
        let w = widest(ms, columns, margin, k - 1);
        let e = cell_end(ms, columns, margin, k - 1);
        if w >= e {
            w
        } else {
            e
        }
    }
}

/// The greatest height among the first `k` glyphs.
pub open spec fn tallest(ms: Seq<GlyphMetric>, k: int) -> nat
    decreases k,
{
    if k <= 0 {
        0
    } else {
        let t = tallest(ms, k - 1);
        if t >= ms[k - 1].height {
            t
        } else {
            ms[k - 1].height as nat
        }
    }
}

/// `c` is the least number of columns whose square grid holds `n` cells.
pub open spec fn is_ceil_sqrt(c: nat, n: nat) -> bool {
    &&& c * c >= n
    &&& c == 0 || (c - 1) * (c - 1) < n
}

/// `r` is the least number of rows of `c` cells that holds `n` cells.
pub open spec fn is_ceil_div(r: nat, n: nat, c: nat) -> bool {
    &&& r * c >= n
    &&& r == 0 || (r - 1) * c < n
}

/// The margin in pixels kept on each side of a glyph so that its stroke is
/// not cut by the neighbouring cell: twice the stroke width, rounded up.
/// The stroke width is the fraction `numerator / denominator` of the font size.
pub open spec fn spec_line_margin(numerator: nat, denominator: nat, font_size: nat) -> nat
    recommends
        denominator > 0,
{
    ((2 * numerator * font_size + denominator - 1) / denominator as int) as nat
}

/// The number of columns of the atlas grid for `n` glyphs.
pub open spec fn spec_grid_columns(n: nat) -> nat {
    choose|c: nat| is_ceil_sqrt(c, n)
}

/// The number of rows of the atlas grid for `n` glyphs in `columns` columns.
pub open spec fn spec_grid_rows(n: nat, columns: nat) -> nat {
    ((n + columns - 1) / columns as int) as nat
}

/// The pixel width of the atlas image for the glyphs `ms`.
pub open spec fn packed_width(ms: Seq<GlyphMetric>, margin: nat) -> nat {
    widest(ms, spec_grid_columns(ms.len()), margin, ms.len() as int)
}

/// The pixel height of the atlas image for the glyphs `ms`: each row is as
/// high as the tallest glyph.
pub open spec fn packed_height(ms: Seq<GlyphMetric>) -> nat {
    spec_grid_rows(ms.len(), spec_grid_columns(ms.len())) * tallest(ms, ms.len() as int)
}

/// Cell `c` is the cell of glyph `i`: it lies in row `i / columns`, after the
/// cells before it in that row; the glyph is drawn at the cell's left edge
/// with its baseline four fifths of a row below the row's top.
pub open spec fn is_packed_cell(
    c: GlyphCell,
    ms: Seq<GlyphMetric>,
    columns: nat,
    margin: nat,
    row_height: nat,
    atlas_width: nat,
    atlas_height: nat,
    i: int,
) -> bool {
    let left = cell_left(ms, columns, margin, i);
    let top = (i / columns as int) * row_height;
    &&& c.character == ms[i].character
    &&& c.draw_x == left
    &&& c.baseline_y == top + row_height * 4 / 5
    &&& c.rect.wf()
    &&& c.rect.spec_texture_width() == atlas_width
    &&& c.rect.spec_texture_height() == atlas_height
    &&& c.rect.spec_min_x() == left
    &&& c.rect.spec_max_x() == left + ms[i].width + margin
    &&& c.rect.spec_min_y() == top
    &&& c.rect.spec_max_y() == top + row_height - 1
}

/// The lookup table of a list of cells: each character's code point maps to
/// the rectangle of its last cell.
pub open spec fn cell_map(cells: Seq<GlyphCell>) -> Map<u32, Character>
    decreases cells.len(),
{
    if cells.len() == 0 {
        Map::empty()
    } else {
        let last = cells[cells.len() - 1];
        cell_map(cells.drop_last()).insert(last.character as u32, last.rect)
    }
}

/// The least `c` with `c * c >= n`: the number of columns of a near-square grid.
pub fn grid_columns(n: usize) -> (c: usize)
    ensures
        is_ceil_sqrt(c as nat, n as nat),
        c == spec_grid_columns(n as nat),
{
    let mut c: usize = 0;
    let mut square: u128 = 0;
    while square < n as u128
        invariant
            square == c * c,
            c == 0 || (c - 1) * (c - 1) < n,
            c <= n,
        decreases n - c,
    {
        assert(c < n) by (nonlinear_arith)
            requires
                c * c < n,
        ;
        assert((c + 1) * (c + 1) == c * c + 2 * c + 1) by (nonlinear_arith);
        square = square + 2 * (c as u128) + 1;
        c = c + 1;
    }
    proof {
        lemma_columns_unique(c as nat, spec_grid_columns(n as nat), n as nat);
    }
    c
}

proof fn lemma_ceil_div_value(n: int, c: int, r: int)
    requires
        n >= 0,
        c > 0,
        r >= 0,
        r * c >= n,
        r == 0 || (r - 1) * c < n,
    ensures
        r == (n + c - 1) / c,
{
    let rem = n + c - 1 - r * c;
    if r == 0 {
        assert(r * c == 0) by (nonlinear_arith)
            requires
                r == 0,
        ;
    } else {
        assert((r - 1) * c == r * c - c) by (nonlinear_arith);
    }
    vstd::arithmetic::div_mod::lemma_fundamental_div_mod_converse(n + c - 1, c, r, rem);
}

/// The least number of rows of `columns` cells that holds `n` cells.
pub fn grid_rows(n: usize, columns: usize) -> (r: usize)
    requires
        columns > 0,
    ensures
        is_ceil_div(r as nat, n as nat, columns as nat),
        r == spec_grid_rows(n as nat, columns as nat),
        r <= n,
{
    let divided = n / columns;
    proof {
        vstd::arithmetic::div_mod::lemma_fundamental_div_mod(n as int, columns as int);
        vstd::arithmetic::div_mod::lemma_mod_bound(n as int, columns as int);
        assert(divided * columns + n % columns == n) by (nonlinear_arith)
            requires
                n == columns * (n / columns) + n % columns,
                divided == n / columns,
        ;
    }
    if divided * columns >= n {
        assert(divided == 0 || (divided - 1) * columns < n) by (nonlinear_arith)
            requires
                divided * columns + n % columns == n,
                0 <= n % columns < columns,
        ;
        assert(divided <= n) by (nonlinear_arith)
            requires
                divided * columns <= n,
                columns >= 1,
        ;
        proof {
            lemma_ceil_div_value(n as int, columns as int, divided as int);
        }
        divided
    } else {
        assert((divided + 1) * columns >= n) by (nonlinear_arith)
            requires
                divided * columns + n % columns == n,
                0 <= n % columns < columns,
        ;
        assert(divided + 1 <= n) by (nonlinear_arith)
            requires
                divided * columns < n,
                columns >= 1,
        ;
        assert(divided + 1 == 0 || (divided + 1 - 1) * columns < n);
        proof {
            lemma_ceil_div_value(n as int, columns as int, divided + 1);
        }
        divided + 1
    }
}

/// The margin for a stroke of `numerator / denominator` times `font_size`;
/// `None` when the denominator is zero or the margin does not fit in `u32`.
pub fn line_margin(numerator: u32, denominator: u32, font_size: u32) -> (r: Option<u32>)
    ensures
        denominator == 0 ==> r is None,
        denominator > 0 ==> match r {
            Some(m) => m == spec_line_margin(numerator as nat, denominator as nat, font_size as nat),
            None => spec_line_margin(numerator as nat, denominator as nat, font_size as nat)
                > u32::MAX,
        },
{
    if denominator == 0 {
        return None;
    }
    assert((numerator as int) * (font_size as int) <= 0xffff_ffff * 0xffff_ffff) by (nonlinear_arith)
        requires
            numerator <= 0xffff_ffffu32,
            font_size <= 0xffff_ffffu32,
    ;
    let size_product: u128 = (numerator as u128) * (font_size as u128);
    let product: u128 = 2 * size_product;
    assert(product == 2 * numerator * font_size) by (nonlinear_arith)
        requires
            product == 2 * size_product,
            size_product == numerator * font_size,
    ;
    let margin: u128 = (product + denominator as u128 - 1) / denominator as u128;
    if margin > u32::MAX as u128 {
        None
    } else {
        Some(margin as u32)
    }
}


proof fn lemma_columns_unique(c: nat, d: nat, n: nat)
    requires
        is_ceil_sqrt(c, n),
        is_ceil_sqrt(d, n),
    ensures
        c == d,
{
    if c < d {
        assert(c * c <= (d - 1) * (d - 1)) by (nonlinear_arith)
            requires
                c <= d - 1,
        ;
    } else if d < c {
        assert(d * d <= (c - 1) * (c - 1)) by (nonlinear_arith)
            requires
                d <= c - 1,
        ;
    }
}

proof fn lemma_next_position(i: int, columns: int)
    requires
        i >= 0,
        columns > 0,
    ensures
        i % columns + 1 < columns ==> (i + 1) % columns == i % columns + 1 && (i + 1) / columns
            == i / columns,
        i % columns + 1 == columns ==> (i + 1) % columns == 0 && (i + 1) / columns == i
            / columns + 1,
        0 <= i % columns < columns,
{
    vstd::arithmetic::div_mod::lemma_fundamental_div_mod(i, columns);
    vstd::arithmetic::div_mod::lemma_mod_bound(i, columns);
    let q = i / columns;
    let r = i % columns;
    if r + 1 < columns {
        assert(i + 1 == q * columns + (r + 1)) by (nonlinear_arith)
            requires
                i == columns * q + r,
        ;
        vstd::arithmetic::div_mod::lemma_fundamental_div_mod_converse(i + 1, columns, q, r + 1);
    } else {
        assert(i + 1 == (q + 1) * columns + 0) by (nonlinear_arith)
            requires
                i == columns * q + r,
                r + 1 == columns,
        ;
        vstd::arithmetic::div_mod::lemma_fundamental_div_mod_converse(i + 1, columns, q + 1, 0);
    }
}

proof fn lemma_widest_covers(ms: Seq<GlyphMetric>, columns: nat, margin: nat, k: int, j: int)
    requires
        0 <= j < k,
    ensures
        cell_end(ms, columns, margin, j) <= widest(ms, columns, margin, k),
    decreases k,
{
    if j < k - 1 {
        lemma_widest_covers(ms, columns, margin, k - 1, j);
    }
}

/// The height of the tallest glyph.
fn tallest_glyph(metrics: &Vec<GlyphMetric>) -> (r: u32)
    ensures
        r == tallest(metrics@, metrics@.len() as int),
{
    let mut best: u32 = 0;
    for i in 0..metrics.len()
        invariant
            best == tallest(metrics@, i as int),
    {
        if metrics[i].height > best {
            best = metrics[i].height;
        }
    }
    best
}

/// The width of the widest row, or `None` when it reaches `u32::MAX`.
fn widest_row(metrics: &Vec<GlyphMetric>, columns: usize, margin: u32) -> (r: Option<u32>)
    requires
        columns > 0,
    ensures
        match r {
            Some(w) => w == widest(metrics@, columns as nat, margin as nat, metrics@.len() as int)
                && w < u32::MAX,
            None => widest(metrics@, columns as nat, margin as nat, metrics@.len() as int)
                >= u32::MAX,
        },
{
    let ghost ms = metrics@;
    let mut best: u64 = 0;
    let mut draw_x: u64 = 0;
    let mut column: usize = 0;
    proof {
        vstd::arithmetic::div_mod::lemma_small_mod(0, columns as nat);
    }
    for i in 0..metrics.len()
        invariant
            ms == metrics@,
            columns > 0,
            column == (i as int) % (columns as int),
            draw_x == cell_left(ms, columns as nat, margin as nat, i as int),
            draw_x < u32::MAX,
            best == widest(ms, columns as nat, margin as nat, i as int),
            best < u32::MAX,
    {
        proof {
            lemma_next_position(i as int, columns as int);
        }
        let end: u64 = draw_x + metrics[i].width as u64 + 2 * margin as u64;
        assert(end == cell_end(ms, columns as nat, margin as nat, i as int));
        if end >= u32::MAX as u64 {
            proof {
                lemma_widest_covers(ms, columns as nat, margin as nat, ms.len() as int, i as int);
            }
            return None;
        }
        if end > best {
            best = end;
        }
        if column + 1 < columns {
            column = column + 1;
            draw_x = end;
        } else {
            column = 0;
            draw_x = 0;
        }
    }
    Some(best as u32)
}


proof fn lemma_row_in_range(i: int, n: int, columns: int, rows: int, row_height: int)
    requires
        0 <= i < n,
        columns > 0,
        rows * columns >= n,
        row_height >= 0,
    ensures
        (i / columns + 1) * row_height <= rows * row_height,
        i / columns >= 0,
{
    vstd::arithmetic::div_mod::lemma_fundamental_div_mod(i, columns);
    vstd::arithmetic::div_mod::lemma_mod_bound(i, columns);
    let q = i / columns;
    assert(q >= 0) by (nonlinear_arith)
        requires
            i == columns * q + i % columns,
            0 <= i % columns < columns,
            i >= 0,
    ;
    assert(q < rows) by (nonlinear_arith)
        requires
            i == columns * q + i % columns,
            0 <= i % columns,
            i < n,
            rows * columns >= n,
            columns > 0,
    ;
    assert((q + 1) * row_height <= rows * row_height) by (nonlinear_arith)
        requires
            q + 1 <= rows,
            row_height >= 0,
    ;
}

/// Each code point in the lookup table of `cells` comes from a cell, and maps
/// to the rectangle of one of the cells with that character.
proof fn lemma_cell_map_entries(cells: Seq<GlyphCell>)
    ensures
        cell_map(cells).dom() == Set::new(
            |k: u32| exists|i: int| 0 <= i < cells.len() && #[trigger] cells[i].character as u32 == k,
        ),
        forall|k: u32|
            #[trigger] cell_map(cells).contains_key(k) ==> exists|i: int|
                0 <= i < cells.len() && cells[i].character as u32 == k && cell_map(cells)[k]
                    == #[trigger] cells[i].rect,
    decreases cells.len(),
{
    if cells.len() > 0 {
        let prefix = cells.drop_last();
        lemma_cell_map_entries(prefix);
        let last = cells.len() - 1;
        assert forall|k: u32| #[trigger] cell_map(cells).contains_key(k) implies exists|i: int|
            0 <= i < cells.len() && cells[i].character as u32 == k && cell_map(cells)[k]
                == #[trigger] cells[i].rect by {
            if k == cells[last].character as u32 {
                assert(cells[last].rect == cell_map(cells)[k]);
            } else {
                let i = choose|i: int|
                    0 <= i < prefix.len() && prefix[i].character as u32 == k && cell_map(prefix)[k]
                        == #[trigger] prefix[i].rect;
                assert(cells[i] == prefix[i]);
            }
        }
        assert(cell_map(cells).dom() =~= Set::new(
            |k: u32| exists|i: int| 0 <= i < cells.len() && #[trigger] cells[i].character as u32 == k,
        )) by {
            assert forall|k: u32|
                (exists|i: int| 0 <= i < cells.len() && #[trigger] cells[i].character as u32 == k)
                    implies cell_map(cells).contains_key(k) by {
                let i = choose|i: int|
                    0 <= i < cells.len() && #[trigger] cells[i].character as u32 == k;
                if i < last {
                    assert(prefix[i] == cells[i]);
                }
            }
        }
    } else {
        assert(cell_map(cells).dom() =~= Set::new(
            |k: u32| exists|i: int| 0 <= i < cells.len() && #[trigger] cells[i].character as u32 == k,
        ));
    }
}

/// The cells of all glyphs in the order of `metrics`, and the lookup table built from them.
fn place_cells(
    metrics: &Vec<GlyphMetric>,
    columns: usize,
    rows: usize,
    margin: u32,
    row_height: u32,
    width: u32,
    height: u32,
) -> (r: (Vec<GlyphCell>, HashMap<u32, Character>))
    requires
        columns > 0,
        row_height > 0,
        rows * columns >= metrics@.len(),
        height == rows * row_height,
        height < u32::MAX,
        width == widest(metrics@, columns as nat, margin as nat, metrics@.len() as int),
        width < u32::MAX,
    ensures
        r.0@.len() == metrics@.len(),
        forall|i: int|
            0 <= i < metrics@.len() ==> is_packed_cell(
                #[trigger] r.0@[i],
                metrics@,
                columns as nat,
                margin as nat,
                row_height as nat,
                width as nat,
                height as nat,
                i,
            ),
        forall|i: int| 0 <= i < metrics@.len() ==> (#[trigger] r.0@[i]).rect.inside_texture(),
        r.1@ == cell_map(r.0@),
{
    let ghost ms = metrics@;
    let mut cells: Vec<GlyphCell> = Vec::new();
    let mut characters: HashMap<u32, Character> = HashMap::new();
    let mut draw_x: u64 = 0;
    let mut column: usize = 0;
    let mut row: usize = 0;
    proof {
        vstd::arithmetic::div_mod::lemma_small_mod(0, columns as nat);
        assert(characters@ =~= cell_map(cells@));
    }
    for i in 0..metrics.len()
        invariant
            ms == metrics@,
            columns > 0,
            row_height > 0,
            rows * columns >= ms.len(),
            height == rows * row_height,
            height < u32::MAX,
            width == widest(ms, columns as nat, margin as nat, ms.len() as int),
            width < u32::MAX,
            column == (i as int) % (columns as int),
            row == (i as int) / (columns as int),
            draw_x == cell_left(ms, columns as nat, margin as nat, i as int),
            cells@.len() == i,
            forall|j: int|
                0 <= j < i ==> is_packed_cell(
                    #[trigger] cells@[j],
                    ms,
                    columns as nat,
                    margin as nat,
                    row_height as nat,
                    width as nat,
                    height as nat,
                    j,
                ),
            forall|j: int| 0 <= j < i ==> (#[trigger] cells@[j]).rect.inside_texture(),
            characters@ == cell_map(cells@),
    {
        proof {
            lemma_next_position(i as int, columns as int);
            lemma_widest_covers(ms, columns as nat, margin as nat, ms.len() as int, i as int);
            lemma_row_in_range(
                i as int,
                ms.len() as int,
                columns as int,
                rows as int,
                row_height as int,
            );
            assert((row + 1) * row_height == row * row_height + row_height) by (nonlinear_arith);
        }
        let g = metrics[i];
        let end: u64 = draw_x + g.width as u64 + 2 * margin as u64;
        assert(end == cell_end(ms, columns as nat, margin as nat, i as int));
        let top: u64 = row as u64 * row_height as u64;
        let min_x = draw_x as u32;
        let max_x = (draw_x + g.width as u64 + margin as u64) as u32;
        let max_y = (top + row_height as u64 - 1) as u32;
        let rect = Character::new(width, height, min_x, top as u32, max_x, max_y);
        let baseline_y = (top + row_height as u64 * 4 / 5) as u32;
        let cell = GlyphCell { character: g.character, draw_x: min_x, baseline_y, rect };
        let ghost before = cells@;
        cells.push(cell);
        characters.insert(g.character as u32, rect);
        proof {
            assert(cells@.drop_last() == before);
        }
        if column + 1 < columns {
            column = column + 1;
            draw_x = end;
        } else {
            column = 0;
            row = row + 1;
            draw_x = 0;
        }
    }
    (cells, characters)
}


/// The code points of the characters of `ms`.
pub open spec fn code_points(ms: Seq<GlyphMetric>) -> Set<u32> {
    Set::new(|k: u32| exists|i: int| 0 <= i < ms.len() && #[trigger] ms[i].character as u32 == k)
}

/// The atlas of one font: the grid of glyph cells rasterized into one image,
/// and the table from code point to the glyph's rectangle in that image.
pub struct GlyphAtlas {
    font: FontID,
    columns: usize,
    rows: usize,
    width: u32,
    height: u32,
    max_glyph_height: u32,
    cells: Vec<GlyphCell>,
    characters: HashMap<u32, Character>,
}

impl GlyphAtlas {
    #[verifier::type_invariant]
    spec fn inv(self) -> bool {
        &&& self.max_glyph_height > 0
        &&& self.characters@ == cell_map(self.cells@)
        &&& forall|i: int|
            0 <= i < self.cells@.len() ==> {
                let c = #[trigger] self.cells@[i].rect;
                &&& c.wf()
                &&& c.inside_texture()
                &&& c.spec_texture_width() == self.width
                &&& c.spec_texture_height() == self.height
            }
    }

    pub closed spec fn spec_font(&self) -> FontID {
        self.font
    }

    pub closed spec fn spec_columns(&self) -> nat {
        self.columns as nat
    }

    pub closed spec fn spec_rows(&self) -> nat {
        self.rows as nat
    }

    pub closed spec fn spec_width(&self) -> nat {
        self.width as nat
    }

    pub closed spec fn spec_height(&self) -> nat {
        self.height as nat
    }

    pub closed spec fn spec_max_glyph_height(&self) -> nat {
        self.max_glyph_height as nat
    }

    pub closed spec fn spec_cells(&self) -> Seq<GlyphCell> {
        self.cells@
    }

    /// The table from code point to glyph rectangle.
    pub closed spec fn lookup(&self) -> Map<u32, Character> {
        self.characters@
    }

    /// Packs the glyphs of `metrics` into a near-square grid, filled row by
    /// row in the order given, with `margin` pixels on each side of every glyph.
    pub fn build(font: FontID, metrics: &Vec<GlyphMetric>, margin: u32) -> (r: Result<
        GlyphAtlas,
        AtlasError,
    >)
        ensures
            r == Err::<GlyphAtlas, AtlasError>(AtlasError::NoCharacters) <==> metrics@.len() == 0,
            r == Err::<GlyphAtlas, AtlasError>(AtlasError::ZeroHeight) <==> metrics@.len() > 0
                && tallest(metrics@, metrics@.len() as int) == 0,
            r == Err::<GlyphAtlas, AtlasError>(AtlasError::TooLarge) <==> metrics@.len() > 0
                && tallest(metrics@, metrics@.len() as int) > 0 && (packed_width(
                metrics@,
                margin as nat,
            ) >= u32::MAX || packed_height(metrics@) >= u32::MAX),
            r matches Ok(a) ==> {
                let n = metrics@.len();
                &&& a.spec_font() == font
                &&& a.spec_columns() == spec_grid_columns(n)
                &&& is_ceil_sqrt(a.spec_columns(), n)
                &&& a.spec_rows() == spec_grid_rows(n, a.spec_columns())
                &&& is_ceil_div(a.spec_rows(), n, a.spec_columns())
                &&& a.spec_max_glyph_height() == tallest(metrics@, n as int)
                &&& a.spec_width() == packed_width(metrics@, margin as nat)
                &&& a.spec_height() == packed_height(metrics@)
                &&& a.spec_cells().len() == n
                &&& forall|i: int|
                    0 <= i < n ==> is_packed_cell(
                        #[trigger] a.spec_cells()[i],
                        metrics@,
                        a.spec_columns(),
                        margin as nat,
                        a.spec_max_glyph_height(),
                        a.spec_width(),
                        a.spec_height(),
                        i,
                    )
                &&& a.lookup() == cell_map(a.spec_cells())
                &&& a.lookup().dom() == code_points(metrics@)
                &&& forall|k: u32| #[trigger]
                    a.lookup().contains_key(k) ==> a.lookup()[k].normalized()
            },
    {
        let n = metrics.len();
        if n == 0 {
            return Err(AtlasError::NoCharacters);
        }
        let row_height = tallest_glyph(metrics);
        if row_height == 0 {
            return Err(AtlasError::ZeroHeight);
        }
        let columns = grid_columns(n);
        let rows = grid_rows(n, columns);
        let width = match widest_row(metrics, columns, margin) {
            Some(w) => w,
            None => {
                return Err(AtlasError::TooLarge);
            },
        };
        assert((rows as int) * (row_height as int) <= (n as int) * 0xffff_ffff) by (nonlinear_arith)
            requires
                rows <= n,
                row_height <= 0xffff_ffffu32,
        ;
        let height_wide: u128 = rows as u128 * row_height as u128;
        if height_wide >= u32::MAX as u128 {
            return Err(AtlasError::TooLarge);
        }
        let height = height_wide as u32;
        let (cells, characters) = place_cells(
            metrics,
            columns,
            rows,
            margin,
            row_height,
            width,
            height,
        );
        let atlas = GlyphAtlas {
            font,
            columns,
            rows,
            width,
            height,
            max_glyph_height: row_height,
            cells,
            characters,
        };
        proof {
            lemma_cell_map_entries(atlas.cells@);
            assert(atlas.lookup().dom() =~= code_points(metrics@)) by {
                assert forall|k: u32| #[trigger] code_points(metrics@).contains(k) implies atlas.lookup().contains_key(k) by {
                    let i = choose|i: int| 0 <= i < n && #[trigger] metrics@[i].character as u32 == k;
                    assert(atlas.cells@[i].character == metrics@[i].character);
                }
                assert forall|k: u32| atlas.lookup().contains_key(k) implies #[trigger] code_points(metrics@).contains(k) by {
                    let i = choose|i: int| 0 <= i < atlas.cells@.len() && #[trigger] atlas.cells@[i].character as u32 == k;
                    assert(atlas.cells@[i].character == metrics@[i].character);
                }
            }
        }
        Ok(atlas)
    }

    pub fn font(&self) -> (r: FontID)
        ensures
            r == self.spec_font(),
    {
        self.font
    }

    pub fn columns(&self) -> (r: usize)
        ensures
            r == self.spec_columns(),
    {
        self.columns
    }

    pub fn rows(&self) -> (r: usize)
        ensures
            r == self.spec_rows(),
    {
        self.rows
    }

    pub fn width(&self) -> (r: u32)
        ensures
            r == self.spec_width(),
    {
        self.width
    }

    pub fn height(&self) -> (r: u32)
        ensures
            r == self.spec_height(),
    {
        self.height
    }

    pub fn max_glyph_height(&self) -> (r: u32)
        ensures
            r == self.spec_max_glyph_height(),
            r > 0,
    {
        proof {
            use_type_invariant(self);
        }
        self.max_glyph_height
    }

    /// The cells in the order of the character set, for rasterizing the atlas image.
    pub fn cells(&self) -> (r: &Vec<GlyphCell>)
        ensures
            r@ == self.spec_cells(),
    {
        &self.cells
    }

    /// The rectangle of `c`, or `None` when `c` is not in the atlas.
    pub fn get_character(&self, c: char) -> (r: Option<Character>)
        ensures
            r == (if self.lookup().contains_key(c as u32) {
                Some(self.lookup()[c as u32])
            } else {
                None::<Character>
            }),
            r matches Some(rect) ==> rect.wf() && rect.normalized() && rect.spec_texture_width()
                == self.spec_width() && rect.spec_texture_height() == self.spec_height(),
    {
        proof {
            use_type_invariant(self);
            lemma_cell_map_entries(self.cells@);
        }
        match self.characters.get(&(c as u32)) {
            Some(rect) => Some(*rect),
            None => None,
        }
    }
}

} // verus!
