//! The render-state cache: which GPU state changes a draw has to issue.
use vstd::prelude::*;

use crate::font::FontID;
use crate::model::TextLayout;

verus! {

/// A color with 8-bit red, green, blue and alpha channels.
#[derive(Clone, Copy, Debug, PartialEq, Eq, Structural)]
pub struct Color {
    pub red: u8,
    pub green: u8,
    pub blue: u8,
    pub alpha: u8,
}

impl Color {
    pub fn from_rgba(red: u8, green: u8, blue: u8, alpha: u8) -> (r: Color)
        ensures
            r == (Color { red, green, blue, alpha }),
    {
        Color { red, green, blue, alpha }
    }
}

/// The three colors of a draw: the glyph interior, its outline, and the
/// background of the text's area.
#[derive(Clone, Copy, Debug, PartialEq, Eq, Structural)]
pub struct TextColors {
    pub fill_color: Color,
    pub stroke_color: Color,
    pub background_color: Color,
}

/// Two 32-bit floating-point uniform components, held as their IEEE 754 bit
/// patterns. Two values are the same when their bits are.
#[derive(Clone, Copy, Debug, PartialEq, Eq, Structural)]
pub struct UniformPair {
    pub x: u32,
    pub y: u32,
}

/// The uniform values of one draw.
#[derive(Clone, Copy, Debug, PartialEq, Eq, Structural)]
pub struct DrawRequest {
    pub screen_position: UniformPair,
    pub scale: UniformPair,
    pub colors: TextColors,
}

/// The GPU state changes that a draw has to issue: binding the font's
/// texture (with its sampler uniform) and writing each uniform.
#[derive(Clone, Copy, Debug, PartialEq, Eq, Structural)]
pub struct DrawPlan {
    pub bind_texture: bool,
    pub write_background_color: bool,
    pub write_fill_color: bool,
    pub write_stroke_color: bool,
    pub write_screen_position: bool,
    pub write_scale: bool,
}

/// The last value written to each tracked piece of GPU state, or `None` when
/// nothing is known of it.
#[derive(Clone, Copy, Debug, PartialEq, Eq, Structural)]
pub struct RenderStateModel {
    pub selected_font: Option<FontID>,
    pub screen_position: Option<UniformPair>,
    pub scale: Option<UniformPair>,
    pub fill_color: Option<Color>,
    pub stroke_color: Option<Color>,
    pub background_color: Option<Color>,
}

impl RenderStateModel {
    /// What a draw of `font`'s text with `request` has to write: everything
    /// whose cached value differs from the requested one.
    pub open spec fn plan(self, font: FontID, request: DrawRequest) -> DrawPlan {
        DrawPlan {
            bind_texture: self.selected_font != Some(font),
            write_background_color: self.background_color != Some(
                request.colors.background_color,
            ),
            write_fill_color: self.fill_color != Some(request.colors.fill_color),
            write_stroke_color: self.stroke_color != Some(request.colors.stroke_color),
            write_screen_position: self.screen_position != Some(request.screen_position),
            write_scale: self.scale != Some(request.scale),
        }
    }

    /// The cache after such a draw: it holds every requested value.
    pub open spec fn after_draw(self, font: FontID, request: DrawRequest) -> RenderStateModel {
        RenderStateModel {
            selected_font: Some(font),
            screen_position: Some(request.screen_position),
            scale: Some(request.scale),
            fill_color: Some(request.colors.fill_color),
            stroke_color: Some(request.colors.stroke_color),
            background_color: Some(request.colors.background_color),
        }
    }
}

/// A plan that changes nothing.
pub open spec fn no_changes() -> DrawPlan {
    DrawPlan {
        bind_texture: false,
        write_background_color: false,
        write_fill_color: false,
        write_stroke_color: false,
        write_screen_position: false,
        write_scale: false,
    }
}

/// The render-state cache of one shader program: the font whose texture is
/// bound and the last value written to each uniform.
pub struct RenderState {
    selected_font: Option<FontID>,
    screen_position: Option<UniformPair>,
    scale: Option<UniformPair>,
    fill_color: Option<Color>,
    stroke_color: Option<Color>,
    background_color: Option<Color>,
}

impl View for RenderState {
    type V = RenderStateModel;

    closed spec fn view(&self) -> RenderStateModel {
        RenderStateModel {
            selected_font: self.selected_font,
            screen_position: self.screen_position,
            scale: self.scale,
            fill_color: self.fill_color,
            stroke_color: self.stroke_color,
            background_color: self.background_color,
        }
    }
}

fn differs_pair(cached: Option<UniformPair>, value: UniformPair) -> (r: bool)
    ensures
        r == (cached != Some(value)),
{
    match cached {
        Some(v) => v != value,
        None => true,
    }
}

fn differs_color(cached: Option<Color>, value: Color) -> (r: bool)
    ensures
        r == (cached != Some(value)),
{
    match cached {
        Some(v) => v != value,
        None => true,
    }
}

impl RenderState {
    /// A cache that knows nothing of the GPU state.
    pub fn new() -> (r: RenderState)
        ensures
            r@ == (RenderStateModel {
                selected_font: None,
                screen_position: None,
                scale: None,
                fill_color: None,
                stroke_color: None,
                background_color: None,
            }),
    {
        RenderState {
            selected_font: None,
            screen_position: None,
            scale: None,
            fill_color: None,
            stroke_color: None,
            background_color: None,
        }
    }

    /// Selects `font`; the result says whether its texture has to be bound.
    pub fn select_font(&mut self, font: FontID) -> (bind: bool)
        ensures
            bind == (old(self)@.selected_font != Some(font)),
            final(self)@ == (RenderStateModel { selected_font: Some(font), ..old(self)@ }),
    {
        let bind = match self.selected_font {
            Some(current) => current != font,
            None => true,
        };
        self.selected_font = Some(font);
        bind
    }

    /// Forgets which font is bound, as after GPU work done elsewhere.
    pub fn forget_font(&mut self)
        ensures
            final(self)@ == (RenderStateModel { selected_font: None, ..old(self)@ }),
    {
        self.selected_font = None;
    }

    /// Records the screen position; the result says whether it has to be written.
    pub fn set_screen_position(&mut self, value: UniformPair) -> (write: bool)
        ensures
            write == (old(self)@.screen_position != Some(value)),
            final(self)@ == (RenderStateModel { screen_position: Some(value), ..old(self)@ }),
    {
        let write = differs_pair(self.screen_position, value);
        self.screen_position = Some(value);
        write
    }

    /// Records the scale; the result says whether it has to be written.
    pub fn set_scale(&mut self, value: UniformPair) -> (write: bool)
        ensures
            write == (old(self)@.scale != Some(value)),
            final(self)@ == (RenderStateModel { scale: Some(value), ..old(self)@ }),
    {
        let write = differs_pair(self.scale, value);
        self.scale = Some(value);
        write
    }

    /// Records the background color; the result says whether it has to be written.
    pub fn set_background_color(&mut self, value: Color) -> (write: bool)
        ensures
            write == (old(self)@.background_color != Some(value)),
            final(self)@ == (RenderStateModel { background_color: Some(value), ..old(self)@ }),
    {
        let write = differs_color(self.background_color, value);
        self.background_color = Some(value);
        write
    }

    /// Records the fill color; the result says whether it has to be written.
    pub fn set_fill_color(&mut self, value: Color) -> (write: bool)
        ensures
            write == (old(self)@.fill_color != Some(value)),
            final(self)@ == (RenderStateModel { fill_color: Some(value), ..old(self)@ }),
    {
        let write = differs_color(self.fill_color, value);
        self.fill_color = Some(value);
        write
    }

    /// Records the stroke color; the result says whether it has to be written.
    pub fn set_stroke_color(&mut self, value: Color) -> (write: bool)
        ensures
            write == (old(self)@.stroke_color != Some(value)),
            final(self)@ == (RenderStateModel { stroke_color: Some(value), ..old(self)@ }),
    {
        let write = differs_color(self.stroke_color, value);
        self.stroke_color = Some(value);
        write
    }

    /// Decides the GPU state changes for drawing `layout` with `request`, and
    /// records the requested state as current.
    pub fn plan_draw(&mut self, layout: &TextLayout, request: &DrawRequest) -> (r: DrawPlan)
        ensures
            r == old(self)@.plan(layout.spec_font(), *request),
            final(self)@ == old(self)@.after_draw(layout.spec_font(), *request),
    {
        let bind_texture = self.select_font(layout.get_font());
        let write_background_color = self.set_background_color(request.colors.background_color);
        let write_fill_color = self.set_fill_color(request.colors.fill_color);
        let write_stroke_color = self.set_stroke_color(request.colors.stroke_color);
        let write_screen_position = self.set_screen_position(request.screen_position);
        let write_scale = self.set_scale(request.scale);
        DrawPlan {
            bind_texture,
            write_background_color,
            write_fill_color,
            write_stroke_color,
            write_screen_position,
            write_scale,
        }
    }
}

/// Drawing again with the same font and the same uniform values changes no
/// GPU state, and leaves the cache as it was.
pub proof fn lemma_repeated_draw_changes_nothing(
    state: RenderStateModel,
    font: FontID,
    request: DrawRequest,
)
    ensures
        state.after_draw(font, request).plan(font, request) == no_changes(),
        state.after_draw(font, request).after_draw(font, request) == state.after_draw(
            font,
            request,
        ),
{
}

/// Of two consecutive draws of layouts compiled against the same atlas, only
/// the first may bind the texture, and it does so exactly when another font
/// (or none) was selected before.
pub proof fn lemma_shared_atlas_binds_once(
    state: RenderStateModel,
    first: TextLayout,
    second: TextLayout,
    first_request: DrawRequest,
    second_request: DrawRequest,
)
    requires
        first.spec_font() == second.spec_font(),
    ensures
        state.plan(first.spec_font(), first_request).bind_texture == (state.selected_font != Some(
            first.spec_font(),
        )),
        !state.after_draw(first.spec_font(), first_request).plan(
            second.spec_font(),
            second_request,
        ).bind_texture,
{
}

} // verus!
