use wasmuri_text::{
    Color, DrawPlan, DrawRequest, FontID, GlyphAtlas, GlyphMetric, RenderState, TextColors,
    TextLayout, UniformPair,
};

fn atlas(font: usize) -> GlyphAtlas {
    let metrics = vec![
        GlyphMetric { character: 'h', width: 8, height: 12 },
        GlyphMetric { character: 'i', width: 3, height: 12 },
    ];
    GlyphAtlas::build(FontID::new(font), &metrics, 1).unwrap()
}

fn request(x: f32, scale: f32, fill: Color) -> DrawRequest {
    DrawRequest {
        screen_position: UniformPair { x: x.to_bits(), y: (-0.5f32).to_bits() },
        scale: UniformPair { x: (scale / 1.5).to_bits(), y: scale.to_bits() },
        colors: TextColors {
            fill_color: fill,
            stroke_color: Color::from_rgba(0, 0, 0, 255),
            background_color: Color::from_rgba(255, 255, 255, 0),
        },
    }
}

fn all_writes() -> DrawPlan {
    DrawPlan {
        bind_texture: true,
        write_background_color: true,
        write_fill_color: true,
        write_stroke_color: true,
        write_screen_position: true,
        write_scale: true,
    }
}

fn no_writes() -> DrawPlan {
    DrawPlan {
        bind_texture: false,
        write_background_color: false,
        write_fill_color: false,
        write_stroke_color: false,
        write_screen_position: false,
        write_scale: false,
    }
}

#[test]
fn repeated_draw_issues_no_state_changes() {
    let atlas = atlas(0);
    let layout = TextLayout::compile_text(&atlas, "hi").unwrap();
    let mut state = RenderState::new();
    let req = request(0.25, 0.1, Color::from_rgba(200, 10, 10, 255));
    assert_eq!(state.plan_draw(&layout, &req), all_writes());
    assert_eq!(state.plan_draw(&layout, &req), no_writes());
}

#[test]
fn layouts_of_one_atlas_bind_texture_once() {
    let atlas = atlas(3);
    let first = TextLayout::compile_text(&atlas, "hi").unwrap();
    let second = TextLayout::compile_text(&atlas, "ih h").unwrap();
    let mut state = RenderState::new();
    let fill = Color::from_rgba(1, 2, 3, 4);
    let first_plan = state.plan_draw(&first, &request(0.0, 0.2, fill));
    let second_plan = state.plan_draw(&second, &request(0.5, 0.2, fill));
    assert!(first_plan.bind_texture);
    assert!(!second_plan.bind_texture);
    assert!(second_plan.write_screen_position);
    assert!(!second_plan.write_scale);
    assert!(!second_plan.write_fill_color);
}

#[test]
fn changed_values_are_written_again() {
    let atlas_a = atlas(0);
    let atlas_b = atlas(1);
    let a = TextLayout::compile_text(&atlas_a, "h").unwrap();
    let b = TextLayout::compile_text(&atlas_b, "h").unwrap();
    let mut state = RenderState::new();
    state.plan_draw(&a, &request(0.0, 0.2, Color::from_rgba(1, 1, 1, 1)));
    let plan = state.plan_draw(&b, &request(0.0, 0.3, Color::from_rgba(1, 1, 1, 2)));
    assert!(plan.bind_texture);
    assert!(plan.write_fill_color);
    assert!(plan.write_scale);
    assert!(!plan.write_screen_position);
    assert!(!plan.write_stroke_color);
    assert!(!plan.write_background_color);
    let back = state.plan_draw(&a, &request(0.0, 0.3, Color::from_rgba(1, 1, 1, 2)));
    assert!(back.bind_texture);
    assert!(!back.write_fill_color);
}

#[test]
fn forgetting_the_font_forces_a_bind() {
    let mut state = RenderState::new();
    assert!(state.select_font(FontID::new(5)));
    assert!(!state.select_font(FontID::new(5)));
    state.forget_font();
    assert!(state.select_font(FontID::new(5)));
    assert!(state.select_font(FontID::new(6)));
}

#[test]
fn uniform_setters_write_only_on_change() {
    let mut state = RenderState::new();
    let p = UniformPair { x: 1.0f32.to_bits(), y: 2.0f32.to_bits() };
    assert!(state.set_screen_position(p));
    assert!(!state.set_screen_position(p));
    assert!(state.set_scale(p));
    assert!(!state.set_scale(p));
    let q = UniformPair { x: 1.0f32.to_bits(), y: 3.0f32.to_bits() };
    assert!(state.set_scale(q));
    let c = Color::from_rgba(9, 8, 7, 6);
    assert!(state.set_background_color(c));
    assert!(!state.set_background_color(c));
    assert!(state.set_fill_color(c));
    assert!(!state.set_fill_color(c));
    assert!(state.set_stroke_color(c));
    assert!(!state.set_stroke_color(c));
    assert!(state.set_stroke_color(Color::from_rgba(9, 8, 7, 5)));
}
