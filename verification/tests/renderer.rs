use wallpaper_render::commands::Command;
use wallpaper_render::error::RenderError;
use wallpaper_render::geometry::{
    texture_coordinates, vertex_coordinates_for_fit, BackgroundMode, Coordinates, Fraction,
};
use wallpaper_render::renderer::state::TextureBinding;
use wallpaper_render::renderer::Renderer;
use wallpaper_render::wallpaper::{DisplayInfo, Wallpaper};
use wallpaper_render::texture::DecodedImage;
use wallpaper_render::vertices::get_opengl_point_coordinates;

const PROGRAM: u32 = 11;
const VAO: u32 = 12;
const VBO: u32 = 13;
const EAB: u32 = 14;
const TRANSPARENT: u32 = 15;

fn display() -> DisplayInfo {
    DisplayInfo {
        scaled_width: 1920,
        scaled_height: 1080,
        adjusted_width: 3840,
        adjusted_height: 2160,
    }
}

fn image(width: u32, height: u32) -> DecodedImage {
    let bytes: usize = 4 * width as usize * height as usize;
    DecodedImage::new(width, height, vec![0; bytes]).expect("the buffer has the right size")
}

fn renderer() -> Renderer {
    Renderer::new(PROGRAM, VAO, VBO, EAB, TRANSPARENT, 21, &image(1600, 1200), &display()).0
}

fn binds(unit0: u32, unit1: u32) -> Vec<Command> {
    vec![
        Command::ActiveTexture(0),
        Command::BindTexture(unit0),
        Command::ActiveTexture(1),
        Command::BindTexture(unit1),
    ]
}

fn frame(num: i128) -> Vec<Command> {
    vec![Command::Clear, Command::SetProgress(Fraction { num, den: 300 }), Command::DrawQuad]
}

#[test]
fn empty_wallpaper_is_ten_by_ten() {
    let w = Wallpaper::new();
    assert_eq!(w, Wallpaper { texture: 0, image_width: 10, image_height: 10 });
}

#[test]
fn wallpaper_bind_names_its_texture() {
    let mut w = Wallpaper::new();
    assert_eq!(w.bind(), Command::BindTexture(0));
    w.load_image(5, &image(640, 480));
    assert_eq!(w.bind(), Command::BindTexture(5));
}

#[test]
fn load_image_deletes_previous_texture() {
    let mut w = Wallpaper::new();
    assert_eq!(w.load_image(5, &image(640, 480)), Command::DeleteTexture(0));
    assert_eq!(w, Wallpaper { texture: 5, image_width: 640, image_height: 480 });
    assert_eq!(w.load_image(6, &image(320, 200)), Command::DeleteTexture(5));
    assert_eq!(w, Wallpaper { texture: 6, image_width: 320, image_height: 200 });
}

#[test]
fn wallpaper_coordinates_use_scaled_display_size() {
    let mut w = Wallpaper::new();
    w.load_image(5, &image(1600, 1200));
    let d = display();
    assert_eq!(
        w.generate_texture_coordinates(&d, BackgroundMode::Fill),
        texture_coordinates(1920, 1080, 1600, 1200, BackgroundMode::Fill)
    );
    assert_eq!(
        w.generate_texture_coordinates(&d, BackgroundMode::Tile).x_right,
        Fraction { num: 1920, den: 1600 }
    );
    assert_eq!(
        w.generate_vertices_coordinates_for_fit_mode(&d),
        vertex_coordinates_for_fit(1920, 1080, 1600, 1200)
    );
}

#[test]
fn new_renderer_shows_first_image_stretched() {
    let d = display();
    let (r, commands) = Renderer::new(PROGRAM, VAO, VBO, EAB, TRANSPARENT, 21, &image(1600, 1200), &d);
    assert_eq!(r.program, PROGRAM);
    assert_eq!((r.vao, r.vbo, r.eab), (VAO, VBO, EAB));
    assert_eq!(r.transparent_texture, TRANSPARENT);
    assert_eq!(r.time_started, 0);
    assert!(!r.animation_fit_changed);
    assert_eq!(r.old_wallpaper, Wallpaper::new());
    assert_eq!(
        r.current_wallpaper,
        Wallpaper { texture: 21, image_width: 1600, image_height: 1200 }
    );
    assert_eq!(r.bound, TextureBinding { unit0: 0, unit1: 21 });
    let full = Coordinates::default_texture_coordinates();
    let vertices =
        get_opengl_point_coordinates(Coordinates::default_vec_coordinates(), &full, &full);
    assert_eq!(r.vertices, vertices);
    let mut expected = vec![Command::DeleteTexture(0), Command::WriteVertices(vertices)];
    expected.extend(binds(0, 21));
    assert_eq!(commands, expected);
}

#[test]
fn load_swaps_roles_and_releases_old_texture() {
    let d = display();
    let mut r = renderer();
    let commands = r.load_wallpaper(22, &image(800, 800), BackgroundMode::Fill, &d);
    assert_eq!(r.old_wallpaper, Wallpaper { texture: 21, image_width: 1600, image_height: 1200 });
    assert_eq!(r.current_wallpaper, Wallpaper { texture: 22, image_width: 800, image_height: 800 });
    let vertices = get_opengl_point_coordinates(
        Coordinates::default_vec_coordinates(),
        &texture_coordinates(1920, 1080, 800, 800, BackgroundMode::Fill),
        &texture_coordinates(1920, 1080, 1600, 1200, BackgroundMode::Fill),
    );
    assert_eq!(r.vertices, vertices);
    assert_eq!(r.bound, TextureBinding { unit0: 21, unit1: 22 });
    let mut expected = vec![Command::DeleteTexture(0), Command::WriteVertices(vertices)];
    expected.extend(binds(21, 22));
    assert_eq!(commands, expected);
}

#[test]
fn two_loads_leave_two_live_textures() {
    let d = display();
    let mut r = renderer();
    let first = r.load_wallpaper(22, &image(800, 800), BackgroundMode::Stretch, &d);
    assert_eq!(first[0], Command::DeleteTexture(0));
    assert_eq!((r.old_wallpaper.texture, r.current_wallpaper.texture), (21, 22));
    let second = r.load_wallpaper(23, &image(640, 480), BackgroundMode::Stretch, &d);
    assert_eq!(second[0], Command::DeleteTexture(21));
    assert_eq!((r.old_wallpaper.texture, r.current_wallpaper.texture), (22, 23));
    assert_eq!(second[2..].to_vec(), binds(22, 23));
    assert!(!second[1..].contains(&Command::BindTexture(21)));
    assert!(r.bound.unit0 != 21 && r.bound.unit1 != 21);
    let third = r.load_wallpaper(24, &image(640, 480), BackgroundMode::Fit, &d);
    let mut expected = vec![Command::DeleteTexture(22)];
    expected.extend(binds(23, TRANSPARENT));
    assert_eq!(third, expected);
    assert_eq!((r.old_wallpaper.texture, r.current_wallpaper.texture), (23, 24));
}

#[test]
fn load_does_not_start_animation() {
    let d = display();
    let mut r = renderer();
    r.start_animation(1000);
    r.load_wallpaper(22, &image(800, 800), BackgroundMode::Stretch, &d);
    assert_eq!(r.time_started, 1000);
}

#[test]
fn load_in_fit_mode_keeps_vertices_until_midpoint() {
    let d = display();
    let mut r = renderer();
    let before = r.vertices;
    let commands = r.load_wallpaper(22, &image(800, 800), BackgroundMode::Fit, &d);
    assert_eq!(r.vertices, before);
    assert_eq!(r.bound, TextureBinding { unit0: 21, unit1: TRANSPARENT });
    let mut expected = vec![Command::DeleteTexture(0)];
    expected.extend(binds(21, TRANSPARENT));
    assert_eq!(commands, expected);
}

#[test]
fn draw_right_after_load_shows_old_image() {
    let d = display();
    for mode in
        [BackgroundMode::Stretch, BackgroundMode::Fill, BackgroundMode::Tile, BackgroundMode::Fit]
    {
        let mut r = renderer();
        r.load_wallpaper(22, &image(800, 800), mode, &d);
        r.start_animation(5000);
        let bound = r.bound;
        let vertices = r.vertices;
        let commands = r.draw(5000, mode, &d);
        assert_eq!(commands, frame(0));
        assert!(!r.animation_fit_changed);
        assert_eq!(r.bound, bound);
        assert_eq!(r.vertices, vertices);
        assert_eq!(r.bound.unit0, 21);
    }
}

#[test]
fn crossfade_is_linear_outside_fit() {
    let d = display();
    let mut r = renderer();
    r.load_wallpaper(22, &image(800, 800), BackgroundMode::Fill, &d);
    r.start_animation(0);
    for (time, num) in [(0u32, 0i128), (100, 100), (150, 150), (151, 151), (300, 300), (900, 300)] {
        assert_eq!(r.draw(time, BackgroundMode::Fill, &d), frame(num));
    }
    assert!(!r.animation_fit_changed);
}

#[test]
fn fit_transition_switches_once_past_midpoint() {
    let d = display();
    let mut r = renderer();
    let old_vertices = r.vertices;
    r.load_wallpaper(22, &image(800, 800), BackgroundMode::Fit, &d);
    r.start_animation(0);

    assert_eq!(r.draw(100, BackgroundMode::Fit, &d), frame(200));
    assert!(!r.animation_fit_changed);
    assert_eq!(r.bound, TextureBinding { unit0: 21, unit1: TRANSPARENT });
    assert_eq!(r.vertices, old_vertices);

    assert_eq!(r.draw(150, BackgroundMode::Fit, &d), frame(300));
    assert!(!r.animation_fit_changed);

    let commands = r.draw(151, BackgroundMode::Fit, &d);
    assert!(r.animation_fit_changed);
    let full = Coordinates::default_texture_coordinates();
    let letterboxed = get_opengl_point_coordinates(
        vertex_coordinates_for_fit(1920, 1080, 800, 800),
        &full,
        &full,
    );
    let mut expected = vec![Command::Clear];
    expected.extend(binds(TRANSPARENT, 22));
    expected.push(Command::WriteVertices(letterboxed));
    expected.push(Command::SetProgress(Fraction { num: 2, den: 300 }));
    expected.push(Command::DrawQuad);
    assert_eq!(commands, expected);
    assert_eq!(r.bound, TextureBinding { unit0: TRANSPARENT, unit1: 22 });
    assert_eq!(r.vertices, letterboxed);

    assert_eq!(r.draw(152, BackgroundMode::Fit, &d), frame(4));
    assert!(r.animation_fit_changed);

    let last = r.draw(300, BackgroundMode::Fit, &d);
    assert_eq!(last, frame(300));
    match last[1] {
        Command::SetProgress(p) => assert_eq!(p.num as f64 / p.den as f64, 1.0),
        _ => panic!("the second command sets the blend factor"),
    }
}

#[test]
fn start_animation_clears_fit_flag() {
    let d = display();
    let mut r = renderer();
    r.load_wallpaper(22, &image(800, 800), BackgroundMode::Fit, &d);
    r.start_animation(0);
    assert_eq!(r.draw(200, BackgroundMode::Fit, &d).len(), 8);
    assert!(r.animation_fit_changed);
    r.start_animation(1000);
    assert_eq!(r.time_started, 1000);
    assert!(!r.animation_fit_changed);
    assert_eq!(r.draw(1100, BackgroundMode::Fit, &d).len(), 3);
    assert_eq!(r.draw(1200, BackgroundMode::Fit, &d).len(), 8);
}

#[test]
fn draw_before_start_stays_at_zero() {
    let d = display();
    let mut r = renderer();
    r.start_animation(1000);
    assert_eq!(r.draw(10, BackgroundMode::Stretch, &d), frame(0));
}

#[test]
fn set_mode_in_fit_before_midpoint_places_old_image() {
    let d = display();
    let mut r = renderer();
    r.load_wallpaper(22, &image(800, 800), BackgroundMode::Fit, &d);
    let command = r.set_mode(BackgroundMode::Fit, false, &d);
    let full = Coordinates::default_texture_coordinates();
    let vertices = get_opengl_point_coordinates(
        vertex_coordinates_for_fit(1920, 1080, 1600, 1200),
        &full,
        &full,
    );
    assert_eq!(command, Command::WriteVertices(vertices));
    assert_eq!(r.vertices, vertices);
    // the horizontal half-extent is the image's ratio over the display's
    assert_eq!(vertices[12].num as f64 / vertices[12].den as f64, 0.75);
    assert_eq!(vertices[0].num as f64 / vertices[0].den as f64, -0.75);
    assert_eq!(vertices[1], Fraction::whole(-1));
}

#[test]
fn set_mode_in_fit_after_midpoint_places_current_image() {
    let d = display();
    let mut r = renderer();
    r.load_wallpaper(22, &image(800, 800), BackgroundMode::Fit, &d);
    let command = r.set_mode(BackgroundMode::Fit, true, &d);
    let full = Coordinates::default_texture_coordinates();
    let vertices = get_opengl_point_coordinates(
        vertex_coordinates_for_fit(1920, 1080, 800, 800),
        &full,
        &full,
    );
    assert_eq!(command, Command::WriteVertices(vertices));
    assert_eq!(vertices[12].num as f64 / vertices[12].den as f64, 0.5625);
}

#[test]
fn set_mode_tile_repeats_both_images() {
    let d = display();
    let mut r = renderer();
    r.load_wallpaper(22, &image(480, 270), BackgroundMode::Tile, &d);
    r.set_mode(BackgroundMode::Tile, false, &d);
    let v = r.vertices;
    // right bound of the current image at the bottom right vertex
    assert_eq!(v[14], Fraction { num: 1920, den: 480 });
    assert_eq!(v[14].num as f64 / v[14].den as f64, 4.0);
    // right bound of the old image at the same vertex
    assert_eq!(v[16], Fraction { num: 1920, den: 1600 });
}

#[test]
fn is_drawing_animation_until_end() {
    let mut r = renderer();
    r.start_animation(1000);
    assert!(r.is_drawing_animation(0));
    assert!(r.is_drawing_animation(1000));
    assert!(r.is_drawing_animation(1299));
    assert!(!r.is_drawing_animation(1300));
    assert!(!r.is_drawing_animation(5000));
}

#[test]
fn is_drawing_animation_near_end_of_clock() {
    let mut r = renderer();
    r.start_animation(u32::MAX - 10);
    assert!(r.is_drawing_animation(u32::MAX));
    assert!(r.is_drawing_animation(0));
}

#[test]
fn resize_sets_viewport_to_adjusted_size() {
    let r = renderer();
    assert_eq!(r.resize(&display()), Command::Viewport { width: 3840, height: 2160 });
}

#[test]
fn clear_after_draw_unbinds_three_targets() {
    let r = renderer();
    assert_eq!(
        r.clear_after_draw(),
        vec![
            Command::UnbindUnpackBuffer,
            Command::UnbindFramebuffer,
            Command::UnbindRenderbuffer
        ]
    );
}

#[test]
fn release_names_every_object_in_order() {
    let d = display();
    let mut r = renderer();
    r.load_wallpaper(22, &image(800, 800), BackgroundMode::Stretch, &d);
    assert_eq!(
        r.release(),
        vec![
            Command::DeleteTexture(22),
            Command::DeleteTexture(21),
            Command::DeleteBuffer(EAB),
            Command::DeleteBuffer(VBO),
            Command::DeleteVertexArray(VAO),
            Command::DeleteProgram(PROGRAM),
            Command::DeleteTexture(TRANSPARENT),
        ]
    );
}

#[test]
fn renderer_check_error_reports_code() {
    let r = renderer();
    assert_eq!(r.check_error("resizing the viewport", 0, None), Ok(()));
    assert_eq!(
        r.check_error("resizing the viewport", 0x0501, None),
        Err(RenderError::Graphics {
            when: String::from("resizing the viewport"),
            code: 0x0501,
            text: None,
        })
    );
}

#[test]
fn display_info_needs_positive_sizes() {
    assert_eq!(DisplayInfo::new(1920, 1080, 3840, 2160), Some(display()));
    assert_eq!(DisplayInfo::new(0, 1080, 3840, 2160), None);
    assert_eq!(DisplayInfo::new(1920, 0, 3840, 2160), None);
    assert_eq!(DisplayInfo::new(1920, 1080, 0, 2160), None);
    assert_eq!(DisplayInfo::new(1920, 1080, 3840, -1), None);
}

#[test]
fn vertices_of_real_sizes_have_positive_denominators() {
    let d = display();
    for mode in
        [BackgroundMode::Stretch, BackgroundMode::Fill, BackgroundMode::Tile, BackgroundMode::Fit]
    {
        let mut r = renderer();
        r.load_wallpaper(22, &image(640, 480), mode, &d);
        r.start_animation(0);
        r.draw(200, mode, &d);
        assert!(r.vertices.iter().all(|value| value.den > 0));
    }
}
