//! What holds of the renderer in every state, and of the graphics side when
//! the renderer's commands are issued.

use vstd::prelude::*;
use crate::animation::{blend_at, ANIMATION_TIME};
use crate::commands::{Command, Frame, GpuState};
use crate::geometry::{lemma_rectangles_are_well_formed, BackgroundMode, Fraction, Rect};
use crate::pipeline::{lemma_setup_matches_vertex_layout, setup_sequence};
use crate::renderer::state::{RendererState, TextureBinding};
use crate::texture::{lemma_upload_binds_texture_on_unit_zero, upload_sequence};
use crate::vertices::{element_indices, quad_vertices, ratios};
use crate::wallpaper::DisplayInfo;

verus! {

/// Every step keeps a well-formed state well formed, and a load makes any
/// state well formed.
pub proof fn lemma_steps_keep_state_well_formed(
    s: RendererState,
    texture: u32,
    width: u32,
    height: u32,
    mode: BackgroundMode,
    half: bool,
    time: int,
    display: DisplayInfo,
)
    ensures
        s.after_load(texture, width, height, mode, display).wf(),
        s.wf() ==> s.after_set_mode(mode, half, display).wf(),
        s.wf() ==> s.after_start(time).wf(),
        s.wf() ==> s.after_draw(time, mode, display).wf(),
{
}

/// The commands of a load leave on the graphics side what the state records,
/// whatever was bound before: the old image on unit 0, on unit 1 the new image
/// or, in Fit mode, the transparent texture, and outside Fit the new
/// vertices. Nothing is drawn.
pub proof fn lemma_load_commands_bind_what_state_records(
    s: RendererState,
    gpu: GpuState,
    texture: u32,
    width: u32,
    height: u32,
    mode: BackgroundMode,
    display: DisplayInfo,
    vertices: [Fraction; 24],
)
    requires
        mode != BackgroundMode::Fit ==> ratios(vertices@) == s.after_load(
            texture,
            width,
            height,
            mode,
            display,
        ).vertices,
    ensures
        ({
            let loaded = s.after_load(texture, width, height, mode, display);
            let after = gpu.run(s.load_commands(loaded, mode, vertices));
            &&& after.unit0 == loaded.bound.unit0 == s.current_wallpaper.texture
            &&& after.unit1 == loaded.bound.unit1
            &&& after.unit1 == if mode == BackgroundMode::Fit {
                s.transparent_texture
            } else {
                texture
            }
            &&& after.vertices == if mode == BackgroundMode::Fit {
                gpu.vertices
            } else {
                loaded.vertices
            }
            &&& after.shown == gpu.shown
            &&& gpu.vertices == s.vertices ==> loaded.in_sync(after)
        }),
{
    let loaded = s.after_load(texture, width, height, mode, display);
    let commands = s.load_commands(loaded, mode, vertices);
    reveal_with_fuel(GpuState::run_first, 7);
    if mode == BackgroundMode::Fit {
        assert(commands.len() == 5);
    } else {
        assert(commands.len() == 6);
    }
}

/// The commands of a frame, issued while the graphics side holds what the
/// state records, leave it holding what the new state records, and show one
/// frame: the textures bound, the vertices and the blend factor of that
/// moment.
pub proof fn lemma_draw_commands_show_what_state_records(
    s: RendererState,
    gpu: GpuState,
    time: int,
    mode: BackgroundMode,
    display: DisplayInfo,
    vertices: [Fraction; 24],
    blend: Fraction,
)
    requires
        s.in_sync(gpu),
        s.switches_at(time, mode) ==> ratios(vertices@) == s.after_draw(
            time,
            mode,
            display,
        ).vertices,
    ensures
        ({
            let drawn = s.after_draw(time, mode, display);
            let after = gpu.run(s.draw_commands(drawn, time, mode, vertices, blend));
            &&& drawn.in_sync(after)
            &&& after.shown == Some(
                Frame {
                    unit0: drawn.bound.unit0,
                    unit1: drawn.bound.unit1,
                    vertices: drawn.vertices,
                    progress: blend@,
                },
            )
        }),
{
    let drawn = s.after_draw(time, mode, display);
    let commands = s.draw_commands(drawn, time, mode, vertices, blend);
    reveal_with_fuel(GpuState::run_first, 9);
    if s.switches_at(time, mode) {
        assert(commands.len() == 8);
    } else {
        assert(commands.len() == 3);
    }
}

/// A frame drawn at the very tick at which the transition was started, right
/// after an image was loaded, blends in nothing of the new image and leaves
/// the state as the load made it: the old image on unit 0, and on unit 1 the
/// new image or, in Fit mode, the transparent texture, with the switch still
/// to come.
pub proof fn lemma_frame_at_start_shows_old_image(
    s: RendererState,
    texture: u32,
    width: u32,
    height: u32,
    mode: BackgroundMode,
    time: int,
    display: DisplayInfo,
)
    ensures
        ({
            let loaded = s.after_load(texture, width, height, mode, display).after_start(time);
            &&& loaded.progress_at(time).is_int(0)
            &&& blend_at(loaded.progress_at(time), mode).is_int(0)
            &&& !loaded.switches_at(time, mode)
            &&& loaded.after_draw(time, mode, display) == loaded
            &&& !loaded.animation_fit_changed
            &&& loaded.bound.unit0 == s.current_wallpaper.texture
            &&& loaded.bound.unit1 == if mode == BackgroundMode::Fit {
                s.transparent_texture
            } else {
                texture
            }
        }),
{
}

/// Loading two images in a row: after each load the two slots hold the image
/// that was current before and the new one, and the texture that the load
/// released, if it is not also one of those or the transparent texture, is
/// referred to by nothing in the state.
pub proof fn lemma_loads_keep_two_live_textures(
    s: RendererState,
    first: u32,
    first_width: u32,
    first_height: u32,
    first_mode: BackgroundMode,
    second: u32,
    second_width: u32,
    second_height: u32,
    second_mode: BackgroundMode,
    display: DisplayInfo,
)
    ensures
        ({
            let s1 = s.after_load(first, first_width, first_height, first_mode, display);
            let s2 = s1.after_load(second, second_width, second_height, second_mode, display);
            &&& s1.live_textures() == set![s.current_wallpaper.texture, first]
            &&& s2.live_textures() == set![first, second]
            &&& s.released_by_load() == s.old_wallpaper.texture
            &&& s1.released_by_load() == s.current_wallpaper.texture
            &&& (s.released_by_load() != s.current_wallpaper.texture && s.released_by_load()
                != first && s.released_by_load() != s.transparent_texture) ==> !s1.refers_to(
                s.released_by_load(),
            )
            &&& (s1.released_by_load() != first && s1.released_by_load() != second
                && s1.released_by_load() != s.transparent_texture) ==> !s2.refers_to(
                s1.released_by_load(),
            )
        }),
{
}

/// A Fit transition makes its switch in the first frame drawn more than half
/// of [`ANIMATION_TIME`] after the start.
pub proof fn lemma_fit_switch_comes_after_midpoint(s: RendererState, time: int)
    requires
        !s.animation_fit_changed,
    ensures
        s.switches_at(time, BackgroundMode::Fit) <==> 2 * (time - s.time_started) > ANIMATION_TIME,
{
}

/// The switch of a Fit transition is made once: the frame that makes it
/// binds the transparent texture on unit 0 and the current image on unit 1,
/// moves the quad to where the current image fits, and no later frame makes
/// it again.
pub proof fn lemma_fit_switch_happens_once(
    s: RendererState,
    time: int,
    later: int,
    mode: BackgroundMode,
    display: DisplayInfo,
)
    requires
        s.switches_at(time, BackgroundMode::Fit),
    ensures
        ({
            let switched = s.after_draw(time, BackgroundMode::Fit, display);
            &&& switched.animation_fit_changed
            &&& switched.bound == (TextureBinding {
                unit0: s.transparent_texture,
                unit1: s.current_wallpaper.texture,
            })
            &&& switched.vertices == quad_vertices(
                s.current_wallpaper.fit_rect(display),
                Rect::full_texture(),
                Rect::full_texture(),
            )
            &&& !switched.switches_at(later, mode)
            &&& switched.after_draw(later, mode, display) == switched
        }),
{
}

/// Setting the mode keeps the graphics side in step with the state: the
/// command writes the vertices that the state records.
pub proof fn lemma_set_mode_keeps_in_sync(
    s: RendererState,
    gpu: GpuState,
    mode: BackgroundMode,
    half: bool,
    display: DisplayInfo,
    vertices: [Fraction; 24],
)
    requires
        s.in_sync(gpu),
        ratios(vertices@) == s.after_set_mode(mode, half, display).vertices,
    ensures
        s.after_set_mode(mode, half, display).in_sync(gpu.apply(Command::WriteVertices(vertices))),
{
}

/// Taking in a new image as a whole, its upload followed by the commands of
/// the load, keeps the graphics side in step with the state, although the
/// upload binds the new texture on unit 0 in between.
pub proof fn lemma_upload_and_load_keep_in_sync(
    s: RendererState,
    gpu: GpuState,
    texture: u32,
    width: u32,
    height: u32,
    mode: BackgroundMode,
    display: DisplayInfo,
    vertices: [Fraction; 24],
)
    requires
        s.in_sync(gpu),
        mode != BackgroundMode::Fit ==> ratios(vertices@) == s.after_load(
            texture,
            width,
            height,
            mode,
            display,
        ).vertices,
    ensures
        ({
            let loaded = s.after_load(texture, width, height, mode, display);
            let uploaded = gpu.run(upload_sequence(texture, width as int, height as int));
            loaded.in_sync(uploaded.run(s.load_commands(loaded, mode, vertices)))
        }),
{
    let uploaded = gpu.run(upload_sequence(texture, width as int, height as int));
    lemma_upload_binds_texture_on_unit_zero(gpu, texture, width as int, height as int);
    lemma_load_commands_bind_what_state_records(
        s,
        uploaded,
        texture,
        width,
        height,
        mode,
        display,
        vertices,
    );
}

/// A new renderer is in step with the graphics side: after the setup of the
/// pipeline, the upload of the transparent texture and of the first image,
/// and the commands that come with the renderer, the graphics side holds
/// what the renderer's state records.
pub proof fn lemma_new_renderer_is_in_sync(
    gpu: GpuState,
    program: u32,
    vao: u32,
    vbo: u32,
    eab: u32,
    indices: [u32; 6],
    transparent_texture: u32,
    texture: u32,
    width: u32,
    height: u32,
    display: DisplayInfo,
    vertices: [Fraction; 24],
)
    requires
        indices@ == element_indices(),
        ratios(vertices@) == RendererState::initial(
            program,
            vao,
            vbo,
            eab,
            transparent_texture,
        ).after_load(texture, width, height, BackgroundMode::Stretch, display).vertices,
    ensures
        ({
            let initial = RendererState::initial(program, vao, vbo, eab, transparent_texture);
            let first = initial.after_load(texture, width, height, BackgroundMode::Stretch, display);
            let set_up = gpu.run(setup_sequence(vao, vbo, eab, indices));
            let uploaded = set_up.run(upload_sequence(transparent_texture, 1, 1)).run(
                upload_sequence(texture, width as int, height as int),
            );
            &&& first.wf()
            &&& first.in_sync(
                uploaded.run(initial.load_commands(first, BackgroundMode::Stretch, vertices)),
            )
        }),
{
    let initial = RendererState::initial(program, vao, vbo, eab, transparent_texture);
    let set_up = gpu.run(setup_sequence(vao, vbo, eab, indices));
    let with_transparent = set_up.run(upload_sequence(transparent_texture, 1, 1));
    let uploaded = with_transparent.run(upload_sequence(texture, width as int, height as int));
    lemma_setup_matches_vertex_layout(gpu, vao, vbo, eab, indices);
    lemma_upload_binds_texture_on_unit_zero(set_up, transparent_texture, 1, 1);
    lemma_upload_binds_texture_on_unit_zero(
        with_transparent,
        texture,
        width as int,
        height as int,
    );
    lemma_load_commands_bind_what_state_records(
        initial,
        uploaded,
        texture,
        width,
        height,
        BackgroundMode::Stretch,
        display,
        vertices,
    );
}

/// For a display and images that are not empty, every value that the
/// renderer puts in the vertex buffer is a proper fraction, so that it can be
/// turned into a number by one division.
pub proof fn lemma_vertices_are_proper_fractions(
    s: RendererState,
    mode: BackgroundMode,
    half: bool,
    display: DisplayInfo,
    i: int,
)
    requires
        display.wf(),
        s.old_wallpaper.image_width > 0,
        s.old_wallpaper.image_height > 0,
        s.current_wallpaper.image_width > 0,
        s.current_wallpaper.image_height > 0,
        0 <= i < 24,
    ensures
        s.vertices_for(mode, half, display).len() == 24,
        s.vertices_for(mode, half, display)[i].wf(),
{
    lemma_rectangles_are_well_formed(
        display.scaled_width as int,
        display.scaled_height as int,
        s.old_wallpaper.image_width as int,
        s.old_wallpaper.image_height as int,
        mode,
    );
    lemma_rectangles_are_well_formed(
        display.scaled_width as int,
        display.scaled_height as int,
        s.current_wallpaper.image_width as int,
        s.current_wallpaper.image_height as int,
        mode,
    );
}

/// Teardown gives up every object that the renderer holds: each of the two
/// images' textures, the transparent texture, both buffers, the vertex array
/// and the program are deleted by one of the commands.
pub proof fn lemma_release_deletes_every_object(s: RendererState)
    ensures
        ({
            let commands = s.release_commands();
            &&& commands.contains(Command::DeleteTexture(s.current_wallpaper.texture))
            &&& commands.contains(Command::DeleteTexture(s.old_wallpaper.texture))
            &&& commands.contains(Command::DeleteTexture(s.transparent_texture))
            &&& commands.contains(Command::DeleteBuffer(s.eab))
            &&& commands.contains(Command::DeleteBuffer(s.vbo))
            &&& commands.contains(Command::DeleteVertexArray(s.vao))
            &&& commands.contains(Command::DeleteProgram(s.program))
        }),
{
    let commands = s.release_commands();
    assert(commands[0] == Command::DeleteTexture(s.current_wallpaper.texture));
    assert(commands[1] == Command::DeleteTexture(s.old_wallpaper.texture));
    assert(commands[2] == Command::DeleteBuffer(s.eab));
    assert(commands[3] == Command::DeleteBuffer(s.vbo));
    assert(commands[4] == Command::DeleteVertexArray(s.vao));
    assert(commands[5] == Command::DeleteProgram(s.program));
    assert(commands[6] == Command::DeleteTexture(s.transparent_texture));
}

/// Before the midpoint of a Fit transition the quad is where the old image
/// fits, after it where the current image fits, and both images are sampled
/// whole either way.
pub proof fn lemma_fit_vertices_follow_the_image_shown(
    s: RendererState,
    half: bool,
    display: DisplayInfo,
)
    ensures
        s.vertices_for(BackgroundMode::Fit, half, display) == quad_vertices(
            if half {
                s.current_wallpaper.fit_rect(display)
            } else {
                s.old_wallpaper.fit_rect(display)
            },
            Rect::full_texture(),
            Rect::full_texture(),
        ),
{
}

} // verus!
