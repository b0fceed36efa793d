//! The renderer's state machine.
//!
//! The renderer owns two wallpaper slots, the clock of the running transition
//! and a record of what is bound on the graphics side. It issues no graphics
//! call itself: each operation updates the state and returns the commands
//! that the caller issues, in order, on the thread that holds the graphics
//! context.

pub mod lemmas;
pub mod state;

use vstd::prelude::*;
use crate::animation::{
    animating_at,
    blend_at,
    blend_factor,
    is_past_midpoint,
    progress,
    ANIMATION_TIME,
};
use crate::commands::Command;
use crate::error::{check_error_code, RenderError, NO_ERROR};
use crate::geometry::{BackgroundMode, Coordinates, Fraction, Ratio};
use crate::renderer::state::{RendererState, TextureBinding};
use crate::texture::DecodedImage;
use crate::vertices::{get_opengl_point_coordinates, ratios};
use crate::wallpaper::{DisplayInfo, Wallpaper};

verus! {

/// The renderer: the objects of the pipeline, the two images, the clock of
/// the running transition, and what its commands have left on the graphics
/// side.
#[derive(Debug)]
pub struct Renderer {
    pub program: u32,
    pub vao: u32,
    pub vbo: u32,
    pub eab: u32,
    pub time_started: u32,
    pub old_wallpaper: Wallpaper,
    pub current_wallpaper: Wallpaper,
    /// A texture of one transparent pixel.
    pub transparent_texture: u32,
    /// Whether the running Fit transition has made its switch.
    pub animation_fit_changed: bool,
    /// What the commands handed out last leave bound on the two texture
    /// units.
    pub bound: TextureBinding,
    /// What the commands handed out last leave in the vertex buffer.
    pub vertices: [Fraction; 24],
}

impl View for Renderer {
    type V = RendererState;

    open spec fn view(&self) -> RendererState {
        RendererState {
            program: self.program,
            vao: self.vao,
            vbo: self.vbo,
            eab: self.eab,
            time_started: self.time_started as int,
            old_wallpaper: self.old_wallpaper,
            current_wallpaper: self.current_wallpaper,
            transparent_texture: self.transparent_texture,
            animation_fit_changed: self.animation_fit_changed,
            bound: self.bound,
            vertices: ratios(self.vertices@),
        }
    }
}

impl Renderer {
    /// See [`RendererState::wf`].
    pub open spec fn wf(self) -> bool {
        self@.wf()
    }

    /// A renderer for the objects of a pipeline that has been set up, showing
    /// its first image, `image` uploaded as `texture`, in Stretch mode. The
    /// commands are those of loading this image into the initial state.
    pub fn new(
        program: u32,
        vao: u32,
        vbo: u32,
        eab: u32,
        transparent_texture: u32,
        texture: u32,
        image: &DecodedImage,
        display: &DisplayInfo,
    ) -> (r: (Renderer, Vec<Command>))
        ensures
            r.0@ == RendererState::initial(program, vao, vbo, eab, transparent_texture).after_load(
                texture,
                image.width,
                image.height,
                BackgroundMode::Stretch,
                *display,
            ),
            r.0.wf(),
            r.1@ == RendererState::initial(
                program,
                vao,
                vbo,
                eab,
                transparent_texture,
            ).load_commands(r.0@, BackgroundMode::Stretch, r.0.vertices),
    {
        let mut renderer = Renderer {
            program,
            vao,
            vbo,
            eab,
            time_started: 0,
            old_wallpaper: Wallpaper::new(),
            current_wallpaper: Wallpaper::new(),
            transparent_texture,
            animation_fit_changed: false,
            bound: TextureBinding { unit0: 0, unit1: 0 },
            vertices: [Fraction::whole(0);24],
        };
        assert(renderer@.vertices =~= Seq::new(24, |i: int| Ratio::whole(0)));
        let commands = renderer.load_wallpaper(texture, image, BackgroundMode::Stretch, display);
        (renderer, commands)
    }

    /// Judges the error code read after a graphics call that was made for
    /// this renderer; see [`check_error_code`].
    pub fn check_error(&self, msg: &str, code: u32, text: Option<String>) -> (r: Result<
        (),
        RenderError,
    >)
        ensures
            r is Ok <==> code == NO_ERROR,
            r matches Err(e) ==> (e matches RenderError::Graphics { when: w, code: c, text: t }
                && w@ == msg@ && c == code && t == text),
    {
        check_error_code(msg, code, text)
    }

    /// Plans one frame at `time`; see [`RendererState::after_draw`] and
    /// [`RendererState::draw_commands`]. The blend factor is that of
    /// [`blend_at`] for the progress made at `time`.
    pub fn draw(&mut self, time: u32, mode: BackgroundMode, display: &DisplayInfo) -> (commands:
        Vec<Command>)
        ensures
            final(self)@ == old(self)@.after_draw(time as int, mode, *display),
            old(self).wf() ==> final(self).wf(),
            commands@ == old(self)@.draw_commands(
                final(self)@,
                time as int,
                mode,
                final(self).vertices,
                blend_at(old(self)@.progress_at(time as int), mode).as_fraction(),
            ),
    {
        let p = progress(time, self.time_started, ANIMATION_TIME);
        let blend = blend_factor(p, mode);
        let mut commands: Vec<Command> = Vec::new();
        commands.push(Command::Clear);
        if mode == BackgroundMode::Fit && is_past_midpoint(&p) && !self.animation_fit_changed {
            self.bound =
            TextureBinding {
                unit0: self.transparent_texture,
                unit1: self.current_wallpaper.texture,
            };
            commands.push(Command::ActiveTexture(0));
            commands.push(Command::BindTexture(self.bound.unit0));
            commands.push(Command::ActiveTexture(1));
            commands.push(self.current_wallpaper.bind());
            self.animation_fit_changed = true;
            commands.push(self.set_mode(mode, true, display));
        }
        commands.push(Command::SetProgress(blend));
        commands.push(Command::DrawQuad);
        assert(commands@ =~= old(self)@.draw_commands(
            self@,
            time as int,
            mode,
            self.vertices,
            blend,
        ));
        commands
    }

    /// Takes in the new image `image`, uploaded as `texture`; see
    /// [`RendererState::after_load`] and [`RendererState::load_commands`].
    /// The texture deleted is the one of the old image, which no slot refers
    /// to any more.
    pub fn load_wallpaper(
        &mut self,
        texture: u32,
        image: &DecodedImage,
        mode: BackgroundMode,
        display: &DisplayInfo,
    ) -> (commands: Vec<Command>)
        ensures
            final(self)@ == old(self)@.after_load(
                texture,
                image.width,
                image.height,
                mode,
                *display,
            ),
            final(self).wf(),
            commands@ == old(self)@.load_commands(final(self)@, mode, final(self).vertices),
    {
        let previous = self.old_wallpaper;
        self.old_wallpaper = self.current_wallpaper;
        self.current_wallpaper = previous;
        let mut commands: Vec<Command> = Vec::new();
        commands.push(self.current_wallpaper.load_image(texture, image));
        if mode == BackgroundMode::Fit {
            self.bound =
            TextureBinding { unit0: self.old_wallpaper.texture, unit1: self.transparent_texture };
            commands.push(Command::ActiveTexture(0));
            commands.push(self.old_wallpaper.bind());
            commands.push(Command::ActiveTexture(1));
            commands.push(Command::BindTexture(self.transparent_texture));
        } else {
            commands.push(self.set_mode(mode, false, display));
            self.bound =
            TextureBinding {
                unit0: self.old_wallpaper.texture,
                unit1: self.current_wallpaper.texture,
            };
            commands.push(Command::ActiveTexture(0));
            commands.push(self.old_wallpaper.bind());
            commands.push(Command::ActiveTexture(1));
            commands.push(self.current_wallpaper.bind());
        }
        assert(commands@ =~= old(self)@.load_commands(self@, mode, self.vertices));
        commands
    }

    /// Sets the vertex buffer for `mode` and returns the command that writes
    /// it; see [`RendererState::vertices_for`].
    pub fn set_mode(
        &mut self,
        mode: BackgroundMode,
        half_animation_for_fit_mode: bool,
        display: &DisplayInfo,
    ) -> (r: Command)
        ensures
            final(self)@ == old(self)@.after_set_mode(mode, half_animation_for_fit_mode, *display),
            old(self).wf() ==> final(self).wf(),
            r == Command::WriteVertices(final(self).vertices),
    {
        let old_tex_coord = self.old_wallpaper.generate_texture_coordinates(display, mode);
        let vertices = if mode == BackgroundMode::Fit {
            let vec_coordinates = if half_animation_for_fit_mode {
                self.current_wallpaper.generate_vertices_coordinates_for_fit_mode(display)
            } else {
                self.old_wallpaper.generate_vertices_coordinates_for_fit_mode(display)
            };
            get_opengl_point_coordinates(
                vec_coordinates,
                &Coordinates::default_texture_coordinates(),
                &old_tex_coord,
            )
        } else {
            let current_tex_coord = self.current_wallpaper.generate_texture_coordinates(
                display,
                mode,
            );
            get_opengl_point_coordinates(
                Coordinates::default_vec_coordinates(),
                &current_tex_coord,
                &old_tex_coord,
            )
        };
        self.vertices = vertices;
        Command::WriteVertices(vertices)
    }

    /// Starts a transition at `time`.
    pub fn start_animation(&mut self, time: u32)
        ensures
            final(self)@ == old(self)@.after_start(time as int),
            old(self).wf() ==> final(self).wf(),
    {
        self.time_started = time;
        self.animation_fit_changed = false;
    }

    /// The commands that unbind what a frame may have left bound: the pixel
    /// unpack buffer, the draw framebuffer and the renderbuffer.
    pub fn clear_after_draw(&self) -> (commands: Vec<Command>)
        ensures
            commands@ == seq![
                Command::UnbindUnpackBuffer,
                Command::UnbindFramebuffer,
                Command::UnbindRenderbuffer,
            ],
    {
        let mut commands: Vec<Command> = Vec::new();
        commands.push(Command::UnbindUnpackBuffer);
        commands.push(Command::UnbindFramebuffer);
        commands.push(Command::UnbindRenderbuffer);
        assert(commands@ =~= seq![
            Command::UnbindUnpackBuffer,
            Command::UnbindFramebuffer,
            Command::UnbindRenderbuffer,
        ]);
        commands
    }

    /// The command that sets the viewport for `display`: its size in
    /// physical pixels.
    pub fn resize(&self, display: &DisplayInfo) -> (r: Command)
        ensures
            r == (Command::Viewport {
                width: display.adjusted_width,
                height: display.adjusted_height,
            }),
    {
        Command::Viewport { width: display.adjusted_width, height: display.adjusted_height }
    }

    /// Whether the transition still runs at `time`, that is whether `time`
    /// is before its end.
    pub fn is_drawing_animation(&self, time: u32) -> (r: bool)
        ensures
            r == animating_at(time as int, self.time_started as int, ANIMATION_TIME as int),
    {
        (time as u64) < self.time_started as u64 + ANIMATION_TIME as u64
    }

    /// The commands that delete what the renderer owns, to be issued when it
    /// goes; see [`RendererState::release_commands`].
    pub fn release(&self) -> (commands: Vec<Command>)
        ensures
            commands@ == self@.release_commands(),
    {
        let mut commands: Vec<Command> = Vec::new();
        commands.push(Command::DeleteTexture(self.current_wallpaper.texture));
        commands.push(Command::DeleteTexture(self.old_wallpaper.texture));
        commands.push(Command::DeleteBuffer(self.eab));
        commands.push(Command::DeleteBuffer(self.vbo));
        commands.push(Command::DeleteVertexArray(self.vao));
        commands.push(Command::DeleteProgram(self.program));
        commands.push(Command::DeleteTexture(self.transparent_texture));
        assert(commands@ =~= self@.release_commands());
        commands
    }
}

} // verus!
