//! The mathematical model of the renderer: its state, the steps that it
//! takes, and the commands that go with each step.

use vstd::prelude::*;
use crate::animation::{past_midpoint, progress_at, ANIMATION_TIME};
use crate::commands::{Command, GpuState};
use crate::geometry::{BackgroundMode, Fraction, Ratio, Rect};
use crate::vertices::quad_vertices;
use crate::wallpaper::{DisplayInfo, Wallpaper};

verus! {

/// The textures on the two texture units that the shader samples: unit 0 is
/// blended out, unit 1 is blended in.
#[derive(Clone, Copy, Debug, PartialEq, Eq)]
pub struct TextureBinding {
    pub unit0: u32,
    pub unit1: u32,
}

impl TextureBinding {
    /// The commands that bind the two textures, unit 0 first.
    pub open spec fn commands(self) -> Seq<Command> {
        seq![
            Command::ActiveTexture(0),
            Command::BindTexture(self.unit0),
            Command::ActiveTexture(1),
            Command::BindTexture(self.unit1),
        ]
    }
}

/// The mathematical value of a [`crate::renderer::Renderer`].
pub struct RendererState {
    pub program: u32,
    pub vao: u32,
    pub vbo: u32,
    pub eab: u32,
    pub time_started: int,
    pub old_wallpaper: Wallpaper,
    pub current_wallpaper: Wallpaper,
    pub transparent_texture: u32,
    pub animation_fit_changed: bool,
    pub bound: TextureBinding,
    pub vertices: Seq<Ratio>,
}

impl RendererState {
    /// Unit 0 holds the old image or the transparent texture, and unit 1 the
    /// current image or the transparent texture.
    pub open spec fn wf(self) -> bool {
        &&& (self.bound.unit0 == self.old_wallpaper.texture || self.bound.unit0
            == self.transparent_texture)
        &&& (self.bound.unit1 == self.current_wallpaper.texture || self.bound.unit1
            == self.transparent_texture)
    }

    /// The state before the first image: two empty slots, nothing bound, a
    /// vertex buffer of zeros, the clock at 0.
    pub open spec fn initial(
        program: u32,
        vao: u32,
        vbo: u32,
        eab: u32,
        transparent_texture: u32,
    ) -> RendererState {
        RendererState {
            program,
            vao,
            vbo,
            eab,
            time_started: 0,
            old_wallpaper: Wallpaper { texture: 0, image_width: 10, image_height: 10 },
            current_wallpaper: Wallpaper { texture: 0, image_width: 10, image_height: 10 },
            transparent_texture,
            animation_fit_changed: false,
            bound: TextureBinding { unit0: 0, unit1: 0 },
            vertices: Seq::new(24, |i: int| Ratio::whole(0)),
        }
    }

    /// The vertex buffer for `mode`.
    ///
    /// Outside Fit the quad covers the display, and each image is sampled as
    /// the mode says. In Fit both images are sampled whole; in the second
    /// half of a transition (`half`) the quad is where the current image
    /// fits, and before that where the old image fits.
    pub open spec fn vertices_for(
        self,
        mode: BackgroundMode,
        half: bool,
        display: DisplayInfo,
    ) -> Seq<Ratio> {
        if mode == BackgroundMode::Fit {
            quad_vertices(
                if half {
                    self.current_wallpaper.fit_rect(display)
                } else {
                    self.old_wallpaper.fit_rect(display)
                },
                Rect::full_texture(),
                Rect::full_texture(),
            )
        } else {
            quad_vertices(
                Rect::full_device(),
                self.current_wallpaper.texture_rect(display, mode),
                self.old_wallpaper.texture_rect(display, mode),
            )
        }
    }

    /// The state once the vertex buffer has been set for `mode`.
    pub open spec fn after_set_mode(
        self,
        mode: BackgroundMode,
        half: bool,
        display: DisplayInfo,
    ) -> RendererState {
        RendererState { vertices: self.vertices_for(mode, half, display), ..self }
    }

    /// The two slots once a new image has arrived: the current image has
    /// become the old one, and the new image is the current one.
    pub open spec fn after_swap(self, texture: u32, width: u32, height: u32) -> RendererState {
        RendererState {
            old_wallpaper: self.current_wallpaper,
            current_wallpaper: Wallpaper { texture, image_width: width, image_height: height },
            ..self
        }
    }

    /// The state once the image `texture` of `width` by `height` has been
    /// loaded for `mode`.
    ///
    /// The slots change roles as in [`Self::after_swap`]. Outside Fit the
    /// vertex buffer is set for the two images and they are bound as old and
    /// current. In Fit the vertex buffer stays, the old image is bound on
    /// unit 0 and the transparent texture on unit 1, until the switch in the
    /// middle of the transition. The clock is not touched.
    pub open spec fn after_load(
        self,
        texture: u32,
        width: u32,
        height: u32,
        mode: BackgroundMode,
        display: DisplayInfo,
    ) -> RendererState {
        let swapped = self.after_swap(texture, width, height);
        if mode == BackgroundMode::Fit {
            RendererState {
                bound: TextureBinding {
                    unit0: swapped.old_wallpaper.texture,
                    unit1: swapped.transparent_texture,
                },
                ..swapped
            }
        } else {
            RendererState {
                bound: TextureBinding {
                    unit0: swapped.old_wallpaper.texture,
                    unit1: swapped.current_wallpaper.texture,
                },
                ..swapped.after_set_mode(mode, false, display)
            }
        }
    }

    /// The texture that loading a new image releases: the old image's.
    pub open spec fn released_by_load(self) -> u32 {
        self.old_wallpaper.texture
    }

    /// The commands of a load that leads to the state `loaded`, whose vertex
    /// buffer holds `vertices`: delete the texture released, write the
    /// vertices unless the mode is Fit, bind the two textures.
    pub open spec fn load_commands(
        self,
        loaded: RendererState,
        mode: BackgroundMode,
        vertices: [Fraction; 24],
    ) -> Seq<Command> {
        if mode == BackgroundMode::Fit {
            seq![Command::DeleteTexture(self.released_by_load())] + loaded.bound.commands()
        } else {
            seq![Command::DeleteTexture(self.released_by_load()), Command::WriteVertices(vertices)]
                + loaded.bound.commands()
        }
    }

    /// The state once a transition has been started at `time`.
    pub open spec fn after_start(self, time: int) -> RendererState {
        RendererState { time_started: time, animation_fit_changed: false, ..self }
    }

    /// How far the running transition has come at `time`.
    pub open spec fn progress_at(self, time: int) -> Ratio {
        progress_at(time, self.time_started, ANIMATION_TIME as int)
    }

    /// Whether a frame drawn at `time` makes the switch of a Fit transition:
    /// the mode is Fit, the transition is past its midpoint, and the switch
    /// has not been made since the transition started.
    pub open spec fn switches_at(self, time: int, mode: BackgroundMode) -> bool {
        mode == BackgroundMode::Fit && past_midpoint(self.progress_at(time))
            && !self.animation_fit_changed
    }

    /// The state once a frame has been drawn at `time`. It changes only at
    /// the switch of a Fit transition: the transparent texture goes on unit
    /// 0, the current image on unit 1, and the quad to where the current
    /// image fits.
    pub open spec fn after_draw(
        self,
        time: int,
        mode: BackgroundMode,
        display: DisplayInfo,
    ) -> RendererState {
        if self.switches_at(time, mode) {
            RendererState {
                animation_fit_changed: true,
                bound: TextureBinding {
                    unit0: self.transparent_texture,
                    unit1: self.current_wallpaper.texture,
                },
                ..self.after_set_mode(mode, true, display)
            }
        } else {
            self
        }
    }

    /// The commands of a frame drawn at `time` that leads to the state
    /// `drawn`, whose vertex buffer holds `vertices`: clear; at the switch of
    /// a Fit transition bind the two textures and write the vertices; set the
    /// blend factor `blend`; draw.
    pub open spec fn draw_commands(
        self,
        drawn: RendererState,
        time: int,
        mode: BackgroundMode,
        vertices: [Fraction; 24],
        blend: Fraction,
    ) -> Seq<Command> {
        if self.switches_at(time, mode) {
            seq![Command::Clear] + drawn.bound.commands() + seq![
                Command::WriteVertices(vertices),
                Command::SetProgress(blend),
                Command::DrawQuad,
            ]
        } else {
            seq![Command::Clear, Command::SetProgress(blend), Command::DrawQuad]
        }
    }

    /// The commands that give up every object of the renderer: the current
    /// image's texture, the old image's, the element buffer, the vertex
    /// buffer, the vertex array, the program, and the transparent texture.
    pub open spec fn release_commands(self) -> Seq<Command> {
        seq![
            Command::DeleteTexture(self.current_wallpaper.texture),
            Command::DeleteTexture(self.old_wallpaper.texture),
            Command::DeleteBuffer(self.eab),
            Command::DeleteBuffer(self.vbo),
            Command::DeleteVertexArray(self.vao),
            Command::DeleteProgram(self.program),
            Command::DeleteTexture(self.transparent_texture),
        ]
    }

    /// The textures that the two slots hold.
    pub open spec fn live_textures(self) -> Set<u32> {
        set![self.old_wallpaper.texture, self.current_wallpaper.texture]
    }

    /// Whether anything in the state refers to the texture `handle`.
    pub open spec fn refers_to(self, handle: u32) -> bool {
        ||| self.old_wallpaper.texture == handle
        ||| self.current_wallpaper.texture == handle
        ||| self.transparent_texture == handle
        ||| self.bound.unit0 == handle
        ||| self.bound.unit1 == handle
    }

    /// The graphics side holds what the state records: the two textures
    /// bound and the vertex buffer.
    pub open spec fn in_sync(self, gpu: GpuState) -> bool {
        &&& gpu.unit0 == self.bound.unit0
        &&& gpu.unit1 == self.bound.unit1
        &&& gpu.vertices == self.vertices
    }
}

} // verus!
