//! The graphics commands that the renderer plans, and a model of what they do
//! to the state of the graphics side.

use vstd::prelude::*;
use crate::geometry::{Fraction, Ratio};
use crate::vertices::{ratios, VertexAttribute};

verus! {

/// One graphics command. The renderer hands out commands in the order in
/// which they are to be issued; the caller issues each one and reads the
/// error code right after it.
#[derive(Clone, Copy, Debug, PartialEq, Eq)]
pub enum Command {
    /// Clear the colour buffer.
    Clear,
    /// Make the texture unit of this number the active one.
    ActiveTexture(u32),
    /// Bind this texture on the active unit.
    BindTexture(u32),
    /// Delete this texture.
    DeleteTexture(u32),
    /// Write these values to the start of the vertex buffer.
    WriteVertices([Fraction; 24]),
    /// Set the blend factor that the shader mixes the two textures by.
    SetProgress(Fraction),
    /// Draw the quad: two triangles, six indices.
    DrawQuad,
    /// Set the viewport to this size, at the origin.
    Viewport { width: i32, height: i32 },
    /// Unbind the pixel unpack buffer.
    UnbindUnpackBuffer,
    /// Unbind the draw framebuffer.
    UnbindFramebuffer,
    /// Unbind the renderbuffer.
    UnbindRenderbuffer,
    /// Attach a compiled shader stage to a program.
    AttachShader { program: u32, shader: u32 },
    /// Link this program.
    LinkProgram(u32),
    /// Make this program the one in use.
    UseProgram(u32),
    /// Delete this shader stage.
    DeleteShader(u32),
    /// Bind this vertex array.
    BindVertexArray(u32),
    /// Bind this buffer as the vertex buffer.
    BindVertexBuffer(u32),
    /// Bind this buffer as the element buffer.
    BindElementBuffer(u32),
    /// Give the vertex buffer room for this many values, all zero, for
    /// static use.
    AllocateVertices(usize),
    /// Fill the element buffer with these indices, for static use.
    WriteIndices([u32; 6]),
    /// Say which values of a vertex a shader input reads.
    AttributePointer(VertexAttribute),
    /// Switch on the shader input at this location.
    EnableAttribute(u32),
    /// Let the sampler at `location` read the texture unit `unit`.
    SetSampler { location: i32, unit: i32 },
    /// Define the texture bound on the active unit as an image of this
    /// size, of four bytes a pixel: red, green, blue, alpha. The caller adds
    /// the pixels.
    TexImage { width: i32, height: i32 },
    /// Generate the mipmaps of the texture bound on the active unit.
    GenerateMipmap,
    /// Filter the texture bound on the active unit linearly when it is
    /// shown smaller.
    MinFilterLinear,
    /// Filter the texture bound on the active unit linearly when it is
    /// shown larger.
    MagFilterLinear,
    /// Delete this buffer.
    DeleteBuffer(u32),
    /// Delete this vertex array.
    DeleteVertexArray(u32),
    /// Delete this program.
    DeleteProgram(u32),
}

/// What one draw call puts on the screen: the texture blended out, the
/// texture blended in, where they are drawn and sampled, and the blend
/// factor.
pub struct Frame {
    pub unit0: u32,
    pub unit1: u32,
    pub vertices: Seq<Ratio>,
    pub progress: Ratio,
}

/// The part of the graphics state that the commands read and change.
pub struct GpuState {
    /// The active texture unit.
    pub active_unit: u32,
    /// The texture bound on unit 0; 0 for none.
    pub unit0: u32,
    /// The texture bound on unit 1; 0 for none.
    pub unit1: u32,
    /// The content of the vertex buffer.
    pub vertices: Seq<Ratio>,
    /// The blend factor.
    pub progress: Ratio,
    /// The viewport's width and height.
    pub viewport: (i32, i32),
    /// The content of the element buffer.
    pub indices: Seq<u32>,
    /// What each shader input reads, by location.
    pub attributes: Map<u32, VertexAttribute>,
    /// The shader inputs that are switched on.
    pub enabled: Set<u32>,
    /// The texture unit that each sampler reads, by location.
    pub samplers: Map<i32, i32>,
    /// The program in use.
    pub program: u32,
    /// What has been drawn since the colour buffer was last cleared.
    pub shown: Option<Frame>,
}

impl GpuState {
    /// The state after one command.
    ///
    /// A texture is bound on the active unit. Deleting a texture that is
    /// bound on a unit leaves that unit with no texture; deleting texture 0
    /// does nothing. Drawing shows what is bound and set at that moment.
    /// Commands on objects that the model does not follow leave it as it
    /// is.
    pub open spec fn apply(self, command: Command) -> GpuState {
        match command {
            Command::Clear => GpuState { shown: None, ..self },
            Command::ActiveTexture(unit) => GpuState { active_unit: unit, ..self },
            Command::BindTexture(texture) => if self.active_unit == 0 {
                GpuState { unit0: texture, ..self }
            } else if self.active_unit == 1 {
                GpuState { unit1: texture, ..self }
            } else {
                self
            },
            Command::DeleteTexture(texture) => if texture == 0 {
                self
            } else {
                GpuState {
                    unit0: if self.unit0 == texture {
                        0
                    } else {
                        self.unit0
                    },
                    unit1: if self.unit1 == texture {
                        0
                    } else {
                        self.unit1
                    },
                    ..self
                }
            },
            Command::WriteVertices(values) => GpuState { vertices: ratios(values@), ..self },
            Command::SetProgress(progress) => GpuState { progress: progress@, ..self },
            Command::DrawQuad => GpuState {
                shown: Some(
                    Frame {
                        unit0: self.unit0,
                        unit1: self.unit1,
                        vertices: self.vertices,
                        progress: self.progress,
                    },
                ),
                ..self
            },
            Command::Viewport { width, height } => GpuState { viewport: (width, height), ..self },
            Command::UseProgram(program) => GpuState { program, ..self },
            Command::AllocateVertices(count) => GpuState {
                vertices: Seq::new(count as nat, |i: int| Ratio::whole(0)),
                ..self
            },
            Command::WriteIndices(indices) => GpuState { indices: indices@, ..self },
            Command::AttributePointer(attribute) => GpuState {
                attributes: self.attributes.insert(attribute.location, attribute),
                ..self
            },
            Command::EnableAttribute(location) => GpuState {
                enabled: self.enabled.insert(location),
                ..self
            },
            Command::SetSampler { location, unit } => GpuState {
                samplers: self.samplers.insert(location, unit),
                ..self
            },
            _ => self,
        }
    }

    /// The state after the first `n` of `commands`.
    pub open spec fn run_first(self, commands: Seq<Command>, n: nat) -> GpuState
        decreases n,
    {
        if n == 0 {
            self
        } else {
            self.run_first(commands, (n - 1) as nat).apply(commands[n - 1])
        }
    }

    /// The state after all of `commands`, in order.
    pub open spec fn run(self, commands: Seq<Command>) -> GpuState {
        self.run_first(commands, commands.len())
    }
}

} // verus!
