//! The fixed command sequences of the pipeline: linking the program and
//! setting up the vertex array and its buffers.
//!
//! The caller creates the objects, which gives it their handles, and reads
//! the statuses; the sequences in between are planned here.

use vstd::prelude::*;
use crate::commands::{Command, GpuState};
use crate::geometry::Ratio;
use crate::vertices::{attribute, element_indices, quad_indices, vertex_attributes, VERTEX_VALUES};

verus! {

/// The sampler of the image that is blended out, and the texture unit that it
/// reads.
pub const OLD_SAMPLER: i32 = 0;

/// The sampler of the image that is blended in, and the texture unit that it
/// reads.
pub const CURRENT_SAMPLER: i32 = 1;

/// The commands that link `program` from its two stages and put it in use.
/// The link status is to be read after them.
pub open spec fn link_sequence(program: u32, vertex_shader: u32, fragment_shader: u32) -> Seq<
    Command,
> {
    seq![
        Command::AttachShader { program, shader: vertex_shader },
        Command::AttachShader { program, shader: fragment_shader },
        Command::LinkProgram(program),
        Command::UseProgram(program),
    ]
}

/// The commands that follow a successful link: the two stages are deleted,
/// and the program is put in use.
pub open spec fn linked_sequence(program: u32, vertex_shader: u32, fragment_shader: u32) -> Seq<
    Command,
> {
    seq![
        Command::DeleteShader(vertex_shader),
        Command::DeleteShader(fragment_shader),
        Command::UseProgram(program),
    ]
}

/// The commands that set up the vertex array `vao` with the vertex buffer
/// `vbo` and the element buffer `eab`: room for one quad of zeros in the
/// vertex buffer, the quad's indices in the element buffer, the three
/// attributes declared and switched on one after the other, and each sampler
/// on the texture unit of its own number.
pub open spec fn setup_sequence(vao: u32, vbo: u32, eab: u32, indices: [u32; 6]) -> Seq<Command> {
    seq![
        Command::BindVertexArray(vao),
        Command::BindVertexBuffer(vbo),
        Command::AllocateVertices(24),
        Command::BindElementBuffer(eab),
        Command::WriteIndices(indices),
        Command::AttributePointer(attribute(0)),
        Command::EnableAttribute(0),
        Command::AttributePointer(attribute(1)),
        Command::EnableAttribute(1),
        Command::AttributePointer(attribute(2)),
        Command::EnableAttribute(2),
        Command::SetSampler { location: 0, unit: 0 },
        Command::SetSampler { location: 1, unit: 1 },
    ]
}

/// Plans [`link_sequence`].
pub fn link_commands(program: u32, vertex_shader: u32, fragment_shader: u32) -> (commands: Vec<
    Command,
>)
    ensures
        commands@ == link_sequence(program, vertex_shader, fragment_shader),
{
    let mut commands: Vec<Command> = Vec::new();
    commands.push(Command::AttachShader { program, shader: vertex_shader });
    commands.push(Command::AttachShader { program, shader: fragment_shader });
    commands.push(Command::LinkProgram(program));
    commands.push(Command::UseProgram(program));
    assert(commands@ =~= link_sequence(program, vertex_shader, fragment_shader));
    commands
}

/// Plans [`linked_sequence`].
pub fn linked_commands(program: u32, vertex_shader: u32, fragment_shader: u32) -> (commands: Vec<
    Command,
>)
    ensures
        commands@ == linked_sequence(program, vertex_shader, fragment_shader),
{
    let mut commands: Vec<Command> = Vec::new();
    commands.push(Command::DeleteShader(vertex_shader));
    commands.push(Command::DeleteShader(fragment_shader));
    commands.push(Command::UseProgram(program));
    assert(commands@ =~= linked_sequence(program, vertex_shader, fragment_shader));
    commands
}

/// Plans [`setup_sequence`], with the indices of [`element_indices`].
pub fn initialize_objects(vao: u32, vbo: u32, eab: u32) -> (commands: Vec<Command>)
    ensures
        commands@.len() == 13,
        commands@[4] matches Command::WriteIndices(indices) && indices@ == element_indices()
            && commands@ == setup_sequence(vao, vbo, eab, indices),
{
    let attributes = vertex_attributes();
    let indices = quad_indices();
    let mut commands: Vec<Command> = Vec::new();
    commands.push(Command::BindVertexArray(vao));
    commands.push(Command::BindVertexBuffer(vbo));
    commands.push(Command::AllocateVertices(VERTEX_VALUES));
    commands.push(Command::BindElementBuffer(eab));
    commands.push(Command::WriteIndices(indices));
    commands.push(Command::AttributePointer(attributes[0]));
    commands.push(Command::EnableAttribute(0));
    commands.push(Command::AttributePointer(attributes[1]));
    commands.push(Command::EnableAttribute(1));
    commands.push(Command::AttributePointer(attributes[2]));
    commands.push(Command::EnableAttribute(2));
    commands.push(Command::SetSampler { location: OLD_SAMPLER, unit: 0 });
    commands.push(Command::SetSampler { location: CURRENT_SAMPLER, unit: 1 });
    assert(commands@ =~= setup_sequence(vao, vbo, eab, indices));
    commands
}

/// After the setup the vertex buffer holds one quad of zeros, the element
/// buffer holds the two triangles of the quad, each of the three shader
/// inputs is switched on and reads its part of a vertex, and each sampler
/// reads the texture unit of its own number, whatever the state was before.
pub proof fn lemma_setup_matches_vertex_layout(
    gpu: GpuState,
    vao: u32,
    vbo: u32,
    eab: u32,
    indices: [u32; 6],
)
    requires
        indices@ == element_indices(),
    ensures
        ({
            let after = gpu.run(setup_sequence(vao, vbo, eab, indices));
            &&& after.vertices == Seq::new(24, |i: int| Ratio::whole(0))
            &&& after.indices == element_indices()
            &&& forall|k: int|
                0 <= k < 3 ==> after.enabled.contains(k as u32) && after.attributes.contains_key(
                    k as u32,
                ) && #[trigger] after.attributes[k as u32] == attribute(k)
            &&& after.samplers.contains_key(OLD_SAMPLER) && after.samplers[OLD_SAMPLER] == 0
            &&& after.samplers.contains_key(CURRENT_SAMPLER) && after.samplers[CURRENT_SAMPLER]
                == 1
            &&& after.unit0 == gpu.unit0
            &&& after.unit1 == gpu.unit1
        }),
{
    let commands = setup_sequence(vao, vbo, eab, indices);
    assert(commands.len() == 13);
    reveal_with_fuel(GpuState::run_first, 14);
    let after = gpu.run(commands);
    assert(after.attributes[0u32] == attribute(0));
    assert(after.attributes[1u32] == attribute(1));
    assert(after.attributes[2u32] == attribute(2));
}

} // verus!
