//! Decoded images and their upload to a texture.

use vstd::prelude::*;
use crate::commands::{Command, GpuState};
use crate::geometry::product;

verus! {

/// Bytes in a pixel: red, green, blue and alpha, of eight bits each.
pub const BYTES_PER_PIXEL: usize = 4;

/// A decoded image: its size and its pixels, row after row, four bytes a
/// pixel, alpha not premultiplied.
#[derive(Clone, Debug, PartialEq, Eq)]
pub struct DecodedImage {
    pub width: u32,
    pub height: u32,
    pub pixels: Vec<u8>,
}

impl DecodedImage {
    /// There are as many bytes as the size asks for.
    pub open spec fn wf(self) -> bool {
        self.pixels@.len() == 4 * (self.width * self.height)
    }

    /// An image of `width` by `height` from its bytes, if there are as many
    /// bytes as the size asks for.
    pub fn new(width: u32, height: u32, pixels: Vec<u8>) -> (r: Option<DecodedImage>)
        ensures
            r is Some <==> pixels@.len() == 4 * (width * height),
            r matches Some(image) ==> image.width == width && image.height == height
                && image.pixels == pixels && image.wf(),
    {
        let image = DecodedImage { width, height, pixels };
        if image.is_well_formed() {
            Some(image)
        } else {
            None
        }
    }

    /// Computes [`Self::wf`].
    pub fn is_well_formed(&self) -> (r: bool)
        ensures
            r == self.wf(),
    {
        let expected: i128 = BYTES_PER_PIXEL as i128 * product(self.width, self.height);
        self.pixels.len() as i128 == expected
    }
}

/// One transparent pixel.
pub fn transparent_image() -> (r: DecodedImage)
    ensures
        r.width == 1,
        r.height == 1,
        r.pixels@ == seq![0u8, 0u8, 0u8, 0u8],
        r.wf(),
{
    let mut pixels: Vec<u8> = Vec::new();
    pixels.push(0);
    pixels.push(0);
    pixels.push(0);
    pixels.push(0);
    assert(pixels@ =~= seq![0u8, 0u8, 0u8, 0u8]);
    DecodedImage { width: 1, height: 1, pixels }
}

/// The commands that make `texture` an image of `width` by `height`: it is
/// bound on unit 0 and defined, its mipmaps are generated, and both filters
/// are set to linear.
pub open spec fn upload_sequence(texture: u32, width: int, height: int) -> Seq<Command> {
    seq![
        Command::ActiveTexture(0),
        Command::BindTexture(texture),
        Command::TexImage { width: width as i32, height: height as i32 },
        Command::GenerateMipmap,
        Command::MinFilterLinear,
        Command::MagFilterLinear,
    ]
}

/// Whether `image` can be uploaded: it has as many bytes as its size asks
/// for, so that the graphics side reads no byte that is not there, and its
/// sizes fit in the 31 bits that the graphics side takes.
pub open spec fn uploadable(image: DecodedImage) -> bool {
    image.wf() && image.width <= i32::MAX && image.height <= i32::MAX
}

/// Plans [`upload_sequence`] for `image`, to be issued with its pixels.
/// There is no plan for an image that is not [`uploadable`].
pub fn load_texture(texture: u32, image: &DecodedImage) -> (r: Option<Vec<Command>>)
    ensures
        r is Some <==> uploadable(*image),
        r matches Some(commands) ==> commands@ == upload_sequence(
            texture,
            image.width as int,
            image.height as int,
        ),
{
    if image.width > 0x7fff_ffff || image.height > 0x7fff_ffff || !image.is_well_formed() {
        return None;
    }
    let mut commands: Vec<Command> = Vec::new();
    commands.push(Command::ActiveTexture(0));
    commands.push(Command::BindTexture(texture));
    commands.push(Command::TexImage { width: image.width as i32, height: image.height as i32 });
    commands.push(Command::GenerateMipmap);
    commands.push(Command::MinFilterLinear);
    commands.push(Command::MagFilterLinear);
    assert(commands@ =~= upload_sequence(texture, image.width as int, image.height as int));
    Some(commands)
}

/// An upload leaves the new texture bound on unit 0, which is the active
/// one, and touches neither unit 1 nor the vertex buffer.
pub proof fn lemma_upload_binds_texture_on_unit_zero(
    gpu: GpuState,
    texture: u32,
    width: int,
    height: int,
)
    ensures
        ({
            let after = gpu.run(upload_sequence(texture, width, height));
            &&& after.active_unit == 0
            &&& after.unit0 == texture
            &&& after.unit1 == gpu.unit1
            &&& after.vertices == gpu.vertices
            &&& after.shown == gpu.shown
        }),
{
    assert(upload_sequence(texture, width, height).len() == 6);
    reveal_with_fuel(GpuState::run_first, 7);
}

} // verus!
