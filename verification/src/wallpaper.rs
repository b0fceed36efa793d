//! What the renderer is told about the output and about each image.

use vstd::prelude::*;
use crate::commands::Command;
use crate::geometry::{
    fit_vertex_rect,
    texture_coordinates,
    texture_rect,
    vertex_coordinates_for_fit,
    BackgroundMode,
    Coordinates,
    Rect,
};
use crate::texture::DecodedImage;

verus! {

/// The geometry of the output, as the windowing side reports it.
#[derive(Clone, Copy, Debug, PartialEq, Eq)]
pub struct DisplayInfo {
    /// Width in logical pixels, after the scale factor.
    pub scaled_width: u32,
    /// Height in logical pixels, after the scale factor.
    pub scaled_height: u32,
    /// Width in physical pixels, after rotation.
    pub adjusted_width: i32,
    /// Height in physical pixels, after rotation.
    pub adjusted_height: i32,
}

impl DisplayInfo {
    /// All four sizes are positive.
    pub open spec fn wf(self) -> bool {
        self.scaled_width > 0 && self.scaled_height > 0 && self.adjusted_width > 0
            && self.adjusted_height > 0
    }

    /// The geometry of an output, if all four sizes are positive.
    pub fn new(
        scaled_width: u32,
        scaled_height: u32,
        adjusted_width: i32,
        adjusted_height: i32,
    ) -> (r: Option<DisplayInfo>)
        ensures
            r is Some <==> scaled_width > 0 && scaled_height > 0 && adjusted_width > 0
                && adjusted_height > 0,
            r matches Some(d) ==> d == (DisplayInfo {
                scaled_width,
                scaled_height,
                adjusted_width,
                adjusted_height,
            }) && d.wf(),
    {
        if scaled_width > 0 && scaled_height > 0 && adjusted_width > 0 && adjusted_height > 0 {
            Some(DisplayInfo { scaled_width, scaled_height, adjusted_width, adjusted_height })
        } else {
            None
        }
    }
}

/// One image on the graphics side: its texture and its size.
#[derive(Clone, Copy, Debug, PartialEq, Eq)]
pub struct Wallpaper {
    /// The texture handle; 0 while no image is loaded.
    pub texture: u32,
    pub image_width: u32,
    pub image_height: u32,
}

impl Wallpaper {
    /// The part of this image that `mode` samples on `display`.
    pub open spec fn texture_rect(self, display: DisplayInfo, mode: BackgroundMode) -> Rect {
        texture_rect(
            display.scaled_width as int,
            display.scaled_height as int,
            self.image_width as int,
            self.image_height as int,
            mode,
        )
    }

    /// Where Fit places this image on `display`.
    pub open spec fn fit_rect(self, display: DisplayInfo) -> Rect {
        fit_vertex_rect(
            display.scaled_width as int,
            display.scaled_height as int,
            self.image_width as int,
            self.image_height as int,
        )
    }

    /// An empty slot: no texture, and a size of 10 by 10 to stand in.
    pub fn new() -> (r: Wallpaper)
        ensures
            r == (Wallpaper { texture: 0, image_width: 10, image_height: 10 }),
    {
        Wallpaper { texture: 0, image_width: 10, image_height: 10 }
    }

    /// The command that binds this image's texture on the active unit.
    pub fn bind(&self) -> (r: Command)
        ensures
            r == Command::BindTexture(self.texture),
    {
        Command::BindTexture(self.texture)
    }

    /// Puts `image`, uploaded as `texture`, into this slot. The slot no
    /// longer refers to the texture that it held before: the command
    /// returned deletes it.
    pub fn load_image(&mut self, texture: u32, image: &DecodedImage) -> (r: Command)
        ensures
            r == Command::DeleteTexture(old(self).texture),
            *final(self) == (Wallpaper {
                texture,
                image_width: image.width,
                image_height: image.height,
            }),
    {
        let released: u32 = self.texture;
        self.image_width = image.width;
        self.image_height = image.height;
        self.texture = texture;
        Command::DeleteTexture(released)
    }

    pub fn generate_texture_coordinates(&self, display: &DisplayInfo, mode: BackgroundMode) -> (r:
        Coordinates)
        ensures
            r@ == self.texture_rect(*display, mode),
    {
        texture_coordinates(
            display.scaled_width,
            display.scaled_height,
            self.image_width,
            self.image_height,
            mode,
        )
    }

    pub fn generate_vertices_coordinates_for_fit_mode(&self, display: &DisplayInfo) -> (r:
        Coordinates)
        ensures
            r@ == self.fit_rect(*display),
    {
        vertex_coordinates_for_fit(
            display.scaled_width,
            display.scaled_height,
            self.image_width,
            self.image_height,
        )
    }
}

} // verus!
