//! The logic of a wallpaper compositor that crossfades between two images:
//! exact rectangle geometry for each background mode, the vertex buffer
//! layout, the animation clock, and the renderer's state machine, which plans
//! the graphics commands for a caller to issue.

pub mod animation;
pub mod commands;
pub mod error;
pub mod geometry;
pub mod pipeline;
pub mod renderer;
pub mod texture;
pub mod vertices;
pub mod wallpaper;
