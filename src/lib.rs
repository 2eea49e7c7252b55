//! Player locomotion, sprite animation and phase gating for a small 2D game.

pub mod animation;
pub mod motion;
pub mod game;
