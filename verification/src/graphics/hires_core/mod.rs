use vstd::prelude::*;

pub mod engine;
pub mod laws;
pub mod model;
pub mod raster;
pub mod registers;

pub use engine::{HiResCore, TextRom};
pub use registers::{
    GfxError, Layer, PixelAtlas, RegisterSet, Sprite, StorageMode, Tile, EMPTY_ATLAS_ID,
    MAX_ATLASSES, MAX_PALETTES, MAX_SPRITES, NUM_LAYERS, SPRITE_LAYER,
};

verus! {
} // verus!
