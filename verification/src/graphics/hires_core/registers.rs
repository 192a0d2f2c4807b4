use vstd::prelude::*;

verus! {

/// Number of palette slots.
pub const MAX_PALETTES: usize = 32;

/// Number of layers.
pub const NUM_LAYERS: usize = 4;

/// Number of pixel atlas slots.
pub const MAX_ATLASSES: usize = 16;

/// Number of sprite slots.
pub const MAX_SPRITES: usize = 64;

/// Layer on which sprites are drawn before the layer's own tiles.
pub const SPRITE_LAYER: usize = 1;

/// Atlas id that marks a tile as empty.
pub const EMPTY_ATLAS_ID: u8 = 255;

/// The errors the core records in `RegisterSet::lastErr`, numbered in declaration order.
#[derive(Clone, Copy, Debug, PartialEq, Eq, Structural)]
pub enum GfxError {
    /// No error recorded.
    NoError,
    /// Tried to access an atlas with an invalid id.
    BadAtlasId,
    /// Atlas has no memory assigned.
    BadAtlasPtr,
    /// Tried to retrieve an entry outside of the atlas bounds.
    BadAtlasSize,
    /// Encountered an atlas with an invalid storage mode.
    BadStorageMode,
    /// Tried to use a palette with an invalid id.
    BadPaletteId,
    /// Palette has no memory assigned.
    BadPalettePtr,
}

/// The number under which an error is recorded in the error register.
pub open spec fn error_code(e: GfxError) -> u8 {
    match e {
        GfxError::NoError => 0,
        GfxError::BadAtlasId => 1,
        GfxError::BadAtlasPtr => 2,
        GfxError::BadAtlasSize => 3,
        GfxError::BadStorageMode => 4,
        GfxError::BadPaletteId => 5,
        GfxError::BadPalettePtr => 6,
    }
}

impl GfxError {
    /// The number under which this error is recorded in the error register.
    pub fn code(&self) -> (c: u8)
        ensures
            c == error_code(*self),
    {
        match self {
            GfxError::NoError => 0,
            GfxError::BadAtlasId => 1,
            GfxError::BadAtlasPtr => 2,
            GfxError::BadAtlasSize => 3,
            GfxError::BadStorageMode => 4,
            GfxError::BadPaletteId => 5,
            GfxError::BadPalettePtr => 6,
        }
    }
}

/// How the pixels of an atlas are packed: two per byte, or one per byte.
#[derive(Clone, Copy, Debug, PartialEq, Eq, Structural)]
pub enum StorageMode {
    FourBit,
    EightBit,
}

/// A block of pixel data: color indices into a palette.
///
/// `data` is the address of the first byte in the core's memory; `None` stands for
/// an atlas with no memory assigned.
#[derive(Clone, Copy, Debug)]
pub struct PixelAtlas {
    pub data: Option<usize>,
    pub sizex: u16,
    pub sizey: u16,
    pub storage_mode: StorageMode,
}

/// One cell of a layer.
#[derive(Clone, Copy, Debug)]
pub struct Tile {
    pub atlas_id: u8,
    pub tile_id: u8,
    pub palette_id: u8,
    pub _rfu: u8,
}

/// A grid of 40 x 30 tiles of `tilex` x `tiley` pixels each.
#[derive(Clone, Copy)]
pub struct Layer {
    pub tilex: u8,
    pub tiley: u8,
    pub scrollx: u16,
    pub scrolly: u16,
    pub tiles: [Tile; 1200],
}

/// A rectangle of pixel data at a position on the screen.
///
/// A sprite with both positions at -1 is unused.
#[derive(Clone, Copy, Debug)]
pub struct Sprite {
    pub posx: i16,
    pub posy: i16,
    pub w: i16,
    pub h: i16,
    pub palette_id: u8,
    pub atlas_id: u8,
    pub atlasx: u16,
    pub atlasy: u16,
}

/// The virtual registers through which the core is driven.
///
/// `palettes` holds the address of each palette in the core's memory, `None` for a
/// palette with no memory assigned. A palette entry is 4 bytes: blue, green, red, alpha.
#[allow(non_snake_case)]
#[derive(Clone, Copy)]
pub struct RegisterSet {
    pub output_enable: bool,
    pub LENDIrqEnable: bool,
    pub LYXIrqEnable: bool,
    pub Mode: u8,
    pub LYCCompare: u16,
    pub xshift: u16,
    pub yshift: u16,
    pub RFU1: u8,
    pub RFU2: u8,
    pub lastErr: u8,
    pub pixel_atlasses: [PixelAtlas; 16],
    pub layers: [Layer; 4],
    pub palettes: [Option<usize>; 32],
    pub sprites: [Sprite; 64],
}

/// The register contents of zeroed memory.
pub open spec fn is_zeroed(regs: RegisterSet) -> bool {
    &&& !regs.output_enable && !regs.LENDIrqEnable && !regs.LYXIrqEnable
    &&& regs.Mode == 0 && regs.LYCCompare == 0 && regs.xshift == 0 && regs.yshift == 0
    &&& regs.RFU1 == 0 && regs.RFU2 == 0 && regs.lastErr == 0
    &&& forall|i: int|
        0 <= i < 16 ==> {
            let a = #[trigger] regs.pixel_atlasses[i];
            a.data is None && a.sizex == 0 && a.sizey == 0 && a.storage_mode == StorageMode::FourBit
        }
    &&& forall|i: int|
        0 <= i < 4 ==> {
            let l = #[trigger] regs.layers[i];
            &&& l.tilex == 0 && l.tiley == 0 && l.scrollx == 0 && l.scrolly == 0
            &&& forall|j: int|
                0 <= j < 1200 ==> {
                    let t = #[trigger] l.tiles[j];
                    t.atlas_id == 0 && t.tile_id == 0 && t.palette_id == 0 && t._rfu == 0
                }
        }
    &&& forall|i: int| 0 <= i < 32 ==> (#[trigger] regs.palettes[i]) is None
    &&& forall|i: int|
        0 <= i < 64 ==> {
            let s = #[trigger] regs.sprites[i];
            &&& s.posx == 0 && s.posy == 0 && s.w == 0 && s.h == 0
            &&& s.palette_id == 0 && s.atlas_id == 0 && s.atlasx == 0 && s.atlasy == 0
        }
}

impl RegisterSet {
    /// The registers as they read in zeroed memory.
    pub fn zeroed() -> (regs: RegisterSet)
        ensures
            is_zeroed(regs),
    {
        let atlas = PixelAtlas { data: None, sizex: 0, sizey: 0, storage_mode: StorageMode::FourBit };
        let tile = Tile { atlas_id: 0, tile_id: 0, palette_id: 0, _rfu: 0 };
        let layer = Layer { tilex: 0, tiley: 0, scrollx: 0, scrolly: 0, tiles: [tile; 1200] };
        let sprite = Sprite {
            posx: 0,
            posy: 0,
            w: 0,
            h: 0,
            palette_id: 0,
            atlas_id: 0,
            atlasx: 0,
            atlasy: 0,
        };
        RegisterSet {
            output_enable: false,
            LENDIrqEnable: false,
            LYXIrqEnable: false,
            Mode: 0,
            LYCCompare: 0,
            xshift: 0,
            yshift: 0,
            RFU1: 0,
            RFU2: 0,
            lastErr: 0,
            pixel_atlasses: [atlas; 16],
            layers: [layer; 4],
            palettes: [None; 32],
            sprites: [sprite; 64],
        }
    }
}

} // verus!
