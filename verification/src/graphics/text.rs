use vstd::prelude::*;

use super::hires_core::registers::{RegisterSet, Tile};

verus! {

/// `new` is `old` with `bytes` written, in order, into the tile ids of layer 0 from
/// tile `start` on; everything else is kept.
pub open spec fn text_written(old: RegisterSet, new: RegisterSet, start: int, bytes: Seq<u8>) -> bool {
    &&& forall|j: int|
        0 <= j < 1200 ==> #[trigger] new.layers[0].tiles[j] == if start <= j < start + bytes.len() {
            Tile { tile_id: bytes[j - start], ..old.layers[0].tiles[j] }
        } else {
            old.layers[0].tiles[j]
        }
    &&& new.layers[0].tilex == old.layers[0].tilex
    &&& new.layers[0].tiley == old.layers[0].tiley
    &&& new.layers[0].scrollx == old.layers[0].scrollx
    &&& new.layers[0].scrolly == old.layers[0].scrolly
    &&& forall|i: int| 1 <= i < 4 ==> new.layers[i] == old.layers[i]
    &&& new == RegisterSet { layers: new.layers, ..old }
}

/// Writes `text`, byte by byte, into the tile ids of layer 0, from column `col` of row
/// `row` on, continuing on the next rows.
pub fn write_text(regset: &mut RegisterSet, text: String, row: u16, col: u16)
    requires
        row * 40 + col <= 0xFFFF,
        vstd::utf8::encode_utf8(text@).len() == 0 || row * 40 + col + vstd::utf8::encode_utf8(text@).len() <= 1200,
    ensures
        text_written(*old(regset), *final(regset), row * 40 + col, vstd::utf8::encode_utf8(text@)),
{
    let bytes = text.as_str().as_bytes();
    let ghost start: int = row * 40 + col;
    let ghost old_tiles = regset.layers[0].tiles;
    let mut tiles = regset.layers[0].tiles;
    let mut tilepos: u16 = row * 40 + col;
    let mut k: usize = 0;
    while k < bytes.len()
        invariant
            k <= bytes@.len(),
            bytes@ == vstd::utf8::encode_utf8(text@),
            bytes@.len() == 0 || start + bytes@.len() <= 1200,
            tilepos == start + k,
            old_tiles == old(regset).layers[0].tiles,
            *regset == *old(regset),
            forall|j: int|
                0 <= j < 1200 ==> #[trigger] tiles[j] == if start <= j < start + k {
                    Tile { tile_id: bytes@[j - start], ..old_tiles[j] }
                } else {
                    old_tiles[j]
                },
        decreases bytes@.len() - k,
    {
        tiles[tilepos as usize].tile_id = bytes[k];
        tilepos += 1;
        if tilepos > 1200 {
            regset.layers[0].tiles = tiles;
            return;
        }
        k += 1;
    }
    regset.layers[0].tiles = tiles;
}

} // verus!
