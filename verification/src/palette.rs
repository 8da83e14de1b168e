use vstd::prelude::*;

verus! {

/// The 64-entry NTSC NES palette: RGB triples indexed by the 6-bit
/// colour index the PPU emits.
pub const NES_PALETTE: [(u8, u8, u8); 64] = [
    (84, 84, 84),
    (0, 30, 116),
    (8, 16, 144),
    (48, 0, 136),
    (68, 0, 100),
    (92, 0, 48),
    (84, 4, 0),
    (60, 24, 0),
    (32, 42, 0),
    (8, 58, 0),
    (0, 64, 0),
    (0, 60, 0),
    (0, 50, 60),
    (0, 0, 0),
    (0, 0, 0),
    (0, 0, 0),
    (152, 150, 152),
    (8, 76, 196),
    (48, 50, 236),
    (92, 30, 228),
    (136, 20, 176),
    (160, 20, 100),
    (152, 34, 32),
    (120, 60, 0),
    (84, 90, 0),
    (40, 114, 0),
    (8, 124, 0),
    (0, 118, 40),
    (0, 102, 120),
    (0, 0, 0),
    (0, 0, 0),
    (0, 0, 0),
    (236, 238, 236),
    (76, 154, 236),
    (120, 124, 236),
    (176, 98, 236),
    (228, 84, 236),
    (236, 88, 180),
    (236, 106, 100),
    (212, 136, 32),
    (160, 170, 0),
    (116, 196, 0),
    (76, 208, 32),
    (56, 204, 108),
    (56, 180, 204),
    (60, 60, 60),
    (0, 0, 0),
    (0, 0, 0),
    (236, 238, 236),
    (168, 204, 236),
    (188, 188, 236),
    (212, 178, 236),
    (236, 174, 236),
    (236, 174, 212),
    (236, 180, 176),
    (228, 196, 144),
    (204, 210, 120),
    (180, 222, 120),
    (168, 226, 144),
    (152, 226, 180),
    (160, 214, 228),
    (160, 162, 160),
    (0, 0, 0),
    (0, 0, 0),
];

/// The RGB triple for a palette index; indices above 63 wrap, as the
/// PPU only ever emits 6 bits.
pub fn palette_to_rgb(palette_index: u8) -> (r: (u8, u8, u8))
    ensures
        r == NES_PALETTE[(palette_index % 64) as int],
{
    NES_PALETTE[(palette_index % 64) as usize]
}

/// Expand a framebuffer of palette indices into interleaved RGB bytes,
/// three per pixel, in order.
pub fn framebuffer_to_rgb(framebuffer: &[u8]) -> (r: Vec<u8>)
    ensures
        r@.len() == 3 * framebuffer@.len(),
        forall|i: int|
            0 <= i < framebuffer@.len() ==> {
                let c = NES_PALETTE[((#[trigger] framebuffer@[i]) % 64) as int];
                r@[3 * i] == c.0 && r@[3 * i + 1] == c.1 && r@[3 * i + 2] == c.2
            },
{
    let n = framebuffer.len();
    let mut rgb_data: Vec<u8> = Vec::new();
    let mut i: usize = 0;
    while i < n
        invariant
            i <= n && n == framebuffer@.len(),
            rgb_data@.len() == 3 * i,
            forall|j: int|
                0 <= j < i ==> {
                    let c = NES_PALETTE[((#[trigger] framebuffer@[j]) % 64) as int];
                    rgb_data@[3 * j] == c.0 && rgb_data@[3 * j + 1] == c.1 && rgb_data@[3 * j + 2]
                        == c.2
                },
        decreases n - i,
    {
        let (red, green, blue) = palette_to_rgb(framebuffer[i]);
        rgb_data.push(red);
        rgb_data.push(green);
        rgb_data.push(blue);
        i = i + 1;
    }
    rgb_data
}

} // verus!
