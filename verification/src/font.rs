//! The built-in glyph set: 16 five-byte bitmap patterns for the hex digits,
//! preloaded into low memory so programs can draw digits through the
//! glyph-index operation.

use vstd::prelude::*;

verus! {

/// Byte length of the glyph set: 16 glyphs of 5 bytes each.
pub const FONT_SIZE: usize = 80;

/// The glyph bitmaps, one five-byte sprite per hex digit 0 through F.
pub open spec fn font_seq() -> Seq<u8> {
    seq![
        0xF0u8, 0x90u8, 0x90u8, 0x90u8, 0xF0u8,
        0x20u8, 0x60u8, 0x20u8, 0x20u8, 0x70u8,
        0xF0u8, 0x10u8, 0xF0u8, 0x80u8, 0xF0u8,
        0xF0u8, 0x10u8, 0xF0u8, 0x10u8, 0xF0u8,
        0x90u8, 0x90u8, 0xF0u8, 0x10u8, 0x10u8,
        0xF0u8, 0x80u8, 0xF0u8, 0x10u8, 0xF0u8,
        0xF0u8, 0x80u8, 0xF0u8, 0x90u8, 0xF0u8,
        0xF0u8, 0x10u8, 0x20u8, 0x40u8, 0x40u8,
        0xF0u8, 0x90u8, 0xF0u8, 0x90u8, 0xF0u8,
        0xF0u8, 0x90u8, 0xF0u8, 0x10u8, 0xF0u8,
        0xF0u8, 0x90u8, 0xF0u8, 0x90u8, 0x90u8,
        0xE0u8, 0x90u8, 0xE0u8, 0x90u8, 0xE0u8,
        0xF0u8, 0x80u8, 0x80u8, 0x80u8, 0xF0u8,
        0xE0u8, 0x90u8, 0x90u8, 0x90u8, 0xE0u8,
        0xF0u8, 0x80u8, 0xF0u8, 0x80u8, 0xF0u8,
        0xF0u8, 0x80u8, 0xF0u8, 0x80u8, 0x80u8,
    ]
}

/// Write the glyph set into the first 80 memory cells, leaving the rest of
/// memory untouched.
#[verifier::rlimit(80)]
pub(crate) fn write_font(ram: &mut Vec<u8>)
    requires
        old(ram)@.len() >= 80,
    ensures
        final(ram)@.len() == old(ram)@.len(),
        final(ram)@.take(80) == font_seq(),
        final(ram)@.skip(80) == old(ram)@.skip(80),
{
    ram[0] = 0xF0;
    ram[1] = 0x90;
    ram[2] = 0x90;
    ram[3] = 0x90;
    ram[4] = 0xF0;
    ram[5] = 0x20;
    ram[6] = 0x60;
    ram[7] = 0x20;
    ram[8] = 0x20;
    ram[9] = 0x70;
    ram[10] = 0xF0;
    ram[11] = 0x10;
    ram[12] = 0xF0;
    ram[13] = 0x80;
    ram[14] = 0xF0;
    ram[15] = 0xF0;
    ram[16] = 0x10;
    ram[17] = 0xF0;
    ram[18] = 0x10;
    ram[19] = 0xF0;
    ram[20] = 0x90;
    ram[21] = 0x90;
    ram[22] = 0xF0;
    ram[23] = 0x10;
    ram[24] = 0x10;
    ram[25] = 0xF0;
    ram[26] = 0x80;
    ram[27] = 0xF0;
    ram[28] = 0x10;
    ram[29] = 0xF0;
    ram[30] = 0xF0;
    ram[31] = 0x80;
    ram[32] = 0xF0;
    ram[33] = 0x90;
    ram[34] = 0xF0;
    ram[35] = 0xF0;
    ram[36] = 0x10;
    ram[37] = 0x20;
    ram[38] = 0x40;
    ram[39] = 0x40;
    ram[40] = 0xF0;
    ram[41] = 0x90;
    ram[42] = 0xF0;
    ram[43] = 0x90;
    ram[44] = 0xF0;
    ram[45] = 0xF0;
    ram[46] = 0x90;
    ram[47] = 0xF0;
    ram[48] = 0x10;
    ram[49] = 0xF0;
    ram[50] = 0xF0;
    ram[51] = 0x90;
    ram[52] = 0xF0;
    ram[53] = 0x90;
    ram[54] = 0x90;
    ram[55] = 0xE0;
    ram[56] = 0x90;
    ram[57] = 0xE0;
    ram[58] = 0x90;
    ram[59] = 0xE0;
    ram[60] = 0xF0;
    ram[61] = 0x80;
    ram[62] = 0x80;
    ram[63] = 0x80;
    ram[64] = 0xF0;
    ram[65] = 0xE0;
    ram[66] = 0x90;
    ram[67] = 0x90;
    ram[68] = 0x90;
    ram[69] = 0xE0;
    ram[70] = 0xF0;
    ram[71] = 0x80;
    ram[72] = 0xF0;
    ram[73] = 0x80;
    ram[74] = 0xF0;
    ram[75] = 0xF0;
    ram[76] = 0x80;
    ram[77] = 0xF0;
    ram[78] = 0x80;
    ram[79] = 0x80;
    proof {
        assert(ram@.take(80) =~= font_seq());
        assert(ram@.skip(80) =~= old(ram)@.skip(80));
    }
}

} // verus!
