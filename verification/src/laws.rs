//! Laws of the instruction set, stated over the mathematical model and
//! proved once and for all: register writes read back, carry and borrow
//! flags, display clearing, jump targets, sprite toggling, and the block
//! store/load round trip.

use vstd::prelude::*;

use crate::decode::Instr;
use crate::model::EmuError;
use crate::model::EmuView;
use crate::model::block_load;
use crate::model::block_store;
use crate::model::draw_row;
use crate::model::draw_sprite;
use crate::model::pixel_index;
use crate::model::spec_exec;
use crate::model::spec_word;
use crate::model::view_wf;
use crate::model::with_reg;

verus! {

/// Setting any register to any immediate and then reading that register
/// yields exactly that immediate.
pub proof fn lemma_set_then_read(s: EmuView, x: u8, nn: u8, rb: u8)
    requires
        view_wf(s),
        x < 16,
    ensures
        spec_exec(s, Instr::SetImm { x, nn }, rb) == Ok::<EmuView, EmuError>(with_reg(s, x, nn)),
        with_reg(s, x, nn).v[x as int] == nn,
{
}

/// Add-with-carry: when the register values sum to 256 or more the flag
/// register ends at 1, otherwise at 0, and the destination always holds the
/// 8-bit-wrapped sum. The flag register itself cannot be the destination:
/// the flag write overwrites it.
pub proof fn lemma_add_with_carry(s: EmuView, x: u8, y: u8, rb: u8)
    requires
        view_wf(s),
        x < 16,
        y < 16,
        x != 15,
    ensures
        ({
            let a = s.v[x as int];
            let b = s.v[y as int];
            let r = spec_exec(s, Instr::AddReg { x, y }, rb);
            &&& r is Ok
            &&& (a + b >= 256 ==> r->Ok_0.v[15] == 1)
            &&& (a + b < 256 ==> r->Ok_0.v[15] == 0)
            &&& r->Ok_0.v[x as int] == (a + b) % 256
        }),
{
}

/// Subtract-with-borrow: when the minuend is at least the subtrahend the
/// flag register ends at 1 and the destination holds the exact difference;
/// otherwise the flag ends at 0 and the destination holds the difference
/// modulo 256. The flag register itself cannot be the destination.
pub proof fn lemma_subtract_with_borrow(s: EmuView, x: u8, y: u8, rb: u8)
    requires
        view_wf(s),
        x < 16,
        y < 16,
        x != 15,
    ensures
        ({
            let a = s.v[x as int];
            let b = s.v[y as int];
            let r = spec_exec(s, Instr::SubReg { x, y }, rb);
            &&& r is Ok
            &&& (a >= b ==> r->Ok_0.v[15] == 1 && r->Ok_0.v[x as int] == a - b)
            &&& (a < b ==> r->Ok_0.v[15] == 0)
            &&& r->Ok_0.v[x as int] == (a - b + 256) % 256
        }),
{
}

/// Clearing the display leaves every one of the 2048 cells false.
pub proof fn lemma_clear_display(s: EmuView, rb: u8)
    requires
        view_wf(s),
    ensures
        ({
            let r = spec_exec(s, Instr::ClearScreen, rb);
            &&& r is Ok
            &&& r->Ok_0.screen.len() == 2048
            &&& (forall|i: int| 0 <= i < 2048 ==> !r->Ok_0.screen[i])
        }),
{
}

/// A jump lands exactly on its target: after executing a jump to `nnn`, the
/// program counter is `nnn`, so the following tick fetches the word stored
/// at `nnn` itself, not at `nnn` plus an instruction width.
pub proof fn lemma_jump_then_fetch(s: EmuView, nnn: u16, rb: u8)
    requires
        view_wf(s),
        nnn < 0x1000,
    ensures
        ({
            let r = spec_exec(s, Instr::Jump { nnn }, rb);
            &&& r is Ok
            &&& r->Ok_0.pc == nnn
            &&& r->Ok_0.ram == s.ram
            &&& spec_word(r->Ok_0.ram, r->Ok_0.pc as int) == spec_word(s.ram, nnn as int)
        }),
{
}

/// Indices produced by `pixel_index` always land inside the framebuffer.
proof fn lemma_pixel_index_bounds(x0: int, y0: int, col: int, row: int)
    requires
        0 <= x0,
        0 <= y0,
        0 <= col,
        0 <= row,
    ensures
        0 <= pixel_index(x0, y0, col, row) < 2048,
{
}

/// Drawing one row of a sprite with exactly one bit set (bit `c` from the
/// left) touches exactly the one target pixel: after `m` columns, nothing
/// has changed if the bit's column is still ahead, and exactly that pixel
/// has been XORed once otherwise.
proof fn lemma_draw_row_single_bit(
    scr: Seq<bool>,
    flip: bool,
    x0: int,
    y0: int,
    c: u8,
    row: int,
    m: int,
)
    requires
        scr.len() == 2048,
        c < 8,
        0 <= m <= 8,
        0 <= x0,
        0 <= y0,
        0 <= row,
    ensures
        ({
            let d = draw_row(scr, flip, x0, y0, (0x80u8 >> c), row, m);
            let pix = pixel_index(x0, y0, c as int, row);
            &&& (m <= c ==> d.0 == scr && d.1 == flip)
            &&& (m > c ==> d.0 == scr.update(pix, !scr[pix]) && d.1 == (flip || scr[pix]))
        }),
    decreases m,
{
    if m > 0 {
        lemma_draw_row_single_bit(scr, flip, x0, y0, c, row, m - 1);
        let k: u8 = (m - 1) as u8;
        assert(((0x80u8 >> c) & (0x80u8 >> k) != 0) <==> (c == k)) by (bit_vector)
            requires
                c < 8,
                k < 8,
        ;
        lemma_pixel_index_bounds(x0, y0, c as int, row);
    }
}

/// Drawing the same single-row, single-bit sprite twice at the same
/// coordinates, onto a pixel that starts clear: the first draw sets the
/// pixel and reports no collision, the second toggles it back off and
/// reports a collision. The coordinate registers may not be the flag
/// register, which the draw itself overwrites.
pub proof fn lemma_single_bit_sprite_toggles(s: EmuView, x: u8, y: u8, c: u8, rb1: u8, rb2: u8)
    requires
        view_wf(s),
        x < 16,
        y < 16,
        x != 15,
        y != 15,
        c < 8,
        s.idx as int + 1 <= 4096,
        s.ram[s.idx as int] == (0x80u8 >> c),
        !s.screen[pixel_index(s.v[x as int] as int, s.v[y as int] as int, c as int, 0)],
    ensures
        ({
            let pix = pixel_index(s.v[x as int] as int, s.v[y as int] as int, c as int, 0);
            let r1 = spec_exec(s, Instr::Draw { x, y, n: 1 }, rb1);
            &&& r1 is Ok
            &&& r1->Ok_0.v[15] == 0
            &&& r1->Ok_0.screen[pix]
            &&& ({
                let r2 = spec_exec(r1->Ok_0, Instr::Draw { x, y, n: 1 }, rb2);
                &&& r2 is Ok
                &&& r2->Ok_0.v[15] == 1
                &&& r2->Ok_0.screen == s.screen
            })
        }),
{
    let x0 = s.v[x as int] as int;
    let y0 = s.v[y as int] as int;
    let pix = pixel_index(x0, y0, c as int, 0);
    lemma_pixel_index_bounds(x0, y0, c as int, 0);
    let d0 = draw_sprite(s.screen, false, s.ram, s.idx as int, x0, y0, 0);
    assert(d0.0 == s.screen && d0.1 == false);
    lemma_draw_row_single_bit(s.screen, false, x0, y0, c, 0, 8);
    let d1 = draw_sprite(s.screen, false, s.ram, s.idx as int, x0, y0, 1);
    assert(d1 == draw_row(s.screen, false, x0, y0, s.ram[s.idx as int], 0, 8));
    let s1 = spec_exec(s, Instr::Draw { x, y, n: 1 }, rb1)->Ok_0;
    assert(s1.screen == s.screen.update(pix, true));
    let e0 = draw_sprite(s1.screen, false, s1.ram, s1.idx as int, x0, y0, 0);
    assert(e0.0 == s1.screen && e0.1 == false);
    lemma_draw_row_single_bit(s1.screen, false, x0, y0, c, 0, 8);
    let e1 = draw_sprite(s1.screen, false, s1.ram, s1.idx as int, x0, y0, 1);
    assert(e1 == draw_row(s1.screen, false, x0, y0, s1.ram[s1.idx as int], 0, 8));
    let s2 = spec_exec(s1, Instr::Draw { x, y, n: 1 }, rb2)->Ok_0;
    assert(s2.screen =~= s.screen);
}

/// Every cell a block store writes holds the register it came from, and
/// every other memory cell is untouched.
pub proof fn lemma_block_store_index(ram: Seq<u8>, i: int, v: Seq<u8>, count: int)
    requires
        0 <= count,
        v.len() >= count,
        0 <= i,
        i + count <= ram.len(),
    ensures
        block_store(ram, i, v, count).len() == ram.len(),
        forall|k: int| 0 <= k < count ==> block_store(ram, i, v, count)[i + k] == v[k],
        forall|j: int|
            0 <= j < ram.len() && !(i <= j < i + count) ==> block_store(ram, i, v, count)[j]
                == ram[j],
    decreases count,
{
    if count > 0 {
        lemma_block_store_index(ram, i, v, count - 1);
    }
}

/// Every register a block load fills holds the memory cell it came from,
/// and every register past the count is untouched.
pub proof fn lemma_block_load_index(v: Seq<u8>, ram: Seq<u8>, i: int, count: int)
    requires
        0 <= count <= v.len(),
        0 <= i,
        i + count <= ram.len(),
    ensures
        block_load(v, ram, i, count).len() == v.len(),
        forall|k: int| 0 <= k < count ==> block_load(v, ram, i, count)[k] == ram[i + k],
        forall|k: int| count <= k < v.len() ==> block_load(v, ram, i, count)[k] == v[k],
    decreases count,
{
    if count > 0 {
        lemma_block_load_index(v, ram, i, count - 1);
    }
}

/// Round trip: block-storing registers 0 through `x` and then block-loading
/// from the same memory location, into any machine whose memory holds the
/// stored image, reproduces the original register values exactly.
pub proof fn lemma_store_load_round_trip(s: EmuView, t: EmuView, x: u8, rb1: u8, rb2: u8)
    requires
        view_wf(s),
        view_wf(t),
        x < 16,
        s.idx as int + x + 1 <= 4096,
        t.idx == s.idx,
        spec_exec(s, Instr::StoreRegs { x }, rb1) matches Ok(s1) && t.ram == s1.ram,
    ensures
        spec_exec(s, Instr::StoreRegs { x }, rb1) is Ok,
        ({
            let r = spec_exec(t, Instr::LoadRegs { x }, rb2);
            &&& r is Ok
            &&& (forall|k: int| 0 <= k <= x ==> r->Ok_0.v[k] == s.v[k])
            &&& (forall|k: int| x < k < 16 ==> r->Ok_0.v[k] == t.v[k])
        }),
{
    lemma_block_store_index(s.ram, s.idx as int, s.v, x + 1);
    lemma_block_load_index(t.v, t.ram, t.idx as int, x + 1);
}

} // verus!



