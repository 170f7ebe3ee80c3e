//! The mathematical model of the machine: a ghost view of the whole state
//! and the transition each operation performs on it. Every executable method
//! of the emulator is specified against these functions.

use vstd::prelude::*;

use crate::decode::Instr;

verus! {

/// Number of addressable memory cells.
pub const RAM_SIZE: usize = 4096;

/// Lowest address a program image occupies.
pub const START_ADDR: u16 = 0x200;

/// Framebuffer width in pixels.
pub const SCREEN_WIDTH: usize = 64;

/// Framebuffer height in pixels.
pub const SCREEN_HEIGHT: usize = 32;

/// Number of general registers.
pub const NUM_REGS: usize = 16;

/// Call-stack depth.
pub const STACK_SIZE: usize = 16;

/// Number of keypad cells.
pub const NUM_KEYS: usize = 16;

/// The fatal conditions the engine surfaces instead of continuing.
#[derive(Clone, Copy, Debug, PartialEq, Eq, Structural)]
pub enum EmuError {
    /// The fetched instruction word matches no operation pattern.
    UnknownOpcode,
    /// A return was executed with an empty call stack.
    StackUnderflow,
    /// A call was executed with a full call stack.
    StackOverflow,
    /// An instruction addressed memory or the keypad outside its bounds.
    OutOfBounds,
    /// A program image does not fit between the load address and the end of
    /// memory.
    ProgramTooLarge,
}

/// The machine state as mathematics: plain integers and sequences.
#[verifier::ext_equal]
pub struct EmuView {
    /// Program counter: address of the next instruction to fetch.
    pub pc: u16,
    /// The 4096 memory cells.
    pub ram: Seq<u8>,
    /// The 64x32 framebuffer, row-major.
    pub screen: Seq<bool>,
    /// The 16 general registers; register 15 doubles as the flag.
    pub v: Seq<u8>,
    /// The index register.
    pub idx: u16,
    /// Stack pointer: number of live stack entries.
    pub sp: u16,
    /// The 16 call-stack cells.
    pub stack: Seq<u16>,
    /// The 16 keypad cells, written only by the host.
    pub keys: Seq<bool>,
    /// Delay timer.
    pub dt: u8,
    /// Sound timer.
    pub st: u8,
}

/// Dimensions every reachable machine state keeps.
pub open spec fn view_wf(s: EmuView) -> bool {
    &&& s.ram.len() == 4096
    &&& s.screen.len() == 2048
    &&& s.v.len() == 16
    &&& s.stack.len() == 16
    &&& s.keys.len() == 16
    &&& s.sp <= 16
}

/// 16-bit wraparound, total on all of `int`.
pub open spec fn wrap16(a: int) -> u16 {
    ((a % 0x10000 + 0x10000) % 0x10000) as u16
}

/// On arguments below the wraparound threshold `wrap16` is the identity;
/// one threshold above, it subtracts the threshold.
pub proof fn lemma_wrap16_range(a: int)
    requires
        0 <= a < 0x20000,
    ensures
        a < 0x10000 ==> wrap16(a) == a,
        a >= 0x10000 ==> wrap16(a) == a - 0x10000,
{
}

/// On small negative arguments `wrap16` adds the wraparound threshold.
pub proof fn lemma_wrap16_neg(a: int)
    requires
        -0x10000 <= a < 0,
    ensures
        wrap16(a) == a + 0x10000,
{
}

/// The big-endian 16-bit word stored at address `a`.
pub open spec fn spec_word(ram: Seq<u8>, a: int) -> u16
    recommends
        0 <= a,
        a + 1 < ram.len(),
{
    (ram[a] as u16 * 256 + ram[a + 1] as u16) as u16
}

/// The state with the program counter moved past one instruction word.
pub open spec fn advanced(s: EmuView) -> EmuView {
    EmuView { pc: wrap16(s.pc + 2), ..s }
}

/// The state with register `x` set to `val` and nothing else changed.
pub open spec fn with_reg(s: EmuView, x: u8, val: u8) -> EmuView {
    EmuView { v: s.v.update(x as int, val), ..s }
}

/// Whether any keypad cell is pressed.
pub open spec fn any_key(keys: Seq<bool>) -> bool {
    exists|k: int| 0 <= k < 16 && keys[k]
}

/// Framebuffer cell index of sprite bit (`col`, `row`) drawn at origin
/// (`x0`, `y0`): coordinates wrap at the screen edges.
pub open spec fn pixel_index(x0: int, y0: int, col: int, row: int) -> int {
    (x0 + col) % 64 + 64 * ((y0 + row) % 32)
}

/// Whether sprite-row byte `byte` has its bit for column `col` set
/// (bit 7 is the leftmost column).
pub open spec fn sprite_bit(byte: u8, col: int) -> bool
    recommends
        0 <= col < 8,
{
    byte & (0x80u8 >> (col as u8)) != 0
}

/// One sprite bit XORed onto the framebuffer: `flip` accumulates whether any
/// pixel went from set to unset.
pub open spec fn draw_bit(
    scr: Seq<bool>,
    flip: bool,
    x0: int,
    y0: int,
    byte: u8,
    row: int,
    col: int,
) -> (Seq<bool>, bool) {
    if sprite_bit(byte, col) {
        let idx = pixel_index(x0, y0, col, row);
        (scr.update(idx, !scr[idx]), flip || scr[idx])
    } else {
        (scr, flip)
    }
}

/// The first `ncols` bits of one sprite row XORed onto the framebuffer, in
/// column order.
pub open spec fn draw_row(
    scr: Seq<bool>,
    flip: bool,
    x0: int,
    y0: int,
    byte: u8,
    row: int,
    ncols: int,
) -> (Seq<bool>, bool)
    decreases ncols,
{
    if ncols <= 0 {
        (scr, flip)
    } else {
        let prev = draw_row(scr, flip, x0, y0, byte, row, ncols - 1);
        draw_bit(prev.0, prev.1, x0, y0, byte, row, ncols - 1)
    }
}

/// The first `nrows` sprite rows, read from memory at `i`, XORed onto the
/// framebuffer in row order.
pub open spec fn draw_sprite(
    scr: Seq<bool>,
    flip: bool,
    ram: Seq<u8>,
    i: int,
    x0: int,
    y0: int,
    nrows: int,
) -> (Seq<bool>, bool)
    decreases nrows,
{
    if nrows <= 0 {
        (scr, flip)
    } else {
        let prev = draw_sprite(scr, flip, ram, i, x0, y0, nrows - 1);
        draw_row(prev.0, prev.1, x0, y0, ram[i + nrows - 1], nrows - 1, 8)
    }
}

/// Memory with registers `0..count` of `v` copied in starting at `i`.
pub open spec fn block_store(ram: Seq<u8>, i: int, v: Seq<u8>, count: int) -> Seq<u8>
    decreases count,
{
    if count <= 0 {
        ram
    } else {
        block_store(ram, i, v, count - 1).update(i + count - 1, v[count - 1])
    }
}

/// Registers with cells `0..count` overwritten from memory starting at `i`.
pub open spec fn block_load(v: Seq<u8>, ram: Seq<u8>, i: int, count: int) -> Seq<u8>
    decreases count,
{
    if count <= 0 {
        v
    } else {
        block_load(v, ram, i, count - 1).update(count - 1, ram[i + count - 1])
    }
}

/// Memory after a program image `data` is copied in at the load address.
pub open spec fn loaded_ram(ram: Seq<u8>, data: Seq<u8>) -> Seq<u8> {
    Seq::new(
        4096,
        |i: int|
            if 0x200 <= i < 0x200 + data.len() {
                data[i - 0x200]
            } else {
                ram[i]
            },
    )
}

/// The effect of one decoded instruction on a state whose program counter
/// already points past the instruction word. `rb` is the byte the random
/// source produced; only the `Random` operation reads it. An `Err` result
/// means the instruction's own semantics reject the state, which leaves the
/// state untouched.
pub open spec fn spec_exec(s: EmuView, instr: Instr, rb: u8) -> Result<EmuView, EmuError>
    recommends
        view_wf(s),
{
    match instr {
        Instr::Nop => Ok(s),
        Instr::ClearScreen => Ok(
            EmuView { screen: Seq::new(2048, |i: int| false), ..s },
        ),
        Instr::Ret => if s.sp == 0 {
            Err(EmuError::StackUnderflow)
        } else {
            Ok(EmuView { pc: s.stack[s.sp - 1], sp: (s.sp - 1) as u16, ..s })
        },
        Instr::Jump { nnn } => Ok(EmuView { pc: nnn, ..s }),
        Instr::Call { nnn } => if s.sp >= 16 {
            Err(EmuError::StackOverflow)
        } else {
            Ok(
                EmuView {
                    stack: s.stack.update(s.sp as int, s.pc),
                    sp: (s.sp + 1) as u16,
                    pc: nnn,
                    ..s
                },
            )
        },
        Instr::SkipEqImm { x, nn } => Ok(
            if s.v[x as int] == nn {
                advanced(s)
            } else {
                s
            },
        ),
        Instr::SkipNeImm { x, nn } => Ok(
            if s.v[x as int] != nn {
                advanced(s)
            } else {
                s
            },
        ),
        Instr::SkipEqReg { x, y } => Ok(
            if s.v[x as int] == s.v[y as int] {
                advanced(s)
            } else {
                s
            },
        ),
        Instr::SetImm { x, nn } => Ok(with_reg(s, x, nn)),
        Instr::AddImm { x, nn } => Ok(
            with_reg(s, x, ((s.v[x as int] + nn) % 256) as u8),
        ),
        Instr::Copy { x, y } => Ok(with_reg(s, x, s.v[y as int])),
        Instr::Or { x, y } => Ok(with_reg(s, x, s.v[x as int] | s.v[y as int])),
        Instr::And { x, y } => Ok(with_reg(s, x, s.v[x as int] & s.v[y as int])),
        Instr::Xor { x, y } => Ok(with_reg(s, x, s.v[x as int] ^ s.v[y as int])),
        Instr::AddReg { x, y } => {
            let sum = s.v[x as int] + s.v[y as int];
            Ok(
                EmuView {
                    v: s.v.update(x as int, (sum % 256) as u8).update(
                        15,
                        if sum >= 256 {
                            1u8
                        } else {
                            0u8
                        },
                    ),
                    ..s
                },
            )
        },
        Instr::SubReg { x, y } => {
            let diff = s.v[x as int] - s.v[y as int] + 256;
            Ok(
                EmuView {
                    v: s.v.update(x as int, (diff % 256) as u8).update(
                        15,
                        if s.v[x as int] >= s.v[y as int] {
                            1u8
                        } else {
                            0u8
                        },
                    ),
                    ..s
                },
            )
        },
        Instr::ShrReg { x } => Ok(
            EmuView {
                v: s.v.update(x as int, (s.v[x as int] / 2) as u8).update(
                    15,
                    (s.v[x as int] % 2) as u8,
                ),
                ..s
            },
        ),
        Instr::SubRev { x, y } => {
            let diff = s.v[y as int] - s.v[x as int] + 256;
            Ok(
                EmuView {
                    v: s.v.update(x as int, (diff % 256) as u8).update(
                        15,
                        if s.v[y as int] >= s.v[x as int] {
                            1u8
                        } else {
                            0u8
                        },
                    ),
                    ..s
                },
            )
        },
        Instr::ShlReg { x } => Ok(
            EmuView {
                v: s.v.update(x as int, (s.v[x as int] * 2 % 256) as u8).update(
                    15,
                    (s.v[x as int] / 128) as u8,
                ),
                ..s
            },
        ),
        Instr::SkipNeReg { x, y } => Ok(
            if s.v[x as int] != s.v[y as int] {
                advanced(s)
            } else {
                s
            },
        ),
        Instr::SetIndex { nnn } => Ok(EmuView { idx: nnn, ..s }),
        Instr::JumpV0 { nnn } => Ok(EmuView { pc: wrap16(s.v[0] + nnn), ..s }),
        Instr::Random { x, nn } => Ok(with_reg(s, x, rb & nn)),
        Instr::Draw { x, y, n } => if s.idx + n > 4096 {
            Err(EmuError::OutOfBounds)
        } else {
            let r = draw_sprite(
                s.screen,
                false,
                s.ram,
                s.idx as int,
                s.v[x as int] as int,
                s.v[y as int] as int,
                n as int,
            );
            Ok(
                EmuView {
                    screen: r.0,
                    v: s.v.update(
                        15,
                        if r.1 {
                            1u8
                        } else {
                            0u8
                        },
                    ),
                    ..s
                },
            )
        },
        Instr::SkipKey { x } => if s.v[x as int] >= 16 {
            Err(EmuError::OutOfBounds)
        } else {
            Ok(
                if s.keys[s.v[x as int] as int] {
                    advanced(s)
                } else {
                    s
                },
            )
        },
        Instr::SkipNoKey { x } => if s.v[x as int] >= 16 {
            Err(EmuError::OutOfBounds)
        } else {
            Ok(
                if !s.keys[s.v[x as int] as int] {
                    advanced(s)
                } else {
                    s
                },
            )
        },
        Instr::ReadDelay { x } => Ok(with_reg(s, x, s.dt)),
        Instr::WaitKey { x } => Ok(
            if any_key(s.keys) {
                s
            } else {
                EmuView { pc: wrap16(s.pc - 2), ..s }
            },
        ),
        Instr::SetDelay { x } => Ok(EmuView { dt: s.v[x as int], ..s }),
        Instr::SetSound { x } => Ok(EmuView { st: s.v[x as int], ..s }),
        Instr::AddIndex { x } => Ok(
            EmuView { idx: wrap16(s.idx + s.v[x as int]), ..s },
        ),
        Instr::GlyphIndex { x } => Ok(
            EmuView { idx: ((s.v[x as int] & 0xF) * 5) as u16, ..s },
        ),
        Instr::StoreBcd { x } => if s.idx + 3 > 4096 {
            Err(EmuError::OutOfBounds)
        } else {
            let val = s.v[x as int] as int;
            Ok(
                EmuView {
                    ram: s.ram.update(s.idx as int, (val / 100) as u8).update(
                        s.idx + 1,
                        (val / 10 % 10) as u8,
                    ).update(s.idx + 2, (val % 10) as u8),
                    ..s
                },
            )
        },
        Instr::StoreRegs { x } => if s.idx + x + 1 > 4096 {
            Err(EmuError::OutOfBounds)
        } else {
            Ok(EmuView { ram: block_store(s.ram, s.idx as int, s.v, x + 1), ..s })
        },
        Instr::LoadRegs { x } => if s.idx + x + 1 > 4096 {
            Err(EmuError::OutOfBounds)
        } else {
            Ok(EmuView { v: block_load(s.v, s.ram, s.idx as int, x + 1), ..s })
        },
    }
}

/// What one instruction-clock tick does, related to the state before and
/// after: fetch the word at the program counter, classify it, advance past
/// it, apply the operation. `rb` witnesses the byte the random source
/// produced during the tick.
pub open spec fn tick_rel(
    pre: EmuView,
    post: EmuView,
    r: Result<(), EmuError>,
    rb: u8,
) -> bool {
    if pre.pc + 2 > 4096 {
        r == Err::<(), EmuError>(EmuError::OutOfBounds) && post == pre
    } else {
        match crate::decode::spec_decode(spec_word(pre.ram, pre.pc as int)) {
            None => r == Err::<(), EmuError>(EmuError::UnknownOpcode) && post == pre,
            Some(instr) => match spec_exec(advanced(pre), instr, rb) {
                Ok(s2) => r == Ok::<(), EmuError>(()) && post == s2,
                Err(e) => r == Err::<(), EmuError>(e) && post == advanced(pre),
            },
        }
    }
}

/// The effect of one decoded instruction, related to the state before and
/// after it: on success the state is the transition's result, on failure it
/// is untouched.
pub open spec fn exec_rel(
    pre: EmuView,
    instr: Instr,
    rb: u8,
    post: EmuView,
    r: Result<(), EmuError>,
) -> bool {
    match spec_exec(pre, instr, rb) {
        Ok(s2) => r == Ok::<(), EmuError>(()) && post == s2,
        Err(e) => r == Err::<(), EmuError>(e) && post == pre,
    }
}

} // verus!
