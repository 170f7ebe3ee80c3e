//! Instruction decoding: classifies a 16-bit instruction word into one of the
//! 35 operations of the machine by its four nibbles. Decoding is pure; a word
//! that matches no pattern decodes to `None`.

use vstd::prelude::*;

verus! {

/// One decoded operation. Field naming follows the instruction-word layout:
/// `x` and `y` are the second and third nibbles (register indices), `nn` the
/// low byte, `nnn` the low 12 bits (an address), `n` the low nibble.
#[derive(Clone, Copy, Debug, PartialEq, Eq, Structural)]
pub enum Instr {
    /// 0000: no operation.
    Nop,
    /// 00E0: set every framebuffer cell to false.
    ClearScreen,
    /// 00EE: pop the stack into the program counter.
    Ret,
    /// 1NNN: set the program counter to `nnn`.
    Jump { nnn: u16 },
    /// 2NNN: push the program counter, then set it to `nnn`.
    Call { nnn: u16 },
    /// 3XNN: skip the next instruction if register `x` equals `nn`.
    SkipEqImm { x: u8, nn: u8 },
    /// 4XNN: skip the next instruction if register `x` differs from `nn`.
    SkipNeImm { x: u8, nn: u8 },
    /// 5XY0: skip the next instruction if registers `x` and `y` are equal.
    SkipEqReg { x: u8, y: u8 },
    /// 6XNN: set register `x` to `nn`.
    SetImm { x: u8, nn: u8 },
    /// 7XNN: add `nn` to register `x`, wrapping, flag untouched.
    AddImm { x: u8, nn: u8 },
    /// 8XY0: copy register `y` into register `x`.
    Copy { x: u8, y: u8 },
    /// 8XY1: bitwise OR of registers `x` and `y` into `x`.
    Or { x: u8, y: u8 },
    /// 8XY2: bitwise AND of registers `x` and `y` into `x`.
    And { x: u8, y: u8 },
    /// 8XY3: bitwise XOR of registers `x` and `y` into `x`.
    Xor { x: u8, y: u8 },
    /// 8XY4: add register `y` to register `x`; flag register is the carry.
    AddReg { x: u8, y: u8 },
    /// 8XY5: subtract register `y` from `x`; flag register is 1 if no borrow.
    SubReg { x: u8, y: u8 },
    /// 8XY6: shift register `x` right by one; flag register is the old low bit.
    ShrReg { x: u8 },
    /// 8XY7: set register `x` to `y - x`; flag register is 1 if no borrow.
    SubRev { x: u8, y: u8 },
    /// 8XYE: shift register `x` left by one; flag register is the old high bit.
    ShlReg { x: u8 },
    /// 9XY0: skip the next instruction if registers `x` and `y` differ.
    SkipNeReg { x: u8, y: u8 },
    /// ANNN: set the index register to `nnn`.
    SetIndex { nnn: u16 },
    /// BNNN: jump to `nnn` plus register 0, wrapping at 16 bits.
    JumpV0 { nnn: u16 },
    /// CXNN: set register `x` to a random byte masked with `nn`.
    Random { x: u8, nn: u8 },
    /// DXYN: draw an `n`-row sprite from the index register at the
    /// coordinates held by registers `x` and `y`; flag register reports
    /// whether any pixel was turned off.
    Draw { x: u8, y: u8, n: u8 },
    /// EX9E: skip the next instruction if the key numbered by register `x`
    /// is pressed.
    SkipKey { x: u8 },
    /// EXA1: skip the next instruction if the key numbered by register `x`
    /// is not pressed.
    SkipNoKey { x: u8 },
    /// FX07: read the delay timer into register `x`.
    ReadDelay { x: u8 },
    /// FX0A: if no key is pressed, rewind the program counter so this
    /// instruction executes again on the next tick.
    WaitKey { x: u8 },
    /// FX15: write register `x` into the delay timer.
    SetDelay { x: u8 },
    /// FX18: write register `x` into the sound timer.
    SetSound { x: u8 },
    /// FX1E: add register `x` to the index register, wrapping at 16 bits.
    AddIndex { x: u8 },
    /// FX29: point the index register at the glyph for the low nibble of
    /// register `x`'s value (each glyph is 5 bytes, so the offset is that
    /// nibble times 5).
    GlyphIndex { x: u8 },
    /// FX33: store the decimal digits of register `x` at the index register.
    StoreBcd { x: u8 },
    /// FX55: copy registers 0..=`x` into memory at the index register.
    StoreRegs { x: u8 },
    /// FX65: copy memory at the index register into registers 0..=`x`.
    LoadRegs { x: u8 },
}

/// Every register index a decoded instruction carries is a nibble, every
/// address is 12 bits, every sprite height a nibble.
pub open spec fn instr_wf(instr: Instr) -> bool {
    match instr {
        Instr::Nop => true,
        Instr::ClearScreen => true,
        Instr::Ret => true,
        Instr::Jump { nnn } => nnn < 0x1000,
        Instr::Call { nnn } => nnn < 0x1000,
        Instr::SkipEqImm { x, nn } => x < 16,
        Instr::SkipNeImm { x, nn } => x < 16,
        Instr::SkipEqReg { x, y } => x < 16 && y < 16,
        Instr::SetImm { x, nn } => x < 16,
        Instr::AddImm { x, nn } => x < 16,
        Instr::Copy { x, y } => x < 16 && y < 16,
        Instr::Or { x, y } => x < 16 && y < 16,
        Instr::And { x, y } => x < 16 && y < 16,
        Instr::Xor { x, y } => x < 16 && y < 16,
        Instr::AddReg { x, y } => x < 16 && y < 16,
        Instr::SubReg { x, y } => x < 16 && y < 16,
        Instr::ShrReg { x } => x < 16,
        Instr::SubRev { x, y } => x < 16 && y < 16,
        Instr::ShlReg { x } => x < 16,
        Instr::SkipNeReg { x, y } => x < 16 && y < 16,
        Instr::SetIndex { nnn } => nnn < 0x1000,
        Instr::JumpV0 { nnn } => nnn < 0x1000,
        Instr::Random { x, nn } => x < 16,
        Instr::Draw { x, y, n } => x < 16 && y < 16 && n < 16,
        Instr::SkipKey { x } => x < 16,
        Instr::SkipNoKey { x } => x < 16,
        Instr::ReadDelay { x } => x < 16,
        Instr::WaitKey { x } => x < 16,
        Instr::SetDelay { x } => x < 16,
        Instr::SetSound { x } => x < 16,
        Instr::AddIndex { x } => x < 16,
        Instr::GlyphIndex { x } => x < 16,
        Instr::StoreBcd { x } => x < 16,
        Instr::StoreRegs { x } => x < 16,
        Instr::LoadRegs { x } => x < 16,
    }
}

/// The nibble-pattern classification of an instruction word, written over the
/// same field extractions the executable decoder performs.
pub open spec fn spec_decode(op: u16) -> Option<Instr> {
    let d1 = (op >> 12) & 0xF;
    let d2 = (op >> 8) & 0xF;
    let d3 = (op >> 4) & 0xF;
    let d4 = op & 0xF;
    let x = ((op >> 8) & 0xF) as u8;
    let y = ((op >> 4) & 0xF) as u8;
    let nn = (op & 0xFF) as u8;
    let nnn = op & 0xFFF;
    let n = (op & 0xF) as u8;
    if op == 0x0000 {
        Some(Instr::Nop)
    } else if op == 0x00E0 {
        Some(Instr::ClearScreen)
    } else if op == 0x00EE {
        Some(Instr::Ret)
    } else if d1 == 0x1 {
        Some(Instr::Jump { nnn })
    } else if d1 == 0x2 {
        Some(Instr::Call { nnn })
    } else if d1 == 0x3 {
        Some(Instr::SkipEqImm { x, nn })
    } else if d1 == 0x4 {
        Some(Instr::SkipNeImm { x, nn })
    } else if d1 == 0x5 && d4 == 0x0 {
        Some(Instr::SkipEqReg { x, y })
    } else if d1 == 0x6 {
        Some(Instr::SetImm { x, nn })
    } else if d1 == 0x7 {
        Some(Instr::AddImm { x, nn })
    } else if d1 == 0x8 && d4 == 0x0 {
        Some(Instr::Copy { x, y })
    } else if d1 == 0x8 && d4 == 0x1 {
        Some(Instr::Or { x, y })
    } else if d1 == 0x8 && d4 == 0x2 {
        Some(Instr::And { x, y })
    } else if d1 == 0x8 && d4 == 0x3 {
        Some(Instr::Xor { x, y })
    } else if d1 == 0x8 && d4 == 0x4 {
        Some(Instr::AddReg { x, y })
    } else if d1 == 0x8 && d4 == 0x5 {
        Some(Instr::SubReg { x, y })
    } else if d1 == 0x8 && d4 == 0x6 {
        Some(Instr::ShrReg { x })
    } else if d1 == 0x8 && d4 == 0x7 {
        Some(Instr::SubRev { x, y })
    } else if d1 == 0x8 && d4 == 0xE {
        Some(Instr::ShlReg { x })
    } else if d1 == 0x9 && d4 == 0x0 {
        Some(Instr::SkipNeReg { x, y })
    } else if d1 == 0xA {
        Some(Instr::SetIndex { nnn })
    } else if d1 == 0xB {
        Some(Instr::JumpV0 { nnn })
    } else if d1 == 0xC {
        Some(Instr::Random { x, nn })
    } else if d1 == 0xD {
        Some(Instr::Draw { x, y, n })
    } else if d1 == 0xE && d3 == 0x9 && d4 == 0xE {
        Some(Instr::SkipKey { x })
    } else if d1 == 0xE && d3 == 0xA && d4 == 0x1 {
        Some(Instr::SkipNoKey { x })
    } else if d1 == 0xF && d3 == 0x0 && d4 == 0x7 {
        Some(Instr::ReadDelay { x })
    } else if d1 == 0xF && d3 == 0x0 && d4 == 0xA {
        Some(Instr::WaitKey { x })
    } else if d1 == 0xF && d3 == 0x1 && d4 == 0x5 {
        Some(Instr::SetDelay { x })
    } else if d1 == 0xF && d3 == 0x1 && d4 == 0x8 {
        Some(Instr::SetSound { x })
    } else if d1 == 0xF && d3 == 0x1 && d4 == 0xE {
        Some(Instr::AddIndex { x })
    } else if d1 == 0xF && d3 == 0x2 && d4 == 0x9 {
        Some(Instr::GlyphIndex { x })
    } else if d1 == 0xF && d3 == 0x3 && d4 == 0x3 {
        Some(Instr::StoreBcd { x })
    } else if d1 == 0xF && d3 == 0x5 && d4 == 0x5 {
        Some(Instr::StoreRegs { x })
    } else if d1 == 0xF && d3 == 0x6 && d4 == 0x5 {
        Some(Instr::LoadRegs { x })
    } else {
        None
    }
}

/// A decoded instruction always carries in-range fields.
pub proof fn lemma_decode_wf(op: u16)
    ensures
        spec_decode(op) matches Some(instr) ==> instr_wf(instr),
{
    assert((((op >> 8) & 0xF) as u8) < 16) by (bit_vector);
    assert((((op >> 4) & 0xF) as u8) < 16) by (bit_vector);
    assert(((op & 0xF) as u8) < 16) by (bit_vector);
    assert((op & 0xFFF) < 0x1000) by (bit_vector);
}

/// Classify a 16-bit instruction word. Returns `None` exactly on the words
/// that match no operation pattern.
pub fn decode(op: u16) -> (r: Option<Instr>)
    ensures
        r == spec_decode(op),
        r matches Some(instr) ==> instr_wf(instr),
{
    proof {
        lemma_decode_wf(op);
    }
    let d1 = (op >> 12) & 0xF;
    let d3 = (op >> 4) & 0xF;
    let d4 = op & 0xF;
    let x = ((op >> 8) & 0xF) as u8;
    let y = ((op >> 4) & 0xF) as u8;
    let nn = (op & 0xFF) as u8;
    let nnn = op & 0xFFF;
    let n = (op & 0xF) as u8;
    if op == 0x0000 {
        Some(Instr::Nop)
    } else if op == 0x00E0 {
        Some(Instr::ClearScreen)
    } else if op == 0x00EE {
        Some(Instr::Ret)
    } else if d1 == 0x1 {
        Some(Instr::Jump { nnn })
    } else if d1 == 0x2 {
        Some(Instr::Call { nnn })
    } else if d1 == 0x3 {
        Some(Instr::SkipEqImm { x, nn })
    } else if d1 == 0x4 {
        Some(Instr::SkipNeImm { x, nn })
    } else if d1 == 0x5 && d4 == 0x0 {
        Some(Instr::SkipEqReg { x, y })
    } else if d1 == 0x6 {
        Some(Instr::SetImm { x, nn })
    } else if d1 == 0x7 {
        Some(Instr::AddImm { x, nn })
    } else if d1 == 0x8 && d4 == 0x0 {
        Some(Instr::Copy { x, y })
    } else if d1 == 0x8 && d4 == 0x1 {
        Some(Instr::Or { x, y })
    } else if d1 == 0x8 && d4 == 0x2 {
        Some(Instr::And { x, y })
    } else if d1 == 0x8 && d4 == 0x3 {
        Some(Instr::Xor { x, y })
    } else if d1 == 0x8 && d4 == 0x4 {
        Some(Instr::AddReg { x, y })
    } else if d1 == 0x8 && d4 == 0x5 {
        Some(Instr::SubReg { x, y })
    } else if d1 == 0x8 && d4 == 0x6 {
        Some(Instr::ShrReg { x })
    } else if d1 == 0x8 && d4 == 0x7 {
        Some(Instr::SubRev { x, y })
    } else if d1 == 0x8 && d4 == 0xE {
        Some(Instr::ShlReg { x })
    } else if d1 == 0x9 && d4 == 0x0 {
        Some(Instr::SkipNeReg { x, y })
    } else if d1 == 0xA {
        Some(Instr::SetIndex { nnn })
    } else if d1 == 0xB {
        Some(Instr::JumpV0 { nnn })
    } else if d1 == 0xC {
        Some(Instr::Random { x, nn })
    } else if d1 == 0xD {
        Some(Instr::Draw { x, y, n })
    } else if d1 == 0xE && d3 == 0x9 && d4 == 0xE {
        Some(Instr::SkipKey { x })
    } else if d1 == 0xE && d3 == 0xA && d4 == 0x1 {
        Some(Instr::SkipNoKey { x })
    } else if d1 == 0xF && d3 == 0x0 && d4 == 0x7 {
        Some(Instr::ReadDelay { x })
    } else if d1 == 0xF && d3 == 0x0 && d4 == 0xA {
        Some(Instr::WaitKey { x })
    } else if d1 == 0xF && d3 == 0x1 && d4 == 0x5 {
        Some(Instr::SetDelay { x })
    } else if d1 == 0xF && d3 == 0x1 && d4 == 0x8 {
        Some(Instr::SetSound { x })
    } else if d1 == 0xF && d3 == 0x1 && d4 == 0xE {
        Some(Instr::AddIndex { x })
    } else if d1 == 0xF && d3 == 0x2 && d4 == 0x9 {
        Some(Instr::GlyphIndex { x })
    } else if d1 == 0xF && d3 == 0x3 && d4 == 0x3 {
        Some(Instr::StoreBcd { x })
    } else if d1 == 0xF && d3 == 0x5 && d4 == 0x5 {
        Some(Instr::StoreRegs { x })
    } else if d1 == 0xF && d3 == 0x6 && d4 == 0x5 {
        Some(Instr::LoadRegs { x })
    } else {
        None
    }
}

} // verus!
