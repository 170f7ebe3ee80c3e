use chip8_core::Instr;
use chip8_core::decode;

#[test]
fn decode_classifies_each_family() {
    assert_eq!(decode(0x0000), Some(Instr::Nop));
    assert_eq!(decode(0x00E0), Some(Instr::ClearScreen));
    assert_eq!(decode(0x00EE), Some(Instr::Ret));
    assert_eq!(decode(0x1234), Some(Instr::Jump { nnn: 0x234 }));
    assert_eq!(decode(0x2ABC), Some(Instr::Call { nnn: 0xABC }));
    assert_eq!(decode(0x3A42), Some(Instr::SkipEqImm { x: 0xA, nn: 0x42 }));
    assert_eq!(decode(0x4A42), Some(Instr::SkipNeImm { x: 0xA, nn: 0x42 }));
    assert_eq!(decode(0x5AB0), Some(Instr::SkipEqReg { x: 0xA, y: 0xB }));
    assert_eq!(decode(0x6C07), Some(Instr::SetImm { x: 0xC, nn: 0x07 }));
    assert_eq!(decode(0x7C07), Some(Instr::AddImm { x: 0xC, nn: 0x07 }));
    assert_eq!(decode(0x8AB0), Some(Instr::Copy { x: 0xA, y: 0xB }));
    assert_eq!(decode(0x8AB1), Some(Instr::Or { x: 0xA, y: 0xB }));
    assert_eq!(decode(0x8AB2), Some(Instr::And { x: 0xA, y: 0xB }));
    assert_eq!(decode(0x8AB3), Some(Instr::Xor { x: 0xA, y: 0xB }));
    assert_eq!(decode(0x8AB4), Some(Instr::AddReg { x: 0xA, y: 0xB }));
    assert_eq!(decode(0x8AB5), Some(Instr::SubReg { x: 0xA, y: 0xB }));
    assert_eq!(decode(0x8AB6), Some(Instr::ShrReg { x: 0xA }));
    assert_eq!(decode(0x8AB7), Some(Instr::SubRev { x: 0xA, y: 0xB }));
    assert_eq!(decode(0x8ABE), Some(Instr::ShlReg { x: 0xA }));
    assert_eq!(decode(0x9AB0), Some(Instr::SkipNeReg { x: 0xA, y: 0xB }));
    assert_eq!(decode(0xA123), Some(Instr::SetIndex { nnn: 0x123 }));
    assert_eq!(decode(0xB123), Some(Instr::JumpV0 { nnn: 0x123 }));
    assert_eq!(decode(0xC577), Some(Instr::Random { x: 0x5, nn: 0x77 }));
    assert_eq!(decode(0xD7B3), Some(Instr::Draw { x: 0x7, y: 0xB, n: 0x3 }));
    assert_eq!(decode(0xE49E), Some(Instr::SkipKey { x: 0x4 }));
    assert_eq!(decode(0xE4A1), Some(Instr::SkipNoKey { x: 0x4 }));
    assert_eq!(decode(0xF207), Some(Instr::ReadDelay { x: 0x2 }));
    assert_eq!(decode(0xF20A), Some(Instr::WaitKey { x: 0x2 }));
    assert_eq!(decode(0xF215), Some(Instr::SetDelay { x: 0x2 }));
    assert_eq!(decode(0xF218), Some(Instr::SetSound { x: 0x2 }));
    assert_eq!(decode(0xF21E), Some(Instr::AddIndex { x: 0x2 }));
    assert_eq!(decode(0xF229), Some(Instr::GlyphIndex { x: 0x2 }));
    assert_eq!(decode(0xF233), Some(Instr::StoreBcd { x: 0x2 }));
    assert_eq!(decode(0xF255), Some(Instr::StoreRegs { x: 0x2 }));
    assert_eq!(decode(0xF265), Some(Instr::LoadRegs { x: 0x2 }));
}

#[test]
fn words_matching_no_pattern_decode_to_none() {
    assert_eq!(decode(0x0001), None); // family 0, no sub-pattern
    assert_eq!(decode(0x00E1), None);
    assert_eq!(decode(0x5AB1), None); // skip-equal needs a zero low nibble
    assert_eq!(decode(0x8AB8), None);
    assert_eq!(decode(0x9AB5), None);
    assert_eq!(decode(0xE4FF), None);
    assert_eq!(decode(0xF0FF), None);
    assert_eq!(decode(0xF256), None);
}
