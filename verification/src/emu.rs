//! The machine itself: the state store and the execution unit. Every method
//! is specified against the ghost view in [`crate::model`].

use vstd::prelude::*;

use crate::decode::Instr;
use crate::decode::decode;
use crate::decode::instr_wf;
use crate::font::font_seq;
use crate::font::write_font;
use crate::model::EmuError;
use crate::model::EmuView;
use crate::model::NUM_KEYS;
use crate::model::NUM_REGS;
use crate::model::RAM_SIZE;
use crate::model::SCREEN_HEIGHT;
use crate::model::SCREEN_WIDTH;
use crate::model::STACK_SIZE;
use crate::model::START_ADDR;
use crate::model::advanced;
use crate::model::any_key;
use crate::model::block_load;
use crate::model::block_store;
use crate::model::draw_row;
use crate::model::draw_sprite;
use crate::model::exec_rel;
use crate::model::lemma_wrap16_neg;
use crate::model::lemma_wrap16_range;
use crate::model::loaded_ram;
use crate::model::pixel_index;
use crate::model::spec_exec;
use crate::model::spec_word;
use crate::model::sprite_bit;
use crate::model::tick_rel;
use crate::model::view_wf;
use crate::model::with_reg;
use crate::model::wrap16;
use crate::rng::random_byte;

verus! {

/// The whole machine state: memory, registers, stack, framebuffer, keypad
/// and timers, exclusively owned by the host.
pub struct Emu {
    /// Program counter: address of the next instruction to fetch.
    pub pc: u16,
    /// The 4096 memory cells; the glyph set sits at the bottom, the program
    /// image from [`START_ADDR`] up.
    pub ram: Vec<u8>,
    /// The 64x32 framebuffer, row-major.
    pub screen: Vec<bool>,
    /// The 16 general registers; register 15 doubles as the flag.
    pub v_reg: Vec<u8>,
    /// The index register.
    pub i_reg: u16,
    /// Stack pointer: number of live call-stack entries.
    pub sp: u16,
    /// The 16 call-stack cells.
    pub stack: Vec<u16>,
    /// The 16 keypad cells, written only through [`Emu::keypress`].
    pub keys: Vec<bool>,
    /// Delay timer, decremented only by [`Emu::tick_timers`].
    pub dt: u8,
    /// Sound timer, decremented only by [`Emu::tick_timers`].
    pub st: u8,
}

impl View for Emu {
    type V = EmuView;

    open spec fn view(&self) -> EmuView {
        EmuView {
            pc: self.pc,
            ram: self.ram@,
            screen: self.screen@,
            v: self.v_reg@,
            idx: self.i_reg,
            sp: self.sp,
            stack: self.stack@,
            keys: self.keys@,
            dt: self.dt,
            st: self.st,
        }
    }
}

/// The state every freshly constructed or reset machine holds: glyph set in
/// low memory, program counter at the load address, everything else zeroed.
pub open spec fn initial_state() -> EmuView {
    EmuView {
        pc: 0x200,
        ram: font_seq() + Seq::new(4016, |i: int| 0u8),
        screen: Seq::new(2048, |i: int| false),
        v: Seq::new(16, |i: int| 0u8),
        idx: 0,
        sp: 0,
        stack: Seq::new(16, |i: int| 0u16),
        keys: Seq::new(16, |i: int| false),
        dt: 0,
        st: 0,
    }
}

/// A vector of `n` copies of `val`.
fn filled<T: Copy>(n: usize, val: T) -> (v: Vec<T>)
    ensures
        v@ == Seq::new(n as nat, |i: int| val),
{
    let mut v: Vec<T> = Vec::new();
    while v.len() < n
        invariant
            v@.len() <= n,
            forall|i: int| 0 <= i < v@.len() ==> v@[i] == val,
        decreases n - v@.len(),
    {
        v.push(val);
    }
    proof {
        assert(v@ =~= Seq::new(n as nat, |i: int| val));
    }
    v
}

impl Emu {
    /// The dimensions of every reachable machine state.
    pub open spec fn wf(&self) -> bool {
        view_wf(self@)
    }

    /// Construct a fresh machine: glyph set preloaded, everything else
    /// zeroed, program counter at the load address.
    pub fn new() -> (r: Emu)
        ensures
            r.wf(),
            r@ == initial_state(),
    {
        let mut ram = filled::<u8>(RAM_SIZE, 0);
        write_font(&mut ram);
        let e = Emu {
            pc: START_ADDR,
            ram,
            screen: filled::<bool>(SCREEN_WIDTH * SCREEN_HEIGHT, false),
            v_reg: filled::<u8>(NUM_REGS, 0),
            i_reg: 0,
            sp: 0,
            stack: filled::<u16>(STACK_SIZE, 0),
            keys: filled::<bool>(NUM_KEYS, false),
            dt: 0,
            st: 0,
        };
        proof {
            assert forall|i: int| 0 <= i < 4096 implies e@.ram[i] == initial_state().ram[i] by {
                if i < 80 {
                    assert(e@.ram.take(80)[i] == e@.ram[i]);
                } else {
                    assert(e@.ram.skip(80)[i - 80] == e@.ram[i]);
                }
            }
            assert(e@.ram =~= initial_state().ram);
            assert(e@ =~= initial_state());
        }
        e
    }

    /// Put the machine back into the state a fresh construction yields.
    pub fn reset(&mut self)
        ensures
            final(self).wf(),
            final(self)@ == initial_state(),
    {
        self.pc = START_ADDR;
        self.ram = filled::<u8>(RAM_SIZE, 0);
        write_font(&mut self.ram);
        self.screen = filled::<bool>(SCREEN_WIDTH * SCREEN_HEIGHT, false);
        self.v_reg = filled::<u8>(NUM_REGS, 0);
        self.i_reg = 0;
        self.sp = 0;
        self.stack = filled::<u16>(STACK_SIZE, 0);
        self.keys = filled::<bool>(NUM_KEYS, false);
        self.dt = 0;
        self.st = 0;
        proof {
            assert forall|i: int| 0 <= i < 4096 implies self@.ram[i] == initial_state().ram[i] by {
                if i < 80 {
                    assert(self@.ram.take(80)[i] == self@.ram[i]);
                } else {
                    assert(self@.ram.skip(80)[i - 80] == self@.ram[i]);
                }
            }
            assert(self@.ram =~= initial_state().ram);
            assert(self@ =~= initial_state());
        }
    }

    /// Copy a program image into memory starting at [`START_ADDR`]. An image
    /// longer than the space above the load address is rejected whole.
    pub fn load(&mut self, data: &[u8]) -> (r: Result<(), EmuError>)
        requires
            old(self).wf(),
        ensures
            final(self).wf(),
            data@.len() > 3584 ==> r == Err::<(), EmuError>(EmuError::ProgramTooLarge)
                && final(self)@ == old(self)@,
            data@.len() <= 3584 ==> r == Ok::<(), EmuError>(()) && final(self)@ == (EmuView {
                ram: loaded_ram(old(self)@.ram, data@),
                ..old(self)@
            }),
    {
        if data.len() > RAM_SIZE - START_ADDR as usize {
            return Err(EmuError::ProgramTooLarge);
        }
        let mut j: usize = 0;
        while j < data.len()
            invariant
                old(self).wf(),
                self.wf(),
                j <= data@.len() <= 3584,
                self.pc == old(self).pc,
                self.screen@ == old(self)@.screen,
                self.v_reg@ == old(self)@.v,
                self.i_reg == old(self).i_reg,
                self.sp == old(self).sp,
                self.stack@ == old(self)@.stack,
                self.keys@ == old(self)@.keys,
                self.dt == old(self).dt,
                self.st == old(self).st,
                forall|k: int| 0 <= k < j ==> self.ram@[0x200 + k] == data@[k],
                forall|k: int|
                    0 <= k < 4096 && !(0x200 <= k < 0x200 + j) ==> self.ram@[k] == old(self)@.ram[k],
            decreases data@.len() - j,
        {
            self.ram[START_ADDR as usize + j] = data[j];
            j += 1;
        }
        proof {
            assert(self@.ram =~= loaded_ram(old(self)@.ram, data@));
            assert(self@ =~= (EmuView { ram: loaded_ram(old(self)@.ram, data@), ..old(self)@ }));
        }
        Ok(())
    }

    /// Set one keypad cell; an index past the keypad is ignored.
    pub fn keypress(&mut self, idx: usize, pressed: bool)
        requires
            old(self).wf(),
        ensures
            final(self).wf(),
            idx < 16 ==> final(self)@ == (EmuView {
                keys: old(self)@.keys.update(idx as int, pressed),
                ..old(self)@
            }),
            idx >= 16 ==> final(self)@ == old(self)@,
    {
        if idx > NUM_KEYS - 1 {
            return ;
        }
        self.keys[idx] = pressed;
    }

    /// The framebuffer as a flat row-major slice of 2048 cells.
    pub fn get_display(&self) -> (r: &[bool])
        requires
            self.wf(),
        ensures
            r@ == self@.screen,
    {
        self.screen.as_slice()
    }

    /// Advance the two timers one step toward zero. The result is the sound
    /// edge: true exactly when this step moves the sound timer from 1 to 0.
    pub fn tick_timers(&mut self) -> (beep: bool)
        requires
            old(self).wf(),
        ensures
            final(self).wf(),
            final(self)@ == (EmuView {
                dt: if old(self).dt > 0 {
                    (old(self).dt - 1) as u8
                } else {
                    0u8
                },
                st: if old(self).st > 0 {
                    (old(self).st - 1) as u8
                } else {
                    0u8
                },
                ..old(self)@
            }),
            beep == (old(self).st == 1),
    {
        let beep = self.st == 1;
        if self.dt > 0 {
            self.dt = self.dt - 1;
        }
        if self.st > 0 {
            self.st = self.st - 1;
        }
        beep
    }

    /// Read the big-endian instruction word at the program counter. Fails
    /// when the word would run past the end of memory.
    pub fn fetch(&self) -> (r: Result<u16, EmuError>)
        requires
            self.wf(),
        ensures
            self.pc + 2 > 4096 ==> r == Err::<u16, EmuError>(EmuError::OutOfBounds),
            self.pc + 2 <= 4096 ==> r == Ok::<u16, EmuError>(
                spec_word(self@.ram, self.pc as int),
            ),
    {
        if self.pc > 4094 {
            return Err(EmuError::OutOfBounds);
        }
        let hi = self.ram[self.pc as usize] as u16;
        let lo = self.ram[self.pc as usize + 1] as u16;
        let w = (hi << 8) | lo;
        proof {
            assert((hi << 8) | lo == hi * 256 + lo) by (bit_vector)
                requires
                    hi < 256,
                    lo < 256,
            ;
        }
        Ok(w)
    }

    /// Push a return address; the caller rules out overflow.
    fn push(&mut self, val: u16)
        requires
            old(self).wf(),
            old(self).sp < 16,
        ensures
            final(self).wf(),
            final(self)@ == (EmuView {
                stack: old(self)@.stack.update(old(self).sp as int, val),
                sp: (old(self).sp + 1) as u16,
                ..old(self)@
            }),
    {
        self.stack[self.sp as usize] = val;
        self.sp = self.sp + 1;
    }

    /// Pop a return address; the caller rules out underflow.
    fn pop(&mut self) -> (r: u16)
        requires
            old(self).wf(),
            old(self).sp > 0,
        ensures
            final(self).wf(),
            r == old(self)@.stack[old(self).sp - 1],
            final(self)@ == (EmuView { sp: (old(self).sp - 1) as u16, ..old(self)@ }),
    {
        self.sp = self.sp - 1;
        self.stack[self.sp as usize]
    }

    /// Move the program counter past one instruction word, wrapping at 16
    /// bits: the extra advancement of the conditional-skip operations.
    fn skip_instr(&mut self)
        requires
            old(self).wf(),
        ensures
            final(self).wf(),
            final(self)@ == advanced(old(self)@),
    {
        proof {
            lemma_wrap16_range(old(self).pc + 2);
        }
        self.pc = self.pc.wrapping_add(2);
    }

    /// Clear the framebuffer.
    pub fn op_00e0(&mut self)
        requires
            old(self).wf(),
        ensures
            final(self).wf(),
            final(self)@ == (EmuView { screen: Seq::new(2048, |i: int| false), ..old(self)@ }),
    {
        self.screen = filled::<bool>(SCREEN_WIDTH * SCREEN_HEIGHT, false);
        proof {
            assert(self@ =~= (EmuView { screen: Seq::new(2048, |i: int| false), ..old(self)@ }));
        }
    }

    /// Return: pop the stack into the program counter.
    pub fn op_00ee(&mut self) -> (r: Result<(), EmuError>)
        requires
            old(self).wf(),
        ensures
            final(self).wf(),
            old(self).sp == 0 ==> r == Err::<(), EmuError>(EmuError::StackUnderflow) && final(self)@ == old(self)@,
            old(self).sp > 0 ==> r == Ok::<(), EmuError>(()) && final(self)@ == (EmuView {
                pc: old(self)@.stack[old(self).sp - 1],
                sp: (old(self).sp - 1) as u16,
                ..old(self)@
            }),
    {
        if self.sp == 0 {
            return Err(EmuError::StackUnderflow);
        }
        let addr = self.pop();
        self.pc = addr;
        Ok(())
    }

    /// Jump to `nnn`.
    pub fn op_1nnn(&mut self, nnn: u16)
        requires
            old(self).wf(),
        ensures
            final(self).wf(),
            final(self)@ == (EmuView { pc: nnn, ..old(self)@ }),
    {
        self.pc = nnn;
    }

    /// Call `nnn`: push the program counter, then jump.
    pub fn op_2nnn(&mut self, nnn: u16) -> (r: Result<(), EmuError>)
        requires
            old(self).wf(),
        ensures
            final(self).wf(),
            old(self).sp >= 16 ==> r == Err::<(), EmuError>(EmuError::StackOverflow) && final(self)@ == old(self)@,
            old(self).sp < 16 ==> r == Ok::<(), EmuError>(()) && final(self)@ == (EmuView {
                stack: old(self)@.stack.update(old(self).sp as int, old(self).pc),
                sp: (old(self).sp + 1) as u16,
                pc: nnn,
                ..old(self)@
            }),
    {
        if self.sp >= STACK_SIZE as u16 {
            return Err(EmuError::StackOverflow);
        }
        let here = self.pc;
        self.push(here);
        self.pc = nnn;
        Ok(())
    }

    /// Skip the next instruction if register `x` equals `nn`.
    pub fn op_3xnn(&mut self, x: u8, nn: u8)
        requires
            old(self).wf(),
            x < 16,
        ensures
            final(self).wf(),
            final(self)@ == if old(self)@.v[x as int] == nn {
                advanced(old(self)@)
            } else {
                old(self)@
            },
    {
        if self.v_reg[x as usize] == nn {
            self.skip_instr();
        }
    }

    /// Skip the next instruction if register `x` differs from `nn`.
    pub fn op_4xnn(&mut self, x: u8, nn: u8)
        requires
            old(self).wf(),
            x < 16,
        ensures
            final(self).wf(),
            final(self)@ == if old(self)@.v[x as int] != nn {
                advanced(old(self)@)
            } else {
                old(self)@
            },
    {
        if self.v_reg[x as usize] != nn {
            self.skip_instr();
        }
    }

    /// Skip the next instruction if registers `x` and `y` are equal.
    pub fn op_5xy0(&mut self, x: u8, y: u8)
        requires
            old(self).wf(),
            x < 16,
            y < 16,
        ensures
            final(self).wf(),
            final(self)@ == if old(self)@.v[x as int] == old(self)@.v[y as int] {
                advanced(old(self)@)
            } else {
                old(self)@
            },
    {
        if self.v_reg[x as usize] == self.v_reg[y as usize] {
            self.skip_instr();
        }
    }

    /// Set register `x` to `nn`.
    pub fn op_6xnn(&mut self, x: u8, nn: u8)
        requires
            old(self).wf(),
            x < 16,
        ensures
            final(self).wf(),
            final(self)@ == with_reg(old(self)@, x, nn),
    {
        self.v_reg[x as usize] = nn;
    }

    /// Add `nn` to register `x`, wrapping at 8 bits, flag untouched.
    pub fn op_7xnn(&mut self, x: u8, nn: u8)
        requires
            old(self).wf(),
            x < 16,
        ensures
            final(self).wf(),
            final(self)@ == with_reg(
                old(self)@,
                x,
                ((old(self)@.v[x as int] + nn) % 256) as u8,
            ),
    {
        let sum = self.v_reg[x as usize] as u16 + nn as u16;
        self.v_reg[x as usize] = (sum % 256) as u8;
    }

    /// Copy register `y` into register `x`.
    pub fn op_8xy0(&mut self, x: u8, y: u8)
        requires
            old(self).wf(),
            x < 16,
            y < 16,
        ensures
            final(self).wf(),
            final(self)@ == with_reg(old(self)@, x, old(self)@.v[y as int]),
    {
        self.v_reg[x as usize] = self.v_reg[y as usize];
    }

    /// Bitwise OR of registers `x` and `y` into `x`.
    pub fn op_8xy1(&mut self, x: u8, y: u8)
        requires
            old(self).wf(),
            x < 16,
            y < 16,
        ensures
            final(self).wf(),
            final(self)@ == with_reg(
                old(self)@,
                x,
                old(self)@.v[x as int] | old(self)@.v[y as int],
            ),
    {
        self.v_reg[x as usize] = self.v_reg[x as usize] | self.v_reg[y as usize];
    }

    /// Bitwise AND of registers `x` and `y` into `x`.
    pub fn op_8xy2(&mut self, x: u8, y: u8)
        requires
            old(self).wf(),
            x < 16,
            y < 16,
        ensures
            final(self).wf(),
            final(self)@ == with_reg(
                old(self)@,
                x,
                old(self)@.v[x as int] & old(self)@.v[y as int],
            ),
    {
        self.v_reg[x as usize] = self.v_reg[x as usize] & self.v_reg[y as usize];
    }

    /// Bitwise XOR of registers `x` and `y` into `x`.
    pub fn op_8xy3(&mut self, x: u8, y: u8)
        requires
            old(self).wf(),
            x < 16,
            y < 16,
        ensures
            final(self).wf(),
            final(self)@ == with_reg(
                old(self)@,
                x,
                old(self)@.v[x as int] ^ old(self)@.v[y as int],
            ),
    {
        self.v_reg[x as usize] = self.v_reg[x as usize] ^ self.v_reg[y as usize];
    }

    /// Add register `y` to register `x`; the flag register becomes the
    /// carry out of the 8-bit addition.
    pub fn op_8xy4(&mut self, x: u8, y: u8)
        requires
            old(self).wf(),
            x < 16,
            y < 16,
        ensures
            final(self).wf(),
            final(self)@ == (EmuView {
                v: old(self)@.v.update(
                    x as int,
                    ((old(self)@.v[x as int] + old(self)@.v[y as int]) % 256) as u8,
                ).update(
                    15,
                    if old(self)@.v[x as int] + old(self)@.v[y as int] >= 256 {
                        1u8
                    } else {
                        0u8
                    },
                ),
                ..old(self)@
            }),
    {
        let sum = self.v_reg[x as usize] as u16 + self.v_reg[y as usize] as u16;
        let carry: u8 = if sum >= 256 {
            1
        } else {
            0
        };
        self.v_reg[x as usize] = (sum % 256) as u8;
        self.v_reg[15] = carry;
    }

    /// Subtract register `y` from register `x`; the flag register becomes 1
    /// exactly when no borrow occurred.
    pub fn op_8xy5(&mut self, x: u8, y: u8)
        requires
            old(self).wf(),
            x < 16,
            y < 16,
        ensures
            final(self).wf(),
            final(self)@ == (EmuView {
                v: old(self)@.v.update(
                    x as int,
                    ((old(self)@.v[x as int] - old(self)@.v[y as int] + 256) % 256) as u8,
                ).update(
                    15,
                    if old(self)@.v[x as int] >= old(self)@.v[y as int] {
                        1u8
                    } else {
                        0u8
                    },
                ),
                ..old(self)@
            }),
    {
        let vx = self.v_reg[x as usize];
        let vy = self.v_reg[y as usize];
        let diff = (vx as u16 + 256 - vy as u16) % 256;
        let no_borrow: u8 = if vx >= vy {
            1
        } else {
            0
        };
        self.v_reg[x as usize] = diff as u8;
        self.v_reg[15] = no_borrow;
    }

    /// Shift register `x` right by one; the flag register becomes the bit
    /// shifted out.
    pub fn op_8xy6(&mut self, x: u8)
        requires
            old(self).wf(),
            x < 16,
        ensures
            final(self).wf(),
            final(self)@ == (EmuView {
                v: old(self)@.v.update(x as int, (old(self)@.v[x as int] / 2) as u8).update(
                    15,
                    (old(self)@.v[x as int] % 2) as u8,
                ),
                ..old(self)@
            }),
    {
        let vx = self.v_reg[x as usize];
        self.v_reg[x as usize] = vx / 2;
        self.v_reg[15] = vx % 2;
    }

    /// Set register `x` to register `y` minus register `x`; the flag
    /// register becomes 1 exactly when no borrow occurred.
    pub fn op_8xy7(&mut self, x: u8, y: u8)
        requires
            old(self).wf(),
            x < 16,
            y < 16,
        ensures
            final(self).wf(),
            final(self)@ == (EmuView {
                v: old(self)@.v.update(
                    x as int,
                    ((old(self)@.v[y as int] - old(self)@.v[x as int] + 256) % 256) as u8,
                ).update(
                    15,
                    if old(self)@.v[y as int] >= old(self)@.v[x as int] {
                        1u8
                    } else {
                        0u8
                    },
                ),
                ..old(self)@
            }),
    {
        let vx = self.v_reg[x as usize];
        let vy = self.v_reg[y as usize];
        let diff = (vy as u16 + 256 - vx as u16) % 256;
        let no_borrow: u8 = if vy >= vx {
            1
        } else {
            0
        };
        self.v_reg[x as usize] = diff as u8;
        self.v_reg[15] = no_borrow;
    }

    /// Shift register `x` left by one; the flag register becomes the bit
    /// shifted out.
    pub fn op_8xye(&mut self, x: u8)
        requires
            old(self).wf(),
            x < 16,
        ensures
            final(self).wf(),
            final(self)@ == (EmuView {
                v: old(self)@.v.update(
                    x as int,
                    (old(self)@.v[x as int] * 2 % 256) as u8,
                ).update(15, (old(self)@.v[x as int] / 128) as u8),
                ..old(self)@
            }),
    {
        let vx = self.v_reg[x as usize];
        let msb = vx / 128;
        self.v_reg[x as usize] = ((vx as u16 * 2) % 256) as u8;
        self.v_reg[15] = msb;
    }

    /// Skip the next instruction if registers `x` and `y` differ.
    pub fn op_9xy0(&mut self, x: u8, y: u8)
        requires
            old(self).wf(),
            x < 16,
            y < 16,
        ensures
            final(self).wf(),
            final(self)@ == if old(self)@.v[x as int] != old(self)@.v[y as int] {
                advanced(old(self)@)
            } else {
                old(self)@
            },
    {
        if self.v_reg[x as usize] != self.v_reg[y as usize] {
            self.skip_instr();
        }
    }

    /// Set the index register to `nnn`.
    pub fn op_annn(&mut self, nnn: u16)
        requires
            old(self).wf(),
        ensures
            final(self).wf(),
            final(self)@ == (EmuView { idx: nnn, ..old(self)@ }),
    {
        self.i_reg = nnn;
    }

    /// Jump to `nnn` plus register 0, wrapping at 16 bits.
    pub fn op_bnnn(&mut self, nnn: u16)
        requires
            old(self).wf(),
            nnn < 0x1000,
        ensures
            final(self).wf(),
            final(self)@ == (EmuView { pc: wrap16(old(self)@.v[0] + nnn), ..old(self)@ }),
    {
        proof {
            lemma_wrap16_range(old(self)@.v[0] + nnn);
        }
        self.pc = self.v_reg[0] as u16 + nnn;
    }

    /// Set register `x` to `rb` masked with `nn`: the deterministic tail of
    /// the masked-random operation, verified for every byte the random
    /// source can hand back.
    pub fn op_cxnn_with(&mut self, x: u8, nn: u8, rb: u8)
        requires
            old(self).wf(),
            x < 16,
        ensures
            final(self).wf(),
            final(self)@ == with_reg(old(self)@, x, rb & nn),
    {
        self.v_reg[x as usize] = rb & nn;
    }

    /// Set register `x` to a random byte masked with `nn`. Whatever the
    /// random source produces, the result is some byte masked with `nn`.
    pub fn op_cxnn(&mut self, x: u8, nn: u8)
        requires
            old(self).wf(),
            x < 16,
        ensures
            final(self).wf(),
            exists|rb: u8| final(self)@ == with_reg(old(self)@, x, rb & nn),
    {
        let rb = random_byte();
        self.op_cxnn_with(x, nn, rb);
        proof {
            assert(self@ == with_reg(old(self)@, x, rb & nn));
        }
    }

    /// Skip the next instruction if the key numbered by register `x` is
    /// pressed; a register value past the keypad is a fault.
    pub fn op_ex9e(&mut self, x: u8) -> (r: Result<(), EmuError>)
        requires
            old(self).wf(),
            x < 16,
        ensures
            final(self).wf(),
            old(self)@.v[x as int] >= 16 ==> r == Err::<(), EmuError>(EmuError::OutOfBounds)
                && final(self)@ == old(self)@,
            old(self)@.v[x as int] < 16 ==> r == Ok::<(), EmuError>(()) && final(self)@ == if old(self)@.keys[old(self)@.v[x as int] as int] {
                advanced(old(self)@)
            } else {
                old(self)@
            },
    {
        let vx = self.v_reg[x as usize];
        if vx >= NUM_KEYS as u8 {
            return Err(EmuError::OutOfBounds);
        }
        if self.keys[vx as usize] {
            self.skip_instr();
        }
        Ok(())
    }

    /// Skip the next instruction if the key numbered by register `x` is not
    /// pressed; a register value past the keypad is a fault.
    pub fn op_exa1(&mut self, x: u8) -> (r: Result<(), EmuError>)
        requires
            old(self).wf(),
            x < 16,
        ensures
            final(self).wf(),
            old(self)@.v[x as int] >= 16 ==> r == Err::<(), EmuError>(EmuError::OutOfBounds)
                && final(self)@ == old(self)@,
            old(self)@.v[x as int] < 16 ==> r == Ok::<(), EmuError>(()) && final(self)@ == if !old(self)@.keys[old(self)@.v[x as int] as int] {
                advanced(old(self)@)
            } else {
                old(self)@
            },
    {
        let vx = self.v_reg[x as usize];
        if vx >= NUM_KEYS as u8 {
            return Err(EmuError::OutOfBounds);
        }
        if !self.keys[vx as usize] {
            self.skip_instr();
        }
        Ok(())
    }

    /// Read the delay timer into register `x`.
    pub fn op_fx07(&mut self, x: u8)
        requires
            old(self).wf(),
            x < 16,
        ensures
            final(self).wf(),
            final(self)@ == with_reg(old(self)@, x, old(self).dt),
    {
        self.v_reg[x as usize] = self.dt;
    }

    /// Wait for a key: if no keypad cell is pressed, rewind the program
    /// counter so the instruction runs again on the next tick.
    pub fn op_fx0a(&mut self, x: u8)
        requires
            old(self).wf(),
            x < 16,
        ensures
            final(self).wf(),
            any_key(old(self)@.keys) ==> final(self)@ == old(self)@,
            !any_key(old(self)@.keys) ==> final(self)@ == (EmuView {
                pc: wrap16(old(self)@.pc - 2),
                ..old(self)@
            }),
    {
        let mut pressed = false;
        let mut i: usize = 0;
        while i < NUM_KEYS
            invariant
                old(self).wf(),
                self == old(self),
                i <= 16,
                pressed <==> exists|k: int| 0 <= k < i && old(self)@.keys[k],
            decreases 16 - i,
        {
            if self.keys[i] {
                pressed = true;
            }
            i += 1;
        }
        if !pressed {
            proof {
                if old(self).pc >= 2 {
                    lemma_wrap16_range(old(self).pc - 2);
                } else {
                    lemma_wrap16_neg(old(self).pc - 2);
                }
            }
            self.pc = self.pc.wrapping_sub(2);
        }
    }

    /// Write register `x` into the delay timer.
    pub fn op_fx15(&mut self, x: u8)
        requires
            old(self).wf(),
            x < 16,
        ensures
            final(self).wf(),
            final(self)@ == (EmuView { dt: old(self)@.v[x as int], ..old(self)@ }),
    {
        self.dt = self.v_reg[x as usize];
    }

    /// Write register `x` into the sound timer.
    pub fn op_fx18(&mut self, x: u8)
        requires
            old(self).wf(),
            x < 16,
        ensures
            final(self).wf(),
            final(self)@ == (EmuView { st: old(self)@.v[x as int], ..old(self)@ }),
    {
        self.st = self.v_reg[x as usize];
    }

    /// Add register `x` to the index register, wrapping at 16 bits.
    pub fn op_fx1e(&mut self, x: u8)
        requires
            old(self).wf(),
            x < 16,
        ensures
            final(self).wf(),
            final(self)@ == (EmuView {
                idx: wrap16(old(self)@.idx + old(self)@.v[x as int]),
                ..old(self)@
            }),
    {
        proof {
            lemma_wrap16_range(old(self)@.idx + old(self)@.v[x as int]);
        }
        self.i_reg = self.i_reg.wrapping_add(self.v_reg[x as usize] as u16);
    }

    /// Point the index register at the glyph for the low nibble of register
    /// `x`'s value: each glyph is 5 bytes, so the offset is that nibble
    /// times 5.
    pub fn op_fx29(&mut self, x: u8)
        requires
            old(self).wf(),
            x < 16,
        ensures
            final(self).wf(),
            final(self)@ == (EmuView {
                idx: ((old(self)@.v[x as int] & 0xF) * 5) as u16,
                ..old(self)@
            }),
    {
        let vx = self.v_reg[x as usize];
        let digit = vx & 0x0F;
        proof {
            assert(digit < 16) by (bit_vector)
                requires
                    digit == vx & 0x0F,
            ;
        }
        self.i_reg = digit as u16 * 5;
    }

    /// Store the three decimal digits of register `x` at the index register:
    /// hundreds, tens, ones.
    pub fn op_fx33(&mut self, x: u8) -> (r: Result<(), EmuError>)
        requires
            old(self).wf(),
            x < 16,
        ensures
            final(self).wf(),
            old(self).i_reg + 3 > 4096 ==> r == Err::<(), EmuError>(EmuError::OutOfBounds)
                && final(self)@ == old(self)@,
            old(self).i_reg + 3 <= 4096 ==> r == Ok::<(), EmuError>(()) && final(self)@
                == (EmuView {
                ram: old(self)@.ram.update(
                    old(self).i_reg as int,
                    (old(self)@.v[x as int] / 100) as u8,
                ).update(
                    old(self).i_reg + 1,
                    (old(self)@.v[x as int] / 10 % 10) as u8,
                ).update(old(self).i_reg + 2, (old(self)@.v[x as int] % 10) as u8),
                ..old(self)@
            }),
    {
        if self.i_reg as usize + 3 > RAM_SIZE {
            return Err(EmuError::OutOfBounds);
        }
        let vx = self.v_reg[x as usize];
        let i = self.i_reg as usize;
        self.ram[i] = vx / 100;
        self.ram[i + 1] = (vx / 10) % 10;
        self.ram[i + 2] = vx % 10;
        Ok(())
    }

    /// Draw an `n`-row sprite read from memory at the index register, at the
    /// coordinates held by registers `x` and `y`. Sprite bits are XORed onto
    /// the framebuffer, wrapping at the screen edges; the flag register
    /// reports whether any pixel went from set to unset.
    pub fn op_dxyn(&mut self, x: u8, y: u8, n: u8) -> (r: Result<(), EmuError>)
        requires
            old(self).wf(),
            x < 16,
            y < 16,
            n < 16,
        ensures
            final(self).wf(),
            old(self).i_reg + n > 4096 ==> r == Err::<(), EmuError>(EmuError::OutOfBounds)
                && final(self)@ == old(self)@,
            old(self).i_reg + n <= 4096 ==> r == Ok::<(), EmuError>(()) && ({
                let d = draw_sprite(
                    old(self)@.screen,
                    false,
                    old(self)@.ram,
                    old(self).i_reg as int,
                    old(self)@.v[x as int] as int,
                    old(self)@.v[y as int] as int,
                    n as int,
                );
                final(self)@ == (EmuView {
                    screen: d.0,
                    v: old(self)@.v.update(
                        15,
                        if d.1 {
                            1u8
                        } else {
                            0u8
                        },
                    ),
                    ..old(self)@
                })
            }),
    {
        if self.i_reg as usize + n as usize > RAM_SIZE {
            return Err(EmuError::OutOfBounds);
        }
        let x0 = self.v_reg[x as usize];
        let y0 = self.v_reg[y as usize];
        let ghost pre = self@;
        let mut flipped = false;
        let mut row: usize = 0;
        while row < n as usize
            invariant
                old(self).wf(),
                self.wf(),
                row <= n < 16,
                x0 == pre.v[x as int],
                y0 == pre.v[y as int],
                pre == old(self)@,
                self.i_reg as int + n <= 4096,
                self.pc == old(self).pc,
                self.ram@ == pre.ram,
                self.v_reg@ == pre.v,
                self.i_reg == old(self).i_reg,
                self.sp == old(self).sp,
                self.stack@ == pre.stack,
                self.keys@ == pre.keys,
                self.dt == old(self).dt,
                self.st == old(self).st,
                self.screen@ == draw_sprite(
                    pre.screen,
                    false,
                    pre.ram,
                    self.i_reg as int,
                    x0 as int,
                    y0 as int,
                    row as int,
                ).0,
                flipped == draw_sprite(
                    pre.screen,
                    false,
                    pre.ram,
                    self.i_reg as int,
                    x0 as int,
                    y0 as int,
                    row as int,
                ).1,
            decreases n as int - row,
        {
            let byte = self.ram[self.i_reg as usize + row];
            let ghost scr0 = self.screen@;
            let ghost flip0 = flipped;
            let mut col: u8 = 0;
            while col < 8
                invariant
                    old(self).wf(),
                    self.wf(),
                    col <= 8,
                    row < n < 16,
                    self.i_reg as int + n <= 4096,
                    byte == pre.ram[self.i_reg + row],
                    self.pc == old(self).pc,
                    self.ram@ == pre.ram,
                    self.v_reg@ == pre.v,
                    self.i_reg == old(self).i_reg,
                    self.sp == old(self).sp,
                    self.stack@ == pre.stack,
                    self.keys@ == pre.keys,
                    self.dt == old(self).dt,
                    self.st == old(self).st,
                    x0 < 256,
                    y0 < 256,
                    self.screen@ == draw_row(
                        scr0,
                        flip0,
                        x0 as int,
                        y0 as int,
                        byte,
                        row as int,
                        col as int,
                    ).0,
                    flipped == draw_row(
                        scr0,
                        flip0,
                        x0 as int,
                        y0 as int,
                        byte,
                        row as int,
                        col as int,
                    ).1,
                decreases 8 - col,
            {
                if byte & (0x80u8 >> col) != 0 {
                    let px = (x0 as usize + col as usize) % SCREEN_WIDTH;
                    let py = (y0 as usize + row) % SCREEN_HEIGHT;
                    let idx = px + SCREEN_WIDTH * py;
                    proof {
                        assert(idx == pixel_index(x0 as int, y0 as int, col as int, row as int));
                        assert(sprite_bit(byte, col as int));
                    }
                    let was = self.screen[idx];
                    flipped = flipped || was;
                    self.screen[idx] = !was;
                }
                col += 1;
            }
            row += 1;
            proof {
                assert(draw_sprite(
                    pre.screen,
                    false,
                    pre.ram,
                    self.i_reg as int,
                    x0 as int,
                    y0 as int,
                    row as int,
                ) == draw_row(scr0, flip0, x0 as int, y0 as int, byte, row - 1, 8));
            }
        }
        self.v_reg[15] = if flipped {
            1
        } else {
            0
        };
        Ok(())
    }

    /// Copy registers 0 through `x` into memory starting at the index
    /// register.
    pub fn op_fx55(&mut self, x: u8) -> (r: Result<(), EmuError>)
        requires
            old(self).wf(),
            x < 16,
        ensures
            final(self).wf(),
            old(self).i_reg + x + 1 > 4096 ==> r == Err::<(), EmuError>(EmuError::OutOfBounds)
                && final(self)@ == old(self)@,
            old(self).i_reg + x + 1 <= 4096 ==> r == Ok::<(), EmuError>(()) && final(self)@
                == (EmuView {
                ram: block_store(old(self)@.ram, old(self).i_reg as int, old(self)@.v, x + 1),
                ..old(self)@
            }),
    {
        if self.i_reg as usize + x as usize + 1 > RAM_SIZE {
            return Err(EmuError::OutOfBounds);
        }
        let mut k: usize = 0;
        while k <= x as usize
            invariant
                old(self).wf(),
                self.wf(),
                k <= x + 1,
                x < 16,
                self.i_reg as int + x + 1 <= 4096,
                self.pc == old(self).pc,
                self.screen@ == old(self)@.screen,
                self.v_reg@ == old(self)@.v,
                self.i_reg == old(self).i_reg,
                self.sp == old(self).sp,
                self.stack@ == old(self)@.stack,
                self.keys@ == old(self)@.keys,
                self.dt == old(self).dt,
                self.st == old(self).st,
                self.ram@ == block_store(
                    old(self)@.ram,
                    old(self).i_reg as int,
                    old(self)@.v,
                    k as int,
                ),
            decreases x as int + 1 - k,
        {
            self.ram[self.i_reg as usize + k] = self.v_reg[k];
            k += 1;
        }
        Ok(())
    }

    /// Copy memory starting at the index register into registers 0 through
    /// `x`.
    pub fn op_fx65(&mut self, x: u8) -> (r: Result<(), EmuError>)
        requires
            old(self).wf(),
            x < 16,
        ensures
            final(self).wf(),
            old(self).i_reg + x + 1 > 4096 ==> r == Err::<(), EmuError>(EmuError::OutOfBounds)
                && final(self)@ == old(self)@,
            old(self).i_reg + x + 1 <= 4096 ==> r == Ok::<(), EmuError>(()) && final(self)@
                == (EmuView {
                v: block_load(old(self)@.v, old(self)@.ram, old(self).i_reg as int, x + 1),
                ..old(self)@
            }),
    {
        if self.i_reg as usize + x as usize + 1 > RAM_SIZE {
            return Err(EmuError::OutOfBounds);
        }
        let mut k: usize = 0;
        while k <= x as usize
            invariant
                old(self).wf(),
                self.wf(),
                k <= x + 1,
                x < 16,
                self.i_reg as int + x + 1 <= 4096,
                self.pc == old(self).pc,
                self.screen@ == old(self)@.screen,
                self.ram@ == old(self)@.ram,
                self.i_reg == old(self).i_reg,
                self.sp == old(self).sp,
                self.stack@ == old(self)@.stack,
                self.keys@ == old(self)@.keys,
                self.dt == old(self).dt,
                self.st == old(self).st,
                self.v_reg@ == block_load(
                    old(self)@.v,
                    old(self)@.ram,
                    old(self).i_reg as int,
                    k as int,
                ),
            decreases x as int + 1 - k,
        {
            self.v_reg[k] = self.ram[self.i_reg as usize + k];
            k += 1;
        }
        Ok(())
    }

    /// Apply one decoded instruction to the machine: the dispatch table of
    /// the execution unit.
    pub fn execute(&mut self, instr: Instr) -> (r: Result<(), EmuError>)
        requires
            old(self).wf(),
            instr_wf(instr),
        ensures
            final(self).wf(),
            exists|rb: u8| exec_rel(old(self)@, instr, rb, final(self)@, r),
    {
        match instr {
            Instr::Nop => {
                proof {
                    assert(exec_rel(old(self)@, instr, 0u8, self@, Ok::<(), EmuError>(())));
                }
                Ok(())
            },
            Instr::ClearScreen => {
                self.op_00e0();
                proof {
                    assert(exec_rel(old(self)@, instr, 0u8, self@, Ok::<(), EmuError>(())));
                }
                Ok(())
            },
            Instr::Ret => {
                let r = self.op_00ee();
                proof {
                    assert(exec_rel(old(self)@, instr, 0u8, self@, r));
                }
                r
            },
            Instr::Jump { nnn } => {
                self.op_1nnn(nnn);
                proof {
                    assert(exec_rel(old(self)@, instr, 0u8, self@, Ok::<(), EmuError>(())));
                }
                Ok(())
            },
            Instr::Call { nnn } => {
                let r = self.op_2nnn(nnn);
                proof {
                    assert(exec_rel(old(self)@, instr, 0u8, self@, r));
                }
                r
            },
            Instr::SkipEqImm { x, nn } => {
                self.op_3xnn(x, nn);
                proof {
                    assert(exec_rel(old(self)@, instr, 0u8, self@, Ok::<(), EmuError>(())));
                }
                Ok(())
            },
            Instr::SkipNeImm { x, nn } => {
                self.op_4xnn(x, nn);
                proof {
                    assert(exec_rel(old(self)@, instr, 0u8, self@, Ok::<(), EmuError>(())));
                }
                Ok(())
            },
            Instr::SkipEqReg { x, y } => {
                self.op_5xy0(x, y);
                proof {
                    assert(exec_rel(old(self)@, instr, 0u8, self@, Ok::<(), EmuError>(())));
                }
                Ok(())
            },
            Instr::SetImm { x, nn } => {
                self.op_6xnn(x, nn);
                proof {
                    assert(exec_rel(old(self)@, instr, 0u8, self@, Ok::<(), EmuError>(())));
                }
                Ok(())
            },
            Instr::AddImm { x, nn } => {
                self.op_7xnn(x, nn);
                proof {
                    assert(exec_rel(old(self)@, instr, 0u8, self@, Ok::<(), EmuError>(())));
                }
                Ok(())
            },
            Instr::Copy { x, y } => {
                self.op_8xy0(x, y);
                proof {
                    assert(exec_rel(old(self)@, instr, 0u8, self@, Ok::<(), EmuError>(())));
                }
                Ok(())
            },
            Instr::Or { x, y } => {
                self.op_8xy1(x, y);
                proof {
                    assert(exec_rel(old(self)@, instr, 0u8, self@, Ok::<(), EmuError>(())));
                }
                Ok(())
            },
            Instr::And { x, y } => {
                self.op_8xy2(x, y);
                proof {
                    assert(exec_rel(old(self)@, instr, 0u8, self@, Ok::<(), EmuError>(())));
                }
                Ok(())
            },
            Instr::Xor { x, y } => {
                self.op_8xy3(x, y);
                proof {
                    assert(exec_rel(old(self)@, instr, 0u8, self@, Ok::<(), EmuError>(())));
                }
                Ok(())
            },
            Instr::AddReg { x, y } => {
                self.op_8xy4(x, y);
                proof {
                    assert(exec_rel(old(self)@, instr, 0u8, self@, Ok::<(), EmuError>(())));
                }
                Ok(())
            },
            Instr::SubReg { x, y } => {
                self.op_8xy5(x, y);
                proof {
                    assert(exec_rel(old(self)@, instr, 0u8, self@, Ok::<(), EmuError>(())));
                }
                Ok(())
            },
            Instr::ShrReg { x } => {
                self.op_8xy6(x);
                proof {
                    assert(exec_rel(old(self)@, instr, 0u8, self@, Ok::<(), EmuError>(())));
                }
                Ok(())
            },
            Instr::SubRev { x, y } => {
                self.op_8xy7(x, y);
                proof {
                    assert(exec_rel(old(self)@, instr, 0u8, self@, Ok::<(), EmuError>(())));
                }
                Ok(())
            },
            Instr::ShlReg { x } => {
                self.op_8xye(x);
                proof {
                    assert(exec_rel(old(self)@, instr, 0u8, self@, Ok::<(), EmuError>(())));
                }
                Ok(())
            },
            Instr::SkipNeReg { x, y } => {
                self.op_9xy0(x, y);
                proof {
                    assert(exec_rel(old(self)@, instr, 0u8, self@, Ok::<(), EmuError>(())));
                }
                Ok(())
            },
            Instr::SetIndex { nnn } => {
                self.op_annn(nnn);
                proof {
                    assert(exec_rel(old(self)@, instr, 0u8, self@, Ok::<(), EmuError>(())));
                }
                Ok(())
            },
            Instr::JumpV0 { nnn } => {
                self.op_bnnn(nnn);
                proof {
                    assert(exec_rel(old(self)@, instr, 0u8, self@, Ok::<(), EmuError>(())));
                }
                Ok(())
            },
            Instr::Random { x, nn } => {
                self.op_cxnn(x, nn);
                proof {
                    let rb = choose|rb: u8| self@ == with_reg(old(self)@, x, rb & nn);
                    assert(exec_rel(old(self)@, instr, rb, self@, Ok::<(), EmuError>(())));
                }
                Ok(())
            },
            Instr::Draw { x, y, n } => {
                let r = self.op_dxyn(x, y, n);
                proof {
                    assert(exec_rel(old(self)@, instr, 0u8, self@, r));
                }
                r
            },
            Instr::SkipKey { x } => {
                let r = self.op_ex9e(x);
                proof {
                    assert(exec_rel(old(self)@, instr, 0u8, self@, r));
                }
                r
            },
            Instr::SkipNoKey { x } => {
                let r = self.op_exa1(x);
                proof {
                    assert(exec_rel(old(self)@, instr, 0u8, self@, r));
                }
                r
            },
            Instr::ReadDelay { x } => {
                self.op_fx07(x);
                proof {
                    assert(exec_rel(old(self)@, instr, 0u8, self@, Ok::<(), EmuError>(())));
                }
                Ok(())
            },
            Instr::WaitKey { x } => {
                self.op_fx0a(x);
                proof {
                    assert(exec_rel(old(self)@, instr, 0u8, self@, Ok::<(), EmuError>(())));
                }
                Ok(())
            },
            Instr::SetDelay { x } => {
                self.op_fx15(x);
                proof {
                    assert(exec_rel(old(self)@, instr, 0u8, self@, Ok::<(), EmuError>(())));
                }
                Ok(())
            },
            Instr::SetSound { x } => {
                self.op_fx18(x);
                proof {
                    assert(exec_rel(old(self)@, instr, 0u8, self@, Ok::<(), EmuError>(())));
                }
                Ok(())
            },
            Instr::AddIndex { x } => {
                self.op_fx1e(x);
                proof {
                    assert(exec_rel(old(self)@, instr, 0u8, self@, Ok::<(), EmuError>(())));
                }
                Ok(())
            },
            Instr::GlyphIndex { x } => {
                self.op_fx29(x);
                proof {
                    assert(exec_rel(old(self)@, instr, 0u8, self@, Ok::<(), EmuError>(())));
                }
                Ok(())
            },
            Instr::StoreBcd { x } => {
                let r = self.op_fx33(x);
                proof {
                    assert(exec_rel(old(self)@, instr, 0u8, self@, r));
                }
                r
            },
            Instr::StoreRegs { x } => {
                let r = self.op_fx55(x);
                proof {
                    assert(exec_rel(old(self)@, instr, 0u8, self@, r));
                }
                r
            },
            Instr::LoadRegs { x } => {
                let r = self.op_fx65(x);
                proof {
                    assert(exec_rel(old(self)@, instr, 0u8, self@, r));
                }
                r
            },
        }
    }

    /// One instruction-clock tick: fetch the word at the program counter,
    /// classify it, advance past it, apply its effect. A word matching no
    /// pattern, a fetch past the end of memory, or an instruction whose own
    /// semantics fault, surface as an error instead of corrupting state.
    pub fn tick(&mut self) -> (r: Result<(), EmuError>)
        requires
            old(self).wf(),
        ensures
            final(self).wf(),
            exists|rb: u8| tick_rel(old(self)@, final(self)@, r, rb),
    {
        let w = match self.fetch() {
            Ok(w) => w,
            Err(e) => {
                proof {
                    assert(tick_rel(old(self)@, self@, Err::<(), EmuError>(e), 0u8));
                }
                return Err(e);
            },
        };
        let instr = match decode(w) {
            Some(instr) => instr,
            None => {
                proof {
                    assert(tick_rel(
                        old(self)@,
                        self@,
                        Err::<(), EmuError>(EmuError::UnknownOpcode),
                        0u8,
                    ));
                }
                return Err(EmuError::UnknownOpcode);
            },
        };
        self.pc = self.pc + 2;
        proof {
            lemma_wrap16_range(old(self).pc + 2);
            assert(self@ == advanced(old(self)@));
        }
        let r = self.execute(instr);
        proof {
            let rb = choose|rb: u8| exec_rel(advanced(old(self)@), instr, rb, self@, r);
            assert(tick_rel(old(self)@, self@, r, rb));
        }
        r
    }
}

} // verus!
