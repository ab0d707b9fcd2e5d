use vstd::prelude::*;
use crate::cycle::loaded_memory;
use crate::fault::{Fault, LoadError};
use crate::font::CHIP8_FONTSET;
use crate::instruction::{decode, Instruction};
use crate::machine::{
    first_pressed, first_pressed_from, op_x, op_y, skip_len, sprite_bit, Machine,
};
use crate::random::random_byte;

verus! {

/// The interpreter: registers, memory, call stack, timers, keypad and
/// screen of one machine.
#[derive(Debug)]
pub struct Chip8 {
    opcode: u16,
    memory: [u8; 4096],
    v: [u8; 16],
    i: u16,
    pc: u16,
    gfx: [[u8; 64]; 32],
    delay_timer: u8,
    sound_timer: u8,
    stack: [u16; 16],
    sp: u8,
    keys: [u8; 16],
    screen_updated: bool,
}

impl View for Chip8 {
    type V = Machine;

    closed spec fn view(&self) -> Machine {
        Machine {
            opcode: self.opcode,
            memory: self.memory@,
            v: self.v@,
            i: self.i,
            pc: self.pc,
            screen: Seq::new(32, |r: int| Seq::new(64, |c: int| self.gfx[r][c] != 0u8)),
            delay_timer: self.delay_timer,
            sound_timer: self.sound_timer,
            stack: self.stack@,
            sp: self.sp,
            keys: Seq::new(16, |k: int| self.keys[k] != 0u8),
            display_changed: self.screen_updated,
        }
    }
}

impl Chip8 {
    /// What the fields keep beyond the model: a pixel is stored as 0 or 1.
    pub closed spec fn pixels_are_bits(&self) -> bool {
        forall|r: int, c: int| 0 <= r < 32 && 0 <= c < 64 ==> (#[trigger] self.gfx[r][c]) <= 1
    }

    /// The invariant of the interpreter, which `new` sets up and every
    /// method keeps.
    pub open spec fn wf(&self) -> bool {
        &&& self@.wf()
        &&& self.pixels_are_bits()
    }

    /// A machine after power-on: the glyphs in memory, the counter at the
    /// program start, everything else zero.
    pub fn new() -> (c8: Chip8)
        ensures
            c8.wf(),
            c8@ == Machine::initial(),
    {
        let mut c8 = Chip8 {
            opcode: 0,
            memory: [0; 4096],
            v: [0; 16],
            i: 0,
            pc: 0x200,
            gfx: [[0; 64]; 32],
            delay_timer: 0,
            sound_timer: 0,
            stack: [0; 16],
            sp: 0,
            keys: [0; 16],
            screen_updated: false,
        };
        let mut k: usize = 0;
        while k < 80
            invariant
                k <= 80,
                c8.opcode == 0,
                c8.i == 0,
                c8.pc == 0x200,
                c8.delay_timer == 0,
                c8.sound_timer == 0,
                c8.sp == 0,
                !c8.screen_updated,
                forall|a: int| 0 <= a < 16 ==> c8.v[a] == 0,
                forall|a: int| 0 <= a < 16 ==> c8.stack[a] == 0,
                forall|a: int| 0 <= a < 16 ==> c8.keys[a] == 0,
                forall|r: int, c: int| 0 <= r < 32 && 0 <= c < 64 ==> c8.gfx[r][c] == 0,
                forall|a: int| 0 <= a < k ==> c8.memory[a] == CHIP8_FONTSET[a],
                forall|a: int| k <= a < 4096 ==> c8.memory[a] == 0,
            decreases 80 - k,
        {
            c8.memory[k] = CHIP8_FONTSET[k];
            k += 1;
        }
        assert(c8@ =~~= Machine::initial());
        c8
    }

    /// Reports whether the screen was written since the last call, and
    /// forgets it.
    pub fn draw_flag(&mut self) -> (changed: bool)
        requires
            old(self).wf(),
        ensures
            final(self).wf(),
            changed == old(self)@.display_changed,
            final(self)@ == (Machine { display_changed: false, ..old(self)@ }),
    {
        if self.screen_updated {
            self.screen_updated = false;
            return true;
        }
        false
    }

    /// Replaces the keypad's state: key `k` is held down where `keys[k]` is
    /// not zero.
    pub fn set_keys(&mut self, keys: &[u8; 16])
        requires
            old(self).wf(),
        ensures
            final(self).wf(),
            final(self)@ == (Machine {
                keys: Seq::new(16, |k: int| keys[k] != 0u8),
                ..old(self)@
            }),
    {
        let mut k: usize = 0;
        while k < 16
            invariant
                k <= 16,
                self.wf(),
                forall|a: int| 0 <= a < k ==> self.keys[a] == keys[a],
                self@ == (Machine { keys: self@.keys, ..old(self)@ }),
            decreases 16 - k,
        {
            self.keys[k] = keys[k];
            k += 1;
        }
    }

    /// Writes the flag register, then register `x`.
    fn set_flag_and_register(&mut self, flag: u8, x: usize, value: u8)
        requires
            old(self).wf(),
            x < 16,
        ensures
            final(self).wf(),
            final(self)@ == old(self)@.with_flag_and_register(flag, x as int, value),
    {
        self.v[0xF] = flag;
        self.v[x] = value;
    }

    /// 00EE: leaves a subroutine. With the stack pointer at the bottom the
    /// pointer stays where it is.
    pub fn return_subroutine(&mut self)
        requires
            old(self).wf(),
        ensures
            final(self).wf(),
            final(self)@ == old(self)@.return_subroutine(),
    {
        self.pc = self.stack[self.sp as usize];
        if self.sp > 0 {
            self.sp -= 1;
        }
    }

    /// 2NNN: calls the subroutine at `nnn`.
    pub fn call_subroutine_at_nnn(&mut self, nnn: &u16)
        requires
            old(self).wf(),
            old(self)@.sp < 15,
            old(self)@.pc + 2 <= u16::MAX,
        ensures
            final(self).wf(),
            final(self)@ == old(self)@.call_subroutine(*nnn),
    {
        self.sp += 1;
        self.stack[self.sp as usize] = self.pc + 2;
        self.pc = *nnn;
    }

    /// 3XNN: skips the next instruction if `V[x] == nn`.
    pub fn skip_if_vx_equals_nn(&mut self, x: &u8, nn: &u8)
        requires
            old(self).wf(),
            *x < 16,
            old(self)@.pc + skip_len(old(self)@.v[*x as int] == *nn) <= u16::MAX,
        ensures
            final(self).wf(),
            final(self)@ == old(self)@.skip_if(old(self)@.v[*x as int] == *nn),
    {
        if self.v[*x as usize] == *nn {
            self.pc += 2;
        }
        self.pc += 2;
    }

    /// 4XNN: skips the next instruction if `V[x] != nn`.
    pub fn skip_if_vx_not_equal_nn(&mut self, x: &u8, nn: &u8)
        requires
            old(self).wf(),
            *x < 16,
            old(self)@.pc + skip_len(old(self)@.v[*x as int] != *nn) <= u16::MAX,
        ensures
            final(self).wf(),
            final(self)@ == old(self)@.skip_if(old(self)@.v[*x as int] != *nn),
    {
        if self.v[*x as usize] != *nn {
            self.pc += 2;
        }
        self.pc += 2;
    }

    /// 5XY0: skips the next instruction if `V[x] == V[y]`.
    pub fn skip_if_vx_equals_vy(&mut self, x: &u8, y: &u8)
        requires
            old(self).wf(),
            *x < 16,
            *y < 16,
            old(self)@.pc + skip_len(old(self)@.v[*x as int] == old(self)@.v[*y as int])
                <= u16::MAX,
        ensures
            final(self).wf(),
            final(self)@ == old(self)@.skip_if(
                old(self)@.v[*x as int] == old(self)@.v[*y as int],
            ),
    {
        if self.v[*x as usize] == self.v[*y as usize] {
            self.pc += 2;
        }
        self.pc += 2;
    }

    /// 6XNN: `V[x] = nn`.
    pub fn vx_equals_nn(&mut self, x: &u8, nn: &u8)
        requires
            old(self).wf(),
            *x < 16,
            old(self)@.pc + 2 <= u16::MAX,
        ensures
            final(self).wf(),
            final(self)@ == old(self)@.load_immediate(*x as int, *nn),
    {
        self.v[*x as usize] = *nn;
        self.pc += 2;
    }

    /// 7XNN: `V[x] += nn` modulo 256. The flag register is not written.
    pub fn vx_plus_equals_nn(&mut self, x: &u8, nn: &u8)
        requires
            old(self).wf(),
            *x < 16,
            old(self)@.pc + 2 <= u16::MAX,
        ensures
            final(self).wf(),
            final(self)@ == old(self)@.add_immediate(*x as int, *nn),
    {
        let sum: u16 = self.v[*x as usize] as u16 + *nn as u16;
        self.v[*x as usize] = (sum % 256) as u8;
        self.pc += 2;
    }

    /// 8XY0: `V[x] = V[y]`.
    pub fn vx_assign_vy(&mut self, x: &u8, y: &u8)
        requires
            old(self).wf(),
            *x < 16,
            *y < 16,
            old(self)@.pc + 2 <= u16::MAX,
        ensures
            final(self).wf(),
            final(self)@ == old(self)@.assign(*x as int, *y as int),
    {
        self.v[*x as usize] = self.v[*y as usize];
        self.pc += 2;
    }

    /// 8XY1: `V[x] |= V[y]`.
    pub fn vx_assign_or_vy(&mut self, x: &u8, y: &u8)
        requires
            old(self).wf(),
            *x < 16,
            *y < 16,
            old(self)@.pc + 2 <= u16::MAX,
        ensures
            final(self).wf(),
            final(self)@ == old(self)@.or(*x as int, *y as int),
    {
        self.v[*x as usize] = self.v[*x as usize] | self.v[*y as usize];
        self.pc += 2;
    }

    /// 8XY2: `V[x] &= V[y]`.
    pub fn vx_assign_and_vy(&mut self, x: &u8, y: &u8)
        requires
            old(self).wf(),
            *x < 16,
            *y < 16,
            old(self)@.pc + 2 <= u16::MAX,
        ensures
            final(self).wf(),
            final(self)@ == old(self)@.and(*x as int, *y as int),
    {
        self.v[*x as usize] = self.v[*x as usize] & self.v[*y as usize];
        self.pc += 2;
    }

    /// 8XY3: `V[x] ^= V[y]`.
    pub fn vx_assign_xor_vy(&mut self, x: &u8, y: &u8)
        requires
            old(self).wf(),
            *x < 16,
            *y < 16,
            old(self)@.pc + 2 <= u16::MAX,
        ensures
            final(self).wf(),
            final(self)@ == old(self)@.xor(*x as int, *y as int),
    {
        self.v[*x as usize] = self.v[*x as usize] ^ self.v[*y as usize];
        self.pc += 2;
    }

    /// 8XY4: `V[x] += V[y]` modulo 256 with the carry in the flag register.
    /// Both operands are read before the flag is written, and the sum is
    /// written last.
    pub fn vx_assign_plus_vy(&mut self, x: &u8, y: &u8)
        requires
            old(self).wf(),
            *x < 16,
            *y < 16,
            old(self)@.pc + 2 <= u16::MAX,
        ensures
            final(self).wf(),
            final(self)@ == old(self)@.add_registers(*x as int, *y as int),
            ({
                let sum = old(self)@.v[*x as int] + old(self)@.v[*y as int];
                &&& final(self)@.v[*x as int] == sum % 256
                &&& *x != 0xF ==> final(self)@.v[0xF] == if sum > 255 {
                    1u8
                } else {
                    0u8
                }
            }),
    {
        let vx = self.v[*x as usize];
        let vy = self.v[*y as usize];
        if vx > 255 - vy {
            self.set_flag_and_register(1, *x as usize, ((vx as u16 + vy as u16) - 256) as u8);
        } else {
            self.set_flag_and_register(0, *x as usize, vx + vy);
        }
        self.pc += 2;
    }

    /// 8XY5: `V[x] -= V[y]` modulo 256. The flag register is 1 if nothing
    /// was borrowed. Both operands are read before the flag is written, and
    /// the difference is written last.
    pub fn vx_assign_minus_vy(&mut self, x: &u8, y: &u8)
        requires
            old(self).wf(),
            *x < 16,
            *y < 16,
            old(self)@.pc + 2 <= u16::MAX,
        ensures
            final(self).wf(),
            final(self)@ == old(self)@.sub_registers(*x as int, *y as int),
            ({
                let a = old(self)@.v[*x as int];
                let b = old(self)@.v[*y as int];
                &&& final(self)@.v[*x as int] == (a - b) % 256
                &&& *x != 0xF ==> final(self)@.v[0xF] == if a >= b {
                    1u8
                } else {
                    0u8
                }
            }),
    {
        let vx = self.v[*x as usize];
        let vy = self.v[*y as usize];
        if vx < vy {
            self.set_flag_and_register(0, *x as usize, ((vx as u16 + 256) - vy as u16) as u8);
        } else {
            self.set_flag_and_register(1, *x as usize, vx - vy);
        }
        self.pc += 2;
    }

    /// 8XY6: `V[x] >>= 1`. The flag register takes the low bit that
    /// `V[x]` had, and the shifted value is written last.
    pub fn vx_assign_rshift(&mut self, x: &u8)
        requires
            old(self).wf(),
            *x < 16,
            old(self)@.pc + 2 <= u16::MAX,
        ensures
            final(self).wf(),
            final(self)@ == old(self)@.shift_right(*x as int),
    {
        let vx = self.v[*x as usize];
        assert(vx & 1 == vx % 2 && vx >> 1 == vx / 2) by (bit_vector);
        self.set_flag_and_register(vx & 1, *x as usize, vx >> 1);
        self.pc += 2;
    }

    /// 8XY7: `V[x] = V[y] - V[x]` modulo 256. The flag register is 1 if
    /// nothing was borrowed. Both operands are read before the flag is
    /// written, and the difference is written last.
    pub fn vx_assign_vy_minus_vx(&mut self, x: &u8, y: &u8)
        requires
            old(self).wf(),
            *x < 16,
            *y < 16,
            old(self)@.pc + 2 <= u16::MAX,
        ensures
            final(self).wf(),
            final(self)@ == old(self)@.sub_reversed(*x as int, *y as int),
    {
        let vx = self.v[*x as usize];
        let vy = self.v[*y as usize];
        if vy < vx {
            self.set_flag_and_register(0, *x as usize, ((vy as u16 + 256) - vx as u16) as u8);
        } else {
            self.set_flag_and_register(1, *x as usize, vy - vx);
        }
        self.pc += 2;
    }

    /// 8XYE: `V[x] <<= 1`. The flag register takes the high bit that
    /// `V[x]` had, and the shifted value is written last.
    pub fn vx_assign_lshift(&mut self, x: &u8)
        requires
            old(self).wf(),
            *x < 16,
            old(self)@.pc + 2 <= u16::MAX,
        ensures
            final(self).wf(),
            final(self)@ == old(self)@.shift_left(*x as int),
    {
        let vx = self.v[*x as usize];
        assert(vx >> 7 == vx / 128 && vx << 1 == (vx * 2) % 256) by (bit_vector);
        self.set_flag_and_register(vx >> 7, *x as usize, vx << 1);
        self.pc += 2;
    }

    /// 9XY0: skips the next instruction if `V[x] != V[y]`, with `x` and
    /// `y` taken from the instruction word fetched last.
    pub fn skip_if_vx_not_equal_vy(&mut self)
        requires
            old(self).wf(),
            ({
                let s = old(self)@;
                s.pc + skip_len(s.v[op_x(s.opcode) as int] != s.v[op_y(s.opcode) as int])
                    <= u16::MAX
            }),
        ensures
            final(self).wf(),
            ({
                let s = old(self)@;
                final(self)@ == s.skip_if(
                    s.v[op_x(s.opcode) as int] != s.v[op_y(s.opcode) as int],
                )
            }),
    {
        let opcode = self.opcode;
        assert((opcode & 0x0F00) >> 8 == (opcode / 256) % 16
            && (opcode & 0x00F0) >> 4 == (opcode / 16) % 16) by (bit_vector);
        let x = ((opcode & 0x0F00) >> 8) as usize;
        let y = ((opcode & 0x00F0) >> 4) as usize;
        if self.v[x] != self.v[y] {
            self.pc += 2;
        }
        self.pc += 2;
    }

    /// CXNN: `V[x]` takes a random byte masked by `nn`.
    pub fn vx_equals_rand(&mut self, x: &u8, nn: &u8)
        requires
            old(self).wf(),
            *x < 16,
            old(self)@.pc + 2 <= u16::MAX,
        ensures
            final(self).wf(),
            exists|random: u8| final(self)@ == old(self)@.random_masked(*x as int, *nn, random),
    {
        let random = random_byte();
        self.vx_equals_masked(x, nn, random);
    }

    /// What CXNN does once the random byte is drawn: `V[x] = random & nn`.
    pub fn vx_equals_masked(&mut self, x: &u8, nn: &u8, random: u8)
        requires
            old(self).wf(),
            *x < 16,
            old(self)@.pc + 2 <= u16::MAX,
        ensures
            final(self).wf(),
            final(self)@ == old(self)@.random_masked(*x as int, *nn, random),
    {
        self.v[*x as usize] = random & *nn;
        self.pc += 2;
    }

    /// EX9E: skips the next instruction if key `V[x]` is held down.
    pub fn skip_if_key_pressed(&mut self, x: &u8)
        requires
            old(self).wf(),
            *x < 16,
            old(self)@.v[*x as int] < 16,
            old(self)@.pc + skip_len(old(self)@.keys[old(self)@.v[*x as int] as int]) <= u16::MAX,
        ensures
            final(self).wf(),
            final(self)@ == old(self)@.skip_if(old(self)@.keys[old(self)@.v[*x as int] as int]),
    {
        if self.keys[self.v[*x as usize] as usize] != 0 {
            self.pc += 2;
        }
        self.pc += 2;
    }

    /// EXA1: skips the next instruction if key `V[x]` is not held down.
    pub fn skip_if_key_not_pressed(&mut self, x: &u8)
        requires
            old(self).wf(),
            *x < 16,
            old(self)@.v[*x as int] < 16,
            old(self)@.pc + skip_len(!old(self)@.keys[old(self)@.v[*x as int] as int]) <= u16::MAX,
        ensures
            final(self).wf(),
            final(self)@ == old(self)@.skip_if(!old(self)@.keys[old(self)@.v[*x as int] as int]),
    {
        if self.keys[self.v[*x as usize] as usize] == 0 {
            self.pc += 2;
        }
        self.pc += 2;
    }

    /// FX07: `V[x]` takes the delay timer.
    pub fn vx_assign_delay(&mut self, x: &u8)
        requires
            old(self).wf(),
            *x < 16,
            old(self)@.pc + 2 <= u16::MAX,
        ensures
            final(self).wf(),
            final(self)@ == old(self)@.read_delay(*x as int),
    {
        self.v[*x as usize] = self.delay_timer;
        self.pc += 2;
    }

    /// FX0A: waits for a key. With a key held down `V[x]` takes the lowest
    /// such key and the counter moves on; with none nothing changes.
    pub fn vx_assign_key(&mut self, x: &u8)
        requires
            old(self).wf(),
            *x < 16,
            first_pressed(old(self)@.keys) < 16 ==> old(self)@.pc + 2 <= u16::MAX,
        ensures
            final(self).wf(),
            final(self)@ == old(self)@.read_key(*x as int),
    {
        let mut k: u8 = 0;
        while k < 16
            invariant
                k <= 16,
                *x < 16,
                self.wf(),
                self@ == old(self)@,
                first_pressed(self@.keys) == first_pressed_from(self@.keys, k as int),
                first_pressed(self@.keys) < 16 ==> self@.pc + 2 <= u16::MAX,
            decreases 16 - k,
        {
            if self.keys[k as usize] != 0 {
                self.v[*x as usize] = k;
                self.pc += 2;
                return ;
            }
            k += 1;
        }
    }

    /// FX15: the delay timer takes `V[x]`.
    pub fn set_delay_timer(&mut self, x: &u8)
        requires
            old(self).wf(),
            *x < 16,
            old(self)@.pc + 2 <= u16::MAX,
        ensures
            final(self).wf(),
            final(self)@ == old(self)@.set_delay(*x as int),
    {
        self.delay_timer = self.v[*x as usize];
        self.pc += 2;
    }

    /// FX18: the sound timer takes `V[x]`.
    pub fn set_sound_timer(&mut self, x: &u8)
        requires
            old(self).wf(),
            *x < 16,
            old(self)@.pc + 2 <= u16::MAX,
        ensures
            final(self).wf(),
            final(self)@ == old(self)@.set_sound(*x as int),
    {
        self.sound_timer = self.v[*x as usize];
        self.pc += 2;
    }

    /// FX1E: `I += V[x]` modulo 65536. The flag register is not written.
    pub fn index_assign_plus_vx(&mut self, x: &u8)
        requires
            old(self).wf(),
            *x < 16,
            old(self)@.pc + 2 <= u16::MAX,
        ensures
            final(self).wf(),
            final(self)@ == old(self)@.add_index(*x as int),
    {
        let sum: u32 = self.i as u32 + self.v[*x as usize] as u32;
        self.i = (sum % 65536) as u16;
        self.pc += 2;
    }

    /// FX29: `I` takes the address of the glyph for the low nibble of
    /// `V[x]`.
    pub fn index_assign_sprite(&mut self, x: &u8)
        requires
            old(self).wf(),
            *x < 16,
            old(self)@.pc + 2 <= u16::MAX,
        ensures
            final(self).wf(),
            final(self)@ == old(self)@.font_address(*x as int),
    {
        let vx = self.v[*x as usize];
        assert(vx & 0xF == vx % 16) by (bit_vector);
        self.i = (vx & 0xF) as u16 * 5;
        self.pc += 2;
    }

    /// FX33: writes the decimal digits of `V[x]` to `memory[I]`,
    /// `memory[I + 1]` and `memory[I + 2]`, hundreds first.
    pub fn set_bcd(&mut self, x: &u8)
        requires
            old(self).wf(),
            *x < 16,
            old(self)@.i + 2 < 4096,
            old(self)@.pc + 2 <= u16::MAX,
        ensures
            final(self).wf(),
            final(self)@ == old(self)@.store_bcd(*x as int),
            final(self)@.memory[old(self)@.i as int] * 100 + final(self)@.memory[old(self)@.i + 1]
                * 10 + final(self)@.memory[old(self)@.i + 2] == old(self)@.v[*x as int],
            final(self)@.memory[old(self)@.i as int] < 10,
            final(self)@.memory[old(self)@.i + 1] < 10,
            final(self)@.memory[old(self)@.i + 2] < 10,
    {
        let vx = self.v[*x as usize];
        self.memory[self.i as usize] = vx / 100;
        self.memory[self.i as usize + 1] = (vx % 100) / 10;
        self.memory[self.i as usize + 2] = vx % 10;
        self.pc += 2;
    }

    /// FX55: copies registers 0 to `x` to memory from `I` upward. `I` keeps
    /// its value.
    pub fn reg_dump(&mut self, x: &u8)
        requires
            old(self).wf(),
            *x < 16,
            old(self)@.i + *x < 4096,
            old(self)@.pc + 2 <= u16::MAX,
        ensures
            final(self).wf(),
            final(self)@ == old(self)@.dump_registers(*x as int),
    {
        let mut reg: u8 = 0;
        while reg <= *x
            invariant
                reg <= *x + 1,
                *x < 16,
                self.wf(),
                old(self)@.i + *x < 4096,
                self@ == (Machine { memory: self@.memory, ..old(self)@ }),
                self@.memory == old(self)@.dumped_memory(reg - 1),
            decreases *x + 1 - reg,
        {
            self.memory[self.i as usize + reg as usize] = self.v[reg as usize];
            reg += 1;
        }
        self.pc += 2;
    }

    /// FX65: fills registers 0 to `x` from memory from `I` upward. `I`
    /// keeps its value.
    pub fn reg_load(&mut self, x: &u8)
        requires
            old(self).wf(),
            *x < 16,
            old(self)@.i + *x < 4096,
            old(self)@.pc + 2 <= u16::MAX,
        ensures
            final(self).wf(),
            final(self)@ == old(self)@.load_registers(*x as int),
    {
        let mut reg: u8 = 0;
        while reg <= *x
            invariant
                reg <= *x + 1,
                *x < 16,
                self.wf(),
                old(self)@.i + *x < 4096,
                self@ == (Machine { v: self@.v, ..old(self)@ }),
                self@.v == old(self)@.loaded_registers(reg - 1),
            decreases *x + 1 - reg,
        {
            self.v[reg as usize] = self.memory[self.i as usize + reg as usize];
            reg += 1;
        }
        self.pc += 2;
    }

    /// DXYN: draws the `n` rows of the sprite at `I` at column `V[x]`, row
    /// `V[y]`, wrapping at the edges. Pixels flip where the sprite has a
    /// bit set, and the flag register tells whether a lit pixel went out.
    pub fn draw(&mut self, x: &u8, y: &u8, n: &u8)
        requires
            old(self).wf(),
            *x < 16,
            *y < 16,
            *n > 0 ==> old(self)@.i + *n <= 4096,
            old(self)@.pc + 2 <= u16::MAX,
        ensures
            final(self).wf(),
            final(self)@ == old(self)@.draw(*x as int, *y as int, *n as nat),
    {
        self.v[0xF] = 0;
        let mut row: u8 = 0;
        while row < *n
            invariant
                row <= *n,
                *x < 16,
                *y < 16,
                self.wf(),
                *n > 0 ==> old(self)@.i + *n <= 4096,
                self@.i == old(self)@.i,
                self@.pc == old(self)@.pc,
                self@.v[0xF] <= 1,
                self@ == old(self)@.with_register(0xF, 0).blit_sprite(
                    *x as int,
                    *y as int,
                    row as nat,
                ),
            decreases *n - row,
        {
            let vy = ((self.v[*y as usize] as u16 + row as u16) % 32) as usize;
            let sprite = self.memory[(self.i + row as u16) as usize];
            let ghost start = self@;
            let mut pixel: u8 = 0;
            while pixel < 8
                invariant
                    pixel <= 8,
                    vy < 32,
                    *x < 16,
                    self.wf(),
                    self@.i == start.i,
                    self@.pc == start.pc,
                    self@.v[0xF] <= 1,
                    self@ == start.blit_row(*x as int, vy as int, sprite, pixel as nat),
                decreases 8 - pixel,
            {
                let vx = ((self.v[*x as usize] as u16 + pixel as u16) % 64) as usize;
                let color = (sprite >> (7 - pixel)) & 1;
                let lit = self.gfx[vy][vx];
                let flag = self.v[0xF];
                let ghost before = self@;
                assert(color <= 1 && (color == 1 <==> sprite_bit(sprite, pixel as int))) by {
                    let shift = (7 - pixel) as u8;
                    assert((sprite >> shift) & 1 <= 1) by (bit_vector);
                }
                assert(flag | (color & lit) == (if color == 1 && lit == 1 {
                    1u8
                } else {
                    flag
                }) && lit ^ color <= 1 && (lit ^ color != 0 <==> ((lit != 0) != (color == 1))))
                    by (bit_vector)
                    requires
                        flag <= 1,
                        color <= 1,
                        lit <= 1,
                ;
                self.v[0xF] = flag | (color & lit);
                self.gfx[vy][vx] = lit ^ color;
                pixel += 1;
                assert(self@ =~~= before.blit_pixel(*x as int, vy as int, sprite, pixel - 1));
            }
            row += 1;
        }
        self.screen_updated = true;
        self.pc += 2;
    }

    /// Copies a program image to memory from 0x200 upward and clears the
    /// rest of the program region. An image of more than 3584 bytes is
    /// refused, and nothing is written.
    pub fn load_game(&mut self, image: &[u8]) -> (res: Result<(), LoadError>)
        requires
            old(self).wf(),
        ensures
            final(self).wf(),
            image@.len() <= 3584 ==> res is Ok && final(self)@ == old(self)@.loaded(image@),
            image@.len() > 3584 ==> res == Err::<(), LoadError>(LoadError::TooLarge)
                && final(self)@ == old(self)@,
    {
        if image.len() > 3584 {
            return Err(LoadError::TooLarge);
        }
        let mut k: usize = 0;
        while k < 3584
            invariant
                k <= 3584,
                image@.len() <= 3584,
                self.wf(),
                self@ == (Machine { memory: self@.memory, ..old(self)@ }),
                forall|a: int| 0 <= a < 0x200 + k ==> self@.memory[a] == loaded_memory(
                    old(self)@.memory,
                    image@,
                )[a],
                forall|a: int| 0x200 + k <= a < 4096 ==> self@.memory[a] == old(self)@.memory[a],
            decreases 3584 - k,
        {
            self.memory[0x200 + k] = if k < image.len() {
                image[k]
            } else {
                0
            };
            k += 1;
        }
        Ok(())
    }

    /// One cycle: fetches the word at the program counter, executes it and
    /// lets both timers tick once. A fault stops the cycle before the
    /// instruction has any effect, and the timers do not tick.
    pub fn emulate_cycle(&mut self) -> (res: Result<(), Fault>)
        requires
            old(self).wf(),
        ensures
            final(self).wf(),
            res matches Err(fault) ==> old(self)@.cycle_fault() == Some(fault) && final(self)@
                == old(self)@.halted(),
            res is Ok ==> old(self)@.cycle_fault() is None && exists|random: u8|
                final(self)@ == old(self)@.cycled(random),
    {
        if self.pc > 4094 {
            return Err(Fault::ProgramCounterOutOfRange);
        }
        let high = self.memory[self.pc as usize];
        let low = self.memory[(self.pc + 1) as usize];
        assert((high as u16) << 8 | low as u16 == high * 256 + low) by (bit_vector);
        self.opcode = (high as u16) << 8 | low as u16;
        let ghost fetched = self@;
        match self.execute_opcode() {
            Ok(()) => {
                let ghost random = choose|random: u8| self@ == fetched.executed(random);
                if self.delay_timer > 0 {
                    self.delay_timer -= 1;
                }
                if self.sound_timer > 0 {
                    self.sound_timer -= 1;
                }
                assert(self@ == old(self)@.cycled(random));
                Ok(())
            },
            Err(fault) => Err(fault),
        }
    }

    /// Executes the instruction word fetched last. The program counter
    /// must be the address the word can have come from.
    pub fn execute_opcode(&mut self) -> (res: Result<(), Fault>)
        requires
            old(self).wf(),
        ensures
            final(self).wf(),
            res matches Err(fault) ==> old(self)@.fault() == Some(fault)
                && final(self)@ == old(self)@,
            res is Ok ==> old(self)@.fault() is None && exists|random: u8|
                final(self)@ == old(self)@.executed(random),
    {
        if self.pc > 4094 {
            return Err(Fault::ProgramCounterOutOfRange);
        }
        let instruction = match decode(self.opcode) {
            Some(instruction) => instruction,
            None => {
                return Err(Fault::UnknownOpcode);
            },
        };
        let ghost before = self@;
        match instruction {
            Instruction::ClearScreen => {
                self.gfx = [[0; 64]; 32];
                self.screen_updated = true;
                self.pc += 2;
                assert(self@ =~~= before.clear_screen());
            },
            Instruction::Return => self.return_subroutine(),
            Instruction::Jump { nnn } => {
                self.pc = nnn;
            },
            Instruction::Call { nnn } => {
                if self.sp >= 15 {
                    return Err(Fault::StackOverflow);
                }
                self.call_subroutine_at_nnn(&nnn)
            },
            Instruction::SkipIfEqual { x, nn } => self.skip_if_vx_equals_nn(&x, &nn),
            Instruction::SkipIfNotEqual { x, nn } => self.skip_if_vx_not_equal_nn(&x, &nn),
            Instruction::SkipIfRegistersEqual { x, y } => self.skip_if_vx_equals_vy(&x, &y),
            Instruction::LoadImmediate { x, nn } => self.vx_equals_nn(&x, &nn),
            Instruction::AddImmediate { x, nn } => self.vx_plus_equals_nn(&x, &nn),
            Instruction::Assign { x, y } => self.vx_assign_vy(&x, &y),
            Instruction::Or { x, y } => self.vx_assign_or_vy(&x, &y),
            Instruction::And { x, y } => self.vx_assign_and_vy(&x, &y),
            Instruction::Xor { x, y } => self.vx_assign_xor_vy(&x, &y),
            Instruction::Add { x, y } => self.vx_assign_plus_vy(&x, &y),
            Instruction::Subtract { x, y } => self.vx_assign_minus_vy(&x, &y),
            Instruction::ShiftRight { x } => self.vx_assign_rshift(&x),
            Instruction::SubtractReversed { x, y } => self.vx_assign_vy_minus_vx(&x, &y),
            Instruction::ShiftLeft { x } => self.vx_assign_lshift(&x),
            Instruction::SkipIfRegistersNotEqual { x, y } => self.skip_if_vx_not_equal_vy(),
            Instruction::LoadIndex { nnn } => {
                self.i = nnn;
                self.pc += 2;
            },
            Instruction::JumpOffset { nnn } => {
                self.pc = self.v[0] as u16 + nnn;
            },
            Instruction::Random { x, nn } => {
                self.vx_equals_rand(&x, &nn);
                let ghost random = choose|random: u8|
                    self@ == before.random_masked(x as int, nn, random);
                assert(self@ == before.executed(random));
                return Ok(());
            },
            Instruction::Draw { x, y, n } => {
                if n > 0 && self.i as usize + n as usize > 4096 {
                    return Err(Fault::MemoryOutOfRange);
                }
                self.draw(&x, &y, &n)
            },
            Instruction::SkipIfKeyPressed { x } => {
                if self.v[x as usize] >= 16 {
                    return Err(Fault::KeyOutOfRange);
                }
                self.skip_if_key_pressed(&x)
            },
            Instruction::SkipIfKeyNotPressed { x } => {
                if self.v[x as usize] >= 16 {
                    return Err(Fault::KeyOutOfRange);
                }
                self.skip_if_key_not_pressed(&x)
            },
            Instruction::ReadDelay { x } => self.vx_assign_delay(&x),
            Instruction::ReadKey { x } => self.vx_assign_key(&x),
            Instruction::SetDelay { x } => self.set_delay_timer(&x),
            Instruction::SetSound { x } => self.set_sound_timer(&x),
            Instruction::AddIndex { x } => self.index_assign_plus_vx(&x),
            Instruction::FontAddress { x } => self.index_assign_sprite(&x),
            Instruction::StoreBcd { x } => {
                if self.i as usize + 2 >= 4096 {
                    return Err(Fault::MemoryOutOfRange);
                }
                self.set_bcd(&x)
            },
            Instruction::DumpRegisters { x } => {
                if self.i as usize + x as usize >= 4096 {
                    return Err(Fault::MemoryOutOfRange);
                }
                self.reg_dump(&x)
            },
            Instruction::LoadRegisters { x } => {
                if self.i as usize + x as usize >= 4096 {
                    return Err(Fault::MemoryOutOfRange);
                }
                self.reg_load(&x)
            },
        }
        assert(self@ == before.executed(0));
        Ok(())
    }

    /// The program counter.
    pub fn pc(&self) -> (pc: u16)
        ensures
            pc == self@.pc,
    {
        self.pc
    }

    /// The instruction word fetched last.
    pub fn opcode(&self) -> (opcode: u16)
        ensures
            opcode == self@.opcode,
    {
        self.opcode
    }

    /// The index register.
    pub fn i(&self) -> (i: u16)
        ensures
            i == self@.i,
    {
        self.i
    }

    /// The stack pointer.
    pub fn sp(&self) -> (sp: u8)
        ensures
            sp == self@.sp,
    {
        self.sp
    }

    /// Register `x`.
    pub fn v(&self, x: usize) -> (value: u8)
        requires
            x < 16,
        ensures
            value == self@.v[x as int],
    {
        self.v[x]
    }

    /// The byte at `address`.
    pub fn memory(&self, address: usize) -> (value: u8)
        requires
            address < 4096,
        ensures
            value == self@.memory[address as int],
    {
        self.memory[address]
    }

    /// Slot `slot` of the call stack.
    pub fn stack(&self, slot: usize) -> (address: u16)
        requires
            slot < 16,
        ensures
            address == self@.stack[slot as int],
    {
        self.stack[slot]
    }

    /// The delay timer.
    pub fn delay_timer(&self) -> (value: u8)
        ensures
            value == self@.delay_timer,
    {
        self.delay_timer
    }

    /// The sound timer. The host sounds its tone while this is not zero.
    pub fn sound_timer(&self) -> (value: u8)
        ensures
            value == self@.sound_timer,
    {
        self.sound_timer
    }

    /// Whether the pixel in column `column` of row `row` is lit.
    pub fn pixel(&self, column: usize, row: usize) -> (lit: bool)
        requires
            column < 64,
            row < 32,
        ensures
            lit == self@.screen[row as int][column as int],
    {
        self.gfx[row][column] != 0
    }

    /// Sets register `x`.
    pub fn set_v(&mut self, x: usize, value: u8)
        requires
            old(self).wf(),
            x < 16,
        ensures
            final(self).wf(),
            final(self)@ == old(self)@.with_register(x as int, value),
    {
        self.v[x] = value;
    }

    /// Sets the index register.
    pub fn set_i(&mut self, i: u16)
        requires
            old(self).wf(),
        ensures
            final(self).wf(),
            final(self)@ == (Machine { i, ..old(self)@ }),
    {
        self.i = i;
    }

    /// Sets the program counter.
    pub fn set_pc(&mut self, pc: u16)
        requires
            old(self).wf(),
        ensures
            final(self).wf(),
            final(self)@ == (Machine { pc, ..old(self)@ }),
    {
        self.pc = pc;
    }

    /// Sets the stack pointer.
    pub fn set_sp(&mut self, sp: u8)
        requires
            old(self).wf(),
            sp < 16,
        ensures
            final(self).wf(),
            final(self)@ == (Machine { sp, ..old(self)@ }),
    {
        self.sp = sp;
    }

    /// Sets slot `slot` of the call stack.
    pub fn set_stack(&mut self, slot: usize, address: u16)
        requires
            old(self).wf(),
            slot < 16,
        ensures
            final(self).wf(),
            final(self)@ == (Machine {
                stack: old(self)@.stack.update(slot as int, address),
                ..old(self)@
            }),
    {
        self.stack[slot] = address;
    }
}

impl Default for Chip8 {
    fn default() -> (c8: Chip8)
        ensures
            c8.wf(),
            c8@ == Machine::initial(),
    {
        Chip8::new()
    }
}

} // verus!
