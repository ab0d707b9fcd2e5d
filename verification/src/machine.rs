use vstd::prelude::*;
use crate::font::initial_memory;

verus! {

/// The machine as a mathematical value: what every contract of the
/// interpreter speaks of.
#[verifier::ext_equal]
pub struct Machine {
    /// The instruction word fetched last.
    pub opcode: u16,
    /// The address space, one byte per address.
    pub memory: Seq<u8>,
    /// The general registers V0 to VF.
    pub v: Seq<u8>,
    /// The index register.
    pub i: u16,
    /// The program counter.
    pub pc: u16,
    /// The screen, `screen[row][column]`, `true` for a lit pixel.
    pub screen: Seq<Seq<bool>>,
    /// The delay timer, which programs set and read.
    pub delay_timer: u8,
    /// The sound timer: the host sounds its tone while this is not zero.
    pub sound_timer: u8,
    /// The call stack's slots.
    pub stack: Seq<u16>,
    /// The stack pointer: the slot that holds the latest return address.
    pub sp: u8,
    /// The keypad, `true` for a key that is held down.
    pub keys: Seq<bool>,
    /// Set by every instruction that writes the screen.
    pub display_changed: bool,
}

/// Bits 8 to 11 of an instruction word: the first register operand.
pub open spec fn op_x(opcode: u16) -> u8 {
    ((opcode / 256) % 16) as u8
}

/// Bits 4 to 7 of an instruction word: the second register operand.
pub open spec fn op_y(opcode: u16) -> u8 {
    ((opcode / 16) % 16) as u8
}

/// Bits 0 to 3 of an instruction word.
pub open spec fn op_n(opcode: u16) -> u8 {
    (opcode % 16) as u8
}

/// Bits 0 to 7 of an instruction word.
pub open spec fn op_nn(opcode: u16) -> u8 {
    (opcode % 256) as u8
}

/// Bits 0 to 11 of an instruction word.
pub open spec fn op_nnn(opcode: u16) -> u16 {
    opcode % 4096
}

/// Bits 12 to 15 of an instruction word: the instruction family.
pub open spec fn op_family(opcode: u16) -> u8 {
    (opcode / 4096) as u8
}

/// How far a conditional skip moves the program counter.
pub open spec fn skip_len(taken: bool) -> int {
    if taken {
        4
    } else {
        2
    }
}

/// The screen with every pixel dark.
pub open spec fn blank_screen() -> Seq<Seq<bool>> {
    Seq::new(32, |r: int| Seq::new(64, |c: int| false))
}

/// The lowest key from `from` upward that is held down, or 16 if none is.
pub open spec fn first_pressed_from(keys: Seq<bool>, from: int) -> int
    decreases 16 - from,
{
    if from >= 16 {
        16
    } else if keys[from] {
        from
    } else {
        first_pressed_from(keys, from + 1)
    }
}

/// The lowest key that is held down, or 16 if none is.
pub open spec fn first_pressed(keys: Seq<bool>) -> int {
    first_pressed_from(keys, 0)
}

/// Bit `p` of a sprite row, counted from the most significant bit.
pub open spec fn sprite_bit(sprite: u8, p: int) -> bool {
    (sprite >> ((7 - p) as u8)) & 1 == 1
}

impl Machine {
    /// Every part has its size and the stack pointer names a slot.
    pub open spec fn wf(self) -> bool {
        &&& self.memory.len() == 4096
        &&& self.v.len() == 16
        &&& self.screen.len() == 32
        &&& forall|r: int| 0 <= r < 32 ==> (#[trigger] self.screen[r]).len() == 64
        &&& self.stack.len() == 16
        &&& self.sp < 16
        &&& self.keys.len() == 16
    }

    /// The machine after power-on.
    pub open spec fn initial() -> Machine {
        Machine {
            opcode: 0,
            memory: initial_memory(),
            v: Seq::new(16, |r: int| 0u8),
            i: 0,
            pc: 0x200,
            screen: blank_screen(),
            delay_timer: 0,
            sound_timer: 0,
            stack: Seq::new(16, |k: int| 0u16),
            sp: 0,
            keys: Seq::new(16, |k: int| false),
            display_changed: false,
        }
    }

    /// The program counter moved forward by `by` bytes.
    pub open spec fn advance(self, by: int) -> Machine {
        Machine { pc: (self.pc + by) as u16, ..self }
    }

    /// Register `x` set to `value`, nothing else touched.
    pub open spec fn with_register(self, x: int, value: u8) -> Machine {
        Machine { v: self.v.update(x, value), ..self }
    }

    /// The flag register set to `flag`, then register `x` to `value`: an
    /// arithmetic result written to VF replaces the flag.
    pub open spec fn with_flag_and_register(self, flag: u8, x: int, value: u8) -> Machine {
        Machine { v: self.v.update(0xF, flag).update(x, value), ..self }
    }

    pub open spec fn clear_screen(self) -> Machine {
        Machine { screen: blank_screen(), display_changed: true, ..self }.advance(2)
    }

    /// The counter takes the slot under the stack pointer, and the pointer
    /// moves down unless it is at the bottom already.
    pub open spec fn return_subroutine(self) -> Machine {
        Machine {
            pc: self.stack[self.sp as int],
            sp: if self.sp > 0 {
                (self.sp - 1) as u8
            } else {
                0
            },
            ..self
        }
    }

    /// The pointer moves up, the address behind the call goes into the new
    /// slot, and the counter takes `nnn`.
    pub open spec fn call_subroutine(self, nnn: u16) -> Machine {
        Machine {
            sp: (self.sp + 1) as u8,
            stack: self.stack.update(self.sp + 1, (self.pc + 2) as u16),
            pc: nnn,
            ..self
        }
    }

    pub open spec fn jump(self, nnn: u16) -> Machine {
        Machine { pc: nnn, ..self }
    }

    pub open spec fn jump_offset(self, nnn: u16) -> Machine {
        Machine { pc: (self.v[0] + nnn) as u16, ..self }
    }

    /// A conditional skip: four bytes forward if `taken`, else two.
    pub open spec fn skip_if(self, taken: bool) -> Machine {
        self.advance(skip_len(taken))
    }

    pub open spec fn load_immediate(self, x: int, nn: u8) -> Machine {
        self.with_register(x, nn).advance(2)
    }

    /// Addition modulo 256 that leaves the flag register alone.
    pub open spec fn add_immediate(self, x: int, nn: u8) -> Machine {
        self.with_register(x, ((self.v[x] + nn) % 256) as u8).advance(2)
    }

    pub open spec fn assign(self, x: int, y: int) -> Machine {
        self.with_register(x, self.v[y]).advance(2)
    }

    pub open spec fn or(self, x: int, y: int) -> Machine {
        self.with_register(x, self.v[x] | self.v[y]).advance(2)
    }

    pub open spec fn and(self, x: int, y: int) -> Machine {
        self.with_register(x, self.v[x] & self.v[y]).advance(2)
    }

    pub open spec fn xor(self, x: int, y: int) -> Machine {
        self.with_register(x, self.v[x] ^ self.v[y]).advance(2)
    }

    /// Sum with carry: the flag is 1 when the sum passes 255.
    pub open spec fn add_registers(self, x: int, y: int) -> Machine {
        let sum = self.v[x] + self.v[y];
        self.with_flag_and_register(
            if sum > 255 {
                1u8
            } else {
                0u8
            },
            x,
            (sum % 256) as u8,
        ).advance(2)
    }

    /// `V[x] - V[y]` modulo 256: the flag is 1 when nothing was borrowed.
    pub open spec fn sub_registers(self, x: int, y: int) -> Machine {
        self.with_flag_and_register(
            if self.v[x] >= self.v[y] {
                1u8
            } else {
                0u8
            },
            x,
            ((self.v[x] - self.v[y]) % 256) as u8,
        ).advance(2)
    }

    /// `V[y] - V[x]` modulo 256 into `V[x]`: the flag is 1 when nothing was
    /// borrowed.
    pub open spec fn sub_reversed(self, x: int, y: int) -> Machine {
        self.with_flag_and_register(
            if self.v[y] >= self.v[x] {
                1u8
            } else {
                0u8
            },
            x,
            ((self.v[y] - self.v[x]) % 256) as u8,
        ).advance(2)
    }

    /// Halves `V[x]`: the flag takes the bit that drops out.
    pub open spec fn shift_right(self, x: int) -> Machine {
        self.with_flag_and_register(self.v[x] % 2, x, self.v[x] / 2).advance(2)
    }

    /// Doubles `V[x]` modulo 256: the flag takes the bit that drops out.
    pub open spec fn shift_left(self, x: int) -> Machine {
        self.with_flag_and_register(self.v[x] / 128, x, ((self.v[x] * 2) % 256) as u8).advance(2)
    }

    pub open spec fn load_index(self, nnn: u16) -> Machine {
        Machine { i: nnn, ..self }.advance(2)
    }

    /// `V[x]` takes the byte `random` masked by `nn`.
    pub open spec fn random_masked(self, x: int, nn: u8, random: u8) -> Machine {
        self.with_register(x, random & nn).advance(2)
    }

    pub open spec fn read_delay(self, x: int) -> Machine {
        self.with_register(x, self.delay_timer).advance(2)
    }

    /// Waits for a key: with none held down nothing changes, so the
    /// instruction runs again in the next cycle.
    pub open spec fn read_key(self, x: int) -> Machine {
        if first_pressed(self.keys) < 16 {
            self.with_register(x, first_pressed(self.keys) as u8).advance(2)
        } else {
            self
        }
    }

    pub open spec fn set_delay(self, x: int) -> Machine {
        Machine { delay_timer: self.v[x], ..self }.advance(2)
    }

    pub open spec fn set_sound(self, x: int) -> Machine {
        Machine { sound_timer: self.v[x], ..self }.advance(2)
    }

    /// Addition modulo 65536 that leaves the flag register alone.
    pub open spec fn add_index(self, x: int) -> Machine {
        Machine { i: ((self.i + self.v[x]) % 65536) as u16, ..self }.advance(2)
    }

    /// The index register takes the address of the glyph for the low nibble
    /// of `V[x]`.
    pub open spec fn font_address(self, x: int) -> Machine {
        Machine { i: ((self.v[x] % 16) * 5) as u16, ..self }.advance(2)
    }

    /// The decimal digits of `V[x]` go to `memory[I]`, `memory[I + 1]` and
    /// `memory[I + 2]`, hundreds first.
    pub open spec fn store_bcd(self, x: int) -> Machine {
        Machine {
            memory: self.memory.update(self.i as int, self.v[x] / 100).update(
                self.i + 1,
                (self.v[x] / 10) % 10,
            ).update(self.i + 2, self.v[x] % 10),
            ..self
        }.advance(2)
    }

    /// Memory after registers 0 to `x` were copied to `I`, `I + 1`, ...
    pub open spec fn dumped_memory(self, x: int) -> Seq<u8> {
        Seq::new(
            self.memory.len(),
            |a: int|
                if self.i <= a <= self.i + x {
                    self.v[a - self.i]
                } else {
                    self.memory[a]
                },
        )
    }

    /// Registers after 0 to `x` were filled from `I`, `I + 1`, ...
    pub open spec fn loaded_registers(self, x: int) -> Seq<u8> {
        Seq::new(
            self.v.len(),
            |r: int|
                if r <= x {
                    self.memory[self.i + r]
                } else {
                    self.v[r]
                },
        )
    }

    pub open spec fn dump_registers(self, x: int) -> Machine {
        Machine { memory: self.dumped_memory(x), ..self }.advance(2)
    }

    pub open spec fn load_registers(self, x: int) -> Machine {
        Machine { v: self.loaded_registers(x), ..self }.advance(2)
    }

    /// Pixel `p` of a sprite row put on screen row `row`, in the column
    /// `p` places right of `V[x]`, wrapping at the right edge. The pixel on
    /// the screen flips where the sprite's bit is set, and the flag
    /// register becomes 1 where that puts a lit pixel out.
    pub open spec fn blit_pixel(self, x: int, row: int, sprite: u8, p: int) -> Machine {
        let col = (self.v[x] + p) % 64;
        let bit = sprite_bit(sprite, p);
        let lit = self.screen[row][col];
        Machine {
            v: self.v.update(
                0xF,
                if bit && lit {
                    1u8
                } else {
                    self.v[0xF]
                },
            ),
            screen: self.screen.update(row, self.screen[row].update(col, lit != bit)),
            ..self
        }
    }

    /// The first `count` pixels of a sprite row put on screen row `row`,
    /// most significant bit first.
    pub open spec fn blit_row(self, x: int, row: int, sprite: u8, count: nat) -> Machine
        decreases count,
    {
        if count == 0 {
            self
        } else {
            self.blit_row(x, row, sprite, (count - 1) as nat).blit_pixel(
                x,
                row,
                sprite,
                count - 1,
            )
        }
    }

    /// The first `rows` rows of the sprite at `I` put on the screen. Row
    /// `r` of the sprite goes to the screen row `r` places below `V[y]`,
    /// wrapping at the bottom edge. Both registers are read as they stand
    /// when their row or pixel is reached.
    pub open spec fn blit_sprite(self, x: int, y: int, rows: nat) -> Machine
        decreases rows,
    {
        if rows == 0 {
            self
        } else {
            let before = self.blit_sprite(x, y, (rows - 1) as nat);
            before.blit_row(
                x,
                (before.v[y] + rows - 1) % 32,
                before.memory[before.i + rows - 1],
                8,
            )
        }
    }

    /// The flag register is cleared, then the `n` rows of the sprite at `I`
    /// are put on the screen.
    pub open spec fn draw(self, x: int, y: int, n: nat) -> Machine {
        Machine {
            display_changed: true,
            ..self.with_register(0xF, 0).blit_sprite(x, y, n)
        }.advance(2)
    }

    /// Both timers one step nearer to zero.
    pub open spec fn tick(self) -> Machine {
        Machine {
            delay_timer: if self.delay_timer > 0 {
                (self.delay_timer - 1) as u8
            } else {
                0
            },
            sound_timer: if self.sound_timer > 0 {
                (self.sound_timer - 1) as u8
            } else {
                0
            },
            ..self
        }
    }
}

} // verus!
