use vstd::prelude::*;
use crate::fault::Fault;
use crate::instruction::{decoded, Instruction};
use crate::machine::Machine;

verus! {

/// The instruction word made of two bytes, the first one high.
pub open spec fn instruction_word(high: u8, low: u8) -> u16 {
    (high * 256 + low) as u16
}

/// Memory after a program image was loaded: the image from 0x200 upward,
/// zero behind it up to the last address, the bytes below 0x200 as they
/// were.
pub open spec fn loaded_memory(memory: Seq<u8>, image: Seq<u8>) -> Seq<u8> {
    Seq::new(
        memory.len(),
        |a: int|
            if a < 0x200 {
                memory[a]
            } else if a - 0x200 < image.len() {
                image[a - 0x200]
            } else {
                0u8
            },
    )
}

impl Machine {
    /// The fault that `instruction` raises in this state, if it raises one.
    pub open spec fn fault_of(self, instruction: Instruction) -> Option<Fault> {
        match instruction {
            Instruction::Call { nnn } => {
                if self.sp >= 15 {
                    Some(Fault::StackOverflow)
                } else {
                    None
                }
            },
            Instruction::Draw { x, y, n } => {
                if n > 0 && self.i + n > 4096 {
                    Some(Fault::MemoryOutOfRange)
                } else {
                    None
                }
            },
            Instruction::StoreBcd { x } => {
                if self.i + 2 >= 4096 {
                    Some(Fault::MemoryOutOfRange)
                } else {
                    None
                }
            },
            Instruction::DumpRegisters { x } | Instruction::LoadRegisters { x } => {
                if self.i + x >= 4096 {
                    Some(Fault::MemoryOutOfRange)
                } else {
                    None
                }
            },
            Instruction::SkipIfKeyPressed { x } | Instruction::SkipIfKeyNotPressed { x } => {
                if self.v[x as int] >= 16 {
                    Some(Fault::KeyOutOfRange)
                } else {
                    None
                }
            },
            _ => None,
        }
    }

    /// The state after `instruction`, where it raises no fault. `random`
    /// is the byte that a `Random` instruction draws.
    pub open spec fn apply(self, instruction: Instruction, random: u8) -> Machine {
        match instruction {
            Instruction::ClearScreen => self.clear_screen(),
            Instruction::Return => self.return_subroutine(),
            Instruction::Jump { nnn } => self.jump(nnn),
            Instruction::Call { nnn } => self.call_subroutine(nnn),
            Instruction::SkipIfEqual { x, nn } => self.skip_if(self.v[x as int] == nn),
            Instruction::SkipIfNotEqual { x, nn } => self.skip_if(self.v[x as int] != nn),
            Instruction::SkipIfRegistersEqual { x, y } => self.skip_if(
                self.v[x as int] == self.v[y as int],
            ),
            Instruction::LoadImmediate { x, nn } => self.load_immediate(x as int, nn),
            Instruction::AddImmediate { x, nn } => self.add_immediate(x as int, nn),
            Instruction::Assign { x, y } => self.assign(x as int, y as int),
            Instruction::Or { x, y } => self.or(x as int, y as int),
            Instruction::And { x, y } => self.and(x as int, y as int),
            Instruction::Xor { x, y } => self.xor(x as int, y as int),
            Instruction::Add { x, y } => self.add_registers(x as int, y as int),
            Instruction::Subtract { x, y } => self.sub_registers(x as int, y as int),
            Instruction::ShiftRight { x } => self.shift_right(x as int),
            Instruction::SubtractReversed { x, y } => self.sub_reversed(x as int, y as int),
            Instruction::ShiftLeft { x } => self.shift_left(x as int),
            Instruction::SkipIfRegistersNotEqual { x, y } => self.skip_if(
                self.v[x as int] != self.v[y as int],
            ),
            Instruction::LoadIndex { nnn } => self.load_index(nnn),
            Instruction::JumpOffset { nnn } => self.jump_offset(nnn),
            Instruction::Random { x, nn } => self.random_masked(x as int, nn, random),
            Instruction::Draw { x, y, n } => self.draw(x as int, y as int, n as nat),
            Instruction::SkipIfKeyPressed { x } => self.skip_if(self.keys[self.v[x as int] as int]),
            Instruction::SkipIfKeyNotPressed { x } => self.skip_if(
                !self.keys[self.v[x as int] as int],
            ),
            Instruction::ReadDelay { x } => self.read_delay(x as int),
            Instruction::ReadKey { x } => self.read_key(x as int),
            Instruction::SetDelay { x } => self.set_delay(x as int),
            Instruction::SetSound { x } => self.set_sound(x as int),
            Instruction::AddIndex { x } => self.add_index(x as int),
            Instruction::FontAddress { x } => self.font_address(x as int),
            Instruction::StoreBcd { x } => self.store_bcd(x as int),
            Instruction::DumpRegisters { x } => self.dump_registers(x as int),
            Instruction::LoadRegisters { x } => self.load_registers(x as int),
        }
    }

    /// The fault that stops the execution of the word in `opcode`, if
    /// anything does: a counter that cannot be the address of an
    /// instruction, a word that is no instruction, or the instruction's
    /// own fault.
    pub open spec fn fault(self) -> Option<Fault> {
        if self.pc > 4094 {
            Some(Fault::ProgramCounterOutOfRange)
        } else {
            match decoded(self.opcode) {
                None => Some(Fault::UnknownOpcode),
                Some(instruction) => self.fault_of(instruction),
            }
        }
    }

    /// The state after the word in `opcode` was executed, where nothing
    /// stops it.
    pub open spec fn executed(self, random: u8) -> Machine {
        match decoded(self.opcode) {
            None => self,
            Some(instruction) => self.apply(instruction, random),
        }
    }

    /// The state after the fetch: `opcode` holds the word at the counter.
    pub open spec fn fetched(self) -> Machine {
        Machine {
            opcode: instruction_word(self.memory[self.pc as int], self.memory[self.pc + 1]),
            ..self
        }
    }

    /// The fault that stops a cycle, if anything does.
    pub open spec fn cycle_fault(self) -> Option<Fault> {
        if self.pc > 4094 {
            Some(Fault::ProgramCounterOutOfRange)
        } else {
            self.fetched().fault()
        }
    }

    /// The state in which a stopped cycle leaves the machine: the word is
    /// fetched where the counter allows it, and nothing else has happened.
    pub open spec fn halted(self) -> Machine {
        if self.pc > 4094 {
            self
        } else {
            self.fetched()
        }
    }

    /// The state after one full cycle: fetch, execute, then one tick of
    /// both timers.
    pub open spec fn cycled(self, random: u8) -> Machine {
        self.fetched().executed(random).tick()
    }

    /// The state after a program image was loaded. Only memory changes.
    pub open spec fn loaded(self, image: Seq<u8>) -> Machine {
        Machine { memory: loaded_memory(self.memory, image), ..self }
    }
}

} // verus!
