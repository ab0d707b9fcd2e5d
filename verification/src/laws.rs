use vstd::prelude::*;
use crate::instruction::{decoded, Instruction};
use crate::machine::{first_pressed, first_pressed_from, Machine};

verus! {

/// A call followed at once by a return leaves the counter two bytes
/// behind the call, the stack pointer where it was before the call.
pub proof fn lemma_call_then_return(s: Machine, nnn: u16)
    requires
        s.wf(),
        s.sp < 15,
        s.pc + 2 <= u16::MAX,
    ensures
        s.call_subroutine(nnn).return_subroutine().pc == s.pc + 2,
        s.call_subroutine(nnn).return_subroutine().sp == s.sp,
{
}

/// Registers 0 to `x` dumped to memory and loaded again have the values
/// they had, and so have all the others.
pub proof fn lemma_dump_then_load(s: Machine, x: int)
    requires
        s.wf(),
        0 <= x < 16,
        s.i + x < 4096,
    ensures
        s.dump_registers(x).load_registers(x).v == s.v,
{
}

/// The three bytes that store-bcd writes are the decimal digits of
/// `V[x]`: each is below ten, and they spell the value.
pub proof fn lemma_store_bcd_digits(s: Machine, x: int)
    requires
        s.wf(),
        0 <= x < 16,
        s.i + 2 < 4096,
    ensures
        ({
            let t = s.store_bcd(x);
            &&& t.memory[s.i as int] < 10
            &&& t.memory[s.i + 1] < 10
            &&& t.memory[s.i + 2] < 10
            &&& t.memory[s.i as int] * 100 + t.memory[s.i + 1] * 10 + t.memory[s.i + 2] == s.v[x]
        }),
{
}

/// `first_pressed_from` finds the lowest key at or above `from` that is
/// held down.
pub proof fn lemma_first_pressed_from(keys: Seq<bool>, from: int)
    requires
        0 <= from <= 16,
    ensures
        from <= first_pressed_from(keys, from) <= 16,
        first_pressed_from(keys, from) < 16 ==> keys[first_pressed_from(keys, from)],
        forall|k: int| from <= k < first_pressed_from(keys, from) ==> !keys[k],
    decreases 16 - from,
{
    if from < 16 && !keys[from] {
        lemma_first_pressed_from(keys, from + 1);
    }
}

/// The key that a waiting read-key takes is the lowest one held down;
/// the result is 16 exactly when no key is.
pub proof fn lemma_first_pressed(keys: Seq<bool>)
    ensures
        0 <= first_pressed(keys) <= 16,
        first_pressed(keys) < 16 ==> keys[first_pressed(keys)],
        forall|k: int| 0 <= k < first_pressed(keys) ==> !keys[k],
{
    lemma_first_pressed_from(keys, 0);
}

/// Only the random instruction looks at the random byte: every other
/// word leads to one state whatever was drawn.
pub proof fn lemma_random_byte_is_used_by_random_only(s: Machine, first: u8, second: u8)
    ensures
        !(decoded(s.opcode) matches Some(Instruction::Random { .. })) ==> s.executed(first)
            == s.executed(second),
        !(decoded(s.fetched().opcode) matches Some(Instruction::Random { .. })) ==> s.cycled(first)
            == s.cycled(second),
{
}

/// A timer that no instruction sets in a cycle goes down by one in it, and
/// stays at zero once it is there.
pub proof fn lemma_cycle_ticks_timers(s: Machine, random: u8)
    requires
        s.wf(),
        s.cycle_fault() is None,
    ensures
        !(decoded(s.fetched().opcode) matches Some(Instruction::SetDelay { .. }))
            ==> s.cycled(random).delay_timer == if s.delay_timer > 0 {
            s.delay_timer - 1
        } else {
            0
        },
        !(decoded(s.fetched().opcode) matches Some(Instruction::SetSound { .. }))
            ==> s.cycled(random).sound_timer == if s.sound_timer > 0 {
            s.sound_timer - 1
        } else {
            0
        },
{
    let f = s.fetched();
    match decoded(f.opcode) {
        Some(Instruction::Draw { x, y, n }) => {
            lemma_blit_sprite_frame(f.with_register(0xF, 0), x as int, y as int, n as nat);
        },
        _ => {},
    }
}

/// A row of a sprite changes nothing but registers and screen, whatever
/// the register operand.
pub proof fn lemma_blit_row_frame(s: Machine, x: int, row: int, sprite: u8, count: nat)
    requires
        s.wf(),
        0 <= x < 16,
        0 <= row < 32,
    ensures
        ({
            let t = s.blit_row(x, row, sprite, count);
            &&& t.wf()
            &&& t == (Machine { v: t.v, screen: t.screen, ..s })
        }),
    decreases count,
{
    if count > 0 {
        lemma_blit_row_frame(s, x, row, sprite, (count - 1) as nat);
    }
}

/// The rows of a sprite change nothing but registers and screen, whatever
/// the register operands.
pub proof fn lemma_blit_sprite_frame(s: Machine, x: int, y: int, rows: nat)
    requires
        s.wf(),
        0 <= x < 16,
        0 <= y < 16,
    ensures
        ({
            let t = s.blit_sprite(x, y, rows);
            &&& t.wf()
            &&& t == (Machine { v: t.v, screen: t.screen, ..s })
        }),
    decreases rows,
{
    if rows > 0 {
        lemma_blit_sprite_frame(s, x, y, (rows - 1) as nat);
        let before = s.blit_sprite(x, y, (rows - 1) as nat);
        lemma_blit_row_frame(
            before,
            x,
            (before.v[y] + rows - 1) % 32,
            before.memory[before.i + rows - 1],
            8,
        );
    }
}

/// Executing a word that raises no fault keeps the machine well formed.
pub proof fn lemma_executed_wf(s: Machine, random: u8)
    requires
        s.wf(),
        s.fault() is None,
    ensures
        s.executed(random).wf(),
{
    match decoded(s.opcode) {
        Some(Instruction::Draw { x, y, n }) => {
            lemma_blit_sprite_frame(s.with_register(0xF, 0), x as int, y as int, n as nat);
        },
        Some(Instruction::ReadKey { x }) => {
            lemma_first_pressed(s.keys);
        },
        _ => {},
    }
}

/// A cycle that no fault stops keeps the machine well formed.
pub proof fn lemma_cycled_wf(s: Machine, random: u8)
    requires
        s.wf(),
        s.cycle_fault() is None,
    ensures
        s.cycled(random).wf(),
{
    lemma_executed_wf(s.fetched(), random);
}

} // verus!
