//! Properties of the machine that span several operations.
use vstd::prelude::*;
use crate::opcode::{decode_spec, family, field_n, field_nn, field_x, field_y, DecodeError, Opcode};
use crate::state::{
    in_memory, run_word, sprite_covers, ticks, Chip8Error, CpuState, SCREEN_HEIGHT, SCREEN_PIXELS,
    SCREEN_WIDTH, STACK_DEPTH,
};

verus! {

/// Loading `Vx` with an immediate and then adding an immediate to it leaves
/// their sum modulo 256 in `Vx`.
pub proof fn lemma_load_then_add_wraps(s: CpuState, load: u16, add: u16, r1: u8, r2: u8)
    requires
        s.wf(),
        family(load) == 6,
        family(add) == 7,
        field_x(load) == field_x(add),
    ensures
        run_word(s, load, r1) is Ok,
        run_word(run_word(s, load, r1)->Ok_0, add, r2) is Ok,
        run_word(run_word(s, load, r1)->Ok_0, add, r2)->Ok_0.registers[field_x(load)] == (
        field_nn(load) + field_nn(add)) % 256,
{
}

/// A call followed by a return comes back to the instruction after the
/// call, with the stack as it was before the call.
pub proof fn lemma_call_then_return(s: CpuState, call: u16, r1: u8, r2: u8)
    requires
        s.wf(),
        family(call) == 2,
        s.stack.len() < STACK_DEPTH,
    ensures
        run_word(s, call, r1) is Ok,
        run_word(run_word(s, call, r1)->Ok_0, 0x00EE, r2) is Ok,
        run_word(run_word(s, call, r1)->Ok_0, 0x00EE, r2)->Ok_0.pc == ((s.pc + 2) % 0x10000) as u16,
        run_word(run_word(s, call, r1)->Ok_0, 0x00EE, r2)->Ok_0.stack == s.stack,
{
    let t = run_word(s, call, r1)->Ok_0;
    assert(decode_spec(0x00EE) == Ok::<Opcode, DecodeError>(Opcode::RET));
    assert(t.stack.drop_last() =~= s.stack);
}

/// Drawing a sprite on a blank screen reports no collision; drawing the
/// same sprite again at the same place turns all its pixels off again and
/// reports a collision. The sprite must light at least one pixel, and its
/// coordinates must not be held in VF, which the first draw overwrites.
pub proof fn lemma_draw_twice(s: CpuState, draw: u16, r1: u8, r2: u8)
    requires
        s.wf(),
        family(draw) == 0xD,
        field_x(draw) != 0xF,
        field_y(draw) != 0xF,
        in_memory(s.index as int, field_n(draw)),
        forall|p: int| 0 <= p < SCREEN_PIXELS ==> !s.display[p],
        exists|p: int|
            0 <= p < SCREEN_PIXELS && #[trigger] sprite_covers(
                s.memory,
                s.index as int,
                field_n(draw),
                s.registers[field_x(draw)] as int % SCREEN_WIDTH as int,
                s.registers[field_y(draw)] as int % SCREEN_HEIGHT as int,
                p,
            ),
    ensures
        run_word(s, draw, r1) is Ok,
        run_word(s, draw, r1)->Ok_0.registers[0xF] == 0,
        run_word(run_word(s, draw, r1)->Ok_0, draw, r2) is Ok,
        run_word(run_word(s, draw, r1)->Ok_0, draw, r2)->Ok_0.registers[0xF] == 1,
        run_word(run_word(s, draw, r1)->Ok_0, draw, r2)->Ok_0.display == s.display,
{
    let t = run_word(s, draw, r1)->Ok_0;
    let u = run_word(t, draw, r2)->Ok_0;
    let rows = field_n(draw);
    let x0 = s.registers[field_x(draw)] as int % SCREEN_WIDTH as int;
    let y0 = s.registers[field_y(draw)] as int % SCREEN_HEIGHT as int;
    assert(t.registers[field_x(draw)] == s.registers[field_x(draw)]);
    assert(t.registers[field_y(draw)] == s.registers[field_y(draw)]);
    let p = choose|p: int|
        0 <= p < SCREEN_PIXELS && #[trigger] sprite_covers(s.memory, s.index as int, rows, x0, y0, p);
    assert(t.display[p]);
    assert(u.display =~= s.display);
}

/// `k` calls in a row of the subroutine at the address of `call`.
pub open spec fn nested_calls(s: CpuState, call: u16, k: nat) -> Result<CpuState, Chip8Error>
    decreases k,
{
    if k == 0 {
        Ok(s)
    } else {
        match nested_calls(s, call, (k - 1) as nat) {
            Ok(t) => run_word(t, call, 0),
            Err(e) => Err(e),
        }
    }
}

/// A call succeeds and saves one more return address exactly when fewer
/// than sixteen are saved, and fails with a stack overflow otherwise; a
/// return with none saved fails with a stack underflow.
pub proof fn lemma_stack_bounds(s: CpuState, call: u16, random: u8)
    requires
        s.wf(),
        family(call) == 2,
    ensures
        s.stack.len() < STACK_DEPTH ==> run_word(s, call, random) is Ok && run_word(
            s,
            call,
            random,
        )->Ok_0.stack.len() == s.stack.len() + 1 && run_word(s, call, random)->Ok_0.wf(),
        s.stack.len() == STACK_DEPTH ==> run_word(s, call, random) == Err::<CpuState, Chip8Error>(
            Chip8Error::StackOverflow,
        ),
        s.stack.len() == 0 ==> run_word(s, 0x00EE, random) == Err::<CpuState, Chip8Error>(
            Chip8Error::StackUnderflow,
        ),
{
    assert(decode_spec(0x00EE) == Ok::<Opcode, DecodeError>(Opcode::RET));
}

/// From an empty stack, up to sixteen nested calls succeed, each saving one
/// more return address.
pub proof fn lemma_nested_calls_fit(s: CpuState, call: u16, k: nat)
    requires
        s.wf(),
        family(call) == 2,
        s.stack.len() == 0,
        k <= STACK_DEPTH,
    ensures
        nested_calls(s, call, k) is Ok,
        nested_calls(s, call, k)->Ok_0.wf(),
        nested_calls(s, call, k)->Ok_0.stack.len() == k,
    decreases k,
{
    if k > 0 {
        lemma_nested_calls_fit(s, call, (k - 1) as nat);
        lemma_stack_bounds(nested_calls(s, call, (k - 1) as nat)->Ok_0, call, 0);
    }
}

/// From an empty stack, sixteen nested calls succeed and a seventeenth
/// fails with a stack overflow.
pub proof fn lemma_seventeenth_call_overflows(s: CpuState, call: u16)
    requires
        s.wf(),
        family(call) == 2,
        s.stack.len() == 0,
    ensures
        nested_calls(s, call, 16) is Ok,
        nested_calls(s, call, 17) == Err::<CpuState, Chip8Error>(Chip8Error::StackOverflow),
{
    lemma_nested_calls_fit(s, call, 16);
    lemma_stack_bounds(nested_calls(s, call, 16)->Ok_0, call, 0);
}

/// A timer at zero stays at zero however often it is ticked.
pub proof fn lemma_tick_floor(s: CpuState, k: nat)
    ensures
        s.delay == 0 ==> ticks(s, k).delay == 0,
        s.sound == 0 ==> ticks(s, k).sound == 0,
    decreases k,
{
    if k > 0 {
        lemma_tick_floor(s, (k - 1) as nat);
    }
}

} // verus!
