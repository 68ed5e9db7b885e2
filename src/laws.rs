use crate::display::{sprite_rects, DirectiveView};
use crate::instruction::{decode_spec, Instruction};
use crate::keyboard::held_code;
use crate::machine::{
    drawn_sprite, exec_spec, fetchable, initial_memory, load_regs, prepared, step_spec, store_regs,
    with_rom, word_at, MachineState, MAX_ROM_LEN, MEMORY_SIZE, PROGRAM_START,
};
use crate::registers::{lemma_with_vx, Registers};
use vstd::prelude::*;

verus! {

/// Loading a program puts its bytes at `[PROGRAM_START, PROGRAM_START + len)` and leaves
/// every other byte as it was, so the glyphs at the bottom of memory stay intact.
pub proof fn lemma_load_places_rom(mem: Seq<u8>, rom: Seq<u8>)
    requires
        mem.len() == MEMORY_SIZE,
        rom.len() <= MAX_ROM_LEN,
    ensures
        with_rom(mem, rom).len() == MEMORY_SIZE,
        with_rom(mem, rom).subrange(PROGRAM_START as int, PROGRAM_START + rom.len()) == rom,
        forall|a: int|
            0 <= a < MEMORY_SIZE && !(PROGRAM_START <= a < PROGRAM_START + rom.len())
                ==> #[trigger] with_rom(mem, rom)[a] == mem[a],
        mem == initial_memory() ==> with_rom(mem, rom).subrange(0, 80) == initial_memory().subrange(0, 80),
{
    assert(with_rom(mem, rom).subrange(PROGRAM_START as int, PROGRAM_START + rom.len()) =~= rom);
    assert(mem == initial_memory() ==> with_rom(mem, rom).subrange(0, 80) =~= initial_memory().subrange(0, 80));
}

/// A call followed at once by a return brings the program counter, the stack and the
/// stack pointer back to what they were before the call.
pub proof fn lemma_call_then_return(s: MachineState, addr: u16, rnd: u8)
    ensures
        ({
            let (s1, o1) = exec_spec(s, Instruction::Call(addr), rnd);
            let (s2, o2) = exec_spec(s1, Instruction::Return, rnd);
            &&& o1 == Ok::<DirectiveView, crate::error::ChipError>(DirectiveView::NoOp)
            &&& s1.regs.program_counter == addr
            &&& o2 == Ok::<DirectiveView, crate::error::ChipError>(DirectiveView::NoOp)
            &&& s2.regs.program_counter == s.regs.program_counter
            &&& s2.regs.stack_pointer == s.regs.stack_pointer
            &&& s2.stack == s.stack
        }),
{
    let (s1, o1) = exec_spec(s, Instruction::Call(addr), rnd);
    assert(s1.stack.drop_last() =~= s.stack);
}

/// After a clear the sprite list is empty, and a draw that follows reports the squares of
/// the new sprite alone and leaves it as the only sprite.
pub proof fn lemma_clear_then_draw(s: MachineState, x: u8, y: u8, n: u8, rnd: u8)
    ensures
        ({
            let (s1, o1) = exec_spec(s, Instruction::ClearScreen, rnd);
            let (s2, o2) = exec_spec(s1, Instruction::Draw(x, y, n), rnd);
            let sp = drawn_sprite(s1, x, y, n);
            &&& o1 == Ok::<DirectiveView, crate::error::ChipError>(DirectiveView::ClearScreen)
            &&& s1.sprites.len() == 0
            &&& o2 is Ok ==> s2.sprites == seq![sp]
                && o2 == Ok::<DirectiveView, crate::error::ChipError>(
                    DirectiveView::Draw(sprite_rects(sp.bytes, sp.x as int, sp.y as int)),
                )
        }),
{
    let (s1, o1) = exec_spec(s, Instruction::ClearScreen, rnd);
    let sp = drawn_sprite(s1, x, y, n);
    assert(s1.sprites.push(sp) =~= seq![sp]);
}

/// With no mapped key held, waiting for a key moves the program counter back over the
/// wait (two bytes, undoing its fetch) and changes nothing else; with a mapped key held,
/// its code goes into the register and the program counter stays.
pub proof fn lemma_wait_key(s: MachineState, x: u8, rnd: u8)
    ensures
        held_code(s.held) is None ==> exec_spec(s, Instruction::WaitKey(x), rnd) == (
            s.with_pc(s.regs.program_counter.wrapping_sub(2)),
            Ok::<DirectiveView, crate::error::ChipError>(DirectiveView::NoOp),
        ),
        held_code(s.held) is Some && x < 16 ==> ({
            let (s1, o1) = exec_spec(s, Instruction::WaitKey(x), rnd);
            &&& o1 == Ok::<DirectiveView, crate::error::ChipError>(DirectiveView::NoOp)
            &&& s1.vx(x) == held_code(s.held)->Some_0
            &&& s1.regs.program_counter == s.regs.program_counter
        }),
{
    if held_code(s.held) is Some && x < 16 {
        lemma_with_vx(s.regs, x as int, held_code(s.held)->Some_0, x as int);
    }
}

/// A step on a key wait with no mapped key held leaves the program counter on the wait,
/// so the next step runs it again; only the timers move.
pub proof fn lemma_step_wait_key_no_key(s: MachineState, rnd: u8)
    requires
        fetchable(s.regs.program_counter),
        decode_spec(word_at(s.memory, s.regs.program_counter as int)) is WaitKey,
        held_code(s.held) is None,
    ensures
        step_spec(s, rnd).0.regs.program_counter == s.regs.program_counter,
        step_spec(s, rnd).0 == prepared(s).with_pc(s.regs.program_counter),
        step_spec(s, rnd).1 == Ok::<DirectiveView, crate::error::ChipError>(DirectiveView::NoOp),
{
}

/// Storing `V0..=Vx` writes exactly `x + 1` bytes from `base`, register `k` at `base + k`,
/// and leaves every other byte as it was.
pub proof fn lemma_store_regs(mem: Seq<u8>, r: Registers, base: int, n: nat)
    requires
        n <= 16,
        0 <= base,
        base + n <= mem.len(),
    ensures
        store_regs(mem, r, base, n).len() == mem.len(),
        forall|a: int|
            0 <= a < mem.len() ==> #[trigger] store_regs(mem, r, base, n)[a] == if base <= a < base + n {
                r.vx(a - base)
            } else {
                mem[a]
            },
    decreases n,
{
    if n > 0 {
        lemma_store_regs(mem, r, base, (n - 1) as nat);
    }
}

/// Loading `V0..=Vx` sets register `k` to the byte at `base + k` for `k <= x`, leaves the
/// other general-purpose registers, and leaves the index register and the program counter.
pub proof fn lemma_load_regs(r: Registers, mem: Seq<u8>, base: int, n: nat)
    requires
        n <= 16,
    ensures
        load_regs(r, mem, base, n).i == r.i,
        load_regs(r, mem, base, n).program_counter == r.program_counter,
        load_regs(r, mem, base, n).stack_pointer == r.stack_pointer,
        load_regs(r, mem, base, n).delay_timer == r.delay_timer,
        load_regs(r, mem, base, n).sound_timer == r.sound_timer,
        forall|m: int|
            0 <= m < 16 ==> #[trigger] load_regs(r, mem, base, n).vx(m) == if m < n {
                mem[base + m]
            } else {
                r.vx(m)
            },
    decreases n,
{
    if n > 0 {
        let prev = load_regs(r, mem, base, (n - 1) as nat);
        lemma_load_regs(r, mem, base, (n - 1) as nat);
        assert forall|m: int| 0 <= m < 16 implies #[trigger] load_regs(r, mem, base, n).vx(m) == if m < n {
            mem[base + m]
        } else {
            r.vx(m)
        } by {
            lemma_with_vx(prev, n - 1, mem[base + n - 1], m);
        }
        lemma_with_vx(prev, n - 1, mem[base + n - 1], 0);
    }
}

/// `StoreRegI(x)` copies exactly `V0..=Vx` to `I..=I+x` and changes no register;
/// `LoadRegI(x)` copies exactly `I..=I+x` into `V0..=Vx`, changes no other register,
/// not `I`, and no memory.
pub proof fn lemma_block_copy(s: MachineState, x: u8, rnd: u8)
    requires
        s.memory.len() == MEMORY_SIZE,
        x < 16,
        s.regs.i + x + 1 <= MEMORY_SIZE,
    ensures
        ({
            let (s1, o1) = exec_spec(s, Instruction::StoreRegI(x), rnd);
            &&& o1 is Ok
            &&& s1.regs == s.regs
            &&& s1.memory.len() == s.memory.len()
            &&& forall|a: int|
                0 <= a < MEMORY_SIZE ==> #[trigger] s1.memory[a] == if s.regs.i <= a <= s.regs.i + x {
                    s.vx((a - s.regs.i) as u8)
                } else {
                    s.memory[a]
                }
        }),
        ({
            let (s2, o2) = exec_spec(s, Instruction::LoadRegI(x), rnd);
            &&& o2 is Ok
            &&& s2.memory == s.memory
            &&& s2.regs.i == s.regs.i
            &&& s2.regs.program_counter == s.regs.program_counter
            &&& forall|m: u8|
                m < 16 ==> #[trigger] s2.vx(m) == if m <= x {
                    s.memory[s.regs.i + m]
                } else {
                    s.vx(m)
                }
        }),
{
    lemma_store_regs(s.memory, s.regs, s.regs.i as int, (x + 1) as nat);
    lemma_load_regs(s.regs, s.memory, s.regs.i as int, (x + 1) as nat);
    let (s1, o1) = exec_spec(s, Instruction::StoreRegI(x), rnd);
    assert forall|a: int|
        0 <= a < MEMORY_SIZE implies #[trigger] s1.memory[a] == if s.regs.i <= a <= s.regs.i + x {
            s.vx((a - s.regs.i) as u8)
        } else {
            s.memory[a]
        } by {}
    let (s2, o2) = exec_spec(s, Instruction::LoadRegI(x), rnd);
    assert forall|m: u8| m < 16 implies #[trigger] s2.vx(m) == if m <= x {
        s.memory[s.regs.i + m]
    } else {
        s.vx(m)
    } by {
        assert(s2.regs.vx(m as int) == load_regs(s.regs, s.memory, s.regs.i as int, (x + 1) as nat).vx(m as int));
    }
}

} // verus!
