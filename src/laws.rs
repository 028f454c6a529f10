use vstd::prelude::*;
use crate::chip8::{Machine, RunState, MEMORY_SIZE, STACK_DEPTH};
use crate::display::{collides, covers, drawn, NUM_PIXELS};
use crate::instruction::{decode_spec, fields_in_range, Instruction};

verus! {

/// Instructions that skip the next one on a condition.
pub open spec fn is_skip(inst: Instruction) -> bool {
    match inst {
        Instruction::SkipEqByte { .. } | Instruction::SkipNeByte { .. }
        | Instruction::SkipEqReg { .. } | Instruction::SkipNeReg { .. }
        | Instruction::SkipKeyDown { .. } | Instruction::SkipKeyUp { .. } => true,
        _ => false,
    }
}

/// Instructions that set `pc` themselves, or suspend the machine.
pub open spec fn transfers_control(inst: Instruction) -> bool {
    match inst {
        Instruction::Ret | Instruction::Jump { .. } | Instruction::Call { .. }
        | Instruction::JumpOffset { .. } | Instruction::WaitKey { .. } => true,
        _ => false,
    }
}

/// Whether a skip instruction's condition holds on `m`.
pub open spec fn skip_taken(m: Machine, inst: Instruction) -> bool {
    match inst {
        Instruction::SkipEqByte { x, kk } => m.v[x as int] == kk,
        Instruction::SkipNeByte { x, kk } => m.v[x as int] != kk,
        Instruction::SkipEqReg { x, y } => m.v[x as int] == m.v[y as int],
        Instruction::SkipNeReg { x, y } => m.v[x as int] != m.v[y as int],
        Instruction::SkipKeyDown { x } => m.key_down(m.v[x as int] as int),
        Instruction::SkipKeyUp { x } => !m.key_down(m.v[x as int] as int),
        _ => false,
    }
}

/// For every pair of operand values: `8xy4` sets `VF` to 1 exactly when the true sum
/// passes 255, and `8xy5` / `8xy7` set it to 1 exactly when the minuend is strictly
/// greater, leaving the wrapped result in `Vx`. A subtraction into `VF` itself leaves the
/// result there, so its flag is stated for `x` other than `F`.
pub proof fn law_arithmetic_flags(m: Machine, x: u8, y: u8, rnd: u8)
    requires
        m.wf(),
        x < 16,
        y < 16,
    ensures
        ({
            let r = m.execute((Instruction::AddReg { x, y }), rnd);
            &&& r.v[15] == if m.v[x as int] + m.v[y as int] > 255 { 1u8 } else { 0u8 }
            &&& x != 15 ==> r.v[x as int] == (m.v[x as int] + m.v[y as int]) % 256
        }),
        x != 15 ==> ({
            let r = m.execute((Instruction::Sub { x, y }), rnd);
            &&& r.v[15] == if m.v[x as int] > m.v[y as int] { 1u8 } else { 0u8 }
            &&& r.v[x as int] == (m.v[x as int] - m.v[y as int] + 256) % 256
        }),
        x != 15 ==> ({
            let r = m.execute((Instruction::SubReversed { x, y }), rnd);
            &&& r.v[15] == if m.v[y as int] > m.v[x as int] { 1u8 } else { 0u8 }
            &&& r.v[x as int] == (m.v[y as int] - m.v[x as int] + 256) % 256
        }),
{
}

/// An instruction that neither skips nor sets `pc` moves `pc` on by exactly 2 unless it
/// faults; a skip moves it on by 4 when its condition holds and by 2 when it does not.
pub proof fn law_pc_advance(m: Machine, inst: Instruction, rnd: u8)
    requires
        m.wf(),
        m.state == RunState::Running,
        m.pc + 1 < MEMORY_SIZE,
        fields_in_range(inst),
    ensures
        !transfers_control(inst) && !is_skip(inst) && !(m.execute(inst, rnd).state is Halted)
            ==> m.execute(inst, rnd).pc == m.pc + 2,
        is_skip(inst) ==> m.execute(inst, rnd).pc == m.pc + if skip_taken(m, inst) {
            4int
        } else {
            2int
        },
{
}

/// A return right after a call brings `pc` back to the instruction after the call, with
/// the stack as it was.
pub proof fn law_call_then_return(m: Machine, nnn: u16, rnd: u8)
    requires
        m.wf(),
        m.sp < STACK_DEPTH,
        m.pc + 1 < MEMORY_SIZE,
        nnn < 4096,
    ensures
        ({
            let r = m.execute((Instruction::Call { nnn }), rnd).execute(Instruction::Ret, rnd);
            &&& r.pc == m.pc + 2
            &&& r.sp == m.sp
            &&& r.state == m.state
        }),
{
}

/// `Dxyn` sets `VF` to 1 exactly when a set bit of the sprite lands on a pixel that is
/// on, and to 0 otherwise.
pub proof fn law_draw_flag(m: Machine, x: u8, y: u8, n: u8, rnd: u8)
    requires
        m.wf(),
        x < 16,
        y < 16,
        n < 16,
        m.i + n <= MEMORY_SIZE,
    ensures
        ({
            let r = m.execute((Instruction::Draw { x, y, n }), rnd);
            let sprite = m.memory.subrange(m.i as int, m.i + n);
            &&& r.v[15] == 1 <==> collides(
                m.display,
                sprite,
                m.v[x as int] as int,
                m.v[y as int] as int,
            )
            &&& r.v[15] == 0 || r.v[15] == 1
        }),
{
}

/// Drawing the same sprite twice at the same place restores the screen. Where every
/// pixel the sprite covers was off and it has a set bit, the first draw reports no
/// collision and the second one does.
pub proof fn law_draw_twice(pixels: Seq<bool>, sprite: Seq<u8>, x: int, y: int)
    requires
        pixels.len() == NUM_PIXELS,
    ensures
        drawn(drawn(pixels, sprite, x, y), sprite, x, y) == pixels,
        (forall|p: int| 0 <= p < NUM_PIXELS && #[trigger] covers(sprite, x, y, p) ==> !pixels[p])
            ==> !collides(pixels, sprite, x, y),
        (forall|p: int| 0 <= p < NUM_PIXELS && #[trigger] covers(sprite, x, y, p) ==> !pixels[p])
            && (exists|p: int| 0 <= p < NUM_PIXELS && #[trigger] covers(sprite, x, y, p))
            ==> collides(drawn(pixels, sprite, x, y), sprite, x, y),
{
    assert(drawn(drawn(pixels, sprite, x, y), sprite, x, y) =~= pixels);
}

/// `Fx0A` suspends the machine with `pc` unchanged; while it waits, steps change nothing
/// and releasing a key does not resume it; a key press resumes it with the key's index
/// in `Vx` and `pc` moved on once, by 2.
pub proof fn law_wait_for_key(m: Machine, x: u8, k: u8, rnd: u8)
    requires
        m.wf(),
        m.state == RunState::Running,
        m.pc + 1 < MEMORY_SIZE,
        decode_spec(m.opcode()) == Some(Instruction::WaitKey { x }),
        k < 16,
    ensures
        ({
            let w = m.step(rnd);
            &&& w.state == (RunState::AwaitingKey { x })
            &&& w.pc == m.pc
            &&& forall|r: u8| #[trigger] w.step(r) == w
            &&& w.set_key(k, false).state == (RunState::AwaitingKey { x })
            &&& w.set_key(k, true).state == RunState::Running
            &&& w.set_key(k, true).pc == m.pc + 2
            &&& w.set_key(k, true).v[x as int] == k
        }),
{
}

/// `Fx55` followed by `Fx65` with the same `x` and `I` leaves every register as it was.
pub proof fn law_store_load_round_trip(m: Machine, x: u8, r1: u8, r2: u8)
    requires
        m.wf(),
        x < 16,
    ensures
        m.execute((Instruction::StoreRegs { x }), r1).execute((Instruction::LoadRegs { x }), r2).v
            == m.v,
{
    let s = m.execute(Instruction::StoreRegs { x }, r1);
    if m.i + x + 1 <= MEMORY_SIZE {
        assert(s.loaded(x as int) =~= m.v);
    }
}

} // verus!
