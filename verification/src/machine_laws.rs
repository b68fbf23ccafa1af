//! What holds of the machine in every state.
use crate::display::lemma_draw_rows_grid;
use crate::instruction::{decode_spec, nibble_x, Instruction};
use crate::machine::{MachineState, StepError};
use vstd::prelude::*;

verus! {

/// Executing an instruction keeps the machine well formed.
pub proof fn lemma_perform_wf(s: MachineState, instr: Instruction, random: u8)
    requires
        s.wf(),
        instr.wf(),
    ensures
        s.perform(instr, random).wf(),
{
    match instr {
        Instruction::Draw { x, y, rows } => {
            lemma_draw_rows_grid(
                s.display,
                s.reg(x) as int,
                s.reg(y) as int,
                s.sprite(rows as int),
                rows as int,
            );
        },
        _ => {},
    }
}

/// A step keeps the machine well formed.
pub proof fn lemma_step_wf(s: MachineState, random: u8)
    requires
        s.wf(),
    ensures
        s.step(random).wf(),
{
    if !s.waiting_key {
        match decode_spec(s.fetch()) {
            Some(instr) => {
                crate::instruction::lemma_decode_wf(s.fetch());
                lemma_perform_wf(s, instr, random);
            },
            None => {},
        }
    }
}

/// Only the random-number instruction depends on the random byte.
pub proof fn lemma_random_only_for_random(s: MachineState, instr: Instruction, r1: u8, r2: u8)
    requires
        !(instr is Random),
    ensures
        s.perform(instr, r1) == s.perform(instr, r2),
{
}

/// An instruction that faults leaves the machine as it was.
pub proof fn lemma_fault_changes_nothing(s: MachineState, instr: Instruction, random: u8)
    requires
        s.result_of(instr) is Err,
    ensures
        s.perform(instr, random) == s,
{
}

/// The glyphs stay where they are: no instruction changes the first 80
/// bytes of memory, except a store through an index register that points
/// into them.
pub proof fn lemma_glyphs_stay(s: MachineState, instr: Instruction, random: u8)
    requires
        s.wf(),
        instr.wf(),
        (instr is StoreDecimal || instr is StoreRegisters) ==> s.i >= 80,
    ensures
        s.perform(instr, random).memory.subrange(0, 80) == s.memory.subrange(0, 80),
{
}

/// Loading a program, a key event and a timer tick leave the glyphs and
/// everything else below the program area alone.
pub proof fn lemma_host_keeps_low_memory(s: MachineState, program: Seq<u8>, e: Event)
    requires
        s.wf(),
        e.wf(),
        !(e is Step),
    ensures
        s.load(program).memory.subrange(0, 0x200) == s.memory.subrange(0, 0x200),
        react(s, e).memory == s.memory,
{
}

/// What each part of the machine is changed by: the display only by drawing
/// and clearing, memory only by the two stores, the stack only by call and
/// return, each timer only by the instruction that sets it, the wait only by
/// the instruction that starts it, and the keypad by no instruction at all.
pub proof fn lemma_frame(s: MachineState, instr: Instruction, random: u8)
    ensures
        !(instr is Draw || instr is ClearScreen) ==> s.perform(instr, random).display
            == s.display,
        !(instr is StoreDecimal || instr is StoreRegisters) ==> s.perform(instr, random).memory
            == s.memory,
        !(instr is Call || instr is Return) ==> s.perform(instr, random).stack == s.stack
            && s.perform(instr, random).sp == s.sp,
        !(instr is SetDelay) ==> s.perform(instr, random).delay_timer == s.delay_timer,
        !(instr is SetSound) ==> s.perform(instr, random).sound_timer == s.sound_timer,
        !(instr is WaitKey) ==> s.perform(instr, random).waiting_key == s.waiting_key,
        s.perform(instr, random).keypad == s.keypad,
{
}

/// Adding an immediate wraps modulo 256 and leaves the flag register
/// alone.
pub proof fn lemma_add_immediate(s: MachineState, x: usize, value: u8, random: u8)
    requires
        s.wf(),
        x < 16,
    ensures
        s.result_of(Instruction::Add { x, value }) is Ok,
        s.perform(Instruction::Add { x, value }, random).reg(x) == (s.reg(x) + value) % 256,
        x != 0xF ==> s.perform(Instruction::Add { x, value }, random).reg(0xF) == s.reg(0xF),
{
}

/// Adding a register to another wraps modulo 256 and sets the flag register
/// to the carry: 1 if the sum exceeds 255, else 0.
pub proof fn lemma_add_with_carry(s: MachineState, x: usize, y: usize, random: u8)
    requires
        s.wf(),
        x < 0xF,
        y < 16,
    ensures
        s.result_of(Instruction::AddCarry { x, y }) is Ok,
        s.perform(Instruction::AddCarry { x, y }, random).reg(x) == (s.reg(x) + s.reg(y)) % 256,
        s.perform(Instruction::AddCarry { x, y }, random).reg(0xF) == (if s.reg(x) + s.reg(y)
            > 255 {
            1int
        } else {
            0int
        }),
{
}

/// Subtracting a register from another wraps modulo 256 and sets the flag
/// register to 1 if the minuend is greater than the subtrahend, else to 0.
pub proof fn lemma_subtract(s: MachineState, x: usize, y: usize, random: u8)
    requires
        s.wf(),
        x < 0xF,
        y < 0xF,
    ensures
        s.result_of(Instruction::Subtract { x, y }) is Ok,
        s.perform(Instruction::Subtract { x, y }, random).reg(x) == (s.reg(x) - s.reg(y)) % 256,
        s.perform(Instruction::Subtract { x, y }, random).reg(0xF) == (if s.reg(x) > s.reg(y) {
            1int
        } else {
            0int
        }),
        s.result_of(Instruction::SubtractReversed { x, y }) is Ok,
        s.perform(Instruction::SubtractReversed { x, y }, random).reg(x) == (s.reg(y) - s.reg(x))
            % 256,
        s.perform(Instruction::SubtractReversed { x, y }, random).reg(0xF) == (if s.reg(y)
            > s.reg(x) {
            1int
        } else {
            0int
        }),
{
}

/// The state after the calls to `addrs`, each made as the first instruction
/// of the subroutine before it.
pub open spec fn nest(s: MachineState, addrs: Seq<u16>) -> MachineState
    decreases addrs.len(),
{
    if addrs.len() == 0 {
        s
    } else {
        nest(s, addrs.drop_last()).perform(Instruction::Call { addr: addrs.last() }, 0)
    }
}

/// The state after `n` returns in a row.
pub open spec fn unwind(s: MachineState, n: nat) -> MachineState
    decreases n,
{
    if n == 0 {
        s
    } else {
        unwind(s.perform(Instruction::Return, 0), (n - 1) as nat)
    }
}

/// A call on a full stack is a stack overflow, a return on an empty one a
/// stack underflow; all other calls and returns succeed.
pub proof fn lemma_stack_faults(s: MachineState, addr: u16)
    ensures
        s.result_of(Instruction::Call { addr }) == (if s.sp == 16 {
            Err::<(), StepError>(StepError::StackOverflow)
        } else {
            Ok::<(), StepError>(())
        }),
        s.result_of(Instruction::Return) == (if s.sp == 0 {
            Err::<(), StepError>(StepError::StackUnderflow)
        } else {
            Ok::<(), StepError>(())
        }),
{
}

/// Nested calls that fit on the stack all succeed: each pushes one address
/// and leaves what is below it alone, and the first pushes the address of
/// the instruction behind it.
pub proof fn lemma_nest(s: MachineState, addrs: Seq<u16>)
    requires
        s.wf(),
        s.sp + addrs.len() <= 16,
        forall|k: int| 0 <= k < addrs.len() ==> addrs[k] < 4096,
    ensures
        nest(s, addrs).wf(),
        nest(s, addrs).sp == s.sp + addrs.len(),
        forall|k: int| 0 <= k < s.sp ==> nest(s, addrs).stack[k] == s.stack[k],
        addrs.len() > 0 ==> nest(s, addrs).stack[s.sp] == s.return_address(),
        addrs.len() > 0 ==> nest(s, addrs).pc == addrs.last(),
    decreases addrs.len(),
{
    if addrs.len() > 0 {
        let before = nest(s, addrs.drop_last());
        let call = Instruction::Call { addr: addrs.last() };
        lemma_nest(s, addrs.drop_last());
        lemma_perform_wf(before, call, 0);
    }
}

/// Returns that the stack has addresses for all succeed, and the last of
/// `n` continues at the address that lies `n` below the top.
pub proof fn lemma_unwind(s: MachineState, n: nat)
    requires
        s.wf(),
        1 <= n <= s.sp,
    ensures
        unwind(s, n).wf(),
        unwind(s, n).sp == s.sp - n,
        unwind(s, n).pc == s.stack[s.sp - n],
        unwind(s, n).stack == s.stack,
    decreases n,
{
    let after = s.perform(Instruction::Return, 0);
    lemma_perform_wf(s, Instruction::Return, 0);
    if n > 1 {
        lemma_unwind(after, (n - 1) as nat);
    } else {
        assert(unwind(after, 0) == after);
    }
}

/// A call and its return: after any number of nested calls that fit on the
/// stack, as many returns bring the machine back to the instruction behind
/// the first call, with the stack as deep as before it.
pub proof fn lemma_calls_then_returns(s: MachineState, addrs: Seq<u16>)
    requires
        s.wf(),
        addrs.len() > 0,
        s.sp + addrs.len() <= 16,
        forall|k: int| 0 <= k < addrs.len() ==> addrs[k] < 4096,
    ensures
        unwind(nest(s, addrs), addrs.len()).pc == (s.pc + 2) % 4096,
        unwind(nest(s, addrs), addrs.len()).sp == s.sp,
{
    lemma_nest(s, addrs);
    lemma_unwind(nest(s, addrs), addrs.len());
}

/// A return continues behind the call that pushed the top of the stack,
/// whatever the machine did in between, as long as the stack is as that call
/// left it.
pub proof fn lemma_return_after_call(s: MachineState, addr: u16, t: MachineState)
    requires
        s.wf(),
        s.sp < 16,
        addr < 4096,
        t.wf(),
        t.sp == s.sp + 1,
        t.stack[s.sp] == s.perform(Instruction::Call { addr }, 0).stack[s.sp],
    ensures
        s.perform(Instruction::Call { addr }, 0).pc == addr,
        s.perform(Instruction::Call { addr }, 0).sp == s.sp + 1,
        t.result_of(Instruction::Return) is Ok,
        t.perform(Instruction::Return, 0).pc == (s.pc + 2) % 4096,
        t.perform(Instruction::Return, 0).sp == s.sp,
{
}

/// What the host does to the machine.
pub enum Event {
    /// A processor cycle; `random` is the byte that a random-number
    /// instruction would draw.
    Step { random: u8 },
    /// Key `index` went down (`pressed`) or up.
    Key { index: int, pressed: bool },
    /// A tick of the timer clock.
    Tick,
}

impl Event {
    /// The event is a key press.
    pub open spec fn is_press(self) -> bool {
        self matches Event::Key { pressed: true, .. }
    }

    /// A key event names one of the 16 keys.
    pub open spec fn wf(self) -> bool {
        self matches Event::Key { index, .. } ==> 0 <= index < 16
    }
}

/// The state after one event.
pub open spec fn react(s: MachineState, e: Event) -> MachineState {
    match e {
        Event::Step { random } => s.step(random),
        Event::Key { index, pressed } => s.key_event(index, pressed),
        Event::Tick => s.tick(),
    }
}

/// The state after a sequence of events, the first one first.
pub open spec fn after_events(s: MachineState, events: Seq<Event>) -> MachineState
    decreases events.len(),
{
    if events.len() == 0 {
        s
    } else {
        react(after_events(s, events.drop_last()), events.last())
    }
}

/// Every event keeps the machine well formed.
pub proof fn lemma_react_wf(s: MachineState, e: Event)
    requires
        s.wf(),
        e.wf(),
    ensures
        react(s, e).wf(),
{
    match e {
        Event::Step { random } => {
            lemma_step_wf(s, random);
        },
        _ => {},
    }
}

/// Executing the wait-for-key instruction suspends the machine in place.
pub proof fn lemma_wait_suspends(s: MachineState, random: u8)
    requires
        s.wf(),
        !s.waiting_key,
        decode_spec(s.fetch()) is Some,
        decode_spec(s.fetch())->0 is WaitKey,
    ensures
        s.step_outcome() is Ok,
        s.step(random) == (MachineState { waiting_key: true, ..s }),
{
}

/// A machine that waits for a key stays where it is, whatever happens, until
/// a key is pressed: steps, key releases and timer ticks change neither the
/// program counter nor registers, memory, stack or display.
pub proof fn lemma_waits_until_press(s: MachineState, events: Seq<Event>)
    requires
        s.wf(),
        s.waiting_key,
        forall|k: int| 0 <= k < events.len() ==> events[k].wf() && !events[k].is_press(),
    ensures
        after_events(s, events).wf(),
        after_events(s, events).waiting_key,
        after_events(s, events).pc == s.pc,
        after_events(s, events).v == s.v,
        after_events(s, events).i == s.i,
        after_events(s, events).memory == s.memory,
        after_events(s, events).stack == s.stack,
        after_events(s, events).sp == s.sp,
        after_events(s, events).display == s.display,
    decreases events.len(),
{
    if events.len() > 0 {
        lemma_waits_until_press(s, events.drop_last());
    }
}

/// The first key press ends the wait: the register named by the waiting
/// instruction receives the key, and the program counter moves two bytes on.
pub proof fn lemma_press_resumes(s: MachineState, events: Seq<Event>, index: int)
    requires
        s.wf(),
        s.waiting_key,
        forall|k: int| 0 <= k < events.len() ==> events[k].wf() && !events[k].is_press(),
        0 <= index < 16,
    ensures
        !after_events(s, events).key_event(index, true).waiting_key,
        after_events(s, events).key_event(index, true).pc == (s.pc + 2) % 4096,
        after_events(s, events).key_event(index, true).v == s.v.update(
            nibble_x(s.fetch()),
            index as u8,
        ),
        decode_spec(s.fetch()) matches Some(Instruction::WaitKey { x }) ==> nibble_x(s.fetch())
            == x,
{
    lemma_waits_until_press(s, events);
}

/// The whole of a wait: the wait-for-key instruction suspends the machine in
/// place, nothing but a key press moves it, and the first press stores the
/// key in the register that the instruction names and continues behind the
/// instruction.
pub proof fn lemma_wait_for_key(
    s: MachineState,
    x: usize,
    random: u8,
    events: Seq<Event>,
    index: int,
)
    requires
        s.wf(),
        !s.waiting_key,
        decode_spec(s.fetch()) == Some(Instruction::WaitKey { x }),
        forall|k: int| 0 <= k < events.len() ==> events[k].wf() && !events[k].is_press(),
        0 <= index < 16,
    ensures
        after_events(s.step(random), events).waiting_key,
        after_events(s.step(random), events).pc == s.pc,
        !after_events(s.step(random), events).key_event(index, true).waiting_key,
        after_events(s.step(random), events).key_event(index, true).pc == (s.pc + 2) % 4096,
        after_events(s.step(random), events).key_event(index, true).v == s.v.update(
            x as int,
            index as u8,
        ),
{
    lemma_wait_suspends(s, random);
    let waiting = s.step(random);
    lemma_waits_until_press(waiting, events);
    lemma_press_resumes(waiting, events, index);
}

/// The tone sounds on exactly the tick that takes the sound timer from 1 to
/// 0: on no tick that leaves it above 0, and on none that finds it at 0.
pub proof fn lemma_tone_on_last_tick(s: MachineState)
    ensures
        s.tone() <==> s.sound_timer == 1 && s.tick().sound_timer == 0,
        s.tone() <==> s.sound_timer > 0 && s.tick().sound_timer == 0,
        s.sound_timer > 0 ==> s.tick().sound_timer == s.sound_timer - 1,
        s.delay_timer > 0 ==> s.tick().delay_timer == s.delay_timer - 1,
        s.sound_timer == 0 ==> s.tick().sound_timer == 0,
        s.delay_timer == 0 ==> s.tick().delay_timer == 0,
{
}

} // verus!
