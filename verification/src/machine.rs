//! What the interpreter does, stated over a mathematical model of its state.
//!
//! Policy on addresses. The program counter and the index register are
//! 16 bits wide and are never masked: arithmetic on them wraps at 16 bits.
//! Memory has 4096 bytes. An instruction that would read or write a byte
//! outside memory is a fault: it is not executed at all.

use vstd::prelude::*;
use crate::display::{sprite_collides, sprite_drawn};
use crate::instruction::Instruction;
use crate::rand::byte_after;

verus! {

/// The state of the interpreter as plain values.
pub struct Machine {
    /// The index register `I`.
    pub i: u16,
    /// The program counter.
    pub pc: u16,
    /// The 4096 bytes of memory.
    pub memory: Seq<u8>,
    /// The registers `V0` to `VF`.
    pub v: Seq<u8>,
    /// The saved return addresses, the latest last.
    pub stack: Seq<u16>,
    /// The delay timer.
    pub dt: u8,
    /// The sound timer.
    pub st: u8,
    /// The 2048 cells of the display, row by row.
    pub screen: Seq<bool>,
    /// The cursor of the random byte source.
    pub random: u8,
}

/// What a cycle leaves for the driver to do.
#[derive(Clone, Copy, Debug, PartialEq, Eq, Structural)]
pub enum Outcome {
    /// An instruction ran. Nothing to do.
    Done,
    /// A draw instruction ran: the display is to be painted.
    Drawn,
    /// The opcode is no instruction. It was passed over.
    Ignored,
    /// Nothing ran. The next instruction tests the key that is down: observe
    /// the keyboard once and run the cycle with what was seen.
    PollKey,
    /// Nothing ran. The next instruction waits for a key: observe the
    /// keyboard and run the cycle with what was seen, until it runs.
    AwaitKey,
}

/// Why an operation was refused.
#[derive(Clone, Copy, Debug, PartialEq, Eq, Structural)]
pub enum Fault {
    /// The program does not fit into memory from address 512 on.
    ProgramTooLarge,
    /// The program counter points at the last byte of memory or beyond it.
    FetchOutOfRange,
    /// The instruction addresses bytes beyond the end of memory.
    AccessOutOfRange,
}

/// An integer reduced to 8 bits.
pub open spec fn wrap8(n: int) -> u8 {
    (n % 256) as u8
}

/// An integer reduced to 16 bits.
pub open spec fn wrap16(n: int) -> u16 {
    (n % 65536) as u16
}

/// What reducing a sum or a difference of two bytes to 8 bits comes to: at
/// most one multiple of 256 is taken off or put on.
pub proof fn lemma_wrap8_of_bytes(a: u8, b: u8)
    ensures
        wrap8(a + b) == (if a + b > 255 { a + b - 256 } else { a + b }),
        wrap8(a - b) == (if a < b { a - b + 256 } else { a - b }),
{
}

/// The opcode whose high byte is at `index` and whose low byte follows it.
pub open spec fn opcode_at(memory: Seq<u8>, index: int) -> u16 {
    (memory[index] as int * 256 + memory[index + 1] as int) as u16
}

/// A timer after one cycle: halved, so that a timer at zero stays at zero.
pub open spec fn decayed(timer: u8) -> u8 {
    (timer as int / 2) as u8
}

/// The display with every cell unlit.
pub open spec fn blank_screen() -> Seq<bool> {
    Seq::new(2048, |k: int| false)
}

/// Memory after a reset: the font at its start, zero everywhere else.
pub open spec fn reset_memory() -> Seq<u8> {
    Seq::new(4096, |a: int| if a < 80 { crate::display::FONT_SET[a] } else { 0u8 })
}

/// Memory with a program placed at address 512.
pub open spec fn loaded_memory(memory: Seq<u8>, program: Seq<u8>) -> Seq<u8> {
    Seq::new(
        memory.len(),
        |a: int| if 512 <= a < 512 + program.len() { program[a - 512] } else { memory[a] },
    )
}

impl Machine {
    /// Whether memory, registers and display have their fixed sizes.
    pub open spec fn well_formed(self) -> bool {
        &&& self.memory.len() == 4096
        &&& self.v.len() == 16
        &&& self.screen.len() == 2048
    }

    /// The machine with register `x` set.
    pub open spec fn set(self, x: u8, value: u8) -> Machine {
        Machine { v: self.v.update(x as int, value), ..self }
    }

    /// The machine after the next instruction was skipped, if `condition`
    /// holds, and unchanged otherwise.
    pub open spec fn skip_if(self, condition: bool) -> Machine {
        if condition {
            Machine { pc: wrap16(self.pc + 2), ..self }
        } else {
            self
        }
    }

    /// The machine with its program counter moved past the instruction that
    /// it points at.
    pub open spec fn advanced(self) -> Machine {
        Machine { pc: wrap16(self.pc + 2), ..self }
    }

    /// The machine with both timers decayed.
    pub open spec fn ticked(self) -> Machine {
        Machine { dt: decayed(self.dt), st: decayed(self.st), ..self }
    }

    /// The machine after a reset. The random byte source keeps its place.
    pub open spec fn reset(self) -> Machine {
        Machine {
            i: 0,
            pc: 512,
            memory: reset_memory(),
            v: Seq::new(16, |r: int| 0u8),
            stack: Seq::empty(),
            dt: 0,
            st: 0,
            screen: blank_screen(),
            random: self.random,
        }
    }

    /// Whether an opcode can be fetched: both of its bytes lie in memory.
    pub open spec fn can_fetch(self) -> bool {
        self.pc as int + 1 < 4096
    }

    /// The instruction that the program counter points at.
    pub open spec fn next_instruction(self) -> Instruction {
        crate::instruction::decoded(opcode_at(self.memory, self.pc as int))
    }

    /// The `n` bytes of memory from address `i` on, as the rows of a sprite.
    pub open spec fn sprite_at(memory: Seq<u8>, i: int, n: nat) -> Seq<u8> {
        Seq::new(n, |r: int| memory[i + r])
    }

    /// The number of bytes that an instruction reads or writes at `I`.
    pub open spec fn bytes_addressed(instruction: Instruction) -> int {
        match instruction {
            Instruction::Draw(_, _, n) => n as int,
            Instruction::Decimal(_) => 3,
            Instruction::Store(x) => x as int + 1,
            Instruction::Fill(x) => x as int + 1,
            _ => 0,
        }
    }

    /// Whether an instruction addresses a byte beyond the end of memory.
    pub open spec fn faults(self, instruction: Instruction) -> bool {
        Self::bytes_addressed(instruction) > 0 && self.i as int + Self::bytes_addressed(instruction)
            > 4096
    }

    /// The machine after an instruction. The program counter is taken to be
    /// past the instruction already. `key` is the logical key that the driver
    /// observed; only the three key instructions look at it.
    pub open spec fn executed(self, instruction: Instruction, key: Option<u8>) -> Machine {
        let i = self.i as int;
        match instruction {
            Instruction::ClearScreen => Machine { screen: blank_screen(), ..self },
            Instruction::Return => if self.stack.len() > 0 {
                Machine { pc: self.stack.last(), stack: self.stack.drop_last(), ..self }
            } else {
                Machine { pc: 512, ..self }
            },
            Instruction::Jump(nnn) => Machine { pc: nnn, ..self },
            Instruction::Call(nnn) => Machine { pc: nnn, stack: self.stack.push(self.pc), ..self },
            Instruction::SkipIfEqual(x, kk) => self.skip_if(self.v[x as int] == kk),
            Instruction::SkipIfNotEqual(x, kk) => self.skip_if(self.v[x as int] != kk),
            Instruction::SkipIfSame(x, y) => self.skip_if(self.v[x as int] == self.v[y as int]),
            Instruction::SkipIfDifferent(x, y) => self.skip_if(
                self.v[x as int] != self.v[y as int],
            ),
            Instruction::Load(x, kk) => self.set(x, kk),
            Instruction::AddByte(x, kk) => self.set(x, wrap8(self.v[x as int] + kk)),
            Instruction::Move(x, y) => self.set(x, self.v[y as int]),
            Instruction::Or(x, y) => self.set(x, self.v[x as int] | self.v[y as int]),
            Instruction::And(x, y) => self.set(x, self.v[x as int] & self.v[y as int]),
            Instruction::Xor(x, y) => self.set(x, self.v[x as int] ^ self.v[y as int]),
            Instruction::Add(x, y) => {
                let sum = self.v[x as int] + self.v[y as int];
                self.set(x, wrap8(sum)).set(0xF, if sum > 255 { 1u8 } else { 0u8 })
            },
            Instruction::Sub(x, y) => {
                let vx = self.v[x as int];
                let vy = self.v[y as int];
                self.set(x, wrap8(vx - vy)).set(0xF, if vx < vy { 0u8 } else { 1u8 })
            },
            Instruction::SubFrom(x, y) => {
                let vx = self.v[x as int];
                let vy = self.v[y as int];
                self.set(x, wrap8(vy - vx)).set(0xF, if vy < vx { 0u8 } else { 1u8 })
            },
            Instruction::ShiftRight(x) => {
                let flagged = self.set(0xF, (self.v[x as int] as int % 2) as u8);
                flagged.set(x, (flagged.v[x as int] as int / 2) as u8)
            },
            Instruction::ShiftLeft(x) => {
                let flagged = self.set(0xF, self.v[x as int] & 0x80);
                flagged.set(x, wrap8(flagged.v[x as int] * 2))
            },
            Instruction::LoadIndex(nnn) => Machine { i: nnn, ..self },
            Instruction::JumpOffset(nnn) => Machine { pc: wrap16(nnn + self.v[0]), ..self },
            Instruction::Random(x, kk) => Machine { random: wrap8(self.random + 1), ..self }.set(
                x,
                byte_after(self.random, 1) & kk,
            ),
            Instruction::Draw(x, y, n) => {
                let sprite = Self::sprite_at(self.memory, i, n as nat);
                let column = self.v[x as int] as int % 64;
                let row = self.v[y as int] as int % 64;
                Machine {
                    screen: sprite_drawn(self.screen, sprite, column, row),
                    ..self
                }.set(0xF, if sprite_collides(self.screen, sprite, column, row) { 1u8 } else { 0u8 })
            },
            Instruction::SkipIfKey(x) => self.skip_if(key == Some(self.v[x as int])),
            Instruction::SkipIfNotKey(x) => self.skip_if(key != Some(self.v[x as int])),
            Instruction::ReadDelay(x) => self.set(x, self.dt),
            Instruction::WaitKey(x) => match key {
                Some(k) => self.set(x, k),
                None => self,
            },
            Instruction::SetDelay(x) => Machine { dt: self.v[x as int], ..self },
            Instruction::SetSound(x) => Machine { st: self.v[x as int], ..self },
            Instruction::AddIndex(x) => Machine { i: wrap16(i + self.v[x as int]), ..self },
            Instruction::Glyph(x) => Machine {
                i: ((self.v[x as int] as int % 16) * 5) as u16,
                ..self
            },
            Instruction::Decimal(x) => {
                let vx = self.v[x as int] as int;
                Machine {
                    memory: self.memory.update(i, (vx / 100) as u8).update(
                        i + 1,
                        ((vx / 10) % 10) as u8,
                    ).update(i + 2, (vx % 10) as u8),
                    ..self
                }
            },
            Instruction::Store(x) => Machine {
                memory: Seq::new(
                    self.memory.len(),
                    |a: int| if i <= a <= i + x { self.v[a - i] } else { self.memory[a] },
                ),
                ..self
            },
            Instruction::Fill(x) => Machine {
                v: Seq::new(
                    self.v.len(),
                    |r: int| if r <= x { self.memory[i + r] } else { self.v[r] },
                ),
                ..self
            },
            Instruction::Unknown => self,
        }
    }
}

/// The state that a cycle leaves, and what it reports.
///
/// `observed` is `None` where the driver did not observe the keyboard for
/// this cycle, and otherwise holds the logical key that it saw, if any.
///
/// A cycle that cannot fetch, whose instruction would address bytes beyond
/// memory, or whose instruction needs a key that was not observed, changes
/// nothing. Every other cycle moves the program counter past the
/// instruction, executes it and lets the timers decay.
pub open spec fn cycle(m: Machine, observed: Option<Option<u8>>) -> (
    Machine,
    Result<Outcome, Fault>,
) {
    let instruction = m.next_instruction();
    if !m.can_fetch() {
        (m, Err(Fault::FetchOutOfRange))
    } else if m.faults(instruction) {
        (m, Err(Fault::AccessOutOfRange))
    } else {
        match (key_request(instruction), observed) {
            (Some(request), None) => (m, Ok(request)),
            (Some(Outcome::AwaitKey), Some(None)) => (m, Ok(Outcome::AwaitKey)),
            (_, Some(key)) => (
                m.advanced().executed(instruction, key).ticked(),
                Ok(outcome_of(instruction)),
            ),
            (None, None) => (
                m.advanced().executed(instruction, None).ticked(),
                Ok(outcome_of(instruction)),
            ),
        }
    }
}

/// The state that executing one opcode leaves, without a fetch, without the
/// keyboard and without the timers, and what it reports. The program counter
/// is taken to be past the instruction already.
///
/// An instruction that would address bytes beyond memory or that needs the
/// keyboard changes nothing.
pub open spec fn processed(m: Machine, opcode: u16) -> (Machine, Result<Outcome, Fault>) {
    let instruction = crate::instruction::decoded(opcode);
    if m.faults(instruction) {
        (m, Err(Fault::AccessOutOfRange))
    } else {
        match key_request(instruction) {
            Some(request) => (m, Ok(request)),
            None => (m.executed(instruction, None), Ok(outcome_of(instruction))),
        }
    }
}

/// What the driver is told after an instruction ran.
pub open spec fn outcome_of(instruction: Instruction) -> Outcome {
    match instruction {
        Instruction::Draw(_, _, _) => Outcome::Drawn,
        Instruction::Unknown => Outcome::Ignored,
        _ => Outcome::Done,
    }
}

/// What the driver is asked for where an instruction cannot run without the
/// keyboard, and `None` for every other instruction.
pub open spec fn key_request(instruction: Instruction) -> Option<Outcome> {
    match instruction {
        Instruction::SkipIfKey(_) | Instruction::SkipIfNotKey(_) => Some(Outcome::PollKey),
        Instruction::WaitKey(_) => Some(Outcome::AwaitKey),
        _ => None,
    }
}

/// The four instructions that add or subtract wrap at 8 bits for every pair
/// of registers and every operand, and the three that set a flag set it to
/// the carry, or to 1 where nothing was borrowed.
pub proof fn lemma_arithmetic_wraps(m: Machine, x: u8, y: u8, kk: u8, key: Option<u8>)
    requires
        m.well_formed(),
        x < 16,
        y < 16,
    ensures
        m.executed(Instruction::AddByte(x, kk), key).v[x as int] == (m.v[x as int] + kk) % 256,
        x != 0xF ==> m.executed(Instruction::Add(x, y), key).v[x as int] == (m.v[x as int]
            + m.v[y as int]) % 256,
        x != 0xF ==> m.executed(Instruction::Sub(x, y), key).v[x as int] == (m.v[x as int]
            - m.v[y as int]) % 256,
        x != 0xF ==> m.executed(Instruction::SubFrom(x, y), key).v[x as int] == (m.v[y as int]
            - m.v[x as int]) % 256,
        m.executed(Instruction::Add(x, y), key).v[0xF] == (if m.v[x as int] + m.v[y as int]
            > 255 {
            1u8
        } else {
            0u8
        }),
        m.executed(Instruction::Sub(x, y), key).v[0xF] == (if m.v[x as int] < m.v[y as int] {
            0u8
        } else {
            1u8
        }),
        m.executed(Instruction::SubFrom(x, y), key).v[0xF] == (if m.v[y as int] < m.v[x as int] {
            0u8
        } else {
            1u8
        }),
{
}

/// Drawing the same sprite twice at the same place gives back the display
/// as it was. The flag after the second drawing is 1 exactly if the sprite
/// has a set pixel on a cell that was unlit before the first, and 0
/// otherwise. The place is the same unless it is read from the flag
/// register, which the first drawing overwrites.
pub proof fn lemma_draw_twice(m: Machine, x: u8, y: u8, n: u8, key: Option<u8>)
    requires
        m.well_formed(),
        x < 16,
        y < 16,
        m.executed(Instruction::Draw(x, y, n), key).v[x as int] % 64 == m.v[x as int] % 64,
        m.executed(Instruction::Draw(x, y, n), key).v[y as int] % 64 == m.v[y as int] % 64,
    ensures
        ({
            let draw = Instruction::Draw(x, y, n);
            let sprite = Machine::sprite_at(m.memory, m.i as int, n as nat);
            let once = m.executed(draw, key);
            let twice = once.executed(draw, key);
            &&& twice.screen == m.screen
            &&& twice.v[0xF] == (if exists|k: int|
                0 <= k < 2048 && !#[trigger] m.screen[k] && crate::display::sprite_covers(
                    sprite,
                    m.v[x as int] as int % 64,
                    m.v[y as int] as int % 64,
                    k,
                ) {
                1u8
            } else {
                0u8
            })
        }),
{
    let sprite = Machine::sprite_at(m.memory, m.i as int, n as nat);
    crate::display::lemma_sprite_drawn_twice(
        m.screen,
        sprite,
        m.v[x as int] as int % 64,
        m.v[y as int] as int % 64,
    );
}

/// A return with nothing on the stack goes to the start of the program area
/// and leaves everything else as it is.
pub proof fn lemma_return_from_empty_stack(m: Machine, key: Option<u8>)
    requires
        m.stack.len() == 0,
    ensures
        m.executed(Instruction::Return, key) == (Machine { pc: 512, ..m }),
{
}

/// A call followed at once by a return comes back to the instruction after
/// the call, with the stack as it was.
pub proof fn lemma_call_then_return(m: Machine, nnn: u16, key: Option<u8>)
    ensures
        m.executed(Instruction::Call(nnn), key).executed(Instruction::Return, key) == m,
{
    let called = m.executed(Instruction::Call(nnn), key);
    assert(called.stack.drop_last() =~= m.stack);
}

/// A cycle on an opcode that is no instruction moves the program counter on
/// by exactly 2, lets the timers decay and changes nothing else, whatever
/// the keyboard showed.
pub proof fn lemma_unknown_opcode_advances(m: Machine, observed: Option<Option<u8>>)
    requires
        m.can_fetch(),
        m.next_instruction() == Instruction::Unknown,
    ensures
        cycle(m, observed) == ((
            Machine { pc: (m.pc + 2) as u16, dt: decayed(m.dt), st: decayed(m.st), ..m },
            Ok::<Outcome, Fault>(Outcome::Ignored),
        )),
{
}

/// A cycle that reports a fault or asks for a key has changed nothing.
pub proof fn lemma_refused_cycle_changes_nothing(m: Machine, observed: Option<Option<u8>>)
    ensures
        cycle(m, observed).1 is Err ==> cycle(m, observed).0 == m,
        cycle(m, observed).1 == Ok::<Outcome, Fault>(Outcome::PollKey) ==> cycle(m, observed).0
            == m,
        cycle(m, observed).1 == Ok::<Outcome, Fault>(Outcome::AwaitKey) ==> cycle(m, observed).0
            == m,
{
}

/// Whatever a cycle does, memory, registers and display keep their sizes.
pub proof fn lemma_cycle_keeps_sizes(m: Machine, observed: Option<Option<u8>>)
    requires
        m.well_formed(),
    ensures
        cycle(m, observed).0.well_formed(),
{
}

/// The stack holds return addresses only: after a cycle, every address on it
/// was on it before, or it is the address of the instruction after the call
/// that the cycle ran.
pub proof fn lemma_stack_holds_return_addresses(m: Machine, observed: Option<Option<u8>>)
    ensures
        forall|k: int|
            0 <= k < cycle(m, observed).0.stack.len() ==> m.stack.contains(
                #[trigger] cycle(m, observed).0.stack[k],
            ) || (m.next_instruction() is Call && cycle(m, observed).0.stack[k] == m.pc + 2),
{
    let after = cycle(m, observed).0;
    assert forall|k: int| 0 <= k < after.stack.len() implies m.stack.contains(
        #[trigger] after.stack[k],
    ) || (m.next_instruction() is Call && after.stack[k] == m.pc + 2) by {
        if k < m.stack.len() {
            assert(after.stack[k] == m.stack[k]);
        }
    }
}

} // verus!
