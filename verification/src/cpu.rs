//! The interpreter: registers, memory, stack and timers, and the cycle that
//! fetches, decodes and executes one instruction.
//!
//! The interpreter does no input or output. A cycle that needs the keyboard
//! does nothing and says so; the driver then observes the keyboard and runs
//! the cycle again with what it saw. A cycle that drew says so too, and the
//! driver paints the display.

use vstd::prelude::*;
use crate::display::{Display, FONT_SET};
use crate::instruction::{decode, Instruction};
use crate::keypad::{key_observed, Keypad};
use crate::machine::{
    cycle,
    key_request,
    lemma_wrap8_of_bytes,
    loaded_memory,
    opcode_at,
    outcome_of,
    processed,
    Fault,
    Machine,
    Outcome,
};
use crate::rand::DoomRNG;

verus! {

/// The interpreter and the devices that it owns.
pub struct Cpu {
    /// The index register.
    pub i: u16,
    /// The program counter.
    pub pc: u16,
    /// Memory.
    pub memory: [u8; 4096],
    /// The registers `V0` to `VF`.
    pub v: [u8; 16],
    /// The saved return addresses, the latest last.
    pub stack: Vec<u16>,
    /// The delay timer.
    pub dt: u8,
    /// The sound timer.
    pub st: u8,
    /// The display.
    pub display: Display,
    /// The keypad.
    pub keypad: Keypad,
    /// The source of random bytes.
    pub random: DoomRNG,
}

impl View for Cpu {
    type V = Machine;

    open spec fn view(&self) -> Machine {
        Machine {
            i: self.i,
            pc: self.pc,
            memory: self.memory@,
            v: self.v@,
            stack: self.stack@,
            dt: self.dt,
            st: self.st,
            screen: self.display.memory@,
            random: self.random.index,
        }
    }
}

/// Reads the opcode whose high byte is at `index` and whose low byte follows
/// it.
pub fn read_opcode(memory: [u8; 4096], index: u16) -> (opcode: u16)
    requires
        index as int + 1 < 4096,
    ensures
        opcode == opcode_at(memory@, index as int),
{
    let high: u16 = memory[index as usize] as u16;
    let low: u16 = memory[(index + 1) as usize] as u16;
    assert(high << 8 | low == high * 256 + low) by (bit_vector)
        requires
            high < 256,
            low < 256,
    ;
    high << 8 | low
}

impl Cpu {
    /// An interpreter with everything at zero but the program counter, which
    /// points at the start of the program area. Memory does not hold the
    /// font yet: `reset` loads it.
    pub fn new() -> (cpu: Cpu)
        ensures
            cpu@ == (Machine {
                i: 0,
                pc: 512,
                memory: Seq::new(4096, |a: int| 0u8),
                v: Seq::new(16, |r: int| 0u8),
                stack: Seq::empty(),
                dt: 0,
                st: 0,
                screen: crate::machine::blank_screen(),
                random: 0,
            }),
    {
        let cpu = Cpu {
            i: 0,
            pc: 512,
            memory: [0;4096],
            v: [0;16],
            stack: Vec::new(),
            dt: 0,
            st: 0,
            display: Display::new(),
            keypad: Keypad::new(),
            random: DoomRNG::new(),
        };
        assert(cpu.memory@ =~= Seq::new(4096, |a: int| 0u8));
        assert(cpu.v@ =~= Seq::new(16, |r: int| 0u8));
        cpu
    }

    /// Puts the interpreter into its starting state: registers, stack,
    /// timers and display cleared, the program counter at 512, and memory
    /// zero but for the font in its first 80 bytes. The random byte source
    /// keeps its place.
    pub fn reset(&mut self)
        ensures
            final(self)@ == old(self)@.reset(),
            forall|a: int| 0 <= a < 80 ==> final(self).memory@[a] == FONT_SET[a],
            forall|a: int| 80 <= a < 4096 ==> final(self).memory@[a] == 0,
    {
        self.i = 0;
        self.pc = 512;
        self.memory = [0;4096];
        self.v = [0;16];
        self.stack = Vec::new();
        self.dt = 0;
        self.st = 0;
        self.display.cls();
        let mut a: usize = 0;
        while a < 80
            invariant
                a <= 80,
                forall|b: int| 0 <= b < a ==> self.memory@[b] == FONT_SET[b],
                forall|b: int| a <= b < 4096 ==> self.memory@[b] == 0,
                self.i == 0,
                self.pc == 512,
                self.v@ == Seq::new(16, |r: int| 0u8),
                self.stack@ == Seq::<u16>::empty(),
                self.dt == 0,
                self.st == 0,
                self.display.memory@ == crate::machine::blank_screen(),
                self.random == old(self).random,
            decreases 80 - a,
        {
            self.memory[a] = FONT_SET[a];
            a = a + 1;
        }
        assert(self.memory@ =~= crate::machine::reset_memory());
    }

    /// Copies a program into memory from address 512 on. A program that does
    /// not fit is refused, and nothing is copied.
    pub fn load_program(&mut self, program: Vec<u8>) -> (loaded: Result<(), Fault>)
        ensures
            program.len() <= 3584 ==> loaded == Ok::<(), Fault>(()),
            program.len() > 3584 ==> loaded == Err::<(), Fault>(Fault::ProgramTooLarge),
            loaded is Ok ==> final(self)@ == (Machine {
                memory: loaded_memory(old(self).memory@, program@),
                ..old(self)@
            }),
            loaded is Ok ==> final(self).memory@.subrange(512, 512 + program.len()) == program@,
            loaded is Err ==> final(self)@ == old(self)@,
    {
        if program.len() > 3584 {
            return Err(Fault::ProgramTooLarge);
        }
        let mut k: usize = 0;
        while k < program.len()
            invariant
                k <= program.len() <= 3584,
                forall|a: int| 512 <= a < 512 + k ==> self.memory@[a] == program@[a - 512],
                forall|a: int|
                    0 <= a < 4096 && !(512 <= a < 512 + k) ==> self.memory@[a] == old(
                        self,
                    ).memory@[a],
                self.i == old(self).i,
                self.pc == old(self).pc,
                self.v == old(self).v,
                self.stack == old(self).stack,
                self.dt == old(self).dt,
                self.st == old(self).st,
                self.display == old(self).display,
                self.random == old(self).random,
            decreases program.len() - k,
        {
            self.memory[k + 512] = program[k];
            k = k + 1;
        }
        assert(self.memory@ =~= loaded_memory(old(self).memory@, program@));
        assert(self.memory@.subrange(512, 512 + program.len()) =~= program@);
        Ok(())
    }

    /// Moves the program counter past the next instruction if `condition`
    /// holds.
    fn skip_if(&mut self, condition: bool)
        ensures
            final(self)@ == old(self)@.skip_if(condition),
    {
        if condition {
            self.pc = if self.pc >= 0xFFFE {
                self.pc - 0xFFFE
            } else {
                self.pc + 2
            };
        }
    }

    /// The `n` bytes of memory from `I` on.
    fn sprite_rows(&self, n: u8) -> (rows: Vec<u8>)
        requires
            n == 0 || self.i as int + n as int <= 4096,
        ensures
            rows@ == Machine::sprite_at(self.memory@, self.i as int, n as nat),
    {
        let mut rows: Vec<u8> = Vec::new();
        let mut r: u8 = 0;
        while r < n
            invariant
                r <= n,
                n == 0 || self.i as int + n as int <= 4096,
                rows@.len() == r,
                forall|j: int| 0 <= j < r ==> rows@[j] == self.memory@[self.i as int + j],
            decreases n - r,
        {
            rows.push(self.memory[self.i as usize + r as usize]);
            r = r + 1;
        }
        assert(rows@ =~= Machine::sprite_at(self.memory@, self.i as int, n as nat));
        rows
    }

    /// Writes `V0` to `Vx` to memory from `I` on.
    fn store_registers(&mut self, x: u8)
        requires
            x < 16,
            old(self).i as int + x as int + 1 <= 4096,
        ensures
            final(self)@ == old(self)@.executed(Instruction::Store(x), None),
    {
        let mut r: usize = 0;
        while r <= x as usize
            invariant
                x < 16,
                r <= x as int + 1,
                self.i as int + x as int + 1 <= 4096,
                forall|a: int|
                    0 <= a < 4096 ==> self.memory@[a] == (if self.i as int <= a < self.i as int
                        + r {
                        self.v@[a - self.i as int]
                    } else {
                        old(self).memory@[a]
                    }),
                self.i == old(self).i,
                self.pc == old(self).pc,
                self.v == old(self).v,
                self.stack == old(self).stack,
                self.dt == old(self).dt,
                self.st == old(self).st,
                self.display == old(self).display,
                self.random == old(self).random,
            decreases x as int + 1 - r,
        {
            self.memory[self.i as usize + r] = self.v[r];
            r = r + 1;
        }
        assert(self@.memory =~= old(self)@.executed(Instruction::Store(x), None).memory);
    }

    /// Reads `V0` to `Vx` from memory from `I` on.
    fn fill_registers(&mut self, x: u8)
        requires
            x < 16,
            old(self).i as int + x as int + 1 <= 4096,
        ensures
            final(self)@ == old(self)@.executed(Instruction::Fill(x), None),
    {
        let mut r: usize = 0;
        while r <= x as usize
            invariant
                x < 16,
                r <= x as int + 1,
                self.i as int + x as int + 1 <= 4096,
                forall|k: int|
                    0 <= k < 16 ==> self.v@[k] == (if k < r {
                        self.memory@[self.i as int + k]
                    } else {
                        old(self).v@[k]
                    }),
                self.i == old(self).i,
                self.pc == old(self).pc,
                self.memory == old(self).memory,
                self.stack == old(self).stack,
                self.dt == old(self).dt,
                self.st == old(self).st,
                self.display == old(self).display,
                self.random == old(self).random,
            decreases x as int + 1 - r,
        {
            self.v[r] = self.memory[self.i as usize + r];
            r = r + 1;
        }
        assert(self@.v =~= old(self)@.executed(Instruction::Fill(x), None).v);
    }

    /// Executes an instruction that changes the program counter or the
    /// stack and nothing else.
    fn run_flow(&mut self, instruction: Instruction, key: Option<u8>)
        requires
            instruction.well_formed(),
            Self::is_flow(instruction),
        ensures
            final(self)@ == old(self)@.executed(instruction, key),
    {
        match instruction {
            Instruction::Return => {
                match self.stack.pop() {
                    Some(address) => {
                        self.pc = address;
                    },
                    None => {
                        self.pc = 512;
                    },
                }
            },
            Instruction::Jump(nnn) => {
                self.pc = nnn;
            },
            Instruction::Call(nnn) => {
                self.stack.push(self.pc);
                self.pc = nnn;
            },
            Instruction::SkipIfEqual(x, kk) => {
                let vx = self.v[x as usize];
                self.skip_if(vx == kk);
            },
            Instruction::SkipIfNotEqual(x, kk) => {
                let vx = self.v[x as usize];
                self.skip_if(vx != kk);
            },
            Instruction::SkipIfSame(x, y) => {
                let vx = self.v[x as usize];
                let vy = self.v[y as usize];
                self.skip_if(vx == vy);
            },
            Instruction::SkipIfDifferent(x, y) => {
                let vx = self.v[x as usize];
                let vy = self.v[y as usize];
                self.skip_if(vx != vy);
            },
            Instruction::JumpOffset(nnn) => {
                self.pc = nnn + self.v[0] as u16;
            },
            Instruction::SkipIfKey(x) => {
                let vx = self.v[x as usize];
                let down = match key {
                    Some(k) => k == vx,
                    None => false,
                };
                self.skip_if(down);
            },
            Instruction::SkipIfNotKey(x) => {
                let vx = self.v[x as usize];
                let down = match key {
                    Some(k) => k == vx,
                    None => false,
                };
                self.skip_if(!down);
            },
            _ => {},
        }
    }

    /// Whether an instruction changes the program counter or the stack and
    /// nothing else.
    spec fn is_flow(instruction: Instruction) -> bool {
        match instruction {
            Instruction::Return
            | Instruction::Jump(_)
            | Instruction::Call(_)
            | Instruction::SkipIfEqual(_, _)
            | Instruction::SkipIfNotEqual(_, _)
            | Instruction::SkipIfSame(_, _)
            | Instruction::SkipIfDifferent(_, _)
            | Instruction::JumpOffset(_)
            | Instruction::SkipIfKey(_)
            | Instruction::SkipIfNotKey(_) => true,
            _ => false,
        }
    }

    /// Whether an instruction computes a register from registers and
    /// operands.
    spec fn is_arithmetic(instruction: Instruction) -> bool {
        match instruction {
            Instruction::Load(_, _)
            | Instruction::AddByte(_, _)
            | Instruction::Move(_, _)
            | Instruction::Or(_, _)
            | Instruction::And(_, _)
            | Instruction::Xor(_, _)
            | Instruction::Add(_, _)
            | Instruction::Sub(_, _)
            | Instruction::SubFrom(_, _)
            | Instruction::ShiftRight(_)
            | Instruction::ShiftLeft(_) => true,
            _ => false,
        }
    }

    /// Executes an instruction that computes a register from registers and
    /// operands.
    fn run_arithmetic(&mut self, instruction: Instruction)
        requires
            instruction.well_formed(),
            Self::is_arithmetic(instruction),
        ensures
            final(self)@ == old(self)@.executed(instruction, None),
    {
        match instruction {
            Instruction::Load(x, kk) => {
                self.v[x as usize] = kk;
            },
            Instruction::AddByte(x, kk) => {
                let vx = self.v[x as usize];
                let sum: u16 = vx as u16 + kk as u16;
                assert(sum & 0xFF == sum % 256) by (bit_vector);
                self.v[x as usize] = (sum & 0xFF) as u8;
            },
            Instruction::Move(x, y) => {
                self.v[x as usize] = self.v[y as usize];
            },
            Instruction::Or(x, y) => {
                self.v[x as usize] = self.v[x as usize] | self.v[y as usize];
            },
            Instruction::And(x, y) => {
                self.v[x as usize] = self.v[x as usize] & self.v[y as usize];
            },
            Instruction::Xor(x, y) => {
                self.v[x as usize] = self.v[x as usize] ^ self.v[y as usize];
            },
            Instruction::Add(x, y) => {
                let vx = self.v[x as usize];
                let vy = self.v[y as usize];
                let sum: u16 = vx as u16 + vy as u16;
                proof {
                    lemma_wrap8_of_bytes(vx, vy);
                }
                if sum > 0xFF {
                    self.v[x as usize] = (sum - 0x100) as u8;
                    self.v[0xF] = 1;
                } else {
                    self.v[x as usize] = sum as u8;
                    self.v[0xF] = 0;
                }
            },
            Instruction::Sub(x, y) => {
                let vx = self.v[x as usize];
                let vy = self.v[y as usize];
                proof {
                    lemma_wrap8_of_bytes(vx, vy);
                }
                if vx < vy {
                    self.v[x as usize] = (256 - (vy - vx) as u16) as u8;
                    self.v[0xF] = 0;
                } else {
                    self.v[x as usize] = vx - vy;
                    self.v[0xF] = 1;
                }
            },
            Instruction::SubFrom(x, y) => {
                let vx = self.v[x as usize];
                let vy = self.v[y as usize];
                proof {
                    lemma_wrap8_of_bytes(vy, vx);
                }
                if vy < vx {
                    self.v[x as usize] = (256 - (vx - vy) as u16) as u8;
                    self.v[0xF] = 0;
                } else {
                    self.v[x as usize] = vy - vx;
                    self.v[0xF] = 1;
                }
            },
            Instruction::ShiftRight(x) => {
                let vx = self.v[x as usize];
                assert(vx & 0x1 == vx % 2) by (bit_vector);
                self.v[0xF] = vx & 0x1;
                let now = self.v[x as usize];
                assert(now >> 1 == now / 2) by (bit_vector);
                self.v[x as usize] = now >> 1;
            },
            Instruction::ShiftLeft(x) => {
                let vx = self.v[x as usize];
                self.v[0xF] = vx & 0x80;
                let now = self.v[x as usize];
                assert((now & 0x7F) << 1 == (now * 2) % 256) by (bit_vector);
                self.v[x as usize] = (now & 0x7F) << 1;
            },
            _ => {},
        }
    }

    /// Executes an instruction that reads or writes memory at `I`.
    fn run_memory(&mut self, instruction: Instruction)
        requires
            instruction.well_formed(),
            !old(self)@.faults(instruction),
            Machine::bytes_addressed(instruction) > 0 || instruction is Draw,
        ensures
            final(self)@ == old(self)@.executed(instruction, None),
    {
        match instruction {
            Instruction::Draw(x, y, n) => {
                let column = self.v[x as usize] % 64;
                let row = self.v[y as usize] % 64;
                let sprite = self.sprite_rows(n);
                let hit = self.display.draw_sprite(column, row, sprite.as_slice());
                self.v[0xF] = if hit {
                    1
                } else {
                    0
                };
            },
            Instruction::Decimal(x) => {
                let vx = self.v[x as usize];
                let at = self.i as usize;
                self.memory[at] = vx / 100;
                self.memory[at + 1] = (vx / 10) % 10;
                self.memory[at + 2] = vx % 10;
            },
            Instruction::Store(x) => {
                self.store_registers(x);
            },
            Instruction::Fill(x) => {
                self.fill_registers(x);
            },
            _ => {},
        }
    }

    /// Executes one decoded instruction. The program counter is taken to be
    /// past the instruction already.
    fn run(&mut self, instruction: Instruction, key: Option<u8>)
        requires
            instruction.well_formed(),
            !old(self)@.faults(instruction),
        ensures
            final(self)@ == old(self)@.executed(instruction, key),
    {
        match instruction {
            Instruction::ClearScreen => {
                self.display.cls();
            },
            Instruction::Return
            | Instruction::Jump(_)
            | Instruction::Call(_)
            | Instruction::SkipIfEqual(_, _)
            | Instruction::SkipIfNotEqual(_, _)
            | Instruction::SkipIfSame(_, _)
            | Instruction::SkipIfDifferent(_, _)
            | Instruction::JumpOffset(_)
            | Instruction::SkipIfKey(_)
            | Instruction::SkipIfNotKey(_) => {
                self.run_flow(instruction, key);
            },
            Instruction::Load(_, _)
            | Instruction::AddByte(_, _)
            | Instruction::Move(_, _)
            | Instruction::Or(_, _)
            | Instruction::And(_, _)
            | Instruction::Xor(_, _)
            | Instruction::Add(_, _)
            | Instruction::Sub(_, _)
            | Instruction::SubFrom(_, _)
            | Instruction::ShiftRight(_)
            | Instruction::ShiftLeft(_) => {
                self.run_arithmetic(instruction);
            },
            Instruction::Draw(_, _, _)
            | Instruction::Decimal(_)
            | Instruction::Store(_)
            | Instruction::Fill(_) => {
                self.run_memory(instruction);
            },
            Instruction::LoadIndex(nnn) => {
                self.i = nnn;
            },
            Instruction::Random(x, kk) => {
                let byte = self.random.next_byte();
                self.v[x as usize] = byte & kk;
            },
            Instruction::ReadDelay(x) => {
                self.v[x as usize] = self.dt;
            },
            Instruction::WaitKey(x) => {
                match key {
                    Some(k) => {
                        self.v[x as usize] = k;
                    },
                    None => {},
                }
            },
            Instruction::SetDelay(x) => {
                self.dt = self.v[x as usize];
            },
            Instruction::SetSound(x) => {
                self.st = self.v[x as usize];
            },
            Instruction::AddIndex(x) => {
                let sum: u32 = self.i as u32 + self.v[x as usize] as u32;
                self.i = if sum > 0xFFFF {
                    (sum - 0x1_0000) as u16
                } else {
                    sum as u16
                };
            },
            Instruction::Glyph(x) => {
                let vx = self.v[x as usize];
                assert(vx as u16 & 0xF == vx % 16) by (bit_vector);
                self.i = (vx as u16 & 0xF) * 5;
            },
            Instruction::Unknown => {},
        }
    }

    /// Whether an instruction would address bytes beyond the end of memory.
    fn faults(&self, instruction: Instruction) -> (out_of_range: bool)
        ensures
            out_of_range == self@.faults(instruction),
    {
        let bytes: u32 = match instruction {
            Instruction::Draw(_, _, n) => n as u32,
            Instruction::Decimal(_) => 3,
            Instruction::Store(x) => x as u32 + 1,
            Instruction::Fill(x) => x as u32 + 1,
            _ => 0,
        };
        bytes > 0 && self.i as u32 + bytes > 4096
    }

    /// What the driver is asked for where an instruction needs the keyboard.
    fn request(instruction: Instruction) -> (asked: Option<Outcome>)
        ensures
            asked == key_request(instruction),
    {
        match instruction {
            Instruction::SkipIfKey(_) | Instruction::SkipIfNotKey(_) => Some(Outcome::PollKey),
            Instruction::WaitKey(_) => Some(Outcome::AwaitKey),
            _ => None,
        }
    }

    /// What the driver is told after an instruction ran.
    fn outcome(instruction: Instruction) -> (told: Outcome)
        ensures
            told == outcome_of(instruction),
    {
        match instruction {
            Instruction::Draw(_, _, _) => Outcome::Drawn,
            Instruction::Unknown => Outcome::Ignored,
            _ => Outcome::Done,
        }
    }

    /// Executes the instruction that an opcode stands for, as the cycle does
    /// after it has fetched the opcode and moved the program counter past
    /// it. The timers are left alone.
    ///
    /// An instruction that would address bytes beyond memory is refused and
    /// changes nothing. An instruction that needs the keyboard changes
    /// nothing either: the request for the key is returned.
    pub fn process_opcode(&mut self, opcode: u16) -> (result: Result<Outcome, Fault>)
        ensures
            (final(self)@, result) == processed(old(self)@, opcode),
    {
        let instruction = decode(opcode);
        if self.faults(instruction) {
            return Err(Fault::AccessOutOfRange);
        }
        match Self::request(instruction) {
            Some(request) => Ok(request),
            None => {
                self.run(instruction, None);
                Ok(Self::outcome(instruction))
            },
        }
    }

    /// One cycle, with the keyboard observed or not.
    fn step(&mut self, observed: Option<Option<u8>>) -> (result: Result<Outcome, Fault>)
        ensures
            (final(self)@, result) == cycle(old(self)@, observed),
    {
        if self.pc >= 4095 {
            return Err(Fault::FetchOutOfRange);
        }
        let opcode = read_opcode(self.memory, self.pc);
        let instruction = decode(opcode);
        if self.faults(instruction) {
            return Err(Fault::AccessOutOfRange);
        }
        let key: Option<u8> = match (Self::request(instruction), observed) {
            (Some(request), None) => {
                return Ok(request);
            },
            (Some(Outcome::AwaitKey), Some(None)) => {
                return Ok(Outcome::AwaitKey);
            },
            (_, Some(key)) => key,
            (None, None) => None,
        };
        self.pc = self.pc + 2;
        self.run(instruction, key);
        if self.st > 0 {
            let st = self.st;
            assert(st >> 1 == st / 2) by (bit_vector);
            self.st = st >> 1;
        }
        if self.dt > 0 {
            let dt = self.dt;
            assert(dt >> 1 == dt / 2) by (bit_vector);
            self.dt = dt >> 1;
        }
        Ok(Self::outcome(instruction))
    }

    /// Runs one cycle without the keyboard: fetches the opcode at the
    /// program counter, moves the program counter past it, executes the
    /// instruction and lets both timers decay.
    ///
    /// Where the instruction needs the keyboard, nothing happens and the
    /// request for the key is returned: observe the keyboard and call
    /// `execute_cycle_with_key`. Where the opcode cannot be fetched or the
    /// instruction would address bytes beyond memory, nothing happens and
    /// the fault is returned.
    pub fn execute_cycle(&mut self) -> (result: Result<Outcome, Fault>)
        ensures
            (final(self)@, result) == cycle(old(self)@, None),
    {
        self.step(None)
    }

    /// Runs one cycle with what the driver observed on the keyboard: `event`
    /// is the plain character that was seen, or `None` where anything else
    /// was seen.
    ///
    /// An instruction that waits for a key runs only if the character is one
    /// of the keypad's; otherwise nothing happens and the request for the
    /// key is returned again. Instructions that do not look at the keyboard
    /// run as in `execute_cycle`.
    pub fn execute_cycle_with_key(&mut self, event: Option<char>) -> (result: Result<
        Outcome,
        Fault,
    >)
        ensures
            (final(self)@, result) == cycle(old(self)@, Some(key_observed(event))),
    {
        let key = self.keypad.get_key_pressed(event);
        self.step(Some(key))
    }
}

impl Default for Cpu {
    /// The interpreter that `new` gives.
    fn default() -> (cpu: Self)
        ensures
            cpu@ == (Machine {
                i: 0,
                pc: 512,
                memory: Seq::new(4096, |a: int| 0u8),
                v: Seq::new(16, |r: int| 0u8),
                stack: Seq::empty(),
                dt: 0,
                st: 0,
                screen: crate::machine::blank_screen(),
                random: 0,
            }),
    {
        Cpu::new()
    }
}

} // verus!
