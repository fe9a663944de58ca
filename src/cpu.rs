use vstd::prelude::*;

use crate::display::{blank, collides, drawn, is_grid, Display};
use crate::instruction::{decode, spec_decode, Instruction};
use crate::rng::{advance, byte_of, next_state, output_byte, seed_state, seeded};

verus! {

/// Bytes of memory.
pub const MEMORY_SIZE: usize = 4096;

/// Address at which a program image is loaded and execution starts.
pub const PROGRAM_START: usize = 512;

/// Number of general-purpose registers.
pub const REGISTER_COUNT: usize = 16;

/// Register that also serves as the carry, borrow and collision flag.
pub const FLAG: usize = 15;

/// Number of return addresses the call stack can hold.
pub const STACK_CAPACITY: usize = 16;

/// Why the machine stopped with an error.
#[derive(Clone, Copy, Debug, PartialEq, Eq, Structural)]
pub enum Fault {
    /// The opcode matches no known instruction.
    DecodeFault { opcode: u16 },
    /// A call with all sixteen return addresses already pending.
    StackOverflow,
    /// A return with no pending call.
    StackUnderflow,
    /// An access reached `addr`, the first address it needed beyond memory.
    AddressFault { addr: usize },
}

/// Where the machine stands after a step or a run.
#[derive(Clone, Copy, Debug, PartialEq, Eq, Structural)]
pub enum MachineState {
    /// More instructions may be executed.
    Running,
    /// The halt instruction was reached.
    Halted,
    /// The instruction at `pc` failed with `fault`.
    Faulted { pc: u16, fault: Fault },
}

/// Why a program image could not be loaded.
#[derive(Clone, Copy, Debug, PartialEq, Eq, Structural)]
pub enum LoadError {
    /// The image holds no bytes.
    Empty,
    /// The image holds `len` bytes, more than fit above the program start.
    TooLarge { len: usize },
}

/// The abstract state of a machine.
pub struct MachineView {
    /// The sixteen registers.
    pub registers: Seq<u8>,
    /// The index register.
    pub index: u16,
    /// The program counter.
    pub pc: u16,
    /// The 4096 bytes of memory.
    pub memory: Seq<u8>,
    /// The pending return addresses, the most recent last.
    pub stack: Seq<u16>,
    /// The pixel grid, as rows.
    pub display: Seq<Seq<bool>>,
    /// The state of the random byte generator.
    pub rng: u32,
}

/// The first address beyond memory that an access starting at `start` and
/// running past the end of memory reaches.
pub open spec fn first_outside(start: int) -> usize {
    if start >= MEMORY_SIZE {
        start as usize
    } else {
        MEMORY_SIZE
    }
}

/// The opcode stored big-endian at `pc` and `pc + 1`.
pub open spec fn opcode_at(memory: Seq<u8>, pc: int) -> u16 {
    ((memory[pc] as u16) << 8u16) | (memory[pc + 1] as u16)
}

/// The memory image with `program` placed at the program start and zeros
/// elsewhere.
pub open spec fn loaded(program: Seq<u8>) -> Seq<u8> {
    Seq::new(
        MEMORY_SIZE as nat,
        |a: int|
            if PROGRAM_START <= a < PROGRAM_START + program.len() {
                program[a - PROGRAM_START]
            } else {
                0u8
            },
    )
}

impl MachineView {
    /// Register `x`.
    pub open spec fn reg(self, x: int) -> u8 {
        self.registers[x]
    }

    /// This state with register `x` set to `v`.
    pub open spec fn set_reg(self, x: int, v: u8) -> MachineView {
        MachineView { registers: self.registers.update(x, v), ..self }
    }

    /// This state with the program counter set to `pc`.
    pub open spec fn set_pc(self, pc: u16) -> MachineView {
        MachineView { pc, ..self }
    }

    /// This state with the program counter moved past one more instruction,
    /// wrapping at 16 bits.
    pub open spec fn skip(self) -> MachineView {
        self.set_pc(((self.pc + 2) % 0x10000) as u16)
    }

    /// The state of a fresh machine: memory `memory`, everything else zero
    /// or empty, and the program counter at the program start.
    pub open spec fn initial(memory: Seq<u8>, seed: u32) -> MachineView {
        MachineView {
            registers: Seq::new(REGISTER_COUNT as nat, |i: int| 0u8),
            index: 0,
            pc: PROGRAM_START as u16,
            memory,
            stack: Seq::empty(),
            display: blank(),
            rng: seeded(seed),
        }
    }

    /// This state with the program counter moved past one more instruction
    /// when `cond` holds.
    pub open spec fn skip_if(self, cond: bool) -> MachineView {
        if cond {
            self.skip()
        } else {
            self
        }
    }

    /// Add-with-carry: register `x` gets the sum modulo 256, then the flag
    /// register gets 1 when the sum exceeds 255 and 0 otherwise.
    pub open spec fn add_with_carry(self, x: int, y: int) -> MachineView {
        let a = self.reg(x) as int;
        let b = self.reg(y) as int;
        self.set_reg(x, ((a + b) % 256) as u8).set_reg(
            FLAG as int,
            if a + b > 255 {
                1u8
            } else {
                0u8
            },
        )
    }

    /// Subtract-with-borrow: register `x` gets `x - y` modulo 256, then the
    /// flag register gets 1 when no borrow occurred (`x >= y`) and 0
    /// otherwise.
    pub open spec fn sub_with_borrow(self, x: int, y: int) -> MachineView {
        let a = self.reg(x) as int;
        let b = self.reg(y) as int;
        self.set_reg(x, ((a - b) % 256) as u8).set_reg(
            FLAG as int,
            if a >= b {
                1u8
            } else {
                0u8
            },
        )
    }

    /// Reverse subtract: register `x` gets `y - x` modulo 256, then the flag
    /// register gets 1 when `y >= x` and 0 otherwise.
    pub open spec fn sub_reverse(self, x: int, y: int) -> MachineView {
        let a = self.reg(x) as int;
        let b = self.reg(y) as int;
        self.set_reg(x, ((b - a) % 256) as u8).set_reg(
            FLAG as int,
            if b >= a {
                1u8
            } else {
                0u8
            },
        )
    }

    /// Shift right: register `x` is halved, then the flag register gets the
    /// bit shifted out.
    pub open spec fn shift_right(self, x: int) -> MachineView {
        let a = self.reg(x);
        self.set_reg(x, a >> 1u8).set_reg(FLAG as int, a & 1u8)
    }

    /// Shift left: register `x` is doubled modulo 256, then the flag register
    /// gets the bit shifted out.
    pub open spec fn shift_left(self, x: int) -> MachineView {
        let a = self.reg(x);
        self.set_reg(x, a << 1u8).set_reg(FLAG as int, a >> 7u8)
    }

    /// Draw: XOR the `n`-row sprite at the index register onto the display
    /// at column register `x` modulo 64, row register `y` modulo 32, then set
    /// the flag register to 1 when a lit pixel was turned off and to 0
    /// otherwise. Fails when the sprite's bytes run past memory.
    pub open spec fn draw(self, x: int, y: int, n: int) -> Result<MachineView, Fault> {
        if self.index + n > MEMORY_SIZE {
            Err(Fault::AddressFault { addr: first_outside(self.index as int) })
        } else {
            let rows = self.memory.subrange(self.index as int, self.index + n);
            let sx = self.reg(x) % 64;
            let sy = self.reg(y) % 32;
            Ok(
                MachineView {
                    display: drawn(self.display, rows, sx as int, sy as int),
                    ..self.set_reg(
                        FLAG as int,
                        if collides(self.display, rows, sx as int, sy as int) {
                            1u8
                        } else {
                            0u8
                        },
                    )
                },
            )
        }
    }

    /// The effect of executing `ins`, the program counter already past it;
    /// `Err` names the fault, which leaves the machine as it was.
    pub open spec fn execute(self, ins: Instruction) -> Result<MachineView, Fault> {
        match ins {
            Instruction::Halt => Ok(self),
            Instruction::ClearScreen => Ok(MachineView { display: blank(), ..self }),
            Instruction::Return => self.ret(),
            Instruction::Jump { addr } => Ok(self.set_pc(addr)),
            Instruction::Call { addr } => self.call(addr),
            Instruction::SkipEq { x, kk } => Ok(self.skip_if(self.reg(x as int) == kk)),
            Instruction::SkipNeq { x, kk } => Ok(self.skip_if(self.reg(x as int) != kk)),
            Instruction::SkipEqRegisters { x, y } => Ok(
                self.skip_if(self.reg(x as int) == self.reg(y as int)),
            ),
            Instruction::Load { x, kk } => Ok(self.set_reg(x as int, kk)),
            Instruction::AddImmediate { x, kk } => Ok(
                self.set_reg(x as int, ((self.reg(x as int) + kk) % 256) as u8),
            ),
            Instruction::Move { x, y } => Ok(self.set_reg(x as int, self.reg(y as int))),
            Instruction::Or { x, y } => Ok(
                self.set_reg(x as int, self.reg(x as int) | self.reg(y as int)),
            ),
            Instruction::And { x, y } => Ok(
                self.set_reg(x as int, self.reg(x as int) & self.reg(y as int)),
            ),
            Instruction::Xor { x, y } => Ok(
                self.set_reg(x as int, self.reg(x as int) ^ self.reg(y as int)),
            ),
            Instruction::AddRegisters { x, y } => Ok(self.add_with_carry(x as int, y as int)),
            Instruction::Sub { x, y } => Ok(self.sub_with_borrow(x as int, y as int)),
            Instruction::ShiftRight { x } => Ok(self.shift_right(x as int)),
            Instruction::SubReverse { x, y } => Ok(self.sub_reverse(x as int, y as int)),
            Instruction::ShiftLeft { x } => Ok(self.shift_left(x as int)),
            Instruction::SkipNeqRegisters { x, y } => Ok(
                self.skip_if(self.reg(x as int) != self.reg(y as int)),
            ),
            Instruction::SetIndex { addr } => Ok(MachineView { index: addr, ..self }),
            Instruction::JumpOffset { x, addr } => Ok(
                self.set_pc((addr + self.reg(x as int)) as u16),
            ),
            Instruction::Random { x, kk } => Ok(
                MachineView {
                    rng: next_state(self.rng),
                    ..self.set_reg(x as int, byte_of(self.rng) & kk)
                },
            ),
            Instruction::Draw { x, y, n } => self.draw(x as int, y as int, n as int),
        }
    }

    /// One fetch-decode-execute step: the state after it and where the
    /// machine stands. The program counter moves past the fetched opcode
    /// before dispatch, so a halt leaves it just after the halt opcode; a
    /// fault leaves the state as it was.
    pub open spec fn step(self) -> (MachineView, MachineState) {
        if self.pc + 1 >= MEMORY_SIZE {
            (
                self,
                MachineState::Faulted {
                    pc: self.pc,
                    fault: Fault::AddressFault { addr: first_outside(self.pc as int) },
                },
            )
        } else {
            let op = opcode_at(self.memory, self.pc as int);
            match spec_decode(op) {
                None => (
                    self,
                    MachineState::Faulted { pc: self.pc, fault: Fault::DecodeFault { opcode: op } },
                ),
                Some(Instruction::Halt) => (self.set_pc((self.pc + 2) as u16), MachineState::Halted),
                Some(ins) => match self.set_pc((self.pc + 2) as u16).execute(ins) {
                    Ok(v) => (v, MachineState::Running),
                    Err(f) => (self, MachineState::Faulted { pc: self.pc, fault: f }),
                },
            }
        }
    }

    /// Steps until the machine halts or faults, at most `fuel` times.
    pub open spec fn run(self, fuel: nat) -> (MachineView, MachineState)
        decreases fuel,
    {
        if fuel == 0 {
            (self, MachineState::Running)
        } else {
            let (v, s) = self.step();
            if s == MachineState::Running {
                v.run((fuel - 1) as nat)
            } else {
                (v, s)
            }
        }
    }

    /// Call: push the program counter and jump to `addr`; fails when the
    /// stack is full.
    pub open spec fn call(self, addr: u16) -> Result<MachineView, Fault> {
        if self.stack.len() >= STACK_CAPACITY {
            Err(Fault::StackOverflow)
        } else {
            Ok(MachineView { stack: self.stack.push(self.pc), pc: addr, ..self })
        }
    }

    /// Return: pop the most recent return address into the program counter;
    /// fails when the stack is empty.
    pub open spec fn ret(self) -> Result<MachineView, Fault> {
        if self.stack.len() == 0 {
            Err(Fault::StackUnderflow)
        } else {
            Ok(MachineView { stack: self.stack.drop_last(), pc: self.stack.last(), ..self })
        }
    }
}

/// A CHIP-8 machine: registers, memory, call stack, program counter, a pixel
/// display and a random byte generator.
pub struct CPU {
    registers: Vec<u8>,
    register_i: u16,
    pc: u16,
    memory: Vec<u8>,
    stack: Vec<u16>,
    stack_pointer: usize,
    display: Display,
    rng: u32,
}

impl View for CPU {
    type V = MachineView;

    closed spec fn view(&self) -> MachineView {
        MachineView {
            registers: self.registers@,
            index: self.register_i,
            pc: self.pc,
            memory: self.memory@,
            stack: self.stack@.subrange(0, self.stack_pointer as int),
            display: self.display@,
            rng: self.rng,
        }
    }
}

impl CPU {
    /// Every buffer has its fixed size and the stack pointer is within the
    /// stack.
    pub closed spec fn wf(&self) -> bool {
        &&& self.registers@.len() == REGISTER_COUNT
        &&& self.memory@.len() == MEMORY_SIZE
        &&& self.stack@.len() == STACK_CAPACITY
        &&& self.stack_pointer <= STACK_CAPACITY
        &&& self.display.wf()
    }

    /// The sizes that every well-formed machine's view has.
    pub proof fn lemma_wf(&self)
        requires
            self.wf(),
        ensures
            self@.registers.len() == REGISTER_COUNT,
            self@.memory.len() == MEMORY_SIZE,
            self@.stack.len() <= STACK_CAPACITY,
            is_grid(self@.display),
    {
        self.display.lemma_grid();
    }

    /// A machine with zeroed memory, registers and stack, a blank display,
    /// the program counter at the program start and the random byte
    /// generator seeded with `seed`.
    pub fn new(seed: u32) -> (r: CPU)
        ensures
            r.wf(),
            r@ == MachineView::initial(Seq::new(MEMORY_SIZE as nat, |a: int| 0u8), seed),
    {
        let registers = zeros_u8(REGISTER_COUNT);
        let memory = zeros_u8(MEMORY_SIZE);
        let mut stack: Vec<u16> = Vec::new();
        let mut k: usize = 0;
        while k < STACK_CAPACITY
            invariant
                k <= STACK_CAPACITY,
                stack@.len() == k,
            decreases STACK_CAPACITY - k,
        {
            stack.push(0);
            k = k + 1;
        }
        let r = CPU {
            registers,
            register_i: 0,
            pc: PROGRAM_START as u16,
            memory,
            stack,
            stack_pointer: 0,
            display: Display::new(),
            rng: seed_state(seed),
        };
        assert(r@.registers =~= Seq::new(REGISTER_COUNT as nat, |i: int| 0u8));
        assert(r@.memory =~= Seq::new(MEMORY_SIZE as nat, |a: int| 0u8));
        assert(r@.stack =~= Seq::<u16>::empty());
        r
    }

    /// A fresh machine with `program` loaded at the program start. Fails when
    /// the image is empty or does not fit in memory above the program start.
    pub fn with_program(program: &Vec<u8>, seed: u32) -> (r: Result<CPU, LoadError>)
        ensures
            program@.len() == 0 ==> r == Err::<CPU, LoadError>(LoadError::Empty),
            program@.len() > MEMORY_SIZE - PROGRAM_START ==> r == Err::<CPU, LoadError>(
                LoadError::TooLarge { len: program@.len() as usize },
            ),
            0 < program@.len() <= MEMORY_SIZE - PROGRAM_START <==> r is Ok,
            r matches Ok(m) ==> m.wf() && m@ == MachineView::initial(loaded(program@), seed),
    {
        let len = program.len();
        if len == 0 {
            return Err(LoadError::Empty);
        }
        if len > MEMORY_SIZE - PROGRAM_START {
            return Err(LoadError::TooLarge { len });
        }
        let mut m = CPU::new(seed);
        let mut k: usize = 0;
        while k < len
            invariant
                len == program@.len(),
                len <= MEMORY_SIZE - PROGRAM_START,
                k <= len,
                m.memory@.len() == MEMORY_SIZE,
                forall|a: int|
                    0 <= a < MEMORY_SIZE ==> #[trigger] m.memory@[a] == (if PROGRAM_START <= a
                        < PROGRAM_START + k {
                        program@[a - PROGRAM_START]
                    } else {
                        0u8
                    }),
                m.wf(),
                m@ == MachineView::initial(m@.memory, seed),
            decreases len - k,
        {
            m.memory.set(PROGRAM_START + k, program[k]);
            k = k + 1;
        }
        assert(m@.memory =~= loaded(program@));
        Ok(m)
    }

    /// The opcode at the program counter. Fails when the opcode's second
    /// byte lies beyond memory.
    pub fn read_opcode(&self) -> (r: Result<u16, Fault>)
        requires
            self.wf(),
        ensures
            self@.pc + 1 < MEMORY_SIZE ==> r == Ok::<u16, Fault>(
                opcode_at(self@.memory, self@.pc as int),
            ),
            self@.pc + 1 >= MEMORY_SIZE ==> r == Err::<u16, Fault>(
                Fault::AddressFault { addr: first_outside(self@.pc as int) },
            ),
    {
        let p = self.pc as usize;
        if p + 1 >= MEMORY_SIZE {
            let addr = if p >= MEMORY_SIZE {
                p
            } else {
                MEMORY_SIZE
            };
            return Err(Fault::AddressFault { addr });
        }
        let op_byte1 = self.memory[p] as u16;
        let op_byte2 = self.memory[p + 1] as u16;
        Ok((op_byte1 << 8u16) | op_byte2)
    }

    /// Calls the subroutine at `addr`: pushes the program counter and jumps.
    /// Fails, changing nothing, when the stack is full.
    pub fn call(&mut self, addr: u16) -> (r: Result<(), Fault>)
        requires
            old(self).wf(),
        ensures
            final(self).wf(),
            match old(self)@.call(addr) {
                Ok(v) => r is Ok && final(self)@ == v,
                Err(f) => r == Err::<(), Fault>(f) && final(self)@ == old(self)@,
            },
    {
        let sp = self.stack_pointer;
        if sp >= STACK_CAPACITY {
            return Err(Fault::StackOverflow);
        }
        self.stack.set(sp, self.pc);
        self.stack_pointer = sp + 1;
        self.pc = addr;
        assert(self@.stack =~= old(self)@.stack.push(old(self)@.pc));
        Ok(())
    }

    /// Returns from a subroutine: pops the most recent return address into
    /// the program counter. Fails, changing nothing, when no call is pending.
    pub fn ret(&mut self) -> (r: Result<(), Fault>)
        requires
            old(self).wf(),
        ensures
            final(self).wf(),
            match old(self)@.ret() {
                Ok(v) => r is Ok && final(self)@ == v,
                Err(f) => r == Err::<(), Fault>(f) && final(self)@ == old(self)@,
            },
    {
        if self.stack_pointer == 0 {
            return Err(Fault::StackUnderflow);
        }
        self.stack_pointer = self.stack_pointer - 1;
        self.pc = self.stack[self.stack_pointer];
        assert(self@.stack =~= old(self)@.stack.drop_last());
        Ok(())
    }

    /// Jumps to `addr`.
    pub fn jmp_to_addr(&mut self, addr: u16)
        requires
            old(self).wf(),
        ensures
            final(self).wf(),
            final(self)@ == old(self)@.set_pc(addr),
    {
        self.pc = addr;
    }

    /// Jumps to `addr` plus register `x`.
    pub fn jmp_to_addr_x(&mut self, x: u8, addr: u16)
        requires
            old(self).wf(),
            x < REGISTER_COUNT,
            addr < 0x1000,
        ensures
            final(self).wf(),
            final(self)@ == old(self)@.set_pc((addr + old(self)@.reg(x as int)) as u16),
    {
        self.pc = addr + self.registers[x as usize] as u16;
    }

    /// Moves the program counter two bytes on, wrapping at 16 bits.
    fn skip_next(&mut self)
        requires
            old(self).wf(),
        ensures
            final(self).wf(),
            final(self)@ == old(self)@.skip(),
    {
        self.pc = if self.pc >= 0xFFFE {
            self.pc - 0xFFFE
        } else {
            self.pc + 2
        };
    }

    /// Skips the next instruction when register `x` equals `kk`.
    pub fn skip_if_eq(&mut self, x: u8, kk: u8)
        requires
            old(self).wf(),
            x < REGISTER_COUNT,
        ensures
            final(self).wf(),
            final(self)@ == old(self)@.skip_if(old(self)@.reg(x as int) == kk),
    {
        if self.registers[x as usize] == kk {
            self.skip_next();
        }
    }

    /// Skips the next instruction when register `x` differs from `kk`.
    pub fn skip_if_neq(&mut self, x: u8, kk: u8)
        requires
            old(self).wf(),
            x < REGISTER_COUNT,
        ensures
            final(self).wf(),
            final(self)@ == old(self)@.skip_if(old(self)@.reg(x as int) != kk),
    {
        if self.registers[x as usize] != kk {
            self.skip_next();
        }
    }

    /// Skips the next instruction when registers `x` and `y` are equal.
    pub fn skip_if_eq_registers(&mut self, x: u8, y: u8)
        requires
            old(self).wf(),
            x < REGISTER_COUNT,
            y < REGISTER_COUNT,
        ensures
            final(self).wf(),
            final(self)@ == old(self)@.skip_if(
                old(self)@.reg(x as int) == old(self)@.reg(y as int),
            ),
    {
        if self.registers[x as usize] == self.registers[y as usize] {
            self.skip_next();
        }
    }

    /// Skips the next instruction when registers `x` and `y` differ.
    pub fn skip_if_neq_registers(&mut self, x: u8, y: u8)
        requires
            old(self).wf(),
            x < REGISTER_COUNT,
            y < REGISTER_COUNT,
        ensures
            final(self).wf(),
            final(self)@ == old(self)@.skip_if(
                old(self)@.reg(x as int) != old(self)@.reg(y as int),
            ),
    {
        if self.registers[x as usize] != self.registers[y as usize] {
            self.skip_next();
        }
    }

    /// Sets register `x` to `v`.
    fn write_register(&mut self, x: usize, v: u8)
        requires
            old(self).wf(),
            x < REGISTER_COUNT,
        ensures
            final(self).wf(),
            final(self)@ == old(self)@.set_reg(x as int, v),
    {
        self.registers.set(x, v);
    }

    /// Loads the literal `kk` into register `x`.
    pub fn load_in_register(&mut self, x: u8, kk: u8)
        requires
            old(self).wf(),
            x < REGISTER_COUNT,
        ensures
            final(self).wf(),
            final(self)@ == old(self)@.set_reg(x as int, kk),
    {
        self.write_register(x as usize, kk);
    }

    /// Adds the literal `kk` to register `x`, wrapping; the flag register is
    /// left alone.
    pub fn add_xkk(&mut self, x: u8, kk: u8)
        requires
            old(self).wf(),
            x < REGISTER_COUNT,
        ensures
            final(self).wf(),
            final(self)@ == old(self)@.set_reg(
                x as int,
                ((old(self)@.reg(x as int) + kk) % 256) as u8,
            ),
    {
        let sum = self.registers[x as usize] as u16 + kk as u16;
        let val = if sum > 255 {
            (sum - 256) as u8
        } else {
            sum as u8
        };
        self.write_register(x as usize, val);
    }

    /// Copies register `y` into register `x`.
    pub fn set_xy(&mut self, x: u8, y: u8)
        requires
            old(self).wf(),
            x < REGISTER_COUNT,
            y < REGISTER_COUNT,
        ensures
            final(self).wf(),
            final(self)@ == old(self)@.set_reg(x as int, old(self)@.reg(y as int)),
    {
        let v = self.registers[y as usize];
        self.write_register(x as usize, v);
    }

    /// Register `x` |= register `y`.
    pub fn or_xy(&mut self, x: u8, y: u8)
        requires
            old(self).wf(),
            x < REGISTER_COUNT,
            y < REGISTER_COUNT,
        ensures
            final(self).wf(),
            final(self)@ == old(self)@.set_reg(
                x as int,
                old(self)@.reg(x as int) | old(self)@.reg(y as int),
            ),
    {
        let arg1 = self.registers[x as usize];
        let arg2 = self.registers[y as usize];
        self.write_register(x as usize, arg1 | arg2);
    }

    /// Register `x` &= register `y`.
    pub fn and_xy(&mut self, x: u8, y: u8)
        requires
            old(self).wf(),
            x < REGISTER_COUNT,
            y < REGISTER_COUNT,
        ensures
            final(self).wf(),
            final(self)@ == old(self)@.set_reg(
                x as int,
                old(self)@.reg(x as int) & old(self)@.reg(y as int),
            ),
    {
        let arg1 = self.registers[x as usize];
        let arg2 = self.registers[y as usize];
        self.write_register(x as usize, arg1 & arg2);
    }

    /// Register `x` ^= register `y`.
    pub fn xor_xy(&mut self, x: u8, y: u8)
        requires
            old(self).wf(),
            x < REGISTER_COUNT,
            y < REGISTER_COUNT,
        ensures
            final(self).wf(),
            final(self)@ == old(self)@.set_reg(
                x as int,
                old(self)@.reg(x as int) ^ old(self)@.reg(y as int),
            ),
    {
        let arg1 = self.registers[x as usize];
        let arg2 = self.registers[y as usize];
        self.write_register(x as usize, arg1 ^ arg2);
    }

    /// Adds register `y` to register `x` modulo 256; the flag register then
    /// tells whether the sum exceeded 255.
    pub fn add_xy(&mut self, x: u8, y: u8)
        requires
            old(self).wf(),
            x < REGISTER_COUNT,
            y < REGISTER_COUNT,
        ensures
            final(self).wf(),
            final(self)@ == old(self)@.add_with_carry(x as int, y as int),
    {
        let arg1 = self.registers[x as usize];
        let arg2 = self.registers[y as usize];
        let sum = arg1 as u16 + arg2 as u16;
        let overflow = sum > 255;
        let val = if overflow {
            (sum - 256) as u8
        } else {
            sum as u8
        };
        self.write_register(x as usize, val);
        self.write_register(FLAG, if overflow { 1 } else { 0 });
    }

    /// Subtracts register `y` from register `x` modulo 256; the flag register
    /// then tells whether no borrow occurred.
    pub fn sub_xy(&mut self, x: u8, y: u8)
        requires
            old(self).wf(),
            x < REGISTER_COUNT,
            y < REGISTER_COUNT,
        ensures
            final(self).wf(),
            final(self)@ == old(self)@.sub_with_borrow(x as int, y as int),
    {
        let arg1 = self.registers[x as usize];
        let arg2 = self.registers[y as usize];
        let no_borrow = arg1 >= arg2;
        let val = if no_borrow {
            arg1 - arg2
        } else {
            (256 + arg1 as u16 - arg2 as u16) as u8
        };
        self.write_register(x as usize, val);
        self.write_register(FLAG, if no_borrow { 1 } else { 0 });
    }

    /// Register `x` = register `y` - register `x` modulo 256; the flag
    /// register then tells whether no borrow occurred.
    pub fn subn_xy(&mut self, x: u8, y: u8)
        requires
            old(self).wf(),
            x < REGISTER_COUNT,
            y < REGISTER_COUNT,
        ensures
            final(self).wf(),
            final(self)@ == old(self)@.sub_reverse(x as int, y as int),
    {
        let arg1 = self.registers[x as usize];
        let arg2 = self.registers[y as usize];
        let no_borrow = arg2 >= arg1;
        let val = if no_borrow {
            arg2 - arg1
        } else {
            (256 + arg2 as u16 - arg1 as u16) as u8
        };
        self.write_register(x as usize, val);
        self.write_register(FLAG, if no_borrow { 1 } else { 0 });
    }

    /// Shifts register `x` right by one; the flag register then holds the
    /// bit shifted out.
    pub fn shr_x(&mut self, x: u8)
        requires
            old(self).wf(),
            x < REGISTER_COUNT,
        ensures
            final(self).wf(),
            final(self)@ == old(self)@.shift_right(x as int),
    {
        let val_x = self.registers[x as usize];
        self.write_register(x as usize, val_x >> 1u8);
        self.write_register(FLAG, val_x & 1u8);
    }

    /// Shifts register `x` left by one, dropping the top bit; the flag
    /// register then holds the bit shifted out.
    pub fn shl_x(&mut self, x: u8)
        requires
            old(self).wf(),
            x < REGISTER_COUNT,
        ensures
            final(self).wf(),
            final(self)@ == old(self)@.shift_left(x as int),
    {
        let val_x = self.registers[x as usize];
        self.write_register(x as usize, val_x << 1u8);
        self.write_register(FLAG, val_x >> 7u8);
    }

    /// Sets the index register to `addr`.
    #[allow(non_snake_case)]
    pub fn set_I(&mut self, addr: u16)
        requires
            old(self).wf(),
        ensures
            final(self).wf(),
            final(self)@ == (MachineView { index: addr, ..old(self)@ }),
    {
        self.register_i = addr;
    }

    /// Sets register `x` to the random byte `random` masked by `kk`.
    pub fn set_rand_x(&mut self, x: u8, kk: u8, random: u8)
        requires
            old(self).wf(),
            x < REGISTER_COUNT,
        ensures
            final(self).wf(),
            final(self)@ == old(self)@.set_reg(x as int, random & kk),
    {
        self.write_register(x as usize, random & kk);
    }

    /// Draws the `n`-row sprite at the index register at column register `x`
    /// modulo 64, row register `y` modulo 32, dropping what falls off the
    /// grid; the flag register then tells whether a lit pixel was turned off.
    /// Fails, changing nothing, when the sprite's bytes run past memory.
    pub fn draw(&mut self, x: u8, y: u8, n: u8) -> (r: Result<(), Fault>)
        requires
            old(self).wf(),
            x < REGISTER_COUNT,
            y < REGISTER_COUNT,
        ensures
            final(self).wf(),
            match old(self)@.draw(x as int, y as int, n as int) {
                Ok(v) => r is Ok && final(self)@ == v,
                Err(f) => r == Err::<(), Fault>(f) && final(self)@ == old(self)@,
            },
    {
        let start = self.register_i as usize;
        if start + n as usize > MEMORY_SIZE {
            let addr = if start >= MEMORY_SIZE {
                start
            } else {
                MEMORY_SIZE
            };
            return Err(Fault::AddressFault { addr });
        }
        let sx = (self.registers[x as usize] % 64) as usize;
        let sy = (self.registers[y as usize] % 32) as usize;
        let collision = self.display.draw_sprite(&self.memory, start, n as usize, sx, sy);
        self.write_register(FLAG, if collision { 1 } else { 0 });
        Ok(())
    }

    /// Executes `ins` with the program counter already past it. On a fault
    /// nothing changes.
    pub fn execute(&mut self, ins: Instruction) -> (r: Result<(), Fault>)
        requires
            old(self).wf(),
            ins.wf(),
        ensures
            final(self).wf(),
            match old(self)@.execute(ins) {
                Ok(v) => r is Ok && final(self)@ == v,
                Err(f) => r == Err::<(), Fault>(f) && final(self)@ == old(self)@,
            },
    {
        match ins {
            Instruction::Halt => {},
            Instruction::ClearScreen => self.display.clear(),
            Instruction::Return => return self.ret(),
            Instruction::Jump { addr } => self.jmp_to_addr(addr),
            Instruction::Call { addr } => return self.call(addr),
            Instruction::SkipEq { x, kk } => self.skip_if_eq(x, kk),
            Instruction::SkipNeq { x, kk } => self.skip_if_neq(x, kk),
            Instruction::SkipEqRegisters { x, y } => self.skip_if_eq_registers(x, y),
            Instruction::Load { x, kk } => self.load_in_register(x, kk),
            Instruction::AddImmediate { x, kk } => self.add_xkk(x, kk),
            Instruction::Move { x, y } => self.set_xy(x, y),
            Instruction::Or { x, y } => self.or_xy(x, y),
            Instruction::And { x, y } => self.and_xy(x, y),
            Instruction::Xor { x, y } => self.xor_xy(x, y),
            Instruction::AddRegisters { x, y } => self.add_xy(x, y),
            Instruction::Sub { x, y } => self.sub_xy(x, y),
            Instruction::ShiftRight { x } => self.shr_x(x),
            Instruction::SubReverse { x, y } => self.subn_xy(x, y),
            Instruction::ShiftLeft { x } => self.shl_x(x),
            Instruction::SkipNeqRegisters { x, y } => self.skip_if_neq_registers(x, y),
            Instruction::SetIndex { addr } => self.set_I(addr),
            Instruction::JumpOffset { x, addr } => self.jmp_to_addr_x(x, addr),
            Instruction::Random { x, kk } => {
                let random = output_byte(self.rng);
                self.rng = advance(self.rng);
                self.set_rand_x(x, kk, random);
            },
            Instruction::Draw { x, y, n } => return self.draw(x, y, n),
        }
        Ok(())
    }

    /// Fetches, decodes and executes one instruction. The program counter
    /// moves past the opcode before dispatch, halt included; on a fault the
    /// machine is left exactly as it was.
    pub fn step(&mut self) -> (r: MachineState)
        requires
            old(self).wf(),
        ensures
            final(self).wf(),
            (final(self)@, r) == old(self)@.step(),
    {
        let pc = self.pc;
        let op = match self.read_opcode() {
            Ok(op) => op,
            Err(fault) => return MachineState::Faulted { pc, fault },
        };
        let ins = match decode(op) {
            Some(ins) => ins,
            None => return MachineState::Faulted { pc, fault: Fault::DecodeFault { opcode: op } },
        };
        self.pc = pc + 2;
        if ins == Instruction::Halt {
            return MachineState::Halted;
        }
        match self.execute(ins) {
            Ok(()) => MachineState::Running,
            Err(fault) => {
                self.pc = pc;
                MachineState::Faulted { pc, fault }
            },
        }
    }

    /// Steps until the machine halts or faults, or `max_steps` instructions
    /// have run; returns where the machine then stands.
    pub fn run(&mut self, max_steps: usize) -> (r: MachineState)
        requires
            old(self).wf(),
        ensures
            final(self).wf(),
            (final(self)@, r) == old(self)@.run(max_steps as nat),
    {
        let mut k: usize = 0;
        loop
            invariant
                self.wf(),
                k <= max_steps,
                old(self)@.run(max_steps as nat) == self@.run((max_steps - k) as nat),
            decreases max_steps - k,
        {
            if k == max_steps {
                return MachineState::Running;
            }
            let s = self.step();
            k = k + 1;
            if s != MachineState::Running {
                return s;
            }
        }
    }

    /// Register `x`.
    pub fn register(&self, x: usize) -> (r: u8)
        requires
            self.wf(),
            x < REGISTER_COUNT,
        ensures
            r == self@.reg(x as int),
    {
        self.registers[x]
    }

    /// The index register.
    pub fn index(&self) -> (r: u16)
        ensures
            r == self@.index,
    {
        self.register_i
    }

    /// The program counter.
    pub fn pc(&self) -> (r: u16)
        ensures
            r == self@.pc,
    {
        self.pc
    }

    /// How many return addresses are pending.
    pub fn stack_depth(&self) -> (r: usize)
        requires
            self.wf(),
        ensures
            r == self@.stack.len(),
    {
        self.stack_pointer
    }

    /// The byte at `addr`; `None` beyond memory.
    pub fn memory_at(&self, addr: usize) -> (r: Option<u8>)
        requires
            self.wf(),
        ensures
            addr < MEMORY_SIZE ==> r == Some(self@.memory[addr as int]),
            addr >= MEMORY_SIZE ==> r is None,
    {
        if addr < MEMORY_SIZE {
            Some(self.memory[addr])
        } else {
            None
        }
    }

    /// The display, for reading by a renderer.
    pub fn display(&self) -> (r: &Display)
        requires
            self.wf(),
        ensures
            r.wf(),
            r@ == self@.display,
    {
        &self.display
    }

    /// Whether the pixel at column `x`, row `y` is on; off the grid reads as
    /// off.
    pub fn pixel(&self, x: usize, y: usize) -> (r: bool)
        requires
            self.wf(),
        ensures
            r == (x < crate::display::WIDTH && y < crate::display::HEIGHT
                && self@.display[y as int][x as int]),
    {
        self.display.pixel(x, y)
    }
}

/// A vector of `n` zero bytes.
fn zeros_u8(n: usize) -> (r: Vec<u8>)
    ensures
        r@ == Seq::new(n as nat, |i: int| 0u8),
{
    let mut v: Vec<u8> = Vec::new();
    let mut k: usize = 0;
    while k < n
        invariant
            k <= n,
            v@ == Seq::new(k as nat, |i: int| 0u8),
        decreases n - k,
    {
        v.push(0);
        k = k + 1;
        assert(v@ =~= Seq::new(k as nat, |i: int| 0u8));
    }
    v
}

} // verus!
