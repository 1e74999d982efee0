//! The CPU: its registers and memory, and loading, resetting and running a
//! program.

pub mod addressing_mode;
pub mod instructions;
pub mod machine;
pub mod mem;
pub mod opcodes;
pub mod processor_status;
pub mod theorems;

use machine::{
    lemma_after_add, lemma_after_fixed, lemma_run, Machine, Outcome, MEMORY_SIZE, RESET_VECTOR,
    STACK_RESET, STATUS_RESET,
};
use mem::Mem;
use opcodes::{lemma_decoded, OpCode, OpCodeName};
use processor_status::ProcessorStatus;
use vstd::pervasive::unreached;
use vstd::prelude::*;

verus! {

/// Where `load` puts a program.
pub const PROGRAM_START: u16 = 0x8000;

/// Where `test_load` puts a program.
pub const TEST_PROGRAM_START: u16 = 0x0600;

/// The 6502 and the memory that it sees.
pub struct CPU {
    /// Accumulator.
    pub register_a: u8,
    /// Index register X.
    pub register_x: u8,
    /// Index register Y.
    pub register_y: u8,
    /// Stack pointer, an offset into page one.
    pub stack_pointer: u8,
    /// Processor status register.
    pub status: u8,
    /// Program counter.
    pub program_counter: u16,
    /// The CPU's memory map:
    /// * RAM - `0x0000 ..= 0x1FFF`
    /// * PPU, APU, game pads and so on - `0x2000 ..= 0x401F`
    /// * Cartridge space - `0x4020 ..= 0x7FFF`
    /// * PRG ROM - `0x8000 ..= 0xFFFF`
    pub memory: [u8; MEMORY_SIZE],
}

impl View for CPU {
    type V = Machine;

    open spec fn view(&self) -> Machine {
        Machine {
            a: self.register_a,
            x: self.register_x,
            y: self.register_y,
            sp: self.stack_pointer,
            p: self.status,
            pc: self.program_counter,
            mem: self.memory@,
        }
    }
}

impl Mem for CPU {
    open spec fn peek(&self, addr: u16) -> u8 {
        self@.read(addr)
    }

    open spec fn poke(&self, addr: u16, data: u8) -> Self {
        CPU { memory: vstd::array::spec_array_update(self.memory, addr as int, data), ..*self }
    }

    fn mem_read(&self, addr: u16) -> (data: u8) {
        self.memory[addr as usize]
    }

    fn mem_write(&mut self, addr: u16, data: u8)
        ensures
            final(self)@ == old(self)@.write(addr, data),
    {
        self.memory[addr as usize] = data;
    }
}

/// The CPU stands for a machine with its whole memory, and a write to the
/// CPU's memory is that machine's write: the byte is read back from its
/// address, every other address reads as before, and no register changes.
pub proof fn lemma_poke(cpu: CPU, addr: u16, data: u8)
    ensures
        cpu@.wf(),
        cpu.poke(addr, data)@ == cpu@.write(addr, data),
        forall|other: u16| #[trigger]
            cpu.poke(addr, data).peek(other) == if other == addr {
                data
            } else {
                cpu.peek(other)
            },
{
}

impl Default for CPU {
    fn default() -> (cpu: Self)
        ensures
            cpu@ == Machine::power_on(),
    {
        Self::new()
    }
}

impl CPU {
    /// A CPU with zeroed registers and memory, the stack pointer and the
    /// status register as after a reset.
    pub fn new() -> (cpu: Self)
        ensures
            cpu@ == Machine::power_on(),
    {
        Self {
            register_a: 0,
            register_x: 0,
            register_y: 0,
            stack_pointer: STACK_RESET,
            status: STATUS_RESET,
            program_counter: 0,
            memory: [0;MEMORY_SIZE],
        }
    }

    /// What the console does when a cartridge is put in: clears the
    /// registers, puts the stack pointer and the status register at their
    /// reset values, and takes the program counter from the reset vector at
    /// `0xFFFC`.
    pub fn reset(&mut self)
        ensures
            final(self)@ == old(self)@.reset(),
    {
        self.register_a = 0;
        self.register_x = 0;
        self.register_y = 0;
        self.stack_pointer = STACK_RESET;
        self.status = STATUS_RESET;
        self.program_counter = self.mem_read_u16(RESET_VECTOR);
    }

    /// Copies `program` to memory from `base` on and points the reset vector
    /// at `base`.
    fn load_at(&mut self, base: u16, program: &[u8])
        requires
            base + program@.len() <= MEMORY_SIZE,
        ensures
            final(self)@ == old(self)@.load_at(base, program@),
    {
        let mut i: usize = 0;
        while i < program.len()
            invariant
                i <= program@.len(),
                base + program@.len() <= MEMORY_SIZE,
                self@ == old(self)@.with_image(base, program@.take(i as int)),
            decreases program@.len() - i,
        {
            self.memory[base as usize + i] = program[i];
            i += 1;
        }
        assert(program@.take(i as int) == program@);
        self.mem_write_u16(RESET_VECTOR, base);
    }

    /// Copies `program` into PRG ROM, the region from `0x8000` on, where a
    /// cartridge's code is seen, and points the reset vector at `0x8000`, so
    /// that a reset starts the program. The vector is written last: a
    /// program that reaches `0xFFFC` has two of its bytes replaced.
    pub fn load(&mut self, program: &[u8])
        requires
            program@.len() <= MEMORY_SIZE - PROGRAM_START,
        ensures
            final(self)@ == old(self)@.load_at(PROGRAM_START, program@),
    {
        self.load_at(PROGRAM_START, program);
    }

    /// As `load`, at `0x0600`.
    pub fn test_load(&mut self, program: &[u8])
        requires
            program@.len() <= MEMORY_SIZE - TEST_PROGRAM_START,
        ensures
            final(self)@ == old(self)@.load_at(TEST_PROGRAM_START, program@),
    {
        self.load_at(TEST_PROGRAM_START, program);
    }

    /// Loads `program`, resets the CPU and runs the program to its BRK.
    pub fn load_and_run(&mut self, program: &[u8])
        requires
            program@.len() <= MEMORY_SIZE - PROGRAM_START,
            old(self)@.load_at(PROGRAM_START, program@).reset().halts(),
        ensures
            final(self)@ == old(self)@.load_at(PROGRAM_START, program@).reset().run(),
            final(self)@.halted(),
    {
        self.load(program);
        self.reset();
        self.run();
    }

    /// Moves the program counter on by `distance`.
    fn advance(&mut self, distance: u8)
        ensures
            final(self)@ == old(self)@.moved(distance as int),
    {
        self.program_counter = self.program_counter.wrapping_add(distance as u16);
    }

    /// Fetches the byte at the program counter, decodes it and executes the
    /// instruction that it stands for. At a BRK, and at a byte that is no
    /// opcode, nothing changes, and the result says which of the two was
    /// met.
    pub fn step(&mut self) -> (outcome: Outcome)
        ensures
            outcome == old(self)@.outcome(),
            final(self)@ == old(self)@.step(),
    {
        let opcode = self.mem_read(self.program_counter);
        let opcode_struct = match OpCode::get(opcode) {
            Some(opcode_struct) => opcode_struct,
            None => {
                return Outcome::IllegalOpcode(opcode);
            },
        };
        let mode = opcode_struct.mode;
        proof {
            lemma_decoded(opcode);
        }
        self.advance(1);
        match opcode_struct.mnemonic {
            OpCodeName::ADC => self.adc(mode),
            OpCodeName::AND => self.and(mode),
            OpCodeName::ASL => self.asl(mode),
            OpCodeName::BCC => self.branch(!self.is_status_flag_set(ProcessorStatus::Carry), mode),
            OpCodeName::BCS => self.branch(self.is_status_flag_set(ProcessorStatus::Carry), mode),
            OpCodeName::BEQ => self.branch(self.is_status_flag_set(ProcessorStatus::Zero), mode),
            OpCodeName::BIT => self.bit(mode),
            OpCodeName::BMI => self.branch(
                self.is_status_flag_set(ProcessorStatus::Negative),
                mode,
            ),
            OpCodeName::BNE => self.branch(!self.is_status_flag_set(ProcessorStatus::Zero), mode),
            OpCodeName::BPL => self.branch(
                !self.is_status_flag_set(ProcessorStatus::Negative),
                mode,
            ),
            OpCodeName::BRK => {
                // The program counter is to stay at the BRK, so it goes back
                // over the fetch.
                self.program_counter = self.program_counter.wrapping_sub(1);
                return Outcome::Halted;
            },
            OpCodeName::BVC => self.branch(
                !self.is_status_flag_set(ProcessorStatus::Overflow),
                mode,
            ),
            OpCodeName::BVS => self.branch(
                self.is_status_flag_set(ProcessorStatus::Overflow),
                mode,
            ),
            OpCodeName::CLC => self.clear(ProcessorStatus::Carry),
            OpCodeName::CLD => self.clear(ProcessorStatus::Decimal),
            OpCodeName::CLI => self.clear(ProcessorStatus::InterruptDisable),
            OpCodeName::CLV => self.clear(ProcessorStatus::Overflow),
            OpCodeName::CMP => self.cmp(mode),
            OpCodeName::CPX => self.cpx(mode),
            OpCodeName::CPY => self.cpy(mode),
            OpCodeName::DEC => self.dec(mode),
            OpCodeName::DEX => self.dex(),
            OpCodeName::DEY => self.dey(),
            OpCodeName::EOR => self.eor(mode),
            OpCodeName::INC => self.inc(mode),
            OpCodeName::INX => self.inx(),
            OpCodeName::INY => self.iny(),
            OpCodeName::JMP => {
                // A jump says where to go on: the program counter is not
                // moved past the operand.
                self.jmp(mode);
                return Outcome::Running;
            },
            OpCodeName::JSR => {
                self.jsr(mode);
                return Outcome::Running;
            },
            OpCodeName::LDA => self.lda(mode),
            OpCodeName::LDX => self.ldx(mode),
            OpCodeName::LDY => self.ldy(mode),
            OpCodeName::LSR => self.lsr(mode),
            OpCodeName::NOP => {},
            OpCodeName::ORA => self.ora(mode),
            OpCodeName::PHA => self.pha(),
            OpCodeName::PHP => self.php(),
            OpCodeName::PLA => self.pla(),
            OpCodeName::PLP => self.plp(),
            OpCodeName::ROL => self.rol(mode),
            OpCodeName::ROR => self.ror(mode),
            OpCodeName::RTI => self.rti(),
            OpCodeName::RTS => self.rts(),
            OpCodeName::SBC => self.sbc(mode),
            OpCodeName::SEC => self.sec(),
            OpCodeName::SED => self.sed(),
            OpCodeName::SEI => self.sei(),
            OpCodeName::STA => self.sta(mode),
            OpCodeName::STX => self.stx(mode),
            OpCodeName::STY => self.sty(mode),
            OpCodeName::TAX => self.tax(),
            OpCodeName::TAY => self.tay(),
            OpCodeName::TSX => self.tsx(),
            OpCodeName::TXA => self.txa(),
            OpCodeName::TXS => self.txs(),
            OpCodeName::TYA => self.tya(),
        }
        // On to the next instruction.
        self.advance(opcode_struct.len - 1);
        Outcome::Running
    }

    /// Runs the program at the program counter to its BRK: fetches, decodes
    /// and executes one instruction after the other. The program counter is
    /// left at the BRK.
    pub fn run(&mut self)
        requires
            old(self)@.halts(),
        ensures
            final(self)@ == old(self)@.run(),
            final(self)@.halted(),
    {
        let ghost mut left: nat = choose|steps: nat| self@.after(steps).halted();
        loop
            invariant
                self@.after(left).halted(),
                self@.run() == old(self)@.run(),
            decreases left,
        {
            let ghost before = self@;
            match self.step() {
                Outcome::Running => {
                    proof {
                        left = (left - 1) as nat;
                        lemma_run(before, 1 + left);
                        lemma_run(before.step(), left);
                        lemma_after_add(before, 1, left);
                    }
                },
                Outcome::Halted => {
                    proof {
                        lemma_run(before, 0);
                    }
                    return ;
                },
                Outcome::IllegalOpcode(_) => {
                    // A program that halts meets no illegal opcode.
                    proof {
                        lemma_after_fixed(before, left);
                    }
                    unreached::<()>();
                },
            }
        }
    }

    /// As `run`.
    pub fn test_run(&mut self)
        requires
            old(self)@.halts(),
        ensures
            final(self)@ == old(self)@.run(),
            final(self)@.halted(),
    {
        self.test_run_with_callback(|cpu: &mut CPU| ensures final(cpu)@ == old(cpu)@ {});
    }

    /// As `run`, with a call of `callback` on the CPU after each instruction
    /// but the BRK. The callback is there to watch: it leaves the CPU as it
    /// finds it.
    pub fn test_run_with_callback<F>(&mut self, mut callback: F) where F: FnMut(&mut CPU)
        requires
            old(self)@.halts(),
            forall|cpu: &mut CPU| #[trigger] callback.requires((cpu,)),
            forall|cpu: &mut CPU| #[trigger] callback.ensures((cpu,), ()) ==> final(cpu)@ == cpu@,
        ensures
            final(self)@ == old(self)@.run(),
            final(self)@.halted(),
    {
        let ghost mut left: nat = choose|steps: nat| self@.after(steps).halted();
        loop
            invariant
                self@.after(left).halted(),
                self@.run() == old(self)@.run(),
                forall|cpu: &mut CPU| #[trigger] callback.requires((cpu,)),
                forall|cpu: &mut CPU| #[trigger]
                    callback.ensures((cpu,), ()) ==> final(cpu)@ == cpu@,
            decreases left,
        {
            let ghost before = self@;
            match self.step() {
                Outcome::Running => {
                    proof {
                        left = (left - 1) as nat;
                        lemma_run(before, 1 + left);
                        lemma_run(before.step(), left);
                        lemma_after_add(before, 1, left);
                    }
                },
                Outcome::Halted => {
                    proof {
                        lemma_run(before, 0);
                    }
                    return ;
                },
                Outcome::IllegalOpcode(_) => {
                    // A program that halts meets no illegal opcode.
                    proof {
                        lemma_after_fixed(before, left);
                    }
                    unreached::<()>();
                },
            }
            callback(self);
        }
    }
}

} // verus!
