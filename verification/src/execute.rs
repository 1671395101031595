use vstd::prelude::*;
use crate::cpu::Cpu;
use crate::dispatch::{executed, outcome_of, Outcome};
use crate::error::CoreError;
use crate::memory::Memory;
use crate::model::Machine;
use crate::operand::{lemma_opcode_fields, Operand8};
use crate::registers::Reg16;
use crate::tables::{instruction_cycles, instruction_length};

verus! {

impl Cpu {
    fn execute_load(&mut self, opcode: u8, mem: &mut Memory) -> (res: Result<bool, CoreError>)
        requires
            old(mem)@.wf(),
            0x40 <= opcode < 0x80,
        ensures
            final(mem)@.wf(),
            executed(
                (Machine { cpu: old(self)@, mem: old(mem)@ }).execute_load(opcode),
                old(self)@,
                old(mem)@,
                res,
                final(self)@,
                final(mem)@,
            ),
    {
        if opcode == 0x76 {
            self.halt();
        } else {
            proof {
                lemma_opcode_fields(opcode);
            }
            let dest = Operand8::from_index(opcode >> 3);
            let source = Operand8::from_index(opcode);
            self.ld_r1_r2(mem, dest, source)?;
        }
        Ok(false)
    }

    fn execute_alu(&mut self, opcode: u8, mem: &Memory) -> (res: Result<bool, CoreError>)
        requires
            mem@.wf(),
            0x80 <= opcode < 0xC0,
        ensures
            executed(
                (Machine { cpu: old(self)@, mem: mem@ }).execute_alu(opcode),
                old(self)@,
                mem@,
                res,
                final(self)@,
                mem@,
            ),
    {
        proof {
            lemma_opcode_fields(opcode);
        }
        let operand = Operand8::from_index(opcode);
        match (opcode >> 3) & 0x07 {
            0 => self.add_a_r(mem, operand),
            1 => self.adc_a_r(mem, operand),
            2 => self.sub_a_r(mem, operand),
            3 => self.sbc_a_r(mem, operand),
            4 => self.and_a_r(mem, operand),
            5 => self.xor_a_r(mem, operand),
            6 => self.or_a_r(mem, operand),
            _ => self.cp_a_r(mem, operand),
        }
        Ok(false)
    }

    /// Executes the instruction that starts with `opcode`, with its operands
    /// read from behind the program counter. Tells whether the instruction
    /// set the program counter itself; if it did not, the program counter
    /// still holds the address of the opcode. An undefined opcode, or a
    /// write that the cartridge refuses, is an error and changes nothing.
    pub fn execute(&mut self, opcode: u8, mem: &mut Memory) -> (res: Result<bool, CoreError>)
        requires
            old(mem)@.wf(),
        ensures
            final(mem)@.wf(),
            executed(
                (Machine { cpu: old(self)@, mem: old(mem)@ }).execute(opcode),
                old(self)@,
                old(mem)@,
                res,
                final(self)@,
                final(mem)@,
            ),
    {
        if opcode < 0x40 {
            self.execute_low(opcode, mem)
        } else if opcode < 0x80 {
            self.execute_load(opcode, mem)
        } else if opcode < 0xC0 {
            self.execute_alu(opcode, mem)
        } else {
            self.execute_high(opcode, mem)
        }
    }

    /// After an instruction: moves the program counter on by the encoded
    /// length unless the instruction jumped, adds the clock cycles of the
    /// instruction to those spent, and reports both. `next` is the byte that
    /// followed the opcode.
    pub fn handle_post_instruction(&mut self, opcode: u8, next: u8, jumped: bool) -> (outcome:
        Outcome)
        ensures
            final(self)@ == old(self)@.handle_post_instruction(opcode, next, jumped),
            outcome == outcome_of(opcode, next, jumped),
    {
        let length: u8 = instruction_length(opcode, next);
        let cycles: u8 = instruction_cycles(opcode, next);
        self.cycles = self.cycles.wrapping_add(cycles as u64);
        if !jumped {
            let pc: u16 = self.registers.read_16(Reg16::PC);
            self.registers.write_16(Reg16::PC, pc.wrapping_add(length as u16));
        }
        Outcome { opcode, length, cycles, jumped }
    }

    /// One step of the machine: fetch, execute, move on. A waiting processor
    /// does nothing and reports an outcome without length or cycles. An
    /// error leaves the processor and the address space as they were.
    pub fn step(&mut self, mem: &mut Memory) -> (res: Result<Outcome, CoreError>)
        requires
            old(mem)@.wf(),
        ensures
            final(mem)@.wf(),
            match (Machine { cpu: old(self)@, mem: old(mem)@ }).step() {
                Ok(stepped) => res == Ok::<Outcome, CoreError>(stepped.outcome) && final(self)@
                    == stepped.machine.cpu && final(mem)@ == stepped.machine.mem,
                Err(e) => res == Err::<Outcome, CoreError>(e) && final(self)@ == old(self)@
                    && final(mem)@ == old(mem)@,
            },
    {
        if self.is_halted() {
            return Ok(Outcome { opcode: 0, length: 0, cycles: 0, jumped: false });
        }
        let pc: u16 = self.registers.read_16(Reg16::PC);
        let opcode: u8 = mem.read_8(pc);
        let next: u8 = mem.read_8(pc.wrapping_add(1));
        let jumped: bool = self.execute(opcode, mem)?;
        Ok(self.handle_post_instruction(opcode, next, jumped))
    }
}

} // verus!
