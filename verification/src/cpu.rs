use vstd::prelude::*;
use crate::alu;
use crate::alu::AluResult;
use crate::error::CoreError;
use crate::flags::Flags;
use crate::memory::Memory;
use crate::model::{carried_out, CpuState, RunState};
use crate::operand::{Operand8, Register};
use crate::registers::{Reg16, Reg8, Registers};

verus! {

/// The processor: its registers, whether it runs or waits, and the clock
/// cycles that the instructions it has stepped through have taken.
pub struct Cpu {
    pub registers: Registers,
    pub state: RunState,
    pub cycles: u64,
}

impl View for Cpu {
    type V = CpuState;

    open spec fn view(&self) -> CpuState {
        CpuState { regs: self.registers@, run: self.state, cycles: self.cycles }
    }
}

/// The mask `0xFFF0` takes the low four bits out of a word: the high byte
/// stays, and the low byte loses its remainder by 16.
pub proof fn lemma_clear_low_nibble(word: u16)
    by (bit_vector)
    ensures
        word & 0xFFF0u16 == word - word % 16u16,
        (word & 0xFFF0u16) / 256u16 == word / 256u16,
        (word & 0xFFF0u16) % 256u16 == word % 256u16 - word % 16u16,
        (word % 256u16) % 16u16 == word % 16u16,
{
}

impl Cpu {
    /// A processor with every register zero, interrupts disabled, running,
    /// with no cycle spent.
    pub fn new() -> (cpu: Cpu)
        ensures
            cpu@ == CpuState::initial(),
    {
        Cpu { registers: Registers::new(), state: RunState::Running, cycles: 0 }
    }

    /// The four flags that the flags register holds.
    pub fn flags(&self) -> (flags: Flags)
        ensures
            flags == self@.flags(),
    {
        Flags::from_byte(self.registers.read_8(Reg8::F))
    }

    /// Puts the four flags in the flags register, whose low bits stay.
    pub fn set_flags(&mut self, flags: Flags)
        ensures
            final(self)@ == old(self)@.set_flags(flags),
    {
        let previous: u8 = self.registers.read_8(Reg8::F);
        self.registers.write_8(Reg8::F, flags.to_byte(previous));
    }

    /// Puts the result of an operation in the accumulator and the flags.
    pub fn set_result(&mut self, result: AluResult)
        ensures
            final(self)@ == old(self)@.set_result(result),
    {
        self.registers.write_8(Reg8::A, result.value);
        self.set_flags(result.flags);
    }

    /// The byte that follows the opcode at the program counter.
    pub fn immediate_8(&self, mem: &Memory) -> (value: u8)
        requires
            mem@.wf(),
        ensures
            value == self@.immediate_8(mem@),
    {
        mem.read_8(self.registers.read_16(Reg16::PC).wrapping_add(1))
    }

    /// The word that follows the opcode at the program counter.
    pub fn immediate_16(&self, mem: &Memory) -> (value: u16)
        requires
            mem@.wf(),
        ensures
            value == self@.immediate_16(mem@),
    {
        mem.read_16(self.registers.read_16(Reg16::PC).wrapping_add(1))
    }

    /// The byte in a register, or in memory at the address a pair holds.
    pub fn register_or_memory(&self, mem: &Memory, operand: Operand8) -> (value: u8)
        requires
            mem@.wf(),
        ensures
            value == self@.register_or_memory(mem@, operand),
    {
        match operand {
            Operand8::Reg(register) => self.registers.read_8(register),
            Operand8::Mem(pair) => mem.read_8(self.registers.read_16(pair)),
        }
    }

    /// Puts a byte in a register, or writes it to memory at the address a
    /// pair holds.
    pub fn write_mem_or_regs(&mut self, mem: &mut Memory, operand: Operand8, value: u8) -> (res:
        Result<(), CoreError>)
        requires
            old(mem)@.wf(),
        ensures
            final(mem)@.wf(),
            carried_out(
                old(self)@.write_mem_or_regs(old(mem)@, operand, value),
                old(self)@,
                old(mem)@,
                res,
                final(self)@,
                final(mem)@,
            ),
    {
        match operand {
            Operand8::Reg(register) => {
                self.registers.write_8(register, value);
                Ok(())
            },
            Operand8::Mem(pair) => mem.write_8(self.registers.read_16(pair), value),
        }
    }

    /// LD rr,nn: a register pair takes the word that follows the opcode.
    pub fn ld_nn(&mut self, mem: &Memory, register: Reg16)
        requires
            mem@.wf(),
        ensures
            final(self)@ == old(self)@.ld_nn(mem@, register),
    {
        let value: u16 = self.immediate_16(mem);
        self.registers.write_16(register, value);
    }

    /// The accumulator takes the byte that follows the opcode.
    pub fn ld_a_nn(&mut self, mem: &Memory)
        requires
            mem@.wf(),
        ensures
            final(self)@ == old(self)@.ld_a_nn(mem@),
    {
        let value: u8 = self.immediate_8(mem);
        self.registers.write_8(Reg8::A, value);
    }

    /// LD r,n: a register takes the byte that follows the opcode.
    pub fn ld_n(&mut self, mem: &Memory, register: Reg8)
        requires
            mem@.wf(),
        ensures
            final(self)@ == old(self)@.ld_n(mem@, register),
    {
        let value: u8 = self.immediate_8(mem);
        self.registers.write_8(register, value);
    }

    /// LD dest,source: the byte that `source` stands for goes to `dest`.
    pub fn ld_r1_r2(&mut self, mem: &mut Memory, dest: Operand8, source: Operand8) -> (res: Result<
        (),
        CoreError,
    >)
        requires
            old(mem)@.wf(),
        ensures
            final(mem)@.wf(),
            carried_out(
                old(self)@.ld_r1_r2(old(mem)@, dest, source),
                old(self)@,
                old(mem)@,
                res,
                final(self)@,
                final(mem)@,
            ),
    {
        let value: u8 = self.register_or_memory(mem, source);
        self.write_mem_or_regs(mem, dest, value)
    }

    /// LD (nn),A: the accumulator is written at the address that follows
    /// the opcode.
    pub fn ld_nn_a(&mut self, mem: &mut Memory) -> (res: Result<(), CoreError>)
        requires
            old(mem)@.wf(),
        ensures
            final(mem)@.wf(),
            carried_out(
                old(self)@.ld_nn_a(old(mem)@),
                old(self)@,
                old(mem)@,
                res,
                final(self)@,
                final(mem)@,
            ),
    {
        let address: u16 = self.immediate_16(mem);
        mem.write_8(address, self.registers.read_8(Reg8::A))
    }

    /// LD (HL),n: the byte that follows the opcode is written at the
    /// address in HL.
    pub fn ld_m_n(&mut self, mem: &mut Memory) -> (res: Result<(), CoreError>)
        requires
            old(mem)@.wf(),
        ensures
            final(mem)@.wf(),
            carried_out(
                old(self)@.ld_m_n(old(mem)@),
                old(self)@,
                old(mem)@,
                res,
                final(self)@,
                final(mem)@,
            ),
    {
        let value: u8 = self.immediate_8(mem);
        mem.write_8(self.registers.read_16(Reg16::HL), value)
    }

    /// LD HL,SP+e: HL takes SP plus the byte that follows the opcode, taken
    /// as a number from 0 to 255. No flag changes.
    pub fn ld_sp_e(&mut self, mem: &Memory)
        requires
            mem@.wf(),
        ensures
            final(self)@ == old(self)@.ld_sp_e(mem@),
    {
        let base: u16 = self.registers.read_16(Reg16::SP);
        let offset: u8 = self.immediate_8(mem);
        self.registers.write_16(Reg16::HL, base.wrapping_add(offset as u16));
    }

    /// The word in HL is written to memory at the address in SP.
    pub fn ld_sp_hl(&mut self, mem: &mut Memory) -> (res: Result<(), CoreError>)
        requires
            old(mem)@.wf(),
        ensures
            final(mem)@.wf(),
            carried_out(
                old(self)@.ld_sp_hl(old(mem)@),
                old(self)@,
                old(mem)@,
                res,
                final(self)@,
                final(mem)@,
            ),
    {
        let value: u16 = self.registers.read_16(Reg16::HL);
        mem.write_16(self.registers.read_16(Reg16::SP), value)
    }

    /// LDH (n),A: the accumulator is written at 0xFF00 plus the byte that
    /// follows the opcode.
    pub fn ldh_n_a(&mut self, mem: &mut Memory) -> (res: Result<(), CoreError>)
        requires
            old(mem)@.wf(),
        ensures
            final(mem)@.wf(),
            carried_out(
                old(self)@.ldh_n_a(old(mem)@),
                old(self)@,
                old(mem)@,
                res,
                final(self)@,
                final(mem)@,
            ),
    {
        let offset: u8 = self.immediate_8(mem);
        mem.write_8(0xFF00 + offset as u16, self.registers.read_8(Reg8::A))
    }

    /// LDH A,(n): the accumulator takes the byte at 0xFF00 plus the byte
    /// that follows the opcode.
    pub fn ldh_a_n(&mut self, mem: &Memory)
        requires
            mem@.wf(),
        ensures
            final(self)@ == old(self)@.ldh_a_n(mem@),
    {
        let offset: u8 = self.immediate_8(mem);
        let value: u8 = mem.read_8(0xFF00 + offset as u16);
        self.registers.write_8(Reg8::A, value);
    }

    /// LDH (C),A: the accumulator is written at 0xFF00 plus C.
    pub fn ldh_c_a(&mut self, mem: &mut Memory) -> (res: Result<(), CoreError>)
        requires
            old(mem)@.wf(),
        ensures
            final(mem)@.wf(),
            carried_out(
                old(self)@.ldh_c_a(old(mem)@),
                old(self)@,
                old(mem)@,
                res,
                final(self)@,
                final(mem)@,
            ),
    {
        let offset: u8 = self.registers.read_8(Reg8::C);
        mem.write_8(0xFF00 + offset as u16, self.registers.read_8(Reg8::A))
    }

    /// LDH A,(C): the accumulator takes the byte at 0xFF00 plus C.
    pub fn ldh_a_c(&mut self, mem: &Memory)
        requires
            mem@.wf(),
        ensures
            final(self)@ == old(self)@.ldh_a_c(mem@),
    {
        let offset: u8 = self.registers.read_8(Reg8::C);
        let value: u8 = mem.read_8(0xFF00 + offset as u16);
        self.registers.write_8(Reg8::A, value);
    }

    /// POP rr: a register pair takes the word at SP, and SP goes up by 2.
    pub fn pop(&mut self, mem: &Memory, register: Reg16)
        requires
            mem@.wf(),
        ensures
            final(self)@ == old(self)@.pop(mem@, register),
    {
        let value: u16 = mem.read_16(self.registers.read_16(Reg16::SP));
        self.registers.write_16(register, value);
        let top: u16 = self.registers.read_16(Reg16::SP);
        self.registers.write_16(Reg16::SP, top.wrapping_add(2));
    }

    /// PUSH rr: SP goes down by 2 and the register pair is written there.
    /// Of AF the low four bits are written as 0.
    pub fn push(&mut self, mem: &mut Memory, register: Reg16) -> (res: Result<(), CoreError>)
        requires
            old(mem)@.wf(),
        ensures
            final(mem)@.wf(),
            carried_out(
                old(self)@.push(old(mem)@, register),
                old(self)@,
                old(mem)@,
                res,
                final(self)@,
                final(mem)@,
            ),
    {
        let mut value: u16 = self.registers.read_16(register);
        if register == Reg16::AF {
            proof {
                lemma_clear_low_nibble(value);
            }
            value = value & 0xFFF0;
        }
        let top: u16 = self.registers.read_16(Reg16::SP).wrapping_sub(2);
        mem.write_16(top, value)?;
        self.registers.write_16(Reg16::SP, top);
        Ok(())
    }

    /// INC r, INC rr: a register goes up by 1 and wraps. No flag changes.
    pub fn inc_r(&mut self, register: Register)
        ensures
            final(self)@ == old(self)@.inc_r(register),
    {
        match register {
            Register::Byte(r) => {
                let value: u8 = self.registers.read_8(r);
                self.registers.write_8(r, value.wrapping_add(1));
            },
            Register::Word(r) => {
                let value: u16 = self.registers.read_16(r);
                self.registers.write_16(r, value.wrapping_add(1));
            },
        }
    }

    /// DEC r, DEC rr: a register goes down by 1 and wraps. No flag changes.
    pub fn dec_r(&mut self, register: Register)
        ensures
            final(self)@ == old(self)@.dec_r(register),
    {
        match register {
            Register::Byte(r) => {
                let value: u8 = self.registers.read_8(r);
                self.registers.write_8(r, value.wrapping_sub(1));
            },
            Register::Word(r) => {
                let value: u16 = self.registers.read_16(r);
                self.registers.write_16(r, value.wrapping_sub(1));
            },
        }
    }

    /// INC (rr): the byte at the address in a pair goes up by 1 and wraps.
    pub fn inc_m(&mut self, mem: &mut Memory, pair: Reg16) -> (res: Result<(), CoreError>)
        requires
            old(mem)@.wf(),
        ensures
            final(mem)@.wf(),
            carried_out(
                old(self)@.inc_m(old(mem)@, pair),
                old(self)@,
                old(mem)@,
                res,
                final(self)@,
                final(mem)@,
            ),
    {
        let address: u16 = self.registers.read_16(pair);
        let value: u8 = mem.read_8(address);
        mem.write_8(address, value.wrapping_add(1))
    }

    /// DEC (rr): the byte at the address in a pair goes down by 1 and wraps.
    pub fn dec_m(&mut self, mem: &mut Memory, pair: Reg16) -> (res: Result<(), CoreError>)
        requires
            old(mem)@.wf(),
        ensures
            final(mem)@.wf(),
            carried_out(
                old(self)@.dec_m(old(mem)@, pair),
                old(self)@,
                old(mem)@,
                res,
                final(self)@,
                final(mem)@,
            ),
    {
        let address: u16 = self.registers.read_16(pair);
        let value: u8 = mem.read_8(address);
        mem.write_8(address, value.wrapping_sub(1))
    }

    fn rotate_a(&mut self, result: AluResult)
        ensures
            final(self)@ == old(self)@.rotate_a(result),
    {
        let flags = Flags { zero: false, ..result.flags };
        self.set_result(AluResult { value: result.value, flags });
    }

    /// RLCA: the accumulator rotates left; bit 7 goes to the carry.
    pub fn rlca(&mut self)
        ensures
            final(self)@ == old(self)@.rlca(),
    {
        let result = alu::rlc(self.registers.read_8(Reg8::A));
        self.rotate_a(result);
    }

    /// RLA: the accumulator rotates left through the carry.
    pub fn rla(&mut self)
        ensures
            final(self)@ == old(self)@.rla(),
    {
        let carry: bool = self.flags().carry;
        let result = alu::rl(self.registers.read_8(Reg8::A), carry);
        self.rotate_a(result);
    }

    /// RRCA: the accumulator rotates right; bit 0 goes to the carry.
    pub fn rrca(&mut self)
        ensures
            final(self)@ == old(self)@.rrca(),
    {
        let result = alu::rrc(self.registers.read_8(Reg8::A));
        self.rotate_a(result);
    }

    /// RRA: the accumulator rotates right through the carry.
    pub fn rra(&mut self)
        ensures
            final(self)@ == old(self)@.rra(),
    {
        let carry: bool = self.flags().carry;
        let result = alu::rr(self.registers.read_8(Reg8::A), carry);
        self.rotate_a(result);
    }

    /// ADD HL,rr: a register pair is added to HL.
    pub fn add_hl(&mut self, register: Reg16)
        ensures
            final(self)@ == old(self)@.add_hl(register),
    {
        let value: u16 = self.registers.read_16(register);
        let hl: u16 = self.registers.read_16(Reg16::HL);
        let result = alu::add16(hl, value, self.flags());
        self.registers.write_16(Reg16::HL, result.value);
        self.set_flags(result.flags);
    }

    /// ADD SP,e: the byte that follows the opcode, taken as a number from 0
    /// to 255, is added to SP, and the zero flag is cleared.
    pub fn add_sp_e(&mut self, mem: &Memory)
        requires
            mem@.wf(),
        ensures
            final(self)@ == old(self)@.add_sp_e(mem@),
    {
        let value: u8 = self.immediate_8(mem);
        let sp: u16 = self.registers.read_16(Reg16::SP);
        let result = alu::add16(sp, value as u16, self.flags());
        self.registers.write_16(Reg16::SP, result.value);
        self.set_flags(Flags { zero: false, ..result.flags });
    }

    /// ADD A,r: a register or the byte at (HL) is added to the accumulator.
    pub fn add_a_r(&mut self, mem: &Memory, operand: Operand8)
        requires
            mem@.wf(),
        ensures
            final(self)@ == old(self)@.add_a_r(mem@, operand),
    {
        let value: u8 = self.register_or_memory(mem, operand);
        let result = alu::add8(self.registers.read_8(Reg8::A), value, false);
        self.set_result(result);
    }

    /// ADD A,n: the byte that follows the opcode is added to the accumulator.
    pub fn add_a_n(&mut self, mem: &Memory)
        requires
            mem@.wf(),
        ensures
            final(self)@ == old(self)@.add_a_n(mem@),
    {
        let value: u8 = self.immediate_8(mem);
        let result = alu::add8(self.registers.read_8(Reg8::A), value, false);
        self.set_result(result);
    }

    /// ADC A,r: as ADD, with the carry flag added too.
    pub fn adc_a_r(&mut self, mem: &Memory, operand: Operand8)
        requires
            mem@.wf(),
        ensures
            final(self)@ == old(self)@.adc_a_r(mem@, operand),
    {
        let value: u8 = self.register_or_memory(mem, operand);
        let carry: bool = self.flags().carry;
        let result = alu::add8(self.registers.read_8(Reg8::A), value, carry);
        self.set_result(result);
    }

    /// ADC A,n: as ADD, with the carry flag added too.
    pub fn adc_a_n(&mut self, mem: &Memory)
        requires
            mem@.wf(),
        ensures
            final(self)@ == old(self)@.adc_a_n(mem@),
    {
        let value: u8 = self.immediate_8(mem);
        let carry: bool = self.flags().carry;
        let result = alu::add8(self.registers.read_8(Reg8::A), value, carry);
        self.set_result(result);
    }

    /// SUB A,r: a register or the byte at (HL) is taken from the accumulator.
    pub fn sub_a_r(&mut self, mem: &Memory, operand: Operand8)
        requires
            mem@.wf(),
        ensures
            final(self)@ == old(self)@.sub_a_r(mem@, operand),
    {
        let value: u8 = self.register_or_memory(mem, operand);
        let result = alu::sub8(self.registers.read_8(Reg8::A), value, false);
        self.set_result(result);
    }

    /// SUB A,n: the byte that follows the opcode is taken from the accumulator.
    pub fn sub_a_n(&mut self, mem: &Memory)
        requires
            mem@.wf(),
        ensures
            final(self)@ == old(self)@.sub_a_n(mem@),
    {
        let value: u8 = self.immediate_8(mem);
        let result = alu::sub8(self.registers.read_8(Reg8::A), value, false);
        self.set_result(result);
    }

    /// SBC A,r: as SUB, with the carry flag taken away too.
    pub fn sbc_a_r(&mut self, mem: &Memory, operand: Operand8)
        requires
            mem@.wf(),
        ensures
            final(self)@ == old(self)@.sbc_a_r(mem@, operand),
    {
        let value: u8 = self.register_or_memory(mem, operand);
        let carry: bool = self.flags().carry;
        let result = alu::sub8(self.registers.read_8(Reg8::A), value, carry);
        self.set_result(result);
    }

    /// SBC A,n: as SUB, with the carry flag taken away too.
    pub fn sbc_a_n(&mut self, mem: &Memory)
        requires
            mem@.wf(),
        ensures
            final(self)@ == old(self)@.sbc_a_n(mem@),
    {
        let value: u8 = self.immediate_8(mem);
        let carry: bool = self.flags().carry;
        let result = alu::sub8(self.registers.read_8(Reg8::A), value, carry);
        self.set_result(result);
    }

    /// DAA: the accumulator is adjusted to packed decimal after an addition
    /// or a subtraction.
    pub fn daa(&mut self)
        ensures
            final(self)@ == old(self)@.daa(),
    {
        let result = alu::decimal_adjust(self.registers.read_8(Reg8::A), self.flags());
        self.set_result(result);
    }

    /// CPL: every bit of the accumulator is inverted. No flag changes.
    pub fn cpl(&mut self)
        ensures
            final(self)@ == old(self)@.cpl(),
    {
        let value: u8 = self.registers.read_8(Reg8::A);
        self.registers.write_8(Reg8::A, !value);
    }

    /// AND A,r.
    pub fn and_a_r(&mut self, mem: &Memory, operand: Operand8)
        requires
            mem@.wf(),
        ensures
            final(self)@ == old(self)@.and_a_r(mem@, operand),
    {
        let value: u8 = self.register_or_memory(mem, operand);
        let result = alu::and8(self.registers.read_8(Reg8::A), value);
        self.set_result(result);
    }

    /// AND A,n.
    pub fn and_a_n(&mut self, mem: &Memory)
        requires
            mem@.wf(),
        ensures
            final(self)@ == old(self)@.and_a_n(mem@),
    {
        let value: u8 = self.immediate_8(mem);
        let result = alu::and8(self.registers.read_8(Reg8::A), value);
        self.set_result(result);
    }

    /// XOR A,r.
    pub fn xor_a_r(&mut self, mem: &Memory, operand: Operand8)
        requires
            mem@.wf(),
        ensures
            final(self)@ == old(self)@.xor_a_r(mem@, operand),
    {
        let value: u8 = self.register_or_memory(mem, operand);
        let result = alu::xor8(self.registers.read_8(Reg8::A), value);
        self.set_result(result);
    }

    /// XOR A,n.
    pub fn xor_a_n(&mut self, mem: &Memory)
        requires
            mem@.wf(),
        ensures
            final(self)@ == old(self)@.xor_a_n(mem@),
    {
        let value: u8 = self.immediate_8(mem);
        let result = alu::xor8(self.registers.read_8(Reg8::A), value);
        self.set_result(result);
    }

    /// OR A,r.
    pub fn or_a_r(&mut self, mem: &Memory, operand: Operand8)
        requires
            mem@.wf(),
        ensures
            final(self)@ == old(self)@.or_a_r(mem@, operand),
    {
        let value: u8 = self.register_or_memory(mem, operand);
        let result = alu::or8(self.registers.read_8(Reg8::A), value);
        self.set_result(result);
    }

    /// OR A,n.
    pub fn or_a_n(&mut self, mem: &Memory)
        requires
            mem@.wf(),
        ensures
            final(self)@ == old(self)@.or_a_n(mem@),
    {
        let value: u8 = self.immediate_8(mem);
        let result = alu::or8(self.registers.read_8(Reg8::A), value);
        self.set_result(result);
    }

    /// CP A,r: the flags of a subtraction; the accumulator stays.
    pub fn cp_a_r(&mut self, mem: &Memory, operand: Operand8)
        requires
            mem@.wf(),
        ensures
            final(self)@ == old(self)@.cp_a_r(mem@, operand),
    {
        let value: u8 = self.register_or_memory(mem, operand);
        let result = alu::sub8(self.registers.read_8(Reg8::A), value, false);
        self.set_flags(result.flags);
    }

    /// CP A,n: the flags of a subtraction; the accumulator stays.
    pub fn cp_a_n(&mut self, mem: &Memory)
        requires
            mem@.wf(),
        ensures
            final(self)@ == old(self)@.cp_a_n(mem@),
    {
        let value: u8 = self.immediate_8(mem);
        let result = alu::sub8(self.registers.read_8(Reg8::A), value, false);
        self.set_flags(result.flags);
    }

    /// NOP: nothing changes.
    pub fn nop(&mut self)
        ensures
            final(self)@ == old(self)@,
    {
    }

    /// STOP: the processor waits until it is resumed.
    pub fn stop(&mut self)
        ensures
            final(self)@ == old(self)@.stop(),
    {
        self.state = RunState::Halted;
    }

    /// HALT: the processor waits until it is resumed.
    pub fn halt(&mut self)
        ensures
            final(self)@ == old(self)@.stop(),
    {
        self.state = RunState::Halted;
    }

    /// Lets a waiting processor run again.
    pub fn resume(&mut self)
        ensures
            final(self)@ == old(self)@.resume(),
    {
        self.state = RunState::Running;
    }

    /// Whether the processor waits to be resumed.
    pub fn is_halted(&self) -> (halted: bool)
        ensures
            halted == (self@.run == RunState::Halted),
    {
        self.state == RunState::Halted
    }

    /// SCF: the carry is set; subtract and half-carry are cleared.
    pub fn scf(&mut self)
        ensures
            final(self)@ == old(self)@.scf(),
    {
        let flags = self.flags();
        self.set_flags(Flags { subtract: false, half_carry: false, carry: true, ..flags });
    }

    /// CCF: the carry is inverted; subtract and half-carry are cleared.
    pub fn ccf(&mut self)
        ensures
            final(self)@ == old(self)@.ccf(),
    {
        let flags = self.flags();
        self.set_flags(Flags { subtract: false, half_carry: false, carry: !flags.carry, ..flags });
    }

    /// DI: interrupts are disabled.
    pub fn di(&mut self)
        ensures
            final(self)@ == old(self)@.di(),
    {
        self.registers.set_ime(0);
    }

    /// EI: interrupts are enabled.
    pub fn ei(&mut self)
        ensures
            final(self)@ == old(self)@.ei(),
    {
        self.registers.set_ime(1);
    }
}

} // verus!
