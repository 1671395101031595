use vstd::prelude::*;
use crate::alu;
use crate::alu::AluResult;
use crate::cpu::Cpu;
use crate::error::CoreError;
use crate::memory::Memory;
use crate::model::carried_out;
use crate::operand::{lemma_opcode_fields, Operand8};

verus! {

impl Cpu {
    fn shift_operand(&mut self, mem: &mut Memory, operand: Operand8, result: AluResult) -> (res:
        Result<(), CoreError>)
        requires
            old(mem)@.wf(),
        ensures
            final(mem)@.wf(),
            carried_out(
                old(self)@.shift_operand(old(mem)@, operand, result),
                old(self)@,
                old(mem)@,
                res,
                final(self)@,
                final(mem)@,
            ),
    {
        match operand {
            Operand8::Reg(register) => {
                self.set_flags(result.flags);
                self.registers.write_8(register, result.value);
                Ok(())
            },
            Operand8::Mem(pair) => {
                mem.write_8(self.registers.read_16(pair), result.value)?;
                self.set_flags(result.flags);
                Ok(())
            },
        }
    }

    /// RLC r: the operand rotates left; bit 7 goes to the carry.
    pub fn rlc_r(&mut self, mem: &mut Memory, operand: Operand8) -> (res: Result<(), CoreError>)
        requires
            old(mem)@.wf(),
        ensures
            final(mem)@.wf(),
            carried_out(
                old(self)@.rlc_r(old(mem)@, operand),
                old(self)@,
                old(mem)@,
                res,
                final(self)@,
                final(mem)@,
            ),
    {
        let result = alu::rlc(self.register_or_memory(mem, operand));
        self.shift_operand(mem, operand, result)
    }

    /// RRC r: the operand rotates right; bit 0 goes to the carry.
    pub fn rrc_r(&mut self, mem: &mut Memory, operand: Operand8) -> (res: Result<(), CoreError>)
        requires
            old(mem)@.wf(),
        ensures
            final(mem)@.wf(),
            carried_out(
                old(self)@.rrc_r(old(mem)@, operand),
                old(self)@,
                old(mem)@,
                res,
                final(self)@,
                final(mem)@,
            ),
    {
        let result = alu::rrc(self.register_or_memory(mem, operand));
        self.shift_operand(mem, operand, result)
    }

    /// RL r: the operand rotates left through the carry.
    pub fn rl_r(&mut self, mem: &mut Memory, operand: Operand8) -> (res: Result<(), CoreError>)
        requires
            old(mem)@.wf(),
        ensures
            final(mem)@.wf(),
            carried_out(
                old(self)@.rl_r(old(mem)@, operand),
                old(self)@,
                old(mem)@,
                res,
                final(self)@,
                final(mem)@,
            ),
    {
        let carry: bool = self.flags().carry;
        let result = alu::rl(self.register_or_memory(mem, operand), carry);
        self.shift_operand(mem, operand, result)
    }

    /// RR r: the operand rotates right through the carry.
    pub fn rr_r(&mut self, mem: &mut Memory, operand: Operand8) -> (res: Result<(), CoreError>)
        requires
            old(mem)@.wf(),
        ensures
            final(mem)@.wf(),
            carried_out(
                old(self)@.rr_r(old(mem)@, operand),
                old(self)@,
                old(mem)@,
                res,
                final(self)@,
                final(mem)@,
            ),
    {
        let carry: bool = self.flags().carry;
        let result = alu::rr(self.register_or_memory(mem, operand), carry);
        self.shift_operand(mem, operand, result)
    }

    /// SLA r: the operand shifts left; bit 7 goes to the carry.
    pub fn sla_r(&mut self, mem: &mut Memory, operand: Operand8) -> (res: Result<(), CoreError>)
        requires
            old(mem)@.wf(),
        ensures
            final(mem)@.wf(),
            carried_out(
                old(self)@.sla_r(old(mem)@, operand),
                old(self)@,
                old(mem)@,
                res,
                final(self)@,
                final(mem)@,
            ),
    {
        let result = alu::sla(self.register_or_memory(mem, operand));
        self.shift_operand(mem, operand, result)
    }

    /// SRA r: the operand shifts right and keeps bit 7; bit 0 goes to the carry.
    pub fn sra_r(&mut self, mem: &mut Memory, operand: Operand8) -> (res: Result<(), CoreError>)
        requires
            old(mem)@.wf(),
        ensures
            final(mem)@.wf(),
            carried_out(
                old(self)@.sra_r(old(mem)@, operand),
                old(self)@,
                old(mem)@,
                res,
                final(self)@,
                final(mem)@,
            ),
    {
        let result = alu::sra(self.register_or_memory(mem, operand));
        self.shift_operand(mem, operand, result)
    }

    /// SWAP r: the two nibbles of the operand change places.
    pub fn swap_r(&mut self, mem: &mut Memory, operand: Operand8) -> (res: Result<(), CoreError>)
        requires
            old(mem)@.wf(),
        ensures
            final(mem)@.wf(),
            carried_out(
                old(self)@.swap_r(old(mem)@, operand),
                old(self)@,
                old(mem)@,
                res,
                final(self)@,
                final(mem)@,
            ),
    {
        let flags = self.flags();
        let result = alu::swap(self.register_or_memory(mem, operand), flags);
        self.shift_operand(mem, operand, result)
    }

    /// SRL r: the operand shifts right; bit 0 goes to the carry.
    pub fn srl_r(&mut self, mem: &mut Memory, operand: Operand8) -> (res: Result<(), CoreError>)
        requires
            old(mem)@.wf(),
        ensures
            final(mem)@.wf(),
            carried_out(
                old(self)@.srl_r(old(mem)@, operand),
                old(self)@,
                old(mem)@,
                res,
                final(self)@,
                final(mem)@,
            ),
    {
        let result = alu::srl(self.register_or_memory(mem, operand));
        self.shift_operand(mem, operand, result)
    }

    /// BIT n,r: the zero flag tells whether bit `n` of the operand is 0.
    pub fn bit_n_r(&mut self, mem: &Memory, operand: Operand8, n: u8)
        requires
            mem@.wf(),
            n < 8,
        ensures
            final(self)@ == old(self)@.bit_n_r(mem@, operand, n),
    {
        let value: u8 = self.register_or_memory(mem, operand);
        let flags = alu::test_bit(value, n, self.flags());
        self.set_flags(flags);
    }

    /// RES n,r: bit `n` of the operand becomes 0. No flag changes.
    pub fn res_n_r(&mut self, mem: &mut Memory, operand: Operand8, n: u8) -> (res: Result<
        (),
        CoreError,
    >)
        requires
            old(mem)@.wf(),
            n < 8,
        ensures
            final(mem)@.wf(),
            carried_out(
                old(self)@.res_n_r(old(mem)@, operand, n),
                old(self)@,
                old(mem)@,
                res,
                final(self)@,
                final(mem)@,
            ),
    {
        let value: u8 = self.register_or_memory(mem, operand);
        self.write_mem_or_regs(mem, operand, alu::reset_bit(value, n))
    }

    /// SET n,r: bit `n` of the operand becomes 1. No flag changes.
    pub fn set_n_r(&mut self, mem: &mut Memory, operand: Operand8, n: u8) -> (res: Result<
        (),
        CoreError,
    >)
        requires
            old(mem)@.wf(),
            n < 8,
        ensures
            final(mem)@.wf(),
            carried_out(
                old(self)@.set_n_r(old(mem)@, operand, n),
                old(self)@,
                old(mem)@,
                res,
                final(self)@,
                final(mem)@,
            ),
    {
        let value: u8 = self.register_or_memory(mem, operand);
        self.write_mem_or_regs(mem, operand, alu::set_bit(value, n))
    }

    /// Executes the instruction that the byte after the `0xCB` prefix encodes.
    #[allow(non_snake_case)]
    pub fn call_CB(&mut self, mem: &mut Memory) -> (res: Result<(), CoreError>)
        requires
            old(mem)@.wf(),
        ensures
            final(mem)@.wf(),
            carried_out(
                old(self)@.call_cb(old(mem)@),
                old(self)@,
                old(mem)@,
                res,
                final(self)@,
                final(mem)@,
            ),
    {
        let code: u8 = self.immediate_8(mem);
        proof {
            lemma_opcode_fields(code);
        }
        let operand = Operand8::from_index(code);
        let n: u8 = (code >> 3) & 0x07;
        match code >> 6 {
            0 => match n {
                0 => self.rlc_r(mem, operand),
                1 => self.rrc_r(mem, operand),
                2 => self.rl_r(mem, operand),
                3 => self.rr_r(mem, operand),
                4 => self.sla_r(mem, operand),
                5 => self.sra_r(mem, operand),
                6 => self.swap_r(mem, operand),
                _ => self.srl_r(mem, operand),
            },
            1 => {
                self.bit_n_r(mem, operand, n);
                Ok(())
            },
            2 => self.res_n_r(mem, operand, n),
            _ => self.set_n_r(mem, operand, n),
        }
    }
}

} // verus!
