use vstd::prelude::*;
use crate::cpu::Cpu;
use crate::dispatch::executed;
use crate::error::CoreError;
use crate::memory::Memory;
use crate::model::Machine;
use crate::operand::{Condition, Operand8, Register};
use crate::registers::{Reg16, Reg8};

verus! {

impl Cpu {
    #[verifier::rlimit(60)]
    pub(crate) fn execute_row_0(&mut self, opcode: u8, mem: &mut Memory) -> (res: Result<bool, CoreError>)
        requires
            old(mem)@.wf(),
            0x00 <= opcode <= 0x0F,
        ensures
            final(mem)@.wf(),
            executed(
                (Machine { cpu: old(self)@, mem: old(mem)@ }).execute_low(opcode),
                old(self)@,
                old(mem)@,
                res,
                final(self)@,
                final(mem)@,
            ),
    {
        let a = Operand8::Reg(Reg8::A);
        match opcode {
            0x00 => self.nop(),
            0x01 => self.ld_nn(mem, Reg16::BC),
            0x02 => self.ld_r1_r2(mem, Operand8::Mem(Reg16::BC), a)?,
            0x03 => self.inc_r(Register::Word(Reg16::BC)),
            0x04 => self.inc_r(Register::Byte(Reg8::B)),
            0x05 => self.dec_r(Register::Byte(Reg8::B)),
            0x06 => self.ld_n(mem, Reg8::B),
            0x07 => self.rlca(),
            0x08 => self.ld_nn(mem, Reg16::SP),
            0x09 => self.add_hl(Reg16::BC),
            0x0A => self.ld_r1_r2(mem, a, Operand8::Mem(Reg16::BC))?,
            0x0B => self.dec_r(Register::Word(Reg16::BC)),
            0x0C => self.inc_r(Register::Byte(Reg8::C)),
            0x0D => self.dec_r(Register::Byte(Reg8::C)),
            0x0E => self.ld_n(mem, Reg8::C),
            _ => self.rrca(),
        }
        Ok(false)
    }

    #[verifier::rlimit(60)]
    pub(crate) fn execute_row_1(&mut self, opcode: u8, mem: &mut Memory) -> (res: Result<bool, CoreError>)
        requires
            old(mem)@.wf(),
            0x10 <= opcode <= 0x1F,
        ensures
            final(mem)@.wf(),
            executed(
                (Machine { cpu: old(self)@, mem: old(mem)@ }).execute_low(opcode),
                old(self)@,
                old(mem)@,
                res,
                final(self)@,
                final(mem)@,
            ),
    {
        let a = Operand8::Reg(Reg8::A);
        match opcode {
            0x10 => self.stop(),
            0x11 => self.ld_nn(mem, Reg16::DE),
            0x12 => self.ld_r1_r2(mem, Operand8::Mem(Reg16::DE), a)?,
            0x13 => self.inc_r(Register::Word(Reg16::DE)),
            0x14 => self.inc_r(Register::Byte(Reg8::D)),
            0x15 => self.dec_r(Register::Byte(Reg8::D)),
            0x16 => self.ld_n(mem, Reg8::D),
            0x17 => self.rla(),
            0x18 => {
                self.jr_e(mem);
                return Ok(true);
            },
            0x19 => self.add_hl(Reg16::DE),
            0x1A => self.ld_r1_r2(mem, a, Operand8::Mem(Reg16::DE))?,
            0x1B => self.dec_r(Register::Word(Reg16::DE)),
            0x1C => self.inc_r(Register::Byte(Reg8::E)),
            0x1D => self.dec_r(Register::Byte(Reg8::E)),
            0x1E => self.ld_n(mem, Reg8::E),
            _ => self.rra(),
        }
        Ok(false)
    }

    #[verifier::rlimit(60)]
    pub(crate) fn execute_row_2(&mut self, opcode: u8, mem: &mut Memory) -> (res: Result<bool, CoreError>)
        requires
            old(mem)@.wf(),
            0x20 <= opcode <= 0x2F,
        ensures
            final(mem)@.wf(),
            executed(
                (Machine { cpu: old(self)@, mem: old(mem)@ }).execute_low(opcode),
                old(self)@,
                old(mem)@,
                res,
                final(self)@,
                final(mem)@,
            ),
    {
        let a = Operand8::Reg(Reg8::A);
        match opcode {
            0x20 => return Ok(self.jr_f_e(mem, Condition::NotZero)),
            0x21 => self.ld_nn(mem, Reg16::HL),
            0x22 => {
                self.ld_r1_r2(mem, Operand8::Mem(Reg16::HL), a)?;
                self.inc_r(Register::Word(Reg16::HL));
            },
            0x23 => self.inc_r(Register::Word(Reg16::HL)),
            0x24 => self.inc_r(Register::Byte(Reg8::H)),
            0x25 => self.dec_r(Register::Byte(Reg8::H)),
            0x26 => self.ld_n(mem, Reg8::H),
            0x27 => self.daa(),
            0x28 => return Ok(self.jr_f_e(mem, Condition::Zero)),
            0x29 => self.add_hl(Reg16::HL),
            0x2A => {
                self.ld_r1_r2(mem, a, Operand8::Mem(Reg16::HL))?;
                self.inc_r(Register::Word(Reg16::HL));
            },
            0x2B => self.dec_r(Register::Word(Reg16::HL)),
            0x2C => self.inc_r(Register::Byte(Reg8::L)),
            0x2D => self.dec_r(Register::Byte(Reg8::L)),
            0x2E => self.ld_n(mem, Reg8::L),
            _ => self.cpl(),
        }
        Ok(false)
    }

    #[verifier::rlimit(60)]
    pub(crate) fn execute_row_3(&mut self, opcode: u8, mem: &mut Memory) -> (res: Result<bool, CoreError>)
        requires
            old(mem)@.wf(),
            0x30 <= opcode <= 0x3F,
        ensures
            final(mem)@.wf(),
            executed(
                (Machine { cpu: old(self)@, mem: old(mem)@ }).execute_low(opcode),
                old(self)@,
                old(mem)@,
                res,
                final(self)@,
                final(mem)@,
            ),
    {
        let a = Operand8::Reg(Reg8::A);
        match opcode {
            0x30 => return Ok(self.jr_f_e(mem, Condition::NotCarry)),
            0x31 => self.ld_nn(mem, Reg16::SP),
            0x32 => {
                self.ld_r1_r2(mem, Operand8::Mem(Reg16::HL), a)?;
                self.dec_r(Register::Word(Reg16::HL));
            },
            0x33 => self.inc_r(Register::Word(Reg16::SP)),
            0x34 => self.inc_m(mem, Reg16::HL)?,
            0x35 => self.dec_m(mem, Reg16::HL)?,
            0x36 => self.ld_m_n(mem)?,
            0x37 => self.scf(),
            0x38 => return Ok(self.jr_f_e(mem, Condition::Carry)),
            0x39 => self.add_hl(Reg16::SP),
            0x3A => {
                self.ld_r1_r2(mem, a, Operand8::Mem(Reg16::HL))?;
                self.dec_r(Register::Word(Reg16::HL));
            },
            0x3B => self.dec_r(Register::Word(Reg16::SP)),
            0x3C => self.inc_r(Register::Byte(Reg8::A)),
            0x3D => self.dec_r(Register::Byte(Reg8::A)),
            0x3E => self.ld_n(mem, Reg8::A),
            _ => self.ccf(),
        }
        Ok(false)
    }

    pub(crate) fn execute_low(&mut self, opcode: u8, mem: &mut Memory) -> (res: Result<bool, CoreError>)
        requires
            old(mem)@.wf(),
            opcode < 0x40,
        ensures
            final(mem)@.wf(),
            executed(
                (Machine { cpu: old(self)@, mem: old(mem)@ }).execute_low(opcode),
                old(self)@,
                old(mem)@,
                res,
                final(self)@,
                final(mem)@,
            ),
    {
        if opcode < 0x10 {
            self.execute_row_0(opcode, mem)
        } else if opcode < 0x20 {
            self.execute_row_1(opcode, mem)
        } else if opcode < 0x30 {
            self.execute_row_2(opcode, mem)
        } else {
            self.execute_row_3(opcode, mem)
        }
    }
}

} // verus!
