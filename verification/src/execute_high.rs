use vstd::prelude::*;
use crate::cpu::Cpu;
use crate::dispatch::executed;
use crate::error::CoreError;
use crate::memory::Memory;
use crate::model::Machine;
use crate::operand::Condition;
use crate::registers::Reg16;

verus! {

impl Cpu {
    #[verifier::rlimit(60)]
    pub(crate) fn execute_row_c(&mut self, opcode: u8, mem: &mut Memory) -> (res: Result<bool, CoreError>)
        requires
            old(mem)@.wf(),
            0xC0 <= opcode <= 0xCF,
        ensures
            final(mem)@.wf(),
            executed(
                (Machine { cpu: old(self)@, mem: old(mem)@ }).execute_high(opcode),
                old(self)@,
                old(mem)@,
                res,
                final(self)@,
                final(mem)@,
            ),
    {
        match opcode {
            0xC0 => return Ok(self.ret_f(mem, Condition::NotZero)),
            0xC1 => self.pop(mem, Reg16::BC),
            0xC2 => return Ok(self.jp_f_nn(mem, Condition::NotZero)),
            0xC3 => {
                self.jp_nn(mem);
                return Ok(true);
            },
            0xC4 => return self.call_f_nn(mem, Condition::NotZero),
            0xC5 => self.push(mem, Reg16::BC)?,
            0xC6 => self.add_a_n(mem),
            0xC7 => {
                self.rst(mem, 0x00)?;
                return Ok(true);
            },
            0xC8 => return Ok(self.ret_f(mem, Condition::Zero)),
            0xC9 => {
                self.ret(mem);
                return Ok(true);
            },
            0xCA => return Ok(self.jp_f_nn(mem, Condition::Zero)),
            0xCB => self.call_CB(mem)?,
            0xCC => return self.call_f_nn(mem, Condition::Zero),
            0xCD => {
                self.call_nn(mem)?;
                return Ok(true);
            },
            0xCE => self.adc_a_n(mem),
            0xCF => {
                self.rst(mem, 0x08)?;
                return Ok(true);
            },
            _ => return Err(CoreError::IllegalOpcode(opcode)),
        }
        Ok(false)
    }

    #[verifier::rlimit(60)]
    pub(crate) fn execute_row_d(&mut self, opcode: u8, mem: &mut Memory) -> (res: Result<bool, CoreError>)
        requires
            old(mem)@.wf(),
            0xD0 <= opcode <= 0xDF,
        ensures
            final(mem)@.wf(),
            executed(
                (Machine { cpu: old(self)@, mem: old(mem)@ }).execute_high(opcode),
                old(self)@,
                old(mem)@,
                res,
                final(self)@,
                final(mem)@,
            ),
    {
        match opcode {
            0xD0 => return Ok(self.ret_f(mem, Condition::NotCarry)),
            0xD1 => self.pop(mem, Reg16::DE),
            0xD2 => return Ok(self.jp_f_nn(mem, Condition::NotCarry)),
            0xD4 => return self.call_f_nn(mem, Condition::NotCarry),
            0xD5 => self.push(mem, Reg16::DE)?,
            0xD6 => self.sub_a_n(mem),
            0xD7 => {
                self.rst(mem, 0x10)?;
                return Ok(true);
            },
            0xD8 => return Ok(self.ret_f(mem, Condition::Carry)),
            0xD9 => {
                self.reti(mem);
                return Ok(true);
            },
            0xDA => return Ok(self.jp_f_nn(mem, Condition::Carry)),
            0xDC => return self.call_f_nn(mem, Condition::Carry),
            0xDE => self.sbc_a_n(mem),
            0xDF => {
                self.rst(mem, 0x18)?;
                return Ok(true);
            },
            _ => return Err(CoreError::IllegalOpcode(opcode)),
        }
        Ok(false)
    }

    #[verifier::rlimit(60)]
    pub(crate) fn execute_row_e(&mut self, opcode: u8, mem: &mut Memory) -> (res: Result<bool, CoreError>)
        requires
            old(mem)@.wf(),
            0xE0 <= opcode <= 0xEF,
        ensures
            final(mem)@.wf(),
            executed(
                (Machine { cpu: old(self)@, mem: old(mem)@ }).execute_high(opcode),
                old(self)@,
                old(mem)@,
                res,
                final(self)@,
                final(mem)@,
            ),
    {
        match opcode {
            0xE0 => self.ldh_n_a(mem)?,
            0xE1 => self.pop(mem, Reg16::HL),
            0xE2 => self.ldh_c_a(mem)?,
            0xE5 => self.push(mem, Reg16::HL)?,
            0xE6 => self.and_a_n(mem),
            0xE7 => {
                self.rst(mem, 0x20)?;
                return Ok(true);
            },
            0xE8 => self.add_sp_e(mem),
            0xE9 => {
                self.jp_hl();
                return Ok(true);
            },
            0xEA => self.ld_nn_a(mem)?,
            0xEE => self.xor_a_n(mem),
            0xEF => {
                self.rst(mem, 0x28)?;
                return Ok(true);
            },
            _ => return Err(CoreError::IllegalOpcode(opcode)),
        }
        Ok(false)
    }

    #[verifier::rlimit(60)]
    pub(crate) fn execute_row_f(&mut self, opcode: u8, mem: &mut Memory) -> (res: Result<bool, CoreError>)
        requires
            old(mem)@.wf(),
            0xF0 <= opcode <= 0xFF,
        ensures
            final(mem)@.wf(),
            executed(
                (Machine { cpu: old(self)@, mem: old(mem)@ }).execute_high(opcode),
                old(self)@,
                old(mem)@,
                res,
                final(self)@,
                final(mem)@,
            ),
    {
        match opcode {
            0xF0 => self.ldh_a_n(mem),
            0xF1 => self.pop(mem, Reg16::AF),
            0xF2 => self.ldh_a_c(mem),
            0xF3 => self.di(),
            0xF5 => self.push(mem, Reg16::AF)?,
            0xF6 => self.or_a_n(mem),
            0xF7 => {
                self.rst(mem, 0x30)?;
                return Ok(true);
            },
            0xF8 => self.ld_sp_e(mem),
            0xF9 => self.ld_sp_hl(mem)?,
            0xFA => self.ld_a_nn(mem),
            0xFB => self.ei(),
            0xFE => self.cp_a_n(mem),
            0xFF => {
                self.rst(mem, 0x38)?;
                return Ok(true);
            },
            _ => return Err(CoreError::IllegalOpcode(opcode)),
        }
        Ok(false)
    }

    pub(crate) fn execute_high(&mut self, opcode: u8, mem: &mut Memory) -> (res: Result<bool, CoreError>)
        requires
            old(mem)@.wf(),
            opcode >= 0xC0,
        ensures
            final(mem)@.wf(),
            executed(
                (Machine { cpu: old(self)@, mem: old(mem)@ }).execute_high(opcode),
                old(self)@,
                old(mem)@,
                res,
                final(self)@,
                final(mem)@,
            ),
    {
        if opcode < 0xD0 {
            self.execute_row_c(opcode, mem)
        } else if opcode < 0xE0 {
            self.execute_row_d(opcode, mem)
        } else if opcode < 0xF0 {
            self.execute_row_e(opcode, mem)
        } else {
            self.execute_row_f(opcode, mem)
        }
    }
}

} // verus!
