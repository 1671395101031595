use vstd::prelude::*;
use crate::cpu::Cpu;
use crate::error::CoreError;
use crate::memory::Memory;
use crate::model::carried_out;
use crate::operand::Condition;
use crate::registers::Reg16;

verus! {

impl Cpu {
    /// JR e: jumps by the signed byte that follows the opcode, counted from
    /// the end of the instruction.
    pub fn jr_e(&mut self, mem: &Memory)
        requires
            mem@.wf(),
        ensures
            final(self)@ == old(self)@.jr_e(mem@),
    {
        let displacement: u8 = self.immediate_8(mem);
        let next: u16 = self.registers.read_16(Reg16::PC).wrapping_add(2);
        let target: u16 = if displacement < 128 {
            next.wrapping_add(displacement as u16)
        } else {
            next.wrapping_sub(256 - displacement as u16)
        };
        self.registers.write_16(Reg16::PC, target);
    }

    /// JR cc,e: as JR, if the condition holds. Tells whether it jumped.
    pub fn jr_f_e(&mut self, mem: &Memory, condition: Condition) -> (taken: bool)
        requires
            mem@.wf(),
        ensures
            taken == condition.holds(old(self)@.flags()),
            final(self)@ == old(self)@.jr_f_e(mem@, condition),
    {
        if condition.test(self.flags()) {
            self.jr_e(mem);
            true
        } else {
            false
        }
    }

    /// JP nn: jumps to the address that follows the opcode.
    pub fn jp_nn(&mut self, mem: &Memory)
        requires
            mem@.wf(),
        ensures
            final(self)@ == old(self)@.jp_nn(mem@),
    {
        let target: u16 = self.immediate_16(mem);
        self.registers.write_16(Reg16::PC, target);
    }

    /// JP cc,nn: as JP, if the condition holds. Tells whether it jumped.
    pub fn jp_f_nn(&mut self, mem: &Memory, condition: Condition) -> (taken: bool)
        requires
            mem@.wf(),
        ensures
            taken == condition.holds(old(self)@.flags()),
            final(self)@ == old(self)@.jp_f_nn(mem@, condition),
    {
        if condition.test(self.flags()) {
            self.jp_nn(mem);
            true
        } else {
            false
        }
    }

    /// JP HL: jumps to the address in HL.
    pub fn jp_hl(&mut self)
        ensures
            final(self)@ == old(self)@.jp_hl(),
    {
        let target: u16 = self.registers.read_16(Reg16::HL);
        self.registers.write_16(Reg16::PC, target);
    }

    fn call_to(&mut self, mem: &mut Memory, return_address: u16, target: u16) -> (res: Result<
        (),
        CoreError,
    >)
        requires
            old(mem)@.wf(),
        ensures
            final(mem)@.wf(),
            carried_out(
                old(self)@.call_to(old(mem)@, return_address, target),
                old(self)@,
                old(mem)@,
                res,
                final(self)@,
                final(mem)@,
            ),
    {
        let top: u16 = self.registers.read_16(Reg16::SP).wrapping_sub(2);
        mem.write_16(top, return_address)?;
        self.registers.write_16(Reg16::SP, top);
        self.registers.write_16(Reg16::PC, target);
        Ok(())
    }

    /// CALL nn: pushes the address of the next instruction and jumps to the
    /// address that follows the opcode.
    pub fn call_nn(&mut self, mem: &mut Memory) -> (res: Result<(), CoreError>)
        requires
            old(mem)@.wf(),
        ensures
            final(mem)@.wf(),
            carried_out(
                old(self)@.call_nn(old(mem)@),
                old(self)@,
                old(mem)@,
                res,
                final(self)@,
                final(mem)@,
            ),
    {
        let target: u16 = self.immediate_16(mem);
        let return_address: u16 = self.registers.read_16(Reg16::PC).wrapping_add(3);
        self.call_to(mem, return_address, target)
    }

    /// CALL cc,nn: as CALL, if the condition holds. Tells whether it jumped.
    pub fn call_f_nn(&mut self, mem: &mut Memory, condition: Condition) -> (res: Result<
        bool,
        CoreError,
    >)
        requires
            old(mem)@.wf(),
        ensures
            final(mem)@.wf(),
            res matches Ok(taken) ==> taken == condition.holds(old(self)@.flags()),
            carried_out(
                old(self)@.call_f_nn(old(mem)@, condition),
                old(self)@,
                old(mem)@,
                match res {
                    Ok(_) => Ok(()),
                    Err(e) => Err(e),
                },
                final(self)@,
                final(mem)@,
            ),
    {
        if condition.test(self.flags()) {
            self.call_nn(mem)?;
            Ok(true)
        } else {
            Ok(false)
        }
    }

    /// RST v: pushes the address of the next instruction and jumps to `vector`.
    pub fn rst(&mut self, mem: &mut Memory, vector: u16) -> (res: Result<(), CoreError>)
        requires
            old(mem)@.wf(),
        ensures
            final(mem)@.wf(),
            carried_out(
                old(self)@.rst(old(mem)@, vector),
                old(self)@,
                old(mem)@,
                res,
                final(self)@,
                final(mem)@,
            ),
    {
        let return_address: u16 = self.registers.read_16(Reg16::PC).wrapping_add(1);
        self.call_to(mem, return_address, vector)
    }

    /// RET: pops an address and jumps to it.
    pub fn ret(&mut self, mem: &Memory)
        requires
            mem@.wf(),
        ensures
            final(self)@ == old(self)@.ret(mem@),
    {
        let top: u16 = self.registers.read_16(Reg16::SP);
        let target: u16 = mem.read_16(top);
        self.registers.write_16(Reg16::SP, top.wrapping_add(2));
        self.registers.write_16(Reg16::PC, target);
    }

    /// RET cc: as RET, if the condition holds. Tells whether it jumped.
    pub fn ret_f(&mut self, mem: &Memory, condition: Condition) -> (taken: bool)
        requires
            mem@.wf(),
        ensures
            taken == condition.holds(old(self)@.flags()),
            final(self)@ == old(self)@.ret_f(mem@, condition),
    {
        if condition.test(self.flags()) {
            self.ret(mem);
            true
        } else {
            false
        }
    }

    /// RETI: as RET, and interrupts are enabled.
    pub fn reti(&mut self, mem: &Memory)
        requires
            mem@.wf(),
        ensures
            final(self)@ == old(self)@.reti(mem@),
    {
        self.ret(mem);
        self.registers.set_ime(1);
    }
}

} // verus!
