use vstd::prelude::*;
use crate::alu::{
    spec_add16, spec_add8, spec_and8, spec_daa, spec_or8, spec_reset_bit, spec_rl, spec_rlc,
    spec_rr, spec_rrc, spec_set_bit, spec_sla, spec_sra, spec_srl, spec_sub8, spec_swap,
    spec_test_bit, spec_xor8, AluResult,
};
use crate::error::CoreError;
use crate::flags::Flags;
use crate::memory::MemoryMap;
use crate::operand::{Condition, Operand8, Register};
use crate::registers::{Reg16, Reg8, RegisterFile};

verus! {

/// Whether the processor is executing instructions or waiting to be resumed.
#[derive(Clone, Copy, Debug, PartialEq, Eq, Structural)]
pub enum RunState {
    Running,
    Halted,
}

/// The processor as a value: its registers, whether it runs, and the clock
/// cycles it has spent.
pub struct CpuState {
    pub regs: RegisterFile,
    pub run: RunState,
    pub cycles: u64,
}

/// The whole machine as a value: the processor and the address space.
pub struct Machine {
    pub cpu: CpuState,
    pub mem: MemoryMap,
}

/// The number that a byte stands for as a signed displacement.
pub open spec fn signed(byte: u8) -> int {
    if byte < 128 {
        byte as int
    } else {
        byte - 256
    }
}

/// The address `distance` away from `base`, in an address space that wraps.
pub open spec fn address_at(base: u16, distance: int) -> u16 {
    ((base + distance) % 65536) as u16
}

/// The machine in which the processor has gone on to `cpu`, if the write
/// that the instruction makes was carried out; its error otherwise.
pub open spec fn after_write(written: Result<MemoryMap, CoreError>, cpu: CpuState) -> Result<
    Machine,
    CoreError,
> {
    match written {
        Ok(mem) => Ok(Machine { cpu, mem }),
        Err(e) => Err(e),
    }
}

/// What an instruction that may be refused leaves behind: when the model
/// gives a machine, success and that machine; when it gives an error, that
/// error, with the processor and the address space as they were.
pub open spec fn carried_out(
    expected: Result<Machine, CoreError>,
    cpu_before: CpuState,
    mem_before: MemoryMap,
    res: Result<(), CoreError>,
    cpu_after: CpuState,
    mem_after: MemoryMap,
) -> bool {
    match expected {
        Ok(machine) => res is Ok && cpu_after == machine.cpu && mem_after == machine.mem,
        Err(e) => res == Err::<(), CoreError>(e) && cpu_after == cpu_before && mem_after
            == mem_before,
    }
}

impl CpuState {
    /// Every register zero, interrupts disabled, running, no cycle spent.
    pub open spec fn initial() -> CpuState {
        CpuState { regs: RegisterFile::zero(), run: RunState::Running, cycles: 0 }
    }

    /// The byte in a register.
    pub open spec fn get_8(self, register: Reg8) -> u8 {
        self.regs.read_8(register)
    }

    /// The word in a register pair.
    pub open spec fn get_16(self, register: Reg16) -> u16 {
        self.regs.read_16(register)
    }

    /// The processor with `value` in a byte register.
    pub open spec fn set_8(self, register: Reg8, value: u8) -> CpuState {
        CpuState { regs: self.regs.write_8(register, value), ..self }
    }

    /// The processor with `value` in a register pair.
    pub open spec fn set_16(self, register: Reg16, value: u16) -> CpuState {
        CpuState { regs: self.regs.write_16(register, value), ..self }
    }

    /// The processor with `value` as the interrupt master enable.
    pub open spec fn set_ime(self, value: u8) -> CpuState {
        CpuState { regs: self.regs.with_ime(value), ..self }
    }

    /// The accumulator.
    pub open spec fn a(self) -> u8 {
        self.get_8(Reg8::A)
    }

    /// The program counter.
    pub open spec fn pc(self) -> u16 {
        self.regs.pc
    }

    /// The stack pointer.
    pub open spec fn sp(self) -> u16 {
        self.regs.sp
    }

    /// The four flags that the flags register holds.
    pub open spec fn flags(self) -> Flags {
        Flags::of_byte(self.get_8(Reg8::F))
    }

    /// The flags register holds `flags`; its low four bits stay as they were.
    pub open spec fn set_flags(self, flags: Flags) -> CpuState {
        self.set_8(Reg8::F, flags.into_byte(self.get_8(Reg8::F)))
    }

    /// The accumulator and the flags take the result of an operation.
    pub open spec fn set_result(self, result: AluResult) -> CpuState {
        self.set_8(Reg8::A, result.value).set_flags(result.flags)
    }

    /// The byte that follows the opcode.
    pub open spec fn immediate_8(self, mem: MemoryMap) -> u8 {
        mem.read_8(self.pc().wrapping_add(1))
    }

    /// The word that follows the opcode, low byte first.
    pub open spec fn immediate_16(self, mem: MemoryMap) -> u16 {
        mem.read_16(self.pc().wrapping_add(1))
    }

    /// The byte that an operand stands for.
    pub open spec fn register_or_memory(self, mem: MemoryMap, operand: Operand8) -> u8 {
        match operand {
            Operand8::Reg(register) => self.get_8(register),
            Operand8::Mem(pair) => mem.read_8(self.get_16(pair)),
        }
    }

    /// The machine after `value` went where the operand says.
    pub open spec fn write_mem_or_regs(self, mem: MemoryMap, operand: Operand8, value: u8) -> Result<
        Machine,
        CoreError,
    > {
        match operand {
            Operand8::Reg(register) => Ok(Machine { cpu: self.set_8(register, value), mem }),
            Operand8::Mem(pair) => after_write(mem.write_8(self.get_16(pair), value), self),
        }
    }

    // Loads

    /// A register pair takes the word that follows the opcode.
    pub open spec fn ld_nn(self, mem: MemoryMap, register: Reg16) -> CpuState {
        self.set_16(register, self.immediate_16(mem))
    }

    /// The accumulator takes the byte that follows the opcode.
    pub open spec fn ld_a_nn(self, mem: MemoryMap) -> CpuState {
        self.set_8(Reg8::A, self.immediate_8(mem))
    }

    /// A register takes the byte that follows the opcode.
    pub open spec fn ld_n(self, mem: MemoryMap, register: Reg8) -> CpuState {
        self.set_8(register, self.immediate_8(mem))
    }

    /// The byte that `source` stands for goes where `dest` says.
    pub open spec fn ld_r1_r2(self, mem: MemoryMap, dest: Operand8, source: Operand8) -> Result<
        Machine,
        CoreError,
    > {
        self.write_mem_or_regs(mem, dest, self.register_or_memory(mem, source))
    }

    /// The accumulator is written at the address that follows the opcode.
    pub open spec fn ld_nn_a(self, mem: MemoryMap) -> Result<Machine, CoreError> {
        after_write(mem.write_8(self.immediate_16(mem), self.a()), self)
    }

    /// The byte that follows the opcode is written at the address in HL.
    pub open spec fn ld_m_n(self, mem: MemoryMap) -> Result<Machine, CoreError> {
        after_write(mem.write_8(self.get_16(Reg16::HL), self.immediate_8(mem)), self)
    }

    /// HL takes the stack pointer plus the byte that follows the opcode, taken
    /// as a number from 0 to 255; the sum wraps.
    pub open spec fn ld_sp_e(self, mem: MemoryMap) -> CpuState {
        self.set_16(Reg16::HL, self.sp().wrapping_add(self.immediate_8(mem) as u16))
    }

    /// The word in HL is written at the address in the stack pointer.
    pub open spec fn ld_sp_hl(self, mem: MemoryMap) -> Result<Machine, CoreError> {
        after_write(mem.write_16(self.sp(), self.get_16(Reg16::HL)), self)
    }

    /// The address in the last page of memory that a byte names.
    pub open spec fn high_page(offset: u8) -> u16 {
        (0xFF00 + offset) as u16
    }

    /// The accumulator is written in the last page, at the byte that follows
    /// the opcode.
    pub open spec fn ldh_n_a(self, mem: MemoryMap) -> Result<Machine, CoreError> {
        after_write(mem.write_8(CpuState::high_page(self.immediate_8(mem)), self.a()), self)
    }

    /// The accumulator takes the byte in the last page at the byte that follows
    /// the opcode.
    pub open spec fn ldh_a_n(self, mem: MemoryMap) -> CpuState {
        self.set_8(Reg8::A, mem.read_8(CpuState::high_page(self.immediate_8(mem))))
    }

    /// The accumulator is written in the last page, at C.
    pub open spec fn ldh_c_a(self, mem: MemoryMap) -> Result<Machine, CoreError> {
        after_write(mem.write_8(CpuState::high_page(self.get_8(Reg8::C)), self.a()), self)
    }

    /// The accumulator takes the byte in the last page at C.
    pub open spec fn ldh_a_c(self, mem: MemoryMap) -> CpuState {
        self.set_8(Reg8::A, mem.read_8(CpuState::high_page(self.get_8(Reg8::C))))
    }

    // Stack

    /// What a push of the register stores: the register, and for AF the
    /// register with the low four bits of the flags made 0.
    pub open spec fn pushed_value(self, register: Reg16) -> u16 {
        if register == Reg16::AF {
            (self.get_16(register) - self.get_16(register) % 16) as u16
        } else {
            self.get_16(register)
        }
    }

    /// The stack pointer goes down by 2 and the pair is written there.
    pub open spec fn push(self, mem: MemoryMap, register: Reg16) -> Result<Machine, CoreError> {
        let top = self.sp().wrapping_sub(2);
        after_write(mem.write_16(top, self.pushed_value(register)), self.set_16(Reg16::SP, top))
    }

    /// The pair takes the word at the stack pointer, which then goes up by 2.
    pub open spec fn pop(self, mem: MemoryMap, register: Reg16) -> CpuState {
        let loaded = self.set_16(register, mem.read_16(self.sp()));
        loaded.set_16(Reg16::SP, loaded.sp().wrapping_add(2))
    }

    // Counting up and down

    /// A register goes up by 1 and wraps; the flags stay.
    pub open spec fn inc_r(self, register: Register) -> CpuState {
        match register {
            Register::Byte(r) => self.set_8(r, self.get_8(r).wrapping_add(1)),
            Register::Word(r) => self.set_16(r, self.get_16(r).wrapping_add(1)),
        }
    }

    /// A register goes down by 1 and wraps; the flags stay.
    pub open spec fn dec_r(self, register: Register) -> CpuState {
        match register {
            Register::Byte(r) => self.set_8(r, self.get_8(r).wrapping_sub(1)),
            Register::Word(r) => self.set_16(r, self.get_16(r).wrapping_sub(1)),
        }
    }

    /// The byte at the address in a pair goes up by 1 and wraps; the flags stay.
    pub open spec fn inc_m(self, mem: MemoryMap, pair: Reg16) -> Result<Machine, CoreError> {
        let address = self.get_16(pair);
        after_write(mem.write_8(address, mem.read_8(address).wrapping_add(1)), self)
    }

    /// The byte at the address in a pair goes down by 1 and wraps; the flags
    /// stay.
    pub open spec fn dec_m(self, mem: MemoryMap, pair: Reg16) -> Result<Machine, CoreError> {
        let address = self.get_16(pair);
        after_write(mem.write_8(address, mem.read_8(address).wrapping_sub(1)), self)
    }

    // Rotates of the accumulator: the zero flag is cleared, not computed.

    /// The accumulator and the flags take the result of a rotate, but for the
    /// zero flag, which is cleared.
    pub open spec fn rotate_a(self, result: AluResult) -> CpuState {
        self.set_result(AluResult { value: result.value, flags: Flags { zero: false, ..result.flags } })
    }

    /// The accumulator rotates left.
    pub open spec fn rlca(self) -> CpuState {
        self.rotate_a(spec_rlc(self.a()))
    }

    /// The accumulator rotates left through the carry.
    pub open spec fn rla(self) -> CpuState {
        self.rotate_a(spec_rl(self.a(), self.flags().carry))
    }

    /// The accumulator rotates right.
    pub open spec fn rrca(self) -> CpuState {
        self.rotate_a(spec_rrc(self.a()))
    }

    /// The accumulator rotates right through the carry.
    pub open spec fn rra(self) -> CpuState {
        self.rotate_a(spec_rr(self.a(), self.flags().carry))
    }

    // Arithmetic and logic

    /// A register pair is added to HL.
    pub open spec fn add_hl(self, register: Reg16) -> CpuState {
        let result = spec_add16(self.get_16(Reg16::HL), self.get_16(register), self.flags());
        self.set_16(Reg16::HL, result.value).set_flags(result.flags)
    }

    /// The byte that follows the opcode, taken as a number from 0 to 255, is
    /// added to the stack pointer as a pair is to HL, and the zero flag is
    /// cleared.
    pub open spec fn add_sp_e(self, mem: MemoryMap) -> CpuState {
        let result = spec_add16(self.sp(), self.immediate_8(mem) as u16, self.flags());
        self.set_16(Reg16::SP, result.value).set_flags(Flags { zero: false, ..result.flags })
    }

    /// `value` is added to the accumulator.
    pub open spec fn add_a(self, value: u8) -> CpuState {
        self.set_result(spec_add8(self.a(), value, false))
    }

    /// `value` and the carry flag are added to the accumulator.
    pub open spec fn adc_a(self, value: u8) -> CpuState {
        self.set_result(spec_add8(self.a(), value, self.flags().carry))
    }

    /// `value` is taken from the accumulator.
    pub open spec fn sub_a(self, value: u8) -> CpuState {
        self.set_result(spec_sub8(self.a(), value, false))
    }

    /// `value` and the carry flag are taken from the accumulator.
    pub open spec fn sbc_a(self, value: u8) -> CpuState {
        self.set_result(spec_sub8(self.a(), value, self.flags().carry))
    }

    /// The accumulator is combined with `value` bit by bit: and.
    pub open spec fn and_a(self, value: u8) -> CpuState {
        self.set_result(spec_and8(self.a(), value))
    }

    /// The accumulator is combined with `value` bit by bit: exclusive or.
    pub open spec fn xor_a(self, value: u8) -> CpuState {
        self.set_result(spec_xor8(self.a(), value))
    }

    /// The accumulator is combined with `value` bit by bit: or.
    pub open spec fn or_a(self, value: u8) -> CpuState {
        self.set_result(spec_or8(self.a(), value))
    }

    /// A comparison is a subtraction that keeps only the flags.
    pub open spec fn cp_a(self, value: u8) -> CpuState {
        self.set_flags(spec_sub8(self.a(), value, false).flags)
    }

    /// The operand is added to the accumulator.
    pub open spec fn add_a_r(self, mem: MemoryMap, operand: Operand8) -> CpuState {
        self.add_a(self.register_or_memory(mem, operand))
    }

    /// The byte that follows the opcode is added to the accumulator.
    pub open spec fn add_a_n(self, mem: MemoryMap) -> CpuState {
        self.add_a(self.immediate_8(mem))
    }

    /// The operand is added, with the carry flag, to the accumulator.
    pub open spec fn adc_a_r(self, mem: MemoryMap, operand: Operand8) -> CpuState {
        self.adc_a(self.register_or_memory(mem, operand))
    }

    /// The byte that follows the opcode is added, with the carry flag, to the accumulator.
    pub open spec fn adc_a_n(self, mem: MemoryMap) -> CpuState {
        self.adc_a(self.immediate_8(mem))
    }

    /// The operand is taken from the accumulator.
    pub open spec fn sub_a_r(self, mem: MemoryMap, operand: Operand8) -> CpuState {
        self.sub_a(self.register_or_memory(mem, operand))
    }

    /// The byte that follows the opcode is taken from the accumulator.
    pub open spec fn sub_a_n(self, mem: MemoryMap) -> CpuState {
        self.sub_a(self.immediate_8(mem))
    }

    /// The operand is taken, with the carry flag, from the accumulator.
    pub open spec fn sbc_a_r(self, mem: MemoryMap, operand: Operand8) -> CpuState {
        self.sbc_a(self.register_or_memory(mem, operand))
    }

    /// The byte that follows the opcode is taken, with the carry flag, from the accumulator.
    pub open spec fn sbc_a_n(self, mem: MemoryMap) -> CpuState {
        self.sbc_a(self.immediate_8(mem))
    }

    /// The accumulator is combined with the operand: and.
    pub open spec fn and_a_r(self, mem: MemoryMap, operand: Operand8) -> CpuState {
        self.and_a(self.register_or_memory(mem, operand))
    }

    /// The accumulator is combined with the byte that follows the opcode: and.
    pub open spec fn and_a_n(self, mem: MemoryMap) -> CpuState {
        self.and_a(self.immediate_8(mem))
    }

    /// The accumulator is combined with the operand: exclusive or.
    pub open spec fn xor_a_r(self, mem: MemoryMap, operand: Operand8) -> CpuState {
        self.xor_a(self.register_or_memory(mem, operand))
    }

    /// The accumulator is combined with the byte that follows the opcode: exclusive or.
    pub open spec fn xor_a_n(self, mem: MemoryMap) -> CpuState {
        self.xor_a(self.immediate_8(mem))
    }

    /// The accumulator is combined with the operand: or.
    pub open spec fn or_a_r(self, mem: MemoryMap, operand: Operand8) -> CpuState {
        self.or_a(self.register_or_memory(mem, operand))
    }

    /// The accumulator is combined with the byte that follows the opcode: or.
    pub open spec fn or_a_n(self, mem: MemoryMap) -> CpuState {
        self.or_a(self.immediate_8(mem))
    }

    /// The accumulator is compared with the operand.
    pub open spec fn cp_a_r(self, mem: MemoryMap, operand: Operand8) -> CpuState {
        self.cp_a(self.register_or_memory(mem, operand))
    }

    /// The accumulator is compared with the byte that follows the opcode.
    pub open spec fn cp_a_n(self, mem: MemoryMap) -> CpuState {
        self.cp_a(self.immediate_8(mem))
    }

    /// The accumulator is adjusted to packed decimal.
    pub open spec fn daa(self) -> CpuState {
        self.set_result(spec_daa(self.a(), self.flags()))
    }

    /// Every bit of the accumulator is inverted; the flags stay.
    pub open spec fn cpl(self) -> CpuState {
        self.set_8(Reg8::A, !self.a())
    }

    /// The carry flag is set; subtract and half-carry are cleared; zero stays.
    pub open spec fn scf(self) -> CpuState {
        self.set_flags(Flags { subtract: false, half_carry: false, carry: true, ..self.flags() })
    }

    /// The carry flag is inverted; subtract and half-carry are cleared; zero
    /// stays.
    pub open spec fn ccf(self) -> CpuState {
        self.set_flags(
            Flags { subtract: false, half_carry: false, carry: !self.flags().carry, ..self.flags() },
        )
    }

    // Prefixed instructions

    /// The flags take those of a rotate or shift, and its result goes where
    /// the operand says.
    pub open spec fn shift_operand(self, mem: MemoryMap, operand: Operand8, result: AluResult) -> Result<
        Machine,
        CoreError,
    > {
        match operand {
            Operand8::Reg(register) => Ok(
                Machine { cpu: self.set_flags(result.flags).set_8(register, result.value), mem },
            ),
            Operand8::Mem(pair) => after_write(
                mem.write_8(self.get_16(pair), result.value),
                self.set_flags(result.flags),
            ),
        }
    }

    /// The operand rotates left.
    pub open spec fn rlc_r(self, mem: MemoryMap, operand: Operand8) -> Result<Machine, CoreError> {
        self.shift_operand(mem, operand, spec_rlc(self.register_or_memory(mem, operand)))
    }

    /// The operand rotates right.
    pub open spec fn rrc_r(self, mem: MemoryMap, operand: Operand8) -> Result<Machine, CoreError> {
        self.shift_operand(mem, operand, spec_rrc(self.register_or_memory(mem, operand)))
    }

    /// The operand rotates left through the carry.
    pub open spec fn rl_r(self, mem: MemoryMap, operand: Operand8) -> Result<Machine, CoreError> {
        self.shift_operand(
            mem,
            operand,
            spec_rl(self.register_or_memory(mem, operand), self.flags().carry),
        )
    }

    /// The operand rotates right through the carry.
    pub open spec fn rr_r(self, mem: MemoryMap, operand: Operand8) -> Result<Machine, CoreError> {
        self.shift_operand(
            mem,
            operand,
            spec_rr(self.register_or_memory(mem, operand), self.flags().carry),
        )
    }

    /// The operand shifts left.
    pub open spec fn sla_r(self, mem: MemoryMap, operand: Operand8) -> Result<Machine, CoreError> {
        self.shift_operand(mem, operand, spec_sla(self.register_or_memory(mem, operand)))
    }

    /// The operand shifts right and keeps its top bit.
    pub open spec fn sra_r(self, mem: MemoryMap, operand: Operand8) -> Result<Machine, CoreError> {
        self.shift_operand(mem, operand, spec_sra(self.register_or_memory(mem, operand)))
    }

    /// The nibbles of the operand change places.
    pub open spec fn swap_r(self, mem: MemoryMap, operand: Operand8) -> Result<Machine, CoreError> {
        self.shift_operand(
            mem,
            operand,
            spec_swap(self.register_or_memory(mem, operand), self.flags()),
        )
    }

    /// The operand shifts right.
    pub open spec fn srl_r(self, mem: MemoryMap, operand: Operand8) -> Result<Machine, CoreError> {
        self.shift_operand(mem, operand, spec_srl(self.register_or_memory(mem, operand)))
    }

    /// The flags take the test of bit `n` of the operand.
    pub open spec fn bit_n_r(self, mem: MemoryMap, operand: Operand8, n: u8) -> CpuState {
        self.set_flags(spec_test_bit(self.register_or_memory(mem, operand), n, self.flags()))
    }

    /// Bit `n` of the operand becomes 0; the flags stay.
    pub open spec fn res_n_r(self, mem: MemoryMap, operand: Operand8, n: u8) -> Result<
        Machine,
        CoreError,
    > {
        self.write_mem_or_regs(
            mem,
            operand,
            spec_reset_bit(self.register_or_memory(mem, operand), n),
        )
    }

    /// Bit `n` of the operand becomes 1; the flags stay.
    pub open spec fn set_n_r(self, mem: MemoryMap, operand: Operand8, n: u8) -> Result<
        Machine,
        CoreError,
    > {
        self.write_mem_or_regs(mem, operand, spec_set_bit(self.register_or_memory(mem, operand), n))
    }

    /// The instruction that the byte after the prefix encodes: bits 6 and 7
    /// give the family, bits 3 to 5 the operation or the bit, bits 0 to 2
    /// the operand.
    pub open spec fn prefixed(self, mem: MemoryMap, code: u8) -> Result<Machine, CoreError> {
        let operand = Operand8::at(code % 8);
        let n = (code / 8) % 8;
        if code >= 0xC0 {
            self.set_n_r(mem, operand, n)
        } else if code >= 0x80 {
            self.res_n_r(mem, operand, n)
        } else if code >= 0x40 {
            Ok(Machine { cpu: self.bit_n_r(mem, operand, n), mem })
        } else if n == 0 {
            self.rlc_r(mem, operand)
        } else if n == 1 {
            self.rrc_r(mem, operand)
        } else if n == 2 {
            self.rl_r(mem, operand)
        } else if n == 3 {
            self.rr_r(mem, operand)
        } else if n == 4 {
            self.sla_r(mem, operand)
        } else if n == 5 {
            self.sra_r(mem, operand)
        } else if n == 6 {
            self.swap_r(mem, operand)
        } else {
            self.srl_r(mem, operand)
        }
    }

    /// The instruction that the byte after the prefix encodes.
    pub open spec fn call_cb(self, mem: MemoryMap) -> Result<Machine, CoreError> {
        self.prefixed(mem, self.immediate_8(mem))
    }

    // Interrupts and pausing

    /// Interrupts are disabled.
    pub open spec fn di(self) -> CpuState {
        self.set_ime(0)
    }

    /// Interrupts are enabled.
    pub open spec fn ei(self) -> CpuState {
        self.set_ime(1)
    }

    /// The processor waits.
    pub open spec fn stop(self) -> CpuState {
        CpuState { run: RunState::Halted, ..self }
    }

    /// The processor runs.
    pub open spec fn resume(self) -> CpuState {
        CpuState { run: RunState::Running, ..self }
    }

    // Jumps, calls and returns. A taken branch leaves the address of the
    // next instruction in the program counter.

    /// Where a relative jump with displacement byte `e` lands: the
    /// displacement counts from the end of the two-byte instruction.
    pub open spec fn relative_target(self, e: u8) -> u16 {
        address_at(self.pc(), 2 + signed(e))
    }

    /// A jump by the signed byte that follows the opcode.
    pub open spec fn jr_e(self, mem: MemoryMap) -> CpuState {
        self.set_16(Reg16::PC, self.relative_target(self.immediate_8(mem)))
    }

    /// A relative jump if the flags meet the condition; no change if not.
    pub open spec fn jr_f_e(self, mem: MemoryMap, condition: Condition) -> CpuState {
        if condition.holds(self.flags()) {
            self.jr_e(mem)
        } else {
            self
        }
    }

    /// A jump to the address that follows the opcode.
    pub open spec fn jp_nn(self, mem: MemoryMap) -> CpuState {
        self.set_16(Reg16::PC, self.immediate_16(mem))
    }

    /// A jump if the flags meet the condition; no change if not.
    pub open spec fn jp_f_nn(self, mem: MemoryMap, condition: Condition) -> CpuState {
        if condition.holds(self.flags()) {
            self.jp_nn(mem)
        } else {
            self
        }
    }

    /// A jump to the address in HL.
    pub open spec fn jp_hl(self) -> CpuState {
        self.set_16(Reg16::PC, self.get_16(Reg16::HL))
    }

    /// The return address is pushed and the program counter takes `target`.
    pub open spec fn call_to(self, mem: MemoryMap, return_address: u16, target: u16) -> Result<
        Machine,
        CoreError,
    > {
        let top = self.sp().wrapping_sub(2);
        after_write(
            mem.write_16(top, return_address),
            self.set_16(Reg16::SP, top).set_16(Reg16::PC, target),
        )
    }

    /// The address of the instruction after the three bytes of the call is
    /// pushed, and the program counter takes the address that follows the
    /// opcode.
    pub open spec fn call_nn(self, mem: MemoryMap) -> Result<Machine, CoreError> {
        self.call_to(mem, self.pc().wrapping_add(3), self.immediate_16(mem))
    }

    /// A call if the flags meet the condition; no change if not.
    pub open spec fn call_f_nn(self, mem: MemoryMap, condition: Condition) -> Result<
        Machine,
        CoreError,
    > {
        if condition.holds(self.flags()) {
            self.call_nn(mem)
        } else {
            Ok(Machine { cpu: self, mem })
        }
    }

    /// The address of the instruction after the one byte of the restart is
    /// pushed, and the program counter takes `vector`.
    pub open spec fn rst(self, mem: MemoryMap, vector: u16) -> Result<Machine, CoreError> {
        self.call_to(mem, self.pc().wrapping_add(1), vector)
    }

    /// The program counter takes the word at the stack pointer, which goes up
    /// by 2.
    pub open spec fn ret(self, mem: MemoryMap) -> CpuState {
        self.set_16(Reg16::SP, self.sp().wrapping_add(2)).set_16(Reg16::PC, mem.read_16(self.sp()))
    }

    /// A return if the flags meet the condition; no change if not.
    pub open spec fn ret_f(self, mem: MemoryMap, condition: Condition) -> CpuState {
        if condition.holds(self.flags()) {
            self.ret(mem)
        } else {
            self
        }
    }

    /// A return that also enables interrupts.
    pub open spec fn reti(self, mem: MemoryMap) -> CpuState {
        self.ret(mem).set_ime(1)
    }
}

} // verus!
