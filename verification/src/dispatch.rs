use vstd::prelude::*;
use crate::error::CoreError;
use crate::memory::MemoryMap;
use crate::model::{CpuState, Machine, RunState};
use crate::operand::{Condition, Operand8, Register};
use crate::registers::{Reg16, Reg8};
use crate::tables::{spec_instruction_cycles, spec_instruction_length};

verus! {

/// What one instruction did: the machine it left, and whether it set the
/// program counter itself.
pub struct Executed {
    pub machine: Machine,
    pub jumped: bool,
}

/// What a step reports to the driver: the opcode it executed, the encoded
/// length and the clock cycles of the instruction, and whether it jumped.
#[derive(Clone, Copy, Debug, PartialEq, Eq, Structural)]
pub struct Outcome {
    pub opcode: u8,
    pub length: u8,
    pub cycles: u8,
    pub jumped: bool,
}

/// What one step did: the machine it left and what it reports.
pub struct Stepped {
    pub machine: Machine,
    pub outcome: Outcome,
}

/// The opcodes that the processor leaves undefined.
pub open spec fn is_illegal(opcode: u8) -> bool {
    opcode == 0xD3 || opcode == 0xDB || opcode == 0xDD || opcode == 0xE3 || opcode == 0xE4
        || opcode == 0xEB || opcode == 0xEC || opcode == 0xED || opcode == 0xF4 || opcode == 0xFC
        || opcode == 0xFD
}

/// The register pairs of the 16-bit loads and additions: BC, DE, HL, SP.
pub open spec fn pair_at(index: u8) -> Reg16 {
    if index == 0 {
        Reg16::BC
    } else if index == 1 {
        Reg16::DE
    } else if index == 2 {
        Reg16::HL
    } else {
        Reg16::SP
    }
}

/// The register pairs of the stack instructions: BC, DE, HL, AF.
pub open spec fn stack_pair_at(index: u8) -> Reg16 {
    if index == 0 {
        Reg16::BC
    } else if index == 1 {
        Reg16::DE
    } else if index == 2 {
        Reg16::HL
    } else {
        Reg16::AF
    }
}

/// An instruction that changed only the processor and did not jump.
pub open spec fn went_on(cpu: CpuState, mem: MemoryMap) -> Result<Executed, CoreError> {
    Ok(Executed { machine: Machine { cpu, mem }, jumped: false })
}

/// A jump, taken or not, that changed only the processor.
pub open spec fn branched(cpu: CpuState, mem: MemoryMap, taken: bool) -> Result<
    Executed,
    CoreError,
> {
    Ok(Executed { machine: Machine { cpu, mem }, jumped: taken })
}

/// An instruction that may be refused.
pub open spec fn wrote(written: Result<Machine, CoreError>, jumped: bool) -> Result<
    Executed,
    CoreError,
> {
    match written {
        Ok(machine) => Ok(Executed { machine, jumped }),
        Err(e) => Err(e),
    }
}

/// A store through HL that then moves HL up or down by one.
pub open spec fn store_and_move(written: Result<Machine, CoreError>, up: bool) -> Result<
    Executed,
    CoreError,
> {
    match written {
        Ok(machine) => Ok(
            Executed {
                machine: Machine {
                    cpu: if up {
                        machine.cpu.inc_r(Register::Word(Reg16::HL))
                    } else {
                        machine.cpu.dec_r(Register::Word(Reg16::HL))
                    },
                    mem: machine.mem,
                },
                jumped: false,
            },
        ),
        Err(e) => Err(e),
    }
}

/// What `execute` leaves behind: when the model gives a machine, that
/// machine and whether the instruction jumped; when it gives an error, that
/// error, with the processor and the address space as they were.
pub open spec fn executed(
    expected: Result<Executed, CoreError>,
    cpu_before: CpuState,
    mem_before: MemoryMap,
    res: Result<bool, CoreError>,
    cpu_after: CpuState,
    mem_after: MemoryMap,
) -> bool {
    match expected {
        Ok(done) => res == Ok::<bool, CoreError>(done.jumped) && cpu_after == done.machine.cpu
            && mem_after == done.machine.mem,
        Err(e) => res == Err::<bool, CoreError>(e) && cpu_after == cpu_before && mem_after
            == mem_before,
    }
}

impl Machine {
    /// The opcodes 0x00 to 0x3F. The low four bits give the operation;
    /// bits 4 and 5 the register pair, bits 3 to 5 the byte operand or the
    /// condition.
    pub open spec fn execute_low(self, opcode: u8) -> Result<Executed, CoreError> {
        let cpu = self.cpu;
        let mem = self.mem;
        let column = opcode % 16;
        let row = opcode / 16;
        let pair = pair_at(row);
        let operand = Operand8::at((opcode / 8) % 8);
        let condition = Condition::at((opcode / 8) % 4);
        let a = Operand8::Reg(Reg8::A);
        let through = Operand8::Mem(if row == 0 {
            Reg16::BC
        } else if row == 1 {
            Reg16::DE
        } else {
            Reg16::HL
        });
        if column == 0 || column == 8 {
            if row >= 2 {
                branched(cpu.jr_f_e(mem, condition), mem, condition.holds(cpu.flags()))
            } else if opcode == 0x00 {
                went_on(cpu, mem)
            } else if opcode == 0x08 {
                went_on(cpu.ld_nn(mem, Reg16::SP), mem)
            } else if opcode == 0x10 {
                went_on(cpu.stop(), mem)
            } else {
                branched(cpu.jr_e(mem), mem, true)
            }
        } else if column == 1 {
            went_on(cpu.ld_nn(mem, pair), mem)
        } else if column == 2 {
            if row < 2 {
                wrote(cpu.ld_r1_r2(mem, through, a), false)
            } else {
                store_and_move(cpu.ld_r1_r2(mem, through, a), row == 2)
            }
        } else if column == 10 {
            if row < 2 {
                wrote(cpu.ld_r1_r2(mem, a, through), false)
            } else {
                store_and_move(cpu.ld_r1_r2(mem, a, through), row == 2)
            }
        } else if column == 3 {
            went_on(cpu.inc_r(Register::Word(pair)), mem)
        } else if column == 11 {
            went_on(cpu.dec_r(Register::Word(pair)), mem)
        } else if column == 9 {
            went_on(cpu.add_hl(pair), mem)
        } else if column == 4 || column == 12 {
            match operand {
                Operand8::Reg(register) => went_on(cpu.inc_r(Register::Byte(register)), mem),
                Operand8::Mem(address) => wrote(cpu.inc_m(mem, address), false),
            }
        } else if column == 5 || column == 13 {
            match operand {
                Operand8::Reg(register) => went_on(cpu.dec_r(Register::Byte(register)), mem),
                Operand8::Mem(address) => wrote(cpu.dec_m(mem, address), false),
            }
        } else if column == 6 || column == 14 {
            match operand {
                Operand8::Reg(register) => went_on(cpu.ld_n(mem, register), mem),
                Operand8::Mem(_) => wrote(cpu.ld_m_n(mem), false),
            }
        } else if column == 7 {
            went_on(
                if row == 0 {
                    cpu.rlca()
                } else if row == 1 {
                    cpu.rla()
                } else if row == 2 {
                    cpu.daa()
                } else {
                    cpu.scf()
                },
                mem,
            )
        } else {
            went_on(
                if row == 0 {
                    cpu.rrca()
                } else if row == 1 {
                    cpu.rra()
                } else if row == 2 {
                    cpu.cpl()
                } else {
                    cpu.ccf()
                },
                mem,
            )
        }
    }

    /// The opcodes 0x40 to 0x7F: a load between two operands, bits 3 to 5
    /// naming the destination and bits 0 to 2 the source. The one that would
    /// load the byte at HL into itself halts the processor.
    pub open spec fn execute_load(self, opcode: u8) -> Result<Executed, CoreError> {
        if opcode == 0x76 {
            went_on(self.cpu.stop(), self.mem)
        } else {
            wrote(
                self.cpu.ld_r1_r2(
                    self.mem,
                    Operand8::at((opcode / 8) % 8),
                    Operand8::at(opcode % 8),
                ),
                false,
            )
        }
    }

    /// The opcodes 0x80 to 0xBF: an operation on the accumulator with the
    /// operand that bits 0 to 2 name.
    pub open spec fn execute_alu(self, opcode: u8) -> Result<Executed, CoreError> {
        went_on(
            self.cpu.accumulate(
                (opcode / 8) % 8,
                self.cpu.register_or_memory(self.mem, Operand8::at(opcode % 8)),
            ),
            self.mem,
        )
    }

    /// The opcodes 0xC0 to 0xFF. Bits 0 to 2 give the kind of instruction,
    /// bits 3 to 5 the condition, the register pair, the operation or the
    /// restart address.
    pub open spec fn execute_high(self, opcode: u8) -> Result<Executed, CoreError> {
        let cpu = self.cpu;
        let mem = self.mem;
        let kind = opcode % 8;
        let y = (opcode / 8) % 8;
        let condition = Condition::at(y % 4);
        let taken = condition.holds(cpu.flags());
        let pair = stack_pair_at(y / 2);
        if is_illegal(opcode) {
            Err(CoreError::IllegalOpcode(opcode))
        } else if kind == 0 {
            if y < 4 {
                branched(cpu.ret_f(mem, condition), mem, taken)
            } else if y == 4 {
                wrote(cpu.ldh_n_a(mem), false)
            } else if y == 5 {
                went_on(cpu.add_sp_e(mem), mem)
            } else if y == 6 {
                went_on(cpu.ldh_a_n(mem), mem)
            } else {
                went_on(cpu.ld_sp_e(mem), mem)
            }
        } else if kind == 1 {
            if y % 2 == 0 {
                went_on(cpu.pop(mem, pair), mem)
            } else if y == 1 {
                branched(cpu.ret(mem), mem, true)
            } else if y == 3 {
                branched(cpu.reti(mem), mem, true)
            } else if y == 5 {
                branched(cpu.jp_hl(), mem, true)
            } else {
                wrote(cpu.ld_sp_hl(mem), false)
            }
        } else if kind == 2 {
            if y < 4 {
                branched(cpu.jp_f_nn(mem, condition), mem, taken)
            } else if y == 4 {
                wrote(cpu.ldh_c_a(mem), false)
            } else if y == 5 {
                wrote(cpu.ld_nn_a(mem), false)
            } else if y == 6 {
                went_on(cpu.ldh_a_c(mem), mem)
            } else {
                went_on(cpu.ld_a_nn(mem), mem)
            }
        } else if kind == 3 {
            if y == 0 {
                branched(cpu.jp_nn(mem), mem, true)
            } else if y == 1 {
                wrote(cpu.call_cb(mem), false)
            } else if y == 6 {
                went_on(cpu.di(), mem)
            } else {
                went_on(cpu.ei(), mem)
            }
        } else if kind == 4 {
            wrote(cpu.call_f_nn(mem, condition), taken)
        } else if kind == 5 {
            if y % 2 == 0 {
                wrote(cpu.push(mem, pair), false)
            } else {
                wrote(cpu.call_nn(mem), true)
            }
        } else if kind == 6 {
            went_on(cpu.accumulate(y, cpu.immediate_8(mem)), mem)
        } else {
            wrote(cpu.rst(mem, (y * 8) as u16), true)
        }
    }

    /// What the instruction that starts with `opcode` does to the machine.
    /// The program counter still holds the address of the opcode unless the
    /// instruction jumped.
    pub open spec fn execute(self, opcode: u8) -> Result<Executed, CoreError> {
        if opcode < 0x40 {
            self.execute_low(opcode)
        } else if opcode < 0x80 {
            self.execute_load(opcode)
        } else if opcode < 0xC0 {
            self.execute_alu(opcode)
        } else {
            self.execute_high(opcode)
        }
    }
}

impl CpuState {
    /// The eight operations on the accumulator, by the number that bits 3 to
    /// 5 of the opcode give: add, add with carry, subtract, subtract with
    /// carry, and, exclusive or, or, compare.
    pub open spec fn accumulate(self, operation: u8, value: u8) -> CpuState {
        if operation == 0 {
            self.add_a(value)
        } else if operation == 1 {
            self.adc_a(value)
        } else if operation == 2 {
            self.sub_a(value)
        } else if operation == 3 {
            self.sbc_a(value)
        } else if operation == 4 {
            self.and_a(value)
        } else if operation == 5 {
            self.xor_a(value)
        } else if operation == 6 {
            self.or_a(value)
        } else {
            self.cp_a(value)
        }
    }

    /// The processor after `cycles` more clock cycles; the count wraps at
    /// the end of its 64 bits.
    pub open spec fn elapse(self, cycles: u8) -> CpuState {
        CpuState { cycles: self.cycles.wrapping_add(cycles as u64), ..self }
    }

    /// After an instruction the program counter goes on by the encoded
    /// length, unless the instruction set it, and the cycles of the
    /// instruction are added to those spent.
    pub open spec fn handle_post_instruction(self, opcode: u8, next: u8, jumped: bool) -> CpuState {
        let spent = self.elapse(spec_instruction_cycles(opcode, next));
        if jumped {
            spent
        } else {
            spent.set_16(
                Reg16::PC,
                self.pc().wrapping_add(spec_instruction_length(opcode, next) as u16),
            )
        }
    }
}

/// What is reported of the instruction that starts with `opcode` and goes on
/// with `next`.
pub open spec fn outcome_of(opcode: u8, next: u8, jumped: bool) -> Outcome {
    Outcome {
        opcode,
        length: spec_instruction_length(opcode, next),
        cycles: spec_instruction_cycles(opcode, next),
        jumped,
    }
}

/// What a step of a waiting processor reports: no instruction, no cycles.
pub open spec fn idle() -> Outcome {
    Outcome { opcode: 0, length: 0, cycles: 0, jumped: false }
}

impl Machine {
    /// One step: a waiting processor does nothing. A running one fetches the
    /// opcode at the program counter, executes it, and moves the program
    /// counter on unless the instruction jumped.
    pub open spec fn step(self) -> Result<Stepped, CoreError> {
        let opcode = self.mem.read_8(self.cpu.pc());
        let next = self.mem.read_8(self.cpu.pc().wrapping_add(1));
        if self.cpu.run == RunState::Halted {
            Ok(Stepped { machine: self, outcome: idle() })
        } else {
            match self.execute(opcode) {
                Ok(done) => Ok(
                    Stepped {
                        machine: Machine {
                            cpu: done.machine.cpu.handle_post_instruction(opcode, next, done.jumped),
                            mem: done.machine.mem,
                        },
                        outcome: outcome_of(opcode, next, done.jumped),
                    },
                ),
                Err(e) => Err(e),
            }
        }
    }
}

} // verus!
