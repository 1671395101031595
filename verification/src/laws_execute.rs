//! What holds of the program counter over every instruction.
use vstd::prelude::*;
use crate::dispatch::{is_illegal, outcome_of, Executed};
use crate::error::CoreError;
use crate::flags::Flags;
use crate::laws::law_register_write_read_8;
use crate::memory::MemoryMap;
use crate::model::{CpuState, Machine, RunState};
use crate::registers::{Reg16, Reg8};
use crate::tables::spec_instruction_length;

verus! {

/// Whether a processor is where another was: at the same program counter,
/// in the same run state, with the same cycles spent.
pub open spec fn same_place(before: CpuState, after: CpuState) -> bool {
    after.pc() == before.pc() && after.cycles == before.cycles && after.run == before.run
}

/// Writing a byte register, the flags, the interrupt master enable, or a
/// register pair other than the program counter leaves the processor in the
/// same place.
pub proof fn lemma_writes_keep_place()
    ensures
        forall|cpu: CpuState, register: Reg8, value: u8|
            same_place(cpu, #[trigger] cpu.set_8(register, value)),
        forall|cpu: CpuState, register: Reg16, value: u16|
            register != Reg16::PC ==> same_place(cpu, #[trigger] cpu.set_16(register, value)),
        forall|cpu: CpuState, flags: Flags| same_place(cpu, #[trigger] cpu.set_flags(flags)),
        forall|cpu: CpuState, value: u8| same_place(cpu, #[trigger] cpu.set_ime(value)),
{
    assert forall|cpu: CpuState, register: Reg8, value: u8|
        same_place(cpu, #[trigger] cpu.set_8(register, value)) by {
        law_register_write_read_8(cpu.regs, register, value);
        assert(cpu.regs.write_8(register, value).read_16(Reg16::PC) == cpu.regs.read_16(
            Reg16::PC,
        ));
    }
    assert forall|cpu: CpuState, flags: Flags|
        same_place(cpu, #[trigger] cpu.set_flags(flags)) by {
        let byte = flags.into_byte(cpu.get_8(Reg8::F));
        assert(same_place(cpu, cpu.set_8(Reg8::F, byte)));
    }
}

/// Whether the instruction with this opcode left the cycles spent as they
/// were, left the program counter on the opcode unless it jumped, and left
/// the processor running or waiting as it was unless it is STOP or HALT,
/// which leave it waiting.
pub open spec fn stays_put(machine: Machine, opcode: u8, result: Result<Executed, CoreError>) -> bool {
    result matches Ok(done) ==> {
        &&& done.machine.cpu.cycles == machine.cpu.cycles
        &&& !done.jumped ==> done.machine.cpu.pc() == machine.cpu.pc()
        &&& done.machine.cpu.run == if opcode == 0x10 || opcode == 0x76 {
            RunState::Halted
        } else {
            machine.cpu.run
        }
    }
}

#[verifier::rlimit(100)]
proof fn lemma_low_stays_put(machine: Machine, opcode: u8)
    requires
        opcode < 0x40,
    ensures
        stays_put(machine, opcode, machine.execute_low(opcode)),
{
    lemma_writes_keep_place();
}

#[verifier::rlimit(100)]
proof fn lemma_load_stays_put(machine: Machine, opcode: u8)
    requires
        0x40 <= opcode < 0x80,
    ensures
        stays_put(machine, opcode, machine.execute_load(opcode)),
{
    lemma_writes_keep_place();
}

#[verifier::rlimit(100)]
proof fn lemma_alu_stays_put(machine: Machine, opcode: u8)
    requires
        0x80 <= opcode < 0xC0,
    ensures
        stays_put(machine, opcode, machine.execute_alu(opcode)),
{
    lemma_writes_keep_place();
}

#[verifier::rlimit(100)]
proof fn lemma_high_stays_put(machine: Machine, opcode: u8)
    requires
        0xC0 <= opcode,
    ensures
        stays_put(machine, opcode, machine.execute_high(opcode)),
{
    lemma_writes_keep_place();
}

/// Only a jump moves the program counter: an instruction that reports no
/// jump leaves it on its own opcode. Only STOP and HALT make the processor
/// wait. No instruction changes the count of cycles spent.
pub proof fn law_only_jumps_move_pc(machine: Machine, opcode: u8)
    ensures
        stays_put(machine, opcode, machine.execute(opcode)),
{
    if opcode < 0x40 {
        lemma_low_stays_put(machine, opcode);
    } else if opcode < 0x80 {
        lemma_load_stays_put(machine, opcode);
    } else if opcode < 0xC0 {
        lemma_alu_stays_put(machine, opcode);
    } else {
        lemma_high_stays_put(machine, opcode);
    }
}

/// A step of a running processor that does not jump moves the program
/// counter on by the encoded length of the instruction, wrapping at the end
/// of the address space; every step adds the cycles of its instruction to
/// those spent. A step of a waiting processor changes nothing.
#[verifier::rlimit(60)]
pub proof fn law_step_moves_on(machine: Machine)
    ensures
        machine.cpu.run == RunState::Halted ==> (machine.step() matches Ok(stepped)
            && stepped.machine == machine),
        machine.cpu.run == RunState::Running ==> (machine.step() matches Ok(stepped) ==> {
            let opcode = machine.mem.read_8(machine.cpu.pc());
            let next = machine.mem.read_8(machine.cpu.pc().wrapping_add(1));
            &&& stepped.outcome == outcome_of(opcode, next, stepped.outcome.jumped)
            &&& stepped.machine.cpu.cycles == machine.cpu.cycles.wrapping_add(
                stepped.outcome.cycles as u64,
            )
            &&& !stepped.outcome.jumped ==> stepped.machine.cpu.pc()
                == machine.cpu.pc().wrapping_add(spec_instruction_length(opcode, next) as u16)
        }),
{
    law_only_jumps_move_pc(machine, machine.mem.read_8(machine.cpu.pc()));
    lemma_writes_keep_place();
}

/// The only error of a write to the address space is that of a bank that
/// the cartridge image does not hold.
pub proof fn lemma_write_errors(mem: MemoryMap)
    ensures
        forall|address: u16, value: u8|
            (#[trigger] mem.write_8(address, value)) is Err ==> mem.write_8(address, value)
                == Err::<MemoryMap, CoreError>(CoreError::BankOutOfRange),
        forall|address: u16, value: u16|
            (#[trigger] mem.write_16(address, value)) is Err ==> mem.write_16(address, value)
                == Err::<MemoryMap, CoreError>(CoreError::BankOutOfRange),
{
    reveal(MemoryMap::write_8);
    reveal(MemoryMap::select_bank);
}

/// Whether an instruction that failed failed for the reason its opcode
/// gives: an undefined opcode as such, any other for a bank that the
/// cartridge image does not hold.
pub open spec fn fails_rightly(opcode: u8, result: Result<Executed, CoreError>) -> bool {
    if is_illegal(opcode) {
        result == Err::<Executed, CoreError>(CoreError::IllegalOpcode(opcode))
    } else {
        result is Err ==> result == Err::<Executed, CoreError>(CoreError::BankOutOfRange)
    }
}

#[verifier::rlimit(100)]
proof fn lemma_low_fails_rightly(machine: Machine, opcode: u8)
    requires
        opcode < 0x40,
    ensures
        fails_rightly(opcode, machine.execute_low(opcode)),
{
    lemma_write_errors(machine.mem);
}

#[verifier::rlimit(100)]
proof fn lemma_load_fails_rightly(machine: Machine, opcode: u8)
    requires
        0x40 <= opcode < 0x80,
    ensures
        fails_rightly(opcode, machine.execute_load(opcode)),
{
    lemma_write_errors(machine.mem);
}

#[verifier::rlimit(100)]
proof fn lemma_high_fails_rightly(machine: Machine, opcode: u8)
    requires
        0xC0 <= opcode,
    ensures
        fails_rightly(opcode, machine.execute_high(opcode)),
{
    lemma_write_errors(machine.mem);
}

/// An undefined opcode is reported as such, whatever the state of the
/// machine. A defined opcode fails only where it writes, and only because
/// the write selects a bank that the cartridge image does not hold.
pub proof fn law_errors(machine: Machine, opcode: u8)
    ensures
        fails_rightly(opcode, machine.execute(opcode)),
{
    if opcode < 0x40 {
        lemma_low_fails_rightly(machine, opcode);
    } else if opcode < 0x80 {
        lemma_load_fails_rightly(machine, opcode);
    } else if opcode >= 0xC0 {
        lemma_high_fails_rightly(machine, opcode);
    }
}

} // verus!
