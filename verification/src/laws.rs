//! What holds of the registers, the address space and the instructions,
//! whatever state they start from.
use vstd::prelude::*;
use crate::alu::{bit_is_set, spec_sub8, spec_test_bit};
use crate::dispatch::is_illegal;
use crate::flags::{lemma_flags_round_trip, Flags};
use crate::memory::MemoryMap;
use crate::model::{CpuState, Machine, RunState};
use crate::operand::{Condition, Operand8};
use crate::cpu::lemma_clear_low_nibble;
use crate::registers::{high_byte, low_byte, word_of, Reg16, Reg8, RegisterFile};
use crate::tables::{OPCODE_LENGTHS, OPCODE_LENGTHS_CB};

verus! {

/// A word is made of its two bytes, and the two bytes of a word made of
/// `high` and `low` are `high` and `low`.
pub proof fn law_word_bytes(word: u16, high: u8, low: u8)
    ensures
        word_of(high_byte(word), low_byte(word)) == word,
        high_byte(word_of(high, low)) == high,
        low_byte(word_of(high, low)) == low,
{
    reveal(high_byte);
    reveal(low_byte);
    reveal(word_of);
}

/// A byte register holds what was last written to it, and the write changes
/// no other byte register (so not the other half of its pair), no pair but
/// its own, and not the interrupt master enable.
pub proof fn law_register_write_read_8(regs: RegisterFile, register: Reg8, value: u8)
    ensures
        regs.write_8(register, value).read_8(register) == value,
        forall|other: Reg8|
            other != register ==> #[trigger] regs.write_8(register, value).read_8(other)
                == regs.read_8(other),
        forall|pair: Reg16|
            pair != register.pair() ==> #[trigger] regs.write_8(register, value).read_16(pair)
                == regs.read_16(pair),
        regs.write_8(register, value).ime == regs.ime,
{
    reveal(RegisterFile::read_8);
    reveal(RegisterFile::write_8);
    let pair = regs.read_16(register.pair());
    law_word_bytes(pair, value, low_byte(pair));
    law_word_bytes(pair, high_byte(pair), value);
}

/// A register pair holds what was last written to it, and the write changes
/// no other pair; its two halves are the two bytes of the word.
pub proof fn law_register_write_read_16(regs: RegisterFile, register: Reg16, value: u16)
    ensures
        regs.write_16(register, value).read_16(register) == value,
        forall|other: Reg16|
            other != register ==> #[trigger] regs.write_16(register, value).read_16(other)
                == regs.read_16(other),
        forall|half: Reg8|
            half.pair() == register ==> #[trigger] regs.write_16(register, value).read_8(half) == (
            if half.is_high() {
                high_byte(value)
            } else {
                low_byte(value)
            }),
        regs.write_16(register, value).ime == regs.ime,
{
    reveal(RegisterFile::read_8);
}

/// A byte written to main memory is read back from the same address, and
/// the write changes what is read at no other address.
pub proof fn law_memory_write_read_8(map: MemoryMap, address: u16, value: u8)
    requires
        map.wf(),
        address >= 0x8000,
    ensures
        map.write_8(address, value) matches Ok(next) && next.wf() && next.read_8(address) == value
            && next.rom == map.rom && next.bank == map.bank && forall|other: u16|
            other != address ==> #[trigger] next.read_8(other) == map.read_8(other),
{
    reveal(MemoryMap::read_8);
    reveal(MemoryMap::write_8);
}

/// A write below 0x8000 stores nothing: main memory and the cartridge image
/// stay as they were, whether the write is carried out or refused.
pub proof fn law_rom_is_not_written(map: MemoryMap, address: u16, value: u8)
    requires
        map.wf(),
        address < 0x8000,
    ensures
        map.write_8(address, value) matches Ok(next) ==> next.main == map.main && next.rom
            == map.rom,
        !(0x2000 <= address < 0x4000) ==> map.write_8(address, value) == Ok::<
            MemoryMap,
            crate::error::CoreError,
        >(map),
{
    reveal(MemoryMap::read_8);
    reveal(MemoryMap::write_8);
    reveal(MemoryMap::select_bank);
}

/// Between 0x4000 and 0x7FFF a read shows the selected bank. Selecting a
/// bank changes what is read there to the bytes of that bank, and changes
/// neither main memory nor the image nor what is read anywhere else.
pub proof fn law_bank_switch(map: MemoryMap, value: u8)
    requires
        map.wf(),
        value % 32 != 0,
        !map.bank_refused(value),
    ensures
        forall|address: u16|
            0x4000 <= address < 0x8000 ==> #[trigger] map.read_8(address) == map.rom[map.bank
                + address - 0x4000],
        map.select_bank(value) matches Ok(next) && next.wf() && next.main == map.main && next.rom
            == map.rom && next.bank == MemoryMap::bank_offset(value) && (forall|address: u16|
            0x4000 <= address < 0x8000 ==> #[trigger] next.read_8(address)
                == map.rom[MemoryMap::bank_offset(value) + address - 0x4000]) && (forall|
            address: u16,
        |
            !(0x4000 <= address < 0x8000) ==> #[trigger] next.read_8(address) == map.read_8(
                address,
            )),
{
    reveal(MemoryMap::read_8);
    reveal(MemoryMap::select_bank);
}

/// A word written to main memory is read back from the same address: the
/// two operations agree on the order of the bytes. The word must lie in
/// main memory whole, so not at 0xFFFF, where its second byte wraps to
/// address 0.
pub proof fn law_memory_write_read_16(map: MemoryMap, address: u16, value: u16)
    requires
        map.wf(),
        0x8000 <= address < 0xFFFF,
    ensures
        map.write_16(address, value) matches Ok(next) && next.wf() && next.read_16(address)
            == value && next.read_8(address) == low_byte(value) && next.read_8(
            (address + 1) as u16,
        ) == high_byte(value) && next.rom == map.rom && next.bank == map.bank,
{
    reveal(MemoryMap::read_8);
    reveal(MemoryMap::write_8);
    law_word_bytes(value, 0, 0);
}

/// The flags register holds the flags that were last put in it; putting
/// flags in it changes nothing else but the flags register, whose low four
/// bits stay.
pub proof fn law_flags_write_read(cpu: CpuState, flags: Flags)
    ensures
        cpu.set_flags(flags).flags() == flags,
        cpu.set_flags(flags).get_8(Reg8::F) % 16 == cpu.get_8(Reg8::F) % 16,
        forall|other: Reg8|
            other != Reg8::F ==> #[trigger] cpu.set_flags(flags).get_8(other) == cpu.get_8(other),
        forall|pair: Reg16|
            pair != Reg16::AF ==> #[trigger] cpu.set_flags(flags).get_16(pair) == cpu.get_16(pair),
        cpu.set_flags(flags).run == cpu.run,
        cpu.set_flags(flags).regs.ime == cpu.regs.ime,
{
    law_register_write_read_8(cpu.regs, Reg8::F, flags.into_byte(cpu.get_8(Reg8::F)));
    lemma_flags_round_trip(flags, cpu.get_8(Reg8::F));
}

/// The accumulator and the flags hold the result that was last put in them.
pub proof fn law_result_write_read(cpu: CpuState, value: u8, flags: Flags)
    ensures
        cpu.set_result(crate::alu::AluResult { value, flags }).a() == value,
        cpu.set_result(crate::alu::AluResult { value, flags }).flags() == flags,
        forall|pair: Reg16|
            pair != Reg16::AF ==> #[trigger] cpu.set_result(
                crate::alu::AluResult { value, flags },
            ).get_16(pair) == cpu.get_16(pair),
{
    let stored = cpu.set_8(Reg8::A, value);
    law_register_write_read_8(cpu.regs, Reg8::A, value);
    law_flags_write_read(stored, flags);
}

/// Subtracting the accumulator from itself gives 0 with the zero and
/// subtract flags set and the carry and half-carry flags clear, whatever the
/// accumulator held.
pub proof fn law_sub_a_a(cpu: CpuState, mem: MemoryMap)
    ensures
        cpu.sub_a_r(mem, Operand8::Reg(Reg8::A)).a() == 0,
        cpu.sub_a_r(mem, Operand8::Reg(Reg8::A)).flags() == (Flags {
            zero: true,
            subtract: true,
            half_carry: false,
            carry: false,
        }),
{
    reveal(spec_sub8);
    let result = spec_sub8(cpu.a(), cpu.a(), false);
    law_result_write_read(cpu, result.value, result.flags);
}

/// A bit test sets the zero flag exactly when the bit is 0, sets the
/// half-carry flag, clears the subtract flag, and changes neither the carry
/// flag nor any register but the flags.
pub proof fn law_bit_test(cpu: CpuState, mem: MemoryMap, operand: Operand8, n: u8)
    requires
        n < 8,
    ensures
        cpu.bit_n_r(mem, operand, n).flags() == (Flags {
            zero: !bit_is_set(cpu.register_or_memory(mem, operand), n),
            subtract: false,
            half_carry: true,
            carry: cpu.flags().carry,
        }),
        forall|other: Reg8|
            other != Reg8::F ==> #[trigger] cpu.bit_n_r(mem, operand, n).get_8(other) == cpu.get_8(
                other,
            ),
{
    reveal(spec_test_bit);
    law_flags_write_read(
        cpu,
        spec_test_bit(cpu.register_or_memory(mem, operand), n, cpu.flags()),
    );
}

/// What a push of AF stores has the accumulator as its high byte, and as its
/// low byte the flags register with its low four bits made 0, so with the
/// same four flags.
pub proof fn law_pushed_af(cpu: CpuState)
    ensures
        high_byte(cpu.pushed_value(Reg16::AF)) == cpu.get_8(Reg8::A),
        low_byte(cpu.pushed_value(Reg16::AF)) == cpu.get_8(Reg8::F) - cpu.get_8(Reg8::F) % 16,
        low_byte(cpu.pushed_value(Reg16::AF)) % 16 == 0,
        Flags::of_byte(low_byte(cpu.pushed_value(Reg16::AF))) == cpu.flags(),
{
    reveal(RegisterFile::read_8);
    reveal(high_byte);
    reveal(low_byte);
    reveal(Flags::of_byte);
    lemma_clear_low_nibble(cpu.regs.af);
}

/// A push followed by a pop of the same register pair, with the two bytes
/// under the stack pointer in main memory, leaves the stack pointer where it
/// was and the pair with
/// the value that was pushed: its own for BC, DE, HL and PC, and for AF its
/// own with the low four bits of the flags register made 0.
pub proof fn law_push_pop(cpu: CpuState, mem: MemoryMap, register: Reg16)
    requires
        mem.wf(),
        0x8000 <= cpu.sp().wrapping_sub(2) < 0xFFFF,
        register != Reg16::SP,
    ensures
        cpu.push(mem, register) matches Ok(pushed) && pushed.mem.wf() && pushed.cpu.sp()
            == cpu.sp().wrapping_sub(2) && pushed.mem.read_16(pushed.cpu.sp())
            == cpu.pushed_value(register)
            && pushed.cpu.pop(pushed.mem, register) == cpu.set_16(
            register,
            cpu.pushed_value(register),
        ),
        register != Reg16::AF ==> cpu.pushed_value(register) == cpu.get_16(register),
{
    let top = cpu.sp().wrapping_sub(2);
    let value = cpu.pushed_value(register);
    law_memory_write_read_16(mem, top, value);
    let pushed = cpu.push(mem, register)->Ok_0;
    assert(pushed.cpu == cpu.set_16(Reg16::SP, top));
    let loaded = pushed.cpu.set_16(register, value);
    assert(loaded.sp() == top);
    assert(loaded.set_16(Reg16::SP, cpu.sp()).regs == cpu.set_16(register, value).regs);
}

/// A call, with the two bytes under the stack pointer in main memory, takes
/// 2 from the stack pointer, leaves on the stack the address of the
/// instruction after the call, which is the address of the call plus its
/// encoded length of 3, and jumps to its target. A return after it puts that
/// address in the program counter and the stack pointer back where it was.
pub proof fn law_call_ret(cpu: CpuState, mem: MemoryMap)
    requires
        mem.wf(),
        0x8000 <= cpu.sp().wrapping_sub(2) < 0xFFFF,
    ensures
        OPCODE_LENGTHS[0xCD] == 3,
        cpu.call_nn(mem) matches Ok(called) && called.mem.wf() && called.cpu.sp()
            == cpu.sp().wrapping_sub(2) && called.mem.read_16(called.cpu.sp()) == cpu.pc().wrapping_add(3) && called.cpu.pc()
            == cpu.immediate_16(mem) && called.cpu.ret(called.mem).pc() == cpu.pc().wrapping_add(3)
            && called.cpu.ret(called.mem).sp() == cpu.sp(),
{
    let top = cpu.sp().wrapping_sub(2);
    law_memory_write_read_16(mem, top, cpu.pc().wrapping_add(3));
}

/// A step on the opcode of a call is that call, and a step on the opcode
/// of a return is that return: neither moves the program counter on after
/// the jump.
#[verifier::rlimit(60)]
pub proof fn law_step_call_ret(machine: Machine)
    requires
        machine.mem.wf(),
        machine.cpu.run == RunState::Running,
    ensures
        machine.mem.read_8(machine.cpu.pc()) == 0xCD ==> (match machine.cpu.call_nn(machine.mem) {
            Ok(called) => machine.step() matches Ok(stepped) && stepped.machine.cpu
                == called.cpu.elapse(24) && stepped.machine.mem == called.mem
                && stepped.outcome.jumped,
            Err(e) => machine.step() matches Err(f) && f == e,
        }),
        machine.mem.read_8(machine.cpu.pc()) == 0xC9 ==> (machine.step() matches Ok(stepped)
            && stepped.machine.cpu == machine.cpu.ret(machine.mem).elapse(16)
            && stepped.machine.mem == machine.mem && stepped.outcome.jumped),
{
}

/// A jump on the zero flag (opcode 0xCA) with the flag set puts its target
/// in the program counter; with the flag clear the program counter goes on
/// by the three bytes of the instruction. Nothing else changes.
#[verifier::rlimit(60)]
pub proof fn law_conditional_jump(machine: Machine)
    requires
        machine.mem.wf(),
        machine.cpu.run == RunState::Running,
        machine.mem.read_8(machine.cpu.pc()) == 0xCA,
    ensures
        machine.step() matches Ok(stepped) && stepped.machine.mem == machine.mem
            && stepped.machine.cpu == machine.cpu.elapse(16).set_16(
            Reg16::PC,
            if machine.cpu.flags().zero {
                machine.cpu.immediate_16(machine.mem)
            } else {
                machine.cpu.pc().wrapping_add(3)
            },
        ) && stepped.outcome.jumped == machine.cpu.flags().zero,
        Condition::Zero.holds(machine.cpu.flags()) == machine.cpu.flags().zero,
{
}

/// A jump, call or return on a condition is carried out exactly when the
/// flags meet the condition, and a jump or return that is not changes
/// nothing.
pub proof fn law_condition_not_met(cpu: CpuState, mem: MemoryMap, condition: Condition)
    requires
        !condition.holds(cpu.flags()),
    ensures
        cpu.jr_f_e(mem, condition) == cpu,
        cpu.jp_f_nn(mem, condition) == cpu,
        cpu.ret_f(mem, condition) == cpu,
        cpu.call_f_nn(mem, condition) == Ok::<Machine, crate::error::CoreError>(
            Machine { cpu, mem },
        ),
{
}

/// The opcodes listed with length 0 are those the processor leaves
/// undefined; every other opcode is 1 to 3 bytes long, and a prefixed
/// instruction is 2 bytes long.
pub proof fn law_opcode_lengths(opcode: u8)
    ensures
        is_illegal(opcode) <==> OPCODE_LENGTHS[opcode as int] == 0,
        !is_illegal(opcode) ==> 1 <= OPCODE_LENGTHS[opcode as int] <= 3,
        OPCODE_LENGTHS_CB[opcode as int] == 2,
{
}

} // verus!
