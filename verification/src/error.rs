use vstd::prelude::*;

verus! {

/// What the core reports to the driver instead of continuing.
#[derive(Clone, Copy, Debug, PartialEq, Eq, Structural)]
pub enum CoreError {
    /// The byte at the program counter is one the processor leaves undefined.
    IllegalOpcode(u8),
    /// A register was named that the register file does not have.
    InvalidRegister,
    /// A ROM bank was asked for that the cartridge image does not hold.
    BankOutOfRange,
}

impl CoreError {
    /// A short description for logs and messages.
    pub fn describe(&self) -> (text: &'static str)
        ensures
            text@ == match *self {
                CoreError::IllegalOpcode(_) => "illegal opcode"@,
                CoreError::InvalidRegister => "invalid register name"@,
                CoreError::BankOutOfRange => "ROM bank out of range"@,
            },
    {
        match self {
            CoreError::IllegalOpcode(_) => "illegal opcode",
            CoreError::InvalidRegister => "invalid register name",
            CoreError::BankOutOfRange => "ROM bank out of range",
        }
    }
}

} // verus!
